//! Ingestion core for an editor-activity telemetry service.
//!
//! Batches of heartbeat records arrive over HTTP, are checked against a
//! shared-secret credential, optionally stamped with a caller-supplied
//! machine name, and handed to a storage repository. This crate holds the
//! verified pipeline: the authentication gate, the wire-to-domain
//! transformation with its batch-wide override, the repository capability,
//! and the handler that orchestrates them.

pub mod auth;
pub mod db;
pub mod handler;
pub mod iterext;
pub mod model;
