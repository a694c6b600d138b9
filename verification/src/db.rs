//! The storage capability: persist a batch of heartbeats as a whole.
//!
//! The ingestion handler is written against this trait so that a storage
//! backend can be swapped without touching handler logic. The in-memory
//! implementation below backs the tests; a document-store implementation
//! lives with the process plumbing, outside this crate's proofs.

use crate::model::HeartBeat;
use vstd::prelude::*;
use vstd::string::StringExecFns;

verus! {

/// A whole-batch persistence failure, wrapped with diagnostic context.
/// The context is meant for server-side logs and is never part of the
/// response a caller sees.
pub struct RepoError {
    pub context: String,
}

/// The abstract "persist a sequence of heartbeats" capability. A batch
/// either succeeds as a whole or fails as a whole: no partial success is
/// ever reported, whatever the backend managed to write.
pub trait HeartBeatRepository: Sized {
    /// The batches this repository reports as persisted, oldest first.
    spec fn saved(&self) -> Seq<Seq<HeartBeat>>;

    /// Persist one batch. On success the whole batch, in order, is
    /// appended to the persisted history; on failure the history is
    /// reported unchanged.
    fn save(&mut self, heartbeats: Vec<HeartBeat>) -> (r: Result<(), RepoError>)
        ensures
            r is Ok ==> final(self).saved() == old(self).saved().push(heartbeats@),
            r is Err ==> final(self).saved() == old(self).saved(),
    ;
}

/// An in-memory repository: batches are kept in a vector, and the
/// repository can be told to refuse every save, standing in for a backend
/// that is down.
pub struct MemRepository {
    pub batches: Vec<Vec<HeartBeat>>,
    pub fail_requests: bool,
}

impl MemRepository {
    /// A fresh repository with nothing persisted, accepting saves.
    pub fn new() -> (r: MemRepository)
        ensures
            r.saved() == Seq::<Seq<HeartBeat>>::empty(),
            !r.fail_requests,
    {
        let r = MemRepository { batches: Vec::new(), fail_requests: false };
        proof {
            assert(r.saved() =~= Seq::<Seq<HeartBeat>>::empty());
        }
        r
    }

    /// A repository that refuses every save, for exercising the failure
    /// path of the pipeline.
    pub fn failing() -> (r: MemRepository)
        ensures
            r.saved() == Seq::<Seq<HeartBeat>>::empty(),
            r.fail_requests,
    {
        let r = MemRepository { batches: Vec::new(), fail_requests: true };
        proof {
            assert(r.saved() =~= Seq::<Seq<HeartBeat>>::empty());
        }
        r
    }
}

impl HeartBeatRepository for MemRepository {
    open spec fn saved(&self) -> Seq<Seq<HeartBeat>> {
        self.batches@.map_values(|b: Vec<HeartBeat>| b@)
    }

    fn save(&mut self, heartbeats: Vec<HeartBeat>) -> (r: Result<(), RepoError>)
        ensures
            r is Ok <==> !old(self).fail_requests,
            final(self).fail_requests == old(self).fail_requests,
    {
        if self.fail_requests {
            Err(RepoError { context: String::from_str("in-memory repository was told to fail") })
        } else {
            let ghost before = self.batches@;
            let ghost batch_view = heartbeats@;
            self.batches.push(heartbeats);
            proof {
                assert(self.batches@.map_values(|b: Vec<HeartBeat>| b@) =~= before.map_values(
                    |b: Vec<HeartBeat>| b@,
                ).push(batch_view));
            }
            Ok(())
        }
    }
}

} // verus!
