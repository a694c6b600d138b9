//! The authentication gate: a process-wide expected credential, computed
//! once at startup, and an exact-equality check of the caller's
//! `Authorization` header against it.

use vstd::prelude::*;
use vstd::string::StringExecFns;
use vstd::string::StringSliceAdditionalSpecFns;

verus! {

/// The base64 encoding (standard alphabet, with padding) of a byte string.
/// Its exact shape is left to the encoder; the contracts of this crate
/// only pass it along.
pub uninterp spec fn base64_of(bytes: Seq<u8>) -> Seq<char>;

/// Relies on base64::encode (standard alphabet, with padding): the
/// encoding depends on the input bytes alone, and the padded output holds
/// four characters for every three input bytes, the last chunk rounded up.
#[verifier::external_body]
fn base64_encode(secret: &str) -> (r: String)
    ensures
        r@ == base64_of(secret.spec_bytes()),
        r@.len() == 4 * ((secret.spec_bytes().len() + 2) / 3),
{
    base64::encode(secret.as_bytes())
}

/// The one credential value the service accepts: an HTTP "Basic"
/// credential embedding the base64 encoding of the shared secret.
pub open spec fn spec_credential(secret_bytes: Seq<u8>) -> Seq<char> {
    "Basic "@ + base64_of(secret_bytes)
}

/// Compute the expected `Authorization` header value for a shared secret.
/// Done once at startup; every request is compared against the result.
pub fn expected_credential(secret: &str) -> (r: String)
    ensures
        r@ == spec_credential(secret.spec_bytes()),
{
    let encoded = base64_encode(secret);
    let prefix = String::from_str("Basic ");
    prefix.concat(encoded.as_str())
}

/// Whether a caller's `Authorization` header is acceptable: it must be
/// present and exactly equal to the expected credential, compared as one
/// opaque token.
pub open spec fn credential_matches(auth: Option<String>, key: Seq<char>) -> bool {
    match auth {
        Some(k) => k@ == key,
        None => false,
    }
}

/// The comparison itself: exact equality of the full header value
/// against the expected credential. Absent or mismatched headers are
/// rejected.
pub fn authorize(auth: &Option<String>, key: &str) -> (r: bool)
    ensures
        r == credential_matches(*auth, key@),
{
    match auth {
        Some(k) => *k == key.to_owned(),
        None => false,
    }
}

} // verus!
