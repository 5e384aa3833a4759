//! The integrity check of a downloaded payload against an expected SHA-256
//! digest. Fetching the payload and writing it out happen around this check.
use vstd::prelude::*;

verus! {

/// Why a downloaded payload was refused.
#[derive(Debug, Clone, Copy, PartialEq, Eq, Structural)]
pub enum DownloadError {
    /// The SHA-256 digest of the payload differs from the expected one.
    DigestMismatch,
}

/// The SHA-256 digest of `data`.
pub uninterp spec fn sha256_of(data: Seq<u8>) -> Seq<u8>;

/// Relies on `sha2::Sha256` through `sha2::Digest::digest`: the SHA-256
/// digest of `data`, 32 bytes.
#[verifier::external_body]
fn sha256(data: &[u8]) -> (r: [u8; 32])
    ensures
        r@ == sha256_of(data@),
{
    <sha2::Sha256 as sha2::Digest>::digest(data).into()
}

/// Whether a payload passes the check: no digest is expected, or the expected
/// one is the payload's SHA-256 digest.
pub open spec fn payload_accepted(body: Seq<u8>, expected: Option<[u8; 32]>) -> bool {
    match expected {
        None => true,
        Some(d) => d@ == sha256_of(body),
    }
}

/// Whether two digests are equal, byte for byte.
pub fn digest_matches(expected: &[u8; 32], actual: &[u8; 32]) -> (r: bool)
    ensures
        r == (expected@ == actual@),
{
    let mut i: usize = 0;
    while i < 32
        invariant
            i <= 32,
            forall|j: int| 0 <= j < i ==> expected@[j] == actual@[j],
        decreases 32 - i,
    {
        if expected[i] != actual[i] {
            return false;
        }
        i = i + 1;
    }
    assert(expected@ =~= actual@);
    true
}

/// Check a payload against the expected digest, if any, before it is kept.
/// Gives the number of bytes of an accepted payload.
pub fn check_payload(body: &[u8], expected: Option<[u8; 32]>) -> (r: Result<usize, DownloadError>)
    ensures
        r is Ok <==> payload_accepted(body@, expected),
        r is Ok ==> r->Ok_0 == body@.len(),
        r is Err ==> r->Err_0 == DownloadError::DigestMismatch,
{
    match expected {
        None => Ok(body.len()),
        Some(d) => {
            let actual = sha256(body);
            if digest_matches(&d, &actual) {
                Ok(body.len())
            } else {
                Err(DownloadError::DigestMismatch)
            }
        },
    }
}

/// A payload is accepted when the expected digest is its own, and refused
/// when it is any other.
pub proof fn lemma_payload_accepted_iff_digest_is_its_own(body: Seq<u8>, d: [u8; 32])
    ensures
        d@ == sha256_of(body) ==> payload_accepted(body, Some(d)),
        d@ != sha256_of(body) ==> !payload_accepted(body, Some(d)),
{
}

} // verus!
