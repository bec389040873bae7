//! SHA-256 digests, as computed by `ic_representation_independent_hash`.

use vstd::prelude::*;
use vstd::string::StringSliceAdditionalSpecFns;

verus! {

/// The SHA-256 digest of a byte string.
pub uninterp spec fn sha256(data: Seq<u8>) -> Seq<u8>;

/// `ic_representation_independent_hash::hash` feeds the whole slice to a fresh
/// SHA-256 hasher and returns the finished digest. Nothing here is proved of
/// it: the digest is taken to be a function of the bytes alone, and its length
/// is that of the array it comes in.
pub assume_specification[ ic_representation_independent_hash::hash ](
    data: &[u8],
) -> (digest: ic_representation_independent_hash::Sha256Digest)
    ensures
        digest@ == sha256(data@),
;

/// Hashes the UTF-8 bytes of a text.
pub fn hash_text(text: &str) -> (digest: [u8; 32])
    ensures
        digest@ == sha256(text.spec_bytes()),
{
    ic_representation_independent_hash::hash(text.as_bytes())
}

} // verus!
