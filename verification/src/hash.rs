use vstd::prelude::*;

verus! {

/// The 64-bit XXH3 digest of a byte string, with the default seed and secret.
pub uninterp spec fn xxh3_64_digest(input: Seq<u8>) -> u64;

/// Calls `xxhash_rust::xxh3::xxh3_64`. The digest is a function of the input
/// bytes alone; nothing else is claimed of it.
#[verifier::external_body]
pub(crate) fn xxh3_64(input: &[u8]) -> (digest: u64)
    ensures
        digest == xxh3_64_digest(input@),
{
    xxhash_rust::xxh3::xxh3_64(input)
}

} // verus!
