//! Identity tags: every tag mixes the build version into a hash of the node's identity.

use std::collections::hash_map::DefaultHasher;
use std::hash::Hasher;
use vstd::prelude::*;
use vstd::utf8::encode_utf8;
use vstd::std_specs::hash::DefaultHasherAdditionalSpecFns;

verus! {

/// What the hasher yields after the build version and two identity parts were written to it,
/// in that order.
pub open spec fn identity_hash(version: Seq<char>, x: Seq<char>, y: Seq<char>) -> u64 {
    DefaultHasher::spec_finish(
        seq![
            encode_utf8(version),
            encode_utf8(x),
            encode_utf8(y),
        ],
    )
}

/// What the hasher yields after the build version and a payload were written to it.
pub open spec fn content_hash(version: Seq<char>, bytes: Seq<u8>) -> u64 {
    DefaultHasher::spec_finish(seq![encode_utf8(version), bytes])
}

/// Hash of the build version followed by a byte payload.
pub fn make_hash_of_bytes(version: &str, x: &[u8]) -> (hash: u64)
    ensures
        hash == content_hash(version@, x@),
{
    let mut hasher = DefaultHasher::new();
    hasher.write(version.as_bytes());
    hasher.write(x);
    assert(hasher@ =~= seq![encode_utf8(version@), x@]);
    hasher.finish()
}

/// Hash of the build version followed by two identity strings.
pub fn make_hash(version: &str, x: &str, y: &str) -> (hash: u64)
    ensures
        hash == identity_hash(version@, x@, y@),
{
    let mut hasher = DefaultHasher::new();
    hasher.write(version.as_bytes());
    hasher.write(x.as_bytes());
    hasher.write(y.as_bytes());
    assert(hasher@ =~= seq![
        encode_utf8(version@),
        encode_utf8(x@),
        encode_utf8(y@),
    ]);
    hasher.finish()
}

} // verus!
