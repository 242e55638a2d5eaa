//! Fingerprints of byte content, used to tell whether the clipboard changed.

use std::collections::hash_map::DefaultHasher;
use std::hash::Hasher;
use vstd::prelude::*;
use vstd::std_specs::hash::DefaultHasherAdditionalSpecFns;

verus! {

/// The fingerprint of a byte sequence: the digest that the standard
/// library's default hasher reports after the bytes were written to it in
/// one piece.
pub open spec fn fingerprint(data: Seq<u8>) -> u64 {
    DefaultHasher::spec_finish(seq![data])
}

/// Computes the fingerprint of `data`. The result depends on the bytes
/// alone, so equal content always has the equal fingerprint.
pub fn calculate_hash(data: &[u8]) -> (digest: u64)
    ensures
        digest == fingerprint(data@),
{
    let mut hasher = DefaultHasher::new();
    hasher.write(data);
    assert(hasher@ =~= seq![data@]);
    hasher.finish()
}

/// Equal byte sequences have equal fingerprints.
pub proof fn law_equal_content_equal_fingerprint(a: Seq<u8>, b: Seq<u8>)
    requires
        a == b,
    ensures
        fingerprint(a) == fingerprint(b),
{
}

} // verus!
