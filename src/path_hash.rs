use vstd::prelude::*;
use vstd::bytes::{spec_u64_to_le_bytes, u64_to_le_bytes};
use vstd::std_specs::hash::DefaultHasherAdditionalSpecFns;
use std::collections::hash_map::DefaultHasher;
use std::hash::Hasher;

verus! {

/// What is fed to the hasher for a path: each edge index as eight
/// little-endian bytes, in path order.
pub open spec fn path_hash_writes(edges: Seq<usize>) -> Seq<Seq<u8>> {
    edges.map_values(|e: usize| spec_u64_to_le_bytes(e as u64))
}

/// The hash of an ordered edge-index list.
pub open spec fn spec_path_hash(edges: Seq<usize>) -> u64 {
    DefaultHasher::spec_finish(path_hash_writes(edges))
}

/// Deterministic hash of an ordered edge-index list, used to count how
/// often each path is revisited.
pub fn path_hash(edges: &[usize]) -> (h: u64)
    ensures
        h == spec_path_hash(edges@),
{
    let mut hasher = DefaultHasher::new();
    let mut i: usize = 0;
    while i < edges.len()
        invariant
            i <= edges@.len(),
            hasher@ == path_hash_writes(edges@.subrange(0, i as int)),
        decreases edges@.len() - i,
    {
        let bytes = u64_to_le_bytes(edges[i] as u64);
        hasher.write(bytes.as_slice());
        assert(path_hash_writes(edges@.subrange(0, i + 1)) =~= path_hash_writes(
            edges@.subrange(0, i as int),
        ).push(spec_u64_to_le_bytes(edges@[i as int] as u64)));
        i = i + 1;
    }
    assert(edges@.subrange(0, i as int) =~= edges@);
    hasher.finish()
}

} // verus!
