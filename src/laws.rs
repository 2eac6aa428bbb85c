//! Properties that hold of every algorithm and every input.
use vstd::prelude::*;
use crate::algorithm::Algorithm;
use crate::engine::concat;

verus! {

/// Cutting an input into chunks does not change its checksum: the checksum of
/// any sequence of chunks is that of the single chunk holding all their bytes.
pub proof fn lemma_chunking_irrelevant(alg: Algorithm, chunks: Seq<Vec<u8>>, whole: Vec<u8>)
    requires
        whole@ == concat(chunks),
    ensures
        alg.checksum_spec(concat(chunks)) == alg.checksum_spec(concat(seq![whole])),
{
    assert(seq![whole].map_values(|c: Vec<u8>| c@) =~= seq![whole@]);
    seq![whole@].lemma_flatten_singleton();
}

} // verus!
