//! Cross-function laws, proved over the same spec functions that the
//! executable contracts state.

use vstd::prelude::*;
use crate::backend::cell_proofs_of;
use crate::batch::batch_output_ok;

verus! {

/// Determinism of the proof computation: two bundles computed over the same
/// setup buffers and the same blob bytes are byte-identical.
pub proof fn lemma_compute_deterministic(
    g1m: Seq<u8>,
    g1l: Seq<u8>,
    g2m: Seq<u8>,
    blob: Seq<u8>,
    r1: Seq<Seq<u8>>,
    r2: Seq<Seq<u8>>,
)
    requires
        r1 == cell_proofs_of(g1m, g1l, g2m, blob),
        r2 == cell_proofs_of(g1m, g1l, g2m, blob),
    ensures
        r1 == r2,
{
}

/// Any two successful outcomes of one batch over the same setup buffers are
/// the same ordered bundle list: running a batch twice, or sequentially and
/// in parallel, yields identical results, and the i-th bundle belongs to
/// the i-th input blob however the work was scheduled.
pub proof fn lemma_batch_outcome_unique(
    g1m: Seq<u8>,
    g1l: Seq<u8>,
    g2m: Seq<u8>,
    blobs: Seq<Seq<u8>>,
    r1: Seq<Seq<Seq<u8>>>,
    r2: Seq<Seq<Seq<u8>>>,
)
    requires
        batch_output_ok(g1m, g1l, g2m, blobs, r1),
        batch_output_ok(g1m, g1l, g2m, blobs, r2),
    ensures
        r1 == r2,
{
    assert(r1 =~= r2);
}

} // verus!
