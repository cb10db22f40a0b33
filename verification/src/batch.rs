//! The batch scheduler.
//!
//! A batch is validated as a pre-pass, in input order, before any
//! computation is scheduled: the first invalid blob aborts the whole batch
//! with its exact validation error, and no work is spent on it. Validated
//! blobs are then computed — sequentially by `run`, or fanned out over the
//! worker pool by `run_parallel` — and the results are collected in input
//! order, whatever the completion order. The two modes promise the same
//! successful outcome; the caller receives either a full ordered result
//! list or a single error, never a partial list.

use vstd::prelude::*;
use rayon::iter::IndexedParallelIterator;
use rayon::iter::IntoParallelRefIterator;
use rayon::iter::ParallelIterator;
use crate::backend::cell_proofs_of;
use crate::blob::Blob;
use crate::blob::blob_error_spec;
use crate::blob::blob_valid;
use crate::engine::ProofBundle;
use crate::engine::bundle_shape_ok;
use crate::engine::compute;
use crate::errors::BatchError;
use crate::setup::TrustedSetup;

verus! {

/// Whether every byte string in a batch is a valid blob.
pub open spec fn all_valid(blobs: Seq<Seq<u8>>) -> bool {
    forall|i: int| 0 <= i < blobs.len() ==> blob_valid(#[trigger] blobs[i])
}

/// The exact failure a batch reports: if any blob is invalid, the first
/// invalid blob's index with its exact validation error; otherwise a
/// backend failure attributed to one item.
pub open spec fn batch_error_spec(blobs: Seq<Seq<u8>>, e: BatchError) -> bool {
    if !all_valid(blobs) {
        &&& e matches BatchError::Invalid { index, error }
        &&& index < blobs.len()
        &&& !blob_valid(blobs[index as int])
        &&& forall|j: int| 0 <= j < index ==> blob_valid(#[trigger] blobs[j])
        &&& blob_error_spec(blobs[index as int], error)
    } else {
        &&& e matches BatchError::Compute { index, error }
        &&& index < blobs.len()
        &&& error is BackendFailure
    }
}

/// Whether `bundles` is the successful outcome for `blobs` under the setup
/// buffers: one bundle of the protocol shape per blob, in input order.
pub open spec fn batch_output_ok(
    g1m: Seq<u8>,
    g1l: Seq<u8>,
    g2m: Seq<u8>,
    blobs: Seq<Seq<u8>>,
    bundles: Seq<Seq<Seq<u8>>>,
) -> bool {
    &&& bundles.len() == blobs.len()
    &&& forall|i: int|
        0 <= i < blobs.len() ==> #[trigger] bundles[i] == cell_proofs_of(g1m, g1l, g2m, blobs[i])
    &&& forall|i: int| 0 <= i < bundles.len() ==> bundle_shape_ok(#[trigger] bundles[i])
}

/// Validates every blob of a batch, in input order, before any computation:
/// accepts them all or stops at the first invalid one with its exact error.
fn validate_all(blobs: &Vec<Vec<u8>>) -> (r: Result<Vec<Blob>, BatchError>)
    ensures
        r matches Ok(v) ==> all_valid(blobs.deep_view()) && v@.len() == blobs@.len() && forall|
            i: int,
        | 0 <= i < v@.len() ==> (#[trigger] v@[i])@ == blobs.deep_view()[i],
        r matches Err(e) ==> !all_valid(blobs.deep_view()) && batch_error_spec(
            blobs.deep_view(),
            e,
        ),
{
    let ghost bs = blobs.deep_view();
    let n = blobs.len();
    let mut validated: Vec<Blob> = Vec::new();
    let mut i: usize = 0;
    while i < n
        invariant
            n == blobs@.len(),
            bs == blobs.deep_view(),
            i <= n,
            validated@.len() == i,
            forall|j: int| 0 <= j < i ==> blob_valid(#[trigger] bs[j]),
            forall|j: int| 0 <= j < i ==> (#[trigger] validated@[j])@ == bs[j],
        decreases n - i,
    {
        proof {
            assert(bs[i as int] =~= blobs@[i as int]@);
        }
        match Blob::validate(&blobs[i]) {
            Ok(b) => validated.push(b),
            Err(error) => {
                return Err(BatchError::Invalid { index: i, error });
            },
        }
        i = i + 1;
    }
    Ok(validated)
}

/// Runs a batch sequentially: validates every blob first, then computes one
/// bundle per blob in input order. The outcome is a full ordered result
/// list, the first invalid blob's error, or one item's backend failure.
pub fn run(setup: &TrustedSetup, blobs: &Vec<Vec<u8>>) -> (r: Result<Vec<ProofBundle>, BatchError>)
    ensures
        r matches Ok(bundles) ==> all_valid(blobs.deep_view()) && batch_output_ok(
            setup.g1m(),
            setup.g1l(),
            setup.g2m(),
            blobs.deep_view(),
            bundles.deep_view(),
        ),
        r matches Err(e) ==> batch_error_spec(blobs.deep_view(), e),
        !all_valid(blobs.deep_view()) ==> (r matches Err(e) && e is Invalid),
{
    let validated = match validate_all(blobs) {
        Ok(v) => v,
        Err(e) => {
            return Err(e);
        },
    };
    let n = validated.len();
    let mut bundles: Vec<ProofBundle> = Vec::new();
    let mut k: usize = 0;
    while k < n
        invariant
            n == validated@.len() == blobs@.len(),
            k <= n,
            bundles@.len() == k,
            all_valid(blobs.deep_view()),
            forall|i: int|
                0 <= i < n ==> (#[trigger] validated@[i])@ == blobs.deep_view()[i],
            forall|i: int|
                0 <= i < k ==> #[trigger] bundles.deep_view()[i] == cell_proofs_of(
                    setup.g1m(),
                    setup.g1l(),
                    setup.g2m(),
                    blobs.deep_view()[i],
                ),
            forall|i: int| 0 <= i < k ==> bundle_shape_ok(#[trigger] bundles.deep_view()[i]),
        decreases n - k,
    {
        match compute(setup, &validated[k]) {
            Ok(bundle) => {
                let ghost prev = bundles@;
                let ghost prev_dv = bundles.deep_view();
                let ghost gb = bundle@;
                bundles.push(bundle);
                proof {
                    assert forall|i: int| 0 <= i < k + 1 implies #[trigger] bundles.deep_view()[i]
                        == cell_proofs_of(
                        setup.g1m(),
                        setup.g1l(),
                        setup.g2m(),
                        blobs.deep_view()[i],
                    ) by {
                        assert(bundles.deep_view()[i] == bundles@[i].deep_view());
                        if i < k {
                            assert(bundles@[i] == prev[i]);
                            assert(prev_dv[i] == prev[i].deep_view());
                        } else {
                            assert(bundles@[i].deep_view() == gb);
                            assert(validated@[i]@ == blobs.deep_view()[i]);
                        }
                    }
                    assert forall|i: int| 0 <= i < k + 1 implies bundle_shape_ok(
                        #[trigger] bundles.deep_view()[i],
                    ) by {
                        assert(bundles.deep_view()[i] == bundles@[i].deep_view());
                        if i < k {
                            assert(bundles@[i] == prev[i]);
                            assert(prev_dv[i] == prev[i].deep_view());
                        } else {
                            assert(bundles@[i].deep_view() == gb);
                        }
                    }
                }
            },
            Err(error) => {
                return Err(BatchError::Compute { index: k, error });
            },
        }
        k = k + 1;
    }
    Ok(bundles)
}

/// Runs a batch as `run` does, with the same contract, but fans the
/// per-blob computations out over the bounded worker pool. The successful
/// outcome is identical to sequential execution; on a backend failure the
/// attributed index may be any failing item's.
pub fn run_parallel(setup: &TrustedSetup, blobs: &Vec<Vec<u8>>) -> (r: Result<
    Vec<ProofBundle>,
    BatchError,
>)
    ensures
        r matches Ok(bundles) ==> all_valid(blobs.deep_view()) && batch_output_ok(
            setup.g1m(),
            setup.g1l(),
            setup.g2m(),
            blobs.deep_view(),
            bundles.deep_view(),
        ),
        r matches Err(e) ==> batch_error_spec(blobs.deep_view(), e),
        !all_valid(blobs.deep_view()) ==> (r matches Err(e) && e is Invalid),
{
    let validated = match validate_all(blobs) {
        Ok(v) => v,
        Err(e) => {
            return Err(e);
        },
    };
    match par_compute(setup, &validated) {
        Ok(bundles) => {
            proof {
                assert forall|i: int| 0 <= i < blobs.deep_view().len() implies #[trigger] bundles
                    .deep_view()[i] == cell_proofs_of(
                    setup.g1m(),
                    setup.g1l(),
                    setup.g2m(),
                    blobs.deep_view()[i],
                ) by {
                    assert(validated@[i]@ == blobs.deep_view()[i]);
                }
            }
            Ok(bundles)
        },
        Err(e) => Err(e),
    }
}

/// Computes one batch item; a failure carries the item's index.
fn compute_indexed(setup: &TrustedSetup, index: usize, blob: &Blob) -> (r: Result<
    ProofBundle,
    BatchError,
>)
    ensures
        r matches Ok(bundle) ==> bundle@ == cell_proofs_of(
            setup.g1m(),
            setup.g1l(),
            setup.g2m(),
            blob@,
        ),
        r matches Err(e) ==> (e matches BatchError::Compute { index: at, error } && at == index
            && error is BackendFailure),
{
    match compute(setup, blob) {
        Ok(bundle) => Ok(bundle),
        Err(error) => Err(BatchError::Compute { index, error }),
    }
}

/// Relies on rayon's parallel iterators (par_iter, enumerate, map, collect):
/// the closure — one call of the verified per-item computation above — is
/// applied to every blob on the worker pool; collecting into Result keeps
/// input order on success and hands back one failing item's error otherwise.
/// This contract restates the per-item contract over the whole batch.
#[verifier::external_body]
fn par_compute(setup: &TrustedSetup, blobs: &Vec<Blob>) -> (r: Result<Vec<ProofBundle>, BatchError>)
    ensures
        r matches Ok(bundles) ==> bundles@.len() == blobs@.len() && (forall|i: int|
            0 <= i < blobs@.len() ==> #[trigger] bundles.deep_view()[i] == cell_proofs_of(
                setup.g1m(),
                setup.g1l(),
                setup.g2m(),
                blobs@[i]@,
            )) && (forall|i: int|
            0 <= i < blobs@.len() ==> bundle_shape_ok(#[trigger] bundles.deep_view()[i])),
        r matches Err(e) ==> (e matches BatchError::Compute { index, error } && index
            < blobs@.len() && error is BackendFailure),
{
    blobs.par_iter().enumerate().map(|(i, b)| compute_indexed(setup, i, b)).collect()
}

} // verus!
