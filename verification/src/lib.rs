//! Concurrent KZG cell-proof computation over a fixed trusted setup.
//!
//! The library holds an immutable set of elliptic-curve parameters (the
//! trusted setup), validates untrusted byte buffers against strict size and
//! encoding invariants before they reach the cryptographic backend, computes
//! one fixed-length proof bundle per data blob, and schedules batches of
//! blobs so that the result order always matches the input order and the
//! first invalid input aborts the whole batch.

use vstd::prelude::*;

mod backend;
mod batch;
mod blob;
mod engine;
mod errors;
mod field;
mod hexenc;
mod laws;
mod protocol;
mod setup;

pub use backend::cell_proofs_of;
pub use backend::setup_accepted;
pub use batch::all_valid;
pub use batch::batch_error_spec;
pub use batch::batch_output_ok;
pub use batch::run;
pub use batch::run_parallel;
pub use blob::Blob;
pub use blob::blob_canonical;
pub use blob::blob_error_spec;
pub use blob::blob_valid;
pub use engine::ProofBundle;
pub use engine::bundle_shape_ok;
pub use engine::compute;
pub use errors::BatchError;
pub use errors::ComputeError;
pub use errors::SetupBuffer;
pub use errors::SetupFault;
pub use errors::ValidationError;
pub use field::be_val;
pub use field::bls_modulus_bytes;
pub use field::blob_fe;
pub use field::fe_canonical;
pub use hexenc::hex_of;
pub use hexenc::hex_texts_of;
pub use laws::lemma_batch_outcome_unique;
pub use laws::lemma_compute_deterministic;
pub use protocol::BYTES_PER_BLOB;
pub use protocol::BYTES_PER_FIELD_ELEMENT;
pub use protocol::BYTES_PER_G1_POINT;
pub use protocol::BYTES_PER_G2_POINT;
pub use protocol::BYTES_PER_PROOF;
pub use protocol::CELLS_PER_EXT_BLOB;
pub use protocol::FIELD_ELEMENTS_PER_BLOB;
pub use setup::TrustedSetup;
pub use setup::setup_error_spec;
pub use setup::setup_shape_ok;

verus! {

/// The service: one immutable trusted setup, loaded once, and cell-proof
/// computation over it.
#[derive(Debug)]
pub struct KzgWrapper {
    setup: TrustedSetup,
}

impl KzgWrapper {
    /// The G1 monomial buffer the service's setup was built from.
    pub closed spec fn g1m(self) -> Seq<u8> {
        self.setup.g1m()
    }

    /// The G1 Lagrange buffer the service's setup was built from.
    pub closed spec fn g1l(self) -> Seq<u8> {
        self.setup.g1l()
    }

    /// The G2 monomial buffer the service's setup was built from.
    pub closed spec fn g2m(self) -> Seq<u8> {
        self.setup.g2m()
    }

    /// The loaded setup.
    pub fn setup(&self) -> (r: &TrustedSetup)
        ensures
            r.g1m() == self.g1m(),
            r.g1l() == self.g1l(),
            r.g2m() == self.g2m(),
    {
        &self.setup
    }

    /// Builds the service from the three setup buffers. A shape fault is
    /// rejected before the backend sees the bytes; well-shaped bytes the
    /// backend does not accept are rejected with its reason.
    pub fn load_trusted_setup(
        g1_monomial_bytes: Vec<u8>,
        g1_lagrange_bytes: Vec<u8>,
        g2_monomial_bytes: Vec<u8>,
    ) -> (r: Result<KzgWrapper, ValidationError>)
        ensures
            r matches Ok(w) ==> w.g1m() == g1_monomial_bytes@ && w.g1l() == g1_lagrange_bytes@
                && w.g2m() == g2_monomial_bytes@ && setup_shape_ok(
                g1_monomial_bytes@,
                g1_lagrange_bytes@,
                g2_monomial_bytes@,
            ) && setup_accepted(g1_monomial_bytes@, g1_lagrange_bytes@, g2_monomial_bytes@),
            r matches Err(e) ==> setup_error_spec(
                g1_monomial_bytes@,
                g1_lagrange_bytes@,
                g2_monomial_bytes@,
                e,
            ),
            !setup_shape_ok(g1_monomial_bytes@, g1_lagrange_bytes@, g2_monomial_bytes@)
                ==> r is Err,
            setup_shape_ok(g1_monomial_bytes@, g1_lagrange_bytes@, g2_monomial_bytes@)
                && !setup_accepted(g1_monomial_bytes@, g1_lagrange_bytes@, g2_monomial_bytes@)
                ==> (r matches Err(e) && e is BackendRejected),
    {
        match TrustedSetup::load(g1_monomial_bytes, g1_lagrange_bytes, g2_monomial_bytes) {
            Ok(setup) => Ok(KzgWrapper { setup }),
            Err(e) => Err(e),
        }
    }

    /// Computes the hex-encoded cell-proof bundles for a batch of blob byte
    /// buffers, in input order, fanning the work over the worker pool. The
    /// first invalid blob fails the whole batch with its exact error; the
    /// caller receives either a full ordered result list or one error.
    pub fn compute_cell_proofs_batch(&self, blobs_bytes: Vec<Vec<u8>>) -> (r: Result<
        Vec<Vec<String>>,
        BatchError,
    >)
        ensures
            r matches Ok(out) ==> all_valid(blobs_bytes.deep_view()) && out@.len()
                == blobs_bytes@.len() && (forall|i: int|
                0 <= i < out@.len() ==> hex_texts_of(
                    (#[trigger] out@[i])@,
                    cell_proofs_of(
                        self.g1m(),
                        self.g1l(),
                        self.g2m(),
                        blobs_bytes.deep_view()[i],
                    ),
                )) && (forall|i: int|
                0 <= i < out@.len() ==> (#[trigger] out@[i])@.len() == CELLS_PER_EXT_BLOB),
            r matches Err(e) ==> batch_error_spec(blobs_bytes.deep_view(), e),
            !all_valid(blobs_bytes.deep_view()) ==> (r matches Err(e) && e is Invalid),
    {
        let bundles = match run_parallel(&self.setup, &blobs_bytes) {
            Ok(b) => b,
            Err(e) => {
                return Err(e);
            },
        };
        let n = bundles.len();
        let mut out: Vec<Vec<String>> = Vec::new();
        let mut i: usize = 0;
        while i < n
            invariant
                n == bundles@.len() == blobs_bytes@.len(),
                all_valid(blobs_bytes.deep_view()),
                batch_output_ok(
                    self.g1m(),
                    self.g1l(),
                    self.g2m(),
                    blobs_bytes.deep_view(),
                    bundles.deep_view(),
                ),
                i <= n,
                out@.len() == i,
                forall|j: int|
                    0 <= j < i ==> hex_texts_of(
                        (#[trigger] out@[j])@,
                        cell_proofs_of(
                            self.g1m(),
                            self.g1l(),
                            self.g2m(),
                            blobs_bytes.deep_view()[j],
                        ),
                    ),
                forall|j: int| 0 <= j < i ==> (#[trigger] out@[j])@.len() == CELLS_PER_EXT_BLOB,
            decreases n - i,
        {
            let texts = bundles[i].to_hex();
            proof {
                assert(bundles.deep_view()[i as int] == bundles@[i as int]@);
            }
            out.push(texts);
            i = i + 1;
        }
        Ok(out)
    }
}

} // verus!
