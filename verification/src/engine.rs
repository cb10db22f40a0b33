//! The proof-computation engine: one backend call per validated blob.
//!
//! The engine holds no state of its own; it reads the shared setup, hands
//! one blob to the backend, and collects the fixed-length proof bundle.
//! Identical setup and blob always yield an identical bundle.

use vstd::prelude::*;
use crate::backend::cell_proofs_of;
use crate::blob::Blob;
use crate::blob::blob_canonical;
use crate::errors::ComputeError;
use crate::hexenc::hex_encode;
use crate::hexenc::hex_of;
use crate::protocol::BYTES_PER_BLOB;
use crate::protocol::BYTES_PER_PROOF;
use crate::protocol::CELLS_PER_EXT_BLOB;
use crate::setup::TrustedSetup;

verus! {

/// Whether a bundle has the protocol shape: the fixed cell count, each
/// element one 48-byte G1 encoding.
pub open spec fn bundle_shape_ok(b: Seq<Seq<u8>>) -> bool {
    &&& b.len() == CELLS_PER_EXT_BLOB
    &&& forall|i: int| 0 <= i < b.len() ==> (#[trigger] b[i]).len() == BYTES_PER_PROOF
}

/// One fixed-length, ordered bundle of cell-proof encodings, produced by
/// the backend for one blob and returned to the caller as opaque bytes.
#[derive(Debug)]
pub struct ProofBundle {
    proofs: Vec<Vec<u8>>,
}

impl View for ProofBundle {
    type V = Seq<Seq<u8>>;

    closed spec fn view(&self) -> Seq<Seq<u8>> {
        self.proofs.deep_view()
    }
}

impl DeepView for ProofBundle {
    type V = Seq<Seq<u8>>;

    open spec fn deep_view(&self) -> Seq<Seq<u8>> {
        self.view()
    }
}

impl ProofBundle {
    #[verifier::type_invariant]
    spec fn inv(self) -> bool {
        bundle_shape_ok(self.proofs.deep_view())
    }

    /// The proof encodings; every bundle has the protocol shape.
    pub fn proofs(&self) -> (r: &Vec<Vec<u8>>)
        ensures
            r.deep_view() == self@,
            bundle_shape_ok(self@),
    {
        proof {
            use_type_invariant(self);
        }
        &self.proofs
    }

    /// The bundle as lowercase hex text, one string per proof element, in
    /// bundle order.
    pub fn to_hex(&self) -> (r: Vec<String>)
        ensures
            r@.len() == self@.len(),
            forall|i: int| 0 <= i < self@.len() ==> (#[trigger] r@[i])@ == hex_of(self@[i]),
    {
        proof {
            use_type_invariant(self);
        }
        let mut out: Vec<String> = Vec::new();
        let n = self.proofs.len();
        let mut i: usize = 0;
        while i < n
            invariant
                n == self.proofs@.len(),
                i <= n,
                self@ == self.proofs.deep_view(),
                out@.len() == i,
                forall|j: int| 0 <= j < i ==> (#[trigger] out@[j])@ == hex_of(self@[j]),
            decreases n - i,
        {
            let text = hex_encode(&self.proofs[i]);
            proof {
                assert(self@[i as int] == self.proofs@[i as int].deep_view());
                assert(self.proofs@[i as int].deep_view() =~= self.proofs@[i as int]@);
            }
            out.push(text);
            i = i + 1;
        }
        out
    }
}

/// Invokes the backend's cell-proof algorithm exactly once for one
/// validated blob under the shared setup and collects the bundle. The
/// bundle is a function of the setup's buffers and the blob bytes alone:
/// computing twice over the same inputs yields the same bundle. Any
/// non-success status of the backend is reported as a backend failure.
pub fn compute(setup: &TrustedSetup, blob: &Blob) -> (r: Result<ProofBundle, ComputeError>)
    ensures
        r matches Ok(bundle) ==> bundle@ == cell_proofs_of(
            setup.g1m(),
            setup.g1l(),
            setup.g2m(),
            blob@,
        ) && bundle_shape_ok(bundle@),
        r matches Err(e) ==> e is BackendFailure,
{
    let bytes = blob.as_bytes();
    match backend_compute(setup, bytes) {
        Ok(proofs) => Ok(ProofBundle { proofs }),
        Err(code) => Err(ComputeError::BackendFailure { code }),
    }
}

/// Relies on c_kzg::KzgSettings::compute_cells_and_kzg_proofs, with
/// c_kzg::Blob::from_bytes wrapping the input and c_kzg::KZGProof::to_bytes
/// unwrapping each proof: the FK20 cell-proof computation. Its result is
/// deterministic in the setup's buffers (from which every setup handle is
/// built) and the blob bytes: a bundle of CELLS_PER_EXT_BLOB proofs of
/// BYTES_PER_PROOF bytes each. A blob with a non-canonical field element is
/// never accepted. On failure the backend's status code is handed back.
#[verifier::external_body]
fn backend_compute(setup: &TrustedSetup, blob_bytes: &Vec<u8>) -> (r: Result<Vec<Vec<u8>>, u32>)
    requires
        blob_bytes@.len() == BYTES_PER_BLOB,
    ensures
        r matches Ok(proofs) ==> proofs.deep_view() == cell_proofs_of(
            setup.g1m(),
            setup.g1l(),
            setup.g2m(),
            blob_bytes@,
        ) && bundle_shape_ok(proofs.deep_view()) && blob_canonical(blob_bytes@),
        !blob_canonical(blob_bytes@) ==> r is Err,
{
    let blob = match c_kzg::Blob::from_bytes(blob_bytes.as_slice()) {
        Ok(b) => b,
        Err(_) => return Err(c_kzg::CkzgError::C_KZG_BADARGS as u32),
    };
    match setup.handle().compute_cells_and_kzg_proofs(&blob) {
        Ok((_cells, proofs)) => Ok(
            proofs.iter().map(|p| p.to_bytes().into_inner().to_vec()).collect(),
        ),
        Err(c_kzg::Error::CError(code)) => Err(code as u32),
        Err(_) => Err(c_kzg::CkzgError::C_KZG_ERROR as u32),
    }
}

} // verus!
