//! Declarations for the cryptographic backend.
//!
//! The backend owns the elliptic-curve and finite-field mathematics; this
//! library states only what its operations return, never how. Two of its
//! results are given names here: whether a triple of setup buffers is
//! accepted, and which proof bundle a blob yields under a setup. Both are
//! functions of the named byte strings alone — the backend draws on no
//! randomness, clock or other state — so the names are well-defined.

use vstd::prelude::*;

verus! {

/// The backend's parameter object, holding a loaded trusted setup.
/// Opaque here: it is built once by the backend and only handed back to it.
#[verifier::external_type_specification]
#[verifier::external_body]
pub struct ExKzgSettings(c_kzg::KzgSettings);

/// Whether the backend accepts the three setup buffers (G1 monomial, G1
/// Lagrange, G2 monomial) as a trusted setup: the exact point counts, every
/// point on its curve, and the Lagrange buffer in Lagrange form.
pub uninterp spec fn setup_accepted(
    g1_monomial: Seq<u8>,
    g1_lagrange: Seq<u8>,
    g2_monomial: Seq<u8>,
) -> bool;

/// The ordered bundle of cell-proof encodings (one 48-byte G1 encoding per
/// cell) that the backend computes for a blob under the setup built from the
/// three buffers.
pub uninterp spec fn cell_proofs_of(
    g1_monomial: Seq<u8>,
    g1_lagrange: Seq<u8>,
    g2_monomial: Seq<u8>,
    blob: Seq<u8>,
) -> Seq<Seq<u8>>;

} // verus!
