//! Fixed byte-size and count constants of the deployed protocol.

use vstd::prelude::*;

verus! {

/// Number of bytes in the encoding of one G1 group element.
pub const BYTES_PER_G1_POINT: usize = 48;

/// Number of bytes in the encoding of one G2 group element.
pub const BYTES_PER_G2_POINT: usize = 96;

/// Number of bytes in the encoding of one field element.
pub const BYTES_PER_FIELD_ELEMENT: usize = 32;

/// Number of field elements in one blob.
pub const FIELD_ELEMENTS_PER_BLOB: usize = 4096;

/// Number of bytes in one blob: 4096 field elements of 32 bytes each.
pub const BYTES_PER_BLOB: usize = 131072;

/// Number of cell proofs in the bundle computed for one blob.
pub const CELLS_PER_EXT_BLOB: usize = 128;

/// Number of bytes in the encoding of one cell proof (a G1 element).
pub const BYTES_PER_PROOF: usize = 48;

} // verus!
