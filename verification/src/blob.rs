//! Validation of untrusted blob buffers.
//!
//! A blob is accepted exactly when it has the fixed protocol length and
//! every one of its 32-byte field elements is a canonical encoding. Both
//! checks run strictly before the buffer reaches the cryptographic backend.

use vstd::prelude::*;
use crate::errors::ValidationError;
use crate::field::blob_fe;
use crate::field::fe_canonical;
use crate::field::fe_is_canonical_at;
use crate::protocol::BYTES_PER_BLOB;
use crate::protocol::BYTES_PER_FIELD_ELEMENT;
use crate::protocol::FIELD_ELEMENTS_PER_BLOB;

verus! {

/// Whether every field element of a blob-sized byte string is canonical.
pub open spec fn blob_canonical(s: Seq<u8>) -> bool {
    forall|k: int|
        0 <= k < FIELD_ELEMENTS_PER_BLOB ==> fe_canonical(#[trigger] blob_fe(s, k))
}

/// Whether a byte string is a valid blob: the fixed protocol length, and
/// every field element canonical.
pub open spec fn blob_valid(s: Seq<u8>) -> bool {
    s.len() == BYTES_PER_BLOB && blob_canonical(s)
}

/// The exact error that validation reports for a rejected byte string:
/// the length fault if there is one, else the first non-canonical element.
pub open spec fn blob_error_spec(s: Seq<u8>, e: ValidationError) -> bool {
    if s.len() != BYTES_PER_BLOB {
        e == (ValidationError::WrongBlobLength {
            expected: BYTES_PER_BLOB,
            actual: s.len() as usize,
        })
    } else {
        &&& e matches ValidationError::InvalidEncoding { element_index }
        &&& element_index < FIELD_ELEMENTS_PER_BLOB
        &&& !fe_canonical(blob_fe(s, element_index as int))
        &&& forall|j: int| 0 <= j < element_index ==> fe_canonical(#[trigger] blob_fe(s, j))
    }
}

/// One validated unit of data to be proven. Holds exactly
/// `BYTES_PER_BLOB` bytes, all of whose field elements are canonical.
#[derive(Debug)]
pub struct Blob {
    bytes: Vec<u8>,
}

impl View for Blob {
    type V = Seq<u8>;

    closed spec fn view(&self) -> Seq<u8> {
        self.bytes@
    }
}

impl Blob {
    #[verifier::type_invariant]
    spec fn inv(self) -> bool {
        blob_valid(self.bytes@)
    }

    /// Checks an untrusted byte buffer against the blob contract: rejects a
    /// wrong length before anything else, then rejects the first
    /// non-canonical field element; accepts everything else unchanged.
    pub fn validate(bytes: &Vec<u8>) -> (r: Result<Blob, ValidationError>)
        ensures
            r matches Ok(b) ==> b@ == bytes@ && blob_valid(bytes@),
            blob_valid(bytes@) ==> r is Ok,
            r matches Err(e) ==> blob_error_spec(bytes@, e),
    {
        if bytes.len() != BYTES_PER_BLOB {
            let actual = bytes.len();
            return Err(ValidationError::WrongBlobLength { expected: BYTES_PER_BLOB, actual });
        }
        let mut k: usize = 0;
        while k < FIELD_ELEMENTS_PER_BLOB
            invariant
                bytes@.len() == BYTES_PER_BLOB,
                k <= FIELD_ELEMENTS_PER_BLOB,
                forall|j: int| 0 <= j < k ==> fe_canonical(#[trigger] blob_fe(bytes@, j)),
            decreases FIELD_ELEMENTS_PER_BLOB - k,
        {
            let off = k * BYTES_PER_FIELD_ELEMENT;
            proof {
                assert(blob_fe(bytes@, k as int) == bytes@.subrange(
                    off as int,
                    off + BYTES_PER_FIELD_ELEMENT as int,
                ));
            }
            if !fe_is_canonical_at(bytes, off) {
                return Err(ValidationError::InvalidEncoding { element_index: k });
            }
            k = k + 1;
        }
        let mut owned: Vec<u8> = Vec::new();
        let n = bytes.len();
        let mut i: usize = 0;
        while i < n
            invariant
                n == bytes@.len(),
                i <= n,
                owned@.len() == i,
                forall|j: int| 0 <= j < i ==> owned@[j] == bytes@[j],
            decreases n - i,
        {
            owned.push(bytes[i]);
            i = i + 1;
        }
        proof {
            assert(owned@ =~= bytes@);
        }
        Ok(Blob { bytes: owned })
    }

    /// The validated bytes; every constructed blob is a valid byte string.
    pub fn as_bytes(&self) -> (r: &Vec<u8>)
        ensures
            r@ == self@,
            blob_valid(self@),
    {
        proof {
            use_type_invariant(self);
        }
        &self.bytes
    }
}

} // verus!
