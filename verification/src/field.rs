//! Canonical field-element encodings.
//!
//! A 32-byte string encodes a field element canonically exactly when its
//! big-endian value lies below the BLS12-381 scalar-field modulus. The
//! cryptographic backend rejects a blob whose field elements are not all
//! canonical, so this check runs here, before any blob reaches the backend.

use vstd::prelude::*;
use vstd::arithmetic::mul::lemma_mul_inequality;
use vstd::arithmetic::mul::lemma_mul_is_distributive_add_other_way;
use vstd::arithmetic::power::pow;
use vstd::arithmetic::power::lemma_pow0;
use vstd::arithmetic::power::lemma_pow1;
use vstd::arithmetic::power::lemma_pow_adds;
use vstd::arithmetic::power::lemma_pow_positive;
use crate::protocol::BYTES_PER_FIELD_ELEMENT;

verus! {

/// The value of a byte string read as one big-endian unsigned integer.
pub open spec fn be_val(s: Seq<u8>) -> nat
    decreases s.len(),
{
    if s.len() == 0 {
        0
    } else {
        (s[0] * pow(256, (s.len() - 1) as nat) + be_val(s.subrange(1, s.len() as int))) as nat
    }
}

/// The big-endian bytes of the BLS12-381 scalar-field modulus,
/// 0x73eda753299d7d483339d80809a1d80553bda402fffe5bfeffffffff00000001.
pub open spec fn bls_modulus_bytes() -> Seq<u8> {
    seq![
        0x73u8, 0xed, 0xa7, 0x53, 0x29, 0x9d, 0x7d, 0x48,
        0x33, 0x39, 0xd8, 0x08, 0x09, 0xa1, 0xd8, 0x05,
        0x53, 0xbd, 0xa4, 0x02, 0xff, 0xfe, 0x5b, 0xfe,
        0xff, 0xff, 0xff, 0xff, 0x00, 0x00, 0x00, 0x01,
    ]
}

/// Whether a 32-byte string is a canonical field-element encoding.
pub open spec fn fe_canonical(s: Seq<u8>) -> bool {
    s.len() == BYTES_PER_FIELD_ELEMENT && be_val(s) < be_val(bls_modulus_bytes())
}

/// The `k`-th 32-byte field element of a byte string.
pub open spec fn blob_fe(s: Seq<u8>, k: int) -> Seq<u8> {
    s.subrange(k * BYTES_PER_FIELD_ELEMENT as int, (k + 1) * BYTES_PER_FIELD_ELEMENT as int)
}

/// A big-endian value is bounded by 256 to the power of its byte length.
proof fn lemma_be_val_bound(s: Seq<u8>)
    ensures
        be_val(s) < pow(256, s.len() as nat),
    decreases s.len(),
{
    if s.len() == 0 {
        lemma_pow0(256);
    } else {
        let tail = s.subrange(1, s.len() as int);
        let p = pow(256, (s.len() - 1) as nat);
        lemma_be_val_bound(tail);
        lemma_pow_positive(256, (s.len() - 1) as nat);
        lemma_mul_inequality(s[0] as int, 255, p);
        lemma_pow_adds(256, 1nat, (s.len() - 1) as nat);
        lemma_pow1(256);
        assert(pow(256, s.len() as nat) == 256 * p);
        assert(be_val(s) == s[0] * p + be_val(tail));
        assert(be_val(s) < 256 * p);
    }
}

/// Of two equal-length byte strings that agree before position `i` and
/// differ there, the one with the smaller byte has the smaller value:
/// byte-wise lexicographic order is big-endian numeric order.
proof fn lemma_be_val_lex(a: Seq<u8>, b: Seq<u8>, i: int)
    requires
        a.len() == b.len(),
        0 <= i < a.len(),
        forall|j: int| 0 <= j < i ==> a[j] == b[j],
        a[i] < b[i],
    ensures
        be_val(a) < be_val(b),
    decreases i,
{
    let p = pow(256, (a.len() - 1) as nat);
    let ta = a.subrange(1, a.len() as int);
    let tb = b.subrange(1, b.len() as int);
    lemma_pow_positive(256, (a.len() - 1) as nat);
    if i == 0 {
        lemma_be_val_bound(ta);
        lemma_mul_is_distributive_add_other_way(p, a[0] as int, 1);
        lemma_mul_inequality(a[0] + 1, b[0] as int, p);
        assert(be_val(a) == a[0] * p + be_val(ta));
        assert(be_val(b) == b[0] * p + be_val(tb));
        assert(ta.len() == (a.len() - 1) as nat);
        assert(be_val(ta) < p);
        assert((a[0] + 1) * p == a[0] * p + 1 * p);
        assert(be_val(a) < (a[0] + 1) * p);
        assert(be_val(b) >= b[0] * p);
    } else {
        assert forall|j: int| 0 <= j < i - 1 implies ta[j] == tb[j] by {
            assert(a[j + 1] == b[j + 1]);
        }
        assert(ta[i - 1] == a[i] && tb[i - 1] == b[i]);
        lemma_be_val_lex(ta, tb, i - 1);
        assert(a[0] == b[0]);
    }
}

/// Whether the 32 bytes of `bytes` starting at `off` are a canonical
/// field-element encoding: compared byte by byte against the modulus.
pub fn fe_is_canonical_at(bytes: &Vec<u8>, off: usize) -> (r: bool)
    requires
        off + BYTES_PER_FIELD_ELEMENT <= bytes@.len(),
    ensures
        r == fe_canonical(bytes@.subrange(off as int, off + BYTES_PER_FIELD_ELEMENT as int)),
{
    let ghost window = bytes@.subrange(off as int, off + BYTES_PER_FIELD_ELEMENT as int);
    let n = bytes.len();
    let modulus = bls_modulus_vec();
    let mut i: usize = 0;
    while i < BYTES_PER_FIELD_ELEMENT
        invariant
            off + BYTES_PER_FIELD_ELEMENT <= n == bytes@.len(),
            i <= BYTES_PER_FIELD_ELEMENT,
            modulus@ == bls_modulus_bytes(),
            window == bytes@.subrange(off as int, off + BYTES_PER_FIELD_ELEMENT as int),
            forall|j: int| 0 <= j < i ==> window[j] == bls_modulus_bytes()[j],
        decreases BYTES_PER_FIELD_ELEMENT - i,
    {
        let byte = bytes[off + i];
        let modulus_byte = modulus[i];
        assert(window[i as int] == byte);
        if byte < modulus_byte {
            proof {
                lemma_be_val_lex(window, bls_modulus_bytes(), i as int);
            }
            return true;
        }
        if byte > modulus_byte {
            proof {
                lemma_be_val_lex(bls_modulus_bytes(), window, i as int);
            }
            return false;
        }
        i = i + 1;
    }
    proof {
        assert(window =~= bls_modulus_bytes());
    }
    false
}

/// The big-endian bytes of the modulus as a vector.
fn bls_modulus_vec() -> (r: Vec<u8>)
    ensures
        r@ == bls_modulus_bytes(),
{
    let mut v: Vec<u8> = Vec::new();
    v.push(0x73);
    v.push(0xed);
    v.push(0xa7);
    v.push(0x53);
    v.push(0x29);
    v.push(0x9d);
    v.push(0x7d);
    v.push(0x48);
    v.push(0x33);
    v.push(0x39);
    v.push(0xd8);
    v.push(0x08);
    v.push(0x09);
    v.push(0xa1);
    v.push(0xd8);
    v.push(0x05);
    v.push(0x53);
    v.push(0xbd);
    v.push(0xa4);
    v.push(0x02);
    v.push(0xff);
    v.push(0xfe);
    v.push(0x5b);
    v.push(0xfe);
    v.push(0xff);
    v.push(0xff);
    v.push(0xff);
    v.push(0xff);
    v.push(0x00);
    v.push(0x00);
    v.push(0x00);
    v.push(0x01);
    proof {
        assert(v@ =~= bls_modulus_bytes());
    }
    v
}

} // verus!
