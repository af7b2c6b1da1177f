//! Scalars: elements of the group's scalar field, created by reduction from
//! bytes or by secure random sampling, carried as their canonical 32-byte
//! little-endian encoding.

use crate::field::{
    group_order, le_bytes, lemma_le_bytes_injective, lemma_reduce_below_order,
};
use vstd::prelude::*;

verus! {

/// An element of the scalar field, held as its canonical little-endian
/// encoding. Immutable once created.
#[derive(Clone, Copy)]
pub struct Scalar {
    pub(crate) bytes: [u8; 32],
}

impl Scalar {
    /// The canonical 32-byte encoding this scalar carries.
    pub closed spec fn encoding(self) -> Seq<u8> {
        self.bytes@
    }

    /// The field element this scalar stands for, as an integer below the
    /// group order.
    pub open spec fn value(self) -> nat {
        le_bytes(self.encoding())
    }

    /// A scalar is well formed when its encoding is canonical, that is,
    /// already reduced modulo the group order.
    pub open spec fn wf(self) -> bool {
        self.value() < group_order()
    }
}

/// Relies on curve25519_dalek_ng::scalar::Scalar::from_bytes_mod_order and
/// to_bytes: the input is read as a 256-bit little-endian integer, reduced
/// modulo the group order, and re-encoded canonically.
#[verifier::external_body]
fn scalar_reduce_raw(bytes: &[u8; 32]) -> (r: [u8; 32])
    ensures
        le_bytes(r@) == le_bytes(bytes@) % group_order(),
{
    curve25519_dalek_ng::scalar::Scalar::from_bytes_mod_order(*bytes).to_bytes()
}

/// Relies on curve25519_dalek_ng::scalar::Scalar::from_bytes_mod_order_wide:
/// the 512-bit little-endian integer is reduced modulo the group order (the
/// wide reduction used for uniform challenge derivation).
#[verifier::external_body]
pub(crate) fn scalar_reduce_wide_raw(bytes: &[u8; 64]) -> (r: [u8; 32])
    ensures
        le_bytes(r@) == le_bytes(bytes@) % group_order(),
{
    curve25519_dalek_ng::scalar::Scalar::from_bytes_mod_order_wide(bytes).to_bytes()
}

/// Relies on curve25519_dalek_ng::scalar::Scalar::random: a uniformly
/// sampled field element, returned in canonical encoding. Nothing is stated
/// about which element comes back.
#[verifier::external_body]
fn scalar_random_raw() -> (r: [u8; 32])
    ensures
        le_bytes(r@) < group_order(),
{
    curve25519_dalek_ng::scalar::Scalar::random(&mut rand::thread_rng()).to_bytes()
}

/// Relies on the Add impl of curve25519_dalek_ng::scalar::Scalar: field
/// addition modulo the group order, with a canonically encoded result.
#[verifier::external_body]
fn scalar_add_raw(a: &[u8; 32], b: &[u8; 32]) -> (r: [u8; 32])
    ensures
        le_bytes(r@) == (le_bytes(a@) + le_bytes(b@)) % group_order(),
{
    let x = curve25519_dalek_ng::scalar::Scalar::from_bytes_mod_order(*a);
    let y = curve25519_dalek_ng::scalar::Scalar::from_bytes_mod_order(*b);
    (x + y).to_bytes()
}

/// Relies on the Mul impl of curve25519_dalek_ng::scalar::Scalar: field
/// multiplication modulo the group order, with a canonically encoded result.
#[verifier::external_body]
fn scalar_mul_raw(a: &[u8; 32], b: &[u8; 32]) -> (r: [u8; 32])
    ensures
        le_bytes(r@) == (le_bytes(a@) * le_bytes(b@)) % group_order(),
{
    let x = curve25519_dalek_ng::scalar::Scalar::from_bytes_mod_order(*a);
    let y = curve25519_dalek_ng::scalar::Scalar::from_bytes_mod_order(*b);
    (x * y).to_bytes()
}

/// Build a scalar by the wide reduction of 64 little-endian bytes modulo
/// the group order; this is how challenge bytes become a scalar.
pub(crate) fn scalar_from_wide_bytes(wide: &[u8; 64]) -> (s: Scalar)
    ensures
        s.wf(),
        s.value() == le_bytes(wide@) % group_order(),
{
    let bytes = scalar_reduce_wide_raw(wide);
    proof {
        lemma_reduce_below_order(le_bytes(wide@));
    }
    Scalar { bytes }
}

/// Build a scalar from 32 little-endian bytes, folding the integer they
/// encode modulo the group order. Always succeeds: wide inputs are reduced,
/// never rejected.
pub fn scalar_new(bytes: &[u8; 32]) -> (s: Scalar)
    ensures
        s.wf(),
        s.value() == le_bytes(bytes@) % group_order(),
{
    let reduced = scalar_reduce_raw(bytes);
    proof {
        lemma_reduce_below_order(le_bytes(bytes@));
    }
    Scalar { bytes: reduced }
}

/// Draw a cryptographically secure uniform scalar.
pub fn scalar_random() -> (s: Scalar)
    ensures
        s.wf(),
{
    Scalar { bytes: scalar_random_raw() }
}

/// The canonical little-endian encoding of a scalar.
pub fn scalar_to_bytes(s: &Scalar) -> (r: [u8; 32])
    ensures
        r@ == s.encoding(),
        le_bytes(r@) == s.value(),
{
    s.bytes
}

/// Constant-value equality of two scalars.
pub fn scalar_equals(lhs: &Scalar, rhs: &Scalar) -> (r: bool)
    ensures
        r == (lhs.value() == rhs.value()),
{
    let mut i: usize = 0;
    while i < 32
        invariant
            i <= 32,
            forall|j: int| 0 <= j < i ==> lhs.encoding()[j] == rhs.encoding()[j],
        decreases 32 - i,
    {
        if lhs.bytes[i] != rhs.bytes[i] {
            proof {
                if lhs.value() == rhs.value() {
                    lemma_le_bytes_injective(lhs.encoding(), rhs.encoding());
                }
            }
            return false;
        }
        i += 1;
    }
    proof {
        assert(lhs.encoding() =~= rhs.encoding());
    }
    true
}

/// Field addition: the sum of the two values, reduced modulo the group
/// order.
pub fn scalar_add(lhs: &Scalar, rhs: &Scalar) -> (r: Scalar)
    ensures
        r.wf(),
        r.value() == (lhs.value() + rhs.value()) % group_order(),
{
    let bytes = scalar_add_raw(&lhs.bytes, &rhs.bytes);
    proof {
        lemma_reduce_below_order(lhs.value() + rhs.value());
    }
    Scalar { bytes }
}

/// Field multiplication: the product of the two values, reduced modulo the
/// group order.
pub fn scalar_mul(lhs: &Scalar, rhs: &Scalar) -> (r: Scalar)
    ensures
        r.wf(),
        r.value() == (lhs.value() * rhs.value()) % group_order(),
{
    let bytes = scalar_mul_raw(&lhs.bytes, &rhs.bytes);
    proof {
        lemma_reduce_below_order(lhs.value() * rhs.value());
    }
    Scalar { bytes }
}

} // verus!
