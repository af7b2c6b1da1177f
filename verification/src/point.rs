//! Group elements: points of the ristretto255 group, an abelian group of
//! prime order. Each element is carried together with its canonical 32-byte
//! compressed encoding.
//!
//! The group is cyclic of order `group_order()`, so every element is a
//! scalar multiple of the basepoint; the contracts model an element by that
//! scalar, its discrete logarithm `point_log`, about which nothing is said
//! beyond how the group operations combine it.

use crate::field::{group_order, le_bytes, lemma_mul_mod_order};
use crate::scalar::{scalar_new, Scalar};
use vstd::prelude::*;

verus! {

#[verifier::external_type_specification]
#[verifier::external_body]
pub struct ExRistrettoPoint(curve25519_dalek_ng::ristretto::RistrettoPoint);

/// Holds of 32 bytes exactly when they are the canonical Ristretto encoding
/// of some group element, that is, when decompression accepts them.
pub uninterp spec fn is_valid_point_enc(enc: Seq<u8>) -> bool;

/// The discrete logarithm, to the ristretto255 basepoint, of the group
/// element that a canonical encoding stands for. The group is cyclic of
/// prime order `group_order()`, so this pins the element down; no contract
/// says what it is on given bytes, only how the group operations combine it.
pub uninterp spec fn point_log(enc: Seq<u8>) -> nat;

/// The canonical encoding of the group element that hashing 64 bytes onto
/// the group yields: the map is a function of the input bytes alone. No
/// contract says which encoding it is.
pub uninterp spec fn uniform_point_enc(bytes: Seq<u8>) -> Seq<u8>;

/// The canonical encoding of the ristretto255 basepoint, the generator the
/// discrete logarithms are taken to.
pub open spec fn basepoint_enc() -> Seq<u8> {
    seq![
        0xe2u8, 0xf2u8, 0xaeu8, 0x0au8, 0x6au8, 0xbcu8, 0x4eu8, 0x71u8, 0xa8u8, 0x84u8, 0xa9u8,
        0x61u8, 0xc5u8, 0x00u8, 0x51u8, 0x5fu8, 0x58u8, 0xe3u8, 0x0bu8, 0x6au8, 0xa5u8, 0x82u8,
        0xddu8, 0x8du8, 0xb6u8, 0xa6u8, 0x59u8, 0x45u8, 0xe0u8, 0x8du8, 0x2du8, 0x76u8,
    ]
}

/// A point of the group, immutable once created, always accompanied by its
/// canonical compressed encoding.
#[derive(Clone, Copy)]
pub struct GroupElement {
    pub(crate) point: curve25519_dalek_ng::ristretto::RistrettoPoint,
    pub(crate) enc: [u8; 32],
}

impl GroupElement {
    /// The canonical compressed encoding of this element.
    pub closed spec fn encoding(self) -> Seq<u8> {
        self.enc@
    }

    /// The discrete logarithm this element stands for.
    pub open spec fn value(self) -> nat {
        point_log(self.encoding())
    }

    /// Every element holds the canonical encoding of some group element,
    /// and its discrete logarithm, like every residue in a group of order
    /// `group_order()`, lies below that order.
    pub open spec fn wf(self) -> bool {
        is_valid_point_enc(self.encoding()) && point_log(self.encoding()) < group_order()
    }
}

/// A 32-byte compressed-point holder; the bytes are carried as given and
/// are not validated until decompression.
#[derive(Clone, Copy)]
pub struct CompressedRistretto {
    pub(crate) bytes: [u8; 32],
}

impl CompressedRistretto {
    /// The bytes this holder carries.
    pub closed spec fn encoding(self) -> Seq<u8> {
        self.bytes@
    }
}

/// Within the crate: the encoding a group element exposes is the stored
/// compressed bytes themselves.
pub(crate) proof fn lemma_group_element_encoding(p: &GroupElement)
    ensures
        p.encoding() == p.enc@,
{
}

/// Relies on RistrettoPoint::from_uniform_bytes: maps any 64 bytes onto the
/// group (hash-to-group), always succeeding and depending on the input
/// bytes alone — which `uniform_point_enc` names — and on compress for the
/// canonical encoding stored beside the point.
#[verifier::external_body]
pub fn ristretto_point_from_uniform_bytes(bytes: &[u8; 64]) -> (r: GroupElement)
    ensures
        r.wf(),
        r.encoding() == uniform_point_enc(bytes@),
{
    let p = curve25519_dalek_ng::ristretto::RistrettoPoint::from_uniform_bytes(bytes);
    GroupElement { point: p, enc: p.compress().to_bytes() }
}

/// The canonical compressed encoding of a group element.
pub fn ristretto_point_compress(p: &GroupElement) -> (r: [u8; 32])
    ensures
        r@ == p.encoding(),
{
    p.enc
}

/// Relies on CompressedRistretto::decompress: it returns a point exactly
/// when the 32 bytes are the canonical encoding of a group element (this is
/// what `is_valid_point_enc` names), never panics, and accepts only the
/// encoding that compressing the element would produce, so the input bytes
/// are stored back beside the point unchanged.
#[verifier::external_body]
pub fn ristretto_point_decompress(bytes: &[u8; 32]) -> (r: Option<GroupElement>)
    ensures
        r.is_some() == is_valid_point_enc(bytes@),
        r matches Some(p) ==> p.wf() && p.encoding() == bytes@,
{
    let c = curve25519_dalek_ng::ristretto::CompressedRistretto::from_slice(bytes);
    match c.decompress() {
        Some(p) => Some(GroupElement { point: p, enc: *bytes }),
        None => None,
    }
}

/// Relies on PartialEq for RistrettoPoint (equality of group elements) and
/// on the Ristretto encoding being canonical: elements are equal exactly
/// when their canonical encodings are, and exactly when their discrete
/// logarithms agree.
#[verifier::external_body]
pub fn ristretto_point_equals(lhs: &GroupElement, rhs: &GroupElement) -> (r: bool)
    requires
        lhs.wf(),
        rhs.wf(),
    ensures
        r == (lhs.encoding() == rhs.encoding()),
        r == (point_log(lhs.encoding()) == point_log(rhs.encoding())),
{
    lhs.point == rhs.point
}

/// Relies on the Add impl of RistrettoPoint, the group operation: discrete
/// logarithms add modulo the group order. Relies on compress for the
/// result's canonical encoding.
#[verifier::external_body]
pub fn ristretto_point_add(lhs: &GroupElement, rhs: &GroupElement) -> (r: GroupElement)
    requires
        lhs.wf(),
        rhs.wf(),
    ensures
        r.wf(),
        point_log(r.encoding()) == (point_log(lhs.encoding()) + point_log(rhs.encoding()))
            % group_order(),
{
    let p = lhs.point + rhs.point;
    GroupElement { point: p, enc: p.compress().to_bytes() }
}

/// Relies on the Sub impl of RistrettoPoint: adding the inverse, so the
/// discrete logarithm of the result is the difference modulo the group
/// order. Relies on compress for the result's canonical encoding.
#[verifier::external_body]
pub fn ristretto_point_sub(lhs: &GroupElement, rhs: &GroupElement) -> (r: GroupElement)
    requires
        lhs.wf(),
        rhs.wf(),
    ensures
        r.wf(),
        point_log(r.encoding()) == (point_log(lhs.encoding()) + (group_order() - point_log(
            rhs.encoding()))) % (group_order() as int),
{
    let p = lhs.point - rhs.point;
    GroupElement { point: p, enc: p.compress().to_bytes() }
}

/// Relies on the Neg impl of RistrettoPoint, the group inverse: the
/// discrete logarithm is negated modulo the group order. Relies on compress
/// for the result's canonical encoding.
#[verifier::external_body]
pub fn ristretto_point_negate(p: &GroupElement) -> (r: GroupElement)
    requires
        p.wf(),
    ensures
        r.wf(),
        point_log(r.encoding()) == (group_order() - point_log(p.encoding())) % (
        group_order() as int),
{
    let q = -p.point;
    GroupElement { point: q, enc: q.compress().to_bytes() }
}

/// Relies on the Mul impl of RistrettoPoint by a Scalar: scalar
/// multiplication, which multiplies the discrete logarithm modulo the group
/// order. Relies on compress for the result's canonical encoding.
#[verifier::external_body]
pub fn ristretto_point_mul_scalar(lhs: &GroupElement, rhs: &Scalar) -> (r: GroupElement)
    requires
        lhs.wf(),
    ensures
        r.wf(),
        point_log(r.encoding()) == (rhs.value() * point_log(lhs.encoding())) % group_order(),
{
    let s = curve25519_dalek_ng::scalar::Scalar::from_bytes_mod_order(rhs.bytes);
    let p = lhs.point * s;
    GroupElement { point: p, enc: p.compress().to_bytes() }
}

/// Scalar multiplication by a raw 32-byte little-endian scalar encoding,
/// reduced modulo the group order first.
pub fn ristretto_point_mul_bytes(lhs: &GroupElement, rhs: &[u8; 32]) -> (r: GroupElement)
    requires
        lhs.wf(),
    ensures
        r.wf(),
        r.value() == (le_bytes(rhs@) * lhs.value()) % group_order(),
{
    let s = scalar_new(rhs);
    let r = ristretto_point_mul_scalar(lhs, &s);
    proof {
        lemma_mul_mod_order(le_bytes(rhs@), lhs.value());
    }
    r
}

/// Wrap 32 bytes as a compressed-point holder; the bytes are not checked.
pub fn compressed_ristretto_from_bytes(bytes: &[u8; 32]) -> (r: CompressedRistretto)
    ensures
        r.encoding() == bytes@,
{
    CompressedRistretto { bytes: *bytes }
}

/// The bytes a compressed-point holder carries.
pub fn compressed_ristretto_to_bytes(c: &CompressedRistretto) -> (r: [u8; 32])
    ensures
        r@ == c.encoding(),
{
    c.bytes
}

} // verus!
