//! Pedersen commitment generators: a fixed pair of independent base points
//! (value base B, blinding base B_blinding) and the commitment operation
//! Commit(v, r) = v·B + r·B_blinding.

use crate::field::{group_order, le_bytes};
use crate::point::{basepoint_enc, is_valid_point_enc, point_log, GroupElement};
use crate::scalar::{scalar_new, Scalar};
use vstd::prelude::*;

verus! {

/// The discrete logarithm of a Pedersen commitment with scalars `v`, `r`
/// over bases of discrete logarithm `b` and `h`.
pub open spec fn commit_log(v: nat, r: nat, b: nat, h: nat) -> nat {
    (v * b + r * h) % group_order()
}

/// A fixed pair of independent generators for Pedersen commitments.
/// Immutable once created.
#[derive(Clone, Copy)]
pub struct PedersenGens {
    pub(crate) b: GroupElement,
    pub(crate) b_blinding: GroupElement,
}

impl PedersenGens {
    /// The canonical encoding of the value base B.
    pub closed spec fn b_enc(self) -> Seq<u8> {
        self.b.encoding()
    }

    /// The canonical encoding of the blinding base B_blinding.
    pub closed spec fn h_enc(self) -> Seq<u8> {
        self.b_blinding.encoding()
    }

    /// The discrete logarithm of the value base.
    pub open spec fn b_log(self) -> nat {
        point_log(self.b_enc())
    }

    /// The discrete logarithm of the blinding base.
    pub open spec fn h_log(self) -> nat {
        point_log(self.h_enc())
    }

    /// Both bases hold canonical encodings of group elements, with
    /// discrete logarithms below the group order.
    pub open spec fn wf(self) -> bool {
        &&& is_valid_point_enc(self.b_enc())
        &&& point_log(self.b_enc()) < group_order()
        &&& is_valid_point_enc(self.h_enc())
        &&& point_log(self.h_enc()) < group_order()
    }
}

/// The blinding base of the library-standard generator pair: a fixed hash
/// of the value base's encoding onto the group, so a function of that
/// encoding alone. No contract says which element it is.
pub uninterp spec fn default_blinding_of(b_enc: Seq<u8>) -> Seq<u8>;

/// Relies on bulletproofs::PedersenGens::default: the value base is the
/// ristretto255 basepoint (discrete logarithm one, the base `point_log` is
/// taken to), and the blinding base is a fixed, distinct element — the hash
/// of the value base's encoding onto the group, which `default_blinding_of`
/// names — so every call returns the same pair. Relies on compress for the
/// stored canonical encodings.
#[verifier::external_body]
pub fn pedersen_gens_default() -> (r: PedersenGens)
    ensures
        r.wf(),
        r.b_enc() == basepoint_enc(),
        point_log(r.b_enc()) == 1,
        r.h_enc() == default_blinding_of(r.b_enc()),
        r.h_enc() != r.b_enc(),
{
    let g = bulletproofs::PedersenGens::default();
    PedersenGens {
        b: GroupElement { point: g.B, enc: g.B.compress().to_bytes() },
        b_blinding: GroupElement {
            point: g.B_blinding,
            enc: g.B_blinding.compress().to_bytes(),
        },
    }
}

/// Generators over a caller-supplied pair of base points; the two points
/// are copied by value, the pair does not borrow the caller's originals.
pub fn pedersen_gens_new(g: &GroupElement, h: &GroupElement) -> (r: PedersenGens)
    requires
        g.wf(),
        h.wf(),
    ensures
        r.wf(),
        r.b_enc() == g.encoding(),
        r.h_enc() == h.encoding(),
{
    PedersenGens { b: *g, b_blinding: *h }
}

/// An independent copy of the value base B.
#[allow(non_snake_case)]
pub fn pedersen_gens_B(gens: &PedersenGens) -> (r: GroupElement)
    requires
        gens.wf(),
    ensures
        r.wf(),
        r.encoding() == gens.b_enc(),
{
    gens.b
}

/// An independent copy of the blinding base B_blinding.
#[allow(non_snake_case)]
pub fn pedersen_gens_B_blinding(gens: &PedersenGens) -> (r: GroupElement)
    requires
        gens.wf(),
    ensures
        r.wf(),
        r.encoding() == gens.h_enc(),
{
    gens.b_blinding
}

/// Relies on bulletproofs::PedersenGens::commit: the returned point is
/// value·B + blinding·B_blinding, so its discrete logarithm is `commit_log`
/// of the two scalar values and the bases' logarithms. Relies on compress
/// for the result's canonical encoding.
#[verifier::external_body]
pub fn pedersen_gens_commit(gens: &PedersenGens, value: &Scalar, blinding: &Scalar) -> (r:
    GroupElement)
    requires
        gens.wf(),
    ensures
        r.wf(),
        point_log(r.encoding()) == commit_log(
            value.value(),
            blinding.value(),
            point_log(gens.b_enc()),
            point_log(gens.h_enc()),
        ),
{
    let g = bulletproofs::PedersenGens { B: gens.b.point, B_blinding: gens.b_blinding.point };
    let v = curve25519_dalek_ng::scalar::Scalar::from_bytes_mod_order(value.bytes);
    let b = curve25519_dalek_ng::scalar::Scalar::from_bytes_mod_order(blinding.bytes);
    let p = g.commit(v, b);
    GroupElement { point: p, enc: p.compress().to_bytes() }
}

/// The byte-encoded overload of the commitment: both 32-byte inputs are
/// reduced modulo the group order first, then committed.
pub fn pedersen_gens_commit_bytes(gens: &PedersenGens, value: &[u8; 32], blinding: &[u8; 32]) -> (r:
    GroupElement)
    requires
        gens.wf(),
    ensures
        r.wf(),
        r.value() == commit_log(
            le_bytes(value@) % group_order(),
            le_bytes(blinding@) % group_order(),
            gens.b_log(),
            gens.h_log(),
        ),
{
    let v = scalar_new(value);
    let b = scalar_new(blinding);
    pedersen_gens_commit(gens, &v, &b)
}

} // verus!
