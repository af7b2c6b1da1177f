//! The library's algebraic guarantees, stated on their own and proved from
//! the modules' contracts: encoding round trips, the commitment
//! homomorphism, transcript determinism, range-proof completeness and the
//! byte-buffer transfer round trip. The executable forms double as runnable
//! checks over the real cryptography.

use crate::buffer::{fill_bytes, free_vec};
use crate::field::{group_order, lemma_add_mod_order, lemma_mul_mod_order, lemma_reduce_canonical};
use crate::generator::{
    commit_log, pedersen_gens_commit, pedersen_gens_default, pedersen_gens_B,
    pedersen_gens_B_blinding, PedersenGens,
};
use crate::point::{
    basepoint_enc, ristretto_point_add, ristretto_point_compress, ristretto_point_decompress,
    ristretto_point_equals, ristretto_point_negate, ristretto_point_sub, GroupElement,
};
use crate::rangeproof::{
    is_valid_bitsize, rangeproof_from_bytes, rangeproof_prove_single, rangeproof_to_bytes,
    rangeproof_verify_single, rp_wellformed, RangeProofData, RangeProofGens,
};
use crate::scalar::{scalar_add, scalar_equals, scalar_new, scalar_to_bytes, Scalar};
use crate::transcript::{
    transcript_append_point, transcript_challenge_scalar, transcript_domain, transcript_new,
};
use vstd::arithmetic::div_mod::lemma_mod_add_multiples_vanish;
use vstd::arithmetic::power2::pow2;
use vstd::prelude::*;

verus! {

/// Round trip for scalars: a well-formed scalar's encoding is canonical, so
/// decoding it — reduction modulo the group order — returns the same value.
pub proof fn lemma_scalar_round_trip(s: Scalar)
    requires
        s.wf(),
    ensures
        s.value() % group_order() == s.value(),
{
    lemma_reduce_canonical(s.value());
}

/// Round trip for scalars, executable form: decoding a scalar's own
/// encoding yields an equal scalar.
pub fn scalar_round_trips(s: &Scalar) -> (ok: bool)
    requires
        s.wf(),
    ensures
        ok,
{
    let bytes = scalar_to_bytes(s);
    let decoded = scalar_new(&bytes);
    proof {
        lemma_scalar_round_trip(*s);
    }
    scalar_equals(&decoded, s)
}

/// Round trip for group elements, executable form: decompressing a
/// well-formed element's compressed encoding succeeds and yields an equal
/// element.
pub fn point_round_trips(p: &GroupElement) -> (ok: bool)
    requires
        p.wf(),
    ensures
        ok,
{
    let enc = ristretto_point_compress(p);
    match ristretto_point_decompress(&enc) {
        Some(q) => ristretto_point_equals(&q, p),
        None => false,
    }
}

/// Subtraction inverts addition: (p - q) + q equals p, for any two
/// well-formed group elements.
pub fn point_sub_then_add_holds(p: &GroupElement, q: &GroupElement) -> (ok: bool)
    requires
        p.wf(),
        q.wf(),
    ensures
        ok,
{
    let diff = ristretto_point_sub(p, q);
    let back = ristretto_point_add(&diff, q);
    proof {
        let m = group_order();
        let lp = p.value();
        let lq = q.value();
        lemma_add_mod_order(lp + (m - lq) as nat, lq);
        lemma_reduce_canonical(lq);
        lemma_mod_add_multiples_vanish(lp as int, m as int);
        lemma_reduce_canonical(lp);
    }
    ristretto_point_equals(&back, p)
}

/// Negation is an involution: -(-p) equals p, for any well-formed group
/// element.
pub fn point_negate_involution_holds(p: &GroupElement) -> (ok: bool)
    requires
        p.wf(),
    ensures
        ok,
{
    let minus = ristretto_point_negate(p);
    let back = ristretto_point_negate(&minus);
    proof {
        let m = group_order();
        let lp = p.value();
        if lp == 0 {
            assert((m - lp) % (m as int) == 0) by {
                lemma_reduce_canonical(0);
            }
        } else {
            lemma_reduce_canonical((m - lp) as nat);
            lemma_reduce_canonical(lp);
        }
    }
    ristretto_point_equals(&back, p)
}

/// The library-standard generator pair is one fixed pair: every call
/// returns the same two elements, and the two differ.
pub fn default_generators_fixed() -> (ok: bool)
    ensures
        ok,
{
    let first = pedersen_gens_default();
    let second = pedersen_gens_default();
    let same_b = ristretto_point_equals(&pedersen_gens_B(&first), &pedersen_gens_B(&second));
    let same_h = ristretto_point_equals(
        &pedersen_gens_B_blinding(&first),
        &pedersen_gens_B_blinding(&second),
    );
    let distinct = !ristretto_point_equals(
        &pedersen_gens_B(&first),
        &pedersen_gens_B_blinding(&first),
    );
    same_b && same_h && distinct
}

/// The default value base is the ristretto255 basepoint: its compressed
/// encoding is the fixed 32-byte constant the contracts pin it to.
pub fn default_value_base_pinned() -> (ok: bool)
    ensures
        ok,
{
    let gens = pedersen_gens_default();
    let enc = ristretto_point_compress(&pedersen_gens_B(&gens));
    let expected: [u8; 32] = [
        0xe2, 0xf2, 0xae, 0x0a, 0x6a, 0xbc, 0x4e, 0x71, 0xa8, 0x84, 0xa9, 0x61, 0xc5, 0x00,
        0x51, 0x5f, 0x58, 0xe3, 0x0b, 0x6a, 0xa5, 0x82, 0xdd, 0x8d, 0xb6, 0xa6, 0x59, 0x45,
        0xe0, 0x8d, 0x2d, 0x76,
    ];
    proof {
        assert(expected@ =~= basepoint_enc());
    }
    let mut i: usize = 0;
    while i < 32
        invariant
            i <= 32,
            enc@ == basepoint_enc(),
            expected@ == basepoint_enc(),
            forall|j: int| 0 <= j < i ==> enc@[j] == expected@[j],
        decreases 32 - i,
    {
        if enc[i] != expected[i] {
            return false;
        }
        i += 1;
    }
    true
}

/// Homomorphism of the Pedersen commitment: committing two value/blinding
/// pairs and adding the commitments equals committing the sums —
/// Commit(v1, r1) + Commit(v2, r2) == Commit(v1 + v2, r1 + r2) — here over
/// the commitments' discrete logarithms, for any pair of bases.
pub proof fn lemma_commit_homomorphic(v1: nat, r1: nat, v2: nat, r2: nat, b: nat, h: nat)
    ensures
        (commit_log(v1, r1, b, h) + commit_log(v2, r2, b, h)) % group_order() == commit_log(
            (v1 + v2) % group_order(),
            (r1 + r2) % group_order(),
            b,
            h,
        ),
{
    let m = group_order();
    let a1 = v1 * b + r1 * h;
    let a2 = v2 * b + r2 * h;
    lemma_add_mod_order(a1, a2);
    let sv = (v1 + v2) % m;
    let sr = (r1 + r2) % m;
    lemma_mul_mod_order(v1 + v2, b);
    lemma_mul_mod_order(r1 + r2, h);
    lemma_add_mod_order(sv * b, sr * h);
    lemma_add_mod_order((v1 + v2) * b, (r1 + r2) * h);
    assert((v1 * b + r1 * h) + (v2 * b + r2 * h) == (v1 + v2) * b + (r1 + r2) * h)
        by (nonlinear_arith);
}

/// Homomorphism, executable form: over any well-formed generators, the sum
/// of two commitments equals the commitment of the summed scalars.
pub fn commit_homomorphism_holds(
    gens: &PedersenGens,
    v1: &Scalar,
    r1: &Scalar,
    v2: &Scalar,
    r2: &Scalar,
) -> (ok: bool)
    requires
        gens.wf(),
    ensures
        ok,
{
    let c1 = pedersen_gens_commit(gens, v1, r1);
    let c2 = pedersen_gens_commit(gens, v2, r2);
    let lhs = ristretto_point_add(&c1, &c2);
    let v_sum = scalar_add(v1, v2);
    let r_sum = scalar_add(r1, r2);
    let rhs = pedersen_gens_commit(gens, &v_sum, &r_sum);
    proof {
        lemma_commit_homomorphic(
            v1.value(),
            r1.value(),
            v2.value(),
            r2.value(),
            gens.b_log(),
            gens.h_log(),
        );
    }
    ristretto_point_equals(&lhs, &rhs)
}

/// Transcript determinism, executable form: two transcripts opened with the
/// same label and fed the same absorbs, in the same order, squeeze equal
/// challenge scalars.
pub fn transcript_determinism_holds(
    label: &'static [u8],
    message: &[u8],
    point_label: &'static [u8],
    point: &GroupElement,
    challenge_label: &'static [u8],
) -> (ok: bool)
    requires
        label@.len() <= u32::MAX,
        message@.len() <= u32::MAX,
    ensures
        ok,
{
    let mut t1 = transcript_new(label);
    let mut t2 = transcript_new(label);
    transcript_domain(&mut t1, message);
    transcript_domain(&mut t2, message);
    transcript_append_point(&mut t1, point_label, point);
    transcript_append_point(&mut t2, point_label, point);
    let c1 = transcript_challenge_scalar(&mut t1, challenge_label);
    let c2 = transcript_challenge_scalar(&mut t2, challenge_label);
    scalar_equals(&c1, &c2)
}

/// Range-proof completeness, executable form: whenever proving succeeds for
/// a value in [0, 2^n), verifying the proof against the returned commitment
/// with the same generators, bit width and label succeeds. Proving may
/// decline (it draws randomness), in which case there is nothing to check.
pub fn prove_then_verify_single(
    bp_gens: &RangeProofGens,
    pc_gens: &PedersenGens,
    v: u64,
    v_blinding: &Scalar,
    n: u32,
    label: &'static [u8],
) -> (outcome: Option<bool>)
    requires
        label@.len() <= u32::MAX,
        is_valid_bitsize(n as nat),
        bp_gens.bit_capacity() >= n as nat,
        bp_gens.party_cap() >= 1,
        (v as nat) < pow2(n as nat),
    ensures
        outcome matches Some(ok) ==> ok,
{
    match rangeproof_prove_single(bp_gens, pc_gens, v, v_blinding, n, label) {
        Ok(rc) => Some(
            rangeproof_verify_single(&rc.proof, bp_gens, pc_gens, &rc.point, n, label),
        ),
        Err(_) => None,
    }
}

/// Buffer transfer round trip, executable form: serializing a proof to a
/// transfer buffer, copying the bytes out, releasing the buffer and
/// deserializing the copy yields a proof with the very same wire bytes — so
/// every verification verdict, a function of those bytes, is identical.
pub fn buffer_round_trip(proof: &RangeProofData) -> (outcome: Option<RangeProofData>)
    ensures
        rp_wellformed(proof.wire()) ==> outcome is Some,
        outcome matches Some(p) ==> p.wire() == proof.wire(),
{
    let buffer = rangeproof_to_bytes(proof);
    let mut copied: Vec<u8> = Vec::new();
    fill_bytes(&buffer, &mut copied);
    free_vec(buffer);
    rangeproof_from_bytes(copied.as_slice())
}

} // verus!
