//! Aggregated range proofs: zero-knowledge proofs that committed values lie
//! in [0, 2^n), built and checked by the Bulletproofs protocol over
//! transcripts derived from a caller-chosen domain label.

use crate::buffer::{clone_byte_vec, RawVec};
use crate::generator::{commit_log, PedersenGens};
use crate::point::{point_log, CompressedRistretto};
use crate::scalar::Scalar;
use vstd::arithmetic::power2::pow2;
use vstd::prelude::*;

verus! {

#[verifier::external_type_specification]
#[verifier::external_body]
pub struct ExBulletproofGens(bulletproofs::BulletproofGens);

#[verifier::external_type_specification]
#[verifier::external_body]
pub struct ExBulletproofsRangeProof(bulletproofs::RangeProof);

#[verifier::external_type_specification]
#[verifier::external_body]
pub struct ExProofError(bulletproofs::ProofError);

/// The bit widths the protocol accepts.
pub open spec fn is_valid_bitsize(n: nat) -> bool {
    n == 8 || n == 16 || n == 32 || n == 64
}

/// The aggregation widths the protocol accepts: the inner-product argument
/// halves its vectors, so the number of parties must be a power of two.
pub open spec fn is_power_of_two(m: nat) -> bool
    decreases m,
{
    if m == 0 {
        false
    } else if m == 1 {
        true
    } else {
        m % 2 == 0 && is_power_of_two(m / 2)
    }
}

/// Holds of wire bytes that parse back into a range proof and are, for the
/// given Pedersen bases, bit width, value commitments and transcript label,
/// accepted by the verification equation whatever batching randomness the
/// verifier draws. Proving establishes it; verification is owed success
/// exactly on it. No contract says which bytes have it.
pub uninterp spec fn rp_valid(
    proof: Seq<u8>,
    b_enc: Seq<u8>,
    h_enc: Seq<u8>,
    n: nat,
    commitments: Seq<Seq<u8>>,
    label: Seq<u8>,
) -> bool;

/// Holds of bytes in the proof wire format: those that deserialization
/// accepts. No contract says which bytes these are.
pub uninterp spec fn rp_wellformed(bytes: Seq<u8>) -> bool;

/// Precomputed generator vectors, sized for proofs up to a bit width and,
/// for aggregated proofs, up to a party count. Created once, reused.
pub struct RangeProofGens {
    pub(crate) inner: bulletproofs::BulletproofGens,
    pub(crate) gens_capacity: usize,
    pub(crate) party_capacity: usize,
}

impl RangeProofGens {
    /// The largest bit width these generators support.
    pub closed spec fn bit_capacity(self) -> nat {
        self.gens_capacity as nat
    }

    /// The largest party count these generators support.
    pub closed spec fn party_cap(self) -> nat {
        self.party_capacity as nat
    }

    /// The largest bit width these generators support, readable at run
    /// time so a caller can test a proof's preconditions first.
    pub fn gens_capacity(&self) -> (n: usize)
        ensures
            n == self.bit_capacity(),
    {
        self.gens_capacity
    }

    /// The largest party count these generators support, readable at run
    /// time so a caller can test a proof's preconditions first.
    pub fn party_capacity(&self) -> (n: usize)
        ensures
            n == self.party_cap(),
    {
        self.party_capacity
    }
}

/// A range proof, immutable once created, carried beside its canonical wire
/// serialization.
pub struct RangeProofData {
    pub(crate) inner: bulletproofs::RangeProof,
    pub(crate) bytes: Vec<u8>,
}

impl RangeProofData {
    /// The canonical wire serialization of this proof.
    pub closed spec fn wire(self) -> Seq<u8> {
        self.bytes@
    }

    /// Every proof's wire form carries at least its seven fixed 32-byte
    /// header elements: four points and three scalars.
    pub open spec fn wf(self) -> bool {
        224 <= self.wire().len()
    }
}

/// A fresh proof together with the commitment it attests to.
pub struct RangeProofWithCommit {
    pub proof: RangeProofData,
    pub point: CompressedRistretto,
}

/// Why a proving call failed: the underlying protocol refused to produce a
/// proof. Under this module's preconditions that happens only when a
/// squeezed challenge degenerates, which for any honest transcript is
/// overwhelmingly improbable — but it is the protocol's call, not ours.
#[derive(Debug)]
pub enum RangeProofError {
    ProvingFailed,
}

/// Relies on bulletproofs::BulletproofGens::new: generator vectors able to
/// support the given capacities; deterministic, so equal capacities give
/// equal generators, and a larger set extends a smaller one.
#[verifier::external_body]
fn bpgen_new_raw(gens_capacity: usize, party_capacity: usize) -> (r:
    bulletproofs::BulletproofGens)
{
    bulletproofs::BulletproofGens::new(gens_capacity, party_capacity)
}

/// Generators supporting proofs up to `gens_capacity` bits for up to
/// `party_capacity` parties.
pub fn bpgen_new(gens_capacity: u32, party_capacity: u32) -> (r: RangeProofGens)
    ensures
        r.bit_capacity() == gens_capacity as nat,
        r.party_cap() == party_capacity as nat,
{
    let g = gens_capacity as usize;
    let p = party_capacity as usize;
    RangeProofGens { inner: bpgen_new_raw(g, p), gens_capacity: g, party_capacity: p }
}

/// Relies on bulletproofs::RangeProof::prove_single over a fresh Merlin
/// transcript built from the label, and on RangeProof::to_bytes for the
/// wire bytes stored beside the proof. Whenever a proof comes back: the
/// returned point is the Pedersen commitment of the value under the
/// blinding over the given bases; the wire bytes parse back; and the proof
/// is accepted by the verification equation for exactly these bases, bit
/// width, commitment and label (completeness). Success itself is the
/// randomized protocol's call, so nothing promises it. Merlin asserts that
/// an absorbed run fits a 32-bit length — the fresh transcript absorbs the
/// label — so longer labels are excluded.
#[verifier::external_body]
fn prove_single_raw(
    bp_gens: &RangeProofGens,
    pc_gens: &PedersenGens,
    v: u64,
    v_blinding: &Scalar,
    n: u32,
    label: &'static [u8],
) -> (r: Result<(RangeProofData, CompressedRistretto), bulletproofs::ProofError>)
    requires
        label@.len() <= u32::MAX,
        (v as nat) < pow2(n as nat),
    ensures
        r matches Ok((proof, commit)) ==> {
            &&& point_log(commit.encoding()) == commit_log(
                v as nat,
                v_blinding.value(),
                point_log(pc_gens.b_enc()),
                point_log(pc_gens.h_enc()),
            )
            &&& proof.wf()
            &&& rp_wellformed(proof.wire())
            &&& rp_valid(
                proof.wire(),
                pc_gens.b_enc(),
                pc_gens.h_enc(),
                n as nat,
                seq![commit.encoding()],
                label@,
            )
        },
{
    let blinding = curve25519_dalek_ng::scalar::Scalar::from_bytes_mod_order(v_blinding.bytes);
    let pc = bulletproofs::PedersenGens { B: pc_gens.b.point, B_blinding: pc_gens.b_blinding.point };
    let mut t = merlin::Transcript::new(label);
    let (proof, commit) = bulletproofs::RangeProof::prove_single(
        &bp_gens.inner, &pc, &mut t, v, &blinding, n as usize)?;
    let bytes = proof.to_bytes();
    Ok((RangeProofData { inner: proof, bytes }, CompressedRistretto { bytes: commit.to_bytes() }))
}

/// Relies on bulletproofs::RangeProof::prove_multiple over a fresh Merlin
/// transcript built from the label, and on RangeProof::to_bytes for the
/// wire bytes stored beside the proof. Whenever a proof comes back: there
/// is one commitment per value, each the Pedersen commitment of its value
/// under its blinding over the given bases; the wire bytes parse back; and
/// the proof is accepted by the verification equation for exactly these
/// bases, bit width, commitments and label (completeness). Success itself
/// is the randomized protocol's call, so nothing promises it. Merlin
/// asserts that an absorbed run fits a 32-bit length — the fresh transcript
/// absorbs the label — so longer labels are excluded.
#[verifier::external_body]
fn prove_multiple_raw(
    bp_gens: &RangeProofGens,
    pc_gens: &PedersenGens,
    values: &Vec<u64>,
    blindings: &Vec<Scalar>,
    n: u32,
    label: &'static [u8],
) -> (r: Result<(RangeProofData, Vec<CompressedRistretto>), bulletproofs::ProofError>)
    requires
        label@.len() <= u32::MAX,
        values@.len() == blindings@.len(),
        forall|i: int| 0 <= i < values@.len() ==> (values@[i] as nat) < pow2(n as nat),
    ensures
        r matches Ok((proof, commits)) ==> {
            &&& proof.wf()
            &&& commits@.len() == values@.len()
            &&& forall|i: int|
                0 <= i < commits@.len() ==> point_log(#[trigger] commits@[i].encoding())
                    == commit_log(
                    values@[i] as nat,
                    blindings@[i].value(),
                    point_log(pc_gens.b_enc()),
                    point_log(pc_gens.h_enc()),
                )
            &&& rp_wellformed(proof.wire())
            &&& rp_valid(
                proof.wire(),
                pc_gens.b_enc(),
                pc_gens.h_enc(),
                n as nat,
                commits@.map_values(|c: CompressedRistretto| c.encoding()),
                label@,
            )
        },
{
    let blinds: Vec<curve25519_dalek_ng::scalar::Scalar> = blindings.iter().map(
        |s: &Scalar| curve25519_dalek_ng::scalar::Scalar::from_bytes_mod_order(s.bytes)).collect();
    let pc = bulletproofs::PedersenGens { B: pc_gens.b.point, B_blinding: pc_gens.b_blinding.point };
    let mut t = merlin::Transcript::new(label);
    let (proof, cs) = bulletproofs::RangeProof::prove_multiple(
        &bp_gens.inner, &pc, &mut t, values, &blinds, n as usize)?;
    let bytes = proof.to_bytes();
    let commits = cs.iter().map(|c| CompressedRistretto { bytes: c.to_bytes() }).collect();
    Ok((RangeProofData { inner: proof, bytes }, commits))
}

/// Prove that `v` lies in [0, 2^n), returning the proof and the Pedersen
/// commitment to `v` under the given blinding. The transcript is built
/// fresh from the label; verification must use the same label.
pub fn rangeproof_prove_single(
    bp_gens: &RangeProofGens,
    pc_gens: &PedersenGens,
    v: u64,
    v_blinding: &Scalar,
    n: u32,
    label: &'static [u8],
) -> (r: Result<RangeProofWithCommit, RangeProofError>)
    requires
        label@.len() <= u32::MAX,
        is_valid_bitsize(n as nat),
        bp_gens.bit_capacity() >= n as nat,
        bp_gens.party_cap() >= 1,
        (v as nat) < pow2(n as nat),
    ensures
        r matches Ok(rc) ==> {
            &&& rc.proof.wf()
            &&& point_log(rc.point.encoding()) == commit_log(
                v as nat,
                v_blinding.value(),
                pc_gens.b_log(),
                pc_gens.h_log(),
            )
            &&& rp_wellformed(rc.proof.wire())
            &&& rp_valid(
                rc.proof.wire(),
                pc_gens.b_enc(),
                pc_gens.h_enc(),
                n as nat,
                seq![rc.point.encoding()],
                label@,
            )
        },
{
    match prove_single_raw(bp_gens, pc_gens, v, v_blinding, n, label) {
        Ok((proof, point)) => Ok(RangeProofWithCommit { proof, point }),
        Err(_) => Err(RangeProofError::ProvingFailed),
    }
}

/// Prove that each of the values lies in [0, 2^n) with one aggregated
/// proof, returning it with one Pedersen commitment per value. The two
/// slices must pair up, the generators must cover the bit width and party
/// count, and the party count must be a power of two — the aggregation
/// widths the protocol accepts.
pub fn rangeproof_prove_multiple(
    bp_gens: &RangeProofGens,
    pc_gens: &PedersenGens,
    values: &Vec<u64>,
    blindings: &Vec<Scalar>,
    n: u32,
    label: &'static [u8],
) -> (r: Result<(RangeProofData, Vec<CompressedRistretto>), RangeProofError>)
    requires
        label@.len() <= u32::MAX,
        values@.len() == blindings@.len(),
        is_valid_bitsize(n as nat),
        is_power_of_two(values@.len()),
        bp_gens.bit_capacity() >= n as nat,
        bp_gens.party_cap() >= values@.len(),
        forall|i: int| 0 <= i < values@.len() ==> (values@[i] as nat) < pow2(n as nat),
    ensures
        r matches Ok((proof, commits)) ==> {
            &&& proof.wf()
            &&& commits@.len() == values@.len()
            &&& forall|i: int|
                0 <= i < commits@.len() ==> point_log(#[trigger] commits@[i].encoding())
                    == commit_log(
                    values@[i] as nat,
                    blindings@[i].value(),
                    pc_gens.b_log(),
                    pc_gens.h_log(),
                )
            &&& rp_wellformed(proof.wire())
            &&& rp_valid(
                proof.wire(),
                pc_gens.b_enc(),
                pc_gens.h_enc(),
                n as nat,
                commits@.map_values(|c: CompressedRistretto| c.encoding()),
                label@,
            )
        },
{
    match prove_multiple_raw(bp_gens, pc_gens, values, blindings, n, label) {
        Ok((proof, commits)) => Ok((proof, commits)),
        Err(_) => Err(RangeProofError::ProvingFailed),
    }
}

/// Relies on bulletproofs::RangeProof::verify_single over a fresh Merlin
/// transcript built from the label: a proof valid for these bases, bit
/// width, commitment and label is accepted whatever batching randomness the
/// verifier draws. Of any other proof nothing is stated — the call rejects
/// it up to a negligible chance over that randomness, and no cause is
/// surfaced beyond the plain boolean. Merlin asserts that an absorbed run
/// fits a 32-bit length — the fresh transcript absorbs the label — so
/// longer labels are excluded.
#[verifier::external_body]
pub fn rangeproof_verify_single(
    proof: &RangeProofData,
    bp_gens: &RangeProofGens,
    pc_gens: &PedersenGens,
    commit: &CompressedRistretto,
    n: u32,
    label: &'static [u8],
) -> (r: bool)
    requires
        label@.len() <= u32::MAX,
        is_valid_bitsize(n as nat),
        bp_gens.bit_capacity() >= n as nat,
        bp_gens.party_cap() >= 1,
    ensures
        rp_valid(
            proof.wire(),
            pc_gens.b_enc(),
            pc_gens.h_enc(),
            n as nat,
            seq![commit.encoding()],
            label@,
        ) ==> r,
{
    let c = curve25519_dalek_ng::ristretto::CompressedRistretto(commit.bytes);
    let pc = bulletproofs::PedersenGens { B: pc_gens.b.point, B_blinding: pc_gens.b_blinding.point };
    let mut t = merlin::Transcript::new(label);
    proof.inner.verify_single(&bp_gens.inner, &pc, &mut t, &c, n as usize).is_ok()
}

/// Relies on bulletproofs::RangeProof::verify_multiple over a fresh Merlin
/// transcript built from the label: an aggregated proof valid for these
/// bases, bit width, commitments and label is accepted whatever batching
/// randomness the verifier draws. Of any other proof nothing is stated —
/// the call rejects it up to a negligible chance over that randomness.
/// Merlin asserts that an absorbed run fits a 32-bit length — the fresh
/// transcript absorbs the label — so longer labels are excluded.
#[verifier::external_body]
pub fn rangeproof_verify_multiple(
    proof: &RangeProofData,
    bp_gens: &RangeProofGens,
    pc_gens: &PedersenGens,
    commits: &Vec<CompressedRistretto>,
    n: u32,
    label: &'static [u8],
) -> (r: bool)
    requires
        label@.len() <= u32::MAX,
        is_valid_bitsize(n as nat),
        bp_gens.bit_capacity() >= n as nat,
        bp_gens.party_cap() >= commits@.len(),
    ensures
        rp_valid(
            proof.wire(),
            pc_gens.b_enc(),
            pc_gens.h_enc(),
            n as nat,
            commits@.map_values(|c: CompressedRistretto| c.encoding()),
            label@,
        ) ==> r,
{
    let cs: Vec<curve25519_dalek_ng::ristretto::CompressedRistretto> = commits.iter().map(
        |c: &CompressedRistretto| curve25519_dalek_ng::ristretto::CompressedRistretto(c.bytes)).collect();
    let pc = bulletproofs::PedersenGens { B: pc_gens.b.point, B_blinding: pc_gens.b_blinding.point };
    let mut t = merlin::Transcript::new(label);
    proof.inner.verify_multiple(&bp_gens.inner, &pc, &mut t, &cs, n as usize).is_ok()
}

/// The proof's canonical wire bytes, moved out as an owned transfer buffer:
/// never empty, since every proof carries at least its fixed header.
pub fn rangeproof_to_bytes(proof: &RangeProofData) -> (r: RawVec)
    ensures
        r.bytes() == proof.wire(),
        proof.wf() ==> 224 <= r.bytes().len(),
{
    RawVec::transfer_buffer(clone_byte_vec(&proof.bytes))
}

/// Relies on bulletproofs::RangeProof::from_bytes: it parses exactly the
/// wire format (which `rp_wellformed` names), rejecting anything shorter
/// than the seven 32-byte header elements, and never panics, malformed
/// bytes coming back as absence. A parsed proof is the one the bytes
/// serialize, so they are stored back beside it unchanged.
#[verifier::external_body]
pub fn rangeproof_from_bytes(bytes: &[u8]) -> (r: Option<RangeProofData>)
    ensures
        r.is_some() == rp_wellformed(bytes@),
        r matches Some(p) ==> p.wire() == bytes@ && p.wf(),
{
    match bulletproofs::RangeProof::from_bytes(bytes) {
        Ok(proof) => Some(RangeProofData { inner: proof, bytes: bytes.to_vec() }),
        Err(_) => None,
    }
}

} // verus!
