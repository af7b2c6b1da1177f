//! Fiat-Shamir transcripts: a stateful absorb/squeeze hash construction for
//! non-interactive challenge derivation, mutated in place by every absorb
//! and challenge call.
//!
//! Beside the opaque Merlin hash state, a transcript carries its own
//! history: a framed byte record of the initial label and of every item
//! absorbed or squeezed, in order. The framing is length-prefixed, so the
//! history determines the operation sequence, and the challenge bytes are a
//! function of the history and the challenge label alone — this is what
//! makes challenge derivation deterministic.

use crate::field::{group_order, le_bytes};
use crate::point::GroupElement;
use crate::scalar::{scalar_from_wide_bytes, Scalar};
use vstd::prelude::*;

verus! {

#[verifier::external_type_specification]
#[verifier::external_body]
pub struct ExMerlinTranscript(merlin::Transcript);

/// The eight little-endian bytes of a length.
pub open spec fn le8(n: nat) -> Seq<u8> {
    seq![
        (n % 256) as u8,
        ((n / 0x100) % 256) as u8,
        ((n / 0x10000) % 256) as u8,
        ((n / 0x1000000) % 256) as u8,
        ((n / 0x100000000) % 256) as u8,
        ((n / 0x10000000000) % 256) as u8,
        ((n / 0x1000000000000) % 256) as u8,
        ((n / 0x100000000000000) % 256) as u8,
    ]
}

/// One framed history item: a kind byte, then the length-prefixed label,
/// then the length-prefixed body. The framing is unambiguous, so a history
/// determines the exact sequence of events that produced it.
pub open spec fn event_encoding(kind: u8, label: Seq<u8>, body: Seq<u8>) -> Seq<u8> {
    seq![kind] + le8(label.len()) + label + le8(body.len()) + body
}

/// The history a fresh transcript starts with: its domain label, framed.
pub open spec fn init_event(label: Seq<u8>) -> Seq<u8> {
    event_encoding(1u8, label, Seq::empty())
}

/// The history item recording one absorbed message.
pub open spec fn message_event(label: Seq<u8>, message: Seq<u8>) -> Seq<u8> {
    event_encoding(2u8, label, message)
}

/// The history item recording one challenge squeeze.
pub open spec fn challenge_event(label: Seq<u8>) -> Seq<u8> {
    event_encoding(3u8, label, Seq::empty())
}

/// The history item recording one absorbed domain-separation message. Such
/// a message always goes in under the same fixed internal label, so the
/// event kind alone records which label it was.
pub open spec fn domain_event(message: Seq<u8>) -> Seq<u8> {
    event_encoding(4u8, Seq::empty(), message)
}

/// The 64 bytes that a Merlin transcript with the given absorbed history
/// squeezes for the given challenge label. No contract says what they are;
/// the name only records that they depend on nothing else.
pub uninterp spec fn challenge_bytes_of(history: Seq<u8>, label: Seq<u8>) -> Seq<u8>;

/// A Fiat-Shamir transcript: Merlin hash state plus the framed history of
/// everything absorbed and squeezed. Single-writer; mutated in place.
pub struct TranscriptState {
    inner: merlin::Transcript,
    history: Vec<u8>,
}

impl TranscriptState {
    /// The framed record of the initial label and of every absorb and
    /// squeeze so far, in order.
    pub closed spec fn history(self) -> Seq<u8> {
        self.history@
    }
}

/// Append the eight little-endian bytes of a length.
fn push_le8(out: &mut Vec<u8>, n: usize)
    ensures
        final(out)@ == old(out)@ + le8(n as nat),
{
    let m = n as u64;
    out.push((m % 256) as u8);
    out.push(((m / 0x100) % 256) as u8);
    out.push(((m / 0x10000) % 256) as u8);
    out.push(((m / 0x1000000) % 256) as u8);
    out.push(((m / 0x100000000) % 256) as u8);
    out.push(((m / 0x10000000000) % 256) as u8);
    out.push(((m / 0x1000000000000) % 256) as u8);
    out.push(((m / 0x100000000000000) % 256) as u8);
    proof {
        assert(out@ =~= old(out)@ + le8(n as nat));
    }
}

/// Build the framed encoding of one event.
fn encode_event(kind: u8, label: &[u8], body: &[u8]) -> (r: Vec<u8>)
    ensures
        r@ == event_encoding(kind, label@, body@),
{
    let mut out: Vec<u8> = Vec::new();
    out.push(kind);
    push_le8(&mut out, label.len());
    out.extend_from_slice(label);
    proof {
        assert(out@ =~= seq![kind] + le8(label@.len()) + label@);
    }
    push_le8(&mut out, body.len());
    out.extend_from_slice(body);
    proof {
        assert(out@ =~= event_encoding(kind, label@, body@));
    }
    out
}

/// Relies on merlin::Transcript::new: a fresh hash state keyed by the
/// domain-separation label. The given history is stored beside it as is.
/// Merlin asserts that an absorbed run fits a 32-bit length — and it
/// absorbs the label — so longer labels are excluded.
#[verifier::external_body]
fn transcript_new_raw(label: &'static [u8], history: Vec<u8>) -> (t: TranscriptState)
    requires
        label@.len() <= u32::MAX,
    ensures
        t.history() == history@,
{
    TranscriptState { inner: merlin::Transcript::new(label), history }
}

/// Relies on merlin::Transcript::append_message: absorbs the message under
/// the label, changing only the hash state. The framed bytes are appended
/// to the stored history as is. Merlin asserts that the message fits a
/// 32-bit length, so longer messages are excluded.
#[verifier::external_body]
fn transcript_append_raw(t: &mut TranscriptState, label: &'static [u8], message: &[u8], framed: Vec<u8>)
    requires
        message@.len() <= u32::MAX,
    ensures
        final(t).history() == old(t).history() + framed@,
{
    t.inner.append_message(label, message);
    let mut fr = framed;
    t.history.append(&mut fr);
}

/// Relies on merlin::Transcript::append_message under the transcript's
/// fixed internal domain-separation label, which only this operation ever
/// uses: absorbs the message, changing only the hash state. The framed
/// bytes are appended to the stored history as is. Merlin asserts that the
/// message fits a 32-bit length, so longer messages are excluded.
#[verifier::external_body]
fn transcript_domain_raw(t: &mut TranscriptState, message: &[u8], framed: Vec<u8>)
    requires
        message@.len() <= u32::MAX,
    ensures
        final(t).history() == old(t).history() + framed@,
{
    t.inner.append_message(b"domain-sep", message);
    let mut fr = framed;
    t.history.append(&mut fr);
}

/// Relies on merlin::Transcript::challenge_bytes: the 64 squeezed bytes are
/// a deterministic function of the label and of everything absorbed and
/// squeezed before — which the stored history records in full, framed and
/// unambiguous. The squeeze advances the hash state, so its framed record
/// is appended to the history as is.
#[verifier::external_body]
fn transcript_challenge_raw(t: &mut TranscriptState, label: &'static [u8], framed: Vec<u8>) -> (r: [u8;
    64])
    ensures
        r@ == challenge_bytes_of(old(t).history(), label@),
        final(t).history() == old(t).history() + framed@,
{
    let mut buf = [0u8; 64];
    t.inner.challenge_bytes(label, &mut buf);
    let mut fr = framed;
    t.history.append(&mut fr);
    buf
}

/// A fresh transcript under a domain-separating label; the label must fit
/// the hash construction's 32-bit length framing.
pub fn transcript_new(label: &'static [u8]) -> (t: TranscriptState)
    requires
        label@.len() <= u32::MAX,
    ensures
        t.history() == init_event(label@),
{
    let history = encode_event(1u8, label, &[]);
    transcript_new_raw(label, history)
}

/// Absorb a group element's compressed encoding under a sub-label.
pub fn transcript_append_point(t: &mut TranscriptState, label: &'static [u8], point: &GroupElement)
    ensures
        final(t).history() == old(t).history() + message_event(label@, point.encoding()),
{
    proof {
        crate::point::lemma_group_element_encoding(point);
    }
    let framed = encode_event(2u8, label, point.enc.as_slice());
    transcript_append_raw(t, label, point.enc.as_slice(), framed);
}

/// Absorb an application-level domain-separation message under the fixed
/// internal label; the message must fit the hash construction's 32-bit
/// length framing.
pub fn transcript_domain(t: &mut TranscriptState, message: &[u8])
    requires
        message@.len() <= u32::MAX,
    ensures
        final(t).history() == old(t).history() + domain_event(message@),
{
    let framed = encode_event(4u8, &[], message);
    transcript_domain_raw(t, message, framed);
}

/// Squeeze 64 bytes for the label and reduce them modulo the group order —
/// the wide reduction, so the scalar is uniform when the bytes are.
pub fn transcript_challenge_scalar(t: &mut TranscriptState, label: &'static [u8]) -> (s: Scalar)
    ensures
        s.wf(),
        s.value() == le_bytes(challenge_bytes_of(old(t).history(), label@)) % group_order(),
        final(t).history() == old(t).history() + challenge_event(label@),
{
    let framed = encode_event(3u8, label, &[]);
    let wide = transcript_challenge_raw(t, label, framed);
    scalar_from_wide_bytes(&wide)
}

/// Challenge determinism: the squeezed bytes depend on the history and the
/// challenge label alone, so two transcripts with equal histories answer
/// equal labels with equal challenges.
pub proof fn lemma_transcript_determinism(h1: Seq<u8>, h2: Seq<u8>, l1: Seq<u8>, l2: Seq<u8>)
    requires
        h1 == h2,
        l1 == l2,
    ensures
        challenge_bytes_of(h1, l1) == challenge_bytes_of(h2, l2),
{
}

} // verus!
