//! Pedersen commitments and Bulletproof range proofs over the ristretto255
//! group, presented as a safe, verified handle library: scalars, group
//! elements, commitment generators, Fiat-Shamir transcripts, range proofs and
//! an owned byte-buffer transfer type.
//!
//! The elliptic-curve arithmetic, the Merlin transcript hashing and the
//! Bulletproofs protocol itself are outside collaborators; each call into them
//! sits behind a small trusted wrapper whose contract states what the
//! collaborator's documentation and source promise. Everything around those
//! calls is verified.

pub mod buffer;
pub mod field;
pub mod generator;
pub mod laws;
pub mod point;
pub mod rangeproof;
pub mod scalar;
pub mod transcript;
