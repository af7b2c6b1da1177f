//! Cross-checks against the underlying cryptographic crates used directly:
//! the library's wrappers must agree with what the collaborators compute.

use zkrange::generator::{pedersen_gens_commit, pedersen_gens_default, pedersen_gens_B};
use zkrange::point::{ristretto_point_compress, ristretto_point_decompress};
use zkrange::scalar::{scalar_new, scalar_to_bytes};
use zkrange::transcript::{
    transcript_append_point, transcript_challenge_scalar, transcript_domain, transcript_new,
};

fn le32(x: u64) -> [u8; 32] {
    let mut b = [0u8; 32];
    b[..8].copy_from_slice(&x.to_le_bytes());
    b
}

/// The canonical encoding of the ristretto255 basepoint.
const BASEPOINT_ENC: [u8; 32] = [
    0xe2, 0xf2, 0xae, 0x0a, 0x6a, 0xbc, 0x4e, 0x71, 0xa8, 0x84, 0xa9, 0x61, 0xc5, 0x00, 0x51,
    0x5f, 0x58, 0xe3, 0x0b, 0x6a, 0xa5, 0x82, 0xdd, 0x8d, 0xb6, 0xa6, 0x59, 0x45, 0xe0, 0x8d,
    0x2d, 0x76,
];

#[test]
fn default_value_base_is_the_basepoint() {
    let gens = pedersen_gens_default();
    let b = pedersen_gens_B(&gens);
    assert_eq!(ristretto_point_compress(&b), BASEPOINT_ENC);
}

#[test]
fn commit_matches_bulletproofs_directly() {
    let gens = pedersen_gens_default();
    let v = scalar_new(&le32(1037));
    let r = scalar_new(&le32(31337));
    let ours = pedersen_gens_commit(&gens, &v, &r);

    let theirs = bulletproofs::PedersenGens::default()
        .commit(
            curve25519_dalek_ng::scalar::Scalar::from_bytes_mod_order(le32(1037)),
            curve25519_dalek_ng::scalar::Scalar::from_bytes_mod_order(le32(31337)),
        )
        .compress()
        .to_bytes();
    assert_eq!(ristretto_point_compress(&ours), theirs);
}

#[test]
fn challenge_matches_merlin_directly() {
    let mut bytes = [0u8; 64];
    bytes[0] = 5;
    let p = zkrange::point::ristretto_point_from_uniform_bytes(&bytes);
    let p_enc = ristretto_point_compress(&p);

    let mut ours = transcript_new(b"proto");
    transcript_domain(&mut ours, b"stage");
    transcript_append_point(&mut ours, b"V", &p);
    let c = transcript_challenge_scalar(&mut ours, b"x");

    let mut theirs = merlin::Transcript::new(b"proto");
    theirs.append_message(b"domain-sep", b"stage");
    theirs.append_message(b"V", &p_enc);
    let mut wide = [0u8; 64];
    theirs.challenge_bytes(b"x", &mut wide);
    let expected = curve25519_dalek_ng::scalar::Scalar::from_bytes_mod_order_wide(&wide);

    assert_eq!(scalar_to_bytes(&c), expected.to_bytes());
}

#[test]
fn scalar_encoding_matches_dalek() {
    let raw = [0x7fu8; 32];
    let ours = scalar_new(&raw);
    let theirs = curve25519_dalek_ng::scalar::Scalar::from_bytes_mod_order(raw);
    assert_eq!(scalar_to_bytes(&ours), theirs.to_bytes());
}

#[test]
fn decompress_matches_dalek() {
    let candidate = [0x02u8; 32];
    let ours = ristretto_point_decompress(&candidate);
    let theirs =
        curve25519_dalek_ng::ristretto::CompressedRistretto(candidate).decompress();
    assert_eq!(ours.is_some(), theirs.is_some());
    if let (Some(p), Some(q)) = (ours, theirs) {
        assert_eq!(ristretto_point_compress(&p), q.compress().to_bytes());
    }
}
