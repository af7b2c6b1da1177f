use zkrange::laws::{point_negate_involution_holds, point_round_trips, point_sub_then_add_holds};
use zkrange::point::{
    compressed_ristretto_from_bytes, compressed_ristretto_to_bytes, ristretto_point_add,
    ristretto_point_compress, ristretto_point_decompress, ristretto_point_equals,
    ristretto_point_from_uniform_bytes, ristretto_point_mul_bytes, ristretto_point_mul_scalar,
    ristretto_point_negate, ristretto_point_sub,
};
use zkrange::scalar::scalar_new;

fn sample_point(seed: u8) -> zkrange::point::GroupElement {
    let mut bytes = [0u8; 64];
    for (i, b) in bytes.iter_mut().enumerate() {
        *b = seed.wrapping_mul(31).wrapping_add(i as u8);
    }
    ristretto_point_from_uniform_bytes(&bytes)
}

fn le32(x: u64) -> [u8; 32] {
    let mut b = [0u8; 32];
    b[..8].copy_from_slice(&x.to_le_bytes());
    b
}

#[test]
fn point_roundtrip() {
    for seed in 0..8u8 {
        let p = sample_point(seed);
        assert!(point_round_trips(&p));
        let enc = ristretto_point_compress(&p);
        let q = ristretto_point_decompress(&enc).expect("own encoding must decompress");
        assert!(ristretto_point_equals(&q, &p));
        assert_eq!(ristretto_point_compress(&q), enc);
    }
}

#[test]
fn decompress_never_aborts() {
    // A simple deterministic byte-string generator; decompression must
    // return an element or absence, never abort, whatever the bytes.
    let mut state = 0x1234_5678_9abc_def0u64;
    let mut accepted = 0u32;
    for _ in 0..256 {
        let mut bytes = [0u8; 32];
        for b in bytes.iter_mut() {
            state = state.wrapping_mul(6364136223846793005).wrapping_add(1442695040888963407);
            *b = (state >> 56) as u8;
        }
        if let Some(p) = ristretto_point_decompress(&bytes) {
            accepted += 1;
            // Whatever decompresses was canonical: it re-compresses to the
            // same bytes.
            assert_eq!(ristretto_point_compress(&p), bytes);
        }
    }
    // Not a contract, just a sanity bound: far from all random strings are
    // valid encodings.
    assert!(accepted < 256);
}

#[test]
fn decompress_rejects_all_ones() {
    assert!(ristretto_point_decompress(&[0xff; 32]).is_none());
}

#[test]
fn point_add_sub_cancel() {
    let p = sample_point(1);
    let q = sample_point(2);
    let sum = ristretto_point_add(&p, &q);
    let back = ristretto_point_sub(&sum, &q);
    assert!(ristretto_point_equals(&back, &p));
    assert!(!ristretto_point_equals(&sum, &p));
}

#[test]
fn point_sub_self_is_identity() {
    let p = sample_point(3);
    let z = ristretto_point_sub(&p, &p);
    // The ristretto255 identity encodes as all zeroes.
    assert_eq!(ristretto_point_compress(&z), [0u8; 32]);
}

#[test]
fn point_negate_cancels() {
    let p = sample_point(4);
    let n = ristretto_point_negate(&p);
    let z = ristretto_point_add(&p, &n);
    assert_eq!(ristretto_point_compress(&z), [0u8; 32]);
    assert!(ristretto_point_equals(&ristretto_point_negate(&n), &p));
}

#[test]
fn point_mul_two_is_double() {
    let p = sample_point(5);
    let doubled = ristretto_point_add(&p, &p);
    let by_bytes = ristretto_point_mul_bytes(&p, &le32(2));
    let by_scalar = ristretto_point_mul_scalar(&p, &scalar_new(&le32(2)));
    assert!(ristretto_point_equals(&by_bytes, &doubled));
    assert!(ristretto_point_equals(&by_scalar, &doubled));
}

#[test]
fn point_sub_then_add_law() {
    let p = sample_point(11);
    let q = sample_point(12);
    assert!(point_sub_then_add_holds(&p, &q));
    assert!(point_sub_then_add_holds(&p, &p));
}

#[test]
fn point_negate_involution_law() {
    let p = sample_point(13);
    assert!(point_negate_involution_holds(&p));
}

#[test]
fn hash_to_group_is_deterministic() {
    let mut bytes = [0u8; 64];
    bytes[7] = 21;
    let p = ristretto_point_from_uniform_bytes(&bytes);
    let q = ristretto_point_from_uniform_bytes(&bytes);
    assert!(ristretto_point_equals(&p, &q));
}

#[test]
fn point_mul_one_is_identity_map() {
    let p = sample_point(6);
    let q = ristretto_point_mul_bytes(&p, &le32(1));
    assert!(ristretto_point_equals(&q, &p));
}

#[test]
fn compressed_holder_roundtrip() {
    let bytes: [u8; 32] = [7u8; 32];
    let holder = compressed_ristretto_from_bytes(&bytes);
    assert_eq!(compressed_ristretto_to_bytes(&holder), bytes);
}
