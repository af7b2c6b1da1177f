use zkrange::laws::scalar_round_trips;
use zkrange::scalar::{
    scalar_add, scalar_equals, scalar_mul, scalar_new, scalar_random, scalar_to_bytes,
};

/// The group order, little-endian: 2^252 + 27742317777372353535851937790883648493.
const ORDER_LE: [u8; 32] = [
    0xed, 0xd3, 0xf5, 0x5c, 0x1a, 0x63, 0x12, 0x58, 0xd6, 0x9c, 0xf7, 0xa2, 0xde, 0xf9, 0xde,
    0x14, 0x00, 0x00, 0x00, 0x00, 0x00, 0x00, 0x00, 0x00, 0x00, 0x00, 0x00, 0x00, 0x00, 0x00,
    0x00, 0x10,
];

fn le32(x: u64) -> [u8; 32] {
    let mut b = [0u8; 32];
    b[..8].copy_from_slice(&x.to_le_bytes());
    b
}

#[test]
fn scalar_roundtrip_small() {
    let s = scalar_new(&le32(123456789));
    assert!(scalar_round_trips(&s));
    let bytes = scalar_to_bytes(&s);
    let decoded = scalar_new(&bytes);
    assert!(scalar_equals(&decoded, &s));
    assert_eq!(bytes, le32(123456789));
}

#[test]
fn scalar_roundtrip_random() {
    for _ in 0..32 {
        let s = scalar_random();
        assert!(scalar_round_trips(&s));
        assert!(scalar_equals(&scalar_new(&scalar_to_bytes(&s)), &s));
    }
}

#[test]
fn scalar_new_reduces_order_to_zero() {
    let zero = scalar_new(&le32(0));
    let wrapped = scalar_new(&ORDER_LE);
    assert!(scalar_equals(&wrapped, &zero));
    assert_eq!(scalar_to_bytes(&wrapped), [0u8; 32]);
}

#[test]
fn scalar_new_reduces_order_plus_five() {
    let mut above = ORDER_LE;
    above[0] += 5;
    let reduced = scalar_new(&above);
    assert!(scalar_equals(&reduced, &scalar_new(&le32(5))));
}

#[test]
fn scalar_add_exact() {
    let a = scalar_new(&le32(2));
    let b = scalar_new(&le32(3));
    let sum = scalar_add(&a, &b);
    assert_eq!(scalar_to_bytes(&sum), le32(5));
}

#[test]
fn scalar_add_wraps_at_order() {
    let mut order_minus_one = ORDER_LE;
    order_minus_one[0] -= 1;
    let a = scalar_new(&order_minus_one);
    let one = scalar_new(&le32(1));
    let sum = scalar_add(&a, &one);
    assert_eq!(scalar_to_bytes(&sum), [0u8; 32]);
}

#[test]
fn scalar_mul_exact() {
    let a = scalar_new(&le32(6));
    let b = scalar_new(&le32(7));
    let product = scalar_mul(&a, &b);
    assert_eq!(scalar_to_bytes(&product), le32(42));
}

#[test]
fn scalar_random_is_canonical() {
    for _ in 0..64 {
        let s = scalar_random();
        let bytes = scalar_to_bytes(&s);
        // Canonical encodings stay below 2^252 + eps: the top byte is at
        // most 0x10.
        assert!(bytes[31] <= 0x10);
    }
}

#[test]
fn scalar_equals_distinguishes() {
    let a = scalar_new(&le32(41));
    let b = scalar_new(&le32(42));
    assert!(!scalar_equals(&a, &b));
    assert!(scalar_equals(&a, &a));
}
