use zkrange::laws::transcript_determinism_holds;
use zkrange::point::ristretto_point_from_uniform_bytes;
use zkrange::scalar::{scalar_equals, scalar_to_bytes};
use zkrange::transcript::{
    transcript_append_point, transcript_challenge_scalar, transcript_domain, transcript_new,
};

fn sample_point(seed: u8) -> zkrange::point::GroupElement {
    let mut bytes = [0u8; 64];
    bytes[0] = seed;
    ristretto_point_from_uniform_bytes(&bytes)
}

#[test]
fn determinism_law() {
    let p = sample_point(1);
    assert!(transcript_determinism_holds(b"proto", b"message", b"V", &p, b"x"));
}

#[test]
fn equal_feeds_give_equal_challenges() {
    let p = sample_point(2);
    let mut t1 = transcript_new(b"example");
    let mut t2 = transcript_new(b"example");
    transcript_domain(&mut t1, b"stage one");
    transcript_domain(&mut t2, b"stage one");
    transcript_append_point(&mut t1, b"A", &p);
    transcript_append_point(&mut t2, b"A", &p);
    let c1 = transcript_challenge_scalar(&mut t1, b"y");
    let c2 = transcript_challenge_scalar(&mut t2, b"y");
    assert!(scalar_equals(&c1, &c2));
    assert_eq!(scalar_to_bytes(&c1), scalar_to_bytes(&c2));
}

#[test]
fn different_labels_give_different_challenges() {
    let mut t1 = transcript_new(b"one");
    let mut t2 = transcript_new(b"two");
    let c1 = transcript_challenge_scalar(&mut t1, b"x");
    let c2 = transcript_challenge_scalar(&mut t2, b"x");
    assert!(!scalar_equals(&c1, &c2));
}

#[test]
fn different_messages_give_different_challenges() {
    let mut t1 = transcript_new(b"proto");
    let mut t2 = transcript_new(b"proto");
    transcript_domain(&mut t1, b"alpha");
    transcript_domain(&mut t2, b"beta");
    let c1 = transcript_challenge_scalar(&mut t1, b"x");
    let c2 = transcript_challenge_scalar(&mut t2, b"x");
    assert!(!scalar_equals(&c1, &c2));
}

#[test]
fn absorption_order_matters() {
    let p = sample_point(3);
    let q = sample_point(4);
    let mut t1 = transcript_new(b"proto");
    let mut t2 = transcript_new(b"proto");
    transcript_append_point(&mut t1, b"A", &p);
    transcript_append_point(&mut t1, b"B", &q);
    transcript_append_point(&mut t2, b"B", &q);
    transcript_append_point(&mut t2, b"A", &p);
    let c1 = transcript_challenge_scalar(&mut t1, b"x");
    let c2 = transcript_challenge_scalar(&mut t2, b"x");
    assert!(!scalar_equals(&c1, &c2));
}

#[test]
fn challenges_advance_the_state() {
    let mut t = transcript_new(b"proto");
    let c1 = transcript_challenge_scalar(&mut t, b"x");
    let c2 = transcript_challenge_scalar(&mut t, b"x");
    assert!(!scalar_equals(&c1, &c2));
}
