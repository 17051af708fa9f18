use geyser_client::diagnostics::{EncodingSample, EncodingVerifier};

fn matching_sample(bytes: &[u8]) -> EncodingSample {
    EncodingSample {
        original_len: bytes.len(),
        original: bytes.to_vec(),
        primary_len: bytes.len(),
        primary: bytes.to_vec(),
        reference_len: bytes.len(),
        reference: bytes.to_vec(),
    }
}

#[test]
fn identical_encodings_never_write_artifacts() {
    let mut v = EncodingVerifier::new();
    for i in 0..50u8 {
        let s = matching_sample(&[i, i.wrapping_add(1), 7]);
        assert!(!v.check_message(&s, 10, 5));
    }
    assert_eq!(v.artifacts, 0);
}

#[test]
fn one_flipped_byte_is_one_artifact() {
    let mut v = EncodingVerifier::new();
    let mut s = matching_sample(&[1, 2, 3, 4]);
    s.reference[2] ^= 1;
    assert!(v.check_message(&s, 10, 5));
    assert_eq!(v.artifacts, 1);
    let ok = matching_sample(&[9, 9]);
    assert!(!v.check_message(&ok, 10, 5));
    assert_eq!(v.artifacts, 1, "a clean message adds no artifact");
}

#[test]
fn primary_differing_from_original_is_a_mismatch() {
    let mut v = EncodingVerifier::new();
    let mut s = matching_sample(&[1, 2, 3]);
    s.primary[0] = 0;
    assert!(v.check_message(&s, 1, 1));
}

#[test]
fn reported_length_mismatch_is_caught() {
    let mut v = EncodingVerifier::new();
    let mut s = matching_sample(&[1, 2, 3]);
    s.primary_len = 2;
    assert!(v.check_message(&s, 1, 1));
    let mut s = matching_sample(&[1, 2, 3]);
    s.reference_len = 4;
    assert!(v.check_message(&s, 1, 1));
}

#[test]
fn timing_accumulates_and_reports_a_ratio() {
    let mut v = EncodingVerifier::new();
    assert_eq!(v.ratio_percent(), None, "no ratio before any primary time");
    let s = matching_sample(&[5]);
    v.check_message(&s, 200, 100);
    assert_eq!(v.acc.primary_nanos, 200);
    assert_eq!(v.acc.reference_nanos, 100);
    assert_eq!(v.ratio_percent(), Some(50));
    v.check_message(&s, 200, 500);
    assert_eq!(v.ratio_percent(), Some(150));
}
