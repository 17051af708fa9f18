use geyser_client::report::{
    format_thousands, print_blockhash_valid, print_block_height, print_health_check,
    print_latest_blockhash, print_slot,
};
use geyser_client::text::{parse_comma_list, split_lines};

#[test]
fn thousands_grouping() {
    assert_eq!(format_thousands(0), "0");
    assert_eq!(format_thousands(100), "100");
    assert_eq!(format_thousands(1000), "1,000");
    assert_eq!(format_thousands(1234567), "1,234,567");
    assert_eq!(format_thousands(u64::MAX), "18,446,744,073,709,551,615");
}

#[test]
fn health_check_passes_the_rendering_through() {
    let r = print_health_check(b"HealthCheckResponse { status: 1 }");
    assert_eq!(r.len(), 1);
    assert_eq!(r[0].0, "Response");
    assert_eq!(r[0].1, b"HealthCheckResponse { status: 1 }".to_vec());
}

#[test]
fn latest_blockhash_extracts_labelled_values() {
    let text = b"GetLatestBlockhashResponse {\n    slot: 123,\n    blockhash: \"ABC\",\n    last_valid_block_height: 456,\n}";
    let r = print_latest_blockhash(text);
    assert_eq!(r.len(), 3);
    assert_eq!(r[0].0, "Slot");
    assert_eq!(r[0].1, b"123".to_vec());
    assert_eq!(r[1].0, "Blockhash");
    assert_eq!(r[1].1, b"ABC".to_vec());
    assert_eq!(r[2].0, "Last Valid Block Height");
    assert_eq!(r[2].1, b"456".to_vec());
}

#[test]
fn latest_blockhash_falls_back_to_the_whole_rendering() {
    let r = print_latest_blockhash(b"nothing to see");
    assert_eq!(r.len(), 1);
    assert_eq!(r[0].0, "Response");
    assert_eq!(r[0].1, b"nothing to see".to_vec());
}

#[test]
fn block_height_extracts_heights() {
    let r = print_block_height(b"GetBlockHeightResponse {\n    block_height: 99,\n}");
    assert_eq!(r.len(), 1);
    assert_eq!(r[0].0, "Block Height");
    assert_eq!(r[0].1, b"99".to_vec());
}

#[test]
fn slot_extracts_slots() {
    let r = print_slot(b"GetSlotResponse {\n    slot: 42,\n}");
    assert_eq!(r.len(), 1);
    assert_eq!(r[0].0, "Slot");
    assert_eq!(r[0].1, b"42".to_vec());
}

#[test]
fn blockhash_valid_flags_the_validity_line() {
    let text = b"IsBlockhashValidResponse {\n    valid: true,\n    slot: 5,\n}";
    let r = print_blockhash_valid(text);
    assert_eq!(r.len(), 2);
    assert_eq!(r[0].0, b"valid".to_vec());
    assert_eq!(r[0].1, b"true".to_vec());
    assert!(r[0].2);
    assert_eq!(r[1].0, b"slot".to_vec());
    assert_eq!(r[1].1, b"5".to_vec());
    assert!(!r[1].2);
}

#[test]
fn blockhash_valid_falls_back() {
    let r = print_blockhash_valid(b"opaque");
    assert_eq!(r.len(), 1);
    assert_eq!(r[0].0, b"Response".to_vec());
    assert_eq!(r[0].1, b"opaque".to_vec());
    assert!(!r[0].2);
}

#[test]
fn lines_split_like_the_standard_splitter() {
    let ls = split_lines(b"a\r\nb\nc");
    assert_eq!(ls, vec![b"a".to_vec(), b"b".to_vec(), b"c".to_vec()]);
    let ls = split_lines(b"a\n");
    assert_eq!(ls, vec![b"a".to_vec()]);
    let ls = split_lines(b"");
    assert!(ls.is_empty());
    let ls = split_lines(b"x\n\ny");
    assert_eq!(ls, vec![b"x".to_vec(), b"".to_vec(), b"y".to_vec()]);
}

#[test]
fn comma_lists_are_trimmed_and_filtered() {
    let r = parse_comma_list(b" a, b ,, c ");
    assert_eq!(r, vec![b"a".to_vec(), b"b".to_vec(), b"c".to_vec()]);
    let r = parse_comma_list(b"   ");
    assert!(r.is_empty());
    let r = parse_comma_list(b"one");
    assert_eq!(r, vec![b"one".to_vec()]);
}
