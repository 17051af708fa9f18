use geyser_client::errors::ValidationError;
use geyser_client::filters::{
    build_subscribe_request, parse_compression, parse_data_slice, parse_lamports, parse_memcmp,
    AccountsFilterKind, Commitment, Compression, FilterOptions, LamportsCmp,
};
use geyser_client::text::parse_u64;

#[test]
fn memcmp_with_comma_parses() {
    let f = parse_memcmp(b"10,abc").unwrap();
    assert_eq!(f.offset, 10);
    assert_eq!(f.data_base58, b"abc".to_vec());
}

#[test]
fn memcmp_data_is_trimmed() {
    let f = parse_memcmp(b"7,  xyz  ").unwrap();
    assert_eq!(f.offset, 7);
    assert_eq!(f.data_base58, b"xyz".to_vec());
}

#[test]
fn memcmp_without_comma_fails() {
    let e = parse_memcmp(b"abc").unwrap_err();
    assert!(matches!(e, ValidationError::MemcmpMalformed));
}

#[test]
fn memcmp_bad_offset_fails() {
    let e = parse_memcmp(b"x,abc").unwrap_err();
    assert!(matches!(e, ValidationError::MemcmpOffset));
}

#[test]
fn lamports_gt_parses() {
    let (cmp, v) = parse_lamports(b"gt:100").unwrap();
    assert_eq!(cmp, LamportsCmp::Gt);
    assert_eq!(v, 100);
}

#[test]
fn lamports_all_comparators() {
    assert_eq!(parse_lamports(b"eq:1").unwrap().0, LamportsCmp::Eq);
    assert_eq!(parse_lamports(b"ne:2").unwrap().0, LamportsCmp::Ne);
    assert_eq!(parse_lamports(b"lt:3").unwrap().0, LamportsCmp::Lt);
    assert_eq!(parse_lamports(b"gt:4").unwrap().0, LamportsCmp::Gt);
}

#[test]
fn lamports_unknown_comparator_fails() {
    let e = parse_lamports(b"foo:100").unwrap_err();
    match e {
        ValidationError::LamportsCmp(t) => assert_eq!(t, b"foo".to_vec()),
        _ => panic!("wrong error"),
    }
}

#[test]
fn lamports_bad_value_fails() {
    let e = parse_lamports(b"gt:notanumber").unwrap_err();
    match e {
        ValidationError::LamportsValue(t) => assert_eq!(t, b"notanumber".to_vec()),
        _ => panic!("wrong error"),
    }
}

#[test]
fn lamports_bad_value_wins_over_bad_comparator() {
    let e = parse_lamports(b"foo:bar").unwrap_err();
    assert!(matches!(e, ValidationError::LamportsValue(_)));
}

#[test]
fn lamports_without_colon_fails() {
    let e = parse_lamports(b"gt100").unwrap_err();
    assert!(matches!(e, ValidationError::LamportsMalformed));
}

#[test]
fn data_slice_parses() {
    let d = parse_data_slice(b"0,32").unwrap();
    assert_eq!(d.offset, 0);
    assert_eq!(d.length, 32);
}

#[test]
fn data_slice_malformed_fails() {
    assert!(matches!(
        parse_data_slice(b"0;32").unwrap_err(),
        ValidationError::DataSliceMalformed
    ));
    assert!(matches!(
        parse_data_slice(b"0,x").unwrap_err(),
        ValidationError::DataSliceMalformed
    ));
}

#[test]
fn parse_u64_edges() {
    assert_eq!(parse_u64(b"0"), Some(0));
    assert_eq!(parse_u64(b"+42"), Some(42));
    assert_eq!(parse_u64(b"18446744073709551615"), Some(u64::MAX));
    assert_eq!(parse_u64(b"18446744073709551616"), None);
    assert_eq!(parse_u64(b""), None);
    assert_eq!(parse_u64(b"+"), None);
    assert_eq!(parse_u64(b"1 2"), None);
}

#[test]
fn compression_names() {
    assert_eq!(parse_compression(b"gzip"), Some(Compression::Gzip));
    assert_eq!(parse_compression(b"GZip"), Some(Compression::Gzip));
    assert_eq!(parse_compression(b"zstd"), Some(Compression::Zstd));
    assert_eq!(parse_compression(b"brotli"), None);
}

#[test]
fn builder_single_memcmp_entry() {
    let mut opts = FilterOptions::default();
    opts.accounts = true;
    opts.accounts_memcmp = vec![b"10,abc".to_vec()];
    let req = build_subscribe_request(&opts, &Vec::new(), None).unwrap();
    let af = req.accounts.unwrap();
    assert_eq!(af.filters.len(), 1);
    match &af.filters[0] {
        AccountsFilterKind::Memcmp(m) => {
            assert_eq!(m.offset, 10);
            assert_eq!(m.data_base58, b"abc".to_vec());
        }
        _ => panic!("expected a memcmp entry"),
    }
    assert!(req.slots.is_none());
    assert!(req.transactions.is_none());
    assert!(req.transactions_status.is_none());
    assert!(req.entry.is_none());
    assert!(req.blocks.is_none());
    assert!(req.blocks_meta.is_none());
}

#[test]
fn builder_memcmp_without_comma_fails() {
    let mut opts = FilterOptions::default();
    opts.accounts = true;
    opts.accounts_memcmp = vec![b"abc".to_vec()];
    let e = build_subscribe_request(&opts, &Vec::new(), None).unwrap_err();
    assert!(matches!(e, ValidationError::MemcmpMalformed));
}

#[test]
fn builder_lamports_filter() {
    let mut opts = FilterOptions::default();
    opts.accounts = true;
    opts.accounts_lamports = vec![b"gt:100".to_vec()];
    let req = build_subscribe_request(&opts, &Vec::new(), None).unwrap();
    let af = req.accounts.unwrap();
    assert_eq!(af.filters.len(), 1);
    match &af.filters[0] {
        AccountsFilterKind::Lamports(c, v) => {
            assert_eq!(*c, LamportsCmp::Gt);
            assert_eq!(*v, 100);
        }
        _ => panic!("expected a lamports entry"),
    }
}

#[test]
fn builder_filter_order_and_flags() {
    let mut opts = FilterOptions::default();
    opts.accounts = true;
    opts.accounts_memcmp = vec![b"1,a".to_vec(), b"2,b".to_vec()];
    opts.accounts_datasize = Some(165);
    opts.accounts_token_account_state = true;
    opts.accounts_lamports = vec![b"eq:5".to_vec()];
    let req = build_subscribe_request(&opts, &Vec::new(), Some(Commitment::Confirmed)).unwrap();
    let af = req.accounts.unwrap();
    assert_eq!(af.filters.len(), 5);
    assert!(matches!(af.filters[0], AccountsFilterKind::Memcmp(_)));
    assert!(matches!(af.filters[1], AccountsFilterKind::Memcmp(_)));
    assert!(matches!(af.filters[2], AccountsFilterKind::Datasize(165)));
    assert!(matches!(af.filters[3], AccountsFilterKind::TokenAccountState(true)));
    assert!(matches!(af.filters[4], AccountsFilterKind::Lamports(LamportsCmp::Eq, 5)));
    assert_eq!(req.commitment, Some(Commitment::Confirmed));
}

#[test]
fn builder_appends_address_file_accounts() {
    let mut opts = FilterOptions::default();
    opts.accounts = true;
    opts.accounts_account = vec![b"AAA".to_vec()];
    let file_accounts = vec![b"BBB".to_vec(), b"CCC".to_vec()];
    let req = build_subscribe_request(&opts, &file_accounts, None).unwrap();
    let af = req.accounts.unwrap();
    assert_eq!(
        af.account,
        vec![b"AAA".to_vec(), b"BBB".to_vec(), b"CCC".to_vec()]
    );
}

#[test]
fn builder_enabled_categories_present() {
    let mut opts = FilterOptions::default();
    opts.slots = true;
    opts.slots_filter_by_commitment = Some(true);
    opts.transactions = true;
    opts.transactions_vote = Some(false);
    opts.transactions_account_include = vec![b"X".to_vec()];
    opts.entries = true;
    opts.blocks = true;
    opts.blocks_include_transactions = Some(true);
    opts.blocks_meta = true;
    opts.from_slot = Some(9);
    opts.ping = Some(3);
    opts.accounts_data_slice = vec![b"0,32".to_vec()];
    let req = build_subscribe_request(&opts, &Vec::new(), None).unwrap();
    assert!(req.accounts.is_none());
    let sf = req.slots.unwrap();
    assert_eq!(sf.filter_by_commitment, Some(true));
    assert_eq!(sf.interslot_updates, None);
    let tf = req.transactions.unwrap();
    assert_eq!(tf.vote, Some(false));
    assert_eq!(tf.account_include, vec![b"X".to_vec()]);
    assert!(req.transactions_status.is_none());
    assert!(req.entry.is_some());
    let bf = req.blocks.unwrap();
    assert_eq!(bf.include_transactions, Some(true));
    assert!(req.blocks_meta.is_some());
    assert_eq!(req.from_slot, Some(9));
    assert_eq!(req.ping, Some(3));
    assert_eq!(req.accounts_data_slice.len(), 1);
    assert_eq!(req.accounts_data_slice[0].offset, 0);
    assert_eq!(req.accounts_data_slice[0].length, 32);
}

#[test]
fn builder_bad_data_slice_fails() {
    let mut opts = FilterOptions::default();
    opts.accounts_data_slice = vec![b"nope".to_vec()];
    let e = build_subscribe_request(&opts, &Vec::new(), None).unwrap_err();
    assert!(matches!(e, ValidationError::DataSliceMalformed));
}

#[test]
fn commitment_codes() {
    assert_eq!(Commitment::Processed.code(), 0);
    assert_eq!(Commitment::Confirmed.code(), 1);
    assert_eq!(Commitment::Finalized.code(), 2);
    assert_eq!(Commitment::default(), Commitment::Processed);
}
