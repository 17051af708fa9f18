use geyser_client::dispatch::{
    create_pretty_account, create_pretty_entry, create_pretty_transaction, dispatch_update,
    slot_status_text, Field, FieldValue,
};
use geyser_client::encoders::{base58_encode, hex_encode};
use geyser_client::errors::ProtocolError;
use geyser_client::update::{
    AccountInfo, AccountUpdate, BlockUpdate, EntryUpdate, SlotUpdate, Timestamp,
    TransactionInfo, TransactionStatusUpdate, TransactionUpdate, Update, UpdateKind,
};

fn field_text(f: &Field) -> &str {
    match &f.value {
        FieldValue::Text(s) => s.as_str(),
        _ => panic!("expected text in field {}", f.name),
    }
}

fn account_info() -> AccountInfo {
    AccountInfo {
        pubkey: vec![0; 32],
        lamports: 12345,
        owner: vec![0; 32],
        executable: true,
        rent_epoch: 7,
        data: vec![0xde, 0xad, 0xbe, 0xef],
        write_version: 9,
        txn_signature: None,
    }
}

#[test]
fn base58_and_hex_are_real_encodings() {
    assert_eq!(base58_encode(&vec![0, 0, 0]), "111");
    assert_eq!(base58_encode(&Vec::new()), "");
    assert_eq!(hex_encode(&vec![0xde, 0xad]), "dead");
    assert_eq!(hex_encode(&vec![0x00, 0x0f]), "000f");
    let sample = vec![1, 2, 3, 4, 5];
    assert_eq!(base58_encode(&sample), bs58::encode(&sample).into_string());
    assert_eq!(hex_encode(&sample), hex::encode(&sample));
}

#[test]
fn account_record_fields() {
    let fs = create_pretty_account(&account_info()).unwrap();
    assert_eq!(fs.len(), 8);
    assert_eq!(fs[0].name, "pubkey");
    assert_eq!(field_text(&fs[0]), "11111111111111111111111111111111");
    assert_eq!(fs[1].name, "lamports");
    assert!(matches!(fs[1].value, FieldValue::Unsigned(12345)));
    assert_eq!(fs[2].name, "owner");
    assert_eq!(fs[3].name, "executable");
    assert!(matches!(fs[3].value, FieldValue::Boolean(true)));
    assert_eq!(fs[4].name, "rentEpoch");
    assert_eq!(fs[5].name, "data");
    assert_eq!(field_text(&fs[5]), "deadbeef");
    assert_eq!(fs[6].name, "writeVersion");
    assert_eq!(fs[7].name, "txnSignature");
    assert!(matches!(fs[7].value, FieldValue::Null));
}

#[test]
fn account_with_signature_renders_it() {
    let mut a = account_info();
    a.txn_signature = Some(vec![0; 64]);
    let fs = create_pretty_account(&a).unwrap();
    assert_eq!(
        field_text(&fs[7]),
        "1111111111111111111111111111111111111111111111111111111111111111"
    );
}

#[test]
fn short_pubkey_is_rejected() {
    let mut a = account_info();
    a.pubkey = vec![1, 2, 3];
    assert!(matches!(
        create_pretty_account(&a).unwrap_err(),
        ProtocolError::InvalidPubkey
    ));
}

#[test]
fn transaction_record_fields() {
    let t = TransactionInfo { signature: vec![0; 64], is_vote: false };
    let fs = create_pretty_transaction(&t).unwrap();
    assert_eq!(fs.len(), 2);
    assert_eq!(fs[0].name, "signature");
    assert!(matches!(fs[1].value, FieldValue::Boolean(false)));
    let bad = TransactionInfo { signature: vec![0; 63], is_vote: false };
    assert!(matches!(
        create_pretty_transaction(&bad).unwrap_err(),
        ProtocolError::InvalidSignature
    ));
}

#[test]
fn entry_record_fields() {
    let e = EntryUpdate {
        slot: 1,
        index: 2,
        num_hashes: 3,
        hash: vec![0; 32],
        executed_transaction_count: 4,
        starting_transaction_index: 5,
    };
    let fs = create_pretty_entry(&e).unwrap();
    assert_eq!(fs.len(), 6);
    assert_eq!(fs[3].name, "hash");
    assert_eq!(field_text(&fs[3]), "11111111111111111111111111111111");
    let bad = EntryUpdate { hash: vec![0; 31], ..e };
    assert!(matches!(
        create_pretty_entry(&bad).unwrap_err(),
        ProtocolError::InvalidHash
    ));
}

#[test]
fn slot_status_names() {
    assert_eq!(slot_status_text(0).unwrap(), "SLOT_PROCESSED");
    assert_eq!(slot_status_text(1).unwrap(), "SLOT_CONFIRMED");
    assert_eq!(slot_status_text(2).unwrap(), "SLOT_FINALIZED");
    assert_eq!(slot_status_text(3).unwrap(), "SLOT_FIRST_SHRED_RECEIVED");
    assert_eq!(slot_status_text(4).unwrap(), "SLOT_COMPLETED");
    assert_eq!(slot_status_text(5).unwrap(), "SLOT_CREATED_BANK");
    assert_eq!(slot_status_text(6).unwrap(), "SLOT_DEAD");
    assert!(slot_status_text(7).is_none());
    assert!(slot_status_text(-1).is_none());
}

fn ts() -> Option<Timestamp> {
    Some(Timestamp { seconds: 1, nanos: 2 })
}

#[test]
fn dispatch_slot_update() {
    let u = Update {
        filters: vec!["client".to_string()],
        created_at: ts(),
        wire_len: 5,
        kind: UpdateKind::Slot(SlotUpdate {
            slot: 42,
            parent: None,
            status: 2,
            dead_error: None,
        }),
    };
    let n = dispatch_update(&u).unwrap();
    assert_eq!(n.kind_label, "slot");
    assert_eq!(n.filters, vec!["client".to_string()]);
    assert_eq!(n.fields.len(), 4);
    assert!(matches!(n.fields[0].value, FieldValue::Unsigned(42)));
    assert!(matches!(n.fields[1].value, FieldValue::Null));
    assert_eq!(field_text(&n.fields[2]), "SLOT_FINALIZED");
    assert!(matches!(n.fields[3].value, FieldValue::Null));
}

#[test]
fn dispatch_bad_slot_status() {
    let u = Update {
        filters: Vec::new(),
        created_at: ts(),
        wire_len: 5,
        kind: UpdateKind::Slot(SlotUpdate { slot: 1, parent: None, status: 99, dead_error: None }),
    };
    assert!(matches!(
        dispatch_update(&u).unwrap_err(),
        ProtocolError::InvalidSlotStatus
    ));
}

#[test]
fn dispatch_missing_account() {
    let u = Update {
        filters: Vec::new(),
        created_at: ts(),
        wire_len: 5,
        kind: UpdateKind::Account(AccountUpdate { account: None, slot: 1, is_startup: false }),
    };
    assert!(matches!(
        dispatch_update(&u).unwrap_err(),
        ProtocolError::MissingAccount
    ));
}

#[test]
fn dispatch_missing_transaction() {
    let u = Update {
        filters: Vec::new(),
        created_at: ts(),
        wire_len: 5,
        kind: UpdateKind::Transaction(TransactionUpdate { transaction: None, slot: 1 }),
    };
    assert!(matches!(
        dispatch_update(&u).unwrap_err(),
        ProtocolError::MissingTransaction
    ));
}

#[test]
fn dispatch_missing_timestamp() {
    let u = Update {
        filters: Vec::new(),
        created_at: None,
        wire_len: 5,
        kind: UpdateKind::TransactionStatus(TransactionStatusUpdate {
            slot: 1,
            signature: vec![0; 64],
            is_vote: false,
            index: 0,
        }),
    };
    assert!(matches!(
        dispatch_update(&u).unwrap_err(),
        ProtocolError::MissingTimestamp
    ));
}

#[test]
fn dispatch_account_update_appends_startup_and_slot() {
    let u = Update {
        filters: Vec::new(),
        created_at: ts(),
        wire_len: 5,
        kind: UpdateKind::Account(AccountUpdate {
            account: Some(account_info()),
            slot: 77,
            is_startup: true,
        }),
    };
    let n = dispatch_update(&u).unwrap();
    assert_eq!(n.kind_label, "account");
    assert_eq!(n.fields.len(), 10);
    assert_eq!(n.fields[8].name, "isStartup");
    assert!(matches!(n.fields[8].value, FieldValue::Boolean(true)));
    assert_eq!(n.fields[9].name, "slot");
    assert!(matches!(n.fields[9].value, FieldValue::Unsigned(77)));
}

#[test]
fn dispatch_block_with_nested_records() {
    let b = BlockUpdate {
        slot: 10,
        blockhash: "hash".to_string(),
        parent_slot: 9,
        parent_blockhash: "prev".to_string(),
        executed_transaction_count: 1,
        updated_account_count: 1,
        entries_count: 1,
        block_time: Some(123),
        block_height: None,
        transactions: vec![TransactionInfo { signature: vec![0; 64], is_vote: true }],
        accounts: vec![account_info()],
        entries: vec![EntryUpdate {
            slot: 10,
            index: 0,
            num_hashes: 1,
            hash: vec![0; 32],
            executed_transaction_count: 1,
            starting_transaction_index: 0,
        }],
    };
    let u = Update {
        filters: Vec::new(),
        created_at: ts(),
        wire_len: 5,
        kind: UpdateKind::Block(b),
    };
    let n = dispatch_update(&u).unwrap();
    assert_eq!(n.kind_label, "block");
    assert_eq!(n.fields.len(), 9);
    assert!(matches!(n.fields[2].value, FieldValue::Signed(123)));
    assert_eq!(n.transactions.len(), 1);
    assert_eq!(n.accounts.len(), 1);
    assert_eq!(n.entries.len(), 1);
}

#[test]
fn dispatch_block_bad_nested_signature() {
    let b = BlockUpdate {
        slot: 10,
        blockhash: String::new(),
        parent_slot: 9,
        parent_blockhash: String::new(),
        executed_transaction_count: 0,
        updated_account_count: 0,
        entries_count: 0,
        block_time: None,
        block_height: None,
        transactions: vec![TransactionInfo { signature: vec![1], is_vote: false }],
        accounts: Vec::new(),
        entries: Vec::new(),
    };
    let u = Update {
        filters: Vec::new(),
        created_at: ts(),
        wire_len: 5,
        kind: UpdateKind::Block(b),
    };
    assert!(matches!(
        dispatch_update(&u).unwrap_err(),
        ProtocolError::InvalidSignature
    ));
}
