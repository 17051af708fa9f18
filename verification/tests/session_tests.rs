use geyser_client::errors::ProtocolError;
use geyser_client::session::{
    pong_request, resubscribe_request, ControlMessage, Session, SessionConfig,
};
use geyser_client::update::{
    AccountInfo, AccountUpdate, SlotUpdate, Timestamp, Update, UpdateKind,
};

fn ts() -> Option<Timestamp> {
    Some(Timestamp { seconds: 1_700_000_000, nanos: 0 })
}

fn slot_update(slot: u64) -> Update {
    Update {
        filters: vec!["client".to_string()],
        created_at: ts(),
        wire_len: 20,
        kind: UpdateKind::Slot(SlotUpdate {
            slot,
            parent: Some(slot.wrapping_sub(1)),
            status: 0,
            dead_error: None,
        }),
    }
}

fn ping_update() -> Update {
    Update {
        filters: Vec::new(),
        created_at: ts(),
        wire_len: 4,
        kind: UpdateKind::Ping,
    }
}

fn pong_update() -> Update {
    Update {
        filters: Vec::new(),
        created_at: ts(),
        wire_len: 4,
        kind: UpdateKind::Pong,
    }
}

fn cfg(resub: u64, stats: bool) -> SessionConfig {
    SessionConfig { resub, stats, verify_encoding: false }
}

#[test]
fn resubscribes_exactly_after_third_processed_message() {
    let mut s = Session::new(cfg(3, false));
    for i in 0..2u64 {
        let out = s.on_update(&slot_update(i));
        assert!(out.terminated.is_none());
        assert!(out.outbound.is_empty(), "no resubscribe before the threshold");
    }
    let out = s.on_update(&slot_update(2));
    assert_eq!(out.outbound, vec![ControlMessage::Resubscribe]);
    for i in 3..10u64 {
        let out = s.on_update(&slot_update(i));
        assert!(out.outbound.is_empty(), "no resubscribe after the one swap");
    }
}

#[test]
fn control_messages_do_not_advance_the_resub_index() {
    let mut s = Session::new(cfg(2, false));
    let out = s.on_update(&slot_update(1));
    assert!(out.outbound.is_empty());
    let out = s.on_update(&ping_update());
    assert_eq!(out.outbound, vec![ControlMessage::Pong], "a ping only earns its pong");
    let out = s.on_update(&pong_update());
    assert!(out.outbound.is_empty());
    let out = s.on_update(&slot_update(2));
    assert_eq!(out.outbound, vec![ControlMessage::Resubscribe]);
}

#[test]
fn resub_zero_never_resubscribes() {
    let mut s = Session::new(cfg(0, false));
    for i in 0..20u64 {
        let out = s.on_update(&slot_update(i));
        assert!(out.outbound.is_empty());
    }
}

#[test]
fn one_ping_earns_exactly_one_pong() {
    let mut s = Session::new(cfg(0, true));
    let out = s.on_update(&ping_update());
    assert_eq!(out.outbound, vec![ControlMessage::Pong]);
    assert!(out.terminated.is_none());
    let out = s.on_update(&slot_update(1));
    assert!(out.outbound.is_empty());
}

#[test]
fn unknown_variant_terminates_without_output() {
    let mut s = Session::new(cfg(0, true));
    let u = Update { filters: Vec::new(), created_at: ts(), wire_len: 1, kind: UpdateKind::Unknown };
    let out = s.on_update(&u);
    assert!(matches!(out.terminated, Some(ProtocolError::EmptyUpdate)));
    assert!(out.outbound.is_empty());
    assert_eq!(s.counters.total.count, 0);
}

#[test]
fn missing_timestamp_terminates_display_mode() {
    let mut s = Session::new(cfg(0, false));
    let mut u = slot_update(1);
    u.created_at = None;
    let out = s.on_update(&u);
    assert!(matches!(out.terminated, Some(ProtocolError::MissingTimestamp)));
}

#[test]
fn missing_timestamp_is_no_error_in_stats_mode() {
    let mut s = Session::new(cfg(0, true));
    let mut u = slot_update(1);
    u.created_at = None;
    let out = s.on_update(&u);
    assert!(out.terminated.is_none());
    assert_eq!(s.counters.slots.count, 1);
}

#[test]
fn bad_pubkey_terminates_display_mode() {
    let mut s = Session::new(cfg(0, false));
    let u = Update {
        filters: Vec::new(),
        created_at: ts(),
        wire_len: 10,
        kind: UpdateKind::Account(AccountUpdate {
            account: Some(AccountInfo {
                pubkey: vec![1, 2, 3],
                lamports: 0,
                owner: vec![0; 32],
                executable: false,
                rent_epoch: 0,
                data: Vec::new(),
                write_version: 0,
                txn_signature: None,
            }),
            slot: 1,
            is_startup: false,
        }),
    };
    let out = s.on_update(&u);
    assert!(matches!(out.terminated, Some(ProtocolError::InvalidPubkey)));
}

#[test]
fn counters_track_categories_and_bytes() {
    let mut s = Session::new(cfg(0, true));
    s.on_update(&slot_update(1));
    s.on_update(&slot_update(2));
    s.on_update(&ping_update());
    assert_eq!(s.counters.slots.count, 2);
    assert_eq!(s.counters.slots.bytes, 40);
    assert_eq!(s.counters.ping_pong.count, 1);
    assert_eq!(s.counters.ping_pong.bytes, 4);
    assert_eq!(s.counters.total.count, 3);
    assert_eq!(s.counters.total.bytes, 44);
    assert_eq!(s.counters.accounts.count, 0);
}

#[test]
fn display_mode_yields_records_stats_mode_does_not() {
    let mut s = Session::new(cfg(0, false));
    let out = s.on_update(&slot_update(7));
    let n = out.display.expect("display mode yields a record");
    assert_eq!(n.kind_label, "slot");
    let mut s = Session::new(cfg(0, true));
    let out = s.on_update(&slot_update(7));
    assert!(out.display.is_none());
}

#[test]
fn verify_flag_follows_configuration() {
    let mut s = Session::new(SessionConfig { resub: 0, stats: true, verify_encoding: true });
    let out = s.on_update(&slot_update(1));
    assert!(out.verify_encoding);
    let out = s.on_update(&ping_update());
    assert!(out.verify_encoding, "stats mode verifies control messages too");
    let mut s = Session::new(cfg(0, true));
    let out = s.on_update(&slot_update(1));
    assert!(!out.verify_encoding);
}

#[test]
fn resubscribe_request_clears_all_but_slots() {
    let r = resubscribe_request();
    assert!(r.accounts.is_none());
    let sf = r.slots.unwrap();
    assert_eq!(sf.filter_by_commitment, None);
    assert_eq!(sf.interslot_updates, None);
    assert!(r.transactions.is_none());
    assert!(r.transactions_status.is_none());
    assert!(r.entry.is_none());
    assert!(r.blocks.is_none());
    assert!(r.blocks_meta.is_none());
    assert!(r.commitment.is_none());
    assert!(r.accounts_data_slice.is_empty());
    assert!(r.ping.is_none());
    assert!(r.from_slot.is_none());
}

#[test]
fn pong_request_carries_only_the_ping_id() {
    let r = pong_request();
    assert_eq!(r.ping, Some(1));
    assert!(r.accounts.is_none());
    assert!(r.slots.is_none());
    assert!(r.transactions.is_none());
    assert!(r.accounts_data_slice.is_empty());
}

#[test]
fn terminating_message_leaves_the_state_untouched() {
    let mut s = Session::new(cfg(3, false));
    s.on_update(&slot_update(1));
    assert_eq!(s.counters.total.count, 1);
    let mut bad = slot_update(2);
    bad.created_at = None;
    let out = s.on_update(&bad);
    assert!(out.terminated.is_some());
    assert_eq!(s.counters.total.count, 1, "a terminating message is not counted");
    let out = s.on_update(&slot_update(3));
    assert!(out.terminated.is_none());
    let out = s.on_update(&slot_update(4));
    assert_eq!(
        out.outbound,
        vec![ControlMessage::Resubscribe],
        "the index still reaches the threshold on the third processed message"
    );
}
