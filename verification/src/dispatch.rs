//! The update dispatcher: maps each tagged update variant to a flat,
//! human-oriented record. Addresses and signatures are rendered in base-58,
//! binary payloads in hexadecimal, absent option fields as null.

use vstd::prelude::*;
use vstd::string::StringExecFns;
use crate::encoders::{base58_encode, base58_of, hex_chars_of, hex_encode};
use crate::errors::ProtocolError;
use crate::update::{
    AccountInfo, BlockMetaUpdate, BlockUpdate, EntryUpdate, SlotUpdate, Timestamp,
    TransactionInfo, TransactionStatusUpdate, Update, UpdateKind,
};

verus! {

/// One value of a normalized record.
#[derive(Debug)]
pub enum FieldValue {
    Text(String),
    Unsigned(u64),
    Signed(i64),
    Boolean(bool),
    Null,
}

/// One named value of a normalized record.
#[derive(Debug)]
pub struct Field {
    pub name: String,
    pub value: FieldValue,
}

/// The character sequences a list of strings holds, in order.
pub open spec fn string_views(v: Vec<String>) -> Seq<Seq<char>> {
    Seq::new(v@.len(), |i: int| v@[i]@)
}

/// The field sequences a list of field lists holds, in order.
pub open spec fn field_lists(v: Vec<Vec<Field>>) -> Seq<Seq<Field>> {
    Seq::new(v@.len(), |i: int| v@[i]@)
}

pub open spec fn is_text(f: Field, name: Seq<char>, s: Seq<char>) -> bool {
    f.name@ == name && (f.value matches FieldValue::Text(t) && t@ == s)
}

pub open spec fn is_unsigned(f: Field, name: Seq<char>, v: u64) -> bool {
    f.name@ == name && f.value == FieldValue::Unsigned(v)
}

pub open spec fn is_signed(f: Field, name: Seq<char>, v: i64) -> bool {
    f.name@ == name && f.value == FieldValue::Signed(v)
}

pub open spec fn is_bool(f: Field, name: Seq<char>, b: bool) -> bool {
    f.name@ == name && f.value == FieldValue::Boolean(b)
}

pub open spec fn is_null(f: Field, name: Seq<char>) -> bool {
    f.name@ == name && f.value is Null
}

pub open spec fn is_opt_unsigned(f: Field, name: Seq<char>, v: Option<u64>) -> bool {
    match v {
        Some(x) => is_unsigned(f, name, x),
        None => is_null(f, name),
    }
}

pub open spec fn is_opt_signed(f: Field, name: Seq<char>, v: Option<i64>) -> bool {
    match v {
        Some(x) => is_signed(f, name, x),
        None => is_null(f, name),
    }
}

fn field_text(name: &str, s: String) -> (f: Field)
    ensures
        is_text(f, name@, s@),
{
    Field { name: String::from_str(name), value: FieldValue::Text(s) }
}

fn field_unsigned(name: &str, v: u64) -> (f: Field)
    ensures
        is_unsigned(f, name@, v),
{
    Field { name: String::from_str(name), value: FieldValue::Unsigned(v) }
}

fn field_signed(name: &str, v: i64) -> (f: Field)
    ensures
        is_signed(f, name@, v),
{
    Field { name: String::from_str(name), value: FieldValue::Signed(v) }
}

fn field_bool(name: &str, b: bool) -> (f: Field)
    ensures
        is_bool(f, name@, b),
{
    Field { name: String::from_str(name), value: FieldValue::Boolean(b) }
}

fn field_null(name: &str) -> (f: Field)
    ensures
        is_null(f, name@),
{
    Field { name: String::from_str(name), value: FieldValue::Null }
}

/// The fields an account record renders to.
pub open spec fn account_fields(fs: Seq<Field>, a: AccountInfo) -> bool {
    &&& fs.len() == 8
    &&& is_text(fs[0], "pubkey"@, base58_of(a.pubkey@))
    &&& is_unsigned(fs[1], "lamports"@, a.lamports)
    &&& is_text(fs[2], "owner"@, base58_of(a.owner@))
    &&& is_bool(fs[3], "executable"@, a.executable)
    &&& is_unsigned(fs[4], "rentEpoch"@, a.rent_epoch)
    &&& is_text(fs[5], "data"@, hex_chars_of(a.data@))
    &&& is_unsigned(fs[6], "writeVersion"@, a.write_version)
    &&& match a.txn_signature {
        Some(sig) => is_text(fs[7], "txnSignature"@, base58_of(sig@)),
        None => is_null(fs[7], "txnSignature"@),
    }
}

/// An account record is renderable: its addresses are exactly 32 bytes.
pub open spec fn account_info_ok(a: AccountInfo) -> bool {
    a.pubkey@.len() == 32 && a.owner@.len() == 32
}

/// Renders one account record; fails on an address that is not 32 bytes.
pub fn create_pretty_account(account: &AccountInfo) -> (r: Result<Vec<Field>, ProtocolError>)
    ensures
        match r {
            Ok(fs) => account_info_ok(*account) && account_fields(fs@, *account),
            Err(e) => !account_info_ok(*account) && e is InvalidPubkey,
        },
{
    if account.pubkey.len() != 32 || account.owner.len() != 32 {
        return Err(ProtocolError::InvalidPubkey);
    }
    let mut fs: Vec<Field> = Vec::new();
    fs.push(field_text("pubkey", base58_encode(&account.pubkey)));
    fs.push(field_unsigned("lamports", account.lamports));
    fs.push(field_text("owner", base58_encode(&account.owner)));
    fs.push(field_bool("executable", account.executable));
    fs.push(field_unsigned("rentEpoch", account.rent_epoch));
    fs.push(field_text("data", hex_encode(&account.data)));
    fs.push(field_unsigned("writeVersion", account.write_version));
    match &account.txn_signature {
        Some(sig) => fs.push(field_text("txnSignature", base58_encode(sig))),
        None => fs.push(field_null("txnSignature")),
    }
    Ok(fs)
}

/// The fields a transaction record renders to.
pub open spec fn tx_fields(fs: Seq<Field>, t: TransactionInfo) -> bool {
    &&& fs.len() == 2
    &&& is_text(fs[0], "signature"@, base58_of(t.signature@))
    &&& is_bool(fs[1], "isVote"@, t.is_vote)
}

/// A transaction record is renderable: its signature is exactly 64 bytes.
pub open spec fn tx_info_ok(t: TransactionInfo) -> bool {
    t.signature@.len() == 64
}

/// Renders one transaction record; fails on a signature that is not 64
/// bytes.
pub fn create_pretty_transaction(tx: &TransactionInfo) -> (r: Result<Vec<Field>, ProtocolError>)
    ensures
        match r {
            Ok(fs) => tx_info_ok(*tx) && tx_fields(fs@, *tx),
            Err(e) => !tx_info_ok(*tx) && e is InvalidSignature,
        },
{
    if tx.signature.len() != 64 {
        return Err(ProtocolError::InvalidSignature);
    }
    let mut fs: Vec<Field> = Vec::new();
    fs.push(field_text("signature", base58_encode(&tx.signature)));
    fs.push(field_bool("isVote", tx.is_vote));
    Ok(fs)
}

/// The fields a ledger-entry record renders to.
pub open spec fn entry_fields(fs: Seq<Field>, e: EntryUpdate) -> bool {
    &&& fs.len() == 6
    &&& is_unsigned(fs[0], "slot"@, e.slot)
    &&& is_unsigned(fs[1], "index"@, e.index)
    &&& is_unsigned(fs[2], "numHashes"@, e.num_hashes)
    &&& is_text(fs[3], "hash"@, base58_of(e.hash@))
    &&& is_unsigned(fs[4], "executedTransactionCount"@, e.executed_transaction_count)
    &&& is_unsigned(fs[5], "startingTransactionIndex"@, e.starting_transaction_index)
}

/// An entry record is renderable: its hash is exactly 32 bytes.
pub open spec fn entry_ok(e: EntryUpdate) -> bool {
    e.hash@.len() == 32
}

/// Renders one ledger-entry record; fails on a hash that is not 32 bytes.
pub fn create_pretty_entry(msg: &EntryUpdate) -> (r: Result<Vec<Field>, ProtocolError>)
    ensures
        match r {
            Ok(fs) => entry_ok(*msg) && entry_fields(fs@, *msg),
            Err(e) => !entry_ok(*msg) && e is InvalidHash,
        },
{
    if msg.hash.len() != 32 {
        return Err(ProtocolError::InvalidHash);
    }
    let mut fs: Vec<Field> = Vec::new();
    fs.push(field_unsigned("slot", msg.slot));
    fs.push(field_unsigned("index", msg.index));
    fs.push(field_unsigned("numHashes", msg.num_hashes));
    fs.push(field_text("hash", base58_encode(&msg.hash)));
    fs.push(field_unsigned("executedTransactionCount", msg.executed_transaction_count));
    fs.push(field_unsigned("startingTransactionIndex", msg.starting_transaction_index));
    Ok(fs)
}

/// The wire name of a slot status code, as the schema declares it.
pub open spec fn slot_status_name(code: i32) -> Option<Seq<char>> {
    if code == 0 {
        Some("SLOT_PROCESSED"@)
    } else if code == 1 {
        Some("SLOT_CONFIRMED"@)
    } else if code == 2 {
        Some("SLOT_FINALIZED"@)
    } else if code == 3 {
        Some("SLOT_FIRST_SHRED_RECEIVED"@)
    } else if code == 4 {
        Some("SLOT_COMPLETED"@)
    } else if code == 5 {
        Some("SLOT_CREATED_BANK"@)
    } else if code == 6 {
        Some("SLOT_DEAD"@)
    } else {
        None
    }
}

/// Names a slot status code; `None` outside the wire enumeration.
pub fn slot_status_text(code: i32) -> (r: Option<String>)
    ensures
        match r {
            Some(s) => slot_status_name(code) == Some(s@),
            None => slot_status_name(code) is None,
        },
{
    if code == 0 {
        Some(String::from_str("SLOT_PROCESSED"))
    } else if code == 1 {
        Some(String::from_str("SLOT_CONFIRMED"))
    } else if code == 2 {
        Some(String::from_str("SLOT_FINALIZED"))
    } else if code == 3 {
        Some(String::from_str("SLOT_FIRST_SHRED_RECEIVED"))
    } else if code == 4 {
        Some(String::from_str("SLOT_COMPLETED"))
    } else if code == 5 {
        Some(String::from_str("SLOT_CREATED_BANK"))
    } else if code == 6 {
        Some(String::from_str("SLOT_DEAD"))
    } else {
        None
    }
}

/// The fields a slot update renders to.
pub open spec fn slot_fields(fs: Seq<Field>, s: SlotUpdate) -> bool {
    &&& fs.len() == 4
    &&& is_unsigned(fs[0], "slot"@, s.slot)
    &&& is_opt_unsigned(fs[1], "parent"@, s.parent)
    &&& (slot_status_name(s.status) matches Some(n) && is_text(fs[2], "status"@, n))
    &&& match s.dead_error {
        Some(d) => is_text(fs[3], "deadError"@, d@),
        None => is_null(fs[3], "deadError"@),
    }
}

/// The fields a transaction-status update renders to.
pub open spec fn tx_status_fields(fs: Seq<Field>, t: TransactionStatusUpdate) -> bool {
    &&& fs.len() == 4
    &&& is_unsigned(fs[0], "slot"@, t.slot)
    &&& is_text(fs[1], "signature"@, base58_of(t.signature@))
    &&& is_bool(fs[2], "isVote"@, t.is_vote)
    &&& is_unsigned(fs[3], "index"@, t.index)
}

/// The fields a block-meta update renders to.
pub open spec fn block_meta_fields(fs: Seq<Field>, b: BlockMetaUpdate) -> bool {
    &&& fs.len() == 8
    &&& is_unsigned(fs[0], "slot"@, b.slot)
    &&& is_text(fs[1], "blockhash"@, b.blockhash@)
    &&& is_opt_signed(fs[2], "blockTime"@, b.block_time)
    &&& is_opt_unsigned(fs[3], "blockHeight"@, b.block_height)
    &&& is_unsigned(fs[4], "parentSlot"@, b.parent_slot)
    &&& is_text(fs[5], "parentBlockhash"@, b.parent_blockhash@)
    &&& is_unsigned(fs[6], "executedTransactionCount"@, b.executed_transaction_count)
    &&& is_unsigned(fs[7], "entriesCount"@, b.entries_count)
}

/// The scalar fields a full block update renders to.
pub open spec fn block_fields(fs: Seq<Field>, b: BlockUpdate) -> bool {
    &&& fs.len() == 9
    &&& is_unsigned(fs[0], "slot"@, b.slot)
    &&& is_text(fs[1], "blockhash"@, b.blockhash@)
    &&& is_opt_signed(fs[2], "blockTime"@, b.block_time)
    &&& is_opt_unsigned(fs[3], "blockHeight"@, b.block_height)
    &&& is_unsigned(fs[4], "parentSlot"@, b.parent_slot)
    &&& is_text(fs[5], "parentBlockhash"@, b.parent_blockhash@)
    &&& is_unsigned(fs[6], "executedTransactionCount"@, b.executed_transaction_count)
    &&& is_unsigned(fs[7], "updatedAccountCount"@, b.updated_account_count)
    &&& is_unsigned(fs[8], "entriesCount"@, b.entries_count)
}

/// Every nested record of a block update is renderable.
pub open spec fn block_ok(b: BlockUpdate) -> bool {
    &&& forall|i: int| 0 <= i < b.transactions@.len() ==> tx_info_ok(#[trigger] b.transactions@[i])
    &&& forall|i: int| 0 <= i < b.accounts@.len() ==> account_info_ok(#[trigger] b.accounts@[i])
    &&& forall|i: int| 0 <= i < b.entries@.len() ==> entry_ok(#[trigger] b.entries@[i])
}

/// An update's payload is renderable without a protocol error.
pub open spec fn kind_ok(k: UpdateKind) -> bool {
    match k {
        UpdateKind::Account(a) => a.account matches Some(ai) && account_info_ok(ai),
        UpdateKind::Slot(s) => slot_status_name(s.status) is Some,
        UpdateKind::Transaction(t) => t.transaction matches Some(ti) && tx_info_ok(ti),
        UpdateKind::TransactionStatus(t) => t.signature@.len() == 64,
        UpdateKind::Entry(e) => entry_ok(e),
        UpdateKind::BlockMeta(_) => true,
        UpdateKind::Block(b) => block_ok(b),
        UpdateKind::Ping => false,
        UpdateKind::Pong => false,
        UpdateKind::Unknown => false,
    }
}

/// The dispatcher succeeds exactly on a non-control update with a
/// timestamp and a renderable payload.
pub open spec fn dispatch_ok(u: Update) -> bool {
    u.created_at is Some && kind_ok(u.kind)
}

/// The protocol error a non-renderable update raises: a missing timestamp
/// first, then the payload's own defect; for a block, a bad transaction
/// signature wins over a bad account address, which wins over a bad entry
/// hash, as the lists are rendered in that order.
pub open spec fn dispatch_err_matches(e: ProtocolError, u: Update) -> bool {
    if u.created_at is None {
        e is MissingTimestamp
    } else {
        match u.kind {
            UpdateKind::Account(a) => if a.account is None {
                e is MissingAccount
            } else {
                e is InvalidPubkey
            },
            UpdateKind::Slot(_) => e is InvalidSlotStatus,
            UpdateKind::Transaction(t) => if t.transaction is None {
                e is MissingTransaction
            } else {
                e is InvalidSignature
            },
            UpdateKind::TransactionStatus(_) => e is InvalidSignature,
            UpdateKind::Entry(_) => e is InvalidHash,
            UpdateKind::BlockMeta(_) => false,
            UpdateKind::Block(b) => if !(forall|i: int|
                0 <= i < b.transactions@.len() ==> tx_info_ok(#[trigger] b.transactions@[i])) {
                e is InvalidSignature
            } else if !(forall|i: int|
                0 <= i < b.accounts@.len() ==> account_info_ok(#[trigger] b.accounts@[i])) {
                e is InvalidPubkey
            } else {
                e is InvalidHash
            },
            _ => false,
        }
    }
}

/// A normalized record for display: the update kind's label, the creation
/// timestamp, the matched filter labels, the flat fields, and, for a full
/// block, the rendered nested records.
#[derive(Debug)]
pub struct NormalizedUpdate {
    pub kind_label: String,
    pub created_at: Timestamp,
    pub filters: Vec<String>,
    pub fields: Vec<Field>,
    pub transactions: Vec<Vec<Field>>,
    pub accounts: Vec<Vec<Field>>,
    pub entries: Vec<Vec<Field>>,
}

/// A block update's nested lists render one record per input record, in
/// order.
pub open spec fn block_lists_correspond(n: NormalizedUpdate, b: BlockUpdate) -> bool {
    &&& n.transactions@.len() == b.transactions@.len()
    &&& forall|i: int| 0 <= i < b.transactions@.len() ==> tx_fields(
        #[trigger] field_lists(n.transactions)[i],
        b.transactions@[i],
    )
    &&& n.accounts@.len() == b.accounts@.len()
    &&& forall|i: int| 0 <= i < b.accounts@.len() ==> account_fields(
        #[trigger] field_lists(n.accounts)[i],
        b.accounts@[i],
    )
    &&& n.entries@.len() == b.entries@.len()
    &&& forall|i: int| 0 <= i < b.entries@.len() ==> entry_fields(
        #[trigger] field_lists(n.entries)[i],
        b.entries@[i],
    )
}

/// No nested records: every kind but a full block.
pub open spec fn no_block_lists(n: NormalizedUpdate) -> bool {
    n.transactions@.len() == 0 && n.accounts@.len() == 0 && n.entries@.len() == 0
}

/// What the dispatcher's record says for the given update.
pub open spec fn record_corresponds(n: NormalizedUpdate, u: Update) -> bool {
    &&& (u.created_at matches Some(ts) && n.created_at == ts)
    &&& string_views(n.filters) == string_views(u.filters)
    &&& match u.kind {
        UpdateKind::Account(a) => n.kind_label@ == "account"@ && (a.account matches Some(ai)
            && n.fields@.len() == 10 && account_fields(n.fields@.take(8), ai) && is_bool(
            n.fields@[8],
            "isStartup"@,
            a.is_startup,
        ) && is_unsigned(n.fields@[9], "slot"@, a.slot)) && no_block_lists(n),
        UpdateKind::Slot(s) => n.kind_label@ == "slot"@ && slot_fields(n.fields@, s)
            && no_block_lists(n),
        UpdateKind::Transaction(t) => n.kind_label@ == "transaction"@ && (t.transaction
            matches Some(ti) && n.fields@.len() == 3 && tx_fields(n.fields@.take(2), ti)
            && is_unsigned(n.fields@[2], "slot"@, t.slot)) && no_block_lists(n),
        UpdateKind::TransactionStatus(t) => n.kind_label@ == "transactionStatus"@
            && tx_status_fields(n.fields@, t) && no_block_lists(n),
        UpdateKind::Entry(e) => n.kind_label@ == "entry"@ && entry_fields(n.fields@, e)
            && no_block_lists(n),
        UpdateKind::BlockMeta(b) => n.kind_label@ == "blockmeta"@ && block_meta_fields(
            n.fields@,
            b,
        ) && no_block_lists(n),
        UpdateKind::Block(b) => n.kind_label@ == "block"@ && block_fields(n.fields@, b)
            && block_lists_correspond(n, b),
        _ => false,
    }
}

/// Copies the filter labels of an update.
fn copy_strings(v: &Vec<String>) -> (r: Vec<String>)
    ensures
        string_views(r) == string_views(*v),
{
    let mut r: Vec<String> = Vec::new();
    let mut i: usize = 0;
    while i < v.len()
        invariant
            0 <= i <= v@.len(),
            r@.len() == i,
            forall|j: int| 0 <= j < i ==> #[trigger] r@[j]@ == v@[j]@,
        decreases v@.len() - i,
    {
        r.push(v[i].clone());
        i += 1;
    }
    proof {
        assert(string_views(r) =~= string_views(*v));
    }
    r
}

/// Maps one decoded update to its normalized record. Fails, with the exact
/// defect, on a missing timestamp, a missing nested record, or malformed
/// address, signature or hash bytes; the session treats any such failure
/// as fatal for the stream.
pub fn dispatch_update(u: &Update) -> (r: Result<NormalizedUpdate, ProtocolError>)
    requires
        !(u.kind is Ping),
        !(u.kind is Pong),
        !(u.kind is Unknown),
    ensures
        match r {
            Ok(n) => dispatch_ok(*u) && record_corresponds(n, *u),
            Err(e) => !dispatch_ok(*u) && dispatch_err_matches(e, *u),
        },
{
    let created_at = match &u.created_at {
        Some(ts) => *ts,
        None => {
            return Err(ProtocolError::MissingTimestamp);
        },
    };
    let filters = copy_strings(&u.filters);
    match &u.kind {
        UpdateKind::Account(a) => {
            let ai = match &a.account {
                Some(ai) => ai,
                None => {
                    return Err(ProtocolError::MissingAccount);
                },
            };
            let mut fields = match create_pretty_account(ai) {
                Ok(fs) => fs,
                Err(e) => {
                    return Err(e);
                },
            };
            fields.push(field_bool("isStartup", a.is_startup));
            fields.push(field_unsigned("slot", a.slot));
            proof {
                assert(fields@.take(8) =~= fields@.subrange(0, 8));
            }
            Ok(
                NormalizedUpdate {
                    kind_label: String::from_str("account"),
                    created_at,
                    filters,
                    fields,
                    transactions: Vec::new(),
                    accounts: Vec::new(),
                    entries: Vec::new(),
                },
            )
        },
        UpdateKind::Slot(s) => {
            let status = match slot_status_text(s.status) {
                Some(t) => t,
                None => {
                    return Err(ProtocolError::InvalidSlotStatus);
                },
            };
            let mut fields: Vec<Field> = Vec::new();
            fields.push(field_unsigned("slot", s.slot));
            match s.parent {
                Some(p) => fields.push(field_unsigned("parent", p)),
                None => fields.push(field_null("parent")),
            }
            fields.push(field_text("status", status));
            match &s.dead_error {
                Some(d) => fields.push(field_text("deadError", d.clone())),
                None => fields.push(field_null("deadError")),
            }
            Ok(
                NormalizedUpdate {
                    kind_label: String::from_str("slot"),
                    created_at,
                    filters,
                    fields,
                    transactions: Vec::new(),
                    accounts: Vec::new(),
                    entries: Vec::new(),
                },
            )
        },
        UpdateKind::Transaction(t) => {
            let ti = match &t.transaction {
                Some(ti) => ti,
                None => {
                    return Err(ProtocolError::MissingTransaction);
                },
            };
            let mut fields = match create_pretty_transaction(ti) {
                Ok(fs) => fs,
                Err(e) => {
                    return Err(e);
                },
            };
            fields.push(field_unsigned("slot", t.slot));
            proof {
                assert(fields@.take(2) =~= fields@.subrange(0, 2));
            }
            Ok(
                NormalizedUpdate {
                    kind_label: String::from_str("transaction"),
                    created_at,
                    filters,
                    fields,
                    transactions: Vec::new(),
                    accounts: Vec::new(),
                    entries: Vec::new(),
                },
            )
        },
        UpdateKind::TransactionStatus(t) => {
            if t.signature.len() != 64 {
                return Err(ProtocolError::InvalidSignature);
            }
            let mut fields: Vec<Field> = Vec::new();
            fields.push(field_unsigned("slot", t.slot));
            fields.push(field_text("signature", base58_encode(&t.signature)));
            fields.push(field_bool("isVote", t.is_vote));
            fields.push(field_unsigned("index", t.index));
            Ok(
                NormalizedUpdate {
                    kind_label: String::from_str("transactionStatus"),
                    created_at,
                    filters,
                    fields,
                    transactions: Vec::new(),
                    accounts: Vec::new(),
                    entries: Vec::new(),
                },
            )
        },
        UpdateKind::Entry(e) => {
            let fields = match create_pretty_entry(e) {
                Ok(fs) => fs,
                Err(err) => {
                    return Err(err);
                },
            };
            Ok(
                NormalizedUpdate {
                    kind_label: String::from_str("entry"),
                    created_at,
                    filters,
                    fields,
                    transactions: Vec::new(),
                    accounts: Vec::new(),
                    entries: Vec::new(),
                },
            )
        },
        UpdateKind::BlockMeta(b) => {
            let mut fields: Vec<Field> = Vec::new();
            fields.push(field_unsigned("slot", b.slot));
            fields.push(field_text("blockhash", b.blockhash.clone()));
            match b.block_time {
                Some(t) => fields.push(field_signed("blockTime", t)),
                None => fields.push(field_null("blockTime")),
            }
            match b.block_height {
                Some(h) => fields.push(field_unsigned("blockHeight", h)),
                None => fields.push(field_null("blockHeight")),
            }
            fields.push(field_unsigned("parentSlot", b.parent_slot));
            fields.push(field_text("parentBlockhash", b.parent_blockhash.clone()));
            fields.push(field_unsigned("executedTransactionCount", b.executed_transaction_count));
            fields.push(field_unsigned("entriesCount", b.entries_count));
            Ok(
                NormalizedUpdate {
                    kind_label: String::from_str("blockmeta"),
                    created_at,
                    filters,
                    fields,
                    transactions: Vec::new(),
                    accounts: Vec::new(),
                    entries: Vec::new(),
                },
            )
        },
        UpdateKind::Block(b) => {
            let mut transactions: Vec<Vec<Field>> = Vec::new();
            let mut i: usize = 0;
            while i < b.transactions.len()
                invariant
                    u.created_at is Some,
                    u.kind == UpdateKind::Block(*b),
                    0 <= i <= b.transactions@.len(),
                    transactions@.len() == i,
                    forall|j: int| 0 <= j < i ==> tx_info_ok(#[trigger] b.transactions@[j]),
                    forall|j: int| 0 <= j < i ==> tx_fields(
                        #[trigger] transactions@[j]@,
                        b.transactions@[j],
                    ),
                decreases b.transactions@.len() - i,
            {
                match create_pretty_transaction(&b.transactions[i]) {
                    Ok(fs) => transactions.push(fs),
                    Err(e) => {
                        proof {
                            assert(!tx_info_ok(b.transactions@[i as int]));
                        }
                        return Err(e);
                    },
                }
                i += 1;
            }
            let mut accounts: Vec<Vec<Field>> = Vec::new();
            let mut i: usize = 0;
            while i < b.accounts.len()
                invariant
                    u.created_at is Some,
                    u.kind == UpdateKind::Block(*b),
                    0 <= i <= b.accounts@.len(),
                    accounts@.len() == i,
                    forall|j: int| 0 <= j < b.transactions@.len() ==> tx_info_ok(
                        #[trigger] b.transactions@[j],
                    ),
                    forall|j: int| 0 <= j < i ==> account_info_ok(#[trigger] b.accounts@[j]),
                    forall|j: int| 0 <= j < i ==> account_fields(
                        #[trigger] accounts@[j]@,
                        b.accounts@[j],
                    ),
                decreases b.accounts@.len() - i,
            {
                match create_pretty_account(&b.accounts[i]) {
                    Ok(fs) => accounts.push(fs),
                    Err(e) => {
                        proof {
                            assert(!account_info_ok(b.accounts@[i as int]));
                        }
                        return Err(e);
                    },
                }
                i += 1;
            }
            let mut entries: Vec<Vec<Field>> = Vec::new();
            let mut i: usize = 0;
            while i < b.entries.len()
                invariant
                    u.created_at is Some,
                    u.kind == UpdateKind::Block(*b),
                    0 <= i <= b.entries@.len(),
                    entries@.len() == i,
                    forall|j: int| 0 <= j < b.transactions@.len() ==> tx_info_ok(
                        #[trigger] b.transactions@[j],
                    ),
                    forall|j: int| 0 <= j < b.accounts@.len() ==> account_info_ok(
                        #[trigger] b.accounts@[j],
                    ),
                    forall|j: int| 0 <= j < i ==> entry_ok(#[trigger] b.entries@[j]),
                    forall|j: int| 0 <= j < i ==> entry_fields(
                        #[trigger] entries@[j]@,
                        b.entries@[j],
                    ),
                decreases b.entries@.len() - i,
            {
                match create_pretty_entry(&b.entries[i]) {
                    Ok(fs) => entries.push(fs),
                    Err(e) => {
                        proof {
                            assert(!entry_ok(b.entries@[i as int]));
                        }
                        return Err(e);
                    },
                }
                i += 1;
            }
            let mut fields: Vec<Field> = Vec::new();
            fields.push(field_unsigned("slot", b.slot));
            fields.push(field_text("blockhash", b.blockhash.clone()));
            match b.block_time {
                Some(t) => fields.push(field_signed("blockTime", t)),
                None => fields.push(field_null("blockTime")),
            }
            match b.block_height {
                Some(h) => fields.push(field_unsigned("blockHeight", h)),
                None => fields.push(field_null("blockHeight")),
            }
            fields.push(field_unsigned("parentSlot", b.parent_slot));
            fields.push(field_text("parentBlockhash", b.parent_blockhash.clone()));
            fields.push(field_unsigned("executedTransactionCount", b.executed_transaction_count));
            fields.push(field_unsigned("updatedAccountCount", b.updated_account_count));
            fields.push(field_unsigned("entriesCount", b.entries_count));
            let n = NormalizedUpdate {
                kind_label: String::from_str("block"),
                created_at,
                filters,
                fields,
                transactions,
                accounts,
                entries,
            };
            proof {
                assert forall|j: int| 0 <= j < b.transactions@.len() implies tx_fields(
                    #[trigger] field_lists(n.transactions)[j],
                    b.transactions@[j],
                ) by {
                    assert(field_lists(n.transactions)[j] == n.transactions@[j]@);
                }
                assert forall|j: int| 0 <= j < b.accounts@.len() implies account_fields(
                    #[trigger] field_lists(n.accounts)[j],
                    b.accounts@[j],
                ) by {
                    assert(field_lists(n.accounts)[j] == n.accounts@[j]@);
                }
                assert forall|j: int| 0 <= j < b.entries@.len() implies entry_fields(
                    #[trigger] field_lists(n.entries)[j],
                    b.entries@[j],
                ) by {
                    assert(field_lists(n.entries)[j] == n.entries@[j]@);
                }
            }
            Ok(n)
        },
        UpdateKind::Ping => Err(ProtocolError::EmptyUpdate),
        UpdateKind::Pong => Err(ProtocolError::EmptyUpdate),
        UpdateKind::Unknown => Err(ProtocolError::EmptyUpdate),
    }
}

} // verus!
