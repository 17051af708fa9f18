//! The decoded inbound update: a closed tagged union over the wire
//! message's payload kinds, with every field a plain value.

use vstd::prelude::*;

verus! {

/// A wire creation timestamp.
#[derive(PartialEq, Eq, Structural, Clone, Copy, Debug)]
pub struct Timestamp {
    pub seconds: i64,
    pub nanos: i32,
}

/// The account record of an account update.
#[derive(Debug)]
pub struct AccountInfo {
    pub pubkey: Vec<u8>,
    pub lamports: u64,
    pub owner: Vec<u8>,
    pub executable: bool,
    pub rent_epoch: u64,
    pub data: Vec<u8>,
    pub write_version: u64,
    pub txn_signature: Option<Vec<u8>>,
}

/// An account update; the record itself is optional on the wire.
#[derive(Debug)]
pub struct AccountUpdate {
    pub account: Option<AccountInfo>,
    pub slot: u64,
    pub is_startup: bool,
}

/// A slot update.
#[derive(Debug)]
pub struct SlotUpdate {
    pub slot: u64,
    pub parent: Option<u64>,
    pub status: i32,
    pub dead_error: Option<String>,
}

/// The transaction record of a transaction update.
#[derive(Debug)]
pub struct TransactionInfo {
    pub signature: Vec<u8>,
    pub is_vote: bool,
}

/// A transaction update; the record itself is optional on the wire.
#[derive(Debug)]
pub struct TransactionUpdate {
    pub transaction: Option<TransactionInfo>,
    pub slot: u64,
}

/// A transaction-status update.
#[derive(Debug)]
pub struct TransactionStatusUpdate {
    pub slot: u64,
    pub signature: Vec<u8>,
    pub is_vote: bool,
    pub index: u64,
}

/// A ledger-entry update.
#[derive(Debug)]
pub struct EntryUpdate {
    pub slot: u64,
    pub index: u64,
    pub num_hashes: u64,
    pub hash: Vec<u8>,
    pub executed_transaction_count: u64,
    pub starting_transaction_index: u64,
}

/// A block-meta update.
#[derive(Debug)]
pub struct BlockMetaUpdate {
    pub slot: u64,
    pub blockhash: String,
    pub parent_slot: u64,
    pub parent_blockhash: String,
    pub executed_transaction_count: u64,
    pub entries_count: u64,
    pub block_time: Option<i64>,
    pub block_height: Option<u64>,
}

/// A full block update.
#[derive(Debug)]
pub struct BlockUpdate {
    pub slot: u64,
    pub blockhash: String,
    pub parent_slot: u64,
    pub parent_blockhash: String,
    pub executed_transaction_count: u64,
    pub updated_account_count: u64,
    pub entries_count: u64,
    pub block_time: Option<i64>,
    pub block_height: Option<u64>,
    pub transactions: Vec<TransactionInfo>,
    pub accounts: Vec<AccountInfo>,
    pub entries: Vec<EntryUpdate>,
}

/// The tagged payload of an inbound message. `Unknown` stands for a
/// message whose payload carried no recognized variant; it is a
/// representable, explicitly handled state, not an unreachable case.
#[derive(Debug)]
pub enum UpdateKind {
    Account(AccountUpdate),
    Slot(SlotUpdate),
    Transaction(TransactionUpdate),
    TransactionStatus(TransactionStatusUpdate),
    Entry(EntryUpdate),
    BlockMeta(BlockMetaUpdate),
    Block(BlockUpdate),
    Ping,
    Pong,
    Unknown,
}

/// One decoded inbound message: its payload, the labels of the filters it
/// matched, its creation timestamp, and its wire length.
#[derive(Debug)]
pub struct Update {
    pub filters: Vec<String>,
    pub created_at: Option<Timestamp>,
    pub wire_len: u64,
    pub kind: UpdateKind,
}

/// A keepalive control payload, counted but never dispatched.
pub open spec fn is_control(k: UpdateKind) -> bool {
    k is Ping || k is Pong
}

} // verus!
