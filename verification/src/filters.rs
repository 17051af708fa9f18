//! Filter options, the validated subscription-request descriptor, and the
//! parsers for the textual filter syntax.

use vstd::prelude::*;
use vstd::string::StringExecFns;
use crate::errors::ValidationError;
use crate::text::{
    ascii_lowercase, byte_views, dec_value, in_trim_class, is_u64_numeral, lower_bytes,
    numeral_body, opt_bytes_view, parse_u64, spec_split_at, split_once, trim_by, trim_class,
    TrimClass,
};

verus! {

/// The comma separating offset from data in memcmp and data-slice strings.
pub const COMMA: u8 = 44;

/// The colon separating comparator from value in lamports strings.
pub const COLON: u8 = 58;

/// The comparator of a lamports filter.
#[derive(PartialEq, Eq, Structural, Clone, Copy, Debug)]
pub enum LamportsCmp {
    /// Equal.
    Eq,
    /// Not equal.
    Ne,
    /// Less than.
    Lt,
    /// Greater than.
    Gt,
}

/// The accepted stream compression choices.
#[derive(PartialEq, Eq, Structural, Clone, Copy, Debug, Hash)]
pub enum Compression {
    Gzip,
    Zstd,
}

/// The bytes of `gzip`.
pub open spec fn kw_gzip() -> Seq<u8> {
    seq![103u8, 122u8, 105u8, 112u8]
}

/// The bytes of `zstd`.
pub open spec fn kw_zstd() -> Seq<u8> {
    seq![122u8, 115u8, 116u8, 100u8]
}

/// The compression a name selects, compared without regard to ASCII case.
pub open spec fn compression_of(s: Seq<u8>) -> Option<Compression> {
    if lower_bytes(s) == kw_gzip() {
        Some(Compression::Gzip)
    } else if lower_bytes(s) == kw_zstd() {
        Some(Compression::Zstd)
    } else {
        None
    }
}

/// Parses a compression name, case-insensitively; `None` for anything but
/// `gzip` and `zstd`.
pub fn parse_compression(s: &[u8]) -> (r: Option<Compression>)
    ensures
        r == compression_of(s@),
{
    let low = ascii_lowercase(s);
    if low.len() != 4 {
        proof {
            assert(lower_bytes(s@) != kw_gzip());
            assert(lower_bytes(s@) != kw_zstd());
        }
        return None;
    }
    let b0 = *low.get(0).unwrap();
    let b1 = *low.get(1).unwrap();
    let b2 = *low.get(2).unwrap();
    let b3 = *low.get(3).unwrap();
    if b0 == 103 && b1 == 122 && b2 == 105 && b3 == 112 {
        proof {
            assert(lower_bytes(s@) =~= kw_gzip());
        }
        Some(Compression::Gzip)
    } else if b0 == 122 && b1 == 115 && b2 == 116 && b3 == 100 {
        proof {
            assert(lower_bytes(s@) =~= kw_zstd());
        }
        Some(Compression::Zstd)
    } else {
        proof {
            assert(lower_bytes(s@) != kw_gzip() && lower_bytes(s@) != kw_zstd()) by {
                if lower_bytes(s@) == kw_gzip() {
                    assert(lower_bytes(s@)[0] == 103 && lower_bytes(s@)[1] == 122 && lower_bytes(
                        s@,
                    )[2] == 105 && lower_bytes(s@)[3] == 112);
                }
                if lower_bytes(s@) == kw_zstd() {
                    assert(lower_bytes(s@)[0] == 122 && lower_bytes(s@)[1] == 115 && lower_bytes(
                        s@,
                    )[2] == 116 && lower_bytes(s@)[3] == 100);
                }
            }
        }
        None
    }
}

/// A memcmp filter: match account data against a base-58 pattern at an
/// offset.
#[derive(Debug)]
pub struct MemcmpFilter {
    /// Byte offset into the account data.
    pub offset: u64,
    /// The pattern, still in its base-58 text form, trimmed.
    pub data_base58: Vec<u8>,
}

/// One entry of an account filter's ordered filter list.
#[derive(Debug)]
pub enum AccountsFilterKind {
    Memcmp(MemcmpFilter),
    Datasize(u64),
    TokenAccountState(bool),
    Lamports(LamportsCmp, u64),
}

/// The per-label account filter record.
#[derive(Debug)]
pub struct AccountsFilter {
    pub account: Vec<Vec<u8>>,
    pub owner: Vec<Vec<u8>>,
    pub filters: Vec<AccountsFilterKind>,
    pub nonempty_txn_signature: Option<bool>,
}

/// The per-label slot filter record.
#[derive(Debug)]
pub struct SlotsFilter {
    pub filter_by_commitment: Option<bool>,
    pub interslot_updates: Option<bool>,
}

/// The per-label transaction filter record, used verbatim for the separate
/// transaction-status category as well.
#[derive(Debug)]
pub struct TransactionsFilter {
    pub vote: Option<bool>,
    pub failed: Option<bool>,
    pub signature: Option<Vec<u8>>,
    pub account_include: Vec<Vec<u8>>,
    pub account_exclude: Vec<Vec<u8>>,
    pub account_required: Vec<Vec<u8>>,
}

/// The per-label ledger-entry filter record; it has no options.
#[derive(Debug)]
pub struct EntryFilter {}

/// The per-label block filter record.
#[derive(Debug)]
pub struct BlocksFilter {
    pub account_include: Vec<Vec<u8>>,
    pub include_transactions: Option<bool>,
    pub include_accounts: Option<bool>,
    pub include_entries: Option<bool>,
}

/// The per-label block-meta filter record; it has no options.
#[derive(Debug)]
pub struct BlocksMetaFilter {}

/// A request to receive only a sub-range of an account's data payload.
#[derive(PartialEq, Eq, Structural, Clone, Copy, Debug)]
pub struct DataSlice {
    pub offset: u64,
    pub length: u64,
}

/// The requested durability level for delivered updates.
#[derive(PartialEq, Eq, Structural, Clone, Copy, Debug)]
pub enum Commitment {
    Processed,
    Confirmed,
    Finalized,
}

impl Commitment {
    /// The wire code of the level.
    pub fn code(&self) -> (c: i32)
        ensures
            c == spec_commitment_code(*self),
    {
        match self {
            Commitment::Processed => 0,
            Commitment::Confirmed => 1,
            Commitment::Finalized => 2,
        }
    }
}

/// The wire code of a commitment level.
pub open spec fn spec_commitment_code(c: Commitment) -> i32 {
    match c {
        Commitment::Processed => 0,
        Commitment::Confirmed => 1,
        Commitment::Finalized => 2,
    }
}

impl Default for Commitment {
    /// The level assumed when none was asked for.
    fn default() -> (c: Self)
        ensures
            c == Commitment::Processed,
    {
        Commitment::Processed
    }
}

/// Parses an `eq`/`ne`/`lt`/`gt` comparator token.
pub open spec fn lamports_cmp_of(s: Seq<u8>) -> Option<LamportsCmp> {
    if s.len() == 2 {
        if s[0] == 101 && s[1] == 113 {
            Some(LamportsCmp::Eq)
        } else if s[0] == 110 && s[1] == 101 {
            Some(LamportsCmp::Ne)
        } else if s[0] == 108 && s[1] == 116 {
            Some(LamportsCmp::Lt)
        } else if s[0] == 103 && s[1] == 116 {
            Some(LamportsCmp::Gt)
        } else {
            None
        }
    } else {
        None
    }
}

/// The whitespace trim applied to the memcmp data half.
pub open spec fn ws_trimmed(s: Seq<u8>) -> Seq<u8> {
    trim_by(s, |b: u8| in_trim_class(TrimClass::Whitespace, b))
}

/// A well-formed memcmp filter string: `offset,data` with an unsigned
/// 64-bit offset.
pub open spec fn memcmp_ok(s: Seq<u8>) -> bool {
    spec_split_at(s, COMMA) matches Some((o, _)) && is_u64_numeral(numeral_body(o))
}

/// The offset named by a well-formed memcmp filter string.
pub open spec fn memcmp_offset_of(s: Seq<u8>) -> int {
    dec_value(numeral_body((spec_split_at(s, COMMA)->0).0))
}

/// The trimmed base-58 data half of a memcmp filter string.
pub open spec fn memcmp_data_of(s: Seq<u8>) -> Seq<u8> {
    ws_trimmed((spec_split_at(s, COMMA)->0).1)
}

/// Parses a memcmp filter string `offset,data`.
pub fn parse_memcmp(raw: &[u8]) -> (r: Result<MemcmpFilter, ValidationError>)
    ensures
        match r {
            Ok(f) => memcmp_ok(raw@) && f.offset == memcmp_offset_of(raw@) && f.data_base58@
                == memcmp_data_of(raw@),
            Err(e) => !memcmp_ok(raw@) && match e {
                ValidationError::MemcmpMalformed => spec_split_at(raw@, COMMA) is None,
                ValidationError::MemcmpOffset => spec_split_at(raw@, COMMA) is Some,
                _ => false,
            },
        },
{
    match split_once(raw, COMMA) {
        Some((offset_part, data_part)) => match parse_u64(offset_part.as_slice()) {
            Some(offset) => Ok(
                MemcmpFilter { offset, data_base58: trim_class(data_part.as_slice(), TrimClass::Whitespace) },
            ),
            None => Err(ValidationError::MemcmpOffset),
        },
        None => Err(ValidationError::MemcmpMalformed),
    }
}

/// A well-formed lamports filter string: `cmp:value` with a known
/// comparator and an unsigned 64-bit value.
pub open spec fn lamports_ok(s: Seq<u8>) -> bool {
    spec_split_at(s, COLON) matches Some((c, v)) && lamports_cmp_of(c) is Some && is_u64_numeral(
        numeral_body(v),
    )
}

/// The comparator named by a well-formed lamports filter string.
pub open spec fn lamports_cmp_part(s: Seq<u8>) -> Seq<u8> {
    (spec_split_at(s, COLON)->0).0
}

/// The value half of a lamports filter string.
pub open spec fn lamports_value_part(s: Seq<u8>) -> Seq<u8> {
    (spec_split_at(s, COLON)->0).1
}

/// Parses a lamports filter string `cmp:value`. An unparsable value is
/// reported even when the comparator is also unknown.
pub fn parse_lamports(raw: &[u8]) -> (r: Result<(LamportsCmp, u64), ValidationError>)
    ensures
        match r {
            Ok(p) => lamports_ok(raw@) && Some(p.0) == lamports_cmp_of(lamports_cmp_part(raw@))
                && p.1 == dec_value(numeral_body(lamports_value_part(raw@))),
            Err(e) => !lamports_ok(raw@) && match e {
                ValidationError::LamportsMalformed => spec_split_at(raw@, COLON) is None,
                ValidationError::LamportsValue(t) => spec_split_at(raw@, COLON) is Some && t@
                    == lamports_value_part(raw@) && !is_u64_numeral(
                    numeral_body(lamports_value_part(raw@)),
                ),
                ValidationError::LamportsCmp(t) => spec_split_at(raw@, COLON) is Some && t@
                    == lamports_cmp_part(raw@) && is_u64_numeral(
                    numeral_body(lamports_value_part(raw@)),
                ) && lamports_cmp_of(lamports_cmp_part(raw@)) is None,
                _ => false,
            },
        },
{
    match split_once(raw, COLON) {
        Some((cmp_part, value_part)) => {
            let value = match parse_u64(value_part.as_slice()) {
                Some(v) => v,
                None => {
                    return Err(ValidationError::LamportsValue(value_part));
                },
            };
            let cmp = if cmp_part.len() == 2 {
                let c0 = *cmp_part.get(0).unwrap();
                let c1 = *cmp_part.get(1).unwrap();
                if c0 == 101 && c1 == 113 {
                    Some(LamportsCmp::Eq)
                } else if c0 == 110 && c1 == 101 {
                    Some(LamportsCmp::Ne)
                } else if c0 == 108 && c1 == 116 {
                    Some(LamportsCmp::Lt)
                } else if c0 == 103 && c1 == 116 {
                    Some(LamportsCmp::Gt)
                } else {
                    None
                }
            } else {
                None
            };
            match cmp {
                Some(c) => Ok((c, value)),
                None => Err(ValidationError::LamportsCmp(cmp_part)),
            }
        },
        None => Err(ValidationError::LamportsMalformed),
    }
}

/// The structured filter options the builder validates: which update
/// categories are requested and their per-category sub-filters, all as plain
/// values. Textual members are byte strings exactly as the user supplied
/// them.
#[derive(Debug)]
pub struct FilterOptions {
    pub accounts: bool,
    pub accounts_nonempty_txn_signature: Option<bool>,
    pub accounts_account: Vec<Vec<u8>>,
    pub accounts_owner: Vec<Vec<u8>>,
    pub accounts_memcmp: Vec<Vec<u8>>,
    pub accounts_datasize: Option<u64>,
    pub accounts_token_account_state: bool,
    pub accounts_lamports: Vec<Vec<u8>>,
    pub accounts_data_slice: Vec<Vec<u8>>,
    pub slots: bool,
    pub slots_filter_by_commitment: Option<bool>,
    pub slots_interslot_updates: Option<bool>,
    pub transactions: bool,
    pub transactions_vote: Option<bool>,
    pub transactions_failed: Option<bool>,
    pub transactions_signature: Option<Vec<u8>>,
    pub transactions_account_include: Vec<Vec<u8>>,
    pub transactions_account_exclude: Vec<Vec<u8>>,
    pub transactions_account_required: Vec<Vec<u8>>,
    pub transactions_status: bool,
    pub transactions_status_vote: Option<bool>,
    pub transactions_status_failed: Option<bool>,
    pub transactions_status_signature: Option<Vec<u8>>,
    pub transactions_status_account_include: Vec<Vec<u8>>,
    pub transactions_status_account_exclude: Vec<Vec<u8>>,
    pub transactions_status_account_required: Vec<Vec<u8>>,
    pub entries: bool,
    pub blocks: bool,
    pub blocks_account_include: Vec<Vec<u8>>,
    pub blocks_include_transactions: Option<bool>,
    pub blocks_include_accounts: Option<bool>,
    pub blocks_include_entries: Option<bool>,
    pub blocks_meta: bool,
    pub from_slot: Option<u64>,
    pub ping: Option<i32>,
}

/// No category requested and no sub-filter set.
pub open spec fn options_unset(o: FilterOptions) -> bool {
    &&& !o.accounts
    &&& o.accounts_nonempty_txn_signature is None
    &&& o.accounts_account@.len() == 0
    &&& o.accounts_owner@.len() == 0
    &&& o.accounts_memcmp@.len() == 0
    &&& o.accounts_datasize is None
    &&& !o.accounts_token_account_state
    &&& o.accounts_lamports@.len() == 0
    &&& o.accounts_data_slice@.len() == 0
    &&& !o.slots
    &&& o.slots_filter_by_commitment is None
    &&& o.slots_interslot_updates is None
    &&& !o.transactions
    &&& o.transactions_vote is None
    &&& o.transactions_failed is None
    &&& o.transactions_signature is None
    &&& o.transactions_account_include@.len() == 0
    &&& o.transactions_account_exclude@.len() == 0
    &&& o.transactions_account_required@.len() == 0
    &&& !o.transactions_status
    &&& o.transactions_status_vote is None
    &&& o.transactions_status_failed is None
    &&& o.transactions_status_signature is None
    &&& o.transactions_status_account_include@.len() == 0
    &&& o.transactions_status_account_exclude@.len() == 0
    &&& o.transactions_status_account_required@.len() == 0
    &&& !o.entries
    &&& !o.blocks
    &&& o.blocks_account_include@.len() == 0
    &&& o.blocks_include_transactions is None
    &&& o.blocks_include_accounts is None
    &&& o.blocks_include_entries is None
    &&& !o.blocks_meta
    &&& o.from_slot is None
    &&& o.ping is None
}

impl Default for FilterOptions {
    /// Options with nothing requested.
    fn default() -> (o: Self)
        ensures
            options_unset(o),
    {
        FilterOptions {
            accounts: false,
            accounts_nonempty_txn_signature: None,
            accounts_account: Vec::new(),
            accounts_owner: Vec::new(),
            accounts_memcmp: Vec::new(),
            accounts_datasize: None,
            accounts_token_account_state: false,
            accounts_lamports: Vec::new(),
            accounts_data_slice: Vec::new(),
            slots: false,
            slots_filter_by_commitment: None,
            slots_interslot_updates: None,
            transactions: false,
            transactions_vote: None,
            transactions_failed: None,
            transactions_signature: None,
            transactions_account_include: Vec::new(),
            transactions_account_exclude: Vec::new(),
            transactions_account_required: Vec::new(),
            transactions_status: false,
            transactions_status_vote: None,
            transactions_status_failed: None,
            transactions_status_signature: None,
            transactions_status_account_include: Vec::new(),
            transactions_status_account_exclude: Vec::new(),
            transactions_status_account_required: Vec::new(),
            entries: false,
            blocks: false,
            blocks_account_include: Vec::new(),
            blocks_include_transactions: None,
            blocks_include_accounts: None,
            blocks_include_entries: None,
            blocks_meta: false,
            from_slot: None,
            ping: None,
        }
    }
}

/// The validated subscription-request descriptor. Each category holds its
/// filter record when the category is requested and `None` when it is not;
/// on the wire `None` becomes the empty filter map, which also means
/// "clear this category" on resubscription.
#[derive(Debug)]
pub struct SubscribeRequest {
    pub accounts: Option<AccountsFilter>,
    pub slots: Option<SlotsFilter>,
    pub transactions: Option<TransactionsFilter>,
    pub transactions_status: Option<TransactionsFilter>,
    pub entry: Option<EntryFilter>,
    pub blocks: Option<BlocksFilter>,
    pub blocks_meta: Option<BlocksMetaFilter>,
    pub commitment: Option<Commitment>,
    pub accounts_data_slice: Vec<DataSlice>,
    pub ping: Option<i32>,
    pub from_slot: Option<u64>,
}

/// The one label this client files every per-category filter under.
pub fn filter_label() -> (s: String)
    ensures
        s@ == "client"@,
{
    String::from_str("client")
}

/// A well-formed data-slice string: `offset,length`, both unsigned 64-bit
/// numerals.
pub open spec fn data_slice_ok(s: Seq<u8>) -> bool {
    spec_split_at(s, COMMA) matches Some((o, l)) && is_u64_numeral(numeral_body(o))
        && is_u64_numeral(numeral_body(l))
}

/// Parses a data-slice string `offset,length`.
pub fn parse_data_slice(raw: &[u8]) -> (r: Result<DataSlice, ValidationError>)
    ensures
        match r {
            Ok(d) => data_slice_ok(raw@) && d.offset == dec_value(
                numeral_body((spec_split_at(raw@, COMMA)->0).0),
            ) && d.length == dec_value(numeral_body((spec_split_at(raw@, COMMA)->0).1)),
            Err(e) => !data_slice_ok(raw@) && e is DataSliceMalformed,
        },
{
    match split_once(raw, COMMA) {
        Some((offset_part, length_part)) => match (
            parse_u64(offset_part.as_slice()),
            parse_u64(length_part.as_slice()),
        ) {
            (Some(offset), Some(length)) => Ok(DataSlice { offset, length }),
            _ => Err(ValidationError::DataSliceMalformed),
        },
        None => Err(ValidationError::DataSliceMalformed),
    }
}

/// Every memcmp filter string of the list is well formed.
pub open spec fn all_memcmp_ok(v: Seq<Seq<u8>>) -> bool {
    forall|i: int| 0 <= i < v.len() ==> memcmp_ok(#[trigger] v[i])
}

/// Every lamports filter string of the list is well formed.
pub open spec fn all_lamports_ok(v: Seq<Seq<u8>>) -> bool {
    forall|i: int| 0 <= i < v.len() ==> lamports_ok(#[trigger] v[i])
}

/// Every data-slice string of the list is well formed.
pub open spec fn all_data_slices_ok(v: Seq<Seq<u8>>) -> bool {
    forall|i: int| 0 <= i < v.len() ==> data_slice_ok(#[trigger] v[i])
}

/// The builder succeeds exactly on these options.
pub open spec fn inputs_ok(o: FilterOptions) -> bool {
    &&& o.accounts ==> all_memcmp_ok(byte_views(o.accounts_memcmp)) && all_lamports_ok(byte_views(o.accounts_lamports))
    &&& all_data_slices_ok(byte_views(o.accounts_data_slice))
}

/// Where the optional fixed-size entries land in the account filter list.
pub open spec fn datasize_index(o: FilterOptions) -> int {
    o.accounts_memcmp@.len() as int
}

pub open spec fn token_index(o: FilterOptions) -> int {
    datasize_index(o) + if o.accounts_datasize is Some {
        1int
    } else {
        0int
    }
}

pub open spec fn lamports_base(o: FilterOptions) -> int {
    token_index(o) + if o.accounts_token_account_state {
        1int
    } else {
        0int
    }
}

pub open spec fn account_filters_len(o: FilterOptions) -> int {
    lamports_base(o) + o.accounts_lamports@.len()
}

/// The list entry a memcmp filter string becomes.
pub open spec fn memcmp_entry_matches(k: AccountsFilterKind, raw: Seq<u8>) -> bool {
    k matches AccountsFilterKind::Memcmp(m) && m.offset == memcmp_offset_of(raw)
        && m.data_base58@ == memcmp_data_of(raw)
}

/// The list entry a lamports filter string becomes.
pub open spec fn lamports_entry_matches(k: AccountsFilterKind, raw: Seq<u8>) -> bool {
    k matches AccountsFilterKind::Lamports(c, v) && Some(c) == lamports_cmp_of(
        lamports_cmp_part(raw),
    ) && v == dec_value(numeral_body(lamports_value_part(raw)))
}

/// The ordered filter list an account category carries: the memcmp entries
/// in input order, then the data-size entry if set, then the token-state
/// entry if set, then the lamports entries in input order.
pub open spec fn filters_correspond(fs: Seq<AccountsFilterKind>, o: FilterOptions) -> bool {
    &&& fs.len() == account_filters_len(o)
    &&& forall|i: int| 0 <= i < o.accounts_memcmp@.len() ==> memcmp_entry_matches(
        #[trigger] fs[i],
        o.accounts_memcmp@[i]@,
    )
    &&& o.accounts_datasize matches Some(d) ==> fs[datasize_index(o)]
        == AccountsFilterKind::Datasize(d)
    &&& o.accounts_token_account_state ==> fs[token_index(o)]
        == AccountsFilterKind::TokenAccountState(true)
    &&& forall|i: int| 0 <= i < o.accounts_lamports@.len() ==> lamports_entry_matches(
        #[trigger] fs[lamports_base(o) + i],
        o.accounts_lamports@[i]@,
    )
}

/// The transaction filter record either transaction category carries.
pub open spec fn tx_filter_corresponds(
    tf: TransactionsFilter,
    vote: Option<bool>,
    failed: Option<bool>,
    signature: Option<Vec<u8>>,
    inc_list: Seq<Seq<u8>>,
    exc_list: Seq<Seq<u8>>,
    req_list: Seq<Seq<u8>>,
) -> bool {
    &&& tf.vote == vote
    &&& tf.failed == failed
    &&& opt_bytes_view(tf.signature) == opt_bytes_view(signature)
    &&& byte_views(tf.account_include) == inc_list
    &&& byte_views(tf.account_exclude) == exc_list
    &&& byte_views(tf.account_required) == req_list
}

/// The parsed data-slice list.
pub open spec fn data_slices_correspond(ds: Seq<DataSlice>, raws: Seq<Seq<u8>>) -> bool {
    &&& ds.len() == raws.len()
    &&& forall|i: int| 0 <= i < raws.len() ==> data_slice_ok(#[trigger] raws[i]) && ds[i].offset
        == dec_value(numeral_body((spec_split_at(raws[i], COMMA)->0).0)) && ds[i].length
        == dec_value(numeral_body((spec_split_at(raws[i], COMMA)->0).1))
}

/// What the built request says, category by category, for the given
/// options, appended address-file contents, and commitment level.
pub open spec fn request_corresponds(
    req: SubscribeRequest,
    o: FilterOptions,
    extra: Seq<Seq<u8>>,
    commitment: Option<Commitment>,
) -> bool {
    &&& o.accounts ==> (req.accounts matches Some(af) && byte_views(af.account)
        == byte_views(o.accounts_account) + extra && byte_views(af.owner)
        == byte_views(o.accounts_owner) && af.nonempty_txn_signature
        == o.accounts_nonempty_txn_signature && filters_correspond(af.filters@, o))
    &&& !o.accounts ==> req.accounts is None
    &&& o.slots ==> req.slots == Some(
        SlotsFilter {
            filter_by_commitment: o.slots_filter_by_commitment,
            interslot_updates: o.slots_interslot_updates,
        },
    )
    &&& !o.slots ==> req.slots is None
    &&& o.transactions ==> (req.transactions matches Some(tf) && tx_filter_corresponds(
        tf,
        o.transactions_vote,
        o.transactions_failed,
        o.transactions_signature,
        byte_views(o.transactions_account_include),
        byte_views(o.transactions_account_exclude),
        byte_views(o.transactions_account_required),
    ))
    &&& !o.transactions ==> req.transactions is None
    &&& o.transactions_status ==> (req.transactions_status matches Some(tf)
        && tx_filter_corresponds(
        tf,
        o.transactions_status_vote,
        o.transactions_status_failed,
        o.transactions_status_signature,
        byte_views(o.transactions_status_account_include),
        byte_views(o.transactions_status_account_exclude),
        byte_views(o.transactions_status_account_required),
    ))
    &&& !o.transactions_status ==> req.transactions_status is None
    &&& req.entry is Some <==> o.entries
    &&& o.blocks ==> (req.blocks matches Some(bf) && byte_views(bf.account_include)
        == byte_views(o.blocks_account_include) && bf.include_transactions
        == o.blocks_include_transactions && bf.include_accounts == o.blocks_include_accounts
        && bf.include_entries == o.blocks_include_entries)
    &&& !o.blocks ==> req.blocks is None
    &&& req.blocks_meta is Some <==> o.blocks_meta
    &&& req.commitment == commitment
    &&& data_slices_correspond(req.accounts_data_slice@, byte_views(o.accounts_data_slice))
    &&& req.ping == o.ping
    &&& req.from_slot == o.from_slot
}

/// `i` is the first entry of the list that fails `memcmp_ok`.
pub open spec fn first_bad_memcmp(v: Seq<Seq<u8>>, i: int) -> bool {
    0 <= i < v.len() && !memcmp_ok(v[i]) && forall|j: int| 0 <= j < i ==> memcmp_ok(#[trigger] v[j])
}

/// `i` is the first entry of the list that fails `lamports_ok`.
pub open spec fn first_bad_lamports(v: Seq<Seq<u8>>, i: int) -> bool {
    0 <= i < v.len() && !lamports_ok(v[i]) && forall|j: int|
        0 <= j < i ==> lamports_ok(#[trigger] v[j])
}

/// The error a malformed memcmp string raises.
pub open spec fn memcmp_err_matches(e: ValidationError, raw: Seq<u8>) -> bool {
    if spec_split_at(raw, COMMA) is None {
        e is MemcmpMalformed
    } else {
        e is MemcmpOffset
    }
}

/// The error a malformed lamports string raises; a bad value wins over a
/// bad comparator.
pub open spec fn lamports_err_matches(e: ValidationError, raw: Seq<u8>) -> bool {
    match spec_split_at(raw, COLON) {
        None => e is LamportsMalformed,
        Some(parts) => if !is_u64_numeral(numeral_body(parts.1)) {
            e matches ValidationError::LamportsValue(t) && t@ == parts.1
        } else {
            e matches ValidationError::LamportsCmp(t) && t@ == parts.0
        },
    }
}

/// The error the builder reports: the first malformed memcmp string wins,
/// then the first malformed lamports string, then any malformed data-slice
/// string. Neither is reached for a category that was not requested.
pub open spec fn build_error_matches(e: ValidationError, o: FilterOptions) -> bool {
    if o.accounts && !all_memcmp_ok(byte_views(o.accounts_memcmp)) {
        exists|i: int| first_bad_memcmp(byte_views(o.accounts_memcmp), i) && memcmp_err_matches(
            e,
            byte_views(o.accounts_memcmp)[i],
        )
    } else if o.accounts && !all_lamports_ok(byte_views(o.accounts_lamports)) {
        exists|i: int| first_bad_lamports(byte_views(o.accounts_lamports), i)
            && lamports_err_matches(e, byte_views(o.accounts_lamports)[i])
    } else {
        !all_data_slices_ok(byte_views(o.accounts_data_slice)) && e is DataSliceMalformed
    }
}

/// Copies a list of byte strings.
fn copy_bytes_list(v: &Vec<Vec<u8>>) -> (r: Vec<Vec<u8>>)
    ensures
        r@.len() == v@.len(),
        forall|j: int| 0 <= j < v@.len() ==> #[trigger] r@[j]@ == v@[j]@,
        byte_views(r) == byte_views(*v),
{
    let mut r: Vec<Vec<u8>> = Vec::new();
    let mut i: usize = 0;
    while i < v.len()
        invariant
            0 <= i <= v@.len(),
            r@.len() == i,
            forall|j: int| 0 <= j < i ==> #[trigger] r@[j]@ == v@[j]@,
        decreases v@.len() - i,
    {
        r.push(vstd::slice::slice_to_vec(v[i].as_slice()));
        i += 1;
    }
    proof {
        assert(byte_views(r) =~= byte_views(*v));
    }
    r
}

/// Concatenates two lists of byte strings.
fn concat_bytes_lists(a: &Vec<Vec<u8>>, b: &Vec<Vec<u8>>) -> (r: Vec<Vec<u8>>)
    ensures
        byte_views(r) == byte_views(*a) + byte_views(*b),
{
    proof {
        assert(byte_views(*a).len() == a@.len());
    }
    let mut r = copy_bytes_list(a);
    let mut i: usize = 0;
    while i < b.len()
        invariant
            0 <= i <= b@.len(),
            r@.len() == a@.len() + i,
            forall|j: int| 0 <= j < a@.len() ==> #[trigger] r@[j]@ == a@[j]@,
            forall|j: int| 0 <= j < i ==> #[trigger] r@[a@.len() + j]@ == b@[j]@,
        decreases b@.len() - i,
    {
        r.push(vstd::slice::slice_to_vec(b[i].as_slice()));
        i += 1;
    }
    proof {
        assert forall|j: int| 0 <= j < r@.len() implies byte_views(r)[j] == (byte_views(*a)
            + byte_views(*b))[j] by {
            if j >= a@.len() {
                assert(r@[a@.len() + (j - a@.len())]@ == b@[j - a@.len()]@);
            }
        }
        assert(byte_views(r) =~= byte_views(*a) + byte_views(*b));
    }
    r
}

/// Copies an optional byte string.
fn copy_opt_bytes(v: &Option<Vec<u8>>) -> (r: Option<Vec<u8>>)
    ensures
        opt_bytes_view(r) == opt_bytes_view(*v),
{
    match v {
        Some(s) => Some(vstd::slice::slice_to_vec(s.as_slice())),
        None => None,
    }
}

/// Builds the validated subscription request from the options, the address
/// list read out of the optional address file, and the commitment level. A
/// category appears in the request exactly when its enable flag is set; a
/// malformed filter string is a permanent validation error and names the
/// first offending token.
pub fn build_subscribe_request(
    opts: &FilterOptions,
    file_accounts: &Vec<Vec<u8>>,
    commitment: Option<Commitment>,
) -> (r: Result<SubscribeRequest, ValidationError>)
    ensures
        r is Ok <==> inputs_ok(*opts),
        r matches Ok(req) ==> request_corresponds(req, *opts, byte_views(*file_accounts), commitment),
        r matches Err(e) ==> build_error_matches(e, *opts),
{
    let accounts: Option<AccountsFilter> = if opts.accounts {
        let account = concat_bytes_lists(&opts.accounts_account, file_accounts);
        let owner = copy_bytes_list(&opts.accounts_owner);
        let mut filters: Vec<AccountsFilterKind> = Vec::new();
        let mut i: usize = 0;
        while i < opts.accounts_memcmp.len()
            invariant
                opts.accounts,
                0 <= i <= opts.accounts_memcmp@.len(),
                filters@.len() == i,
                forall|j: int| 0 <= j < i ==> memcmp_ok(#[trigger] byte_views(opts.accounts_memcmp)[j]),
                forall|j: int| 0 <= j < i ==> memcmp_entry_matches(
                    #[trigger] filters@[j],
                    opts.accounts_memcmp@[j]@,
                ),
            decreases opts.accounts_memcmp@.len() - i,
        {
            match parse_memcmp(opts.accounts_memcmp[i].as_slice()) {
                Ok(f) => filters.push(AccountsFilterKind::Memcmp(f)),
                Err(e) => {
                    proof {
                        assert(first_bad_memcmp(byte_views(opts.accounts_memcmp), i as int));
                    }
                    return Err(e);
                },
            }
            i += 1;
        }
        if let Some(datasize) = opts.accounts_datasize {
            filters.push(AccountsFilterKind::Datasize(datasize));
        }
        if opts.accounts_token_account_state {
            filters.push(AccountsFilterKind::TokenAccountState(true));
        }
        let ghost lamports_start = filters@.len();
        let mut i: usize = 0;
        while i < opts.accounts_lamports.len()
            invariant
                opts.accounts,
                0 <= i <= opts.accounts_lamports@.len(),
                all_memcmp_ok(byte_views(opts.accounts_memcmp)),
                filters@.len() == lamports_start + i,
                lamports_start == lamports_base(*opts),
                forall|j: int| 0 <= j < opts.accounts_memcmp@.len() ==> memcmp_entry_matches(
                    #[trigger] filters@[j],
                    opts.accounts_memcmp@[j]@,
                ),
                opts.accounts_datasize matches Some(d) ==> filters@[datasize_index(*opts)]
                    == AccountsFilterKind::Datasize(d),
                opts.accounts_token_account_state ==> filters@[token_index(*opts)]
                    == AccountsFilterKind::TokenAccountState(true),
                forall|j: int| 0 <= j < i ==> lamports_ok(
                    #[trigger] byte_views(opts.accounts_lamports)[j],
                ),
                forall|j: int| 0 <= j < i ==> lamports_entry_matches(
                    #[trigger] filters@[lamports_start + j],
                    opts.accounts_lamports@[j]@,
                ),
            decreases opts.accounts_lamports@.len() - i,
        {
            match parse_lamports(opts.accounts_lamports[i].as_slice()) {
                Ok((c, v)) => filters.push(AccountsFilterKind::Lamports(c, v)),
                Err(e) => {
                    proof {
                        assert(first_bad_lamports(byte_views(opts.accounts_lamports), i as int));
                    }
                    return Err(e);
                },
            }
            i += 1;
        }
        Some(
            AccountsFilter {
                account,
                owner,
                filters,
                nonempty_txn_signature: opts.accounts_nonempty_txn_signature,
            },
        )
    } else {
        None
    };

    let slots: Option<SlotsFilter> = if opts.slots {
        Some(
            SlotsFilter {
                filter_by_commitment: opts.slots_filter_by_commitment,
                interslot_updates: opts.slots_interslot_updates,
            },
        )
    } else {
        None
    };

    let transactions: Option<TransactionsFilter> = if opts.transactions {
        Some(
            TransactionsFilter {
                vote: opts.transactions_vote,
                failed: opts.transactions_failed,
                signature: copy_opt_bytes(&opts.transactions_signature),
                account_include: copy_bytes_list(&opts.transactions_account_include),
                account_exclude: copy_bytes_list(&opts.transactions_account_exclude),
                account_required: copy_bytes_list(&opts.transactions_account_required),
            },
        )
    } else {
        None
    };

    let transactions_status: Option<TransactionsFilter> = if opts.transactions_status {
        Some(
            TransactionsFilter {
                vote: opts.transactions_status_vote,
                failed: opts.transactions_status_failed,
                signature: copy_opt_bytes(&opts.transactions_status_signature),
                account_include: copy_bytes_list(&opts.transactions_status_account_include),
                account_exclude: copy_bytes_list(&opts.transactions_status_account_exclude),
                account_required: copy_bytes_list(&opts.transactions_status_account_required),
            },
        )
    } else {
        None
    };

    let entry: Option<EntryFilter> = if opts.entries {
        Some(EntryFilter {})
    } else {
        None
    };

    let blocks: Option<BlocksFilter> = if opts.blocks {
        Some(
            BlocksFilter {
                account_include: copy_bytes_list(&opts.blocks_account_include),
                include_transactions: opts.blocks_include_transactions,
                include_accounts: opts.blocks_include_accounts,
                include_entries: opts.blocks_include_entries,
            },
        )
    } else {
        None
    };

    let blocks_meta: Option<BlocksMetaFilter> = if opts.blocks_meta {
        Some(BlocksMetaFilter {})
    } else {
        None
    };

    let mut accounts_data_slice: Vec<DataSlice> = Vec::new();
    let mut i: usize = 0;
    while i < opts.accounts_data_slice.len()
        invariant
            0 <= i <= opts.accounts_data_slice@.len(),
            accounts_data_slice@.len() == i,
            opts.accounts ==> all_memcmp_ok(byte_views(opts.accounts_memcmp)) && all_lamports_ok(
                byte_views(opts.accounts_lamports),
            ),
            forall|j: int| 0 <= j < i ==> data_slice_ok(
                #[trigger] byte_views(opts.accounts_data_slice)[j],
            ),
            forall|j: int| 0 <= j < i ==> {
                &&& accounts_data_slice@[j].offset == dec_value(
                    numeral_body((spec_split_at(opts.accounts_data_slice@[j]@, COMMA)->0).0),
                )
                &&& accounts_data_slice@[j].length == dec_value(
                    numeral_body((spec_split_at(opts.accounts_data_slice@[j]@, COMMA)->0).1),
                )
            },
        decreases opts.accounts_data_slice@.len() - i,
    {
        match parse_data_slice(opts.accounts_data_slice[i].as_slice()) {
            Ok(d) => accounts_data_slice.push(d),
            Err(e) => {
                proof {
                    assert(!data_slice_ok(byte_views(opts.accounts_data_slice)[i as int]));
                }
                return Err(e);
            },
        }
        i += 1;
    }

    Ok(
        SubscribeRequest {
            accounts,
            slots,
            transactions,
            transactions_status,
            entry,
            blocks,
            blocks_meta,
            commitment,
            accounts_data_slice,
            ping: opts.ping,
            from_slot: opts.from_slot,
        },
    )
}

} // verus!
