//! The subscription session: consumes decoded inbound updates one by one,
//! emits outbound control messages (pong acknowledgements, the one
//! mid-stream resubscription), tracks per-category counters, and decides
//! when the stream must end.

use vstd::prelude::*;
use crate::dispatch::{
    dispatch_err_matches, dispatch_ok, dispatch_update, record_corresponds, NormalizedUpdate,
};
use crate::errors::ProtocolError;
use crate::filters::{SlotsFilter, SubscribeRequest};
use crate::update::{is_control, Update, UpdateKind};

verus! {

/// The session parameters handed over by the option collector: the
/// resubscription threshold (0 disables it), whether only statistics are
/// tracked instead of displaying each update, and whether the
/// encoding-verifier diagnostic runs (stats mode only).
#[derive(PartialEq, Eq, Structural, Clone, Copy, Debug)]
pub struct SessionConfig {
    pub resub: u64,
    pub stats: bool,
    pub verify_encoding: bool,
}

/// One category's message and byte tally.
#[derive(PartialEq, Eq, Structural, Clone, Copy, Debug)]
pub struct CategoryCounter {
    pub count: u64,
    pub bytes: u64,
}

/// Per-category counters, a combined ping/pong tally, and the overall
/// total. They live for one session and start again at zero on every
/// reconnect.
#[derive(PartialEq, Eq, Structural, Clone, Copy, Debug)]
pub struct SessionCounters {
    pub accounts: CategoryCounter,
    pub slots: CategoryCounter,
    pub transactions: CategoryCounter,
    pub transactions_status: CategoryCounter,
    pub entries: CategoryCounter,
    pub blocks_meta: CategoryCounter,
    pub blocks: CategoryCounter,
    pub ping_pong: CategoryCounter,
    pub total: CategoryCounter,
}

/// Saturating 64-bit addition.
pub open spec fn sat_add64(a: u64, b: u64) -> u64 {
    if a + b > u64::MAX {
        u64::MAX
    } else {
        (a + b) as u64
    }
}

/// A counter after one more message of `len` wire bytes.
pub open spec fn bumped(o: CategoryCounter, len: u64) -> CategoryCounter {
    CategoryCounter { count: sat_add64(o.count, 1), bytes: sat_add64(o.bytes, len) }
}

/// The zero counter.
pub open spec fn zero_counter() -> CategoryCounter {
    CategoryCounter { count: 0, bytes: 0 }
}

/// All counters zero.
pub open spec fn counters_zero(c: SessionCounters) -> bool {
    &&& c.accounts == zero_counter()
    &&& c.slots == zero_counter()
    &&& c.transactions == zero_counter()
    &&& c.transactions_status == zero_counter()
    &&& c.entries == zero_counter()
    &&& c.blocks_meta == zero_counter()
    &&& c.blocks == zero_counter()
    &&& c.ping_pong == zero_counter()
    &&& c.total == zero_counter()
}

/// The counters after one recognized message: its category's tally and the
/// total move, every other tally stays.
pub open spec fn counters_stepped(
    n: SessionCounters,
    o: SessionCounters,
    k: UpdateKind,
    len: u64,
) -> bool {
    &&& n.accounts == if k is Account {
        bumped(o.accounts, len)
    } else {
        o.accounts
    }
    &&& n.slots == if k is Slot {
        bumped(o.slots, len)
    } else {
        o.slots
    }
    &&& n.transactions == if k is Transaction {
        bumped(o.transactions, len)
    } else {
        o.transactions
    }
    &&& n.transactions_status == if k is TransactionStatus {
        bumped(o.transactions_status, len)
    } else {
        o.transactions_status
    }
    &&& n.entries == if k is Entry {
        bumped(o.entries, len)
    } else {
        o.entries
    }
    &&& n.blocks_meta == if k is BlockMeta {
        bumped(o.blocks_meta, len)
    } else {
        o.blocks_meta
    }
    &&& n.blocks == if k is Block {
        bumped(o.blocks, len)
    } else {
        o.blocks
    }
    &&& n.ping_pong == if is_control(k) {
        bumped(o.ping_pong, len)
    } else {
        o.ping_pong
    }
    &&& n.total == bumped(o.total, len)
}

/// An outbound control message, serialized onto the same request channel
/// as the initial subscription.
#[derive(PartialEq, Eq, Structural, Clone, Copy, Debug)]
pub enum ControlMessage {
    /// The acknowledgement sent for an inbound keepalive ping.
    Pong,
    /// The one mid-stream filter replacement.
    Resubscribe,
}

/// The request that replaces the server-side filter state mid-stream:
/// slots with default options, every other category cleared.
pub open spec fn is_resub_request(r: SubscribeRequest) -> bool {
    &&& r.accounts is None
    &&& r.slots == Some(SlotsFilter { filter_by_commitment: None, interslot_updates: None })
    &&& r.transactions is None
    &&& r.transactions_status is None
    &&& r.entry is None
    &&& r.blocks is None
    &&& r.blocks_meta is None
    &&& r.commitment is None
    &&& r.accounts_data_slice@.len() == 0
    &&& r.ping is None
    &&& r.from_slot is None
}

/// Builds the resubscription request: only the slots category, with
/// default options; every other category is an empty map on the wire,
/// which clears it server-side.
pub fn resubscribe_request() -> (r: SubscribeRequest)
    ensures
        is_resub_request(r),
{
    SubscribeRequest {
        accounts: None,
        slots: Some(SlotsFilter { filter_by_commitment: None, interslot_updates: None }),
        transactions: None,
        transactions_status: None,
        entry: None,
        blocks: None,
        blocks_meta: None,
        commitment: None,
        accounts_data_slice: Vec::new(),
        ping: None,
        from_slot: None,
    }
}

/// The acknowledgement for an inbound ping: an otherwise empty request
/// carrying the fixed ping identifier.
pub open spec fn is_pong_request(r: SubscribeRequest) -> bool {
    &&& r.accounts is None
    &&& r.slots is None
    &&& r.transactions is None
    &&& r.transactions_status is None
    &&& r.entry is None
    &&& r.blocks is None
    &&& r.blocks_meta is None
    &&& r.commitment is None
    &&& r.accounts_data_slice@.len() == 0
    &&& r.ping == Some(1i32)
    &&& r.from_slot is None
}

/// Builds the pong acknowledgement request.
pub fn pong_request() -> (r: SubscribeRequest)
    ensures
        is_pong_request(r),
{
    SubscribeRequest {
        accounts: None,
        slots: None,
        transactions: None,
        transactions_status: None,
        entry: None,
        blocks: None,
        blocks_meta: None,
        commitment: None,
        accounts_data_slice: Vec::new(),
        ping: Some(1),
        from_slot: None,
    }
}

/// The concrete request a control message goes out as.
pub fn control_request(m: &ControlMessage) -> (r: SubscribeRequest)
    ensures
        m is Pong ==> is_pong_request(r),
        m is Resubscribe ==> is_resub_request(r),
{
    match m {
        ControlMessage::Pong => pong_request(),
        ControlMessage::Resubscribe => resubscribe_request(),
    }
}

/// The step ends the session: a missing timestamp (display mode reads it
/// for every message), a payload with no recognized variant, or, in
/// display mode, a payload the dispatcher cannot render.
pub open spec fn step_terminates(cfg: SessionConfig, u: Update) -> bool {
    ||| (!cfg.stats && u.created_at is None)
    ||| u.kind is Unknown
    ||| (!cfg.stats && !is_control(u.kind) && !dispatch_ok(u))
}

/// The protocol error a terminating step reports.
pub open spec fn step_error_matches(cfg: SessionConfig, u: Update, e: ProtocolError) -> bool {
    if !cfg.stats && u.created_at is None {
        e is MissingTimestamp
    } else if u.kind is Unknown {
        e is EmptyUpdate
    } else {
        dispatch_err_matches(e, u)
    }
}

/// The step advances the resubscription index: a successfully processed
/// non-control message.
pub open spec fn step_counted(cfg: SessionConfig, u: Update) -> bool {
    !step_terminates(cfg, u) && !is_control(u.kind)
}

/// The step transmits the resubscription: the index just reached the
/// configured positive threshold.
pub open spec fn resub_fires(cfg: SessionConfig, processed: int, u: Update) -> bool {
    step_counted(cfg, u) && cfg.resub > 0 && processed + 1 == cfg.resub
}

/// The control messages one step sends, in order, before the next inbound
/// message is consumed.
pub open spec fn step_outbound(cfg: SessionConfig, processed: int, u: Update) -> Seq<
    ControlMessage,
> {
    if step_terminates(cfg, u) {
        seq![]
    } else if u.kind is Ping {
        seq![ControlMessage::Pong]
    } else if resub_fires(cfg, processed, u) {
        seq![ControlMessage::Resubscribe]
    } else {
        seq![]
    }
}

/// What one consumed message asks the driver to do.
#[derive(Debug)]
pub struct StepOutcome {
    /// Control messages to transmit now, in order.
    pub outbound: Vec<ControlMessage>,
    /// The normalized record to display (display mode only).
    pub display: Option<NormalizedUpdate>,
    /// Run the encoding verifier on this message (diagnostic mode only).
    pub verify_encoding: bool,
    /// The session is over; reconnect after backoff.
    pub terminated: Option<ProtocolError>,
}

/// The session state: configuration, the per-category counters, and the
/// count of successfully processed non-control messages, which triggers
/// the one resubscription.
#[derive(Debug)]
pub struct Session {
    pub config: SessionConfig,
    pub counters: SessionCounters,
    pub processed: u64,
}

impl Session {
    /// A fresh session; every counter starts at zero.
    pub fn new(config: SessionConfig) -> (s: Session)
        ensures
            s.config == config,
            counters_zero(s.counters),
            s.processed == 0,
    {
        Session {
            config,
            counters: SessionCounters {
                accounts: CategoryCounter { count: 0, bytes: 0 },
                slots: CategoryCounter { count: 0, bytes: 0 },
                transactions: CategoryCounter { count: 0, bytes: 0 },
                transactions_status: CategoryCounter { count: 0, bytes: 0 },
                entries: CategoryCounter { count: 0, bytes: 0 },
                blocks_meta: CategoryCounter { count: 0, bytes: 0 },
                blocks: CategoryCounter { count: 0, bytes: 0 },
                ping_pong: CategoryCounter { count: 0, bytes: 0 },
                total: CategoryCounter { count: 0, bytes: 0 },
            },
            processed: 0,
        }
    }

    /// Consumes one decoded inbound message. On a terminating message the
    /// state is untouched and the driver reports the error to the
    /// supervisor; otherwise the counters move, a ping is acknowledged at
    /// once, a successfully processed non-control message advances the
    /// index, and the resubscription is transmitted exactly when the index
    /// reaches the configured threshold.
    pub fn on_update(&mut self, u: &Update) -> (out: StepOutcome)
        ensures
            final(self).config == old(self).config,
            out.outbound@ == step_outbound(old(self).config, old(self).processed as int, *u),
            step_terminates(old(self).config, *u) ==> {
                &&& (out.terminated matches Some(e) && step_error_matches(
                    old(self).config,
                    *u,
                    e,
                ))
                &&& out.display is None
                &&& !out.verify_encoding
                &&& *final(self) == *old(self)
            },
            !step_terminates(old(self).config, *u) ==> {
                &&& out.terminated is None
                &&& counters_stepped(
                    final(self).counters,
                    old(self).counters,
                    u.kind,
                    u.wire_len,
                )
                &&& final(self).processed == if step_counted(old(self).config, *u) {
                    sat_add64(old(self).processed, 1)
                } else {
                    old(self).processed
                }
                &&& out.verify_encoding == (old(self).config.stats
                    && old(self).config.verify_encoding)
                &&& (!old(self).config.stats && step_counted(old(self).config, *u)) ==> (
                out.display matches Some(n) && record_corresponds(n, *u))
                &&& (old(self).config.stats || is_control(u.kind)) ==> out.display is None
            },
    {
        let cfg = self.config;
        if !cfg.stats && u.created_at.is_none() {
            return StepOutcome {
                outbound: Vec::new(),
                display: None,
                verify_encoding: false,
                terminated: Some(ProtocolError::MissingTimestamp),
            };
        }
        if matches!(u.kind, UpdateKind::Unknown) {
            return StepOutcome {
                outbound: Vec::new(),
                display: None,
                verify_encoding: false,
                terminated: Some(ProtocolError::EmptyUpdate),
            };
        }
        let control = matches!(u.kind, UpdateKind::Ping) || matches!(u.kind, UpdateKind::Pong);
        let display: Option<NormalizedUpdate> = if !cfg.stats && !control {
            match dispatch_update(u) {
                Ok(n) => Some(n),
                Err(e) => {
                    return StepOutcome {
                        outbound: Vec::new(),
                        display: None,
                        verify_encoding: false,
                        terminated: Some(e),
                    };
                },
            }
        } else {
            None
        };
        self.bump_counters(u);
        let mut outbound: Vec<ControlMessage> = Vec::new();
        if matches!(u.kind, UpdateKind::Ping) {
            outbound.push(ControlMessage::Pong);
        }
        if !control {
            let fired = cfg.resub > 0 && self.processed < cfg.resub && self.processed + 1
                == cfg.resub;
            self.processed = self.processed.saturating_add(1);
            if fired {
                outbound.push(ControlMessage::Resubscribe);
            }
        }
        proof {
            if u.kind is Ping {
                assert(outbound@ =~= seq![ControlMessage::Pong]);
            } else if resub_fires(cfg, old(self).processed as int, *u) {
                assert(outbound@ =~= seq![ControlMessage::Resubscribe]);
            } else {
                assert(outbound@ =~= Seq::<ControlMessage>::empty());
            }
        }
        StepOutcome {
            outbound,
            display,
            verify_encoding: cfg.stats && cfg.verify_encoding,
            terminated: None,
        }
    }

    /// Moves the matching category's tally and the total.
    fn bump_counters(&mut self, u: &Update)
        requires
            !(u.kind is Unknown),
        ensures
            final(self).config == old(self).config,
            final(self).processed == old(self).processed,
            counters_stepped(final(self).counters, old(self).counters, u.kind, u.wire_len),
    {
        let len = u.wire_len;
        match &u.kind {
            UpdateKind::Account(_) => {
                self.counters.accounts = bump(self.counters.accounts, len);
            },
            UpdateKind::Slot(_) => {
                self.counters.slots = bump(self.counters.slots, len);
            },
            UpdateKind::Transaction(_) => {
                self.counters.transactions = bump(self.counters.transactions, len);
            },
            UpdateKind::TransactionStatus(_) => {
                self.counters.transactions_status = bump(self.counters.transactions_status, len);
            },
            UpdateKind::Entry(_) => {
                self.counters.entries = bump(self.counters.entries, len);
            },
            UpdateKind::BlockMeta(_) => {
                self.counters.blocks_meta = bump(self.counters.blocks_meta, len);
            },
            UpdateKind::Block(_) => {
                self.counters.blocks = bump(self.counters.blocks, len);
            },
            UpdateKind::Ping => {
                self.counters.ping_pong = bump(self.counters.ping_pong, len);
            },
            UpdateKind::Pong => {
                self.counters.ping_pong = bump(self.counters.ping_pong, len);
            },
            UpdateKind::Unknown => {},
        }
        self.counters.total = bump(self.counters.total, len);
    }
}

/// One category tally after one more message.
fn bump(c: CategoryCounter, len: u64) -> (r: CategoryCounter)
    ensures
        r == bumped(c, len),
{
    CategoryCounter { count: c.count.saturating_add(1), bytes: c.bytes.saturating_add(len) }
}

/// The count of successfully processed non-control messages over a
/// stream, up to its first terminating message.
pub open spec fn run_counted(cfg: SessionConfig, us: Seq<Update>) -> int
    decreases us.len(),
{
    if us.len() == 0 {
        0
    } else if step_terminates(cfg, us[0]) {
        0
    } else {
        (if step_counted(cfg, us[0]) {
            1int
        } else {
            0int
        }) + run_counted(cfg, us.skip(1))
    }
}

/// The keepalive pings over a stream, up to its first terminating
/// message.
pub open spec fn run_pings(cfg: SessionConfig, us: Seq<Update>) -> int
    decreases us.len(),
{
    if us.len() == 0 {
        0
    } else if step_terminates(cfg, us[0]) {
        0
    } else {
        (if us[0].kind is Ping {
            1int
        } else {
            0int
        }) + run_pings(cfg, us.skip(1))
    }
}

/// The control messages the session sends over a stream, in order,
/// starting from the given index, up to the stream's first terminating
/// message. Each step's messages stand before those of every later step:
/// what a step sends goes out before the next inbound message is
/// consumed.
pub open spec fn run_outbound(cfg: SessionConfig, processed: int, us: Seq<Update>) -> Seq<
    ControlMessage,
>
    decreases us.len(),
{
    if us.len() == 0 {
        seq![]
    } else if step_terminates(cfg, us[0]) {
        seq![]
    } else {
        step_outbound(cfg, processed, us[0]) + run_outbound(
            cfg,
            processed + (if step_counted(cfg, us[0]) {
                1int
            } else {
                0int
            }),
            us.skip(1),
        )
    }
}

/// How often a control message occurs in a sequence.
pub open spec fn count_msg(s: Seq<ControlMessage>, m: ControlMessage) -> int
    decreases s.len(),
{
    if s.len() == 0 {
        0
    } else {
        (if s[0] == m {
            1int
        } else {
            0int
        }) + count_msg(s.skip(1), m)
    }
}

proof fn lemma_count_concat(a: Seq<ControlMessage>, b: Seq<ControlMessage>, m: ControlMessage)
    ensures
        count_msg(a + b, m) == count_msg(a, m) + count_msg(b, m),
    decreases a.len(),
{
    if a.len() == 0 {
        assert(a + b =~= b);
    } else {
        assert((a + b)[0] == a[0]);
        assert((a + b).skip(1) =~= a.skip(1) + b);
        lemma_count_concat(a.skip(1), b, m);
    }
}

proof fn lemma_count_singleton(m1: ControlMessage, m2: ControlMessage)
    ensures
        count_msg(seq![m1], m2) == if m1 == m2 {
            1int
        } else {
            0int
        },
{
    let s = seq![m1];
    assert(s.len() == 1);
    assert(s[0] == m1);
    assert(s.skip(1) =~= Seq::<ControlMessage>::empty());
    assert(count_msg(s.skip(1), m2) == 0);
}

proof fn lemma_count_empty(m: ControlMessage)
    ensures
        count_msg(seq![], m) == 0,
{
}

proof fn lemma_run_counted_nonneg(cfg: SessionConfig, us: Seq<Update>)
    ensures
        run_counted(cfg, us) >= 0,
    decreases us.len(),
{
    if us.len() > 0 && !step_terminates(cfg, us[0]) {
        lemma_run_counted_nonneg(cfg, us.skip(1));
    }
}

/// How many resubscriptions a run sends, from any starting index: one
/// exactly when the index starts below a positive threshold and the
/// stream's successfully processed non-control messages carry it to the
/// threshold, none otherwise.
proof fn lemma_outbound_resubs(cfg: SessionConfig, processed: int, us: Seq<Update>)
    ensures
        count_msg(run_outbound(cfg, processed, us), ControlMessage::Resubscribe) == if cfg.resub
            > 0 && processed < cfg.resub && processed + run_counted(cfg, us) >= cfg.resub {
            1int
        } else {
            0int
        },
    decreases us.len(),
{
    if us.len() == 0 || step_terminates(cfg, us[0]) {
        assert(count_msg(seq![], ControlMessage::Resubscribe) == 0);
    } else {
        let head = step_outbound(cfg, processed, us[0]);
        let inc: int = if step_counted(cfg, us[0]) {
            1int
        } else {
            0int
        };
        let rest = run_outbound(cfg, processed + inc, us.skip(1));
        lemma_count_concat(head, rest, ControlMessage::Resubscribe);
        if us[0].kind is Ping {
            lemma_count_singleton(ControlMessage::Pong, ControlMessage::Resubscribe);
        } else if resub_fires(cfg, processed, us[0]) {
            lemma_count_singleton(ControlMessage::Resubscribe, ControlMessage::Resubscribe);
        } else {
            lemma_count_empty(ControlMessage::Resubscribe);
        }
        lemma_run_counted_nonneg(cfg, us.skip(1));
        lemma_outbound_resubs(cfg, processed + inc, us.skip(1));
    }
}

/// Law: with a positive resubscription threshold, a session started at
/// index zero transmits the resubscribe request at most once over any
/// stream, and exactly once precisely when the stream carries at least
/// threshold-many successfully processed non-control messages before its
/// first terminating one; no resubscription comes before or after that
/// point.
pub proof fn lemma_resubscribe_exactly_once(cfg: SessionConfig, us: Seq<Update>)
    requires
        cfg.resub > 0,
    ensures
        count_msg(run_outbound(cfg, 0, us), ControlMessage::Resubscribe) <= 1,
        count_msg(run_outbound(cfg, 0, us), ControlMessage::Resubscribe) == 1 <==> run_counted(
            cfg,
            us,
        ) >= cfg.resub,
{
    lemma_outbound_resubs(cfg, 0, us);
}

/// Law: every keepalive ping before the stream's first terminating
/// message is acknowledged with exactly one outbound pong, emitted within
/// its own step and therefore before the next inbound message is
/// consumed; no other message causes a pong.
pub proof fn lemma_pong_per_ping(cfg: SessionConfig, processed: int, us: Seq<Update>)
    ensures
        count_msg(run_outbound(cfg, processed, us), ControlMessage::Pong) == run_pings(cfg, us),
    decreases us.len(),
{
    if us.len() == 0 || step_terminates(cfg, us[0]) {
    } else {
        let head = step_outbound(cfg, processed, us[0]);
        let inc: int = if step_counted(cfg, us[0]) {
            1int
        } else {
            0int
        };
        lemma_count_concat(head, run_outbound(cfg, processed + inc, us.skip(1)), ControlMessage::Pong);
        if us[0].kind is Ping {
            lemma_count_singleton(ControlMessage::Pong, ControlMessage::Pong);
        } else if resub_fires(cfg, processed, us[0]) {
            lemma_count_singleton(ControlMessage::Resubscribe, ControlMessage::Pong);
        } else {
            lemma_count_empty(ControlMessage::Pong);
        }
        lemma_pong_per_ping(cfg, processed + inc, us.skip(1));
    }
}

} // verus!
