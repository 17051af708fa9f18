//! The connection supervisor: owns the retry loop around "connect, then
//! run the session", classifies each failure, and paces reconnect attempts
//! with exponential backoff, without bound on the number of attempts.

use vstd::prelude::*;
use crate::errors::{spec_classify, ClientError, ErrorClass, ValidationError};
use crate::filters::SubscribeRequest;

verus! {

/// The backoff schedule's parameters: the first delay and the cap, both in
/// milliseconds. Growth is by half of the current delay, the exponential
/// schedule the stream client retries with.
#[derive(PartialEq, Eq, Structural, Clone, Copy, Debug)]
pub struct BackoffPolicy {
    pub base_ms: u64,
    pub max_ms: u64,
}

/// A usable policy: the base is at least two milliseconds, so each step
/// below the cap strictly grows, and the cap is no smaller than the base.
pub open spec fn policy_wf(p: BackoffPolicy) -> bool {
    2 <= p.base_ms <= p.max_ms
}

/// The delay that follows `cur` in the schedule: half again as much,
/// capped.
pub open spec fn next_after(cur: u64, max: u64) -> u64 {
    if cur + cur / 2 > max {
        max
    } else {
        (cur + cur / 2) as u64
    }
}

/// The `n`-th delay of the schedule, counting from zero.
pub open spec fn nth_delay(p: BackoffPolicy, n: nat) -> u64
    decreases n,
{
    if n == 0 {
        p.base_ms
    } else {
        next_after(nth_delay(p, (n - 1) as nat), p.max_ms)
    }
}

/// Every delay of the schedule stays between the base and the cap.
pub proof fn lemma_nth_delay_bounds(p: BackoffPolicy, n: nat)
    requires
        policy_wf(p),
    ensures
        p.base_ms <= nth_delay(p, n) <= p.max_ms,
    decreases n,
{
    if n > 0 {
        lemma_nth_delay_bounds(p, (n - 1) as nat);
    }
}

/// Law: the retry delays follow the configured exponential schedule: the
/// first delay is the base delay, each later delay is never smaller than
/// the one before it and strictly larger as long as the cap has not been
/// reached, and the schedule is defined for every attempt number — there
/// is no maximum attempt count.
pub proof fn lemma_backoff_monotone(p: BackoffPolicy, n: nat)
    requires
        policy_wf(p),
    ensures
        nth_delay(p, 0) == p.base_ms,
        nth_delay(p, n) <= nth_delay(p, n + 1),
        nth_delay(p, n) < p.max_ms ==> nth_delay(p, n) < nth_delay(p, n + 1),
{
    lemma_nth_delay_bounds(p, n);
}

/// The supervisor's view of the schedule: the delay the next transient
/// failure will wait, and whether any attempt has been made yet (the
/// first attempt is logged differently, nothing more). Plain owned state,
/// threaded through the sequential retry loop.
#[derive(Debug)]
pub struct BackoffState {
    pub policy: BackoffPolicy,
    pub next_ms: u64,
    pub first_attempt: bool,
}

/// The pending delay stays within the policy's bounds.
pub open spec fn backoff_wf(b: BackoffState) -> bool {
    policy_wf(b.policy) && b.policy.base_ms <= b.next_ms <= b.policy.max_ms
}

impl BackoffState {
    /// A fresh schedule: the next delay is the base delay and no attempt
    /// has been made.
    pub fn new(policy: BackoffPolicy) -> (b: BackoffState)
        requires
            policy_wf(policy),
        ensures
            backoff_wf(b),
            b.policy == policy,
            b.next_ms == policy.base_ms,
            b.first_attempt,
    {
        BackoffState { policy, next_ms: policy.base_ms, first_attempt: true }
    }

    /// Takes the next delay of the schedule and advances it: what comes
    /// back never shrinks from call to call, and grows strictly while the
    /// cap is not reached.
    pub fn next_delay(&mut self) -> (d: u64)
        requires
            backoff_wf(*old(self)),
        ensures
            backoff_wf(*final(self)),
            final(self).policy == old(self).policy,
            d == old(self).next_ms,
            final(self).next_ms == next_after(old(self).next_ms, old(self).policy.max_ms),
            d <= final(self).next_ms,
            d < old(self).policy.max_ms ==> d < final(self).next_ms,
            !final(self).first_attempt,
    {
        let d = self.next_ms;
        let half = d / 2;
        self.next_ms = if d > self.policy.max_ms - half {
            self.policy.max_ms
        } else {
            d + half
        };
        self.first_attempt = false;
        d
    }

    /// Marks the first attempt as made without consuming a delay; the
    /// first connect is immediate.
    pub fn note_attempt(&mut self)
        ensures
            *final(self) == (BackoffState { first_attempt: false, ..*old(self) }),
    {
        self.first_attempt = false;
    }
}

/// Where the supervisor stands.
#[derive(PartialEq, Eq, Structural, Clone, Copy, Debug)]
pub enum SupervisorPhase {
    /// A connection attempt is due or in flight.
    Connecting,
    /// A session is running on an open stream.
    Running,
    /// The process is done; no further attempt follows.
    Terminated,
}

/// What the supervisor asks the driver to do next.
#[derive(PartialEq, Eq, Structural, Clone, Copy, Debug)]
pub enum SupervisorAction {
    /// Attempt a connection now.
    Connect,
    /// Run the session on the connection just opened.
    RunSession,
    /// Sleep this many milliseconds, then attempt a connection.
    Wait { delay_ms: u64 },
    /// Exit the process with this status.
    Exit { code: u8 },
}

/// The supervisor: the retry state machine around connect-then-run.
#[derive(Debug)]
pub struct Supervisor {
    pub phase: SupervisorPhase,
    pub backoff: BackoffState,
}

impl Supervisor {
    /// Starts supervision with the outcome of building the subscription
    /// request. A validation failure is permanent: the supervisor comes up
    /// already terminated, asks for a non-zero exit, and zero connection
    /// attempts are ever made, since every transition out of it demands a
    /// phase it never leaves. A built request leads straight to the first
    /// connection attempt.
    pub fn start(
        policy: BackoffPolicy,
        prep: &Result<SubscribeRequest, ValidationError>,
    ) -> (r: (Supervisor, SupervisorAction))
        requires
            policy_wf(policy),
        ensures
            backoff_wf(r.0.backoff),
            r.0.backoff.policy == policy,
            prep is Err ==> r.0.phase == SupervisorPhase::Terminated && r.1
                == (SupervisorAction::Exit { code: 1u8 }),
            prep is Ok ==> r.0.phase == SupervisorPhase::Connecting && r.1
                == SupervisorAction::Connect && r.0.backoff.first_attempt,
    {
        let backoff = BackoffState::new(policy);
        match prep {
            Ok(_) => (
                Supervisor { phase: SupervisorPhase::Connecting, backoff },
                SupervisorAction::Connect,
            ),
            Err(_) => (
                Supervisor { phase: SupervisorPhase::Terminated, backoff },
                SupervisorAction::Exit { code: 1 },
            ),
        }
    }

    /// Feeds back the outcome of a connection attempt. Success hands the
    /// open connection to the session; a connect failure is transient and
    /// waits out the next delay of the schedule before the next attempt.
    pub fn on_connect_result(&mut self, success: bool) -> (a: SupervisorAction)
        requires
            old(self).phase == SupervisorPhase::Connecting,
            backoff_wf(old(self).backoff),
        ensures
            backoff_wf(final(self).backoff),
            final(self).backoff.policy == old(self).backoff.policy,
            success ==> final(self).phase == SupervisorPhase::Running && a
                == SupervisorAction::RunSession && final(self).backoff == (BackoffState {
                first_attempt: false,
                ..old(self).backoff
            }),
            !success ==> final(self).phase == SupervisorPhase::Connecting && a
                == (SupervisorAction::Wait { delay_ms: old(self).backoff.next_ms })
                && final(self).backoff.next_ms == next_after(
                old(self).backoff.next_ms,
                old(self).backoff.policy.max_ms,
            ),
    {
        if success {
            self.backoff.note_attempt();
            self.phase = SupervisorPhase::Running;
            SupervisorAction::RunSession
        } else {
            let delay_ms = self.backoff.next_delay();
            self.phase = SupervisorPhase::Connecting;
            SupervisorAction::Wait { delay_ms }
        }
    }

    /// Feeds back how the session ended. A clean stream close and every
    /// transient failure wait out the next delay, then reconnect — without
    /// bound on the number of attempts. A permanent failure exits the
    /// process with a non-zero status.
    pub fn on_session_end(&mut self, outcome: &Option<ClientError>) -> (a: SupervisorAction)
        requires
            old(self).phase == SupervisorPhase::Running,
            backoff_wf(old(self).backoff),
        ensures
            backoff_wf(final(self).backoff),
            final(self).backoff.policy == old(self).backoff.policy,
            match outcome {
                Some(e) => {
                    &&& spec_classify(e) == ErrorClass::Permanent ==> final(self).phase
                        == SupervisorPhase::Terminated && a == (SupervisorAction::Exit {
                        code: 1u8,
                    }) && final(self).backoff == old(self).backoff
                    &&& spec_classify(e) == ErrorClass::Transient ==> final(self).phase
                        == SupervisorPhase::Connecting && a == (SupervisorAction::Wait {
                        delay_ms: old(self).backoff.next_ms,
                    }) && final(self).backoff.next_ms == next_after(
                        old(self).backoff.next_ms,
                        old(self).backoff.policy.max_ms,
                    )
                },
                None => {
                    &&& final(self).phase == SupervisorPhase::Connecting
                    &&& a == (SupervisorAction::Wait { delay_ms: old(self).backoff.next_ms })
                    &&& final(self).backoff.next_ms == next_after(
                        old(self).backoff.next_ms,
                        old(self).backoff.policy.max_ms,
                    )
                },
            },
    {
        match outcome {
            Some(e) => match e.classify() {
                ErrorClass::Permanent => {
                    self.phase = SupervisorPhase::Terminated;
                    SupervisorAction::Exit { code: 1 }
                },
                ErrorClass::Transient => {
                    let delay_ms = self.backoff.next_delay();
                    self.phase = SupervisorPhase::Connecting;
                    SupervisorAction::Wait { delay_ms }
                },
            },
            None => {
                let delay_ms = self.backoff.next_delay();
                self.phase = SupervisorPhase::Connecting;
                SupervisorAction::Wait { delay_ms }
            },
        }
    }
}

} // verus!
