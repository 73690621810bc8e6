//! The downlink delivery worker: what it does with each pending item, what a
//! failed send leads to, and how the queue records each outcome.

use std::sync::Arc;

use vstd::prelude::*;

use crate::domain::entities::downlink::Downlink;
use crate::domain::types::{eui_display, Eui64};
use crate::ports::{DownlinkState, QueuedDownlink};
use crate::text::push_str;

verus! {

/// Tuning of the delivery worker.
#[derive(Debug, Clone, Copy, PartialEq, Eq, Structural)]
pub struct DeliveryConfig {
    /// Most items fetched per pass.
    pub fetch_limit: usize,
    /// Delay added to `now` for a queued item without its own schedule.
    pub schedule_delay_secs: i64,
    /// Delay before a failed send is tried again.
    pub retry_delay_secs: i64,
    /// Sends allowed before the item is marked failed.
    pub max_attempts: u32,
}

impl Default for DeliveryConfig {
    fn default() -> (c: Self)
        ensures
            c == (DeliveryConfig {
                fetch_limit: 128,
                schedule_delay_secs: 2,
                retry_delay_secs: 3,
                max_attempts: 3,
            }),
    {
        DeliveryConfig { fetch_limit: 128, schedule_delay_secs: 2, retry_delay_secs: 3, max_attempts: 3 }
    }
}

/// A sender that accepts every downlink without transmitting it.
pub struct NoopDownlinkSender;

/// The delivery worker with its repositories, audit writer, sender and tuning.
pub struct DownlinkDeliveryService<R, G, A, S> {
    pub repository: R,
    pub gateways: G,
    pub audit_log: A,
    pub sender: Arc<S>,
    pub config: DeliveryConfig,
}

impl<R, G, A, S> DownlinkDeliveryService<R, G, A, S> {
    pub fn new(repository: R, gateways: G, audit_log: A, sender: Arc<S>, config: DeliveryConfig) -> (s: Self)
        ensures
            s.repository == repository,
            s.gateways == gateways,
            s.audit_log == audit_log,
            s.sender == sender,
            s.config == config,
    {
        DownlinkDeliveryService { repository, gateways, audit_log, sender, config }
    }
}

/// What one pass of the worker does with one pending item.
#[derive(Debug, Clone, Copy, PartialEq, Eq, Structural)]
pub enum DeliveryStep {
    /// A queued item is scheduled for this time.
    Schedule { scheduled_at: i64 },
    /// A scheduled item whose time has come is handed to the sender.
    Send,
    /// Nothing to do: not due yet, already sent, or failed.
    Skip,
}

/// The step for an item in `state` with its own schedule `scheduled_at`, at time `now`.
pub open spec fn spec_delivery_step(
    state: DownlinkState,
    scheduled_at: Option<i64>,
    now: i64,
    config: DeliveryConfig,
) -> DeliveryStep {
    match state {
        DownlinkState::Queued => DeliveryStep::Schedule {
            scheduled_at: match scheduled_at {
                Some(t) => t,
                None => (now + config.schedule_delay_secs) as i64,
            },
        },
        DownlinkState::Scheduled => {
            let due = match scheduled_at {
                Some(t) => t,
                None => now,
            };
            if due > now {
                DeliveryStep::Skip
            } else {
                DeliveryStep::Send
            }
        },
        DownlinkState::Sent | DownlinkState::Failed => DeliveryStep::Skip,
    }
}

/// The default schedule `now + schedule_delay_secs` fits in an `i64`.
pub open spec fn schedule_time_fits(now: i64, config: DeliveryConfig) -> bool {
    i64::MIN <= now + config.schedule_delay_secs <= i64::MAX
}

/// The retry time `now + retry_delay_secs` fits in an `i64`.
pub open spec fn retry_time_fits(now: i64, config: DeliveryConfig) -> bool {
    i64::MIN <= now + config.retry_delay_secs <= i64::MAX
}

/// Decides the step for one pending item. A queued item always gets a schedule
/// (its own, or `now + schedule_delay_secs`); a scheduled one is sent once it is due.
pub fn delivery_step(state: DownlinkState, scheduled_at: Option<i64>, now: i64, config: &DeliveryConfig) -> (s: DeliveryStep)
    requires
        state == DownlinkState::Queued ==> schedule_time_fits(now, *config),
    ensures
        s == spec_delivery_step(state, scheduled_at, now, *config),
{
    match state {
        DownlinkState::Queued => {
            let fallback = now + config.schedule_delay_secs;
            let at = match scheduled_at {
                Some(t) => t,
                None => fallback,
            };
            DeliveryStep::Schedule { scheduled_at: at }
        },
        DownlinkState::Scheduled => {
            let due = match scheduled_at {
                Some(t) => t,
                None => now,
            };
            if due > now {
                DeliveryStep::Skip
            } else {
                DeliveryStep::Send
            }
        },
        DownlinkState::Sent | DownlinkState::Failed => DeliveryStep::Skip,
    }
}

impl DeliveryStep {
    /// Whether the pass counts this item as processed (everything but `Skip`).
    pub fn counts_as_processed(&self) -> (b: bool)
        ensures
            b == !(*self is Skip),
    {
        match self {
            DeliveryStep::Skip => false,
            _ => true,
        }
    }
}

/// The first candidate whose EUI differs from `current`, in the candidates' order.
pub open spec fn first_other_gateway(candidates: Seq<Eui64>, current: Eui64) -> Option<Eui64>
    decreases candidates.len(),
{
    if candidates.len() == 0 {
        None
    } else if candidates[0]@ != current@ {
        Some(candidates[0])
    } else {
        first_other_gateway(candidates.drop_first(), current)
    }
}

/// The failover target: the first healthy gateway other than the current one.
pub fn next_gateway_candidate(candidates: &[Eui64], current: &Eui64) -> (r: Option<Eui64>)
    ensures
        r == first_other_gateway(candidates@, *current),
{
    let mut i: usize = 0;
    assert(candidates@.subrange(0, candidates@.len() as int) =~= candidates@);
    while i < candidates.len()
        invariant
            0 <= i <= candidates@.len(),
            first_other_gateway(candidates@, *current) == first_other_gateway(
                candidates@.subrange(i as int, candidates@.len() as int),
                *current,
            ),
        decreases candidates@.len() - i,
    {
        let rest = Ghost(candidates@.subrange(i as int, candidates@.len() as int));
        assert(rest@[0] == candidates@[i as int]);
        if !candidates[i].equals(current) {
            return Some(candidates[i]);
        }
        assert(rest@.drop_first() =~= candidates@.subrange(i + 1, candidates@.len() as int));
        i = i + 1;
    }
    assert(candidates@.subrange(i as int, candidates@.len() as int) =~= Seq::<Eui64>::empty());
    None
}

/// What follows a failed send.
#[derive(Debug, Clone, Copy)]
pub enum FailureStep {
    /// The attempts are used up: the item is marked failed.
    MarkFailed,
    /// The item is queued again for `retry_at`, moved to `alternate` when one exists.
    Retry { retry_at: i64, alternate: Option<Eui64> },
}

/// Whether the send that just failed used up the attempts.
pub open spec fn attempts_exhausted(attempt_count: u32, config: DeliveryConfig) -> bool {
    attempt_count + 1 >= config.max_attempts
}

/// What follows a failed send of an item that had `attempt_count` failed sends before.
pub open spec fn spec_failure_step(
    attempt_count: u32,
    now: i64,
    config: DeliveryConfig,
    current_gateway: Eui64,
    healthy: Seq<Eui64>,
) -> FailureStep {
    if attempts_exhausted(attempt_count, config) {
        FailureStep::MarkFailed
    } else {
        FailureStep::Retry {
            retry_at: (now + config.retry_delay_secs) as i64,
            alternate: first_other_gateway(healthy, current_gateway),
        }
    }
}

/// Decides what follows a failed send: failed once `attempt_count + 1` reaches
/// `max_attempts`, else a retry after `retry_delay_secs`, through the first healthy
/// gateway other than the current one when there is such a gateway.
pub fn send_failure_step(
    attempt_count: u32,
    now: i64,
    config: &DeliveryConfig,
    current_gateway: &Eui64,
    healthy: &[Eui64],
) -> (s: FailureStep)
    requires
        attempt_count < u32::MAX,
        !attempts_exhausted(attempt_count, *config) ==> retry_time_fits(now, *config),
    ensures
        s == spec_failure_step(attempt_count, now, *config, *current_gateway, healthy@),
{
    let next_attempt = attempt_count + 1;
    if next_attempt >= config.max_attempts {
        return FailureStep::MarkFailed;
    }
    let retry_at = now + config.retry_delay_secs;
    let alternate = next_gateway_candidate(healthy, current_gateway);
    FailureStep::Retry { retry_at, alternate }
}

/// The audit reason of a failover: `gateway <from> -> <to>: <reason>`.
pub open spec fn failover_reason_text(from: Eui64, to: Eui64, reason: Seq<char>) -> Seq<char> {
    "gateway "@ + eui_display(from@) + " -> "@ + eui_display(to@) + ": "@ + reason
}

pub fn failover_reason(from: &Eui64, to: &Eui64, reason: &str) -> (s: String)
    ensures
        s@ == failover_reason_text(*from, *to, reason@),
{
    let mut s = String::new();
    push_str(&mut s, "gateway ");
    let a = from.to_string();
    push_str(&mut s, a.as_str());
    push_str(&mut s, " -> ");
    let b = to.to_string();
    push_str(&mut s, b.as_str());
    push_str(&mut s, ": ");
    push_str(&mut s, reason);
    assert(s@ =~= failover_reason_text(*from, *to, reason@));
    s
}

// How the downlink queue records each outcome.

/// The item after `mark_scheduled`: state `Scheduled`, due at `at`.
pub open spec fn scheduled_item(item: QueuedDownlink, at: i64) -> QueuedDownlink {
    QueuedDownlink {
        state: DownlinkState::Scheduled,
        downlink: Downlink { scheduled_at: Some(at), ..item.downlink },
        ..item
    }
}

/// The item after `mark_sent`.
pub open spec fn sent_item(item: QueuedDownlink) -> QueuedDownlink {
    QueuedDownlink { state: DownlinkState::Sent, ..item }
}

/// The item after `mark_failed`: one more attempt counted, state `Failed`.
pub open spec fn failed_item(item: QueuedDownlink) -> QueuedDownlink {
    QueuedDownlink {
        state: DownlinkState::Failed,
        attempt_count: (item.attempt_count + 1) as u32,
        ..item
    }
}

/// The item after a retry: one more attempt counted, queued again for `retry_at`,
/// and moved to `gateway` when one is given.
pub open spec fn retried_item(item: QueuedDownlink, retry_at: i64, gateway: Option<Eui64>) -> QueuedDownlink {
    QueuedDownlink {
        state: DownlinkState::Queued,
        attempt_count: (item.attempt_count + 1) as u32,
        downlink: Downlink {
            scheduled_at: Some(retry_at),
            gateway_eui: match gateway {
                Some(g) => g,
                None => item.downlink.gateway_eui,
            },
            ..item.downlink
        },
        ..item
    }
}

impl QueuedDownlink {
    pub fn mark_scheduled(&mut self, at: i64)
        ensures
            *final(self) == scheduled_item(*old(self), at),
    {
        self.state = DownlinkState::Scheduled;
        self.downlink.scheduled_at = Some(at);
    }

    pub fn mark_sent(&mut self)
        ensures
            *final(self) == sent_item(*old(self)),
    {
        self.state = DownlinkState::Sent;
    }

    pub fn mark_failed(&mut self)
        requires
            old(self).attempt_count < u32::MAX,
        ensures
            *final(self) == failed_item(*old(self)),
    {
        self.state = DownlinkState::Failed;
        self.attempt_count = self.attempt_count + 1;
    }

    pub fn mark_retry(&mut self, retry_at: i64, gateway: Option<Eui64>)
        requires
            old(self).attempt_count < u32::MAX,
        ensures
            *final(self) == retried_item(*old(self), retry_at, gateway),
    {
        self.state = DownlinkState::Queued;
        self.attempt_count = self.attempt_count + 1;
        self.downlink.scheduled_at = Some(retry_at);
        match gateway {
            Some(g) => {
                self.downlink.gateway_eui = g;
            },
            None => {},
        }
    }
}

/// The item after a failed send, as decided by `send_failure_step`.
pub open spec fn after_failed_send(
    item: QueuedDownlink,
    now: i64,
    config: DeliveryConfig,
    healthy: Seq<Eui64>,
) -> QueuedDownlink {
    match spec_failure_step(item.attempt_count, now, config, item.downlink.gateway_eui, healthy) {
        FailureStep::MarkFailed => failed_item(item),
        FailureStep::Retry { retry_at, alternate } => retried_item(item, retry_at, alternate),
    }
}

/// The item after one pass of the worker at time `now`; `send_ok` is the sender's answer
/// when the pass sends it.
pub open spec fn worker_pass(
    item: QueuedDownlink,
    now: i64,
    config: DeliveryConfig,
    healthy: Seq<Eui64>,
    send_ok: bool,
) -> QueuedDownlink {
    match spec_delivery_step(item.state, item.downlink.scheduled_at, now, config) {
        DeliveryStep::Schedule { scheduled_at } => scheduled_item(item, scheduled_at),
        DeliveryStep::Send => if send_ok {
            sent_item(item)
        } else {
            after_failed_send(item, now, config, healthy)
        },
        DeliveryStep::Skip => item,
    }
}

/// Sent and failed items are final: no pass changes them, whatever the sender answers.
pub proof fn lemma_final_states_stay(
    item: QueuedDownlink,
    now: i64,
    config: DeliveryConfig,
    healthy: Seq<Eui64>,
    send_ok: bool,
)
    requires
        item.state == DownlinkState::Sent || item.state == DownlinkState::Failed,
    ensures
        worker_pass(item, now, config, healthy, send_ok) == item,
{
}

/// A queued item whose own schedule is already due is sent by the second of two
/// passes when the sender accepts it.
pub proof fn lemma_two_passes_deliver(item: QueuedDownlink, now: i64, config: DeliveryConfig, healthy: Seq<Eui64>)
    requires
        item.state == DownlinkState::Queued,
        item.downlink.scheduled_at matches Some(t) && t <= now,
    ensures
        worker_pass(worker_pass(item, now, config, healthy, true), now, config, healthy, true).state
            == DownlinkState::Sent,
{
}

/// A queued item without its own schedule is sent by the second pass as soon as
/// the schedule delay is not positive.
pub proof fn lemma_two_passes_deliver_unscheduled(
    item: QueuedDownlink,
    now: i64,
    config: DeliveryConfig,
    healthy: Seq<Eui64>,
)
    requires
        item.state == DownlinkState::Queued,
        item.downlink.scheduled_at is None,
        config.schedule_delay_secs <= 0,
        schedule_time_fits(now, config),
    ensures
        worker_pass(worker_pass(item, now, config, healthy, true), now, config, healthy, true).state
            == DownlinkState::Sent,
{
}

/// One round of a sender that always fails, at a fixed time with no retry delay:
/// the queued item is scheduled, then its send fails.
pub open spec fn failing_round(item: QueuedDownlink, now: i64, config: DeliveryConfig, healthy: Seq<Eui64>) -> QueuedDownlink {
    worker_pass(worker_pass(item, now, config, healthy, false), now, config, healthy, false)
}

/// `k` failing rounds.
pub open spec fn failing_rounds(
    item: QueuedDownlink,
    k: nat,
    now: i64,
    config: DeliveryConfig,
    healthy: Seq<Eui64>,
) -> QueuedDownlink
    decreases k,
{
    if k == 0 {
        item
    } else {
        failing_round(failing_rounds(item, (k - 1) as nat, now, config, healthy), now, config, healthy)
    }
}

/// With a sender that always fails and no retry delay, a fresh item is retried
/// while sends remain and is marked failed by the `max_attempts`-th failed send;
/// it counts one attempt per failed send, and stays failed afterwards.
pub proof fn lemma_failures_exhaust_attempts(
    item: QueuedDownlink,
    k: nat,
    now: i64,
    config: DeliveryConfig,
    healthy: Seq<Eui64>,
)
    requires
        item.state == DownlinkState::Queued,
        item.attempt_count == 0,
        item.downlink.scheduled_at matches Some(t) && t <= now,
        config.retry_delay_secs == 0,
        config.max_attempts >= 1,
    ensures
        ({
            let r = failing_rounds(item, k, now, config, healthy);
            &&& k < config.max_attempts ==> r.state == DownlinkState::Queued && r.attempt_count == k
            &&& 0 < k < config.max_attempts ==> r.downlink.scheduled_at == Some(now)
            &&& k >= config.max_attempts ==> r.state == DownlinkState::Failed && r.attempt_count
                == config.max_attempts
        }),
    decreases k,
{
    if k > 0 {
        lemma_failures_exhaust_attempts(item, (k - 1) as nat, now, config, healthy);
    }
}

} // verus!
