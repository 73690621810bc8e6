//! Queueing a downlink: which gateway carries it and the downlink that is stored.

use vstd::prelude::*;

use crate::domain::entities::downlink::{Downlink, DownlinkPriority};
use crate::domain::types::{Eui64, Frequency, SpreadingFactor};
use crate::error::{DomainError, DomainErrorView};

verus! {

/// Everything about a downlink but the gateway that carries it.
#[derive(Debug, Clone)]
pub struct DownlinkDraft {
    pub payload: Vec<u8>,
    pub f_port: u8,
    pub dev_eui: Eui64,
    pub frequency: Frequency,
    pub spreading_factor: SpreadingFactor,
    pub timestamp: i64,
    pub frame_counter: u32,
    pub priority: DownlinkPriority,
    pub scheduled_at: Option<i64>,
}

/// A request to queue a downlink, optionally pinned to a gateway.
#[derive(Debug, Clone)]
pub struct EnqueueDownlinkCommand {
    pub draft: DownlinkDraft,
    pub gateway_override: Option<Eui64>,
    pub correlation_id: Option<String>,
}

/// The id under which the downlink was queued.
#[derive(Debug, Clone, PartialEq, Eq, Structural)]
pub struct EnqueueDownlinkOutcome {
    pub downlink_id: i64,
}

/// The enqueue service with its repositories and audit writer.
pub struct ProcessDownlinkFrameService<R, G, A> {
    pub repository: R,
    pub gateways: G,
    pub audit_log: A,
}

impl<R, G, A> ProcessDownlinkFrameService<R, G, A> {
    pub fn new(repository: R, gateways: G, audit_log: A) -> (s: Self)
        ensures
            s.repository == repository,
            s.gateways == gateways,
            s.audit_log == audit_log,
    {
        ProcessDownlinkFrameService { repository, gateways, audit_log }
    }
}

/// The error when no gateway was given and none is healthy.
pub open spec fn no_healthy_gateway_error() -> DomainErrorView {
    DomainErrorView::InvalidState {
        entity: "downlink"@,
        reason: "no healthy gateways available for automatic selection"@,
    }
}

/// The gateway for a downlink: the override when one is given, else the best
/// healthy gateway; an error when there is neither.
pub fn resolve_gateway_choice(gateway_override: Option<Eui64>, best_healthy: Option<Eui64>) -> (r: Result<
    Eui64,
    DomainError,
>)
    ensures
        gateway_override matches Some(g) ==> r == Ok::<Eui64, DomainError>(g),
        gateway_override is None ==> match best_healthy {
            Some(g) => r == Ok::<Eui64, DomainError>(g),
            None => r matches Err(e) && e@ == no_healthy_gateway_error(),
        },
{
    if let Some(g) = gateway_override {
        return Ok(g);
    }
    match best_healthy {
        Some(g) => Ok(g),
        None => Err(
            DomainError::InvalidState {
                entity: "downlink",
                reason: String::from_str("no healthy gateways available for automatic selection"),
            },
        ),
    }
}

/// The downlink stored for `draft` on `gateway_eui`: the draft's fields, its
/// priority and its schedule.
pub fn build_downlink(draft: DownlinkDraft, gateway_eui: Eui64) -> (d: Downlink)
    ensures
        d == (Downlink {
            payload: draft.payload,
            f_port: draft.f_port,
            dev_eui: draft.dev_eui,
            gateway_eui,
            frequency: draft.frequency,
            spreading_factor: draft.spreading_factor,
            timestamp: draft.timestamp,
            frame_counter: draft.frame_counter,
            priority: draft.priority,
            scheduled_at: draft.scheduled_at,
        }),
{
    let mut downlink = Downlink::new(
        draft.payload,
        draft.f_port,
        draft.dev_eui,
        gateway_eui,
        draft.frequency,
        draft.spreading_factor,
        draft.timestamp,
        draft.frame_counter,
    ).with_priority(draft.priority);
    downlink.scheduled_at = draft.scheduled_at;
    downlink
}

} // verus!
