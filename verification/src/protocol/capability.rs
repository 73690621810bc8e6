use vstd::prelude::*;

verus! {

/// Result of protocol policy evaluation.
#[derive(Debug, Clone, Copy, PartialEq, Eq, Structural)]
pub enum ProtocolDecision {
    Accept,
    RejectDuplicateFrameCounter,
    RejectFcntGapExceeded,
    RejectNoSession,
    RejectRegionMismatch,
    RejectUnsupportedClass,
}

/// The variant name, as printed by `Debug`.
pub open spec fn decision_name(d: ProtocolDecision) -> Seq<char> {
    match d {
        ProtocolDecision::Accept => "Accept"@,
        ProtocolDecision::RejectDuplicateFrameCounter => "RejectDuplicateFrameCounter"@,
        ProtocolDecision::RejectFcntGapExceeded => "RejectFcntGapExceeded"@,
        ProtocolDecision::RejectNoSession => "RejectNoSession"@,
        ProtocolDecision::RejectRegionMismatch => "RejectRegionMismatch"@,
        ProtocolDecision::RejectUnsupportedClass => "RejectUnsupportedClass"@,
    }
}

impl ProtocolDecision {
    /// The variant name, as printed by `Debug`.
    pub fn name(&self) -> (s: &'static str)
        ensures
            s@ == decision_name(*self),
    {
        match self {
            ProtocolDecision::Accept => "Accept",
            ProtocolDecision::RejectDuplicateFrameCounter => "RejectDuplicateFrameCounter",
            ProtocolDecision::RejectFcntGapExceeded => "RejectFcntGapExceeded",
            ProtocolDecision::RejectNoSession => "RejectNoSession",
            ProtocolDecision::RejectRegionMismatch => "RejectRegionMismatch",
            ProtocolDecision::RejectUnsupportedClass => "RejectUnsupportedClass",
        }
    }
}

} // verus!
