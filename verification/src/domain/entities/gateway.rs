use vstd::prelude::*;

verus! {

/// Reachability of a gateway as last observed.
#[derive(Debug, Clone, Copy, PartialEq, Eq, Structural)]
pub enum GatewayStatus {
    Online,
    Offline,
    Timeout,
}

} // verus!
