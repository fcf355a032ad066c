use vstd::prelude::*;

use crate::component::Component;

verus! {

/// A structured failover notification, for an external logger or alerting
/// collaborator to render or route. Components are identified by their
/// priority index in the manager's candidate list.
#[derive(Clone, Copy, Debug, PartialEq, Eq, Structural)]
pub enum FailoverEvent {
    /// The active candidate at `from` was found unhealthy; the remaining
    /// candidates are about to be evaluated.
    FailoverStarted { from: usize },
    /// The candidate at `to` was activated and confirmed healthy, and now
    /// holds the active role.
    FailoverSucceeded { to: usize },
    /// No candidate could be activated: the slot has failed.
    FailoverFailed,
}

/// The state of the logical slot a manager supervises.
#[derive(Clone, Copy, Debug, PartialEq, Eq, Structural)]
pub enum SlotState {
    /// The candidate at this priority index holds the active role.
    Active { index: usize },
    /// Every candidate was found unhealthy; no component is active.
    Failed,
}

/// The terminal error surfaced by monitoring.
#[derive(Clone, Copy, Debug, PartialEq, Eq, Structural)]
pub enum MonitorError {
    /// Every candidate's health check failed; monitoring stops rather than
    /// silently retrying, so a caller can alert or restart.
    AllCandidatesUnhealthy,
}

/// Failover policy: picks the first healthy candidate in priority
/// (declaration) order, or reports that none is healthy. When several
/// candidates are healthy at once, the lowest priority index wins.
pub fn select_candidate(candidates: &Vec<Component>) -> (r: Option<usize>)
    ensures
        match r {
            Some(i) => i < candidates@.len() && candidates@[i as int].is_healthy()
                && (forall|k: int| 0 <= k < i ==> !candidates@[k].is_healthy()),
            None => forall|k: int| 0 <= k < candidates@.len() ==> !candidates@[k].is_healthy(),
        },
{
    let n: usize = candidates.len();
    let mut i: usize = 0;
    while i < n
        invariant
            n == candidates@.len(),
            i <= n,
            forall|k: int| 0 <= k < i ==> !candidates@[k].is_healthy(),
        decreases n - i,
    {
        if candidates[i].check_health() {
            return Some(i);
        }
        i = i + 1;
    }
    None
}

} // verus!
