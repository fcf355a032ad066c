use vstd::prelude::*;

use crate::component::Component;
use crate::policy::{select_candidate, FailoverEvent, MonitorError, SlotState};

verus! {

/// What a single monitoring tick did.
#[derive(Clone, Copy, Debug, PartialEq, Eq, Structural)]
pub enum StepOutcome {
    /// The active candidate passed its health check; nothing changed.
    ActiveHealthy,
    /// The active candidate failed its check; the candidate at priority
    /// index `to` now holds the active role.
    FailedOver { to: usize },
}

/// Supervises one logical slot backed by a priority-ordered list of
/// candidate components: detects when the active candidate becomes
/// unhealthy and promotes the first healthy candidate in its place.
pub struct RedundancyManager {
    candidates: Vec<Component>,
    state: SlotState,
    check_interval_micros: u64,
    activation_confirm_retries: u64,
}

/// Exactly what a completed failover did, relating the manager and the
/// event log before (`pre`, `pre_events`) and after (`post`, `post_events`)
/// to the result `r`: on `Ok(j)`, the first healthy candidate `j` took the
/// active role and one `FailoverSucceeded` event was appended; on `Err`,
/// every candidate was unhealthy, the slot failed, and one
/// `FailoverFailed` event was appended. Candidates and configuration are
/// untouched either way.
pub open spec fn failover_spec(
    pre: RedundancyManager,
    post: RedundancyManager,
    pre_events: Seq<FailoverEvent>,
    post_events: Seq<FailoverEvent>,
    r: Result<usize, MonitorError>,
) -> bool {
    &&& post.spec_candidates() == pre.spec_candidates()
    &&& post.spec_check_interval_micros() == pre.spec_check_interval_micros()
    &&& post.spec_activation_confirm_retries() == pre.spec_activation_confirm_retries()
    &&& match r {
        Ok(j) => {
            &&& j < pre.spec_candidates().len()
            &&& pre.spec_candidates()[j as int].is_healthy()
            &&& forall|k: int| 0 <= k < j ==> !pre.spec_candidates()[k].is_healthy()
            &&& post.spec_state() == (SlotState::Active { index: j })
            &&& post_events == pre_events.push((FailoverEvent::FailoverSucceeded { to: j }))
        },
        Err(e) => {
            &&& e == MonitorError::AllCandidatesUnhealthy
            &&& forall|k: int|
                0 <= k < pre.spec_candidates().len() ==> !pre.spec_candidates()[k].is_healthy()
            &&& post.spec_state() == SlotState::Failed
            &&& post_events == pre_events.push(FailoverEvent::FailoverFailed)
        },
    }
}

/// Exactly what one monitoring tick did. With the slot active and the
/// active candidate healthy, nothing changes and no event is emitted. With
/// the active candidate unhealthy, a `FailoverStarted` event is appended
/// and failover runs, as `failover_spec` states. With the slot already
/// failed, the tick reports `AllCandidatesUnhealthy` and changes nothing.
pub open spec fn monitor_step_spec(
    pre: RedundancyManager,
    post: RedundancyManager,
    pre_events: Seq<FailoverEvent>,
    post_events: Seq<FailoverEvent>,
    r: Result<StepOutcome, MonitorError>,
) -> bool {
    match pre.spec_state() {
        SlotState::Active { index } => {
            if pre.spec_candidates()[index as int].is_healthy() {
                &&& r == Ok::<StepOutcome, MonitorError>(StepOutcome::ActiveHealthy)
                &&& post == pre
                &&& post_events == pre_events
            } else {
                match r {
                    Ok(StepOutcome::FailedOver { to }) => failover_spec(
                        pre,
                        post,
                        pre_events.push((FailoverEvent::FailoverStarted { from: index })),
                        post_events,
                        Ok(to),
                    ),
                    Ok(StepOutcome::ActiveHealthy) => false,
                    Err(e) => failover_spec(
                        pre,
                        post,
                        pre_events.push((FailoverEvent::FailoverStarted { from: index })),
                        post_events,
                        Err(e),
                    ),
                }
            }
        },
        SlotState::Failed => {
            &&& r == Err::<StepOutcome, MonitorError>(MonitorError::AllCandidatesUnhealthy)
            &&& post == pre
            &&& post_events == pre_events
        },
    }
}

impl RedundancyManager {
    /// The candidate components, in priority (declaration) order.
    pub closed spec fn spec_candidates(&self) -> Seq<Component> {
        self.candidates@
    }

    /// The state of the supervised slot.
    pub closed spec fn spec_state(&self) -> SlotState {
        self.state
    }

    /// The configured pause between health checks, in microseconds.
    pub closed spec fn spec_check_interval_micros(&self) -> u64 {
        self.check_interval_micros
    }

    /// How many additional confirmation attempts activation makes after
    /// the first.
    pub closed spec fn spec_activation_confirm_retries(&self) -> u64 {
        self.activation_confirm_retries
    }

    /// Well-formedness: there is at least one candidate, and an active
    /// slot points at one of them.
    pub open spec fn wf(&self) -> bool {
        &&& self.spec_candidates().len() > 0
        &&& match self.spec_state() {
            SlotState::Active { index } => index < self.spec_candidates().len(),
            SlotState::Failed => true,
        }
    }

    /// Creates a manager over an explicit primary/backup pair. The primary
    /// starts in the active role; `check_interval_micros` is the pause
    /// between health checks. Activation confirmation defaults to a single
    /// attempt (zero retries).
    pub fn new(primary: Component, backup: Component, check_interval_micros: u64) -> (m:
        RedundancyManager)
        ensures
            m.wf(),
            m.spec_candidates().len() == 2,
            m.spec_candidates()[0] == primary,
            m.spec_candidates()[1] == backup,
            m.spec_state() == (SlotState::Active { index: 0usize }),
            m.spec_check_interval_micros() == check_interval_micros,
            m.spec_activation_confirm_retries() == 0,
    {
        let mut candidates: Vec<Component> = Vec::new();
        candidates.push(primary);
        candidates.push(backup);
        RedundancyManager {
            candidates,
            state: SlotState::Active { index: 0 },
            check_interval_micros,
            activation_confirm_retries: 0,
        }
    }

    /// Creates a manager over a priority-ordered candidate list; the first
    /// candidate starts in the active role. An empty list is refused: no
    /// manager is created.
    pub fn from_candidates(candidates: Vec<Component>, check_interval_micros: u64) -> (r: Option<
        RedundancyManager,
    >)
        ensures
            match r {
                Some(m) => candidates@.len() > 0 && m.wf() && m.spec_candidates() == candidates@
                    && m.spec_state() == (SlotState::Active { index: 0usize })
                    && m.spec_check_interval_micros() == check_interval_micros
                    && m.spec_activation_confirm_retries() == 0,
                None => candidates@.len() == 0,
            },
    {
        if candidates.len() == 0 {
            None
        } else {
            Some(
                RedundancyManager {
                    candidates,
                    state: SlotState::Active { index: 0 },
                    check_interval_micros,
                    activation_confirm_retries: 0,
                },
            )
        }
    }

    /// Sets the activation-confirmation retry knob: how many additional
    /// confirmation attempts activation makes after the first.
    pub fn with_activation_confirm_retries(self, retries: u64) -> (m: RedundancyManager)
        ensures
            m.spec_candidates() == self.spec_candidates(),
            m.spec_state() == self.spec_state(),
            m.spec_check_interval_micros() == self.spec_check_interval_micros(),
            m.spec_activation_confirm_retries() == retries,
            self.wf() ==> m.wf(),
    {
        RedundancyManager {
            candidates: self.candidates,
            state: self.state,
            check_interval_micros: self.check_interval_micros,
            activation_confirm_retries: retries,
        }
    }

    /// The state of the supervised slot.
    pub fn state(&self) -> (s: SlotState)
        ensures
            s == self.spec_state(),
    {
        self.state
    }

    /// The configured pause between health checks, in microseconds.
    pub fn check_interval_micros(&self) -> (n: u64)
        ensures
            n == self.spec_check_interval_micros(),
    {
        self.check_interval_micros
    }

    /// The number of candidates.
    pub fn candidate_count(&self) -> (n: usize)
        ensures
            n == self.spec_candidates().len(),
    {
        self.candidates.len()
    }

    /// The candidate at priority index `i`.
    pub fn candidate_at(&self, i: usize) -> (c: &Component)
        requires
            i < self.spec_candidates().len(),
        ensures
            *c == self.spec_candidates()[i as int],
    {
        &self.candidates[i]
    }

    /// The currently active component: the candidate the slot state points
    /// at, or nothing once the slot has failed.
    pub fn current_active(&self) -> (r: Option<&Component>)
        requires
            self.wf(),
        ensures
            match self.spec_state() {
                SlotState::Active { index } => (r matches Some(c) && *c == self.spec_candidates()[
                    index as int
                ]),
                SlotState::Failed => r is None,
            },
    {
        match self.state {
            SlotState::Active { index } => Some(&self.candidates[index]),
            SlotState::Failed => None,
        }
    }

    /// Forces the health flag of the candidate at priority index `i`
    /// (used by external simulators and status writers). Only that
    /// candidate's flag changes.
    pub fn set_candidate_health(&mut self, i: usize, state: bool)
        requires
            old(self).wf(),
            i < old(self).spec_candidates().len(),
        ensures
            final(self).wf(),
            final(self).spec_candidates().len() == old(self).spec_candidates().len(),
            final(self).spec_candidates()[i as int].is_healthy() == state,
            final(self).spec_candidates()[i as int].spec_name() == old(self).spec_candidates()[
                i as int
            ].spec_name(),
            forall|k: int|
                0 <= k < old(self).spec_candidates().len() && k != i
                    ==> final(self).spec_candidates()[k] == old(self).spec_candidates()[k],
            final(self).spec_state() == old(self).spec_state(),
            final(self).spec_check_interval_micros() == old(self).spec_check_interval_micros(),
            final(self).spec_activation_confirm_retries()
                == old(self).spec_activation_confirm_retries(),
    {
        let c = &mut self.candidates[i];
        c.set_health(state);
    }

    /// Confirms an activation by re-reading the candidate's health flag,
    /// with up to `activation_confirm_retries` additional attempts after
    /// the first.
    fn confirm_activation(&self, i: usize) -> (ok: bool)
        requires
            i < self.spec_candidates().len(),
        ensures
            ok == self.spec_candidates()[i as int].is_healthy(),
    {
        let retries: u64 = self.activation_confirm_retries;
        let mut attempt: u64 = 0;
        loop
            invariant
                i < self.spec_candidates().len(),
                attempt <= retries,
            decreases retries - attempt,
        {
            if self.candidates[i].check_health() {
                return true;
            }
            if attempt >= retries {
                return false;
            }
            attempt = attempt + 1;
        }
    }

    /// Hands the active role to the first healthy candidate in priority
    /// order: the chosen candidate is activated (its flag set healthy,
    /// then confirmed) and one `FailoverSucceeded` event is appended. When
    /// every candidate is unhealthy the slot becomes `Failed`, one
    /// `FailoverFailed` event is appended, and `AllCandidatesUnhealthy` is
    /// returned.
    pub fn failover(&mut self, events: &mut Vec<FailoverEvent>) -> (r: Result<usize, MonitorError>)
        requires
            old(self).wf(),
        ensures
            final(self).wf(),
            failover_spec(*old(self), *final(self), old(events)@, final(events)@, r),
    {
        match select_candidate(&self.candidates) {
            Some(i) => {
                let c = &mut self.candidates[i];
                c.set_health(true);
                proof {
                    assert(self.candidates@ =~= old(self).candidates@);
                }
                let confirmed = self.confirm_activation(i);
                assert(confirmed);
                self.state = SlotState::Active { index: i };
                events.push(FailoverEvent::FailoverSucceeded { to: i });
                Ok(i)
            },
            None => {
                self.state = SlotState::Failed;
                events.push(FailoverEvent::FailoverFailed);
                Err(MonitorError::AllCandidatesUnhealthy)
            },
        }
    }

    /// One monitoring tick: checks the active candidate's health and, on
    /// failure, appends a `FailoverStarted` event and runs failover. On a
    /// slot that has already failed, reports `AllCandidatesUnhealthy`
    /// without changing anything.
    pub fn monitor_step(&mut self, events: &mut Vec<FailoverEvent>) -> (r: Result<
        StepOutcome,
        MonitorError,
    >)
        requires
            old(self).wf(),
        ensures
            final(self).wf(),
            monitor_step_spec(*old(self), *final(self), old(events)@, final(events)@, r),
    {
        match self.state {
            SlotState::Active { index } => {
                if self.candidates[index].check_health() {
                    Ok(StepOutcome::ActiveHealthy)
                } else {
                    events.push(FailoverEvent::FailoverStarted { from: index });
                    match self.failover(events) {
                        Ok(to) => Ok(StepOutcome::FailedOver { to }),
                        Err(e) => Err(e),
                    }
                }
            },
            SlotState::Failed => Err(MonitorError::AllCandidatesUnhealthy),
        }
    }
}

/// Law: a monitoring tick that finds the active candidate healthy changes
/// nothing — the manager, and with it the current active component, and
/// the event log are exactly as before the tick. Since every such tick
/// leaves the manager equal to what it was, the active component never
/// changes while it stays healthy at every check.
pub proof fn lemma_healthy_tick_changes_nothing(
    pre: RedundancyManager,
    post: RedundancyManager,
    pre_events: Seq<FailoverEvent>,
    post_events: Seq<FailoverEvent>,
    r: Result<StepOutcome, MonitorError>,
    index: usize,
)
    requires
        pre.wf(),
        pre.spec_state() == (SlotState::Active { index }),
        pre.spec_candidates()[index as int].is_healthy(),
        monitor_step_spec(pre, post, pre_events, post_events, r),
    ensures
        post == pre,
        post_events == pre_events,
        r == Ok::<StepOutcome, MonitorError>(StepOutcome::ActiveHealthy),
{
}

/// Law: when the active component has failed and exactly one candidate
/// (at position `h`) is healthy, failover hands the active role to exactly
/// that candidate and appends exactly one event, a `FailoverSucceeded`
/// naming it.
pub proof fn lemma_failover_unique_healthy(
    pre: RedundancyManager,
    post: RedundancyManager,
    pre_events: Seq<FailoverEvent>,
    post_events: Seq<FailoverEvent>,
    r: Result<usize, MonitorError>,
    h: int,
)
    requires
        pre.wf(),
        0 <= h < pre.spec_candidates().len(),
        pre.spec_candidates()[h].is_healthy(),
        forall|k: int|
            0 <= k < pre.spec_candidates().len() && k != h ==> !pre.spec_candidates()[
                k
            ].is_healthy(),
        failover_spec(pre, post, pre_events, post_events, r),
    ensures
        r == Ok::<usize, MonitorError>(h as usize),
        post.spec_state() == (SlotState::Active { index: h as usize }),
        post_events == pre_events.push((FailoverEvent::FailoverSucceeded { to: h as usize })),
        post_events.len() == pre_events.len() + 1,
{
    match r {
        Ok(j) => {
            if j != h {
                assert(!pre.spec_candidates()[j as int].is_healthy());
                assert(false);
            }
        },
        Err(_) => {
            assert(!pre.spec_candidates()[h].is_healthy());
            assert(false);
        },
    }
}

/// A monitoring tick taken while the slot is active and the active
/// candidate is healthy, for some tick result and event log.
pub open spec fn healthy_monitored_tick(pre: RedundancyManager, post: RedundancyManager) -> bool {
    &&& pre.wf()
    &&& pre.spec_state() matches SlotState::Active { index } && pre.spec_candidates()[
        index as int
    ].is_healthy()
    &&& exists|r: Result<StepOutcome, MonitorError>|
        monitor_step_spec(
            pre,
            post,
            Seq::<FailoverEvent>::empty(),
            Seq::<FailoverEvent>::empty(),
            r,
        )
}

/// Law: over any run of monitoring ticks in which the active candidate is
/// healthy at every check, the manager — and with it the current active
/// component — never changes: the manager after the run is exactly the
/// one before it.
pub proof fn lemma_active_healthy_at_every_check(trace: Seq<RedundancyManager>)
    requires
        trace.len() > 0,
        forall|t: int|
            0 <= t < trace.len() - 1 ==> #[trigger] healthy_monitored_tick(
                trace[t],
                trace[t + 1],
            ),
    ensures
        trace.last() == trace[0],
    decreases trace.len(),
{
    if trace.len() > 1 {
        let prefix = trace.drop_last();
        assert forall|t: int|
            0 <= t < prefix.len() - 1 implies #[trigger] healthy_monitored_tick(
            prefix[t],
            prefix[t + 1],
        ) by {
            assert(healthy_monitored_tick(trace[t], trace[t + 1]));
        }
        lemma_active_healthy_at_every_check(prefix);
        let pre = trace[trace.len() - 2];
        let post = trace[trace.len() - 1];
        assert(healthy_monitored_tick(trace[trace.len() - 2], trace[trace.len() - 2 + 1]));
        let r = choose|r: Result<StepOutcome, MonitorError>|
            monitor_step_spec(
                pre,
                post,
                Seq::<FailoverEvent>::empty(),
                Seq::<FailoverEvent>::empty(),
                r,
            );
        assert(post == pre);
    }
}

/// Law: when the active candidate fails its health check while exactly one
/// candidate (at position `h`) is healthy, the monitoring tick fails over
/// to exactly that candidate, and the only events appended are the
/// `FailoverStarted` notice and exactly one `FailoverSucceeded` naming the
/// new active candidate.
pub proof fn lemma_step_failover_unique_healthy(
    pre: RedundancyManager,
    post: RedundancyManager,
    pre_events: Seq<FailoverEvent>,
    post_events: Seq<FailoverEvent>,
    r: Result<StepOutcome, MonitorError>,
    index: usize,
    h: int,
)
    requires
        pre.wf(),
        pre.spec_state() == (SlotState::Active { index }),
        !pre.spec_candidates()[index as int].is_healthy(),
        0 <= h < pre.spec_candidates().len(),
        pre.spec_candidates()[h].is_healthy(),
        forall|k: int|
            0 <= k < pre.spec_candidates().len() && k != h ==> !pre.spec_candidates()[
                k
            ].is_healthy(),
        monitor_step_spec(pre, post, pre_events, post_events, r),
    ensures
        r == Ok::<StepOutcome, MonitorError>(StepOutcome::FailedOver { to: h as usize }),
        post.spec_state() == (SlotState::Active { index: h as usize }),
        post_events == pre_events.push((FailoverEvent::FailoverStarted { from: index })).push(
            (FailoverEvent::FailoverSucceeded { to: h as usize }),
        ),
        post_events.len() == pre_events.len() + 2,
{
    let started = pre_events.push((FailoverEvent::FailoverStarted { from: index }));
    match r {
        Ok(StepOutcome::FailedOver { to }) => {
            lemma_failover_unique_healthy(pre, post, started, post_events, Ok(to), h);
        },
        Ok(StepOutcome::ActiveHealthy) => {
            assert(false);
        },
        Err(_) => {
            assert(!pre.spec_candidates()[h].is_healthy());
            assert(false);
        },
    }
}

/// Law: when the slot is active but every candidate is unhealthy, the
/// monitoring tick terminates the decision cycle with
/// `AllCandidatesUnhealthy` and leaves no candidate marked active: the
/// slot ends `Failed`, after a `FailoverStarted` and a `FailoverFailed`
/// event.
pub proof fn lemma_step_all_unhealthy(
    pre: RedundancyManager,
    post: RedundancyManager,
    pre_events: Seq<FailoverEvent>,
    post_events: Seq<FailoverEvent>,
    r: Result<StepOutcome, MonitorError>,
    index: usize,
)
    requires
        pre.wf(),
        pre.spec_state() == (SlotState::Active { index }),
        forall|k: int|
            0 <= k < pre.spec_candidates().len() ==> !pre.spec_candidates()[k].is_healthy(),
        monitor_step_spec(pre, post, pre_events, post_events, r),
    ensures
        r == Err::<StepOutcome, MonitorError>(MonitorError::AllCandidatesUnhealthy),
        post.spec_state() == SlotState::Failed,
        !(post.spec_state() is Active),
        post_events == pre_events.push((FailoverEvent::FailoverStarted { from: index })).push(
            FailoverEvent::FailoverFailed,
        ),
{
    assert(!pre.spec_candidates()[index as int].is_healthy());
    let started = pre_events.push((FailoverEvent::FailoverStarted { from: index }));
    match r {
        Ok(StepOutcome::FailedOver { to }) => {
            lemma_failover_all_unhealthy(pre, post, started, post_events, Ok(to));
        },
        Ok(StepOutcome::ActiveHealthy) => {
            assert(false);
        },
        Err(e) => {
            lemma_failover_all_unhealthy(pre, post, started, post_events, Err(e));
        },
    }
}

/// Law: when every candidate is unhealthy, failover reports
/// `AllCandidatesUnhealthy`, appends one `FailoverFailed` event, and
/// leaves the slot failed — no candidate is left holding the active role.
pub proof fn lemma_failover_all_unhealthy(
    pre: RedundancyManager,
    post: RedundancyManager,
    pre_events: Seq<FailoverEvent>,
    post_events: Seq<FailoverEvent>,
    r: Result<usize, MonitorError>,
)
    requires
        pre.wf(),
        forall|k: int|
            0 <= k < pre.spec_candidates().len() ==> !pre.spec_candidates()[k].is_healthy(),
        failover_spec(pre, post, pre_events, post_events, r),
    ensures
        r == Err::<usize, MonitorError>(MonitorError::AllCandidatesUnhealthy),
        post.spec_state() == SlotState::Failed,
        !(post.spec_state() is Active),
        post_events == pre_events.push(FailoverEvent::FailoverFailed),
{
    match r {
        Ok(j) => {
            assert(!pre.spec_candidates()[j as int].is_healthy());
            assert(false);
        },
        Err(_) => {
        },
    }
}

} // verus!
