use redundancy::component::Component;
use redundancy::manager::{RedundancyManager, StepOutcome};
use redundancy::policy::{select_candidate, FailoverEvent, MonitorError, SlotState};

#[test]
fn select_candidate_picks_first_healthy() {
    let candidates = vec![
        Component::new("A", false),
        Component::new("B", true),
        Component::new("C", true),
    ];
    assert_eq!(select_candidate(&candidates), Some(1));
}

#[test]
fn select_candidate_tie_break_prefers_lowest_index() {
    let candidates = vec![Component::new("A", true), Component::new("B", true)];
    assert_eq!(select_candidate(&candidates), Some(0));
}

#[test]
fn select_candidate_with_none_healthy() {
    let candidates = vec![Component::new("A", false), Component::new("B", false)];
    assert_eq!(select_candidate(&candidates), None);
    assert_eq!(select_candidate(&vec![]), None);
}

#[test]
fn new_manager_starts_with_primary_active() {
    let m = RedundancyManager::new(
        Component::new("Primary", true),
        Component::new("Backup", true),
        50,
    );
    assert_eq!(m.state(), SlotState::Active { index: 0 });
    assert_eq!(m.check_interval_micros(), 50);
    assert_eq!(m.candidate_count(), 2);
    assert_eq!(m.current_active().unwrap().name().as_str(), "Primary");
}

#[test]
fn empty_candidate_list_is_refused() {
    assert!(RedundancyManager::from_candidates(vec![], 50).is_none());
}

#[test]
fn candidate_list_manager_starts_with_first_active() {
    let m =
        RedundancyManager::from_candidates(vec![Component::new("A", true)], 50).unwrap();
    assert_eq!(m.state(), SlotState::Active { index: 0 });
    assert_eq!(m.current_active().unwrap().name().as_str(), "A");
}

#[test]
fn healthy_active_component_stays_active() {
    let mut m = RedundancyManager::new(
        Component::new("Primary", true),
        Component::new("Backup", true),
        50,
    );
    let mut events: Vec<FailoverEvent> = Vec::new();
    for _ in 0..5 {
        let r = m.monitor_step(&mut events);
        assert_eq!(r, Ok(StepOutcome::ActiveHealthy));
        assert_eq!(m.state(), SlotState::Active { index: 0 });
        assert_eq!(m.current_active().unwrap().name().as_str(), "Primary");
    }
    assert!(events.is_empty());
}

#[test]
fn primary_failure_fails_over_to_backup_within_one_tick() {
    let mut m = RedundancyManager::new(
        Component::new("P", true),
        Component::new("B", true),
        10_000,
    );
    m.set_candidate_health(0, false);

    let mut events: Vec<FailoverEvent> = Vec::new();
    let r = m.monitor_step(&mut events);

    assert_eq!(r, Ok(StepOutcome::FailedOver { to: 1 }));
    assert_eq!(m.state(), SlotState::Active { index: 1 });
    assert_eq!(m.current_active().unwrap().name().as_str(), "B");
    assert_eq!(
        events,
        vec![
            FailoverEvent::FailoverStarted { from: 0 },
            FailoverEvent::FailoverSucceeded { to: 1 },
        ]
    );
    let succeeded: usize = events
        .iter()
        .filter(|e| matches!(e, FailoverEvent::FailoverSucceeded { .. }))
        .count();
    assert_eq!(succeeded, 1);
}

#[test]
fn failover_picks_the_single_healthy_candidate() {
    let mut m = RedundancyManager::from_candidates(
        vec![
            Component::new("A", false),
            Component::new("B", false),
            Component::new("C", true),
        ],
        50,
    )
    .unwrap();

    let mut events: Vec<FailoverEvent> = Vec::new();
    let r = m.monitor_step(&mut events);

    assert_eq!(r, Ok(StepOutcome::FailedOver { to: 2 }));
    assert_eq!(m.current_active().unwrap().name().as_str(), "C");
    assert_eq!(
        events,
        vec![
            FailoverEvent::FailoverStarted { from: 0 },
            FailoverEvent::FailoverSucceeded { to: 2 },
        ]
    );
}

#[test]
fn all_candidates_unhealthy_fails_the_slot() {
    let mut m = RedundancyManager::new(
        Component::new("A", false),
        Component::new("B", false),
        50,
    );
    let mut events: Vec<FailoverEvent> = Vec::new();
    let r = m.monitor_step(&mut events);

    assert_eq!(r, Err(MonitorError::AllCandidatesUnhealthy));
    assert_eq!(m.state(), SlotState::Failed);
    assert!(m.current_active().is_none());
    assert_eq!(
        events,
        vec![FailoverEvent::FailoverStarted { from: 0 }, FailoverEvent::FailoverFailed]
    );
}

#[test]
fn policy_invoked_on_all_unhealthy_candidates() {
    let mut m = RedundancyManager::from_candidates(
        vec![Component::new("A", false), Component::new("B", false)],
        50,
    )
    .unwrap();
    let mut events: Vec<FailoverEvent> = Vec::new();
    let r = m.failover(&mut events);

    assert_eq!(r, Err(MonitorError::AllCandidatesUnhealthy));
    assert_eq!(m.state(), SlotState::Failed);
    assert!(m.current_active().is_none());
    assert_eq!(events, vec![FailoverEvent::FailoverFailed]);
}

#[test]
fn failed_slot_keeps_reporting_the_error() {
    let mut m = RedundancyManager::new(
        Component::new("A", false),
        Component::new("B", false),
        50,
    );
    let mut events: Vec<FailoverEvent> = Vec::new();
    assert!(m.monitor_step(&mut events).is_err());
    let before: usize = events.len();
    let r = m.monitor_step(&mut events);
    assert_eq!(r, Err(MonitorError::AllCandidatesUnhealthy));
    assert_eq!(events.len(), before);
    assert_eq!(m.state(), SlotState::Failed);
}

#[test]
fn activation_retry_knob_is_stored() {
    let m = RedundancyManager::new(
        Component::new("P", true),
        Component::new("B", true),
        50,
    )
    .with_activation_confirm_retries(3);
    assert_eq!(m.state(), SlotState::Active { index: 0 });

    let mut m = m;
    m.set_candidate_health(0, false);
    let mut events: Vec<FailoverEvent> = Vec::new();
    let r = m.monitor_step(&mut events);
    assert_eq!(r, Ok(StepOutcome::FailedOver { to: 1 }));
}

#[test]
fn failover_activates_the_chosen_candidate() {
    let mut m = RedundancyManager::new(
        Component::new("P", false),
        Component::new("B", true),
        50,
    );
    let mut events: Vec<FailoverEvent> = Vec::new();
    let r = m.failover(&mut events);
    assert_eq!(r, Ok(1));
    assert!(m.candidate_at(1).check_health());
    assert_eq!(events, vec![FailoverEvent::FailoverSucceeded { to: 1 }]);
}

#[test]
fn set_candidate_health_touches_only_that_candidate() {
    let mut m = RedundancyManager::new(
        Component::new("P", true),
        Component::new("B", true),
        50,
    );
    m.set_candidate_health(1, false);
    assert!(m.candidate_at(0).check_health());
    assert!(!m.candidate_at(1).check_health());
    assert_eq!(m.candidate_at(1).name().as_str(), "B");
}
