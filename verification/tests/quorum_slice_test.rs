use quorum_credit::errors::ContractError;
use quorum_credit::quorum_slice_cost_optimization::{
    calculate_slice_cost, optimize_slice_cost, recommend_cost_reductions, track_cost_trend, CostHistoryEntry,
};
use quorum_credit::quorum_slice_failover::{
    detect_and_failover, enable_automatic_failover, is_slice_in_failover, record_failover_event,
    recover_from_failover, trigger_failover_condition, FailoverConfig, FailoverTrigger, SliceHealthState,
};
use quorum_credit::quorum_slice_healing::{
    create_quorum_slice, detect_automatic_failure, enable_slice_self_healing, get_quorum_status,
    initialize_attestor, mark_attestor_failed, replace_failed_attestor, reset_attestor_failures,
};
use quorum_credit::quorum_slice_migration::{implement_slice_migration_protocol, SliceError};
use quorum_credit::quorum_slice_rebalancing::execute_rebalancing;
use quorum_credit::types::Address;

#[test]
fn test_optimization_suggestions_creation() {
    let mut history: Vec<CostHistoryEntry> = Vec::new();
    track_cost_trend(&mut history, "s1".to_string(), 1000, 1);
    let m = track_cost_trend(&mut history, "s1".to_string(), 2000, 2);
    assert_eq!(m.trend_direction, 1);
    assert_eq!(m.cost_change_percentage, 100);
    assert_eq!(m.average_cost, 1500);
    let s = optimize_slice_cost(&m);
    let categories: Vec<&str> = s.suggestions.iter().map(|x| x.category.as_str()).collect();
    assert_eq!(categories, vec!["validator_reduction", "communication_efficiency", "consolidation", "configuration_review"]);
    assert_eq!(s.total_estimated_savings, 200 + 133 + 100 + 80);
    assert_eq!(s.slice_id, "s1");
}

#[test]
fn cost_metrics_default_and_recommendations() {
    let m = calculate_slice_cost(None, "s2".to_string());
    assert_eq!(m.current_cost, 0);
    assert_eq!(recommend_cost_reductions(&m), vec!["Costs are within normal range - monitor for future changes".to_string()]);
    let mut history: Vec<CostHistoryEntry> = Vec::new();
    track_cost_trend(&mut history, "s2".to_string(), 100, 1);
    let m = track_cost_trend(&mut history, "s2".to_string(), 300, 2);
    assert_eq!((m.min_cost, m.max_cost), (100, 300));
    let r = recommend_cost_reductions(&m);
    assert_eq!(r.len(), 2);
    // The history keeps its last 100 entries.
    for t in 0..150u64 {
        track_cost_trend(&mut history, "s2".to_string(), 5, t);
    }
    assert_eq!(history.len(), 100);
}

#[test]
fn test_failover_state() {
    let state = enable_automatic_failover(None, "backup".to_string(), 100);
    assert_eq!(state.health_state, SliceHealthState::Healthy);
    assert!(!is_slice_in_failover(&Some(state)));
    let cfg = FailoverConfig {
        enabled: true,
        failure_threshold: 2,
        detection_window_secs: 60,
        failover_delay_secs: 0,
        max_failovers_per_day: 1,
    };
    let state = enable_automatic_failover(None, "backup".to_string(), 100);
    let first = detect_and_failover(Some(state), Some(cfg), &"main".to_string(), 200);
    assert!(!first.failed_over);
    let s1 = first.state.unwrap();
    assert_eq!(s1.health_state, SliceHealthState::Degraded);
    assert_eq!(s1.consecutive_failures, 1);
    let second = detect_and_failover(Some(s1), Some(cfg), &"main".to_string(), 210);
    assert!(second.failed_over);
    let s2 = second.state.unwrap();
    assert_eq!(s2.health_state, SliceHealthState::Failed);
    assert!(s2.failover_active);
    assert_eq!(s2.failovers_today, 1);
    let event = second.event.unwrap();
    assert_eq!(event.backup_slice_id, "backup");
    assert!(is_slice_in_failover(&Some(s2)));
    let state = enable_automatic_failover(None, "backup".to_string(), 100);
    let recovered = recover_from_failover(Some(state), 300);
    assert!(recovered.is_none());
}

#[test]
fn manual_failover_and_event_log() {
    let state = enable_automatic_failover(None, "b".to_string(), 0);
    let d = trigger_failover_condition(Some(state), &"a".to_string(), FailoverTrigger::ManualTrigger, 5);
    assert!(d.failed_over);
    let s = d.state.unwrap();
    assert_eq!(d.event.as_ref().unwrap().reason, "Manual failover triggered");
    let again = trigger_failover_condition(Some(s), &"a".to_string(), FailoverTrigger::ManualTrigger, 6);
    assert!(!again.failed_over);
    let mut log = Vec::new();
    for _ in 0..1001 {
        let st = enable_automatic_failover(None, "b".to_string(), 0);
        let ev = trigger_failover_condition(Some(st), &"a".to_string(), FailoverTrigger::ValidatorCrash, 1).event.unwrap();
        record_failover_event(&mut log, ev);
    }
    assert_eq!(log.len(), 1000);
    let st = enable_automatic_failover(None, "b".to_string(), 0);
    let d = trigger_failover_condition(Some(st), &"a".to_string(), FailoverTrigger::ValidatorCrash, 1);
    let rec = recover_from_failover(d.state, 9).unwrap();
    assert_eq!(rec.health_state, SliceHealthState::Recovering);
    assert!(!rec.failover_active);
}

#[test]
fn self_healing_replaces_first_failed_validator() {
    let v1 = Address::account(1, 1);
    let v2 = Address::account(2, 2);
    let v3 = Address::account(3, 3);
    assert!(create_quorum_slice(1, vec![v1, v2], 3, 0).is_err());
    let mut slice = create_quorum_slice(1, vec![v1, v2], 2, 0).unwrap();
    assert_eq!(replace_failed_attestor(&mut slice, v1, v3, 10, v3).unwrap_err(), ContractError::SelfHealingDisabled);
    enable_slice_self_healing(&mut slice, 5);
    let ev = replace_failed_attestor(&mut slice, v1, v3, 10, v2).unwrap();
    assert_eq!(slice.validators, vec![v3, v2]);
    assert_eq!(ev.executed_at, 10);
    assert_eq!(slice.failed_count, 1);
    assert_eq!(replace_failed_attestor(&mut slice, v1, v3, 10, v2).unwrap_err(), ContractError::NotFound);
    let mut a = initialize_attestor(v1, 0);
    let b = initialize_attestor(v2, 0);
    for _ in 0..3 {
        mark_attestor_failed(&mut a, 10_000);
    }
    assert!(!a.is_active);
    let det = detect_automatic_failure(&slice, &vec![a, b], 20_000).unwrap();
    assert_eq!(det.failed_attestors, vec![v1]);
    assert!(!det.is_critical);
    assert_eq!(get_quorum_status(&slice, &vec![a, b]), Err(ContractError::InsufficientQuorum));
    reset_attestor_failures(&mut a);
    assert_eq!(get_quorum_status(&slice, &vec![a, b]), Ok(true));
}

#[test]
fn rebalancing_and_migration() {
    assert_eq!(execute_rebalancing(true, 4), 5);
    assert_eq!(execute_rebalancing(false, 4), 4);
    let s = Address::contract(5, 5);
    assert_eq!(implement_slice_migration_protocol(s, None, 0), Ok((s, 1)));
    assert_eq!(implement_slice_migration_protocol(s, Some(false), 0), Err(SliceError::InvalidOperation));
}
