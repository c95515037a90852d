//! Quorum-slice failover: counting a slice's failures, switching to its
//! backup slice once a threshold is reached (at most so many times a day),
//! manual triggers, recovery, and a bounded log of failover events.
use vstd::prelude::*;

verus! {

/// Health of a slice.
#[derive(Clone, Copy, Debug, PartialEq, Eq, Structural)]
pub enum SliceHealthState {
    Healthy,
    Degraded,
    Failed,
    Recovering,
}

/// How failover is triggered.
#[derive(Clone, Copy, Debug, PartialEq, Eq, Structural)]
pub struct FailoverConfig {
    pub enabled: bool,
    /// Consecutive failures that trigger a failover.
    pub failure_threshold: u32,
    pub detection_window_secs: u64,
    pub failover_delay_secs: u64,
    /// Most failovers of a slice in a day.
    pub max_failovers_per_day: u32,
}

/// A failover from a slice to its backup.
pub struct FailoverEvent {
    pub timestamp: u64,
    pub failed_slice_id: String,
    pub backup_slice_id: String,
    pub reason: String,
    pub successful: bool,
}

/// The failover state of a slice.
pub struct FailoverState {
    pub health_state: SliceHealthState,
    pub consecutive_failures: u32,
    pub last_failure_timestamp: u64,
    pub last_success_timestamp: u64,
    pub backup_slice_id: String,
    pub failover_active: bool,
    pub failovers_today: u32,
}

/// What triggered a failover.
#[derive(Clone, Copy, Debug, PartialEq, Eq, Structural)]
pub enum FailoverTrigger {
    ConsecutiveFailures,
    HealthCheckTimeout,
    ValidatorCrash,
    NetworkPartition,
    ManualTrigger,
}

/// Most events the failover log keeps.
pub const MAX_FAILOVER_EVENTS: usize = 1000;

/// Most timestamps a slice's failover history keeps.
pub const MAX_FAILOVER_TIMESTAMPS: usize = 100;

/// Seconds in a day.
pub const DAY_SECS: u64 = 86_400;

/// Enable automatic failover of a slice to `backup_slice_id` at `now`: an
/// existing state keeps everything but its backup; a new one starts
/// healthy with `now` as its last success.
pub fn enable_automatic_failover(existing: Option<FailoverState>, backup_slice_id: String, now: u64) -> (s: FailoverState)
    ensures
        s.backup_slice_id@ == backup_slice_id@,
        existing is Some ==> {
            let e = existing->0;
            &&& s.health_state == e.health_state
            &&& s.consecutive_failures == e.consecutive_failures
            &&& s.last_failure_timestamp == e.last_failure_timestamp
            &&& s.last_success_timestamp == e.last_success_timestamp
            &&& s.failover_active == e.failover_active
            &&& s.failovers_today == e.failovers_today
        },
        existing is None ==> s.health_state == SliceHealthState::Healthy && s.consecutive_failures == 0
            && s.last_failure_timestamp == 0 && s.last_success_timestamp == now && !s.failover_active && s.failovers_today
            == 0,
{
    match existing {
        Some(e) => FailoverState { backup_slice_id, ..e },
        None => FailoverState {
            health_state: SliceHealthState::Healthy,
            consecutive_failures: 0,
            last_failure_timestamp: 0,
            last_success_timestamp: now,
            backup_slice_id,
            failover_active: false,
            failovers_today: 0,
        },
    }
}

/// What a failure detection decides: whether it failed over, the state to
/// store (none when nothing changes) and the event to log.
pub struct Detection {
    pub failed_over: bool,
    pub state: Option<FailoverState>,
    pub event: Option<FailoverEvent>,
}

/// Record a failure of a slice at `now` and fail over when due. Without a
/// state or an enabled configuration nothing happens. Otherwise the
/// failure is counted and the slice is Degraded; once the count reaches the
/// threshold and fewer than the daily maximum failovers were made, the
/// backup takes over: the slice is Failed, the count restarts and the
/// failover is logged.
pub fn detect_and_failover(
    state: Option<FailoverState>,
    config: Option<FailoverConfig>,
    slice_id: &String,
    now: u64,
) -> (r: Detection)
    requires
        state is Some && config is Some && config->0.enabled ==> state->0.consecutive_failures < u32::MAX,
    ensures
        !(state is Some && config is Some && config->0.enabled) ==> !r.failed_over && r.state is None && r.event is None,
        state is Some && config is Some && config->0.enabled ==> {
            let s = state->0;
            let c = config->0;
            let count = s.consecutive_failures + 1;
            let fire = count >= c.failure_threshold && s.failovers_today < c.max_failovers_per_day;
            &&& r.failed_over == fire
            &&& r.state is Some
            &&& r.state->0.last_failure_timestamp == now
            &&& r.state->0.last_success_timestamp == s.last_success_timestamp
            &&& r.state->0.backup_slice_id@ == s.backup_slice_id@
            &&& fire ==> {
                &&& r.state->0.health_state == SliceHealthState::Failed
                &&& r.state->0.failover_active
                &&& r.state->0.failovers_today == s.failovers_today + 1
                &&& r.state->0.consecutive_failures == 0
                &&& r.event is Some
                &&& r.event->0.timestamp == now
                &&& r.event->0.failed_slice_id@ == slice_id@
                &&& r.event->0.backup_slice_id@ == s.backup_slice_id@
                &&& r.event->0.reason@ == "Consecutive failures exceeded threshold"@
                &&& r.event->0.successful
            }
            &&& !fire ==> {
                &&& r.state->0.health_state == SliceHealthState::Degraded
                &&& r.state->0.failover_active == s.failover_active
                &&& r.state->0.failovers_today == s.failovers_today
                &&& r.state->0.consecutive_failures == count
                &&& r.event is None
            }
        },
{
    let mut s = match state {
        Some(s) => s,
        None => {
            return Detection { failed_over: false, state: None, event: None };
        },
    };
    let c = match config {
        Some(c) => c,
        None => {
            return Detection { failed_over: false, state: None, event: None };
        },
    };
    if !c.enabled {
        return Detection { failed_over: false, state: None, event: None };
    }
    s.consecutive_failures = s.consecutive_failures + 1;
    s.last_failure_timestamp = now;
    s.health_state = SliceHealthState::Degraded;
    if s.consecutive_failures >= c.failure_threshold {
        let today_start = (now / DAY_SECS) * DAY_SECS;
        let failovers_today = if s.last_failure_timestamp < today_start {
            0
        } else {
            s.failovers_today
        };
        if failovers_today < c.max_failovers_per_day {
            s.failover_active = true;
            s.health_state = SliceHealthState::Failed;
            s.failovers_today = failovers_today + 1;
            s.consecutive_failures = 0;
            let event = FailoverEvent {
                timestamp: now,
                failed_slice_id: slice_id.clone(),
                backup_slice_id: s.backup_slice_id.clone(),
                reason: String::from_str("Consecutive failures exceeded threshold"),
                successful: true,
            };
            return Detection { failed_over: true, state: Some(s), event: Some(event) };
        }
    }
    Detection { failed_over: false, state: Some(s), event: None }
}

/// The reason logged for a trigger.
pub open spec fn trigger_reason(t: FailoverTrigger) -> Seq<char> {
    match t {
        FailoverTrigger::ConsecutiveFailures => "Consecutive failures detected"@,
        FailoverTrigger::HealthCheckTimeout => "Health check timeout"@,
        FailoverTrigger::ValidatorCrash => "Validator crash detected"@,
        FailoverTrigger::NetworkPartition => "Network partition detected"@,
        FailoverTrigger::ManualTrigger => "Manual failover triggered"@,
    }
}

fn reason_text(t: FailoverTrigger) -> (s: String)
    ensures
        s@ == trigger_reason(t),
{
    match t {
        FailoverTrigger::ConsecutiveFailures => String::from_str("Consecutive failures detected"),
        FailoverTrigger::HealthCheckTimeout => String::from_str("Health check timeout"),
        FailoverTrigger::ValidatorCrash => String::from_str("Validator crash detected"),
        FailoverTrigger::NetworkPartition => String::from_str("Network partition detected"),
        FailoverTrigger::ManualTrigger => String::from_str("Manual failover triggered"),
    }
}

/// Fail a slice over on `trigger` at `now` unless it already is: it
/// becomes Failed with failover active, one more failover counts today,
/// and the failover is logged with the trigger's reason.
pub fn trigger_failover_condition(state: Option<FailoverState>, slice_id: &String, trigger: FailoverTrigger, now: u64) -> (r:
    Detection)
    requires
        state is Some && !state->0.failover_active ==> state->0.failovers_today < u32::MAX,
    ensures
        !(state is Some && !state->0.failover_active) ==> !r.failed_over && r.state is None && r.event is None,
        state is Some && !state->0.failover_active ==> {
            let s = state->0;
            &&& r.failed_over
            &&& r.state is Some
            &&& r.state->0.health_state == SliceHealthState::Failed
            &&& r.state->0.failover_active
            &&& r.state->0.failovers_today == s.failovers_today + 1
            &&& r.state->0.consecutive_failures == s.consecutive_failures
            &&& r.state->0.last_failure_timestamp == s.last_failure_timestamp
            &&& r.state->0.last_success_timestamp == s.last_success_timestamp
            &&& r.state->0.backup_slice_id@ == s.backup_slice_id@
            &&& r.event is Some
            &&& r.event->0.timestamp == now
            &&& r.event->0.failed_slice_id@ == slice_id@
            &&& r.event->0.backup_slice_id@ == s.backup_slice_id@
            &&& r.event->0.reason@ == trigger_reason(trigger)
            &&& r.event->0.successful
        },
{
    let mut s = match state {
        Some(s) => s,
        None => {
            return Detection { failed_over: false, state: None, event: None };
        },
    };
    if s.failover_active {
        return Detection { failed_over: false, state: None, event: None };
    }
    s.failover_active = true;
    s.health_state = SliceHealthState::Failed;
    s.failovers_today = s.failovers_today + 1;
    let event = FailoverEvent {
        timestamp: now,
        failed_slice_id: slice_id.clone(),
        backup_slice_id: s.backup_slice_id.clone(),
        reason: reason_text(trigger),
        successful: true,
    };
    Detection { failed_over: true, state: Some(s), event: Some(event) }
}

/// Append an event to the log, dropping the oldest once it would hold more
/// than 1000.
pub fn record_failover_event(events: &mut Vec<FailoverEvent>, event: FailoverEvent)
    requires
        old(events)@.len() <= 1000,
    ensures
        old(events)@.len() < 1000 ==> final(events)@ == old(events)@.push(event),
        old(events)@.len() == 1000 ==> final(events)@ == old(events)@.push(event).drop_first(),
        final(events)@.len() <= 1000,
{
    events.push(event);
    if events.len() > MAX_FAILOVER_EVENTS {
        let ghost before = events@;
        events.remove(0);
        assert(events@ =~= before.drop_first());
    }
}

/// Append `now` to a slice's failover timestamps, keeping the last 100.
pub fn track_failover_event(history: &mut Vec<u64>, now: u64)
    requires
        old(history)@.len() <= 100,
    ensures
        old(history)@.len() < 100 ==> final(history)@ == old(history)@.push(now),
        old(history)@.len() == 100 ==> final(history)@ == old(history)@.push(now).drop_first(),
{
    history.push(now);
    if history.len() > MAX_FAILOVER_TIMESTAMPS {
        let ghost before = history@;
        history.remove(0);
        assert(history@ =~= before.drop_first());
    }
}

/// Recover a slice from failover at `now`: an active failover ends, the
/// slice is Recovering with no failures counted and `now` as its last
/// success. `None` when there is nothing to store.
pub fn recover_from_failover(state: Option<FailoverState>, now: u64) -> (r: Option<FailoverState>)
    ensures
        !(state is Some && state->0.failover_active) ==> r is None,
        state is Some && state->0.failover_active ==> r is Some && {
            let s = state->0;
            let n = r->0;
            &&& !n.failover_active
            &&& n.health_state == SliceHealthState::Recovering
            &&& n.consecutive_failures == 0
            &&& n.last_success_timestamp == now
            &&& n.last_failure_timestamp == s.last_failure_timestamp
            &&& n.failovers_today == s.failovers_today
            &&& n.backup_slice_id@ == s.backup_slice_id@
        },
{
    match state {
        Some(s) => {
            if s.failover_active {
                let mut s = s;
                s.failover_active = false;
                s.health_state = SliceHealthState::Recovering;
                s.consecutive_failures = 0;
                s.last_success_timestamp = now;
                Some(s)
            } else {
                None
            }
        },
        None => None,
    }
}

/// Whether a slice is failed over.
pub fn is_slice_in_failover(state: &Option<FailoverState>) -> (b: bool)
    ensures
        b == (state is Some && state->0.failover_active),
{
    match state {
        Some(s) => s.failover_active,
        None => false,
    }
}

fn copy_event(e: &FailoverEvent) -> (r: FailoverEvent)
    ensures
        r == *e,
{
    FailoverEvent {
        timestamp: e.timestamp,
        failed_slice_id: e.failed_slice_id.clone(),
        backup_slice_id: e.backup_slice_id.clone(),
        reason: e.reason.clone(),
        successful: e.successful,
    }
}

/// The logged failovers of `slice_id`, in order.
pub fn get_failover_history(events: &Vec<FailoverEvent>, slice_id: &String) -> (r: Vec<FailoverEvent>)
    ensures
        r@ == events@.filter(|e: FailoverEvent| e.failed_slice_id@ == slice_id@),
{
    let mut out: Vec<FailoverEvent> = Vec::new();
    let mut i: usize = 0;
    while i < events.len()
        invariant
            i <= events@.len(),
            out@ == events@.subrange(0, i as int).filter(|e: FailoverEvent| e.failed_slice_id@ == slice_id@),
        decreases events@.len() - i,
    {
        let ghost prefix = events@.subrange(0, i as int);
        assert(events@.subrange(0, i + 1) == prefix.push(events@[i as int]));
        reveal(Seq::filter);
        assert(events@.subrange(0, i + 1).drop_last() == prefix);
        if events[i].failed_slice_id == *slice_id {
            out.push(copy_event(&events[i]));
        }
        i = i + 1;
    }
    assert(events@.subrange(0, events@.len() as int) == events@);
    out
}

} // verus!
