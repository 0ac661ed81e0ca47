use harness_runtime::cancellation::SessionCancellation;
use harness_runtime::ids::BackendId;
use harness_runtime::scheduler::backend_limiter::{
    AcquireEvent, AcquireState, BackendLimiters, BackendRateLimits,
};
use harness_runtime::scheduler::config::admission_outcome;
use harness_runtime::scheduler::permits::{cancellable_wait, in_use, GlobalPermits, PermitWait, Pool};
use harness_runtime::scheduler::rate_window::RateWindow;
use harness_runtime::scheduler::{CapacityError, Scheduler, SchedulerConfig};

const SECOND: u64 = 1_000_000_000;

fn at(now: u64) -> AcquireEvent {
    AcquireEvent { cancelled: false, now }
}

fn cancelled(now: u64) -> AcquireEvent {
    AcquireEvent { cancelled: true, now }
}

#[test]
fn the_default_capacities() {
    let config = SchedulerConfig::default();
    assert_eq!(config.max_active_sessions, 64);
    assert_eq!(config.max_active_agents, 256);
    assert_eq!(config.max_agents_per_session, 32);
    assert_eq!(config.max_concurrent_backend_requests, 8);
    assert_eq!(config.max_concurrent_tool_executions, 16);
    assert_eq!(config.max_concurrent_processes, 8);
    assert_eq!(config.admission_timeout, 5 * SECOND);
}

#[test]
fn a_snapshot_counts_the_permits_that_are_taken() {
    let mut config = SchedulerConfig::default();
    config.max_concurrent_tool_executions = 2;
    let scheduler = Scheduler::new(config);
    let permit = scheduler
        .permits
        .semaphore(Pool::Tool)
        .clone()
        .try_acquire_owned()
        .expect("a permit is free");
    let shown: Vec<(String, usize, usize)> = scheduler
        .snapshot()
        .permits
        .iter()
        .map(|p| (p.kind.to_string(), p.capacity, p.in_use))
        .collect();
    assert_eq!(
        shown,
        vec![
            ("session".to_string(), 64, 0),
            ("agent".to_string(), 256, 0),
            ("backend".to_string(), 8, 0),
            ("tool".to_string(), 2, 1),
            ("process".to_string(), 8, 0),
        ]
    );
    drop(permit);
    assert_eq!(scheduler.snapshot().permits[3].in_use, 0);
}

#[test]
fn every_pool_has_its_own_capacity() {
    let config = SchedulerConfig {
        max_active_sessions: 1,
        max_active_agents: 2,
        max_agents_per_session: 9,
        max_concurrent_backend_requests: 3,
        max_concurrent_tool_executions: 4,
        max_concurrent_processes: 5,
        admission_timeout: 7,
    };
    let permits = GlobalPermits::new(config);
    let pools = [Pool::Session, Pool::Agent, Pool::Backend, Pool::Tool, Pool::Process];
    for (i, pool) in pools.into_iter().enumerate() {
        assert_eq!(permits.semaphore(pool).available_permits(), i + 1);
        assert_eq!(permits.kind(pool).capacity, i + 1);
    }
    assert_eq!(permits.admission_timeout(), 7);
}

#[test]
fn permits_in_use_never_fall_below_zero() {
    assert_eq!(in_use(3, 1), 2);
    assert_eq!(in_use(3, 5), 0);
}

#[test]
fn cancellation_wins_a_race_against_a_permit() {
    assert_eq!(cancellable_wait(true, true), PermitWait::Cancelled);
    assert_eq!(cancellable_wait(true, false), PermitWait::Cancelled);
    assert_eq!(cancellable_wait(false, true), PermitWait::Granted);
    assert_eq!(cancellable_wait(false, false), PermitWait::Pending);
}

#[test]
fn a_timed_out_admission_is_typed() {
    assert_eq!(admission_outcome("session", Some(1), 5).ok(), Some(1));
    let error: CapacityError =
        admission_outcome::<u8>("session", None, 5 * SECOND).expect_err("timed out");
    assert_eq!(
        error.message(),
        "at capacity: no session permit became available within 5s"
    );
    let error = CapacityError { kind: "tool", waited: 1_500_000 };
    assert_eq!(
        error.message(),
        "at capacity: no tool permit became available within 1.5ms"
    );
}

#[test]
fn a_window_limits_requests_per_minute() {
    let mut window = RateWindow::new();
    assert!(window.check_and_record(0, 0, Some(2), None));
    assert!(window.check_and_record(SECOND, 0, Some(2), None));
    assert!(!window.check_and_record(2 * SECOND, 0, Some(2), None));
    assert!(!window.check_and_record(60 * SECOND, 0, Some(2), None));
    assert!(window.check_and_record(60 * SECOND + 1, 0, Some(2), None));
    assert!(!window.check_and_record(60 * SECOND + 2, 0, Some(2), None));
}

#[test]
fn a_window_limits_tokens_per_minute() {
    let mut window = RateWindow::new();
    assert!(window.check_and_record(0, 60, None, Some(100)));
    assert!(!window.check_and_record(1, 41, None, Some(100)));
    assert!(window.check_and_record(1, 40, None, Some(100)));
    assert!(!window.check_and_record(2, 1, None, Some(100)));
    assert!(window.check_and_record(2, 0, None, Some(100)));
    assert!(!window.check_and_record(3, u64::MAX, None, Some(100)));
}

#[test]
fn the_largest_token_limit_admits_any_number() {
    let mut window = RateWindow::new();
    assert!(window.check_and_record(0, u64::MAX, None, Some(u64::MAX)));
    assert!(window.check_and_record(1, 0, None, Some(u64::MAX)));
    assert!(!window.check_and_record(1, 0, None, Some(u64::MAX - 1)));
    assert!(window.check_and_record(2, 1, None, Some(u64::MAX)));
}

#[test]
fn a_window_without_limits_admits_everything() {
    let mut window = RateWindow::new();
    for i in 0..100 {
        assert!(window.check_and_record(i, u64::MAX / 200, None, None));
    }
}

#[test]
fn a_refused_request_is_not_recorded() {
    let mut window = RateWindow::new();
    assert!(!window.check_and_record(0, 0, Some(0), None));
    assert!(window.check_and_record(0, 0, Some(1), None));
}

fn one_per_minute() -> BackendRateLimits {
    BackendRateLimits {
        max_concurrent_requests: 1,
        requests_per_minute: Some(1),
        tokens_per_minute: None,
    }
}

#[test]
fn a_backend_without_limits_is_not_throttled() {
    let limiters = BackendLimiters::new();
    let limiter = limiters.begin(BackendId(1));
    assert_eq!(limiter, None);
    assert_eq!(BackendLimiters::initial(limiter), AcquireState::Unthrottled);
}

#[test]
fn a_request_waits_for_the_window_and_for_a_slot() {
    let mut limiters = BackendLimiters::new();
    limiters.configure(BackendId(1), one_per_minute());
    let index = limiters.begin(BackendId(1)).expect("limited");
    let mut first = BackendLimiters::initial(Some(index));
    first = limiters.acquire_step(index, first, at(0));
    assert_eq!(first, AcquireState::Queued);
    first = limiters.acquire_step(index, first, at(1));
    assert_eq!(first, AcquireState::Granted);

    let mut second = BackendLimiters::initial(Some(index));
    second = limiters.acquire_step(index, second, at(2));
    assert_eq!(second, AcquireState::Sleeping);
    second = limiters.acquire_step(index, second, at(3));
    assert_eq!(second, AcquireState::Checking);
    second = limiters.acquire_step(index, second, at(61 * SECOND));
    assert_eq!(second, AcquireState::Queued);
}

#[test]
fn cancellation_wins_a_race_against_a_rate_limit_wait() {
    let mut limiters = BackendLimiters::new();
    limiters.configure(BackendId(1), one_per_minute());
    let index = limiters.begin(BackendId(1)).expect("limited");
    for state in [AcquireState::Checking, AcquireState::Sleeping, AcquireState::Queued] {
        assert_eq!(limiters.acquire_step(index, state, cancelled(0)), AcquireState::Cancelled);
    }
    for state in [AcquireState::Granted, AcquireState::Unthrottled, AcquireState::Cancelled] {
        assert_eq!(limiters.acquire_step(index, state, cancelled(0)), state);
    }
    let fresh = limiters.acquire_step(index, AcquireState::Checking, at(0));
    assert_eq!(fresh, AcquireState::Queued, "a cancelled request leaves no trace in the window");
}

#[test]
fn a_limiter_has_as_many_slots_as_configured() {
    let mut limiters = BackendLimiters::new();
    let mut limits = one_per_minute();
    limits.max_concurrent_requests = 3;
    limiters.configure(BackendId(1), limits);
    let index = limiters.begin(BackendId(1)).expect("limited");
    assert_eq!(limiters.slots(index).available_permits(), 3);
}

#[test]
fn reconfiguring_a_backend_leaves_waiting_requests_alone() {
    let mut scheduler = Scheduler::new(SchedulerConfig::default());
    scheduler.configure_backend_limits(BackendId(1), one_per_minute());
    let before = scheduler.backend_limiters.begin(BackendId(1)).expect("limited");
    let state = scheduler.backend_limiters.acquire_step(before, AcquireState::Checking, at(0));
    assert_eq!(state, AcquireState::Queued);
    scheduler.configure_backend_limits(BackendId(1), one_per_minute());
    let after = scheduler.backend_limiters.begin(BackendId(1)).expect("limited");
    assert_ne!(before, after);
    let old = scheduler.backend_limiters.acquire_step(before, AcquireState::Checking, at(1));
    let new = scheduler.backend_limiters.acquire_step(after, AcquireState::Checking, at(1));
    assert_eq!(old, AcquireState::Sleeping);
    assert_eq!(new, AcquireState::Queued);
}

#[test]
fn a_settled_request_counts_its_tokens() {
    let mut window = RateWindow::new();
    assert!(window.check_and_record(5, 0, None, Some(100)));
    window.settle(5, 100);
    assert!(window.check_and_record(6, 0, None, Some(100)));
    window.settle(6, 1);
    assert!(!window.check_and_record(7, 0, None, Some(100)));
    assert!(!window.check_and_record(60 * SECOND + 5, 0, None, Some(100)));
    assert!(window.check_and_record(60 * SECOND + 6, 0, None, Some(100)));
}

#[test]
fn settling_a_request_that_left_the_window_changes_nothing() {
    let mut window = RateWindow::new();
    assert!(window.check_and_record(0, 0, None, Some(10)));
    assert!(window.check_and_record(61 * SECOND, 0, None, Some(10)));
    window.settle(0, 1000);
    assert!(window.check_and_record(61 * SECOND + 1, 0, None, Some(10)));
}

#[test]
fn settled_tokens_never_overflow() {
    let mut window = RateWindow::new();
    assert!(window.check_and_record(0, 0, None, None));
    assert!(window.check_and_record(1, 0, None, None));
    window.settle(0, u64::MAX);
    window.settle(0, u64::MAX);
    window.settle(1, u64::MAX);
    assert!(!window.check_and_record(2, 0, None, Some(u64::MAX - 1)));
    assert!(window.check_and_record(2, 0, None, Some(u64::MAX)));
}

#[test]
fn a_backend_over_its_token_limit_holds_requests_back() {
    let mut limiters = BackendLimiters::new();
    let limits = BackendRateLimits {
        max_concurrent_requests: 4,
        requests_per_minute: None,
        tokens_per_minute: Some(1000),
    };
    limiters.configure(BackendId(1), limits);
    let index = limiters.begin(BackendId(1)).expect("limited");
    assert_eq!(limiters.acquire_step(index, AcquireState::Checking, at(0)), AcquireState::Queued);
    assert_eq!(limiters.acquire_step(index, AcquireState::Checking, at(1)), AcquireState::Queued);
    limiters.settle(index, 0, 1000);
    assert_eq!(limiters.acquire_step(index, AcquireState::Checking, at(2)), AcquireState::Queued);
    limiters.settle(index, 1, 1);
    let held = limiters.acquire_step(index, AcquireState::Checking, at(3));
    assert_eq!(held, AcquireState::Sleeping);
    assert_eq!(limiters.slots(index).available_permits(), 4, "a waiting request holds no slot");
    assert_eq!(
        limiters.acquire_step(index, AcquireState::Checking, at(61 * SECOND)),
        AcquireState::Queued
    );
}

#[test]
fn every_minute_of_a_history_stays_within_the_limits() {
    let mut window = RateWindow::new();
    let mut admitted: Vec<(u64, u64)> = Vec::new();
    for i in 0..400u64 {
        let (now, tokens) = (i * SECOND, i % 7);
        if window.check_and_record(now, tokens, Some(5), Some(17)) {
            admitted.push((now, tokens));
        }
    }
    assert!(admitted.len() > 20);
    for x in 0..400u64 {
        let minute: Vec<u64> = admitted
            .iter()
            .filter(|e| e.0 + 60 * SECOND >= x * SECOND && e.0 <= x * SECOND)
            .map(|e| e.1)
            .collect();
        assert!(minute.len() <= 5);
        assert!(minute.iter().sum::<u64>() <= 17);
    }
}

fn tool_wait_when(held: bool, cancelled: bool) -> PermitWait {
    let mut config = SchedulerConfig::default();
    config.max_concurrent_tool_executions = 1;
    let scheduler = Scheduler::new(config);
    let slots = scheduler.permits.semaphore(Pool::Tool).clone();
    let permit = if held { slots.clone().try_acquire_owned().ok() } else { None };
    assert_eq!(permit.is_some(), held);
    let mut session = SessionCancellation::new();
    let token = session.child_token();
    if cancelled {
        session.cancel();
    }
    let ready = slots.try_acquire_owned().is_ok();
    cancellable_wait(session.has_cancelled(&token), ready)
}

#[test]
fn scheduler_cancel_wins_race_against_exhausted_tool_permit() {
    assert_eq!(tool_wait_when(true, false), PermitWait::Pending);
    assert_eq!(tool_wait_when(true, true), PermitWait::Cancelled);
}

#[test]
fn cancellation_tests_cancel_wins_race_against_exhausted_tool_permit() {
    assert_eq!(tool_wait_when(true, true), PermitWait::Cancelled);
}

#[test]
fn scheduler_cancellable_acquire_succeeds_when_permit_is_available() {
    assert_eq!(tool_wait_when(false, false), PermitWait::Granted);
}

#[test]
fn cancellation_tests_cancellable_acquire_succeeds_when_permit_is_available() {
    assert_eq!(tool_wait_when(false, false), PermitWait::Granted);
}

fn rate_limit_wait_after_cancellation() -> AcquireState {
    let mut scheduler = Scheduler::new(SchedulerConfig::default());
    scheduler.configure_backend_limits(
        BackendId(7),
        BackendRateLimits {
            max_concurrent_requests: 4,
            requests_per_minute: Some(1),
            tokens_per_minute: None,
        },
    );
    let limiters = &mut scheduler.backend_limiters;
    let index = limiters.begin(BackendId(7)).expect("limited");
    let first = limiters.acquire_step(index, AcquireState::Checking, at(0));
    assert_eq!(first, AcquireState::Queued);
    let waiting = limiters.acquire_step(index, AcquireState::Checking, at(1));
    assert_eq!(waiting, AcquireState::Sleeping);
    limiters.acquire_step(index, waiting, cancelled(50_000_000))
}

#[test]
fn scheduler_cancel_wins_race_against_backend_rate_limit_wait() {
    assert_eq!(rate_limit_wait_after_cancellation(), AcquireState::Cancelled);
}

#[test]
fn cancellation_tests_cancel_wins_race_against_backend_rate_limit_wait() {
    assert_eq!(rate_limit_wait_after_cancellation(), AcquireState::Cancelled);
}

#[test]
fn a_limiter_admits_no_more_requests_a_minute_while_tokens_are_counted() {
    let mut limiters = BackendLimiters::new();
    let limits = BackendRateLimits {
        max_concurrent_requests: 4,
        requests_per_minute: Some(3),
        tokens_per_minute: Some(50),
    };
    limiters.configure(BackendId(1), limits);
    let index = limiters.begin(BackendId(1)).expect("limited");
    let mut admitted: Vec<u64> = Vec::new();
    for i in 0..300u64 {
        let now = i * SECOND;
        let state = limiters.acquire_step(index, AcquireState::Checking, at(now));
        if state == AcquireState::Queued {
            limiters.settle(index, now, i % 40);
            admitted.push(i);
        }
    }
    assert!(admitted.len() >= 8);
    for x in 0..300u64 {
        assert!(admitted.iter().filter(|t| **t + 60 >= x && **t <= x).count() <= 3);
    }
}

#[test]
fn a_snapshot_follows_permits_that_come_and_go() {
    let scheduler = Scheduler::new(SchedulerConfig::default());
    let pools = [Pool::Session, Pool::Agent, Pool::Backend, Pool::Tool, Pool::Process];
    let mut live = Vec::new();
    let mut counts = [0usize; 5];
    for step in 0..40usize {
        let i = (step * 3) % 5;
        if step % 4 == 3 {
            let (dropped, permit) = live.remove(0);
            drop(permit);
            let dropped: usize = dropped;
            counts[dropped] -= 1;
        } else if let Ok(permit) =
            scheduler.permits.semaphore(pools[i]).clone().try_acquire_owned()
        {
            live.push((i, permit));
            counts[i] += 1;
        }
        let shown: Vec<usize> = scheduler.snapshot().permits.iter().map(|p| p.in_use).collect();
        assert_eq!(shown, counts.to_vec());
    }
}
