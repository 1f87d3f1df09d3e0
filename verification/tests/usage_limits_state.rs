//! The shared state, its file and its lock, with files in memory.

use cship_usage::fetch_lock::{
    generate_owner_token, lock_file_path_in, lock_is_stale, try_acquire_fetch_lock,
    try_acquire_fetch_lock_in, FetchLock, LockAge, LockStep,
};
use cship_usage::state_file::{
    load_state_from_dir, load_state_or_default, persist_state, persist_state_to_dir,
    state_file_path_in, temp_file_path_in, PersistStep, StateFile,
};
use cship_usage::usage_limits::{FloatBits, UsageFetchOutcome, UsageLimitsData};
use cship_usage::usage_limits_state::{
    apply_fetch_outcome, backoff_secs, displayable_usage, earliest_future_reset,
    effective_interval, fetch_may_be_needed, is_fresh_token_change, outcome_in_range,
    resolve_shared_usage, resolve_step, ResolveAction, ResolveEvent, ResolvePhase, ResolveRun,
    SharedUsageResolution, SharedUsageState,
};

fn default_state_at(now: u64) -> SharedUsageState {
    let mut s = SharedUsageState::default_v2();
    s.next_allowed_at_epoch = now;
    s
}

fn bits(x: f64) -> FloatBits {
    FloatBits { bits: x.to_bits() }
}

#[test]
fn test_fetch_eligible_when_next_allowed_in_past() {
    let now = 2_000_000;
    let mut state = default_state_at(now);
    state.next_allowed_at_epoch = now - 1;
    assert!(fetch_may_be_needed(&state, "fp-1", now));
}

#[test]
fn test_fetch_not_eligible_before_next_allowed() {
    let now = 2_000_000;
    let mut state = default_state_at(now);
    state.next_allowed_at_epoch = now + 100;
    assert!(!fetch_may_be_needed(&state, "fp-1", now));
}

#[test]
fn test_fetch_not_eligible_during_rate_limit_cooldown() {
    let now = 2_000_000;
    let mut state = default_state_at(now);
    state.next_allowed_at_epoch = now - 1;
    state.rate_limit_until_epoch = now + 500;
    assert!(!fetch_may_be_needed(&state, "fp-1", now));
}

#[test]
fn test_fetch_not_eligible_when_token_is_failed_fingerprint() {
    let now = 2_000_000;
    let mut state = default_state_at(now);
    state.next_allowed_at_epoch = now - 1;
    state.failed_token_fingerprint = Some("fp-1".to_string());
    assert!(!fetch_may_be_needed(&state, "fp-1", now));
}

#[test]
fn test_fetch_eligible_when_failed_fingerprint_is_a_different_token() {
    let now = 2_000_000;
    let mut state = default_state_at(now);
    state.next_allowed_at_epoch = now - 1;
    state.failed_token_fingerprint = Some("fp-old".to_string());
    assert!(fetch_may_be_needed(&state, "fp-new", now));
}

#[test]
fn fetch_is_eligible_from_the_very_second_on() {
    let mut state = default_state_at(100);
    state.rate_limit_until_epoch = 100;
    assert!(!fetch_may_be_needed(&state, "fp-1", 99));
    assert!(fetch_may_be_needed(&state, "fp-1", 100));
}

#[test]
fn test_apply_success_outcome_clears_backoff_and_sets_next_allowed() {
    let now = 2_000_000;
    let mut state = default_state_at(now);
    state.consecutive_errors = 3;
    state.rate_limit_until_epoch = now + 900;
    let data = UsageLimitsData::default();
    apply_fetch_outcome(&mut state, UsageFetchOutcome::Success(data), now, 180, "fp-1");
    assert_eq!(state.consecutive_errors, 0);
    assert_eq!(state.rate_limit_until_epoch, 0);
    assert_eq!(state.next_allowed_at_epoch, now + 180);
    assert!(state.usage.is_some());
}

#[test]
fn test_apply_rate_limited_outcome_honors_retry_after_within_bounds() {
    let now = 2_000_000;
    let mut state = default_state_at(now);
    apply_fetch_outcome(
        &mut state,
        UsageFetchOutcome::RateLimited { retry_after_seconds: Some(400) },
        now,
        180,
        "fp-1",
    );
    assert_eq!(state.rate_limit_until_epoch, now + 400);
    assert_eq!(state.next_allowed_at_epoch, now + 400);
}

#[test]
fn test_apply_rate_limited_outcome_clamps_retry_after_below_interval_up_to_interval() {
    let now = 2_000_000;
    let mut state = default_state_at(now);
    apply_fetch_outcome(
        &mut state,
        UsageFetchOutcome::RateLimited { retry_after_seconds: Some(30) },
        now,
        180,
        "fp-1",
    );
    assert_eq!(state.rate_limit_until_epoch, now + 180);
}

#[test]
fn test_apply_rate_limited_outcome_caps_retry_after_at_900() {
    let now = 2_000_000;
    let mut state = default_state_at(now);
    apply_fetch_outcome(
        &mut state,
        UsageFetchOutcome::RateLimited { retry_after_seconds: Some(5000) },
        now,
        180,
        "fp-1",
    );
    assert_eq!(state.rate_limit_until_epoch, now + 900);
}

#[test]
fn test_apply_rate_limited_outcome_missing_retry_after_uses_exponential_backoff() {
    let now = 2_000_000;
    let mut state = default_state_at(now);
    state.consecutive_errors = 2;
    apply_fetch_outcome(
        &mut state,
        UsageFetchOutcome::RateLimited { retry_after_seconds: None },
        now,
        180,
        "fp-1",
    );
    assert_eq!(state.rate_limit_until_epoch, now + 720);
}

#[test]
fn test_apply_network_error_keeps_previous_snapshot_and_retries_in_30s() {
    let now = 2_000_000;
    let mut state = default_state_at(now);
    state.usage = Some(UsageLimitsData { five_hour_pct: bits(42.0), ..Default::default() });
    apply_fetch_outcome(&mut state, UsageFetchOutcome::NetworkError, now, 180, "fp-1");
    assert_eq!(state.usage.as_ref().unwrap().five_hour_pct, bits(42.0));
    assert_eq!(state.next_allowed_at_epoch, now + 30);
}

#[test]
fn test_apply_unauthorized_outcome_sets_failed_token_fingerprint() {
    let now = 2_000_000;
    let mut state = default_state_at(now);
    state.token_fingerprint = Some("fp-current".to_string());
    apply_fetch_outcome(&mut state, UsageFetchOutcome::Unauthorized, now, 180, "fp-current");
    assert_eq!(state.failed_token_fingerprint, Some("fp-current".to_string()));
}

#[test]
fn test_apply_unauthorized_outcome_blames_attempted_fingerprint_not_stale_previous() {
    let now = 2_000_000;
    let mut state = default_state_at(now);
    state.token_fingerprint = Some("fp-old-stale".to_string());
    apply_fetch_outcome(&mut state, UsageFetchOutcome::Unauthorized, now, 180, "fp-new-attempted");
    assert_eq!(state.failed_token_fingerprint, Some("fp-new-attempted".to_string()));
    assert_ne!(state.failed_token_fingerprint, state.token_fingerprint);
}

#[test]
fn server_errors_back_off_from_30_to_300_seconds() {
    let now = 2_000_000;
    let mut state = default_state_at(now);
    for wait in [30, 60, 120, 240, 300, 300] {
        apply_fetch_outcome(
            &mut state,
            UsageFetchOutcome::ServerError { status: 503 },
            now,
            180,
            "fp-1",
        );
        assert_eq!(state.next_allowed_at_epoch, now + wait);
        assert_eq!(state.rate_limit_until_epoch, 0);
    }
    assert_eq!(state.consecutive_errors, 6);
}

#[test]
fn invalid_answers_are_retried_in_30_seconds() {
    let now = 2_000_000;
    let mut state = default_state_at(now);
    state.consecutive_errors = u32::MAX;
    apply_fetch_outcome(&mut state, UsageFetchOutcome::InvalidResponse, now, 180, "fp-1");
    assert_eq!(state.next_allowed_at_epoch, now + 30);
    assert_eq!(state.consecutive_errors, u32::MAX);
}

#[test]
fn refusals_leave_the_error_count_alone() {
    let now = 2_000_000;
    let mut state = default_state_at(now);
    state.consecutive_errors = 4;
    apply_fetch_outcome(&mut state, UsageFetchOutcome::Unauthorized, now, 180, "fp-1");
    assert_eq!(state.consecutive_errors, 4);
    assert_eq!(state.next_allowed_at_epoch, now + 30);
}

fn resets(five_hour: &str, seven_day: &str) -> UsageLimitsData {
    UsageLimitsData {
        five_hour_resets_at: five_hour.to_string(),
        seven_day_resets_at: seven_day.to_string(),
        ..Default::default()
    }
}

#[test]
fn next_fetch_waits_for_a_reset_within_two_intervals() {
    let now = 946_684_800; // 2000-01-01T00:00:00Z
    let next = |data: UsageLimitsData| {
        let mut state = default_state_at(now);
        apply_fetch_outcome(&mut state, UsageFetchOutcome::Success(data), now, 180, "fp-1");
        state.next_allowed_at_epoch - now
    };
    assert_eq!(next(resets("2000-01-01T00:02:00Z", "")), 180);
    assert_eq!(next(resets("2000-01-01T00:02:55Z", "")), 180);
    assert_eq!(next(resets("2000-01-01T00:02:56Z", "")), 181);
    assert_eq!(next(resets("2000-01-01T00:04:00Z", "")), 245);
    assert_eq!(next(resets("2000-01-01T00:05:54Z", "")), 359);
    assert_eq!(next(resets("2000-01-01T00:05:55Z", "")), 180);
    assert_eq!(next(resets("1999-12-31T23:59:59Z", "2000-01-01T00:04:00Z")), 245);
    assert_eq!(next(resets("2000-01-01T00:05:00Z", "2000-01-01T00:04:00Z")), 245);
    assert_eq!(next(resets("2000-01-01T00:01:00Z", "2000-01-01T00:04:00Z")), 180);
}

#[test]
fn earliest_reset_is_behind_now() {
    let now = 946_684_800;
    assert_eq!(earliest_future_reset(&resets("", ""), now), None);
    assert_eq!(earliest_future_reset(&resets("2000-01-01T00:00:00Z", "x"), now), None);
    assert_eq!(
        earliest_future_reset(&resets("2000-01-01T00:00:02Z", "2000-01-01T00:00:01Z"), now),
        Some(now + 1)
    );
    assert_eq!(
        earliest_future_reset(&resets("2000-01-01T00:00:02Z", "2000-01-01T00:00:03Z"), now),
        Some(now + 2)
    );
    assert_eq!(earliest_future_reset(&resets("x", "2000-01-01T00:00:03Z"), now), Some(now + 3));
    assert_eq!(earliest_future_reset(&resets("x", "1999-01-01T00:00:03Z"), now), None);
    assert_eq!(
        earliest_future_reset(&resets("1999-01-01T00:00:03Z", "1999-01-01T00:00:03Z"), now),
        None
    );
}

#[test]
fn outcomes_beyond_the_range_are_told_apart() {
    let state = SharedUsageState::default_v2();
    let success = || UsageFetchOutcome::Success(UsageLimitsData::default());
    assert!(outcome_in_range(&state, &success(), u64::MAX - 180, 180));
    assert!(!outcome_in_range(&state, &success(), u64::MAX - 179, 180));
    assert!(!outcome_in_range(&state, &success(), 2_000_000, u64::MAX));
    let with_reset = UsageFetchOutcome::Success(resets("2099-01-01T00:00:00Z", ""));
    assert!(outcome_in_range(&state, &with_reset, 1, (u64::MAX - 1) / 2));
    assert!(!outcome_in_range(&state, &with_reset, 1, (u64::MAX - 1) / 2 + 1));
    for outcome in [
        UsageFetchOutcome::Unauthorized,
        UsageFetchOutcome::NetworkError,
        UsageFetchOutcome::InvalidResponse,
        UsageFetchOutcome::ServerError { status: 500 },
    ] {
        assert!(outcome_in_range(&state, &outcome, u64::MAX - 30, u64::MAX));
        assert!(!outcome_in_range(&state, &outcome, u64::MAX - 29, 180));
    }
    let limited = UsageFetchOutcome::RateLimited { retry_after_seconds: Some(5000) };
    assert!(outcome_in_range(&state, &limited, u64::MAX - 900, u64::MAX));
    assert!(!outcome_in_range(&state, &limited, u64::MAX - 899, 180));
}

#[test]
fn test_is_fresh_token_change_true_for_never_seen_fingerprint() {
    let state = SharedUsageState::default_v2();
    assert!(is_fresh_token_change(&state, "fp-new"));
}

#[test]
fn test_is_fresh_token_change_false_once_committed() {
    let mut state = SharedUsageState::default_v2();
    state.token_fingerprint = Some("fp-new".to_string());
    assert!(!is_fresh_token_change(&state, "fp-new"));
}

#[test]
fn test_is_fresh_token_change_false_after_probe_already_spent() {
    let mut state = SharedUsageState::default_v2();
    state.token_fingerprint = Some("fp-old".to_string());
    state.token_change_probe_fingerprint = Some("fp-new".to_string());
    assert!(!is_fresh_token_change(&state, "fp-new"));
}

#[test]
fn test_is_fresh_token_change_true_for_different_fingerprint_than_spent_probe() {
    let mut state = SharedUsageState::default_v2();
    state.token_fingerprint = Some("fp-old".to_string());
    state.token_change_probe_fingerprint = Some("fp-some-other-new".to_string());
    assert!(is_fresh_token_change(&state, "fp-new"));
}

#[test]
fn test_second_render_for_same_failing_new_fingerprint_does_not_bypass_again() {
    let now = 2_000_000;
    let new_fingerprint = "fp-new-token";
    let mut state = SharedUsageState::default_v2();
    state.token_fingerprint = Some("fp-old-token".to_string());
    state.next_allowed_at_epoch = now + 9_999;

    let fresh = is_fresh_token_change(&state, new_fingerprint);
    assert!(fresh, "first render for a new fingerprint must be fresh");
    state.failed_token_fingerprint = None;
    state.next_allowed_at_epoch = now;

    apply_fetch_outcome(
        &mut state,
        UsageFetchOutcome::RateLimited { retry_after_seconds: Some(400) },
        now,
        180,
        new_fingerprint,
    );
    state.token_change_probe_fingerprint = Some(new_fingerprint.to_string());

    assert_eq!(state.rate_limit_until_epoch, now + 400);
    assert_ne!(
        state.token_fingerprint.as_deref(),
        Some(new_fingerprint),
        "failure must never commit the new fingerprint"
    );

    let now2 = now + 10;
    let fresh2 = is_fresh_token_change(&state, new_fingerprint);
    assert!(!fresh2, "second render for the same fingerprint must not bypass again");
    assert!(
        !fetch_may_be_needed(&state, new_fingerprint, now2),
        "second render must respect the recorded rate-limit backoff"
    );

    let now3 = now + 401;
    assert!(!is_fresh_token_change(&state, new_fingerprint));
    assert!(fetch_may_be_needed(&state, new_fingerprint, now3));
}

#[test]
fn test_second_render_after_unauthorized_probe_stays_suppressed() {
    let now = 2_000_000;
    let new_fingerprint = "fp-new-token";
    let mut state = SharedUsageState::default_v2();
    state.token_fingerprint = Some("fp-old-token".to_string());

    assert!(is_fresh_token_change(&state, new_fingerprint));
    state.failed_token_fingerprint = None;
    state.next_allowed_at_epoch = now;

    apply_fetch_outcome(&mut state, UsageFetchOutcome::Unauthorized, now, 180, new_fingerprint);
    state.token_change_probe_fingerprint = Some(new_fingerprint.to_string());

    assert_eq!(state.failed_token_fingerprint, Some(new_fingerprint.to_string()));

    let now2 = now + 10_000;
    assert!(!is_fresh_token_change(&state, new_fingerprint));
    assert!(
        !fetch_may_be_needed(&state, new_fingerprint, now2),
        "a token blamed via failed_token_fingerprint stays suppressed \
         like any ordinary 401'd token, even much later"
    );
}

#[test]
fn test_success_after_fresh_token_change_clears_probe_marker() {
    let now = 2_000_000;
    let new_fingerprint = "fp-new-token";
    let mut state = SharedUsageState::default_v2();
    state.token_fingerprint = Some("fp-old-token".to_string());

    assert!(is_fresh_token_change(&state, new_fingerprint));
    state.failed_token_fingerprint = None;
    state.next_allowed_at_epoch = now;

    let data = UsageLimitsData::default();
    apply_fetch_outcome(
        &mut state,
        UsageFetchOutcome::Success(data),
        now,
        180,
        new_fingerprint,
    );
    state.token_fingerprint = Some(new_fingerprint.to_string());
    state.token_change_probe_fingerprint = None;

    assert!(!is_fresh_token_change(&state, new_fingerprint));
    assert_eq!(state.token_change_probe_fingerprint, None);
}

#[test]
fn test_fresh_token_change_clears_inherited_rate_limit_on_transient_failure() {
    let now = 2_000_000;
    let new_fingerprint = "fp-new-token";
    let mut state = SharedUsageState::default_v2();
    state.token_fingerprint = Some("fp-old-token".to_string());
    state.rate_limit_until_epoch = now + 900;
    state.consecutive_errors = 3;

    assert!(is_fresh_token_change(&state, new_fingerprint));
    state.failed_token_fingerprint = None;
    state.next_allowed_at_epoch = now;
    state.rate_limit_until_epoch = 0;
    state.consecutive_errors = 0;

    apply_fetch_outcome(&mut state, UsageFetchOutcome::NetworkError, now, 60, new_fingerprint);
    state.token_change_probe_fingerprint = Some(new_fingerprint.to_string());

    assert_eq!(
        state.rate_limit_until_epoch, 0,
        "the old token's rate-limit cooldown must not survive the switch"
    );
    assert!(
        fetch_may_be_needed(&state, new_fingerprint, now + 60),
        "the new fingerprint must be eligible again once its own transient \
         backoff elapses, not blocked by the old token's cooldown"
    );
}

#[test]
fn test_backoff_secs_doubles_per_error_and_caps() {
    assert_eq!(backoff_secs(180, 1, 900), 180);
    assert_eq!(backoff_secs(180, 2, 900), 360);
    assert_eq!(backoff_secs(180, 3, 900), 720);
    assert_eq!(backoff_secs(180, 4, 900), 900);
}

#[test]
fn backoff_doubles_until_the_cap() {
    assert_eq!(backoff_secs(1, 0, u64::MAX), 1);
    assert_eq!(backoff_secs(1, 11, u64::MAX), 1024);
    assert_eq!(backoff_secs(1, 12, 5000), 2048);
    assert_eq!(backoff_secs(1, 13, 5000), 4096);
    assert_eq!(backoff_secs(1, 14, 5000), 5000);
    assert_eq!(backoff_secs(1, 64, u64::MAX), 1 << 63);
    assert_eq!(backoff_secs(1, 65, u64::MAX), u64::MAX);
    assert_eq!(backoff_secs(1, u32::MAX, u64::MAX), u64::MAX);
    assert_eq!(backoff_secs(3, u32::MAX, 900), 900);
    assert_eq!(backoff_secs(0, u32::MAX, 900), 0);
    assert_eq!(backoff_secs(180, u32::MAX, 0), 0);
    assert_eq!(backoff_secs(u64::MAX, 2, u64::MAX), u64::MAX);
    assert_eq!(backoff_secs(u64::MAX, 2, 900), 900);
}

#[test]
fn interval_is_never_below_the_minimum() {
    assert_eq!(effective_interval(None), 180);
    assert_eq!(effective_interval(Some(0)), 180);
    assert_eq!(effective_interval(Some(179)), 180);
    assert_eq!(effective_interval(Some(181)), 181);
}

#[test]
fn usage_is_shown_to_its_own_token_only() {
    let mut state = SharedUsageState::default_v2();
    state.usage = Some(UsageLimitsData { five_hour_pct: bits(42.0), ..Default::default() });
    assert!(displayable_usage(&state, "fp-1").is_none());
    state.token_fingerprint = Some("fp-1".to_string());
    assert_eq!(displayable_usage(&state, "fp-1").unwrap().five_hour_pct, bits(42.0));
    assert!(displayable_usage(&state, "fp-2").is_none());
}

// ---------------------------------------------------------------------------
// Runs
// ---------------------------------------------------------------------------

#[test]
fn test_resolve_shared_usage_no_token_returns_no_usage() {
    let (_, action) = resolve_shared_usage(None, None, 1_000_000);
    match action {
        ResolveAction::Finish(resolution) => assert!(resolution.usage.is_none()),
        other => panic!("expected Finish, got {other:?}"),
    }
}

/// A run over a state in memory. Returns what is shown, and how many fetches
/// were made.
fn run(
    disk: &mut SharedUsageState,
    fingerprint: &str,
    now: u64,
    lock_is_free: bool,
    answer: fn() -> UsageFetchOutcome,
) -> (SharedUsageResolution, u32) {
    let mut fetches = 0;
    let (mut run, mut action) = resolve_shared_usage(Some(fingerprint), None, now);
    loop {
        let event = match action {
            ResolveAction::LoadState => ResolveEvent::StateLoaded(disk.clone()),
            ResolveAction::AcquireLock if lock_is_free => ResolveEvent::LockAcquired,
            ResolveAction::AcquireLock => ResolveEvent::LockUnavailable,
            ResolveAction::Fetch => {
                fetches += 1;
                ResolveEvent::Fetched(answer())
            }
            ResolveAction::Persist(state) => {
                *disk = state;
                ResolveEvent::Persisted
            }
            ResolveAction::Finish(resolution) => return (resolution, fetches),
        };
        let next = resolve_step(run, event);
        run = next.0;
        action = next.1;
    }
}

fn success() -> UsageFetchOutcome {
    UsageFetchOutcome::Success(UsageLimitsData {
        five_hour_pct: bits(42.0),
        ..Default::default()
    })
}

fn network_error() -> UsageFetchOutcome {
    UsageFetchOutcome::NetworkError
}

fn unauthorized() -> UsageFetchOutcome {
    UsageFetchOutcome::Unauthorized
}

fn rate_limited() -> UsageFetchOutcome {
    UsageFetchOutcome::RateLimited { retry_after_seconds: Some(400) }
}

fn unasked() -> UsageFetchOutcome {
    panic!("nothing should be fetched")
}

#[test]
fn first_run_fetches_and_later_runs_share() {
    let now = 2_000_000;
    let mut disk = SharedUsageState::default_v2();
    let (shown, fetches) = run(&mut disk, "fp-1", now, true, success);
    assert_eq!(fetches, 1);
    assert_eq!(shown.usage.unwrap().five_hour_pct, bits(42.0));
    assert_eq!(disk.token_fingerprint.as_deref(), Some("fp-1"));
    assert_eq!(disk.next_allowed_at_epoch, now + 180);
    for later in [0, 1, 179] {
        let (shown, fetches) = run(&mut disk, "fp-1", now + later, true, unasked);
        assert_eq!(fetches, 0);
        assert_eq!(shown.usage.unwrap().five_hour_pct, bits(42.0));
    }
    assert_eq!(run(&mut disk, "fp-1", now + 180, true, network_error).1, 1);
    assert_eq!(disk.usage.as_ref().unwrap().five_hour_pct, bits(42.0));
}

#[test]
fn run_without_the_lock_shows_what_it_read() {
    let now = 2_000_000;
    let mut disk = SharedUsageState::default_v2();
    assert!(run(&mut disk, "fp-1", now, false, unasked).0.usage.is_none());
    run(&mut disk, "fp-1", now, true, success);
    let (shown, fetches) = run(&mut disk, "fp-1", now + 500, false, unasked);
    assert_eq!(fetches, 0);
    assert_eq!(shown.usage.unwrap().five_hour_pct, bits(42.0));
}

#[test]
fn run_that_finds_the_state_refreshed_does_not_fetch() {
    let now = 2_000_000;
    let mut fresh = SharedUsageState::default_v2();
    run(&mut fresh, "fp-1", now, true, success);
    let (first, action) = resolve_shared_usage(Some("fp-1"), Some(60), now);
    assert_eq!(first.api_interval, 180);
    assert!(matches!(action, ResolveAction::LoadState));
    let (second, action) =
        resolve_step(first, ResolveEvent::StateLoaded(SharedUsageState::default_v2()));
    assert!(matches!(action, ResolveAction::AcquireLock));
    let (third, action) = resolve_step(second, ResolveEvent::LockAcquired);
    assert!(matches!(action, ResolveAction::LoadState));
    let (last, action): (ResolveRun, ResolveAction) =
        resolve_step(third, ResolveEvent::StateLoaded(fresh));
    assert!(matches!(last.phase, ResolvePhase::Done));
    match action {
        ResolveAction::Finish(shown) => assert_eq!(shown.usage.unwrap().five_hour_pct, bits(42.0)),
        other => panic!("expected Finish, got {other:?}"),
    }
}

#[test]
fn new_token_is_probed_once() {
    let now = 2_000_000;
    let mut disk = SharedUsageState::default_v2();
    run(&mut disk, "fp-old", now, true, success);
    disk.rate_limit_until_epoch = now + 900;
    disk.consecutive_errors = 3;
    let (shown, fetches) = run(&mut disk, "fp-new", now + 1, true, network_error);
    assert_eq!(fetches, 1);
    assert!(shown.usage.is_none());
    assert_eq!(disk.token_fingerprint.as_deref(), Some("fp-old"));
    assert_eq!(disk.token_change_probe_fingerprint.as_deref(), Some("fp-new"));
    assert_eq!(disk.rate_limit_until_epoch, 0);
    assert_eq!(disk.consecutive_errors, 1);
    assert_eq!(run(&mut disk, "fp-new", now + 30, true, unasked).1, 0);
    assert_eq!(run(&mut disk, "fp-new", now + 31, true, success).1, 1);
    assert_eq!(disk.token_fingerprint.as_deref(), Some("fp-new"));
    assert_eq!(disk.token_change_probe_fingerprint, None);
}

#[test]
fn known_tokens_share_one_schedule() {
    let now = 2_000_000;
    let mut disk = SharedUsageState::default_v2();
    assert_eq!(run(&mut disk, "fp-1", now, true, success).1, 1);
    assert_eq!(run(&mut disk, "fp-2", now + 1, true, network_error).1, 1);
    for token in ["fp-1", "fp-2"] {
        assert_eq!(run(&mut disk, token, now + 30, true, unasked).1, 0);
    }
    assert_eq!(run(&mut disk, "fp-1", now + 31, true, network_error).1, 1);
    for token in ["fp-1", "fp-2"] {
        assert_eq!(run(&mut disk, token, now + 60, true, unasked).1, 0);
    }
    assert_eq!(run(&mut disk, "fp-2", now + 61, true, rate_limited).1, 1);
    for token in ["fp-1", "fp-2"] {
        assert_eq!(run(&mut disk, token, now + 460, true, unasked).1, 0);
    }
    assert_eq!(run(&mut disk, "fp-1", now + 461, true, success).1, 1);
}

#[test]
fn refused_token_is_never_tried_again() {
    let now = 2_000_000;
    let mut disk = SharedUsageState::default_v2();
    assert_eq!(run(&mut disk, "fp-1", now, true, unauthorized).1, 1);
    assert_eq!(run(&mut disk, "fp-1", now + 1_000_000, true, unasked).1, 0);
    assert_eq!(run(&mut disk, "fp-2", now + 1_000_000, true, success).1, 1);
    assert_eq!(disk.failed_token_fingerprint, None);
}

#[test]
fn rate_limit_is_respected_by_every_run() {
    let now = 2_000_000;
    let mut disk = SharedUsageState::default_v2();
    assert_eq!(run(&mut disk, "fp-1", now, true, rate_limited).1, 1);
    assert_eq!(run(&mut disk, "fp-1", now + 399, true, unasked).1, 0);
    assert_eq!(run(&mut disk, "fp-1", now + 400, true, success).1, 1);
}

#[test]
fn many_runs_poll_rarely_and_keep_the_state_sound() {
    let mut disk = SharedUsageState::default_v2();
    let mut fetched_at: Vec<(u64, u64)> = Vec::new();
    for now in 2_000_000..2_003_000u64 {
        let answer: (fn() -> UsageFetchOutcome, u64) = match fetched_at.len() % 3 {
            0 => (success, 180),
            1 => (network_error, 30),
            _ => (rate_limited, 400),
        };
        if run(&mut disk, "fp-1", now, true, answer.0).1 == 1 {
            if let Some((at, wait)) = fetched_at.last() {
                assert_eq!(now, at + wait);
            }
            fetched_at.push((now, answer.1));
        }
        assert_eq!(disk.schema_version, 2);
        assert_eq!(disk.usage.is_some(), disk.token_fingerprint.is_some());
        assert!(disk.rate_limit_until_epoch <= disk.next_allowed_at_epoch);
    }
    assert_eq!(fetched_at.len(), 15);
}

#[test]
fn run_asks_for_everything_once_and_in_order() {
    let (first, load) = resolve_shared_usage(Some("fp-1"), None, 2_000_000);
    assert!(matches!(load, ResolveAction::LoadState));
    let (second, lock) =
        resolve_step(first, ResolveEvent::StateLoaded(SharedUsageState::default_v2()));
    assert!(matches!(lock, ResolveAction::AcquireLock));
    let (third, reload) = resolve_step(second, ResolveEvent::LockAcquired);
    assert!(matches!(reload, ResolveAction::LoadState));
    let (fourth, fetch) =
        resolve_step(third, ResolveEvent::StateLoaded(SharedUsageState::default_v2()));
    assert!(matches!(fetch, ResolveAction::Fetch));
    let (fifth, persist) = resolve_step(fourth, ResolveEvent::Fetched(success()));
    assert!(matches!(persist, ResolveAction::Persist(_)));
    let (last, finish) = resolve_step(fifth, ResolveEvent::Persisted);
    assert!(matches!(last.phase, ResolvePhase::Done));
    match finish {
        ResolveAction::Finish(shown) => assert_eq!(shown.usage.unwrap().five_hour_pct, bits(42.0)),
        other => panic!("expected Finish, got {other:?}"),
    }
}

// ---------------------------------------------------------------------------
// The state file
// ---------------------------------------------------------------------------

#[test]
fn test_load_state_or_default_when_file_missing_returns_schema_v2_default() {
    let state = load_state_from_dir(StateFile::Unreadable);
    assert_eq!(state.schema_version, 2);
    assert!(state.usage.is_none());
    assert_eq!(state.next_allowed_at_epoch, 0);
}

#[test]
fn test_load_state_or_default_when_json_invalid_returns_default() {
    let state = load_state_from_dir(StateFile::InvalidJson);
    assert_eq!(state.schema_version, 2);
    assert!(state.usage.is_none());
}

#[test]
fn test_load_state_or_default_when_schema_version_unknown_returns_default() {
    let mut unknown = SharedUsageState::default_v2();
    unknown.schema_version = 99;
    unknown.next_allowed_at_epoch = 7;
    let state = load_state_from_dir(StateFile::Parsed(unknown));
    assert_eq!(state.schema_version, 2);
    assert!(state.usage.is_none());
    assert_eq!(state.next_allowed_at_epoch, 0);
}

#[test]
fn no_cache_directory_means_a_fresh_state_and_no_write() {
    let state = load_state_or_default(None);
    assert_eq!(state.schema_version, 2);
    assert_eq!(state.next_allowed_at_epoch, 0);
    assert_eq!(persist_state(false), PersistStep::Done);
    assert_eq!(try_acquire_fetch_lock(false), LockStep::Unavailable);
}

/// A directory in memory: the state file, and the temporary file.
struct Dir {
    target: Option<SharedUsageState>,
    temp: Option<SharedUsageState>,
    steps: Vec<PersistStep>,
}

impl Dir {
    fn new() -> Dir {
        Dir { target: None, temp: None, steps: Vec::new() }
    }

    /// Writes a state; the steps named fail.
    fn persist(&mut self, state: &SharedUsageState, failing: &[PersistStep]) {
        let mut step = persist_state(true);
        while step != PersistStep::Done {
            self.steps.push(step);
            let succeeded = !failing.contains(&step);
            match step {
                PersistStep::WriteTemp => self.temp = Some(state.clone()),
                PersistStep::Replace if succeeded => self.target = self.temp.take(),
                PersistStep::DiscardPartial | PersistStep::DiscardUnmoved => self.temp = None,
                _ => {}
            }
            step = persist_state_to_dir(step, succeeded);
        }
    }

    fn load(&self) -> SharedUsageState {
        load_state_or_default(Some(match &self.target {
            Some(state) => StateFile::Parsed(state.clone()),
            None => StateFile::Unreadable,
        }))
    }
}

#[test]
fn test_persist_then_load_round_trips() {
    let mut dir = Dir::new();
    let mut state = SharedUsageState::default_v2();
    state.token_fingerprint = Some("fp-abc123".to_string());
    state.next_allowed_at_epoch = 4_000_000;
    dir.persist(&state, &[]);
    let loaded = dir.load();
    assert_eq!(loaded.token_fingerprint, Some("fp-abc123".to_string()));
    assert_eq!(loaded.next_allowed_at_epoch, 4_000_000);
}

#[test]
fn test_persist_state_produces_no_temp_files_left_behind() {
    let mut dir = Dir::new();
    dir.persist(&SharedUsageState::default_v2(), &[]);
    assert!(dir.temp.is_none());
    assert!(dir.target.is_some());
    assert_eq!(state_file_path_in().names, vec!["usage-limits-state-v2.json"]);
    assert_eq!(
        dir.steps,
        vec![
            PersistStep::CreateDir,
            PersistStep::Serialize,
            PersistStep::WriteTemp,
            PersistStep::Replace,
            PersistStep::Restrict,
        ]
    );
}

#[test]
fn failed_writes_leave_the_old_state_and_no_temp_file() {
    let mut old = SharedUsageState::default_v2();
    old.next_allowed_at_epoch = 1;
    let mut new = SharedUsageState::default_v2();
    new.next_allowed_at_epoch = 2;
    for (failing, ends_with) in [
        (PersistStep::CreateDir, PersistStep::CreateDir),
        (PersistStep::Serialize, PersistStep::Serialize),
        (PersistStep::WriteTemp, PersistStep::DiscardPartial),
        (PersistStep::Replace, PersistStep::Restrict),
    ] {
        let mut dir = Dir::new();
        dir.persist(&old, &[]);
        dir.persist(&new, &[failing]);
        assert_eq!(dir.load().next_allowed_at_epoch, 1);
        assert!(dir.temp.is_none());
        assert_eq!(dir.steps.last(), Some(&ends_with));
        dir.persist(&new, &[PersistStep::Restrict]);
        assert_eq!(dir.load().next_allowed_at_epoch, 2);
    }
    assert_eq!(
        persist_state_to_dir(PersistStep::Replace, false),
        PersistStep::DiscardUnmoved
    );
    assert_eq!(
        persist_state_to_dir(PersistStep::DiscardUnmoved, false),
        PersistStep::Restrict
    );
    assert_eq!(persist_state_to_dir(PersistStep::Done, false), PersistStep::Done);
}

#[test]
fn temp_files_are_named_after_their_process() {
    assert_eq!(temp_file_path_in(4711).names, vec!["usage-limits-state-v2.json.tmp.4711"]);
    assert_eq!(temp_file_path_in(0).names, vec!["usage-limits-state-v2.json.tmp.0"]);
}

// ---------------------------------------------------------------------------
// The lock
// ---------------------------------------------------------------------------

/// A lock file in memory: its contents, and its age.
struct LockFile {
    file: Option<(String, LockAge)>,
    clock: u128,
    creations: u32,
}

impl LockFile {
    fn new() -> LockFile {
        LockFile { file: None, clock: 0, creations: 0 }
    }

    fn acquire(&mut self) -> Option<FetchLock> {
        self.clock += 1;
        let token = generate_owner_token(17, Some(self.clock));
        let mut step = try_acquire_fetch_lock(true);
        loop {
            let succeeded = match step {
                LockStep::CreateDir => true,
                LockStep::Create | LockStep::CreateAgain => {
                    self.creations += 1;
                    if self.file.is_none() {
                        self.file = Some((token.clone(), LockAge::Seconds(0)));
                        true
                    } else {
                        false
                    }
                }
                LockStep::CheckStale => lock_is_stale(match &self.file {
                    Some(f) => f.1,
                    None => LockAge::Unreadable,
                }),
                LockStep::RemoveStale => {
                    self.file = None;
                    true
                }
                LockStep::Acquired => return Some(FetchLock { token }),
                LockStep::Unavailable => return None,
            };
            step = try_acquire_fetch_lock_in(step, succeeded);
        }
    }

    fn drop_lock(&mut self, lock: FetchLock) {
        let contents = self.file.as_ref().map(|f| f.0.as_str());
        if lock.removes_on_drop(contents) {
            self.file = None;
        }
    }
}

#[test]
fn test_lock_first_process_acquires() {
    let mut dir = LockFile::new();
    let lock = dir.acquire();
    assert!(lock.is_some());
}

#[test]
fn test_lock_second_process_fails_immediately() {
    let mut dir = LockFile::new();
    let _first = dir.acquire().unwrap();
    let second = dir.acquire();
    assert!(second.is_none());
}

#[test]
fn test_lock_released_on_drop_can_be_reacquired() {
    let mut dir = LockFile::new();
    let lock = dir.acquire().unwrap();
    dir.drop_lock(lock);
    let second = dir.acquire();
    assert!(second.is_some());
}

#[test]
fn test_lock_stale_lock_is_removed_and_reacquired() {
    let mut dir = LockFile::new();
    dir.file = Some((String::new(), LockAge::Seconds(20)));
    let lock = dir.acquire();
    assert!(lock.is_some());
}

#[test]
fn test_lock_fresh_lock_is_not_removed() {
    let mut dir = LockFile::new();
    dir.file = Some((String::new(), LockAge::Seconds(0)));
    let lock = dir.acquire();
    assert!(lock.is_none());
    assert_eq!(lock_file_path_in().names, vec!["usage-limits-fetch.lock"]);
}

#[test]
fn test_drop_does_not_delete_a_lock_reclaimed_by_another_owner() {
    let mut dir = LockFile::new();
    let lock_a = dir.acquire().unwrap();
    assert!(dir.file.is_some(), "lock_a should have created the file");
    dir.file = Some(("some-other-owner-token".to_string(), LockAge::Seconds(0)));
    dir.drop_lock(lock_a);
    assert!(
        dir.file.is_some(),
        "lock_a's drop must not delete a lock file it no longer owns"
    );
    assert_eq!(
        dir.file.unwrap().0, "some-other-owner-token",
        "B's token must be untouched by A's drop"
    );
}

#[test]
fn test_lock_stale_recovery_only_attempted_once() {
    let mut dir = LockFile::new();
    dir.file = Some((String::new(), LockAge::Seconds(20)));
    let _lock = dir.acquire().unwrap();
    let second = dir.acquire();
    assert!(second.is_none());
    assert_eq!(dir.creations, 3);
}

#[test]
fn lock_grows_stale_after_15_seconds() {
    assert!(!lock_is_stale(LockAge::Seconds(15)));
    assert!(lock_is_stale(LockAge::Seconds(16)));
    assert!(lock_is_stale(LockAge::Unreadable));
    assert!(lock_is_stale(LockAge::Unknown));
    assert!(!lock_is_stale(LockAge::InFuture));
}

#[test]
fn unreadable_lock_file_is_not_removed() {
    let lock = FetchLock { token: "17-1".to_string() };
    assert!(lock.removes_on_drop(Some("17-1")));
    assert!(!lock.removes_on_drop(Some("17-11")));
    assert!(!lock.removes_on_drop(Some("")));
    assert!(!lock.removes_on_drop(None));
}

#[test]
fn owner_tokens_name_process_and_time() {
    assert_eq!(generate_owner_token(4711, Some(1_700_000_000_000_000_001)), "4711-1700000000000000001");
    assert_eq!(generate_owner_token(4711, None), "4711-0");
    assert_ne!(generate_owner_token(1, Some(11)), generate_owner_token(11, Some(1)));
}

#[test]
fn lost_race_for_a_stale_lock_is_given_up() {
    assert_eq!(
        try_acquire_fetch_lock_in(LockStep::CreateAgain, false),
        LockStep::Unavailable
    );
    assert_eq!(
        try_acquire_fetch_lock_in(LockStep::RemoveStale, false),
        LockStep::CreateAgain
    );
    assert_eq!(
        try_acquire_fetch_lock_in(LockStep::CreateDir, false),
        LockStep::Unavailable
    );
}

#[test]
fn one_of_many_holds_the_lock() {
    let mut dir = LockFile::new();
    let mut held: Option<FetchLock> = None;
    for turn in 0..20 {
        match dir.acquire() {
            Some(lock) => {
                assert!(held.is_none());
                held = Some(lock);
            }
            None => assert!(held.is_some()),
        }
        if turn % 3 == 0 {
            if let Some(lock) = held.take() {
                dir.drop_lock(lock);
                assert!(dir.file.is_none());
            }
        }
    }
}
