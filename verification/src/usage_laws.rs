//! What holds of the shared state however many processes use it, and whatever
//! the service answers.

use vstd::arithmetic::power2;
use vstd::prelude::*;

use crate::timestamp;
use crate::usage_limits::{UsageFetchOutcome, UsageLimits};
use crate::usage_limits_state;
use crate::usage_limits_state::{
    Action, Event, Outcome, Phase, Request, ResolveAction, ResolveEvent, ResolvePhase,
    SharedUsageState, UsageState, MAX_RATE_LIMIT_BACKOFF_SECS, MIN_API_INTERVAL_SECS,
    TRANSIENT_ERROR_RETRY_SECS,
};

verus! {

// ---------------------------------------------------------------------------
// Backoff
// ---------------------------------------------------------------------------

/// The smaller and the larger of two numbers are among the two, and bound both.
pub proof fn law_min_and_max(a: int, b: int)
    ensures
        usage_limits_state::min(a, b) == a || usage_limits_state::min(a, b) == b,
        usage_limits_state::min(a, b) <= a && usage_limits_state::min(a, b) <= b,
        usage_limits_state::max(a, b) == a || usage_limits_state::max(a, b) == b,
        usage_limits_state::max(a, b) >= a && usage_limits_state::max(a, b) >= b,
{
}

/// The wait after one error more is twice as long, up to the cap; the first error
/// doubles nothing.
pub proof fn law_backoff_doubles(base: u64, errors: u32, cap: u64)
    requires
        1 <= errors < u32::MAX,
    ensures
        usage_limits_state::backoff(base, 0, cap) == usage_limits_state::backoff(base, 1, cap),
        usage_limits_state::backoff(base, 1, cap) == usage_limits_state::min(
            base as int,
            cap as int,
        ),
        usage_limits_state::backoff(base, (errors + 1) as u32, cap) == usage_limits_state::min(
            2 * usage_limits_state::backoff(base, errors, cap),
            cap as int,
        ),
{
    power2::lemma2_to64();
    power2::lemma_pow2_unfold(errors as nat);
    let p = power2::pow2((errors - 1) as nat) as int;
    assert(base * (2 * p) == 2 * (base * p)) by (nonlinear_arith);
    assert(base * 1 == base);
    assert(usage_limits_state::doublings((errors + 1) as u32) == errors);
    assert(usage_limits_state::doublings(errors) == errors - 1);
    assert(base * power2::pow2(errors as nat) == 2 * (base * p));
}

/// More errors never shorten the wait, and it stays between the base and the
/// cap.
pub proof fn law_backoff_grows_within_bounds(base: u64, fewer: u32, more: u32, cap: u64)
    requires
        fewer <= more,
    ensures
        usage_limits_state::backoff(base, fewer, cap) <= usage_limits_state::backoff(
            base,
            more,
            cap,
        ),
        usage_limits_state::min(base as int, cap as int) <= usage_limits_state::backoff(
            base,
            fewer,
            cap,
        ) <= cap,
{
    let d = usage_limits_state::doublings(fewer);
    let e = usage_limits_state::doublings(more);
    let p = power2::pow2(d);
    let q = power2::pow2(e);
    power2::lemma_pow2_pos(d);
    if d < e {
        power2::lemma_pow2_strictly_increases(d, e);
    }
    assert(base * 1 <= base * p <= base * q) by (nonlinear_arith)
        requires
            1 <= p <= q,
            0 <= base,
    ;
}

/// Whatever the service asks for when it limits the rate, the wait is at most the
/// maximum, and at least one interval where that is less.
pub proof fn law_rate_limit_wait_is_bounded(asked: Option<u64>, api_interval: u64, errors: u32)
    ensures
        usage_limits_state::min(api_interval as int, MAX_RATE_LIMIT_BACKOFF_SECS as int)
            <= usage_limits_state::rate_limit_delay(asked, api_interval, errors)
            <= MAX_RATE_LIMIT_BACKOFF_SECS,
{
    law_backoff_grows_within_bounds(api_interval, errors, errors, MAX_RATE_LIMIT_BACKOFF_SECS);
}

/// Where the service limits the rate and names no time, the wait is one interval
/// for the first error in a row, and twice the wait before for each further one;
/// it is never longer than 900 seconds.
pub proof fn law_unasked_waits_double(api_interval: u64, errors: u32)
    requires
        1 <= errors < u32::MAX,
    ensures
        ({
            let first = usage_limits_state::rate_limit_delay(None, api_interval, 1);
            let wait = usage_limits_state::rate_limit_delay(None, api_interval, errors);
            let next = usage_limits_state::rate_limit_delay(
                None,
                api_interval,
                (errors + 1) as u32,
            );
            &&& api_interval <= 900 ==> first == api_interval
            &&& api_interval > 900 ==> first == 900
            &&& 2 * wait <= 900 ==> next == 2 * wait
            &&& 2 * wait > 900 ==> next == 900
        }),
{
    law_backoff_doubles(api_interval, errors, MAX_RATE_LIMIT_BACKOFF_SECS);
}

/// Where the service names a time, that is the wait, however many errors came
/// before; but not less than one interval, and never more than 900 seconds.
pub proof fn law_asked_waits_are_kept(asked: u64, api_interval: u64, errors: u32)
    ensures
        ({
            let wait = usage_limits_state::rate_limit_delay(Some(asked), api_interval, errors);
            &&& api_interval <= asked <= 900 ==> wait == asked
            &&& asked < api_interval <= 900 ==> wait == api_interval
            &&& asked > 900 || api_interval > 900 ==> wait == 900
        }),
{
}

/// The next reset is one that the limits name, it is still to come, and no other
/// that they name comes before it; there is none only where they name none that is
/// still to come.
pub proof fn law_next_reset_is_the_earliest(data: UsageLimits, now: u64)
    ensures
        ({
            let five_hour = timestamp::timestamp_epoch(data.five_hour_resets_at);
            let seven_day = timestamp::timestamp_epoch(data.seven_day_resets_at);
            let next = usage_limits_state::next_reset(data, now);
            &&& next is Some ==> next->0 > now && (next == five_hour || next == seven_day)
            &&& five_hour is Some && five_hour->0 > now ==> next is Some && next->0
                <= five_hour->0
            &&& seven_day is Some && seven_day->0 > now ==> next is Some && next->0
                <= seven_day->0
        }),
{
}

/// After a success the next fetch is one interval away. Only a reset puts it off,
/// one that is behind that by then and shows within two intervals: then it comes
/// five seconds behind the reset.
pub proof fn law_next_fetch_is_put_off_for_a_reset_only(
    data: UsageLimits,
    now: u64,
    api_interval: u64,
)
    ensures
        ({
            let next = usage_limits_state::next_after_success(data, now, api_interval);
            let reset = usage_limits_state::next_reset(data, now);
            let late = reset is Some && now + api_interval < reset->0 + 5 < now + 2 * api_interval;
            &&& late ==> next == reset->0 + 5
            &&& !late ==> next == now + api_interval
        }),
{
}

/// Where a reset is due, and time for it to show is over within two intervals,
/// the next fetch comes late enough to see it.
pub proof fn law_next_fetch_sees_the_reset(
    data: UsageLimits,
    now: u64,
    api_interval: u64,
    reset: u64,
)
    requires
        usage_limits_state::next_reset(data, now) == Some(reset),
        reset + usage_limits_state::RESET_CONFIRMATION_BUFFER_SECS < now + 2 * api_interval,
    ensures
        reset > now,
        usage_limits_state::next_after_success(data, now, api_interval) >= reset
            + usage_limits_state::RESET_CONFIRMATION_BUFFER_SECS,
{
}

// ---------------------------------------------------------------------------
// What a state says
// ---------------------------------------------------------------------------

/// Before anything has been fetched, nothing is known and nothing is barred: every
/// token is new, and may fetch at any time.
pub proof fn law_fresh_state_bars_nothing(fingerprint: Seq<char>, now: u64)
    ensures
        UsageState::initial().schema_version == 2,
        UsageState::initial().token_fingerprint is None,
        UsageState::initial().usage is None,
        UsageState::initial().next_allowed_at_epoch == 0,
        UsageState::initial().rate_limit_until_epoch == 0,
        UsageState::initial().consecutive_errors == 0,
        UsageState::initial().failed_token_fingerprint is None,
        UsageState::initial().token_change_probe_fingerprint is None,
        UsageState::initial().is_new_token(fingerprint),
        UsageState::initial().allows_fetch(fingerprint, now),
        UsageState::initial().shown(fingerprint) is None,
{
}

/// A token that the service has not refused may fetch as soon as both waits are
/// over, however many errors came before and whatever else the state holds. While
/// a wait lasts, or where the service has refused it, it may not.
pub proof fn law_waits_and_refusals_alone_bar_a_token(
    state: UsageState,
    fingerprint: Seq<char>,
    now: u64,
)
    ensures
        now < state.next_allowed_at_epoch ==> !state.allows_fetch(fingerprint, now),
        now < state.rate_limit_until_epoch ==> !state.allows_fetch(fingerprint, now),
        state.failed_token_fingerprint == Some(fingerprint) ==> !state.allows_fetch(
            fingerprint,
            now,
        ),
        state.failed_token_fingerprint != Some(fingerprint) && state.rate_limit_until_epoch <= now
            && state.next_allowed_at_epoch <= now ==> state.allows_fetch(fingerprint, now),
{
}

/// What a token may do, and what it is shown, does not depend on how the other
/// matters of the state stand: two states that agree on the waits and the refusal
/// let it fetch alike, and two that agree on the usage and its owner show it alike.
pub proof fn law_other_matters_make_no_difference(
    a: UsageState,
    b: UsageState,
    fingerprint: Seq<char>,
    now: u64,
)
    ensures
        a.next_allowed_at_epoch == b.next_allowed_at_epoch && a.rate_limit_until_epoch
            == b.rate_limit_until_epoch && a.failed_token_fingerprint
            == b.failed_token_fingerprint ==> a.allows_fetch(fingerprint, now) == b.allows_fetch(
            fingerprint,
            now,
        ),
        a.token_fingerprint == b.token_fingerprint && a.token_change_probe_fingerprint
            == b.token_change_probe_fingerprint ==> a.is_new_token(fingerprint)
            == b.is_new_token(fingerprint),
        a.token_fingerprint == b.token_fingerprint && a.usage == b.usage ==> a.shown(fingerprint)
            == b.shown(fingerprint),
{
}

/// Once it is due, a fetch stays due.
pub proof fn law_a_due_fetch_stays_due(
    state: UsageState,
    fingerprint: Seq<char>,
    now: u64,
    later: u64,
)
    requires
        now <= later,
        state.calls_for_fetch(fingerprint, now),
    ensures
        state.calls_for_fetch(fingerprint, later),
{
}

/// The token that the usage belongs to is not new, nor is the one that has had its
/// fetch out of schedule; every other is. A new token fetches whatever the
/// schedule says, and any other as the schedule says.
pub proof fn law_who_is_new(state: UsageState, fingerprint: Seq<char>, now: u64)
    ensures
        state.token_fingerprint == Some(fingerprint) ==> !state.is_new_token(fingerprint),
        state.token_change_probe_fingerprint == Some(fingerprint) ==> !state.is_new_token(
            fingerprint,
        ),
        state.token_fingerprint != Some(fingerprint) && state.token_change_probe_fingerprint
            != Some(fingerprint) ==> state.is_new_token(fingerprint),
        state.is_new_token(fingerprint) ==> state.calls_for_fetch(fingerprint, now),
        !state.is_new_token(fingerprint) ==> state.calls_for_fetch(fingerprint, now)
            == state.allows_fetch(fingerprint, now),
{
}

/// A token is shown the usage that was fetched under it, all of it and as it is,
/// and no token is shown that of another.
pub proof fn law_owner_is_shown_the_usage(state: UsageState, fingerprint: Seq<char>)
    ensures
        state.token_fingerprint == Some(fingerprint) ==> state.shown(fingerprint) == state.usage,
        state.token_fingerprint != Some(fingerprint) ==> state.shown(fingerprint) is None,
{
}

/// A view shows each field of a state under its own name.
pub proof fn law_states_are_viewed_field_by_field(state: SharedUsageState)
    ensures
        state@.schema_version == state.schema_version,
        state.token_fingerprint matches Some(f) ==> state@.token_fingerprint == Some(f@),
        state.token_fingerprint is None ==> state@.token_fingerprint is None,
        state.usage matches Some(data) ==> state@.usage == Some(data@),
        state.usage is None ==> state@.usage is None,
        state@.next_allowed_at_epoch == state.next_allowed_at_epoch,
        state@.rate_limit_until_epoch == state.rate_limit_until_epoch,
        state@.consecutive_errors == state.consecutive_errors,
        state.failed_token_fingerprint matches Some(f) ==> state@.failed_token_fingerprint
            == Some(f@),
        state.failed_token_fingerprint is None ==> state@.failed_token_fingerprint is None,
        state.token_change_probe_fingerprint matches Some(f)
            ==> state@.token_change_probe_fingerprint == Some(f@),
        state.token_change_probe_fingerprint is None ==> state@.token_change_probe_fingerprint
            is None,
{
}

/// Outcomes, phases, actions and events are viewed for what they are, with all that
/// they carry.
pub proof fn law_steps_are_viewed_as_they_are(
    outcome: UsageFetchOutcome,
    phase: ResolvePhase,
    action: ResolveAction,
    event: ResolveEvent,
)
    ensures
        match outcome {
            UsageFetchOutcome::Success(data) => outcome@ == Outcome::Success(data@),
            UsageFetchOutcome::Unauthorized => outcome@ is Unauthorized,
            UsageFetchOutcome::RateLimited { retry_after_seconds: asked } => outcome@
                == Outcome::RateLimited(asked),
            UsageFetchOutcome::ServerError { status } => outcome@ == Outcome::ServerError(status),
            UsageFetchOutcome::NetworkError => outcome@ is NetworkError,
            UsageFetchOutcome::InvalidResponse => outcome@ is InvalidResponse,
        },
        phase is ReadingState <==> phase@ is ReadingState,
        phase is RereadingState <==> phase@ is RereadingState,
        phase is Done <==> phase@ is Done,
        phase matches ResolvePhase::Locking(state) ==> phase@ == Phase::Locking(state@),
        phase matches ResolvePhase::Fetching { state, new_token } ==> phase@ == (Phase::Fetching {
            state: state@,
            new_token,
        }),
        phase matches ResolvePhase::Persisting(shown) ==> phase@ is Persisting && {
            &&& shown.usage matches Some(data) ==> phase@->Persisting_0 == Some(data@)
            &&& shown.usage is None ==> phase@->Persisting_0 is None
        },
        action is LoadState <==> action@ is LoadState,
        action is AcquireLock <==> action@ is AcquireLock,
        action is Fetch <==> action@ is Fetch,
        action matches ResolveAction::Persist(state) ==> action@ == Action::Persist(state@),
        action matches ResolveAction::Finish(shown) ==> action@ is Finish && {
            &&& shown.usage matches Some(data) ==> action@->Finish_0 == Some(data@)
            &&& shown.usage is None ==> action@->Finish_0 is None
        },
        event is LockAcquired <==> event@ is LockAcquired,
        event is LockUnavailable <==> event@ is LockUnavailable,
        event is Persisted <==> event@ is Persisted,
        event matches ResolveEvent::StateLoaded(state) ==> event@ == Event::StateLoaded(state@),
        event matches ResolveEvent::Fetched(o) ==> event@ == Event::Fetched(o@),
{
}

// ---------------------------------------------------------------------------
// One attempt
// ---------------------------------------------------------------------------

/// The times that follow from a failure can be written down if the next fetch can;
/// those that follow from a success if one interval fits, or two where a reset is to
/// come. So they can for every clock and interval within reason.
pub proof fn law_reasonable_times_can_be_written_down(
    state: UsageState,
    outcome: Outcome,
    now: u64,
    api_interval: u64,
)
    ensures
        now + 2 * api_interval + 900 <= u64::MAX ==> state.in_range(outcome, now, api_interval),
        !(outcome is Success) ==> (state.in_range(outcome, now, api_interval) <==> state.next_fetch(
            outcome,
            now,
            api_interval,
        ) <= u64::MAX),
        outcome matches Outcome::Success(data) ==> (state.in_range(outcome, now, api_interval)
            <==> if usage_limits_state::next_reset(data, now) is Some {
            now + 2 * api_interval <= u64::MAX
        } else {
            now + api_interval <= u64::MAX
        }),
{
    let errors = usage_limits_state::one_more(state.consecutive_errors);
    law_backoff_grows_within_bounds(api_interval, errors, errors, MAX_RATE_LIMIT_BACKOFF_SECS);
    law_backoff_grows_within_bounds(
        TRANSIENT_ERROR_RETRY_SECS,
        errors,
        errors,
        usage_limits_state::MAX_SERVER_ERROR_BACKOFF_SECS,
    );
}

/// A success replaces the usage by what was fetched, and clears all that failures
/// have left; the next fetch is due between one interval and two on. It leaves to
/// others whose usage it is.
pub proof fn law_success_replaces_the_usage(
    state: UsageState,
    data: UsageLimits,
    now: u64,
    api_interval: u64,
    fingerprint: Seq<char>,
)
    requires
        state.in_range(Outcome::Success(data), now, api_interval),
    ensures
        ({
            let s = state.after(Outcome::Success(data), now, api_interval, fingerprint);
            &&& s.usage == Some(data)
            &&& s.rate_limit_until_epoch == 0
            &&& s.consecutive_errors == 0
            &&& s.failed_token_fingerprint is None
            &&& s.next_allowed_at_epoch == usage_limits_state::next_after_success(
                data,
                now,
                api_interval,
            )
            &&& now + api_interval <= s.next_allowed_at_epoch <= now + 2 * api_interval
            &&& s.token_fingerprint == state.token_fingerprint
            &&& s.token_change_probe_fingerprint == state.token_change_probe_fingerprint
            &&& s.schema_version == state.schema_version
        }),
{
}

/// A failure changes what it has to and nothing else. It never touches the usage.
/// A refusal is held against the token, and is no error to count; every other
/// failure is. Only a limit on the rate sets a cooldown, which ends when the
/// schedule opens.
pub proof fn law_failure_changes_what_it_has_to(
    state: UsageState,
    outcome: Outcome,
    now: u64,
    api_interval: u64,
    fingerprint: Seq<char>,
)
    requires
        !(outcome is Success),
        state.in_range(outcome, now, api_interval),
    ensures
        ({
            let s = state.after(outcome, now, api_interval, fingerprint);
            &&& s.usage == state.usage
            &&& s.token_fingerprint == state.token_fingerprint
            &&& s.token_change_probe_fingerprint == state.token_change_probe_fingerprint
            &&& s.schema_version == state.schema_version
            &&& outcome is Unauthorized ==> {
                &&& s.failed_token_fingerprint == Some(fingerprint)
                &&& s.consecutive_errors == state.consecutive_errors
            }
            &&& !(outcome is Unauthorized) ==> {
                &&& s.failed_token_fingerprint == state.failed_token_fingerprint
                &&& state.consecutive_errors < u32::MAX ==> s.consecutive_errors
                    == state.consecutive_errors + 1
                &&& state.consecutive_errors == u32::MAX ==> s.consecutive_errors == u32::MAX
            }
            &&& outcome is RateLimited ==> s.rate_limit_until_epoch == s.next_allowed_at_epoch
            &&& !(outcome is RateLimited) ==> s.rate_limit_until_epoch
                == state.rate_limit_until_epoch
            &&& s.next_allowed_at_epoch >= now
        }),
{
    let errors = usage_limits_state::one_more(state.consecutive_errors);
    law_backoff_grows_within_bounds(api_interval, errors, errors, MAX_RATE_LIMIT_BACKOFF_SECS);
    law_backoff_grows_within_bounds(
        TRANSIENT_ERROR_RETRY_SECS,
        errors,
        errors,
        usage_limits_state::MAX_SERVER_ERROR_BACKOFF_SECS,
    );
}

/// When the schedule opens again after a failure: 30 seconds on after a refusal, a
/// network error or an answer that cannot be read; after a limit on the rate as the
/// service asks. Where it asks for nothing the wait is one interval for the first
/// error in a row, and after an error of the service it is 30 seconds; each further
/// error doubles it, up to 900 seconds for the one and 300 for the other.
pub proof fn law_waits_after_failures(
    state: UsageState,
    one_error_more: UsageState,
    now: u64,
    later: u64,
    api_interval: u64,
    status: u16,
    asked: u64,
)
    requires
        state.consecutive_errors + 1 == one_error_more.consecutive_errors,
        one_error_more.consecutive_errors < u32::MAX,
    ensures
        state.next_fetch(Outcome::Unauthorized, now, api_interval) == now + 30,
        state.next_fetch(Outcome::NetworkError, now, api_interval) == now + 30,
        state.next_fetch(Outcome::InvalidResponse, now, api_interval) == now + 30,
        ({
            let wait = state.next_fetch(Outcome::RateLimited(Some(asked)), now, api_interval) - now;
            &&& api_interval <= asked <= 900 ==> wait == asked
            &&& asked < api_interval <= 900 ==> wait == api_interval
            &&& asked > 900 || api_interval > 900 ==> wait == 900
        }),
        ({
            let wait = state.next_fetch(Outcome::RateLimited(None), now, api_interval) - now;
            let next = one_error_more.next_fetch(Outcome::RateLimited(None), later, api_interval)
                - later;
            &&& state.consecutive_errors == 0 ==> {
                &&& api_interval <= 900 ==> wait == api_interval
                &&& api_interval > 900 ==> wait == 900
            }
            &&& 2 * wait <= 900 ==> next == 2 * wait
            &&& 2 * wait > 900 ==> next == 900
        }),
        ({
            let wait = state.next_fetch(Outcome::ServerError(status), now, api_interval) - now;
            let next = one_error_more.next_fetch(Outcome::ServerError(status), later, api_interval)
                - later;
            &&& state.consecutive_errors == 0 ==> wait == 30
            &&& 2 * wait <= 300 ==> next == 2 * wait
            &&& 2 * wait > 300 ==> next == 300
        }),
{
    let errors = (state.consecutive_errors + 1) as u32;
    law_asked_waits_are_kept(asked, api_interval, errors);
    law_unasked_waits_double(api_interval, errors);
    law_backoff_doubles(
        TRANSIENT_ERROR_RETRY_SECS,
        errors,
        usage_limits_state::MAX_SERVER_ERROR_BACKOFF_SECS,
    );
}

/// Once the count of errors has reached its limit, further errors wait like the one
/// before.
pub proof fn law_waits_stay_where_the_count_ends(
    state: UsageState,
    full: UsageState,
    outcome: Outcome,
    now: u64,
    api_interval: u64,
)
    requires
        state.consecutive_errors == u32::MAX - 1,
        full.consecutive_errors == u32::MAX,
    ensures
        state.next_fetch(outcome, now, api_interval) == full.next_fetch(
            outcome,
            now,
            api_interval,
        ),
{
}

/// The next fetch depends on nothing of the state but the count of errors in a row.
pub proof fn law_next_fetch_depends_on_the_count_alone(
    a: UsageState,
    b: UsageState,
    outcome: Outcome,
    now: u64,
    api_interval: u64,
)
    requires
        a.consecutive_errors == b.consecutive_errors,
    ensures
        a.next_fetch(outcome, now, api_interval) == b.next_fetch(outcome, now, api_interval),
{
}

/// What an attempt leaves as the next time is the time at which the schedule opens.
pub proof fn law_next_time_is_written_down(
    state: UsageState,
    outcome: Outcome,
    now: u64,
    api_interval: u64,
    fingerprint: Seq<char>,
)
    requires
        state.in_range(outcome, now, api_interval),
    ensures
        state.after(outcome, now, api_interval, fingerprint).next_allowed_at_epoch
            == state.next_fetch(outcome, now, api_interval),
{
    law_no_wait_is_without_end(state, outcome, now, api_interval);
}

/// Whatever a fetch is answered, the next one is due between now and two intervals
/// or 900 seconds on, whichever is longer.
pub proof fn law_no_wait_is_without_end(
    state: UsageState,
    outcome: Outcome,
    now: u64,
    api_interval: u64,
)
    ensures
        now <= state.next_fetch(outcome, now, api_interval),
        state.next_fetch(outcome, now, api_interval) <= now + 2 * api_interval || state.next_fetch(
            outcome,
            now,
            api_interval,
        ) <= now + 900,
{
    let errors = usage_limits_state::one_more(state.consecutive_errors);
    law_backoff_grows_within_bounds(api_interval, errors, errors, MAX_RATE_LIMIT_BACKOFF_SECS);
    law_backoff_grows_within_bounds(
        TRANSIENT_ERROR_RETRY_SECS,
        errors,
        errors,
        usage_limits_state::MAX_SERVER_ERROR_BACKOFF_SECS,
    );
}

/// Seconds for which an outcome closes the schedule to every token that is not
/// new. A refused token is barred for good, so for it this is only a lower bound.
pub open spec fn barred_for(outcome: Outcome, api_interval: u64) -> int {
    match outcome {
        Outcome::Success(_) => api_interval as int,
        Outcome::RateLimited(_) => usage_limits_state::min(
            api_interval as int,
            MAX_RATE_LIMIT_BACKOFF_SECS as int,
        ),
        _ => TRANSIENT_ERROR_RETRY_SECS as int,
    }
}

/// A process that holds the lock: the state that it finds, and the state that
/// it leaves behind.
#[verifier::opaque]
pub open spec fn locked_visit(state: UsageState, r: Request, outcome: Outcome) -> UsageState {
    if state.calls_for_fetch(r.fingerprint, r.now) {
        state.prepared(r.fingerprint, r.now).recorded(
            state.is_new_token(r.fingerprint),
            outcome,
            r.now,
            r.api_interval,
            r.fingerprint,
        )
    } else {
        state
    }
}

/// The times that follow from what a visit is answered can be written down.
pub open spec fn visit_in_range(state: UsageState, r: Request, outcome: Outcome) -> bool {
    state.calls_for_fetch(r.fingerprint, r.now) ==> state.prepared(
        r.fingerprint,
        r.now,
    ).in_range(outcome, r.now, r.api_interval)
}

/// After a fetch its token is not new any more and, until the outcome's time
/// has passed, the schedule is closed to it: no process fetches for it again
/// before that. A refused token is shut out for good.
pub proof fn law_fetch_bars_the_next(
    state: UsageState,
    r: Request,
    outcome: Outcome,
    later: u64,
)
    requires
        state.calls_for_fetch(r.fingerprint, r.now),
        visit_in_range(state, r, outcome),
        later < r.now + barred_for(outcome, r.api_interval) || outcome is Unauthorized,
    ensures
        !locked_visit(state, r, outcome).calls_for_fetch(r.fingerprint, later),
{
    reveal(locked_visit);
    if !(outcome is Unauthorized) {
        law_schedule_binds_every_known_token(state, r, outcome, r.fingerprint, later);
    }
}

/// The schedule is one for all: after a fetch it is closed, until the outcome's
/// time has passed, to every token that is not new.
pub proof fn law_schedule_binds_every_known_token(
    state: UsageState,
    r: Request,
    outcome: Outcome,
    other: Seq<char>,
    later: u64,
)
    requires
        state.calls_for_fetch(r.fingerprint, r.now),
        visit_in_range(state, r, outcome),
        !locked_visit(state, r, outcome).is_new_token(other),
        later < r.now + barred_for(outcome, r.api_interval),
    ensures
        !locked_visit(state, r, outcome).calls_for_fetch(other, later),
{
    reveal(locked_visit);
    let s = state.prepared(r.fingerprint, r.now);
    let errors = usage_limits_state::one_more(s.consecutive_errors);
    law_backoff_grows_within_bounds(
        r.api_interval,
        errors,
        errors,
        MAX_RATE_LIMIT_BACKOFF_SECS,
    );
    law_backoff_grows_within_bounds(
        TRANSIENT_ERROR_RETRY_SECS,
        errors,
        errors,
        usage_limits_state::MAX_SERVER_ERROR_BACKOFF_SECS,
    );
}

/// After a success, two intervals later at the latest, the schedule lets the
/// token fetch again.
pub proof fn law_success_is_followed_up(
    state: UsageState,
    r: Request,
    data: UsageLimits,
    later: u64,
)
    requires
        state.calls_for_fetch(r.fingerprint, r.now),
        visit_in_range(state, r, Outcome::Success(data)),
        later >= r.now + 2 * r.api_interval,
    ensures
        locked_visit(state, r, Outcome::Success(data)).allows_fetch(r.fingerprint, later),
{
    reveal(locked_visit);
}

/// No failure but a refusal shuts a token out for good: it fetches again from the
/// time on that the schedule names, which is never more than two intervals or 900
/// seconds away, however many failures came before.
pub proof fn law_every_wait_ends(state: UsageState, r: Request, outcome: Outcome, later: u64)
    requires
        state.calls_for_fetch(r.fingerprint, r.now),
        visit_in_range(state, r, outcome),
        !(outcome is Unauthorized),
    ensures
        ({
            let left = locked_visit(state, r, outcome);
            &&& left.calls_for_fetch(r.fingerprint, later) <==> later >= left.next_allowed_at_epoch
            &&& left.next_allowed_at_epoch <= r.now + 2 * r.api_interval
                || left.next_allowed_at_epoch <= r.now + 900
        }),
{
    reveal(locked_visit);
    let s = state.prepared(r.fingerprint, r.now);
    law_no_wait_is_without_end(s, outcome, r.now, r.api_interval);
}

/// What a visit leaves of each thing. One that does not fetch leaves all as it is.
/// One that fetches for a new token starts from a clean slate, without the errors,
/// the cooldown and the refusal that were there; any other goes on from what is
/// there. A success hands the usage over to its token.
pub proof fn law_visit_accounts_for_everything(state: UsageState, r: Request, outcome: Outcome)
    requires
        visit_in_range(state, r, outcome),
    ensures
        ({
            let left = locked_visit(state, r, outcome);
            let new = state.is_new_token(r.fingerprint);
            if !state.calls_for_fetch(r.fingerprint, r.now) {
                left == state
            } else {
                &&& left.schema_version == state.schema_version
                &&& outcome matches Outcome::Success(data) ==> {
                    &&& left.token_fingerprint == Some(r.fingerprint)
                    &&& left.usage == Some(data)
                    &&& left.token_change_probe_fingerprint is None
                    &&& left.failed_token_fingerprint is None
                    &&& left.rate_limit_until_epoch == 0
                    &&& left.consecutive_errors == 0
                }
                &&& !(outcome is Success) ==> {
                    &&& left.token_fingerprint == state.token_fingerprint
                    &&& left.usage == state.usage
                    &&& new ==> left.token_change_probe_fingerprint == Some(r.fingerprint)
                    &&& !new ==> left.token_change_probe_fingerprint
                        == state.token_change_probe_fingerprint
                }
                &&& outcome is Unauthorized ==> {
                    &&& left.failed_token_fingerprint == Some(r.fingerprint)
                    &&& new ==> left.consecutive_errors == 0
                    &&& !new ==> left.consecutive_errors == state.consecutive_errors
                }
                &&& !(outcome is Success || outcome is Unauthorized) ==> {
                    &&& new ==> left.failed_token_fingerprint is None && left.consecutive_errors
                        == 1
                    &&& !new ==> left.failed_token_fingerprint == state.failed_token_fingerprint
                    &&& !new && state.consecutive_errors < u32::MAX ==> left.consecutive_errors
                        == state.consecutive_errors + 1
                    &&& !new && state.consecutive_errors == u32::MAX ==> left.consecutive_errors
                        == u32::MAX
                }
                &&& outcome is RateLimited ==> left.rate_limit_until_epoch
                    == left.next_allowed_at_epoch
                &&& !(outcome is Success || outcome is RateLimited) ==> {
                    &&& new ==> left.rate_limit_until_epoch == 0
                    &&& !new ==> left.rate_limit_until_epoch == state.rate_limit_until_epoch
                }
                &&& new ==> left.next_allowed_at_epoch == UsageState::initial().next_fetch(
                    outcome,
                    r.now,
                    r.api_interval,
                )
                &&& !new ==> left.next_allowed_at_epoch == state.next_fetch(
                    outcome,
                    r.now,
                    r.api_interval,
                )
            }
        }),
{
    reveal(locked_visit);
    let s = state.prepared(r.fingerprint, r.now);
    law_no_wait_is_without_end(s, outcome, r.now, r.api_interval);
}

/// Only a success changes the usage and the token that it belongs to. After a
/// failure every token is shown what it was shown before.
pub proof fn law_failure_keeps_the_usage(
    state: UsageState,
    r: Request,
    outcome: Outcome,
    any_token: Seq<char>,
)
    requires
        !(outcome is Success),
    ensures
        locked_visit(state, r, outcome).token_fingerprint == state.token_fingerprint,
        locked_visit(state, r, outcome).usage == state.usage,
        locked_visit(state, r, outcome).shown(any_token) == state.shown(any_token),
{
    reveal(locked_visit);
}

/// After a success its token is shown what was fetched, and every other token
/// nothing.
pub proof fn law_usage_is_shown_to_its_token_only(
    state: UsageState,
    r: Request,
    data: UsageLimits,
    other: Seq<char>,
)
    requires
        state.calls_for_fetch(r.fingerprint, r.now),
        other != r.fingerprint,
    ensures
        locked_visit(state, r, Outcome::Success(data)).shown(r.fingerprint) == Some(data),
        locked_visit(state, r, Outcome::Success(data)).shown(other) is None,
{
    reveal(locked_visit);
}

/// A new token gets one fetch out of schedule and no second one. Whatever that
/// fetch is answered, the token is not new any more; and no visit for a token
/// that is not new makes it new again.
pub proof fn law_new_token_probes_once(
    state: UsageState,
    r: Request,
    outcome: Outcome,
    later_state: UsageState,
)
    requires
        state.is_new_token(r.fingerprint),
        !later_state.is_new_token(r.fingerprint),
    ensures
        state.calls_for_fetch(r.fingerprint, r.now),
        !locked_visit(state, r, outcome).is_new_token(r.fingerprint),
        !locked_visit(later_state, r, outcome).is_new_token(r.fingerprint),
{
    reveal(locked_visit);
}

/// A new token does not inherit the old token's troubles: after a transient
/// failure it may fetch again as soon as its own short wait is over.
pub proof fn law_new_token_starts_clean(
    state: UsageState,
    r: Request,
    outcome: Outcome,
    later: u64,
)
    requires
        state.is_new_token(r.fingerprint),
        visit_in_range(state, r, outcome),
        outcome is NetworkError || outcome is InvalidResponse || outcome is ServerError,
    ensures
        locked_visit(state, r, outcome).rate_limit_until_epoch == 0,
        locked_visit(state, r, outcome).consecutive_errors == 1,
        locked_visit(state, r, outcome).allows_fetch(r.fingerprint, later) <==> later >= r.now
            + TRANSIENT_ERROR_RETRY_SECS,
{
    reveal(locked_visit);
    law_backoff_doubles(
        TRANSIENT_ERROR_RETRY_SECS,
        1,
        usage_limits_state::MAX_SERVER_ERROR_BACKOFF_SECS,
    );
}

/// A refusal is held against the token that was tried, and not against the one
/// that the usage belongs to.
pub proof fn law_refusal_blames_the_token_tried(state: UsageState, r: Request)
    requires
        state.calls_for_fetch(r.fingerprint, r.now),
    ensures
        locked_visit(state, r, Outcome::Unauthorized).failed_token_fingerprint == Some(
            r.fingerprint,
        ),
        locked_visit(state, r, Outcome::Unauthorized).token_fingerprint
            == state.token_fingerprint,
{
    reveal(locked_visit);
}

/// What holds of a state that the processes have made: it is in the current
/// layout, there is usage exactly where there is a token that it belongs to, and
/// a cooldown never outlasts the schedule.
pub open spec fn is_sound(state: UsageState) -> bool {
    &&& state.schema_version == usage_limits_state::CURRENT_SCHEMA_VERSION
    &&& state.usage is Some <==> state.token_fingerprint is Some
    &&& state.rate_limit_until_epoch <= state.next_allowed_at_epoch
}

/// The first state is sound, and every visit keeps it so.
pub proof fn law_state_stays_sound(state: UsageState, r: Request, outcome: Outcome)
    requires
        is_sound(state),
        visit_in_range(state, r, outcome),
    ensures
        is_sound(UsageState::initial()),
        is_sound(locked_visit(state, r, outcome)),
{
    reveal(locked_visit);
}

// ---------------------------------------------------------------------------
// Many processes
// ---------------------------------------------------------------------------

/// A visit to the state under the lock: for whom, when, how often it may fetch,
/// and what the service answers if it does.
pub struct Visit {
    pub fingerprint: Seq<char>,
    pub now: u64,
    pub api_interval: u64,
    pub outcome: Outcome,
}

impl Visit {
    pub open spec fn request(self) -> Request {
        Request { fingerprint: self.fingerprint, api_interval: self.api_interval, now: self.now }
    }
}

/// The state after the first `n` visits.
pub open spec fn state_after(state: UsageState, visits: Seq<Visit>, n: nat) -> UsageState
    decreases n,
{
    if n == 0 {
        state
    } else {
        let v = visits[n - 1];
        locked_visit(state_after(state, visits, (n - 1) as nat), v.request(), v.outcome)
    }
}

/// Visit `i` fetches.
pub open spec fn fetches(state: UsageState, visits: Seq<Visit>, i: int) -> bool {
    state_after(state, visits, i as nat).calls_for_fetch(visits[i].fingerprint, visits[i].now)
}

/// Visits that follow each other in time, with times that can be written down.
pub open spec fn is_history(state: UsageState, visits: Seq<Visit>) -> bool {
    &&& forall|i: int, j: int|
        0 <= i <= j < visits.len() ==> (#[trigger] visits[i]).now <= (#[trigger] visits[j]).now
    &&& forall|i: int|
        0 <= i < visits.len() ==> visit_in_range(
            state_after(state, visits, i as nat),
            (#[trigger] visits[i]).request(),
            visits[i].outcome,
        )
}

/// Behind visit `i`, and up to visit `j`, nothing is fetched for a token that is
/// new when it is fetched for. (A new token starts a schedule of its own; any
/// other is bound by the one that is there.)
pub open spec fn known_tokens_until(
    state: UsageState,
    visits: Seq<Visit>,
    i: int,
    j: int,
) -> bool {
    forall|k: int|
        i < k <= j && #[trigger] fetches(state, visits, k) ==> !state_after(
            state,
            visits,
            k as nat,
        ).is_new_token(visits[k].fingerprint)
}

/// However many processes share the state, and whatever tokens they use, two
/// fetches are at least as far apart as the outcome of the first one demands,
/// unless a token comes in that is new.
pub proof fn law_fetches_are_spaced(state: UsageState, visits: Seq<Visit>, i: int, j: int)
    requires
        is_history(state, visits),
        0 <= i < j < visits.len(),
        known_tokens_until(state, visits, i, j),
        fetches(state, visits, i),
        fetches(state, visits, j),
    ensures
        visits[j].now >= visits[i].now + barred_for(visits[i].outcome, visits[i].api_interval),
{
    let v = visits[i];
    let before = state_after(state, visits, i as nat);
    if visits[j].now < v.now + barred_for(v.outcome, v.api_interval) {
        lemma_state_rests(state, visits, i, j);
        assert(visit_in_range(before, v.request(), v.outcome));
        law_schedule_binds_every_known_token(
            before,
            v.request(),
            v.outcome,
            visits[j].fingerprint,
            visits[j].now,
        );
    }
}

/// Between a fetch and the end of its bar nothing touches the state.
proof fn lemma_state_rests(state: UsageState, visits: Seq<Visit>, i: int, j: int)
    requires
        is_history(state, visits),
        0 <= i < j < visits.len(),
        known_tokens_until(state, visits, i, j),
        fetches(state, visits, i),
        visits[j].now < visits[i].now + barred_for(visits[i].outcome, visits[i].api_interval),
    ensures
        state_after(state, visits, j as nat) == state_after(state, visits, (i + 1) as nat),
    decreases j - i,
{
    let v = visits[i];
    let before = state_after(state, visits, i as nat);
    assert(visit_in_range(before, v.request(), v.outcome));
    if j > i + 1 {
        assert(visits[j - 1].now <= visits[j].now);
        assert(known_tokens_until(state, visits, i, j - 1));
        lemma_state_rests(state, visits, i, j - 1);
        assert(!fetches(state, visits, j - 1)) by {
            if fetches(state, visits, j - 1) {
                law_schedule_binds_every_known_token(
                    before,
                    v.request(),
                    v.outcome,
                    visits[j - 1].fingerprint,
                    visits[j - 1].now,
                );
            }
        }
        lemma_idle_visit(state, visits, j - 1);
    }
}

/// A visit that does not fetch leaves the state as it is.
proof fn lemma_idle_visit(state: UsageState, visits: Seq<Visit>, i: int)
    requires
        0 <= i,
        !fetches(state, visits, i),
    ensures
        state_after(state, visits, (i + 1) as nat) == state_after(state, visits, i as nat),
{
    reveal(locked_visit);
}

/// Once the service has answered, it is not asked again within the shortest
/// interval, by whatever process and for whatever token, unless a token comes in
/// that is new.
pub proof fn law_service_is_polled_rarely(state: UsageState, visits: Seq<Visit>, i: int, j: int)
    requires
        is_history(state, visits),
        0 <= i < j < visits.len(),
        known_tokens_until(state, visits, i, j),
        fetches(state, visits, i),
        fetches(state, visits, j),
        visits[i].outcome is Success || visits[i].outcome is RateLimited,
        visits[i].api_interval >= MIN_API_INTERVAL_SECS,
    ensures
        visits[j].now >= visits[i].now + MIN_API_INTERVAL_SECS,
{
    law_fetches_are_spaced(state, visits, i, j);
}

/// Behind visit `i`, and before visit `j`, nothing is fetched for a token other
/// than that of visit `i`.
pub open spec fn one_token_between(
    state: UsageState,
    visits: Seq<Visit>,
    i: int,
    j: int,
) -> bool {
    forall|k: int|
        i < k < j && #[trigger] fetches(state, visits, k) ==> visits[k].fingerprint
            == visits[i].fingerprint
}

/// A token that has fetched is not new any more, for as long as nothing is
/// fetched for another: so its own fetches are spaced from then on.
pub proof fn law_one_token_stays_known(state: UsageState, visits: Seq<Visit>, i: int, j: int)
    requires
        0 <= i < j < visits.len(),
        visits[j].fingerprint == visits[i].fingerprint,
        one_token_between(state, visits, i, j),
        fetches(state, visits, i),
    ensures
        known_tokens_until(state, visits, i, j),
{
    assert forall|k: int| i < k <= j && #[trigger] fetches(state, visits, k) implies !state_after(
        state,
        visits,
        k as nat,
    ).is_new_token(visits[k].fingerprint) by {
        lemma_token_stays_known(state, visits, i, j, k);
    }
}

proof fn lemma_token_stays_known(state: UsageState, visits: Seq<Visit>, i: int, j: int, k: int)
    requires
        0 <= i < k <= j < visits.len(),
        one_token_between(state, visits, i, j),
        fetches(state, visits, i),
    ensures
        !state_after(state, visits, k as nat).is_new_token(visits[i].fingerprint),
    decreases k - i,
{
    reveal(locked_visit);
    if k > i + 1 {
        lemma_token_stays_known(state, visits, i, j, k - 1);
        if !fetches(state, visits, k - 1) {
            lemma_idle_visit(state, visits, k - 1);
        }
    }
}

/// A token that the service has refused is not tried again, for as long as
/// nothing is fetched for another token.
pub proof fn law_refused_token_stays_out(state: UsageState, visits: Seq<Visit>, i: int, j: int)
    requires
        0 <= i < j < visits.len(),
        visits[j].fingerprint == visits[i].fingerprint,
        one_token_between(state, visits, i, j),
        fetches(state, visits, i),
        visits[i].outcome is Unauthorized,
    ensures
        !fetches(state, visits, j),
{
    lemma_token_stays_known(state, visits, i, j, j);
    lemma_refusal_stays(state, visits, i, j, j);
}

proof fn lemma_refusal_stays(state: UsageState, visits: Seq<Visit>, i: int, j: int, k: int)
    requires
        0 <= i < k <= j < visits.len(),
        one_token_between(state, visits, i, j),
        fetches(state, visits, i),
        visits[i].outcome is Unauthorized,
    ensures
        state_after(state, visits, k as nat).failed_token_fingerprint == Some(
            visits[i].fingerprint,
        ),
    decreases k - i,
{
    reveal(locked_visit);
    if k > i + 1 {
        lemma_refusal_stays(state, visits, i, j, k - 1);
        lemma_token_stays_known(state, visits, i, j, k - 1);
        assert(!fetches(state, visits, k - 1));
        lemma_idle_visit(state, visits, k - 1);
    }
}

// ---------------------------------------------------------------------------
// One run
// ---------------------------------------------------------------------------

/// A run that got the lock leaves behind what a visit leaves behind, and shows
/// what that state has to show.
pub proof fn law_run_under_lock_is_a_visit(r: Request, state: UsageState, outcome: Outcome)
    requires
        visit_in_range(state, r, outcome),
    ensures
        ({
            let (phase, action) = r.step(Phase::RereadingState, Event::StateLoaded(state));
            let left = locked_visit(state, r, outcome);
            if state.calls_for_fetch(r.fingerprint, r.now) {
                &&& action == Action::Fetch
                &&& r.awaits(phase, Event::Fetched(outcome))
                &&& r.step(phase, Event::Fetched(outcome)) == (
                    Phase::Persisting(left.shown(r.fingerprint)),
                    Action::Persist(left),
                )
            } else {
                &&& phase == Phase::Done
                &&& action == Action::Finish(left.shown(r.fingerprint))
            }
        }),
{
    reveal(locked_visit);
}

/// After a success, a later run for the same token within the interval shows
/// the usage without asking for the lock or for anything else; and so does one
/// that had asked for the lock before, once it holds it.
pub proof fn law_later_runs_share_the_usage(
    state: UsageState,
    r: Request,
    data: UsageLimits,
    later: Request,
)
    requires
        state.calls_for_fetch(r.fingerprint, r.now),
        visit_in_range(state, r, Outcome::Success(data)),
        later.fingerprint == r.fingerprint,
        later.now < r.now + r.api_interval,
    ensures
        ({
            let left = locked_visit(state, r, Outcome::Success(data));
            let end = (Phase::Done, Action::Finish(Some(data)));
            &&& later.step(Phase::ReadingState, Event::StateLoaded(left)) == end
            &&& later.step(Phase::RereadingState, Event::StateLoaded(left)) == end
        }),
{
    reveal(locked_visit);
    law_fetch_bars_the_next(state, r, Outcome::Success(data), later.now);
}

/// A process that does not get the lock waits for nobody: it shows at once what
/// it has read.
pub proof fn law_no_lock_no_wait(r: Request, state: UsageState)
    ensures
        r.awaits(Phase::Locking(state), Event::LockUnavailable),
        r.step(Phase::Locking(state), Event::LockUnavailable) == (
            Phase::Done,
            Action::Finish(state.shown(r.fingerprint)),
        ),
{
}

/// What a run has to show once the state is written is shown as it is, all of it.
pub proof fn law_run_shows_what_it_has_to_show(r: Request, shown: Option<UsageLimits>)
    ensures
        r.awaits(Phase::Persisting(shown), Event::Persisted),
        r.step(Phase::Persisting(shown), Event::Persisted) == (Phase::Done, Action::Finish(shown)),
{
}

/// A run that fetches goes all the way: it reads the state, gets the lock, reads
/// the state again, fetches, writes what a visit to that second state leaves, and
/// ends by showing what it has written. After a success that is just what was
/// fetched; after a failure, what the second state had to show.
pub proof fn law_run_that_fetches(
    r: Request,
    first: UsageState,
    second: UsageState,
    outcome: Outcome,
)
    requires
        first.calls_for_fetch(r.fingerprint, r.now),
        second.calls_for_fetch(r.fingerprint, r.now),
        visit_in_range(second, r, outcome),
    ensures
        ({
            let events = seq![
                Event::StateLoaded(first),
                Event::LockAcquired,
                Event::StateLoaded(second),
                Event::Fetched(outcome),
                Event::Persisted,
            ];
            let left = locked_visit(second, r, outcome);
            let shown = if outcome is Success {
                Some(outcome->Success_0)
            } else if second.token_fingerprint == Some(r.fingerprint) {
                second.usage
            } else {
                None
            };
            &&& is_run(r, events)
            &&& run(r, events).0 is Done
            &&& run(r, events).1 == seq![
                Action::LoadState,
                Action::AcquireLock,
                Action::LoadState,
                Action::Fetch,
                Action::Persist(left),
                Action::Finish(shown),
            ]
            &&& left.shown(r.fingerprint) == shown
        }),
{
    let e1 = seq![Event::StateLoaded(first)];
    let e2 = e1.push(Event::LockAcquired);
    let e3 = e2.push(Event::StateLoaded(second));
    let e4 = e3.push(Event::Fetched(outcome));
    let e5 = e4.push(Event::Persisted);
    lemma_first_event(r, Event::StateLoaded(first));
    lemma_next_event(r, e1, Event::LockAcquired);
    lemma_next_event(r, e2, Event::StateLoaded(second));
    lemma_next_event(r, e3, Event::Fetched(outcome));
    lemma_next_event(r, e4, Event::Persisted);
    law_run_under_lock_is_a_visit(r, second, outcome);
    law_visit_accounts_for_everything(second, r, outcome);
    assert(e5 =~= seq![
        Event::StateLoaded(first),
        Event::LockAcquired,
        Event::StateLoaded(second),
        Event::Fetched(outcome),
        Event::Persisted,
    ]);
}

/// A run that does not fetch writes nothing, and shows what the last state that it
/// read has to show: the first, where no fetch is due, or where somebody else holds
/// the lock; the second, where by then no fetch is due any more.
pub proof fn law_run_that_does_not_fetch(r: Request, first: UsageState, second: UsageState)
    ensures
        ({
            let events = seq![Event::StateLoaded(first)];
            !first.calls_for_fetch(r.fingerprint, r.now) ==> {
                &&& is_run(r, events)
                &&& run(r, events) == (
                    Phase::Done,
                    seq![Action::LoadState, Action::Finish(first.shown(r.fingerprint))],
                )
            }
        }),
        ({
            let events = seq![Event::StateLoaded(first), Event::LockUnavailable];
            first.calls_for_fetch(r.fingerprint, r.now) ==> {
                &&& is_run(r, events)
                &&& run(r, events) == (
                    Phase::Done,
                    seq![
                        Action::LoadState,
                        Action::AcquireLock,
                        Action::Finish(first.shown(r.fingerprint)),
                    ],
                )
            }
        }),
        ({
            let events = seq![
                Event::StateLoaded(first),
                Event::LockAcquired,
                Event::StateLoaded(second),
            ];
            first.calls_for_fetch(r.fingerprint, r.now) && !second.calls_for_fetch(
                r.fingerprint,
                r.now,
            ) ==> {
                &&& is_run(r, events)
                &&& run(r, events) == (
                    Phase::Done,
                    seq![
                        Action::LoadState,
                        Action::AcquireLock,
                        Action::LoadState,
                        Action::Finish(second.shown(r.fingerprint)),
                    ],
                )
            }
        }),
{
    let e1 = seq![Event::StateLoaded(first)];
    let e2 = e1.push(Event::LockAcquired);
    lemma_first_event(r, Event::StateLoaded(first));
    assert(e1.push(Event::LockUnavailable) =~= seq![
        Event::StateLoaded(first),
        Event::LockUnavailable,
    ]);
    assert(e2.push(Event::StateLoaded(second)) =~= seq![
        Event::StateLoaded(first),
        Event::LockAcquired,
        Event::StateLoaded(second),
    ]);
    lemma_next_event(r, e1, Event::LockUnavailable);
    lemma_next_event(r, e1, Event::LockAcquired);
    lemma_next_event(r, e2, Event::StateLoaded(second));
    assert(run(r, e1).1 =~= seq![Action::LoadState, r.step(Phase::ReadingState, e1[0]).1]);
}

proof fn lemma_first_event(r: Request, event: Event)
    ensures
        is_run(r, seq![event]) == r.awaits(Phase::ReadingState, event),
        run(r, seq![event]).0 == r.step(Phase::ReadingState, event).0,
        run(r, seq![event]).1 == seq![
            Action::LoadState,
            r.step(Phase::ReadingState, event).1,
        ],
{
    let none = Seq::<Event>::empty();
    assert(seq![event].drop_last() =~= none);
    assert(run(r, none) == (Phase::ReadingState, seq![Action::LoadState]));
    assert(is_run(r, none));
}

proof fn lemma_next_event(r: Request, events: Seq<Event>, event: Event)
    ensures
        is_run(r, events.push(event)) == (is_run(r, events) && r.awaits(run(r, events).0, event)),
        run(r, events.push(event)).0 == r.step(run(r, events).0, event).0,
        run(r, events.push(event)).1 == run(r, events).1.push(
            r.step(run(r, events).0, event).1,
        ),
{
    assert(events.push(event).drop_last() =~= events);
}

/// A run as far as it has come: its phase, and all that it has asked for.
pub open spec fn run(r: Request, events: Seq<Event>) -> (Phase, Seq<Action>)
    decreases events.len(),
{
    if events.len() == 0 {
        (Phase::ReadingState, seq![Action::LoadState])
    } else {
        let (phase, asked) = run(r, events.drop_last());
        let (next, action) = r.step(phase, events.last());
        (next, asked.push(action))
    }
}

/// Each event is one that the run awaits.
pub open spec fn is_run(r: Request, events: Seq<Event>) -> bool
    decreases events.len(),
{
    events.len() == 0 || {
        &&& is_run(r, events.drop_last())
        &&& r.awaits(run(r, events.drop_last()).0, events.last())
    }
}

/// What a run can have asked for in a phase.
pub open spec fn asked_before(phase: Phase, asked: Seq<Action>) -> bool {
    match phase {
        Phase::ReadingState => asked =~= seq![Action::LoadState],
        Phase::Locking(_) => asked =~= seq![Action::LoadState, Action::AcquireLock],
        Phase::RereadingState => asked =~= seq![
            Action::LoadState,
            Action::AcquireLock,
            Action::LoadState,
        ],
        Phase::Fetching { .. } => asked =~= seq![
            Action::LoadState,
            Action::AcquireLock,
            Action::LoadState,
            Action::Fetch,
        ],
        Phase::Persisting(_) => {
            &&& asked.len() == 5
            &&& asked.take(4) =~= seq![
                Action::LoadState,
                Action::AcquireLock,
                Action::LoadState,
                Action::Fetch,
            ]
            &&& asked[4] is Persist
        },
        Phase::Done => {
            &&& 2 <= asked.len() <= 6
            &&& asked.last() is Finish
            &&& asked.len() != 5
            &&& asked[0] == Action::LoadState
            &&& asked.len() > 2 ==> asked[1] == Action::AcquireLock
            &&& asked.len() > 3 ==> asked[2] == Action::LoadState
            &&& asked.len() > 4 ==> asked[3] == Action::Fetch && asked[4] is Persist
        },
    }
}

/// A run asks for little, and in this order: the state; the lock; the state
/// again; one fetch; one write; and it ends. So it fetches at most once, only
/// with the lock, only on a state that it read with the lock, and writes what
/// came of it before it ends.
pub proof fn law_run_asks_in_order(r: Request, events: Seq<Event>)
    requires
        is_run(r, events),
    ensures
        asked_before(run(r, events).0, run(r, events).1),
    decreases events.len(),
{
    if events.len() > 0 {
        law_run_asks_in_order(r, events.drop_last());
        let (phase, asked) = run(r, events.drop_last());
        let (next, action) = r.step(phase, events.last());
        if phase is Persisting {
            assert(asked[0] == asked.take(4)[0]);
            assert(asked[1] == asked.take(4)[1]);
            assert(asked[2] == asked.take(4)[2]);
            assert(asked[3] == asked.take(4)[3]);
        }
        if next is Persisting {
            assert(asked.push(action).take(4) =~= asked);
        }
    }
}

} // verus!
