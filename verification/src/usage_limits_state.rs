//! The state that every process shares, and the rules by which it changes.
//!
//! Each process is short-lived, and many run at nearly the same time. They share
//! one state file and one lock, so that the usage service is asked rarely
//! however many of them there are. This module decides: whether the service may
//! be asked now, what an attempt does to the state, what may be shown, and, in
//! `resolve_step`, what a process does next.

use vstd::arithmetic::power2;
use vstd::prelude::*;

use crate::text::is_text;
use crate::timestamp;
use crate::timestamp::iso8601_to_epoch;
use crate::usage_limits::{UsageFetchOutcome, UsageLimits, UsageLimitsData};

verus! {

/// The only version of the state's layout that is read and written.
pub const CURRENT_SCHEMA_VERSION: u32 = 2;

pub const DEFAULT_API_INTERVAL_SECS: u64 = 180;

pub const MIN_API_INTERVAL_SECS: u64 = 180;

pub const MAX_RATE_LIMIT_BACKOFF_SECS: u64 = 900;

pub const TRANSIENT_ERROR_RETRY_SECS: u64 = 30;

pub const MAX_SERVER_ERROR_BACKOFF_SECS: u64 = 300;

pub const RESET_CONFIRMATION_BUFFER_SECS: u64 = 5;

/// What the processes share.
#[derive(Debug)]
pub struct SharedUsageState {
    pub schema_version: u32,
    /// The token under which `usage` was fetched.
    pub token_fingerprint: Option<String>,
    pub usage: Option<UsageLimitsData>,
    /// No fetch before this time.
    pub next_allowed_at_epoch: u64,
    /// No fetch before this time either: the service asked for patience.
    pub rate_limit_until_epoch: u64,
    pub consecutive_errors: u32,
    /// A token that the service has refused.
    pub failed_token_fingerprint: Option<String>,
    /// A token that has had its one fetch out of schedule, and failed.
    pub token_change_probe_fingerprint: Option<String>,
}

/// The view of `SharedUsageState`.
#[verifier::ext_equal]
pub struct UsageState {
    pub schema_version: u32,
    pub token_fingerprint: Option<Seq<char>>,
    pub usage: Option<UsageLimits>,
    pub next_allowed_at_epoch: u64,
    pub rate_limit_until_epoch: u64,
    pub consecutive_errors: u32,
    pub failed_token_fingerprint: Option<Seq<char>>,
    pub token_change_probe_fingerprint: Option<Seq<char>>,
}

impl View for SharedUsageState {
    type V = UsageState;

    open spec fn view(&self) -> UsageState {
        UsageState {
            schema_version: self.schema_version,
            token_fingerprint: self.token_fingerprint.deep_view(),
            usage: self.usage.deep_view(),
            next_allowed_at_epoch: self.next_allowed_at_epoch,
            rate_limit_until_epoch: self.rate_limit_until_epoch,
            consecutive_errors: self.consecutive_errors,
            failed_token_fingerprint: self.failed_token_fingerprint.deep_view(),
            token_change_probe_fingerprint: self.token_change_probe_fingerprint.deep_view(),
        }
    }
}

impl Clone for SharedUsageState {
    fn clone(&self) -> (r: Self)
        ensures
            r == *self,
    {
        SharedUsageState {
            schema_version: self.schema_version,
            token_fingerprint: self.token_fingerprint.clone(),
            usage: self.usage.clone(),
            next_allowed_at_epoch: self.next_allowed_at_epoch,
            rate_limit_until_epoch: self.rate_limit_until_epoch,
            consecutive_errors: self.consecutive_errors,
            failed_token_fingerprint: self.failed_token_fingerprint.clone(),
            token_change_probe_fingerprint: self.token_change_probe_fingerprint.clone(),
        }
    }
}

/// The view of `UsageFetchOutcome`.
pub enum Outcome {
    Success(UsageLimits),
    Unauthorized,
    RateLimited(Option<u64>),
    ServerError(u16),
    NetworkError,
    InvalidResponse,
}

impl View for UsageFetchOutcome {
    type V = Outcome;

    open spec fn view(&self) -> Outcome {
        match self {
            UsageFetchOutcome::Success(data) => Outcome::Success(data@),
            UsageFetchOutcome::Unauthorized => Outcome::Unauthorized,
            UsageFetchOutcome::RateLimited { retry_after_seconds } => Outcome::RateLimited(
                *retry_after_seconds,
            ),
            UsageFetchOutcome::ServerError { status } => Outcome::ServerError(*status),
            UsageFetchOutcome::NetworkError => Outcome::NetworkError,
            UsageFetchOutcome::InvalidResponse => Outcome::InvalidResponse,
        }
    }
}

// ---------------------------------------------------------------------------
// Intervals
// ---------------------------------------------------------------------------

pub open spec fn min(a: int, b: int) -> int {
    if a <= b {
        a
    } else {
        b
    }
}

pub open spec fn max(a: int, b: int) -> int {
    if a >= b {
        a
    } else {
        b
    }
}

/// Seconds between two fetches: as configured, but never below the minimum.
pub fn effective_interval(configured_ttl: Option<u64>) -> (r: u64)
    ensures
        r == max(
            configured_ttl.unwrap_or(DEFAULT_API_INTERVAL_SECS) as int,
            MIN_API_INTERVAL_SECS as int,
        ),
        r >= 180,
        configured_ttl matches Some(ttl) ==> (ttl >= 180 ==> r == ttl) && (ttl < 180 ==> r == 180),
        configured_ttl is None ==> r == 180,
{
    let wanted: u64 = match configured_ttl {
        Some(ttl) => ttl,
        None => DEFAULT_API_INTERVAL_SECS,
    };
    if wanted >= MIN_API_INTERVAL_SECS {
        wanted
    } else {
        MIN_API_INTERVAL_SECS
    }
}

/// How often the delay has doubled after so many errors in a row: not for the
/// first, once for each further one.
pub open spec fn doublings(consecutive_errors: u32) -> nat {
    if consecutive_errors == 0 {
        0
    } else {
        (consecutive_errors - 1) as nat
    }
}

/// `base`, doubled for each error behind the first, and at most `cap`.
pub open spec fn backoff(base: u64, consecutive_errors: u32, cap: u64) -> int {
    min(base * power2::pow2(doublings(consecutive_errors)), cap as int)
}

/// Seconds to wait after so many errors in a row.
pub fn backoff_secs(base: u64, consecutive_errors: u32, cap: u64) -> (r: u64)
    ensures
        r == backoff(base, consecutive_errors, cap),
{
    let exponent: u32 = if consecutive_errors == 0 {
        0
    } else {
        consecutive_errors - 1
    };
    let ghost factor = power2::pow2(exponent as nat) as int;
    if base == 0 {
        assert(base * factor == 0) by (nonlinear_arith)
            requires
                base == 0,
        ;
        return 0;
    }
    if exponent >= 64 {
        proof {
            power2::lemma2_to64_rest();
            if exponent > 64 {
                power2::lemma_pow2_strictly_increases(64, exponent as nat);
            }
            assert(base * factor >= factor) by (nonlinear_arith)
                requires
                    base >= 1,
                    factor >= 0,
            ;
        }
        return cap;
    }
    proof {
        power2::lemma2_to64_rest();
        power2::lemma_pow2_strictly_increases(exponent as nat, 64);
        assert(1 * factor == factor);
        vstd::bits::lemma_u64_shl_is_mul(1, exponent as u64);
    }
    match base.checked_mul(1u64 << exponent) {
        Some(delay) => if delay <= cap {
            delay
        } else {
            cap
        },
        None => cap,
    }
}

// ---------------------------------------------------------------------------
// Reading the state
// ---------------------------------------------------------------------------

impl UsageState {
    /// The state before anything has been fetched.
    pub open spec fn initial() -> UsageState {
        UsageState {
            schema_version: CURRENT_SCHEMA_VERSION,
            token_fingerprint: None,
            usage: None,
            next_allowed_at_epoch: 0,
            rate_limit_until_epoch: 0,
            consecutive_errors: 0,
            failed_token_fingerprint: None,
            token_change_probe_fingerprint: None,
        }
    }

    /// The schedule lets this token fetch now: the service has not refused it,
    /// and both waits are over.
    pub open spec fn allows_fetch(self, fingerprint: Seq<char>, now: u64) -> bool {
        &&& self.failed_token_fingerprint != Some(fingerprint)
        &&& self.rate_limit_until_epoch <= now
        &&& self.next_allowed_at_epoch <= now
    }

    /// A token that is new: nothing was fetched under it, and it has not had
    /// its one fetch out of schedule.
    pub open spec fn is_new_token(self, fingerprint: Seq<char>) -> bool {
        &&& self.token_fingerprint != Some(fingerprint)
        &&& self.token_change_probe_fingerprint != Some(fingerprint)
    }

    /// A process that holds the lock, and sees this state, fetches.
    pub open spec fn calls_for_fetch(self, fingerprint: Seq<char>, now: u64) -> bool {
        self.is_new_token(fingerprint) || self.allows_fetch(fingerprint, now)
    }

    /// What may be shown under a token: only what was fetched under it.
    pub open spec fn shown(self, fingerprint: Seq<char>) -> Option<UsageLimits> {
        if self.token_fingerprint == Some(fingerprint) {
            self.usage
        } else {
            None
        }
    }
}

impl SharedUsageState {
    /// The state before anything has been fetched.
    pub fn default_v2() -> (r: Self)
        ensures
            r@ == UsageState::initial(),
    {
        SharedUsageState {
            schema_version: CURRENT_SCHEMA_VERSION,
            token_fingerprint: None,
            usage: None,
            next_allowed_at_epoch: 0,
            rate_limit_until_epoch: 0,
            consecutive_errors: 0,
            failed_token_fingerprint: None,
            token_change_probe_fingerprint: None,
        }
    }
}

/// Whether the schedule lets this token fetch now.
pub fn fetch_may_be_needed(state: &SharedUsageState, fingerprint: &str, now: u64) -> (r: bool)
    ensures
        r == state@.allows_fetch(fingerprint@, now),
        r <==> {
            &&& !(state.failed_token_fingerprint matches Some(refused) && refused@
                == fingerprint@)
            &&& now >= state.rate_limit_until_epoch
            &&& now >= state.next_allowed_at_epoch
        },
{
    if is_text(&state.failed_token_fingerprint, fingerprint) {
        return false;
    }
    if now < state.rate_limit_until_epoch {
        return false;
    }
    now >= state.next_allowed_at_epoch
}

/// Whether this token is new, and so may fetch once out of schedule.
pub fn is_fresh_token_change(state: &SharedUsageState, fingerprint: &str) -> (r: bool)
    ensures
        r == state@.is_new_token(fingerprint@),
        r <==> {
            &&& !(state.token_fingerprint matches Some(known) && known@ == fingerprint@)
            &&& !(state.token_change_probe_fingerprint matches Some(probed) && probed@
                == fingerprint@)
        },
{
    !is_text(&state.token_fingerprint, fingerprint) && !is_text(
        &state.token_change_probe_fingerprint,
        fingerprint,
    )
}

/// The usage to show under this token.
pub fn displayable_usage(state: &SharedUsageState, fingerprint: &str) -> (r: Option<
    UsageLimitsData,
>)
    ensures
        r.deep_view() == state@.shown(fingerprint@),
        r == if state.token_fingerprint matches Some(owner) && owner@ == fingerprint@ {
            state.usage
        } else {
            None
        },
{
    if is_text(&state.token_fingerprint, fingerprint) {
        state.usage.clone()
    } else {
        None
    }
}

// ---------------------------------------------------------------------------
// What an attempt does to the state
// ---------------------------------------------------------------------------

/// Of two times that may be unknown, the earlier one behind `now`.
pub open spec fn earliest_after(a: Option<u64>, b: Option<u64>, now: u64) -> Option<u64> {
    match (a, b) {
        (Some(x), Some(y)) if x > now && y > now => Some(min(x as int, y as int) as u64),
        (Some(x), _) if x > now => Some(x),
        (_, Some(y)) if y > now => Some(y),
        _ => None,
    }
}

/// When one of the standard periods resets next.
pub open spec fn next_reset(data: UsageLimits, now: u64) -> Option<u64> {
    earliest_after(
        timestamp::timestamp_epoch(data.five_hour_resets_at),
        timestamp::timestamp_epoch(data.seven_day_resets_at),
        now,
    )
}

/// The earliest reset behind `now` that the limits name, if any.
pub fn earliest_future_reset(data: &UsageLimitsData, now: u64) -> (r: Option<u64>)
    ensures
        r == next_reset(data@, now),
        r matches Some(reset) ==> reset > now,
{
    let five_hour: Option<u64> = iso8601_to_epoch(data.five_hour_resets_at.as_str());
    let seven_day: Option<u64> = iso8601_to_epoch(data.seven_day_resets_at.as_str());
    match (five_hour, seven_day) {
        (Some(x), Some(y)) => {
            if x > now && y > now {
                if x <= y {
                    Some(x)
                } else {
                    Some(y)
                }
            } else if x > now {
                Some(x)
            } else if y > now {
                Some(y)
            } else {
                None
            }
        },
        (Some(x), None) => if x > now {
            Some(x)
        } else {
            None
        },
        (None, Some(y)) => if y > now {
            Some(y)
        } else {
            None
        },
        (None, None) => None,
    }
}

/// When to fetch next after a success: one interval on. Where a reset is due
/// within two intervals, not before it has had time to show.
pub open spec fn next_after_success(data: UsageLimits, now: u64, api_interval: u64) -> int {
    let ordinary = now + api_interval;
    match next_reset(data, now) {
        Some(reset) if reset + RESET_CONFIRMATION_BUFFER_SECS < ordinary + api_interval => max(
            ordinary,
            reset + RESET_CONFIRMATION_BUFFER_SECS,
        ),
        _ => ordinary,
    }
}

/// One error more; the count stops at its limit.
pub open spec fn one_more(errors: u32) -> u32 {
    if errors < u32::MAX {
        (errors + 1) as u32
    } else {
        errors
    }
}

/// Seconds to wait when the service limits the rate: what it asks for, between
/// one interval and the maximum; a backoff where it asks for nothing.
pub open spec fn rate_limit_delay(asked: Option<u64>, api_interval: u64, errors: u32) -> int {
    match asked {
        Some(seconds) => min(
            max(seconds as int, api_interval as int),
            MAX_RATE_LIMIT_BACKOFF_SECS as int,
        ),
        None => backoff(api_interval, errors, MAX_RATE_LIMIT_BACKOFF_SECS),
    }
}

impl UsageState {
    /// When the schedule lets a fetch happen again after this outcome.
    pub open spec fn next_fetch(self, outcome: Outcome, now: u64, api_interval: u64) -> int {
        let errors = one_more(self.consecutive_errors);
        match outcome {
            Outcome::Success(data) => next_after_success(data, now, api_interval),
            Outcome::RateLimited(asked) => now + rate_limit_delay(asked, api_interval, errors),
            Outcome::Unauthorized => now + TRANSIENT_ERROR_RETRY_SECS,
            Outcome::NetworkError => now + TRANSIENT_ERROR_RETRY_SECS,
            Outcome::InvalidResponse => now + TRANSIENT_ERROR_RETRY_SECS,
            Outcome::ServerError(_) => now + backoff(
                TRANSIENT_ERROR_RETRY_SECS,
                errors,
                MAX_SERVER_ERROR_BACKOFF_SECS,
            ),
        }
    }

    /// The times that follow from this outcome can be written down in 64 bits.
    pub open spec fn in_range(self, outcome: Outcome, now: u64, api_interval: u64) -> bool {
        &&& self.next_fetch(outcome, now, api_interval) <= u64::MAX
        &&& outcome matches Outcome::Success(data) ==> {
            &&& now + api_interval <= u64::MAX
            &&& next_reset(data, now) is Some ==> now + 2 * api_interval <= u64::MAX
        }
    }

    /// The state after an attempt with this token. A success replaces the usage
    /// and clears what failures left; a failure leaves the usage alone.
    pub open spec fn after(
        self,
        outcome: Outcome,
        now: u64,
        api_interval: u64,
        fingerprint: Seq<char>,
    ) -> UsageState {
        let next = self.next_fetch(outcome, now, api_interval) as u64;
        let errors = one_more(self.consecutive_errors);
        match outcome {
            Outcome::Success(data) => UsageState {
                usage: Some(data),
                next_allowed_at_epoch: next,
                rate_limit_until_epoch: 0,
                consecutive_errors: 0,
                failed_token_fingerprint: None,
                ..self
            },
            Outcome::RateLimited(_) => UsageState {
                next_allowed_at_epoch: next,
                rate_limit_until_epoch: next,
                consecutive_errors: errors,
                ..self
            },
            Outcome::Unauthorized => UsageState {
                next_allowed_at_epoch: next,
                failed_token_fingerprint: Some(fingerprint),
                ..self
            },
            Outcome::NetworkError | Outcome::InvalidResponse | Outcome::ServerError(
                _,
            ) => UsageState { next_allowed_at_epoch: next, consecutive_errors: errors, ..self },
        }
    }
}

/// Seconds to wait when the service limits the rate.
fn rate_limit_delay_secs(asked: Option<u64>, api_interval: u64, errors: u32) -> (r: u64)
    ensures
        r == rate_limit_delay(asked, api_interval, errors),
        r <= MAX_RATE_LIMIT_BACKOFF_SECS,
{
    match asked {
        Some(seconds) => {
            let at_least: u64 = if seconds >= api_interval {
                seconds
            } else {
                api_interval
            };
            if at_least <= MAX_RATE_LIMIT_BACKOFF_SECS {
                at_least
            } else {
                MAX_RATE_LIMIT_BACKOFF_SECS
            }
        },
        None => backoff_secs(api_interval, errors, MAX_RATE_LIMIT_BACKOFF_SECS),
    }
}

/// One error more; the count stops at its limit.
fn count_error(errors: u32) -> (r: u32)
    ensures
        r == one_more(errors),
{
    if errors < u32::MAX {
        errors + 1
    } else {
        errors
    }
}

/// Whether the times that follow from this outcome can be written down in 64
/// bits: they can unless `now` or the interval is out of all proportion.
pub fn outcome_in_range(
    state: &SharedUsageState,
    outcome: &UsageFetchOutcome,
    now: u64,
    api_interval: u64,
) -> (r: bool)
    ensures
        r == state@.in_range(outcome@, now, api_interval),
{
    let errors: u32 = count_error(state.consecutive_errors);
    let room: u64 = u64::MAX - now;
    match outcome {
        UsageFetchOutcome::Success(data) => match earliest_future_reset(data, now) {
            Some(_) => api_interval <= room / 2,
            None => api_interval <= room,
        },
        UsageFetchOutcome::RateLimited { retry_after_seconds } => {
            rate_limit_delay_secs(*retry_after_seconds, api_interval, errors) <= room
        },
        UsageFetchOutcome::ServerError { .. } => {
            backoff_secs(TRANSIENT_ERROR_RETRY_SECS, errors, MAX_SERVER_ERROR_BACKOFF_SECS) <= room
        },
        UsageFetchOutcome::Unauthorized | UsageFetchOutcome::NetworkError
        | UsageFetchOutcome::InvalidResponse => TRANSIENT_ERROR_RETRY_SECS <= room,
    }
}

/// Records an attempt with the token `attempted_fingerprint`. A refusal is held
/// against that token, whatever token the state's usage was fetched under.
pub fn apply_fetch_outcome(
    state: &mut SharedUsageState,
    outcome: UsageFetchOutcome,
    now: u64,
    api_interval: u64,
    attempted_fingerprint: &str,
)
    requires
        old(state)@.in_range(outcome@, now, api_interval),
    ensures
        final(state)@ == old(state)@.after(outcome@, now, api_interval, attempted_fingerprint@),
        final(state).schema_version == old(state).schema_version,
        final(state).token_fingerprint == old(state).token_fingerprint,
        final(state).token_change_probe_fingerprint == old(state).token_change_probe_fingerprint,
        outcome matches UsageFetchOutcome::Success(data) ==> final(state).usage == Some(data),
        !(outcome is Success) ==> final(state).usage == old(state).usage,
        final(state).next_allowed_at_epoch >= now,
{
    let errors: u32 = count_error(state.consecutive_errors);
    match outcome {
        UsageFetchOutcome::Success(data) => {
            let reset: Option<u64> = earliest_future_reset(&data, now);
            let ordinary_next: u64 = now + api_interval;
            let next: u64 = match reset {
                Some(r) => {
                    let confirmed: u64 = r + RESET_CONFIRMATION_BUFFER_SECS;
                    if confirmed < ordinary_next + api_interval && confirmed > ordinary_next {
                        confirmed
                    } else {
                        ordinary_next
                    }
                },
                None => ordinary_next,
            };
            state.usage = Some(data);
            state.next_allowed_at_epoch = next;
            state.rate_limit_until_epoch = 0;
            state.consecutive_errors = 0;
            state.failed_token_fingerprint = None;
        },
        UsageFetchOutcome::RateLimited { retry_after_seconds } => {
            state.consecutive_errors = errors;
            let delay: u64 = rate_limit_delay_secs(retry_after_seconds, api_interval, errors);
            state.rate_limit_until_epoch = now + delay;
            state.next_allowed_at_epoch = state.rate_limit_until_epoch;
        },
        UsageFetchOutcome::Unauthorized => {
            state.failed_token_fingerprint = Some(String::from_str(attempted_fingerprint));
            state.next_allowed_at_epoch = now + TRANSIENT_ERROR_RETRY_SECS;
        },
        UsageFetchOutcome::NetworkError | UsageFetchOutcome::InvalidResponse => {
            state.consecutive_errors = errors;
            state.next_allowed_at_epoch = now + TRANSIENT_ERROR_RETRY_SECS;
        },
        UsageFetchOutcome::ServerError { .. } => {
            state.consecutive_errors = errors;
            let delay: u64 = backoff_secs(
                TRANSIENT_ERROR_RETRY_SECS,
                errors,
                MAX_SERVER_ERROR_BACKOFF_SECS,
            );
            state.next_allowed_at_epoch = now + delay;
        },
    }
}

// ---------------------------------------------------------------------------
// What a process does
// ---------------------------------------------------------------------------

impl UsageState {
    /// The state with which a fetch starts. A new token owes nothing to the
    /// history of the old one: its refusals, its schedule, its cooldown and its
    /// errors are forgotten.
    pub open spec fn prepared(self, fingerprint: Seq<char>, now: u64) -> UsageState {
        if self.is_new_token(fingerprint) {
            UsageState {
                failed_token_fingerprint: None,
                next_allowed_at_epoch: now,
                rate_limit_until_epoch: 0,
                consecutive_errors: 0,
                ..self
            }
        } else {
            self
        }
    }

    /// The state to keep after an attempt. A success makes the token the one
    /// that the usage belongs to. A failure never does; it uses up the one fetch
    /// out of schedule of a new token.
    pub open spec fn recorded(
        self,
        new_token: bool,
        outcome: Outcome,
        now: u64,
        api_interval: u64,
        fingerprint: Seq<char>,
    ) -> UsageState {
        let after = self.after(outcome, now, api_interval, fingerprint);
        if outcome is Success {
            UsageState {
                token_fingerprint: Some(fingerprint),
                token_change_probe_fingerprint: None,
                ..after
            }
        } else if new_token {
            UsageState { token_change_probe_fingerprint: Some(fingerprint), ..after }
        } else {
            after
        }
    }
}

/// What a process has to show in the end.
#[derive(Debug)]
pub struct SharedUsageResolution {
    pub usage: Option<UsageLimitsData>,
}

/// How far a process has come.
#[derive(Debug)]
pub enum ResolvePhase {
    /// The state is being read, without the lock.
    ReadingState,
    /// The lock is being tried for; this state was read before.
    Locking(SharedUsageState),
    /// The lock is held, and the state is being read again.
    RereadingState,
    /// The lock is held, and the service is being asked.
    Fetching { state: SharedUsageState, new_token: bool },
    /// The lock is held, and the state is being written. Then this is shown.
    Persisting(SharedUsageResolution),
    Done,
}

/// What to do next, outside this library.
#[derive(Debug)]
pub enum ResolveAction {
    LoadState,
    AcquireLock,
    Fetch,
    Persist(SharedUsageState),
    /// Show this. The lock is released if it was acquired.
    Finish(SharedUsageResolution),
}

/// What came of it.
#[derive(Debug)]
pub enum ResolveEvent {
    StateLoaded(SharedUsageState),
    LockAcquired,
    LockUnavailable,
    Fetched(UsageFetchOutcome),
    /// The state was written, or could not be: it makes no difference here.
    Persisted,
}

/// One process resolving the usage of one token.
#[derive(Debug)]
pub struct ResolveRun {
    pub fingerprint: String,
    pub api_interval: u64,
    pub now: u64,
    pub phase: ResolvePhase,
}

/// The view of `ResolvePhase`.
pub enum Phase {
    ReadingState,
    Locking(UsageState),
    RereadingState,
    Fetching { state: UsageState, new_token: bool },
    Persisting(Option<UsageLimits>),
    Done,
}

impl View for ResolvePhase {
    type V = Phase;

    open spec fn view(&self) -> Phase {
        match self {
            ResolvePhase::ReadingState => Phase::ReadingState,
            ResolvePhase::Locking(state) => Phase::Locking(state@),
            ResolvePhase::RereadingState => Phase::RereadingState,
            ResolvePhase::Fetching { state, new_token } => Phase::Fetching {
                state: state@,
                new_token: *new_token,
            },
            ResolvePhase::Persisting(resolution) => Phase::Persisting(resolution.usage.deep_view()),
            ResolvePhase::Done => Phase::Done,
        }
    }
}

/// The view of `ResolveAction`.
pub enum Action {
    LoadState,
    AcquireLock,
    Fetch,
    Persist(UsageState),
    Finish(Option<UsageLimits>),
}

impl View for ResolveAction {
    type V = Action;

    open spec fn view(&self) -> Action {
        match self {
            ResolveAction::LoadState => Action::LoadState,
            ResolveAction::AcquireLock => Action::AcquireLock,
            ResolveAction::Fetch => Action::Fetch,
            ResolveAction::Persist(state) => Action::Persist(state@),
            ResolveAction::Finish(resolution) => Action::Finish(resolution.usage.deep_view()),
        }
    }
}

/// The view of `ResolveEvent`.
pub enum Event {
    StateLoaded(UsageState),
    LockAcquired,
    LockUnavailable,
    Fetched(Outcome),
    Persisted,
}

impl View for ResolveEvent {
    type V = Event;

    open spec fn view(&self) -> Event {
        match self {
            ResolveEvent::StateLoaded(state) => Event::StateLoaded(state@),
            ResolveEvent::LockAcquired => Event::LockAcquired,
            ResolveEvent::LockUnavailable => Event::LockUnavailable,
            ResolveEvent::Fetched(outcome) => Event::Fetched(outcome@),
            ResolveEvent::Persisted => Event::Persisted,
        }
    }
}

/// What stays the same through a run.
pub struct Request {
    pub fingerprint: Seq<char>,
    pub api_interval: u64,
    pub now: u64,
}

impl Request {
    /// The events that can follow in a phase.
    pub open spec fn awaits(self, phase: Phase, event: Event) -> bool {
        match (phase, event) {
            (Phase::ReadingState, Event::StateLoaded(_)) => true,
            (Phase::Locking(_), Event::LockAcquired) => true,
            (Phase::Locking(_), Event::LockUnavailable) => true,
            (Phase::RereadingState, Event::StateLoaded(_)) => true,
            (Phase::Fetching { state, .. }, Event::Fetched(outcome)) => state.in_range(
                outcome,
                self.now,
                self.api_interval,
            ),
            (Phase::Persisting(_), Event::Persisted) => true,
            _ => false,
        }
    }

    /// What an event leads to.
    pub open spec fn step(self, phase: Phase, event: Event) -> (Phase, Action) {
        match (phase, event) {
            (Phase::ReadingState, Event::StateLoaded(state)) => if state.calls_for_fetch(
                self.fingerprint,
                self.now,
            ) {
                (Phase::Locking(state), Action::AcquireLock)
            } else {
                (Phase::Done, Action::Finish(state.shown(self.fingerprint)))
            },
            (Phase::Locking(_), Event::LockAcquired) => (Phase::RereadingState, Action::LoadState),
            (Phase::Locking(state), Event::LockUnavailable) => (
                Phase::Done,
                Action::Finish(state.shown(self.fingerprint)),
            ),
            (Phase::RereadingState, Event::StateLoaded(state)) => if state.calls_for_fetch(
                self.fingerprint,
                self.now,
            ) {
                (
                    Phase::Fetching {
                        state: state.prepared(self.fingerprint, self.now),
                        new_token: state.is_new_token(self.fingerprint),
                    },
                    Action::Fetch,
                )
            } else {
                (Phase::Done, Action::Finish(state.shown(self.fingerprint)))
            },
            (Phase::Fetching { state, new_token }, Event::Fetched(outcome)) => {
                let recorded = state.recorded(
                    new_token,
                    outcome,
                    self.now,
                    self.api_interval,
                    self.fingerprint,
                );
                (
                    Phase::Persisting(recorded.shown(self.fingerprint)),
                    Action::Persist(recorded),
                )
            },
            (Phase::Persisting(shown), Event::Persisted) => (Phase::Done, Action::Finish(shown)),
            _ => (Phase::Done, Action::Finish(None)),
        }
    }
}

impl ResolveRun {
    pub open spec fn request(self) -> Request {
        Request {
            fingerprint: self.fingerprint@,
            api_interval: self.api_interval,
            now: self.now,
        }
    }
}

/// Starts to resolve usage: there is nothing to show without a token; with one,
/// the state is to be read first.
pub fn resolve_shared_usage(
    token_fingerprint: Option<&str>,
    configured_ttl: Option<u64>,
    now: u64,
) -> (r: (ResolveRun, ResolveAction))
    ensures
        r.0.now == now,
        r.0.api_interval == max(
            configured_ttl.unwrap_or(DEFAULT_API_INTERVAL_SECS) as int,
            MIN_API_INTERVAL_SECS as int,
        ),
        configured_ttl matches Some(ttl) ==> {
            &&& ttl >= 180 ==> r.0.api_interval == ttl
            &&& ttl < 180 ==> r.0.api_interval == 180
        },
        configured_ttl is None ==> r.0.api_interval == 180,
        match token_fingerprint {
            Some(fingerprint) => {
                &&& r.0.fingerprint@ == fingerprint@
                &&& r.0.phase@ == Phase::ReadingState
                &&& r.1@ == Action::LoadState
            },
            None => {
                &&& r.0.fingerprint@ == Seq::<char>::empty()
                &&& r.0.phase@ == Phase::Done
                &&& r.1@ == Action::Finish(None)
            },
        },
{
    let api_interval: u64 = effective_interval(configured_ttl);
    match token_fingerprint {
        Some(fingerprint) => (
            ResolveRun {
                fingerprint: String::from_str(fingerprint),
                api_interval,
                now,
                phase: ResolvePhase::ReadingState,
            },
            ResolveAction::LoadState,
        ),
        None => (
            ResolveRun {
                fingerprint: String::new(),
                api_interval,
                now,
                phase: ResolvePhase::Done,
            },
            ResolveAction::Finish(SharedUsageResolution { usage: None }),
        ),
    }
}

/// Takes a run one step further.
pub fn resolve_step(run: ResolveRun, event: ResolveEvent) -> (r: (ResolveRun, ResolveAction))
    requires
        run.request().awaits(run.phase@, event@),
    ensures
        r.0.request() == run.request(),
        (r.0.phase@, r.1@) == run.request().step(run.phase@, event@),
        match (run.phase, event) {
            (ResolvePhase::Persisting(resolution), ResolveEvent::Persisted) => r.1
                == ResolveAction::Finish(resolution),
            (
                ResolvePhase::Fetching { .. },
                ResolveEvent::Fetched(UsageFetchOutcome::Success(data)),
            ) => {
                &&& r.0.phase matches ResolvePhase::Persisting(resolution) && resolution.usage
                    == Some(data)
                &&& r.1 matches ResolveAction::Persist(state) && state.usage == Some(data)
            },
            _ => true,
        },
{
    let ResolveRun { fingerprint, api_interval, now, phase } = run;
    let (next, action): (ResolvePhase, ResolveAction) = match (phase, event) {
        (ResolvePhase::ReadingState, ResolveEvent::StateLoaded(state)) => {
            if is_fresh_token_change(&state, fingerprint.as_str()) || fetch_may_be_needed(
                &state,
                fingerprint.as_str(),
                now,
            ) {
                (ResolvePhase::Locking(state), ResolveAction::AcquireLock)
            } else {
                finish(&state, fingerprint.as_str())
            }
        },
        (ResolvePhase::Locking(_), ResolveEvent::LockAcquired) => (
            ResolvePhase::RereadingState,
            ResolveAction::LoadState,
        ),
        (ResolvePhase::Locking(state), ResolveEvent::LockUnavailable) => finish(
            &state,
            fingerprint.as_str(),
        ),
        (ResolvePhase::RereadingState, ResolveEvent::StateLoaded(state)) => {
            let mut state: SharedUsageState = state;
            let new_token: bool = is_fresh_token_change(&state, fingerprint.as_str());
            if new_token {
                state.failed_token_fingerprint = None;
                state.next_allowed_at_epoch = now;
                state.rate_limit_until_epoch = 0;
                state.consecutive_errors = 0;
                (ResolvePhase::Fetching { state, new_token }, ResolveAction::Fetch)
            } else if fetch_may_be_needed(&state, fingerprint.as_str(), now) {
                (ResolvePhase::Fetching { state, new_token }, ResolveAction::Fetch)
            } else {
                finish(&state, fingerprint.as_str())
            }
        },
        (ResolvePhase::Fetching { state, new_token }, ResolveEvent::Fetched(outcome)) => {
            let mut state: SharedUsageState = state;
            let succeeded: bool = match &outcome {
                UsageFetchOutcome::Success(_) => true,
                _ => false,
            };
            apply_fetch_outcome(&mut state, outcome, now, api_interval, fingerprint.as_str());
            if succeeded {
                state.token_fingerprint = Some(fingerprint.clone());
                state.token_change_probe_fingerprint = None;
            } else if new_token {
                state.token_change_probe_fingerprint = Some(fingerprint.clone());
            }
            let usage: Option<UsageLimitsData> = displayable_usage(&state, fingerprint.as_str());
            (
                ResolvePhase::Persisting(SharedUsageResolution { usage }),
                ResolveAction::Persist(state),
            )
        },
        (ResolvePhase::Persisting(resolution), ResolveEvent::Persisted) => (
            ResolvePhase::Done,
            ResolveAction::Finish(resolution),
        ),
        _ => (ResolvePhase::Done, ResolveAction::Finish(SharedUsageResolution { usage: None })),
    };
    (ResolveRun { fingerprint, api_interval, now, phase: next }, action)
}

/// Ends a run with what a state has to show.
fn finish(state: &SharedUsageState, fingerprint: &str) -> (r: (ResolvePhase, ResolveAction))
    ensures
        r.0@ == Phase::Done,
        r.1@ == Action::Finish(state@.shown(fingerprint@)),
{
    let usage: Option<UsageLimitsData> = displayable_usage(state, fingerprint);
    (ResolvePhase::Done, ResolveAction::Finish(SharedUsageResolution { usage }))
}

} // verus!
