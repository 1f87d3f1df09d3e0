//! The lock that lets one process at a time ask the service.
//!
//! The lock is a file: whoever creates it holds the lock, and removes it again.
//! A lock file that has grown old was left behind by a process that died, and
//! may be taken over. Nobody ever waits for the lock.

use vstd::prelude::*;

use crate::paths::PathBelow;
use crate::text;
use crate::text::{push_decimal, same_text};

verus! {

pub const LOCK_FILE_NAME: &'static str = "usage-limits-fetch.lock";

pub const LOCK_STALE_AFTER_SECS: u64 = 15;

/// Where the lock file is, below the shared cache directory.
pub fn lock_file_path_in() -> (r: PathBelow)
    ensures
        r@ == seq![LOCK_FILE_NAME@],
        r@ == seq!["usage-limits-fetch.lock"@],
{
    PathBelow::file(String::from_str(LOCK_FILE_NAME))
}

// ---------------------------------------------------------------------------
// Owners
// ---------------------------------------------------------------------------

/// What the lock file holds while a process holds the lock.
pub open spec fn owner_token(process_id: u32, nanos: u128) -> Seq<char> {
    text::decimal(process_id as nat) + seq!['-'] + text::decimal(nanos as nat)
}

/// Makes the token of one attempt, from the process and the time in nanoseconds
/// since 1970; `None` stands for a clock set before that.
pub fn generate_owner_token(process_id: u32, nanos: Option<u128>) -> (r: String)
    ensures
        r@ == owner_token(process_id, nanos.unwrap_or(0)),
{
    let time: u128 = match nanos {
        Some(n) => n,
        None => 0,
    };
    let mut token: String = String::new();
    push_decimal(&mut token, process_id as u128);
    token.push('-');
    push_decimal(&mut token, time);
    assert(token@ =~= owner_token(process_id, nanos.unwrap_or(0)));
    token
}

/// The lock, held by the owner of this token.
#[derive(Debug)]
pub struct FetchLock {
    pub token: String,
}

impl FetchLock {
    /// Whether the lock file is this owner's to remove: only while it holds this
    /// owner's token. One that cannot be read, or that somebody else has taken
    /// over, is left alone.
    pub fn removes_on_drop(&self, contents: Option<&str>) -> (r: bool)
        ensures
            r == (text::chars_of_option(contents) == Some(self.token@)),
            contents matches Some(c) ==> forall|age: LockAge| #[trigger]
                release(Some(LockFile { contents: c@, age }), self.token@) is None <==> r,
    {
        match contents {
            Some(c) => same_text(c, self.token.as_str()),
            None => false,
        }
    }
}

/// Tokens of different processes, or of one process at different times, differ.
pub proof fn law_owner_tokens_differ(process_a: u32, nanos_a: u128, process_b: u32, nanos_b: u128)
    requires
        process_a != process_b || nanos_a != nanos_b,
    ensures
        owner_token(process_a, nanos_a) != owner_token(process_b, nanos_b),
{
    lemma_token_splits(process_a, nanos_a);
    lemma_token_splits(process_b, nanos_b);
    text::law_decimal_reads_back(process_a as nat);
    text::law_decimal_reads_back(process_b as nat);
    text::law_decimal_reads_back(nanos_a as nat);
    text::law_decimal_reads_back(nanos_b as nat);
}

/// An owner's token names its process and its time: the process in front of the
/// dash, the time behind it.
pub proof fn law_owner_token_names_its_owner(process_id: u32, nanos: u128)
    ensures
        text::number_value(text::before(owner_token(process_id, nanos), '-')) == process_id,
        text::after(owner_token(process_id, nanos), '-') is Some,
        text::number_value(text::after(owner_token(process_id, nanos), '-')->0) == nanos,
{
    lemma_token_splits(process_id, nanos);
    text::law_decimal_reads_back(process_id as nat);
    text::law_decimal_reads_back(nanos as nat);
}

proof fn lemma_token_splits(process_id: u32, nanos: u128)
    ensures
        text::before(owner_token(process_id, nanos), '-') == text::decimal(process_id as nat),
        text::after(owner_token(process_id, nanos), '-') == Some(text::decimal(nanos as nat)),
{
    let left = text::decimal(process_id as nat);
    let right = text::decimal(nanos as nat);
    text::law_decimal_reads_back(process_id as nat);
    text::lemma_number_has_no(left, '-');
    text::lemma_split_at(left, right, '-');
    assert(left + (seq!['-'] + right) =~= owner_token(process_id, nanos));
}

// ---------------------------------------------------------------------------
// Acquiring
// ---------------------------------------------------------------------------

/// How old a lock file is.
#[derive(Clone, Copy, Debug, PartialEq, Eq, Structural)]
pub enum LockAge {
    /// Nothing can be learnt of the file.
    Unreadable,
    /// The file has no time of modification.
    Unknown,
    /// It was modified later than now, by a clock that runs ahead.
    InFuture,
    /// Whole seconds since it was modified.
    Seconds(u64),
}

pub open spec fn is_stale(age: LockAge) -> bool {
    match age {
        LockAge::Unreadable => true,
        LockAge::Unknown => true,
        LockAge::InFuture => false,
        LockAge::Seconds(n) => n > LOCK_STALE_AFTER_SECS,
    }
}

/// Whether a lock file may be taken over.
pub fn lock_is_stale(age: LockAge) -> (r: bool)
    ensures
        r == is_stale(age),
{
    match age {
        LockAge::Unreadable | LockAge::Unknown => true,
        LockAge::InFuture => false,
        LockAge::Seconds(n) => n > LOCK_STALE_AFTER_SECS,
    }
}

/// A lock file is taken over once it is more than 15 seconds old, and from then on;
/// not before that, nor while it seems to come from the future. One of which nothing
/// can be learnt may be taken over at once.
pub proof fn law_locks_grow_stale(seconds: u64)
    ensures
        seconds <= 15 ==> !is_stale(LockAge::Seconds(seconds)),
        seconds > 15 ==> is_stale(LockAge::Seconds(seconds)),
        !is_stale(LockAge::InFuture),
        is_stale(LockAge::Unreadable),
        is_stale(LockAge::Unknown),
{
}

/// The steps of acquiring the lock.
#[derive(Clone, Copy, Debug, PartialEq, Eq, Structural)]
pub enum LockStep {
    /// Create the cache directory if it is missing.
    CreateDir,
    /// Create the lock file, which must not exist, and write the token into it.
    Create,
    /// Find out whether the lock file is stale; a stale one counts as success.
    CheckStale,
    /// Remove the stale lock file.
    RemoveStale,
    /// Create the lock file once more.
    CreateAgain,
    /// The lock is held.
    Acquired,
    /// Somebody else holds the lock, or there can be none.
    Unavailable,
}

/// The step that follows one that has succeeded or failed.
pub open spec fn step_after(step: LockStep, succeeded: bool) -> LockStep {
    match step {
        LockStep::CreateDir => if succeeded {
            LockStep::Create
        } else {
            LockStep::Unavailable
        },
        LockStep::Create => if succeeded {
            LockStep::Acquired
        } else {
            LockStep::CheckStale
        },
        LockStep::CheckStale => if succeeded {
            LockStep::RemoveStale
        } else {
            LockStep::Unavailable
        },
        LockStep::RemoveStale => LockStep::CreateAgain,
        LockStep::CreateAgain => if succeeded {
            LockStep::Acquired
        } else {
            LockStep::Unavailable
        },
        LockStep::Acquired => LockStep::Acquired,
        LockStep::Unavailable => LockStep::Unavailable,
    }
}

/// Says with which step acquiring starts: there is no lock where there is no
/// shared cache directory.
pub fn try_acquire_fetch_lock(has_cache_dir: bool) -> (r: LockStep)
    ensures
        r == if has_cache_dir {
            LockStep::CreateDir
        } else {
            LockStep::Unavailable
        },
{
    if has_cache_dir {
        LockStep::CreateDir
    } else {
        LockStep::Unavailable
    }
}

/// Says which step follows.
pub fn try_acquire_fetch_lock_in(step: LockStep, succeeded: bool) -> (r: LockStep)
    ensures
        r == step_after(step, succeeded),
{
    match step {
        LockStep::CreateDir => if succeeded {
            LockStep::Create
        } else {
            LockStep::Unavailable
        },
        LockStep::Create => if succeeded {
            LockStep::Acquired
        } else {
            LockStep::CheckStale
        },
        LockStep::CheckStale => if succeeded {
            LockStep::RemoveStale
        } else {
            LockStep::Unavailable
        },
        LockStep::RemoveStale => LockStep::CreateAgain,
        LockStep::CreateAgain => if succeeded {
            LockStep::Acquired
        } else {
            LockStep::Unavailable
        },
        LockStep::Acquired => LockStep::Acquired,
        LockStep::Unavailable => LockStep::Unavailable,
    }
}

/// Whatever happens at each step, the lock is held in the end if and only if the
/// directory was there and the file could be created: at once, or, where it was
/// stale, at the second and last attempt. Whether the stale file could be removed
/// decides nothing by itself.
pub proof fn law_lock_is_held_if_the_file_was_created(
    dir_made: bool,
    created: bool,
    stale: bool,
    removed: bool,
    created_again: bool,
)
    ensures
        ({
            let first = step_after(LockStep::CreateDir, dir_made);
            let second = step_after(first, created);
            let third = step_after(second, stale);
            let fourth = step_after(third, removed);
            let last = step_after(fourth, created_again);
            &&& first == LockStep::Create <==> dir_made
            &&& second == LockStep::CheckStale <==> dir_made && !created
            &&& third == LockStep::RemoveStale <==> dir_made && !created && stale
            &&& fourth == LockStep::CreateAgain <==> dir_made && !created && stale
            &&& last == LockStep::Acquired <==> dir_made && (created || stale && created_again)
            &&& last == LockStep::Acquired || last == LockStep::Unavailable
        }),
{
}

/// Where a try for the lock has ended, it stays ended.
pub proof fn law_ended_tries_stay_ended(succeeded: bool)
    ensures
        step_after(LockStep::Acquired, succeeded) == LockStep::Acquired,
        step_after(LockStep::Unavailable, succeeded) == LockStep::Unavailable,
{
}

/// A lock file: what it holds, and how old it is.
pub struct LockFile {
    pub contents: Seq<char>,
    pub age: LockAge,
}

/// What a step does to the lock file while nobody else touches it, and whether
/// it succeeds.
pub open spec fn perform(
    step: LockStep,
    file: Option<LockFile>,
    token: Seq<char>,
) -> (Option<LockFile>, bool) {
    match step {
        LockStep::Create | LockStep::CreateAgain => match file {
            Some(_) => (file, false),
            None => (Some(LockFile { contents: token, age: LockAge::Seconds(0) }), true),
        },
        LockStep::CheckStale => (
            file,
            is_stale(
                match file {
                    Some(f) => f.age,
                    None => LockAge::Unreadable,
                },
            ),
        ),
        LockStep::RemoveStale => (None, true),
        _ => (file, true),
    }
}

/// How many steps can still follow.
pub open spec fn steps_left(step: LockStep) -> nat {
    match step {
        LockStep::CreateDir => 5,
        LockStep::Create => 4,
        LockStep::CheckStale => 3,
        LockStep::RemoveStale => 2,
        LockStep::CreateAgain => 1,
        LockStep::Acquired => 0,
        LockStep::Unavailable => 0,
    }
}

/// Goes through the steps to the end. Every step leads on to a later one, so
/// that no step is done twice and nobody waits.
pub open spec fn acquire_from(
    step: LockStep,
    file: Option<LockFile>,
    token: Seq<char>,
) -> (Option<LockFile>, bool)
    decreases steps_left(step),
{
    if step == LockStep::Acquired || step == LockStep::Unavailable {
        (file, step == LockStep::Acquired)
    } else {
        let (next_file, succeeded) = perform(step, file, token);
        acquire_from(step_after(step, succeeded), next_file, token)
    }
}

/// Tries to acquire the lock: what becomes of the lock file, and whether the
/// lock is held.
pub open spec fn acquire(file: Option<LockFile>, token: Seq<char>) -> (Option<LockFile>, bool) {
    acquire_from(LockStep::CreateDir, file, token)
}

/// Releases the lock: the file goes if it holds the owner's token.
pub open spec fn release(file: Option<LockFile>, token: Seq<char>) -> Option<LockFile> {
    match file {
        Some(f) if f.contents == token => None,
        _ => file,
    }
}

/// The lock goes to whoever asks, unless there is a lock file that is not stale:
/// that one stays as it is. Whoever gets the lock has its token in the file.
pub proof fn law_lock_is_granted(file: Option<LockFile>, token: Seq<char>)
    ensures
        acquire(file, token).1 <==> (file is None || is_stale(file->0.age)),
        acquire(file, token).1 ==> acquire(file, token).0 == Some(
            LockFile { contents: token, age: LockAge::Seconds(0) },
        ),
        !acquire(file, token).1 ==> acquire(file, token).0 == file,
{
    reveal_with_fuel(acquire_from, 6);
}

/// While one owner holds the lock, and until it has grown old, nobody else gets
/// it.
pub proof fn law_lock_excludes(file: Option<LockFile>, owner: Seq<char>, other: Seq<char>, secs: u64)
    requires
        acquire(file, owner).1,
        secs <= LOCK_STALE_AFTER_SECS,
    ensures
        ({
            let held = Some(LockFile { age: LockAge::Seconds(secs), ..acquire(file, owner).0->0 });
            acquire(held, other) == (held, false)
        }),
{
    law_lock_is_granted(file, owner);
    law_lock_is_granted(
        Some(LockFile { age: LockAge::Seconds(secs), ..acquire(file, owner).0->0 }),
        other,
    );
}

/// A lock that its owner releases is free for the next one.
pub proof fn law_released_lock_is_free(file: Option<LockFile>, owner: Seq<char>, next: Seq<char>)
    requires
        acquire(file, owner).1,
    ensures
        release(acquire(file, owner).0, owner) is None,
        acquire(release(acquire(file, owner).0, owner), next).1,
{
    law_lock_is_granted(file, owner);
    law_lock_is_granted(None, next);
}

/// An owner that was so slow that another one took the lock over does not take
/// it away from that one.
pub proof fn law_reclaimed_lock_is_respected(
    file: Option<LockFile>,
    slow: Seq<char>,
    other: Seq<char>,
)
    requires
        slow != other,
        acquire(file, other).1,
    ensures
        release(acquire(file, other).0, slow) == acquire(file, other).0,
{
    law_lock_is_granted(file, other);
}

/// What a process does about the lock, when no lock file has grown old.
pub enum Move {
    /// Tries to create the lock file.
    Create,
    /// Releases the lock, where it holds it.
    Release,
}

/// The lock file, and the tokens of those who hold the lock.
pub struct Contest {
    pub file: Option<LockFile>,
    pub holders: Set<Seq<char>>,
}

/// What a move leads to.
pub open spec fn after_move(c: Contest, token: Seq<char>, m: Move) -> Contest {
    match m {
        Move::Create => {
            let (file, created) = perform(LockStep::Create, c.file, token);
            Contest {
                file,
                holders: if step_after(LockStep::Create, created) == LockStep::Acquired {
                    c.holders.insert(token)
                } else {
                    c.holders
                },
            }
        },
        Move::Release => if c.holders.contains(token) {
            Contest { file: release(c.file, token), holders: c.holders.remove(token) }
        } else {
            c
        },
    }
}

/// Who holds the lock after a number of moves, in whatever order the processes
/// made them.
pub open spec fn contest(moves: Seq<(Seq<char>, Move)>) -> Contest
    decreases moves.len(),
{
    if moves.len() == 0 {
        Contest { file: None, holders: Set::empty() }
    } else {
        after_move(contest(moves.drop_last()), moves.last().0, moves.last().1)
    }
}

/// However the processes take turns, no two of them hold the lock at once, and
/// the file holds the token of the one that does.
pub proof fn law_one_holder_at_a_time(moves: Seq<(Seq<char>, Move)>, a: Seq<char>, b: Seq<char>)
    requires
        contest(moves).holders.contains(a),
        contest(moves).holders.contains(b),
    ensures
        a == b,
        contest(moves).file is Some,
        contest(moves).file->0.contents == a,
{
    lemma_holder_is_in_file(moves, a);
    lemma_holder_is_in_file(moves, b);
}

proof fn lemma_holder_is_in_file(moves: Seq<(Seq<char>, Move)>, a: Seq<char>)
    requires
        contest(moves).holders.contains(a),
    ensures
        contest(moves).file is Some,
        contest(moves).file->0.contents == a,
    decreases moves.len(),
{
    if moves.len() > 0 {
        let before = contest(moves.drop_last());
        if before.holders.contains(a) {
            lemma_holder_is_in_file(moves.drop_last(), a);
        }
    }
}

} // verus!
