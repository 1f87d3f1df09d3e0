//! The file that holds the shared state: how it is read, and how it is replaced.
//!
//! A process may die at any moment, and others read the file meanwhile. So a
//! new state goes into a temporary file first, which then takes the place of
//! the old one in a single move.

use vstd::prelude::*;

use crate::paths::PathBelow;
use crate::text;
use crate::text::push_decimal;
use crate::usage_limits_state::{SharedUsageState, UsageState, CURRENT_SCHEMA_VERSION};

verus! {

pub const STATE_FILE_NAME: &'static str = "usage-limits-state-v2.json";

/// Where the state is kept, below the shared cache directory.
pub fn state_file_path_in() -> (r: PathBelow)
    ensures
        r@ == seq![STATE_FILE_NAME@],
        r@ == seq!["usage-limits-state-v2.json"@],
{
    PathBelow::file(String::from_str(STATE_FILE_NAME))
}

/// The name of the temporary file of a process.
pub open spec fn temp_file_name(process_id: u32) -> Seq<char> {
    STATE_FILE_NAME@ + ".tmp."@ + text::decimal(process_id as nat)
}

/// Where a process writes a new state first, beside the old one.
pub fn temp_file_path_in(process_id: u32) -> (r: PathBelow)
    ensures
        r@ == seq![temp_file_name(process_id)],
{
    let mut name: String = String::from_str(STATE_FILE_NAME);
    name.append(".tmp.");
    push_decimal(&mut name, process_id as u128);
    PathBelow::file(name)
}

// ---------------------------------------------------------------------------
// Reading
// ---------------------------------------------------------------------------

/// What reading the state file came to.
#[derive(Debug)]
pub enum StateFile {
    /// There is no such file, or it cannot be read.
    Unreadable,
    /// It does not hold a state in JSON.
    InvalidJson,
    Parsed(SharedUsageState),
}

/// The state that a file stands for: a fresh one, unless the file holds a state
/// in the current layout.
pub open spec fn loaded(file: StateFile) -> UsageState {
    match file {
        StateFile::Parsed(state) if state.schema_version == CURRENT_SCHEMA_VERSION => state@,
        _ => UsageState::initial(),
    }
}

/// Takes the state from what was read.
pub fn load_state_from_dir(file: StateFile) -> (r: SharedUsageState)
    ensures
        r@ == loaded(file),
{
    match file {
        StateFile::Parsed(state) => {
            if state.schema_version == CURRENT_SCHEMA_VERSION {
                state
            } else {
                SharedUsageState::default_v2()
            }
        },
        StateFile::Unreadable | StateFile::InvalidJson => SharedUsageState::default_v2(),
    }
}

/// Takes the state from what was read; `None` stands for a machine without a
/// shared cache directory.
pub fn load_state_or_default(file: Option<StateFile>) -> (r: SharedUsageState)
    ensures
        r@ == match file {
            Some(f) => loaded(f),
            None => UsageState::initial(),
        },
{
    match file {
        Some(f) => load_state_from_dir(f),
        None => SharedUsageState::default_v2(),
    }
}

/// Whatever the file holds, the state taken from it is in the current layout.
pub proof fn law_loaded_state_is_current(file: StateFile)
    ensures
        loaded(file).schema_version == CURRENT_SCHEMA_VERSION,
{
}

/// A state in the current layout is read as it was written.
pub proof fn law_written_state_reads_back(state: SharedUsageState)
    requires
        state.schema_version == CURRENT_SCHEMA_VERSION,
    ensures
        loaded(StateFile::Parsed(state)) == state@,
{
}

/// A file that is not there, that is no JSON, or that is in another layout counts
/// for nothing: the state taken from it is the one before anything was fetched.
pub proof fn law_unusable_files_count_for_nothing(state: SharedUsageState)
    ensures
        loaded(StateFile::Unreadable) == UsageState::initial(),
        loaded(StateFile::InvalidJson) == UsageState::initial(),
        state.schema_version != 2 ==> loaded(StateFile::Parsed(state)) == UsageState::initial(),
        state.schema_version == 2 ==> loaded(StateFile::Parsed(state)) == state@,
{
}

// ---------------------------------------------------------------------------
// Writing
// ---------------------------------------------------------------------------

/// The steps of writing a state.
#[derive(Clone, Copy, Debug, PartialEq, Eq, Structural)]
pub enum PersistStep {
    /// Create the cache directory if it is missing.
    CreateDir,
    /// Turn the state into JSON.
    Serialize,
    /// Write the JSON to the temporary file, through to the disk.
    WriteTemp,
    /// Move the temporary file over the state file.
    Replace,
    /// Remove the temporary file, which could not be written.
    DiscardPartial,
    /// Remove the temporary file, which could not be moved.
    DiscardUnmoved,
    /// Let only the owner read the state file.
    Restrict,
    Done,
}

/// The step that follows one that has succeeded or failed. Whatever fails, the
/// caller is not troubled with it.
pub open spec fn step_after(step: PersistStep, succeeded: bool) -> PersistStep {
    match step {
        PersistStep::CreateDir => if succeeded {
            PersistStep::Serialize
        } else {
            PersistStep::Done
        },
        PersistStep::Serialize => if succeeded {
            PersistStep::WriteTemp
        } else {
            PersistStep::Done
        },
        PersistStep::WriteTemp => if succeeded {
            PersistStep::Replace
        } else {
            PersistStep::DiscardPartial
        },
        PersistStep::Replace => if succeeded {
            PersistStep::Restrict
        } else {
            PersistStep::DiscardUnmoved
        },
        PersistStep::DiscardPartial => PersistStep::Done,
        PersistStep::DiscardUnmoved => PersistStep::Restrict,
        PersistStep::Restrict => PersistStep::Done,
        PersistStep::Done => PersistStep::Done,
    }
}

/// Says with which step writing starts: with none where there is no shared cache
/// directory.
pub fn persist_state(has_cache_dir: bool) -> (r: PersistStep)
    ensures
        r == if has_cache_dir {
            PersistStep::CreateDir
        } else {
            PersistStep::Done
        },
{
    if has_cache_dir {
        PersistStep::CreateDir
    } else {
        PersistStep::Done
    }
}

/// Says which step follows.
pub fn persist_state_to_dir(step: PersistStep, succeeded: bool) -> (r: PersistStep)
    ensures
        r == step_after(step, succeeded),
{
    match step {
        PersistStep::CreateDir => if succeeded {
            PersistStep::Serialize
        } else {
            PersistStep::Done
        },
        PersistStep::Serialize => if succeeded {
            PersistStep::WriteTemp
        } else {
            PersistStep::Done
        },
        PersistStep::WriteTemp => if succeeded {
            PersistStep::Replace
        } else {
            PersistStep::DiscardPartial
        },
        PersistStep::Replace => if succeeded {
            PersistStep::Restrict
        } else {
            PersistStep::DiscardUnmoved
        },
        PersistStep::DiscardPartial => PersistStep::Done,
        PersistStep::DiscardUnmoved => PersistStep::Restrict,
        PersistStep::Restrict => PersistStep::Done,
        PersistStep::Done => PersistStep::Done,
    }
}

/// What the two files hold; `None` for a file that is not there.
pub struct Files {
    pub temp: Option<Seq<char>>,
    pub target: Option<Seq<char>>,
}

/// What a step may do to the files. A write that fails may leave anything in
/// the temporary file; a move happens or does not.
pub open spec fn may_become(
    step: PersistStep,
    succeeded: bool,
    json: Seq<char>,
    before: Files,
    after: Files,
) -> bool {
    match step {
        PersistStep::WriteTemp => {
            &&& after.target == before.target
            &&& succeeded ==> after.temp == Some(json)
        },
        PersistStep::Replace => if succeeded {
            after.target == before.temp && after.temp is None
        } else {
            after == before
        },
        PersistStep::DiscardPartial | PersistStep::DiscardUnmoved => {
            &&& after.target == before.target
            &&& succeeded ==> after.temp is None
        },
        _ => after == before,
    }
}

/// The step that is due after the first `n` steps of a write.
pub open spec fn step_at(succeeded: Seq<bool>, n: nat) -> PersistStep
    decreases n,
{
    if n == 0 {
        PersistStep::CreateDir
    } else {
        step_after(step_at(succeeded, (n - 1) as nat), succeeded[n - 1])
    }
}

/// Step `i` of a write has done to the files what it may.
pub open spec fn step_made(
    json: Seq<char>,
    succeeded: Seq<bool>,
    files: Seq<Files>,
    i: int,
) -> bool {
    may_become(step_at(succeeded, i as nat), succeeded[i], json, files[i], files[i + 1])
}

/// The files before, between and after the steps of a write.
pub open spec fn is_write(json: Seq<char>, succeeded: Seq<bool>, files: Seq<Files>) -> bool {
    &&& files.len() == succeeded.len() + 1
    &&& forall|i: int|
        0 <= i < succeeded.len() ==> #[trigger] step_made(json, succeeded, files, i)
}

/// Of the four steps that lead to a new state file (the directory, the JSON, the
/// temporary file, the move), those among the first `n` steps have succeeded.
pub open spec fn went_well(succeeded: Seq<bool>, n: nat) -> bool {
    forall|i: int| 0 <= i < n && i < 4 ==> succeeded[i]
}

/// Where a write can stand, and what the files hold there.
spec fn write_invariant(
    step: PersistStep,
    json: Seq<char>,
    succeeded: Seq<bool>,
    n: nat,
    start: Files,
    now: Files,
) -> bool {
    match step {
        PersistStep::CreateDir => n == 0 && now == start,
        PersistStep::Serialize => n == 1 && went_well(succeeded, n) && now == start,
        PersistStep::WriteTemp => n == 2 && went_well(succeeded, n) && now == start,
        PersistStep::Replace => {
            &&& n == 3 && went_well(succeeded, n)
            &&& now == (Files { temp: Some(json), target: start.target })
        },
        _ => {
            &&& n < 4 ==> !went_well(succeeded, n)
            &&& now.target == if went_well(succeeded, n) {
                Some(json)
            } else {
                start.target
            }
        },
    }
}

proof fn lemma_write_invariant(json: Seq<char>, succeeded: Seq<bool>, files: Seq<Files>, n: nat)
    requires
        is_write(json, succeeded, files),
        n <= succeeded.len(),
    ensures
        write_invariant(
            step_at(succeeded, n),
            json,
            succeeded,
            n,
            files[0],
            files[n as int],
        ),
    decreases n,
{
    if n > 0 {
        let i = n - 1;
        lemma_write_invariant(json, succeeded, files, i as nat);
        assert(step_made(json, succeeded, files, i));
        assert(went_well(succeeded, n) <==> went_well(succeeded, i as nat) && (i < 4
            ==> succeeded[i]));
    }
}

/// Whatever fails, and whenever somebody looks, the state file holds all of the
/// old state or all of the new one.
pub proof fn law_readers_see_old_or_new(
    json: Seq<char>,
    succeeded: Seq<bool>,
    files: Seq<Files>,
    n: nat,
)
    requires
        is_write(json, succeeded, files),
        n <= succeeded.len(),
    ensures
        files[n as int].target == files[0].target || files[n as int].target == Some(json),
{
    lemma_write_invariant(json, succeeded, files, n);
}

/// At its end, a write has put the new state in place if the directory, the JSON,
/// the temporary file and the move went well, and has left the old one if any of
/// them failed.
pub proof fn law_write_replaces_or_leaves(
    json: Seq<char>,
    succeeded: Seq<bool>,
    files: Seq<Files>,
    n: nat,
)
    requires
        is_write(json, succeeded, files),
        n <= succeeded.len(),
        step_at(succeeded, n) == PersistStep::Done,
    ensures
        files[n as int].target == if went_well(succeeded, n) {
            Some(json)
        } else {
            files[0].target
        },
        went_well(succeeded, n) ==> n >= 4,
{
    lemma_write_invariant(json, succeeded, files, n);
}

/// How many steps can still follow.
pub open spec fn steps_left(step: PersistStep) -> nat {
    match step {
        PersistStep::CreateDir => 6,
        PersistStep::Serialize => 5,
        PersistStep::WriteTemp => 4,
        PersistStep::Replace => 3,
        PersistStep::DiscardUnmoved => 2,
        PersistStep::DiscardPartial => 1,
        PersistStep::Restrict => 1,
        PersistStep::Done => 0,
    }
}

/// Whatever fails, a write is over after six steps.
pub proof fn law_write_ends(succeeded: Seq<bool>, n: nat)
    requires
        n >= 6,
    ensures
        step_at(succeeded, n) == PersistStep::Done,
{
    lemma_steps_left(succeeded, n);
}

proof fn lemma_steps_left(succeeded: Seq<bool>, n: nat)
    ensures
        steps_left(step_at(succeeded, n)) + n <= 6 || step_at(succeeded, n) == PersistStep::Done,
    decreases n,
{
    if n > 0 {
        lemma_steps_left(succeeded, (n - 1) as nat);
    }
}

/// A step that has to remove the temporary file.
pub open spec fn discards(step: PersistStep) -> bool {
    step == PersistStep::DiscardPartial || step == PersistStep::DiscardUnmoved
}

/// A write that has come to its end has left no temporary file behind, if there
/// was none before and if what had to be removed could be.
pub proof fn law_no_temporary_file_is_left(
    json: Seq<char>,
    succeeded: Seq<bool>,
    files: Seq<Files>,
    n: nat,
)
    requires
        is_write(json, succeeded, files),
        n <= succeeded.len(),
        files[0].temp is None,
        forall|i: int|
            0 <= i < n && discards(step_at(succeeded, i as nat)) ==> #[trigger] succeeded[i],
        step_at(succeeded, n) == PersistStep::Done,
    ensures
        files[n as int].temp is None,
{
    lemma_temporary_file(json, succeeded, files, n);
}

proof fn lemma_temporary_file(json: Seq<char>, succeeded: Seq<bool>, files: Seq<Files>, n: nat)
    requires
        is_write(json, succeeded, files),
        n <= succeeded.len(),
        files[0].temp is None,
        forall|i: int|
            0 <= i < n && discards(step_at(succeeded, i as nat)) ==> #[trigger] succeeded[i],
    ensures
        match step_at(succeeded, n) {
            PersistStep::Replace => true,
            PersistStep::DiscardPartial => true,
            PersistStep::DiscardUnmoved => true,
            _ => files[n as int].temp is None,
        },
    decreases n,
{
    if n > 0 {
        let i = n - 1;
        lemma_temporary_file(json, succeeded, files, i as nat);
        assert(step_made(json, succeeded, files, i));
    }
}

/// Two processes never write the same temporary file.
pub proof fn law_temporary_files_differ(a: u32, b: u32)
    requires
        a != b,
    ensures
        temp_file_name(a) != temp_file_name(b),
{
    text::law_decimal_reads_back(a as nat);
    text::law_decimal_reads_back(b as nat);
    let prefix = STATE_FILE_NAME@ + ".tmp."@;
    if temp_file_name(a) == temp_file_name(b) {
        let n = prefix.len() as int;
        assert(temp_file_name(a).skip(n) =~= text::decimal(a as nat));
        assert(temp_file_name(b).skip(n) =~= text::decimal(b as nat));
    }
}

/// A temporary file is never the state file itself, and bears its name in front of
/// its own ending, with the number of the process behind.
pub proof fn law_temporary_file_is_beside_the_state(process_id: u32)
    ensures
        temp_file_name(process_id) != STATE_FILE_NAME@,
        temp_file_name(process_id).take(STATE_FILE_NAME@.len() as int) == STATE_FILE_NAME@,
        temp_file_name(process_id).skip((STATE_FILE_NAME@ + ".tmp."@).len() as int)
            == text::decimal(process_id as nat),
{
    reveal_strlit(".tmp.");
    let name = temp_file_name(process_id);
    assert(name.len() > STATE_FILE_NAME@.len());
    assert(name.take(STATE_FILE_NAME@.len() as int) =~= STATE_FILE_NAME@);
    assert(name.skip((STATE_FILE_NAME@ + ".tmp."@).len() as int) =~= text::decimal(
        process_id as nat,
    ));
}

/// The steps of a write, whatever comes of them: each follows where the one before
/// it went well. A failed directory or JSON ends it, a failed temporary file or move
/// has the temporary file removed, and once a move was tried the state file is
/// restricted to its owner, the last thing to be done.
pub proof fn law_write_goes_step_by_step(
    dir_made: bool,
    serialized: bool,
    written: bool,
    moved: bool,
    any: bool,
)
    ensures
        step_after(PersistStep::CreateDir, dir_made) == PersistStep::Serialize <==> dir_made,
        step_after(PersistStep::CreateDir, dir_made) == PersistStep::Done <==> !dir_made,
        step_after(PersistStep::Serialize, serialized) == PersistStep::WriteTemp <==> serialized,
        step_after(PersistStep::Serialize, serialized) == PersistStep::Done <==> !serialized,
        step_after(PersistStep::WriteTemp, written) == PersistStep::Replace <==> written,
        step_after(PersistStep::WriteTemp, written) == PersistStep::DiscardPartial <==> !written,
        step_after(PersistStep::Replace, moved) == PersistStep::Restrict <==> moved,
        step_after(PersistStep::Replace, moved) == PersistStep::DiscardUnmoved <==> !moved,
        step_after(PersistStep::DiscardPartial, any) == PersistStep::Done,
        step_after(PersistStep::DiscardUnmoved, any) == PersistStep::Restrict,
        step_after(PersistStep::Restrict, any) == PersistStep::Done,
        step_after(PersistStep::Done, any) == PersistStep::Done,
{
}

} // verus!
