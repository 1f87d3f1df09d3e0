//! Results that are kept in files beside a transcript.
//!
//! What a module printed is kept for a few seconds, as plain text. The profile
//! of an account is kept for as long as the writer says, in an envelope that
//! names the time at which it expires and the token that it was fetched with.
//! The token itself is never kept.
//!
//! Nothing here touches a file: these functions say where a result goes, what is
//! written there, and whether what was found there may be used.

use vstd::prelude::*;

use crate::account::AccountProfile;
use crate::paths::PathBelow;
use crate::text;
use crate::text::{chars, is_text};

verus! {

/// How long the output of a module may be used, in seconds.
pub const PASSTHROUGH_TTL_SECS: u64 = 5;

/// The directory of the cache, beside the transcript.
pub const CACHE_DIR_NAME: &'static str = "cship";

/// Whole seconds since 1970; 0 for a clock that is set before that. The argument
/// is what the clock shows, `None` for a time before 1970.
pub fn now_epoch(since_epoch: Option<u64>) -> (r: u64)
    ensures
        r == since_epoch.unwrap_or(0),
{
    match since_epoch {
        Some(secs) => secs,
        None => 0,
    }
}

// ---------------------------------------------------------------------------
// Places
// ---------------------------------------------------------------------------

/// What the path of a transcript tells the cache.
#[derive(Debug)]
pub struct TranscriptPath {
    /// The transcript is in a directory: its path is not a root, and not empty.
    pub has_parent: bool,
    /// The name of the transcript without its extension, where it is text.
    pub stem: Option<String>,
}

/// What the name of a cache file starts with, where the transcript has a cache.
pub open spec fn cache_stem(transcript: TranscriptPath) -> Option<Seq<char>> {
    if transcript.has_parent {
        transcript.stem.deep_view()
    } else {
        None
    }
}

/// A name with each slash and each space replaced by an underscore.
pub open spec fn safe_name(name: Seq<char>) -> Seq<char> {
    Seq::new(
        name.len(),
        |i: int|
            if name[i] == '/' || name[i] == ' ' {
                '_'
            } else {
                name[i]
            },
    )
}

/// Where the output of a module is kept, below the transcript's directory.
pub open spec fn passthrough_path(module_name: Seq<char>, transcript: TranscriptPath) -> Option<
    Seq<Seq<char>>,
> {
    match cache_stem(transcript) {
        Some(stem) => Some(
            seq![CACHE_DIR_NAME@, stem + "-starship-"@ + safe_name(module_name)],
        ),
        None => None,
    }
}

/// Where the profile of an account is kept, below the transcript's directory.
pub open spec fn account_profile_path(transcript: TranscriptPath) -> Option<Seq<Seq<char>>> {
    match cache_stem(transcript) {
        Some(stem) => Some(seq![CACHE_DIR_NAME@, stem + "-account-profile"@]),
        None => None,
    }
}

/// Says where the output of a module is kept, below the transcript's directory.
pub fn passthrough_cache_path(module_name: &str, transcript: &TranscriptPath) -> (r: Option<
    PathBelow,
>)
    ensures
        match passthrough_path(module_name@, *transcript) {
            Some(path) => r is Some && r->0@ == path,
            None => r is None,
        },
{
    if !transcript.has_parent {
        return None;
    }
    match &transcript.stem {
        Some(stem) => {
            let mut name: String = stem.clone();
            name.append("-starship-");
            push_safe_name(&mut name, module_name);
            Some(PathBelow::file_in(CACHE_DIR_NAME, name))
        },
        None => None,
    }
}

/// Appends a name, with each slash and each space replaced.
fn push_safe_name(out: &mut String, name: &str)
    ensures
        final(out)@ == old(out)@ + safe_name(name@),
{
    let letters: Vec<char> = chars(name);
    let mut i: usize = 0;
    while i < letters.len()
        invariant
            letters@ == name@,
            i <= letters@.len(),
            out@ == old(out)@ + safe_name(name@).take(i as int),
        decreases letters@.len() - i,
    {
        let c: char = letters[i];
        if c == '/' || c == ' ' {
            out.push('_');
        } else {
            out.push(c);
        }
        i += 1;
        assert(out@ =~= old(out)@ + safe_name(name@).take(i as int));
    }
    assert(safe_name(name@).take(i as int) =~= safe_name(name@));
}

/// Says where the profile of an account is kept, below the transcript's
/// directory.
pub fn account_profile_cache_path(transcript: &TranscriptPath) -> (r: Option<PathBelow>)
    ensures
        match account_profile_path(*transcript) {
            Some(path) => r is Some && r->0@ == path,
            None => r is None,
        },
{
    if !transcript.has_parent {
        return None;
    }
    match &transcript.stem {
        Some(stem) => {
            let mut name: String = stem.clone();
            name.append("-account-profile");
            Some(PathBelow::file_in(CACHE_DIR_NAME, name))
        },
        None => None,
    }
}

/// Whatever a module is called, its output goes into one file of the cache
/// directory: its name brings in no slash and no space.
pub proof fn law_module_names_are_safe(module_name: Seq<char>, transcript: TranscriptPath, i: int)
    requires
        passthrough_path(module_name, transcript) is Some,
        forall|k: int|
            0 <= k < cache_stem(transcript)->0.len() ==> cache_stem(transcript)->0[k] != '/',
        0 <= i < passthrough_path(module_name, transcript)->0[1].len(),
    ensures
        passthrough_path(module_name, transcript)->0.len() == 2,
        passthrough_path(module_name, transcript)->0[0] == CACHE_DIR_NAME@,
        passthrough_path(module_name, transcript)->0[1][i] != '/',
        i >= cache_stem(transcript)->0.len() ==> passthrough_path(
            module_name,
            transcript,
        )->0[1][i] != ' ',
{
    reveal_strlit("-starship-");
    let stem = cache_stem(transcript)->0;
    let name = stem + "-starship-"@ + safe_name(module_name);
    assert(passthrough_path(module_name, transcript)->0[1] == name);
    if i < stem.len() {
        assert(name[i] == stem[i]);
    } else if i < stem.len() + "-starship-"@.len() {
        assert(name[i] == "-starship-"@[i - stem.len()]);
    } else {
        let k = i - stem.len() - "-starship-"@.len();
        assert(name[i] == safe_name(module_name)[k]);
    }
}

/// Where a transcript has a directory and a name, its cache is in `cship` beside it,
/// in files that bear its name in front; where it lacks one of them, nothing is kept.
pub proof fn law_cache_is_beside_the_transcript(
    module_name: Seq<char>,
    transcript: TranscriptPath,
)
    ensures
        (transcript.has_parent && transcript.stem is Some) ==> {
            let stem = transcript.stem->0@;
            &&& passthrough_path(module_name, transcript) == Some(
                seq!["cship"@, stem + "-starship-"@ + safe_name(module_name)],
            )
            &&& account_profile_path(transcript) == Some(
                seq!["cship"@, stem + "-account-profile"@],
            )
        },
        !(transcript.has_parent && transcript.stem is Some) ==> {
            &&& passthrough_path(module_name, transcript) is None
            &&& account_profile_path(transcript) is None
        },
{
}

/// A module's name is kept letter by letter in the name of its file; only a slash
/// or a space becomes an underscore.
pub proof fn law_module_names_are_kept(name: Seq<char>, i: int)
    requires
        0 <= i < name.len(),
    ensures
        safe_name(name).len() == name.len(),
        name[i] == '/' || name[i] == ' ' ==> safe_name(name)[i] == '_',
        name[i] != '/' && name[i] != ' ' ==> safe_name(name)[i] == name[i],
{
}

/// Modules that differ in any other letter are kept apart.
pub proof fn law_modules_have_files_of_their_own(
    a: Seq<char>,
    b: Seq<char>,
    transcript: TranscriptPath,
)
    requires
        cache_stem(transcript) is Some,
        safe_name(a) != safe_name(b),
    ensures
        passthrough_path(a, transcript) != passthrough_path(b, transcript),
{
    let n = (cache_stem(transcript)->0 + "-starship-"@).len() as int;
    let x = passthrough_path(a, transcript)->0;
    let y = passthrough_path(b, transcript)->0;
    assert(x[1].skip(n) =~= safe_name(a));
    assert(y[1].skip(n) =~= safe_name(b));
}

/// Beside one transcript, the output of a module and the profile are never kept
/// in the same file.
pub proof fn law_cache_files_differ(module_name: Seq<char>, transcript: TranscriptPath)
    requires
        cache_stem(transcript) is Some,
    ensures
        passthrough_path(module_name, transcript) != account_profile_path(transcript),
{
    reveal_strlit("-starship-");
    reveal_strlit("-account-profile");
    let stem = cache_stem(transcript)->0;
    let n = stem.len() as int;
    let output = passthrough_path(module_name, transcript)->0;
    let profile = account_profile_path(transcript)->0;
    assert(output[1] == stem + "-starship-"@ + safe_name(module_name));
    assert(profile[1] == stem + "-account-profile"@);
    assert(output[1][n + 1] == 's');
    assert(profile[1][n + 1] == 'a');
}

// ---------------------------------------------------------------------------
// Output of modules
// ---------------------------------------------------------------------------

/// Output of this age may be used. The age is in whole seconds; it is `None`
/// where there is no such file, or none with a time of modification that has
/// passed.
pub open spec fn is_fresh(age_secs: Option<u64>) -> bool {
    age_secs matches Some(age) && age < PASSTHROUGH_TTL_SECS
}

/// What is found in the cache, given the age of the file and what it holds.
pub open spec fn passthrough_found(
    age_secs: Option<u64>,
    content: Option<Seq<char>>,
) -> Option<Seq<char>> {
    if is_fresh(age_secs) {
        content
    } else {
        None
    }
}

/// Whether it is worth reading a cache file of this age.
pub fn passthrough_is_fresh(age_secs: Option<u64>) -> (r: bool)
    ensures
        r == is_fresh(age_secs),
{
    match age_secs {
        Some(age) => age < PASSTHROUGH_TTL_SECS,
        None => false,
    }
}

/// The output of a module, where the cache has it and it is fresh. `content` is
/// what the file holds, `None` where it cannot be read.
pub fn read_passthrough(age_secs: Option<u64>, content: Option<String>) -> (r: Option<String>)
    ensures
        r.deep_view() == passthrough_found(age_secs, content.deep_view()),
{
    if passthrough_is_fresh(age_secs) {
        content
    } else {
        None
    }
}

/// A file to write.
#[derive(Debug)]
pub struct PassthroughWrite {
    pub path: PathBelow,
    pub content: String,
}

/// Says what to write, and where, to keep the output of a module; nothing where
/// the transcript has no cache.
pub fn write_passthrough(module_name: &str, transcript: &TranscriptPath, content: &str) -> (r:
    Option<PassthroughWrite>)
    ensures
        match passthrough_path(module_name@, *transcript) {
            Some(path) => r is Some && r->0.path@ == path && r->0.content@ == content@,
            None => r is None,
        },
{
    match passthrough_cache_path(module_name, transcript) {
        Some(path) => Some(PassthroughWrite { path, content: String::from_str(content) }),
        None => None,
    }
}

/// What was written is found, as it was written, until its time is over; from
/// then on nothing is found.
pub proof fn law_passthrough_reads_back(content: Seq<char>, age_secs: u64)
    ensures
        passthrough_found(Some(age_secs), Some(content)) == if age_secs < PASSTHROUGH_TTL_SECS {
            Some(content)
        } else {
            None
        },
{
}

/// Output is used in the first five seconds; what is older, what has no age, and
/// what cannot be read is not.
pub proof fn law_old_output_is_not_used(age_secs: u64, content: Option<Seq<char>>)
    ensures
        age_secs < 5 ==> passthrough_found(Some(age_secs), content) == content,
        age_secs >= 5 ==> passthrough_found(Some(age_secs), content) is None,
        passthrough_found(None, content) is None,
{
}

// ---------------------------------------------------------------------------
// Account profiles
// ---------------------------------------------------------------------------

/// A profile as it is kept.
#[derive(Debug)]
pub struct AccountProfileCacheEnvelope {
    pub data: AccountProfile,
    pub expires_at: u64,
    pub token_fingerprint: Option<String>,
}

/// The profile in an envelope, where it may be used: the envelope is of the
/// expected token, if one is expected, and it has not expired, unless that does
/// not matter.
pub open spec fn profile_found(
    envelope: Option<AccountProfileCacheEnvelope>,
    allow_stale: bool,
    expected_fingerprint: Option<Seq<char>>,
    now: u64,
) -> Option<AccountProfile> {
    match envelope {
        Some(e) => {
            let other_token = expected_fingerprint is Some && e.token_fingerprint.deep_view()
                != expected_fingerprint;
            if !other_token && (allow_stale || now < e.expires_at) {
                Some(e.data)
            } else {
                None
            }
        },
        None => None,
    }
}

/// The profile that the cache has. `envelope` is `None` where there is no such
/// file, or none that can be read.
pub fn read_account_profile(
    envelope: Option<AccountProfileCacheEnvelope>,
    allow_stale: bool,
    expected_fingerprint: Option<&str>,
    now: u64,
) -> (r: Option<AccountProfile>)
    ensures
        r == profile_found(
            envelope,
            allow_stale,
            text::chars_of_option(expected_fingerprint),
            now,
        ),
{
    let envelope: AccountProfileCacheEnvelope = match envelope {
        Some(e) => e,
        None => {
            return None;
        },
    };
    if let Some(expected) = expected_fingerprint {
        if !is_text(&envelope.token_fingerprint, expected) {
            return None;
        }
    }
    if allow_stale {
        return Some(envelope.data);
    }
    if now >= envelope.expires_at {
        return None;
    }
    Some(envelope.data)
}

/// An envelope to write.
#[derive(Debug)]
pub struct AccountProfileWrite {
    pub path: PathBelow,
    pub envelope: AccountProfileCacheEnvelope,
}

/// Says what to write, and where, to keep a profile for `ttl_secs` seconds;
/// nothing where the transcript has no cache.
pub fn write_account_profile(
    transcript: &TranscriptPath,
    data: &AccountProfile,
    ttl_secs: u64,
    token_fingerprint: Option<&str>,
    now: u64,
) -> (r: Option<AccountProfileWrite>)
    requires
        account_profile_path(*transcript) is Some ==> now + ttl_secs <= u64::MAX,
    ensures
        match account_profile_path(*transcript) {
            Some(path) => {
                &&& r is Some
                &&& r->0.path@ == path
                &&& r->0.envelope.data == *data
                &&& r->0.envelope.expires_at == now + ttl_secs
                &&& r->0.envelope.token_fingerprint.deep_view() == text::chars_of_option(
                    token_fingerprint,
                )
                &&& forall|later: u64| #[trigger]
                    profile_found(
                        Some(r->0.envelope),
                        false,
                        text::chars_of_option(token_fingerprint),
                        later,
                    ) == if later < now + ttl_secs {
                        Some(*data)
                    } else {
                        None
                    }
            },
            None => r is None,
        },
{
    match account_profile_cache_path(transcript) {
        Some(path) => {
            let fingerprint: Option<String> = match token_fingerprint {
                Some(f) => Some(String::from_str(f)),
                None => None,
            };
            Some(
                AccountProfileWrite {
                    path,
                    envelope: AccountProfileCacheEnvelope {
                        data: data.clone(),
                        expires_at: now + ttl_secs,
                        token_fingerprint: fingerprint,
                    },
                },
            )
        },
        None => None,
    }
}

/// A profile that was written is found, as it was written, until it expires, and
/// after that where stale profiles are allowed: by those who expect its token,
/// and by those who expect none.
pub proof fn law_profile_reads_back(
    written: AccountProfileCacheEnvelope,
    expected_fingerprint: Option<Seq<char>>,
    now: u64,
)
    requires
        expected_fingerprint is None || expected_fingerprint
            == written.token_fingerprint.deep_view(),
    ensures
        profile_found(Some(written), false, expected_fingerprint, now) == if now
            < written.expires_at {
            Some(written.data)
        } else {
            None
        },
        profile_found(Some(written), true, expected_fingerprint, now) == Some(written.data),
{
}

/// A profile is never found by those who expect another token, not even where
/// stale profiles are allowed.
pub proof fn law_profile_is_kept_from_other_tokens(
    envelope: Option<AccountProfileCacheEnvelope>,
    allow_stale: bool,
    expected: Seq<char>,
    now: u64,
)
    requires
        envelope is Some ==> envelope->0.token_fingerprint.deep_view() != Some(expected),
    ensures
        profile_found(envelope, allow_stale, Some(expected), now) is None,
{
}

/// Where there is no profile none is found; and one that expires later is found for
/// longer, never for less.
pub proof fn law_later_expiry_is_no_loss(
    envelope: AccountProfileCacheEnvelope,
    later: AccountProfileCacheEnvelope,
    allow_stale: bool,
    expected_fingerprint: Option<Seq<char>>,
    now: u64,
)
    requires
        envelope.data == later.data,
        envelope.token_fingerprint == later.token_fingerprint,
        envelope.expires_at <= later.expires_at,
    ensures
        profile_found(None, allow_stale, expected_fingerprint, now) is None,
        profile_found(Some(envelope), allow_stale, expected_fingerprint, now) is Some
            ==> profile_found(Some(later), allow_stale, expected_fingerprint, now)
            == profile_found(Some(envelope), allow_stale, expected_fingerprint, now),
{
}

} // verus!
