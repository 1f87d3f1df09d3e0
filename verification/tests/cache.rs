//! Results kept beside a transcript, over files in memory.

use std::collections::HashMap;
use std::path::Path;

use cship_usage::account::AccountProfile;
use cship_usage::cache::{
    account_profile_cache_path, now_epoch, passthrough_cache_path, passthrough_is_fresh,
    read_account_profile, read_passthrough, write_account_profile, write_passthrough,
    AccountProfileCacheEnvelope, TranscriptPath,
};
use cship_usage::paths::PathBelow;
use cship_usage::timestamp::iso8601_to_epoch;

/// What the path of a transcript tells the cache.
fn transcript(path: &str) -> TranscriptPath {
    let path = Path::new(path);
    TranscriptPath {
        has_parent: path.parent().is_some(),
        stem: path.file_stem().and_then(|s| s.to_str()).map(String::from),
    }
}

/// The path of a cache file, for a transcript in `dir`.
fn below(dir: &str, path: &PathBelow) -> String {
    let mut full = Path::new(dir).to_path_buf();
    for name in &path.names {
        full = full.join(name);
    }
    full.to_str().unwrap().to_string()
}

/// Files in memory: contents and age in seconds.
struct Files {
    dir: String,
    texts: HashMap<String, (String, u64)>,
    envelopes: HashMap<String, AccountProfileCacheEnvelope>,
}

impl Files {
    fn new(dir: &str) -> Files {
        Files { dir: dir.to_string(), texts: HashMap::new(), envelopes: HashMap::new() }
    }

    fn transcript(&self, name: &str) -> TranscriptPath {
        transcript(&format!("{}/{}", self.dir, name))
    }

    fn write(&mut self, module: &str, name: &str, content: &str) {
        if let Some(w) = write_passthrough(module, &self.transcript(name), content) {
            self.texts.insert(below(&self.dir, &w.path), (w.content, 0));
        }
    }

    fn read(&self, module: &str, name: &str) -> Option<String> {
        let path = passthrough_cache_path(module, &self.transcript(name))?;
        let file = self.texts.get(&below(&self.dir, &path));
        let age = file.map(|f| f.1);
        let content = if passthrough_is_fresh(age) { file.map(|f| f.0.clone()) } else { None };
        read_passthrough(age, content)
    }

    fn write_profile(
        &mut self,
        name: &str,
        data: &AccountProfile,
        ttl: u64,
        fingerprint: Option<&str>,
        now: u64,
    ) {
        if let Some(w) = write_account_profile(&self.transcript(name), data, ttl, fingerprint, now) {
            self.envelopes.insert(below(&self.dir, &w.path), w.envelope);
        }
    }

    fn read_profile(
        &mut self,
        name: &str,
        allow_stale: bool,
        expected: Option<&str>,
        now: u64,
    ) -> Option<AccountProfile> {
        let path = account_profile_cache_path(&self.transcript(name))?;
        let envelope = self.envelopes.remove(&below(&self.dir, &path));
        let copy = envelope.map(|e| AccountProfileCacheEnvelope {
            data: e.data.clone(),
            expires_at: e.expires_at,
            token_fingerprint: e.token_fingerprint.clone(),
        });
        read_account_profile(copy, allow_stale, expected, now)
    }
}

const NOW: u64 = 1_700_000_000;

#[test]
fn test_cache_miss_returns_none_for_nonexistent_file() {
    let files = Files::new("/work/session1");
    let result = files.read("git_branch", "test_transcript.jsonl");
    assert!(result.is_none());
}

#[test]
fn test_cache_hit_returns_content_within_ttl() {
    let mut files = Files::new("/work/session2");
    files.write("git_branch", "test_transcript.jsonl", "main");
    let result = files.read("git_branch", "test_transcript.jsonl");
    assert_eq!(result, Some("main".to_string()));
}

#[test]
fn test_write_creates_directory_if_missing() {
    let mut files = Files::new("/work/deep/nested");
    files.write("directory", "transcript.jsonl", "/home/user");
    let cache_file = "/work/deep/nested/cship/transcript-starship-directory";
    assert!(files.texts.contains_key(cache_file), "cache file should have been created");
    assert_eq!(files.texts[cache_file].0, "/home/user");
}

#[test]
fn test_path_derivation() {
    let mut files = Files::new("/work");
    files.write("git_branch", "transcript.jsonl", "main");
    let expected = "/work/cship/transcript-starship-git_branch";
    assert!(files.texts.contains_key(expected), "cache file at expected path: {expected:?}");
}

#[test]
fn test_module_name_sanitization() {
    let mut files = Files::new("/work");
    files.write("node/js lang", "transcript.jsonl", "v20");
    let expected = "/work/cship/transcript-starship-node_js_lang";
    assert!(files.texts.contains_key(expected), "sanitized path should exist: {expected:?}");
    assert_eq!(files.texts[expected].0, "v20");
}

#[test]
fn test_stale_cache_returns_none() {
    let mut files = Files::new("/work");
    files.write("git_branch", "transcript.jsonl", "main");
    let cache_file = "/work/cship/transcript-starship-git_branch";
    files.texts.get_mut(cache_file).unwrap().1 = 10;
    let result = files.read("git_branch", "transcript.jsonl");
    assert!(result.is_none(), "stale cache should return None");
}

#[test]
fn passthrough_is_used_below_five_seconds_only() {
    assert!(passthrough_is_fresh(Some(0)));
    assert!(passthrough_is_fresh(Some(4)));
    assert!(!passthrough_is_fresh(Some(5)));
    assert!(!passthrough_is_fresh(None));
    assert_eq!(read_passthrough(Some(4), Some("x".to_string())), Some("x".to_string()));
    assert_eq!(read_passthrough(Some(5), Some("x".to_string())), None);
    assert_eq!(read_passthrough(Some(4), None), None);
    assert_eq!(read_passthrough(None, Some("x".to_string())), None);
}

#[test]
fn transcripts_without_directory_or_name_have_no_cache() {
    for path in ["", "/", "/work/.."] {
        let t = transcript(path);
        assert!(passthrough_cache_path("git_branch", &t).is_none());
        assert!(account_profile_cache_path(&t).is_none());
        assert!(write_passthrough("git_branch", &t, "main").is_none());
        assert!(write_account_profile(&t, &sample_profile(), u64::MAX, None, NOW).is_none());
    }
    let no_text = TranscriptPath { has_parent: true, stem: None };
    assert!(passthrough_cache_path("git_branch", &no_text).is_none());
    let no_parent = TranscriptPath { has_parent: false, stem: Some("t".to_string()) };
    assert!(passthrough_cache_path("git_branch", &no_parent).is_none());
    assert!(account_profile_cache_path(&no_parent).is_none());
}

#[test]
fn module_names_stay_one_file_name() {
    let path = passthrough_cache_path("../../etc/pass wd", &transcript("/work/t.jsonl")).unwrap();
    assert_eq!(path.names, vec!["cship", "t-starship-.._.._etc_pass_wd"]);
}

#[test]
fn output_and_profile_are_kept_apart() {
    let t = transcript("/work/t.jsonl");
    for module in ["", "account-profile", "-account-profile"] {
        assert_ne!(passthrough_cache_path(module, &t), account_profile_cache_path(&t));
    }
}

#[test]
fn clock_before_1970_counts_as_zero() {
    assert_eq!(now_epoch(None), 0);
    assert_eq!(now_epoch(Some(NOW)), NOW);
}

#[test]
fn test_iso8601_to_epoch_known_value() {
    assert_eq!(iso8601_to_epoch("2000-01-01T00:00:00Z"), Some(946_684_800));
}

#[test]
fn test_iso8601_to_epoch_invalid_returns_none() {
    assert_eq!(iso8601_to_epoch("not-a-date"), None);
    assert_eq!(iso8601_to_epoch(""), None);
}

#[test]
fn test_iso8601_to_epoch_plus_offset_format() {
    assert_eq!(
        iso8601_to_epoch("2000-01-01T00:00:00+00:00"),
        Some(946_684_800),
        "+00:00 format should parse to same epoch as Z form"
    );
    assert_eq!(
        iso8601_to_epoch("2000-01-01T00:00:01.943648+00:00"),
        Some(946_684_801),
        "fractional seconds with +00:00 should be truncated"
    );
}

#[test]
fn test_iso8601_to_epoch_fractional_seconds() {
    assert_eq!(
        iso8601_to_epoch("2000-01-01T00:00:01.000Z"),
        Some(946_684_801),
        "fractional-second timestamp should parse correctly"
    );
    assert_eq!(
        iso8601_to_epoch("2000-01-01T00:00:01.999Z"),
        Some(946_684_801),
        "fractional seconds are truncated, not rounded"
    );
}

fn sample_profile() -> AccountProfile {
    AccountProfile {
        account_display_name: Some("Nils".into()),
        account_email: Some("nils@example.com".into()),
        organization_name: Some("Example Team".into()),
        organization_tier: Some("default_claude_max_5x".into()),
        organization_type: Some("claude_team".into()),
    }
}

#[test]
fn test_account_profile_cache_hit_within_ttl() {
    let mut files = Files::new("/work/acct_hit");
    files.write_profile("test_transcript.jsonl", &sample_profile(), 86_400, None, NOW);
    let result = files.read_profile("test_transcript.jsonl", false, None, NOW);
    assert_eq!(result, Some(sample_profile()));
}

#[test]
fn test_account_profile_cache_miss_nonexistent_file() {
    let mut files = Files::new("/work/acct_miss");
    assert!(files.read_profile("test_transcript.jsonl", false, None, NOW).is_none());
}

#[test]
fn test_account_profile_cache_file_path_and_json_structure() {
    let mut files = Files::new("/work");
    files.write_profile("transcript.jsonl", &sample_profile(), 86_400, None, NOW);
    let expected = "/work/cship/transcript-account-profile";
    assert!(files.envelopes.contains_key(expected), "cache file at: {expected:?}");
    let envelope = &files.envelopes[expected];
    assert_eq!(envelope.data.account_display_name.as_deref(), Some("Nils"));
    assert_eq!(envelope.data.organization_name.as_deref(), Some("Example Team"));
    assert_eq!(envelope.expires_at, NOW + 86_400);
    assert_eq!(envelope.token_fingerprint, None);
}

#[test]
fn test_account_profile_ttl_invalidation() {
    let expired = || AccountProfileCacheEnvelope {
        data: AccountProfile {
            account_display_name: Some("Nils".into()),
            account_email: None,
            organization_name: Some("Example Team".into()),
            organization_tier: None,
            organization_type: None,
        },
        expires_at: 0,
        token_fingerprint: None,
    };
    assert!(read_account_profile(Some(expired()), false, None, NOW).is_none());
    let stale = read_account_profile(Some(expired()), true, None, NOW).unwrap();
    assert_eq!(stale.organization_name.as_deref(), Some("Example Team"));
}

#[test]
fn test_account_profile_write_creates_directory() {
    let mut files = Files::new("/work/deep/nested");
    files.write_profile("t.jsonl", &sample_profile(), 86_400, None, NOW);
    let cache_file = "/work/deep/nested/cship/t-account-profile";
    assert!(files.envelopes.contains_key(cache_file), "dir should be created: {cache_file:?}");
}

#[test]
fn test_account_profile_fingerprint_match_returns_data() {
    let mut files = Files::new("/work");
    files.write_profile("transcript.jsonl", &sample_profile(), 86_400, Some("fp_work"), NOW);
    let result = files.read_profile("transcript.jsonl", false, Some("fp_work"), NOW);
    assert!(result.is_some(), "matching fingerprint should return data");
}

#[test]
fn test_account_profile_fingerprint_mismatch_returns_none() {
    let mut files = Files::new("/work");
    files.write_profile("transcript.jsonl", &sample_profile(), 86_400, Some("fp_work"), NOW);
    let result = files.read_profile("transcript.jsonl", false, Some("fp_personal"), NOW);
    assert!(result.is_none(), "mismatched fingerprint should return None");
}

#[test]
fn test_account_profile_fingerprint_mismatch_even_when_stale_allowed() {
    let mut files = Files::new("/work");
    files.write_profile("transcript.jsonl", &sample_profile(), 86_400, Some("fp_work"), NOW);
    let result = files.read_profile("transcript.jsonl", true, Some("fp_personal"), NOW);
    assert!(
        result.is_none(),
        "fingerprint mismatch should invalidate even with allow_stale"
    );
}

#[test]
fn account_profile_expires_with_its_last_second() {
    let t = transcript("/work/t.jsonl");
    let write = || write_account_profile(&t, &sample_profile(), 60, Some("fp"), NOW).unwrap().envelope;
    assert_eq!(read_account_profile(Some(write()), false, None, NOW + 59), Some(sample_profile()));
    assert_eq!(read_account_profile(Some(write()), false, None, NOW + 60), None);
    assert_eq!(
        read_account_profile(Some(write()), true, Some("fp"), NOW + 60),
        Some(sample_profile())
    );
}

#[test]
fn account_profile_without_token_is_kept_from_those_who_expect_one() {
    let t = transcript("/work/t.jsonl");
    let envelope = write_account_profile(&t, &sample_profile(), 60, None, NOW).unwrap().envelope;
    assert_eq!(read_account_profile(Some(envelope), true, Some("fp"), NOW), None);
}
