//! Update checking: comparing versions and reading a release lookup's outcome.
//!
//! The HTTP request itself is the caller's.

use vstd::prelude::*;
use crate::clock::in_range;
use crate::maint::types::UpdateInfo;
use crate::text::{chars_of, owned, string_of};

verus! {

/// Errors of the update check.
#[derive(Debug)]
pub enum UpdateError {
    /// The request failed (the client's message).
    Request(String),
    /// A version could not be read.
    VersionParse(String),
    /// No repository is configured.
    Disabled,
}

/// The message of an update error, as `Display` renders it.
pub open spec fn update_error_text(e: UpdateError) -> Seq<char> {
    match e {
        UpdateError::Request(m) => "HTTP request failed: "@ + m@,
        UpdateError::VersionParse(m) => "failed to parse version: "@ + m@,
        UpdateError::Disabled => "update check disabled"@,
    }
}

impl UpdateError {
    /// The error's message.
    pub fn message(&self) -> (r: String)
        ensures
            r@ == update_error_text(*self),
    {
        match self {
            UpdateError::Request(m) => owned("HTTP request failed: ").concat(m.as_str()),
            UpdateError::VersionParse(m) => owned("failed to parse version: ").concat(m.as_str()),
            UpdateError::Disabled => owned("update check disabled"),
        }
    }
}

/// The version of this package.
pub fn package_version() -> (r: &'static str)
    ensures
        r@ == "0.1.0"@,
{
    "0.1.0"
}

/// Update checker configuration.
#[derive(Debug)]
pub struct UpdateCheckerConfig {
    /// Repository (owner/repo) whose releases are checked.
    pub github_repo: Option<String>,
    /// Current version.
    pub current_version: String,
}

impl Default for UpdateCheckerConfig {
    fn default() -> (r: UpdateCheckerConfig)
        ensures
            r.github_repo matches Some(g) && g@ == "specbug/henry"@,
            r.current_version@ == "0.1.0"@,
    {
        UpdateCheckerConfig { github_repo: Some(owned("specbug/henry")), current_version: owned(package_version()) }
    }
}

// ---------------------------------------------------------------------------
// Version comparison
// ---------------------------------------------------------------------------

/// The text without its leading `v`s (`trim_start_matches('v')`).
pub open spec fn strip_v(s: Seq<char>) -> Seq<char>
    decreases s.len(),
{
    if s.len() > 0 && s[0] == 'v' { strip_v(s.drop_first()) } else { s }
}

/// The pieces of `s` between occurrences of `c` (`str::split`).
pub open spec fn split_on(s: Seq<char>, c: char) -> Seq<Seq<char>>
    decreases s.len(),
{
    if s.len() == 0 {
        seq![Seq::empty()]
    } else {
        let rest = split_on(s.drop_last(), c);
        if s.last() == c {
            rest.push(Seq::empty())
        } else {
            rest.update(rest.len() - 1, rest.last().push(s.last()))
        }
    }
}

/// The value of a string of decimal digits.
pub open spec fn digits_value(s: Seq<char>) -> nat
    decreases s.len(),
{
    if s.len() == 0 { 0 } else { (digits_value(s.drop_last()) * 10 + (s.last() as int - '0' as int)) as nat }
}

/// Whether every character is a decimal digit.
pub open spec fn all_digits(s: Seq<char>) -> bool {
    forall|i: int| 0 <= i < s.len() ==> '0' <= #[trigger] s[i] <= '9'
}

/// `s.parse::<u32>()`: an optional `+` then at least one digit, the value fitting.
pub open spec fn parse_u32_spec(s: Seq<char>) -> Option<u32> {
    let body = if s.len() > 0 && s[0] == '+' { s.drop_first() } else { s };
    if body.len() > 0 && all_digits(body) && digits_value(body) <= u32::MAX {
        Some(digits_value(body) as u32)
    } else {
        None
    }
}

/// A version `major.minor.patch` (a pre-release suffix after `-` ignored) or
/// `major.minor`, after any leading `v`s.
pub open spec fn parse_version_spec(s: Seq<char>) -> Option<(u32, u32, u32)> {
    let parts = split_on(strip_v(s), '.');
    if parts.len() >= 3 {
        match (parse_u32_spec(parts[0]), parse_u32_spec(parts[1]), parse_u32_spec(split_on(parts[2], '-')[0])) {
            (Some(a), Some(b), Some(c)) => Some((a, b, c)),
            _ => None,
        }
    } else if parts.len() == 2 {
        match (parse_u32_spec(parts[0]), parse_u32_spec(parts[1])) {
            (Some(a), Some(b)) => Some((a, b, 0u32)),
            _ => None,
        }
    } else {
        None
    }
}

/// Whether one version triple is greater than another, component by component.
pub open spec fn triple_gt(a: (u32, u32, u32), b: (u32, u32, u32)) -> bool {
    a.0 > b.0 || (a.0 == b.0 && (a.1 > b.1 || (a.1 == b.1 && a.2 > b.2)))
}

/// Whether `latest` is a newer version than `current`; false when either cannot be read.
pub open spec fn is_newer_spec(current: Seq<char>, latest: Seq<char>) -> bool {
    match (parse_version_spec(current), parse_version_spec(latest)) {
        (Some(c), Some(l)) => triple_gt(l, c),
        _ => false,
    }
}

/// `s.trim_start_matches('v')`.
pub fn trim_leading_v(s: &Vec<char>) -> (r: Vec<char>)
    ensures
        r@ == strip_v(s@),
{
    let mut i: usize = 0;
    assert(s@.skip(0) =~= s@);
    while i < s.len() && s[i] == 'v'
        invariant
            i <= s.len(),
            strip_v(s@) == strip_v(s@.skip(i as int)),
        decreases s.len() - i,
    {
        assert(s@.skip(i as int).drop_first() =~= s@.skip(i + 1));
        i = i + 1;
    }
    let r = crate::text::slice_chars(s, i, s.len());
    assert(r@ =~= s@.skip(i as int));
    r
}

/// `s.split(c)` on characters.
pub fn split_chars(s: &Vec<char>, c: char) -> (r: Vec<Vec<char>>)
    ensures
        r@.map_values(|p: Vec<char>| p@) == split_on(s@, c),
{
    let mut pieces: Vec<Vec<char>> = Vec::new();
    let mut cur: Vec<char> = Vec::new();
    let mut i: usize = 0;
    while i < s.len()
        invariant
            i <= s.len(),
            pieces@.map_values(|p: Vec<char>| p@).push(cur@) == split_on(s@.take(i as int), c),
        decreases s.len() - i,
    {
        let ghost before = pieces@.map_values(|p: Vec<char>| p@).push(cur@);
        assert(s@.take(i + 1).drop_last() =~= s@.take(i as int));
        if s[i] == c {
            let done = cur;
            pieces.push(done);
            cur = Vec::new();
            assert(pieces@.map_values(|p: Vec<char>| p@).push(cur@) =~= before.push(Seq::empty()));
        } else {
            cur.push(s[i]);
            assert(pieces@.map_values(|p: Vec<char>| p@).push(cur@) =~= before.update(before.len() - 1, before.last().push(s@[i as int])));
        }
        i = i + 1;
    }
    assert(s@.take(s@.len() as int) =~= s@);
    pieces.push(cur);
    pieces
}

/// `s.parse::<u32>()` on characters.
pub fn parse_u32(s: &Vec<char>) -> (r: Option<u32>)
    ensures
        r == parse_u32_spec(s@),
{
    let start: usize = if s.len() > 0 && s[0] == '+' { 1 } else { 0 };
    let ghost body = if s@.len() > 0 && s@[0] == '+' { s@.drop_first() } else { s@ };
    assert(body =~= s@.skip(start as int));
    if start >= s.len() {
        return None;
    }
    let mut acc: u64 = 0;
    let mut i: usize = start;
    while i < s.len()
        invariant
            start <= i <= s.len(),
            body == s@.skip(start as int),
            body == if s@.len() > 0 && s@[0] == '+' { s@.drop_first() } else { s@ },
            all_digits(s@.subrange(start as int, i as int)),
            acc == if digits_value(s@.subrange(start as int, i as int)) <= u32::MAX {
                digits_value(s@.subrange(start as int, i as int))
            } else {
                u32::MAX as nat + 1
            },
        decreases s.len() - i,
    {
        let ch = s[i];
        if !('0' <= ch && ch <= '9') {
            assert(body[i - start] == ch);
            assert(!all_digits(body));
            assert(parse_u32_spec(s@) is None);
            return None;
        }
        assert(s@.subrange(start as int, i + 1).drop_last() =~= s@.subrange(start as int, i as int));
        let d = (ch as u32 - '0' as u32) as u64;
        let next = acc * 10 + d;
        acc = if next > 0xFFFF_FFFF { 0x1_0000_0000 } else { next };
        i = i + 1;
    }
    assert(s@.subrange(start as int, s@.len() as int) =~= body);
    if acc > 0xFFFF_FFFF { None } else { Some(acc as u32) }
}

/// `s.parse::<usize>()`: an optional `+` then at least one digit, the value fitting.
pub open spec fn parse_usize_spec(s: Seq<char>) -> Option<usize> {
    let body = if s.len() > 0 && s[0] == '+' { s.drop_first() } else { s };
    if body.len() > 0 && all_digits(body) && digits_value(body) <= usize::MAX {
        Some(digits_value(body) as usize)
    } else {
        None
    }
}

/// `s.parse::<usize>()` on characters.
pub fn parse_usize(s: &Vec<char>) -> (r: Option<usize>)
    ensures
        r == parse_usize_spec(s@),
{
    let start: usize = if s.len() > 0 && s[0] == '+' { 1 } else { 0 };
    let ghost body = if s@.len() > 0 && s@[0] == '+' { s@.drop_first() } else { s@ };
    assert(body =~= s@.skip(start as int));
    if start >= s.len() {
        return None;
    }
    let cap: u128 = usize::MAX as u128 + 1;
    let mut acc: u128 = 0;
    let mut i: usize = start;
    while i < s.len()
        invariant
            start <= i <= s.len(),
            cap == usize::MAX + 1,
            body == s@.skip(start as int),
            body == if s@.len() > 0 && s@[0] == '+' { s@.drop_first() } else { s@ },
            all_digits(s@.subrange(start as int, i as int)),
            acc == if digits_value(s@.subrange(start as int, i as int)) <= usize::MAX {
                digits_value(s@.subrange(start as int, i as int))
            } else {
                cap as nat
            },
        decreases s.len() - i,
    {
        let ch = s[i];
        if !('0' <= ch && ch <= '9') {
            assert(body[i - start] == ch);
            assert(!all_digits(body));
            assert(parse_usize_spec(s@) is None);
            return None;
        }
        assert(s@.subrange(start as int, i + 1).drop_last() =~= s@.subrange(start as int, i as int));
        let d = (ch as u32 - '0' as u32) as u128;
        let next = acc * 10 + d;
        acc = if next > usize::MAX as u128 { cap } else { next };
        i = i + 1;
    }
    assert(s@.subrange(start as int, s@.len() as int) =~= body);
    if acc > usize::MAX as u128 { None } else { Some(acc as usize) }
}

/// `s.parse::<usize>()`.
pub fn parse_usize_str(s: &str) -> (r: Option<usize>)
    ensures
        r == parse_usize_spec(s@),
{
    let v = chars_of(s);
    parse_usize(&v)
}

/// Reads a version.
pub fn parse_version(s: &str) -> (r: Option<(u32, u32, u32)>)
    ensures
        r == parse_version_spec(s@),
{
    let chars = chars_of(s);
    let stripped = trim_leading_v(&chars);
    let parts = split_chars(&stripped, '.');
    let ghost ps = parts@.map_values(|p: Vec<char>| p@);
    if parts.len() >= 3 {
        let a = parse_u32(&parts[0]);
        let b = parse_u32(&parts[1]);
        let sub = split_chars(&parts[2], '-');
        assert(sub@.len() >= 1) by {
            lemma_split_nonempty(parts@[2]@, '-');
            assert(sub@.map_values(|p: Vec<char>| p@).len() == sub@.len());
        }
        let c = parse_u32(&sub[0]);
        assert(sub@[0]@ == split_on(ps[2], '-')[0]);
        match (a, b, c) {
            (Some(a), Some(b), Some(c)) => Some((a, b, c)),
            _ => None,
        }
    } else if parts.len() == 2 {
        let a = parse_u32(&parts[0]);
        let b = parse_u32(&parts[1]);
        match (a, b) {
            (Some(a), Some(b)) => Some((a, b, 0)),
            _ => None,
        }
    } else {
        None
    }
}

proof fn lemma_split_nonempty(s: Seq<char>, c: char)
    ensures
        split_on(s, c).len() >= 1,
    decreases s.len(),
{
    if s.len() > 0 {
        lemma_split_nonempty(s.drop_last(), c);
    }
}

/// Whether `latest` names a newer version than `current`.
pub fn is_newer_version(current: &str, latest: &str) -> (r: bool)
    ensures
        r == is_newer_spec(current@, latest@),
{
    match (parse_version(current), parse_version(latest)) {
        (Some((cm, cn, cp)), Some((lm, ln, lp))) => lm > cm || (lm == cm && (ln > cn || (ln == cn && lp > cp))),
        _ => false,
    }
}

/// Checks for newer releases of the configured repository. The HTTP client that
/// fetches the release belongs to the caller.
pub struct UpdateChecker {
    config: UpdateCheckerConfig,
}

impl UpdateChecker {
    /// The checker's configuration.
    pub closed spec fn config_of(&self) -> UpdateCheckerConfig {
        self.config
    }

    /// A checker with the given configuration.
    pub fn new(config: UpdateCheckerConfig) -> (r: UpdateChecker)
        ensures
            r.config_of() == config,
    {
        UpdateChecker { config }
    }

    /// The version running now.
    pub fn current_version(&self) -> (r: &str)
        ensures
            r@ == self.config_of().current_version@,
    {
        self.config.current_version.as_str()
    }

    /// The `User-Agent` the checker sends: `henry/` and the current version.
    pub fn user_agent(&self) -> (r: String)
        ensures
            r@ == "henry/"@ + self.config_of().current_version@,
    {
        owned("henry/").concat(self.config.current_version.as_str())
    }

    /// Where the latest release is asked for; `Disabled` when no repository is configured.
    pub fn release_endpoint(&self) -> (r: Result<String, UpdateError>)
        ensures
            match self.config_of().github_repo {
                None => r matches Err(UpdateError::Disabled),
                Some(repo) => r matches Ok(u) && u@ == "https://api.github.com/repos/"@ + repo@ + "/releases/latest"@,
            },
    {
        match &self.config.github_repo {
            None => Err(UpdateError::Disabled),
            Some(repo) => Ok(latest_release_url(repo.as_str())),
        }
    }

    /// What a release lookup at `now` shows (see [`update_info_at`]).
    pub fn info_at(&self, release: Option<(&str, &str)>, now: i64) -> (r: UpdateInfo)
        ensures
            r.current_version@ == self.config_of().current_version@,
            r.checked_at == now,
            match release {
                None => r.latest_version@ == self.config_of().current_version@ && !r.update_available
                    && r.release_url is None,
                Some((tag, url)) => r.latest_version@ == strip_v(tag@)
                    && r.update_available == is_newer_spec(self.config_of().current_version@, strip_v(tag@))
                    && (r.release_url matches Some(u) && u@ == url@),
            },
    {
        update_info_at(self.config.current_version.as_str(), release, now)
    }
}

/// The releases endpoint for a repository.
pub fn latest_release_url(repo: &str) -> (r: String)
    ensures
        r@ == "https://api.github.com/repos/"@ + repo@ + "/releases/latest"@,
{
    owned("https://api.github.com/repos/").concat(repo).concat("/releases/latest")
}

/// What a release lookup at `now` shows: with no release (an unsuccessful
/// response) the current version is the latest; otherwise the release's tag
/// without leading `v`s is compared with the current version.
pub fn update_info_at(current: &str, release: Option<(&str, &str)>, now: i64) -> (r: UpdateInfo)
    ensures
        r.current_version@ == current@,
        r.checked_at == now,
        match release {
            None => r.latest_version@ == current@ && !r.update_available && r.release_url is None,
            Some((tag, url)) => r.latest_version@ == strip_v(tag@)
                && r.update_available == is_newer_spec(current@, strip_v(tag@))
                && (r.release_url matches Some(u) && u@ == url@),
        },
{
    match release {
        None => UpdateInfo {
            current_version: owned(current),
            latest_version: owned(current),
            update_available: false,
            release_url: None,
            checked_at: now,
        },
        Some((tag, url)) => {
            let t = chars_of(tag);
            let latest = string_of(trim_leading_v(&t).as_slice());
            let available = is_newer_version(current, latest.as_str());
            UpdateInfo {
                current_version: owned(current),
                latest_version: latest,
                update_available: available,
                release_url: Some(owned(url)),
                checked_at: now,
            }
        },
    }
}

// ---------------------------------------------------------------------------
// Laws
// ---------------------------------------------------------------------------

/// No version is newer than itself.
pub proof fn law_newer_irreflexive(v: Seq<char>)
    ensures
        !is_newer_spec(v, v),
{
}

/// Of two versions, at most one is newer than the other.
pub proof fn law_newer_asymmetric(a: Seq<char>, b: Seq<char>)
    ensures
        is_newer_spec(a, b) ==> !is_newer_spec(b, a),
{
}

/// A version newer than a newer version is newer still.
pub proof fn law_newer_transitive(a: Seq<char>, b: Seq<char>, c: Seq<char>)
    requires
        is_newer_spec(a, b),
        is_newer_spec(b, c),
    ensures
        is_newer_spec(a, c),
{
}


/// Between two readable versions, the later is the one with the greater
/// (major, minor, patch) taken in that order: a greater major wins whatever
/// follows, an equal major with a greater minor wins whatever the patches, and
/// only with equal major and minor do the patches decide.
pub proof fn law_newer_is_lexicographic(current: Seq<char>, latest: Seq<char>)
    requires
        parse_version_spec(current) is Some,
        parse_version_spec(latest) is Some,
    ensures
        ({
            let c = parse_version_spec(current)->0;
            let l = parse_version_spec(latest)->0;
            &&& l.0 > c.0 ==> is_newer_spec(current, latest)
            &&& l.0 < c.0 ==> !is_newer_spec(current, latest)
            &&& l.0 == c.0 && l.1 > c.1 ==> is_newer_spec(current, latest)
            &&& l.0 == c.0 && l.1 < c.1 ==> !is_newer_spec(current, latest)
            &&& l.0 == c.0 && l.1 == c.1 ==> (is_newer_spec(current, latest) <==> l.2 > c.2)
        }),
{
}

} // verus!
