//! Secrets referenced as `op://vault/item/field`: reference checks, the cache, how
//! the password manager's answers are read, and redaction for logs.
//!
//! Running the `op` command is the caller's; it hands over what the command printed.

use vstd::prelude::*;
use vstd::hash_map::StringHashMap;
use crate::text::{
    chars_of, contains, contains_seq, find_chars, find_seq, owned, slice_chars, starts_with,
    starts_with_seq, string_of, trim, trim_seq,
};

verus! {

/// Errors of secret retrieval.
#[derive(Debug)]
pub enum SecretsError {
    /// The `op` command is not installed.
    OpNotFound,
    /// The command failed (its error output).
    OpError(String),
    /// The command could not be run (the system's message).
    Io(String),
    /// The reference does not start with `op://`.
    InvalidReference(String),
    /// No secret has the reference.
    NotFound(String),
    /// The password manager session has expired.
    SessionExpired,
}

impl SecretsError {
    /// The error message.
    pub fn message(&self) -> (r: String)
        ensures
            match self {
                SecretsError::OpNotFound => r@ == "1Password CLI not found. Install with: brew install 1password-cli"@,
                SecretsError::OpError(e) => r@ == "1Password CLI error: "@ + e@,
                SecretsError::Io(e) => r@ == "failed to execute op command: "@ + e@,
                SecretsError::InvalidReference(x) => r@ == "invalid secret reference format: "@ + x@,
                SecretsError::NotFound(x) => r@ == "secret not found: "@ + x@,
                SecretsError::SessionExpired => r@ == "1Password session expired. Run: op signin"@,
            },
    {
        match self {
            SecretsError::OpNotFound => owned("1Password CLI not found. Install with: brew install 1password-cli"),
            SecretsError::OpError(e) => owned("1Password CLI error: ").concat(e.as_str()),
            SecretsError::Io(e) => owned("failed to execute op command: ").concat(e.as_str()),
            SecretsError::InvalidReference(x) => owned("invalid secret reference format: ").concat(x.as_str()),
            SecretsError::NotFound(x) => owned("secret not found: ").concat(x.as_str()),
            SecretsError::SessionExpired => owned("1Password session expired. Run: op signin"),
        }
    }
}

/// Whether a reference has the `op://` form.
pub open spec fn valid_reference(reference: Seq<char>) -> bool {
    starts_with_seq(reference, "op://"@)
}

/// The error for a command that could not be run: a missing program is
/// `OpNotFound`, anything else an I/O error with the system's message.
pub fn spawn_error(program_missing: bool, message: &str) -> (r: SecretsError)
    ensures
        program_missing ==> r matches SecretsError::OpNotFound,
        !program_missing ==> (r matches SecretsError::Io(m) && m@ == message@),
{
    if program_missing {
        SecretsError::OpNotFound
    } else {
        SecretsError::Io(owned(message))
    }
}

/// Whether the error output of `op` tells of an expired or missing sign-in.
pub open spec fn expired_session(stderr: Seq<char>) -> bool {
    contains_seq(stderr, "not signed in"@) || contains_seq(stderr, "session expired"@)
}

/// Whether the error output of `op` tells of a missing secret.
pub open spec fn missing_secret(stderr: Seq<char>) -> bool {
    contains_seq(stderr, "isn't an item"@) || contains_seq(stderr, "not found"@)
}

/// Reads the outcome of `op read <reference>` from its status and output: on
/// success the printed secret without surrounding whitespace; on failure an expired
/// session, a missing secret, or the command's error output, as the error output says.
pub fn fetch_outcome(success: bool, stdout: &str, stderr: &str, reference: &str) -> (r: Result<String, SecretsError>)
    ensures
        success ==> (r matches Ok(x) && x@ == trim_seq(stdout@)),
        !success && expired_session(stderr@) ==> (r matches Err(SecretsError::SessionExpired)),
        !success && !expired_session(stderr@) && missing_secret(stderr@)
            ==> (r matches Err(SecretsError::NotFound(x)) && x@ == reference@),
        !success && !expired_session(stderr@) && !missing_secret(stderr@)
            ==> (r matches Err(SecretsError::OpError(x)) && x@ == stderr@),
{
    if success {
        Ok(trim(stdout))
    } else if contains(stderr, "not signed in") || contains(stderr, "session expired") {
        Err(SecretsError::SessionExpired)
    } else if contains(stderr, "isn't an item") || contains(stderr, "not found") {
        Err(SecretsError::NotFound(owned(reference)))
    } else {
        Err(SecretsError::OpError(owned(stderr)))
    }
}

/// A lookup where a missing secret is no error: `NotFound` becomes `None`.
pub fn optional_secret(r: Result<String, SecretsError>) -> (o: Result<Option<String>, SecretsError>)
    ensures
        r matches Ok(s) ==> o == Ok::<Option<String>, SecretsError>(Some(s)),
        r matches Err(SecretsError::NotFound(_)) ==> o == Ok::<Option<String>, SecretsError>(None),
        r matches Err(e) ==> (!(e is NotFound) ==> o == Err::<Option<String>, SecretsError>(e)),
{
    match r {
        Ok(s) => Ok(Some(s)),
        Err(SecretsError::NotFound(_)) => Ok(None),
        Err(e) => Err(e),
    }
}

/// A reference as logged: `op://vault/item/*****`, hiding the field, or
/// `[invalid reference]` when it lacks the `op://` form or a vault and item.
pub open spec fn redacted(reference: Seq<char>) -> Seq<char> {
    if starts_with_seq(reference, "op://"@) {
        let rest = reference.skip(5);
        match find_seq(rest, "/"@) {
            Some(i) => match find_seq(rest.skip(i + 1), "/"@) {
                Some(j) => "op://"@ + rest.take(i) + "/"@ + rest.skip(i + 1).take(j) + "/*****"@,
                None => "[invalid reference]"@,
            },
            None => "[invalid reference]"@,
        }
    } else {
        "[invalid reference]"@
    }
}

/// What a lookup returns from the cache: the cached secret for a valid reference
/// when caching, else nothing.
pub open spec fn cached_result(caching: bool, cached: Map<Seq<char>, String>, reference: Seq<char>) -> Option<Seq<char>> {
    if valid_reference(reference) && caching && cached.contains_key(reference) {
        Some(cached[reference]@)
    } else {
        None
    }
}

/// Whether `after` is `before` having kept `secret` under `reference`: the cache
/// gains the secret when caching and is unchanged otherwise.
pub open spec fn remembered(
    caching: bool,
    before: Map<Seq<char>, String>,
    after: Map<Seq<char>, String>,
    reference: Seq<char>,
    secret: Seq<char>,
) -> bool {
    if caching {
        after.contains_key(reference) && after[reference]@ == secret
            && forall|k: Seq<char>| k != reference ==> (#[trigger] after.contains_key(k) == before.contains_key(k)
                && (before.contains_key(k) ==> after[k] == before[k]))
    } else {
        after == before
    }
}

/// Secret manager backed by the password manager's command-line tool, with an
/// in-memory cache.
pub struct SecretManager {
    cache: StringHashMap<String>,
    use_cache: bool,
}

impl SecretManager {
    /// The cached secrets by reference.
    pub closed spec fn cached(&self) -> Map<Seq<char>, String> {
        self.cache@
    }

    /// Whether secrets are cached.
    pub closed spec fn caching(&self) -> bool {
        self.use_cache
    }

    /// A manager that caches secrets.
    pub fn new() -> (r: SecretManager)
        ensures
            r.caching(),
            r.cached() == Map::<Seq<char>, String>::empty(),
    {
        SecretManager { cache: StringHashMap::new(), use_cache: true }
    }

    /// A manager that does not cache secrets.
    pub fn without_cache() -> (r: SecretManager)
        ensures
            !r.caching(),
            r.cached() == Map::<Seq<char>, String>::empty(),
    {
        SecretManager { cache: StringHashMap::new(), use_cache: false }
    }

    /// The first step of a lookup: a reference without the `op://` form is
    /// refused; a cached secret is returned; otherwise nothing, and the secret is to
    /// be fetched.
    pub fn lookup(&self, reference: &str) -> (r: Result<Option<String>, SecretsError>)
        ensures
            !valid_reference(reference@) ==> (r matches Err(SecretsError::InvalidReference(x)) && x@ == reference@),
            valid_reference(reference@) && self.caching() && self.cached().contains_key(reference@)
                ==> (r matches Ok(Some(s)) && s@ == self.cached()[reference@]@),
            valid_reference(reference@) && !(self.caching() && self.cached().contains_key(reference@))
                ==> r == Ok::<Option<String>, SecretsError>(None),
    {
        if !starts_with(reference, "op://") {
            return Err(SecretsError::InvalidReference(owned(reference)));
        }
        if self.use_cache {
            match self.cache.get(reference) {
                Some(s) => return Ok(Some(s.clone())),
                None => {},
            }
        }
        Ok(None)
    }

    /// Keeps a fetched secret when caching.
    pub fn remember(&mut self, reference: &str, secret: &str)
        ensures
            remembered(old(self).caching(), old(self).cached(), final(self).cached(), reference@, secret@),
            final(self).caching() == old(self).caching(),
            old(self).caching() ==> final(self).cached() == old(self).cached().insert(reference@, final(self).cached()[reference@]),
            old(self).caching() ==> final(self).cached()[reference@]@ == secret@,
            !old(self).caching() ==> final(self).cached() == old(self).cached(),
    {
        if self.use_cache {
            self.cache.insert(owned(reference), owned(secret));
        }
    }

    /// Clears the secret cache.
    pub fn clear_cache(&mut self)
        ensures
            final(self).caching() == old(self).caching(),
            final(self).cached() == Map::<Seq<char>, String>::empty(),
    {
        self.cache.clear();
    }

    /// Redacts a reference for logging.
    pub fn redact_reference(reference: &str) -> (r: String)
        ensures
            r@ == redacted(reference@),
    {
        if !starts_with(reference, "op://") {
            return owned("[invalid reference]");
        }
        proof { reveal_strlit("op://"); }
        let v = chars_of(reference);
        let rest = slice_chars(&v, 5, v.len());
        assert(rest@ =~= reference@.skip(5));
        let mut slash: Vec<char> = Vec::new();
        slash.push('/');
        proof { reveal_strlit("/"); }
        assert(slash@ =~= "/"@);
        match find_chars(&rest, &slash) {
            None => owned("[invalid reference]"),
            Some(i) => {
                proof { crate::text::lemma_first_occurrence_unique(rest@, slash@, i as int); }
                let tail = slice_chars(&rest, i + 1, rest.len());
                assert(tail@ =~= rest@.skip(i + 1));
                match find_chars(&tail, &slash) {
                    None => owned("[invalid reference]"),
                    Some(j) => {
                        proof { crate::text::lemma_first_occurrence_unique(tail@, slash@, j as int); }
                        let vault = slice_chars(&rest, 0, i);
                        let item = slice_chars(&tail, 0, j);
                        assert(vault@ =~= rest@.take(i as int));
                        assert(item@ =~= tail@.take(j as int));
                        let vs = string_of(vault.as_slice());
                        let is = string_of(item.as_slice());
                        owned("op://").concat(vs.as_str()).concat("/").concat(is.as_str()).concat("/*****")
                    },
                }
            },
        }
    }
}

impl Default for SecretManager {
    fn default() -> (r: SecretManager)
        ensures
            r.caching(),
            r.cached() == Map::<Seq<char>, String>::empty(),
    {
        SecretManager::new()
    }
}

// ---------------------------------------------------------------------------
// Laws
// ---------------------------------------------------------------------------

/// A secret kept by a caching manager is what a later lookup of its reference gives
/// back, and other references keep what they gave.
pub proof fn law_cached_secret_read_back(
    before: Map<Seq<char>, String>,
    after: Map<Seq<char>, String>,
    reference: Seq<char>,
    secret: Seq<char>,
    other: Seq<char>,
)
    requires
        remembered(true, before, after, reference, secret),
        valid_reference(reference),
    ensures
        cached_result(true, after, reference) == Some(secret),
        other != reference ==> cached_result(true, after, other) == cached_result(true, before, other),
{
    if other != reference {
        assert(after.contains_key(other) == before.contains_key(other));
    }
}

/// A manager that does not cache never answers from the cache.
pub proof fn law_uncached_never_hits(cached: Map<Seq<char>, String>, reference: Seq<char>)
    ensures
        cached_result(false, cached, reference) is None,
{
}

/// Redaction keeps vault and item and hides the field.
pub proof fn law_redaction_hides_field(vault: Seq<char>, item: Seq<char>, field: Seq<char>)
    requires
        !vault.contains('/'),
        !item.contains('/'),
    ensures
        redacted("op://"@ + vault + "/"@ + item + "/"@ + field) == "op://"@ + vault + "/"@ + item + "/*****"@,
{
    reveal_strlit("op://");
    reveal_strlit("/");
    let reference = "op://"@ + vault + "/"@ + item + "/"@ + field;
    let rest = vault + "/"@ + item + "/"@ + field;
    assert(starts_with_seq(reference, "op://"@)) by {
        assert(reference.take(5) =~= "op://"@);
    }
    assert(reference.skip(5) =~= rest);
    let i = vault.len() as int;
    assert(crate::text::is_first_occurrence(rest, "/"@, i)) by {
        assert(rest.subrange(i, i + 1) =~= "/"@);
        assert forall|j: int| 0 <= j < i implies !crate::text::occurs_at(rest, "/"@, j) by {
            assert(rest[j] == vault[j]);
            if crate::text::occurs_at(rest, "/"@, j) {
                assert(rest.subrange(j, j + 1)[0] == '/');
                assert(vault.contains(vault[j]));
            }
        }
    }
    crate::text::lemma_first_occurrence_unique(rest, "/"@, i);
    let tail = rest.skip(i + 1);
    assert(tail =~= item + "/"@ + field);
    let k = item.len() as int;
    assert(crate::text::is_first_occurrence(tail, "/"@, k)) by {
        assert(tail.subrange(k, k + 1) =~= "/"@);
        assert forall|j: int| 0 <= j < k implies !crate::text::occurs_at(tail, "/"@, j) by {
            assert(tail[j] == item[j]);
            if crate::text::occurs_at(tail, "/"@, j) {
                assert(tail.subrange(j, j + 1)[0] == '/');
                assert(item.contains(item[j]));
            }
        }
    }
    crate::text::lemma_first_occurrence_unique(tail, "/"@, k);
    assert(rest.take(i) =~= vault);
    assert(tail.take(k) =~= item);
}

} // verus!
