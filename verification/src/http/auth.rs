//! Bearer-token authentication of the HTTP API.

use vstd::prelude::*;
use crate::ct::constant_time_str_eq;
use crate::text::{
    chars_of, find_chars, find_seq, owned, slice_chars, starts_with, starts_with_seq, str_eq,
    string_of, trim, trim_seq,
};

verus! {

/// Whether an address belongs to this machine or the local network: the loopback
/// addresses and the `192.168.` and `10.` ranges.
pub open spec fn local_ip(ip: Seq<char>) -> bool {
    ip == "127.0.0.1"@ || ip == "::1"@ || starts_with_seq(ip, "192.168."@) || starts_with_seq(ip, "10."@)
}

/// Whether an address is local.
pub fn is_local_ip(ip: &str) -> (r: bool)
    ensures
        r == local_ip(ip@),
{
    str_eq(ip, "127.0.0.1") || str_eq(ip, "::1") || starts_with(ip, "192.168.") || starts_with(ip, "10.")
}

/// Timing-safe token comparison.
pub fn verify_token(provided: &str, expected: &str) -> (r: bool)
    ensures
        r == (provided@ == expected@),
{
    constant_time_str_eq(provided, expected)
}

/// The first address of an `X-Forwarded-For` header: the text before the first
/// comma, without surrounding whitespace.
pub open spec fn first_forwarded(header: Seq<char>) -> Seq<char> {
    match find_seq(header, ","@) {
        Some(i) => trim_seq(header.take(i)),
        None => trim_seq(header),
    }
}

/// The first address of an `X-Forwarded-For` header.
pub fn first_forwarded_ip(header: &str) -> (r: String)
    ensures
        r@ == first_forwarded(header@),
{
    let v = chars_of(header);
    let mut comma: Vec<char> = Vec::new();
    comma.push(',');
    proof { reveal_strlit(","); }
    assert(comma@ =~= ","@);
    match find_chars(&v, &comma) {
        Some(i) => {
            proof { crate::text::lemma_first_occurrence_unique(v@, comma@, i as int); }
            let head = slice_chars(&v, 0, i);
            assert(head@ =~= header@.take(i as int));
            let s = string_of(head.as_slice());
            trim(s.as_str())
        },
        None => trim(header),
    }
}

/// Whether a request comes from a local address, as its `X-Forwarded-For` header
/// says; a request without the header is not taken as local.
pub open spec fn local_request(forwarded_for: Option<Seq<char>>) -> bool {
    match forwarded_for {
        Some(h) => local_ip(first_forwarded(h)),
        None => false,
    }
}

/// Whether a request comes from a local address.
pub fn is_local_request(forwarded_for: Option<&str>) -> (r: bool)
    ensures
        r == local_request(match forwarded_for { Some(h) => Some(h@), None => None }),
{
    match forwarded_for {
        Some(h) => {
            let ip = first_forwarded_ip(h);
            is_local_ip(ip.as_str())
        },
        None => false,
    }
}

/// What authentication answers: nothing for a request that passes, the message of
/// the 401 answer for one that is refused.
pub open spec fn auth_outcome(api_token: Option<Seq<char>>, forwarded_for: Option<Seq<char>>, authorization: Option<Seq<char>>) -> Option<Seq<char>> {
    match api_token {
        None => None,
        Some(expected) => if local_request(forwarded_for) {
            None
        } else {
            match authorization {
                Some(h) => if starts_with_seq(h, "Bearer "@) {
                    if h.skip(7) == expected { None } else { Some("Invalid API token"@) }
                } else {
                    Some("Missing or invalid Authorization header"@)
                },
                None => Some("Missing or invalid Authorization header"@),
            }
        },
    }
}

/// What the authentication layer does with a request.
#[derive(Debug)]
pub enum AuthDecision {
    /// Pass the request on.
    Allow,
    /// Answer 401 with the message.
    Reject(String),
}

/// Decides on a request to the API from the configured token and the request's
/// `X-Forwarded-For` and `Authorization` headers: without a configured token, or
/// from a local address, it passes; otherwise it needs `Bearer <token>` with the
/// configured token.
pub fn authorize(api_token: Option<&str>, forwarded_for: Option<&str>, authorization: Option<&str>) -> (r: AuthDecision)
    ensures
        match auth_outcome(
            match api_token { Some(t) => Some(t@), None => None },
            match forwarded_for { Some(h) => Some(h@), None => None },
            match authorization { Some(h) => Some(h@), None => None },
        ) {
            None => r is Allow,
            Some(m) => r matches AuthDecision::Reject(x) && x@ == m,
        },
        api_token is None ==> r is Allow,
        api_token is Some && local_request(match forwarded_for { Some(h) => Some(h@), None => None }) ==> r is Allow,
        api_token is Some && !local_request(match forwarded_for { Some(h) => Some(h@), None => None }) ==> ({
            let expected = api_token->0@;
            match authorization {
                Some(h) => if starts_with_seq(h@, "Bearer "@) {
                    if h@.skip(7) == expected {
                        r is Allow
                    } else {
                        r matches AuthDecision::Reject(m) && m@ == "Invalid API token"@
                    }
                } else {
                    r matches AuthDecision::Reject(m) && m@ == "Missing or invalid Authorization header"@
                },
                None => r matches AuthDecision::Reject(m) && m@ == "Missing or invalid Authorization header"@,
            }
        }),
{
    let expected = match api_token {
        None => return AuthDecision::Allow,
        Some(t) => t,
    };
    if is_local_request(forwarded_for) {
        return AuthDecision::Allow;
    }
    match authorization {
        Some(h) => {
            if starts_with(h, "Bearer ") {
                proof { reveal_strlit("Bearer "); }
                let v = chars_of(h);
                let rest = slice_chars(&v, 7, v.len());
                assert(rest@ =~= h@.skip(7));
                let provided = string_of(rest.as_slice());
                if verify_token(provided.as_str(), expected) {
                    AuthDecision::Allow
                } else {
                    AuthDecision::Reject(owned("Invalid API token"))
                }
            } else {
                AuthDecision::Reject(owned("Missing or invalid Authorization header"))
            }
        },
        None => AuthDecision::Reject(owned("Missing or invalid Authorization header")),
    }
}

// ---------------------------------------------------------------------------
// Laws
// ---------------------------------------------------------------------------

/// A request bearing the configured token passes.
pub proof fn law_bearer_token_passes(token: Seq<char>, forwarded_for: Option<Seq<char>>)
    ensures
        auth_outcome(Some(token), forwarded_for, Some("Bearer "@ + token)) is None,
{
    reveal_strlit("Bearer ");
    let h = "Bearer "@ + token;
    assert(h.take(7) =~= "Bearer "@);
    assert(h.skip(7) =~= token);
}

/// A request from outside bearing another token is refused.
pub proof fn law_wrong_token_refused(token: Seq<char>, other: Seq<char>)
    requires
        other != token,
    ensures
        auth_outcome(Some(token), None, Some("Bearer "@ + other)) == Some("Invalid API token"@),
{
    reveal_strlit("Bearer ");
    let h = "Bearer "@ + other;
    assert(h.take(7) =~= "Bearer "@);
    assert(h.skip(7) =~= other);
}

/// Without a configured token every request passes.
pub proof fn law_open_without_token(forwarded_for: Option<Seq<char>>, authorization: Option<Seq<char>>)
    ensures
        auth_outcome(None, forwarded_for, authorization) is None,
{
}

} // verus!
