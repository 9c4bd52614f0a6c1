//! Who may use the Telegram bot.

use vstd::prelude::*;
use crate::ct::constant_time_str_eq;

verus! {

/// Whether a user may use the bot: their id is allowed, or they have a username
/// that is allowed.
pub open spec fn authorized(user_id: i64, username: Option<Seq<char>>, allowed_ids: Seq<i64>, allowed_usernames: Seq<String>) -> bool {
    allowed_ids.contains(user_id) || (username matches Some(u)
        && exists|i: int| 0 <= i < allowed_usernames.len() && (#[trigger] allowed_usernames[i])@ == u)
}

/// Checks whether a user is authorized: first by id, then by username with a
/// timing-safe comparison.
pub fn is_authorized(user_id: i64, username: Option<&str>, allowed_ids: &[i64], allowed_usernames: &[String]) -> (r: bool)
    ensures
        r == authorized(user_id, match username { Some(u) => Some(u@), None => None }, allowed_ids@, allowed_usernames@),
{
    let mut i: usize = 0;
    while i < allowed_ids.len()
        invariant
            i <= allowed_ids.len(),
            forall|j: int| 0 <= j < i ==> allowed_ids@[j] != user_id,
        decreases allowed_ids.len() - i,
    {
        if allowed_ids[i] == user_id {
            assert(allowed_ids@.contains(user_id));
            return true;
        }
        i = i + 1;
    }
    assert(!allowed_ids@.contains(user_id));
    match username {
        Some(u) => {
            let mut k: usize = 0;
            while k < allowed_usernames.len()
                invariant
                    k <= allowed_usernames.len(),
                    username == Some(u),
                    forall|j: int| 0 <= j < k ==> (#[trigger] allowed_usernames@[j])@ != u@,
                decreases allowed_usernames.len() - k,
            {
                if constant_time_str_eq(u, allowed_usernames[k].as_str()) {
                    assert(allowed_usernames@[k as int]@ == u@);
                    return true;
                }
                k = k + 1;
            }
            false
        },
        None => false,
    }
}

/// Timing-safe token comparison.
pub fn verify_token(provided: &str, expected: &str) -> (r: bool)
    ensures
        r == (provided@ == expected@),
{
    constant_time_str_eq(provided, expected)
}

} // verus!
