//! The cookie that mirrors the session credential for browser clients.

use vstd::prelude::*;
use crate::text::{decimal, decimal_text};

verus! {

/// Seconds that the cookie of a seven-day session lives.
pub const WEEK_SECONDS: u64 = 604800;

/// Seconds that the cookie of a thirty-day session lives.
pub const MONTH_SECONDS: u64 = 2592000;

/// Seconds that the cookie lives: thirty days where the session is to be
/// remembered, seven otherwise.
pub open spec fn cookie_max_age(remember_me: bool) -> u64 {
    if remember_me {
        MONTH_SECONDS
    } else {
        WEEK_SECONDS
    }
}

/// The `Set-Cookie` value for a session credential: readable by the server
/// only, sent on same-site navigation, for every path, `Secure` in
/// production, and bound to `domain` where one is configured.
pub open spec fn cookie_text(
    token: Seq<char>,
    remember_me: bool,
    is_production: bool,
    domain: Seq<char>,
) -> Seq<char> {
    "session_token="@ + token + "; HttpOnly"@ + (if is_production {
        "; Secure"@
    } else {
        Seq::empty()
    }) + "; SameSite=Lax; Path=/; Max-Age="@ + decimal(cookie_max_age(remember_me) as nat) + (
    if domain.len() == 0 {
        Seq::empty()
    } else {
        "; Domain="@ + domain
    })
}

/// The `Set-Cookie` value that removes the session cookie.
pub open spec fn clear_cookie_text() -> Seq<char> {
    "session_token=; HttpOnly; SameSite=Lax; Path=/; Max-Age=0"@
}

/// Builds the `Set-Cookie` value for a session credential.
pub fn build_cookie(token: &str, remember_me: bool, is_production: bool, domain: &str) -> (r: String)
    ensures
        r@ == cookie_text(token@, remember_me, is_production, domain@),
{
    let max_age: u64 = if remember_me {
        MONTH_SECONDS
    } else {
        WEEK_SECONDS
    };
    let mut r = String::from_str("session_token=");
    r.append(token);
    r.append("; HttpOnly");
    if is_production {
        r.append("; Secure");
    }
    r.append("; SameSite=Lax; Path=/; Max-Age=");
    let age = decimal_text(max_age);
    r.append(age.as_str());
    if domain.unicode_len() != 0 {
        r.append("; Domain=");
        r.append(domain);
    }
    assert(r@ =~= cookie_text(token@, remember_me, is_production, domain@));
    r
}

/// Builds the `Set-Cookie` value that removes the session cookie.
pub fn clear_cookie() -> (r: String)
    ensures
        r@ == clear_cookie_text(),
{
    String::from_str("session_token=; HttpOnly; SameSite=Lax; Path=/; Max-Age=0")
}

} // verus!
