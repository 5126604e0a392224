//! The single entry point by which a request is authenticated: a bearer
//! token in the `Authorization` header first, the `session_token` cookie
//! second.

use vstd::prelude::*;
use crate::auth::models::{Claims, ClaimsModel};
use crate::auth::token::{held_under, token_verdict, verify_token};
use crate::model::{refusal_view, result_view};
use crate::text::{
    find_char_from, first_position, has_prefix, lemma_first_position_bounds, starts_with,
    strip_repeated, tail_from, trim_between, trim_start_matches, trimmed,
};

verus! {

/// One header of a request, as far as its value matters here.
#[derive(Debug, Clone, PartialEq, Eq)]
pub enum HeaderField {
    /// The request has no such header.
    Missing,
    /// The header is there but is not readable text.
    Opaque,
    /// The header's value.
    Text(String),
}

/// The mathematical value of a `HeaderField`.
pub enum HeaderFieldModel {
    Missing,
    Opaque,
    Text(Seq<char>),
}

impl DeepView for HeaderField {
    type V = HeaderFieldModel;

    open spec fn deep_view(&self) -> HeaderFieldModel {
        match self {
            HeaderField::Missing => HeaderFieldModel::Missing,
            HeaderField::Opaque => HeaderFieldModel::Opaque,
            HeaderField::Text(t) => HeaderFieldModel::Text(t@),
        }
    }
}

/// The two headers that can carry a session credential.
#[derive(Debug, Clone, PartialEq, Eq)]
pub struct AuthHeaders {
    pub authorization: HeaderField,
    pub cookie: HeaderField,
}

/// The mathematical value of an `AuthHeaders`.
pub struct AuthHeadersModel {
    pub authorization: HeaderFieldModel,
    pub cookie: HeaderFieldModel,
}

impl DeepView for AuthHeaders {
    type V = AuthHeadersModel;

    open spec fn deep_view(&self) -> AuthHeadersModel {
        AuthHeadersModel {
            authorization: self.authorization.deep_view(),
            cookie: self.cookie.deep_view(),
        }
    }
}

/// The value of the `session_token` cookie in a `Cookie` header: the
/// header is cut at every `;`, each part is trimmed, and the first part
/// that begins with `session_token=` gives the value, which is the rest of
/// that part.
pub open spec fn session_cookie(header: Seq<char>) -> Option<Seq<char>>
    decreases header.len(),
{
    let end = first_position(header, ';');
    let part = trimmed(header.take(end));
    if has_prefix(part, "session_token="@) {
        Some(part.skip("session_token="@.len() as int))
    } else if 0 <= end < header.len() {
        session_cookie(header.skip(end + 1))
    } else {
        None
    }
}

/// Where a request carries its session credential.
pub enum Presented {
    /// After `Bearer ` in the `Authorization` header.
    Bearer(Seq<char>),
    /// In the `session_token` cookie.
    Cookie(Seq<char>),
    /// A header that is no readable text, with the message that says so.
    Unreadable(Seq<char>),
    /// Nowhere.
    Nothing,
}

/// Finds the credential of a request. An `Authorization` header that does
/// not begin with `Bearer ` is passed over.
pub open spec fn presented(headers: AuthHeadersModel) -> Presented {
    match headers.authorization {
        HeaderFieldModel::Opaque => Presented::Unreadable("Invalid Authorization header"@),
        HeaderFieldModel::Text(a) if has_prefix(a, "Bearer "@) => Presented::Bearer(
            strip_repeated(a, "Bearer "@),
        ),
        _ => match headers.cookie {
            HeaderFieldModel::Opaque => Presented::Unreadable("Invalid cookie"@),
            HeaderFieldModel::Text(c) => match session_cookie(c) {
                Some(v) => Presented::Cookie(v),
                None => Presented::Nothing,
            },
            HeaderFieldModel::Missing => Presented::Nothing,
        },
    }
}

/// Who a request comes from. All refusals have status 401: a request
/// without a credential is unauthenticated, one with a credential that does
/// not verify has an invalid token.
pub open spec fn resolve(headers: AuthHeadersModel, secret: Option<Seq<char>>, now: u64) -> Result<
    ClaimsModel,
    (u16, Seq<char>),
> {
    match presented(headers) {
        Presented::Unreadable(message) => Err((401, message)),
        Presented::Nothing => Err((401, "Missing authentication"@)),
        Presented::Bearer(token) => match token_verdict(
            held_under(token, secret),
            secret is Some,
            now,
        ) {
            Ok(c) => Ok(c),
            Err(_) => Err((401, "Invalid or expired token"@)),
        },
        Presented::Cookie(token) => match token_verdict(
            held_under(token, secret),
            secret is Some,
            now,
        ) {
            Ok(c) => Ok(c),
            Err(_) => Err((401, "Invalid or expired session"@)),
        },
    }
}

/// Reads the value of the `session_token` cookie from a `Cookie` header.
pub fn find_session_cookie(header: &str) -> (r: Option<&str>)
    ensures
        r.deep_view() == session_cookie(header@),
{
    let n = header.unicode_len();
    let mut from: usize = 0;
    proof {
        assert(header@.skip(0) =~= header@);
    }
    loop
        invariant
            n == header@.len(),
            from <= n,
            session_cookie(header@) == session_cookie(header@.skip(from as int)),
        decreases n - from,
    {
        let end = find_char_from(header, ';', from);
        let part = trim_between(header, from, end);
        proof {
            let rest = header@.skip(from as int);
            lemma_first_position_bounds(rest, ';');
            assert(rest.take(end - from) =~= header@.subrange(from as int, end as int));
        }
        if starts_with(part, "session_token=") {
            let name_len = "session_token=".unicode_len();
            return Some(tail_from(part, name_len));
        }
        if end >= n {
            return None;
        }
        proof {
            let rest = header@.skip(from as int);
            assert(rest.skip(end - from + 1) =~= header@.skip(end + 1));
        }
        from = end + 1;
    }
}

/// Authenticates a request: the claim set of the session credential that
/// it carries, verified under the configured secret at time `now`.
pub fn get_claims_from_headers(headers: &AuthHeaders, secret: Option<&str>, now: u64) -> (r: Result<
    Claims,
    (u16, String),
>)
    ensures
        refusal_view(r) == resolve(headers.deep_view(), secret.deep_view(), now),
{
    match &headers.authorization {
        HeaderField::Opaque => {
            return Err((401, String::from_str("Invalid Authorization header")));
        },
        HeaderField::Text(a) => {
            if starts_with(a.as_str(), "Bearer ") {
                let token = trim_start_matches(a.as_str(), "Bearer ");
                return match verify_token(token, secret, now) {
                    Ok(c) => Ok(c),
                    Err(_) => Err((401, String::from_str("Invalid or expired token"))),
                };
            }
        },
        HeaderField::Missing => {},
    }
    match &headers.cookie {
        HeaderField::Opaque => Err((401, String::from_str("Invalid cookie"))),
        HeaderField::Text(c) => match find_session_cookie(c.as_str()) {
            Some(token) => match verify_token(token, secret, now) {
                Ok(c) => Ok(c),
                Err(_) => Err((401, String::from_str("Invalid or expired session"))),
            },
            None => Err((401, String::from_str("Missing authentication"))),
        },
        HeaderField::Missing => Err((401, String::from_str("Missing authentication"))),
    }
}

} // verus!
