//! The credential codec: compact signed tokens (HS256) that carry a
//! payload with an expiry. The codec answers whether a token is exactly what
//! was signed and whether it is still within its validity window; it never
//! decides authorization.

use vstd::prelude::*;
use crate::model::result_view;
use crate::claims::{claim, distinct_names, number_claim, read_number, ClaimModel, ClaimValue, Payload};

verus! {

#[verifier::external_type_specification]
#[verifier::external_body]
pub struct ExJwtError(jsonwebtoken::errors::Error);

/// The token that signing `payload` under `secret` gives, `None` where
/// signing fails.
pub uninterp spec fn signed_token(payload: Payload, secret: Seq<char>) -> Option<Seq<char>>;

/// The payload that `token` carries under a sound signature by `secret`, in
/// the order of its member names; `None` where the token is not of three
/// parts, is not signed with HS256 under `secret`, does not hold a JSON
/// object, holds no numeric `exp`, or names an audience.
pub uninterp spec fn signed_payload(token: Seq<char>, secret: Seq<char>) -> Option<Payload>;

/// Every member of the payload has a value that a token can carry.
pub open spec fn encodable(es: Payload) -> bool {
    forall|i: int|
        0 <= i < es.len() ==> !((#[trigger] es[i]).1 is Other) && es[i].1 != ClaimModel::Number(
            None,
        )
}

/// The payloads that come back from a token as they went in.
pub open spec fn round_trips(es: Payload) -> bool {
    &&& encodable(es)
    &&& distinct_names(es)
    &&& number_claim(es, "exp"@) is Some
    &&& claim(es, "aud"@) is None
}

/// `token` is soundly signed by `secret` and holds the members of `es`.
pub open spec fn carries(token: Seq<char>, secret: Seq<char>, es: Payload) -> bool {
    signed_payload(token, secret) matches Some(held) && distinct_names(held) && forall|
        key: Seq<char>,
    | #[trigger]
        claim(held, key) == claim(es, key)
}

/// Trusted: `jsonwebtoken::encode` with the default header (HS256) and a
/// key made of the secret's bytes. It succeeds: the key is of the header's
/// family, the header and a map of null, boolean, whole-number and text
/// values serialize, and signing with HMAC has no failure. The token is a
/// function of payload and secret. A payload with distinct names, a
/// whole-number `exp` and no `aud` is what `jsonwebtoken::decode` reads back
/// from that token under the same secret.
#[verifier::external_body]
fn encode(payload: &Vec<(String, ClaimValue)>, secret: &str) -> (r: Result<
    String,
    jsonwebtoken::errors::Error,
>)
    requires
        encodable(payload.deep_view()),
    ensures
        r is Ok,
        r is Ok <==> signed_token(payload.deep_view(), secret@) is Some,
        r matches Ok(t) ==> signed_token(payload.deep_view(), secret@) == Some(t@),
        r matches Ok(t) ==> round_trips(payload.deep_view()) ==> carries(
            t@,
            secret@,
            payload.deep_view(),
        ),
{
    let object: serde_json::Map<String, serde_json::Value> = payload.iter().map(|(k, v)| (k.clone(), match v {
        ClaimValue::Null => serde_json::Value::Null,
        ClaimValue::Flag(b) => serde_json::Value::Bool(*b),
        ClaimValue::Number(n) => serde_json::Value::from(*n),
        ClaimValue::Text(s) => serde_json::Value::String(s.clone()),
        ClaimValue::Other => serde_json::Value::Null,
    })).collect();
    let key = jsonwebtoken::EncodingKey::from_secret(secret.as_bytes());
    jsonwebtoken::encode(&jsonwebtoken::Header::default(), &object, &key)
}

/// Trusted: `jsonwebtoken::decode` with the default validation (HS256, a
/// numeric `exp` required, no audience accepted) except that the expiry is
/// not compared with the clock. The result is a function of token and
/// secret; the members come out of a map, so no name occurs twice.
#[verifier::external_body]
fn decode(token: &str, secret: &str) -> (r: Result<
    Vec<(String, ClaimValue)>,
    jsonwebtoken::errors::Error,
>)
    ensures
        r is Ok <==> signed_payload(token@, secret@) is Some,
        r matches Ok(es) ==> signed_payload(token@, secret@) == Some(es.deep_view())
            && distinct_names(es.deep_view()),
{
    let mut validation = jsonwebtoken::Validation::default();
    validation.validate_exp = false;
    let key = jsonwebtoken::DecodingKey::from_secret(secret.as_bytes());
    let data = jsonwebtoken::decode::<serde_json::Map<String, serde_json::Value>>(token, &key, &validation)?;
    Ok(data.claims.into_iter().map(|(k, v)| (k, match v {
        serde_json::Value::Null => ClaimValue::Null,
        serde_json::Value::Bool(b) => ClaimValue::Flag(b),
        serde_json::Value::Number(n) => ClaimValue::Number(n.as_u64()),
        serde_json::Value::String(s) => ClaimValue::Text(s),
        _ => ClaimValue::Other,
    })).collect())
}

/// Trusted: `Display` of `jsonwebtoken::errors::Error`. Nothing is promised
/// of the text.
#[verifier::external_body]
fn describe(error: &jsonwebtoken::errors::Error) -> (r: String) {
    error.to_string()
}

/// Why a token could not be issued.
#[derive(Debug, Clone, Copy, PartialEq, Eq, Structural)]
pub enum IssueError {
    /// The payload holds a value that no token can carry.
    Unserializable,
    /// The signing itself failed.
    Signing,
}

/// Why a token was not accepted. Both deny access.
#[derive(Debug, Clone, Copy, PartialEq, Eq, Structural)]
pub enum VerifyError {
    /// Not parseable, wrongly signed, or not of the expected shape.
    Malformed,
    /// Sound and of the expected shape, but at or past its expiry.
    Expired,
}

/// Whether a credential that expires at `exp` is still valid at `now`: up to
/// but not including the expiry.
pub open spec fn valid_at(exp: u64, now: u64) -> bool {
    now < exp
}

/// What `issue` returns, given what signing gives.
pub open spec fn issue_result(es: Payload, signed: Option<Seq<char>>) -> Result<
    Seq<char>,
    IssueError,
> {
    if !encodable(es) {
        Err(IssueError::Unserializable)
    } else {
        match signed {
            Some(t) => Ok(t),
            None => Err(IssueError::Signing),
        }
    }
}

/// What `verify` returns for a token whose signed payload is `held`.
pub open spec fn verify_result(held: Option<Payload>, now: u64) -> Result<Payload, VerifyError> {
    match held {
        None => Err(VerifyError::Malformed),
        Some(es) => match number_claim(es, "exp"@) {
            None => Err(VerifyError::Malformed),
            Some(exp) => if valid_at(exp, now) {
                Ok(es)
            } else {
                Err(VerifyError::Expired)
            },
        },
    }
}

/// Whether every member can be carried by a token.
pub fn is_encodable(payload: &Vec<(String, ClaimValue)>) -> (r: bool)
    ensures
        r == encodable(payload.deep_view()),
{
    let ghost model = payload.deep_view();
    let mut i: usize = 0;
    while i < payload.len()
        invariant
            i <= payload.len(),
            model == payload.deep_view(),
            forall|j: int|
                0 <= j < i ==> !((#[trigger] model[j]).1 is Other) && model[j].1
                    != ClaimModel::Number(None),
        decreases payload.len() - i,
    {
        match &payload[i].1 {
            ClaimValue::Other => {
                assert(model[i as int].1 is Other);
                return false;
            },
            ClaimValue::Number(None) => {
                assert(model[i as int].1 == ClaimModel::Number(None));
                return false;
            },
            _ => {},
        }
        i += 1;
    }
    true
}

/// Serializes the payload and signs it with `secret`. Succeeds on every
/// payload that can be serialized, whatever the secret. A token issued for
/// a payload that round-trips carries exactly that payload.
pub fn issue(payload: &Vec<(String, ClaimValue)>, secret: &str) -> (r: Result<String, IssueError>)
    ensures
        r is Ok <==> encodable(payload.deep_view()),
        result_view(r) == issue_result(
            payload.deep_view(),
            signed_token(payload.deep_view(), secret@),
        ),
        r matches Ok(t) ==> round_trips(payload.deep_view()) ==> carries(
            t@,
            secret@,
            payload.deep_view(),
        ),
{
    if !is_encodable(payload) {
        return Err(IssueError::Unserializable);
    }
    match encode(payload, secret) {
        Ok(token) => Ok(token),
        Err(_) => Err(IssueError::Signing),
    }
}

/// The payload that `token` carries, where it is soundly signed by
/// `secret`; otherwise a description of what is wrong with it.
pub fn open(token: &str, secret: &str) -> (r: Result<Vec<(String, ClaimValue)>, String>)
    ensures
        r is Ok <==> signed_payload(token@, secret@) is Some,
        r matches Ok(es) ==> signed_payload(token@, secret@) == Some(es.deep_view())
            && distinct_names(es.deep_view()),
{
    match decode(token, secret) {
        Ok(es) => Ok(es),
        Err(e) => Err(describe(&e)),
    }
}

/// Judges an opened payload at time `now`: it must name a whole-number
/// expiry that lies in the future.
pub fn check_expiry(payload: Vec<(String, ClaimValue)>, now: u64) -> (r: Result<
    Vec<(String, ClaimValue)>,
    VerifyError,
>)
    ensures
        result_view(r) == verify_result(Some(payload.deep_view()), now),
{
    match read_number(&payload, "exp") {
        None => Err(VerifyError::Malformed),
        Some(exp) => if now < exp {
            Ok(payload)
        } else {
            Err(VerifyError::Expired)
        },
    }
}

/// Checks that `token` is exactly what was signed with `secret` and that
/// its expiry lies after `now`.
pub fn verify(token: &str, secret: &str, now: u64) -> (r: Result<
    Vec<(String, ClaimValue)>,
    VerifyError,
>)
    ensures
        result_view(r) == verify_result(signed_payload(token@, secret@), now),
{
    match open(token, secret) {
        Err(_) => Err(VerifyError::Malformed),
        Ok(payload) => check_expiry(payload, now),
    }
}

} // verus!
