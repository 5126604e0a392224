//! The session credential: a signed encoding of a claim set that expires
//! with its session.

use vstd::prelude::*;
use crate::auth::models::{Claims, ClaimsModel};
use crate::claims::{
    claim, distinct_names, flag_claim, lemma_claim_at, lemma_claim_missing, number_claim,
    optional_text_claim, read_flag, read_number, read_optional_text, read_text, text_claim,
    ClaimModel, ClaimValue, Payload,
};
use crate::codec::{
    carries, encodable, issue, issue_result, open, round_trips, signed_payload, signed_token,
    valid_at, IssueError, VerifyError,
};
use crate::ident::{id_text, parse_id, uuid_text, uuid_value};
use crate::model::result_view;
use crate::models::AdminLevel;

verus! {

/// How a payload carries an identifier that may be absent.
pub open spec fn id_member(id: Option<u128>) -> ClaimModel {
    match id {
        Some(i) => ClaimModel::Text(uuid_text(i)),
        None => ClaimModel::Null,
    }
}

/// How a payload carries an admin level that may be absent.
pub open spec fn level_member(level: Option<AdminLevel>) -> ClaimModel {
    match level {
        Some(l) => ClaimModel::Text(l.claim_name()),
        None => ClaimModel::Null,
    }
}

/// The payload of a session credential for the claim set `c`.
pub open spec fn session_payload(c: ClaimsModel) -> Payload {
    seq![
        ("sub"@, ClaimModel::Text(c.sub)),
        ("session_id"@, ClaimModel::Text(c.session_id)),
        ("exp"@, ClaimModel::Number(Some(c.exp))),
        ("iat"@, ClaimModel::Number(Some(c.iat))),
        ("student_id"@, ClaimModel::Text(c.student_id)),
        ("email"@, ClaimModel::Text(c.email)),
        ("first_name"@, ClaimModel::Text(c.first_name)),
        ("last_name"@, ClaimModel::Text(c.last_name)),
        ("department_id"@, id_member(c.department_id)),
        ("is_admin"@, ClaimModel::Flag(c.is_admin)),
        ("admin_level"@, level_member(c.admin_level)),
        ("organization_id"@, id_member(c.organization_id)),
    ]
}

/// The member `key` as an identifier that may be left out: `None` where it
/// is present and no UUID.
pub open spec fn optional_id_claim(es: Payload, key: Seq<char>) -> Option<Option<u128>> {
    match optional_text_claim(es, key) {
        None => None,
        Some(None) => Some(None),
        Some(Some(t)) => match uuid_value(t) {
            Some(id) => Some(Some(id)),
            None => None,
        },
    }
}

/// The member `key` as an admin level that may be left out: `None` where
/// it is present and names no level.
pub open spec fn optional_level_claim(es: Payload, key: Seq<char>) -> Option<Option<AdminLevel>> {
    match optional_text_claim(es, key) {
        None => None,
        Some(None) => Some(None),
        Some(Some(t)) => match AdminLevel::claim_named(t) {
            Some(l) => Some(Some(l)),
            None => None,
        },
    }
}

/// The claim set that a payload holds, `None` where a member is missing
/// or of the wrong kind.
pub open spec fn session_claims(es: Payload) -> Option<ClaimsModel> {
    if text_claim(es, "sub"@) is Some && text_claim(es, "session_id"@) is Some && number_claim(
        es,
        "exp"@,
    ) is Some && number_claim(es, "iat"@) is Some && text_claim(es, "student_id"@) is Some
        && text_claim(es, "email"@) is Some && text_claim(es, "first_name"@) is Some && text_claim(
        es,
        "last_name"@,
    ) is Some && optional_id_claim(es, "department_id"@) is Some && flag_claim(es, "is_admin"@)
        is Some && optional_level_claim(es, "admin_level"@) is Some && optional_id_claim(
        es,
        "organization_id"@,
    ) is Some {
        Some(
            ClaimsModel {
                sub: text_claim(es, "sub"@)->0,
                session_id: text_claim(es, "session_id"@)->0,
                exp: number_claim(es, "exp"@)->0,
                iat: number_claim(es, "iat"@)->0,
                student_id: text_claim(es, "student_id"@)->0,
                email: text_claim(es, "email"@)->0,
                first_name: text_claim(es, "first_name"@)->0,
                last_name: text_claim(es, "last_name"@)->0,
                department_id: optional_id_claim(es, "department_id"@)->0,
                is_admin: flag_claim(es, "is_admin"@)->0,
                admin_level: optional_level_claim(es, "admin_level"@)->0,
                organization_id: optional_id_claim(es, "organization_id"@)->0,
            },
        )
    } else {
        None
    }
}

/// `token` is soundly signed by `secret` and holds the claim set `c`.
pub open spec fn carries_session(token: Seq<char>, secret: Seq<char>, c: ClaimsModel) -> bool {
    signed_payload(token, secret) matches Some(held) && session_claims(held) == Some(c)
}

/// What verifying a session credential at `now` gives, for a token whose
/// signed payload is `held`: the claim set up to but not including its
/// expiry, `Expired` from the expiry on, and `Malformed` where there is no
/// sound payload or it holds no claim set.
pub open spec fn session_verdict(held: Option<Payload>, now: u64) -> Result<
    ClaimsModel,
    VerifyError,
> {
    match held {
        None => Err(VerifyError::Malformed),
        Some(es) => match session_claims(es) {
            None => Err(VerifyError::Malformed),
            Some(c) => if valid_at(c.exp, now) {
                Ok(c)
            } else {
                Err(VerifyError::Expired)
            },
        },
    }
}

/// The member for an identifier that may be absent.
fn id_value(id: Option<u128>) -> (r: ClaimValue)
    ensures
        r.deep_view() == id_member(id),
        id matches Some(i) ==> uuid_value(uuid_text(i)) == Some(i),
{
    match id {
        Some(i) => ClaimValue::Text(id_text(i)),
        None => ClaimValue::Null,
    }
}

/// The member for an admin level that may be absent.
fn level_value(level: Option<AdminLevel>) -> (r: ClaimValue)
    ensures
        r.deep_view() == level_member(level),
{
    match level {
        Some(l) => ClaimValue::Text(String::from_str(l.claim_text())),
        None => ClaimValue::Null,
    }
}

/// Reads an identifier that may be left out.
fn read_optional_id(es: &Vec<(String, ClaimValue)>, key: &str) -> (r: Option<Option<u128>>)
    ensures
        r == optional_id_claim(es.deep_view(), key@),
{
    match read_optional_text(es, key) {
        None => None,
        Some(None) => Some(None),
        Some(Some(t)) => match parse_id(t.as_str()) {
            Some(id) => Some(Some(id)),
            None => None,
        },
    }
}

/// Reads an admin level that may be left out.
fn read_optional_level(es: &Vec<(String, ClaimValue)>, key: &str) -> (r: Option<
    Option<AdminLevel>,
>)
    ensures
        r == optional_level_claim(es.deep_view(), key@),
{
    match read_optional_text(es, key) {
        None => None,
        Some(None) => Some(None),
        Some(Some(t)) => match AdminLevel::from_claim_text(t.as_str()) {
            Some(l) => Some(Some(l)),
            None => None,
        },
    }
}

/// The payload of a claim set has distinct names, none of them `aud`, and
/// holds that claim set, where the identifiers in it read back from their
/// text.
pub proof fn lemma_session_payload(c: ClaimsModel)
    requires
        c.department_id matches Some(i) ==> uuid_value(uuid_text(i)) == Some(i),
        c.organization_id matches Some(i) ==> uuid_value(uuid_text(i)) == Some(i),
    ensures
        round_trips(session_payload(c)),
        session_claims(session_payload(c)) == Some(c),
{
    let es = session_payload(c);
    reveal_strlit("sub");
    reveal_strlit("session_id");
    reveal_strlit("exp");
    reveal_strlit("iat");
    reveal_strlit("student_id");
    reveal_strlit("email");
    reveal_strlit("first_name");
    reveal_strlit("last_name");
    reveal_strlit("department_id");
    reveal_strlit("is_admin");
    reveal_strlit("admin_level");
    reveal_strlit("organization_id");
    reveal_strlit("aud");
    assert("sub"@.len() == 3);
    assert("session_id"@.len() == 10);
    assert("exp"@.len() == 3);
    assert("iat"@.len() == 3);
    assert("student_id"@.len() == 10);
    assert("email"@.len() == 5);
    assert("first_name"@.len() == 10);
    assert("last_name"@.len() == 9);
    assert("department_id"@.len() == 13);
    assert("is_admin"@.len() == 8);
    assert("admin_level"@.len() == 11);
    assert("organization_id"@.len() == 15);
    assert("aud"@.len() == 3);
    assert("sub"@[0] != "exp"@[0]);
    assert("sub"@[0] != "iat"@[0]);
    assert("sub"@[0] != "aud"@[0]);
    assert("session_id"@[1] != "student_id"@[1]);
    assert("session_id"@[0] != "first_name"@[0]);
    assert("exp"@[0] != "iat"@[0]);
    assert("exp"@[0] != "aud"@[0]);
    assert("iat"@[0] != "aud"@[0]);
    assert("student_id"@[0] != "first_name"@[0]);
    assert(es.len() == 12);
    assert(es[0].0 == "sub"@);
    assert(es[1].0 == "session_id"@);
    assert(es[2].0 == "exp"@);
    assert(es[3].0 == "iat"@);
    assert(es[4].0 == "student_id"@);
    assert(es[5].0 == "email"@);
    assert(es[6].0 == "first_name"@);
    assert(es[7].0 == "last_name"@);
    assert(es[8].0 == "department_id"@);
    assert(es[9].0 == "is_admin"@);
    assert(es[10].0 == "admin_level"@);
    assert(es[11].0 == "organization_id"@);
    assert(distinct_names(es));
    assert(encodable(es));
    lemma_claim_at(es, 0);
    lemma_claim_at(es, 1);
    lemma_claim_at(es, 2);
    lemma_claim_at(es, 3);
    lemma_claim_at(es, 4);
    lemma_claim_at(es, 5);
    lemma_claim_at(es, 6);
    lemma_claim_at(es, 7);
    lemma_claim_at(es, 8);
    lemma_claim_at(es, 9);
    lemma_claim_at(es, 10);
    lemma_claim_at(es, 11);
    lemma_claim_missing(es, "aud"@);
    if c.admin_level is Some {
        c.admin_level->0.lemma_claim_name_reads_back();
    }
    assert(session_claims(es)->0 =~= c);
}

impl Claims {
    /// The payload that a session credential for this claim set carries.
    pub fn to_payload(&self) -> (r: Vec<(String, ClaimValue)>)
        ensures
            r.deep_view() == session_payload(self.deep_view()),
            round_trips(r.deep_view()),
            session_claims(r.deep_view()) == Some(self.deep_view()),
    {
        let mut r: Vec<(String, ClaimValue)> = Vec::new();
        r.push((String::from_str("sub"), ClaimValue::Text(self.sub.clone())));
        r.push((String::from_str("session_id"), ClaimValue::Text(self.session_id.clone())));
        r.push((String::from_str("exp"), ClaimValue::Number(Some(self.exp))));
        r.push((String::from_str("iat"), ClaimValue::Number(Some(self.iat))));
        r.push((String::from_str("student_id"), ClaimValue::Text(self.student_id.clone())));
        r.push((String::from_str("email"), ClaimValue::Text(self.email.clone())));
        r.push((String::from_str("first_name"), ClaimValue::Text(self.first_name.clone())));
        r.push((String::from_str("last_name"), ClaimValue::Text(self.last_name.clone())));
        r.push((String::from_str("department_id"), id_value(self.department_id)));
        r.push((String::from_str("is_admin"), ClaimValue::Flag(self.is_admin)));
        r.push((String::from_str("admin_level"), level_value(self.admin_level)));
        r.push((String::from_str("organization_id"), id_value(self.organization_id)));
        proof {
            assert(r.deep_view() =~= session_payload(self.deep_view()));
            lemma_session_payload(self.deep_view());
        }
        r
    }

    /// Reads a claim set from a payload: every member must be present and
    /// of its kind, except the three that may be left out or `null`.
    pub fn from_payload(es: &Vec<(String, ClaimValue)>) -> (r: Option<Claims>)
        ensures
            r.deep_view() == session_claims(es.deep_view()),
    {
        let sub = match read_text(es, "sub") {
            Some(v) => v,
            None => return None,
        };
        let session_id = match read_text(es, "session_id") {
            Some(v) => v,
            None => return None,
        };
        let exp = match read_number(es, "exp") {
            Some(v) => v,
            None => return None,
        };
        let iat = match read_number(es, "iat") {
            Some(v) => v,
            None => return None,
        };
        let student_id = match read_text(es, "student_id") {
            Some(v) => v,
            None => return None,
        };
        let email = match read_text(es, "email") {
            Some(v) => v,
            None => return None,
        };
        let first_name = match read_text(es, "first_name") {
            Some(v) => v,
            None => return None,
        };
        let last_name = match read_text(es, "last_name") {
            Some(v) => v,
            None => return None,
        };
        let department_id = match read_optional_id(es, "department_id") {
            Some(v) => v,
            None => return None,
        };
        let is_admin = match read_flag(es, "is_admin") {
            Some(v) => v,
            None => return None,
        };
        let admin_level = match read_optional_level(es, "admin_level") {
            Some(v) => v,
            None => return None,
        };
        let organization_id = match read_optional_id(es, "organization_id") {
            Some(v) => v,
            None => return None,
        };
        Some(
            Claims {
                sub,
                session_id,
                exp,
                iat,
                student_id,
                email,
                first_name,
                last_name,
                department_id,
                is_admin,
                admin_level,
                organization_id,
            },
        )
    }
}

/// Judges the payload of a soundly signed token as a session credential at
/// time `now`.
pub fn judge_session(payload: &Vec<(String, ClaimValue)>, now: u64) -> (r: Result<
    Claims,
    VerifyError,
>)
    ensures
        result_view(r) == session_verdict(Some(payload.deep_view()), now),
{
    match Claims::from_payload(payload) {
        None => Err(VerifyError::Malformed),
        Some(c) => if now < c.exp {
            Ok(c)
        } else {
            Err(VerifyError::Expired)
        },
    }
}

/// Mints the session credential for a claim set, which always succeeds.
/// The token carries exactly that claim set.
pub fn issue_session_token(claims: &Claims, secret: &str) -> (r: Result<String, IssueError>)
    ensures
        result_view(r) == issue_result(
            session_payload(claims.deep_view()),
            signed_token(session_payload(claims.deep_view()), secret@),
        ),
        r is Ok,
        r matches Ok(t) ==> carries_session(t@, secret@, claims.deep_view()),
{
    let payload = claims.to_payload();
    let r = issue(&payload, secret);
    proof {
        if r is Ok {
            lemma_same_members_same_claims(
                signed_payload(r->Ok_0@, secret@)->0,
                payload.deep_view(),
            );
        }
    }
    r
}

/// Verifies a session credential at time `now`.
pub fn verify_session_token(token: &str, secret: &str, now: u64) -> (r: Result<
    Claims,
    VerifyError,
>)
    ensures
        result_view(r) == session_verdict(signed_payload(token@, secret@), now),
{
    match open(token, secret) {
        Err(_) => Err(VerifyError::Malformed),
        Ok(payload) => judge_session(&payload, now),
    }
}

/// Payloads in which every name has the same value hold the same claim set.
pub proof fn lemma_same_members_same_claims(a: Payload, b: Payload)
    requires
        forall|key: Seq<char>| #[trigger] claim(a, key) == claim(b, key),
    ensures
        session_claims(a) == session_claims(b),
{
    assert(claim(a, "sub"@) == claim(b, "sub"@));
}

/// A session credential verifies, and gives its claim set, at every time
/// before its expiry; at its expiry and at every later time it fails as
/// expired.
pub proof fn law_session_valid_until_expiry(
    token: Seq<char>,
    secret: Seq<char>,
    claims: ClaimsModel,
    now: u64,
)
    requires
        carries_session(token, secret, claims),
    ensures
        now < claims.exp ==> session_verdict(signed_payload(token, secret), now) == Ok::<
            ClaimsModel,
            VerifyError,
        >(claims),
        now >= claims.exp ==> session_verdict(signed_payload(token, secret), now) == Err::<
            ClaimsModel,
            VerifyError,
        >(VerifyError::Expired),
{
}


/// Why `verify_token` does not accept a credential.
#[derive(Debug, Clone, Copy, PartialEq, Eq, Structural)]
pub enum TokenError {
    /// No signing secret is configured.
    NotConfigured,
    /// The credential is not what was signed, or does not hold a claim set.
    Malformed,
    /// The credential is what was signed, and its expiry has come.
    Expired,
}

impl TokenError {
    /// The status that answers a request refused for this reason: 500
    /// where the service lacks its secret, 401 for both faults of the
    /// credential.
    pub open spec fn status(self) -> u16 {
        match self {
            TokenError::NotConfigured => 500,
            TokenError::Malformed => 401,
            TokenError::Expired => 401,
        }
    }

    /// The status that answers a request refused for this reason.
    pub fn status_code(&self) -> (r: u16)
        ensures
            r == self.status(),
    {
        match self {
            TokenError::NotConfigured => 500,
            TokenError::Malformed => 401,
            TokenError::Expired => 401,
        }
    }
}

/// What `verify_token` gives: the claim set of a valid session credential;
/// `NotConfigured` where no signing secret is configured, whatever the
/// credential; otherwise `Malformed` or `Expired` as the codec tells them
/// apart.
pub open spec fn token_verdict(held: Option<Payload>, configured: bool, now: u64) -> Result<
    ClaimsModel,
    TokenError,
> {
    if !configured {
        Err(TokenError::NotConfigured)
    } else {
        match session_verdict(held, now) {
            Ok(c) => Ok(c),
            Err(VerifyError::Malformed) => Err(TokenError::Malformed),
            Err(VerifyError::Expired) => Err(TokenError::Expired),
        }
    }
}

/// The signed payload of `token` under the configured secret, `None` where
/// none is configured.
pub open spec fn held_under(token: Seq<char>, secret: Option<Seq<char>>) -> Option<Payload> {
    match secret {
        Some(s) => signed_payload(token, s),
        None => None,
    }
}

/// Verifies a session credential under the configured signing secret at
/// time `now`, and says why where it is not accepted.
pub fn verify_token(token: &str, secret: Option<&str>, now: u64) -> (r: Result<Claims, TokenError>)
    ensures
        result_view(r) == token_verdict(
            held_under(token@, secret.deep_view()),
            secret is Some,
            now,
        ),
{
    match secret {
        None => Err(TokenError::NotConfigured),
        Some(s) => match verify_session_token(token, s, now) {
            Ok(c) => Ok(c),
            Err(VerifyError::Malformed) => Err(TokenError::Malformed),
            Err(VerifyError::Expired) => Err(TokenError::Expired),
        },
    }
}

/// Under a configured secret, a session credential verifies before its
/// expiry, fails as expired from its expiry on, and a credential that is
/// not what was signed under the secret fails as malformed at every time.
pub proof fn law_token_failures_told_apart(
    token: Seq<char>,
    secret: Seq<char>,
    claims: ClaimsModel,
    now: u64,
)
    ensures
        carries_session(token, secret, claims) && now < claims.exp ==> token_verdict(
            held_under(token, Some(secret)),
            true,
            now,
        ) == Ok::<ClaimsModel, TokenError>(claims),
        carries_session(token, secret, claims) && now >= claims.exp ==> token_verdict(
            held_under(token, Some(secret)),
            true,
            now,
        ) == Err::<ClaimsModel, TokenError>(TokenError::Expired),
        signed_payload(token, secret) is None ==> token_verdict(
            held_under(token, Some(secret)),
            true,
            now,
        ) == Err::<ClaimsModel, TokenError>(TokenError::Malformed),
{
    if carries_session(token, secret, claims) {
        law_session_valid_until_expiry(token, secret, claims, now);
    }
}

} // verus!
