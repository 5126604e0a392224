//! The scan credential: a signed claim set that lives for three minutes
//! from its issue, however long its parent session still has.

use vstd::prelude::*;
use crate::auth::models::{Claims, ClaimsModel};
use crate::claims::{
    claim, distinct_names, lemma_claim_at, lemma_claim_missing, number_claim, read_number,
    read_text, text_claim, ClaimModel, ClaimValue, Payload,
};
use crate::codec::{
    encodable, issue, issue_result, open, round_trips, signed_payload, signed_token, valid_at,
    IssueError, VerifyError,
};
use crate::model::result_view;
use crate::qr::models::{QRTokenClaims, QRTokenClaimsModel};

verus! {

/// Seconds for which a scan credential is valid.
pub const SCAN_TOKEN_LIFETIME: u64 = 180;

/// The payload of a scan credential for the claim set `c`.
pub open spec fn scan_payload(c: QRTokenClaimsModel) -> Payload {
    seq![
        ("sub"@, ClaimModel::Text(c.sub)),
        ("session_id"@, ClaimModel::Text(c.session_id)),
        ("iat"@, ClaimModel::Number(Some(c.iat))),
        ("exp"@, ClaimModel::Number(Some(c.exp))),
        ("jti"@, ClaimModel::Text(c.jti)),
    ]
}

/// The claim set that a payload holds, `None` where a member is missing or
/// of the wrong kind.
pub open spec fn scan_claims(es: Payload) -> Option<QRTokenClaimsModel> {
    if text_claim(es, "sub"@) is Some && text_claim(es, "session_id"@) is Some && number_claim(
        es,
        "iat"@,
    ) is Some && number_claim(es, "exp"@) is Some && text_claim(es, "jti"@) is Some {
        Some(
            QRTokenClaimsModel {
                sub: text_claim(es, "sub"@)->0,
                session_id: text_claim(es, "session_id"@)->0,
                iat: number_claim(es, "iat"@)->0,
                exp: number_claim(es, "exp"@)->0,
                jti: text_claim(es, "jti"@)->0,
            },
        )
    } else {
        None
    }
}

/// The claim set of the scan credential issued at `now` from the session
/// with claims `session`, under the identifier `jti`.
pub open spec fn scan_claims_at(session: ClaimsModel, jti: Seq<char>, now: u64) -> QRTokenClaimsModel {
    QRTokenClaimsModel {
        sub: session.sub,
        session_id: session.session_id,
        iat: now,
        exp: (now + SCAN_TOKEN_LIFETIME) as u64,
        jti,
    }
}

/// `token` is soundly signed by `secret` and holds the claim set `c`.
pub open spec fn carries_scan(token: Seq<char>, secret: Seq<char>, c: QRTokenClaimsModel) -> bool {
    signed_payload(token, secret) matches Some(held) && scan_claims(held) == Some(c)
}

/// What verifying a scan credential at `now` gives, for a token whose
/// signed payload is `held`.
pub open spec fn scan_verdict(held: Option<Payload>, now: u64) -> Result<
    QRTokenClaimsModel,
    VerifyError,
> {
    match held {
        None => Err(VerifyError::Malformed),
        Some(es) => match scan_claims(es) {
            None => Err(VerifyError::Malformed),
            Some(c) => if valid_at(c.exp, now) {
                Ok(c)
            } else {
                Err(VerifyError::Expired)
            },
        },
    }
}

/// The payload of a claim set has distinct names, none of them `aud`, and
/// holds that claim set.
pub proof fn lemma_scan_payload(c: QRTokenClaimsModel)
    ensures
        round_trips(scan_payload(c)),
        scan_claims(scan_payload(c)) == Some(c),
{
    let es = scan_payload(c);
    reveal_strlit("sub");
    reveal_strlit("session_id");
    reveal_strlit("iat");
    reveal_strlit("exp");
    reveal_strlit("jti");
    reveal_strlit("aud");
    assert("sub"@.len() == 3);
    assert("session_id"@.len() == 10);
    assert("iat"@.len() == 3);
    assert("exp"@.len() == 3);
    assert("jti"@.len() == 3);
    assert("aud"@.len() == 3);
    assert("sub"@[0] != "iat"@[0]);
    assert("sub"@[0] != "exp"@[0]);
    assert("sub"@[0] != "jti"@[0]);
    assert("sub"@[0] != "aud"@[0]);
    assert("iat"@[0] != "exp"@[0]);
    assert("iat"@[0] != "jti"@[0]);
    assert("iat"@[0] != "aud"@[0]);
    assert("exp"@[0] != "jti"@[0]);
    assert("exp"@[0] != "aud"@[0]);
    assert("jti"@[0] != "aud"@[0]);
    assert(es.len() == 5);
    assert(es[0].0 == "sub"@);
    assert(es[1].0 == "session_id"@);
    assert(es[2].0 == "iat"@);
    assert(es[3].0 == "exp"@);
    assert(es[4].0 == "jti"@);
    assert(distinct_names(es));
    assert(encodable(es));
    lemma_claim_at(es, 0);
    lemma_claim_at(es, 1);
    lemma_claim_at(es, 2);
    lemma_claim_at(es, 3);
    lemma_claim_at(es, 4);
    lemma_claim_missing(es, "aud"@);
    assert(scan_claims(es)->0 =~= c);
}

/// Payloads in which every name has the same value hold the same claim set.
pub proof fn lemma_same_members_same_scan_claims(a: Payload, b: Payload)
    requires
        forall|key: Seq<char>| #[trigger] claim(a, key) == claim(b, key),
    ensures
        scan_claims(a) == scan_claims(b),
{
    assert(claim(a, "sub"@) == claim(b, "sub"@));
}

impl QRTokenClaims {
    /// The claim set of a scan credential derived at `now` from a session.
    pub fn derive(session: &Claims, jti: String, now: u64) -> (r: QRTokenClaims)
        requires
            now + SCAN_TOKEN_LIFETIME <= u64::MAX,
        ensures
            r.deep_view() == scan_claims_at(session.deep_view(), jti@, now),
    {
        QRTokenClaims {
            sub: session.sub.clone(),
            session_id: session.session_id.clone(),
            iat: now,
            exp: now + SCAN_TOKEN_LIFETIME,
            jti,
        }
    }

    /// The payload that a scan credential for this claim set carries.
    pub fn to_payload(&self) -> (r: Vec<(String, ClaimValue)>)
        ensures
            r.deep_view() == scan_payload(self.deep_view()),
    {
        let mut r: Vec<(String, ClaimValue)> = Vec::new();
        r.push((String::from_str("sub"), ClaimValue::Text(self.sub.clone())));
        r.push((String::from_str("session_id"), ClaimValue::Text(self.session_id.clone())));
        r.push((String::from_str("iat"), ClaimValue::Number(Some(self.iat))));
        r.push((String::from_str("exp"), ClaimValue::Number(Some(self.exp))));
        r.push((String::from_str("jti"), ClaimValue::Text(self.jti.clone())));
        assert(r.deep_view() =~= scan_payload(self.deep_view()));
        r
    }

    /// Reads a claim set from a payload: every member must be present and
    /// of its kind.
    pub fn from_payload(es: &Vec<(String, ClaimValue)>) -> (r: Option<QRTokenClaims>)
        ensures
            r.deep_view() == scan_claims(es.deep_view()),
    {
        let sub = match read_text(es, "sub") {
            Some(v) => v,
            None => return None,
        };
        let session_id = match read_text(es, "session_id") {
            Some(v) => v,
            None => return None,
        };
        let iat = match read_number(es, "iat") {
            Some(v) => v,
            None => return None,
        };
        let exp = match read_number(es, "exp") {
            Some(v) => v,
            None => return None,
        };
        let jti = match read_text(es, "jti") {
            Some(v) => v,
            None => return None,
        };
        Some(QRTokenClaims { sub, session_id, iat, exp, jti })
    }
}

/// Judges the payload of a soundly signed token as a scan credential at
/// time `now`.
pub fn judge_scan(payload: &Vec<(String, ClaimValue)>, now: u64) -> (r: Result<
    QRTokenClaims,
    VerifyError,
>)
    ensures
        result_view(r) == scan_verdict(Some(payload.deep_view()), now),
{
    match QRTokenClaims::from_payload(payload) {
        None => Err(VerifyError::Malformed),
        Some(c) => if now < c.exp {
            Ok(c)
        } else {
            Err(VerifyError::Expired)
        },
    }
}

/// Mints the scan credential for a claim set, which always succeeds.
/// The token carries exactly that claim set.
pub fn issue_scan_token(claims: &QRTokenClaims, secret: &str) -> (r: Result<String, IssueError>)
    ensures
        result_view(r) == issue_result(
            scan_payload(claims.deep_view()),
            signed_token(scan_payload(claims.deep_view()), secret@),
        ),
        r is Ok,
        r matches Ok(t) ==> carries_scan(t@, secret@, claims.deep_view()),
{
    let payload = claims.to_payload();
    proof {
        lemma_scan_payload(claims.deep_view());
    }
    let r = issue(&payload, secret);
    proof {
        if r is Ok {
            lemma_same_members_same_scan_claims(
                signed_payload(r->Ok_0@, secret@)->0,
                payload.deep_view(),
            );
        }
    }
    r
}

/// Verifies a scan credential at time `now`.
pub fn verify_scan_token(token: &str, secret: &str, now: u64) -> (r: Result<
    QRTokenClaims,
    VerifyError,
>)
    ensures
        result_view(r) == scan_verdict(signed_payload(token@, secret@), now),
{
    match open(token, secret) {
        Err(_) => Err(VerifyError::Malformed),
        Ok(payload) => judge_scan(&payload, now),
    }
}

/// A scan credential issued at time `issued` verifies at every time before
/// `issued + 180` and fails as expired at `issued + 180` and at every later
/// time, whatever the expiry of the session it was derived from.
pub proof fn law_scan_token_window(
    token: Seq<char>,
    secret: Seq<char>,
    session: ClaimsModel,
    jti: Seq<char>,
    issued: u64,
    now: u64,
)
    requires
        issued + SCAN_TOKEN_LIFETIME <= u64::MAX,
        carries_scan(token, secret, scan_claims_at(session, jti, issued)),
    ensures
        now < issued + 180 ==> scan_verdict(signed_payload(token, secret), now) == Ok::<
            QRTokenClaimsModel,
            VerifyError,
        >(scan_claims_at(session, jti, issued)),
        now >= issued + 180 ==> scan_verdict(signed_payload(token, secret), now) == Err::<
            QRTokenClaimsModel,
            VerifyError,
        >(VerifyError::Expired),
{
}

} // verus!
