//! The scan-credential issuer: from a valid session to a credential that
//! can be rendered as a scannable code and is reissued often.

use vstd::prelude::*;
use crate::auth::headers::{get_claims_from_headers, resolve, AuthHeaders};
use crate::auth::models::{Claims, ClaimsModel};
use crate::codec::{signed_payload, signed_token, VerifyError};
use crate::ident::{fresh_id, id_text, is_random_id, uuid_text};
use crate::model::refusal_view;
use crate::qr::models::{
    QRGenerateResponse, QRGenerateResponseModel, QRTokenClaims, QRTokenClaimsModel,
};
use crate::qr::scan::scan_secret;
use crate::qr::token::{
    carries_scan, issue_scan_token, law_scan_token_window, scan_claims_at, scan_payload,
    scan_verdict, SCAN_TOKEN_LIFETIME,
};
use crate::text::concat2;

verus! {

/// What issuing a scan credential at `now` from the session with claims
/// `session` gives, under the identifier `jti`: the credential with its
/// identifier, its principal and its expiry three minutes on; status 500
/// where signing fails.
pub open spec fn generated(
    session: ClaimsModel,
    jti: Seq<char>,
    now: u64,
    secret: Seq<char>,
) -> Result<QRGenerateResponseModel, (u16, Seq<char>)> {
    match signed_token(scan_payload(scan_claims_at(session, jti, now)), secret) {
        Some(token) => Ok(
            QRGenerateResponseModel {
                id: jti,
                user_id: session.sub,
                qr_data: token,
                expires_at: (now + SCAN_TOKEN_LIFETIME) as i64,
            },
        ),
        None => Err((500, "Failed to generate QR token"@)),
    }
}

/// Issues a scan credential from the claims of a valid session, which
/// always succeeds. The credential lives three minutes from `now`, however
/// long the session still has.
pub fn generate_qr(session: &Claims, jti: String, now: u64, secret: Option<&str>) -> (r: Result<
    QRGenerateResponse,
    (u16, String),
>)
    requires
        now + SCAN_TOKEN_LIFETIME <= i64::MAX,
    ensures
        r is Ok,
        refusal_view(r) == generated(
            session.deep_view(),
            jti@,
            now,
            scan_secret(secret.deep_view()),
        ),
        r matches Ok(issued) ==> carries_scan(
            issued.qr_data@,
            scan_secret(secret.deep_view()),
            scan_claims_at(session.deep_view(), jti@, now),
        ),
{
    let claims = QRTokenClaims::derive(session, jti, now);
    let minted = match secret {
        Some(s) => issue_scan_token(&claims, s),
        None => issue_scan_token(&claims, "secret"),
    };
    match minted {
        Err(_) => Err((500, String::from_str("Failed to generate QR token"))),
        Ok(token) => Ok(
            QRGenerateResponse {
                id: claims.jti,
                user_id: session.sub.clone(),
                qr_data: token,
                expires_at: (now + SCAN_TOKEN_LIFETIME) as i64,
            },
        ),
    }
}

/// Authenticates the request and issues a scan credential for its
/// session, under the text of a fresh random identifier. A request that is
/// not authenticated is refused with status 401. Every other request gets
/// its credential, unless the clock stands so late that the second of the
/// expiry cannot be written down: then it is refused with status 500.
pub fn generate_qr_handler(headers: &AuthHeaders, secret: Option<&str>, now: u64) -> (r: Result<
    QRGenerateResponse,
    (u16, String),
>)
    ensures
        match resolve(headers.deep_view(), secret.deep_view(), now) {
            Err((_, message)) => refusal_view(r) == Err::<QRGenerateResponseModel, (u16, Seq<char>)>(
                (401, "Unauthorized: "@ + message),
            ),
            Ok(session) => if now + SCAN_TOKEN_LIFETIME <= i64::MAX {
                r is Ok && exists|id: u128|
                    issued_under(session, id, now, scan_secret(secret.deep_view()), r)
            } else {
                refusal_view(r) == Err::<QRGenerateResponseModel, (u16, Seq<char>)>(
                    (500, "Failed to generate QR token"@),
                )
            },
        },
{
    match get_claims_from_headers(headers, secret, now) {
        Err((_, message)) => Err((401, concat2("Unauthorized: ", message.as_str()))),
        Ok(session) => {
            if now > 0x7FFF_FFFF_FFFF_FFFFu64 - SCAN_TOKEN_LIFETIME {
                return Err((500, String::from_str("Failed to generate QR token")));
            }
            let id = fresh_id();
            let r = generate_qr(&session, id_text(id), now, secret);
            assert(issued_under(
                session.deep_view(),
                id,
                now,
                scan_secret(secret.deep_view()),
                r,
            ));
            r
        },
    }
}

/// Whether `r` is what issuing a scan credential gives under the random
/// identifier `id`: the response names the identifier in its hyphenated
/// text, and its credential carries the claim set derived from the session
/// at `now` under that text.
pub open spec fn issued_under(
    session: ClaimsModel,
    id: u128,
    now: u64,
    secret: Seq<char>,
    r: Result<QRGenerateResponse, (u16, String)>,
) -> bool {
    &&& is_random_id(id)
    &&& refusal_view(r) == generated(session, uuid_text(id), now, secret)
    &&& r matches Ok(issued) ==> carries_scan(
        issued.qr_data@,
        secret,
        scan_claims_at(session, uuid_text(id), now),
    )
}

/// The scan credential that the issuer hands out at time `issued` lives
/// for exactly 180 seconds, whatever the issue time and the expiry of the
/// session it comes from: the response names `issued + 180` as its expiry,
/// the credential verifies at every time before that, with `issued` as its
/// issue time and `issued + 180` as its expiry, and fails as expired from
/// then on.
pub proof fn law_issued_credential_window(
    session: ClaimsModel,
    id: u128,
    issued: u64,
    secret: Seq<char>,
    r: Result<QRGenerateResponse, (u16, String)>,
    now: u64,
)
    requires
        issued + SCAN_TOKEN_LIFETIME <= i64::MAX,
        issued_under(session, id, issued, secret, r),
        r is Ok,
    ensures
        r->Ok_0.expires_at == issued + 180,
        r->Ok_0.user_id@ == session.sub,
        now < issued + 180 ==> scan_verdict(signed_payload(r->Ok_0.qr_data@, secret), now) == Ok::<
            QRTokenClaimsModel,
            VerifyError,
        >(
            QRTokenClaimsModel {
                sub: session.sub,
                session_id: session.session_id,
                iat: issued,
                exp: (issued + 180) as u64,
                jti: uuid_text(id),
            },
        ),
        now >= issued + 180 ==> scan_verdict(signed_payload(r->Ok_0.qr_data@, secret), now) == Err::<
            QRTokenClaimsModel,
            VerifyError,
        >(VerifyError::Expired),
{
    law_scan_token_window(r->Ok_0.qr_data@, secret, session, uuid_text(id), issued, now);
}

} // verus!
