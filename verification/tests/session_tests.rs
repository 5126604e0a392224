use trackivity::auth::account::{logout_handler, LogoutPlan};
use trackivity::auth::cookie::{build_cookie, clear_cookie};
use trackivity::auth::guard::{require_admin, require_principal, sees_all_activities};
use trackivity::auth::headers::{find_session_cookie, get_claims_from_headers, AuthHeaders, HeaderField};
use trackivity::auth::models::Claims;
use trackivity::auth::token::{
    issue_session_token, judge_session, verify_session_token, verify_token, TokenError,
};
use trackivity::claims::ClaimValue;
use trackivity::codec::{issue, VerifyError};
use trackivity::models::AdminLevel;

const SECRET: &str = "session-secret";
const USER: &str = "a1a2a3a4-b1b2-c1c2-d1d2-d3d4d5d6d7d8";

fn claims(exp: u64, admin: bool) -> Claims {
    Claims {
        sub: USER.to_string(),
        session_id: "3f2c1d5e-0000-4000-8000-000000000001".to_string(),
        exp,
        iat: 100,
        student_id: "65010001".to_string(),
        email: "somchai@example.com".to_string(),
        first_name: "Somchai".to_string(),
        last_name: "Jaidee".to_string(),
        department_id: Some(0x11111111_2222_3333_4444_555555555555),
        is_admin: admin,
        admin_level: if admin { Some(AdminLevel::OrganizationAdmin) } else { None },
        organization_id: if admin { Some(7) } else { None },
    }
}

fn bearer(token: &str) -> AuthHeaders {
    AuthHeaders {
        authorization: HeaderField::Text(format!("Bearer {}", token)),
        cookie: HeaderField::Missing,
    }
}

fn nothing() -> AuthHeaders {
    AuthHeaders { authorization: HeaderField::Missing, cookie: HeaderField::Missing }
}

#[test]
fn claims_round_trip_through_payload() {
    let c = claims(5000, true);
    let payload = c.to_payload();
    assert_eq!(payload.len(), 12);
    assert_eq!(payload[0], ("sub".to_string(), ClaimValue::Text(USER.to_string())));
    assert_eq!(payload[2], ("exp".to_string(), ClaimValue::Number(Some(5000))));
    assert_eq!(
        payload[8],
        (
            "department_id".to_string(),
            ClaimValue::Text("11111111-2222-3333-4444-555555555555".to_string())
        )
    );
    assert_eq!(
        payload[10],
        ("admin_level".to_string(), ClaimValue::Text("OrganizationAdmin".to_string()))
    );
    assert_eq!(Claims::from_payload(&payload), Some(c));
}

#[test]
fn claims_without_role_carry_nulls() {
    let c = claims(5000, false);
    let payload = c.to_payload();
    assert_eq!(payload[10], ("admin_level".to_string(), ClaimValue::Null));
    assert_eq!(payload[11], ("organization_id".to_string(), ClaimValue::Null));
    assert_eq!(Claims::from_payload(&payload), Some(c));
}

#[test]
fn optional_claims_may_be_left_out() {
    let c = claims(5000, false);
    let mut payload = c.to_payload();
    payload.retain(|(k, _)| k != "admin_level" && k != "organization_id");
    assert_eq!(Claims::from_payload(&payload), Some(c));
}

#[test]
fn missing_or_ill_typed_claims_are_refused() {
    let c = claims(5000, true);
    let mut payload = c.to_payload();
    payload.retain(|(k, _)| k != "email");
    assert_eq!(Claims::from_payload(&payload), None);

    let mut payload = c.to_payload();
    payload[9].1 = ClaimValue::Text("yes".to_string());
    assert_eq!(Claims::from_payload(&payload), None);

    let mut payload = c.to_payload();
    payload[8].1 = ClaimValue::Text("not-a-uuid".to_string());
    assert_eq!(Claims::from_payload(&payload), None);

    let mut payload = c.to_payload();
    payload[10].1 = ClaimValue::Text("Emperor".to_string());
    assert_eq!(Claims::from_payload(&payload), None);

    let mut payload = c.to_payload();
    payload[2].1 = ClaimValue::Number(None);
    assert_eq!(Claims::from_payload(&payload), None);
}

#[test]
fn session_token_verifies_until_exactly_its_expiry() {
    let c = claims(5000, true);
    let token = issue_session_token(&c, SECRET).unwrap();
    assert_eq!(verify_session_token(&token, SECRET, 0), Ok(c.clone()));
    assert_eq!(verify_session_token(&token, SECRET, 4999), Ok(c.clone()));
    assert_eq!(verify_session_token(&token, SECRET, 5000), Err(VerifyError::Expired));
    assert_eq!(verify_session_token(&token, SECRET, 5001), Err(VerifyError::Expired));
    assert_eq!(verify_session_token(&token, SECRET, u64::MAX), Err(VerifyError::Expired));
}

#[test]
fn session_token_under_another_secret_is_malformed() {
    let token = issue_session_token(&claims(5000, false), SECRET).unwrap();
    assert_eq!(verify_session_token(&token, "another", 0), Err(VerifyError::Malformed));
    assert_eq!(verify_session_token("garbage", SECRET, 0), Err(VerifyError::Malformed));
}

#[test]
fn ill_shaped_payload_is_malformed_even_when_expired() {
    let payload = vec![
        ("sub".to_string(), ClaimValue::Text("x".to_string())),
        ("exp".to_string(), ClaimValue::Number(Some(10))),
    ];
    assert_eq!(judge_session(&payload, 20), Err(VerifyError::Malformed));
    let token = issue(&payload, SECRET).unwrap();
    assert_eq!(verify_session_token(&token, SECRET, 5), Err(VerifyError::Malformed));
}

#[test]
fn verify_token_answers_with_statuses() {
    let c = claims(5000, false);
    let token = issue_session_token(&c, SECRET).unwrap();
    assert_eq!(verify_token(&token, Some(SECRET), 10), Ok(c));
    assert_eq!(verify_token(&token, None, 10).map_err(|e| e.status_code()), Err(500));
    assert_eq!(verify_token(&token, Some(SECRET), 5000).map_err(|e| e.status_code()), Err(401));
    assert_eq!(verify_token("nope", Some(SECRET), 10).map_err(|e| e.status_code()), Err(401));
}

#[test]
fn verify_token_tells_expired_from_malformed() {
    let c = claims(5000, false);
    let token = issue_session_token(&c, SECRET).unwrap();
    assert_eq!(verify_token(&token, Some(SECRET), 4999), Ok(c));
    assert_eq!(verify_token(&token, Some(SECRET), 5000), Err(TokenError::Expired));
    assert_eq!(verify_token(&token, Some(SECRET), 5001), Err(TokenError::Expired));
    assert_eq!(verify_token(&token, Some(SECRET), u64::MAX), Err(TokenError::Expired));
    assert_eq!(verify_token(&token, None, 10), Err(TokenError::NotConfigured));
    assert_eq!(verify_token("nope", None, 10), Err(TokenError::NotConfigured));
    assert_eq!(verify_token("nope", Some(SECRET), 10), Err(TokenError::Malformed));
    assert_eq!(verify_token("a.b", Some(SECRET), 10), Err(TokenError::Malformed));
    assert_eq!(verify_token(&token, Some("another-secret"), 10), Err(TokenError::Malformed));
    let mut altered = token.clone();
    let last = altered.pop().unwrap();
    altered.push(if last == 'A' { 'B' } else { 'A' });
    assert_eq!(verify_token(&altered, Some(SECRET), 10), Err(TokenError::Malformed));
    let parts: Vec<&str> = token.split('.').collect();
    let swapped = format!("{}.{}x.{}", parts[0], parts[1], parts[2]);
    assert_eq!(verify_token(&swapped, Some(SECRET), 10), Err(TokenError::Malformed));
    assert_eq!(verify_token(&swapped, Some(SECRET), 9000), Err(TokenError::Malformed));
    assert_eq!(TokenError::NotConfigured.status_code(), 500);
    assert_eq!(TokenError::Malformed.status_code(), 401);
    assert_eq!(TokenError::Expired.status_code(), 401);
}

#[test]
fn bearer_header_authenticates() {
    let c = claims(5000, false);
    let token = issue_session_token(&c, SECRET).unwrap();
    assert_eq!(get_claims_from_headers(&bearer(&token), Some(SECRET), 10), Ok(c));
}

#[test]
fn repeated_bearer_prefix_is_stripped() {
    let c = claims(5000, false);
    let token = issue_session_token(&c, SECRET).unwrap();
    let headers = AuthHeaders {
        authorization: HeaderField::Text(format!("Bearer Bearer {}", token)),
        cookie: HeaderField::Missing,
    };
    assert_eq!(get_claims_from_headers(&headers, Some(SECRET), 10), Ok(c));
}

#[test]
fn cookie_authenticates_when_there_is_no_bearer() {
    let c = claims(5000, false);
    let token = issue_session_token(&c, SECRET).unwrap();
    let headers = AuthHeaders {
        authorization: HeaderField::Missing,
        cookie: HeaderField::Text(format!("theme=dark;  session_token={} ; other=1", token)),
    };
    assert_eq!(get_claims_from_headers(&headers, Some(SECRET), 10), Ok(c.clone()));
    let headers = AuthHeaders {
        authorization: HeaderField::Text("Basic abc".to_string()),
        cookie: HeaderField::Text(format!("session_token={}", token)),
    };
    assert_eq!(get_claims_from_headers(&headers, Some(SECRET), 10), Ok(c));
}

#[test]
fn bearer_goes_before_cookie() {
    let good = issue_session_token(&claims(5000, false), SECRET).unwrap();
    let headers = AuthHeaders {
        authorization: HeaderField::Text("Bearer broken".to_string()),
        cookie: HeaderField::Text(format!("session_token={}", good)),
    };
    assert_eq!(
        get_claims_from_headers(&headers, Some(SECRET), 10),
        Err((401, "Invalid or expired token".to_string()))
    );
}

#[test]
fn refusals_of_the_resolver() {
    assert_eq!(
        get_claims_from_headers(&nothing(), Some(SECRET), 10),
        Err((401, "Missing authentication".to_string()))
    );
    let headers =
        AuthHeaders { authorization: HeaderField::Opaque, cookie: HeaderField::Missing };
    assert_eq!(
        get_claims_from_headers(&headers, Some(SECRET), 10),
        Err((401, "Invalid Authorization header".to_string()))
    );
    let headers =
        AuthHeaders { authorization: HeaderField::Missing, cookie: HeaderField::Opaque };
    assert_eq!(
        get_claims_from_headers(&headers, Some(SECRET), 10),
        Err((401, "Invalid cookie".to_string()))
    );
    let headers = AuthHeaders {
        authorization: HeaderField::Missing,
        cookie: HeaderField::Text("theme=dark; lang=th".to_string()),
    };
    assert_eq!(
        get_claims_from_headers(&headers, Some(SECRET), 10),
        Err((401, "Missing authentication".to_string()))
    );
    let headers = AuthHeaders {
        authorization: HeaderField::Missing,
        cookie: HeaderField::Text("session_token=broken".to_string()),
    };
    assert_eq!(
        get_claims_from_headers(&headers, Some(SECRET), 10),
        Err((401, "Invalid or expired session".to_string()))
    );
    let token = issue_session_token(&claims(5000, false), SECRET).unwrap();
    assert_eq!(
        get_claims_from_headers(&bearer(&token), Some(SECRET), 5000),
        Err((401, "Invalid or expired token".to_string()))
    );
    assert_eq!(
        get_claims_from_headers(&bearer(&token), None, 10),
        Err((401, "Invalid or expired token".to_string()))
    );
}

#[test]
fn session_cookie_is_found_among_others() {
    assert_eq!(find_session_cookie("session_token=abc"), Some("abc"));
    assert_eq!(find_session_cookie("a=b; session_token=abc; c=d"), Some("abc"));
    assert_eq!(find_session_cookie("a=b;\tsession_token=abc  "), Some("abc"));
    assert_eq!(find_session_cookie("session_token=first; session_token=second"), Some("first"));
    assert_eq!(find_session_cookie("session_token="), Some(""));
    assert_eq!(find_session_cookie("xsession_token=abc"), None);
    assert_eq!(find_session_cookie(""), None);
    assert_eq!(find_session_cookie(";;"), None);
    assert_eq!(find_session_cookie("a=b;"), None);
}

#[test]
fn cookie_text_is_exact() {
    assert_eq!(
        build_cookie("tok", false, false, ""),
        "session_token=tok; HttpOnly; SameSite=Lax; Path=/; Max-Age=604800"
    );
    assert_eq!(
        build_cookie("tok", true, true, "example.com"),
        "session_token=tok; HttpOnly; Secure; SameSite=Lax; Path=/; Max-Age=2592000; Domain=example.com"
    );
    assert_eq!(
        build_cookie("", true, false, ""),
        "session_token=; HttpOnly; SameSite=Lax; Path=/; Max-Age=2592000"
    );
    assert_eq!(clear_cookie(), "session_token=; HttpOnly; SameSite=Lax; Path=/; Max-Age=0");
}

#[test]
fn logout_is_idempotent_and_best_effort() {
    let c = claims(5000, false);
    let token = issue_session_token(&c, SECRET).unwrap();
    let plan = logout_handler(&bearer(&token), Some(SECRET), 10);
    assert_eq!(
        plan,
        LogoutPlan {
            deactivate: Some(c.session_id.clone()),
            cookie: "session_token=; HttpOnly; SameSite=Lax; Path=/; Max-Age=0".to_string(),
            message: "Logged out successfully".to_string(),
        }
    );
    let plan = logout_handler(&nothing(), Some(SECRET), 10);
    assert_eq!(plan.deactivate, None);
    assert_eq!(plan.message, "Logged out successfully");
    let plan = logout_handler(&bearer(&token), Some(SECRET), 6000);
    assert_eq!(plan.deactivate, None);
}

#[test]
fn admin_guard() {
    let admin = issue_session_token(&claims(5000, true), SECRET).unwrap();
    let student = issue_session_token(&claims(5000, false), SECRET).unwrap();
    assert_eq!(require_admin(&bearer(&admin), Some(SECRET), 10), Ok(claims(5000, true)));
    assert_eq!(
        require_admin(&bearer(&student), Some(SECRET), 10),
        Err((403, "Admin access required".to_string()))
    );
    assert_eq!(
        require_admin(&nothing(), Some(SECRET), 10),
        Err((401, "Missing authentication".to_string()))
    );
    assert!(sees_all_activities(&bearer(&admin), Some(SECRET), 10));
    assert!(!sees_all_activities(&bearer(&student), Some(SECRET), 10));
    assert!(!sees_all_activities(&nothing(), Some(SECRET), 10));
}

#[test]
fn principal_guard() {
    let token = issue_session_token(&claims(5000, false), SECRET).unwrap();
    assert_eq!(
        require_principal(&bearer(&token), Some(SECRET), 10),
        Ok(0xa1a2a3a4b1b2c1c2d1d2d3d4d5d6d7d8)
    );
    let mut odd = claims(5000, false);
    odd.sub = "nobody".to_string();
    let token = issue_session_token(&odd, SECRET).unwrap();
    assert_eq!(
        require_principal(&bearer(&token), Some(SECRET), 10),
        Err((401, "Invalid user ID".to_string()))
    );
}
