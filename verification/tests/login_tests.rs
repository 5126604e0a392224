use trackivity::auth::account::{me_handler, MeAction, MeEvent, MeState};
use trackivity::auth::cookie::build_cookie;
use trackivity::auth::headers::{AuthHeaders, HeaderField};
use trackivity::auth::login::{
    login_handler, LoginAction, LoginConfig, LoginEvent, LoginState, MONTH_MICROS, WEEK_MICROS,
};
use trackivity::auth::models::{AdminRole, AuthInput, AuthResponse, Claims, User};
use trackivity::auth::password::{check_password, hash_password, hash_with_salt, PasswordCheck};
use trackivity::auth::token::{issue_session_token, verify_session_token};
use trackivity::codec::VerifyError;
use trackivity::models::{AdminLevel, UserStatus};

const SECRET: &str = "login-secret";
const USER_ID: u128 = 0xa1a2a3a4b1b2c1c2d1d2d3d4d5d6d7d8;
const SESSION: u128 = 0x00000000_0000_4000_8000_0000000000aa;
const NOW: i64 = 1_700_000_000_123_456;

fn user(password: &str, status: UserStatus) -> User {
    User {
        id: USER_ID,
        student_id: "65010001".to_string(),
        email: "somchai@example.com".to_string(),
        password_hash: hash_password(password).unwrap(),
        prefix: "Mr".to_string(),
        first_name: "Somchai".to_string(),
        last_name: "Jaidee".to_string(),
        phone: None,
        address: None,
        qr_secret: "q".to_string(),
        status,
        department_id: Some(77),
        deleted_at: None,
        last_login_at: None,
        login_count: Some(3),
        created_at: 1,
        updated_at: 2,
    }
}

fn role() -> AdminRole {
    AdminRole {
        id: 5,
        user_id: USER_ID,
        admin_level: AdminLevel::SuperAdmin,
        organization_id: Some(9),
        permissions: vec!["ViewDashboard".to_string()],
        is_enabled: true,
        last_session_id: None,
        created_at: None,
        updated_at: None,
    }
}

fn config() -> LoginConfig {
    LoginConfig {
        jwt_secret: Some(SECRET.to_string()),
        cookie_domain: String::new(),
        is_production: false,
    }
}

fn input(email: Option<&str>, student: Option<&str>, password: &str, remember: Option<bool>) -> AuthInput {
    AuthInput {
        email: email.map(|s| s.to_string()),
        student_id: student.map(|s| s.to_string()),
        password: password.to_string(),
        remember_me: remember,
    }
}

struct Outcome {
    actions: Vec<String>,
    end: LoginAction,
}

fn run(
    input: AuthInput,
    config: LoginConfig,
    found: Option<User>,
    role: Option<AdminRole>,
    record_fails: bool,
) -> Outcome {
    let mut actions = Vec::new();
    let mut state = LoginState::Start;
    let mut event = LoginEvent::Requested { input, config };
    for _ in 0..10 {
        let (next, action) = login_handler(state, event);
        state = next;
        event = match action {
            LoginAction::FindUserByEmail { ref email } => {
                actions.push(format!("email:{}", email));
                LoginEvent::UserLoaded(found.clone())
            }
            LoginAction::FindUserByStudentId { ref student_id } => {
                actions.push(format!("student:{}", student_id));
                LoginEvent::UserLoaded(found.clone())
            }
            LoginAction::FindEnabledRole { user_id } => {
                actions.push(format!("role:{}", user_id));
                LoginEvent::RoleLoaded { role: role.clone(), now: NOW, session_id: SESSION }
            }
            LoginAction::CreateSession { ref id, user_id, expires_at } => {
                actions.push(format!("session:{}:{}:{}", id, user_id, expires_at));
                LoginEvent::SessionCreated
            }
            LoginAction::RecordLogin { user_id } => {
                actions.push(format!("record:{}", user_id));
                if record_fails {
                    LoginEvent::StoreFailed("counter table locked".to_string())
                } else {
                    LoginEvent::LoginRecorded
                }
            }
            end => {
                assert_eq!(state, LoginState::Done);
                return Outcome { actions, end };
            }
        };
    }
    panic!("the login did not end");
}

fn body(outcome: &Outcome) -> (&AuthResponse, &String) {
    match &outcome.end {
        LoginAction::Respond { body, cookie } => (body, cookie),
        other => panic!("no response: {:?}", other),
    }
}

fn refusal(outcome: &Outcome) -> (u16, &str) {
    match &outcome.end {
        LoginAction::Fail { status, message } => (*status, message.as_str()),
        other => panic!("no refusal: {:?}", other),
    }
}

#[test]
fn hashing_and_checking_passwords() {
    let hash = hash_password("hunter42").unwrap();
    assert_ne!(hash, "hunter42");
    assert!(hash.starts_with("$argon2"));
    assert_eq!(check_password("hunter42", &hash), PasswordCheck::Accepted);
    assert_eq!(check_password("hunter43", &hash), PasswordCheck::Rejected);
    assert_eq!(check_password("hunter42", "plain text"), PasswordCheck::UnreadableHash);
    assert_eq!(check_password("hunter42", ""), PasswordCheck::UnreadableHash);
    assert_ne!(hash_password("hunter42").unwrap(), hash);
}

#[test]
fn hashing_with_a_given_salt_is_a_function_of_its_arguments() {
    let a = hash_with_salt("pw", "c29tZXNhbHR2YWx1ZQ").unwrap();
    let b = hash_with_salt("pw", "c29tZXNhbHR2YWx1ZQ").unwrap();
    assert_eq!(a, b);
    assert_eq!(check_password("pw", &a), PasswordCheck::Accepted);
    assert!(hash_with_salt("pw", "!").is_err());
}

#[test]
fn login_by_email_for_seven_days() {
    let outcome = run(
        input(Some("somchai@example.com"), Some("ignored"), "pw", None),
        config(),
        Some(user("pw", UserStatus::Active)),
        None,
        false,
    );
    let expires = NOW + WEEK_MICROS;
    assert_eq!(
        outcome.actions,
        vec![
            "email:somchai@example.com".to_string(),
            format!("role:{}", USER_ID),
            format!("session:00000000-0000-4000-8000-0000000000aa:{}:{}", USER_ID, expires),
            format!("record:{}", USER_ID),
        ]
    );
    let (body, cookie) = body(&outcome);
    assert_eq!(body.user.id, USER_ID);
    assert_eq!(body.user.session_id, "00000000-0000-4000-8000-0000000000aa");
    assert_eq!(body.user.expires_at, expires);
    assert_eq!(body.user.prefix, "Mr");
    assert_eq!(body.user.admin_role, None);
    assert_eq!(body.user.organization_id, None);
    assert_eq!(body.user.department_id, Some(77));
    assert_eq!(body.user.department_name, None);
    assert_eq!(cookie, &build_cookie(&body.token, false, false, ""));
    assert!(cookie.ends_with("Max-Age=604800"));
    let claims = verify_session_token(&body.token, SECRET, 1_700_000_000).unwrap();
    assert_eq!(
        claims,
        Claims {
            sub: "a1a2a3a4-b1b2-c1c2-d1d2-d3d4d5d6d7d8".to_string(),
            session_id: "00000000-0000-4000-8000-0000000000aa".to_string(),
            exp: 1_700_000_000 + 7 * 24 * 3600,
            iat: 1_700_000_000,
            student_id: "65010001".to_string(),
            email: "somchai@example.com".to_string(),
            first_name: "Somchai".to_string(),
            last_name: "Jaidee".to_string(),
            department_id: Some(77),
            is_admin: false,
            admin_level: None,
            organization_id: None,
        }
    );
    assert!(verify_session_token(&body.token, SECRET, claims.exp - 1).is_ok());
    assert_eq!(verify_session_token(&body.token, SECRET, claims.exp), Err(VerifyError::Expired));
}

#[test]
fn remembered_login_of_an_admin_by_student_number() {
    let mut cfg = config();
    cfg.is_production = true;
    cfg.cookie_domain = "example.com".to_string();
    let outcome = run(
        input(None, Some("65010001"), "pw", Some(true)),
        cfg,
        Some(user("pw", UserStatus::Active)),
        Some(role()),
        false,
    );
    assert_eq!(outcome.actions[0], "student:65010001");
    let (body, cookie) = body(&outcome);
    assert_eq!(body.user.expires_at, NOW + MONTH_MICROS);
    assert_eq!(body.user.admin_role, Some(role()));
    assert!(cookie.contains("; Secure"));
    assert!(cookie.ends_with("Max-Age=2592000; Domain=example.com"));
    let claims = verify_session_token(&body.token, SECRET, 1_700_000_000).unwrap();
    assert!(claims.is_admin);
    assert_eq!(claims.admin_level, Some(AdminLevel::SuperAdmin));
    assert_eq!(claims.organization_id, Some(9));
    assert_eq!(claims.exp, 1_700_000_000 + 30 * 24 * 3600);
}

#[test]
fn remember_me_false_is_seven_days() {
    let outcome = run(
        input(Some("e"), None, "pw", Some(false)),
        config(),
        Some(user("pw", UserStatus::Active)),
        None,
        false,
    );
    assert_eq!(body(&outcome).0.user.expires_at, NOW + WEEK_MICROS);
}

#[test]
fn unknown_handle_and_wrong_secret_are_refused_alike() {
    let unknown = run(input(Some("x@example.com"), None, "pw", None), config(), None, None, false);
    let wrong = run(
        input(Some("somchai@example.com"), None, "other", None),
        config(),
        Some(user("pw", UserStatus::Active)),
        None,
        false,
    );
    assert_eq!(refusal(&unknown), (401, "Invalid credentials"));
    assert_eq!(refusal(&wrong), refusal(&unknown));
    assert_eq!(wrong.actions.len(), 1);
}

#[test]
fn accounts_that_are_not_active_are_refused() {
    for status in [UserStatus::Inactive, UserStatus::Suspended] {
        let outcome =
            run(input(Some("e"), None, "pw", None), config(), Some(user("pw", status)), None, false);
        assert_eq!(refusal(&outcome), (403, "Account is not active"));
    }
}

#[test]
fn other_refusals_of_login() {
    let outcome = run(input(None, None, "pw", None), config(), None, None, false);
    assert_eq!(refusal(&outcome), (400, "Email or Student ID required"));
    assert!(outcome.actions.is_empty());

    let mut broken = user("pw", UserStatus::Active);
    broken.password_hash = "plain".to_string();
    let outcome = run(input(Some("e"), None, "pw", None), config(), Some(broken), None, false);
    assert_eq!(refusal(&outcome), (500, "Invalid password hash stored"));

    let mut cfg = config();
    cfg.jwt_secret = None;
    let outcome =
        run(input(Some("e"), None, "pw", None), cfg, Some(user("pw", UserStatus::Active)), None, false);
    assert_eq!(refusal(&outcome), (500, "JWT_SECRET not set"));
}

#[test]
fn failure_to_record_the_login_does_not_void_it() {
    let outcome = run(
        input(Some("e"), None, "pw", None),
        config(),
        Some(user("pw", UserStatus::Active)),
        None,
        true,
    );
    let (body, _) = body(&outcome);
    assert!(verify_session_token(&body.token, SECRET, 1_700_000_000).is_ok());
}

#[test]
fn store_failures_end_the_login() {
    let (state, action) = login_handler(
        LoginState::AwaitingUser { input: input(Some("e"), None, "pw", None), config: config() },
        LoginEvent::StoreFailed("down".to_string()),
    );
    assert_eq!(state, LoginState::Done);
    assert_eq!(action, LoginAction::Fail { status: 500, message: "down".to_string() });

    let (_, action) = login_handler(
        LoginState::AwaitingRole {
            user: user("pw", UserStatus::Active),
            remember_me: false,
            config: config(),
        },
        LoginEvent::RoleLoaded { role: None, now: -1, session_id: SESSION },
    );
    assert_eq!(action, LoginAction::Fail { status: 500, message: "Clock out of range".to_string() });

    let (state, _) = login_handler(
        LoginState::AwaitingRole {
            user: user("pw", UserStatus::Active),
            remember_me: false,
            config: config(),
        },
        LoginEvent::RoleLoaded { role: None, now: NOW, session_id: SESSION },
    );
    let (state, action) = login_handler(state, LoginEvent::StoreFailed("disk full".to_string()));
    assert_eq!(state, LoginState::Done);
    assert_eq!(
        action,
        LoginAction::Fail { status: 500, message: "Failed to create session: disk full".to_string() }
    );
    let (_, action) = login_handler(LoginState::Start, LoginEvent::SessionCreated);
    assert_eq!(action, LoginAction::Fail { status: 500, message: "Unexpected event".to_string() });
}

fn me_request(exp: u64, sub: &str) -> MeEvent {
    let claims = Claims {
        sub: sub.to_string(),
        session_id: "sess-9".to_string(),
        exp,
        iat: 1,
        student_id: "65010001".to_string(),
        email: "somchai@example.com".to_string(),
        first_name: "Somchai".to_string(),
        last_name: "Jaidee".to_string(),
        department_id: None,
        is_admin: false,
        admin_level: None,
        organization_id: None,
    };
    let token = issue_session_token(&claims, SECRET).unwrap();
    MeEvent::Requested {
        headers: AuthHeaders {
            authorization: HeaderField::Text(format!("Bearer {}", token)),
            cookie: HeaderField::Missing,
        },
        secret: Some(SECRET.to_string()),
        now: NOW,
    }
}

const SUB: &str = "a1a2a3a4-b1b2-c1c2-d1d2-d3d4d5d6d7d8";

/// A profile query whose credential verifies and whose session is active,
/// up to the point where the principal is asked for.
fn me_admitted(exp: u64) -> (MeState, MeAction) {
    let (state, action) = me_handler(MeState::Start, me_request(exp, SUB));
    assert_eq!(action, MeAction::FetchSession { session_id: "sess-9".to_string() });
    me_handler(state, MeEvent::SessionLoaded(Some(true)))
}

#[test]
fn profile_of_an_admin_with_organization_and_department() {
    let (state, action) = me_admitted(1_800_000_000);
    assert_eq!(action, MeAction::FetchUser { id: USER_ID });
    let (state, action) = me_handler(state, MeEvent::UserLoaded(Some(user("pw", UserStatus::Active))));
    assert_eq!(action, MeAction::FetchEnabledRole { user_id: USER_ID });
    let (state, action) = me_handler(state, MeEvent::RoleLoaded(Some(role())));
    assert_eq!(action, MeAction::FetchOrganizationName { id: 9 });
    let (state, action) = me_handler(state, MeEvent::Named(Some("Engineering".to_string())));
    assert_eq!(action, MeAction::FetchDepartmentName { id: 77 });
    let (state, action) = me_handler(state, MeEvent::Named(Some("Computer".to_string())));
    assert_eq!(state, MeState::Done);
    match action {
        MeAction::Respond(body) => {
            assert_eq!(body.id, USER_ID);
            assert_eq!(body.admin_role, Some(role()));
            assert_eq!(body.organization_id, Some(9));
            assert_eq!(body.organization_name, Some("Engineering".to_string()));
            assert_eq!(body.department_id, Some(77));
            assert_eq!(body.department_name, Some("Computer".to_string()));
            assert_eq!(body.session_id, "sess-9");
            assert_eq!(body.expires_at, 1_800_000_000_000_000);
        }
        other => panic!("no response: {:?}", other),
    }
}

#[test]
fn profile_of_a_student_takes_the_organization_of_the_department() {
    let (state, _) = me_admitted(1_800_000_000);
    let (state, _) = me_handler(state, MeEvent::UserLoaded(Some(user("pw", UserStatus::Active))));
    let (state, action) = me_handler(state, MeEvent::RoleLoaded(None));
    assert_eq!(action, MeAction::FetchOrganizationOfDepartment { department_id: 77 });
    let (state, action) =
        me_handler(state, MeEvent::OrganizationFound(Some((4, "Science".to_string()))));
    assert_eq!(action, MeAction::FetchDepartmentName { id: 77 });
    let (_, action) = me_handler(state, MeEvent::StoreFailed("slow".to_string()));
    match action {
        MeAction::Respond(body) => {
            assert_eq!(body.organization_id, Some(4));
            assert_eq!(body.organization_name, Some("Science".to_string()));
            assert_eq!(body.department_name, None);
        }
        other => panic!("no response: {:?}", other),
    }
}

#[test]
fn profile_without_department_or_role_needs_no_lookups() {
    let mut plain = user("pw", UserStatus::Active);
    plain.department_id = None;
    let (state, _) = me_admitted(1_800_000_000);
    let (state, _) = me_handler(state, MeEvent::UserLoaded(Some(plain)));
    let (state, action) = me_handler(state, MeEvent::RoleLoaded(None));
    assert_eq!(state, MeState::Done);
    match action {
        MeAction::Respond(body) => {
            assert_eq!(body.organization_id, None);
            assert_eq!(body.department_name, None);
        }
        other => panic!("no response: {:?}", other),
    }
}

#[test]
fn refusals_of_the_profile_query() {
    let (state, action) = me_handler(
        MeState::Start,
        MeEvent::Requested {
            headers: AuthHeaders {
                authorization: HeaderField::Missing,
                cookie: HeaderField::Missing,
            },
            secret: Some(SECRET.to_string()),
            now: NOW,
        },
    );
    assert_eq!(state, MeState::Done);
    assert_eq!(action, MeAction::Fail { status: 401, message: "Missing authentication".to_string() });
    let (_, action) = me_handler(MeState::Start, me_request(1_800_000_000, "nobody"));
    assert_eq!(action, MeAction::Fail { status: 401, message: "Invalid user ID in token".to_string() });
    let (state, _) = me_admitted(1_800_000_000);
    let (_, action) = me_handler(state, MeEvent::UserLoaded(None));
    assert_eq!(action, MeAction::Fail { status: 404, message: "User not found".to_string() });
    let (_, action) = me_handler(MeState::Start, me_request(1_600_000_000, SUB));
    assert_eq!(action, MeAction::Fail { status: 401, message: "Invalid or expired token".to_string() });
}

#[test]
fn expiry_beyond_the_calendar_falls_back_to_now() {
    let (state, _) = me_admitted(u64::MAX);
    assert_eq!(state, MeState::AwaitingUser { session_id: "sess-9".to_string(), expires_at: NOW });
    let (state, _) = me_admitted(8_210_266_876_799);
    assert_eq!(
        state,
        MeState::AwaitingUser {
            session_id: "sess-9".to_string(),
            expires_at: 8_210_266_876_799_000_000
        }
    );
}

#[test]
fn a_password_hash_is_the_hash_under_the_salt_it_names() {
    let hash = hash_password("correct horse").unwrap();
    let parts: Vec<&str> = hash.split('$').collect();
    assert_eq!(parts.len(), 6);
    assert_eq!(parts[1], "argon2id");
    let salt = parts[4];
    assert_eq!(salt.len(), 22);
    assert_eq!(hash_with_salt("correct horse", salt).unwrap(), hash);
    assert_ne!(hash_with_salt("correct horse!", salt).unwrap(), hash);
    assert_eq!(check_password("correct horse", &hash), PasswordCheck::Accepted);
}

#[test]
fn a_logged_out_session_gets_no_profile() {
    for answer in [Some(false), None] {
        let (state, action) = me_handler(MeState::Start, me_request(1_800_000_000, SUB));
        assert_eq!(
            state,
            MeState::AwaitingSession {
                user_id: USER_ID,
                session_id: "sess-9".to_string(),
                expires_at: 1_800_000_000_000_000
            }
        );
        assert_eq!(action, MeAction::FetchSession { session_id: "sess-9".to_string() });
        let (state, action) = me_handler(state, MeEvent::SessionLoaded(answer));
        assert_eq!(state, MeState::Done);
        assert_eq!(
            action,
            MeAction::Fail { status: 401, message: "Session is no longer active".to_string() }
        );
    }
    let (state, _) = me_handler(MeState::Start, me_request(1_800_000_000, SUB));
    let (state, action) = me_handler(state, MeEvent::StoreFailed("down".to_string()));
    assert_eq!(state, MeState::Done);
    assert_eq!(action, MeAction::Fail { status: 500, message: "down".to_string() });
    let (state, _) = me_handler(MeState::Start, me_request(1_800_000_000, SUB));
    let (_, action) = me_handler(state, MeEvent::UserLoaded(Some(user("pw", UserStatus::Active))));
    assert_eq!(action, MeAction::Fail { status: 500, message: "Unexpected event".to_string() });
}
