//! Login: from a handle and a secret to a session and its credential.
//!
//! `login_handler` takes the state of one login and what has just happened,
//! and says what is to be done next; whoever holds the attendance store
//! does it and reports back.

use vstd::prelude::*;
use crate::auth::cookie::{build_cookie, cookie_text};
use crate::auth::models::{
    AdminRole, AdminRoleModel, AuthInput, AuthInputModel, AuthResponse, AuthResponseModel, Claims,
    ClaimsModel, User, UserModel, UserResponse, UserResponseModel,
};
use crate::auth::password::{check_password, password_check, PasswordCheck};
use crate::auth::token::{issue_session_token, session_payload};
use crate::codec::signed_token;
use crate::ident::{id_text, uuid_text};
use crate::models::UserStatus;
use crate::text::concat2;

verus! {

/// Microseconds in a second.
pub const MICROS: i64 = 1000000;

/// Microseconds that a session lasts: seven days.
pub const WEEK_MICROS: i64 = 604800000000;

/// Microseconds that a remembered session lasts: thirty days.
pub const MONTH_MICROS: i64 = 2592000000000;

/// How long a session lasts.
pub open spec fn session_lifetime(remember_me: bool) -> i64 {
    if remember_me {
        MONTH_MICROS
    } else {
        WEEK_MICROS
    }
}

/// The instants at which a session can be opened: not before the epoch,
/// and early enough for the expiry to be an instant.
pub open spec fn clock_in_range(now: i64) -> bool {
    0 <= now <= i64::MAX - MONTH_MICROS
}

/// What the deployment configures for login: the signing secret, the domain
/// that the session cookie is bound to (empty for none), and whether this is
/// production.
#[derive(Debug, Clone, PartialEq, Eq)]
pub struct LoginConfig {
    pub jwt_secret: Option<String>,
    pub cookie_domain: String,
    pub is_production: bool,
}

/// The mathematical value of a `LoginConfig`.
pub struct LoginConfigModel {
    pub jwt_secret: Option<Seq<char>>,
    pub cookie_domain: Seq<char>,
    pub is_production: bool,
}

impl DeepView for LoginConfig {
    type V = LoginConfigModel;

    open spec fn deep_view(&self) -> LoginConfigModel {
        LoginConfigModel {
            jwt_secret: self.jwt_secret.deep_view(),
            cookie_domain: self.cookie_domain@,
            is_production: self.is_production,
        }
    }
}

/// A login whose password was accepted: the principal, the enabled admin
/// role if there is one, and the session that is being opened. `expires_at`
/// is an instant in microseconds, `exp` and `iat` are seconds.
#[derive(Debug, Clone, PartialEq, Eq)]
pub struct LoginPending {
    pub user: User,
    pub role: Option<AdminRole>,
    pub remember_me: bool,
    pub session_id: String,
    pub expires_at: i64,
    pub exp: u64,
    pub iat: u64,
    pub config: LoginConfig,
}

/// The mathematical value of a `LoginPending`.
pub struct LoginPendingModel {
    pub user: UserModel,
    pub role: Option<AdminRoleModel>,
    pub remember_me: bool,
    pub session_id: Seq<char>,
    pub expires_at: i64,
    pub exp: u64,
    pub iat: u64,
    pub config: LoginConfigModel,
}

impl DeepView for LoginPending {
    type V = LoginPendingModel;

    open spec fn deep_view(&self) -> LoginPendingModel {
        LoginPendingModel {
            user: self.user.deep_view(),
            role: self.role.deep_view(),
            remember_me: self.remember_me,
            session_id: self.session_id@,
            expires_at: self.expires_at,
            exp: self.exp,
            iat: self.iat,
            config: self.config.deep_view(),
        }
    }
}

/// Where one login stands.
#[derive(Debug, Clone, PartialEq, Eq)]
pub enum LoginState {
    /// Nothing has happened yet.
    Start,
    /// The principal is asked for.
    AwaitingUser { input: AuthInput, config: LoginConfig },
    /// The password was accepted; the enabled admin role is asked for.
    AwaitingRole { user: User, remember_me: bool, config: LoginConfig },
    /// The session is being created.
    AwaitingSession { pending: LoginPending },
    /// The session exists; the login is being recorded.
    AwaitingRecord { pending: LoginPending },
    /// The login has been answered.
    Done,
}

/// The mathematical value of a `LoginState`.
pub enum LoginStateModel {
    Start,
    AwaitingUser { input: AuthInputModel, config: LoginConfigModel },
    AwaitingRole { user: UserModel, remember_me: bool, config: LoginConfigModel },
    AwaitingSession { pending: LoginPendingModel },
    AwaitingRecord { pending: LoginPendingModel },
    Done,
}

impl DeepView for LoginState {
    type V = LoginStateModel;

    open spec fn deep_view(&self) -> LoginStateModel {
        match self {
            LoginState::Start => LoginStateModel::Start,
            LoginState::AwaitingUser { input, config } => LoginStateModel::AwaitingUser {
                input: input.deep_view(),
                config: config.deep_view(),
            },
            LoginState::AwaitingRole { user, remember_me, config } => LoginStateModel::AwaitingRole {
                user: user.deep_view(),
                remember_me: *remember_me,
                config: config.deep_view(),
            },
            LoginState::AwaitingSession { pending } => LoginStateModel::AwaitingSession {
                pending: pending.deep_view(),
            },
            LoginState::AwaitingRecord { pending } => LoginStateModel::AwaitingRecord {
                pending: pending.deep_view(),
            },
            LoginState::Done => LoginStateModel::Done,
        }
    }
}

/// What has just happened in a login.
#[derive(Debug, Clone, PartialEq, Eq)]
pub enum LoginEvent {
    /// A login was requested.
    Requested { input: AuthInput, config: LoginConfig },
    /// The store looked up the principal.
    UserLoaded(Option<User>),
    /// The store looked up the enabled admin role. `now` is the instant in
    /// microseconds and `session_id` a new identifier for the session.
    RoleLoaded { role: Option<AdminRole>, now: i64, session_id: u128 },
    /// The store created the session.
    SessionCreated,
    /// The store recorded the login.
    LoginRecorded,
    /// The store failed, with its own description of the failure.
    StoreFailed(String),
}

/// The mathematical value of a `LoginEvent`.
pub enum LoginEventModel {
    Requested { input: AuthInputModel, config: LoginConfigModel },
    UserLoaded(Option<UserModel>),
    RoleLoaded { role: Option<AdminRoleModel>, now: i64, session_id: u128 },
    SessionCreated,
    LoginRecorded,
    StoreFailed(Seq<char>),
}

impl DeepView for LoginEvent {
    type V = LoginEventModel;

    open spec fn deep_view(&self) -> LoginEventModel {
        match self {
            LoginEvent::Requested { input, config } => LoginEventModel::Requested {
                input: input.deep_view(),
                config: config.deep_view(),
            },
            LoginEvent::UserLoaded(user) => LoginEventModel::UserLoaded(user.deep_view()),
            LoginEvent::RoleLoaded { role, now, session_id } => LoginEventModel::RoleLoaded {
                role: role.deep_view(),
                now: *now,
                session_id: *session_id,
            },
            LoginEvent::SessionCreated => LoginEventModel::SessionCreated,
            LoginEvent::LoginRecorded => LoginEventModel::LoginRecorded,
            LoginEvent::StoreFailed(text) => LoginEventModel::StoreFailed(text@),
        }
    }
}

/// What is to be done next in a login.
#[derive(Debug, Clone, PartialEq, Eq)]
pub enum LoginAction {
    /// Look up the principal with this e-mail address.
    FindUserByEmail { email: String },
    /// Look up the principal with this student number.
    FindUserByStudentId { student_id: String },
    /// Look up the enabled admin role of the principal.
    FindEnabledRole { user_id: u128 },
    /// Create an active session that expires at the instant `expires_at`.
    CreateSession { id: String, user_id: u128, expires_at: i64 },
    /// Note the login on the principal: time and count. Best effort.
    RecordLogin { user_id: u128 },
    /// Answer with the credential and the profile, and set the cookie. The
    /// login is over.
    Respond { body: AuthResponse, cookie: String },
    /// Refuse with this status and message. The login is over.
    Fail { status: u16, message: String },
}

/// The mathematical value of a `LoginAction`.
pub enum LoginActionModel {
    FindUserByEmail { email: Seq<char> },
    FindUserByStudentId { student_id: Seq<char> },
    FindEnabledRole { user_id: u128 },
    CreateSession { id: Seq<char>, user_id: u128, expires_at: i64 },
    RecordLogin { user_id: u128 },
    Respond { body: AuthResponseModel, cookie: Seq<char> },
    Fail { status: u16, message: Seq<char> },
}

impl DeepView for LoginAction {
    type V = LoginActionModel;

    open spec fn deep_view(&self) -> LoginActionModel {
        match self {
            LoginAction::FindUserByEmail { email } => LoginActionModel::FindUserByEmail {
                email: email@,
            },
            LoginAction::FindUserByStudentId { student_id } => {
                LoginActionModel::FindUserByStudentId { student_id: student_id@ }
            },
            LoginAction::FindEnabledRole { user_id } => LoginActionModel::FindEnabledRole {
                user_id: *user_id,
            },
            LoginAction::CreateSession { id, user_id, expires_at } => {
                LoginActionModel::CreateSession {
                    id: id@,
                    user_id: *user_id,
                    expires_at: *expires_at,
                }
            },
            LoginAction::RecordLogin { user_id } => LoginActionModel::RecordLogin {
                user_id: *user_id,
            },
            LoginAction::Respond { body, cookie } => LoginActionModel::Respond {
                body: body.deep_view(),
                cookie: cookie@,
            },
            LoginAction::Fail { status, message } => LoginActionModel::Fail {
                status: *status,
                message: message@,
            },
        }
    }
}

/// A refusal that ends the login.
pub open spec fn refused(status: u16, message: Seq<char>) -> (LoginStateModel, LoginActionModel) {
    (LoginStateModel::Done, LoginActionModel::Fail { status, message })
}

/// The claim set of the credential for a login: identity and cached
/// profile of the principal, the session, its expiry, and the role.
pub open spec fn login_claims(p: LoginPendingModel) -> ClaimsModel {
    ClaimsModel {
        sub: uuid_text(p.user.id),
        session_id: p.session_id,
        exp: p.exp,
        iat: p.iat,
        student_id: p.user.student_id,
        email: p.user.email,
        first_name: p.user.first_name,
        last_name: p.user.last_name,
        department_id: p.user.department_id,
        is_admin: p.role is Some,
        admin_level: match p.role {
            Some(r) => Some(r.admin_level),
            None => None,
        },
        organization_id: match p.role {
            Some(r) => r.organization_id,
            None => None,
        },
    }
}

/// What a successful login returns.
pub open spec fn login_body(p: LoginPendingModel, token: Seq<char>) -> AuthResponseModel {
    AuthResponseModel {
        token,
        user: UserResponseModel {
            id: p.user.id,
            student_id: p.user.student_id,
            email: p.user.email,
            prefix: p.user.prefix,
            first_name: p.user.first_name,
            last_name: p.user.last_name,
            admin_role: p.role,
            organization_id: None,
            organization_name: None,
            department_id: p.user.department_id,
            department_name: None,
            session_id: p.session_id,
            expires_at: p.expires_at,
        },
    }
}

/// The first step: which handle to look the principal up by. The e-mail
/// address goes first.
pub open spec fn request_step(input: AuthInputModel, config: LoginConfigModel) -> (
    LoginStateModel,
    LoginActionModel,
) {
    match input.email {
        Some(email) => (
            LoginStateModel::AwaitingUser { input, config },
            LoginActionModel::FindUserByEmail { email },
        ),
        None => match input.student_id {
            Some(student_id) => (
                LoginStateModel::AwaitingUser { input, config },
                LoginActionModel::FindUserByStudentId { student_id },
            ),
            None => refused(400, "Email or Student ID required"@),
        },
    }
}

/// The step once the principal is known or found missing. An unknown
/// handle and a wrong secret are refused alike.
pub open spec fn user_step(
    input: AuthInputModel,
    config: LoginConfigModel,
    found: Option<UserModel>,
) -> (LoginStateModel, LoginActionModel) {
    match found {
        None => refused(401, "Invalid credentials"@),
        Some(user) => if !user.status.may_log_in() {
            refused(403, "Account is not active"@)
        } else {
            match password_check(input.password, user.password_hash) {
                PasswordCheck::UnreadableHash => refused(500, "Invalid password hash stored"@),
                PasswordCheck::Rejected => refused(401, "Invalid credentials"@),
                PasswordCheck::Accepted => (
                    LoginStateModel::AwaitingRole {
                        user,
                        remember_me: input.remember_me == Some(true),
                        config,
                    },
                    LoginActionModel::FindEnabledRole { user_id: user.id },
                ),
            }
        },
    }
}

/// The session that a login opens at the instant `now`.
pub open spec fn pending_login(
    user: UserModel,
    remember_me: bool,
    config: LoginConfigModel,
    role: Option<AdminRoleModel>,
    now: i64,
    session_id: u128,
) -> LoginPendingModel {
    LoginPendingModel {
        user,
        role,
        remember_me,
        session_id: uuid_text(session_id),
        expires_at: (now + session_lifetime(remember_me)) as i64,
        exp: ((now + session_lifetime(remember_me)) / 1000000) as u64,
        iat: ((now as int) / 1000000) as u64,
        config,
    }
}

/// The step once the admin role is known: the session is created, to
/// expire seven or thirty days from `now`.
pub open spec fn role_step(
    user: UserModel,
    remember_me: bool,
    config: LoginConfigModel,
    role: Option<AdminRoleModel>,
    now: i64,
    session_id: u128,
) -> (LoginStateModel, LoginActionModel) {
    if !clock_in_range(now) {
        refused(500, "Clock out of range"@)
    } else {
        let pending = pending_login(user, remember_me, config, role, now, session_id);
        (
            LoginStateModel::AwaitingSession { pending },
            LoginActionModel::CreateSession {
                id: pending.session_id,
                user_id: user.id,
                expires_at: pending.expires_at,
            },
        )
    }
}

/// The last step: the credential is minted and the login answered.
pub open spec fn finish_step(p: LoginPendingModel) -> (LoginStateModel, LoginActionModel) {
    match p.config.jwt_secret {
        None => refused(500, "JWT_SECRET not set"@),
        Some(secret) => match signed_token(session_payload(login_claims(p)), secret) {
            None => refused(500, "Token creation failed"@),
            Some(token) => (
                LoginStateModel::Done,
                LoginActionModel::Respond {
                    body: login_body(p, token),
                    cookie: cookie_text(
                        token,
                        p.remember_me,
                        p.config.is_production,
                        p.config.cookie_domain,
                    ),
                },
            ),
        },
    }
}

/// One step of a login: the next state and what is to be done, for a state
/// and what has just happened. A failure of the store ends the login,
/// except while the login is being recorded: that is best effort, and the
/// login goes on.
pub open spec fn login_step(state: LoginStateModel, event: LoginEventModel) -> (
    LoginStateModel,
    LoginActionModel,
) {
    match (state, event) {
        (LoginStateModel::Start, LoginEventModel::Requested { input, config }) => request_step(
            input,
            config,
        ),
        (LoginStateModel::AwaitingUser { input, config }, LoginEventModel::UserLoaded(found)) => {
            user_step(input, config, found)
        },
        (
            LoginStateModel::AwaitingRole { user, remember_me, config },
            LoginEventModel::RoleLoaded { role, now, session_id },
        ) => role_step(user, remember_me, config, role, now, session_id),
        (LoginStateModel::AwaitingSession { pending }, LoginEventModel::SessionCreated) => (
            LoginStateModel::AwaitingRecord { pending },
            LoginActionModel::RecordLogin { user_id: pending.user.id },
        ),
        (LoginStateModel::AwaitingSession { pending }, LoginEventModel::StoreFailed(text)) => {
            refused(500, "Failed to create session: "@ + text)
        },
        (LoginStateModel::AwaitingRecord { pending }, LoginEventModel::LoginRecorded) => {
            finish_step(pending)
        },
        (LoginStateModel::AwaitingRecord { pending }, LoginEventModel::StoreFailed(_)) => {
            finish_step(pending)
        },
        (_, LoginEventModel::StoreFailed(text)) => refused(500, text),
        (_, _) => refused(500, "Unexpected event"@),
    }
}

fn refuse(status: u16, message: &str) -> (r: (LoginState, LoginAction))
    ensures
        (r.0.deep_view(), r.1.deep_view()) == refused(status, message@),
{
    (LoginState::Done, LoginAction::Fail { status, message: String::from_str(message) })
}

fn stray(event: LoginEvent) -> (r: (LoginState, LoginAction))
    ensures
        (r.0.deep_view(), r.1.deep_view()) == (match event.deep_view() {
            LoginEventModel::StoreFailed(text) => refused(500, text),
            _ => refused(500, "Unexpected event"@),
        }),
{
    match event {
        LoginEvent::StoreFailed(text) => (
            LoginState::Done,
            LoginAction::Fail { status: 500, message: text },
        ),
        _ => refuse(500, "Unexpected event"),
    }
}

/// Decides how to look the principal up.
pub fn begin_login(input: AuthInput, config: LoginConfig) -> (r: (LoginState, LoginAction))
    ensures
        (r.0.deep_view(), r.1.deep_view()) == request_step(input.deep_view(), config.deep_view()),
{
    if input.email.is_some() {
        let email = input.email.as_ref().unwrap().clone();
        (LoginState::AwaitingUser { input, config }, LoginAction::FindUserByEmail { email })
    } else if input.student_id.is_some() {
        let student_id = input.student_id.as_ref().unwrap().clone();
        (
            LoginState::AwaitingUser { input, config },
            LoginAction::FindUserByStudentId { student_id },
        )
    } else {
        refuse(400, "Email or Student ID required")
    }
}

/// Judges the principal that the store found, and the password against
/// the stored hash.
pub fn judge_user(input: AuthInput, config: LoginConfig, found: Option<User>) -> (r: (
    LoginState,
    LoginAction,
))
    ensures
        (r.0.deep_view(), r.1.deep_view()) == user_step(
            input.deep_view(),
            config.deep_view(),
            found.deep_view(),
        ),
{
    match found {
        None => refuse(401, "Invalid credentials"),
        Some(user) => {
            match user.status {
                UserStatus::Active => {},
                _ => {
                    return refuse(403, "Account is not active");
                },
            }
            match check_password(input.password.as_str(), user.password_hash.as_str()) {
                PasswordCheck::UnreadableHash => refuse(500, "Invalid password hash stored"),
                PasswordCheck::Rejected => refuse(401, "Invalid credentials"),
                PasswordCheck::Accepted => {
                    let remember_me = match input.remember_me {
                        Some(b) => b,
                        None => false,
                    };
                    let user_id = user.id;
                    (
                        LoginState::AwaitingRole { user, remember_me, config },
                        LoginAction::FindEnabledRole { user_id },
                    )
                },
            }
        },
    }
}

/// Opens the session: its identifier, and its expiry seven or thirty days
/// from `now`.
pub fn open_session(
    user: User,
    remember_me: bool,
    config: LoginConfig,
    role: Option<AdminRole>,
    now: i64,
    session_id: u128,
) -> (r: (LoginState, LoginAction))
    ensures
        (r.0.deep_view(), r.1.deep_view()) == role_step(
            user.deep_view(),
            remember_me,
            config.deep_view(),
            role.deep_view(),
            now,
            session_id,
        ),
{
    if now < 0 || now > i64::MAX - MONTH_MICROS {
        return refuse(500, "Clock out of range");
    }
    let lifetime: i64 = if remember_me {
        MONTH_MICROS
    } else {
        WEEK_MICROS
    };
    let expires_at: i64 = now + lifetime;
    let id = id_text(session_id);
    let user_id = user.id;
    let pending = LoginPending {
        user,
        role,
        remember_me,
        session_id: id.clone(),
        expires_at,
        exp: (expires_at / MICROS) as u64,
        iat: (now / MICROS) as u64,
        config,
    };
    (
        LoginState::AwaitingSession { pending },
        LoginAction::CreateSession { id, user_id, expires_at },
    )
}

/// The claim set of the credential for a login.
pub fn claims_for(p: &LoginPending) -> (r: Claims)
    ensures
        r.deep_view() == login_claims(p.deep_view()),
{
    let (is_admin, admin_level, organization_id) = match &p.role {
        Some(r) => (true, Some(r.admin_level), r.organization_id),
        None => (false, None, None),
    };
    Claims {
        sub: id_text(p.user.id),
        session_id: p.session_id.clone(),
        exp: p.exp,
        iat: p.iat,
        student_id: p.user.student_id.clone(),
        email: p.user.email.clone(),
        first_name: p.user.first_name.clone(),
        last_name: p.user.last_name.clone(),
        department_id: p.user.department_id,
        is_admin,
        admin_level,
        organization_id,
    }
}

/// Mints the credential and answers the login.
pub fn finish_login(p: LoginPending) -> (r: (LoginState, LoginAction))
    ensures
        (r.0.deep_view(), r.1.deep_view()) == finish_step(p.deep_view()),
{
    let claims = claims_for(&p);
    let minted = match &p.config.jwt_secret {
        None => {
            return refuse(500, "JWT_SECRET not set");
        },
        Some(secret) => issue_session_token(&claims, secret.as_str()),
    };
    match minted {
        Err(_) => refuse(500, "Token creation failed"),
        Ok(token) => {
            let cookie = build_cookie(
                token.as_str(),
                p.remember_me,
                p.config.is_production,
                p.config.cookie_domain.as_str(),
            );
            let body = AuthResponse {
                token,
                user: UserResponse {
                    id: p.user.id,
                    student_id: p.user.student_id,
                    email: p.user.email,
                    prefix: p.user.prefix,
                    first_name: p.user.first_name,
                    last_name: p.user.last_name,
                    admin_role: p.role,
                    organization_id: None,
                    organization_name: None,
                    department_id: p.user.department_id,
                    department_name: None,
                    session_id: p.session_id,
                    expires_at: p.expires_at,
                },
            };
            (LoginState::Done, LoginAction::Respond { body, cookie })
        },
    }
}

/// Takes one step of a login. The caller carries out the action that comes
/// back and reports what happened as the next event, until the action is a
/// response or a refusal.
pub fn login_handler(state: LoginState, event: LoginEvent) -> (r: (LoginState, LoginAction))
    ensures
        (r.0.deep_view(), r.1.deep_view()) == login_step(state.deep_view(), event.deep_view()),
{
    match state {
        LoginState::Start => match event {
            LoginEvent::Requested { input, config } => begin_login(input, config),
            other => stray(other),
        },
        LoginState::AwaitingUser { input, config } => match event {
            LoginEvent::UserLoaded(found) => judge_user(input, config, found),
            other => stray(other),
        },
        LoginState::AwaitingRole { user, remember_me, config } => match event {
            LoginEvent::RoleLoaded { role, now, session_id } => open_session(
                user,
                remember_me,
                config,
                role,
                now,
                session_id,
            ),
            other => stray(other),
        },
        LoginState::AwaitingSession { pending } => match event {
            LoginEvent::SessionCreated => {
                let user_id = pending.user.id;
                (LoginState::AwaitingRecord { pending }, LoginAction::RecordLogin { user_id })
            },
            LoginEvent::StoreFailed(text) => {
                let message = concat2("Failed to create session: ", text.as_str());
                (LoginState::Done, LoginAction::Fail { status: 500, message })
            },
            other => stray(other),
        },
        LoginState::AwaitingRecord { pending } => match event {
            LoginEvent::LoginRecorded => finish_login(pending),
            LoginEvent::StoreFailed(_) => finish_login(pending),
            other => stray(other),
        },
        LoginState::Done => stray(event),
    }
}

} // verus!
