//! The account of the principal behind a request: logging out, and the
//! profile query.

use vstd::prelude::*;
use crate::auth::cookie::{clear_cookie, clear_cookie_text};
use crate::auth::headers::{get_claims_from_headers, resolve, AuthHeaders, AuthHeadersModel};
use crate::auth::login::MICROS;
use crate::auth::models::{
    AdminRole, AdminRoleModel, User, UserModel, UserResponse, UserResponseModel,
};
use crate::ident::{parse_id, uuid_value};

verus! {

/// What logging out comes to: the session to deactivate, if the request
/// names one, the cookie that removes the session cookie, and the message.
#[derive(Debug, Clone, PartialEq, Eq)]
pub struct LogoutPlan {
    pub deactivate: Option<String>,
    pub cookie: String,
    pub message: String,
}

/// The mathematical value of a `LogoutPlan`.
pub struct LogoutPlanModel {
    pub deactivate: Option<Seq<char>>,
    pub cookie: Seq<char>,
    pub message: Seq<char>,
}

impl DeepView for LogoutPlan {
    type V = LogoutPlanModel;

    open spec fn deep_view(&self) -> LogoutPlanModel {
        LogoutPlanModel {
            deactivate: self.deactivate.deep_view(),
            cookie: self.cookie@,
            message: self.message@,
        }
    }
}

/// Logging out always succeeds. The session of the request is deactivated
/// where the request is authenticated; otherwise there is nothing to
/// deactivate.
pub open spec fn logout_plan(headers: AuthHeadersModel, secret: Option<Seq<char>>, now: u64) -> LogoutPlanModel {
    LogoutPlanModel {
        deactivate: match resolve(headers, secret, now) {
            Ok(claims) => Some(claims.session_id),
            Err(_) => None,
        },
        cookie: clear_cookie_text(),
        message: "Logged out successfully"@,
    }
}

/// Plans a logout.
pub fn logout_handler(headers: &AuthHeaders, secret: Option<&str>, now: u64) -> (r: LogoutPlan)
    ensures
        r.deep_view() == logout_plan(headers.deep_view(), secret.deep_view(), now),
{
    let deactivate = match get_claims_from_headers(headers, secret, now) {
        Ok(claims) => Some(claims.session_id),
        Err(_) => None,
    };
    LogoutPlan {
        deactivate,
        cookie: clear_cookie(),
        message: String::from_str("Logged out successfully"),
    }
}

/// The last second whose instant, in microseconds, fits the range of
/// calendar date-times.
pub const LAST_SECOND: u64 = 8210266876799;

/// The instant at which a credential with expiry `exp` expires, or `now`
/// where that second is beyond the calendar.
pub open spec fn expiry_instant(exp: u64, now: i64) -> i64 {
    if exp <= LAST_SECOND {
        (exp * 1000000) as i64
    } else {
        now
    }
}

/// The time in seconds at an instant, zero before the epoch.
pub open spec fn seconds_at(now: i64) -> u64 {
    if now >= 0 {
        (now / 1000000) as u64
    } else {
        0
    }
}

/// What a profile query has gathered so far. `expires_at` is the instant at
/// which the session of the request expires.
#[derive(Debug, Clone, PartialEq, Eq)]
pub struct Profile {
    pub session_id: String,
    pub expires_at: i64,
    pub user: User,
    pub role: Option<AdminRole>,
    pub organization_id: Option<u128>,
    pub organization_name: Option<String>,
}

/// The mathematical value of a `Profile`.
pub struct ProfileModel {
    pub session_id: Seq<char>,
    pub expires_at: i64,
    pub user: UserModel,
    pub role: Option<AdminRoleModel>,
    pub organization_id: Option<u128>,
    pub organization_name: Option<Seq<char>>,
}

impl DeepView for Profile {
    type V = ProfileModel;

    open spec fn deep_view(&self) -> ProfileModel {
        ProfileModel {
            session_id: self.session_id@,
            expires_at: self.expires_at,
            user: self.user.deep_view(),
            role: self.role.deep_view(),
            organization_id: self.organization_id,
            organization_name: self.organization_name.deep_view(),
        }
    }
}

/// Where one profile query stands.
#[derive(Debug, Clone, PartialEq, Eq)]
pub enum MeState {
    /// Nothing has happened yet.
    Start,
    /// The credential of the request verifies; its session is asked for.
    AwaitingSession { user_id: u128, session_id: String, expires_at: i64 },
    /// The session is active; the principal is asked for.
    AwaitingUser { session_id: String, expires_at: i64 },
    /// The principal is known; the enabled admin role is asked for.
    AwaitingRole { session_id: String, expires_at: i64, user: User },
    /// The name of the role's organization is asked for.
    AwaitingOrganizationName { profile: Profile },
    /// The organization of the principal's department is asked for.
    AwaitingDepartmentOrganization { profile: Profile },
    /// The name of the principal's department is asked for.
    AwaitingDepartmentName { profile: Profile },
    /// The query has been answered.
    Done,
}

/// The mathematical value of a `MeState`.
pub enum MeStateModel {
    Start,
    AwaitingSession { user_id: u128, session_id: Seq<char>, expires_at: i64 },
    AwaitingUser { session_id: Seq<char>, expires_at: i64 },
    AwaitingRole { session_id: Seq<char>, expires_at: i64, user: UserModel },
    AwaitingOrganizationName { profile: ProfileModel },
    AwaitingDepartmentOrganization { profile: ProfileModel },
    AwaitingDepartmentName { profile: ProfileModel },
    Done,
}

impl DeepView for MeState {
    type V = MeStateModel;

    open spec fn deep_view(&self) -> MeStateModel {
        match self {
            MeState::Start => MeStateModel::Start,
            MeState::AwaitingSession { user_id, session_id, expires_at } => {
                MeStateModel::AwaitingSession {
                    user_id: *user_id,
                    session_id: session_id@,
                    expires_at: *expires_at,
                }
            },
            MeState::AwaitingUser { session_id, expires_at } => MeStateModel::AwaitingUser {
                session_id: session_id@,
                expires_at: *expires_at,
            },
            MeState::AwaitingRole { session_id, expires_at, user } => MeStateModel::AwaitingRole {
                session_id: session_id@,
                expires_at: *expires_at,
                user: user.deep_view(),
            },
            MeState::AwaitingOrganizationName { profile } => {
                MeStateModel::AwaitingOrganizationName { profile: profile.deep_view() }
            },
            MeState::AwaitingDepartmentOrganization { profile } => {
                MeStateModel::AwaitingDepartmentOrganization { profile: profile.deep_view() }
            },
            MeState::AwaitingDepartmentName { profile } => MeStateModel::AwaitingDepartmentName {
                profile: profile.deep_view(),
            },
            MeState::Done => MeStateModel::Done,
        }
    }
}

/// What has just happened in a profile query.
#[derive(Debug, Clone, PartialEq, Eq)]
pub enum MeEvent {
    /// The profile was asked for, at the instant `now`.
    Requested { headers: AuthHeaders, secret: Option<String>, now: i64 },
    /// The store looked up the session: whether it is active, `None` where
    /// there is no such session.
    SessionLoaded(Option<bool>),
    /// The store looked up the principal.
    UserLoaded(Option<User>),
    /// The store looked up the enabled admin role.
    RoleLoaded(Option<AdminRole>),
    /// The store looked up the name of an organization or of a department;
    /// `None` also where the lookup failed.
    Named(Option<String>),
    /// The store looked up the organization of a department; `None` also
    /// where the lookup failed.
    OrganizationFound(Option<(u128, String)>),
    /// The store failed, with its own description of the failure.
    StoreFailed(String),
}

/// The mathematical value of a `MeEvent`.
pub enum MeEventModel {
    Requested { headers: AuthHeadersModel, secret: Option<Seq<char>>, now: i64 },
    SessionLoaded(Option<bool>),
    UserLoaded(Option<UserModel>),
    RoleLoaded(Option<AdminRoleModel>),
    Named(Option<Seq<char>>),
    OrganizationFound(Option<(u128, Seq<char>)>),
    StoreFailed(Seq<char>),
}

impl DeepView for MeEvent {
    type V = MeEventModel;

    open spec fn deep_view(&self) -> MeEventModel {
        match self {
            MeEvent::Requested { headers, secret, now } => MeEventModel::Requested {
                headers: headers.deep_view(),
                secret: secret.deep_view(),
                now: *now,
            },
            MeEvent::SessionLoaded(active) => MeEventModel::SessionLoaded(*active),
            MeEvent::UserLoaded(user) => MeEventModel::UserLoaded(user.deep_view()),
            MeEvent::RoleLoaded(role) => MeEventModel::RoleLoaded(role.deep_view()),
            MeEvent::Named(name) => MeEventModel::Named(name.deep_view()),
            MeEvent::OrganizationFound(found) => MeEventModel::OrganizationFound(
                match found {
                    Some((id, name)) => Some((*id, name@)),
                    None => None,
                },
            ),
            MeEvent::StoreFailed(text) => MeEventModel::StoreFailed(text@),
        }
    }
}

/// What is to be done next in a profile query.
#[derive(Debug, Clone, PartialEq, Eq)]
pub enum MeAction {
    /// Look up the session with this identifier.
    FetchSession { session_id: String },
    /// Look up the principal.
    FetchUser { id: u128 },
    /// Look up the enabled admin role of the principal.
    FetchEnabledRole { user_id: u128 },
    /// Look up the name of the organization.
    FetchOrganizationName { id: u128 },
    /// Look up the organization that the department belongs to.
    FetchOrganizationOfDepartment { department_id: u128 },
    /// Look up the name of the department.
    FetchDepartmentName { id: u128 },
    /// Answer with the profile. The query is over.
    Respond(UserResponse),
    /// Refuse with this status and message. The query is over.
    Fail { status: u16, message: String },
}

/// The mathematical value of a `MeAction`.
pub enum MeActionModel {
    FetchSession { session_id: Seq<char> },
    FetchUser { id: u128 },
    FetchEnabledRole { user_id: u128 },
    FetchOrganizationName { id: u128 },
    FetchOrganizationOfDepartment { department_id: u128 },
    FetchDepartmentName { id: u128 },
    Respond(UserResponseModel),
    Fail { status: u16, message: Seq<char> },
}

impl DeepView for MeAction {
    type V = MeActionModel;

    open spec fn deep_view(&self) -> MeActionModel {
        match self {
            MeAction::FetchSession { session_id } => MeActionModel::FetchSession {
                session_id: session_id@,
            },
            MeAction::FetchUser { id } => MeActionModel::FetchUser { id: *id },
            MeAction::FetchEnabledRole { user_id } => MeActionModel::FetchEnabledRole {
                user_id: *user_id,
            },
            MeAction::FetchOrganizationName { id } => MeActionModel::FetchOrganizationName {
                id: *id,
            },
            MeAction::FetchOrganizationOfDepartment { department_id } => {
                MeActionModel::FetchOrganizationOfDepartment { department_id: *department_id }
            },
            MeAction::FetchDepartmentName { id } => MeActionModel::FetchDepartmentName { id: *id },
            MeAction::Respond(body) => MeActionModel::Respond(body.deep_view()),
            MeAction::Fail { status, message } => MeActionModel::Fail {
                status: *status,
                message: message@,
            },
        }
    }
}

/// A refusal that ends the query.
pub open spec fn me_refused(status: u16, message: Seq<char>) -> (MeStateModel, MeActionModel) {
    (MeStateModel::Done, MeActionModel::Fail { status, message })
}

/// The profile that the query answers with.
pub open spec fn profile_body(p: ProfileModel, department_name: Option<Seq<char>>) -> UserResponseModel {
    UserResponseModel {
        id: p.user.id,
        student_id: p.user.student_id,
        email: p.user.email,
        prefix: p.user.prefix,
        first_name: p.user.first_name,
        last_name: p.user.last_name,
        admin_role: p.role,
        organization_id: p.organization_id,
        organization_name: p.organization_name,
        department_id: p.user.department_id,
        department_name,
        session_id: p.session_id,
        expires_at: p.expires_at,
    }
}

/// The step once the organization is settled: the name of the department
/// is asked for where the principal has one.
pub open spec fn department_step(p: ProfileModel) -> (MeStateModel, MeActionModel) {
    match p.user.department_id {
        Some(id) => (
            MeStateModel::AwaitingDepartmentName { profile: p },
            MeActionModel::FetchDepartmentName { id },
        ),
        None => (MeStateModel::Done, MeActionModel::Respond(profile_body(p, None))),
    }
}

/// The step once the admin role is known. The organization is that of the
/// role where there is a role, and that of the department otherwise.
pub open spec fn organization_step(
    session_id: Seq<char>,
    expires_at: i64,
    user: UserModel,
    role: Option<AdminRoleModel>,
) -> (MeStateModel, MeActionModel) {
    let p = ProfileModel {
        session_id,
        expires_at,
        user,
        role,
        organization_id: None,
        organization_name: None,
    };
    match role {
        Some(r) => match r.organization_id {
            Some(id) => (
                MeStateModel::AwaitingOrganizationName {
                    profile: ProfileModel { organization_id: Some(id), ..p },
                },
                MeActionModel::FetchOrganizationName { id },
            ),
            None => department_step(p),
        },
        None => match user.department_id {
            Some(department_id) => (
                MeStateModel::AwaitingDepartmentOrganization { profile: p },
                MeActionModel::FetchOrganizationOfDepartment { department_id },
            ),
            None => department_step(p),
        },
    }
}

/// The step once the store has answered for the session. Only an active
/// session goes on to its principal; one that is unknown, or was
/// deactivated by a logout or a password reset, is refused with status 401.
pub open spec fn session_step(
    user_id: u128,
    session_id: Seq<char>,
    expires_at: i64,
    active: Option<bool>,
) -> (MeStateModel, MeActionModel) {
    if active == Some(true) {
        (MeStateModel::AwaitingUser { session_id, expires_at }, MeActionModel::FetchUser { id: user_id })
    } else {
        me_refused(401, "Session is no longer active"@)
    }
}

/// One step of a profile query. The credential is verified first, then the
/// session that it names is looked up, and only then the principal.
pub open spec fn me_step(state: MeStateModel, event: MeEventModel) -> (MeStateModel, MeActionModel) {
    match (state, event) {
        (MeStateModel::Start, MeEventModel::Requested { headers, secret, now }) => match resolve(
            headers,
            secret,
            seconds_at(now),
        ) {
            Err((status, message)) => me_refused(status, message),
            Ok(claims) => match uuid_value(claims.sub) {
                None => me_refused(401, "Invalid user ID in token"@),
                Some(id) => (
                    MeStateModel::AwaitingSession {
                        user_id: id,
                        session_id: claims.session_id,
                        expires_at: expiry_instant(claims.exp, now),
                    },
                    MeActionModel::FetchSession { session_id: claims.session_id },
                ),
            },
        },
        (
            MeStateModel::AwaitingSession { user_id, session_id, expires_at },
            MeEventModel::SessionLoaded(active),
        ) => session_step(user_id, session_id, expires_at, active),
        (MeStateModel::AwaitingUser { session_id, expires_at }, MeEventModel::UserLoaded(found)) => {
            match found {
                None => me_refused(404, "User not found"@),
                Some(user) => (
                    MeStateModel::AwaitingRole { session_id, expires_at, user },
                    MeActionModel::FetchEnabledRole { user_id: user.id },
                ),
            }
        },
        (
            MeStateModel::AwaitingRole { session_id, expires_at, user },
            MeEventModel::RoleLoaded(role),
        ) => organization_step(session_id, expires_at, user, role),
        (MeStateModel::AwaitingOrganizationName { profile }, MeEventModel::Named(name)) => {
            department_step(ProfileModel { organization_name: name, ..profile })
        },
        (MeStateModel::AwaitingOrganizationName { profile }, MeEventModel::StoreFailed(_)) => {
            department_step(profile)
        },
        (
            MeStateModel::AwaitingDepartmentOrganization { profile },
            MeEventModel::OrganizationFound(found),
        ) => match found {
            Some((id, name)) => department_step(
                ProfileModel { organization_id: Some(id), organization_name: Some(name), ..profile },
            ),
            None => department_step(profile),
        },
        (MeStateModel::AwaitingDepartmentOrganization { profile }, MeEventModel::StoreFailed(_)) => {
            department_step(profile)
        },
        (MeStateModel::AwaitingDepartmentName { profile }, MeEventModel::Named(name)) => (
            MeStateModel::Done,
            MeActionModel::Respond(profile_body(profile, name)),
        ),
        (MeStateModel::AwaitingDepartmentName { profile }, MeEventModel::StoreFailed(_)) => (
            MeStateModel::Done,
            MeActionModel::Respond(profile_body(profile, None)),
        ),
        (_, MeEventModel::StoreFailed(text)) => me_refused(500, text),
        (_, _) => me_refused(500, "Unexpected event"@),
    }
}

fn refuse(status: u16, message: &str) -> (r: (MeState, MeAction))
    ensures
        (r.0.deep_view(), r.1.deep_view()) == me_refused(status, message@),
{
    (MeState::Done, MeAction::Fail { status, message: String::from_str(message) })
}

fn stray(event: MeEvent) -> (r: (MeState, MeAction))
    ensures
        (r.0.deep_view(), r.1.deep_view()) == (match event.deep_view() {
            MeEventModel::StoreFailed(text) => me_refused(500, text),
            _ => me_refused(500, "Unexpected event"@),
        }),
{
    match event {
        MeEvent::StoreFailed(text) => (MeState::Done, MeAction::Fail { status: 500, message: text }),
        _ => refuse(500, "Unexpected event"),
    }
}

fn body(p: Profile, department_name: Option<String>) -> (r: UserResponse)
    ensures
        r.deep_view() == profile_body(p.deep_view(), department_name.deep_view()),
{
    UserResponse {
        id: p.user.id,
        student_id: p.user.student_id,
        email: p.user.email,
        prefix: p.user.prefix,
        first_name: p.user.first_name,
        last_name: p.user.last_name,
        admin_role: p.role,
        organization_id: p.organization_id,
        organization_name: p.organization_name,
        department_id: p.user.department_id,
        department_name,
        session_id: p.session_id,
        expires_at: p.expires_at,
    }
}

fn to_department(p: Profile) -> (r: (MeState, MeAction))
    ensures
        (r.0.deep_view(), r.1.deep_view()) == department_step(p.deep_view()),
{
    match p.user.department_id {
        Some(id) => (
            MeState::AwaitingDepartmentName { profile: p },
            MeAction::FetchDepartmentName { id },
        ),
        None => (MeState::Done, MeAction::Respond(body(p, None))),
    }
}

/// Decides where the organization of the profile comes from.
pub fn settle_organization(session_id: String, expires_at: i64, user: User, role: Option<AdminRole>) -> (r: (
    MeState,
    MeAction,
))
    ensures
        (r.0.deep_view(), r.1.deep_view()) == organization_step(
            session_id@,
            expires_at,
            user.deep_view(),
            role.deep_view(),
        ),
{
    let role_organization = match &role {
        Some(r) => Some(r.organization_id),
        None => None,
    };
    let department = user.department_id;
    let p = Profile {
        session_id,
        expires_at,
        user,
        role,
        organization_id: None,
        organization_name: None,
    };
    match role_organization {
        Some(Some(id)) => (
            MeState::AwaitingOrganizationName {
                profile: Profile {
                    session_id: p.session_id,
                    expires_at: p.expires_at,
                    user: p.user,
                    role: p.role,
                    organization_id: Some(id),
                    organization_name: None,
                },
            },
            MeAction::FetchOrganizationName { id },
        ),
        Some(None) => to_department(p),
        None => match department {
            Some(department_id) => (
                MeState::AwaitingDepartmentOrganization { profile: p },
                MeAction::FetchOrganizationOfDepartment { department_id },
            ),
            None => to_department(p),
        },
    }
}

/// Authenticates a profile query and names the session to look up.
pub fn begin_me(headers: &AuthHeaders, secret: Option<&str>, now: i64) -> (r: (MeState, MeAction))
    ensures
        (r.0.deep_view(), r.1.deep_view()) == me_step(
            MeStateModel::Start,
            MeEventModel::Requested {
                headers: headers.deep_view(),
                secret: secret.deep_view(),
                now,
            },
        ),
{
    let seconds: u64 = if now >= 0 {
        (now / MICROS) as u64
    } else {
        0
    };
    match get_claims_from_headers(headers, secret, seconds) {
        Err((status, message)) => (MeState::Done, MeAction::Fail { status, message }),
        Ok(claims) => match parse_id(claims.sub.as_str()) {
            None => refuse(401, "Invalid user ID in token"),
            Some(id) => {
                let expires_at: i64 = if claims.exp <= LAST_SECOND {
                    (claims.exp * 1000000) as i64
                } else {
                    now
                };
                let session_id = claims.session_id;
                (
                    MeState::AwaitingSession {
                        user_id: id,
                        session_id: session_id.clone(),
                        expires_at,
                    },
                    MeAction::FetchSession { session_id },
                )
            },
        },
    }
}

/// Takes one step of a profile query. The caller carries out the action
/// that comes back and reports what happened as the next event, until the
/// action is a response or a refusal. Lookups of names are best effort: a
/// failure there leaves the name out.
pub fn me_handler(state: MeState, event: MeEvent) -> (r: (MeState, MeAction))
    ensures
        (r.0.deep_view(), r.1.deep_view()) == me_step(state.deep_view(), event.deep_view()),
{
    match state {
        MeState::Start => match event {
            MeEvent::Requested { headers, secret, now } => match &secret {
                Some(s) => begin_me(&headers, Some(s.as_str()), now),
                None => begin_me(&headers, None, now),
            },
            other => stray(other),
        },
        MeState::AwaitingSession { user_id, session_id, expires_at } => match event {
            MeEvent::SessionLoaded(Some(true)) => (
                MeState::AwaitingUser { session_id, expires_at },
                MeAction::FetchUser { id: user_id },
            ),
            MeEvent::SessionLoaded(_) => refuse(401, "Session is no longer active"),
            other => stray(other),
        },
        MeState::AwaitingUser { session_id, expires_at } => match event {
            MeEvent::UserLoaded(None) => refuse(404, "User not found"),
            MeEvent::UserLoaded(Some(user)) => {
                let user_id = user.id;
                (
                    MeState::AwaitingRole { session_id, expires_at, user },
                    MeAction::FetchEnabledRole { user_id },
                )
            },
            other => stray(other),
        },
        MeState::AwaitingRole { session_id, expires_at, user } => match event {
            MeEvent::RoleLoaded(role) => settle_organization(session_id, expires_at, user, role),
            other => stray(other),
        },
        MeState::AwaitingOrganizationName { profile } => match event {
            MeEvent::Named(name) => to_department(
                Profile {
                    session_id: profile.session_id,
                    expires_at: profile.expires_at,
                    user: profile.user,
                    role: profile.role,
                    organization_id: profile.organization_id,
                    organization_name: name,
                },
            ),
            MeEvent::StoreFailed(_) => to_department(profile),
            other => stray(other),
        },
        MeState::AwaitingDepartmentOrganization { profile } => match event {
            MeEvent::OrganizationFound(Some((id, name))) => to_department(
                Profile {
                    session_id: profile.session_id,
                    expires_at: profile.expires_at,
                    user: profile.user,
                    role: profile.role,
                    organization_id: Some(id),
                    organization_name: Some(name),
                },
            ),
            MeEvent::OrganizationFound(None) => to_department(profile),
            MeEvent::StoreFailed(_) => to_department(profile),
            other => stray(other),
        },
        MeState::AwaitingDepartmentName { profile } => match event {
            MeEvent::Named(name) => (MeState::Done, MeAction::Respond(body(profile, name))),
            MeEvent::StoreFailed(_) => (MeState::Done, MeAction::Respond(body(profile, None))),
            other => stray(other),
        },
        MeState::Done => stray(event),
    }
}

/// A request whose credential verifies and names a principal.
pub open spec fn names_principal(headers: AuthHeadersModel, secret: Option<Seq<char>>, now: i64) -> bool {
    resolve(headers, secret, seconds_at(now)) matches Ok(claims) && uuid_value(claims.sub) is Some
}

/// A profile query that has verified its credential asks for the session
/// before anything else, and a session that is unknown or not active ends
/// the query with status 401: no principal is looked up and no profile is
/// answered. Only an active session goes on to its principal.
pub proof fn law_inactive_session_refused(
    headers: AuthHeadersModel,
    secret: Option<Seq<char>>,
    now: i64,
    active: Option<bool>,
)
    ensures
        names_principal(headers, secret, now) ==> ({
            let claims = resolve(headers, secret, seconds_at(now))->Ok_0;
            let first = me_step(MeStateModel::Start, MeEventModel::Requested { headers, secret, now });
            let second = me_step(first.0, MeEventModel::SessionLoaded(active));
            &&& first.1 == MeActionModel::FetchSession { session_id: claims.session_id }
            &&& active != Some(true) ==> second == me_refused(401, "Session is no longer active"@)
            &&& active == Some(true) ==> second.1 == MeActionModel::FetchUser {
                id: uuid_value(claims.sub)->0,
            }
        }),
{
}

} // verus!
