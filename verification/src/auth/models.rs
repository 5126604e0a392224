//! What the session authority takes in and hands out.

use vstd::prelude::*;
use crate::models::{AdminLevel, UserStatus};

verus! {

/// A login request: one of the two handles, the secret, and whether the
/// session is to last thirty days in place of seven.
#[derive(Debug, Clone, PartialEq, Eq)]
pub struct AuthInput {
    pub email: Option<String>,
    pub student_id: Option<String>,
    pub password: String,
    pub remember_me: Option<bool>,
}

/// The mathematical value of an `AuthInput`.
pub struct AuthInputModel {
    pub email: Option<Seq<char>>,
    pub student_id: Option<Seq<char>>,
    pub password: Seq<char>,
    pub remember_me: Option<bool>,
}

impl DeepView for AuthInput {
    type V = AuthInputModel;

    open spec fn deep_view(&self) -> AuthInputModel {
        AuthInputModel {
            email: self.email.deep_view(),
            student_id: self.student_id.deep_view(),
            password: self.password@,
            remember_me: self.remember_me,
        }
    }
}

/// A request to create an account.
#[derive(Debug, Clone, PartialEq, Eq)]
pub struct RegisterInput {
    pub student_id: String,
    pub email: String,
    pub password: String,
    pub prefix: String,
    pub first_name: String,
    pub last_name: String,
    pub phone: Option<String>,
    pub organization_id: Option<u128>,
    pub department_id: Option<u128>,
}

/// The mathematical value of a `RegisterInput`.
pub struct RegisterInputModel {
    pub student_id: Seq<char>,
    pub email: Seq<char>,
    pub password: Seq<char>,
    pub prefix: Seq<char>,
    pub first_name: Seq<char>,
    pub last_name: Seq<char>,
    pub phone: Option<Seq<char>>,
    pub organization_id: Option<u128>,
    pub department_id: Option<u128>,
}

impl DeepView for RegisterInput {
    type V = RegisterInputModel;

    open spec fn deep_view(&self) -> RegisterInputModel {
        RegisterInputModel {
            student_id: self.student_id@,
            email: self.email@,
            password: self.password@,
            prefix: self.prefix@,
            first_name: self.first_name@,
            last_name: self.last_name@,
            phone: self.phone.deep_view(),
            organization_id: self.organization_id,
            department_id: self.department_id,
        }
    }
}

/// A request for a password-reset link.
#[derive(Debug, Clone, PartialEq, Eq)]
pub struct ForgotPasswordInput {
    pub email: String,
}

/// The mathematical value of a `ForgotPasswordInput`.
pub struct ForgotPasswordInputModel {
    pub email: Seq<char>,
}

impl DeepView for ForgotPasswordInput {
    type V = ForgotPasswordInputModel;

    open spec fn deep_view(&self) -> ForgotPasswordInputModel {
        ForgotPasswordInputModel {
            email: self.email@,
        }
    }
}

/// A request to set a new password with a reset token.
#[derive(Debug, Clone, PartialEq, Eq)]
pub struct ResetPasswordInput {
    pub token: String,
    pub new_password: String,
}

/// The mathematical value of a `ResetPasswordInput`.
pub struct ResetPasswordInputModel {
    pub token: Seq<char>,
    pub new_password: Seq<char>,
}

impl DeepView for ResetPasswordInput {
    type V = ResetPasswordInputModel;

    open spec fn deep_view(&self) -> ResetPasswordInputModel {
        ResetPasswordInputModel {
            token: self.token@,
            new_password: self.new_password@,
        }
    }
}

/// A principal as the attendance store holds it. Instants are microseconds
/// since the Unix epoch.
#[derive(Debug, Clone, PartialEq, Eq)]
pub struct User {
    pub id: u128,
    pub student_id: String,
    pub email: String,
    pub password_hash: String,
    pub prefix: String,
    pub first_name: String,
    pub last_name: String,
    pub phone: Option<String>,
    pub address: Option<String>,
    pub qr_secret: String,
    pub status: UserStatus,
    pub department_id: Option<u128>,
    pub deleted_at: Option<i64>,
    pub last_login_at: Option<i64>,
    pub login_count: Option<i32>,
    pub created_at: i64,
    pub updated_at: i64,
}

/// The mathematical value of an `User`.
pub struct UserModel {
    pub id: u128,
    pub student_id: Seq<char>,
    pub email: Seq<char>,
    pub password_hash: Seq<char>,
    pub prefix: Seq<char>,
    pub first_name: Seq<char>,
    pub last_name: Seq<char>,
    pub phone: Option<Seq<char>>,
    pub address: Option<Seq<char>>,
    pub qr_secret: Seq<char>,
    pub status: UserStatus,
    pub department_id: Option<u128>,
    pub deleted_at: Option<i64>,
    pub last_login_at: Option<i64>,
    pub login_count: Option<i32>,
    pub created_at: i64,
    pub updated_at: i64,
}

impl DeepView for User {
    type V = UserModel;

    open spec fn deep_view(&self) -> UserModel {
        UserModel {
            id: self.id,
            student_id: self.student_id@,
            email: self.email@,
            password_hash: self.password_hash@,
            prefix: self.prefix@,
            first_name: self.first_name@,
            last_name: self.last_name@,
            phone: self.phone.deep_view(),
            address: self.address.deep_view(),
            qr_secret: self.qr_secret@,
            status: self.status,
            department_id: self.department_id,
            deleted_at: self.deleted_at,
            last_login_at: self.last_login_at,
            login_count: self.login_count,
            created_at: self.created_at,
            updated_at: self.updated_at,
        }
    }
}

/// The admin role of a principal as the attendance store holds it.
#[derive(Debug, Clone, PartialEq, Eq)]
pub struct AdminRole {
    pub id: u128,
    pub user_id: u128,
    pub admin_level: AdminLevel,
    pub organization_id: Option<u128>,
    pub permissions: Vec<String>,
    pub is_enabled: bool,
    pub last_session_id: Option<String>,
    pub created_at: Option<i64>,
    pub updated_at: Option<i64>,
}

/// The mathematical value of an `AdminRole`.
pub struct AdminRoleModel {
    pub id: u128,
    pub user_id: u128,
    pub admin_level: AdminLevel,
    pub organization_id: Option<u128>,
    pub permissions: Seq<Seq<char>>,
    pub is_enabled: bool,
    pub last_session_id: Option<Seq<char>>,
    pub created_at: Option<i64>,
    pub updated_at: Option<i64>,
}

impl DeepView for AdminRole {
    type V = AdminRoleModel;

    open spec fn deep_view(&self) -> AdminRoleModel {
        AdminRoleModel {
            id: self.id,
            user_id: self.user_id,
            admin_level: self.admin_level,
            organization_id: self.organization_id,
            permissions: self.permissions.deep_view(),
            is_enabled: self.is_enabled,
            last_session_id: self.last_session_id.deep_view(),
            created_at: self.created_at,
            updated_at: self.updated_at,
        }
    }
}

/// The profile summary that login and the profile query return.
#[derive(Debug, Clone, PartialEq, Eq)]
pub struct UserResponse {
    pub id: u128,
    pub student_id: String,
    pub email: String,
    pub prefix: String,
    pub first_name: String,
    pub last_name: String,
    pub admin_role: Option<AdminRole>,
    pub organization_id: Option<u128>,
    pub organization_name: Option<String>,
    pub department_id: Option<u128>,
    pub department_name: Option<String>,
    pub session_id: String,
    pub expires_at: i64,
}

/// The mathematical value of an `UserResponse`.
pub struct UserResponseModel {
    pub id: u128,
    pub student_id: Seq<char>,
    pub email: Seq<char>,
    pub prefix: Seq<char>,
    pub first_name: Seq<char>,
    pub last_name: Seq<char>,
    pub admin_role: Option<AdminRoleModel>,
    pub organization_id: Option<u128>,
    pub organization_name: Option<Seq<char>>,
    pub department_id: Option<u128>,
    pub department_name: Option<Seq<char>>,
    pub session_id: Seq<char>,
    pub expires_at: i64,
}

impl DeepView for UserResponse {
    type V = UserResponseModel;

    open spec fn deep_view(&self) -> UserResponseModel {
        UserResponseModel {
            id: self.id,
            student_id: self.student_id@,
            email: self.email@,
            prefix: self.prefix@,
            first_name: self.first_name@,
            last_name: self.last_name@,
            admin_role: self.admin_role.deep_view(),
            organization_id: self.organization_id,
            organization_name: self.organization_name.deep_view(),
            department_id: self.department_id,
            department_name: self.department_name.deep_view(),
            session_id: self.session_id@,
            expires_at: self.expires_at,
        }
    }
}

/// What a successful login returns.
#[derive(Debug, Clone, PartialEq, Eq)]
pub struct AuthResponse {
    pub token: String,
    pub user: UserResponse,
}

/// The mathematical value of an `AuthResponse`.
pub struct AuthResponseModel {
    pub token: Seq<char>,
    pub user: UserResponseModel,
}

impl DeepView for AuthResponse {
    type V = AuthResponseModel;

    open spec fn deep_view(&self) -> AuthResponseModel {
        AuthResponseModel {
            token: self.token@,
            user: self.user.deep_view(),
        }
    }
}

/// What a successful registration returns.
#[derive(Debug, Clone, PartialEq, Eq)]
pub struct RegisterResponse {
    pub user_id: u128,
    pub message: String,
}

/// The mathematical value of a `RegisterResponse`.
pub struct RegisterResponseModel {
    pub user_id: u128,
    pub message: Seq<char>,
}

impl DeepView for RegisterResponse {
    type V = RegisterResponseModel;

    open spec fn deep_view(&self) -> RegisterResponseModel {
        RegisterResponseModel {
            user_id: self.user_id,
            message: self.message@,
        }
    }
}

/// The claim set of a session credential: who the principal is, which
/// session it belongs to, when it was issued and when it expires (seconds
/// since the Unix epoch), and a cached copy of profile and role.
#[derive(Debug, Clone, PartialEq, Eq)]
pub struct Claims {
    pub sub: String,
    pub session_id: String,
    pub exp: u64,
    pub iat: u64,
    pub student_id: String,
    pub email: String,
    pub first_name: String,
    pub last_name: String,
    pub department_id: Option<u128>,
    pub is_admin: bool,
    pub admin_level: Option<AdminLevel>,
    pub organization_id: Option<u128>,
}

/// The mathematical value of a `Claims`.
pub struct ClaimsModel {
    pub sub: Seq<char>,
    pub session_id: Seq<char>,
    pub exp: u64,
    pub iat: u64,
    pub student_id: Seq<char>,
    pub email: Seq<char>,
    pub first_name: Seq<char>,
    pub last_name: Seq<char>,
    pub department_id: Option<u128>,
    pub is_admin: bool,
    pub admin_level: Option<AdminLevel>,
    pub organization_id: Option<u128>,
}

impl DeepView for Claims {
    type V = ClaimsModel;

    open spec fn deep_view(&self) -> ClaimsModel {
        ClaimsModel {
            sub: self.sub@,
            session_id: self.session_id@,
            exp: self.exp,
            iat: self.iat,
            student_id: self.student_id@,
            email: self.email@,
            first_name: self.first_name@,
            last_name: self.last_name@,
            department_id: self.department_id,
            is_admin: self.is_admin,
            admin_level: self.admin_level,
            organization_id: self.organization_id,
        }
    }
}

} // verus!
