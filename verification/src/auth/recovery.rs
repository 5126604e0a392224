//! Registration and the recovery of a lost password.

use vstd::prelude::*;
use crate::auth::models::{
    ForgotPasswordInput, ForgotPasswordInputModel, RegisterInput, RegisterInputModel,
    RegisterResponse, RegisterResponseModel, ResetPasswordInput, ResetPasswordInputModel,
};
use crate::auth::password::{
    argon2_hash, hash_password, hashed_under, password_check, PasswordCheck,
};
use crate::model::refusal_view;
use crate::store::{InsertOutcome, InsertOutcomeModel};
use crate::ident::{id_text, uuid_text};
use crate::text::{concat2, concat3, has_prefix, lowercase, lowercased};

verus! {

/// The principal that a registration creates: active, with a hashed
/// password and a fresh scan secret.
#[derive(Debug, Clone, PartialEq, Eq)]
pub struct NewUser {
    pub id: u128,
    pub student_id: String,
    pub email: String,
    pub password_hash: String,
    pub prefix: String,
    pub first_name: String,
    pub last_name: String,
    pub phone: Option<String>,
    pub qr_secret: String,
    pub department_id: Option<u128>,
}

/// The mathematical value of a `NewUser`.
pub struct NewUserModel {
    pub id: u128,
    pub student_id: Seq<char>,
    pub email: Seq<char>,
    pub password_hash: Seq<char>,
    pub prefix: Seq<char>,
    pub first_name: Seq<char>,
    pub last_name: Seq<char>,
    pub phone: Option<Seq<char>>,
    pub qr_secret: Seq<char>,
    pub department_id: Option<u128>,
}

impl DeepView for NewUser {
    type V = NewUserModel;

    open spec fn deep_view(&self) -> NewUserModel {
        NewUserModel {
            id: self.id,
            student_id: self.student_id@,
            email: self.email@,
            password_hash: self.password_hash@,
            prefix: self.prefix@,
            first_name: self.first_name@,
            last_name: self.last_name@,
            phone: self.phone.deep_view(),
            qr_secret: self.qr_secret@,
            department_id: self.department_id,
        }
    }
}

/// The principal that registering `input` creates, given the hash of the
/// password.
pub open spec fn new_user(input: RegisterInputModel, hash: Seq<char>, user_id: u128, qr_secret: u128) -> NewUserModel {
    NewUserModel {
        id: user_id,
        student_id: input.student_id,
        email: input.email,
        password_hash: hash,
        prefix: input.prefix,
        first_name: input.first_name,
        last_name: input.last_name,
        phone: input.phone,
        qr_secret: uuid_text(qr_secret),
        department_id: input.department_id,
    }
}

/// What a registration comes to, given how hashing the password went.
pub open spec fn registration(
    input: RegisterInputModel,
    hashed: Result<Seq<char>, Seq<char>>,
    user_id: u128,
    qr_secret: u128,
) -> Result<NewUserModel, (u16, Seq<char>)> {
    match hashed {
        Ok(hash) => Ok(new_user(input, hash, user_id, qr_secret)),
        Err(text) => Err((500, "Failed to hash password: "@ + text)),
    }
}

/// Builds the principal of a registration from the hash of the password,
/// or refuses where hashing failed.
pub fn register_with(input: RegisterInput, hashed: Result<String, String>, user_id: u128, qr_secret: u128) -> (r: Result<
    NewUser,
    (u16, String),
>)
    ensures
        refusal_view(r) == registration(
            input.deep_view(),
            match hashed {
                Ok(h) => Ok(h@),
                Err(t) => Err(t@),
            },
            user_id,
            qr_secret,
        ),
{
    match hashed {
        Err(text) => Err((500, concat2("Failed to hash password: ", text.as_str()))),
        Ok(hash) => Ok(
            NewUser {
                id: user_id,
                student_id: input.student_id,
                email: input.email,
                password_hash: hash,
                prefix: input.prefix,
                first_name: input.first_name,
                last_name: input.last_name,
                phone: input.phone,
                qr_secret: id_text(qr_secret),
                department_id: input.department_id,
            },
        ),
    }
}

/// Whether `r` is what a registration comes to where the password is
/// hashed under `salt`: the principal with the Argon2 hash under that salt,
/// or status 500 where Argon2 gives no hash under it.
pub open spec fn registered_under(
    input: RegisterInputModel,
    salt: Seq<char>,
    user_id: u128,
    qr_secret: u128,
    r: Result<NewUser, (u16, String)>,
) -> bool {
    match argon2_hash(input.password, salt) {
        Some(hash) => refusal_view(r) == Ok::<NewUserModel, (u16, Seq<char>)>(
            new_user(input, hash, user_id, qr_secret),
        ),
        None => r matches Err((status, message)) && status == 500 && has_prefix(
            message@,
            "Failed to hash password: "@,
        ),
    }
}

/// Prepares a registration: hashes the password under a fresh salt and
/// builds the principal to insert, with the hash under the salt drawn. The
/// stored hash accepts the password. The registration is refused only
/// where Argon2 gives no hash under that salt.
pub fn register_handler(input: RegisterInput, user_id: u128, qr_secret: u128) -> (r: Result<
    NewUser,
    (u16, String),
>)
    ensures
        exists|salt: Seq<char>| registered_under(input.deep_view(), salt, user_id, qr_secret, r),
        r matches Ok(user) ==> password_check(input.password@, user.password_hash@)
            == PasswordCheck::Accepted,
{
    let hashed = hash_password(input.password.as_str());
    let ghost salt = choose|salt: Seq<char>| hashed_under(input.password@, salt, hashed);
    let ghost text = match &hashed {
        Ok(h) => h@,
        Err(t) => t@,
    };
    let ghost model = input.deep_view();
    let r = register_with(input, hashed, user_id, qr_secret);
    proof {
        if r is Err {
            let p = "Failed to hash password: "@;
            assert((p + text).subrange(0, p.len() as int) =~= p);
        }
        assert(registered_under(model, salt, user_id, qr_secret, r));
    }
    r
}

/// What a registration answers once the store has answered the insert.
pub open spec fn registered(user_id: u128, outcome: InsertOutcomeModel) -> Result<
    RegisterResponseModel,
    (u16, Seq<char>),
> {
    match outcome {
        InsertOutcomeModel::Done => Ok(
            RegisterResponseModel { user_id, message: "User registered successfully"@ },
        ),
        InsertOutcomeModel::UniqueViolation => Err((409, "Student ID or Email already exists"@)),
        InsertOutcomeModel::DatabaseError(t) => Err((500, "Database error: "@ + t)),
        InsertOutcomeModel::OtherError(t) => Err((500, "Failed to register: "@ + t)),
    }
}

/// Answers a registration.
pub fn register_outcome(user_id: u128, outcome: InsertOutcome) -> (r: Result<
    RegisterResponse,
    (u16, String),
>)
    ensures
        refusal_view(r) == registered(user_id, outcome.deep_view()),
{
    match outcome {
        InsertOutcome::Done => Ok(
            RegisterResponse { user_id, message: String::from_str("User registered successfully") },
        ),
        InsertOutcome::UniqueViolation => Err(
            (409, String::from_str("Student ID or Email already exists")),
        ),
        InsertOutcome::DatabaseError(t) => Err((500, concat2("Database error: ", t.as_str()))),
        InsertOutcome::OtherError(t) => Err((500, concat2("Failed to register: ", t.as_str()))),
    }
}

/// Microseconds for which a reset token is valid: thirty minutes.
pub const RESET_TOKEN_MICROS: i64 = 1800000000;

/// What the deployment configures for mail: the key of the mail service
/// (empty for none) and the address of the front end.
#[derive(Debug, Clone, PartialEq, Eq)]
pub struct MailConfig {
    pub resend_api_key: String,
    pub frontend_url: String,
}

/// The mathematical value of a `MailConfig`.
pub struct MailConfigModel {
    pub resend_api_key: Seq<char>,
    pub frontend_url: Seq<char>,
}

impl DeepView for MailConfig {
    type V = MailConfigModel;

    open spec fn deep_view(&self) -> MailConfigModel {
        MailConfigModel {
            resend_api_key: self.resend_api_key@,
            frontend_url: self.frontend_url@,
        }
    }
}

/// The mail that carries a password-reset link.
#[derive(Debug, Clone, PartialEq, Eq)]
pub struct ResetMail {
    pub api_key: String,
    pub from: String,
    pub to: String,
    pub subject: String,
    pub html: String,
}

/// The mathematical value of a `ResetMail`.
pub struct ResetMailModel {
    pub api_key: Seq<char>,
    pub from: Seq<char>,
    pub to: Seq<char>,
    pub subject: Seq<char>,
    pub html: Seq<char>,
}

impl DeepView for ResetMail {
    type V = ResetMailModel;

    open spec fn deep_view(&self) -> ResetMailModel {
        ResetMailModel {
            api_key: self.api_key@,
            from: self.from@,
            to: self.to@,
            subject: self.subject@,
            html: self.html@,
        }
    }
}

/// The link that resets the password with `token`.
pub open spec fn reset_link(frontend_url: Seq<char>, token: Seq<char>) -> Seq<char> {
    frontend_url + "/reset-password?token="@ + token
}

/// The mail that carries the reset link to `email`.
pub open spec fn reset_mail(config: MailConfigModel, email: Seq<char>, token: Seq<char>) -> ResetMailModel {
    ResetMailModel {
        api_key: config.resend_api_key,
        from: "Trackivity <onboarding@resend.dev>"@,
        to: email,
        subject: "Trackivity - Password Reset"@,
        html: "<h2>Reset Your Password</h2>\n            <p>You requested a password reset. Click the link below to set a new password:</p>\n            <p><a href=\""@ + reset_link(config.frontend_url, token) + "\">Reset Password</a></p>\n            <p>This link will expire in 30 minutes. If you did not request this, please ignore this email.</p>"@,
    }
}

/// The answer to every request for a reset link, whether or not the
/// address is known.
pub open spec fn forgot_message() -> Seq<char> {
    "If this email exists, a password reset link has been sent."@
}

/// The reset token for a principal: its text and the instant at which it
/// expires, thirty minutes from `now`. `None` where the clock is too late
/// for that.
pub open spec fn reset_token(token_id: u128, now: i64) -> Option<(Seq<char>, i64)> {
    if now <= i64::MAX - RESET_TOKEN_MICROS {
        Some((uuid_text(token_id), (now + RESET_TOKEN_MICROS) as i64))
    } else {
        None
    }
}

/// Makes the reset token for a principal.
pub fn make_reset_token(token_id: u128, now: i64) -> (r: Option<(String, i64)>)
    ensures
        match r {
            Some((text, expires_at)) => reset_token(token_id, now) == Some((text@, expires_at)),
            None => reset_token(token_id, now) is None,
        },
{
    if now <= i64::MAX - RESET_TOKEN_MICROS {
        Some((id_text(token_id), now + RESET_TOKEN_MICROS))
    } else {
        None
    }
}

/// The mail to send after a reset token is stored; `None` where no mail
/// service is configured.
pub open spec fn mail_to_send(config: MailConfigModel, email: Seq<char>, token: Seq<char>) -> Option<
    ResetMailModel,
> {
    if config.resend_api_key.len() == 0 {
        None
    } else {
        Some(reset_mail(config, email, token))
    }
}

/// Writes the mail that carries the reset link, where a mail service is
/// configured.
pub fn forgot_password_mail(config: &MailConfig, email: &str, token: &str) -> (r: Option<ResetMail>)
    ensures
        r.deep_view() == mail_to_send(config.deep_view(), email@, token@),
{
    if config.resend_api_key.unicode_len() == 0 {
        return None;
    }
    let link = concat3(config.frontend_url.as_str(), "/reset-password?token=", token);
    Some(
        ResetMail {
            api_key: config.resend_api_key.clone(),
            from: String::from_str("Trackivity <onboarding@resend.dev>"),
            to: String::from_str(email),
            subject: String::from_str("Trackivity - Password Reset"),
            html: concat3("<h2>Reset Your Password</h2>\n            <p>You requested a password reset. Click the link below to set a new password:</p>\n            <p><a href=\"", link.as_str(), "\">Reset Password</a></p>\n            <p>This link will expire in 30 minutes. If you did not request this, please ignore this email.</p>"),
        },
    )
}

/// The address that a reset link is asked for, as the store keeps
/// addresses: in lower case.
pub fn forgot_password_handler(input: &ForgotPasswordInput) -> (email: String)
    ensures
        email@ == lowercased(input.email@),
{
    lowercase(input.email.as_str())
}

/// The answer to every request for a reset link.
pub fn forgot_password_answer() -> (r: String)
    ensures
        r@ == forgot_message(),
{
    String::from_str("If this email exists, a password reset link has been sent.")
}

/// What setting a new password comes to, once the reset token is looked
/// up.
#[derive(Debug, Clone, PartialEq, Eq)]
pub enum ResetDecision {
    /// The token is unknown: status 400.
    UnknownToken,
    /// The token has expired: it is deleted, and the status is 400.
    Expired,
    /// The password is set to this hash; then the token is deleted and
    /// every session of the principal is deactivated.
    SetPassword { user_id: u128, password_hash: String },
    /// Hashing failed: status 500 with this message.
    HashFailed { message: String },
}

/// A reset token is unknown where the store has none, expired where the
/// instant `now` is after its expiry, and good otherwise.
pub open spec fn token_state(record: Option<(u128, i64)>, now: i64) -> int {
    match record {
        None => 0,
        Some((_, expires_at)) => if now > expires_at {
            1
        } else {
            2
        },
    }
}

/// Decides a password reset from the stored token and how hashing the new
/// password went.
pub fn decide_reset(record: Option<(u128, i64)>, now: i64, hashed: Result<String, String>) -> (r:
    ResetDecision)
    ensures
        token_state(record, now) == 0 ==> r == ResetDecision::UnknownToken,
        token_state(record, now) == 1 ==> r == ResetDecision::Expired,
        token_state(record, now) == 2 ==> match hashed {
            Ok(h) => r matches ResetDecision::SetPassword { user_id, password_hash } && Some(
                user_id,
            ) == (match record {
                Some((u, _)) => Some(u),
                None => None,
            }) && password_hash@ == h@,
            Err(t) => r matches ResetDecision::HashFailed { message } && message@
                == "Failed to hash password: "@ + t@,
        },
{
    match record {
        None => ResetDecision::UnknownToken,
        Some((user_id, expires_at)) => if now > expires_at {
            ResetDecision::Expired
        } else {
            match hashed {
                Ok(password_hash) => ResetDecision::SetPassword { user_id, password_hash },
                Err(t) => ResetDecision::HashFailed {
                    message: concat2("Failed to hash password: ", t.as_str()),
                },
            }
        },
    }
}

/// Whether `r` is what a reset with a good token for the principal
/// `user_id` comes to where the new password is hashed under `salt`: that
/// principal's password is set to the Argon2 hash under that salt, or the
/// reset fails where Argon2 gives no hash under it.
pub open spec fn reset_under(
    password: Seq<char>,
    salt: Seq<char>,
    user_id: u128,
    r: ResetDecision,
) -> bool {
    match argon2_hash(password, salt) {
        Some(hash) => r matches ResetDecision::SetPassword { user_id: whose, password_hash }
            && whose == user_id && password_hash@ == hash,
        None => r matches ResetDecision::HashFailed { message } && has_prefix(
            message@,
            "Failed to hash password: "@,
        ),
    }
}

/// Decides a password reset: the new password is hashed under a fresh salt
/// where the token is good, and the password of the token's principal is
/// set to the hash under the salt drawn. That hash accepts the new
/// password. With a good token the reset fails only where Argon2 gives no
/// hash under that salt.
pub fn reset_password_handler(input: &ResetPasswordInput, record: Option<(u128, i64)>, now: i64) -> (r:
    ResetDecision)
    ensures
        token_state(record, now) == 0 ==> r == ResetDecision::UnknownToken,
        token_state(record, now) == 1 ==> r == ResetDecision::Expired,
        token_state(record, now) == 2 ==> (record matches Some(found) && exists|salt: Seq<char>|
            reset_under(input.new_password@, salt, found.0, r)),
        r matches ResetDecision::SetPassword { user_id, password_hash } ==> password_check(
            input.new_password@,
            password_hash@,
        ) == PasswordCheck::Accepted,
{
    match record {
        None => ResetDecision::UnknownToken,
        Some((user_id, expires_at)) => if now > expires_at {
            ResetDecision::Expired
        } else {
            let hashed = hash_password(input.new_password.as_str());
            let ghost salt = choose|salt: Seq<char>| hashed_under(input.new_password@, salt, hashed);
            let ghost text = match &hashed {
                Ok(h) => h@,
                Err(t) => t@,
            };
            let r = decide_reset(record, now, hashed);
            proof {
                let p = "Failed to hash password: "@;
                assert((p + text).subrange(0, p.len() as int) =~= p);
                assert(reset_under(input.new_password@, salt, user_id, r));
            }
            r
        },
    }
}

} // verus!
