//! Principals and their profiles.

use vstd::prelude::*;
use crate::auth::password::{
    argon2_hash, check_password, hash_password, hashed_under, password_check, PasswordCheck,
};
use crate::text::{concat2, has_prefix};

verus! {

/// A request of a principal to change their own profile. What is left out
/// stays as it is.
#[derive(Debug, Clone, PartialEq, Eq)]
pub struct UpdateProfileInput {
    pub prefix: Option<String>,
    pub first_name: Option<String>,
    pub last_name: Option<String>,
    pub phone: Option<String>,
    pub address: Option<String>,
}

/// The mathematical value of an `UpdateProfileInput`.
pub struct UpdateProfileInputModel {
    pub prefix: Option<Seq<char>>,
    pub first_name: Option<Seq<char>>,
    pub last_name: Option<Seq<char>>,
    pub phone: Option<Seq<char>>,
    pub address: Option<Seq<char>>,
}

impl DeepView for UpdateProfileInput {
    type V = UpdateProfileInputModel;

    open spec fn deep_view(&self) -> UpdateProfileInputModel {
        UpdateProfileInputModel {
            prefix: self.prefix.deep_view(),
            first_name: self.first_name.deep_view(),
            last_name: self.last_name.deep_view(),
            phone: self.phone.deep_view(),
            address: self.address.deep_view(),
        }
    }
}

/// A request of a principal to change their own password.
#[derive(Debug, Clone, PartialEq, Eq)]
pub struct ChangePasswordInput {
    pub current_password: String,
    pub new_password: String,
}

/// The mathematical value of a `ChangePasswordInput`.
pub struct ChangePasswordInputModel {
    pub current_password: Seq<char>,
    pub new_password: Seq<char>,
}

impl DeepView for ChangePasswordInput {
    type V = ChangePasswordInputModel;

    open spec fn deep_view(&self) -> ChangePasswordInputModel {
        ChangePasswordInputModel {
            current_password: self.current_password@,
            new_password: self.new_password@,
        }
    }
}

/// What changing a password comes to, once the principal is looked up.
#[derive(Debug, Clone, PartialEq, Eq)]
pub enum PasswordChange {
    /// The principal is not there: status 404.
    UnknownUser,
    /// What is stored is no password hash: status 500.
    UnreadableHash,
    /// The current password is another: status 401.
    WrongPassword,
    /// The password is set to this hash.
    SetPassword { password_hash: String },
    /// Hashing failed: status 500 with this message.
    HashFailed { message: String },
}

/// Judges the current password of a principal: `None` where it is
/// accepted and the new password is to be set.
pub open spec fn change_refusal(stored_hash: Option<Seq<char>>, current_password: Seq<char>) -> Option<
    PasswordChange,
> {
    match stored_hash {
        None => Some(PasswordChange::UnknownUser),
        Some(hash) => match password_check(current_password, hash) {
            PasswordCheck::UnreadableHash => Some(
                PasswordChange::UnreadableHash,
            ),
            PasswordCheck::Rejected => Some(PasswordChange::WrongPassword),
            PasswordCheck::Accepted => None,
        },
    }
}

/// Whether `r` is what an accepted change of password comes to where the
/// new password is hashed under `salt`: the password is set to the Argon2
/// hash under that salt, or the change fails where Argon2 gives no hash
/// under it.
pub open spec fn changed_under(password: Seq<char>, salt: Seq<char>, r: PasswordChange) -> bool {
    match argon2_hash(password, salt) {
        Some(hash) => r matches PasswordChange::SetPassword { password_hash } && password_hash@
            == hash,
        None => r matches PasswordChange::HashFailed { message } && has_prefix(
            message@,
            "Failed to hash password: "@,
        ),
    }
}

/// Decides a change of password from the stored hash of the principal, if
/// the principal exists. The new password is hashed under a fresh salt
/// only where the current one is accepted, and the password is set to the
/// hash under the salt drawn; that hash accepts the new password. Once the
/// current password is accepted the change fails only where Argon2 gives no
/// hash under that salt.
pub fn change_password(stored_hash: Option<&str>, input: &ChangePasswordInput) -> (r: PasswordChange)
    ensures
        match change_refusal(stored_hash.deep_view(), input.current_password@) {
            Some(refusal) => r == refusal,
            None => exists|salt: Seq<char>| changed_under(input.new_password@, salt, r),
        },
        r matches PasswordChange::SetPassword { password_hash } ==> password_check(
            input.new_password@,
            password_hash@,
        ) == PasswordCheck::Accepted,
{
    let hash = match stored_hash {
        None => {
            return PasswordChange::UnknownUser;
        },
        Some(h) => h,
    };
    match check_password(input.current_password.as_str(), hash) {
        PasswordCheck::UnreadableHash => PasswordChange::UnreadableHash,
        PasswordCheck::Rejected => PasswordChange::WrongPassword,
        PasswordCheck::Accepted => {
            let hashed = hash_password(input.new_password.as_str());
            let ghost salt = choose|salt: Seq<char>| hashed_under(input.new_password@, salt, hashed);
            let r = match hashed {
                Ok(password_hash) => PasswordChange::SetPassword { password_hash },
                Err(t) => {
                    let message = concat2("Failed to hash password: ", t.as_str());
                    proof {
                        let p = "Failed to hash password: "@;
                        assert((p + t@).subrange(0, p.len() as int) =~= p);
                    }
                    PasswordChange::HashFailed { message }
                },
            };
            assert(changed_under(input.new_password@, salt, r));
            r
        },
    }
}

} // verus!
