//! Admin roles: who may manage what.

use vstd::prelude::*;
use crate::ident::{parse_id, uuid_value};
use crate::clock::{instant_text, rfc3339_text};
use crate::text::{concat2, concat3, decimal, decimal_text};

verus! {

/// A request to create an admin: a principal with an admin role.
#[derive(Debug, Clone, PartialEq, Eq)]
pub struct CreateAdminInput {
    pub email: String,
    pub first_name: String,
    pub last_name: String,
    pub prefix: Option<String>,
    pub password: Option<String>,
    pub admin_level: String,
    pub organization_id: Option<String>,
    pub permissions: Option<Vec<String>>,
}

/// The mathematical value of a `CreateAdminInput`.
pub struct CreateAdminInputModel {
    pub email: Seq<char>,
    pub first_name: Seq<char>,
    pub last_name: Seq<char>,
    pub prefix: Option<Seq<char>>,
    pub password: Option<Seq<char>>,
    pub admin_level: Seq<char>,
    pub organization_id: Option<Seq<char>>,
    pub permissions: Option<Seq<Seq<char>>>,
}

impl DeepView for CreateAdminInput {
    type V = CreateAdminInputModel;

    open spec fn deep_view(&self) -> CreateAdminInputModel {
        CreateAdminInputModel {
            email: self.email@,
            first_name: self.first_name@,
            last_name: self.last_name@,
            prefix: self.prefix.deep_view(),
            password: self.password.deep_view(),
            admin_level: self.admin_level@,
            organization_id: self.organization_id.deep_view(),
            permissions: self.permissions.deep_view(),
        }
    }
}

/// A request to change the profile of an admin.
#[derive(Debug, Clone, PartialEq, Eq)]
pub struct UpdateAdminInput {
    pub first_name: String,
    pub last_name: String,
    pub email: String,
    pub prefix: Option<String>,
    pub department_id: Option<String>,
    pub organization_id: Option<String>,
}

/// The mathematical value of an `UpdateAdminInput`.
pub struct UpdateAdminInputModel {
    pub first_name: Seq<char>,
    pub last_name: Seq<char>,
    pub email: Seq<char>,
    pub prefix: Option<Seq<char>>,
    pub department_id: Option<Seq<char>>,
    pub organization_id: Option<Seq<char>>,
}

impl DeepView for UpdateAdminInput {
    type V = UpdateAdminInputModel;

    open spec fn deep_view(&self) -> UpdateAdminInputModel {
        UpdateAdminInputModel {
            first_name: self.first_name@,
            last_name: self.last_name@,
            email: self.email@,
            prefix: self.prefix.deep_view(),
            department_id: self.department_id.deep_view(),
            organization_id: self.organization_id.deep_view(),
        }
    }
}

/// A request to enable or disable an admin role.
#[derive(Debug, Clone, Copy, PartialEq, Eq)]
pub struct ToggleStatusInput {
    pub is_active: bool,
}

/// The student number of a new admin: the letter `A` and nine digits that
/// are drawn from `random`.
pub open spec fn admin_number(random: u32) -> Seq<char> {
    "A"@ + decimal((random % 900000000 + 100000000) as nat)
}

/// Writes the student number of a new admin.
pub fn admin_student_id(random: u32) -> (r: String)
    ensures
        r@ == admin_number(random),
{
    let n: u64 = (random % 900000000) as u64 + 100000000;
    let digits = decimal_text(n);
    concat2("A", digits.as_str())
}

/// Trusted: `rand::random::<u32>`. Nothing is promised of the number.
#[verifier::external_body]
fn random_u32() -> (r: u32) {
    rand::random::<u32>()
}

/// Draws the student number of a new admin: `A` and nine digits.
pub fn fresh_admin_student_id() -> (r: String)
    ensures
        exists|random: u32| r@ == admin_number(random),
{
    let random = random_u32();
    admin_student_id(random)
}

/// The password of a new admin: the one asked for, or `123456`.
pub fn initial_password(input: &CreateAdminInput) -> (r: String)
    ensures
        r@ == (match input.password {
            Some(p) => p@,
            None => "123456"@,
        }),
{
    match &input.password {
        Some(p) => p.clone(),
        None => String::from_str("123456"),
    }
}

/// The permissions of a new admin where none are asked for.
pub open spec fn default_permissions() -> Seq<Seq<char>> {
    seq!["ViewDashboard"@]
}

/// The permissions of a new admin: those asked for, or to view the
/// dashboard.
pub fn initial_permissions(asked: Option<Vec<String>>) -> (r: Vec<String>)
    ensures
        r.deep_view() == (match asked {
            Some(p) => p.deep_view(),
            None => default_permissions(),
        }),
{
    match asked {
        Some(p) => p,
        None => {
            let mut r: Vec<String> = Vec::new();
            r.push(String::from_str("ViewDashboard"));
            assert(r.deep_view() =~= default_permissions());
            r
        },
    }
}

/// The identifier that a request names as text, where it names one and
/// the text is an identifier.
pub fn optional_id(text: &Option<String>) -> (r: Option<u128>)
    ensures
        r == (match text {
            Some(t) => uuid_value(t@),
            None => None,
        }),
{
    match text {
        Some(t) => parse_id(t.as_str()),
        None => None,
    }
}

/// An admin role with its principal and its organization, as the store
/// lists them.
#[derive(Debug, Clone, PartialEq, Eq)]
pub struct AdminRoleView {
    pub id: u128,
    pub user_id: u128,
    pub admin_level: Option<String>,
    pub organization_id: Option<u128>,
    pub permissions: Option<Vec<String>>,
    pub is_enabled: Option<bool>,
    pub created_at: i64,
    pub updated_at: i64,
    pub user_email: String,
    pub user_prefix: Option<String>,
    pub first_name: String,
    pub last_name: String,
    pub student_id: Option<String>,
    pub department_id: Option<u128>,
    pub user_created_at: i64,
    pub user_updated_at: i64,
    pub organization_name: Option<String>,
    pub organization_code: Option<String>,
    pub organization_status: Option<bool>,
}

/// The mathematical value of an `AdminRoleView`.
pub struct AdminRoleViewModel {
    pub id: u128,
    pub user_id: u128,
    pub admin_level: Option<Seq<char>>,
    pub organization_id: Option<u128>,
    pub permissions: Option<Seq<Seq<char>>>,
    pub is_enabled: Option<bool>,
    pub created_at: i64,
    pub updated_at: i64,
    pub user_email: Seq<char>,
    pub user_prefix: Option<Seq<char>>,
    pub first_name: Seq<char>,
    pub last_name: Seq<char>,
    pub student_id: Option<Seq<char>>,
    pub department_id: Option<u128>,
    pub user_created_at: i64,
    pub user_updated_at: i64,
    pub organization_name: Option<Seq<char>>,
    pub organization_code: Option<Seq<char>>,
    pub organization_status: Option<bool>,
}

impl DeepView for AdminRoleView {
    type V = AdminRoleViewModel;

    open spec fn deep_view(&self) -> AdminRoleViewModel {
        AdminRoleViewModel {
            id: self.id,
            user_id: self.user_id,
            admin_level: self.admin_level.deep_view(),
            organization_id: self.organization_id,
            permissions: self.permissions.deep_view(),
            is_enabled: self.is_enabled,
            created_at: self.created_at,
            updated_at: self.updated_at,
            user_email: self.user_email@,
            user_prefix: self.user_prefix.deep_view(),
            first_name: self.first_name@,
            last_name: self.last_name@,
            student_id: self.student_id.deep_view(),
            department_id: self.department_id,
            user_created_at: self.user_created_at,
            user_updated_at: self.user_updated_at,
            organization_name: self.organization_name.deep_view(),
            organization_code: self.organization_code.deep_view(),
            organization_status: self.organization_status,
        }
    }
}

/// The principal of a listed admin.
#[derive(Debug, Clone, PartialEq, Eq)]
pub struct AdminUserField {
    pub id: u128,
    pub student_id: Option<String>,
    pub email: String,
    pub prefix: String,
    pub first_name: String,
    pub last_name: String,
    pub department_id: Option<u128>,
    pub organization_id: Option<u128>,
    pub status: String,
    pub role: String,
    pub created_at: i64,
    pub updated_at: i64,
}

/// The mathematical value of an `AdminUserField`.
pub struct AdminUserFieldModel {
    pub id: u128,
    pub student_id: Option<Seq<char>>,
    pub email: Seq<char>,
    pub prefix: Seq<char>,
    pub first_name: Seq<char>,
    pub last_name: Seq<char>,
    pub department_id: Option<u128>,
    pub organization_id: Option<u128>,
    pub status: Seq<char>,
    pub role: Seq<char>,
    pub created_at: i64,
    pub updated_at: i64,
}

impl DeepView for AdminUserField {
    type V = AdminUserFieldModel;

    open spec fn deep_view(&self) -> AdminUserFieldModel {
        AdminUserFieldModel {
            id: self.id,
            student_id: self.student_id.deep_view(),
            email: self.email@,
            prefix: self.prefix@,
            first_name: self.first_name@,
            last_name: self.last_name@,
            department_id: self.department_id,
            organization_id: self.organization_id,
            status: self.status@,
            role: self.role@,
            created_at: self.created_at,
            updated_at: self.updated_at,
        }
    }
}

/// The organization of a listed admin.
#[derive(Debug, Clone, PartialEq, Eq)]
pub struct AdminOrgField {
    pub id: u128,
    pub name: String,
    pub code: String,
    pub status: bool,
    pub created_at: Option<i64>,
    pub updated_at: Option<i64>,
}

/// The mathematical value of an `AdminOrgField`.
pub struct AdminOrgFieldModel {
    pub id: u128,
    pub name: Seq<char>,
    pub code: Seq<char>,
    pub status: bool,
    pub created_at: Option<i64>,
    pub updated_at: Option<i64>,
}

impl DeepView for AdminOrgField {
    type V = AdminOrgFieldModel;

    open spec fn deep_view(&self) -> AdminOrgFieldModel {
        AdminOrgFieldModel {
            id: self.id,
            name: self.name@,
            code: self.code@,
            status: self.status,
            created_at: self.created_at,
            updated_at: self.updated_at,
        }
    }
}

/// One admin in a listing.
#[derive(Debug, Clone, PartialEq, Eq)]
pub struct AdminResponseItem {
    pub id: u128,
    pub user_id: u128,
    pub admin_level: String,
    pub organization_id: Option<u128>,
    pub permissions: Vec<String>,
    pub is_enabled: bool,
    pub is_active: bool,
    pub created_at: i64,
    pub updated_at: i64,
    pub user: AdminUserField,
    pub organization: Option<AdminOrgField>,
    pub full_name: Option<String>,
    pub created_at_formatted: Option<String>,
    pub permission_count: Option<usize>,
    pub days_since_last_login: Option<i64>,
    pub assigned_departments: Vec<String>,
    pub department_count: Option<usize>,
}

/// The mathematical value of an `AdminResponseItem`.
pub struct AdminResponseItemModel {
    pub id: u128,
    pub user_id: u128,
    pub admin_level: Seq<char>,
    pub organization_id: Option<u128>,
    pub permissions: Seq<Seq<char>>,
    pub is_enabled: bool,
    pub is_active: bool,
    pub created_at: i64,
    pub updated_at: i64,
    pub user: AdminUserFieldModel,
    pub organization: Option<AdminOrgFieldModel>,
    pub full_name: Option<Seq<char>>,
    pub created_at_formatted: Option<Seq<char>>,
    pub permission_count: Option<usize>,
    pub days_since_last_login: Option<i64>,
    pub assigned_departments: Seq<Seq<char>>,
    pub department_count: Option<usize>,
}

impl DeepView for AdminResponseItem {
    type V = AdminResponseItemModel;

    open spec fn deep_view(&self) -> AdminResponseItemModel {
        AdminResponseItemModel {
            id: self.id,
            user_id: self.user_id,
            admin_level: self.admin_level@,
            organization_id: self.organization_id,
            permissions: self.permissions.deep_view(),
            is_enabled: self.is_enabled,
            is_active: self.is_active,
            created_at: self.created_at,
            updated_at: self.updated_at,
            user: self.user.deep_view(),
            organization: self.organization.deep_view(),
            full_name: self.full_name.deep_view(),
            created_at_formatted: self.created_at_formatted.deep_view(),
            permission_count: self.permission_count,
            days_since_last_login: self.days_since_last_login,
            assigned_departments: self.assigned_departments.deep_view(),
            department_count: self.department_count,
        }
    }
}

/// A listing of admins.
#[derive(Debug, Clone, PartialEq, Eq)]
pub struct AdminsListResponse {
    pub admins: Vec<AdminResponseItem>,
}

/// The mathematical value of an `AdminsListResponse`.
pub struct AdminsListResponseModel {
    pub admins: Seq<AdminResponseItemModel>,
}

impl DeepView for AdminsListResponse {
    type V = AdminsListResponseModel;

    open spec fn deep_view(&self) -> AdminsListResponseModel {
        AdminsListResponseModel {
            admins: self.admins.deep_view(),
        }
    }
}

/// The text of `found`, or `fallback` where there is none.
pub open spec fn text_or(found: Option<Seq<char>>, fallback: Seq<char>) -> Seq<char> {
    match found {
        Some(t) => t,
        None => fallback,
    }
}

/// One admin of a listing, made of a row of the store. What the store
/// leaves open is filled in: the level with `fallback_level`, the prefix
/// with `Generic`, the permissions with none, and the role counts as
/// enabled. The organization is listed where the role names one, under
/// the name `ไม่ระบุ` where the store has no name for it, stamped `now`.
pub open spec fn admin_item_of(
    row: AdminRoleViewModel,
    fallback_level: Seq<char>,
    role: Seq<char>,
    now: i64,
) -> AdminResponseItemModel {
    AdminResponseItemModel {
        id: row.id,
        user_id: row.user_id,
        admin_level: text_or(row.admin_level, fallback_level),
        organization_id: row.organization_id,
        permissions: match row.permissions {
            Some(p) => p,
            None => Seq::empty(),
        },
        is_enabled: row.is_enabled != Some(false),
        is_active: false,
        created_at: row.created_at,
        updated_at: row.updated_at,
        user: AdminUserFieldModel {
            id: row.user_id,
            student_id: row.student_id,
            email: row.user_email,
            prefix: text_or(row.user_prefix, "Generic"@),
            first_name: row.first_name,
            last_name: row.last_name,
            department_id: row.department_id,
            organization_id: row.organization_id,
            status: "active"@,
            role,
            created_at: row.user_created_at,
            updated_at: row.user_updated_at,
        },
        organization: match row.organization_id {
            Some(id) => Some(
                AdminOrgFieldModel {
                    id,
                    name: text_or(row.organization_name, "ไม่ระบุ"@),
                    code: text_or(row.organization_code, Seq::empty()),
                    status: row.organization_status != Some(false),
                    created_at: Some(now),
                    updated_at: Some(now),
                },
            ),
            None => None,
        },
        full_name: Some(row.first_name + " "@ + row.last_name),
        created_at_formatted: rfc3339_text(row.created_at),
        permission_count: Some(0),
        days_since_last_login: None,
        assigned_departments: Seq::empty(),
        department_count: Some(0),
    }
}

fn or_text(found: Option<String>, fallback: &str) -> (r: String)
    ensures
        r@ == text_or(found.deep_view(), fallback@),
{
    match found {
        Some(t) => t,
        None => String::from_str(fallback),
    }
}

/// Makes one admin of a listing of a row of the store.
pub fn admin_item(row: AdminRoleView, fallback_level: &str, role: &str, now: i64) -> (r: AdminResponseItem)
    ensures
        r.deep_view() == admin_item_of(row.deep_view(), fallback_level@, role@, now),
{
    proof {
        reveal_strlit("");
        assert(""@ =~= Seq::<char>::empty());
    }
    let organization = match row.organization_id {
        Some(id) => Some(
            AdminOrgField {
                id,
                name: or_text(row.organization_name, "ไม่ระบุ"),
                code: or_text(row.organization_code, ""),
                status: match row.organization_status {
                    Some(b) => b,
                    None => true,
                },
                created_at: Some(now),
                updated_at: Some(now),
            },
        ),
        None => None,
    };
    let full_name = concat3(row.first_name.as_str(), " ", row.last_name.as_str());
    let permissions = match row.permissions {
        Some(p) => p,
        None => {
            let none: Vec<String> = Vec::new();
            assert(none.deep_view() =~= Seq::<Seq<char>>::empty());
            none
        },
    };
    let assigned: Vec<String> = Vec::new();
    assert(assigned.deep_view() =~= Seq::<Seq<char>>::empty());
    AdminResponseItem {
        id: row.id,
        user_id: row.user_id,
        admin_level: or_text(row.admin_level, fallback_level),
        organization_id: row.organization_id,
        permissions,
        is_enabled: match row.is_enabled {
            Some(b) => b,
            None => true,
        },
        is_active: false,
        created_at: row.created_at,
        updated_at: row.updated_at,
        user: AdminUserField {
            id: row.user_id,
            student_id: row.student_id,
            email: row.user_email,
            prefix: or_text(row.user_prefix, "Generic"),
            first_name: row.first_name,
            last_name: row.last_name,
            department_id: row.department_id,
            organization_id: row.organization_id,
            status: String::from_str("active"),
            role: String::from_str(role),
            created_at: row.user_created_at,
            updated_at: row.user_updated_at,
        },
        organization,
        full_name: Some(full_name),
        created_at_formatted: instant_text(row.created_at),
        permission_count: Some(0),
        days_since_last_login: None,
        assigned_departments: assigned,
        department_count: Some(0),
    }
}

/// One admin of the listing of all admins.
pub fn list_admins(row: AdminRoleView, now: i64) -> (r: AdminResponseItem)
    ensures
        r.deep_view() == admin_item_of(row.deep_view(), "regular_admin"@, "admin"@, now),
{
    admin_item(row, "regular_admin", "admin", now)
}

/// One admin of the listing of the admins of organizations.
pub fn list_organization_admins(row: AdminRoleView, now: i64) -> (r: AdminResponseItem)
    ensures
        r.deep_view() == admin_item_of(
            row.deep_view(),
            "organization_admin"@,
            "organization_admin"@,
            now,
        ),
{
    admin_item(row, "organization_admin", "organization_admin", now)
}

} // verus!
