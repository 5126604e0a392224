//! Departments of organizations.

use vstd::prelude::*;

verus! {

/// A request to create a department in an organization.
#[derive(Debug, Clone, PartialEq, Eq)]
pub struct CreateDepartmentInput {
    pub name: String,
    pub code: String,
    pub description: Option<String>,
    pub organization_id: u128,
    pub status: Option<bool>,
}

/// The mathematical value of a `CreateDepartmentInput`.
pub struct CreateDepartmentInputModel {
    pub name: Seq<char>,
    pub code: Seq<char>,
    pub description: Option<Seq<char>>,
    pub organization_id: u128,
    pub status: Option<bool>,
}

impl DeepView for CreateDepartmentInput {
    type V = CreateDepartmentInputModel;

    open spec fn deep_view(&self) -> CreateDepartmentInputModel {
        CreateDepartmentInputModel {
            name: self.name@,
            code: self.code@,
            description: self.description.deep_view(),
            organization_id: self.organization_id,
            status: self.status,
        }
    }
}

/// A request to change a department. What is left out stays as it is.
#[derive(Debug, Clone, PartialEq, Eq)]
pub struct UpdateDepartmentInput {
    pub name: Option<String>,
    pub code: Option<String>,
    pub description: Option<String>,
    pub status: Option<bool>,
}

/// The mathematical value of an `UpdateDepartmentInput`.
pub struct UpdateDepartmentInputModel {
    pub name: Option<Seq<char>>,
    pub code: Option<Seq<char>>,
    pub description: Option<Seq<char>>,
    pub status: Option<bool>,
}

impl DeepView for UpdateDepartmentInput {
    type V = UpdateDepartmentInputModel;

    open spec fn deep_view(&self) -> UpdateDepartmentInputModel {
        UpdateDepartmentInputModel {
            name: self.name.deep_view(),
            code: self.code.deep_view(),
            description: self.description.deep_view(),
            status: self.status,
        }
    }
}

} // verus!
