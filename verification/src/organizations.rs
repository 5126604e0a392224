//! Organizations: faculties and offices.

use vstd::prelude::*;
use crate::models::OrganizationType;

verus! {

/// An organization as the attendance store holds it.
#[derive(Debug, Clone, PartialEq, Eq)]
pub struct Organization {
    pub id: u128,
    pub name: String,
    pub code: String,
    pub description: Option<String>,
    pub organization_type: OrganizationType,
    pub status: bool,
    pub created_at: Option<i64>,
    pub updated_at: Option<i64>,
}

/// The mathematical value of an `Organization`.
pub struct OrganizationModel {
    pub id: u128,
    pub name: Seq<char>,
    pub code: Seq<char>,
    pub description: Option<Seq<char>>,
    pub organization_type: OrganizationType,
    pub status: bool,
    pub created_at: Option<i64>,
    pub updated_at: Option<i64>,
}

impl DeepView for Organization {
    type V = OrganizationModel;

    open spec fn deep_view(&self) -> OrganizationModel {
        OrganizationModel {
            id: self.id,
            name: self.name@,
            code: self.code@,
            description: self.description.deep_view(),
            organization_type: self.organization_type,
            status: self.status,
            created_at: self.created_at,
            updated_at: self.updated_at,
        }
    }
}

/// The organizations by kind.
#[derive(Debug, Clone, PartialEq, Eq)]
pub struct GroupedOrganizations {
    pub faculty: Vec<Organization>,
    pub office: Vec<Organization>,
}

/// The mathematical value of a `GroupedOrganizations`.
pub struct GroupedOrganizationsModel {
    pub faculty: Seq<OrganizationModel>,
    pub office: Seq<OrganizationModel>,
}

impl DeepView for GroupedOrganizations {
    type V = GroupedOrganizationsModel;

    open spec fn deep_view(&self) -> GroupedOrganizationsModel {
        GroupedOrganizationsModel {
            faculty: self.faculty.deep_view(),
            office: self.office.deep_view(),
        }
    }
}

/// All organizations, and the same by kind.
#[derive(Debug, Clone, PartialEq, Eq)]
pub struct OrganizationsResponse {
    pub all: Vec<Organization>,
    pub grouped: GroupedOrganizations,
}

/// The mathematical value of an `OrganizationsResponse`.
pub struct OrganizationsResponseModel {
    pub all: Seq<OrganizationModel>,
    pub grouped: GroupedOrganizationsModel,
}

impl DeepView for OrganizationsResponse {
    type V = OrganizationsResponseModel;

    open spec fn deep_view(&self) -> OrganizationsResponseModel {
        OrganizationsResponseModel {
            all: self.all.deep_view(),
            grouped: self.grouped.deep_view(),
        }
    }
}

/// A request to create an organization.
#[derive(Debug, Clone, PartialEq, Eq)]
pub struct CreateOrganizationInput {
    pub name: String,
    pub code: String,
    pub description: Option<String>,
    pub organization_type: OrganizationType,
    pub status: Option<bool>,
}

/// The mathematical value of a `CreateOrganizationInput`.
pub struct CreateOrganizationInputModel {
    pub name: Seq<char>,
    pub code: Seq<char>,
    pub description: Option<Seq<char>>,
    pub organization_type: OrganizationType,
    pub status: Option<bool>,
}

impl DeepView for CreateOrganizationInput {
    type V = CreateOrganizationInputModel;

    open spec fn deep_view(&self) -> CreateOrganizationInputModel {
        CreateOrganizationInputModel {
            name: self.name@,
            code: self.code@,
            description: self.description.deep_view(),
            organization_type: self.organization_type,
            status: self.status,
        }
    }
}

/// A request to change an organization. What is left out stays as it is.
#[derive(Debug, Clone, PartialEq, Eq)]
pub struct UpdateOrganizationInput {
    pub name: Option<String>,
    pub code: Option<String>,
    pub description: Option<String>,
    pub organization_type: Option<OrganizationType>,
    pub status: Option<bool>,
}

/// The mathematical value of an `UpdateOrganizationInput`.
pub struct UpdateOrganizationInputModel {
    pub name: Option<Seq<char>>,
    pub code: Option<Seq<char>>,
    pub description: Option<Seq<char>>,
    pub organization_type: Option<OrganizationType>,
    pub status: Option<bool>,
}

impl DeepView for UpdateOrganizationInput {
    type V = UpdateOrganizationInputModel;

    open spec fn deep_view(&self) -> UpdateOrganizationInputModel {
        UpdateOrganizationInputModel {
            name: self.name.deep_view(),
            code: self.code.deep_view(),
            description: self.description.deep_view(),
            organization_type: self.organization_type,
            status: self.status,
        }
    }
}

/// The hours of activity that an organization requires of its members.
#[derive(Debug, Clone, Copy, PartialEq, Eq, Structural)]
pub struct OrgActivityRequirements {
    pub id: u128,
    pub organization_id: u128,
    pub required_faculty_hours: i32,
    pub required_university_hours: i32,
    pub created_at: Option<i64>,
    pub updated_at: Option<i64>,
    pub created_by: u128,
}

/// A request to set the hours of activity that an organization requires.
#[derive(Debug, Clone, Copy, PartialEq, Eq)]
pub struct UpdateOrgActivityRequirementsInput {
    pub required_faculty_hours: i32,
    pub required_university_hours: i32,
}

/// The organizations of `all` that are of kind `kind`, in the order of
/// `all`.
pub open spec fn of_kind(all: Seq<OrganizationModel>, kind: OrganizationType) -> Seq<OrganizationModel>
    decreases all.len(),
{
    if all.len() == 0 {
        Seq::empty()
    } else {
        let earlier = of_kind(all.drop_last(), kind);
        if all.last().organization_type == kind {
            earlier.push(all.last())
        } else {
            earlier
        }
    }
}

fn copy_text(t: &Option<String>) -> (r: Option<String>)
    ensures
        r.deep_view() == t.deep_view(),
{
    match t {
        Some(s) => Some(s.clone()),
        None => None,
    }
}

fn copy_organization(o: &Organization) -> (r: Organization)
    ensures
        r.deep_view() == o.deep_view(),
{
    Organization {
        id: o.id,
        name: o.name.clone(),
        code: o.code.clone(),
        description: copy_text(&o.description),
        organization_type: o.organization_type,
        status: o.status,
        created_at: o.created_at,
        updated_at: o.updated_at,
    }
}

/// Picks the organizations of one kind.
pub fn pick_kind(all: &Vec<Organization>, kind: OrganizationType) -> (r: Vec<Organization>)
    ensures
        r.deep_view() == of_kind(all.deep_view(), kind),
{
    let ghost model = all.deep_view();
    let mut r: Vec<Organization> = Vec::new();
    let mut i: usize = 0;
    proof {
        assert(r.deep_view() =~= Seq::<OrganizationModel>::empty());
    }
    while i < all.len()
        invariant
            i <= all.len(),
            model == all.deep_view(),
            r.deep_view() == of_kind(model.take(i as int), kind),
        decreases all.len() - i,
    {
        let ghost before = r.deep_view();
        proof {
            let next = model.take(i + 1);
            assert(next.drop_last() =~= model.take(i as int));
            assert(next.last() == model[i as int]);
            assert(model[i as int] == all@[i as int].deep_view());
        }
        if all[i].organization_type == kind {
            r.push(copy_organization(&all[i]));
            proof {
                assert(r.deep_view() =~= before.push(model[i as int]));
            }
        }
        i += 1;
    }
    proof {
        assert(model.take(all.len() as int) =~= model);
    }
    r
}

/// Groups the organizations by kind: faculties and offices, each in the
/// order in which they came.
pub fn get_all_organizations(all: Vec<Organization>) -> (r: OrganizationsResponse)
    ensures
        r.all.deep_view() == all.deep_view(),
        r.grouped.faculty.deep_view() == of_kind(all.deep_view(), OrganizationType::Faculty),
        r.grouped.office.deep_view() == of_kind(all.deep_view(), OrganizationType::Office),
{
    let faculty = pick_kind(&all, OrganizationType::Faculty);
    let office = pick_kind(&all, OrganizationType::Office);
    OrganizationsResponse { all, grouped: GroupedOrganizations { faculty, office } }
}

/// The hours that an organization requires where it has set none: six of
/// its own and twelve of the university, under the nil identifier.
pub open spec fn default_requirements(organization_id: u128) -> OrgActivityRequirements {
    OrgActivityRequirements {
        id: 0,
        organization_id,
        required_faculty_hours: 6,
        required_university_hours: 12,
        created_at: None,
        updated_at: None,
        created_by: 0,
    }
}

/// The requirements of an organization: what the store holds, or the
/// default where it holds none.
pub fn get_activity_requirements(organization_id: u128, stored: Option<OrgActivityRequirements>) -> (r:
    OrgActivityRequirements)
    ensures
        r == (match stored {
            Some(found) => found,
            None => default_requirements(organization_id),
        }),
{
    match stored {
        Some(found) => found,
        None => OrgActivityRequirements {
            id: 0,
            organization_id,
            required_faculty_hours: 6,
            required_university_hours: 12,
            created_at: None,
            updated_at: None,
            created_by: 0,
        },
    }
}

/// Whether a new organization or department is active: as asked, and
/// active where nothing is asked.
pub fn initial_status(asked: Option<bool>) -> (r: bool)
    ensures
        r == (asked != Some(false)),
{
    match asked {
        Some(b) => b,
        None => true,
    }
}

} // verus!
