//! Activities and the participation of principals in them.

use vstd::prelude::*;
use crate::model::refusal_view;
use crate::store::{InsertOutcome, InsertOutcomeModel};
use crate::models::{ActivityStatus, ActivityType};
use crate::text::{concat2, decimal, decimal_text};

verus! {

/// The participation of one principal in one activity, as the attendance
/// store holds it. There is at most one for each pair of principal and
/// activity. Instants are microseconds since the Unix epoch.
#[derive(Debug, Clone, PartialEq, Eq)]
pub struct ParticipationRecord {
    pub id: u128,
    pub user_id: u128,
    pub activity_id: u128,
    pub status: String,
    pub registered_at: Option<i64>,
    pub checked_in_at: Option<i64>,
    pub checked_out_at: Option<i64>,
    pub notes: Option<String>,
}

/// The mathematical value of a `ParticipationRecord`.
pub struct ParticipationRecordModel {
    pub id: u128,
    pub user_id: u128,
    pub activity_id: u128,
    pub status: Seq<char>,
    pub registered_at: Option<i64>,
    pub checked_in_at: Option<i64>,
    pub checked_out_at: Option<i64>,
    pub notes: Option<Seq<char>>,
}

impl DeepView for ParticipationRecord {
    type V = ParticipationRecordModel;

    open spec fn deep_view(&self) -> ParticipationRecordModel {
        ParticipationRecordModel {
            id: self.id,
            user_id: self.user_id,
            activity_id: self.activity_id,
            status: self.status@,
            registered_at: self.registered_at,
            checked_in_at: self.checked_in_at,
            checked_out_at: self.checked_out_at,
            notes: self.notes.deep_view(),
        }
    }
}

/// A request to change an activity. What is left out stays as it is. Dates
/// and times are in their written form, the eligible organizations are a
/// JSON text.
#[derive(Debug, Clone, PartialEq, Eq)]
pub struct UpdateActivityInput {
    pub title: Option<String>,
    pub description: Option<String>,
    pub location: Option<String>,
    pub status: Option<ActivityStatus>,
    pub registration_open: Option<bool>,
    pub max_participants: Option<i32>,
    pub organizer_id: Option<u128>,
    pub activity_level: Option<String>,
    pub start_date: Option<String>,
    pub end_date: Option<String>,
    pub start_time_only: Option<String>,
    pub end_time_only: Option<String>,
    pub eligible_organizations: Option<String>,
    pub activity_type: Option<ActivityType>,
    pub hours: Option<i16>,
}

/// The mathematical value of an `UpdateActivityInput`.
pub struct UpdateActivityInputModel {
    pub title: Option<Seq<char>>,
    pub description: Option<Seq<char>>,
    pub location: Option<Seq<char>>,
    pub status: Option<ActivityStatus>,
    pub registration_open: Option<bool>,
    pub max_participants: Option<i32>,
    pub organizer_id: Option<u128>,
    pub activity_level: Option<Seq<char>>,
    pub start_date: Option<Seq<char>>,
    pub end_date: Option<Seq<char>>,
    pub start_time_only: Option<Seq<char>>,
    pub end_time_only: Option<Seq<char>>,
    pub eligible_organizations: Option<Seq<char>>,
    pub activity_type: Option<ActivityType>,
    pub hours: Option<i16>,
}

impl DeepView for UpdateActivityInput {
    type V = UpdateActivityInputModel;

    open spec fn deep_view(&self) -> UpdateActivityInputModel {
        UpdateActivityInputModel {
            title: self.title.deep_view(),
            description: self.description.deep_view(),
            location: self.location.deep_view(),
            status: self.status,
            registration_open: self.registration_open,
            max_participants: self.max_participants,
            organizer_id: self.organizer_id,
            activity_level: self.activity_level.deep_view(),
            start_date: self.start_date.deep_view(),
            end_date: self.end_date.deep_view(),
            start_time_only: self.start_time_only.deep_view(),
            end_time_only: self.end_time_only.deep_view(),
            eligible_organizations: self.eligible_organizations.deep_view(),
            activity_type: self.activity_type,
            hours: self.hours,
        }
    }
}

/// What a successful registration for an activity returns.
#[derive(Debug, Clone, PartialEq, Eq)]
pub struct JoinResponse {
    pub message: String,
    pub participation_id: u128,
}

/// The mathematical value of a `JoinResponse`.
pub struct JoinResponseModel {
    pub message: Seq<char>,
    pub participation_id: u128,
}

impl DeepView for JoinResponse {
    type V = JoinResponseModel;

    open spec fn deep_view(&self) -> JoinResponseModel {
        JoinResponseModel {
            message: self.message@,
            participation_id: self.participation_id,
        }
    }
}

/// What creating an activity returns.
#[derive(Debug, Clone, PartialEq, Eq)]
pub struct CreateActivityResponse {
    pub activity_id: u128,
    pub message: String,
}

/// The mathematical value of a `CreateActivityResponse`.
pub struct CreateActivityResponseModel {
    pub activity_id: u128,
    pub message: Seq<char>,
}

impl DeepView for CreateActivityResponse {
    type V = CreateActivityResponseModel;

    open spec fn deep_view(&self) -> CreateActivityResponseModel {
        CreateActivityResponseModel {
            activity_id: self.activity_id,
            message: self.message@,
        }
    }
}

/// An update statement as far as it is written: its text, and the number
/// of the placeholder that the next column gets.
pub struct DraftModel {
    pub text: Seq<char>,
    pub next: nat,
}

impl DraftModel {
    /// The draft with one more column: where the request names the
    /// column, its assignment is added after a comma, with the next
    /// placeholder; where it does not, nothing changes.
    #[verifier::opaque]
    pub open spec fn set(self, present: bool, before: Seq<char>, after: Seq<char>) -> DraftModel {
        if present {
            DraftModel {
                text: self.text + ", "@ + before + decimal(self.next) + after,
                next: self.next + 1,
            }
        } else {
            self
        }
    }
}

/// The statement that changes an activity: the time of the update is
/// always set, and every column that the request names gets the next
/// placeholder after that of the identifier, in the order in which the
/// values are bound.
pub open spec fn update_statement(input: UpdateActivityInputModel) -> Seq<char> {
    let d = DraftModel { text: "UPDATE activities SET updated_at = NOW()"@, next: 2 };
    let d = d.set(input.title is Some, "title = $"@, ""@);
    let d = d.set(input.description is Some, "description = $"@, ""@);
    let d = d.set(input.location is Some, "location = $"@, ""@);
    let d = d.set(input.status is Some, "status = $"@, ""@);
    let d = d.set(input.registration_open is Some, "registration_open = $"@, ""@);
    let d = d.set(input.max_participants is Some, "max_participants = $"@, ""@);
    let d = d.set(input.organizer_id is Some, "organizer_id = $"@, ""@);
    let d = d.set(input.activity_level is Some, "activity_level = $"@, "::activity_level"@);
    let d = d.set(input.start_date is Some, "start_date = $"@, ""@);
    let d = d.set(input.end_date is Some, "end_date = $"@, ""@);
    let d = d.set(input.start_time_only is Some, "start_time_only = $"@, ""@);
    let d = d.set(input.end_time_only is Some, "end_time_only = $"@, ""@);
    let d = d.set(input.eligible_organizations is Some, "eligible_organizations = $"@, ""@);
    let d = d.set(input.activity_type is Some, "activity_type = $"@, ""@);
    let d = d.set(input.hours is Some, "hours = $"@, ""@);
    d.text + " WHERE id = $1"@
}

/// An update statement while it is written.
pub struct Draft {
    pub text: String,
    pub next: u64,
}

impl DeepView for Draft {
    type V = DraftModel;

    open spec fn deep_view(&self) -> DraftModel {
        DraftModel { text: self.text@, next: self.next as nat }
    }
}

impl Draft {
    /// Adds the assignment for one column, where the request names it.
    pub fn set(self, present: bool, before: &str, after: &str) -> (r: Draft)
        requires
            self.next < u64::MAX,
        ensures
            r.deep_view() == self.deep_view().set(present, before@, after@),
            r.next <= self.next + 1,
    {
        reveal(DraftModel::set);
        if present {
            let mut text = self.text;
            let ghost start = text@;
            text.append(", ");
            text.append(before);
            let digits = decimal_text(self.next);
            text.append(digits.as_str());
            text.append(after);
            assert(text@ =~= start + ", "@ + before@ + decimal(self.next as nat) + after@);
            Draft { text, next: self.next + 1 }
        } else {
            self
        }
    }
}

/// Writes the statement that changes an activity.
pub fn update_activity(input: &UpdateActivityInput) -> (r: String)
    ensures
        r@ == update_statement(input.deep_view()),
{
    let d = Draft { text: String::from_str("UPDATE activities SET updated_at = NOW()"), next: 2 };
    let d = d.set(input.title.is_some(), "title = $", "");
    let d = d.set(input.description.is_some(), "description = $", "");
    let d = d.set(input.location.is_some(), "location = $", "");
    let d = d.set(input.status.is_some(), "status = $", "");
    let d = d.set(input.registration_open.is_some(), "registration_open = $", "");
    let d = d.set(input.max_participants.is_some(), "max_participants = $", "");
    let d = d.set(input.organizer_id.is_some(), "organizer_id = $", "");
    let d = d.set(input.activity_level.is_some(), "activity_level = $", "::activity_level");
    let d = d.set(input.start_date.is_some(), "start_date = $", "");
    let d = d.set(input.end_date.is_some(), "end_date = $", "");
    let d = d.set(input.start_time_only.is_some(), "start_time_only = $", "");
    let d = d.set(input.end_time_only.is_some(), "end_time_only = $", "");
    let d = d.set(input.eligible_organizations.is_some(), "eligible_organizations = $", "");
    let d = d.set(input.activity_type.is_some(), "activity_type = $", "");
    let d = d.set(input.hours.is_some(), "hours = $", "");
    let mut r = d.text;
    r.append(" WHERE id = $1");
    r
}

/// What registering for an activity answers once the store has answered
/// the insert.
pub open spec fn joined(participation_id: u128, outcome: InsertOutcomeModel) -> Result<
    JoinResponseModel,
    (u16, Seq<char>),
> {
    match outcome {
        InsertOutcomeModel::Done => Ok(
            JoinResponseModel {
                message: "Successfully registered for activity"@,
                participation_id,
            },
        ),
        InsertOutcomeModel::UniqueViolation => Err(
            (409, "Already registered for this activity"@),
        ),
        InsertOutcomeModel::DatabaseError(t) => Err((500, "Database error: "@ + t)),
        InsertOutcomeModel::OtherError(t) => Err((500, "Failed to register: "@ + t)),
    }
}

/// Answers a registration for an activity. A principal who is registered
/// already is told so: there is one participation for each pair.
pub fn join_activity(participation_id: u128, outcome: InsertOutcome) -> (r: Result<
    JoinResponse,
    (u16, String),
>)
    ensures
        refusal_view(r) == joined(participation_id, outcome.deep_view()),
{
    match outcome {
        InsertOutcome::Done => Ok(
            JoinResponse {
                message: String::from_str("Successfully registered for activity"),
                participation_id,
            },
        ),
        InsertOutcome::UniqueViolation => Err(
            (409, String::from_str("Already registered for this activity")),
        ),
        InsertOutcome::DatabaseError(t) => Err((500, concat2("Database error: ", t.as_str()))),
        InsertOutcome::OtherError(t) => Err((500, concat2("Failed to register: ", t.as_str()))),
    }
}

} // verus!
