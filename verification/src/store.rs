//! What the attendance store reports back of an insert, and what that
//! means for the request.

use vstd::prelude::*;
use crate::text::concat2;

verus! {

/// How the store answered an insert.
#[derive(Debug, Clone, PartialEq, Eq)]
pub enum InsertOutcome {
    /// The row is in.
    Done,
    /// A row with the same unique value exists.
    UniqueViolation,
    /// The database refused for another reason, which it describes.
    DatabaseError(String),
    /// The store failed before it reached the database.
    OtherError(String),
}

/// The mathematical value of an `InsertOutcome`.
pub enum InsertOutcomeModel {
    Done,
    UniqueViolation,
    DatabaseError(Seq<char>),
    OtherError(Seq<char>),
}

impl DeepView for InsertOutcome {
    type V = InsertOutcomeModel;

    open spec fn deep_view(&self) -> InsertOutcomeModel {
        match self {
            InsertOutcome::Done => InsertOutcomeModel::Done,
            InsertOutcome::UniqueViolation => InsertOutcomeModel::UniqueViolation,
            InsertOutcome::DatabaseError(t) => InsertOutcomeModel::DatabaseError(t@),
            InsertOutcome::OtherError(t) => InsertOutcomeModel::OtherError(t@),
        }
    }
}

/// What creating something under a unique code answers where the insert
/// did not go through: status 409 with `conflict` where the code is
/// taken, status 500 with `failure` and the description otherwise.
pub open spec fn create_refusal(outcome: InsertOutcomeModel, conflict: Seq<char>, failure: Seq<char>) -> Option<
    (u16, Seq<char>),
> {
    match outcome {
        InsertOutcomeModel::Done => None,
        InsertOutcomeModel::UniqueViolation => Some((409, conflict)),
        InsertOutcomeModel::DatabaseError(t) => Some((500, failure + t)),
        InsertOutcomeModel::OtherError(t) => Some((500, failure + t)),
    }
}

/// Judges the insert of something with a unique code.
pub fn refuse_create(outcome: InsertOutcome, conflict: &str, failure: &str) -> (r: Option<
    (u16, String),
>)
    ensures
        (match r {
            Some((status, message)) => Some((status, message@)),
            None => None,
        }) == create_refusal(outcome.deep_view(), conflict@, failure@),
{
    match outcome {
        InsertOutcome::Done => None,
        InsertOutcome::UniqueViolation => Some((409, String::from_str(conflict))),
        InsertOutcome::DatabaseError(t) => Some((500, concat2(failure, t.as_str()))),
        InsertOutcome::OtherError(t) => Some((500, concat2(failure, t.as_str()))),
    }
}

} // verus!
