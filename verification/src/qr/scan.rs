//! The checkpoint engine: what a scanned credential does to the
//! participation of its principal in an activity.
//!
//! A participation is in one of four states: none, registered, checked in,
//! checked out. Check-in moves none and registered to checked in; check-out
//! moves checked in to checked out. Every other pair of state and direction
//! is answered with an outcome of its own and changes nothing.
//!
//! The engine does not reach the attendance store itself. `scan_qr` takes
//! the state of one scan and what has just happened, and says what is to be
//! done next; whoever holds the store does it and reports back. The store
//! keeps at most one participation for each pair of principal and
//! activity: where two scans race to create it, the one that loses is told
//! that the principal is checked in already.

use vstd::prelude::*;
use crate::activities::{ParticipationRecord, ParticipationRecordModel};
use crate::auth::guard::{authorize_scan, scan_actor};
use crate::auth::headers::{AuthHeaders, AuthHeadersModel};
use crate::claims::{ClaimValue, Payload};
use crate::codec::{open, signed_payload, VerifyError};
use crate::ident::{parse_id, uuid_value};
use crate::qr::models::{
    ScanQRData, ScanQRDataModel, ScanQRError, ScanQRErrorModel, ScanQRRequest, ScanQRResponse,
    ScanQRResponseModel,
};
use crate::qr::token::{judge_scan, scan_verdict};
use crate::text::{concat2, concat3, same_text};

verus! {

/// Which way a scan moves a participation.
#[derive(Debug, Clone, Copy, PartialEq, Eq, Structural)]
pub enum ScanDirection {
    CheckIn,
    CheckOut,
}

impl ScanDirection {
    /// The direction that a mode word stands for, if any.
    pub open spec fn of_mode(text: Seq<char>) -> Option<Self> {
        if text == "checkin"@ {
            Some(ScanDirection::CheckIn)
        } else if text == "checkout"@ {
            Some(ScanDirection::CheckOut)
        } else {
            None
        }
    }

    /// Reads a mode word.
    pub fn from_mode(text: &str) -> (r: Option<Self>)
        ensures
            r == Self::of_mode(text@),
    {
        if same_text(text, "checkin") {
            Some(ScanDirection::CheckIn)
        } else if same_text(text, "checkout") {
            Some(ScanDirection::CheckOut)
        } else {
            None
        }
    }
}

/// What a negative outcome asks of the operator: to retry with another
/// scan, to move on, or to report an ordering violation.
#[derive(Debug, Clone, Copy, PartialEq, Eq, Structural)]
pub enum ErrorCategory {
    Error,
    Warning,
    FlowViolation,
}

impl ErrorCategory {
    /// The name of the category in an outcome.
    pub open spec fn name(self) -> Seq<char> {
        match self {
            ErrorCategory::Error => "error"@,
            ErrorCategory::Warning => "warning"@,
            ErrorCategory::FlowViolation => "flow_violation"@,
        }
    }

    /// The name of the category in an outcome.
    pub fn as_str(&self) -> (r: &'static str)
        ensures
            r@ == self.name(),
    {
        match self {
            ErrorCategory::Error => "error",
            ErrorCategory::Warning => "warning",
            ErrorCategory::FlowViolation => "flow_violation",
        }
    }
}

/// Where a participation stands, as far as a scan is concerned.
#[derive(Debug, Clone, Copy, PartialEq, Eq, Structural)]
pub enum Phase {
    /// Registered, or in any other state before check-in.
    Registered,
    CheckedIn,
    CheckedOut,
}

/// The phase that a stored status stands for.
pub open spec fn phase_of(status: Seq<char>) -> Phase {
    if status == "checked_in"@ {
        Phase::CheckedIn
    } else if status == "checked_out"@ {
        Phase::CheckedOut
    } else {
        Phase::Registered
    }
}

/// Reads the phase from a stored status.
pub fn read_phase(status: &str) -> (r: Phase)
    ensures
        r == phase_of(status@),
{
    if same_text(status, "checked_in") {
        Phase::CheckedIn
    } else if same_text(status, "checked_out") {
        Phase::CheckedOut
    } else {
        Phase::Registered
    }
}

/// How a scan ended.
#[derive(Debug, Clone, Copy, PartialEq, Eq, Structural)]
pub enum ScanOutcome {
    CheckedIn,
    CheckedOut,
    QrInvalid,
    QrExpired,
    StudentNotFound,
    ActivityNotFound,
    ActivityExpired,
    ActivityNotOngoing,
    AlreadyCheckedIn,
    AlreadyCompleted,
    NotCheckedIn,
    AlreadyCheckedOut,
    NotCheckedInYet,
}

impl ScanOutcome {
    /// The two outcomes that change the participation.
    pub open spec fn succeeded(self) -> bool {
        self is CheckedIn || self is CheckedOut
    }

    /// The machine-readable code of a negative outcome; empty for the two
    /// successes.
    pub open spec fn code(self) -> Seq<char> {
        match self {
            ScanOutcome::CheckedIn => Seq::empty(),
            ScanOutcome::CheckedOut => Seq::empty(),
            ScanOutcome::QrInvalid => "QR_INVALID"@,
            ScanOutcome::QrExpired => "QR_EXPIRED"@,
            ScanOutcome::StudentNotFound => "STUDENT_NOT_FOUND"@,
            ScanOutcome::ActivityNotFound => "ACTIVITY_NOT_FOUND"@,
            ScanOutcome::ActivityExpired => "ACTIVITY_EXPIRED"@,
            ScanOutcome::ActivityNotOngoing => "ACTIVITY_NOT_ONGOING"@,
            ScanOutcome::AlreadyCheckedIn => "ALREADY_CHECKED_IN"@,
            ScanOutcome::AlreadyCompleted => "ALREADY_COMPLETED"@,
            ScanOutcome::NotCheckedIn => "NOT_CHECKED_IN"@,
            ScanOutcome::AlreadyCheckedOut => "ALREADY_CHECKED_OUT"@,
            ScanOutcome::NotCheckedInYet => "NOT_CHECKED_IN_YET"@,
        }
    }

    /// The category of a negative outcome: a second check-in is benign, a
    /// check-in after check-out violates the order, everything else calls
    /// for another scan.
    pub open spec fn category(self) -> ErrorCategory {
        match self {
            ScanOutcome::AlreadyCheckedIn => ErrorCategory::Warning,
            ScanOutcome::AlreadyCompleted => ErrorCategory::FlowViolation,
            _ => ErrorCategory::Error,
        }
    }

    /// The technical message of a negative outcome. For a credential that
    /// is not accepted it is the description `detail` of what is wrong
    /// with it.
    pub open spec fn error_text(self, detail: Seq<char>) -> Seq<char> {
        match self {
            ScanOutcome::CheckedIn => Seq::empty(),
            ScanOutcome::CheckedOut => Seq::empty(),
            ScanOutcome::QrInvalid => detail,
            ScanOutcome::QrExpired => detail,
            ScanOutcome::StudentNotFound => "User not found"@,
            ScanOutcome::ActivityNotFound => "Activity not found"@,
            ScanOutcome::ActivityExpired => "Activity is no longer ongoing"@,
            ScanOutcome::ActivityNotOngoing => "Activity is not ongoing yet"@,
            ScanOutcome::AlreadyCheckedIn => "Already checked in"@,
            ScanOutcome::AlreadyCompleted => "Already checked out"@,
            ScanOutcome::NotCheckedIn => "Not checked in yet"@,
            ScanOutcome::AlreadyCheckedOut => "Cannot check out"@,
            ScanOutcome::NotCheckedInYet => "Cannot check out"@,
        }
    }

    /// The message for the operator, which names the principal where the
    /// scan got as far as a participation.
    pub open spec fn message(self, user_name: Seq<char>) -> Seq<char> {
        match self {
            ScanOutcome::CheckedIn => "เช็คอินสำเร็จ! ยินดีต้อนรับ "@ + user_name,
            ScanOutcome::CheckedOut => "เช็คเอาท์สำเร็จ! ขอบคุณ "@ + user_name + " ที่เข้าร่วมกิจกรรม"@,
            ScanOutcome::QrInvalid => "QR Code ไม่ถูกต้อง"@,
            ScanOutcome::QrExpired => "QR Code หมดอายุแล้ว กรุณาสร้างใหม่"@,
            ScanOutcome::StudentNotFound => "ไม่พบข้อมูลผู้ใช้ในระบบ"@,
            ScanOutcome::ActivityNotFound => "ไม่พบกิจกรรมนี้ในระบบ"@,
            ScanOutcome::ActivityExpired => "กิจกรรมนี้สิ้นสุดแล้ว"@,
            ScanOutcome::ActivityNotOngoing => "กิจกรรมยังไม่เปิดให้เช็คอิน"@,
            ScanOutcome::AlreadyCheckedIn => user_name + " เช็คอินไปแล้ว"@,
            ScanOutcome::AlreadyCompleted => user_name + " เช็คเอาท์ไปแล้ว ไม่สามารถเช็คอินซ้ำได้"@,
            ScanOutcome::NotCheckedIn => user_name + " ยังไม่ได้เช็คอิน"@,
            ScanOutcome::AlreadyCheckedOut => user_name + " เช็คเอาท์ไปแล้ว"@,
            ScanOutcome::NotCheckedInYet => user_name + " ยังไม่ได้เช็คอิน"@,
        }
    }

    /// Whether the scan changed the participation.
    pub fn is_success(&self) -> (r: bool)
        ensures
            r == self.succeeded(),
    {
        match self {
            ScanOutcome::CheckedIn => true,
            ScanOutcome::CheckedOut => true,
            _ => false,
        }
    }

    /// The machine-readable code.
    pub fn code_text(&self) -> (r: &'static str)
        ensures
            r@ == self.code(),
    {
        let r = match self {
            ScanOutcome::CheckedIn => "",
            ScanOutcome::CheckedOut => "",
            ScanOutcome::QrInvalid => "QR_INVALID",
            ScanOutcome::QrExpired => "QR_EXPIRED",
            ScanOutcome::StudentNotFound => "STUDENT_NOT_FOUND",
            ScanOutcome::ActivityNotFound => "ACTIVITY_NOT_FOUND",
            ScanOutcome::ActivityExpired => "ACTIVITY_EXPIRED",
            ScanOutcome::ActivityNotOngoing => "ACTIVITY_NOT_ONGOING",
            ScanOutcome::AlreadyCheckedIn => "ALREADY_CHECKED_IN",
            ScanOutcome::AlreadyCompleted => "ALREADY_COMPLETED",
            ScanOutcome::NotCheckedIn => "NOT_CHECKED_IN",
            ScanOutcome::AlreadyCheckedOut => "ALREADY_CHECKED_OUT",
            ScanOutcome::NotCheckedInYet => "NOT_CHECKED_IN_YET",
        };
        proof {
            reveal_strlit("");
            assert(""@ =~= Seq::<char>::empty());
        }
        r
    }

    /// The category of a negative outcome.
    pub fn category_of(&self) -> (r: ErrorCategory)
        ensures
            r == self.category(),
    {
        match self {
            ScanOutcome::AlreadyCheckedIn => ErrorCategory::Warning,
            ScanOutcome::AlreadyCompleted => ErrorCategory::FlowViolation,
            _ => ErrorCategory::Error,
        }
    }

    /// The technical message of a negative outcome.
    pub fn error_message(&self, detail: &str) -> (r: String)
        ensures
            r@ == self.error_text(detail@),
    {
        let r = match self {
            ScanOutcome::CheckedIn => String::from_str(""),
            ScanOutcome::CheckedOut => String::from_str(""),
            ScanOutcome::QrInvalid => String::from_str(detail),
            ScanOutcome::QrExpired => String::from_str(detail),
            ScanOutcome::StudentNotFound => String::from_str("User not found"),
            ScanOutcome::ActivityNotFound => String::from_str("Activity not found"),
            ScanOutcome::ActivityExpired => String::from_str("Activity is no longer ongoing"),
            ScanOutcome::ActivityNotOngoing => String::from_str("Activity is not ongoing yet"),
            ScanOutcome::AlreadyCheckedIn => String::from_str("Already checked in"),
            ScanOutcome::AlreadyCompleted => String::from_str("Already checked out"),
            ScanOutcome::NotCheckedIn => String::from_str("Not checked in yet"),
            ScanOutcome::AlreadyCheckedOut => String::from_str("Cannot check out"),
            ScanOutcome::NotCheckedInYet => String::from_str("Cannot check out"),
        };
        proof {
            reveal_strlit("");
            assert(""@ =~= Seq::<char>::empty());
        }
        r
    }

    /// The message for the operator.
    pub fn operator_message(&self, user_name: &str) -> (r: String)
        ensures
            r@ == self.message(user_name@),
    {
        match self {
            ScanOutcome::CheckedIn => concat2("เช็คอินสำเร็จ! ยินดีต้อนรับ ", user_name),
            ScanOutcome::CheckedOut => concat3("เช็คเอาท์สำเร็จ! ขอบคุณ ", user_name, " ที่เข้าร่วมกิจกรรม"),
            ScanOutcome::QrInvalid => String::from_str("QR Code ไม่ถูกต้อง"),
            ScanOutcome::QrExpired => String::from_str("QR Code หมดอายุแล้ว กรุณาสร้างใหม่"),
            ScanOutcome::StudentNotFound => String::from_str("ไม่พบข้อมูลผู้ใช้ในระบบ"),
            ScanOutcome::ActivityNotFound => String::from_str("ไม่พบกิจกรรมนี้ในระบบ"),
            ScanOutcome::ActivityExpired => String::from_str("กิจกรรมนี้สิ้นสุดแล้ว"),
            ScanOutcome::ActivityNotOngoing => String::from_str("กิจกรรมยังไม่เปิดให้เช็คอิน"),
            ScanOutcome::AlreadyCheckedIn => concat2(user_name, " เช็คอินไปแล้ว"),
            ScanOutcome::AlreadyCompleted => concat2(user_name, " เช็คเอาท์ไปแล้ว ไม่สามารถเช็คอินซ้ำได้"),
            ScanOutcome::NotCheckedIn => concat2(user_name, " ยังไม่ได้เช็คอิน"),
            ScanOutcome::AlreadyCheckedOut => concat2(user_name, " เช็คเอาท์ไปแล้ว"),
            ScanOutcome::NotCheckedInYet => concat2(user_name, " ยังไม่ได้เช็คอิน"),
        }
    }
}

/// The outcome as the scanning device receives it: success flag, message,
/// the snapshot `data` where there is one, and for a negative outcome its
/// code, technical message and category.
pub open spec fn reply_model(
    outcome: ScanOutcome,
    user_name: Seq<char>,
    data: Option<ScanQRDataModel>,
    detail: Seq<char>,
) -> ScanQRResponseModel {
    ScanQRResponseModel {
        success: outcome.succeeded(),
        message: outcome.message(user_name),
        data,
        error: if outcome.succeeded() {
            None
        } else {
            Some(
                ScanQRErrorModel {
                    code: outcome.code(),
                    message: outcome.error_text(detail),
                    category: outcome.category().name(),
                },
            )
        },
    }
}

/// Renders an outcome for the scanning device.
pub fn reply(outcome: ScanOutcome, user_name: &str, data: Option<ScanQRData>, detail: &str) -> (r:
    ScanQRResponse)
    ensures
        r.deep_view() == reply_model(outcome, user_name@, data.deep_view(), detail@),
{
    let error = if outcome.is_success() {
        None
    } else {
        Some(
            ScanQRError {
                code: String::from_str(outcome.code_text()),
                message: outcome.error_message(detail),
                category: String::from_str(outcome.category_of().as_str()),
            },
        )
    };
    ScanQRResponse {
        success: outcome.is_success(),
        message: outcome.operator_message(user_name),
        data,
        error,
    }
}

/// What the store tells the engine about the principal of a scan.
#[derive(Debug, Clone, PartialEq, Eq)]
pub struct ScanUser {
    pub first_name: String,
    pub last_name: String,
    pub student_id: String,
}

/// The mathematical value of a `ScanUser`.
pub struct ScanUserModel {
    pub first_name: Seq<char>,
    pub last_name: Seq<char>,
    pub student_id: Seq<char>,
}

impl DeepView for ScanUser {
    type V = ScanUserModel;

    open spec fn deep_view(&self) -> ScanUserModel {
        ScanUserModel {
            first_name: self.first_name@,
            last_name: self.last_name@,
            student_id: self.student_id@,
        }
    }
}

/// First and last name with a blank between.
pub open spec fn full_name(user: ScanUserModel) -> Seq<char> {
    user.first_name + " "@ + user.last_name
}

/// A change that a scan asks the store to make. Each carries the instant
/// that the store is to stamp.
#[derive(Debug, Clone, Copy, PartialEq, Eq, Structural)]
pub enum StoreWrite {
    /// Create the participation of a walk-in, checked in at once: status
    /// `checked_in`, registered and checked in at `at`.
    InsertCheckedIn { id: u128, user_id: u128, activity_id: u128, at: i64 },
    /// Set the participation `id` to `checked_in`, checked in at `at`.
    MarkCheckedIn { id: u128, at: i64 },
    /// Set the participation `id` to `checked_out`, checked out at `at`.
    MarkCheckedOut { id: u128, at: i64 },
}

/// What the store holds for a pair of principal and activity after a
/// write, where it held `current` before. An insert where a participation
/// exists, and a mark where the named one does not, change nothing.
pub open spec fn after_write(
    current: Option<ParticipationRecordModel>,
    write: StoreWrite,
) -> Option<ParticipationRecordModel> {
    match write {
        StoreWrite::InsertCheckedIn { id, user_id, activity_id, at } => match current {
            None => Some(
                ParticipationRecordModel {
                    id,
                    user_id,
                    activity_id,
                    status: "checked_in"@,
                    registered_at: Some(at),
                    checked_in_at: Some(at),
                    checked_out_at: None,
                    notes: None,
                },
            ),
            Some(_) => current,
        },
        StoreWrite::MarkCheckedIn { id, at } => match current {
            Some(record) => if record.id == id {
                Some(
                    ParticipationRecordModel {
                        status: "checked_in"@,
                        checked_in_at: Some(at),
                        ..record
                    },
                )
            } else {
                current
            },
            None => None,
        },
        StoreWrite::MarkCheckedOut { id, at } => match current {
            Some(record) => if record.id == id {
                Some(
                    ParticipationRecordModel {
                        status: "checked_out"@,
                        checked_out_at: Some(at),
                        ..record
                    },
                )
            } else {
                current
            },
            None => None,
        },
    }
}

impl StoreWrite {
    /// Carries out the write on what the store holds for the pair.
    pub fn apply(&self, current: Option<ParticipationRecord>) -> (r: Option<ParticipationRecord>)
        ensures
            r.deep_view() == after_write(current.deep_view(), *self),
    {
        match *self {
            StoreWrite::InsertCheckedIn { id, user_id, activity_id, at } => match current {
                None => Some(
                    ParticipationRecord {
                        id,
                        user_id,
                        activity_id,
                        status: String::from_str("checked_in"),
                        registered_at: Some(at),
                        checked_in_at: Some(at),
                        checked_out_at: None,
                        notes: None,
                    },
                ),
                Some(record) => Some(record),
            },
            StoreWrite::MarkCheckedIn { id, at } => match current {
                Some(record) => if record.id == id {
                    Some(
                        ParticipationRecord {
                            id: record.id,
                            user_id: record.user_id,
                            activity_id: record.activity_id,
                            status: String::from_str("checked_in"),
                            registered_at: record.registered_at,
                            checked_in_at: Some(at),
                            checked_out_at: record.checked_out_at,
                            notes: record.notes,
                        },
                    )
                } else {
                    Some(record)
                },
                None => None,
            },
            StoreWrite::MarkCheckedOut { id, at } => match current {
                Some(record) => if record.id == id {
                    Some(
                        ParticipationRecord {
                            id: record.id,
                            user_id: record.user_id,
                            activity_id: record.activity_id,
                            status: String::from_str("checked_out"),
                            registered_at: record.registered_at,
                            checked_in_at: record.checked_in_at,
                            checked_out_at: Some(at),
                            notes: record.notes,
                        },
                    )
                } else {
                    Some(record)
                },
                None => None,
            },
        }
    }
}

/// What the engine decides once it knows the participation: the outcome,
/// the snapshot for the reply, and the change to make, if any.
#[derive(Debug, Clone, PartialEq, Eq)]
pub struct Decision {
    pub outcome: ScanOutcome,
    pub data: Option<ScanQRData>,
    pub write: Option<StoreWrite>,
}

/// The mathematical value of a `Decision`.
pub struct DecisionModel {
    pub outcome: ScanOutcome,
    pub data: Option<ScanQRDataModel>,
    pub write: Option<StoreWrite>,
}

impl DeepView for Decision {
    type V = DecisionModel;

    open spec fn deep_view(&self) -> DecisionModel {
        DecisionModel { outcome: self.outcome, data: self.data.deep_view(), write: self.write }
    }
}

/// The snapshot of a participation as the store holds it.
pub open spec fn snapshot_of(user: ScanUserModel, record: ParticipationRecordModel) -> ScanQRDataModel {
    ScanQRDataModel {
        user_name: full_name(user),
        student_id: user.student_id,
        participation_status: record.status,
        checked_in_at: record.checked_in_at,
        checked_out_at: record.checked_out_at,
    }
}

/// The snapshot of a participation that the scan has just moved to
/// `status`.
pub open spec fn snapshot_moved(
    user: ScanUserModel,
    status: Seq<char>,
    checked_in_at: Option<i64>,
    checked_out_at: Option<i64>,
) -> ScanQRDataModel {
    ScanQRDataModel {
        user_name: full_name(user),
        student_id: user.student_id,
        participation_status: status,
        checked_in_at,
        checked_out_at,
    }
}

/// The transition table. `record` is the participation of `principal` in
/// `activity`, if there is one; `now` is the instant to stamp and
/// `fresh_id` the identifier for a participation that has to be created.
pub open spec fn transition(
    direction: ScanDirection,
    record: Option<ParticipationRecordModel>,
    user: ScanUserModel,
    principal: u128,
    activity: u128,
    now: i64,
    fresh_id: u128,
) -> DecisionModel {
    match direction {
        ScanDirection::CheckIn => match record {
            None => DecisionModel {
                outcome: ScanOutcome::CheckedIn,
                data: Some(snapshot_moved(user, "checked_in"@, Some(now), None)),
                write: Some(
                    StoreWrite::InsertCheckedIn {
                        id: fresh_id,
                        user_id: principal,
                        activity_id: activity,
                        at: now,
                    },
                ),
            },
            Some(r) => match phase_of(r.status) {
                Phase::CheckedIn => DecisionModel {
                    outcome: ScanOutcome::AlreadyCheckedIn,
                    data: Some(snapshot_of(user, r)),
                    write: None,
                },
                Phase::CheckedOut => DecisionModel {
                    outcome: ScanOutcome::AlreadyCompleted,
                    data: Some(snapshot_of(user, r)),
                    write: None,
                },
                Phase::Registered => DecisionModel {
                    outcome: ScanOutcome::CheckedIn,
                    data: Some(snapshot_moved(user, "checked_in"@, Some(now), None)),
                    write: Some(StoreWrite::MarkCheckedIn { id: r.id, at: now }),
                },
            },
        },
        ScanDirection::CheckOut => match record {
            None => DecisionModel { outcome: ScanOutcome::NotCheckedIn, data: None, write: None },
            Some(r) => match phase_of(r.status) {
                Phase::CheckedOut => DecisionModel {
                    outcome: ScanOutcome::AlreadyCheckedOut,
                    data: Some(snapshot_of(user, r)),
                    write: None,
                },
                Phase::Registered => DecisionModel {
                    outcome: ScanOutcome::NotCheckedInYet,
                    data: Some(snapshot_of(user, r)),
                    write: None,
                },
                Phase::CheckedIn => DecisionModel {
                    outcome: ScanOutcome::CheckedOut,
                    data: Some(snapshot_moved(user, "checked_out"@, r.checked_in_at, Some(now))),
                    write: Some(StoreWrite::MarkCheckedOut { id: r.id, at: now }),
                },
            },
        },
    }
}

/// First and last name with a blank between.
pub fn user_name(user: &ScanUser) -> (r: String)
    ensures
        r@ == full_name(user.deep_view()),
{
    concat3(user.first_name.as_str(), " ", user.last_name.as_str())
}

fn snapshot(user: &ScanUser, record: ParticipationRecord) -> (r: ScanQRData)
    ensures
        r.deep_view() == snapshot_of(user.deep_view(), record.deep_view()),
{
    ScanQRData {
        user_name: user_name(user),
        student_id: user.student_id.clone(),
        participation_status: record.status,
        checked_in_at: record.checked_in_at,
        checked_out_at: record.checked_out_at,
    }
}

fn moved(user: &ScanUser, status: &str, checked_in_at: Option<i64>, checked_out_at: Option<i64>) -> (r:
    ScanQRData)
    ensures
        r.deep_view() == snapshot_moved(user.deep_view(), status@, checked_in_at, checked_out_at),
{
    ScanQRData {
        user_name: user_name(user),
        student_id: user.student_id.clone(),
        participation_status: String::from_str(status),
        checked_in_at,
        checked_out_at,
    }
}

/// Applies the transition table.
pub fn decide(
    direction: ScanDirection,
    record: Option<ParticipationRecord>,
    user: &ScanUser,
    principal: u128,
    activity: u128,
    now: i64,
    fresh_id: u128,
) -> (r: Decision)
    ensures
        r.deep_view() == transition(
            direction,
            record.deep_view(),
            user.deep_view(),
            principal,
            activity,
            now,
            fresh_id,
        ),
{
    match direction {
        ScanDirection::CheckIn => match record {
            None => Decision {
                outcome: ScanOutcome::CheckedIn,
                data: Some(moved(user, "checked_in", Some(now), None)),
                write: Some(
                    StoreWrite::InsertCheckedIn {
                        id: fresh_id,
                        user_id: principal,
                        activity_id: activity,
                        at: now,
                    },
                ),
            },
            Some(r) => match read_phase(r.status.as_str()) {
                Phase::CheckedIn => Decision {
                    outcome: ScanOutcome::AlreadyCheckedIn,
                    data: Some(snapshot(user, r)),
                    write: None,
                },
                Phase::CheckedOut => Decision {
                    outcome: ScanOutcome::AlreadyCompleted,
                    data: Some(snapshot(user, r)),
                    write: None,
                },
                Phase::Registered => Decision {
                    outcome: ScanOutcome::CheckedIn,
                    data: Some(moved(user, "checked_in", Some(now), None)),
                    write: Some(StoreWrite::MarkCheckedIn { id: r.id, at: now }),
                },
            },
        },
        ScanDirection::CheckOut => match record {
            None => Decision { outcome: ScanOutcome::NotCheckedIn, data: None, write: None },
            Some(r) => match read_phase(r.status.as_str()) {
                Phase::CheckedOut => Decision {
                    outcome: ScanOutcome::AlreadyCheckedOut,
                    data: Some(snapshot(user, r)),
                    write: None,
                },
                Phase::Registered => Decision {
                    outcome: ScanOutcome::NotCheckedInYet,
                    data: Some(snapshot(user, r)),
                    write: None,
                },
                Phase::CheckedIn => Decision {
                    outcome: ScanOutcome::CheckedOut,
                    data: Some(moved(user, "checked_out", r.checked_in_at, Some(now))),
                    write: Some(StoreWrite::MarkCheckedOut { id: r.id, at: now }),
                },
            },
        },
    }
}

/// What the lifecycle status of the activity means for a scan: `None` lets
/// it go on, which only `ongoing` does. A finished or cancelled activity
/// has expired; a missing one is not found; every other status is not
/// ongoing.
pub open spec fn activity_gate(status: Option<Seq<char>>) -> Option<ScanOutcome> {
    match status {
        None => Some(ScanOutcome::ActivityNotFound),
        Some(s) => if s == "ongoing"@ {
            None
        } else if s == "completed"@ || s == "cancelled"@ {
            Some(ScanOutcome::ActivityExpired)
        } else {
            Some(ScanOutcome::ActivityNotOngoing)
        },
    }
}

/// Judges the lifecycle status of the activity.
pub fn check_activity(status: Option<&str>) -> (r: Option<ScanOutcome>)
    ensures
        r == activity_gate(status.deep_view()),
{
    match status {
        None => Some(ScanOutcome::ActivityNotFound),
        Some(s) => if same_text(s, "ongoing") {
            None
        } else if same_text(s, "completed") || same_text(s, "cancelled") {
            Some(ScanOutcome::ActivityExpired)
        } else {
            Some(ScanOutcome::ActivityNotOngoing)
        },
    }
}

/// The secret that scan credentials are signed with: the configured one,
/// or the word `secret` where none is configured.
pub open spec fn scan_secret(configured: Option<Seq<char>>) -> Seq<char> {
    match configured {
        Some(s) => s,
        None => "secret"@,
    }
}

/// Where one scan stands.
#[derive(Debug, Clone, PartialEq, Eq)]
pub enum ScanState {
    /// Nothing has happened yet.
    Start,
    /// The credential was accepted; the principal's profile is asked for.
    AwaitingUser { activity: u128, direction: ScanDirection, principal: u128 },
    /// The principal is known; the activity's status is asked for.
    AwaitingActivity { activity: u128, direction: ScanDirection, principal: u128, user: ScanUser },
    /// The activity is ongoing; the participation is asked for.
    AwaitingParticipation {
        activity: u128,
        direction: ScanDirection,
        principal: u128,
        user: ScanUser,
    },
    /// The change `write` was asked for; `reply` goes out once it is made.
    AwaitingWrite { reply: ScanQRResponse, user_name: String, write: StoreWrite },
    /// The scan has been answered.
    Done,
}

/// The mathematical value of a `ScanState`.
pub enum ScanStateModel {
    Start,
    AwaitingUser { activity: u128, direction: ScanDirection, principal: u128 },
    AwaitingActivity {
        activity: u128,
        direction: ScanDirection,
        principal: u128,
        user: ScanUserModel,
    },
    AwaitingParticipation {
        activity: u128,
        direction: ScanDirection,
        principal: u128,
        user: ScanUserModel,
    },
    AwaitingWrite { reply: ScanQRResponseModel, user_name: Seq<char>, write: StoreWrite },
    Done,
}

impl DeepView for ScanState {
    type V = ScanStateModel;

    open spec fn deep_view(&self) -> ScanStateModel {
        match self {
            ScanState::Start => ScanStateModel::Start,
            ScanState::AwaitingUser { activity, direction, principal } => {
                ScanStateModel::AwaitingUser {
                    activity: *activity,
                    direction: *direction,
                    principal: *principal,
                }
            },
            ScanState::AwaitingActivity { activity, direction, principal, user } => {
                ScanStateModel::AwaitingActivity {
                    activity: *activity,
                    direction: *direction,
                    principal: *principal,
                    user: user.deep_view(),
                }
            },
            ScanState::AwaitingParticipation { activity, direction, principal, user } => {
                ScanStateModel::AwaitingParticipation {
                    activity: *activity,
                    direction: *direction,
                    principal: *principal,
                    user: user.deep_view(),
                }
            },
            ScanState::AwaitingWrite { reply, user_name, write } => ScanStateModel::AwaitingWrite {
                reply: reply.deep_view(),
                user_name: user_name@,
                write: *write,
            },
            ScanState::Done => ScanStateModel::Done,
        }
    }
}

/// What has just happened in a scan.
#[derive(Debug, Clone, PartialEq, Eq)]
pub enum ScanEvent {
    /// A credential was presented for `activity`. `secret` is the
    /// configured signing secret and `now` the time in seconds since the
    /// Unix epoch.
    Scanned {
        activity: u128,
        qr_data: String,
        direction: ScanDirection,
        secret: Option<String>,
        now: u64,
    },
    /// The store looked up the principal.
    UserLoaded(Option<ScanUser>),
    /// The store looked up the status of the activity.
    ActivityLoaded(Option<String>),
    /// The store looked up the participation. `stamp` is the instant to stamp
    /// and `fresh_id` a new identifier, for the case that one is created.
    ParticipationLoaded { record: Option<ParticipationRecord>, stamp: i64, fresh_id: u128 },
    /// The store made the change.
    Written,
    /// The store did not make the change, because another scan made a
    /// participation for the pair in the meantime.
    Conflicted,
    /// The store failed, with its own description of the failure.
    StoreFailed(String),
}

/// The mathematical value of a `ScanEvent`.
pub enum ScanEventModel {
    Scanned {
        activity: u128,
        qr_data: Seq<char>,
        direction: ScanDirection,
        secret: Option<Seq<char>>,
        now: u64,
    },
    UserLoaded(Option<ScanUserModel>),
    ActivityLoaded(Option<Seq<char>>),
    ParticipationLoaded { record: Option<ParticipationRecordModel>, stamp: i64, fresh_id: u128 },
    Written,
    Conflicted,
    StoreFailed(Seq<char>),
}

impl DeepView for ScanEvent {
    type V = ScanEventModel;

    open spec fn deep_view(&self) -> ScanEventModel {
        match self {
            ScanEvent::Scanned { activity, qr_data, direction, secret, now } => {
                ScanEventModel::Scanned {
                    activity: *activity,
                    qr_data: qr_data@,
                    direction: *direction,
                    secret: secret.deep_view(),
                    now: *now,
                }
            },
            ScanEvent::UserLoaded(user) => ScanEventModel::UserLoaded(user.deep_view()),
            ScanEvent::ActivityLoaded(status) => ScanEventModel::ActivityLoaded(status.deep_view()),
            ScanEvent::ParticipationLoaded { record, stamp, fresh_id } => {
                ScanEventModel::ParticipationLoaded {
                    record: record.deep_view(),
                    stamp: *stamp,
                    fresh_id: *fresh_id,
                }
            },
            ScanEvent::Written => ScanEventModel::Written,
            ScanEvent::Conflicted => ScanEventModel::Conflicted,
            ScanEvent::StoreFailed(text) => ScanEventModel::StoreFailed(text@),
        }
    }
}

/// What is to be done next in a scan.
#[derive(Debug, Clone, PartialEq, Eq)]
pub enum ScanAction {
    /// Look up the profile of the principal.
    FetchUser { user: u128 },
    /// Look up the lifecycle status of the activity.
    FetchActivityStatus { activity: u128 },
    /// Look up the participation of the principal in the activity.
    FetchParticipation { user: u128, activity: u128 },
    /// Make the change.
    Write(StoreWrite),
    /// Answer the scan with this outcome. The scan is over.
    Reply(ScanQRResponse),
    /// Refuse the request with this status and message. The scan is over.
    Fail { status: u16, message: String },
}

/// The mathematical value of a `ScanAction`.
pub enum ScanActionModel {
    FetchUser { user: u128 },
    FetchActivityStatus { activity: u128 },
    FetchParticipation { user: u128, activity: u128 },
    Write(StoreWrite),
    Reply(ScanQRResponseModel),
    Fail { status: u16, message: Seq<char> },
}

impl DeepView for ScanAction {
    type V = ScanActionModel;

    open spec fn deep_view(&self) -> ScanActionModel {
        match self {
            ScanAction::FetchUser { user } => ScanActionModel::FetchUser { user: *user },
            ScanAction::FetchActivityStatus { activity } => ScanActionModel::FetchActivityStatus {
                activity: *activity,
            },
            ScanAction::FetchParticipation { user, activity } => {
                ScanActionModel::FetchParticipation { user: *user, activity: *activity }
            },
            ScanAction::Write(write) => ScanActionModel::Write(*write),
            ScanAction::Reply(reply) => ScanActionModel::Reply(reply.deep_view()),
            ScanAction::Fail { status, message } => ScanActionModel::Fail {
                status: *status,
                message: message@,
            },
        }
    }
}

/// The technical message in the reply of an action, empty where there is
/// none.
pub open spec fn reply_detail(action: ScanActionModel) -> Seq<char> {
    match action {
        ScanActionModel::Reply(reply) => match reply.error {
            Some(e) => e.message,
            None => Seq::empty(),
        },
        _ => Seq::empty(),
    }
}

/// The step for an event that the state does not wait for: a failure of
/// the store is passed on, anything else is refused.
pub open spec fn stray_step(event: ScanEventModel) -> (ScanStateModel, ScanActionModel) {
    match event {
        ScanEventModel::StoreFailed(text) => (
            ScanStateModel::Done,
            ScanActionModel::Fail { status: 500, message: text },
        ),
        _ => (
            ScanStateModel::Done,
            ScanActionModel::Fail { status: 500, message: "Unexpected event"@ },
        ),
    }
}

/// The first step: the credential is judged. `held` is its signed payload
/// and `detail` the description of a credential that is not soundly signed.
pub open spec fn credential_step(
    held: Option<Payload>,
    activity: u128,
    direction: ScanDirection,
    now: u64,
    detail: Seq<char>,
) -> (ScanStateModel, ScanActionModel) {
    match scan_verdict(held, now) {
        Err(VerifyError::Malformed) => (
            ScanStateModel::Done,
            ScanActionModel::Reply(
                reply_model(
                    ScanOutcome::QrInvalid,
                    Seq::empty(),
                    None,
                    if held is None {
                        detail
                    } else {
                        "InvalidClaims"@
                    },
                ),
            ),
        ),
        Err(VerifyError::Expired) => (
            ScanStateModel::Done,
            ScanActionModel::Reply(
                reply_model(ScanOutcome::QrExpired, Seq::empty(), None, "ExpiredSignature"@),
            ),
        ),
        Ok(claims) => match uuid_value(claims.sub) {
            None => (
                ScanStateModel::Done,
                ScanActionModel::Fail { status: 400, message: "Invalid user ID in QR"@ },
            ),
            Some(principal) => (
                ScanStateModel::AwaitingUser { activity, direction, principal },
                ScanActionModel::FetchUser { user: principal },
            ),
        },
    }
}

/// The step after the participation is known.
pub open spec fn participation_step(
    decision: DecisionModel,
    user: ScanUserModel,
) -> (ScanStateModel, ScanActionModel) {
    let reply = reply_model(decision.outcome, full_name(user), decision.data, Seq::empty());
    match decision.write {
        Some(write) => (
            ScanStateModel::AwaitingWrite { reply, user_name: full_name(user), write },
            ScanActionModel::Write(write),
        ),
        None => (ScanStateModel::Done, ScanActionModel::Reply(reply)),
    }
}

/// The step where the store did not make the change `write` because the
/// pair of principal and activity already has a participation. Only the
/// creation of a participation can meet one: another check-in came first,
/// and this one is answered as a second check-in. A change to a
/// participation that is there meets none, so for it the event is
/// unexpected.
pub open spec fn conflict_step(write: StoreWrite, user_name: Seq<char>) -> (
    ScanStateModel,
    ScanActionModel,
) {
    match write {
        StoreWrite::InsertCheckedIn { .. } => (
            ScanStateModel::Done,
            ScanActionModel::Reply(
                reply_model(ScanOutcome::AlreadyCheckedIn, user_name, None, Seq::empty()),
            ),
        ),
        _ => stray_step(ScanEventModel::Conflicted),
    }
}

/// One step of a scan: the next state and what is to be done, for a state
/// and what has just happened. `detail` is the description that goes with
/// a credential that is not soundly signed.
pub open spec fn scan_step(state: ScanStateModel, event: ScanEventModel, detail: Seq<char>) -> (
    ScanStateModel,
    ScanActionModel,
) {
    match (state, event) {
        (
            ScanStateModel::Start,
            ScanEventModel::Scanned { activity, qr_data, direction, secret, now },
        ) => credential_step(
            signed_payload(qr_data, scan_secret(secret)),
            activity,
            direction,
            now,
            detail,
        ),
        (
            ScanStateModel::AwaitingUser { activity, direction, principal },
            ScanEventModel::UserLoaded(found),
        ) => match found {
            None => (
                ScanStateModel::Done,
                ScanActionModel::Reply(
                    reply_model(ScanOutcome::StudentNotFound, Seq::empty(), None, Seq::empty()),
                ),
            ),
            Some(user) => (
                ScanStateModel::AwaitingActivity { activity, direction, principal, user },
                ScanActionModel::FetchActivityStatus { activity },
            ),
        },
        (
            ScanStateModel::AwaitingActivity { activity, direction, principal, user },
            ScanEventModel::ActivityLoaded(status),
        ) => match activity_gate(status) {
            Some(outcome) => (
                ScanStateModel::Done,
                ScanActionModel::Reply(reply_model(outcome, Seq::empty(), None, Seq::empty())),
            ),
            None => (
                ScanStateModel::AwaitingParticipation { activity, direction, principal, user },
                ScanActionModel::FetchParticipation { user: principal, activity },
            ),
        },
        (
            ScanStateModel::AwaitingParticipation { activity, direction, principal, user },
            ScanEventModel::ParticipationLoaded { record, stamp, fresh_id },
        ) => participation_step(
            transition(direction, record, user, principal, activity, stamp, fresh_id),
            user,
        ),
        (ScanStateModel::AwaitingWrite { reply, user_name, write }, ScanEventModel::Written) => (
            ScanStateModel::Done,
            ScanActionModel::Reply(reply),
        ),
        (ScanStateModel::AwaitingWrite { reply, user_name, write }, ScanEventModel::Conflicted) => {
            conflict_step(write, user_name)
        },
        (_, other) => stray_step(other),
    }
}

fn stray(event: ScanEvent) -> (r: (ScanState, ScanAction))
    ensures
        (r.0.deep_view(), r.1.deep_view()) == stray_step(event.deep_view()),
{
    match event {
        ScanEvent::StoreFailed(text) => (ScanState::Done, ScanAction::Fail { status: 500, message: text }),
        _ => (
            ScanState::Done,
            ScanAction::Fail { status: 500, message: String::from_str("Unexpected event") },
        ),
    }
}

/// Judges the payload of a presented credential, or the description of why
/// it has no sound payload, at time `now`.
pub fn judge_credential(
    opened: Result<Vec<(String, ClaimValue)>, String>,
    activity: u128,
    direction: ScanDirection,
    now: u64,
) -> (r: (ScanState, ScanAction))
    ensures
        (r.0.deep_view(), r.1.deep_view()) == credential_step(
            match opened {
                Ok(payload) => Some(payload.deep_view()),
                Err(_) => None,
            },
            activity,
            direction,
            now,
            match opened {
                Ok(_) => Seq::empty(),
                Err(text) => text@,
            },
        ),
{
    proof {
        reveal_strlit("");
        assert(""@ =~= Seq::<char>::empty());
    }
    match opened {
        Err(text) => (
            ScanState::Done,
            ScanAction::Reply(reply(ScanOutcome::QrInvalid, "", None, text.as_str())),
        ),
        Ok(payload) => match judge_scan(&payload, now) {
            Err(VerifyError::Malformed) => (
                ScanState::Done,
                ScanAction::Reply(reply(ScanOutcome::QrInvalid, "", None, "InvalidClaims")),
            ),
            Err(VerifyError::Expired) => (
                ScanState::Done,
                ScanAction::Reply(reply(ScanOutcome::QrExpired, "", None, "ExpiredSignature")),
            ),
            Ok(claims) => match parse_id(claims.sub.as_str()) {
                None => (
                    ScanState::Done,
                    ScanAction::Fail {
                        status: 400,
                        message: String::from_str("Invalid user ID in QR"),
                    },
                ),
                Some(principal) => (
                    ScanState::AwaitingUser { activity, direction, principal },
                    ScanAction::FetchUser { user: principal },
                ),
            },
        },
    }
}

/// Takes the first step of a scan: opens the presented credential under
/// the secret for scan credentials and judges it at time `now`.
pub fn begin_scan(
    activity: u128,
    qr_data: &str,
    direction: ScanDirection,
    secret: Option<&str>,
    now: u64,
) -> (r: (ScanState, ScanAction))
    ensures
        (r.0.deep_view(), r.1.deep_view()) == scan_step(
            ScanStateModel::Start,
            ScanEventModel::Scanned {
                activity,
                qr_data: qr_data@,
                direction,
                secret: secret.deep_view(),
                now,
            },
            reply_detail(r.1.deep_view()),
        ),
{
    proof {
        reveal_strlit("");
        assert(""@ =~= Seq::<char>::empty());
    }
    let opened = match secret {
        Some(s) => open(qr_data, s),
        None => open(qr_data, "secret"),
    };
    judge_credential(opened, activity, direction, now)
}

/// Takes one step of a scan. The caller carries out the action that comes
/// back and reports what happened as the next event, until the action is a
/// reply or a refusal.
pub fn scan_qr(state: ScanState, event: ScanEvent) -> (r: (ScanState, ScanAction))
    ensures
        (r.0.deep_view(), r.1.deep_view()) == scan_step(
            state.deep_view(),
            event.deep_view(),
            reply_detail(r.1.deep_view()),
        ),
{
    proof {
        reveal_strlit("");
        assert(""@ =~= Seq::<char>::empty());
    }
    match state {
        ScanState::Start => match event {
            ScanEvent::Scanned { activity, qr_data, direction, secret, now } => match &secret {
                Some(s) => begin_scan(activity, qr_data.as_str(), direction, Some(s.as_str()), now),
                None => begin_scan(activity, qr_data.as_str(), direction, None, now),
            },
            other => stray(other),
        },
        ScanState::AwaitingUser { activity, direction, principal } => match event {
            ScanEvent::UserLoaded(None) => (
                ScanState::Done,
                ScanAction::Reply(reply(ScanOutcome::StudentNotFound, "", None, "")),
            ),
            ScanEvent::UserLoaded(Some(user)) => (
                ScanState::AwaitingActivity { activity, direction, principal, user },
                ScanAction::FetchActivityStatus { activity },
            ),
            other => stray(other),
        },
        ScanState::AwaitingActivity { activity, direction, principal, user } => match event {
            ScanEvent::ActivityLoaded(status) => {
                let gate = match &status {
                    Some(s) => check_activity(Some(s.as_str())),
                    None => check_activity(None),
                };
                match gate {
                    Some(outcome) => (
                        ScanState::Done,
                        ScanAction::Reply(reply(outcome, "", None, "")),
                    ),
                    None => (
                        ScanState::AwaitingParticipation { activity, direction, principal, user },
                        ScanAction::FetchParticipation { user: principal, activity },
                    ),
                }
            },
            other => stray(other),
        },
        ScanState::AwaitingParticipation { activity, direction, principal, user } => match event {
            ScanEvent::ParticipationLoaded { record, stamp, fresh_id } => {
                let decision = decide(direction, record, &user, principal, activity, stamp, fresh_id);
                let name = user_name(&user);
                let answer = reply(decision.outcome, name.as_str(), decision.data, "");
                match decision.write {
                    Some(write) => (
                        ScanState::AwaitingWrite { reply: answer, user_name: name, write },
                        ScanAction::Write(write),
                    ),
                    None => (ScanState::Done, ScanAction::Reply(answer)),
                }
            },
            other => stray(other),
        },
        ScanState::AwaitingWrite { reply: answer, user_name, write } => match event {
            ScanEvent::Written => (ScanState::Done, ScanAction::Reply(answer)),
            ScanEvent::Conflicted => match write {
                StoreWrite::InsertCheckedIn { .. } => (
                    ScanState::Done,
                    ScanAction::Reply(
                        reply(ScanOutcome::AlreadyCheckedIn, user_name.as_str(), None, ""),
                    ),
                ),
                _ => stray(ScanEvent::Conflicted),
            },
            other => stray(other),
        },
        ScanState::Done => stray(event),
    }
}

/// Whether `r` is how a scan request at a venue begins. Only staff may
/// scan: a request that is not from staff is refused as `scan_actor`
/// refuses it, whatever credential it presents, and nothing is looked up.
/// For a request from staff the presented credential is judged, which is
/// the first step of the scan.
pub open spec fn gated_scan(
    headers: AuthHeadersModel,
    secret: Option<Seq<char>>,
    now: u64,
    activity: u128,
    qr_data: Seq<char>,
    direction: ScanDirection,
    r: Result<(ScanState, ScanAction), (u16, String)>,
) -> bool {
    match scan_actor(headers, secret, now) {
        Err(refusal) => r matches Err((status, message)) && (status, message@) == refusal,
        Ok(_) => r matches Ok(step) && (step.0.deep_view(), step.1.deep_view()) == scan_step(
            ScanStateModel::Start,
            ScanEventModel::Scanned { activity, qr_data, direction, secret, now },
            reply_detail(step.1.deep_view()),
        ),
    }
}

fn gated(
    headers: &AuthHeaders,
    secret: Option<&str>,
    now: u64,
    activity: u128,
    request: &ScanQRRequest,
    direction: ScanDirection,
) -> (r: Result<(ScanState, ScanAction), (u16, String)>)
    ensures
        gated_scan(
            headers.deep_view(),
            secret.deep_view(),
            now,
            activity,
            request.qr_data@,
            direction,
            r,
        ),
{
    match authorize_scan(headers, secret, now) {
        Err(refusal) => Err(refusal),
        Ok(_) => Ok(begin_scan(activity, request.qr_data.as_str(), direction, secret, now)),
    }
}

/// Begins a check-in scan for `activity`, for a request from staff. The
/// scan goes on with `scan_qr` from the state and the action that come
/// back.
pub fn checkin_handler(
    headers: &AuthHeaders,
    secret: Option<&str>,
    now: u64,
    activity: u128,
    request: &ScanQRRequest,
) -> (r: Result<(ScanState, ScanAction), (u16, String)>)
    ensures
        gated_scan(
            headers.deep_view(),
            secret.deep_view(),
            now,
            activity,
            request.qr_data@,
            ScanDirection::CheckIn,
            r,
        ),
{
    gated(headers, secret, now, activity, request, ScanDirection::CheckIn)
}

/// Begins a check-out scan for `activity`, for a request from staff. The
/// scan goes on with `scan_qr` from the state and the action that come
/// back.
pub fn checkout_handler(
    headers: &AuthHeaders,
    secret: Option<&str>,
    now: u64,
    activity: u128,
    request: &ScanQRRequest,
) -> (r: Result<(ScanState, ScanAction), (u16, String)>)
    ensures
        gated_scan(
            headers.deep_view(),
            secret.deep_view(),
            now,
            activity,
            request.qr_data@,
            ScanDirection::CheckOut,
            r,
        ),
{
    gated(headers, secret, now, activity, request, ScanDirection::CheckOut)
}

} // verus!
