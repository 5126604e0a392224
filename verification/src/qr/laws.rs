//! What holds of every scan, whatever the credential, the store and the
//! clock say.

use vstd::prelude::*;
use crate::activities::ParticipationRecordModel;
use crate::codec::signed_payload;
use crate::ident::uuid_value;
use crate::qr::scan::{
    after_write, phase_of, scan_secret, scan_step, Phase, ScanActionModel,
    ScanDirection, ScanEventModel, ScanStateModel, ScanUserModel, StoreWrite,
};
use crate::qr::token::scan_verdict;

verus! {

/// What the attendance store holds that one scan reads: the profile of the
/// principal, the status of the activity, and the participation of the
/// principal in the activity.
pub struct StoreAnswers {
    pub user: Option<ScanUserModel>,
    pub activity_status: Option<Seq<char>>,
    pub participation: Option<ParticipationRecordModel>,
}

/// How one scan ended: the action that closed it, and the change that the
/// store made on the way, if any.
pub struct ScanRun {
    pub answer: ScanActionModel,
    pub write: Option<StoreWrite>,
}

/// A whole scan against a store that answers every question from `store`
/// and makes every change it is asked for. `stamp` and `fresh_id` are the
/// instant and the new identifier that come with the participation.
pub open spec fn scan_run(
    request: ScanEventModel,
    store: StoreAnswers,
    stamp: i64,
    fresh_id: u128,
    detail: Seq<char>,
) -> ScanRun {
    let (s1, a1) = scan_step(ScanStateModel::Start, request, detail);
    if !(a1 is FetchUser) {
        ScanRun { answer: a1, write: None }
    } else {
        let (s2, a2) = scan_step(s1, ScanEventModel::UserLoaded(store.user), detail);
        if !(a2 is FetchActivityStatus) {
            ScanRun { answer: a2, write: None }
        } else {
            let (s3, a3) = scan_step(
                s2,
                ScanEventModel::ActivityLoaded(store.activity_status),
                detail,
            );
            if !(a3 is FetchParticipation) {
                ScanRun { answer: a3, write: None }
            } else {
                let (s4, a4) = scan_step(
                    s3,
                    ScanEventModel::ParticipationLoaded {
                        record: store.participation,
                        stamp,
                        fresh_id,
                    },
                    detail,
                );
                match a4 {
                    ScanActionModel::Write(w) => ScanRun {
                        answer: scan_step(s4, ScanEventModel::Written, detail).1,
                        write: Some(w),
                    },
                    _ => ScanRun { answer: a4, write: None },
                }
            }
        }
    }
}

/// The principal that the credential of a request names, where the
/// credential is accepted at the time of the request.
pub open spec fn principal_of(request: ScanEventModel) -> Option<u128> {
    match request {
        ScanEventModel::Scanned { qr_data, secret, now, .. } => match scan_verdict(
            signed_payload(qr_data, scan_secret(secret)),
            now,
        ) {
            Ok(claims) => uuid_value(claims.sub),
            Err(_) => None,
        },
        _ => None,
    }
}

/// The scan gets as far as the participation: the credential is accepted
/// and names a principal, the principal is known, and the activity is
/// ongoing.
pub open spec fn reaches_participation(request: ScanEventModel, store: StoreAnswers) -> bool {
    principal_of(request) is Some && store.user is Some && store.activity_status == Some(
        "ongoing"@,
    )
}

/// The code of the negative outcome that closed a scan.
pub open spec fn answered_code(run: ScanRun, code: Seq<char>) -> bool {
    run.answer matches ScanActionModel::Reply(reply) && (!reply.success && (reply.error matches Some(
        e,
    ) && e.code == code))
}

/// The scan was answered with success.
pub open spec fn answered_success(run: ScanRun) -> bool {
    run.answer matches ScanActionModel::Reply(reply) && (reply.success && reply.error is None)
}

/// The words that the store keeps for the status of a participation and
/// of an activity are all different.
proof fn lemma_status_words()
    ensures
        "checked_in"@ != "checked_out"@,
        "ongoing"@ != "draft"@,
        "ongoing"@ != "published"@,
        "ongoing"@ != "completed"@,
        "ongoing"@ != "cancelled"@,
        "draft"@ != "published"@,
        "draft"@ != "completed"@,
        "draft"@ != "cancelled"@,
        "published"@ != "completed"@,
        "published"@ != "cancelled"@,
        "completed"@ != "cancelled"@,
{
    reveal_strlit("checked_in");
    reveal_strlit("checked_out");
    reveal_strlit("ongoing");
    reveal_strlit("draft");
    reveal_strlit("published");
    reveal_strlit("completed");
    reveal_strlit("cancelled");
    assert("checked_in"@.len() == 10);
    assert("checked_out"@.len() == 11);
    assert("ongoing"@.len() == 7);
    assert("draft"@.len() == 5);
    assert("published"@.len() == 9);
    assert("completed"@.len() == 9);
    assert("cancelled"@.len() == 9);
    assert("published"@[0] != "completed"@[0]);
    assert("published"@[0] != "cancelled"@[0]);
    assert("completed"@[1] != "cancelled"@[1]);
}

/// A check-in for a pair of principal and activity that has no
/// participation creates one in `checked_in`, registered and checked in at
/// the same instant, and succeeds. A second check-in right after it is
/// answered `ALREADY_CHECKED_IN` and changes nothing.
pub proof fn law_first_check_in(
    request: ScanEventModel,
    again: ScanEventModel,
    store: StoreAnswers,
    stamp: i64,
    fresh_id: u128,
    later: i64,
    other_id: u128,
    detail: Seq<char>,
)
    requires
        request matches ScanEventModel::Scanned { direction, .. } && direction
            == ScanDirection::CheckIn,
        again matches ScanEventModel::Scanned { direction, .. } && direction
            == ScanDirection::CheckIn,
        reaches_participation(request, store),
        reaches_participation(again, store),
        store.participation is None,
    ensures
        answered_success(scan_run(request, store, stamp, fresh_id, detail)),
        scan_run(request, store, stamp, fresh_id, detail).write == Some(
            StoreWrite::InsertCheckedIn {
                id: fresh_id,
                user_id: principal_of(request)->0,
                activity_id: request->activity,
                at: stamp,
            },
        ),
        ({
            let created = after_write(
                None,
                scan_run(request, store, stamp, fresh_id, detail).write->0,
            );
            let run = scan_run(
                again,
                StoreAnswers { participation: created, ..store },
                later,
                other_id,
                detail,
            );
            &&& created matches Some(record) && phase_of(record.status) == Phase::CheckedIn
                && record.registered_at == Some(stamp) && record.checked_in_at == Some(stamp)
            &&& answered_code(run, "ALREADY_CHECKED_IN"@)
            &&& run.write is None
        }),
{
    lemma_status_words();
}

/// A check-out for a participation that was never checked in is answered
/// `NOT_CHECKED_IN` where there is no participation and
/// `NOT_CHECKED_IN_YET` where it is only registered, and changes nothing.
pub proof fn law_check_out_before_check_in(
    request: ScanEventModel,
    store: StoreAnswers,
    stamp: i64,
    fresh_id: u128,
    detail: Seq<char>,
)
    requires
        request matches ScanEventModel::Scanned { direction, .. } && direction
            == ScanDirection::CheckOut,
        reaches_participation(request, store),
        store.participation matches Some(record) ==> phase_of(record.status) == Phase::Registered,
    ensures
        store.participation is None ==> answered_code(
            scan_run(request, store, stamp, fresh_id, detail),
            "NOT_CHECKED_IN"@,
        ),
        store.participation is Some ==> answered_code(
            scan_run(request, store, stamp, fresh_id, detail),
            "NOT_CHECKED_IN_YET"@,
        ),
        scan_run(request, store, stamp, fresh_id, detail).write is None,
{
    lemma_status_words();
}

/// A check-in for a participation that is checked out is answered
/// `ALREADY_COMPLETED` and changes nothing: attendance is not opened again.
pub proof fn law_check_in_after_check_out(
    request: ScanEventModel,
    store: StoreAnswers,
    stamp: i64,
    fresh_id: u128,
    detail: Seq<char>,
)
    requires
        request matches ScanEventModel::Scanned { direction, .. } && direction
            == ScanDirection::CheckIn,
        reaches_participation(request, store),
        store.participation matches Some(record) && phase_of(record.status) == Phase::CheckedOut,
    ensures
        answered_code(scan_run(request, store, stamp, fresh_id, detail), "ALREADY_COMPLETED"@),
        scan_run(request, store, stamp, fresh_id, detail).write is None,
{
    lemma_status_words();
}

/// A scan against an activity in `draft`, `published`, `completed` or
/// `cancelled` changes no participation, whatever the credential, the
/// principal and the participation are. The same holds of every activity
/// that is not ongoing, and of a missing one.
pub proof fn law_no_change_unless_ongoing(
    request: ScanEventModel,
    store: StoreAnswers,
    stamp: i64,
    fresh_id: u128,
    detail: Seq<char>,
)
    ensures
        store.activity_status == Some("draft"@) || store.activity_status == Some("published"@)
            || store.activity_status == Some("completed"@) || store.activity_status == Some(
            "cancelled"@,
        ) ==> scan_run(request, store, stamp, fresh_id, detail).write is None,
        store.activity_status != Some("ongoing"@) ==> scan_run(
            request,
            store,
            stamp,
            fresh_id,
            detail,
        ).write is None,
{
    lemma_status_words();
}

/// A scan changes a participation only along the three transitions: it
/// creates one, checked in, where there is none and the direction is
/// check-in; it checks in one that is registered; it checks out one that is
/// checked in. The instant stamped is the one that came with the
/// participation.
pub proof fn law_changes_follow_transitions(
    request: ScanEventModel,
    store: StoreAnswers,
    stamp: i64,
    fresh_id: u128,
    detail: Seq<char>,
)
    ensures
        match scan_run(request, store, stamp, fresh_id, detail).write {
            None => true,
            Some(StoreWrite::InsertCheckedIn { id, user_id, activity_id, at }) => {
                &&& request matches ScanEventModel::Scanned { direction, activity, .. }
                    && direction == ScanDirection::CheckIn && activity == activity_id
                &&& store.participation is None
                &&& reaches_participation(request, store)
                &&& principal_of(request) == Some(user_id)
                &&& id == fresh_id
                &&& at == stamp
            },
            Some(StoreWrite::MarkCheckedIn { id, at }) => {
                &&& request matches ScanEventModel::Scanned { direction, .. } && direction
                    == ScanDirection::CheckIn
                &&& store.participation matches Some(record) && record.id == id && phase_of(
                    record.status,
                ) == Phase::Registered
                &&& reaches_participation(request, store)
                &&& at == stamp
            },
            Some(StoreWrite::MarkCheckedOut { id, at }) => {
                &&& request matches ScanEventModel::Scanned { direction, .. } && direction
                    == ScanDirection::CheckOut
                &&& store.participation matches Some(record) && record.id == id && phase_of(
                    record.status,
                ) == Phase::CheckedIn
                &&& reaches_participation(request, store)
                &&& at == stamp
            },
        },
{
    lemma_status_words();
}

} // verus!
