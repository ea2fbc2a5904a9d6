//! Resolving proposed changes.

use super::{group_opened, leads_to, made, opened, refused, success, told, warning};
use super::fields::{
    all_replies, leaves, lemma_diff_ends, lemma_takes_effect, lemma_updates_say_what_was_changed,
    moves_at, says, takes_effect, touches_account,
};
use crate::asks::time_asked;
use crate::config::ConfigModel;
use crate::effects::{Asked, EffectModel, OutcomeModel, ReplyModel, StepModel};
use crate::error::{AppErrorModel, ProviderErrorModel};
use crate::laws::{group_skip, performs};
use crate::laws::queue::{change_of, lemma_diff_calls_the_provider};
use crate::laws::steady::{lemma_steady_admin_form, lemma_steady_lock, used};
use crate::portal::{response, settled, RequestModel};
use crate::provider::{GroupModel, ProviderCallModel, UpdateUserModel};
use crate::routes::{admin_form_checked, session_required};
use crate::routes::changes::{
    approval_asked, cancellation_asked, change_approved, change_cancelled, change_locked,
    change_rejected, rejection_asked, resolution_stored, resolved, ConfirmFormModel, RejectFormModel,
};
use crate::script::Ask;
use crate::service::changes::{diff_applied, update_of};
use crate::session::{FlashModel, Role, SessionUserModel};
use crate::storage::{ChangeStatus, PendingChangeModel, StorageAnswerModel, StorageCallModel};
use crate::time::{StampModel, Timestamp};
use vstd::prelude::*;

verus! {

broadcast use {group_opened, group_skip};

/// The effect that takes the lock of a change.
pub open spec fn lock_of(id: Seq<char>) -> EffectModel {
    EffectModel::Lock { key: "grafter:change-lock:"@ + id, seconds: 30 }
}

/// The effect that gives the lock of a change back.
pub open spec fn unlock_of(id: Seq<char>) -> EffectModel {
    EffectModel::Unlock { key: "grafter:change-lock:"@ + id }
}

/// The replies that say that the lock was taken, and what the change is that was read.
pub open spec fn locked(change: PendingChangeModel) -> Seq<ReplyModel> {
    seq![
        ReplyModel::Locked(true),
        ReplyModel::Storage(StorageAnswerModel::Change(Some(change))),
    ]
}

/// A request about a change takes its lock, and reads it under the lock. Who does not get the
/// lock is told so; a change that is not there, or has been resolved, is left alone.
pub open spec fn looks_first(
    config: ConfigModel,
    request: RequestModel,
    head: Seq<ReplyModel>,
    id: Seq<char>,
) -> bool {
    let busy = head.push(ReplyModel::Locked(false));
    let taken = head.push(ReplyModel::Locked(true));
    let missing = ReplyModel::Storage(StorageAnswerModel::Change(None));
    &&& performs(config, request, head, lock_of(id))
    &&& performs(
        config,
        request,
        busy,
        EffectModel::StoreFlash(warning("This change is being processed."@)),
    )
    &&& leads_to(config, request, busy.push(ReplyModel::Done), "/changes"@)
    &&& performs(
        config,
        request,
        taken,
        EffectModel::Storage(StorageCallModel::GetChange { id }),
    )
    &&& refused(config, request, taken.push(missing), AppErrorModel::NotFound("change "@ + id))
}

/// A change that has been resolved before is left alone, and its lock given back.
pub open spec fn leaves_alone(
    config: ConfigModel,
    request: RequestModel,
    start: Seq<ReplyModel>,
    id: Seq<char>,
    any: ReplyModel,
) -> bool {
    let freed = start.push(any);
    &&& performs(config, request, start, unlock_of(id))
    &&& performs(
        config,
        request,
        freed,
        EffectModel::StoreFlash(warning("This change has already been processed."@)),
    )
    &&& leads_to(config, request, freed.push(ReplyModel::Done), "/changes"@)
}

/// After `start` the time is read, and the record of a change rewritten: it now says what
/// became of the change, by whom and when, and else what it said before. Then the lock is given
/// back, the log told, and the user. A record that cannot be rewritten ends the request, and
/// the lock is kept.
pub open spec fn is_settled(
    config: ConfigModel,
    request: RequestModel,
    start: Seq<ReplyModel>,
    user: SessionUserModel,
    change: PendingChangeModel,
    status: ChangeStatus,
    reason: Option<Seq<char>>,
    id: Seq<char>,
    action: Seq<char>,
    detail: Seq<char>,
    message: FlashModel,
    now: Timestamp,
    any: ReplyModel,
    stamp: StampModel,
    problem: Seq<char>,
) -> bool {
    let timed = start.push(ReplyModel::Time(now));
    let record = PendingChangeModel {
        id: change.id,
        realm: change.realm,
        user_id: change.user_id,
        username: change.username,
        proposed_by: change.proposed_by,
        proposed_at: change.proposed_at,
        status,
        resolved_by: Some(user.username),
        resolved_at: Some(now),
        reject_reason: reason,
        diff: change.diff,
        action: change.action,
    };
    let saved = timed.push(ReplyModel::Storage(StorageAnswerModel::Done));
    let freed = saved.push(any);
    let drawn = freed.push(ReplyModel::Stamp(stamp));
    let logged = drawn.push(ReplyModel::Storage(StorageAnswerModel::Done));
    let lost = ReplyModel::Storage(StorageAnswerModel::Failed(problem));
    &&& performs(config, request, start, EffectModel::ReadClock)
    &&& performs(
        config,
        request,
        timed,
        EffectModel::Storage(StorageCallModel::SaveChange(record)),
    )
    &&& refused(config, request, timed.push(lost), AppErrorModel::Internal(problem))
    &&& performs(config, request, saved, unlock_of(id))
    &&& performs(config, request, freed, EffectModel::NewStamp)
    &&& performs(
        config,
        request,
        drawn,
        told(stamp, user.username, action, change.realm, Some(change.username), detail),
    )
    &&& refused(config, request, drawn.push(lost), AppErrorModel::Internal(problem))
    &&& performs(config, request, logged, EffectModel::StoreFlash(message))
    &&& leads_to(config, request, logged.push(ReplyModel::Done), "/changes"@)
}

/// What is left of a request when the record of a change is to be rewritten.
spec fn settling(
    user: SessionUserModel,
    change: PendingChangeModel,
    status: ChangeStatus,
    reason: Option<Seq<char>>,
    id: Seq<char>,
    action: Seq<char>,
    detail: Seq<char>,
    message: FlashModel,
    tail: Seq<ReplyModel>,
) -> Asked<OutcomeModel> {
    match time_asked(tail) {
        Ask::Stop(stop) => Ask::Stop(stop),
        Ask::Got(now, rest) => resolution_stored(
            id,
            resolved(change, status, user.username, now, reason),
            user.username,
            action,
            detail,
            message,
            rest,
        ),
    }
}

proof fn lemma_is_settled(
    config: ConfigModel,
    request: RequestModel,
    start: Seq<ReplyModel>,
    user: SessionUserModel,
    change: PendingChangeModel,
    status: ChangeStatus,
    reason: Option<Seq<char>>,
    id: Seq<char>,
    action: Seq<char>,
    detail: Seq<char>,
    message: FlashModel,
    now: Timestamp,
    any: ReplyModel,
    stamp: StampModel,
    problem: Seq<char>,
)
    requires
        forall|tail: Seq<ReplyModel>|
            settled(
                #[trigger] settling(
                    user,
                    change,
                    status,
                    reason,
                    id,
                    action,
                    detail,
                    message,
                    tail,
                ),
            ) == response(config, request, start + tail),
    ensures
        is_settled(
            config,
            request,
            start,
            user,
            change,
            status,
            reason,
            id,
            action,
            detail,
            message,
            now,
            any,
            stamp,
            problem,
        ),
{
    let lost = ReplyModel::Storage(StorageAnswerModel::Failed(problem));
    let done = ReplyModel::Storage(StorageAnswerModel::Done);
    let t0 = Seq::<ReplyModel>::empty();
    let t1 = seq![ReplyModel::Time(now)];
    let t1l = t1.push(lost);
    let t2 = t1.push(done);
    let t3 = t2.push(any);
    let t4 = t3.push(ReplyModel::Stamp(stamp));
    let t4l = t4.push(lost);
    let t5 = t4.push(done);
    let t6 = t5.push(ReplyModel::Done);
    assert(start + t0 =~= start);
    assert(start + t1 =~= start.push(ReplyModel::Time(now)));
    assert(start + t1l =~= (start + t1).push(lost));
    assert(start + t2 =~= (start + t1).push(done));
    assert(start + t3 =~= (start + t2).push(any));
    assert(start + t4 =~= (start + t3).push(ReplyModel::Stamp(stamp)));
    assert(start + t4l =~= (start + t4).push(lost));
    assert(start + t5 =~= (start + t4).push(done));
    assert(start + t6 =~= (start + t5).push(ReplyModel::Done));
    assert(settling(user, change, status, reason, id, action, detail, message, t0) is Stop);
    assert(settling(user, change, status, reason, id, action, detail, message, t1) is Stop);
    assert(settling(user, change, status, reason, id, action, detail, message, t1l) is Stop);
    assert(settling(user, change, status, reason, id, action, detail, message, t2) is Stop);
    assert(settling(user, change, status, reason, id, action, detail, message, t3) is Stop);
    assert(settling(user, change, status, reason, id, action, detail, message, t4) is Stop);
    assert(settling(user, change, status, reason, id, action, detail, message, t4l) is Stop);
    assert(settling(user, change, status, reason, id, action, detail, message, t5) is Stop);
    assert(settling(user, change, status, reason, id, action, detail, message, t6) is Got);
}

/// How a request about a change goes on once its form has been checked.
spec fn going_on(request: RequestModel, user: SessionUserModel, tail: Seq<ReplyModel>) -> Asked<
    OutcomeModel,
> {
    match request {
        RequestModel::Approve { id, .. } => approval_asked(user, id, tail),
        RequestModel::Reject { id, rejection } => rejection_asked(
            user,
            id,
            rejection.reason,
            tail,
        ),
        RequestModel::Cancel { id, .. } => cancellation_asked(user, id, tail),
        _ => arbitrary(),
    }
}

/// The token of a form about a change, and whether only an admin may send it.
spec fn form_of(request: RequestModel) -> (Seq<char>, bool) {
    match request {
        RequestModel::Approve { confirm, .. } => (confirm.csrf_token, true),
        RequestModel::Reject { rejection, .. } => (rejection.csrf_token, true),
        RequestModel::Cancel { confirm, .. } => (confirm.csrf_token, false),
        _ => arbitrary(),
    }
}

proof fn lemma_goes_on(
    config: ConfigModel,
    request: RequestModel,
    head: Seq<ReplyModel>,
    user: SessionUserModel,
    tail: Seq<ReplyModel>,
)
    requires
        change_of(request) is Some,
        opened(config, form_of(request).0, head, user),
        form_of(request).1 ==> user.role == Role::Admin,
    ensures
        response(config, request, head + tail) == settled(going_on(request, user, tail)),
{
    reveal(change_approved);
    reveal(change_rejected);
    reveal(change_cancelled);
}

proof fn lemma_looks_first(
    config: ConfigModel,
    request: RequestModel,
    head: Seq<ReplyModel>,
    user: SessionUserModel,
    id: Seq<char>,
)
    requires
        change_of(request) == Some(id),
        opened(config, form_of(request).0, head, user),
        form_of(request).1 ==> user.role == Role::Admin,
    ensures
        looks_first(config, request, head, id),
{
    let busy = seq![ReplyModel::Locked(false)];
    let taken = seq![ReplyModel::Locked(true)];
    let missing = ReplyModel::Storage(StorageAnswerModel::Change(None));
    assert(head + Seq::empty() =~= head);
    assert(head + busy =~= head.push(ReplyModel::Locked(false)));
    assert(head + busy.push(ReplyModel::Done) =~= (head + busy).push(ReplyModel::Done));
    assert(head + taken =~= head.push(ReplyModel::Locked(true)));
    assert(head + taken.push(missing) =~= (head + taken).push(missing));
    lemma_goes_on(config, request, head, user, Seq::empty());
    lemma_goes_on(config, request, head, user, busy);
    lemma_goes_on(config, request, head, user, busy.push(ReplyModel::Done));
    lemma_goes_on(config, request, head, user, taken);
    lemma_goes_on(config, request, head, user, taken.push(missing));
}

proof fn lemma_leaves_alone(
    config: ConfigModel,
    request: RequestModel,
    head: Seq<ReplyModel>,
    user: SessionUserModel,
    id: Seq<char>,
    change: PendingChangeModel,
    any: ReplyModel,
)
    requires
        change_of(request) == Some(id),
        opened(config, form_of(request).0, head, user),
        form_of(request).1 ==> user.role == Role::Admin,
        request is Cancel ==> change.proposed_by == user.username,
        change.status != ChangeStatus::Pending,
    ensures
        leaves_alone(config, request, head + locked(change), id, any),
{
    let l0 = locked(change);
    let l1 = l0.push(any);
    let l2 = l1.push(ReplyModel::Done);
    assert(head + l1 =~= (head + l0).push(any));
    assert(head + l2 =~= (head + l1).push(ReplyModel::Done));
    lemma_goes_on(config, request, head, user, l0);
    lemma_goes_on(config, request, head, user, l1);
    lemma_goes_on(config, request, head, user, l2);
}

/// An admin who approves a pending change lets all of its fields take effect for the user whom
/// it is about, and only then is it recorded as approved.
pub proof fn lemma_approved_changes_take_effect(
    config: ConfigModel,
    id: Seq<char>,
    form: ConfirmFormModel,
    head: Seq<ReplyModel>,
    user: SessionUserModel,
    change: PendingChangeModel,
    update: UpdateUserModel,
    i: int,
    groups: Seq<GroupModel>,
    n: nat,
    now: Timestamp,
    any: ReplyModel,
    stamp: StampModel,
    error: ProviderErrorModel,
    problem: Seq<char>,
)
    requires
        opened(config, form.csrf_token, head, user),
        user.role == Role::Admin,
        says(change.diff, update),
        !leaves(change.diff, "team_group_id"@) ==> moves_at(change.diff, i),
    ensures
        ({
            let request = RequestModel::Approve { id, confirm: form };
            let start = head + locked(change);
            &&& looks_first(config, request, head, id)
            &&& change.status != ChangeStatus::Pending ==> leaves_alone(
                config,
                request,
                start,
                id,
                any,
            )
            &&& change.status == ChangeStatus::Pending ==> takes_effect(
                config,
                request,
                start,
                change.realm,
                change.user_id,
                change.diff,
                update,
                i,
                groups,
                n,
                error,
            ) && is_settled(
                config,
                request,
                start + all_replies(change.diff, i, groups),
                user,
                change,
                ChangeStatus::Approved,
                change.reject_reason,
                id,
                "approve_change"@,
                "change "@ + id + " approved"@,
                success("Change for "@ + change.username + " approved."@),
                now,
                any,
                stamp,
                problem,
            )
        }),
{
    let request = RequestModel::Approve { id, confirm: form };
    let start = head + locked(change);
    lemma_looks_first(config, request, head, user, id);
    if change.status != ChangeStatus::Pending {
        lemma_leaves_alone(config, request, head, user, id, change, any);
    } else {
        assert forall|tail: Seq<ReplyModel>|
            (#[trigger] diff_applied(change.realm, change.user_id, change.diff, tail)) is Stop implies response(
            config,
            request,
            start + tail,
        ) == diff_applied(change.realm, change.user_id, change.diff, tail)->Stop_0 by {
            assert(start + tail =~= head + (locked(change) + tail));
            assert((locked(change) + tail).skip(1).skip(1) =~= tail);
            lemma_goes_on(config, request, head, user, locked(change) + tail);
        }
        lemma_takes_effect(
            config,
            request,
            start,
            change.realm,
            change.user_id,
            change.diff,
            update,
            i,
            groups,
            n,
            error,
        );
        let all = all_replies(change.diff, i, groups);
        let detail = "change "@ + id + " approved"@;
        let message = success("Change for "@ + change.username + " approved."@);
        assert forall|tail: Seq<ReplyModel>|
            settled(
                #[trigger] settling(
                    user,
                    change,
                    ChangeStatus::Approved,
                    change.reject_reason,
                    id,
                    "approve_change"@,
                    detail,
                    message,
                    tail,
                ),
            ) == response(config, request, start + all + tail) by {
            assert(start + all + tail =~= head + (locked(change) + (all + tail)));
            assert((locked(change) + (all + tail)).skip(1).skip(1) =~= all + tail);
            lemma_diff_ends(change.realm, change.user_id, change.diff, i, groups, tail);
            lemma_goes_on(config, request, head, user, locked(change) + (all + tail));
        }
        lemma_is_settled(
            config,
            request,
            start + all,
            user,
            change,
            ChangeStatus::Approved,
            change.reject_reason,
            id,
            "approve_change"@,
            detail,
            message,
            now,
            any,
            stamp,
            problem,
        );
    }
}

/// An admin who rejects a pending change has that recorded, with the reason that the form
/// gives; nothing of it takes effect.
pub proof fn lemma_rejected_changes_are_recorded(
    config: ConfigModel,
    id: Seq<char>,
    form: RejectFormModel,
    head: Seq<ReplyModel>,
    user: SessionUserModel,
    change: PendingChangeModel,
    now: Timestamp,
    any: ReplyModel,
    stamp: StampModel,
    problem: Seq<char>,
)
    requires
        opened(config, form.csrf_token, head, user),
        user.role == Role::Admin,
    ensures
        ({
            let request = RequestModel::Reject { id, rejection: form };
            let start = head + locked(change);
            &&& looks_first(config, request, head, id)
            &&& if change.status != ChangeStatus::Pending {
                leaves_alone(config, request, start, id, any)
            } else {
                is_settled(
                    config,
                    request,
                    start,
                    user,
                    change,
                    ChangeStatus::Rejected,
                    form.reason,
                    id,
                    "reject_change"@,
                    "change "@ + id + " rejected: "@ + (if form.reason is Some {
                        form.reason->0
                    } else {
                        "no reason given"@
                    }),
                    warning("Change for "@ + change.username + " rejected."@),
                    now,
                    any,
                    stamp,
                    problem,
                )
            }
        }),
{
    let request = RequestModel::Reject { id, rejection: form };
    let start = head + locked(change);
    lemma_looks_first(config, request, head, user, id);
    if change.status != ChangeStatus::Pending {
        lemma_leaves_alone(config, request, head, user, id, change, any);
    } else {
        let detail = "change "@ + id + " rejected: "@ + (if form.reason is Some {
            form.reason->0
        } else {
            "no reason given"@
        });
        let message = warning("Change for "@ + change.username + " rejected."@);
        assert forall|tail: Seq<ReplyModel>|
            settled(
                #[trigger] settling(
                    user,
                    change,
                    ChangeStatus::Rejected,
                    form.reason,
                    id,
                    "reject_change"@,
                    detail,
                    message,
                    tail,
                ),
            ) == response(config, request, start + tail) by {
            assert(start + tail =~= head + (locked(change) + tail));
            assert((locked(change) + tail).skip(1).skip(1) =~= tail);
            lemma_goes_on(config, request, head, user, locked(change) + tail);
        }
        lemma_is_settled(
            config,
            request,
            start,
            user,
            change,
            ChangeStatus::Rejected,
            form.reason,
            id,
            "reject_change"@,
            detail,
            message,
            now,
            any,
            stamp,
            problem,
        );
    }
}

/// Whoever proposed a change, and nobody else, can withdraw it while it is pending; that is
/// recorded, and nothing of it takes effect.
pub proof fn lemma_proposers_can_withdraw(
    config: ConfigModel,
    id: Seq<char>,
    form: ConfirmFormModel,
    head: Seq<ReplyModel>,
    user: SessionUserModel,
    change: PendingChangeModel,
    now: Timestamp,
    any: ReplyModel,
    stamp: StampModel,
    problem: Seq<char>,
)
    requires
        opened(config, form.csrf_token, head, user),
    ensures
        ({
            let request = RequestModel::Cancel { id, confirm: form };
            let start = head + locked(change);
            &&& looks_first(config, request, head, id)
            &&& if change.proposed_by != user.username {
                &&& performs(config, request, start, unlock_of(id))
                &&& refused(config, request, start.push(any), AppErrorModel::Forbidden)
            } else if change.status != ChangeStatus::Pending {
                leaves_alone(config, request, start, id, any)
            } else {
                is_settled(
                    config,
                    request,
                    start,
                    user,
                    change,
                    ChangeStatus::Rejected,
                    Some("Cancelled by proposer"@),
                    id,
                    "cancel_change"@,
                    "change "@ + id + " cancelled by proposer"@,
                    success("Proposal cancelled."@),
                    now,
                    any,
                    stamp,
                    problem,
                )
            }
        }),
{
    let request = RequestModel::Cancel { id, confirm: form };
    let start = head + locked(change);
    lemma_looks_first(config, request, head, user, id);
    if change.proposed_by != user.username {
        assert(head + locked(change).push(any) =~= start.push(any));
        lemma_goes_on(config, request, head, user, locked(change));
        lemma_goes_on(config, request, head, user, locked(change).push(any));
    } else if change.status != ChangeStatus::Pending {
        lemma_leaves_alone(config, request, head, user, id, change, any);
    } else {
        let reason = Some("Cancelled by proposer"@);
        let detail = "change "@ + id + " cancelled by proposer"@;
        let message = success("Proposal cancelled."@);
        assert forall|tail: Seq<ReplyModel>|
            settled(
                #[trigger] settling(
                    user,
                    change,
                    ChangeStatus::Rejected,
                    reason,
                    id,
                    "cancel_change"@,
                    detail,
                    message,
                    tail,
                ),
            ) == response(config, request, start + tail) by {
            assert(start + tail =~= head + (locked(change) + tail));
            assert((locked(change) + tail).skip(1).skip(1) =~= tail);
            lemma_goes_on(config, request, head, user, locked(change) + tail);
        }
        lemma_is_settled(
            config,
            request,
            start,
            user,
            change,
            ChangeStatus::Rejected,
            reason,
            id,
            "cancel_change"@,
            detail,
            message,
            now,
            any,
            stamp,
            problem,
        );
    }
}

/// An update of an account that says what a list of changed fields says was made at `k`.
pub open spec fn updated_at(
    config: ConfigModel,
    request: RequestModel,
    replies: Seq<ReplyModel>,
    k: int,
    change: PendingChangeModel,
    update: UpdateUserModel,
) -> bool {
    &&& 0 <= k < replies.len()
    &&& says(change.diff, update)
    &&& performs(
        config,
        request,
        replies.take(k),
        EffectModel::Provider(
            ProviderCallModel::UpdateUser { realm: change.realm, id: change.user_id, update },
        ),
    )
    &&& replies[k] == made()
}

/// No change is recorded as approved before it has taken effect: where it is about the account
/// itself, the account has been updated by then as the change says.
pub proof fn lemma_approved_means_carried_out(
    config: ConfigModel,
    id: Seq<char>,
    form: ConfirmFormModel,
    replies: Seq<ReplyModel>,
    saved: PendingChangeModel,
)
    requires
        performs(
            config,
            RequestModel::Approve { id, confirm: form },
            replies,
            EffectModel::Storage(StorageCallModel::SaveChange(saved)),
        ),
        touches_account(saved.diff),
    ensures
        exists|k: int, update: UpdateUserModel|
            updated_at(
                config,
                RequestModel::Approve { id, confirm: form },
                replies,
                k,
                saved,
                update,
            ),
{
    let request = RequestModel::Approve { id, confirm: form };
    reveal(change_approved);
    let checked = admin_form_checked(config, form.csrf_token, replies);
    lemma_steady_admin_form(config, form.csrf_token, replies, 0);
    assert(!(checked matches Ask::Stop(StepModel::Perform(EffectModel::Storage(_))))) by {
        reveal(session_required);
        reveal(admin_form_checked);
    }
    if let Ask::Got(user, rest) = checked {
        let n = used(checked, replies);
        let found = change_locked(id, rest);
        lemma_steady_lock(id, rest, 0);
        if let Ask::Got(Some(change), last) = found {
            let m = used(found, rest);
            let k = n + m;
            let update = update_of(change.diff);
            lemma_updates_say_what_was_changed(change.diff);
            lemma_diff_calls_the_provider(change.realm, change.user_id, change.diff, last);
            assert(saved.diff == change.diff);
            assert(last.len() > 0);
            assert(last[0] == replies[k]);
            lemma_steady_admin_form(config, form.csrf_token, replies, k);
            lemma_steady_lock(id, rest, m);
            assert(last.take(0) =~= Seq::empty());
            assert(updated_at(config, request, replies, k, saved, update));
        }
    }
}

} // verus!
