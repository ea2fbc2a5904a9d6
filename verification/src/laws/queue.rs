//! Changes that wait for an admin.

use super::{group_skip, mutates, performs, resolves};
use super::access::lemma_quiet_grants;
use super::steady::{
    lemma_steady_admin_form, lemma_steady_asked, lemma_steady_diff, lemma_steady_lock,
    lemma_steady_session_form, steady, used,
};
use crate::asks::{changes_asked, failed, save_asked, time_asked};
use crate::attributes::AttributesModel;
use crate::config::ConfigModel;
use crate::effects::{Asked, EffectModel, OutcomeModel, ReplyModel, StepModel};
use crate::error::AppErrorModel;
use crate::pages::{ChangesPageModel, PageModel};
use crate::portal::{handled, response, RequestModel};
use crate::provider::{GroupModel, ProviderCallModel};
use crate::routes::{admin_form_checked, session_form_checked, session_required};
use crate::routes::changes::{
    approval_asked, approval_made, cancellation_asked, cancellation_made, change_approved,
    change_cancelled, change_locked, change_rejected, changes_listed, grants_asked, lock_key,
    page_count, page_slice, rejection_asked, rejection_made, resolved, shown_page, visible_changes,
    ChangesQueryModel, CHANGES_PAGE_LIMIT, LOCK_SECONDS,
};
use crate::routes::users::edit::{user_edited, EditFormModel};
use crate::script::Ask;
use crate::service::changes::{diff_applied, groups_left, team_change, update_of};
use crate::session::{Role, SessionUserModel};
use crate::storage::{
    is_open, ChangeStatus, FieldChangeModel, PendingChangeModel, StorageAnswerModel,
    StorageCallModel,
};
use crate::time::Timestamp;
use vstd::prelude::*;

verus! {

broadcast use group_skip;

/// The change that a request approves, rejects or cancels.
pub open spec fn change_of(request: RequestModel) -> Option<Seq<char>> {
    match request {
        RequestModel::Approve { id, .. } => Some(id),
        RequestModel::Reject { id, .. } => Some(id),
        RequestModel::Cancel { id, .. } => Some(id),
        _ => None,
    }
}

/// The effect at `at` took the lock of a change, and the one after it read `change`.
pub open spec fn read_under_lock(
    config: ConfigModel,
    request: RequestModel,
    replies: Seq<ReplyModel>,
    at: int,
    id: Seq<char>,
    change: PendingChangeModel,
) -> bool {
    &&& 0 <= at
    &&& at + 1 < replies.len()
    &&& performs(
        config,
        request,
        replies.take(at),
        EffectModel::Lock { key: lock_key(id), seconds: LOCK_SECONDS },
    )
    &&& replies[at] == ReplyModel::Locked(true)
    &&& performs(
        config,
        request,
        replies.take(at + 1),
        EffectModel::Storage(StorageCallModel::GetChange { id }),
    )
    &&& replies[at + 1] == ReplyModel::Storage(StorageAnswerModel::Change(Some(change)))
}

/// A form about a change, by who may send it.
#[verifier::opaque]
spec fn form_checked(config: ConfigModel, request: RequestModel, replies: Seq<ReplyModel>) -> Asked<
    SessionUserModel,
> {
    match request {
        RequestModel::Approve { confirm, .. } => admin_form_checked(
            config,
            confirm.csrf_token,
            replies,
        ),
        RequestModel::Reject { rejection, .. } => admin_form_checked(
            config,
            rejection.csrf_token,
            replies,
        ),
        RequestModel::Cancel { confirm, .. } => session_form_checked(
            config,
            confirm.csrf_token,
            replies,
        ),
        _ => arbitrary(),
    }
}

/// What a checked form about a change comes to.
#[verifier::opaque]
spec fn form_followed(
    request: RequestModel,
    user: SessionUserModel,
    replies: Seq<ReplyModel>,
) -> Asked<OutcomeModel> {
    match request {
        RequestModel::Approve { id, .. } => approval_asked(user, id, replies),
        RequestModel::Reject { id, rejection } => rejection_asked(
            user,
            id,
            rejection.reason,
            replies,
        ),
        RequestModel::Cancel { id, .. } => cancellation_asked(user, id, replies),
        _ => arbitrary(),
    }
}

proof fn lemma_form(config: ConfigModel, request: RequestModel, replies: Seq<ReplyModel>, k: int)
    requires
        change_of(request) is Some,
    ensures
        steady(
            form_checked(config, request, replies),
            form_checked(config, request, replies.take(k)),
            replies,
            k,
        ),
        handled(config, request, replies) == (match form_checked(config, request, replies) {
            Ask::Stop(stop) => Ask::Stop(stop),
            Ask::Got(user, rest) => form_followed(request, user, rest),
        }),
        form_checked(config, request, replies) matches Ask::Stop(StepModel::Perform(effect)) ==> (
            !mutates(effect) && !resolves(effect) && !(effect is Unlock) && !(effect is Lock)),
{
    reveal(session_required);
    reveal(form_checked);
    reveal(form_followed);
    reveal(change_approved);
    reveal(change_rejected);
    reveal(change_cancelled);
    match request {
        RequestModel::Approve { confirm, .. } => {
            lemma_steady_admin_form(config, confirm.csrf_token, replies, k);
            reveal(admin_form_checked);
        },
        RequestModel::Reject { rejection, .. } => {
            lemma_steady_admin_form(config, rejection.csrf_token, replies, k);
            reveal(admin_form_checked);
        },
        RequestModel::Cancel { confirm, .. } => {
            lemma_steady_session_form(config, confirm.csrf_token, replies, k);
            reveal(session_form_checked);
        },
        _ => {},
    }
}

proof fn lemma_read_under_lock(
    config: ConfigModel,
    request: RequestModel,
    replies: Seq<ReplyModel>,
    id: Seq<char>,
    user: SessionUserModel,
    rest: Seq<ReplyModel>,
    change: PendingChangeModel,
    last: Seq<ReplyModel>,
)
    requires
        change_of(request) == Some(id),
        form_checked(config, request, replies) == Ask::<
            SessionUserModel,
            ReplyModel,
            StepModel,
        >::Got(user, rest),
        change_locked(id, rest) == Ask::<
            Option<PendingChangeModel>,
            ReplyModel,
            StepModel,
        >::Got(Some(change), last),
    ensures
        read_under_lock(
            config,
            request,
            replies,
            used(form_checked(config, request, replies), replies),
            id,
            change,
        ),
{
    reveal(form_followed);
    let n = used(form_checked(config, request, replies), replies);
    lemma_form(config, request, replies, n);
    lemma_form(config, request, replies, n + 1);
    lemma_form(config, request, replies.take(n), 0);
    lemma_form(config, request, replies.take(n + 1), 0);
    lemma_steady_lock(id, rest, 0);
    lemma_steady_lock(id, rest, 1);
    assert(rest[0] == replies[n]);
    assert(rest[1] == replies[n + 1]);
}

/// The effect carries out a change: it is about its user, in its realm.
pub open spec fn carries_out(effect: EffectModel, change: PendingChangeModel) -> bool {
    match effect {
        EffectModel::Provider(
            ProviderCallModel::UpdateUser { realm, id, update },
        ) => realm == change.realm && id == change.user_id && update == update_of(change.diff),
        EffectModel::Provider(
            ProviderCallModel::RemoveUserFromGroup { realm, user_id, group_id },
        ) => realm == change.realm && user_id == change.user_id && (team_change(
            change.diff,
        ) matches Some(field) && group_id != field.after),
        EffectModel::Provider(
            ProviderCallModel::AddUserToGroup { realm, user_id, group_id },
        ) => realm == change.realm && user_id == change.user_id && (team_change(
            change.diff,
        ) matches Some(field) && group_id == field.after),
        _ => false,
    }
}

pub(crate) proof fn lemma_groups_left(
    realm: Seq<char>,
    user_id: Seq<char>,
    groups: Seq<GroupModel>,
    keep: Seq<char>,
    replies: Seq<ReplyModel>,
)
    ensures
        groups_left(realm, user_id, groups, keep, replies) matches Ask::Stop(
            StepModel::Perform(effect),
        ) ==> (effect matches EffectModel::Provider(
            ProviderCallModel::RemoveUserFromGroup { realm: r, user_id: u, group_id },
        ) && r == realm && u == user_id && group_id != keep),
    decreases groups.len(),
{
    if groups.len() > 0 {
        if groups[0].id == keep {
            lemma_groups_left(realm, user_id, groups.skip(1), keep, replies);
        } else if replies.len() > 0 {
            lemma_groups_left(realm, user_id, groups.skip(1), keep, replies.skip(1));
        }
    }
}

pub(crate) proof fn lemma_diff_calls_the_provider(
    realm: Seq<char>,
    user_id: Seq<char>,
    diff: Seq<FieldChangeModel>,
    replies: Seq<ReplyModel>,
)
    ensures
        diff_applied(realm, user_id, diff, replies) matches Ask::Stop(StepModel::Perform(effect))
            ==> effect is Provider,
{
    assert forall|groups: Seq<GroupModel>, keep: Seq<char>, rest: Seq<ReplyModel>|
        (#[trigger] groups_left(realm, user_id, groups, keep, rest)) matches Ask::Stop(
            StepModel::Perform(effect),
        ) ==> effect is Provider by {
        lemma_groups_left(realm, user_id, groups, keep, rest);
    }
}

proof fn lemma_diff_applied(change: PendingChangeModel, replies: Seq<ReplyModel>)
    ensures
        diff_applied(change.realm, change.user_id, change.diff, replies) matches Ask::Stop(
            StepModel::Perform(effect),
        ) ==> (effect is Provider && (mutates(effect) ==> carries_out(effect, change))),
{
    assert forall|groups: Seq<GroupModel>, keep: Seq<char>, rest: Seq<ReplyModel>|
        (#[trigger] groups_left(change.realm, change.user_id, groups, keep, rest)) matches Ask::Stop(
            StepModel::Perform(effect),
        ) ==> (effect matches EffectModel::Provider(
            ProviderCallModel::RemoveUserFromGroup { realm: r, user_id: u, group_id },
        ) && r == change.realm && u == change.user_id && group_id != keep) by {
        lemma_groups_left(change.realm, change.user_id, groups, keep, rest);
    }
}

/// An approval changes an account only for a change that it read under the change's lock and
/// found pending, and only as that change says.
#[verifier::rlimit(40)]
pub proof fn lemma_only_pending_changes_take_effect(
    config: ConfigModel,
    request: RequestModel,
    replies: Seq<ReplyModel>,
    effect: EffectModel,
    id: Seq<char>,
)
    requires
        change_of(request) == Some(id),
        performs(config, request, replies, effect),
        mutates(effect),
    ensures
        request is Approve,
        exists|at: int, change: PendingChangeModel|
            #[trigger] read_under_lock(config, request, replies, at, id, change) && is_open(change)
                && carries_out(effect, change),
{
    reveal(session_required);
    reveal(form_followed);
    lemma_form(config, request, replies, 0);
    let checked = form_checked(config, request, replies);
    if let Ask::Got(user, rest) = checked {
        if let Ask::Got(Some(change), last) = change_locked(id, rest) {
            lemma_read_under_lock(config, request, replies, id, user, rest, change, last);
            lemma_diff_applied(change, last);
            assert(read_under_lock(config, request, replies, used(checked, replies), id, change));
        }
    }
}

/// The requests about changes that reject or cancel one change no account.
pub proof fn lemma_rejected_changes_take_no_effect(
    config: ConfigModel,
    request: RequestModel,
    replies: Seq<ReplyModel>,
    effect: EffectModel,
)
    requires
        request is Reject || request is Cancel,
        performs(config, request, replies, effect),
    ensures
        !mutates(effect),
{
    if mutates(effect) {
        lemma_only_pending_changes_take_effect(
            config,
            request,
            replies,
            effect,
            change_of(request)->0,
        );
    }
}

/// The record of a change that a request has resolved.
pub open spec fn resolution(
    request: RequestModel,
    change: PendingChangeModel,
    user: SessionUserModel,
    now: Timestamp,
) -> EffectModel {
    EffectModel::Storage(
        StorageCallModel::SaveChange(
            match request {
                RequestModel::Approve { .. } => resolved(
                    change,
                    ChangeStatus::Approved,
                    user.username,
                    now,
                    change.reject_reason,
                ),
                RequestModel::Reject { rejection, .. } => resolved(
                    change,
                    ChangeStatus::Rejected,
                    user.username,
                    now,
                    rejection.reason,
                ),
                _ => resolved(
                    change,
                    ChangeStatus::Rejected,
                    user.username,
                    now,
                    Some("Cancelled by proposer"@),
                ),
            },
        ),
    )
}

/// Before the record of a change is rewritten.
#[verifier::opaque]
spec fn before_save(
    request: RequestModel,
    change: PendingChangeModel,
    replies: Seq<ReplyModel>,
) -> Asked<Timestamp> {
    match request {
        RequestModel::Approve { .. } => match diff_applied(
            change.realm,
            change.user_id,
            change.diff,
            replies,
        ) {
            Ask::Stop(stop) => Ask::Stop(stop),
            Ask::Got(_, rest) => time_asked(rest),
        },
        _ => time_asked(replies),
    }
}

proof fn lemma_before_save(
    request: RequestModel,
    change: PendingChangeModel,
    replies: Seq<ReplyModel>,
    k: int,
)
    ensures
        steady(
            before_save(request, change, replies),
            before_save(request, change, replies.take(k)),
            replies,
            k,
        ),
        before_save(request, change, replies) matches Ask::Stop(StepModel::Perform(effect)) ==> (
            effect is Provider || effect is ReadClock),
{
    reveal(before_save);
    if let RequestModel::Approve { .. } = request {
        let applied = diff_applied(change.realm, change.user_id, change.diff, replies);
        lemma_steady_diff(change.realm, change.user_id, change.diff, replies, k);
        lemma_diff_applied(change, replies);
        if let Ask::Got(_, rest) = applied {
            lemma_steady_asked(EffectModel::ReadClock, rest, k - used(applied, replies));
        }
    } else {
        lemma_steady_asked(EffectModel::ReadClock, replies, k);
    }
}

/// What a request about a change does with a pending change that it read.
#[verifier::opaque]
spec fn change_followed(
    request: RequestModel,
    user: SessionUserModel,
    id: Seq<char>,
    change: PendingChangeModel,
    replies: Seq<ReplyModel>,
) -> Asked<OutcomeModel> {
    match request {
        RequestModel::Approve { .. } => approval_made(user, id, change, replies),
        RequestModel::Reject { rejection, .. } => rejection_made(
            user,
            id,
            change,
            rejection.reason,
            replies,
        ),
        _ => cancellation_made(user, id, change, replies),
    }
}

/// The record is rewritten, then the lock released, then the rest done.
proof fn lemma_change_followed(
    request: RequestModel,
    user: SessionUserModel,
    id: Seq<char>,
    change: PendingChangeModel,
    replies: Seq<ReplyModel>,
)
    ensures
        match before_save(request, change, replies) {
            Ask::Stop(stop) => change_followed(request, user, id, change, replies) == Ask::<
                OutcomeModel,
                ReplyModel,
                StepModel,
            >::Stop(stop),
            Ask::Got(now, rest) => {
                let save = resolution(request, change, user, now)->Storage_0;
                match save_asked(save, rest) {
                    Ask::Stop(stop) => change_followed(request, user, id, change, replies)
                        == Ask::<OutcomeModel, ReplyModel, StepModel>::Stop(stop),
                    Ask::Got(_, rest) => change_followed(
                        request,
                        user,
                        id,
                        change,
                        replies,
                    ) matches Ask::Stop(StepModel::Perform(effect)) ==> (!resolves(effect) && (
                    effect is Unlock ==> rest.len() == 0 && effect == (EffectModel::Unlock {
                        key: lock_key(id),
                    }))),
                }
            },
        },
{
    reveal(before_save);
    reveal(change_followed);
}

/// The lock is released right after the record was rewritten.
proof fn lemma_released_after_save(
    request: RequestModel,
    user: SessionUserModel,
    id: Seq<char>,
    change: PendingChangeModel,
    replies: Seq<ReplyModel>,
    effect: EffectModel,
)
    requires
        change_followed(request, user, id, change, replies) == Ask::<
            OutcomeModel,
            ReplyModel,
            StepModel,
        >::Stop(StepModel::Perform(effect)),
        effect is Unlock,
    ensures
        effect == (EffectModel::Unlock { key: lock_key(id) }),
        replies.len() > 0,
        replies.last() == ReplyModel::Storage(StorageAnswerModel::Done),
        change_followed(
            request,
            user,
            id,
            change,
            replies.take(replies.len() - 1),
        ) matches Ask::Stop(
            StepModel::Perform(EffectModel::Storage(StorageCallModel::SaveChange(saved))),
        ) && !is_open(saved),
{
    let n = replies.len() - 1;
    lemma_change_followed(request, user, id, change, replies);
    lemma_before_save(request, change, replies, n);
    if let Ask::Got(now, rest) = before_save(request, change, replies) {
        assert(rest.len() == 1);
        assert(rest[0] == replies.last());
        lemma_change_followed(request, user, id, change, replies.take(n));
    }
}

/// A record that could not be rewritten ends the request.
proof fn lemma_ended_by_failed_save(
    request: RequestModel,
    user: SessionUserModel,
    id: Seq<char>,
    change: PendingChangeModel,
    replies: Seq<ReplyModel>,
    k: int,
    effect: EffectModel,
    message: Seq<char>,
)
    requires
        0 <= k < replies.len(),
        change_followed(request, user, id, change, replies.take(k)) == Ask::<
            OutcomeModel,
            ReplyModel,
            StepModel,
        >::Stop(StepModel::Perform(effect)),
        resolves(effect),
        replies[k] == ReplyModel::Storage(StorageAnswerModel::Failed(message)),
    ensures
        change_followed(request, user, id, change, replies) == Ask::<
            OutcomeModel,
            ReplyModel,
            StepModel,
        >::Stop(failed(AppErrorModel::Internal(message))),
{
    lemma_change_followed(request, user, id, change, replies);
    lemma_change_followed(request, user, id, change, replies.take(k));
    lemma_before_save(request, change, replies, k);
    lemma_before_save(request, change, replies.take(k), 0);
    if let Ask::Got(now, rest) = before_save(request, change, replies) {
        assert(rest[0] == replies[k]);
    }
}

/// Whether a request goes on with a change that it read.
spec fn goes_on(request: RequestModel, user: SessionUserModel, change: PendingChangeModel) -> bool {
    is_open(change) && (request is Cancel ==> change.proposed_by == user.username)
}

proof fn lemma_form_followed(
    request: RequestModel,
    user: SessionUserModel,
    id: Seq<char>,
    replies: Seq<ReplyModel>,
)
    requires
        change_of(request) == Some(id),
    ensures
        match change_locked(id, replies) {
            Ask::Stop(stop) => form_followed(request, user, replies) == Ask::<
                OutcomeModel,
                ReplyModel,
                StepModel,
            >::Stop(stop),
            Ask::Got(Some(change), rest) if goes_on(request, user, change) => form_followed(
                request,
                user,
                replies,
            ) == change_followed(request, user, id, change, rest),
            Ask::Got(found, rest) => form_followed(request, user, replies) matches Ask::Stop(
                StepModel::Perform(effect),
            ) ==> (!resolves(effect) && (effect is Unlock ==> (found is Some && rest.len() == 0
                && effect == (EffectModel::Unlock { key: lock_key(id) })))),
        },
{
    reveal(form_followed);
    reveal(change_followed);
}

/// A change is resolved once: its record is rewritten only if it was read as pending under its
/// lock; what is written is no longer pending, names who resolved it, and keeps what was
/// proposed. Only who proposed a change can cancel it.
pub proof fn lemma_changes_are_resolved_once(
    config: ConfigModel,
    request: RequestModel,
    replies: Seq<ReplyModel>,
    effect: EffectModel,
    id: Seq<char>,
)
    requires
        change_of(request) == Some(id),
        performs(config, request, replies, effect),
        resolves(effect),
    ensures
        exists|at: int, change: PendingChangeModel, user: SessionUserModel, now: Timestamp|
            {
                &&& #[trigger] read_under_lock(config, request, replies, at, id, change)
                &&& is_open(change)
                &&& effect == #[trigger] resolution(request, change, user, now)
                &&& request is Cancel ==> change.proposed_by == user.username
                &&& session_required(config, replies) matches Ask::Got(signed_in, _) && signed_in
                    == user
            },
{
    lemma_form(config, request, replies, 0);
    let checked = form_checked(config, request, replies);
    if let Ask::Got(user, rest) = checked {
        lemma_form_followed(request, user, id, rest);
        lemma_steady_lock(id, rest, 0);
        if let Ask::Got(Some(change), last) = change_locked(id, rest) {
            lemma_read_under_lock(config, request, replies, id, user, rest, change, last);
            lemma_change_followed(request, user, id, change, last);
            lemma_before_save(request, change, last, 0);
            assert(session_required(config, replies) matches Ask::Got(signed_in, _) && signed_in
                == user) by {
                reveal(form_checked);
                reveal(admin_form_checked);
                reveal(session_form_checked);
            }
            if let Ask::Got(now, _) = before_save(request, change, last) {
                assert(effect == resolution(request, change, user, now));
            }
        }
    }
}

/// The lock of a change is released only when the change's record has been rewritten, right
/// before, without an error; or when the change, read right before, turned out not to be
/// pending, or not to be one that this user may cancel.
pub proof fn lemma_lock_is_released_last(
    config: ConfigModel,
    request: RequestModel,
    replies: Seq<ReplyModel>,
    effect: EffectModel,
    id: Seq<char>,
)
    requires
        change_of(request) == Some(id),
        performs(config, request, replies, effect),
        effect is Unlock,
    ensures
        effect == (EffectModel::Unlock { key: lock_key(id) }),
        replies.len() > 0,
        ({
            let before = response(config, request, replies.drop_last());
            ||| before matches StepModel::Perform(
                EffectModel::Storage(StorageCallModel::SaveChange(change)),
            ) && !is_open(change) && replies.last() == ReplyModel::Storage(StorageAnswerModel::Done)
            ||| before == StepModel::Perform(
                EffectModel::Storage(StorageCallModel::GetChange { id }),
            ) && (replies.last() matches ReplyModel::Storage(
                StorageAnswerModel::Change(Some(change)),
            ) && (!is_open(change) || (request is Cancel && (session_required(
                config,
                replies,
            ) matches Ask::Got(user, _) && change.proposed_by != user.username))))
        }),
{
    let n = replies.len() - 1;
    lemma_form(config, request, replies, n);
    let checked = form_checked(config, request, replies);
    if let Ask::Got(user, rest) = checked {
        let k = n - used(checked, replies);
        lemma_form_followed(request, user, id, rest);
        let locked = change_locked(id, rest);
        lemma_steady_lock(id, rest, k);
        assert(replies.drop_last() =~= replies.take(n));
        lemma_form(config, request, replies.take(n), 0);
        lemma_form_followed(request, user, id, rest.take(k));
        if let Ask::Got(Some(change), last) = locked {
            if goes_on(request, user, change) {
                lemma_released_after_save(request, user, id, change, last, effect);
                assert(last.last() == replies.last());
            } else {
                assert(rest.last() == replies.last());
                assert(session_required(config, replies) matches Ask::Got(signed_in, _)
                    && signed_in == user) by {
                    reveal(form_checked);
                    reveal(admin_form_checked);
                    reveal(session_form_checked);
                }
            }
        }
    }
}

/// Where the record of a change cannot be rewritten, the request ends with an error whatever
/// follows: the lock is not released, and expires on its own.
pub proof fn lemma_failed_save_keeps_the_lock(
    config: ConfigModel,
    request: RequestModel,
    replies: Seq<ReplyModel>,
    k: int,
    effect: EffectModel,
    message: Seq<char>,
)
    requires
        change_of(request) is Some,
        0 <= k < replies.len(),
        performs(config, request, replies.take(k), effect),
        resolves(effect),
        replies[k] == ReplyModel::Storage(StorageAnswerModel::Failed(message)),
    ensures
        response(config, request, replies) == failed(AppErrorModel::Internal(message)),
{
    let id = change_of(request)->0;
    lemma_form(config, request, replies, k);
    lemma_form(config, request, replies.take(k), 0);
    let checked = form_checked(config, request, replies);
    if let Ask::Got(user, rest) = checked {
        let j = k - used(checked, replies);
        lemma_form_followed(request, user, id, rest);
        lemma_form_followed(request, user, id, rest.take(j));
        let locked = change_locked(id, rest);
        lemma_steady_lock(id, rest, j);
        lemma_steady_lock(id, rest.take(j), 0);
        if let Ask::Got(Some(change), last) = locked {
            let i = j - used(locked, rest);
            if goes_on(request, user, change) {
                assert(last[i] == replies[k]);
                lemma_ended_by_failed_save(request, user, id, change, last, i, effect, message);
            }
        }
    }
}

// ── Proposals ────────────────────────────────────────────────────────────────

/// What an edit writes to the list of changes is an operator's proposal: it is pending, and
/// names who proposed it and whom it is about.
pub proof fn lemma_operators_propose(
    config: ConfigModel,
    realm: Seq<char>,
    id: Seq<char>,
    form: EditFormModel,
    replies: Seq<ReplyModel>,
    effect: EffectModel,
)
    requires
        performs(config, RequestModel::EditUser { realm, id, form }, replies, effect),
        resolves(effect),
    ensures
        session_required(config, replies) matches Ask::Got(user, _) && user.role == Role::Operator
            && (effect matches EffectModel::Storage(StorageCallModel::SaveChange(change))
            && is_open(change) && change.proposed_by == user.username && change.realm == realm
            && change.user_id == id && change.diff.len() > 0),
{
    reveal(session_required);
    reveal(user_edited);
    reveal(session_form_checked);
    assert forall|realm: Seq<char>, id: Seq<char>, diff: Seq<FieldChangeModel>, rest: Seq<ReplyModel>|
        (#[trigger] diff_applied(realm, id, diff, rest)) matches Ask::Stop(
            StepModel::Perform(effect),
        ) ==> effect is Provider by {
        lemma_diff_calls_the_provider(realm, id, diff, rest);
    }
}

/// Operators see the changes that they proposed, and no others.
pub proof fn lemma_operators_see_their_own_changes(
    config: ConfigModel,
    query: ChangesQueryModel,
    replies: Seq<ReplyModel>,
    page: ChangesPageModel,
)
    requires
        response(config, RequestModel::ListChanges(query), replies) == StepModel::Finish(
            OutcomeModel::Page(PageModel::Changes(page)),
        ),
        !page.frame.is_admin,
    ensures
        forall|i: int|
            0 <= i < page.changes.len() ==> (#[trigger] page.changes[i]).change.proposed_by
                == page.frame.user.username,
{
    reveal(session_required);
    reveal(changes_listed);
    assert forall|realms: Seq<Seq<char>>, known: AttributesModel, rest: Seq<ReplyModel>|
        (#[trigger] grants_asked(realms, known, rest)) matches Ask::Stop(stop) ==> stop
            is Perform by {
        lemma_quiet_grants(realms, known, rest);
    }
    if let Ask::Got(user, rest) = session_required(config, replies) {
        if let Ask::Got(changes, _) = changes_asked(StorageCallModel::ListChanges, rest) {
            let own = |c: PendingChangeModel| c.proposed_by == user.username;
            let visible = visible_changes(user, changes);
            if user.role == Role::Operator {
                assert(visible == changes.filter(own));
            }
            let shown = page_slice(visible, shown_page(query.page, visible.len() as int));
            lemma_page_slice(visible, shown_page(query.page, visible.len() as int));
            assert(page.changes.len() == shown.len());
            assert forall|i: int| 0 <= i < page.changes.len() implies (
            #[trigger] page.changes[i]).change.proposed_by == page.frame.user.username by {
                let at = shown_page(query.page, visible.len() as int) * CHANGES_PAGE_LIMIT + i;
                assert(page.changes[i].change == shown[i]);
                assert(shown[i] == visible[at]);
                changes.lemma_filter_pred(own, at);
            }
        }
    }
}

proof fn lemma_page_slice(items: Seq<PendingChangeModel>, page: int)
    requires
        0 <= page < page_count(items.len() as int),
    ensures
        page_slice(items, page).len() <= CHANGES_PAGE_LIMIT,
        page * CHANGES_PAGE_LIMIT + page_slice(items, page).len() <= items.len(),
        forall|i: int|
            0 <= i < page_slice(items, page).len() ==> #[trigger] page_slice(items, page)[i]
                == items[page * CHANGES_PAGE_LIMIT + i],
{
}

/// The pages of the list of changes hold every change, each on one page.
pub proof fn lemma_pages_hold_every_change(items: Seq<PendingChangeModel>, i: int)
    requires
        0 <= i < items.len(),
    ensures
        0 <= i / (CHANGES_PAGE_LIMIT as int) < page_count(items.len() as int),
        page_slice(items, i / (CHANGES_PAGE_LIMIT as int))[i % (CHANGES_PAGE_LIMIT as int)]
            == items[i],
        forall|page: int, at: int|
            0 <= page < page_count(items.len() as int) && 0 <= at < page_slice(items, page).len()
                && page * CHANGES_PAGE_LIMIT + at == i ==> page == i / (CHANGES_PAGE_LIMIT as int)
                && (#[trigger] page_slice(items, page)[at]) == items[i],
{
    let page = i / (CHANGES_PAGE_LIMIT as int);
    lemma_page_slice(items, page);
}

} // verus!
