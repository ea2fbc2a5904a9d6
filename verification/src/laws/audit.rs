//! What the audit log tells.

use super::{group_skip, mutates, only_looks, resolves};
use super::access::lemma_pages_change_nothing;
use super::steady::{
    lemma_steady, lemma_steady_admin_form, lemma_steady_asked, lemma_steady_call, lemma_steady_diff,
    lemma_steady_lock, lemma_steady_parent, lemma_steady_session_form, lemma_steady_team_groups,
    lemma_steady_users_changed, used,
};
use crate::asks::{groups_asked, time_asked, user_asked};
use crate::config::ConfigModel;
use crate::effects::{Asked, EffectModel, OutcomeModel, ReplyModel, StepModel};
use crate::portal::{response, RequestModel};
use crate::provider::{users_like, GroupModel, ProviderCallModel};
use crate::routes::{
    admin_form_checked, session_form_checked, session_required, teams_asked, user_path,
};
use crate::routes::admin::{
    access_granted, access_revoked, admin_path, granted_role, revoked_role_asked,
    user_by_name_asked, GrantFormModel, RevokeFormModel,
};
use crate::routes::changes::{
    approval_asked, approval_made, cancellation_asked, cancellation_made, change_approved,
    change_cancelled, change_locked, change_rejected, rejection_asked, rejection_detail,
    rejection_made, resolution_stored, resolved, ConfirmFormModel, RejectFormModel,
};
use crate::routes::clients::{client_edited, client_path, client_settings, EditClientFormModel};
use crate::routes::emergency::{
    attempt_counted, attempts_key, emergency_promoted, issuer_realm, user_promoted,
    PromoteBodyModel, ATTEMPT_SECONDS,
};
use crate::routes::teams::{parent_ensured, team_created, team_made, CreateTeamFormModel};
use crate::routes::users::access::{
    bare_role, change_recorded, password_set, password_stored, role_assigned, role_by_id_asked,
    role_by_name_asked, role_removed, RoleAssignFormModel, RoleRemoveFormModel,
    SetPasswordFormModel,
};
use crate::routes::users::bulk::{
    bulk_edited, bulk_made, bulk_realm, chosen_team, team_groups_asked, users_changed,
    BulkEditBodyModel, TeamModel,
};
use crate::routes::users::create::{account_made, user_created, NewUserFormModel};
use crate::routes::users::edit::{
    edits_made, form_edits, form_processed, user_edited, EditFormModel,
};
use crate::script::Ask;
use crate::service::changes::diff_applied;
use crate::service::users::{edit_made, EditRequestModel};
use crate::session::{good_news, notice, FlashModel, Role, SessionUserModel};
use crate::storage::{
    AuditOutcomeModel, ChangeStatus, FieldChangeModel, PendingChangeModel, StorageAnswerModel,
    StorageCallModel,
};
use crate::text::trimmed;
use vstd::prelude::*;

verus! {

broadcast use group_skip;

/// A successful action is written to the audit log next.
pub open spec fn logs(step: StepModel) -> bool {
    step matches StepModel::Perform(EffectModel::Storage(StorageCallModel::AppendAudit(entry)))
        && entry.outcome == AuditOutcomeModel::Success
}

/// What is needed next changes an account or the record of a change.
pub open spec fn alters(step: StepModel) -> bool {
    step matches StepModel::Perform(effect) && (mutates(effect) || resolves(effect))
}

spec fn logs_next<T>(ask: Asked<T>) -> bool {
    ask matches Ask::Stop(step) && logs(step)
}

spec fn alters_next<T>(ask: Asked<T>) -> bool {
    ask matches Ask::Stop(step) && alters(step)
}

spec fn stored(reply: ReplyModel) -> bool {
    reply == ReplyModel::Storage(StorageAnswerModel::Done)
}

/// The request ended as it was meant to.
pub open spec fn succeeds(outcome: OutcomeModel) -> bool {
    match outcome {
        OutcomeModel::Failed(_) => false,
        OutcomeModel::Promotion(promotion) => promotion.ok,
        _ => true,
    }
}

// ── Changes ──────────────────────────────────────────────────────────────────

proof fn lemma_logs_resolution(
    id: Seq<char>,
    change: PendingChangeModel,
    actor: Seq<char>,
    action: Seq<char>,
    detail: Seq<char>,
    flash: FlashModel,
    replies: Seq<ReplyModel>,
)
    ensures
        resolution_stored(id, change, actor, action, detail, flash, replies) is Got ==> {
            &&& replies.len() > 3
            &&& stored(replies[3])
            &&& logs_next(
                resolution_stored(id, change, actor, action, detail, flash, replies.take(3)),
            )
        },
{
}

proof fn lemma_logs_approval(
    user: SessionUserModel,
    id: Seq<char>,
    change: PendingChangeModel,
    replies: Seq<ReplyModel>,
) -> (j: int)
    ensures
        approval_made(user, id, change, replies) is Got ==> {
            &&& 0 <= j < replies.len()
            &&& stored(replies[j])
            &&& logs_next(approval_made(user, id, change, replies.take(j)))
        },
{
    let applied = diff_applied(change.realm, change.user_id, change.diff, replies);
    let j = used(applied, replies) + 4;
    lemma_steady_diff(change.realm, change.user_id, change.diff, replies, j);
    if let Ask::Got(_, rest) = applied {
        lemma_steady_asked(EffectModel::ReadClock, rest, 4);
        if let Ask::Got(now, rest) = time_asked(rest) {
            lemma_logs_resolution(
                id,
                resolved(change, ChangeStatus::Approved, user.username, now, change.reject_reason),
                user.username,
                "approve_change"@,
                "change "@ + id + " approved"@,
                good_news("Change for "@ + change.username + " approved."@),
                rest,
            );
            assert(rest.len() > 3 ==> rest[3] == replies[j]);
        }
    }
    j
}

proof fn lemma_logs_rejection(
    user: SessionUserModel,
    id: Seq<char>,
    change: PendingChangeModel,
    reason: Option<Seq<char>>,
    replies: Seq<ReplyModel>,
)
    ensures
        rejection_made(user, id, change, reason, replies) is Got ==> {
            &&& replies.len() > 4
            &&& stored(replies[4])
            &&& logs_next(rejection_made(user, id, change, reason, replies.take(4)))
        },
{
    lemma_steady_asked(EffectModel::ReadClock, replies, 4);
    if let Ask::Got(now, rest) = time_asked(replies) {
        lemma_logs_resolution(
            id,
            resolved(change, ChangeStatus::Rejected, user.username, now, reason),
            user.username,
            "reject_change"@,
            rejection_detail(id, reason),
            notice("Change for "@ + change.username + " rejected."@),
            rest,
        );
    }
}

proof fn lemma_logs_cancellation(
    user: SessionUserModel,
    id: Seq<char>,
    change: PendingChangeModel,
    replies: Seq<ReplyModel>,
)
    ensures
        cancellation_made(user, id, change, replies) is Got ==> {
            &&& replies.len() > 4
            &&& stored(replies[4])
            &&& logs_next(cancellation_made(user, id, change, replies.take(4)))
        },
{
    lemma_steady_asked(EffectModel::ReadClock, replies, 4);
    if let Ask::Got(now, rest) = time_asked(replies) {
        let reason = Some("Cancelled by proposer"@);
        lemma_logs_resolution(
            id,
            resolved(change, ChangeStatus::Rejected, user.username, now, reason),
            user.username,
            "cancel_change"@,
            "change "@ + id + " cancelled by proposer"@,
            good_news("Proposal cancelled."@),
            rest,
        );
    }
}

proof fn lemma_logs_approval_asked(
    user: SessionUserModel,
    id: Seq<char>,
    replies: Seq<ReplyModel>,
    k: int,
) -> (j: int)
    requires
        0 <= k <= replies.len(),
        alters_next(approval_asked(user, id, replies.take(k))),
    ensures
        approval_asked(user, id, replies) is Got ==> {
            &&& 0 <= j < replies.len()
            &&& stored(replies[j])
            &&& logs_next(approval_asked(user, id, replies.take(j)))
        },
{
    let locked = change_locked(id, replies);
    lemma_steady_lock(id, replies, k);
    if let Ask::Got(Some(change), rest) = locked {
        let i = lemma_logs_approval(user, id, change, rest);
        let j = used(locked, replies) + i;
        lemma_steady_lock(id, replies, j);
        assert(0 <= i < rest.len() ==> rest[i] == replies[j]);
        j
    } else {
        0
    }
}

proof fn lemma_logs_rejection_asked(
    user: SessionUserModel,
    id: Seq<char>,
    reason: Option<Seq<char>>,
    replies: Seq<ReplyModel>,
    k: int,
) -> (j: int)
    requires
        0 <= k <= replies.len(),
        alters_next(rejection_asked(user, id, reason, replies.take(k))),
    ensures
        rejection_asked(user, id, reason, replies) is Got ==> {
            &&& 0 <= j < replies.len()
            &&& stored(replies[j])
            &&& logs_next(rejection_asked(user, id, reason, replies.take(j)))
        },
{
    let locked = change_locked(id, replies);
    lemma_steady_lock(id, replies, k);
    if let Ask::Got(Some(change), rest) = locked {
        let j = used(locked, replies) + 4;
        lemma_logs_rejection(user, id, change, reason, rest);
        lemma_steady_lock(id, replies, j);
        assert(rest.len() > 4 ==> rest[4] == replies[j]);
        j
    } else {
        0
    }
}

proof fn lemma_logs_cancellation_asked(
    user: SessionUserModel,
    id: Seq<char>,
    replies: Seq<ReplyModel>,
    k: int,
) -> (j: int)
    requires
        0 <= k <= replies.len(),
        alters_next(cancellation_asked(user, id, replies.take(k))),
    ensures
        cancellation_asked(user, id, replies) is Got ==> {
            &&& 0 <= j < replies.len()
            &&& stored(replies[j])
            &&& logs_next(cancellation_asked(user, id, replies.take(j)))
        },
{
    let locked = change_locked(id, replies);
    lemma_steady_lock(id, replies, k);
    if let Ask::Got(Some(change), rest) = locked {
        let j = used(locked, replies) + 4;
        lemma_logs_cancellation(user, id, change, rest);
        lemma_steady_lock(id, replies, j);
        assert(rest.len() > 4 ==> rest[4] == replies[j]);
        j
    } else {
        0
    }
}

proof fn lemma_forms_alter_nothing(
    config: ConfigModel,
    token: Seq<char>,
    replies: Seq<ReplyModel>,
)
    ensures
        !alters_next(admin_form_checked(config, token, replies)),
        !alters_next(session_form_checked(config, token, replies)),
{
    reveal(session_required);
    reveal(admin_form_checked);
    reveal(session_form_checked);
}

proof fn lemma_logs_approve(
    config: ConfigModel,
    id: Seq<char>,
    form: ConfirmFormModel,
    replies: Seq<ReplyModel>,
    k: int,
) -> (j: int)
    requires
        0 <= k <= replies.len(),
        alters_next(change_approved(config, id, form, replies.take(k))),
    ensures
        change_approved(config, id, form, replies) is Got ==> {
            &&& 0 <= j < replies.len()
            &&& stored(replies[j])
            &&& logs_next(change_approved(config, id, form, replies.take(j)))
        },
{
    reveal(change_approved);
    let checked = admin_form_checked(config, form.csrf_token, replies);
    lemma_steady_admin_form(config, form.csrf_token, replies, k);
    lemma_forms_alter_nothing(config, form.csrf_token, replies.take(k));
    if let Ask::Got(user, rest) = checked {
        let n = used(checked, replies);
        let i = lemma_logs_approval_asked(user, id, rest, k - n);
        lemma_steady_admin_form(config, form.csrf_token, replies, n + i);
        assert(0 <= i < rest.len() ==> rest[i] == replies[n + i]);
        n + i
    } else {
        0
    }
}

proof fn lemma_logs_reject(
    config: ConfigModel,
    id: Seq<char>,
    form: RejectFormModel,
    replies: Seq<ReplyModel>,
    k: int,
) -> (j: int)
    requires
        0 <= k <= replies.len(),
        alters_next(change_rejected(config, id, form, replies.take(k))),
    ensures
        change_rejected(config, id, form, replies) is Got ==> {
            &&& 0 <= j < replies.len()
            &&& stored(replies[j])
            &&& logs_next(change_rejected(config, id, form, replies.take(j)))
        },
{
    reveal(change_rejected);
    let checked = admin_form_checked(config, form.csrf_token, replies);
    lemma_steady_admin_form(config, form.csrf_token, replies, k);
    lemma_forms_alter_nothing(config, form.csrf_token, replies.take(k));
    if let Ask::Got(user, rest) = checked {
        let n = used(checked, replies);
        let i = lemma_logs_rejection_asked(user, id, form.reason, rest, k - n);
        lemma_steady_admin_form(config, form.csrf_token, replies, n + i);
        assert(0 <= i < rest.len() ==> rest[i] == replies[n + i]);
        n + i
    } else {
        0
    }
}

proof fn lemma_logs_cancel(
    config: ConfigModel,
    id: Seq<char>,
    form: ConfirmFormModel,
    replies: Seq<ReplyModel>,
    k: int,
) -> (j: int)
    requires
        0 <= k <= replies.len(),
        alters_next(change_cancelled(config, id, form, replies.take(k))),
    ensures
        change_cancelled(config, id, form, replies) is Got ==> {
            &&& 0 <= j < replies.len()
            &&& stored(replies[j])
            &&& logs_next(change_cancelled(config, id, form, replies.take(j)))
        },
{
    reveal(change_cancelled);
    let checked = session_form_checked(config, form.csrf_token, replies);
    lemma_steady_session_form(config, form.csrf_token, replies, k);
    lemma_forms_alter_nothing(config, form.csrf_token, replies.take(k));
    if let Ask::Got(user, rest) = checked {
        let n = used(checked, replies);
        let i = lemma_logs_cancellation_asked(user, id, rest, k - n);
        lemma_steady_session_form(config, form.csrf_token, replies, n + i);
        assert(0 <= i < rest.len() ==> rest[i] == replies[n + i]);
        n + i
    } else {
        0
    }
}

// ── Edits ────────────────────────────────────────────────────────────────────

proof fn lemma_logs_edit_made(
    role: Role,
    edit: EditRequestModel,
    replies: Seq<ReplyModel>,
) -> (j: int)
    ensures
        edit_made(role, edit, replies) is Got ==> {
            &&& 0 <= j < replies.len()
            &&& stored(replies[j])
            &&& logs_next(edit_made(role, edit, replies.take(j)))
        },
{
    match role {
        Role::Admin => {
            let applied = diff_applied(edit.realm, edit.user_id, edit.diff, replies);
            let j = used(applied, replies) + 1;
            lemma_steady_diff(edit.realm, edit.user_id, edit.diff, replies, j);
            if let Ask::Got(_, rest) = applied {
                assert(rest.len() > 1 ==> rest[1] == replies[j]);
            }
            j
        },
        Role::Operator => 3,
    }
}

proof fn lemma_logs_edits_made(
    user: SessionUserModel,
    realm: Seq<char>,
    id: Seq<char>,
    username: Seq<char>,
    diff: Seq<FieldChangeModel>,
    replies: Seq<ReplyModel>,
) -> (j: int)
    requires
        diff.len() > 0,
    ensures
        edits_made(user, realm, id, username, diff, replies) is Got ==> {
            &&& 0 <= j < replies.len()
            &&& stored(replies[j])
            &&& logs_next(edits_made(user, realm, id, username, diff, replies.take(j)))
        },
{
    let edit = EditRequestModel { realm, user_id: id, username, actor: user.username, diff };
    lemma_logs_edit_made(user.role, edit, replies)
}

proof fn lemma_logs_form_processed(
    user: SessionUserModel,
    realm: Seq<char>,
    id: Seq<char>,
    form: EditFormModel,
    replies: Seq<ReplyModel>,
    k: int,
) -> (j: int)
    requires
        0 <= k <= replies.len(),
        alters_next(form_processed(user, realm, id, form, replies.take(k))),
    ensures
        form_processed(user, realm, id, form, replies) is Got ==> {
            &&& 0 <= j < replies.len()
            &&& stored(replies[j])
            &&& logs_next(form_processed(user, realm, id, form, replies.take(j)))
        },
{
    let get = ProviderCallModel::GetUser { realm, id };
    let get_groups = ProviderCallModel::GetUserGroups { realm, user_id: id };
    let list = ProviderCallModel::ListGroups { realm };
    lemma_steady_call(get, replies, k);
    if let Ask::Got(existing, rest) = user_asked(get, replies) {
        lemma_steady_call(get_groups, rest, k - 1);
        if let Ask::Got(groups, last) = groups_asked(get_groups, rest) {
            lemma_steady_call(list, last, k - 2);
            if let Ask::Got(teams, end) = teams_asked(realm, last) {
                let diff = form_edits(form, existing, groups, teams);
                if diff.len() > 0 {
                    let i = lemma_logs_edits_made(user, realm, id, existing.username, diff, end);
                    lemma_steady_call(get, replies, 3 + i);
                    lemma_steady_call(get_groups, rest, 2 + i);
                    lemma_steady_call(list, last, 1 + i);
                    assert(0 <= i < end.len() ==> end[i] == replies[3 + i]);
                    3 + i
                } else {
                    0
                }
            } else {
                0
            }
        } else {
            0
        }
    } else {
        0
    }
}

proof fn lemma_logs_edit_user(
    config: ConfigModel,
    realm: Seq<char>,
    id: Seq<char>,
    form: EditFormModel,
    replies: Seq<ReplyModel>,
    k: int,
) -> (j: int)
    requires
        0 <= k <= replies.len(),
        alters_next(user_edited(config, realm, id, form, replies.take(k))),
    ensures
        user_edited(config, realm, id, form, replies) is Got ==> {
            &&& 0 <= j < replies.len()
            &&& stored(replies[j])
            &&& logs_next(user_edited(config, realm, id, form, replies.take(j)))
        },
{
    reveal(user_edited);
    let checked = session_form_checked(config, form.csrf_token, replies);
    lemma_steady_session_form(config, form.csrf_token, replies, k);
    lemma_forms_alter_nothing(config, form.csrf_token, replies.take(k));
    if let Ask::Got(user, rest) = checked {
        let n = used(checked, replies);
        let i = lemma_logs_form_processed(user, realm, id, form, rest, k - n);
        lemma_steady_session_form(config, form.csrf_token, replies, n + i);
        assert(0 <= i < rest.len() ==> rest[i] == replies[n + i]);
        n + i
    } else {
        0
    }
}

// ── Accounts ─────────────────────────────────────────────────────────────────

proof fn lemma_logs_change_recorded(
    call: ProviderCallModel,
    actor: Seq<char>,
    action: Seq<char>,
    realm: Seq<char>,
    target: Option<Seq<char>>,
    detail: Seq<char>,
    flash: FlashModel,
    to: Seq<char>,
    replies: Seq<ReplyModel>,
)
    ensures
        change_recorded(call, actor, action, realm, target, detail, flash, to, replies) is Got ==> {
            &&& replies.len() > 2
            &&& stored(replies[2])
            &&& logs_next(change_recorded(call, actor, action, realm, target, detail, flash, to, replies.take(2)))
        },
{
}

proof fn lemma_logs_password_stored(
    actor: Seq<char>,
    realm: Seq<char>,
    id: Seq<char>,
    form: SetPasswordFormModel,
    replies: Seq<ReplyModel>,
)
    ensures
        password_stored(actor, realm, id, form, replies) is Got ==> {
            &&& replies.len() > 3
            &&& stored(replies[3])
            &&& logs_next(password_stored(actor, realm, id, form, replies.take(3)))
        },
{
}

proof fn lemma_logs_account_made(
    actor: SessionUserModel,
    form: NewUserFormModel,
    team: Option<TeamModel>,
    replies: Seq<ReplyModel>,
)
    ensures
        account_made(actor, form, team, replies) is Got ==> {
            &&& replies.len() > 2
            &&& stored(replies[2])
            &&& logs_next(account_made(actor, form, team, replies.take(2)))
        },
{
}

proof fn lemma_logs_bulk_made(
    actor: SessionUserModel,
    body: BulkEditBodyModel,
    teams: Seq<GroupModel>,
    replies: Seq<ReplyModel>,
) -> (j: int)
    requires
        actor.role == Role::Admin,
    ensures
        bulk_made(actor, body, teams, replies) is Got ==> {
            &&& 0 <= j < replies.len()
            &&& stored(replies[j])
            &&& logs_next(bulk_made(actor, body, teams, replies.take(j)))
        },
{
    let team = chosen_team(teams, body.team_group_id);
    let changed = users_changed(body.users, body.enabled, team, teams, replies);
    let j = used(changed, replies) + 1;
    lemma_steady_users_changed(body.users, body.enabled, team, teams, replies, j);
    if let Ask::Got(_, rest) = changed {
        assert(rest.len() > 1 ==> rest[1] == replies[j]);
    }
    j
}

proof fn lemma_logs_team_made(
    config: ConfigModel,
    actor: Seq<char>,
    realm: Seq<char>,
    name: Seq<char>,
    replies: Seq<ReplyModel>,
) -> (j: int)
    ensures
        team_made(config, actor, realm, name, replies) is Got ==> {
            &&& 0 <= j < replies.len()
            &&& stored(replies[j])
            &&& logs_next(team_made(config, actor, realm, name, replies.take(j)))
        },
{
    let ensured = parent_ensured(config, realm, replies);
    let j = used(ensured, replies) + 2;
    lemma_steady_parent(config, realm, replies, j);
    if let Ask::Got(_, rest) = ensured {
        assert(rest.len() > 2 ==> rest[2] == replies[j]);
    }
    j
}

proof fn lemma_logs_assign_role(
    config: ConfigModel,
    realm: Seq<char>,
    user_id: Seq<char>,
    form: RoleAssignFormModel,
    replies: Seq<ReplyModel>,
    k: int,
) -> (j: int)
    requires
        0 <= k <= replies.len(),
        alters_next(role_assigned(config, realm, user_id, form, replies.take(k))),
    ensures
        role_assigned(config, realm, user_id, form, replies) is Got ==> {
            &&& 0 <= j < replies.len()
            &&& stored(replies[j])
            &&& logs_next(role_assigned(config, realm, user_id, form, replies.take(j)))
        },
{
    reveal(role_assigned);
    let checked = admin_form_checked(config, form.csrf_token, replies);
    lemma_steady_admin_form(config, form.csrf_token, replies, k);
    lemma_forms_alter_nothing(config, form.csrf_token, replies.take(k));
    if let Ask::Got(user, rest) = checked {
        let n = used(checked, replies);
        let i = 3;
        lemma_steady_call(ProviderCallModel::ListRealmRoles { realm }, rest, i);
        if let Ask::Got(role, last) = role_by_id_asked(realm, form.role_id, rest) {
            lemma_logs_change_recorded(
                ProviderCallModel::AssignRealmRole { realm, user_id, role },
                user.username,
                "assign_role"@,
                realm,
                Some(user_id),
                "role '"@ + role.name + "' assigned"@,
                good_news("Role '"@ + role.name + "' assigned."@),
                user_path(realm, user_id),
                last,
            );
        }
        lemma_steady_admin_form(config, form.csrf_token, replies, n + i);
        assert(0 <= i < rest.len() ==> rest[i] == replies[n + i]);
        n + i
    } else {
        0
    }
}

proof fn lemma_logs_remove_role(
    config: ConfigModel,
    realm: Seq<char>,
    user_id: Seq<char>,
    form: RoleRemoveFormModel,
    replies: Seq<ReplyModel>,
    k: int,
) -> (j: int)
    requires
        0 <= k <= replies.len(),
        alters_next(role_removed(config, realm, user_id, form, replies.take(k))),
    ensures
        role_removed(config, realm, user_id, form, replies) is Got ==> {
            &&& 0 <= j < replies.len()
            &&& stored(replies[j])
            &&& logs_next(role_removed(config, realm, user_id, form, replies.take(j)))
        },
{
    reveal(role_removed);
    let checked = admin_form_checked(config, form.csrf_token, replies);
    lemma_steady_admin_form(config, form.csrf_token, replies, k);
    lemma_forms_alter_nothing(config, form.csrf_token, replies.take(k));
    if let Ask::Got(user, rest) = checked {
        let n = used(checked, replies);
        let i = 2;
        let role = bare_role(form.role_id, form.role_name);
        lemma_logs_change_recorded(
            ProviderCallModel::RemoveRealmRole { realm, user_id, role },
            user.username,
            "remove_role"@,
            realm,
            Some(user_id),
            "role '"@ + form.role_name + "' removed"@,
            good_news("Role '"@ + form.role_name + "' removed."@),
            user_path(realm, user_id),
            rest,
        );
        lemma_steady_admin_form(config, form.csrf_token, replies, n + i);
        assert(0 <= i < rest.len() ==> rest[i] == replies[n + i]);
        n + i
    } else {
        0
    }
}

proof fn lemma_logs_set_password(
    config: ConfigModel,
    realm: Seq<char>,
    id: Seq<char>,
    form: SetPasswordFormModel,
    replies: Seq<ReplyModel>,
    k: int,
) -> (j: int)
    requires
        0 <= k <= replies.len(),
        alters_next(password_set(config, realm, id, form, replies.take(k))),
    ensures
        password_set(config, realm, id, form, replies) is Got ==> {
            &&& 0 <= j < replies.len()
            &&& stored(replies[j])
            &&& logs_next(password_set(config, realm, id, form, replies.take(j)))
        },
{
    reveal(password_set);
    let checked = admin_form_checked(config, form.csrf_token, replies);
    lemma_steady_admin_form(config, form.csrf_token, replies, k);
    lemma_forms_alter_nothing(config, form.csrf_token, replies.take(k));
    if let Ask::Got(user, rest) = checked {
        let n = used(checked, replies);
        let i = 3;
        lemma_logs_password_stored(user.username, realm, id, form, rest);
        lemma_steady_admin_form(config, form.csrf_token, replies, n + i);
        assert(0 <= i < rest.len() ==> rest[i] == replies[n + i]);
        n + i
    } else {
        0
    }
}

proof fn lemma_logs_create_user(
    config: ConfigModel,
    form: NewUserFormModel,
    replies: Seq<ReplyModel>,
    k: int,
) -> (j: int)
    requires
        0 <= k <= replies.len(),
        alters_next(user_created(config, form, replies.take(k))),
    ensures
        user_created(config, form, replies) is Got ==> {
            &&& 0 <= j < replies.len()
            &&& stored(replies[j])
            &&& logs_next(user_created(config, form, replies.take(j)))
        },
{
    reveal(user_created);
    let checked = admin_form_checked(config, form.csrf_token, replies);
    lemma_steady_admin_form(config, form.csrf_token, replies, k);
    lemma_forms_alter_nothing(config, form.csrf_token, replies.take(k));
    if let Ask::Got(actor, rest) = checked {
        let n = used(checked, replies);
        let found = team_groups_asked(form.realm, form.team_group_id, rest);
        let i = used(found, rest) + 2;
        lemma_steady_team_groups(form.realm, form.team_group_id, rest, i);
        if let Ask::Got(teams, last) = found {
            lemma_logs_account_made(actor, form, chosen_team(teams, form.team_group_id), last);
            assert(last.len() > 2 ==> last[2] == rest[i]);
        }
        lemma_steady_admin_form(config, form.csrf_token, replies, n + i);
        assert(0 <= i < rest.len() ==> rest[i] == replies[n + i]);
        n + i
    } else {
        0
    }
}

proof fn lemma_logs_bulk_edit(
    config: ConfigModel,
    body: BulkEditBodyModel,
    replies: Seq<ReplyModel>,
    k: int,
) -> (j: int)
    requires
        0 <= k <= replies.len(),
        alters_next(bulk_edited(config, body, replies.take(k))),
    ensures
        bulk_edited(config, body, replies) is Got ==> {
            &&& 0 <= j < replies.len()
            &&& stored(replies[j])
            &&& logs_next(bulk_edited(config, body, replies.take(j)))
        },
{
    reveal(bulk_edited);
    let checked = admin_form_checked(config, body.csrf_token, replies);
    lemma_steady_admin_form(config, body.csrf_token, replies, k);
    lemma_forms_alter_nothing(config, body.csrf_token, replies.take(k));
    if let Ask::Got(actor, rest) = checked {
        let n = used(checked, replies);
        let realm = bulk_realm(body.users);
        let found = team_groups_asked(realm, body.team_group_id, rest);
        let m = used(found, rest);
        lemma_steady_team_groups(realm, body.team_group_id, rest, m);
        let i = if let Ask::Got(teams, last) = found {
            let i = lemma_logs_bulk_made(actor, body, teams, last);
            assert(0 <= i < last.len() ==> last[i] == rest[m + i]);
            m + i
        } else {
            0
        };
        lemma_steady_team_groups(realm, body.team_group_id, rest, i);
        lemma_steady_admin_form(config, body.csrf_token, replies, n + i);
        assert(0 <= i < rest.len() ==> rest[i] == replies[n + i]);
        n + i
    } else {
        0
    }
}

// ── Teams, clients, access ───────────────────────────────────────────────────

proof fn lemma_logs_create_team(
    config: ConfigModel,
    form: CreateTeamFormModel,
    replies: Seq<ReplyModel>,
    k: int,
) -> (j: int)
    requires
        0 <= k <= replies.len(),
        alters_next(team_created(config, form, replies.take(k))),
    ensures
        team_created(config, form, replies) is Got ==> {
            &&& 0 <= j < replies.len()
            &&& stored(replies[j])
            &&& logs_next(team_created(config, form, replies.take(j)))
        },
{
    reveal(team_created);
    let checked = admin_form_checked(config, form.csrf_token, replies);
    lemma_steady_admin_form(config, form.csrf_token, replies, k);
    lemma_forms_alter_nothing(config, form.csrf_token, replies.take(k));
    if let Ask::Got(user, rest) = checked {
        let n = used(checked, replies);
        let name = trimmed(form.name);
        let i = lemma_logs_team_made(config, user.username, form.realm, name, rest);
        lemma_steady_admin_form(config, form.csrf_token, replies, n + i);
        assert(0 <= i < rest.len() ==> rest[i] == replies[n + i]);
        n + i
    } else {
        0
    }
}

proof fn lemma_logs_edit_client(
    config: ConfigModel,
    realm: Seq<char>,
    id: Seq<char>,
    form: EditClientFormModel,
    replies: Seq<ReplyModel>,
    k: int,
) -> (j: int)
    requires
        0 <= k <= replies.len(),
        alters_next(client_edited(config, realm, id, form, replies.take(k))),
    ensures
        client_edited(config, realm, id, form, replies) is Got ==> {
            &&& 0 <= j < replies.len()
            &&& stored(replies[j])
            &&& logs_next(client_edited(config, realm, id, form, replies.take(j)))
        },
{
    reveal(client_edited);
    let checked = admin_form_checked(config, form.csrf_token, replies);
    lemma_steady_admin_form(config, form.csrf_token, replies, k);
    lemma_forms_alter_nothing(config, form.csrf_token, replies.take(k));
    if let Ask::Got(user, rest) = checked {
        let n = used(checked, replies);
        let i = 2;
        lemma_logs_change_recorded(
            ProviderCallModel::UpdateClient { realm, id, settings: client_settings(form) },
            user.username,
            "edit_client"@,
            realm,
            None,
            "client "@ + id + " updated"@,
            good_news("Client settings saved."@),
            client_path(realm, id),
            rest,
        );
        lemma_steady_admin_form(config, form.csrf_token, replies, n + i);
        assert(0 <= i < rest.len() ==> rest[i] == replies[n + i]);
        n + i
    } else {
        0
    }
}

proof fn lemma_logs_grant(
    config: ConfigModel,
    form: GrantFormModel,
    replies: Seq<ReplyModel>,
    k: int,
) -> (j: int)
    requires
        0 <= k <= replies.len(),
        alters_next(access_granted(config, form, replies.take(k))),
    ensures
        access_granted(config, form, replies) is Got ==> {
            &&& 0 <= j < replies.len()
            &&& stored(replies[j])
            &&& logs_next(access_granted(config, form, replies.take(j)))
        },
{
    reveal(access_granted);
    let checked = admin_form_checked(config, form.csrf_token, replies);
    lemma_steady_admin_form(config, form.csrf_token, replies, k);
    lemma_forms_alter_nothing(config, form.csrf_token, replies.take(k));
    if let Ask::Got(user, rest) = checked {
        let n = used(checked, replies);
        let i = 4;
        let name = granted_role(config, form.role);
        let query = users_like(Some(form.username), 100);
        lemma_steady_call(
            ProviderCallModel::ListUsers { realm: form.realm, query },
            rest,
            i,
        );
        if let Ask::Got(target, last) = user_by_name_asked(form.realm, form.username, rest) {
            lemma_steady_call(ProviderCallModel::ListRealmRoles { realm: form.realm }, last, i - 1);
            if let Ask::Got(role, end) = role_by_name_asked(form.realm, name, last) {
                lemma_logs_change_recorded(
                    ProviderCallModel::AssignRealmRole {
                        realm: form.realm,
                        user_id: target.id,
                        role,
                    },
                    user.username,
                    "grant_access"@,
                    form.realm,
                    Some(form.username),
                    "granted "@ + form.username + " role '"@ + name + "'"@,
                    good_news(form.username + " granted "@ + form.role + " access."@),
                    admin_path(form.realm),
                    end,
                );
            }
        }
        lemma_steady_admin_form(config, form.csrf_token, replies, n + i);
        assert(0 <= i < rest.len() ==> rest[i] == replies[n + i]);
        n + i
    } else {
        0
    }
}

proof fn lemma_logs_revoke(
    config: ConfigModel,
    form: RevokeFormModel,
    replies: Seq<ReplyModel>,
    k: int,
) -> (j: int)
    requires
        0 <= k <= replies.len(),
        alters_next(access_revoked(config, form, replies.take(k))),
    ensures
        access_revoked(config, form, replies) is Got ==> {
            &&& 0 <= j < replies.len()
            &&& stored(replies[j])
            &&& logs_next(access_revoked(config, form, replies.take(j)))
        },
{
    reveal(access_revoked);
    let checked = admin_form_checked(config, form.csrf_token, replies);
    lemma_steady_admin_form(config, form.csrf_token, replies, k);
    lemma_forms_alter_nothing(config, form.csrf_token, replies.take(k));
    if let Ask::Got(user, rest) = checked {
        let n = used(checked, replies);
        let found = revoked_role_asked(form, rest);
        let i = used(found, rest) + 2;
        lemma_steady_call(ProviderCallModel::ListRealmRoles { realm: form.realm }, rest, i);
        if let Ask::Got(role, last) = found {
            lemma_logs_change_recorded(
                ProviderCallModel::RemoveRealmRole {
                    realm: form.realm,
                    user_id: form.user_id,
                    role,
                },
                user.username,
                "revoke_access"@,
                form.realm,
                Some(form.username),
                "revoked '"@ + form.role_name + "' from "@ + form.username,
                notice("Access revoked for "@ + form.username + "."@),
                admin_path(form.realm),
                last,
            );
            assert(last.len() > 2 ==> last[2] == rest[i]);
        }
        lemma_steady_admin_form(config, form.csrf_token, replies, n + i);
        assert(0 <= i < rest.len() ==> rest[i] == replies[n + i]);
        n + i
    } else {
        0
    }
}

// ── Emergency ────────────────────────────────────────────────────────────────

proof fn lemma_logs_user_promoted(
    config: ConfigModel,
    realm: Seq<char>,
    username: Seq<char>,
    ip: Seq<char>,
    replies: Seq<ReplyModel>,
)
    ensures
        user_promoted(config, realm, username, ip, replies) matches Ask::Got(outcome, _)
            && succeeds(outcome) ==> {
            &&& replies.len() > 4
            &&& logs_next(user_promoted(config, realm, username, ip, replies.take(4)))
        },
{
}

proof fn lemma_logs_emergency(
    config: ConfigModel,
    ip: Seq<char>,
    body: PromoteBodyModel,
    replies: Seq<ReplyModel>,
) -> (j: int)
    ensures
        emergency_promoted(config, ip, body, replies) matches Ask::Got(outcome, _) && succeeds(
            outcome,
        ) ==> {
            &&& 0 <= j < replies.len()
            &&& logs_next(emergency_promoted(config, ip, body, replies.take(j)))
        },
{
    reveal(emergency_promoted);
    let counted = attempt_counted(ip, replies);
    let key = attempts_key(ip);
    let j = used(counted, replies) + 4;
    lemma_steady_asked(EffectModel::CountAttempt { key }, replies, j);
    if replies.len() > 0 {
        lemma_steady_asked(
            EffectModel::ExpireAttempts { key, seconds: ATTEMPT_SECONDS },
            replies.skip(1),
            j - 1,
        );
    }
    if let Ask::Got(_, rest) = counted {
        lemma_logs_user_promoted(config, issuer_realm(config), body.username, ip, rest);
    }
    j
}

// ── Every request ────────────────────────────────────────────────────────────

/// The effect at `j` wrote a successful action to the audit log.
pub open spec fn recorded_at(
    config: ConfigModel,
    request: RequestModel,
    replies: Seq<ReplyModel>,
    j: int,
) -> bool {
    &&& 0 <= j < replies.len()
    &&& logs(response(config, request, replies.take(j)))
    &&& replies[j] == ReplyModel::Storage(StorageAnswerModel::Done) || request is EmergencyPromote
}

/// Every request that changed an account or the record of a change, and then ended as it was
/// meant to, has written a successful action to the audit log. Only after an emergency
/// promotion is it not asked whether the log took it.
pub proof fn lemma_changes_are_recorded(
    config: ConfigModel,
    request: RequestModel,
    replies: Seq<ReplyModel>,
    k: int,
    outcome: OutcomeModel,
)
    requires
        0 <= k < replies.len(),
        alters(response(config, request, replies.take(k))),
        response(config, request, replies) == StepModel::Finish(outcome),
        succeeds(outcome),
    ensures
        exists|j: int| recorded_at(config, request, replies, j),
{
    if only_looks(request) {
        lemma_pages_change_nothing(
            config,
            request,
            replies.take(k),
            response(config, request, replies.take(k))->Perform_0,
        );
    } else {
        lemma_steady(config, request, replies, k);
        let j = match request {
            RequestModel::BulkEdit(body) => lemma_logs_bulk_edit(config, body, replies, k),
            RequestModel::CreateUser(form) => lemma_logs_create_user(config, form, replies, k),
            RequestModel::EditUser { realm, id, form } => lemma_logs_edit_user(
                config,
                realm,
                id,
                form,
                replies,
                k,
            ),
            RequestModel::AssignRole { realm, id, role } => lemma_logs_assign_role(
                config,
                realm,
                id,
                role,
                replies,
                k,
            ),
            RequestModel::RemoveRole { realm, id, removal } => lemma_logs_remove_role(
                config,
                realm,
                id,
                removal,
                replies,
                k,
            ),
            RequestModel::SetPassword { realm, id, password } => lemma_logs_set_password(
                config,
                realm,
                id,
                password,
                replies,
                k,
            ),
            RequestModel::Approve { id, confirm } => lemma_logs_approve(
                config,
                id,
                confirm,
                replies,
                k,
            ),
            RequestModel::Reject { id, rejection } => lemma_logs_reject(
                config,
                id,
                rejection,
                replies,
                k,
            ),
            RequestModel::Cancel { id, confirm } => lemma_logs_cancel(
                config,
                id,
                confirm,
                replies,
                k,
            ),
            RequestModel::CreateTeam(form) => lemma_logs_create_team(config, form, replies, k),
            RequestModel::EditClient { realm, id, client } => lemma_logs_edit_client(
                config,
                realm,
                id,
                client,
                replies,
                k,
            ),
            RequestModel::GrantAccess(form) => lemma_logs_grant(config, form, replies, k),
            RequestModel::RevokeAccess(form) => lemma_logs_revoke(config, form, replies, k),
            RequestModel::EmergencyPromote { ip, body } => lemma_logs_emergency(
                config,
                ip,
                body,
                replies,
            ),
            _ => 0,
        };
        assert(recorded_at(config, request, replies, j));
    }
}

} // verus!
