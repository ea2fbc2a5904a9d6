//! Replies are used one at a time, in their order: what a part of a request comes to after
//! some of the replies is not changed by those that follow.

use super::group_skip;
use super::pages::lemma_steady_page;
use crate::asks::{
    any_asked, asked, audit_asked, csrf_asked, group_asked, groups_asked, lock_asked,
    mutation_asked, provider_asked, roles_asked, save_asked, stamp_asked, storage_asked,
    success_entry, time_asked, user_asked,
};
use crate::config::ConfigModel;
use crate::effects::{Asked, EffectModel, OutcomeModel, ReplyModel, StepModel};
use crate::lists::first_where;
use crate::portal::{handled, response, RequestModel};
use crate::provider::{
    users_like, GroupModel, ProviderAnswerModel, ProviderCallModel, RoleModel, UserModel,
};
use crate::routes::{
    admin_form_checked, admin_required, flash_left, holds_group, home_realm, role_names,
    session_form_checked, session_required, session_user_asked, teams_asked, user_path,
};
use crate::routes::admin::{
    access_granted, access_revoked, admin_path, granted_role, revoked_role_asked,
    user_by_name_asked, user_named, GrantFormModel, RevokeFormModel,
};
use crate::routes::changes::{
    already_processed, approval_asked, approval_made, cancellation_asked, cancellation_made,
    cancellation_refused, change_approved, change_cancelled, change_locked, change_rejected,
    lock_key, rejection_asked, rejection_detail, rejection_made, resolution_stored, resolved,
    ConfirmFormModel, RejectFormModel, LOCK_SECONDS,
};
use crate::routes::clients::{client_edited, client_path, client_settings, EditClientFormModel};
use crate::routes::emergency::{
    attempt_counted, attempts_key, emergency_promoted, issuer_realm, promotion_detail,
    promotion_made, user_promoted, PromoteBodyModel, ATTEMPT_SECONDS,
};
use crate::routes::teams::{parent_ensured, team_created, team_made, CreateTeamFormModel};
use crate::routes::users::access::{
    bare_role, change_recorded, password_detail, password_set, password_stored, role_assigned,
    role_by_id_asked, role_by_name_asked, role_removed, RoleAssignFormModel, RoleRemoveFormModel,
    SetPasswordFormModel,
};
use crate::routes::users::bulk::{
    bulk_detail, bulk_edited, bulk_made, bulk_realm, chosen_team, status_set, team_groups_asked,
    team_joined, user_changed, users_changed, BulkEditBodyModel, BulkUserModel, TeamModel,
};
use crate::routes::users::create::{
    account_made, new_account, team_assigned, user_created, NewUserFormModel,
};
use crate::routes::users::edit::{
    edits_made, form_edits, form_processed, user_edited, EditFormModel,
};
use crate::script::Ask;
use crate::service::changes::{
    diff_applied, fields_applied, groups_left, team_change, team_moved, update_of,
};
use crate::service::users::{edit_made, proposal, EditRequestModel};
use crate::session::{good_news, notice, role_of, FlashModel, Role, SessionUserModel};
use crate::storage::{ChangeStatus, FieldChangeModel, PendingChangeModel, StorageCallModel};
use crate::text::{decimal, ticked, trimmed};
use vstd::prelude::*;

verus! {

broadcast use group_skip;

/// More replies are needed.
pub open spec fn waits<T>(ask: Asked<T>) -> bool {
    ask matches Ask::Stop(StepModel::Perform(_))
}

/// The request has ended with an error.
pub open spec fn fails<T>(ask: Asked<T>) -> bool {
    ask matches Ask::Stop(StepModel::Finish(OutcomeModel::Failed(_)))
}

/// How `part`, which is what the first `k` replies come to, goes with `whole`, which is what
/// all of them come to: `part` waits for more, or else it has ended as `whole` has, and has
/// used the same replies.
pub open spec fn steady<T>(
    whole: Asked<T>,
    part: Asked<T>,
    replies: Seq<ReplyModel>,
    k: int,
) -> bool {
    match whole {
        Ask::Got(value, rest) => {
            let n = replies.len() - rest.len();
            &&& 0 <= n
            &&& rest == replies.skip(n)
            &&& 0 <= k < n ==> waits(part)
            &&& n <= k <= replies.len() ==> part == Ask::<T, ReplyModel, StepModel>::Got(
                value,
                rest.take(k - n),
            )
        },
        Ask::Stop(StepModel::Finish(_)) => fails(whole) && (0 <= k <= replies.len() ==> (part
            == whole || waits(part))),
        Ask::Stop(StepModel::Perform(_)) => 0 <= k <= replies.len() ==> waits(part),
    }
}

/// How many replies an answered part has used.
pub open spec fn used<T>(ask: Asked<T>, replies: Seq<ReplyModel>) -> int {
    match ask {
        Ask::Got(_, rest) => replies.len() - rest.len(),
        Ask::Stop(_) => 0,
    }
}

pub proof fn lemma_steady_asked(effect: EffectModel, replies: Seq<ReplyModel>, k: int)
    ensures
        steady(asked(effect, replies), asked(effect, replies.take(k)), replies, k),
{
    if replies.len() > 0 && 0 < k <= replies.len() {
        assert(replies.take(k).skip(1) =~= replies.skip(1).take(k - 1));
    }
}

pub proof fn lemma_steady_session(config: ConfigModel, replies: Seq<ReplyModel>, k: int)
    ensures
        steady(
            session_required(config, replies),
            session_required(config, replies.take(k)),
            replies,
            k,
        ),
{
    reveal(session_required);
    lemma_steady_asked(EffectModel::LoadUser, replies, k);
    if let Ask::Got(user, rest) = session_user_asked(replies) {
        let call = ProviderCallModel::GetUserEffectiveRealmRoles {
            realm: home_realm(config),
            user_id: user.sub,
        };
        lemma_steady_asked(EffectModel::Provider(call), rest, k - 1);
        if let Ask::Got(roles, rest) = roles_asked(call, rest) {
            lemma_steady_asked(EffectModel::EndSession, rest, k - 2);
            if let Some(role) = role_of(
                role_names(roles),
                config.role_admin,
                config.role_operator,
            ) {
                lemma_steady_asked(
                    EffectModel::StoreUser(SessionUserModel { role, ..user }),
                    rest,
                    k - 2,
                );
            }
        }
    }
}

pub(crate) proof fn lemma_steady_csrf(token: Seq<char>, replies: Seq<ReplyModel>, k: int)
    ensures
        steady(csrf_asked(token, replies), csrf_asked(token, replies.take(k)), replies, k),
{
    lemma_steady_asked(EffectModel::LoadText { key: "csrf"@ }, replies, k);
}

pub(crate) proof fn lemma_steady_session_form(
    config: ConfigModel,
    token: Seq<char>,
    replies: Seq<ReplyModel>,
    k: int,
)
    ensures
        steady(
            session_form_checked(config, token, replies),
            session_form_checked(config, token, replies.take(k)),
            replies,
            k,
        ),
{
    reveal(session_form_checked);
    let checked = session_required(config, replies);
    lemma_steady_session(config, replies, k);
    if let Ask::Got(_, rest) = checked {
        lemma_steady_csrf(token, rest, k - used(checked, replies));
    }
}

pub(crate) proof fn lemma_steady_admin_form(
    config: ConfigModel,
    token: Seq<char>,
    replies: Seq<ReplyModel>,
    k: int,
)
    ensures
        steady(
            admin_form_checked(config, token, replies),
            admin_form_checked(config, token, replies.take(k)),
            replies,
            k,
        ),
        admin_form_checked(config, token, replies) matches Ask::Got(user, _) ==> user.role
            == Role::Admin,
{
    reveal(admin_form_checked);
    let checked = admin_required(config, replies);
    lemma_steady_session(config, replies, k);
    if let Ask::Got(_, rest) = checked {
        lemma_steady_csrf(token, rest, k - used(checked, replies));
    }
}

pub(crate) proof fn lemma_steady_call(call: ProviderCallModel, replies: Seq<ReplyModel>, k: int)
    ensures
        steady(provider_asked(call, replies), provider_asked(call, replies.take(k)), replies, k),
{
    lemma_steady_asked(EffectModel::Provider(call), replies, k);
}

pub(crate) proof fn lemma_steady_store(call: StorageCallModel, replies: Seq<ReplyModel>, k: int)
    ensures
        steady(storage_asked(call, replies), storage_asked(call, replies.take(k)), replies, k),
{
    lemma_steady_asked(EffectModel::Storage(call), replies, k);
}

pub(crate) proof fn lemma_steady_audit(
    actor: Seq<char>,
    action: Seq<char>,
    realm: Seq<char>,
    target: Option<Seq<char>>,
    detail: Seq<char>,
    replies: Seq<ReplyModel>,
    k: int,
)
    ensures
        steady(
            audit_asked(actor, action, realm, target, detail, replies),
            audit_asked(actor, action, realm, target, detail, replies.take(k)),
            replies,
            k,
        ),
{
    lemma_steady_asked(EffectModel::NewStamp, replies, k);
    if let Ask::Got(stamp, rest) = stamp_asked(replies) {
        lemma_steady_store(
            StorageCallModel::AppendAudit(
                success_entry(stamp, actor, action, realm, target, detail),
            ),
            rest,
            k - 1,
        );
    }
}

pub(crate) proof fn lemma_steady_flash(
    flash: FlashModel,
    to: Seq<char>,
    replies: Seq<ReplyModel>,
    k: int,
)
    ensures
        steady(flash_left(flash, to, replies), flash_left(flash, to, replies.take(k)), replies, k),
{
    lemma_steady_asked(EffectModel::StoreFlash(flash), replies, k);
}

// ── Changes ──────────────────────────────────────────────────────────────────

pub(crate) proof fn lemma_steady_lock(id: Seq<char>, replies: Seq<ReplyModel>, k: int)
    ensures
        steady(change_locked(id, replies), change_locked(id, replies.take(k)), replies, k),
{
    lemma_steady_asked(
        EffectModel::Lock { key: lock_key(id), seconds: LOCK_SECONDS },
        replies,
        k,
    );
    if let Ask::Got(_, rest) = lock_asked(lock_key(id), LOCK_SECONDS, replies) {
        lemma_steady_store(StorageCallModel::GetChange { id }, rest, k - 1);
    }
}

pub(crate) proof fn lemma_steady_groups_left(
    realm: Seq<char>,
    user_id: Seq<char>,
    groups: Seq<GroupModel>,
    keep: Seq<char>,
    replies: Seq<ReplyModel>,
    k: int,
)
    ensures
        steady(
            groups_left(realm, user_id, groups, keep, replies),
            groups_left(realm, user_id, groups, keep, replies.take(k)),
            replies,
            k,
        ),
    decreases groups.len(),
{
    if groups.len() > 0 {
        if groups[0].id == keep {
            lemma_steady_groups_left(realm, user_id, groups.skip(1), keep, replies, k);
        } else {
            let call = ProviderCallModel::RemoveUserFromGroup {
                realm,
                user_id,
                group_id: groups[0].id,
            };
            lemma_steady_call(call, replies, k);
            if let Ask::Got(_, rest) = mutation_asked(call, replies) {
                lemma_steady_groups_left(realm, user_id, groups.skip(1), keep, rest, k - 1);
            }
        }
    }
}

pub(crate) proof fn lemma_steady_team_moved(
    realm: Seq<char>,
    user_id: Seq<char>,
    group_id: Seq<char>,
    replies: Seq<ReplyModel>,
    k: int,
)
    ensures
        steady(
            team_moved(realm, user_id, group_id, replies),
            team_moved(realm, user_id, group_id, replies.take(k)),
            replies,
            k,
        ),
{
    let call = ProviderCallModel::GetUserGroups { realm, user_id };
    lemma_steady_call(call, replies, k);
    if let Ask::Got(groups, rest) = groups_asked(call, replies) {
        let left = groups_left(realm, user_id, groups, group_id, rest);
        lemma_steady_groups_left(realm, user_id, groups, group_id, rest, k - 1);
        if let Ask::Got(_, last) = left {
            lemma_steady_call(
                ProviderCallModel::AddUserToGroup { realm, user_id, group_id },
                last,
                k - 1 - used(left, rest),
            );
        }
    }
}

pub(crate) proof fn lemma_steady_diff(
    realm: Seq<char>,
    user_id: Seq<char>,
    diff: Seq<FieldChangeModel>,
    replies: Seq<ReplyModel>,
    k: int,
)
    ensures
        steady(
            diff_applied(realm, user_id, diff, replies),
            diff_applied(realm, user_id, diff, replies.take(k)),
            replies,
            k,
        ),
{
    lemma_steady_call(
        ProviderCallModel::UpdateUser { realm, id: user_id, update: update_of(diff) },
        replies,
        k,
    );
    let fields = fields_applied(realm, user_id, diff, replies);
    if let Ask::Got(_, rest) = fields {
        if let Some(field) = team_change(diff) {
            lemma_steady_team_moved(realm, user_id, field.after, rest, k - used(fields, replies));
        }
    }
}

pub(crate) proof fn lemma_steady_resolution(
    id: Seq<char>,
    change: PendingChangeModel,
    actor: Seq<char>,
    action: Seq<char>,
    detail: Seq<char>,
    flash: FlashModel,
    replies: Seq<ReplyModel>,
    k: int,
)
    ensures
        steady(
            resolution_stored(id, change, actor, action, detail, flash, replies),
            resolution_stored(id, change, actor, action, detail, flash, replies.take(k)),
            replies,
            k,
        ),
{
    let save = StorageCallModel::SaveChange(change);
    let unlock = EffectModel::Unlock { key: lock_key(id) };
    lemma_steady_store(save, replies, k);
    if let Ask::Got(_, rest) = save_asked(save, replies) {
        lemma_steady_asked(unlock, rest, k - 1);
        if let Ask::Got(_, rest) = any_asked(unlock, rest) {
            let target = Some(change.username);
            lemma_steady_audit(actor, action, change.realm, target, detail, rest, k - 2);
            if let Ask::Got(_, rest) = audit_asked(
                actor,
                action,
                change.realm,
                target,
                detail,
                rest,
            ) {
                lemma_steady_flash(flash, "/changes"@, rest, k - 4);
            }
        }
    }
}

pub(crate) proof fn lemma_steady_processed(id: Seq<char>, replies: Seq<ReplyModel>, k: int)
    ensures
        steady(already_processed(id, replies), already_processed(id, replies.take(k)), replies, k),
        steady(
            cancellation_refused(id, replies),
            cancellation_refused(id, replies.take(k)),
            replies,
            k,
        ),
{
    let unlock = EffectModel::Unlock { key: lock_key(id) };
    lemma_steady_asked(unlock, replies, k);
    if let Ask::Got(_, rest) = any_asked(unlock, replies) {
        lemma_steady_flash(
            notice("This change has already been processed."@),
            "/changes"@,
            rest,
            k - 1,
        );
    }
}

pub(crate) proof fn lemma_steady_approval(
    user: SessionUserModel,
    id: Seq<char>,
    change: PendingChangeModel,
    replies: Seq<ReplyModel>,
    k: int,
)
    ensures
        steady(
            approval_made(user, id, change, replies),
            approval_made(user, id, change, replies.take(k)),
            replies,
            k,
        ),
{
    let applied = diff_applied(change.realm, change.user_id, change.diff, replies);
    lemma_steady_diff(change.realm, change.user_id, change.diff, replies, k);
    if let Ask::Got(_, rest) = applied {
        let k = k - used(applied, replies);
        lemma_steady_asked(EffectModel::ReadClock, rest, k);
        if let Ask::Got(now, rest) = time_asked(rest) {
            lemma_steady_resolution(
                id,
                resolved(change, ChangeStatus::Approved, user.username, now, change.reject_reason),
                user.username,
                "approve_change"@,
                "change "@ + id + " approved"@,
                good_news("Change for "@ + change.username + " approved."@),
                rest,
                k - 1,
            );
        }
    }
}

pub(crate) proof fn lemma_steady_rejection(
    user: SessionUserModel,
    id: Seq<char>,
    change: PendingChangeModel,
    reason: Option<Seq<char>>,
    replies: Seq<ReplyModel>,
    k: int,
)
    ensures
        steady(
            rejection_made(user, id, change, reason, replies),
            rejection_made(user, id, change, reason, replies.take(k)),
            replies,
            k,
        ),
{
    lemma_steady_asked(EffectModel::ReadClock, replies, k);
    if let Ask::Got(now, rest) = time_asked(replies) {
        lemma_steady_resolution(
            id,
            resolved(change, ChangeStatus::Rejected, user.username, now, reason),
            user.username,
            "reject_change"@,
            rejection_detail(id, reason),
            notice("Change for "@ + change.username + " rejected."@),
            rest,
            k - 1,
        );
    }
}

pub(crate) proof fn lemma_steady_cancellation(
    user: SessionUserModel,
    id: Seq<char>,
    change: PendingChangeModel,
    replies: Seq<ReplyModel>,
    k: int,
)
    ensures
        steady(
            cancellation_made(user, id, change, replies),
            cancellation_made(user, id, change, replies.take(k)),
            replies,
            k,
        ),
{
    lemma_steady_asked(EffectModel::ReadClock, replies, k);
    if let Ask::Got(now, rest) = time_asked(replies) {
        let reason = Some("Cancelled by proposer"@);
        lemma_steady_resolution(
            id,
            resolved(change, ChangeStatus::Rejected, user.username, now, reason),
            user.username,
            "cancel_change"@,
            "change "@ + id + " cancelled by proposer"@,
            good_news("Proposal cancelled."@),
            rest,
            k - 1,
        );
    }
}

pub(crate) proof fn lemma_steady_approval_asked(
    user: SessionUserModel,
    id: Seq<char>,
    replies: Seq<ReplyModel>,
    k: int,
)
    ensures
        steady(
            approval_asked(user, id, replies),
            approval_asked(user, id, replies.take(k)),
            replies,
            k,
        ),
{
    let locked = change_locked(id, replies);
    lemma_steady_lock(id, replies, k);
    if let Ask::Got(found, rest) = locked {
        let k = k - used(locked, replies);
        lemma_steady_flash(notice("This change is being processed."@), "/changes"@, rest, k);
        lemma_steady_processed(id, rest, k);
        if let Some(change) = found {
            lemma_steady_approval(user, id, change, rest, k);
        }
    }
}

pub(crate) proof fn lemma_steady_rejection_asked(
    user: SessionUserModel,
    id: Seq<char>,
    reason: Option<Seq<char>>,
    replies: Seq<ReplyModel>,
    k: int,
)
    ensures
        steady(
            rejection_asked(user, id, reason, replies),
            rejection_asked(user, id, reason, replies.take(k)),
            replies,
            k,
        ),
{
    let locked = change_locked(id, replies);
    lemma_steady_lock(id, replies, k);
    if let Ask::Got(found, rest) = locked {
        let k = k - used(locked, replies);
        lemma_steady_flash(notice("This change is being processed."@), "/changes"@, rest, k);
        lemma_steady_processed(id, rest, k);
        if let Some(change) = found {
            lemma_steady_rejection(user, id, change, reason, rest, k);
        }
    }
}

pub(crate) proof fn lemma_steady_cancellation_asked(
    user: SessionUserModel,
    id: Seq<char>,
    replies: Seq<ReplyModel>,
    k: int,
)
    ensures
        steady(
            cancellation_asked(user, id, replies),
            cancellation_asked(user, id, replies.take(k)),
            replies,
            k,
        ),
{
    let locked = change_locked(id, replies);
    lemma_steady_lock(id, replies, k);
    if let Ask::Got(found, rest) = locked {
        let k = k - used(locked, replies);
        lemma_steady_flash(notice("This change is being processed."@), "/changes"@, rest, k);
        lemma_steady_processed(id, rest, k);
        if let Some(change) = found {
            lemma_steady_cancellation(user, id, change, rest, k);
        }
    }
}

pub(crate) proof fn lemma_steady_approve(
    config: ConfigModel,
    id: Seq<char>,
    form: ConfirmFormModel,
    replies: Seq<ReplyModel>,
    k: int,
)
    ensures
        steady(
            change_approved(config, id, form, replies),
            change_approved(config, id, form, replies.take(k)),
            replies,
            k,
        ),
{
    reveal(change_approved);
    let checked = admin_form_checked(config, form.csrf_token, replies);
    lemma_steady_admin_form(config, form.csrf_token, replies, k);
    if let Ask::Got(user, rest) = checked {
        let k = k - used(checked, replies);
        lemma_steady_approval_asked(user, id, rest, k);
    }
}

pub(crate) proof fn lemma_steady_reject(
    config: ConfigModel,
    id: Seq<char>,
    form: RejectFormModel,
    replies: Seq<ReplyModel>,
    k: int,
)
    ensures
        steady(
            change_rejected(config, id, form, replies),
            change_rejected(config, id, form, replies.take(k)),
            replies,
            k,
        ),
{
    reveal(change_rejected);
    let checked = admin_form_checked(config, form.csrf_token, replies);
    lemma_steady_admin_form(config, form.csrf_token, replies, k);
    if let Ask::Got(user, rest) = checked {
        let k = k - used(checked, replies);
        lemma_steady_rejection_asked(user, id, form.reason, rest, k);
    }
}

pub(crate) proof fn lemma_steady_cancel(
    config: ConfigModel,
    id: Seq<char>,
    form: ConfirmFormModel,
    replies: Seq<ReplyModel>,
    k: int,
)
    ensures
        steady(
            change_cancelled(config, id, form, replies),
            change_cancelled(config, id, form, replies.take(k)),
            replies,
            k,
        ),
{
    reveal(change_cancelled);
    let checked = session_form_checked(config, form.csrf_token, replies);
    lemma_steady_session_form(config, form.csrf_token, replies, k);
    if let Ask::Got(user, rest) = checked {
        let k = k - used(checked, replies);
        lemma_steady_cancellation_asked(user, id, rest, k);
    }
}

// ── Edits ────────────────────────────────────────────────────────────────────

pub(crate) proof fn lemma_steady_edit(
    role: Role,
    edit: EditRequestModel,
    replies: Seq<ReplyModel>,
    k: int,
)
    ensures
        steady(edit_made(role, edit, replies), edit_made(role, edit, replies.take(k)), replies, k),
{
    let target = Some(edit.username);
    match role {
        Role::Admin => {
            let applied = diff_applied(edit.realm, edit.user_id, edit.diff, replies);
            lemma_steady_diff(edit.realm, edit.user_id, edit.diff, replies, k);
            if let Ask::Got(_, rest) = applied {
                lemma_steady_audit(
                    edit.actor,
                    "edit_user"@,
                    edit.realm,
                    target,
                    decimal(edit.diff.len()) + " field(s) changed"@,
                    rest,
                    k - used(applied, replies),
                );
            }
        },
        Role::Operator => {
            lemma_steady_asked(EffectModel::NewStamp, replies, k);
            if let Ask::Got(stamp, rest) = stamp_asked(replies) {
                let save = StorageCallModel::SaveChange(proposal(edit, stamp));
                lemma_steady_store(save, rest, k - 1);
                if let Ask::Got(_, rest) = save_asked(save, rest) {
                    lemma_steady_audit(
                        edit.actor,
                        "propose_change"@,
                        edit.realm,
                        target,
                        "change "@ + stamp.id + " pending approval"@,
                        rest,
                        k - 2,
                    );
                }
            }
        },
    }
}

pub(crate) proof fn lemma_steady_edits_made(
    user: SessionUserModel,
    realm: Seq<char>,
    id: Seq<char>,
    username: Seq<char>,
    diff: Seq<FieldChangeModel>,
    replies: Seq<ReplyModel>,
    k: int,
)
    ensures
        steady(
            edits_made(user, realm, id, username, diff, replies),
            edits_made(user, realm, id, username, diff, replies.take(k)),
            replies,
            k,
        ),
{
    let edit = EditRequestModel { realm, user_id: id, username, actor: user.username, diff };
    let made = edit_made(user.role, edit, replies);
    lemma_steady_edit(user.role, edit, replies, k);
    if let Ask::Got(flash, rest) = made {
        lemma_steady_flash(flash, user_path(realm, id), rest, k - used(made, replies));
    }
}

pub(crate) proof fn lemma_steady_form_processed(
    user: SessionUserModel,
    realm: Seq<char>,
    id: Seq<char>,
    form: EditFormModel,
    replies: Seq<ReplyModel>,
    k: int,
)
    ensures
        steady(
            form_processed(user, realm, id, form, replies),
            form_processed(user, realm, id, form, replies.take(k)),
            replies,
            k,
        ),
{
    let get = ProviderCallModel::GetUser { realm, id };
    lemma_steady_call(get, replies, k);
    if let Ask::Got(existing, rest) = user_asked(get, replies) {
        let get = ProviderCallModel::GetUserGroups { realm, user_id: id };
        lemma_steady_call(get, rest, k - 1);
        if let Ask::Got(groups, rest) = groups_asked(get, rest) {
            lemma_steady_call(ProviderCallModel::ListGroups { realm }, rest, k - 2);
            if let Ask::Got(teams, rest) = teams_asked(realm, rest) {
                lemma_steady_edits_made(
                    user,
                    realm,
                    id,
                    existing.username,
                    form_edits(form, existing, groups, teams),
                    rest,
                    k - 3,
                );
            }
        }
    }
}

pub(crate) proof fn lemma_steady_edit_user(
    config: ConfigModel,
    realm: Seq<char>,
    id: Seq<char>,
    form: EditFormModel,
    replies: Seq<ReplyModel>,
    k: int,
)
    ensures
        steady(
            user_edited(config, realm, id, form, replies),
            user_edited(config, realm, id, form, replies.take(k)),
            replies,
            k,
        ),
{
    reveal(user_edited);
    let checked = session_form_checked(config, form.csrf_token, replies);
    lemma_steady_session_form(config, form.csrf_token, replies, k);
    if let Ask::Got(user, rest) = checked {
        let k = k - used(checked, replies);
        lemma_steady_form_processed(user, realm, id, form, rest, k);
    }
}

// ── Accounts ─────────────────────────────────────────────────────────────────

pub(crate) proof fn lemma_steady_recorded(
    call: ProviderCallModel,
    actor: Seq<char>,
    action: Seq<char>,
    realm: Seq<char>,
    target: Option<Seq<char>>,
    detail: Seq<char>,
    flash: FlashModel,
    to: Seq<char>,
    replies: Seq<ReplyModel>,
    k: int,
)
    ensures
        steady(
            change_recorded(call, actor, action, realm, target, detail, flash, to, replies),
            change_recorded(call, actor, action, realm, target, detail, flash, to, replies.take(k)),
            replies,
            k,
        ),
{
    lemma_steady_call(call, replies, k);
    if let Ask::Got(_, rest) = mutation_asked(call, replies) {
        lemma_steady_audit(actor, action, realm, target, detail, rest, k - 1);
        if let Ask::Got(_, rest) = audit_asked(actor, action, realm, target, detail, rest) {
            lemma_steady_flash(flash, to, rest, k - 3);
        }
    }
}

pub(crate) proof fn lemma_steady_assign_role(
    config: ConfigModel,
    realm: Seq<char>,
    user_id: Seq<char>,
    form: RoleAssignFormModel,
    replies: Seq<ReplyModel>,
    k: int,
)
    ensures
        steady(
            role_assigned(config, realm, user_id, form, replies),
            role_assigned(config, realm, user_id, form, replies.take(k)),
            replies,
            k,
        ),
{
    reveal(role_assigned);
    let checked = admin_form_checked(config, form.csrf_token, replies);
    lemma_steady_admin_form(config, form.csrf_token, replies, k);
    if let Ask::Got(user, rest) = checked {
        let k = k - used(checked, replies);
        lemma_steady_call(ProviderCallModel::ListRealmRoles { realm }, rest, k);
        if let Ask::Got(role, rest) = role_by_id_asked(realm, form.role_id, rest) {
            lemma_steady_recorded(
                ProviderCallModel::AssignRealmRole { realm, user_id, role },
                user.username,
                "assign_role"@,
                realm,
                Some(user_id),
                "role '"@ + role.name + "' assigned"@,
                good_news("Role '"@ + role.name + "' assigned."@),
                user_path(realm, user_id),
                rest,
                k - 1,
            );
        }
    }
}

pub(crate) proof fn lemma_steady_remove_role(
    config: ConfigModel,
    realm: Seq<char>,
    user_id: Seq<char>,
    form: RoleRemoveFormModel,
    replies: Seq<ReplyModel>,
    k: int,
)
    ensures
        steady(
            role_removed(config, realm, user_id, form, replies),
            role_removed(config, realm, user_id, form, replies.take(k)),
            replies,
            k,
        ),
{
    reveal(role_removed);
    let checked = admin_form_checked(config, form.csrf_token, replies);
    lemma_steady_admin_form(config, form.csrf_token, replies, k);
    if let Ask::Got(user, rest) = checked {
        let k = k - used(checked, replies);
        let role = bare_role(form.role_id, form.role_name);
        lemma_steady_recorded(
            ProviderCallModel::RemoveRealmRole { realm, user_id, role },
            user.username,
            "remove_role"@,
            realm,
            Some(user_id),
            "role '"@ + form.role_name + "' removed"@,
            good_news("Role '"@ + form.role_name + "' removed."@),
            user_path(realm, user_id),
            rest,
            k,
        );
    }
}

pub(crate) proof fn lemma_steady_password_stored(
    actor: Seq<char>,
    realm: Seq<char>,
    id: Seq<char>,
    form: SetPasswordFormModel,
    replies: Seq<ReplyModel>,
    k: int,
)
    ensures
        steady(
            password_stored(actor, realm, id, form, replies),
            password_stored(actor, realm, id, form, replies.take(k)),
            replies,
            k,
        ),
{
    let temporary = ticked(form.temporary);
    let set = ProviderCallModel::SetUserPassword { realm, id, password: form.password, temporary };
    let get = ProviderCallModel::GetUser { realm, id };
    lemma_steady_call(set, replies, k);
    if let Ask::Got(_, rest) = mutation_asked(set, replies) {
        lemma_steady_call(get, rest, k - 1);
        if let Ask::Got(subject, rest) = user_asked(get, rest) {
            let target = Some(subject.username);
            let detail = password_detail(temporary);
            lemma_steady_audit(actor, "set_password"@, realm, target, detail, rest, k - 2);
            if let Ask::Got(_, rest) = audit_asked(
                actor,
                "set_password"@,
                realm,
                target,
                detail,
                rest,
            ) {
                lemma_steady_flash(
                    good_news("Password updated for "@ + subject.username + "."@),
                    user_path(realm, id),
                    rest,
                    k - 4,
                );
            }
        }
    }
}

pub(crate) proof fn lemma_steady_set_password(
    config: ConfigModel,
    realm: Seq<char>,
    id: Seq<char>,
    form: SetPasswordFormModel,
    replies: Seq<ReplyModel>,
    k: int,
)
    ensures
        steady(
            password_set(config, realm, id, form, replies),
            password_set(config, realm, id, form, replies.take(k)),
            replies,
            k,
        ),
{
    reveal(password_set);
    let checked = admin_form_checked(config, form.csrf_token, replies);
    lemma_steady_admin_form(config, form.csrf_token, replies, k);
    if let Ask::Got(user, rest) = checked {
        let k = k - used(checked, replies);
        lemma_steady_password_stored(user.username, realm, id, form, rest, k);
    }
}

pub(crate) proof fn lemma_steady_team_groups(
    realm: Seq<char>,
    chosen: Option<Seq<char>>,
    replies: Seq<ReplyModel>,
    k: int,
)
    ensures
        steady(
            team_groups_asked(realm, chosen, replies),
            team_groups_asked(realm, chosen, replies.take(k)),
            replies,
            k,
        ),
{
    lemma_steady_call(ProviderCallModel::ListGroups { realm }, replies, k);
}

pub(crate) proof fn lemma_steady_team_assigned(
    actor: SessionUserModel,
    form: NewUserFormModel,
    created: UserModel,
    team: Option<TeamModel>,
    replies: Seq<ReplyModel>,
    k: int,
)
    requires
        actor.role == Role::Admin,
    ensures
        steady(
            team_assigned(actor, form, created, team, replies),
            team_assigned(actor, form, created, team, replies.take(k)),
            replies,
            k,
        ),
{
    if let Some(team) = team {
        lemma_steady_call(
            ProviderCallModel::AddUserToGroup {
                realm: form.realm,
                user_id: created.id,
                group_id: team.id,
            },
            replies,
            k,
        );
    }
}

pub(crate) proof fn lemma_steady_account_made(
    actor: SessionUserModel,
    form: NewUserFormModel,
    team: Option<TeamModel>,
    replies: Seq<ReplyModel>,
    k: int,
)
    requires
        actor.role == Role::Admin,
    ensures
        steady(
            account_made(actor, form, team, replies),
            account_made(actor, form, team, replies.take(k)),
            replies,
            k,
        ),
{
    let call = ProviderCallModel::CreateUser {
        realm: form.realm,
        user: new_account(form, actor.role, team),
    };
    lemma_steady_call(call, replies, k);
    if let Ask::Got(created, rest) = user_asked(call, replies) {
        let target = Some(form.username);
        lemma_steady_audit(
            actor.username,
            "create_user"@,
            form.realm,
            target,
            "user created"@,
            rest,
            k - 1,
        );
        if let Ask::Got(_, rest) = audit_asked(
            actor.username,
            "create_user"@,
            form.realm,
            target,
            "user created"@,
            rest,
        ) {
            let assigned = team_assigned(actor, form, created, team, rest);
            lemma_steady_team_assigned(actor, form, created, team, rest, k - 3);
            if let Ask::Got(flash, last) = assigned {
                lemma_steady_flash(
                    flash,
                    user_path(form.realm, created.id),
                    last,
                    k - 3 - used(assigned, rest),
                );
            }
        }
    }
}

pub(crate) proof fn lemma_steady_create_user(
    config: ConfigModel,
    form: NewUserFormModel,
    replies: Seq<ReplyModel>,
    k: int,
)
    ensures
        steady(
            user_created(config, form, replies),
            user_created(config, form, replies.take(k)),
            replies,
            k,
        ),
{
    reveal(user_created);
    let checked = admin_form_checked(config, form.csrf_token, replies);
    lemma_steady_admin_form(config, form.csrf_token, replies, k);
    if let Ask::Got(actor, rest) = checked {
        let k = k - used(checked, replies);
        let found = team_groups_asked(form.realm, form.team_group_id, rest);
        lemma_steady_team_groups(form.realm, form.team_group_id, rest, k);
        if let Ask::Got(teams, last) = found {
            lemma_steady_account_made(
                actor,
                form,
                chosen_team(teams, form.team_group_id),
                last,
                k - used(found, rest),
            );
        }
    }
}

pub(crate) proof fn lemma_steady_team_joined(
    user: BulkUserModel,
    team: TeamModel,
    teams: Seq<GroupModel>,
    replies: Seq<ReplyModel>,
    k: int,
)
    ensures
        steady(
            team_joined(user, team, teams, replies),
            team_joined(user, team, teams, replies.take(k)),
            replies,
            k,
        ),
{
    let get = ProviderCallModel::GetUserGroups { realm: user.realm, user_id: user.id };
    lemma_steady_call(get, replies, k);
    if let Ask::Got(groups, rest) = groups_asked(get, replies) {
        let held = groups.filter(|g: GroupModel| holds_group(teams, g.id));
        let left = groups_left(user.realm, user.id, held, team.id, rest);
        lemma_steady_groups_left(user.realm, user.id, held, team.id, rest, k - 1);
        if let Ask::Got(_, last) = left {
            let k = k - 1 - used(left, rest);
            let join = ProviderCallModel::AddUserToGroup {
                realm: user.realm,
                user_id: user.id,
                group_id: team.id,
            };
            lemma_steady_call(join, last, k);
            if let Ask::Got(_, last) = mutation_asked(join, last) {
                lemma_steady_call(
                    ProviderCallModel::SetUserAttribute {
                        realm: user.realm,
                        id: user.id,
                        key: "team"@,
                        value: team.name,
                    },
                    last,
                    k - 1,
                );
            }
        }
    }
}

pub(crate) proof fn lemma_steady_user_changed(
    user: BulkUserModel,
    enabled: Option<bool>,
    team: Option<TeamModel>,
    teams: Seq<GroupModel>,
    replies: Seq<ReplyModel>,
    k: int,
)
    ensures
        steady(
            user_changed(user, enabled, team, teams, replies),
            user_changed(user, enabled, team, teams, replies.take(k)),
            replies,
            k,
        ),
{
    if let Some(enabled) = enabled {
        lemma_steady_call(
            ProviderCallModel::SetUserEnabled { realm: user.realm, id: user.id, enabled },
            replies,
            k,
        );
    }
    let set = status_set(user, enabled, replies);
    if let Ask::Got(_, rest) = set {
        if let Some(team) = team {
            lemma_steady_team_joined(user, team, teams, rest, k - used(set, replies));
        }
    }
}

pub(crate) proof fn lemma_steady_users_changed(
    users: Seq<BulkUserModel>,
    enabled: Option<bool>,
    team: Option<TeamModel>,
    teams: Seq<GroupModel>,
    replies: Seq<ReplyModel>,
    k: int,
)
    ensures
        steady(
            users_changed(users, enabled, team, teams, replies),
            users_changed(users, enabled, team, teams, replies.take(k)),
            replies,
            k,
        ),
    decreases users.len(),
{
    if users.len() > 0 {
        let changed = user_changed(users[0], enabled, team, teams, replies);
        lemma_steady_user_changed(users[0], enabled, team, teams, replies, k);
        if let Ask::Got(_, rest) = changed {
            lemma_steady_users_changed(
                users.skip(1),
                enabled,
                team,
                teams,
                rest,
                k - used(changed, replies),
            );
        }
    }
}

pub(crate) proof fn lemma_steady_bulk_made(
    actor: SessionUserModel,
    body: BulkEditBodyModel,
    teams: Seq<GroupModel>,
    replies: Seq<ReplyModel>,
    k: int,
)
    requires
        actor.role == Role::Admin,
    ensures
        steady(
            bulk_made(actor, body, teams, replies),
            bulk_made(actor, body, teams, replies.take(k)),
            replies,
            k,
        ),
{
    let team = chosen_team(teams, body.team_group_id);
    let changed = users_changed(body.users, body.enabled, team, teams, replies);
    lemma_steady_users_changed(body.users, body.enabled, team, teams, replies, k);
    if let Ask::Got(_, rest) = changed {
        lemma_steady_audit(
            actor.username,
            "bulk_edit"@,
            bulk_realm(body.users),
            None,
            bulk_detail(body),
            rest,
            k - used(changed, replies),
        );
    }
}

pub(crate) proof fn lemma_steady_bulk_edit(
    config: ConfigModel,
    body: BulkEditBodyModel,
    replies: Seq<ReplyModel>,
    k: int,
)
    ensures
        steady(
            bulk_edited(config, body, replies),
            bulk_edited(config, body, replies.take(k)),
            replies,
            k,
        ),
{
    reveal(bulk_edited);
    let checked = admin_form_checked(config, body.csrf_token, replies);
    lemma_steady_admin_form(config, body.csrf_token, replies, k);
    if let Ask::Got(actor, rest) = checked {
        let k = k - used(checked, replies);
        let realm = bulk_realm(body.users);
        let found = team_groups_asked(realm, body.team_group_id, rest);
        lemma_steady_team_groups(realm, body.team_group_id, rest, k);
        if let Ask::Got(teams, last) = found {
            lemma_steady_bulk_made(actor, body, teams, last, k - used(found, rest));
        }
    }
}

// ── Teams, clients, access ───────────────────────────────────────────────────

pub(crate) proof fn lemma_steady_parent(
    config: ConfigModel,
    realm: Seq<char>,
    replies: Seq<ReplyModel>,
    k: int,
)
    ensures
        steady(
            parent_ensured(config, realm, replies),
            parent_ensured(config, realm, replies.take(k)),
            replies,
            k,
        ),
{
    let list = ProviderCallModel::ListGroups { realm };
    lemma_steady_call(list, replies, k);
    if let Ask::Got(_, rest) = groups_asked(list, replies) {
        lemma_steady_call(
            ProviderCallModel::CreateGroup { realm, name: config.teams_group, parent_id: None },
            rest,
            k - 1,
        );
    }
}

pub(crate) proof fn lemma_steady_team_made(
    config: ConfigModel,
    actor: Seq<char>,
    realm: Seq<char>,
    name: Seq<char>,
    replies: Seq<ReplyModel>,
    k: int,
)
    ensures
        steady(
            team_made(config, actor, realm, name, replies),
            team_made(config, actor, realm, name, replies.take(k)),
            replies,
            k,
        ),
{
    lemma_steady_parent(config, realm, replies, k);
    let ensured = parent_ensured(config, realm, replies);
    if let Ask::Got(parent, rest) = ensured {
        let k = k - used(ensured, replies);
        let create = ProviderCallModel::CreateGroup { realm, name, parent_id: Some(parent) };
        lemma_steady_call(create, rest, k);
        if let Ask::Got(_, rest) = group_asked(create, rest) {
            let detail = "team '"@ + name + "' created"@;
            lemma_steady_audit(actor, "create_team"@, realm, None, detail, rest, k - 1);
            if let Ask::Got(_, rest) = audit_asked(
                actor,
                "create_team"@,
                realm,
                None,
                detail,
                rest,
            ) {
                lemma_steady_flash(
                    good_news("Team '"@ + name + "' created."@),
                    "/users?realm="@ + realm,
                    rest,
                    k - 3,
                );
            }
        }
    }
}

pub(crate) proof fn lemma_steady_create_team(
    config: ConfigModel,
    form: CreateTeamFormModel,
    replies: Seq<ReplyModel>,
    k: int,
)
    ensures
        steady(
            team_created(config, form, replies),
            team_created(config, form, replies.take(k)),
            replies,
            k,
        ),
{
    reveal(team_created);
    let checked = admin_form_checked(config, form.csrf_token, replies);
    lemma_steady_admin_form(config, form.csrf_token, replies, k);
    if let Ask::Got(user, rest) = checked {
        let k = k - used(checked, replies);
        lemma_steady_team_made(
            config,
            user.username,
            form.realm,
            trimmed(form.name),
            rest,
            k,
        );
    }
}

pub(crate) proof fn lemma_steady_edit_client(
    config: ConfigModel,
    realm: Seq<char>,
    id: Seq<char>,
    form: EditClientFormModel,
    replies: Seq<ReplyModel>,
    k: int,
)
    ensures
        steady(
            client_edited(config, realm, id, form, replies),
            client_edited(config, realm, id, form, replies.take(k)),
            replies,
            k,
        ),
{
    reveal(client_edited);
    let checked = admin_form_checked(config, form.csrf_token, replies);
    lemma_steady_admin_form(config, form.csrf_token, replies, k);
    if let Ask::Got(user, rest) = checked {
        let k = k - used(checked, replies);
        lemma_steady_recorded(
            ProviderCallModel::UpdateClient { realm, id, settings: client_settings(form) },
            user.username,
            "edit_client"@,
            realm,
            None,
            "client "@ + id + " updated"@,
            good_news("Client settings saved."@),
            client_path(realm, id),
            rest,
            k,
        );
    }
}

pub(crate) proof fn lemma_steady_grant(
    config: ConfigModel,
    form: GrantFormModel,
    replies: Seq<ReplyModel>,
    k: int,
)
    ensures
        steady(
            access_granted(config, form, replies),
            access_granted(config, form, replies.take(k)),
            replies,
            k,
        ),
{
    reveal(access_granted);
    let checked = admin_form_checked(config, form.csrf_token, replies);
    lemma_steady_admin_form(config, form.csrf_token, replies, k);
    if let Ask::Got(user, rest) = checked {
        let k = k - used(checked, replies);
        lemma_steady_call(
            ProviderCallModel::ListUsers {
                realm: form.realm,
                query: users_like(Some(form.username), 100),
            },
            rest,
            k,
        );
        if let Ask::Got(target, rest) = user_by_name_asked(form.realm, form.username, rest) {
            let name = granted_role(config, form.role);
            lemma_steady_call(
                ProviderCallModel::ListRealmRoles { realm: form.realm },
                rest,
                k - 1,
            );
            if let Ask::Got(role, rest) = role_by_name_asked(form.realm, name, rest) {
                lemma_steady_recorded(
                    ProviderCallModel::AssignRealmRole {
                        realm: form.realm,
                        user_id: target.id,
                        role,
                    },
                    user.username,
                    "grant_access"@,
                    form.realm,
                    Some(form.username),
                    "granted "@ + form.username + " role '"@ + name + "'"@,
                    good_news(form.username + " granted "@ + form.role + " access."@),
                    admin_path(form.realm),
                    rest,
                    k - 2,
                );
            }
        }
    }
}

pub(crate) proof fn lemma_steady_revoke(
    config: ConfigModel,
    form: RevokeFormModel,
    replies: Seq<ReplyModel>,
    k: int,
)
    ensures
        steady(
            access_revoked(config, form, replies),
            access_revoked(config, form, replies.take(k)),
            replies,
            k,
        ),
{
    reveal(access_revoked);
    let checked = admin_form_checked(config, form.csrf_token, replies);
    lemma_steady_admin_form(config, form.csrf_token, replies, k);
    if let Ask::Got(user, rest) = checked {
        let k = k - used(checked, replies);
        lemma_steady_flash(
            notice("You cannot revoke your own admin access."@),
            admin_path(form.realm),
            rest,
            k,
        );
        lemma_steady_call(
            ProviderCallModel::ListRealmRoles { realm: form.realm },
            rest,
            k,
        );
        let found = revoked_role_asked(form, rest);
        if let Ask::Got(role, last) = found {
            lemma_steady_recorded(
                ProviderCallModel::RemoveRealmRole {
                    realm: form.realm,
                    user_id: form.user_id,
                    role,
                },
                user.username,
                "revoke_access"@,
                form.realm,
                Some(form.username),
                "revoked '"@ + form.role_name + "' from "@ + form.username,
                notice("Access revoked for "@ + form.username + "."@),
                admin_path(form.realm),
                last,
                k - used(found, rest),
            );
        }
    }
}

// ── Emergency ────────────────────────────────────────────────────────────────

pub(crate) proof fn lemma_steady_promotion(
    realm: Seq<char>,
    user_id: Seq<char>,
    role: RoleModel,
    username: Seq<char>,
    ip: Seq<char>,
    replies: Seq<ReplyModel>,
    k: int,
)
    ensures
        steady(
            promotion_made(realm, user_id, role, username, ip, replies),
            promotion_made(realm, user_id, role, username, ip, replies.take(k)),
            replies,
            k,
        ),
{
    lemma_steady_asked(
        EffectModel::Provider(ProviderCallModel::AssignRealmRole { realm, user_id, role }),
        replies,
        k,
    );
    if replies.len() > 0 {
        let rest = replies.skip(1);
        lemma_steady_asked(EffectModel::NewStamp, rest, k - 1);
        if let Ask::Got(stamp, rest) = stamp_asked(rest) {
            lemma_steady_asked(
                EffectModel::Storage(
                    StorageCallModel::AppendAudit(
                        success_entry(
                            stamp,
                            "SYSTEM"@,
                            "emergency_promote"@,
                            realm,
                            Some(username),
                            promotion_detail(username, ip),
                        ),
                    ),
                ),
                rest,
                k - 2,
            );
        }
    }
}

pub(crate) proof fn lemma_steady_user_promoted(
    config: ConfigModel,
    realm: Seq<char>,
    username: Seq<char>,
    ip: Seq<char>,
    replies: Seq<ReplyModel>,
    k: int,
)
    ensures
        steady(
            user_promoted(config, realm, username, ip, replies),
            user_promoted(config, realm, username, ip, replies.take(k)),
            replies,
            k,
        ),
{
    let query = users_like(Some(username), 100);
    lemma_steady_asked(
        EffectModel::Provider(ProviderCallModel::ListUsers { realm, query }),
        replies,
        k,
    );
    if replies.len() > 1 {
        if let ReplyModel::Provider(ProviderAnswerModel::Users(users)) = replies[0] {
            if let ReplyModel::Provider(ProviderAnswerModel::Roles(roles)) = replies[1] {
                let named = |role: RoleModel| role.name == config.role_admin;
                if let Some(target) = user_named(users, username) {
                    if let Some(role) = first_where(roles, named) {
                        lemma_steady_promotion(
                            realm,
                            target.id,
                            role,
                            username,
                            ip,
                            replies.skip(1).skip(1),
                            k - 2,
                        );
                    }
                }
            }
        }
    }
    if replies.len() > 0 {
        lemma_steady_asked(
            EffectModel::Provider(ProviderCallModel::ListRealmRoles { realm }),
            replies.skip(1),
            k - 1,
        );
    }
}

pub(crate) proof fn lemma_steady_emergency(
    config: ConfigModel,
    ip: Seq<char>,
    body: PromoteBodyModel,
    replies: Seq<ReplyModel>,
    k: int,
)
    ensures
        steady(
            emergency_promoted(config, ip, body, replies),
            emergency_promoted(config, ip, body, replies.take(k)),
            replies,
            k,
        ),
{
    reveal(emergency_promoted);
    let key = attempts_key(ip);
    lemma_steady_asked(EffectModel::CountAttempt { key }, replies, k);
    if replies.len() > 0 {
        lemma_steady_asked(
            EffectModel::ExpireAttempts { key, seconds: ATTEMPT_SECONDS },
            replies.skip(1),
            k - 1,
        );
    }
    let counted = attempt_counted(ip, replies);
    if let Ask::Got(_, rest) = counted {
        lemma_steady_user_promoted(
            config,
            issuer_realm(config),
            body.username,
            ip,
            rest,
            k - used(counted, replies),
        );
    }
}

/// A request that has ended stays ended as it has, whatever replies follow.
pub proof fn lemma_ended_requests_stay_ended(
    config: ConfigModel,
    request: RequestModel,
    replies: Seq<ReplyModel>,
    k: int,
)
    requires
        0 <= k <= replies.len(),
    ensures
        response(config, request, replies.take(k)) is Finish ==> response(config, request, replies)
            == response(config, request, replies.take(k)),
{
    lemma_steady(config, request, replies, k);
}

/// What the first replies of a request come to goes with what all of them come to: until it
/// has ended, it waits for one reply after another.
pub proof fn lemma_steady(
    config: ConfigModel,
    request: RequestModel,
    replies: Seq<ReplyModel>,
    k: int,
)
    ensures
        steady(
            handled(config, request, replies),
            handled(config, request, replies.take(k)),
            replies,
            k,
        ),
{
    match request {
        RequestModel::BulkEdit(body) => lemma_steady_bulk_edit(config, body, replies, k),
        RequestModel::CreateUser(form) => lemma_steady_create_user(config, form, replies, k),
        RequestModel::EditUser { realm, id, form } => lemma_steady_edit_user(
            config,
            realm,
            id,
            form,
            replies,
            k,
        ),
        RequestModel::AssignRole { realm, id, role } => lemma_steady_assign_role(
            config,
            realm,
            id,
            role,
            replies,
            k,
        ),
        RequestModel::RemoveRole { realm, id, removal } => lemma_steady_remove_role(
            config,
            realm,
            id,
            removal,
            replies,
            k,
        ),
        RequestModel::SetPassword { realm, id, password } => lemma_steady_set_password(
            config,
            realm,
            id,
            password,
            replies,
            k,
        ),
        RequestModel::Approve { id, confirm } => lemma_steady_approve(
            config,
            id,
            confirm,
            replies,
            k,
        ),
        RequestModel::Reject { id, rejection } => lemma_steady_reject(
            config,
            id,
            rejection,
            replies,
            k,
        ),
        RequestModel::Cancel { id, confirm } => lemma_steady_cancel(
            config,
            id,
            confirm,
            replies,
            k,
        ),
        RequestModel::CreateTeam(form) => lemma_steady_create_team(config, form, replies, k),
        RequestModel::EditClient { realm, id, client } => lemma_steady_edit_client(
            config,
            realm,
            id,
            client,
            replies,
            k,
        ),
        RequestModel::GrantAccess(form) => lemma_steady_grant(config, form, replies, k),
        RequestModel::RevokeAccess(form) => lemma_steady_revoke(config, form, replies, k),
        RequestModel::EmergencyPromote { ip, body } => lemma_steady_emergency(
            config,
            ip,
            body,
            replies,
            k,
        ),
        _ => lemma_steady_page(config, request, replies, k),
    }
}

} // verus!
