//! Who a session belongs to is settled by signing in, and by nothing else.

use super::performs;
use crate::attributes::AttributesModel;
use crate::config::ConfigModel;
use crate::effects::{Asked, EffectModel, ReplyModel, StepModel};
use crate::lists::sorted;
use crate::portal::RequestModel;
use crate::provider::{GroupModel, ProviderAnswerModel};
use crate::routes::{admin_form_checked, by_name, session_form_checked, session_required};
use crate::routes::admin::{
    access_granted, access_revoked, admin_shown, AdminQueryModel, GrantFormModel, RevokeFormModel,
};
use crate::routes::audit::{audit_listed, AuditQueryModel};
use crate::routes::auth::{logged_out, login_shown, login_started};
use crate::routes::changes::{
    change_approved, change_cancelled, change_rejected, changes_listed, grants_asked, with_grants,
    ChangesQueryModel, ConfirmFormModel, RejectFormModel,
};
use crate::routes::clients::{
    client_edited, client_shown, clients_listed, secret_revealed, EditClientFormModel,
    RealmQueryModel,
};
use crate::routes::dashboard::dashboard_shown;
use crate::routes::emergency::{emergency_promoted, PromoteBodyModel};
use crate::routes::profile::profile_shown;
use crate::routes::teams::{team_created, teams_listed, CreateTeamFormModel};
use crate::routes::users::{
    new_user_shown, similar_checked, started, user_shown, users_listed, ListQueryModel,
    SimilarQueryModel,
};
use crate::routes::users::access::{
    password_set, role_assigned, role_removed, RoleAssignFormModel, RoleRemoveFormModel,
    SetPasswordFormModel,
};
use crate::routes::users::bulk::{
    bulk_edited, user_changed, users_changed, BulkEditBodyModel, BulkUserModel, TeamModel,
};
use crate::routes::users::create::{user_created, NewUserFormModel};
use crate::routes::users::edit::{user_edited, EditFormModel};
use crate::script::Ask;
use crate::service::changes::{diff_applied, groups_left};
use crate::session::{Role, SessionUserModel};
use crate::storage::FieldChangeModel;
use vstd::prelude::*;

verus! {

/// Two users of sessions are the same person, whatever their roles.
pub open spec fn same_person(a: SessionUserModel, b: SessionUserModel) -> bool {
    a.sub == b.sub && a.username == b.username && a.email == b.email
}

/// The first reply is the session's user, and `user` is that person.
pub open spec fn is_the_session_user(user: SessionUserModel, replies: Seq<ReplyModel>) -> bool {
    replies.len() > 0 && (replies[0] matches ReplyModel::User(Some(held)) && same_person(
        held,
        user,
    ))
}

/// Where a user is about to be put into the session, it is the one who is there.
spec fn keeps_user<T>(ask: Asked<T>, replies: Seq<ReplyModel>) -> bool {
    ask matches Ask::Stop(StepModel::Perform(EffectModel::StoreUser(user)))
        ==> is_the_session_user(user, replies)
}

/// Nobody is about to be put into the session.
spec fn names_nobody<T>(ask: Asked<T>) -> bool {
    !(ask matches Ask::Stop(StepModel::Perform(EffectModel::StoreUser(_))))
}

proof fn lemma_session_keeps_user(config: ConfigModel, replies: Seq<ReplyModel>)
    ensures
        keeps_user(session_required(config, replies), replies),
        session_required(config, replies) matches Ask::Got(user, _) ==> is_the_session_user(
            user,
            replies,
        ),
{
    reveal(session_required);
}

proof fn lemma_forms_keep_user(config: ConfigModel, token: Seq<char>, replies: Seq<ReplyModel>)
    ensures
        keeps_user(session_form_checked(config, token, replies), replies),
        keeps_user(admin_form_checked(config, token, replies), replies),
        admin_form_checked(config, token, replies) matches Ask::Got(user, _) ==> user.role
            == Role::Admin,
{
    reveal(session_form_checked);
    reveal(admin_form_checked);
    lemma_session_keeps_user(config, replies);
}

proof fn lemma_leaving_names_nobody(
    realm: Seq<char>,
    user_id: Seq<char>,
    groups: Seq<GroupModel>,
    keep: Seq<char>,
    replies: Seq<ReplyModel>,
)
    ensures
        names_nobody(groups_left(realm, user_id, groups, keep, replies)),
    decreases groups.len(),
{
    if groups.len() > 0 {
        if groups[0].id == keep {
            lemma_leaving_names_nobody(realm, user_id, groups.skip(1), keep, replies);
        } else {
            lemma_leaving_names_nobody(realm, user_id, groups.skip(1), keep, replies.skip(1));
        }
    }
}

proof fn lemma_applying_names_nobody(
    realm: Seq<char>,
    user_id: Seq<char>,
    diff: Seq<FieldChangeModel>,
    replies: Seq<ReplyModel>,
)
    ensures
        names_nobody(diff_applied(realm, user_id, diff, replies)),
{
    assert forall|groups: Seq<GroupModel>, keep: Seq<char>, rest: Seq<ReplyModel>|
        names_nobody(#[trigger] groups_left(realm, user_id, groups, keep, rest)) by {
        lemma_leaving_names_nobody(realm, user_id, groups, keep, rest);
    }
}

proof fn lemma_bulk_names_nobody(
    users: Seq<BulkUserModel>,
    enabled: Option<bool>,
    team: Option<TeamModel>,
    teams: Seq<GroupModel>,
    replies: Seq<ReplyModel>,
)
    ensures
        names_nobody(users_changed(users, enabled, team, teams, replies)),
    decreases users.len(),
{
    if users.len() > 0 {
        let user = users[0];
        assert forall|groups: Seq<GroupModel>, keep: Seq<char>, rest: Seq<ReplyModel>|
            names_nobody(#[trigger] groups_left(user.realm, user.id, groups, keep, rest)) by {
            lemma_leaving_names_nobody(user.realm, user.id, groups, keep, rest);
        }
        let changed = user_changed(user, enabled, team, teams, replies);
        assert(names_nobody(changed));
        if let Ask::Got(_, rest) = changed {
            lemma_bulk_names_nobody(users.skip(1), enabled, team, teams, rest);
        }
    }
}

proof fn lemma_grants_name_nobody(
    realms: Seq<Seq<char>>,
    known: AttributesModel,
    replies: Seq<ReplyModel>,
)
    ensures
        names_nobody(grants_asked(realms, known, replies)),
    decreases realms.len(),
{
    if realms.len() > 0 && replies.len() > 0 {
        let next = match replies[0] {
            ReplyModel::Provider(ProviderAnswerModel::Groups(groups)) => with_grants(
                known,
                sorted(groups, by_name()),
            ),
            _ => known,
        };
        lemma_grants_name_nobody(realms.skip(1), next, replies.skip(1));
    }
}

proof fn lemma_user_kept_started(replies: Seq<ReplyModel>)
    ensures
        keeps_user(started(replies), replies),
{
    reveal(started);
}

proof fn lemma_user_kept_login_shown(config: ConfigModel, replies: Seq<ReplyModel>)
    ensures
        keeps_user(login_shown(config, replies), replies),
{
    reveal(login_shown);
}

proof fn lemma_user_kept_login_started(config: ConfigModel, replies: Seq<ReplyModel>)
    ensures
        keeps_user(login_started(config, replies), replies),
{
    reveal(login_started);
}

proof fn lemma_user_kept_logged_out(config: ConfigModel, replies: Seq<ReplyModel>)
    ensures
        keeps_user(logged_out(config, replies), replies),
{
    reveal(logged_out);
}

proof fn lemma_user_kept_users_listed(
    config: ConfigModel,
    query: ListQueryModel,
    replies: Seq<ReplyModel>,
)
    ensures
        keeps_user(users_listed(config, query, replies), replies),
{
    reveal(users_listed);
    lemma_session_keeps_user(config, replies);
}

proof fn lemma_user_kept_similar_checked(
    config: ConfigModel,
    query: SimilarQueryModel,
    replies: Seq<ReplyModel>,
)
    ensures
        keeps_user(similar_checked(config, query, replies), replies),
{
    reveal(similar_checked);
    lemma_session_keeps_user(config, replies);
}

proof fn lemma_user_kept_new_user_shown(
    config: ConfigModel,
    query: ListQueryModel,
    replies: Seq<ReplyModel>,
)
    ensures
        keeps_user(new_user_shown(config, query, replies), replies),
{
    reveal(new_user_shown);
    lemma_session_keeps_user(config, replies);
}

proof fn lemma_user_kept_user_shown(
    config: ConfigModel,
    realm: Seq<char>,
    id: Seq<char>,
    replies: Seq<ReplyModel>,
)
    ensures
        keeps_user(user_shown(config, realm, id, replies), replies),
{
    reveal(user_shown);
    lemma_session_keeps_user(config, replies);
}

proof fn lemma_user_kept_changes_listed(
    config: ConfigModel,
    query: ChangesQueryModel,
    replies: Seq<ReplyModel>,
)
    ensures
        keeps_user(changes_listed(config, query, replies), replies),
{
    reveal(changes_listed);
    lemma_session_keeps_user(config, replies);
    assert forall|realms: Seq<Seq<char>>, known: AttributesModel, rest: Seq<ReplyModel>|
        names_nobody(#[trigger] grants_asked(realms, known, rest)) by {
        lemma_grants_name_nobody(realms, known, rest);
    }
}

proof fn lemma_user_kept_teams_listed(config: ConfigModel, replies: Seq<ReplyModel>)
    ensures
        keeps_user(teams_listed(config, replies), replies),
{
    reveal(teams_listed);
    lemma_session_keeps_user(config, replies);
}

proof fn lemma_user_kept_clients_listed(
    config: ConfigModel,
    query: RealmQueryModel,
    replies: Seq<ReplyModel>,
)
    ensures
        keeps_user(clients_listed(config, query, replies), replies),
{
    reveal(clients_listed);
    lemma_session_keeps_user(config, replies);
}

proof fn lemma_user_kept_client_shown(
    config: ConfigModel,
    realm: Seq<char>,
    id: Seq<char>,
    replies: Seq<ReplyModel>,
)
    ensures
        keeps_user(client_shown(config, realm, id, replies), replies),
{
    reveal(client_shown);
    lemma_session_keeps_user(config, replies);
}

proof fn lemma_user_kept_secret_revealed(
    config: ConfigModel,
    realm: Seq<char>,
    id: Seq<char>,
    replies: Seq<ReplyModel>,
)
    ensures
        keeps_user(secret_revealed(config, realm, id, replies), replies),
{
    reveal(secret_revealed);
    lemma_session_keeps_user(config, replies);
}

proof fn lemma_user_kept_profile_shown(config: ConfigModel, replies: Seq<ReplyModel>)
    ensures
        keeps_user(profile_shown(config, replies), replies),
{
    reveal(profile_shown);
    lemma_session_keeps_user(config, replies);
}

proof fn lemma_user_kept_audit_listed(
    config: ConfigModel,
    query: AuditQueryModel,
    replies: Seq<ReplyModel>,
)
    ensures
        keeps_user(audit_listed(config, query, replies), replies),
{
    reveal(audit_listed);
    lemma_session_keeps_user(config, replies);
}

proof fn lemma_user_kept_dashboard_shown(config: ConfigModel, replies: Seq<ReplyModel>)
    ensures
        keeps_user(dashboard_shown(config, replies), replies),
{
    reveal(dashboard_shown);
    lemma_session_keeps_user(config, replies);
}

proof fn lemma_user_kept_admin_shown(
    config: ConfigModel,
    query: AdminQueryModel,
    replies: Seq<ReplyModel>,
)
    ensures
        keeps_user(admin_shown(config, query, replies), replies),
{
    reveal(admin_shown);
    lemma_session_keeps_user(config, replies);
}

proof fn lemma_user_kept_bulk_edited(
    config: ConfigModel,
    body: BulkEditBodyModel,
    replies: Seq<ReplyModel>,
)
    ensures
        keeps_user(bulk_edited(config, body, replies), replies),
{
    reveal(bulk_edited);
    lemma_forms_keep_user(config, body.csrf_token, replies);
    assert forall|
        enabled: Option<bool>,
        team: Option<TeamModel>,
        teams: Seq<GroupModel>,
        rest: Seq<ReplyModel>,
    |
        names_nobody(#[trigger] users_changed(body.users, enabled, team, teams, rest)) by {
        lemma_bulk_names_nobody(body.users, enabled, team, teams, rest);
    }
}

proof fn lemma_user_kept_user_created(
    config: ConfigModel,
    form: NewUserFormModel,
    replies: Seq<ReplyModel>,
)
    ensures
        keeps_user(user_created(config, form, replies), replies),
{
    reveal(user_created);
    lemma_forms_keep_user(config, form.csrf_token, replies);
}

proof fn lemma_user_kept_user_edited(
    config: ConfigModel,
    realm: Seq<char>,
    id: Seq<char>,
    form: EditFormModel,
    replies: Seq<ReplyModel>,
)
    ensures
        keeps_user(user_edited(config, realm, id, form, replies), replies),
{
    reveal(user_edited);
    lemma_forms_keep_user(config, form.csrf_token, replies);
    assert forall|
        realm: Seq<char>,
        user_id: Seq<char>,
        diff: Seq<FieldChangeModel>,
        rest: Seq<ReplyModel>,
    |
        names_nobody(#[trigger] diff_applied(realm, user_id, diff, rest)) by {
        lemma_applying_names_nobody(realm, user_id, diff, rest);
    }
}

proof fn lemma_user_kept_role_assigned(
    config: ConfigModel,
    realm: Seq<char>,
    id: Seq<char>,
    role: RoleAssignFormModel,
    replies: Seq<ReplyModel>,
)
    ensures
        keeps_user(role_assigned(config, realm, id, role, replies), replies),
{
    reveal(role_assigned);
    lemma_forms_keep_user(config, role.csrf_token, replies);
}

proof fn lemma_user_kept_role_removed(
    config: ConfigModel,
    realm: Seq<char>,
    id: Seq<char>,
    removal: RoleRemoveFormModel,
    replies: Seq<ReplyModel>,
)
    ensures
        keeps_user(role_removed(config, realm, id, removal, replies), replies),
{
    reveal(role_removed);
    lemma_forms_keep_user(config, removal.csrf_token, replies);
}

proof fn lemma_user_kept_password_set(
    config: ConfigModel,
    realm: Seq<char>,
    id: Seq<char>,
    password: SetPasswordFormModel,
    replies: Seq<ReplyModel>,
)
    ensures
        keeps_user(password_set(config, realm, id, password, replies), replies),
{
    reveal(password_set);
    lemma_forms_keep_user(config, password.csrf_token, replies);
}

proof fn lemma_user_kept_change_approved(
    config: ConfigModel,
    id: Seq<char>,
    confirm: ConfirmFormModel,
    replies: Seq<ReplyModel>,
)
    ensures
        keeps_user(change_approved(config, id, confirm, replies), replies),
{
    reveal(change_approved);
    lemma_forms_keep_user(config, confirm.csrf_token, replies);
    assert forall|
        realm: Seq<char>,
        user_id: Seq<char>,
        diff: Seq<FieldChangeModel>,
        rest: Seq<ReplyModel>,
    |
        names_nobody(#[trigger] diff_applied(realm, user_id, diff, rest)) by {
        lemma_applying_names_nobody(realm, user_id, diff, rest);
    }
}

proof fn lemma_user_kept_change_rejected(
    config: ConfigModel,
    id: Seq<char>,
    rejection: RejectFormModel,
    replies: Seq<ReplyModel>,
)
    ensures
        keeps_user(change_rejected(config, id, rejection, replies), replies),
{
    reveal(change_rejected);
    lemma_forms_keep_user(config, rejection.csrf_token, replies);
}

proof fn lemma_user_kept_change_cancelled(
    config: ConfigModel,
    id: Seq<char>,
    confirm: ConfirmFormModel,
    replies: Seq<ReplyModel>,
)
    ensures
        keeps_user(change_cancelled(config, id, confirm, replies), replies),
{
    reveal(change_cancelled);
    lemma_forms_keep_user(config, confirm.csrf_token, replies);
}

proof fn lemma_user_kept_team_created(
    config: ConfigModel,
    form: CreateTeamFormModel,
    replies: Seq<ReplyModel>,
)
    ensures
        keeps_user(team_created(config, form, replies), replies),
{
    reveal(team_created);
    lemma_forms_keep_user(config, form.csrf_token, replies);
}

proof fn lemma_user_kept_client_edited(
    config: ConfigModel,
    realm: Seq<char>,
    id: Seq<char>,
    client: EditClientFormModel,
    replies: Seq<ReplyModel>,
)
    ensures
        keeps_user(client_edited(config, realm, id, client, replies), replies),
{
    reveal(client_edited);
    lemma_forms_keep_user(config, client.csrf_token, replies);
}

proof fn lemma_user_kept_access_granted(
    config: ConfigModel,
    form: GrantFormModel,
    replies: Seq<ReplyModel>,
)
    ensures
        keeps_user(access_granted(config, form, replies), replies),
{
    reveal(access_granted);
    lemma_forms_keep_user(config, form.csrf_token, replies);
}

proof fn lemma_user_kept_access_revoked(
    config: ConfigModel,
    form: RevokeFormModel,
    replies: Seq<ReplyModel>,
)
    ensures
        keeps_user(access_revoked(config, form, replies), replies),
{
    reveal(access_revoked);
    lemma_forms_keep_user(config, form.csrf_token, replies);
}

proof fn lemma_user_kept_emergency_promoted(
    config: ConfigModel,
    ip: Seq<char>,
    body: PromoteBodyModel,
    replies: Seq<ReplyModel>,
)
    ensures
        keeps_user(emergency_promoted(config, ip, body, replies), replies),
{
    reveal(emergency_promoted);
}

/// Only signing in puts somebody new into a session: any other request that writes a user to
/// the session writes the one who is there.
pub proof fn lemma_only_signing_in_names_a_user(
    config: ConfigModel,
    request: RequestModel,
    replies: Seq<ReplyModel>,
    user: SessionUserModel,
)
    requires
        !(request is Callback),
        performs(config, request, replies, EffectModel::StoreUser(user)),
    ensures
        is_the_session_user(user, replies),
{
    match request {
        RequestModel::Index => lemma_user_kept_started(replies),
        RequestModel::Login => lemma_user_kept_login_shown(config, replies),
        RequestModel::StartLogin => lemma_user_kept_login_started(config, replies),
        RequestModel::Logout => lemma_user_kept_logged_out(config, replies),
        RequestModel::ListUsers(query) => lemma_user_kept_users_listed(config, query, replies),
        RequestModel::CheckSimilar(query) => lemma_user_kept_similar_checked(
            config,
            query,
            replies,
        ),
        RequestModel::NewUserForm(query) => lemma_user_kept_new_user_shown(config, query, replies),
        RequestModel::UserDetail { realm, id } => lemma_user_kept_user_shown(
            config,
            realm,
            id,
            replies,
        ),
        RequestModel::ListChanges(query) => lemma_user_kept_changes_listed(config, query, replies),
        RequestModel::ListTeams => lemma_user_kept_teams_listed(config, replies),
        RequestModel::ListClients(query) => lemma_user_kept_clients_listed(config, query, replies),
        RequestModel::ClientDetail { realm, id } => lemma_user_kept_client_shown(
            config,
            realm,
            id,
            replies,
        ),
        RequestModel::RevealSecret { realm, id } => lemma_user_kept_secret_revealed(
            config,
            realm,
            id,
            replies,
        ),
        RequestModel::Profile => lemma_user_kept_profile_shown(config, replies),
        RequestModel::ListAudit(query) => lemma_user_kept_audit_listed(config, query, replies),
        RequestModel::Dashboard => lemma_user_kept_dashboard_shown(config, replies),
        RequestModel::AdminPanel(query) => lemma_user_kept_admin_shown(config, query, replies),
        RequestModel::BulkEdit(body) => lemma_user_kept_bulk_edited(config, body, replies),
        RequestModel::CreateUser(form) => lemma_user_kept_user_created(config, form, replies),
        RequestModel::EditUser { realm, id, form } => lemma_user_kept_user_edited(
            config,
            realm,
            id,
            form,
            replies,
        ),
        RequestModel::AssignRole { realm, id, role } => lemma_user_kept_role_assigned(
            config,
            realm,
            id,
            role,
            replies,
        ),
        RequestModel::RemoveRole { realm, id, removal } => lemma_user_kept_role_removed(
            config,
            realm,
            id,
            removal,
            replies,
        ),
        RequestModel::SetPassword { realm, id, password } => lemma_user_kept_password_set(
            config,
            realm,
            id,
            password,
            replies,
        ),
        RequestModel::Approve { id, confirm } => lemma_user_kept_change_approved(
            config,
            id,
            confirm,
            replies,
        ),
        RequestModel::Reject { id, rejection } => lemma_user_kept_change_rejected(
            config,
            id,
            rejection,
            replies,
        ),
        RequestModel::Cancel { id, confirm } => lemma_user_kept_change_cancelled(
            config,
            id,
            confirm,
            replies,
        ),
        RequestModel::CreateTeam(form) => lemma_user_kept_team_created(config, form, replies),
        RequestModel::EditClient { realm, id, client } => lemma_user_kept_client_edited(
            config,
            realm,
            id,
            client,
            replies,
        ),
        RequestModel::GrantAccess(form) => lemma_user_kept_access_granted(config, form, replies),
        RequestModel::RevokeAccess(form) => lemma_user_kept_access_revoked(config, form, replies),
        RequestModel::EmergencyPromote { ip, body } => lemma_user_kept_emergency_promoted(
            config,
            ip,
            body,
            replies,
        ),
        RequestModel::Callback(_) => {},
    }
}

} // verus!
