//! Who may change what.

use super::{mutates, only_looks, performs, records, resolves};
use crate::asks::{csrf_asked, failed};
use crate::attributes::AttributesModel;
use crate::config::ConfigModel;
use crate::effects::{Asked, EffectModel, OutcomeModel, ReplyModel, StepModel};
use crate::error::{error_shown, AppErrorModel, ErrorReplyModel};
use crate::lists::{first_where, lemma_first_where_holds, sorted};
use crate::portal::{handled, response, RequestModel};
use crate::provider::{ProviderAnswerModel, ProviderCallModel, RoleModel};
use crate::routes::{
    admin_form_checked, by_name, home_realm, role_names, session_form_checked, session_required,
};
use crate::routes::admin::{access_granted, access_revoked, admin_shown, AdminQueryModel};
use crate::routes::audit::{audit_listed, AuditQueryModel};
use crate::routes::auth::{logged_out, login_shown, login_started, returned, CallbackParamsModel};
use crate::routes::changes::{
    change_approved, change_cancelled, change_rejected, changes_listed, grants_asked, with_grants,
    ChangesQueryModel,
};
use crate::routes::clients::{
    client_edited, client_shown, clients_listed, secret_revealed, RealmQueryModel,
};
use crate::routes::dashboard::dashboard_shown;
use crate::routes::emergency::{
    emergency_promoted, issuer_realm, not_promoted, PromoteBodyModel, ATTEMPT_LIMIT,
};
use crate::routes::profile::profile_shown;
use crate::routes::teams::{team_created, teams_listed};
use crate::routes::users::{
    new_user_shown, similar_checked, started, user_shown, users_listed, ListQueryModel,
    SimilarQueryModel,
};
use crate::routes::users::access::{password_set, role_assigned, role_removed};
use crate::routes::users::bulk::bulk_edited;
use crate::routes::users::create::user_created;
use crate::routes::users::edit::user_edited;
use crate::script::Ask;
use crate::session::{role_of, Role, SessionUserModel};
use vstd::prelude::*;

verus! {

// ── Pages ────────────────────────────────────────────────────────────────────

/// What is needed next changes no account, no change and no entry of the audit log.
pub open spec fn quiet<T>(ask: Asked<T>) -> bool {
    ask matches Ask::Stop(StepModel::Perform(effect)) ==> !mutates(effect) && !resolves(effect)
        && !records(effect)
}

pub(crate) proof fn lemma_quiet_grants(
    realms: Seq<Seq<char>>,
    known: AttributesModel,
    replies: Seq<ReplyModel>,
)
    ensures
        quiet(grants_asked(realms, known, replies)),
        grants_asked(realms, known, replies) matches Ask::Stop(stop) ==> stop is Perform,
    decreases realms.len(),
{
    if realms.len() > 0 && replies.len() > 0 {
        let next = match replies[0] {
            ReplyModel::Provider(ProviderAnswerModel::Groups(groups)) => with_grants(
                known,
                sorted(groups, by_name()),
            ),
            _ => known,
        };
        lemma_quiet_grants(realms.skip(1), next, replies.skip(1));
    }
}

proof fn lemma_quiet_started(replies: Seq<ReplyModel>)
    ensures
        quiet(started(replies)),
{
    reveal(started);
}

proof fn lemma_quiet_login_shown(config: ConfigModel, replies: Seq<ReplyModel>)
    ensures
        quiet(login_shown(config, replies)),
{
    reveal(login_shown);
}

proof fn lemma_quiet_login_started(config: ConfigModel, replies: Seq<ReplyModel>)
    ensures
        quiet(login_started(config, replies)),
{
    reveal(login_started);
}

proof fn lemma_quiet_returned(
    config: ConfigModel,
    params: CallbackParamsModel,
    replies: Seq<ReplyModel>,
)
    ensures
        quiet(returned(config, params, replies)),
{
    reveal(returned);
}

proof fn lemma_quiet_logged_out(config: ConfigModel, replies: Seq<ReplyModel>)
    ensures
        quiet(logged_out(config, replies)),
{
    reveal(logged_out);
}

proof fn lemma_quiet_users_listed(
    config: ConfigModel,
    query: ListQueryModel,
    replies: Seq<ReplyModel>,
)
    ensures
        quiet(users_listed(config, query, replies)),
{
    reveal(session_required);
    reveal(users_listed);
}

proof fn lemma_quiet_similar_checked(
    config: ConfigModel,
    query: SimilarQueryModel,
    replies: Seq<ReplyModel>,
)
    ensures
        quiet(similar_checked(config, query, replies)),
{
    reveal(session_required);
    reveal(similar_checked);
}

proof fn lemma_quiet_new_user_shown(
    config: ConfigModel,
    query: ListQueryModel,
    replies: Seq<ReplyModel>,
)
    ensures
        quiet(new_user_shown(config, query, replies)),
{
    reveal(session_required);
    reveal(new_user_shown);
}

proof fn lemma_quiet_user_shown(
    config: ConfigModel,
    realm: Seq<char>,
    id: Seq<char>,
    replies: Seq<ReplyModel>,
)
    ensures
        quiet(user_shown(config, realm, id, replies)),
{
    reveal(session_required);
    reveal(user_shown);
}

proof fn lemma_quiet_changes_listed(
    config: ConfigModel,
    query: ChangesQueryModel,
    replies: Seq<ReplyModel>,
)
    ensures
        quiet(changes_listed(config, query, replies)),
{
    reveal(session_required);
    reveal(changes_listed);
    assert forall|realms: Seq<Seq<char>>, known: AttributesModel, rest: Seq<ReplyModel>| quiet(
        #[trigger] grants_asked(realms, known, rest),
    ) by {
        lemma_quiet_grants(realms, known, rest);
    }
}

proof fn lemma_quiet_teams_listed(config: ConfigModel, replies: Seq<ReplyModel>)
    ensures
        quiet(teams_listed(config, replies)),
{
    reveal(session_required);
    reveal(teams_listed);
}

proof fn lemma_quiet_clients_listed(
    config: ConfigModel,
    query: RealmQueryModel,
    replies: Seq<ReplyModel>,
)
    ensures
        quiet(clients_listed(config, query, replies)),
{
    reveal(session_required);
    reveal(clients_listed);
}

proof fn lemma_quiet_client_shown(
    config: ConfigModel,
    realm: Seq<char>,
    id: Seq<char>,
    replies: Seq<ReplyModel>,
)
    ensures
        quiet(client_shown(config, realm, id, replies)),
{
    reveal(session_required);
    reveal(client_shown);
}

proof fn lemma_quiet_secret_revealed(
    config: ConfigModel,
    realm: Seq<char>,
    id: Seq<char>,
    replies: Seq<ReplyModel>,
)
    ensures
        quiet(secret_revealed(config, realm, id, replies)),
{
    reveal(session_required);
    reveal(secret_revealed);
}

proof fn lemma_quiet_profile_shown(config: ConfigModel, replies: Seq<ReplyModel>)
    ensures
        quiet(profile_shown(config, replies)),
{
    reveal(session_required);
    reveal(profile_shown);
}

proof fn lemma_quiet_audit_listed(
    config: ConfigModel,
    query: AuditQueryModel,
    replies: Seq<ReplyModel>,
)
    ensures
        quiet(audit_listed(config, query, replies)),
{
    reveal(session_required);
    reveal(audit_listed);
}

proof fn lemma_quiet_dashboard_shown(config: ConfigModel, replies: Seq<ReplyModel>)
    ensures
        quiet(dashboard_shown(config, replies)),
{
    reveal(session_required);
    reveal(dashboard_shown);
}

proof fn lemma_quiet_admin_shown(
    config: ConfigModel,
    query: AdminQueryModel,
    replies: Seq<ReplyModel>,
)
    ensures
        quiet(admin_shown(config, query, replies)),
{
    reveal(session_required);
    reveal(admin_shown);
}

/// A request for a page changes no account, no change and no entry of the audit log.
pub proof fn lemma_pages_change_nothing(
    config: ConfigModel,
    request: RequestModel,
    replies: Seq<ReplyModel>,
    effect: EffectModel,
)
    requires
        only_looks(request),
        performs(config, request, replies, effect),
    ensures
        !mutates(effect),
        !resolves(effect),
        !records(effect),
{
    match request {
        RequestModel::Index => lemma_quiet_started(replies),
        RequestModel::Login => lemma_quiet_login_shown(config, replies),
        RequestModel::StartLogin => lemma_quiet_login_started(config, replies),
        RequestModel::Callback(params) => lemma_quiet_returned(config, params, replies),
        RequestModel::Logout => lemma_quiet_logged_out(config, replies),
        RequestModel::ListUsers(query) => lemma_quiet_users_listed(config, query, replies),
        RequestModel::CheckSimilar(query) => lemma_quiet_similar_checked(config, query, replies),
        RequestModel::NewUserForm(query) => lemma_quiet_new_user_shown(config, query, replies),
        RequestModel::UserDetail { realm, id } => lemma_quiet_user_shown(
            config,
            realm,
            id,
            replies,
        ),
        RequestModel::ListChanges(query) => lemma_quiet_changes_listed(config, query, replies),
        RequestModel::ListTeams => lemma_quiet_teams_listed(config, replies),
        RequestModel::ListClients(query) => lemma_quiet_clients_listed(config, query, replies),
        RequestModel::ClientDetail { realm, id } => lemma_quiet_client_shown(
            config,
            realm,
            id,
            replies,
        ),
        RequestModel::RevealSecret { realm, id } => lemma_quiet_secret_revealed(
            config,
            realm,
            id,
            replies,
        ),
        RequestModel::Profile => lemma_quiet_profile_shown(config, replies),
        RequestModel::ListAudit(query) => lemma_quiet_audit_listed(config, query, replies),
        RequestModel::Dashboard => lemma_quiet_dashboard_shown(config, replies),
        RequestModel::AdminPanel(query) => lemma_quiet_admin_shown(config, query, replies),
        _ => {},
    }
}

// ── Sessions ─────────────────────────────────────────────────────────────────

/// The request is for signed-in users.
pub open spec fn needs_session(request: RequestModel) -> bool {
    match request {
        RequestModel::Index => false,
        RequestModel::Login => false,
        RequestModel::StartLogin => false,
        RequestModel::Callback(_) => false,
        RequestModel::Logout => false,
        RequestModel::EmergencyPromote { .. } => false,
        _ => true,
    }
}

/// The request is for admins.
pub open spec fn needs_admin(request: RequestModel) -> bool {
    match request {
        RequestModel::BulkEdit(_) => true,
        RequestModel::CreateUser(_) => true,
        RequestModel::AssignRole { .. } => true,
        RequestModel::RemoveRole { .. } => true,
        RequestModel::SetPassword { .. } => true,
        RequestModel::Approve { .. } => true,
        RequestModel::Reject { .. } => true,
        RequestModel::CreateTeam(_) => true,
        RequestModel::ListClients(_) => true,
        RequestModel::ClientDetail { .. } => true,
        RequestModel::EditClient { .. } => true,
        RequestModel::RevealSecret { .. } => true,
        RequestModel::ListAudit(_) => true,
        RequestModel::AdminPanel(_) => true,
        RequestModel::GrantAccess(_) => true,
        RequestModel::RevokeAccess(_) => true,
        _ => false,
    }
}

/// The token that a form was sent with.
pub open spec fn form_token(request: RequestModel) -> Option<Seq<char>> {
    match request {
        RequestModel::BulkEdit(body) => Some(body.csrf_token),
        RequestModel::CreateUser(form) => Some(form.csrf_token),
        RequestModel::EditUser { form, .. } => Some(form.csrf_token),
        RequestModel::AssignRole { role, .. } => Some(role.csrf_token),
        RequestModel::RemoveRole { removal, .. } => Some(removal.csrf_token),
        RequestModel::SetPassword { password, .. } => Some(password.csrf_token),
        RequestModel::Approve { confirm, .. } => Some(confirm.csrf_token),
        RequestModel::Reject { rejection, .. } => Some(rejection.csrf_token),
        RequestModel::Cancel { confirm, .. } => Some(confirm.csrf_token),
        RequestModel::CreateTeam(form) => Some(form.csrf_token),
        RequestModel::EditClient { client, .. } => Some(client.csrf_token),
        RequestModel::GrantAccess(form) => Some(form.csrf_token),
        RequestModel::RevokeAccess(form) => Some(form.csrf_token),
        _ => None,
    }
}

proof fn lemma_guarded(config: ConfigModel, request: RequestModel, replies: Seq<ReplyModel>)
    requires
        needs_session(request),
    ensures
        match session_required(config, replies) {
            Ask::Stop(stop) => handled(config, request, replies) == Ask::<
                OutcomeModel,
                ReplyModel,
                StepModel,
            >::Stop(stop),
            Ask::Got(user, rest) => if needs_admin(request) && user.role != Role::Admin {
                response(config, request, replies) == failed(AppErrorModel::Forbidden)
            } else {
                form_token(request) matches Some(token) ==> (csrf_asked(token, rest) matches Ask::Stop(
                    stop,
                ) ==> response(config, request, replies) == stop)
            },
        },
{
    reveal(session_form_checked);
    reveal(admin_form_checked);
    match request {
        RequestModel::ListUsers(query) => {
            reveal(users_listed);
        },
        RequestModel::CheckSimilar(query) => {
            reveal(similar_checked);
        },
        RequestModel::NewUserForm(query) => {
            reveal(new_user_shown);
        },
        RequestModel::UserDetail { realm, id } => {
            reveal(user_shown);
        },
        RequestModel::ListChanges(query) => {
            reveal(changes_listed);
        },
        RequestModel::ListTeams => {
            reveal(teams_listed);
        },
        RequestModel::ListClients(query) => {
            reveal(clients_listed);
        },
        RequestModel::ClientDetail { realm, id } => {
            reveal(client_shown);
        },
        RequestModel::RevealSecret { realm, id } => {
            reveal(secret_revealed);
        },
        RequestModel::Profile => {
            reveal(profile_shown);
        },
        RequestModel::ListAudit(query) => {
            reveal(audit_listed);
        },
        RequestModel::Dashboard => {
            reveal(dashboard_shown);
        },
        RequestModel::AdminPanel(query) => {
            reveal(admin_shown);
        },
        RequestModel::BulkEdit(body) => {
            reveal(bulk_edited);
        },
        RequestModel::CreateUser(form) => {
            reveal(user_created);
        },
        RequestModel::EditUser { realm, id, form } => {
            reveal(user_edited);
        },
        RequestModel::AssignRole { realm, id, role } => {
            reveal(role_assigned);
        },
        RequestModel::RemoveRole { realm, id, removal } => {
            reveal(role_removed);
        },
        RequestModel::SetPassword { realm, id, password } => {
            reveal(password_set);
        },
        RequestModel::Approve { id, confirm } => {
            reveal(change_approved);
        },
        RequestModel::Reject { id, rejection } => {
            reveal(change_rejected);
        },
        RequestModel::Cancel { id, confirm } => {
            reveal(change_cancelled);
        },
        RequestModel::CreateTeam(form) => {
            reveal(team_created);
        },
        RequestModel::EditClient { realm, id, client } => {
            reveal(client_edited);
        },
        RequestModel::GrantAccess(form) => {
            reveal(access_granted);
        },
        RequestModel::RevokeAccess(form) => {
            reveal(access_revoked);
        },
        _ => {},
    }
}

/// The replies begin with a signed-in user, and with realm roles that grant this role now.
pub open spec fn granted(config: ConfigModel, replies: Seq<ReplyModel>, role: Role) -> bool {
    &&& replies.len() >= 2
    &&& replies[0] matches ReplyModel::User(user) && user is Some
    &&& replies[1] matches ReplyModel::Provider(ProviderAnswerModel::Roles(roles)) && role_of(
        role_names(roles),
        config.role_admin,
        config.role_operator,
    ) == Some(role)
}

/// The first two effects of a request for signed-in users read the user from the session and
/// that user's realm roles from the identity provider.
pub proof fn lemma_roles_are_read_first(
    config: ConfigModel,
    request: RequestModel,
    user: SessionUserModel,
)
    requires
        needs_session(request),
    ensures
        performs(config, request, Seq::empty(), EffectModel::LoadUser),
        performs(
            config,
            request,
            seq![ReplyModel::User(Some(user))],
            EffectModel::Provider(
                ProviderCallModel::GetUserEffectiveRealmRoles {
                    realm: home_realm(config),
                    user_id: user.sub,
                },
            ),
        ),
{
    reveal(session_required);
    lemma_guarded(config, request, Seq::empty());
    lemma_guarded(config, request, seq![ReplyModel::User(Some(user))]);
}

/// Who is not signed in is sent to sign in.
pub proof fn lemma_strangers_are_sent_to_sign_in(
    config: ConfigModel,
    request: RequestModel,
    replies: Seq<ReplyModel>,
)
    requires
        needs_session(request),
        replies.len() > 0,
        !(replies[0] matches ReplyModel::User(user) && user is Some),
    ensures
        response(config, request, replies) == failed(AppErrorModel::Unauthenticated),
        error_shown(AppErrorModel::Unauthenticated) == (ErrorReplyModel::Redirect {
            to: "/auth/login"@,
        }),
{
    reveal(session_required);
    lemma_guarded(config, request, replies);
}

/// A user whose realm roles grant nothing any more is refused, and their session ended,
/// whatever role the session holds.
pub proof fn lemma_revoked_role_ends_the_session(
    config: ConfigModel,
    request: RequestModel,
    replies: Seq<ReplyModel>,
    user: SessionUserModel,
    roles: Seq<RoleModel>,
)
    requires
        needs_session(request),
        replies.len() >= 2,
        replies[0] == ReplyModel::User(Some(user)),
        replies[1] == ReplyModel::Provider(ProviderAnswerModel::Roles(roles)),
        role_of(role_names(roles), config.role_admin, config.role_operator) is None,
    ensures
        replies.len() == 2 ==> performs(config, request, replies, EffectModel::EndSession),
        replies.len() > 2 ==> response(config, request, replies) == failed(
            AppErrorModel::Forbidden,
        ),
{
    reveal(session_required);
    lemma_guarded(config, request, replies);
}

/// What is for admins is refused to operators.
pub proof fn lemma_operators_are_refused(
    config: ConfigModel,
    request: RequestModel,
    replies: Seq<ReplyModel>,
    user: SessionUserModel,
    rest: Seq<ReplyModel>,
)
    requires
        needs_admin(request),
        session_required(config, replies) == Ask::<SessionUserModel, ReplyModel, StepModel>::Got(
            user,
            rest,
        ),
        user.role == Role::Operator,
    ensures
        response(config, request, replies) == failed(AppErrorModel::Forbidden),
{
    lemma_guarded(config, request, replies);
}

proof fn lemma_session(config: ConfigModel, replies: Seq<ReplyModel>)
    ensures
        quiet(session_required(config, replies)),
        session_required(config, replies) matches Ask::Got(user, rest) ==> granted(
            config,
            replies,
            user.role,
        ),
{
    reveal(session_required);
}

/// No account is changed but for an admin: whoever asks has, at that moment, a realm role that
/// makes them one. The one exception is the emergency promotion, which has a token instead.
pub proof fn lemma_only_admins_change_accounts(
    config: ConfigModel,
    request: RequestModel,
    replies: Seq<ReplyModel>,
    effect: EffectModel,
)
    requires
        !(request is EmergencyPromote),
        performs(config, request, replies, effect),
        mutates(effect),
    ensures
        granted(config, replies, Role::Admin),
{
    if only_looks(request) {
        lemma_pages_change_nothing(config, request, replies, effect);
    }
    lemma_guarded(config, request, replies);
    lemma_session(config, replies);
    match request {
        RequestModel::EditUser { .. } => {
            reveal(user_edited);
            reveal(session_form_checked);
        },
        RequestModel::Cancel { .. } => {
            reveal(change_cancelled);
            reveal(session_form_checked);
        },
        _ => {},
    }
}

/// A form changes nothing unless it came with the token that the session holds, which is read
/// right after the session has been checked.
pub proof fn lemma_forms_need_their_token(
    config: ConfigModel,
    request: RequestModel,
    replies: Seq<ReplyModel>,
    effect: EffectModel,
    token: Seq<char>,
)
    requires
        form_token(request) == Some(token),
        performs(config, request, replies, effect),
        mutates(effect) || resolves(effect) || records(effect) || effect is Lock,
    ensures
        session_required(config, replies) matches Ask::Got(_, rest) && rest.len() > 0 && rest[0]
            == ReplyModel::Text(Some(token)),
{
    reveal(session_required);
    lemma_guarded(config, request, replies);
    lemma_session(config, replies);
}

/// A form with another token than the session's is refused.
pub proof fn lemma_wrong_token_is_refused(
    config: ConfigModel,
    request: RequestModel,
    replies: Seq<ReplyModel>,
    user: SessionUserModel,
    rest: Seq<ReplyModel>,
    token: Seq<char>,
    held: Option<Seq<char>>,
)
    requires
        form_token(request) == Some(token),
        session_required(config, replies) == Ask::<SessionUserModel, ReplyModel, StepModel>::Got(
            user,
            rest,
        ),
        needs_admin(request) ==> user.role == Role::Admin,
        rest.len() > 0,
        rest[0] == ReplyModel::Text(held),
        held != Some(token),
    ensures
        response(config, request, replies) == failed(AppErrorModel::CsrfMismatch),
        error_shown(AppErrorModel::CsrfMismatch) matches ErrorReplyModel::Page(page) && page.status
            == 403,
{
    lemma_guarded(config, request, replies);
}

// ── Emergency promotion ──────────────────────────────────────────────────────

/// Without a token in the configuration there is no emergency promotion.
pub proof fn lemma_emergency_can_be_off(
    config: ConfigModel,
    ip: Seq<char>,
    body: PromoteBodyModel,
    replies: Seq<ReplyModel>,
)
    requires
        config.emergency_token is None,
    ensures
        response(config, RequestModel::EmergencyPromote { ip, body }, replies)
            == StepModel::Finish(not_promoted(403, "disabled"@)),
{
    reveal(emergency_promoted);
}

/// An emergency promotion turns to the identity provider only with the token of the
/// configuration, and only for the first attempts from an address; what it changes there is
/// that a user gets the role of an admin.
pub proof fn lemma_emergency_needs_its_token(
    config: ConfigModel,
    ip: Seq<char>,
    body: PromoteBodyModel,
    replies: Seq<ReplyModel>,
    effect: EffectModel,
)
    requires
        performs(config, RequestModel::EmergencyPromote { ip, body }, replies, effect),
        effect is Provider,
    ensures
        config.emergency_token == Some(body.token),
        replies.len() > 0,
        replies[0] matches ReplyModel::Attempts(attempts) && attempts <= ATTEMPT_LIMIT,
        mutates(effect) ==> (effect matches EffectModel::Provider(
            ProviderCallModel::AssignRealmRole { realm, role, .. },
        ) && realm == issuer_realm(config) && role.name == config.role_admin),
{
    reveal(emergency_promoted);
    let named = |role: RoleModel| role.name == config.role_admin;
    assert forall|roles: Seq<RoleModel>| (#[trigger] first_where(roles, named)) matches Some(
        role,
    ) ==> role.name == config.role_admin by {
        lemma_first_where_holds(roles, named);
    }
}

/// After too many attempts from an address nothing more is tried, whatever the token.
pub proof fn lemma_emergency_is_rate_limited(
    config: ConfigModel,
    ip: Seq<char>,
    body: PromoteBodyModel,
    replies: Seq<ReplyModel>,
    attempts: i64,
)
    requires
        config.emergency_token is Some,
        replies.len() > 0,
        replies[0] == ReplyModel::Attempts(attempts),
        attempts > ATTEMPT_LIMIT,
    ensures
        response(config, RequestModel::EmergencyPromote { ip, body }, replies)
            == StepModel::Finish(not_promoted(403, "rate limited"@)),
{
    reveal(emergency_promoted);
}

// ── Realms ───────────────────────────────────────────────────────────────────

/// The realm that a call is about.
pub open spec fn realm_named(call: ProviderCallModel) -> Option<Seq<char>> {
    match call {
        ProviderCallModel::ListRealms => None,
        ProviderCallModel::ListUsers { realm, .. } => Some(realm),
        ProviderCallModel::GetUser { realm, .. } => Some(realm),
        ProviderCallModel::CreateUser { realm, .. } => Some(realm),
        ProviderCallModel::UpdateUser { realm, .. } => Some(realm),
        ProviderCallModel::SetUserEnabled { realm, .. } => Some(realm),
        ProviderCallModel::SetUserAttribute { realm, .. } => Some(realm),
        ProviderCallModel::SetUserPassword { realm, .. } => Some(realm),
        ProviderCallModel::DeleteUser { realm, .. } => Some(realm),
        ProviderCallModel::ListGroups { realm } => Some(realm),
        ProviderCallModel::GetUserGroups { realm, .. } => Some(realm),
        ProviderCallModel::ListGroupMembers { realm, .. } => Some(realm),
        ProviderCallModel::CreateGroup { realm, .. } => Some(realm),
        ProviderCallModel::AddUserToGroup { realm, .. } => Some(realm),
        ProviderCallModel::RemoveUserFromGroup { realm, .. } => Some(realm),
        ProviderCallModel::ListRealmRoles { realm } => Some(realm),
        ProviderCallModel::ListRoleUsers { realm, .. } => Some(realm),
        ProviderCallModel::GetUserRealmRoles { realm, .. } => Some(realm),
        ProviderCallModel::GetUserEffectiveRealmRoles { realm, .. } => Some(realm),
        ProviderCallModel::AssignRealmRole { realm, .. } => Some(realm),
        ProviderCallModel::RemoveRealmRole { realm, .. } => Some(realm),
        ProviderCallModel::ListClients { realm } => Some(realm),
        ProviderCallModel::GetClient { realm, .. } => Some(realm),
        ProviderCallModel::UpdateClient { realm, .. } => Some(realm),
        ProviderCallModel::GetClientSecret { realm, .. } => Some(realm),
    }
}

/// An operator who looks at users, or edits them, is shown and reaches those of one realm
/// only: the one that operators sign in to.
pub proof fn lemma_operators_stay_in_their_realm(
    config: ConfigModel,
    request: RequestModel,
    replies: Seq<ReplyModel>,
    call: ProviderCallModel,
)
    requires
        request is ListUsers || request is CheckSimilar || request is NewUserForm
            || request is UserDetail || request is EditUser,
        session_required(config, replies) matches Ask::Got(user, _) ==> user.role
            == Role::Operator,
        performs(config, request, replies, EffectModel::Provider(call)),
    ensures
        realm_named(call) matches Some(realm) ==> realm == home_realm(config),
{
    reveal(session_required);
    match request {
        RequestModel::ListUsers(_) => {
            reveal(users_listed);
        },
        RequestModel::CheckSimilar(_) => {
            reveal(similar_checked);
        },
        RequestModel::NewUserForm(_) => {
            reveal(new_user_shown);
        },
        RequestModel::UserDetail { .. } => {
            reveal(user_shown);
        },
        _ => {
            reveal(user_edited);
            reveal(session_form_checked);
        },
    }
}

} // verus!
