//! The portal as a whole: every request, and what is done with it.

use crate::auth::new_csrf_token;
use crate::config::{Config, ConfigModel};
use crate::effects::{
    Asked, Effect, Outcome, OutcomeModel, Replies, Reply, ReplyModel, Step, StepModel,
};
use crate::outside::{base64url_bytes, is_base64url_char, is_uuid_char, utc_date};
use crate::routes::admin::{
    access_granted, access_revoked, admin_panel, admin_shown, grant_access, revoke_access,
    AdminQuery, AdminQueryModel, GrantForm, GrantFormModel, RevokeForm, RevokeFormModel,
};
use crate::routes::audit::{audit_listed, list_audit, AuditQuery, AuditQueryModel};
use crate::routes::auth::{
    callback, logged_out, login, login_shown, login_started, logout, returned, start_login,
    CallbackParams, CallbackParamsModel,
};
use crate::routes::changes::{
    approve, cancel, change_approved, change_cancelled, change_rejected, changes_listed,
    list_changes, reject, ChangesQuery, ChangesQueryModel, ConfirmForm, ConfirmFormModel,
    RejectForm, RejectFormModel,
};
use crate::routes::clients::{
    client_detail, client_edited, client_shown, clients_listed, edit_client, list_clients,
    reveal_secret, secret_revealed, EditClientForm, EditClientFormModel, RealmQuery,
    RealmQueryModel,
};
use crate::routes::dashboard::{dashboard, dashboard_shown};
use crate::routes::emergency::{
    emergency_promote, emergency_promoted, PromoteBody, PromoteBodyModel,
};
use crate::routes::profile::{profile_shown, show_profile};
use crate::routes::teams::{
    create_team, list_teams, team_created, teams_listed, CreateTeamForm, CreateTeamFormModel,
};
use crate::routes::users::{
    check_similar, index, list_users, new_user_form, new_user_shown, similar_checked, started,
    user_detail, user_shown, users_listed, ListQuery, ListQueryModel, SimilarQuery,
    SimilarQueryModel,
};
use crate::routes::users::access::{
    assign_role, password_set, remove_role, role_assigned, role_removed, set_user_password,
    RoleAssignForm, RoleAssignFormModel, RoleRemoveForm, RoleRemoveFormModel, SetPasswordForm,
    SetPasswordFormModel,
};
use crate::routes::users::bulk::{bulk_edit, bulk_edited, BulkEditBody, BulkEditBodyModel};
use crate::routes::users::create::{create_user, user_created, NewUserForm, NewUserFormModel};
use crate::routes::users::edit::{edit_user, user_edited, EditForm, EditFormModel};
use crate::script::{answers, Ask, Cursor};
use crate::time::{Stamp, Timestamp};
use vstd::prelude::*;

verus! {

/// A request to the portal.
#[derive(Debug, PartialEq)]
pub enum Request {
    Index,
    Login,
    StartLogin,
    Callback(CallbackParams),
    Logout,
    ListUsers(ListQuery),
    CheckSimilar(SimilarQuery),
    BulkEdit(BulkEditBody),
    NewUserForm(ListQuery),
    CreateUser(NewUserForm),
    UserDetail { realm: String, id: String },
    EditUser { realm: String, id: String, form: EditForm },
    AssignRole { realm: String, id: String, role: RoleAssignForm },
    RemoveRole { realm: String, id: String, removal: RoleRemoveForm },
    SetPassword { realm: String, id: String, password: SetPasswordForm },
    ListChanges(ChangesQuery),
    Approve { id: String, confirm: ConfirmForm },
    Reject { id: String, rejection: RejectForm },
    Cancel { id: String, confirm: ConfirmForm },
    ListTeams,
    CreateTeam(CreateTeamForm),
    ListClients(RealmQuery),
    ClientDetail { realm: String, id: String },
    EditClient { realm: String, id: String, client: EditClientForm },
    RevealSecret { realm: String, id: String },
    Profile,
    ListAudit(AuditQuery),
    Dashboard,
    AdminPanel(AdminQuery),
    GrantAccess(GrantForm),
    RevokeAccess(RevokeForm),
    EmergencyPromote { ip: String, body: PromoteBody },
}

/// What a [`Request`] stands for in contracts.
#[verifier::ext_equal]
pub enum RequestModel {
    Index,
    Login,
    StartLogin,
    Callback(CallbackParamsModel),
    Logout,
    ListUsers(ListQueryModel),
    CheckSimilar(SimilarQueryModel),
    BulkEdit(BulkEditBodyModel),
    NewUserForm(ListQueryModel),
    CreateUser(NewUserFormModel),
    UserDetail { realm: Seq<char>, id: Seq<char> },
    EditUser { realm: Seq<char>, id: Seq<char>, form: EditFormModel },
    AssignRole { realm: Seq<char>, id: Seq<char>, role: RoleAssignFormModel },
    RemoveRole { realm: Seq<char>, id: Seq<char>, removal: RoleRemoveFormModel },
    SetPassword { realm: Seq<char>, id: Seq<char>, password: SetPasswordFormModel },
    ListChanges(ChangesQueryModel),
    Approve { id: Seq<char>, confirm: ConfirmFormModel },
    Reject { id: Seq<char>, rejection: RejectFormModel },
    Cancel { id: Seq<char>, confirm: ConfirmFormModel },
    ListTeams,
    CreateTeam(CreateTeamFormModel),
    ListClients(RealmQueryModel),
    ClientDetail { realm: Seq<char>, id: Seq<char> },
    EditClient { realm: Seq<char>, id: Seq<char>, client: EditClientFormModel },
    RevealSecret { realm: Seq<char>, id: Seq<char> },
    Profile,
    ListAudit(AuditQueryModel),
    Dashboard,
    AdminPanel(AdminQueryModel),
    GrantAccess(GrantFormModel),
    RevokeAccess(RevokeFormModel),
    EmergencyPromote { ip: Seq<char>, body: PromoteBodyModel },
}

impl DeepView for Request {
    type V = RequestModel;

    open spec fn deep_view(&self) -> RequestModel {
        match self {
            Request::Index => RequestModel::Index,
            Request::Login => RequestModel::Login,
            Request::StartLogin => RequestModel::StartLogin,
            Request::Callback(v) => RequestModel::Callback(v.deep_view()),
            Request::Logout => RequestModel::Logout,
            Request::ListUsers(v) => RequestModel::ListUsers(v.deep_view()),
            Request::CheckSimilar(v) => RequestModel::CheckSimilar(v.deep_view()),
            Request::BulkEdit(v) => RequestModel::BulkEdit(v.deep_view()),
            Request::NewUserForm(v) => RequestModel::NewUserForm(v.deep_view()),
            Request::CreateUser(v) => RequestModel::CreateUser(v.deep_view()),
            Request::UserDetail { realm, id } => RequestModel::UserDetail {
                realm: realm.deep_view(),
                id: id.deep_view(),
            },
            Request::EditUser { realm, id, form } => RequestModel::EditUser {
                realm: realm.deep_view(),
                id: id.deep_view(),
                form: form.deep_view(),
            },
            Request::AssignRole { realm, id, role } => RequestModel::AssignRole {
                realm: realm.deep_view(),
                id: id.deep_view(),
                role: role.deep_view(),
            },
            Request::RemoveRole { realm, id, removal } => RequestModel::RemoveRole {
                realm: realm.deep_view(),
                id: id.deep_view(),
                removal: removal.deep_view(),
            },
            Request::SetPassword { realm, id, password } => RequestModel::SetPassword {
                realm: realm.deep_view(),
                id: id.deep_view(),
                password: password.deep_view(),
            },
            Request::ListChanges(v) => RequestModel::ListChanges(v.deep_view()),
            Request::Approve { id, confirm } => RequestModel::Approve {
                id: id.deep_view(),
                confirm: confirm.deep_view(),
            },
            Request::Reject { id, rejection } => RequestModel::Reject {
                id: id.deep_view(),
                rejection: rejection.deep_view(),
            },
            Request::Cancel { id, confirm } => RequestModel::Cancel {
                id: id.deep_view(),
                confirm: confirm.deep_view(),
            },
            Request::ListTeams => RequestModel::ListTeams,
            Request::CreateTeam(v) => RequestModel::CreateTeam(v.deep_view()),
            Request::ListClients(v) => RequestModel::ListClients(v.deep_view()),
            Request::ClientDetail { realm, id } => RequestModel::ClientDetail {
                realm: realm.deep_view(),
                id: id.deep_view(),
            },
            Request::EditClient { realm, id, client } => RequestModel::EditClient {
                realm: realm.deep_view(),
                id: id.deep_view(),
                client: client.deep_view(),
            },
            Request::RevealSecret { realm, id } => RequestModel::RevealSecret {
                realm: realm.deep_view(),
                id: id.deep_view(),
            },
            Request::Profile => RequestModel::Profile,
            Request::ListAudit(v) => RequestModel::ListAudit(v.deep_view()),
            Request::Dashboard => RequestModel::Dashboard,
            Request::AdminPanel(v) => RequestModel::AdminPanel(v.deep_view()),
            Request::GrantAccess(v) => RequestModel::GrantAccess(v.deep_view()),
            Request::RevokeAccess(v) => RequestModel::RevokeAccess(v.deep_view()),
            Request::EmergencyPromote { ip, body } => RequestModel::EmergencyPromote {
                ip: ip.deep_view(),
                body: body.deep_view(),
            },
        }
    }
}

/// What a request comes to.
pub open spec fn handled(
    config: ConfigModel,
    request: RequestModel,
    replies: Seq<ReplyModel>,
) -> Asked<OutcomeModel> {
    match request {
        RequestModel::Index => started(replies),
        RequestModel::Login => login_shown(config, replies),
        RequestModel::StartLogin => login_started(config, replies),
        RequestModel::Callback(params) => returned(config, params, replies),
        RequestModel::Logout => logged_out(config, replies),
        RequestModel::ListUsers(query) => users_listed(config, query, replies),
        RequestModel::CheckSimilar(query) => similar_checked(config, query, replies),
        RequestModel::BulkEdit(body) => bulk_edited(config, body, replies),
        RequestModel::NewUserForm(query) => new_user_shown(config, query, replies),
        RequestModel::CreateUser(form) => user_created(config, form, replies),
        RequestModel::UserDetail { realm, id } => user_shown(config, realm, id, replies),
        RequestModel::EditUser { realm, id, form } => user_edited(
            config,
            realm,
            id,
            form,
            replies,
        ),
        RequestModel::AssignRole { realm, id, role } => role_assigned(
            config,
            realm,
            id,
            role,
            replies,
        ),
        RequestModel::RemoveRole { realm, id, removal } => role_removed(
            config,
            realm,
            id,
            removal,
            replies,
        ),
        RequestModel::SetPassword { realm, id, password } => password_set(
            config,
            realm,
            id,
            password,
            replies,
        ),
        RequestModel::ListChanges(query) => changes_listed(config, query, replies),
        RequestModel::Approve { id, confirm } => change_approved(config, id, confirm, replies),
        RequestModel::Reject { id, rejection } => change_rejected(config, id, rejection, replies),
        RequestModel::Cancel { id, confirm } => change_cancelled(config, id, confirm, replies),
        RequestModel::ListTeams => teams_listed(config, replies),
        RequestModel::CreateTeam(form) => team_created(config, form, replies),
        RequestModel::ListClients(query) => clients_listed(config, query, replies),
        RequestModel::ClientDetail { realm, id } => client_shown(config, realm, id, replies),
        RequestModel::EditClient { realm, id, client } => client_edited(
            config,
            realm,
            id,
            client,
            replies,
        ),
        RequestModel::RevealSecret { realm, id } => secret_revealed(config, realm, id, replies),
        RequestModel::Profile => profile_shown(config, replies),
        RequestModel::ListAudit(query) => audit_listed(config, query, replies),
        RequestModel::Dashboard => dashboard_shown(config, replies),
        RequestModel::AdminPanel(query) => admin_shown(config, query, replies),
        RequestModel::GrantAccess(form) => access_granted(config, form, replies),
        RequestModel::RevokeAccess(form) => access_revoked(config, form, replies),
        RequestModel::EmergencyPromote { ip, body } => emergency_promoted(
            config,
            ip,
            body,
            replies,
        ),
    }
}

/// The next step of a request, or its end.
pub open spec fn settled(ask: Asked<OutcomeModel>) -> StepModel {
    match ask {
        Ask::Stop(stop) => stop,
        Ask::Got(outcome, _) => StepModel::Finish(outcome),
    }
}

/// What a request needs next, or how it ends, after these replies.
pub open spec fn response(
    config: ConfigModel,
    request: RequestModel,
    replies: Seq<ReplyModel>,
) -> StepModel {
    settled(handled(config, request, replies))
}

fn handle(
    cursor: &mut Replies<'_>,
    config: &Config,
    request: &Request,
) -> (r: Result<Outcome, Step>)
    ensures
        answers(
            r,
            final(cursor).rest(),
            handled(config.deep_view(), request.deep_view(), old(cursor).rest()),
        ),
{
    match request {
        Request::Index => index(cursor),
        Request::Login => login(cursor, config),
        Request::StartLogin => start_login(cursor, config),
        Request::Callback(params) => callback(cursor, config, params),
        Request::Logout => logout(cursor, config),
        Request::ListUsers(query) => list_users(cursor, config, query),
        Request::CheckSimilar(query) => check_similar(cursor, config, query),
        Request::BulkEdit(body) => bulk_edit(cursor, config, body),
        Request::NewUserForm(query) => new_user_form(cursor, config, query),
        Request::CreateUser(form) => create_user(cursor, config, form),
        Request::UserDetail { realm, id } => user_detail(
            cursor,
            config,
            realm.as_str(),
            id.as_str(),
        ),
        Request::EditUser { realm, id, form } => edit_user(
            cursor,
            config,
            realm.as_str(),
            id.as_str(),
            form,
        ),
        Request::AssignRole { realm, id, role } => assign_role(
            cursor,
            config,
            realm.as_str(),
            id.as_str(),
            role,
        ),
        Request::RemoveRole { realm, id, removal } => remove_role(
            cursor,
            config,
            realm.as_str(),
            id.as_str(),
            removal,
        ),
        Request::SetPassword { realm, id, password } => set_user_password(
            cursor,
            config,
            realm.as_str(),
            id.as_str(),
            password,
        ),
        Request::ListChanges(query) => list_changes(cursor, config, query),
        Request::Approve { id, confirm } => approve(cursor, config, id.as_str(), confirm),
        Request::Reject { id, rejection } => reject(cursor, config, id.as_str(), rejection),
        Request::Cancel { id, confirm } => cancel(cursor, config, id.as_str(), confirm),
        Request::ListTeams => list_teams(cursor, config),
        Request::CreateTeam(form) => create_team(cursor, config, form),
        Request::ListClients(query) => list_clients(cursor, config, query),
        Request::ClientDetail { realm, id } => client_detail(
            cursor,
            config,
            realm.as_str(),
            id.as_str(),
        ),
        Request::EditClient { realm, id, client } => edit_client(
            cursor,
            config,
            realm.as_str(),
            id.as_str(),
            client,
        ),
        Request::RevealSecret { realm, id } => reveal_secret(
            cursor,
            config,
            realm.as_str(),
            id.as_str(),
        ),
        Request::Profile => show_profile(cursor, config),
        Request::ListAudit(query) => list_audit(cursor, config, query),
        Request::Dashboard => dashboard(cursor, config),
        Request::AdminPanel(query) => admin_panel(cursor, config, query),
        Request::GrantAccess(form) => grant_access(cursor, config, form),
        Request::RevokeAccess(form) => revoke_access(cursor, config, form),
        Request::EmergencyPromote { ip, body } => emergency_promote(
            cursor,
            config,
            ip.as_str(),
            body,
        ),
    }
}

/// Tells what a request needs next, or how it ends. To serve a request, call this with no
/// replies, perform the effect that it names, append the reply, and call it again.
pub fn respond(config: &Config, request: &Request, replies: &Vec<Reply>) -> (r: Step)
    ensures
        r.deep_view() == response(
            config.deep_view(),
            request.deep_view(),
            replies.deep_view(),
        ),
{
    let mut cursor = Cursor::new(replies);
    match handle(&mut cursor, config, request) {
        Ok(outcome) => Step::Finish(outcome),
        Err(step) => step,
    }
}

/// Performs the effects that need nothing but chance and the clock; the others are left to
/// the caller. A token spells thirty-two bytes, and an id is a hyphenated UUID; which token,
/// which id and which time come back is left open.
pub fn perform_locally(effect: &Effect) -> (r: Option<Reply>)
    ensures
        match effect {
            Effect::NewToken => r matches Some(Reply::Token(token)) && token@.len() == 43 && (
            forall|i: int| 0 <= i < 43 ==> is_base64url_char(#[trigger] token@[i])) && (
            base64url_bytes(token@) matches Some(bytes) && bytes.len() == 32),
            Effect::NewStamp => r matches Some(Reply::Stamp(stamp)) && stamp.id@.len() == 36 && (
            forall|i: int| 0 <= i < 36 ==> is_uuid_char(#[trigger] stamp.id@[i]))
                && stamp.at.nanos < 1_000_000_000 && utc_date(stamp.at.secs, stamp.at.nanos) is Some,
            Effect::ReadClock => r matches Some(Reply::Time(now)) && now.nanos < 1_000_000_000
                && utc_date(now.secs, now.nanos) is Some,
            _ => r is None,
        },
{
    match effect {
        Effect::NewToken => Some(Reply::Token(new_csrf_token())),
        Effect::NewStamp => Some(Reply::Stamp(Stamp::fresh())),
        Effect::ReadClock => Some(Reply::Time(Timestamp::now())),
        _ => None,
    }
}

} // verus!
