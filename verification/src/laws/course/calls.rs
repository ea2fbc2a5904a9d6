//! Which changes at the identity provider a request can make.

use super::filled;
use super::accounts::as_the_form_says;
use super::fields::{leaves, lemma_updates_say_what_was_changed, says};
use crate::asks::roles_asked;
use crate::config::ConfigModel;
use crate::effects::{Asked, EffectModel, ReplyModel, StepModel};
use crate::laws::{mutates, only_looks, performs};
use crate::laws::access::lemma_pages_change_nothing;
use crate::laws::queue::{
    lemma_groups_left, lemma_only_pending_changes_take_effect,
    lemma_rejected_changes_take_no_effect,
};
use crate::laws::steady::lemma_steady_admin_form;
use crate::lists::{first_where, lemma_first_where_holds};
use crate::portal::RequestModel;
use crate::provider::{
    is_mutation, GroupModel, ProviderAnswerModel, ProviderCallModel, RoleModel, UserModel,
};
use crate::routes::{
    admin_form_checked, group_with, holds_group, session_form_checked, session_required,
};
use crate::routes::admin::{access_granted, access_revoked};
use crate::routes::clients::client_edited;
use crate::routes::emergency::{emergency_promoted, issuer_realm};
use crate::routes::teams::team_created;
use crate::routes::users::access::{
    password_set, role_assigned, role_by_name_asked, role_removed,
};
use crate::routes::users::bulk::{
    bulk_edited, bulk_edited_by, bulk_made, chosen_team, team_groups_asked, user_changed,
    users_changed,
    BulkEditBodyModel, BulkUserModel, TeamModel,
};
use crate::routes::users::create::user_created;
use crate::routes::users::edit::user_edited;
use crate::script::Ask;
use crate::service::changes::groups_left;
use crate::session::{Role, SessionUserModel};
use crate::text::{entries, trimmed};
use vstd::prelude::*;

verus! {

/// A user is one of those that a bulk edit names.
pub open spec fn is_meant(body: BulkEditBodyModel, realm: Seq<char>, id: Seq<char>) -> bool {
    exists|u: int| 0 <= u < body.users.len() && #[trigger] body.users[u] == (BulkUserModel {
        id,
        realm,
    })
}

/// The change is one that a bulk edit asks for.
pub open spec fn is_bulk_change(body: BulkEditBodyModel, call: ProviderCallModel) -> bool {
    match call {
        ProviderCallModel::SetUserEnabled { realm, id, enabled } => is_meant(body, realm, id)
            && body.enabled == Some(enabled),
        ProviderCallModel::RemoveUserFromGroup { realm, user_id, group_id } => is_meant(
            body,
            realm,
            user_id,
        ) && filled(body.team_group_id) is Some && filled(body.team_group_id) != Some(group_id),
        ProviderCallModel::AddUserToGroup { realm, user_id, group_id } => is_meant(
            body,
            realm,
            user_id,
        ) && filled(body.team_group_id) == Some(group_id),
        ProviderCallModel::SetUserAttribute { realm, id, key, .. } => is_meant(body, realm, id)
            && key == "team"@ && filled(body.team_group_id) is Some,
        _ => false,
    }
}

/// The change is one that a request asks for, in its own words.
pub open spec fn is_asked_for(
    config: ConfigModel,
    request: RequestModel,
    call: ProviderCallModel,
) -> bool {
    match request {
        RequestModel::BulkEdit(body) => is_bulk_change(body, call),
        RequestModel::CreateUser(form) => match call {
            ProviderCallModel::CreateUser { realm, user } => realm == form.realm && (
            exists|team: Option<GroupModel>| #[trigger]
                as_the_form_says(form, team, user) && (team is Some ==> Some(team->0.id) == filled(
                    form.team_group_id,
                ))),
            ProviderCallModel::AddUserToGroup { realm, group_id, .. } => realm == form.realm
                && filled(form.team_group_id) == Some(group_id),
            _ => false,
        },
        RequestModel::EditUser { realm, id, .. } => match call {
            ProviderCallModel::UpdateUser { realm: r, id: i, .. } => r == realm && i == id,
            ProviderCallModel::RemoveUserFromGroup { realm: r, user_id, .. } => r == realm
                && user_id == id,
            ProviderCallModel::AddUserToGroup { realm: r, user_id, .. } => r == realm && user_id
                == id,
            _ => false,
        },
        RequestModel::AssignRole { realm, id, role: form } => match call {
            ProviderCallModel::AssignRealmRole { realm: r, user_id, role } => r == realm && user_id
                == id && role.id == form.role_id,
            _ => false,
        },
        RequestModel::RemoveRole { realm, id, removal } => match call {
            ProviderCallModel::RemoveRealmRole { realm: r, user_id, role } => r == realm && user_id
                == id && role.id == removal.role_id && role.name == removal.role_name,
            _ => false,
        },
        RequestModel::SetPassword { realm, id, password: form } => match call {
            ProviderCallModel::SetUserPassword { realm: r, id: i, password, temporary } => r
                == realm && i == id && password == form.password && password.len() > 0 && (temporary
                <==> form.temporary == Some("on"@)),
            _ => false,
        },
        RequestModel::Approve { .. } => match call {
            ProviderCallModel::UpdateUser { .. } => true,
            ProviderCallModel::RemoveUserFromGroup { .. } => true,
            ProviderCallModel::AddUserToGroup { .. } => true,
            _ => false,
        },
        RequestModel::CreateTeam(form) => match call {
            ProviderCallModel::CreateGroup { realm, name, parent_id } => realm == form.realm && if parent_id is Some {
                name == trimmed(form.name)
            } else {
                name == config.teams_group
            },
            _ => false,
        },
        RequestModel::EditClient { realm, id, client } => match call {
            ProviderCallModel::UpdateClient { realm: r, id: i, settings } => {
                &&& r == realm
                &&& i == id
                &&& settings.enabled is Some == client.enabled is Some
                &&& settings.enabled is Some ==> settings.enabled->0 == (client.enabled == Some(
                    "on"@,
                ))
                &&& settings.redirect_uris is Some == client.redirect_uris is Some
                &&& settings.web_origins is Some == client.web_origins is Some
            },
            _ => false,
        },
        RequestModel::GrantAccess(form) => match call {
            ProviderCallModel::AssignRealmRole { realm, role, .. } => {
                &&& realm == form.realm
                &&& form.role == "admin"@ ==> role.name == config.role_admin
                &&& form.role != "admin"@ ==> role.name == config.role_operator
            },
            _ => false,
        },
        RequestModel::RevokeAccess(form) => match call {
            ProviderCallModel::RemoveRealmRole { realm, user_id, role } => realm == form.realm
                && user_id == form.user_id && role.name == form.role_name && (form.role_id.len() > 0
                ==> role.id == form.role_id),
            _ => false,
        },
        RequestModel::EmergencyPromote { .. } => match call {
            ProviderCallModel::AssignRealmRole { realm, role, .. } => realm == issuer_realm(config)
                && role.name == config.role_admin,
            _ => false,
        },
        _ => false,
    }
}

/// What a part of a request needs next is no change that is not asked for.
spec fn keeps_to<T>(config: ConfigModel, request: RequestModel, ask: Asked<T>) -> bool {
    ask matches Ask::Stop(StepModel::Perform(EffectModel::Provider(call))) ==> is_mutation(call)
        ==> is_asked_for(config, request, call)
}

proof fn lemma_forms_keep_to(
    config: ConfigModel,
    request: RequestModel,
    token: Seq<char>,
    replies: Seq<ReplyModel>,
)
    ensures
        keeps_to(config, request, admin_form_checked(config, token, replies)),
        keeps_to(config, request, session_form_checked(config, token, replies)),
{
    reveal(session_required);
    reveal(admin_form_checked);
    reveal(session_form_checked);
}

proof fn lemma_groups_keep_to(
    realm: Seq<char>,
    user_id: Seq<char>,
)
    ensures
        forall|groups: Seq<GroupModel>, keep: Seq<char>, rest: Seq<ReplyModel>|
            (#[trigger] groups_left(realm, user_id, groups, keep, rest)) matches Ask::Stop(
                StepModel::Perform(effect),
            ) ==> (effect matches EffectModel::Provider(
                ProviderCallModel::RemoveUserFromGroup { realm: r, user_id: u, group_id },
            ) && r == realm && u == user_id && group_id != keep),
{
    assert forall|groups: Seq<GroupModel>, keep: Seq<char>, rest: Seq<ReplyModel>|
        (#[trigger] groups_left(realm, user_id, groups, keep, rest)) matches Ask::Stop(
            StepModel::Perform(effect),
        ) ==> (effect matches EffectModel::Provider(
            ProviderCallModel::RemoveUserFromGroup { realm: r, user_id: u, group_id },
        ) && r == realm && u == user_id && group_id != keep) by {
        lemma_groups_left(realm, user_id, groups, keep, rest);
    }
}

proof fn lemma_users_keep_to(
    config: ConfigModel,
    body: BulkEditBodyModel,
    users: Seq<BulkUserModel>,
    team: Option<TeamModel>,
    teams: Seq<GroupModel>,
    replies: Seq<ReplyModel>,
)
    requires
        forall|i: int|
            0 <= i < users.len() ==> is_meant(
                body,
                (#[trigger] users[i]).realm,
                users[i].id,
            ),
        team is Some ==> Some(team->0.id) == filled(body.team_group_id),
    ensures
        keeps_to(
            config,
            RequestModel::BulkEdit(body),
            users_changed(users, body.enabled, team, teams, replies),
        ),
    decreases users.len(),
{
    if users.len() > 0 {
        let each = users[0];
        lemma_groups_keep_to(each.realm, each.id);
        let changed = user_changed(each, body.enabled, team, teams, replies);
        if let Ask::Got(_, rest) = changed {
            assert forall|i: int| 0 <= i < users.skip(1).len() implies is_meant(
                body,
                (#[trigger] users.skip(1)[i]).realm,
                users.skip(1)[i].id,
            ) by {
                assert(users.skip(1)[i] == users[i + 1]);
            }
            lemma_users_keep_to(config, body, users.skip(1), team, teams, rest);
        }
    }
}

proof fn lemma_bulk_keeps_to(
    config: ConfigModel,
    body: BulkEditBodyModel,
    actor: SessionUserModel,
    teams: Seq<GroupModel>,
    replies: Seq<ReplyModel>,
)
    requires
        actor.role == Role::Admin,
    ensures
        keeps_to(
            config,
            RequestModel::BulkEdit(body),
            bulk_made(actor, body, teams, replies),
        ),
{
    let team = chosen_team(teams, body.team_group_id);
    lemma_groups_found(teams);
    assert forall|i: int| 0 <= i < body.users.len() implies is_meant(
        body,
        (#[trigger] body.users[i]).realm,
        body.users[i].id,
    ) by {
        assert(body.users[i] == (BulkUserModel {
            id: body.users[i].id,
            realm: body.users[i].realm,
        }));
    }
    lemma_users_keep_to(config, body, body.users, team, teams, replies);
}

proof fn lemma_groups_found(groups: Seq<GroupModel>)
    ensures
        forall|id: Seq<char>|
            (#[trigger] group_with(groups, id)) matches Some(group) ==> group.id == id,
{
    assert forall|id: Seq<char>|
        (#[trigger] group_with(groups, id)) matches Some(group) ==> group.id == id by {
        lemma_first_where_holds(groups, |g: GroupModel| g.id == id);
    }
}

proof fn lemma_created_as_described(
    config: ConfigModel,
    request: RequestModel,
    replies: Seq<ReplyModel>,
    call: ProviderCallModel,
)
    requires
        request is CreateUser,
        performs(config, request, replies, EffectModel::Provider(call)),
        is_mutation(call),
    ensures
        is_asked_for(config, request, call),
{
    let form = request->CreateUser_0;
    reveal(user_created);
    lemma_forms_keep_to(config, request, form.csrf_token, replies);
    lemma_steady_admin_form(config, form.csrf_token, replies, 0);
    if let Ask::Got(actor, rest) = admin_form_checked(config, form.csrf_token, replies) {
        if let Ask::Got(teams, last) = team_groups_asked(form.realm, form.team_group_id, rest) {
            lemma_groups_found(teams);
            let chosen = filled(form.team_group_id);
            let team = if chosen is Some {
                group_with(teams, chosen->0)
            } else {
                None
            };
            if let ProviderCallModel::CreateUser { realm, user } = call {
                assert(as_the_form_says(form, team, user));
            }
        }
    }
}

/// Whatever a request changes at the identity provider is what it asks for: it is about the
/// accounts, roles, groups and clients that the request names, and gives them the values that
/// the request holds.
pub proof fn lemma_only_what_was_asked_for_is_changed(
    config: ConfigModel,
    request: RequestModel,
    replies: Seq<ReplyModel>,
    call: ProviderCallModel,
)
    requires
        performs(config, request, replies, EffectModel::Provider(call)),
        is_mutation(call),
    ensures
        is_asked_for(config, request, call),
{
    let effect = EffectModel::Provider(call);
    if only_looks(request) {
        lemma_pages_change_nothing(config, request, replies, effect);
    }
    match request {
        RequestModel::BulkEdit(body) => {
            reveal(bulk_edited);
            lemma_forms_keep_to(config, request, body.csrf_token, replies);
            lemma_steady_admin_form(config, body.csrf_token, replies, 0);
            assert forall|actor: SessionUserModel, teams: Seq<GroupModel>, rest: Seq<ReplyModel>|
                actor.role == Role::Admin implies keeps_to(
                config,
                request,
                #[trigger] bulk_made(actor, body, teams, rest),
            ) by {
                lemma_bulk_keeps_to(config, body, actor, teams, rest);
            }
        },
        RequestModel::CreateUser(form) => {
            lemma_created_as_described(config, request, replies, call);
        },
        RequestModel::EditUser { realm, id, form } => {
            reveal(user_edited);
            lemma_forms_keep_to(config, request, form.csrf_token, replies);
            lemma_groups_keep_to(realm, id);
        },
        RequestModel::AssignRole { role: form, .. } => {
            reveal(role_assigned);
            lemma_forms_keep_to(config, request, form.csrf_token, replies);
            let wanted = |role: RoleModel| role.id == form.role_id;
            assert forall|roles: Seq<RoleModel>| (#[trigger] first_where(
                roles,
                wanted,
            )) matches Some(role) ==> role.id == form.role_id by {
                lemma_first_where_holds(roles, wanted);
            }
        },
        RequestModel::RemoveRole { removal, .. } => {
            reveal(role_removed);
            lemma_forms_keep_to(config, request, removal.csrf_token, replies);
        },
        RequestModel::SetPassword { password, .. } => {
            reveal(password_set);
            lemma_forms_keep_to(config, request, password.csrf_token, replies);
        },
        RequestModel::Approve { id, .. } => {
            lemma_only_pending_changes_take_effect(config, request, replies, effect, id);
        },
        RequestModel::Reject { .. } => {
            lemma_rejected_changes_take_no_effect(config, request, replies, effect);
        },
        RequestModel::Cancel { .. } => {
            lemma_rejected_changes_take_no_effect(config, request, replies, effect);
        },
        RequestModel::CreateTeam(form) => {
            reveal(team_created);
            lemma_forms_keep_to(config, request, form.csrf_token, replies);
        },
        RequestModel::EditClient { client, .. } => {
            reveal(client_edited);
            lemma_forms_keep_to(config, request, client.csrf_token, replies);
        },
        RequestModel::GrantAccess(form) => {
            reveal(access_granted);
            lemma_forms_keep_to(config, request, form.csrf_token, replies);
            lemma_roles_named();
        },
        RequestModel::RevokeAccess(form) => {
            reveal(access_revoked);
            lemma_forms_keep_to(config, request, form.csrf_token, replies);
            lemma_roles_named();
        },
        RequestModel::EmergencyPromote { .. } => {
            reveal(emergency_promoted);
            let named = |role: RoleModel| role.name == config.role_admin;
            assert forall|roles: Seq<RoleModel>| (#[trigger] first_where(
                roles,
                named,
            )) matches Some(role) ==> role.name == config.role_admin by {
                lemma_first_where_holds(roles, named);
            }
        },
        _ => {},
    }
}

proof fn lemma_roles_named()
    ensures
        forall|realm: Seq<char>, name: Seq<char>, replies: Seq<ReplyModel>|
            (#[trigger] role_by_name_asked(realm, name, replies)) matches Ask::Got(role, _)
                ==> role.name == name,
{
    assert forall|realm: Seq<char>, name: Seq<char>, replies: Seq<ReplyModel>|
        (#[trigger] role_by_name_asked(realm, name, replies)) matches Ask::Got(role, _)
            ==> role.name == name by {
        if let Ask::Got(roles, _) = roles_asked(
            ProviderCallModel::ListRealmRoles { realm },
            replies,
        ) {
            lemma_first_where_holds(roles, |role: RoleModel| role.name == name);
        }
    }
}

} // verus!
