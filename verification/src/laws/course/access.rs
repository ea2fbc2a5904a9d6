//! Passwords, roles and access.

use super::{
    broke, closes, first_role_named, first_role_with, first_user_named, group_opened, leads_to,
    lemma_first, lemma_none, made, opened, refused, roles_found, success, told, user_found,
    users_found, warning,
};
use crate::config::ConfigModel;
use crate::effects::{EffectModel, ReplyModel};
use crate::error::{AppErrorModel, ProviderErrorModel};
use crate::laws::performs;
use crate::portal::{response, RequestModel};
use crate::provider::{
    ListUsersQueryModel, ProviderAnswerModel, ProviderCallModel, RoleModel, UserModel,
};
use crate::routes::admin::{access_granted, access_revoked, GrantFormModel, RevokeFormModel};
use crate::routes::users::access::{
    password_set, role_assigned, role_removed, RoleAssignFormModel, RoleRemoveFormModel,
    SetPasswordFormModel,
};
use crate::session::{Role, SessionUserModel};
use crate::time::StampModel;
use vstd::prelude::*;

verus! {

broadcast use group_opened;

/// The password that the form holds is set for the user whom the request names, and has to be
/// changed at the next sign-in if, and only if, the box is ticked. The log names the user.
pub proof fn lemma_passwords_are_set_as_sent(
    config: ConfigModel,
    realm: Seq<char>,
    id: Seq<char>,
    form: SetPasswordFormModel,
    head: Seq<ReplyModel>,
    user: SessionUserModel,
    subject: UserModel,
    stamp: StampModel,
    error: ProviderErrorModel,
    problem: Seq<char>,
)
    requires
        opened(config, form.csrf_token, head, user),
        user.role == Role::Admin,
    ensures
        ({
            let request = RequestModel::SetPassword { realm, id, password: form };
            let temporary = form.temporary == Some("on"@);
            let found = user_found(subject);
            if form.password.len() == 0 {
                refused(
                    config,
                    request,
                    head,
                    AppErrorModel::Internal("password cannot be empty"@),
                )
            } else {
                &&& performs(
                    config,
                    request,
                    head,
                    EffectModel::Provider(
                        ProviderCallModel::SetUserPassword {
                            realm,
                            id,
                            password: form.password,
                            temporary,
                        },
                    ),
                )
                &&& refused(
                    config,
                    request,
                    head + seq![broke(error)],
                    AppErrorModel::Provider(error),
                )
                &&& performs(
                    config,
                    request,
                    head + seq![made()],
                    EffectModel::Provider(ProviderCallModel::GetUser { realm, id }),
                )
                &&& closes(
                    config,
                    request,
                    head,
                    seq![made(), found],
                    stamp,
                    told(
                        stamp,
                        user.username,
                        "set_password"@,
                        realm,
                        Some(subject.username),
                        if temporary {
                            "temporary password set"@
                        } else {
                            "password set"@
                        },
                    ),
                    success("Password updated for "@ + subject.username + "."@),
                    "/users/"@ + realm + "/"@ + id,
                    problem,
                )
            }
        }),
{
    reveal(password_set);
    assert(head + Seq::<ReplyModel>::empty() =~= head);
}

/// The role that the form names by its id is looked up among those of the realm, and assigned
/// to the user whom the request names.
pub proof fn lemma_roles_are_assigned_as_chosen(
    config: ConfigModel,
    realm: Seq<char>,
    id: Seq<char>,
    form: RoleAssignFormModel,
    head: Seq<ReplyModel>,
    user: SessionUserModel,
    roles: Seq<RoleModel>,
    i: int,
    stamp: StampModel,
    error: ProviderErrorModel,
    problem: Seq<char>,
)
    requires
        opened(config, form.csrf_token, head, user),
        user.role == Role::Admin,
    ensures
        ({
            let request = RequestModel::AssignRole { realm, id, role: form };
            &&& performs(
                config,
                request,
                head,
                EffectModel::Provider(ProviderCallModel::ListRealmRoles { realm }),
            )
            &&& refused(config, request, head + seq![broke(error)], AppErrorModel::Provider(error))
            &&& (forall|j: int| 0 <= j < roles.len() ==> (#[trigger] roles[j]).id != form.role_id)
                ==> refused(
                config,
                request,
                head + seq![roles_found(roles)],
                AppErrorModel::NotFound("role "@ + form.role_id),
            )
            &&& first_role_with(roles, i, form.role_id) ==> {
                &&& performs(
                    config,
                    request,
                    head + seq![roles_found(roles)],
                    EffectModel::Provider(
                        ProviderCallModel::AssignRealmRole { realm, user_id: id, role: roles[i] },
                    ),
                )
                &&& refused(
                    config,
                    request,
                    head + seq![roles_found(roles), broke(error)],
                    AppErrorModel::Provider(error),
                )
                &&& closes(
                    config,
                    request,
                    head,
                    seq![roles_found(roles), made()],
                    stamp,
                    told(
                        stamp,
                        user.username,
                        "assign_role"@,
                        realm,
                        Some(id),
                        "role '"@ + roles[i].name + "' assigned"@,
                    ),
                    success("Role '"@ + roles[i].name + "' assigned."@),
                    "/users/"@ + realm + "/"@ + id,
                    problem,
                )
            }
        }),
{
    reveal(role_assigned);
    assert(head + Seq::<ReplyModel>::empty() =~= head);
    let wanted = |role: RoleModel| role.id == form.role_id;
    if first_role_with(roles, i, form.role_id) {
        lemma_first(roles, i, wanted);
    } else if forall|j: int| 0 <= j < roles.len() ==> (#[trigger] roles[j]).id != form.role_id {
        lemma_none(roles, wanted);
    }
}

/// The role that the form names is taken from the user whom the request names.
pub proof fn lemma_roles_are_removed_as_chosen(
    config: ConfigModel,
    realm: Seq<char>,
    id: Seq<char>,
    form: RoleRemoveFormModel,
    head: Seq<ReplyModel>,
    user: SessionUserModel,
    stamp: StampModel,
    error: ProviderErrorModel,
    problem: Seq<char>,
)
    requires
        opened(config, form.csrf_token, head, user),
        user.role == Role::Admin,
    ensures
        ({
            let request = RequestModel::RemoveRole { realm, id, removal: form };
            &&& performs(
                config,
                request,
                head,
                EffectModel::Provider(
                    ProviderCallModel::RemoveRealmRole {
                        realm,
                        user_id: id,
                        role: RoleModel {
                            id: form.role_id,
                            name: form.role_name,
                            description: None,
                            client_role: false,
                        },
                    },
                ),
            )
            &&& refused(config, request, head + seq![broke(error)], AppErrorModel::Provider(error))
            &&& closes(
                config,
                request,
                head,
                seq![made()],
                stamp,
                told(
                    stamp,
                    user.username,
                    "remove_role"@,
                    realm,
                    Some(id),
                    "role '"@ + form.role_name + "' removed"@,
                ),
                success("Role '"@ + form.role_name + "' removed."@),
                "/users/"@ + realm + "/"@ + id,
                problem,
            )
        }),
{
    reveal(role_removed);
    assert(head + Seq::<ReplyModel>::empty() =~= head);
}

/// The realm role that a grant is about: the one of admins, where the form says so, else the
/// one of operators.
pub open spec fn role_meant(config: ConfigModel, form: GrantFormModel, name: Seq<char>) -> bool {
    &&& form.role == "admin"@ ==> name == config.role_admin
    &&& form.role != "admin"@ ==> name == config.role_operator
}

/// Access is granted to the user with exactly the name that the form holds, by the role that
/// it chooses: the realm's admin role for an admin, its operator role for anybody else.
pub proof fn lemma_access_is_granted_as_chosen(
    config: ConfigModel,
    form: GrantFormModel,
    head: Seq<ReplyModel>,
    user: SessionUserModel,
    users: Seq<UserModel>,
    i: int,
    name: Seq<char>,
    roles: Seq<RoleModel>,
    j: int,
    stamp: StampModel,
    error: ProviderErrorModel,
    problem: Seq<char>,
)
    requires
        opened(config, form.csrf_token, head, user),
        user.role == Role::Admin,
        role_meant(config, form, name),
    ensures
        ({
            let request = RequestModel::GrantAccess(form);
            let listed = users_found(users);
            &&& performs(
                config,
                request,
                head,
                EffectModel::Provider(
                    ProviderCallModel::ListUsers {
                        realm: form.realm,
                        query: ListUsersQueryModel {
                            search: Some(form.username),
                            offset: 0,
                            max: 100,
                        },
                    },
                ),
            )
            &&& (forall|k: int|
                0 <= k < users.len() ==> (#[trigger] users[k]).username != form.username)
                ==> refused(
                config,
                request,
                head + seq![listed],
                AppErrorModel::NotFound("user "@ + form.username),
            )
            &&& first_user_named(users, i, form.username) ==> {
                &&& performs(
                    config,
                    request,
                    head + seq![listed],
                    EffectModel::Provider(ProviderCallModel::ListRealmRoles { realm: form.realm }),
                )
                &&& (forall|k: int| 0 <= k < roles.len() ==> (#[trigger] roles[k]).name != name)
                    ==> refused(
                    config,
                    request,
                    head + seq![listed, roles_found(roles)],
                    AppErrorModel::NotFound("role "@ + name),
                )
                &&& first_role_named(roles, j, name) ==> {
                    &&& performs(
                        config,
                        request,
                        head + seq![listed, roles_found(roles)],
                        EffectModel::Provider(
                            ProviderCallModel::AssignRealmRole {
                                realm: form.realm,
                                user_id: users[i].id,
                                role: roles[j],
                            },
                        ),
                    )
                    &&& refused(
                        config,
                        request,
                        head + seq![listed, roles_found(roles), broke(error)],
                        AppErrorModel::Provider(error),
                    )
                    &&& closes(
                        config,
                        request,
                        head,
                        seq![listed, roles_found(roles), made()],
                        stamp,
                        told(
                            stamp,
                            user.username,
                            "grant_access"@,
                            form.realm,
                            Some(form.username),
                            "granted "@ + form.username + " role '"@ + name + "'"@,
                        ),
                        success(form.username + " granted "@ + form.role + " access."@),
                        "/admin?realm="@ + form.realm,
                        problem,
                    )
                }
            }
        }),
{
    reveal(access_granted);
    assert(head + Seq::<ReplyModel>::empty() =~= head);
    let called = |user: UserModel| user.username == form.username;
    let wanted = |role: RoleModel| role.name == name;
    if first_user_named(users, i, form.username) {
        lemma_first(users, i, called);
    } else if forall|k: int|
        0 <= k < users.len() ==> (#[trigger] users[k]).username != form.username {
        lemma_none(users, called);
    }
    if first_role_named(roles, j, name) {
        lemma_first(roles, j, wanted);
    } else if forall|k: int| 0 <= k < roles.len() ==> (#[trigger] roles[k]).name != name {
        lemma_none(roles, wanted);
    }
}

/// Access is revoked by taking the role that the form names from the user whom it names; a
/// role without an id is looked up by its name. Nobody takes the admin role from themselves.
pub proof fn lemma_access_is_revoked_as_chosen(
    config: ConfigModel,
    form: RevokeFormModel,
    head: Seq<ReplyModel>,
    user: SessionUserModel,
    roles: Seq<RoleModel>,
    i: int,
    stamp: StampModel,
    error: ProviderErrorModel,
    problem: Seq<char>,
)
    requires
        opened(config, form.csrf_token, head, user),
        user.role == Role::Admin,
    ensures
        ({
            let request = RequestModel::RevokeAccess(form);
            let named = RoleModel {
                id: form.role_id,
                name: form.role_name,
                description: None,
                client_role: false,
            };
            let listed = roles_found(roles);
            let entry = told(
                stamp,
                user.username,
                "revoke_access"@,
                form.realm,
                Some(form.username),
                "revoked '"@ + form.role_name + "' from "@ + form.username,
            );
            let message = warning("Access revoked for "@ + form.username + "."@);
            let to = "/admin?realm="@ + form.realm;
            if form.username == user.username && form.role_name == config.role_admin {
                &&& performs(
                    config,
                    request,
                    head,
                    EffectModel::StoreFlash(warning("You cannot revoke your own admin access."@)),
                )
                &&& leads_to(config, request, head + seq![ReplyModel::Done], to)
            } else if form.role_id.len() > 0 {
                &&& takes_role(config, request, head, form.realm, form.user_id, named)
                &&& refused(
                    config,
                    request,
                    head + seq![broke(error)],
                    AppErrorModel::Provider(error),
                )
                &&& closes(
                    config,
                    request,
                    head,
                    seq![made()],
                    stamp,
                    entry,
                    message,
                    to,
                    problem,
                )
            } else {
                &&& performs(
                    config,
                    request,
                    head,
                    EffectModel::Provider(ProviderCallModel::ListRealmRoles { realm: form.realm }),
                )
                &&& (forall|k: int|
                    0 <= k < roles.len() ==> (#[trigger] roles[k]).name != form.role_name)
                    ==> refused(
                    config,
                    request,
                    head + seq![listed],
                    AppErrorModel::NotFound("role "@ + form.role_name),
                )
                &&& first_role_named(roles, i, form.role_name) ==> {
                    &&& takes_role(
                        config,
                        request,
                        head + seq![listed],
                        form.realm,
                        form.user_id,
                        roles[i],
                    )
                    &&& refused(
                        config,
                        request,
                        head + seq![listed, broke(error)],
                        AppErrorModel::Provider(error),
                    )
                    &&& closes(
                        config,
                        request,
                        head,
                        seq![listed, made()],
                        stamp,
                        entry,
                        message,
                        to,
                        problem,
                    )
                }
            }
        }),
{
    reveal(access_revoked);
    assert(head + Seq::<ReplyModel>::empty() =~= head);
    let wanted = |role: RoleModel| role.name == form.role_name;
    if first_role_named(roles, i, form.role_name) {
        lemma_first(roles, i, wanted);
    } else if forall|k: int|
        0 <= k < roles.len() ==> (#[trigger] roles[k]).name != form.role_name {
        lemma_none(roles, wanted);
    }
}

/// A role is taken from a user next.
pub open spec fn takes_role(
    config: ConfigModel,
    request: RequestModel,
    replies: Seq<ReplyModel>,
    realm: Seq<char>,
    user_id: Seq<char>,
    role: RoleModel,
) -> bool {
    performs(
        config,
        request,
        replies,
        EffectModel::Provider(ProviderCallModel::RemoveRealmRole { realm, user_id, role }),
    )
}

} // verus!
