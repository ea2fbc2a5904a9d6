//! Teams, clients, and the emergency promotion.

use super::{
    broke, closes, first_group_named, first_role_named, first_user_named, group_opened,
    groups_found, lemma_first, lemma_none, made, opened, refused, roles_found, success, told,
    users_found,
};
use crate::config::ConfigModel;
use crate::effects::{EffectModel, OutcomeModel, PromotionModel, ReplyModel, StepModel};
use crate::error::{AppErrorModel, ProviderErrorModel};
use crate::laws::performs;
use crate::portal::{response, RequestModel};
use crate::provider::{
    GroupModel, ListUsersQueryModel, ProviderAnswerModel, ProviderCallModel, RoleModel,
    UpdateAppClientModel, UserModel,
};
use crate::routes::clients::{client_edited, EditClientFormModel};
use crate::routes::emergency::{emergency_promoted, issuer_realm, PromoteBodyModel};
use crate::routes::teams::{team_created, CreateTeamFormModel};
use crate::session::{Role, SessionUserModel};
use crate::text::{entries, trimmed};
use crate::time::StampModel;
use vstd::prelude::*;

verus! {

broadcast use group_opened;

// ── Teams ────────────────────────────────────────────────────────────────────

/// The identity provider has this group now.
pub open spec fn group_there(group: GroupModel) -> ReplyModel {
    ReplyModel::Provider(ProviderAnswerModel::Group(group))
}

/// After `head` and `tail` a team is created below a parent, and told the log.
pub open spec fn creates_team(
    config: ConfigModel,
    form: CreateTeamFormModel,
    head: Seq<ReplyModel>,
    tail: Seq<ReplyModel>,
    user: SessionUserModel,
    parent: Seq<char>,
    team: GroupModel,
    stamp: StampModel,
    error: ProviderErrorModel,
    problem: Seq<char>,
) -> bool {
    let request = RequestModel::CreateTeam(form);
    let name = trimmed(form.name);
    &&& performs(
        config,
        request,
        head + tail,
        EffectModel::Provider(
            ProviderCallModel::CreateGroup { realm: form.realm, name, parent_id: Some(parent) },
        ),
    )
    &&& refused(config, request, head + tail.push(broke(error)), AppErrorModel::Provider(error))
    &&& closes(
        config,
        request,
        head,
        tail.push(group_there(team)),
        stamp,
        told(
            stamp,
            user.username,
            "create_team"@,
            form.realm,
            None,
            "team '"@ + name + "' created"@,
        ),
        success("Team '"@ + name + "' created."@),
        "/users?realm="@ + form.realm,
        problem,
    )
}

/// A team gets the name that the form holds, without the white space around it, below the
/// group above all teams, which is created where the realm has none. A blank name is refused.
pub proof fn lemma_teams_are_created_below_their_parent(
    config: ConfigModel,
    form: CreateTeamFormModel,
    head: Seq<ReplyModel>,
    user: SessionUserModel,
    groups: Seq<GroupModel>,
    i: int,
    parent: GroupModel,
    team: GroupModel,
    stamp: StampModel,
    error: ProviderErrorModel,
    problem: Seq<char>,
)
    requires
        opened(config, form.csrf_token, head, user),
        user.role == Role::Admin,
    ensures
        ({
            let request = RequestModel::CreateTeam(form);
            if trimmed(form.name).len() == 0 {
                refused(
                    config,
                    request,
                    head,
                    AppErrorModel::Internal("team name cannot be empty"@),
                )
            } else {
                &&& performs(
                    config,
                    request,
                    head,
                    EffectModel::Provider(ProviderCallModel::ListGroups { realm: form.realm }),
                )
                &&& first_group_named(groups, i, config.teams_group) ==> creates_team(
                    config,
                    form,
                    head,
                    seq![groups_found(groups)],
                    user,
                    groups[i].id,
                    team,
                    stamp,
                    error,
                    problem,
                )
                &&& (forall|j: int|
                    0 <= j < groups.len() ==> (#[trigger] groups[j]).name != config.teams_group)
                    ==> {
                    &&& performs(
                        config,
                        request,
                        head + seq![groups_found(groups)],
                        EffectModel::Provider(
                            ProviderCallModel::CreateGroup {
                                realm: form.realm,
                                name: config.teams_group,
                                parent_id: None,
                            },
                        ),
                    )
                    &&& refused(
                        config,
                        request,
                        head + seq![groups_found(groups), broke(error)],
                        AppErrorModel::Provider(error),
                    )
                    &&& creates_team(
                        config,
                        form,
                        head,
                        seq![groups_found(groups), group_there(parent)],
                        user,
                        parent.id,
                        team,
                        stamp,
                        error,
                        problem,
                    )
                }
            }
        }),
{
    reveal(team_created);
    assert(head + Seq::<ReplyModel>::empty() =~= head);
    let wanted = |g: GroupModel| g.name == config.teams_group;
    if first_group_named(groups, i, config.teams_group) {
        lemma_first(groups, i, wanted);
    } else if forall|j: int|
        0 <= j < groups.len() ==> (#[trigger] groups[j]).name != config.teams_group {
        lemma_none(groups, wanted);
    }
}

// ── Clients ──────────────────────────────────────────────────────────────────

/// The settings of the client whom the request names are changed as the form says; what the
/// form leaves out stays. A list holds one entry on each line.
pub proof fn lemma_clients_are_changed_as_sent(
    config: ConfigModel,
    realm: Seq<char>,
    id: Seq<char>,
    form: EditClientFormModel,
    head: Seq<ReplyModel>,
    user: SessionUserModel,
    settings: UpdateAppClientModel,
    stamp: StampModel,
    error: ProviderErrorModel,
    problem: Seq<char>,
)
    requires
        opened(config, form.csrf_token, head, user),
        user.role == Role::Admin,
        form.enabled is None ==> settings.enabled is None,
        form.enabled is Some ==> settings.enabled == Some(form.enabled == Some("on"@)),
        form.redirect_uris is None ==> settings.redirect_uris is None,
        form.redirect_uris is Some ==> settings.redirect_uris == Some(
            entries(form.redirect_uris->0, 0),
        ),
        form.web_origins is None ==> settings.web_origins is None,
        form.web_origins is Some ==> settings.web_origins == Some(
            entries(form.web_origins->0, 0),
        ),
    ensures
        ({
            let request = RequestModel::EditClient { realm, id, client: form };
            &&& performs(
                config,
                request,
                head,
                EffectModel::Provider(ProviderCallModel::UpdateClient { realm, id, settings }),
            )
            &&& refused(config, request, head + seq![broke(error)], AppErrorModel::Provider(error))
            &&& closes(
                config,
                request,
                head,
                seq![made()],
                stamp,
                told(
                    stamp,
                    user.username,
                    "edit_client"@,
                    realm,
                    None,
                    "client "@ + id + " updated"@,
                ),
                success("Client settings saved."@),
                "/clients/"@ + realm + "/"@ + id,
                problem,
            )
        }),
{
    reveal(client_edited);
    assert(head + Seq::<ReplyModel>::empty() =~= head);
}

// ── Emergency promotion ──────────────────────────────────────────────────────

/// The promotion has ended with a status and an error.
pub open spec fn turned_down(
    config: ConfigModel,
    request: RequestModel,
    replies: Seq<ReplyModel>,
    status: u16,
    error: Seq<char>,
) -> bool {
    response(config, request, replies) == StepModel::Finish(
        OutcomeModel::Promotion(PromotionModel { status, ok: false, error: Some(error) }),
    )
}

/// The replies to an attempt that was counted; the first one starts the hour.
pub open spec fn counted(attempts: i64, any: ReplyModel) -> Seq<ReplyModel> {
    if attempts == 1 {
        seq![ReplyModel::Attempts(attempts), any]
    } else {
        seq![ReplyModel::Attempts(attempts)]
    }
}

/// Every attempt is counted by the address that it comes from, for an hour from the first
/// one. After three no more are looked at, and a wrong token is refused.
pub proof fn lemma_attempts_are_counted(
    config: ConfigModel,
    ip: Seq<char>,
    body: PromoteBodyModel,
    attempts: i64,
    any: ReplyModel,
)
    ensures
        ({
            let request = RequestModel::EmergencyPromote { ip, body };
            let key = "grafter:emergency-rl:"@ + ip;
            if config.emergency_token is None {
                turned_down(config, request, Seq::empty(), 403, "disabled"@)
            } else {
                &&& performs(config, request, Seq::empty(), EffectModel::CountAttempt { key })
                &&& !(any is Attempts) ==> turned_down(
                    config,
                    request,
                    seq![any],
                    500,
                    "rate limit check failed"@,
                )
                &&& attempts == 1 ==> performs(
                    config,
                    request,
                    seq![ReplyModel::Attempts(1)],
                    EffectModel::ExpireAttempts { key, seconds: 3600 },
                )
                &&& attempts > 3 ==> turned_down(
                    config,
                    request,
                    counted(attempts, any),
                    403,
                    "rate limited"@,
                )
                &&& attempts <= 3 && config.emergency_token != Some(body.token) ==> turned_down(
                    config,
                    request,
                    counted(attempts, any),
                    403,
                    "forbidden"@,
                )
            }
        }),
{
    reveal(emergency_promoted);
}

/// Whoever knows the token makes the user with exactly the name that they give an admin, in the
/// realm of the issuer, and is told so once the role is assigned. The log is told who was
/// promoted, and from where.
pub proof fn lemma_the_named_user_is_promoted(
    config: ConfigModel,
    ip: Seq<char>,
    body: PromoteBodyModel,
    attempts: i64,
    any: ReplyModel,
    users: Seq<UserModel>,
    i: int,
    roles: Seq<RoleModel>,
    j: int,
    stamp: StampModel,
)
    requires
        config.emergency_token == Some(body.token),
        attempts <= 3,
    ensures
        ({
            let request = RequestModel::EmergencyPromote { ip, body };
            let realm = issuer_realm(config);
            let head = counted(attempts, any);
            let listed = head + seq![users_found(users)];
            let known = head + seq![users_found(users), roles_found(roles)];
            let assigned = head + seq![users_found(users), roles_found(roles), made()];
            let drawn = assigned.push(ReplyModel::Stamp(stamp));
            &&& performs(
                config,
                request,
                head,
                EffectModel::Provider(
                    ProviderCallModel::ListUsers {
                        realm,
                        query: ListUsersQueryModel {
                            search: Some(body.username),
                            offset: 0,
                            max: 100,
                        },
                    },
                ),
            )
            &&& !(any matches ReplyModel::Provider(ProviderAnswerModel::Users(_))) ==> turned_down(
                config,
                request,
                head.push(any),
                500,
                "user lookup failed"@,
            )
            &&& (forall|k: int|
                0 <= k < users.len() ==> (#[trigger] users[k]).username != body.username)
                ==> turned_down(config, request, listed, 404, "user not found"@)
            &&& first_user_named(users, i, body.username) ==> {
                &&& performs(
                    config,
                    request,
                    listed,
                    EffectModel::Provider(ProviderCallModel::ListRealmRoles { realm }),
                )
                &&& !(any matches ReplyModel::Provider(ProviderAnswerModel::Roles(_)))
                    ==> turned_down(config, request, listed.push(any), 500, "role lookup failed"@)
                &&& (forall|k: int|
                    0 <= k < roles.len() ==> (#[trigger] roles[k]).name != config.role_admin)
                    ==> turned_down(config, request, known, 500, "admin role not found"@)
                &&& first_role_named(roles, j, config.role_admin) ==> {
                    &&& performs(
                        config,
                        request,
                        known,
                        EffectModel::Provider(
                            ProviderCallModel::AssignRealmRole {
                                realm,
                                user_id: users[i].id,
                                role: roles[j],
                            },
                        ),
                    )
                    &&& any != made() ==> turned_down(
                        config,
                        request,
                        known.push(any),
                        500,
                        "role assignment failed"@,
                    )
                    &&& performs(config, request, assigned, EffectModel::NewStamp)
                    &&& performs(
                        config,
                        request,
                        drawn,
                        told(
                            stamp,
                            "SYSTEM"@,
                            "emergency_promote"@,
                            realm,
                            Some(body.username),
                            "break-glass: promoted '"@ + body.username + "' to admin from "@ + ip,
                        ),
                    )
                    &&& response(config, request, drawn.push(any)) == StepModel::Finish(
                        OutcomeModel::Promotion(
                            PromotionModel { status: 200, ok: true, error: None },
                        ),
                    )
                }
            }
        }),
{
    reveal(emergency_promoted);
    let called = |user: UserModel| user.username == body.username;
    let wanted = |role: RoleModel| role.name == config.role_admin;
    if first_user_named(users, i, body.username) {
        lemma_first(users, i, called);
    } else if forall|k: int|
        0 <= k < users.len() ==> (#[trigger] users[k]).username != body.username {
        lemma_none(users, called);
    }
    if first_role_named(roles, j, config.role_admin) {
        lemma_first(roles, j, wanted);
    } else if forall|k: int|
        0 <= k < roles.len() ==> (#[trigger] roles[k]).name != config.role_admin {
        lemma_none(roles, wanted);
    }
}

} // verus!
