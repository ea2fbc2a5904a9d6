//! Editing many users at once.

use super::{
    broke, filled, first_group_with, group_opened, groups_found, lemma_first, lemma_none, made,
    opened, refused, told,
};
use super::edits::is_team;
use super::fields::{all_made, lemma_groups_left_in_turn, others};
use crate::asks::mutation_asked;
use crate::config::ConfigModel;
use crate::effects::{EffectModel, OutcomeModel, ReplyModel, StepModel};
use crate::error::{AppErrorModel, ProviderErrorModel};
use crate::laws::performs;
use crate::outside::debug_of;
use crate::portal::{response, settled, RequestModel};
use crate::provider::{GroupModel, ProviderCallModel};
use crate::routes::{group_with, holds_group};
use crate::routes::users::bulk::{
    bulk_edited, bulk_made, chosen_team, user_changed, users_changed, BulkEditBodyModel,
    BulkUserModel, TeamModel,
};
use crate::script::Ask;
use crate::session::{Role, SessionUserModel};
use crate::storage::StorageAnswerModel;
use crate::text::decimal;
use crate::time::StampModel;
use vstd::prelude::*;

verus! {

broadcast use group_opened;

/// The groups of a user that are teams.
pub open spec fn teams_among(groups: Seq<GroupModel>, teams: Seq<GroupModel>) -> Seq<GroupModel> {
    groups.filter(|g: GroupModel| is_team(teams, g.id))
}

/// The replies to a new status.
pub open spec fn status_replies(enabled: Option<bool>) -> Seq<ReplyModel> {
    if enabled is Some {
        seq![made()]
    } else {
        Seq::empty()
    }
}

/// The replies to a new team, for a user who is in `groups`.
pub open spec fn team_replies(
    team: Option<GroupModel>,
    teams: Seq<GroupModel>,
    groups: Seq<GroupModel>,
) -> Seq<ReplyModel> {
    if team is Some {
        seq![groups_found(groups)] + all_made(
            others(teams_among(groups, teams), team->0.id).len(),
        ) + seq![made(), made()]
    } else {
        Seq::empty()
    }
}

/// The replies to all that is changed of the first `u` users, who are in the groups `found`.
pub open spec fn users_replies(
    enabled: Option<bool>,
    team: Option<GroupModel>,
    teams: Seq<GroupModel>,
    found: Seq<Seq<GroupModel>>,
    u: nat,
) -> Seq<ReplyModel>
    decreases u,
{
    if u == 0 {
        Seq::empty()
    } else {
        users_replies(enabled, team, teams, found, (u - 1) as nat) + (status_replies(enabled)
            + team_replies(team, teams, found[u - 1]))
    }
}

spec fn team_of(team: Option<GroupModel>) -> Option<TeamModel> {
    match team {
        Some(group) => Some(TeamModel { id: group.id, name: group.name }),
        None => None,
    }
}

proof fn lemma_teams_among(groups: Seq<GroupModel>, teams: Seq<GroupModel>)
    ensures
        teams_among(groups, teams) == groups.filter(|g: GroupModel| holds_group(teams, g.id)),
{
    let a = |g: GroupModel| is_team(teams, g.id);
    let b = |g: GroupModel| holds_group(teams, g.id);
    assert(a =~= b);
}

proof fn lemma_user_ends(
    user: BulkUserModel,
    enabled: Option<bool>,
    team: Option<GroupModel>,
    teams: Seq<GroupModel>,
    groups: Seq<GroupModel>,
    tail: Seq<ReplyModel>,
)
    ensures
        user_changed(
            user,
            enabled,
            team_of(team),
            teams,
            status_replies(enabled) + team_replies(team, teams, groups) + tail,
        ) == Ask::<(), ReplyModel, StepModel>::Got((), tail),
{
    let behind = team_replies(team, teams, groups) + tail;
    let all = status_replies(enabled) + team_replies(team, teams, groups) + tail;
    if enabled is Some {
        assert(all[0] == made());
        assert(all.skip(1) =~= behind);
    } else {
        assert(all =~= behind);
    }
    if let Some(group) = team {
        let leaving = others(teams_among(groups, teams), group.id).len();
        let last = seq![made(), made()] + tail;
        lemma_teams_among(groups, teams);
        assert(behind[0] == groups_found(groups));
        assert(behind.skip(1) =~= all_made(leaving) + last);
        lemma_groups_left_in_turn(
            user.realm,
            user.id,
            teams_among(groups, teams),
            group.id,
            leaving,
            last,
        );
        assert(last[0] == made());
        assert(last.skip(1)[0] == made());
        assert(last.skip(1).skip(1) =~= tail);
    } else {
        assert(behind =~= tail);
    }
}

proof fn lemma_users_ended(
    users: Seq<BulkUserModel>,
    enabled: Option<bool>,
    team: Option<GroupModel>,
    teams: Seq<GroupModel>,
    found: Seq<Seq<GroupModel>>,
    u: nat,
    tail: Seq<ReplyModel>,
)
    requires
        u <= users.len(),
    ensures
        users_changed(
            users,
            enabled,
            team_of(team),
            teams,
            users_replies(enabled, team, teams, found, u) + tail,
        ) == users_changed(users.skip(u as int), enabled, team_of(team), teams, tail),
    decreases u,
{
    if u == 0 {
        assert(users.skip(0) =~= users);
        assert(users_replies(enabled, team, teams, found, 0) + tail =~= tail);
    } else {
        let v = (u - 1) as nat;
        let one = status_replies(enabled) + team_replies(team, teams, found[v as int]);
        assert(users_replies(enabled, team, teams, found, u) + tail =~= users_replies(
            enabled,
            team,
            teams,
            found,
            v,
        ) + (one + tail));
        lemma_users_ended(users, enabled, team, teams, found, v, one + tail);
        lemma_user_ends(users[v as int], enabled, team, teams, found[v as int], tail);
        assert(users.skip(v as int)[0] == users[v as int]);
        assert(users.skip(v as int).skip(1) =~= users.skip(u as int));
    }
}

/// The replies that come before the first user: the groups of the realm, where a team was
/// chosen.
pub open spec fn group_replies(body: BulkEditBodyModel, teams: Seq<GroupModel>) -> Seq<ReplyModel> {
    if filled(body.team_group_id) is Some {
        seq![groups_found(teams)]
    } else {
        Seq::empty()
    }
}

/// The team that a bulk edit is about: the first group with the id that was chosen.
pub open spec fn team_meant(
    body: BulkEditBodyModel,
    teams: Seq<GroupModel>,
    team: Option<GroupModel>,
) -> bool {
    let chosen = filled(body.team_group_id);
    match team {
        Some(group) => chosen is Some && exists|i: int| #[trigger]
            first_group_with(teams, i, chosen->0) && teams[i] == group,
        None => chosen is Some ==> !is_team(teams, chosen->0),
    }
}

proof fn lemma_team_meant(
    body: BulkEditBodyModel,
    teams: Seq<GroupModel>,
    team: Option<GroupModel>,
)
    requires
        team_meant(body, teams, team),
    ensures
        chosen_team(teams, body.team_group_id) == team_of(team),
{
    if let Some(id) = filled(body.team_group_id) {
        let wanted = |g: GroupModel| g.id == id;
        if let Some(group) = team {
            let i = choose|i: int| #[trigger]
                first_group_with(teams, i, id) && teams[i] == group;
            lemma_first(teams, i, wanted);
        } else {
            assert forall|j: int| 0 <= j < teams.len() implies !wanted(#[trigger] teams[j]) by {
                assert(is_team(teams, teams[j].id));
            }
            lemma_none(teams, wanted);
        }
    }
}

/// The realm of the first user.
pub open spec fn realm_meant(body: BulkEditBodyModel) -> Seq<char> {
    if body.users.len() > 0 {
        body.users[0].realm
    } else {
        Seq::empty()
    }
}

proof fn lemma_bulk_comes_to(
    config: ConfigModel,
    body: BulkEditBodyModel,
    head: Seq<ReplyModel>,
    user: SessionUserModel,
    teams: Seq<GroupModel>,
    tail: Seq<ReplyModel>,
)
    requires
        opened(config, body.csrf_token, head, user),
        user.role == Role::Admin,
        filled(body.team_group_id) is None ==> teams.len() == 0,
    ensures
        response(
            config,
            RequestModel::BulkEdit(body),
            head + group_replies(body, teams) + tail,
        ) == settled(bulk_made(user, body, teams, tail)),
{
    reveal(bulk_edited);
    let first = group_replies(body, teams);
    assert(head + first + tail =~= head + (first + tail));
    if filled(body.team_group_id) is Some {
        assert((first + tail)[0] == groups_found(teams));
        assert((first + tail).skip(1) =~= tail);
    } else {
        assert(first + tail =~= tail);
        assert(teams =~= Seq::empty());
    }
}

/// What is left of a bulk edit when it has come to the user at `u`.
proof fn lemma_bulk_at_user(
    config: ConfigModel,
    body: BulkEditBodyModel,
    head: Seq<ReplyModel>,
    user: SessionUserModel,
    teams: Seq<GroupModel>,
    team: Option<GroupModel>,
    found: Seq<Seq<GroupModel>>,
    u: nat,
    tail: Seq<ReplyModel>,
)
    requires
        opened(config, body.csrf_token, head, user),
        user.role == Role::Admin,
        filled(body.team_group_id) is None ==> teams.len() == 0,
        team_meant(body, teams, team),
        u < body.users.len(),
    ensures
        user_changed(
            body.users[u as int],
            body.enabled,
            team_of(team),
            teams,
            tail,
        ) matches Ask::Stop(stop) ==> response(
            config,
            RequestModel::BulkEdit(body),
            head + group_replies(body, teams) + users_replies(body.enabled, team, teams, found, u)
                + tail,
        ) == stop,
{
    let start = head + group_replies(body, teams);
    let before = users_replies(body.enabled, team, teams, found, u);
    lemma_team_meant(body, teams, team);
    lemma_bulk_comes_to(config, body, head, user, teams, before + tail);
    assert(start + before + tail =~= start + (before + tail));
    lemma_users_ended(body.users, body.enabled, team, teams, found, u, tail);
    assert(body.users.skip(u as int)[0] == body.users[u as int]);
}

/// A bulk edit reaches every user in turn: each gets the status that was asked for, and no
/// other; then, where a team was chosen, leaves the other teams, joins it, and is listed under
/// its name. A failure ends the request.
pub proof fn lemma_bulk_edits_reach_everyone(
    config: ConfigModel,
    body: BulkEditBodyModel,
    head: Seq<ReplyModel>,
    user: SessionUserModel,
    teams: Seq<GroupModel>,
    team: Option<GroupModel>,
    found: Seq<Seq<GroupModel>>,
    u: nat,
    groups: Seq<GroupModel>,
    n: nat,
    error: ProviderErrorModel,
)
    requires
        opened(config, body.csrf_token, head, user),
        user.role == Role::Admin,
        filled(body.team_group_id) is None ==> teams.len() == 0,
        team_meant(body, teams, team),
        u < body.users.len(),
    ensures
        ({
            let request = RequestModel::BulkEdit(body);
            let BulkUserModel { realm, id } = body.users[u as int];
            let failed = AppErrorModel::Provider(error);
            let start = head + group_replies(body, teams) + users_replies(
                body.enabled,
                team,
                teams,
                found,
                u,
            );
            let changed = start + status_replies(body.enabled);
            &&& filled(body.team_group_id) is Some ==> performs(
                config,
                request,
                head,
                EffectModel::Provider(ProviderCallModel::ListGroups { realm: realm_meant(body) }),
            )
            &&& body.enabled matches Some(enabled) ==> performs(
                config,
                request,
                start,
                EffectModel::Provider(ProviderCallModel::SetUserEnabled { realm, id, enabled }),
            ) && refused(config, request, start + seq![broke(error)], failed)
            &&& team matches Some(group) ==> {
                let left = others(teams_among(groups, teams), group.id);
                let leaving = changed + (seq![groups_found(groups)] + all_made(n));
                let joined = changed + (seq![groups_found(groups)] + all_made(left.len()))
                    + seq![made()];
                &&& performs(
                    config,
                    request,
                    changed,
                    EffectModel::Provider(ProviderCallModel::GetUserGroups { realm, user_id: id }),
                )
                &&& n < left.len() ==> performs(
                    config,
                    request,
                    leaving,
                    EffectModel::Provider(
                        ProviderCallModel::RemoveUserFromGroup {
                            realm,
                            user_id: id,
                            group_id: left[n as int].id,
                        },
                    ),
                ) && refused(config, request, leaving + seq![broke(error)], failed)
                &&& n == left.len() ==> performs(
                    config,
                    request,
                    leaving,
                    EffectModel::Provider(
                        ProviderCallModel::AddUserToGroup {
                            realm,
                            user_id: id,
                            group_id: group.id,
                        },
                    ),
                ) && refused(config, request, leaving + seq![broke(error)], failed)
                &&& performs(
                    config,
                    request,
                    joined,
                    EffectModel::Provider(
                        ProviderCallModel::SetUserAttribute {
                            realm,
                            id,
                            key: "team"@,
                            value: group.name,
                        },
                    ),
                )
                &&& refused(config, request, joined + seq![broke(error)], failed)
            }
        }),
{
    reveal(bulk_edited);
    assert(head + Seq::empty() =~= head);
    let request = RequestModel::BulkEdit(body);
    let each = body.users[u as int];
    let lost = seq![broke(error)];
    let none = Seq::<ReplyModel>::empty();
    let start = head + group_replies(body, teams) + users_replies(
        body.enabled,
        team,
        teams,
        found,
        u,
    );
    if body.enabled is Some {
        assert(start + none =~= start);
        lemma_bulk_at_user(config, body, head, user, teams, team, found, u, none);
        lemma_bulk_at_user(config, body, head, user, teams, team, found, u, lost);
    }
    if let Some(group) = team {
        let first = status_replies(body.enabled);
        let left = others(teams_among(groups, teams), group.id);
        lemma_teams_among(groups, teams);
        if body.enabled is Some {
            assert(first.skip(1) =~= none);
        }
        lemma_bulk_at_user(config, body, head, user, teams, team, found, u, first);
        if n <= left.len() {
            lemma_leaving(config, body, head, user, teams, group, found, u, groups, n, none);
            lemma_leaving(config, body, head, user, teams, group, found, u, groups, n, lost);
            let leaving = start + first + (seq![groups_found(groups)] + all_made(n));
            assert(leaving + none =~= leaving);
        }
        let m = left.len();
        let joined = start + first + (seq![groups_found(groups)] + all_made(m)) + seq![made()];
        lemma_leaving(config, body, head, user, teams, group, found, u, groups, m, seq![made()]);
        lemma_leaving(
            config,
            body,
            head,
            user,
            teams,
            group,
            found,
            u,
            groups,
            m,
            seq![made(), broke(error)],
        );
        assert(joined + lost =~= start + first + (seq![groups_found(groups)] + all_made(m)) + seq![
            made(),
            broke(error),
        ]);
    }
}

/// What a bulk edit needs next when a user has left the first `n` of the other teams.
proof fn lemma_leaving(
    config: ConfigModel,
    body: BulkEditBodyModel,
    head: Seq<ReplyModel>,
    user: SessionUserModel,
    teams: Seq<GroupModel>,
    group: GroupModel,
    found: Seq<Seq<GroupModel>>,
    u: nat,
    groups: Seq<GroupModel>,
    n: nat,
    tail: Seq<ReplyModel>,
)
    requires
        opened(config, body.csrf_token, head, user),
        user.role == Role::Admin,
        filled(body.team_group_id) is None ==> teams.len() == 0,
        team_meant(body, teams, Some(group)),
        u < body.users.len(),
        n <= others(teams_among(groups, teams), group.id).len(),
    ensures
        ({
            let each = body.users[u as int];
            let left = others(teams_among(groups, teams), group.id);
            let leave = ProviderCallModel::RemoveUserFromGroup {
                realm: each.realm,
                user_id: each.id,
                group_id: left[n as int].id,
            };
            let join = ProviderCallModel::AddUserToGroup {
                realm: each.realm,
                user_id: each.id,
                group_id: group.id,
            };
            let list = ProviderCallModel::SetUserAttribute {
                realm: each.realm,
                id: each.id,
                key: "team"@,
                value: group.name,
            };
            let got = response(
                config,
                RequestModel::BulkEdit(body),
                head + group_replies(body, teams) + users_replies(
                    body.enabled,
                    Some(group),
                    teams,
                    found,
                    u,
                ) + status_replies(body.enabled) + (seq![groups_found(groups)] + all_made(n))
                    + tail,
            );
            &&& n < left.len() && (mutation_asked(leave, tail) matches Ask::Stop(stop)) ==> got
                == mutation_asked(leave, tail)->Stop_0
            &&& n == left.len() && (mutation_asked(join, tail) matches Ask::Stop(stop)) ==> got
                == mutation_asked(join, tail)->Stop_0
            &&& n == left.len() && (mutation_asked(join, tail) matches Ask::Got(_, rest)) && (
            mutation_asked(list, tail.skip(1)) matches Ask::Stop(stop)) ==> got == mutation_asked(
                list,
                tail.skip(1),
            )->Stop_0
        }),
{
    let each = body.users[u as int];
    let first = status_replies(body.enabled);
    let start = head + group_replies(body, teams) + users_replies(
        body.enabled,
        Some(group),
        teams,
        found,
        u,
    );
    let list = seq![groups_found(groups)] + all_made(n);
    let all = first + (list + tail);
    assert(start + first + list + tail =~= start + all);
    lemma_bulk_at_user(config, body, head, user, teams, Some(group), found, u, all);
    lemma_teams_among(groups, teams);
    if body.enabled is Some {
        assert(all[0] == made());
        assert(all.skip(1) =~= list + tail);
    } else {
        assert(all =~= list + tail);
    }
    assert((list + tail)[0] == groups_found(groups));
    assert((list + tail).skip(1) =~= all_made(n) + tail);
    lemma_groups_left_in_turn(
        each.realm,
        each.id,
        teams_among(groups, teams),
        group.id,
        n,
        tail,
    );
}

/// How a flag that may be left out is written.
pub open spec fn flag_word(flag: Option<bool>) -> Seq<char> {
    if flag == Some(true) {
        "Some("@ + "true"@ + ")"@
    } else if flag == Some(false) {
        "Some("@ + "false"@ + ")"@
    } else {
        "None"@
    }
}

/// Only when every user has been reached is a bulk edit told the log, as one action, and
/// accepted.
pub proof fn lemma_bulk_edits_end_when_everyone_is_reached(
    config: ConfigModel,
    body: BulkEditBodyModel,
    head: Seq<ReplyModel>,
    user: SessionUserModel,
    teams: Seq<GroupModel>,
    team: Option<GroupModel>,
    found: Seq<Seq<GroupModel>>,
    stamp: StampModel,
    problem: Seq<char>,
)
    requires
        opened(config, body.csrf_token, head, user),
        user.role == Role::Admin,
        filled(body.team_group_id) is None ==> teams.len() == 0,
        team_meant(body, teams, team),
    ensures
        ({
            let request = RequestModel::BulkEdit(body);
            let all = head + group_replies(body, teams) + users_replies(
                body.enabled,
                team,
                teams,
                found,
                body.users.len(),
            );
            let drawn = seq![ReplyModel::Stamp(stamp)];
            let lost = drawn.push(ReplyModel::Storage(StorageAnswerModel::Failed(problem)));
            let logged = drawn.push(ReplyModel::Storage(StorageAnswerModel::Done));
            &&& performs(config, request, all, EffectModel::NewStamp)
            &&& performs(
                config,
                request,
                all + drawn,
                told(
                    stamp,
                    user.username,
                    "bulk_edit"@,
                    realm_meant(body),
                    None,
                    decimal(body.users.len()) + " users affected — enabled="@ + flag_word(
                        body.enabled,
                    ) + " team="@ + debug_of(body.team_group_id),
                ),
            )
            &&& refused(config, request, all + lost, AppErrorModel::Internal(problem))
            &&& response(config, request, all + logged) == StepModel::Finish(OutcomeModel::Accepted)
        }),
{
    let u = body.users.len();
    let start = head + group_replies(body, teams);
    let before = users_replies(body.enabled, team, teams, found, u);
    let t0 = Seq::<ReplyModel>::empty();
    let t1 = seq![ReplyModel::Stamp(stamp)];
    let t2 = t1.push(ReplyModel::Storage(StorageAnswerModel::Failed(problem)));
    let t3 = t1.push(ReplyModel::Storage(StorageAnswerModel::Done));
    lemma_team_meant(body, teams, team);
    assert forall|tail: Seq<ReplyModel>| response(
        config,
        RequestModel::BulkEdit(body),
        #[trigger] (start + before + tail),
    ) == settled(bulk_made(user, body, teams, before + tail)) && users_changed(
        body.users,
        body.enabled,
        team_of(team),
        teams,
        before + tail,
    ) == Ask::<(), ReplyModel, StepModel>::Got((), tail) by {
        lemma_bulk_comes_to(config, body, head, user, teams, before + tail);
        assert(start + before + tail =~= start + (before + tail));
        lemma_users_ended(body.users, body.enabled, team, teams, found, u, tail);
        assert(body.users.skip(u as int).len() == 0);
    }
    assert(start + before + t0 =~= start + before);
    assert((start + before + t1).len() > 0);
    assert((start + before + t2).len() > 0);
    assert((start + before + t3).len() > 0);
}

} // verus!
