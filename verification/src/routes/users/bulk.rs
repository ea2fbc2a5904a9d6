//! One change for many users.

use crate::asks::{
    ask_audit, ask_groups, ask_mutation, ask_user, audit_asked, failed, groups_asked,
    mutation_asked, user_asked,
};
use crate::config::{Config, ConfigModel};
use crate::effects::{Asked, Outcome, OutcomeModel, Replies, ReplyModel, Step};
use crate::error::AppErrorModel;
use crate::lists::retain;
use crate::outside::{debug_of, debug_text};
use crate::provider::{Group, GroupModel, ProviderCall, ProviderCallModel, User, UserModel};
use crate::routes::{
    admin_form_checked, check_admin_form, check_realm_access, find_group, group_with, has_group,
    holds_group, may_reach,
};
use crate::script::{answers, Ask};
use crate::service::changes::{groups_left, leave_groups};
use crate::service::users::{edit_made, propose_or_apply, EditRequest, EditRequestModel};
use crate::session::{Role, SessionUser, SessionUserModel};
use crate::storage::{FieldChange, FieldChangeModel};
use crate::text::{decimal, decimal_text, flag_text, flag_to_text, keep_non_empty, non_empty};
use vstd::prelude::*;

verus! {

/// One of the users that a bulk edit is about.
#[derive(Debug, PartialEq)]
pub struct BulkUser {
    pub id: String,
    pub realm: String,
}

/// What a [`BulkUser`] stands for in contracts.
#[verifier::ext_equal]
pub struct BulkUserModel {
    pub id: Seq<char>,
    pub realm: Seq<char>,
}

impl DeepView for BulkUser {
    type V = BulkUserModel;

    open spec fn deep_view(&self) -> BulkUserModel {
        BulkUserModel {
            id: self.id.deep_view(),
            realm: self.realm.deep_view(),
        }
    }
}

impl Clone for BulkUser {
    fn clone(&self) -> (r: Self)
        ensures
            r.deep_view() == self.deep_view(),
    {
        BulkUser {
            id: self.id.clone(),
            realm: self.realm.clone(),
        }
    }
}

/// A change for many users.
#[derive(Debug, PartialEq)]
pub struct BulkEditBody {
    pub csrf_token: String,
    pub users: Vec<BulkUser>,
    pub enabled: Option<bool>,
    pub team_group_id: Option<String>,
}

/// What a [`BulkEditBody`] stands for in contracts.
#[verifier::ext_equal]
pub struct BulkEditBodyModel {
    pub csrf_token: Seq<char>,
    pub users: Seq<BulkUserModel>,
    pub enabled: Option<bool>,
    pub team_group_id: Option<Seq<char>>,
}

impl DeepView for BulkEditBody {
    type V = BulkEditBodyModel;

    open spec fn deep_view(&self) -> BulkEditBodyModel {
        BulkEditBodyModel {
            csrf_token: self.csrf_token.deep_view(),
            users: self.users.deep_view(),
            enabled: self.enabled,
            team_group_id: self.team_group_id.deep_view(),
        }
    }
}

impl Clone for BulkEditBody {
    fn clone(&self) -> (r: Self)
        ensures
            r.deep_view() == self.deep_view(),
    {
        let r = BulkEditBody {
            csrf_token: self.csrf_token.clone(),
            users: self.users.clone(),
            enabled: self.enabled,
            team_group_id: self.team_group_id.clone(),
        };
        assert(r.users.deep_view() =~= self.users.deep_view());
        r
    }
}

/// A team: its group and its name.
#[derive(Debug, PartialEq)]
pub struct Team {
    pub id: String,
    pub name: String,
}

/// What a [`Team`] stands for in contracts.
#[verifier::ext_equal]
pub struct TeamModel {
    pub id: Seq<char>,
    pub name: Seq<char>,
}

impl DeepView for Team {
    type V = TeamModel;

    open spec fn deep_view(&self) -> TeamModel {
        TeamModel {
            id: self.id.deep_view(),
            name: self.name.deep_view(),
        }
    }
}

impl Clone for Team {
    fn clone(&self) -> (r: Self)
        ensures
            r.deep_view() == self.deep_view(),
    {
        Team {
            id: self.id.clone(),
            name: self.name.clone(),
        }
    }
}

/// The team that a form chose, if it is one of `groups`.
pub open spec fn chosen_team(groups: Seq<GroupModel>, chosen: Option<Seq<char>>) -> Option<
    TeamModel,
> {
    match non_empty(chosen) {
        Some(id) => match group_with(groups, id) {
            Some(group) => Some(TeamModel { id: group.id, name: group.name }),
            None => None,
        },
        None => None,
    }
}

pub(crate) fn choose_team(groups: &Vec<Group>, chosen: &Option<String>) -> (r: Option<Team>)
    ensures
        r.deep_view() == chosen_team(groups.deep_view(), chosen.deep_view()),
{
    match keep_non_empty(chosen) {
        Some(id) => match find_group(groups, id.as_str()) {
            Some(group) => Some(Team { id: group.id.clone(), name: group.name.clone() }),
            None => None,
        },
        None => None,
    }
}

/// The groups of a realm, where a form chose a team; else none are needed.
pub open spec fn team_groups_asked(
    realm: Seq<char>,
    chosen: Option<Seq<char>>,
    replies: Seq<ReplyModel>,
) -> Asked<Seq<GroupModel>> {
    if non_empty(chosen) is Some {
        groups_asked(ProviderCallModel::ListGroups { realm }, replies)
    } else {
        Ask::Got(Seq::empty(), replies)
    }
}

pub(crate) fn ask_team_groups(cursor: &mut Replies<'_>, realm: &str, chosen: &Option<String>) -> (r:
    Result<Vec<Group>, Step>)
    ensures
        answers(
            r,
            final(cursor).rest(),
            team_groups_asked(realm@, chosen.deep_view(), old(cursor).rest()),
        ),
{
    if keep_non_empty(chosen).is_some() {
        ask_groups(cursor, ProviderCall::ListGroups { realm: realm.to_string() })
    } else {
        let none: Vec<Group> = Vec::new();
        assert(none.deep_view() =~= Seq::empty());
        Ok(none)
    }
}

// ── At once ──────────────────────────────────────────────────────────────────

/// A user is enabled or disabled, where that was asked for.
pub open spec fn status_set(
    user: BulkUserModel,
    enabled: Option<bool>,
    replies: Seq<ReplyModel>,
) -> Asked<()> {
    match enabled {
        Some(enabled) => mutation_asked(
            ProviderCallModel::SetUserEnabled { realm: user.realm, id: user.id, enabled },
            replies,
        ),
        None => Ask::Got((), replies),
    }
}

fn set_status(cursor: &mut Replies<'_>, user: &BulkUser, enabled: Option<bool>) -> (r: Result<
    (),
    Step,
>)
    ensures
        answers(
            r,
            final(cursor).rest(),
            status_set(user.deep_view(), enabled, old(cursor).rest()),
        ),
{
    match enabled {
        Some(enabled) => ask_mutation(
            cursor,
            ProviderCall::SetUserEnabled {
                realm: user.realm.clone(),
                id: user.id.clone(),
                enabled,
            },
        ),
        None => Ok(()),
    }
}

/// A user leaves the other teams and joins this one, under whose name they are listed.
pub open spec fn team_joined(
    user: BulkUserModel,
    team: TeamModel,
    teams: Seq<GroupModel>,
    replies: Seq<ReplyModel>,
) -> Asked<()> {
    match groups_asked(
        ProviderCallModel::GetUserGroups { realm: user.realm, user_id: user.id },
        replies,
    ) {
        Ask::Stop(stop) => Ask::Stop(stop),
        Ask::Got(groups, rest) => match groups_left(
            user.realm,
            user.id,
            groups.filter(|g: GroupModel| holds_group(teams, g.id)),
            team.id,
            rest,
        ) {
            Ask::Stop(stop) => Ask::Stop(stop),
            Ask::Got(_, rest) => match mutation_asked(
                ProviderCallModel::AddUserToGroup {
                    realm: user.realm,
                    user_id: user.id,
                    group_id: team.id,
                },
                rest,
            ) {
                Ask::Stop(stop) => Ask::Stop(stop),
                Ask::Got(_, rest) => mutation_asked(
                    ProviderCallModel::SetUserAttribute {
                        realm: user.realm,
                        id: user.id,
                        key: "team"@,
                        value: team.name,
                    },
                    rest,
                ),
            },
        },
    }
}

fn join_team(cursor: &mut Replies<'_>, user: &BulkUser, team: &Team, teams: &Vec<Group>) -> (r:
    Result<(), Step>)
    ensures
        answers(
            r,
            final(cursor).rest(),
            team_joined(
                user.deep_view(),
                team.deep_view(),
                teams.deep_view(),
                old(cursor).rest(),
            ),
        ),
{
    let groups = ask_groups(
        cursor,
        ProviderCall::GetUserGroups { realm: user.realm.clone(), user_id: user.id.clone() },
    )?;
    let ghost all = teams.deep_view();
    let ghost wanted = |g: GroupModel| holds_group(all, g.id);
    let is_team = |g: &Group| -> (b: bool)
        ensures
            b == wanted(g.deep_view()),
        { has_group(teams, g.id.as_str()) };
    let joined = retain(groups, is_team, Ghost(wanted));
    leave_groups(cursor, user.realm.as_str(), user.id.as_str(), &joined, team.id.as_str())?;
    ask_mutation(
        cursor,
        ProviderCall::AddUserToGroup {
            realm: user.realm.clone(),
            user_id: user.id.clone(),
            group_id: team.id.clone(),
        },
    )?;
    ask_mutation(
        cursor,
        ProviderCall::SetUserAttribute {
            realm: user.realm.clone(),
            id: user.id.clone(),
            key: "team".to_string(),
            value: team.name.clone(),
        },
    )
}

/// One user gets the status and the team that were asked for.
pub open spec fn user_changed(
    user: BulkUserModel,
    enabled: Option<bool>,
    team: Option<TeamModel>,
    teams: Seq<GroupModel>,
    replies: Seq<ReplyModel>,
) -> Asked<()> {
    match status_set(user, enabled, replies) {
        Ask::Stop(stop) => Ask::Stop(stop),
        Ask::Got(_, rest) => match team {
            Some(team) => team_joined(user, team, teams, rest),
            None => Ask::Got((), rest),
        },
    }
}

/// Each user in turn gets the status and the team that were asked for.
pub open spec fn users_changed(
    users: Seq<BulkUserModel>,
    enabled: Option<bool>,
    team: Option<TeamModel>,
    teams: Seq<GroupModel>,
    replies: Seq<ReplyModel>,
) -> Asked<()>
    decreases users.len(),
{
    if users.len() == 0 {
        Ask::Got((), replies)
    } else {
        match user_changed(users[0], enabled, team, teams, replies) {
            Ask::Stop(stop) => Ask::Stop(stop),
            Ask::Got(_, rest) => users_changed(users.skip(1), enabled, team, teams, rest),
        }
    }
}

fn change_users(
    cursor: &mut Replies<'_>,
    users: &Vec<BulkUser>,
    enabled: Option<bool>,
    team: &Option<Team>,
    teams: &Vec<Group>,
) -> (r: Result<(), Step>)
    ensures
        answers(
            r,
            final(cursor).rest(),
            users_changed(
                users.deep_view(),
                enabled,
                team.deep_view(),
                teams.deep_view(),
                old(cursor).rest(),
            ),
        ),
{
    let ghost whole = users.deep_view();
    let ghost start = cursor.rest();
    let ghost chosen = team.deep_view();
    let ghost all = teams.deep_view();
    let mut i: usize = 0;
    assert(whole.skip(0) =~= whole);
    while i < users.len()
        invariant
            i <= users@.len(),
            whole == users.deep_view(),
            start == old(cursor).rest(),
            chosen == team.deep_view(),
            all == teams.deep_view(),
            users_changed(whole, enabled, chosen, all, start) == users_changed(
                whole.skip(i as int),
                enabled,
                chosen,
                all,
                cursor.rest(),
            ),
        decreases users@.len() - i,
    {
        assert(whole.skip(i as int).skip(1) =~= whole.skip(i + 1));
        assert(whole.skip(i as int)[0] == users@[i as int].deep_view());
        set_status(cursor, &users[i], enabled)?;
        if let Some(team) = team {
            join_team(cursor, &users[i], team, teams)?;
        }
        i = i + 1;
    }
    Ok(())
}

/// `None`, `Some(true)` or `Some(false)`.
pub open spec fn flag_debug(flag: Option<bool>) -> Seq<char> {
    match flag {
        None => "None"@,
        Some(b) => "Some("@ + flag_text(b) + ")"@,
    }
}

fn write_flag(flag: Option<bool>) -> (r: String)
    ensures
        r@ == flag_debug(flag),
{
    match flag {
        None => "None".to_string(),
        Some(b) => "Some(".to_string().concat(flag_to_text(b).as_str()).concat(")"),
    }
}

/// What the audit log says of a bulk edit.
pub open spec fn bulk_detail(body: BulkEditBodyModel) -> Seq<char> {
    decimal(body.users.len()) + " users affected — enabled="@ + flag_debug(body.enabled)
        + " team="@ + debug_of(body.team_group_id)
}

fn describe(body: &BulkEditBody) -> (r: String)
    ensures
        r@ == bulk_detail(body.deep_view()),
{
    decimal_text(body.users.len() as u64).concat(" users affected — enabled=").concat(
        write_flag(body.enabled).as_str(),
    ).concat(" team=").concat(debug_text(&body.team_group_id).as_str())
}

// ── After approval ───────────────────────────────────────────────────────────

/// What a bulk edit changes of one user.
pub open spec fn bulk_edits(
    existing: UserModel,
    enabled: Option<bool>,
    team: Option<TeamModel>,
) -> Seq<FieldChangeModel> {
    (match enabled {
        Some(after) if after != existing.enabled => seq![
            FieldChangeModel {
                field: "enabled"@,
                before: Some(flag_text(existing.enabled)),
                after: flag_text(after),
            },
        ],
        _ => Seq::empty(),
    }) + (match team {
        Some(team) => seq![
            FieldChangeModel { field: "team_group_id"@, before: None, after: team.id },
            FieldChangeModel { field: "team"@, before: None, after: team.name },
        ],
        None => Seq::empty(),
    })
}

fn collect_bulk_edits(existing: &User, enabled: Option<bool>, team: &Option<Team>) -> (r: Vec<
    FieldChange,
>)
    ensures
        r.deep_view() == bulk_edits(existing.deep_view(), enabled, team.deep_view()),
{
    let mut diff: Vec<FieldChange> = Vec::new();
    if let Some(after) = enabled {
        if after != existing.enabled {
            diff.push(
                FieldChange {
                    field: "enabled".to_string(),
                    before: Some(flag_to_text(existing.enabled)),
                    after: flag_to_text(after),
                },
            );
        }
    }
    if let Some(team) = team {
        diff.push(
            FieldChange {
                field: "team_group_id".to_string(),
                before: None,
                after: team.id.clone(),
            },
        );
        diff.push(
            FieldChange { field: "team".to_string(), before: None, after: team.name.clone() },
        );
    }
    assert(diff.deep_view() =~= bulk_edits(existing.deep_view(), enabled, team.deep_view()));
    diff
}

/// The change of one user is proposed, where there is any.
pub open spec fn user_proposed(
    actor: SessionUserModel,
    user: BulkUserModel,
    enabled: Option<bool>,
    team: Option<TeamModel>,
    replies: Seq<ReplyModel>,
) -> Asked<()> {
    match user_asked(ProviderCallModel::GetUser { realm: user.realm, id: user.id }, replies) {
        Ask::Stop(stop) => Ask::Stop(stop),
        Ask::Got(existing, rest) => {
            let diff = bulk_edits(existing, enabled, team);
            if diff.len() == 0 {
                Ask::Got((), rest)
            } else {
                match edit_made(
                    actor.role,
                    EditRequestModel {
                        realm: user.realm,
                        user_id: user.id,
                        username: existing.username,
                        actor: actor.username,
                        diff,
                    },
                    rest,
                ) {
                    Ask::Stop(stop) => Ask::Stop(stop),
                    Ask::Got(_, rest) => Ask::Got((), rest),
                }
            }
        },
    }
}

/// The change of each user in turn is proposed.
pub open spec fn users_proposed(
    actor: SessionUserModel,
    users: Seq<BulkUserModel>,
    enabled: Option<bool>,
    team: Option<TeamModel>,
    replies: Seq<ReplyModel>,
) -> Asked<()>
    decreases users.len(),
{
    if users.len() == 0 {
        Ask::Got((), replies)
    } else {
        match user_proposed(actor, users[0], enabled, team, replies) {
            Ask::Stop(stop) => Ask::Stop(stop),
            Ask::Got(_, rest) => users_proposed(actor, users.skip(1), enabled, team, rest),
        }
    }
}

fn propose_user(
    cursor: &mut Replies<'_>,
    actor: &SessionUser,
    user: &BulkUser,
    enabled: Option<bool>,
    team: &Option<Team>,
) -> (r: Result<(), Step>)
    ensures
        answers(
            r,
            final(cursor).rest(),
            user_proposed(
                actor.deep_view(),
                user.deep_view(),
                enabled,
                team.deep_view(),
                old(cursor).rest(),
            ),
        ),
{
    let existing = ask_user(
        cursor,
        ProviderCall::GetUser { realm: user.realm.clone(), id: user.id.clone() },
    )?;
    let diff = collect_bulk_edits(&existing, enabled, team);
    if diff.len() > 0 {
        propose_or_apply(
            cursor,
            actor.role,
            EditRequest {
                realm: user.realm.as_str(),
                user_id: user.id.as_str(),
                username: existing.username.as_str(),
                actor: actor.username.as_str(),
                diff,
            },
        )?;
    }
    Ok(())
}

fn propose_users(
    cursor: &mut Replies<'_>,
    actor: &SessionUser,
    users: &Vec<BulkUser>,
    enabled: Option<bool>,
    team: &Option<Team>,
) -> (r: Result<(), Step>)
    ensures
        answers(
            r,
            final(cursor).rest(),
            users_proposed(
                actor.deep_view(),
                users.deep_view(),
                enabled,
                team.deep_view(),
                old(cursor).rest(),
            ),
        ),
{
    let ghost whole = users.deep_view();
    let ghost start = cursor.rest();
    let ghost by = actor.deep_view();
    let ghost chosen = team.deep_view();
    let mut i: usize = 0;
    assert(whole.skip(0) =~= whole);
    while i < users.len()
        invariant
            i <= users@.len(),
            whole == users.deep_view(),
            start == old(cursor).rest(),
            by == actor.deep_view(),
            chosen == team.deep_view(),
            users_proposed(by, whole, enabled, chosen, start) == users_proposed(
                by,
                whole.skip(i as int),
                enabled,
                chosen,
                cursor.rest(),
            ),
        decreases users@.len() - i,
    {
        assert(whole.skip(i as int).skip(1) =~= whole.skip(i + 1));
        assert(whole.skip(i as int)[0] == users@[i as int].deep_view());
        propose_user(cursor, actor, &users[i], enabled, team)?;
        i = i + 1;
    }
    Ok(())
}

// ── The request ──────────────────────────────────────────────────────────────

/// The realm of the first user.
pub open spec fn bulk_realm(users: Seq<BulkUserModel>) -> Seq<char> {
    if users.len() > 0 {
        users[0].realm
    } else {
        Seq::empty()
    }
}

/// Whether all users are in realms that the actor may work in.
pub open spec fn all_reached(
    config: ConfigModel,
    actor: SessionUserModel,
    users: Seq<BulkUserModel>,
) -> bool {
    forall|i: int| 0 <= i < users.len() ==> may_reach(config, actor, (#[trigger] users[i]).realm)
}

fn check_all_realms(config: &Config, actor: &SessionUser, users: &Vec<BulkUser>) -> (r: Result<
    (),
    Step,
>)
    ensures
        all_reached(config.deep_view(), actor.deep_view(), users.deep_view()) ==> r == Ok::<
            (),
            Step,
        >(()),
        !all_reached(config.deep_view(), actor.deep_view(), users.deep_view()) ==> (r matches Err(
            stop,
        ) && stop.deep_view() == failed(AppErrorModel::Forbidden)),
{
    let ghost all = users.deep_view();
    let mut i: usize = 0;
    while i < users.len()
        invariant
            i <= users@.len(),
            all == users.deep_view(),
            forall|j: int|
                0 <= j < i ==> may_reach(
                    config.deep_view(),
                    actor.deep_view(),
                    (#[trigger] all[j]).realm,
                ),
        decreases users@.len() - i,
    {
        assert(all[i as int] == users@[i as int].deep_view());
        check_realm_access(config, actor, users[i].realm.as_str())?;
        i = i + 1;
    }
    Ok(())
}

/// An admin's bulk edit takes effect and is recorded as one action; an operator's is proposed
/// user by user.
pub open spec fn bulk_made(
    actor: SessionUserModel,
    body: BulkEditBodyModel,
    teams: Seq<GroupModel>,
    replies: Seq<ReplyModel>,
) -> Asked<OutcomeModel> {
    let team = chosen_team(teams, body.team_group_id);
    match actor.role {
        Role::Admin => match users_changed(body.users, body.enabled, team, teams, replies) {
            Ask::Stop(stop) => Ask::Stop(stop),
            Ask::Got(_, rest) => match audit_asked(
                actor.username,
                "bulk_edit"@,
                bulk_realm(body.users),
                None,
                bulk_detail(body),
                rest,
            ) {
                Ask::Stop(stop) => Ask::Stop(stop),
                Ask::Got(_, rest) => Ask::Got(OutcomeModel::Accepted, rest),
            },
        },
        Role::Operator => match users_proposed(actor, body.users, body.enabled, team, replies) {
            Ask::Stop(stop) => Ask::Stop(stop),
            Ask::Got(_, rest) => Ask::Got(OutcomeModel::Accepted, rest),
        },
    }
}

/// A bulk edit by a given user.
pub open spec fn bulk_edited_by(
    config: ConfigModel,
    actor: SessionUserModel,
    body: BulkEditBodyModel,
    replies: Seq<ReplyModel>,
) -> Asked<OutcomeModel> {
    if all_reached(config, actor, body.users) {
        match team_groups_asked(bulk_realm(body.users), body.team_group_id, replies) {
            Ask::Stop(stop) => Ask::Stop(stop),
            Ask::Got(teams, rest) => bulk_made(actor, body, teams, rest),
        }
    } else {
        Ask::Stop(failed(AppErrorModel::Forbidden))
    }
}

/// Makes a bulk edit for a given user: an admin's takes effect, an operator's is put into
/// the queue.
pub fn bulk_edit_by(
    cursor: &mut Replies<'_>,
    config: &Config,
    actor: &SessionUser,
    body: &BulkEditBody,
) -> (r: Result<Outcome, Step>)
    ensures
        answers(
            r,
            final(cursor).rest(),
            bulk_edited_by(
                config.deep_view(),
                actor.deep_view(),
                body.deep_view(),
                old(cursor).rest(),
            ),
        ),
{
    check_all_realms(config, actor, &body.users)?;
    let realm = if body.users.len() > 0 {
        body.users[0].realm.clone()
    } else {
        String::new()
    };
    let teams = ask_team_groups(cursor, realm.as_str(), &body.team_group_id)?;
    let team = choose_team(&teams, &body.team_group_id);
    match actor.role {
        Role::Admin => {
            change_users(cursor, &body.users, body.enabled, &team, &teams)?;
            ask_audit(
                cursor,
                actor.username.as_str(),
                "bulk_edit",
                realm.as_str(),
                None,
                describe(body),
            )?;
        },
        Role::Operator => {
            propose_users(cursor, actor, &body.users, body.enabled, &team)?;
        },
    }
    Ok(Outcome::Accepted)
}

/// Many users are edited by an admin.
#[verifier::opaque]
pub open spec fn bulk_edited(
    config: ConfigModel,
    body: BulkEditBodyModel,
    replies: Seq<ReplyModel>,
) -> Asked<OutcomeModel> {
    match admin_form_checked(config, body.csrf_token, replies) {
        Ask::Stop(stop) => Ask::Stop(stop),
        Ask::Got(actor, rest) => bulk_edited_by(config, actor, body, rest),
    }
}

/// Edits many users. Only admins may: one request can change many accounts.
pub fn bulk_edit(cursor: &mut Replies<'_>, config: &Config, body: &BulkEditBody) -> (r: Result<
    Outcome,
    Step,
>)
    ensures
        answers(
            r,
            final(cursor).rest(),
            bulk_edited(config.deep_view(), body.deep_view(), old(cursor).rest()),
        ),
{
    proof {
        reveal(bulk_edited);
    }
    let actor = check_admin_form(cursor, config, body.csrf_token.as_str())?;
    bulk_edit_by(cursor, config, &actor, body)
}

} // verus!
