//! Teams: groups below one parent group.

use crate::asks::{
    ask_audit, ask_group, ask_groups, audit_asked, fail, failed, group_asked, groups_asked,
};
use crate::config::{Config, ConfigModel};
use crate::effects::{Asked, Outcome, OutcomeModel, Replies, ReplyModel, Step};
use crate::error::{AppError, AppErrorModel};
use crate::lists::{find, first_where};
use crate::provider::{Group, GroupModel, ProviderCall, ProviderCallModel};
use crate::routes::{
    admin_form_checked, check_admin_form, flash_left, leave_flash, redirected, require_session,
    session_required,
};
use crate::script::{answers, Ask};
use crate::session::{good_news, Flash};
use crate::text::{same, trim, trimmed};
use vstd::prelude::*;

verus! {

/// The group above all teams, if it is there.
pub open spec fn parent_asked(
    config: ConfigModel,
    realm: Seq<char>,
    replies: Seq<ReplyModel>,
) -> Asked<Option<Seq<char>>> {
    match groups_asked(ProviderCallModel::ListGroups { realm }, replies) {
        Ask::Stop(stop) => Ask::Stop(stop),
        Ask::Got(groups, rest) => Ask::Got(
            match first_where(groups, |g: GroupModel| g.name == config.teams_group) {
                Some(group) => Some(group.id),
                None => None,
            },
            rest,
        ),
    }
}

/// Looks for the group above all teams.
pub fn teams_parent_id(cursor: &mut Replies<'_>, config: &Config, realm: &str) -> (r: Result<
    Option<String>,
    Step,
>)
    ensures
        answers(
            r,
            final(cursor).rest(),
            parent_asked(config.deep_view(), realm@, old(cursor).rest()),
        ),
{
    let groups = ask_groups(cursor, ProviderCall::ListGroups { realm: realm.to_string() })?;
    let ghost name = config.deep_view().teams_group;
    let ghost wanted = |g: GroupModel| g.name == name;
    let is_parent = |g: &Group| -> (b: bool)
        ensures
            b == wanted(g.deep_view()),
        { same(g.name.as_str(), config.teams_group.as_str()) };
    let found = match find(&groups, is_parent, Ghost(wanted)) {
        Some(group) => Some(group.id.clone()),
        None => None,
    };
    assert(wanted =~= (|g: GroupModel| g.name == config.deep_view().teams_group));
    Ok(found)
}

/// The teams are shown with the users.
#[verifier::opaque]
pub open spec fn teams_listed(
    config: ConfigModel,
    replies: Seq<ReplyModel>,
) -> Asked<OutcomeModel> {
    match session_required(config, replies) {
        Ask::Stop(stop) => Ask::Stop(stop),
        Ask::Got(_, rest) => Ask::Got(redirected("/users"@), rest),
    }
}

/// Sends the browser to the users, among whom the teams are shown.
pub fn list_teams(cursor: &mut Replies<'_>, config: &Config) -> (r: Result<Outcome, Step>)
    ensures
        answers(r, final(cursor).rest(), teams_listed(config.deep_view(), old(cursor).rest())),
{
    proof {
        reveal(teams_listed);
    }
    let _ = require_session(cursor, config)?;
    Ok(Outcome::Redirect { to: "/users".to_string() })
}

/// The form for a new team.
#[derive(Debug, PartialEq)]
pub struct CreateTeamForm {
    pub csrf_token: String,
    pub realm: String,
    pub name: String,
}

/// What a [`CreateTeamForm`] stands for in contracts.
#[verifier::ext_equal]
pub struct CreateTeamFormModel {
    pub csrf_token: Seq<char>,
    pub realm: Seq<char>,
    pub name: Seq<char>,
}

impl DeepView for CreateTeamForm {
    type V = CreateTeamFormModel;

    open spec fn deep_view(&self) -> CreateTeamFormModel {
        CreateTeamFormModel {
            csrf_token: self.csrf_token.deep_view(),
            realm: self.realm.deep_view(),
            name: self.name.deep_view(),
        }
    }
}

impl Clone for CreateTeamForm {
    fn clone(&self) -> (r: Self)
        ensures
            r.deep_view() == self.deep_view(),
    {
        CreateTeamForm {
            csrf_token: self.csrf_token.clone(),
            realm: self.realm.clone(),
            name: self.name.clone(),
        }
    }
}

/// The group above all teams, which is created where it is missing.
pub open spec fn parent_ensured(
    config: ConfigModel,
    realm: Seq<char>,
    replies: Seq<ReplyModel>,
) -> Asked<Seq<char>> {
    match parent_asked(config, realm, replies) {
        Ask::Stop(stop) => Ask::Stop(stop),
        Ask::Got(Some(id), rest) => Ask::Got(id, rest),
        Ask::Got(None, rest) => match group_asked(
            ProviderCallModel::CreateGroup { realm, name: config.teams_group, parent_id: None },
            rest,
        ) {
            Ask::Stop(stop) => Ask::Stop(stop),
            Ask::Got(group, rest) => Ask::Got(group.id, rest),
        },
    }
}

fn ensure_parent(
    cursor: &mut Replies<'_>,
    config: &Config,
    realm: &str,
) -> (r: Result<String, Step>)
    ensures
        answers(
            r,
            final(cursor).rest(),
            parent_ensured(config.deep_view(), realm@, old(cursor).rest()),
        ),
{
    match teams_parent_id(cursor, config, realm)? {
        Some(id) => Ok(id),
        None => {
            let group = ask_group(
                cursor,
                ProviderCall::CreateGroup {
                    realm: realm.to_string(),
                    name: config.teams_group.clone(),
                    parent_id: None,
                },
            )?;
            Ok(group.id)
        },
    }
}

/// A team is created below the parent, recorded and reported.
pub open spec fn team_made(
    config: ConfigModel,
    actor: Seq<char>,
    realm: Seq<char>,
    name: Seq<char>,
    replies: Seq<ReplyModel>,
) -> Asked<OutcomeModel> {
    match parent_ensured(config, realm, replies) {
        Ask::Stop(stop) => Ask::Stop(stop),
        Ask::Got(parent, rest) => match group_asked(
            ProviderCallModel::CreateGroup { realm, name, parent_id: Some(parent) },
            rest,
        ) {
            Ask::Stop(stop) => Ask::Stop(stop),
            Ask::Got(_, rest) => match audit_asked(
                actor,
                "create_team"@,
                realm,
                None,
                "team '"@ + name + "' created"@,
                rest,
            ) {
                Ask::Stop(stop) => Ask::Stop(stop),
                Ask::Got(_, rest) => flash_left(
                    good_news("Team '"@ + name + "' created."@),
                    "/users?realm="@ + realm,
                    rest,
                ),
            },
        },
    }
}

/// An admin creates a team, whose name may not be blank.
#[verifier::opaque]
pub open spec fn team_created(
    config: ConfigModel,
    form: CreateTeamFormModel,
    replies: Seq<ReplyModel>,
) -> Asked<OutcomeModel> {
    match admin_form_checked(config, form.csrf_token, replies) {
        Ask::Stop(stop) => Ask::Stop(stop),
        Ask::Got(user, rest) => if trimmed(form.name).len() == 0 {
            Ask::Stop(failed(AppErrorModel::Internal("team name cannot be empty"@)))
        } else {
            team_made(config, user.username, form.realm, trimmed(form.name), rest)
        },
    }
}

/// Creates a team.
pub fn create_team(cursor: &mut Replies<'_>, config: &Config, form: &CreateTeamForm) -> (r: Result<
    Outcome,
    Step,
>)
    ensures
        answers(
            r,
            final(cursor).rest(),
            team_created(config.deep_view(), form.deep_view(), old(cursor).rest()),
        ),
{
    proof {
        reveal(team_created);
    }
    let user = check_admin_form(cursor, config, form.csrf_token.as_str())?;
    let name = trim(form.name.as_str());
    if name.as_str().is_empty() {
        return Err(fail(AppError::Internal("team name cannot be empty".to_string())));
    }
    let realm = form.realm.as_str();
    let parent = ensure_parent(cursor, config, realm)?;
    let _ = ask_group(
        cursor,
        ProviderCall::CreateGroup {
            realm: realm.to_string(),
            name: name.clone(),
            parent_id: Some(parent),
        },
    )?;
    ask_audit(
        cursor,
        user.username.as_str(),
        "create_team",
        realm,
        None,
        "team '".to_string().concat(name.as_str()).concat("' created"),
    )?;
    leave_flash(
        cursor,
        Flash::success("Team '".to_string().concat(name.as_str()).concat("' created.")),
        "/users?realm=".to_string().concat(realm),
    )
}

} // verus!
