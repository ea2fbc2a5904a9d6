//! Creating a user.

use crate::asks::{
    ask_audit, ask_mutation, ask_user, audit_asked, failed, mutation_asked, user_asked,
};
use crate::attributes::{Attributes, AttributesModel};
use crate::config::{Config, ConfigModel};
use crate::effects::{Asked, Outcome, OutcomeModel, Replies, ReplyModel, Step};
use crate::error::AppErrorModel;
use crate::provider::{
    CreateUser, CreateUserModel, ProviderCall, ProviderCallModel, User, UserModel,
};
use crate::routes::{
    admin_form_checked, check_admin_form, check_realm_access, flash_left, leave_flash, may_reach,
    path_of_user, user_path,
};
use crate::routes::users::bulk::{
    ask_team_groups, choose_team, chosen_team, team_groups_asked, Team, TeamModel,
};
use crate::script::{answers, Ask};
use crate::service::users::{edit_made, propose_or_apply, EditRequest, EditRequestModel};
use crate::session::{good_news, Flash, FlashModel, Role, SessionUser, SessionUserModel};
use crate::storage::{FieldChange, FieldChangeModel};
use crate::text::{is_ticked, keep_non_empty, non_empty, ticked};
use vstd::prelude::*;

verus! {

/// The form for a new user.
#[derive(Debug, PartialEq)]
pub struct NewUserForm {
    pub csrf_token: String,
    pub realm: String,
    pub username: String,
    pub first_name: Option<String>,
    pub last_name: Option<String>,
    pub email: Option<String>,
    pub team_group_id: Option<String>,
    pub phone_number: Option<String>,
    pub personnel_code: Option<String>,
    pub password: Option<String>,
    pub password_temporary: Option<String>,
    pub enabled: Option<String>,
}

/// What a [`NewUserForm`] stands for in contracts.
#[verifier::ext_equal]
pub struct NewUserFormModel {
    pub csrf_token: Seq<char>,
    pub realm: Seq<char>,
    pub username: Seq<char>,
    pub first_name: Option<Seq<char>>,
    pub last_name: Option<Seq<char>>,
    pub email: Option<Seq<char>>,
    pub team_group_id: Option<Seq<char>>,
    pub phone_number: Option<Seq<char>>,
    pub personnel_code: Option<Seq<char>>,
    pub password: Option<Seq<char>>,
    pub password_temporary: Option<Seq<char>>,
    pub enabled: Option<Seq<char>>,
}

impl DeepView for NewUserForm {
    type V = NewUserFormModel;

    open spec fn deep_view(&self) -> NewUserFormModel {
        NewUserFormModel {
            csrf_token: self.csrf_token.deep_view(),
            realm: self.realm.deep_view(),
            username: self.username.deep_view(),
            first_name: self.first_name.deep_view(),
            last_name: self.last_name.deep_view(),
            email: self.email.deep_view(),
            team_group_id: self.team_group_id.deep_view(),
            phone_number: self.phone_number.deep_view(),
            personnel_code: self.personnel_code.deep_view(),
            password: self.password.deep_view(),
            password_temporary: self.password_temporary.deep_view(),
            enabled: self.enabled.deep_view(),
        }
    }
}

impl Clone for NewUserForm {
    fn clone(&self) -> (r: Self)
        ensures
            r.deep_view() == self.deep_view(),
    {
        NewUserForm {
            csrf_token: self.csrf_token.clone(),
            realm: self.realm.clone(),
            username: self.username.clone(),
            first_name: self.first_name.clone(),
            last_name: self.last_name.clone(),
            email: self.email.clone(),
            team_group_id: self.team_group_id.clone(),
            phone_number: self.phone_number.clone(),
            personnel_code: self.personnel_code.clone(),
            password: self.password.clone(),
            password_temporary: self.password_temporary.clone(),
            enabled: self.enabled.clone(),
        }
    }
}

/// The attributes of a new user: the team's name, where an admin chose one.
pub open spec fn initial_attributes(role: Role, team: Option<TeamModel>) -> AttributesModel {
    match (role, team) {
        (Role::Admin, Some(team)) => AttributesModel::empty().insert("team"@, seq![team.name]),
        _ => AttributesModel::empty(),
    }
}

/// The account that a form describes. An empty field stands for none.
pub open spec fn new_account(
    form: NewUserFormModel,
    role: Role,
    team: Option<TeamModel>,
) -> CreateUserModel {
    CreateUserModel {
        username: form.username,
        email: non_empty(form.email),
        first_name: non_empty(form.first_name),
        last_name: non_empty(form.last_name),
        enabled: ticked(form.enabled),
        password: non_empty(form.password),
        password_temporary: ticked(form.password_temporary),
        phone_number: non_empty(form.phone_number),
        personnel_code: non_empty(form.personnel_code),
        attributes: initial_attributes(role, team),
    }
}

fn account_of(form: &NewUserForm, role: Role, team: &Option<Team>) -> (r: CreateUser)
    ensures
        r.deep_view() == new_account(form.deep_view(), role, team.deep_view()),
{
    let mut attributes = Attributes::new();
    if role.is_admin() {
        if let Some(team) = team {
            let values = vec![team.name.clone()];
            assert(values.deep_view() =~= seq![team.name@]);
            attributes.insert("team".to_string(), values);
        }
    }
    CreateUser {
        username: form.username.clone(),
        email: keep_non_empty(&form.email),
        first_name: keep_non_empty(&form.first_name),
        last_name: keep_non_empty(&form.last_name),
        enabled: is_ticked(&form.enabled),
        password: keep_non_empty(&form.password),
        password_temporary: is_ticked(&form.password_temporary),
        phone_number: keep_non_empty(&form.phone_number),
        personnel_code: keep_non_empty(&form.personnel_code),
        attributes,
    }
}

/// The team of a new user, as a change of the account.
pub open spec fn team_fields(team: TeamModel) -> Seq<FieldChangeModel> {
    seq![
        FieldChangeModel { field: "team_group_id"@, before: None, after: team.id },
        FieldChangeModel { field: "team"@, before: None, after: team.name },
    ]
}

fn fields_of(team: &Team) -> (r: Vec<FieldChange>)
    ensures
        r.deep_view() == team_fields(team.deep_view()),
{
    let r = vec![
        FieldChange { field: "team_group_id".to_string(), before: None, after: team.id.clone() },
        FieldChange { field: "team".to_string(), before: None, after: team.name.clone() },
    ];
    assert(r.deep_view() =~= team_fields(team.deep_view()));
    r
}

/// The message that a user was created.
pub open spec fn created_message(username: Seq<char>) -> Seq<char> {
    "User "@ + username + " created."@
}

/// The message that a user was created and the team has to be approved.
pub open spec fn queued_message(username: Seq<char>) -> Seq<char> {
    "User "@ + username + " created. Team assignment sent for admin approval."@
}

/// A new user joins the chosen team: at once where an admin chose it, else after approval,
/// because a team can grant access.
pub open spec fn team_assigned(
    actor: SessionUserModel,
    form: NewUserFormModel,
    created: UserModel,
    team: Option<TeamModel>,
    replies: Seq<ReplyModel>,
) -> Asked<FlashModel> {
    match team {
        None => Ask::Got(good_news(created_message(form.username)), replies),
        Some(team) => match actor.role {
            Role::Admin => match mutation_asked(
                ProviderCallModel::AddUserToGroup {
                    realm: form.realm,
                    user_id: created.id,
                    group_id: team.id,
                },
                replies,
            ) {
                Ask::Stop(stop) => Ask::Stop(stop),
                Ask::Got(_, rest) => Ask::Got(good_news(created_message(form.username)), rest),
            },
            Role::Operator => match edit_made(
                actor.role,
                EditRequestModel {
                    realm: form.realm,
                    user_id: created.id,
                    username: created.username,
                    actor: actor.username,
                    diff: team_fields(team),
                },
                replies,
            ) {
                Ask::Stop(stop) => Ask::Stop(stop),
                Ask::Got(_, rest) => Ask::Got(good_news(queued_message(form.username)), rest),
            },
        },
    }
}

fn assign_team(
    cursor: &mut Replies<'_>,
    actor: &SessionUser,
    form: &NewUserForm,
    created: &User,
    team: &Option<Team>,
) -> (r: Result<Flash, Step>)
    ensures
        answers(
            r,
            final(cursor).rest(),
            team_assigned(
                actor.deep_view(),
                form.deep_view(),
                created.deep_view(),
                team.deep_view(),
                old(cursor).rest(),
            ),
        ),
{
    let name = "User ".to_string().concat(form.username.as_str());
    if let Some(team) = team {
        match actor.role {
            Role::Admin => {
                ask_mutation(
                    cursor,
                    ProviderCall::AddUserToGroup {
                        realm: form.realm.clone(),
                        user_id: created.id.clone(),
                        group_id: team.id.clone(),
                    },
                )?;
            },
            Role::Operator => {
                propose_or_apply(
                    cursor,
                    actor.role,
                    EditRequest {
                        realm: form.realm.as_str(),
                        user_id: created.id.as_str(),
                        username: created.username.as_str(),
                        actor: actor.username.as_str(),
                        diff: fields_of(team),
                    },
                )?;
                return Ok(
                    Flash::success(
                        name.concat(" created. Team assignment sent for admin approval."),
                    ),
                );
            },
        }
    }
    Ok(Flash::success(name.concat(" created.")))
}

/// The account is created and recorded, the team is assigned, and the browser sent to the
/// new user.
pub open spec fn account_made(
    actor: SessionUserModel,
    form: NewUserFormModel,
    team: Option<TeamModel>,
    replies: Seq<ReplyModel>,
) -> Asked<OutcomeModel> {
    match user_asked(
        ProviderCallModel::CreateUser {
            realm: form.realm,
            user: new_account(form, actor.role, team),
        },
        replies,
    ) {
        Ask::Stop(stop) => Ask::Stop(stop),
        Ask::Got(created, rest) => match audit_asked(
            actor.username,
            "create_user"@,
            form.realm,
            Some(form.username),
            "user created"@,
            rest,
        ) {
            Ask::Stop(stop) => Ask::Stop(stop),
            Ask::Got(_, rest) => match team_assigned(actor, form, created, team, rest) {
                Ask::Stop(stop) => Ask::Stop(stop),
                Ask::Got(flash, rest) => flash_left(flash, user_path(form.realm, created.id), rest),
            },
        },
    }
}

/// A user is created by a given user.
pub open spec fn user_created_by(
    config: ConfigModel,
    actor: SessionUserModel,
    form: NewUserFormModel,
    replies: Seq<ReplyModel>,
) -> Asked<OutcomeModel> {
    if may_reach(config, actor, form.realm) {
        match team_groups_asked(form.realm, form.team_group_id, replies) {
            Ask::Stop(stop) => Ask::Stop(stop),
            Ask::Got(teams, rest) => account_made(
                actor,
                form,
                chosen_team(teams, form.team_group_id),
                rest,
            ),
        }
    } else {
        Ask::Stop(failed(AppErrorModel::Forbidden))
    }
}

/// Creates a user for a given user. The team that an operator chooses is put into the queue.
pub fn create_user_by(
    cursor: &mut Replies<'_>,
    config: &Config,
    actor: &SessionUser,
    form: &NewUserForm,
) -> (r: Result<Outcome, Step>)
    ensures
        answers(
            r,
            final(cursor).rest(),
            user_created_by(
                config.deep_view(),
                actor.deep_view(),
                form.deep_view(),
                old(cursor).rest(),
            ),
        ),
{
    check_realm_access(config, actor, form.realm.as_str())?;
    let teams = ask_team_groups(cursor, form.realm.as_str(), &form.team_group_id)?;
    let team = choose_team(&teams, &form.team_group_id);
    let created = ask_user(
        cursor,
        ProviderCall::CreateUser {
            realm: form.realm.clone(),
            user: account_of(form, actor.role, &team),
        },
    )?;
    ask_audit(
        cursor,
        actor.username.as_str(),
        "create_user",
        form.realm.as_str(),
        Some(form.username.clone()),
        "user created".to_string(),
    )?;
    let flash = assign_team(cursor, actor, form, &created, &team)?;
    leave_flash(cursor, flash, path_of_user(form.realm.as_str(), created.id.as_str()))
}

/// A user is created by an admin.
#[verifier::opaque]
pub open spec fn user_created(
    config: ConfigModel,
    form: NewUserFormModel,
    replies: Seq<ReplyModel>,
) -> Asked<OutcomeModel> {
    match admin_form_checked(config, form.csrf_token, replies) {
        Ask::Stop(stop) => Ask::Stop(stop),
        Ask::Got(actor, rest) => user_created_by(config, actor, form, rest),
    }
}

/// Creates a user. Only admins may: the account can come with a password.
pub fn create_user(cursor: &mut Replies<'_>, config: &Config, form: &NewUserForm) -> (r: Result<
    Outcome,
    Step,
>)
    ensures
        answers(
            r,
            final(cursor).rest(),
            user_created(config.deep_view(), form.deep_view(), old(cursor).rest()),
        ),
{
    proof {
        reveal(user_created);
    }
    let actor = check_admin_form(cursor, config, form.csrf_token.as_str())?;
    create_user_by(cursor, config, &actor, form)
}

} // verus!
