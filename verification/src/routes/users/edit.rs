//! Editing a user.

use crate::asks::{ask_groups, ask_user, failed, groups_asked, user_asked};
use crate::attributes::{first_value, first_value_of, Attributes, AttributesModel};
use crate::config::{Config, ConfigModel};
use crate::effects::{Asked, Outcome, OutcomeModel, Replies, ReplyModel, Step};
use crate::error::AppErrorModel;
use crate::lists::{find, first_where};
use crate::provider::{Group, GroupModel, ProviderCall, ProviderCallModel, User, UserModel};
use crate::routes::{
    check_realm_access, check_session_form, find_group, flash_left, group_with, has_group,
    holds_group, leave_flash, load_team_groups, may_reach, path_of_user, redirected,
    session_form_checked, teams_asked, user_path,
};
use crate::script::{answers, Ask};
use crate::service::users::{edit_made, propose_or_apply, EditRequest, EditRequestModel};
use crate::session::SessionUserModel;
use crate::storage::{FieldChange, FieldChangeModel};
use crate::text::{
    flag_text, flag_to_text, is_ticked, keep_non_empty, non_empty, or_empty, same, same_option,
    text_or_empty, ticked, trim, trimmed,
};
use vstd::prelude::*;

verus! {

/// The form for editing a user.
#[derive(Debug, PartialEq)]
pub struct EditForm {
    pub csrf_token: String,
    pub first_name: Option<String>,
    pub last_name: Option<String>,
    pub email: Option<String>,
    pub enabled: Option<String>,
    pub status_reason: Option<String>,
    pub team_group_id: Option<String>,
    pub phone_number: Option<String>,
    pub personnel_code: Option<String>,
}

/// What a [`EditForm`] stands for in contracts.
#[verifier::ext_equal]
pub struct EditFormModel {
    pub csrf_token: Seq<char>,
    pub first_name: Option<Seq<char>>,
    pub last_name: Option<Seq<char>>,
    pub email: Option<Seq<char>>,
    pub enabled: Option<Seq<char>>,
    pub status_reason: Option<Seq<char>>,
    pub team_group_id: Option<Seq<char>>,
    pub phone_number: Option<Seq<char>>,
    pub personnel_code: Option<Seq<char>>,
}

impl DeepView for EditForm {
    type V = EditFormModel;

    open spec fn deep_view(&self) -> EditFormModel {
        EditFormModel {
            csrf_token: self.csrf_token.deep_view(),
            first_name: self.first_name.deep_view(),
            last_name: self.last_name.deep_view(),
            email: self.email.deep_view(),
            enabled: self.enabled.deep_view(),
            status_reason: self.status_reason.deep_view(),
            team_group_id: self.team_group_id.deep_view(),
            phone_number: self.phone_number.deep_view(),
            personnel_code: self.personnel_code.deep_view(),
        }
    }
}

impl Clone for EditForm {
    fn clone(&self) -> (r: Self)
        ensures
            r.deep_view() == self.deep_view(),
    {
        EditForm {
            csrf_token: self.csrf_token.clone(),
            first_name: self.first_name.clone(),
            last_name: self.last_name.clone(),
            email: self.email.clone(),
            enabled: self.enabled.clone(),
            status_reason: self.status_reason.clone(),
            team_group_id: self.team_group_id.clone(),
            phone_number: self.phone_number.clone(),
            personnel_code: self.personnel_code.clone(),
        }
    }
}

/// A field that the form sent, where it differs from what the account holds.
pub open spec fn field_edit(
    field: Seq<char>,
    sent: Option<Seq<char>>,
    held: Option<Seq<char>>,
) -> Seq<FieldChangeModel> {
    match sent {
        Some(after) if sent != held => seq![FieldChangeModel { field, before: held, after }],
        _ => Seq::empty(),
    }
}

fn push_field(
    diff: &mut Vec<FieldChange>,
    field: &str,
    sent: &Option<String>,
    held: &Option<String>,
)
    ensures
        final(diff).deep_view() == old(diff).deep_view() + field_edit(
            field@,
            sent.deep_view(),
            held.deep_view(),
        ),
{
    let ghost before = diff.deep_view();
    if !same_option(sent, held) {
        if let Some(after) = sent {
            diff.push(
                FieldChange {
                    field: field.to_string(),
                    before: held.clone(),
                    after: after.clone(),
                },
            );
        }
    }
    assert(diff.deep_view() =~= before + field_edit(field@, sent.deep_view(), held.deep_view()));
}

/// The reason for a new status, where one was given.
pub open spec fn reason_edit(reason: Option<Seq<char>>) -> Seq<FieldChangeModel> {
    match reason {
        Some(text) if trimmed(text).len() > 0 => seq![
            FieldChangeModel { field: "status_reason"@, before: None, after: trimmed(text) },
        ],
        _ => Seq::empty(),
    }
}

/// The status, where the form changes it, with the reason.
pub open spec fn status_edit(
    enabled: bool,
    held: bool,
    reason: Option<Seq<char>>,
) -> Seq<FieldChangeModel> {
    if enabled == held {
        Seq::empty()
    } else {
        seq![
            FieldChangeModel {
                field: "enabled"@,
                before: Some(flag_text(held)),
                after: flag_text(enabled),
            },
        ] + reason_edit(reason)
    }
}

fn push_status(diff: &mut Vec<FieldChange>, enabled: bool, held: bool, reason: &Option<String>)
    ensures
        final(diff).deep_view() == old(diff).deep_view() + status_edit(
            enabled,
            held,
            reason.deep_view(),
        ),
{
    let ghost before = diff.deep_view();
    if enabled != held {
        diff.push(
            FieldChange {
                field: "enabled".to_string(),
                before: Some(flag_to_text(held)),
                after: flag_to_text(enabled),
            },
        );
        if let Some(text) = reason {
            let after = trim(text.as_str());
            if !after.as_str().is_empty() {
                diff.push(FieldChange { field: "status_reason".to_string(), before: None, after });
            }
        }
    }
    assert(diff.deep_view() =~= before + status_edit(enabled, held, reason.deep_view()));
}

/// The first of the user's groups that is a team.
pub open spec fn current_team(groups: Seq<GroupModel>, teams: Seq<GroupModel>) -> Option<
    Seq<char>,
> {
    match first_where(groups, |g: GroupModel| holds_group(teams, g.id)) {
        Some(group) => Some(group.id),
        None => None,
    }
}

pub(crate) fn find_current_team(groups: &Vec<Group>, teams: &Vec<Group>) -> (r: Option<String>)
    ensures
        r.deep_view() == current_team(groups.deep_view(), teams.deep_view()),
{
    let ghost all = teams.deep_view();
    let ghost wanted = |g: GroupModel| holds_group(all, g.id);
    let is_team = |g: &Group| -> (b: bool)
        ensures
            b == wanted(g.deep_view()),
        { has_group(teams, g.id.as_str()) };
    match find(groups, is_team, Ghost(wanted)) {
        Some(group) => Some(group.id.clone()),
        None => None,
    }
}

/// The name of the team with this id; nothing, where there is none.
pub open spec fn team_name(teams: Seq<GroupModel>, id: Option<Seq<char>>) -> Seq<char> {
    match id {
        Some(id) => match group_with(teams, id) {
            Some(group) => group.name,
            None => Seq::empty(),
        },
        None => Seq::empty(),
    }
}

/// The team, where the form changes it: the group and the name under which it is listed.
pub open spec fn team_edit(
    chosen: Option<Seq<char>>,
    held: Option<Seq<char>>,
    teams: Seq<GroupModel>,
) -> Seq<FieldChangeModel> {
    if chosen == held {
        Seq::empty()
    } else {
        seq![
            FieldChangeModel {
                field: "team_group_id"@,
                before: held,
                after: or_empty(chosen),
            },
            FieldChangeModel { field: "team"@, before: None, after: team_name(teams, chosen) },
        ]
    }
}

fn push_team(
    diff: &mut Vec<FieldChange>,
    chosen: &Option<String>,
    held: &Option<String>,
    teams: &Vec<Group>,
)
    ensures
        final(diff).deep_view() == old(diff).deep_view() + team_edit(
            chosen.deep_view(),
            held.deep_view(),
            teams.deep_view(),
        ),
{
    let ghost before = diff.deep_view();
    if !same_option(chosen, held) {
        let name = match chosen {
            Some(id) => match find_group(teams, id.as_str()) {
                Some(group) => group.name.clone(),
                None => String::new(),
            },
            None => String::new(),
        };
        diff.push(
            FieldChange {
                field: "team_group_id".to_string(),
                before: held.clone(),
                after: text_or_empty(chosen),
            },
        );
        diff.push(FieldChange { field: "team".to_string(), before: None, after: name });
    }
    assert(diff.deep_view() =~= before + team_edit(
        chosen.deep_view(),
        held.deep_view(),
        teams.deep_view(),
    ));
}

/// An attribute, where the form changes its first value; an empty value stands for none.
pub open spec fn attribute_edit(
    key: Seq<char>,
    sent: Option<Seq<char>>,
    attributes: AttributesModel,
) -> Seq<FieldChangeModel> {
    let held = first_value(attributes, key);
    if or_empty(sent) == or_empty(held) {
        Seq::empty()
    } else {
        seq![FieldChangeModel { field: key, before: held, after: or_empty(sent) }]
    }
}

fn push_attribute(
    diff: &mut Vec<FieldChange>,
    key: &str,
    sent: &Option<String>,
    attributes: &Attributes,
)
    ensures
        final(diff).deep_view() == old(diff).deep_view() + attribute_edit(
            key@,
            sent.deep_view(),
            attributes.deep_view(),
        ),
{
    let ghost before = diff.deep_view();
    let held = first_value_of(attributes, key);
    let after = text_or_empty(sent);
    if !same(after.as_str(), text_or_empty(&held).as_str()) {
        diff.push(FieldChange { field: key.to_string(), before: held, after });
    }
    assert(diff.deep_view() =~= before + attribute_edit(
        key@,
        sent.deep_view(),
        attributes.deep_view(),
    ));
}

/// All that the form changes of a user.
pub open spec fn form_edits(
    form: EditFormModel,
    existing: UserModel,
    groups: Seq<GroupModel>,
    teams: Seq<GroupModel>,
) -> Seq<FieldChangeModel> {
    field_edit("first_name"@, form.first_name, existing.first_name) + field_edit(
        "last_name"@,
        form.last_name,
        existing.last_name,
    ) + field_edit("email"@, form.email, existing.email) + status_edit(
        ticked(form.enabled),
        existing.enabled,
        form.status_reason,
    ) + team_edit(non_empty(form.team_group_id), current_team(groups, teams), teams)
        + attribute_edit("phone_number"@, form.phone_number, existing.attributes) + attribute_edit(
        "personnel_code"@,
        form.personnel_code,
        existing.attributes,
    )
}

/// Collects all that the form changes of a user.
pub fn collect_edits(
    form: &EditForm,
    existing: &User,
    groups: &Vec<Group>,
    teams: &Vec<Group>,
) -> (r: Vec<FieldChange>)
    ensures
        r.deep_view() == form_edits(
            form.deep_view(),
            existing.deep_view(),
            groups.deep_view(),
            teams.deep_view(),
        ),
{
    let mut diff: Vec<FieldChange> = Vec::new();
    assert(diff.deep_view() =~= Seq::empty());
    push_field(&mut diff, "first_name", &form.first_name, &existing.first_name);
    assert(diff.deep_view() =~= field_edit(
        "first_name"@,
        form.first_name.deep_view(),
        existing.first_name.deep_view(),
    ));
    push_field(&mut diff, "last_name", &form.last_name, &existing.last_name);
    push_field(&mut diff, "email", &form.email, &existing.email);
    push_status(&mut diff, is_ticked(&form.enabled), existing.enabled, &form.status_reason);
    push_team(
        &mut diff,
        &keep_non_empty(&form.team_group_id),
        &find_current_team(groups, teams),
        teams,
    );
    push_attribute(&mut diff, "phone_number", &form.phone_number, &existing.attributes);
    push_attribute(&mut diff, "personnel_code", &form.personnel_code, &existing.attributes);
    diff
}

/// The edits of a form are made, and the browser is sent back to the user.
pub open spec fn edits_made(
    user: SessionUserModel,
    realm: Seq<char>,
    id: Seq<char>,
    username: Seq<char>,
    diff: Seq<FieldChangeModel>,
    replies: Seq<ReplyModel>,
) -> Asked<OutcomeModel> {
    if diff.len() == 0 {
        Ask::Got(redirected(user_path(realm, id)), replies)
    } else {
        match edit_made(
            user.role,
            EditRequestModel { realm, user_id: id, username, actor: user.username, diff },
            replies,
        ) {
            Ask::Stop(stop) => Ask::Stop(stop),
            Ask::Got(flash, rest) => flash_left(flash, user_path(realm, id), rest),
        }
    }
}

/// The form is held against the account, and what differs is edited.
pub open spec fn form_processed(
    user: SessionUserModel,
    realm: Seq<char>,
    id: Seq<char>,
    form: EditFormModel,
    replies: Seq<ReplyModel>,
) -> Asked<OutcomeModel> {
    match user_asked(ProviderCallModel::GetUser { realm, id }, replies) {
        Ask::Stop(stop) => Ask::Stop(stop),
        Ask::Got(existing, rest) => match groups_asked(
            ProviderCallModel::GetUserGroups { realm, user_id: id },
            rest,
        ) {
            Ask::Stop(stop) => Ask::Stop(stop),
            Ask::Got(groups, rest) => match teams_asked(realm, rest) {
                Ask::Stop(stop) => Ask::Stop(stop),
                Ask::Got(teams, rest) => edits_made(
                    user,
                    realm,
                    id,
                    existing.username,
                    form_edits(form, existing, groups, teams),
                    rest,
                ),
            },
        },
    }
}

/// A user is edited by whoever may work in the realm.
#[verifier::opaque]
pub open spec fn user_edited(
    config: ConfigModel,
    realm: Seq<char>,
    id: Seq<char>,
    form: EditFormModel,
    replies: Seq<ReplyModel>,
) -> Asked<OutcomeModel> {
    match session_form_checked(config, form.csrf_token, replies) {
        Ask::Stop(stop) => Ask::Stop(stop),
        Ask::Got(user, rest) => if may_reach(config, user, realm) {
            form_processed(user, realm, id, form, rest)
        } else {
            Ask::Stop(failed(AppErrorModel::Forbidden))
        },
    }
}

/// Edits a user: an admin's edit takes effect, an operator's is put into the queue.
pub fn edit_user(
    cursor: &mut Replies<'_>,
    config: &Config,
    realm: &str,
    id: &str,
    form: &EditForm,
) -> (r: Result<Outcome, Step>)
    ensures
        answers(
            r,
            final(cursor).rest(),
            user_edited(config.deep_view(), realm@, id@, form.deep_view(), old(cursor).rest()),
        ),
{
    proof {
        reveal(user_edited);
    }
    let user = check_session_form(cursor, config, form.csrf_token.as_str())?;
    check_realm_access(config, &user, realm)?;
    let existing = ask_user(
        cursor,
        ProviderCall::GetUser { realm: realm.to_string(), id: id.to_string() },
    )?;
    let groups = ask_groups(
        cursor,
        ProviderCall::GetUserGroups { realm: realm.to_string(), user_id: id.to_string() },
    )?;
    let teams = load_team_groups(cursor, realm)?;
    let diff = collect_edits(form, &existing, &groups, &teams);
    if diff.len() == 0 {
        return Ok(Outcome::Redirect { to: path_of_user(realm, id) });
    }
    let flash = propose_or_apply(
        cursor,
        user.role,
        EditRequest {
            realm,
            user_id: id,
            username: existing.username.as_str(),
            actor: user.username.as_str(),
            diff,
        },
    )?;
    leave_flash(cursor, flash, path_of_user(realm, id))
}

} // verus!
