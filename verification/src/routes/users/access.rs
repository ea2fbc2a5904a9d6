//! The roles and the password of a user.

use crate::asks::{
    ask_audit, ask_mutation, ask_roles, ask_user, audit_asked, fail, failed, mutation_asked,
    roles_asked, user_asked,
};
use crate::config::{Config, ConfigModel};
use crate::effects::{Asked, Outcome, OutcomeModel, Replies, ReplyModel, Step};
use crate::error::{AppError, AppErrorModel};
use crate::lists::{find, first_where};
use crate::provider::{ProviderCall, ProviderCallModel, Role as RealmRole, RoleModel};
use crate::routes::{
    admin_form_checked, check_admin_form, flash_left, leave_flash, path_of_user, user_path,
};
use crate::script::{answers, Ask};
use crate::session::{good_news, Flash, FlashModel};
use crate::text::{is_ticked, same, ticked};
use vstd::prelude::*;

verus! {

// ── Roles ────────────────────────────────────────────────────────────────────

/// The form for assigning a role.
#[derive(Debug, PartialEq)]
pub struct RoleAssignForm {
    pub csrf_token: String,
    pub role_id: String,
}

/// What a [`RoleAssignForm`] stands for in contracts.
#[verifier::ext_equal]
pub struct RoleAssignFormModel {
    pub csrf_token: Seq<char>,
    pub role_id: Seq<char>,
}

impl DeepView for RoleAssignForm {
    type V = RoleAssignFormModel;

    open spec fn deep_view(&self) -> RoleAssignFormModel {
        RoleAssignFormModel {
            csrf_token: self.csrf_token.deep_view(),
            role_id: self.role_id.deep_view(),
        }
    }
}

impl Clone for RoleAssignForm {
    fn clone(&self) -> (r: Self)
        ensures
            r.deep_view() == self.deep_view(),
    {
        RoleAssignForm {
            csrf_token: self.csrf_token.clone(),
            role_id: self.role_id.clone(),
        }
    }
}

/// The role with this id, which has to be one of the realm's.
pub open spec fn role_by_id_asked(
    realm: Seq<char>,
    id: Seq<char>,
    replies: Seq<ReplyModel>,
) -> Asked<RoleModel> {
    match roles_asked(ProviderCallModel::ListRealmRoles { realm }, replies) {
        Ask::Stop(stop) => Ask::Stop(stop),
        Ask::Got(roles, rest) => match first_where(roles, |role: RoleModel| role.id == id) {
            Some(role) => Ask::Got(role, rest),
            None => Ask::Stop(failed(AppErrorModel::NotFound("role "@ + id))),
        },
    }
}

fn ask_role_by_id(cursor: &mut Replies<'_>, realm: &str, id: &str) -> (r: Result<RealmRole, Step>)
    ensures
        answers(r, final(cursor).rest(), role_by_id_asked(realm@, id@, old(cursor).rest())),
{
    let roles = ask_roles(cursor, ProviderCall::ListRealmRoles { realm: realm.to_string() })?;
    let ghost wanted = |role: RoleModel| role.id == id@;
    let has_id = |role: &RealmRole| -> (b: bool)
        ensures
            b == wanted(role.deep_view()),
        { same(role.id.as_str(), id) };
    match find(&roles, has_id, Ghost(wanted)) {
        Some(role) => Ok(role.clone()),
        None => Err(fail(AppError::NotFound("role ".to_string().concat(id)))),
    }
}

/// The role with this name, which has to be one of the realm's.
pub open spec fn role_by_name_asked(
    realm: Seq<char>,
    name: Seq<char>,
    replies: Seq<ReplyModel>,
) -> Asked<RoleModel> {
    match roles_asked(ProviderCallModel::ListRealmRoles { realm }, replies) {
        Ask::Stop(stop) => Ask::Stop(stop),
        Ask::Got(roles, rest) => match first_where(roles, |role: RoleModel| role.name == name) {
            Some(role) => Ask::Got(role, rest),
            None => Ask::Stop(failed(AppErrorModel::NotFound("role "@ + name))),
        },
    }
}

pub(crate) fn find_role_named<'a>(roles: &'a Vec<RealmRole>, name: &str) -> (r: Option<
    &'a RealmRole,
>)
    ensures
        r.deep_view() == first_where(roles.deep_view(), |role: RoleModel| role.name == name@),
{
    let ghost wanted = |role: RoleModel| role.name == name@;
    let is_named = |role: &RealmRole| -> (b: bool)
        ensures
            b == wanted(role.deep_view()),
        { same(role.name.as_str(), name) };
    find(roles, is_named, Ghost(wanted))
}

pub(crate) fn ask_role_by_name(cursor: &mut Replies<'_>, realm: &str, name: &str) -> (r: Result<
    RealmRole,
    Step,
>)
    ensures
        answers(r, final(cursor).rest(), role_by_name_asked(realm@, name@, old(cursor).rest())),
{
    let roles = ask_roles(cursor, ProviderCall::ListRealmRoles { realm: realm.to_string() })?;
    match find_role_named(&roles, name) {
        Some(role) => Ok(role.clone()),
        None => Err(fail(AppError::NotFound("role ".to_string().concat(name)))),
    }
}

/// A change of a user is made at the identity provider, recorded and reported.
pub open spec fn change_recorded(
    call: ProviderCallModel,
    actor: Seq<char>,
    action: Seq<char>,
    realm: Seq<char>,
    target: Option<Seq<char>>,
    detail: Seq<char>,
    flash: FlashModel,
    to: Seq<char>,
    replies: Seq<ReplyModel>,
) -> Asked<OutcomeModel> {
    match mutation_asked(call, replies) {
        Ask::Stop(stop) => Ask::Stop(stop),
        Ask::Got(_, rest) => match audit_asked(actor, action, realm, target, detail, rest) {
            Ask::Stop(stop) => Ask::Stop(stop),
            Ask::Got(_, rest) => flash_left(flash, to, rest),
        },
    }
}

pub(crate) fn record_change(
    cursor: &mut Replies<'_>,
    call: ProviderCall,
    actor: &str,
    action: &str,
    realm: &str,
    target: Option<String>,
    detail: String,
    flash: Flash,
    to: String,
) -> (r: Result<Outcome, Step>)
    ensures
        answers(
            r,
            final(cursor).rest(),
            change_recorded(
                call.deep_view(),
                actor@,
                action@,
                realm@,
                target.deep_view(),
                detail@,
                flash.deep_view(),
                to@,
                old(cursor).rest(),
            ),
        ),
{
    ask_mutation(cursor, call)?;
    ask_audit(cursor, actor, action, realm, target, detail)?;
    leave_flash(cursor, flash, to)
}

/// An admin assigns a role of the realm to a user.
#[verifier::opaque]
pub open spec fn role_assigned(
    config: ConfigModel,
    realm: Seq<char>,
    user_id: Seq<char>,
    form: RoleAssignFormModel,
    replies: Seq<ReplyModel>,
) -> Asked<OutcomeModel> {
    match admin_form_checked(config, form.csrf_token, replies) {
        Ask::Stop(stop) => Ask::Stop(stop),
        Ask::Got(user, rest) => match role_by_id_asked(realm, form.role_id, rest) {
            Ask::Stop(stop) => Ask::Stop(stop),
            Ask::Got(role, rest) => change_recorded(
                ProviderCallModel::AssignRealmRole { realm, user_id, role },
                user.username,
                "assign_role"@,
                realm,
                Some(user_id),
                "role '"@ + role.name + "' assigned"@,
                good_news("Role '"@ + role.name + "' assigned."@),
                user_path(realm, user_id),
                rest,
            ),
        },
    }
}

/// Assigns a role to a user.
pub fn assign_role(
    cursor: &mut Replies<'_>,
    config: &Config,
    realm: &str,
    user_id: &str,
    form: &RoleAssignForm,
) -> (r: Result<Outcome, Step>)
    ensures
        answers(
            r,
            final(cursor).rest(),
            role_assigned(
                config.deep_view(),
                realm@,
                user_id@,
                form.deep_view(),
                old(cursor).rest(),
            ),
        ),
{
    proof {
        reveal(role_assigned);
    }
    let user = check_admin_form(cursor, config, form.csrf_token.as_str())?;
    let role = ask_role_by_id(cursor, realm, form.role_id.as_str())?;
    let detail = "role '".to_string().concat(role.name.as_str()).concat("' assigned");
    let flash = Flash::success(
        "Role '".to_string().concat(role.name.as_str()).concat("' assigned."),
    );
    record_change(
        cursor,
        ProviderCall::AssignRealmRole {
            realm: realm.to_string(),
            user_id: user_id.to_string(),
            role,
        },
        user.username.as_str(),
        "assign_role",
        realm,
        Some(user_id.to_string()),
        detail,
        flash,
        path_of_user(realm, user_id),
    )
}

/// The form for removing a role.
#[derive(Debug, PartialEq)]
pub struct RoleRemoveForm {
    pub csrf_token: String,
    pub role_id: String,
    pub role_name: String,
}

/// What a [`RoleRemoveForm`] stands for in contracts.
#[verifier::ext_equal]
pub struct RoleRemoveFormModel {
    pub csrf_token: Seq<char>,
    pub role_id: Seq<char>,
    pub role_name: Seq<char>,
}

impl DeepView for RoleRemoveForm {
    type V = RoleRemoveFormModel;

    open spec fn deep_view(&self) -> RoleRemoveFormModel {
        RoleRemoveFormModel {
            csrf_token: self.csrf_token.deep_view(),
            role_id: self.role_id.deep_view(),
            role_name: self.role_name.deep_view(),
        }
    }
}

impl Clone for RoleRemoveForm {
    fn clone(&self) -> (r: Self)
        ensures
            r.deep_view() == self.deep_view(),
    {
        RoleRemoveForm {
            csrf_token: self.csrf_token.clone(),
            role_id: self.role_id.clone(),
            role_name: self.role_name.clone(),
        }
    }
}

/// A role of which only the id and the name matter.
pub open spec fn bare_role(id: Seq<char>, name: Seq<char>) -> RoleModel {
    RoleModel { id, name, description: None, client_role: false }
}

pub(crate) fn new_bare_role(id: &str, name: &str) -> (r: RealmRole)
    ensures
        r.deep_view() == bare_role(id@, name@),
{
    RealmRole { id: id.to_string(), name: name.to_string(), description: None, client_role: false }
}

/// An admin removes a role from a user.
#[verifier::opaque]
pub open spec fn role_removed(
    config: ConfigModel,
    realm: Seq<char>,
    user_id: Seq<char>,
    form: RoleRemoveFormModel,
    replies: Seq<ReplyModel>,
) -> Asked<OutcomeModel> {
    match admin_form_checked(config, form.csrf_token, replies) {
        Ask::Stop(stop) => Ask::Stop(stop),
        Ask::Got(user, rest) => change_recorded(
            ProviderCallModel::RemoveRealmRole {
                realm,
                user_id,
                role: bare_role(form.role_id, form.role_name),
            },
            user.username,
            "remove_role"@,
            realm,
            Some(user_id),
            "role '"@ + form.role_name + "' removed"@,
            good_news("Role '"@ + form.role_name + "' removed."@),
            user_path(realm, user_id),
            rest,
        ),
    }
}

/// Removes a role from a user.
pub fn remove_role(
    cursor: &mut Replies<'_>,
    config: &Config,
    realm: &str,
    user_id: &str,
    form: &RoleRemoveForm,
) -> (r: Result<Outcome, Step>)
    ensures
        answers(
            r,
            final(cursor).rest(),
            role_removed(
                config.deep_view(),
                realm@,
                user_id@,
                form.deep_view(),
                old(cursor).rest(),
            ),
        ),
{
    proof {
        reveal(role_removed);
    }
    let user = check_admin_form(cursor, config, form.csrf_token.as_str())?;
    let detail = "role '".to_string().concat(form.role_name.as_str()).concat("' removed");
    let flash = Flash::success(
        "Role '".to_string().concat(form.role_name.as_str()).concat("' removed."),
    );
    record_change(
        cursor,
        ProviderCall::RemoveRealmRole {
            realm: realm.to_string(),
            user_id: user_id.to_string(),
            role: new_bare_role(form.role_id.as_str(), form.role_name.as_str()),
        },
        user.username.as_str(),
        "remove_role",
        realm,
        Some(user_id.to_string()),
        detail,
        flash,
        path_of_user(realm, user_id),
    )
}

// ── Password ─────────────────────────────────────────────────────────────────

/// The form for setting a password.
#[derive(Debug, PartialEq)]
pub struct SetPasswordForm {
    pub csrf_token: String,
    pub password: String,
    pub temporary: Option<String>,
}

/// What a [`SetPasswordForm`] stands for in contracts.
#[verifier::ext_equal]
pub struct SetPasswordFormModel {
    pub csrf_token: Seq<char>,
    pub password: Seq<char>,
    pub temporary: Option<Seq<char>>,
}

impl DeepView for SetPasswordForm {
    type V = SetPasswordFormModel;

    open spec fn deep_view(&self) -> SetPasswordFormModel {
        SetPasswordFormModel {
            csrf_token: self.csrf_token.deep_view(),
            password: self.password.deep_view(),
            temporary: self.temporary.deep_view(),
        }
    }
}

impl Clone for SetPasswordForm {
    fn clone(&self) -> (r: Self)
        ensures
            r.deep_view() == self.deep_view(),
    {
        SetPasswordForm {
            csrf_token: self.csrf_token.clone(),
            password: self.password.clone(),
            temporary: self.temporary.clone(),
        }
    }
}

/// What the audit log says of a new password.
pub open spec fn password_detail(temporary: bool) -> Seq<char> {
    if temporary {
        "temporary password set"@
    } else {
        "password set"@
    }
}

/// A password is set, recorded and reported.
pub open spec fn password_stored(
    actor: Seq<char>,
    realm: Seq<char>,
    id: Seq<char>,
    form: SetPasswordFormModel,
    replies: Seq<ReplyModel>,
) -> Asked<OutcomeModel> {
    let temporary = ticked(form.temporary);
    match mutation_asked(
        ProviderCallModel::SetUserPassword { realm, id, password: form.password, temporary },
        replies,
    ) {
        Ask::Stop(stop) => Ask::Stop(stop),
        Ask::Got(_, rest) => match user_asked(ProviderCallModel::GetUser { realm, id }, rest) {
            Ask::Stop(stop) => Ask::Stop(stop),
            Ask::Got(subject, rest) => match audit_asked(
                actor,
                "set_password"@,
                realm,
                Some(subject.username),
                password_detail(temporary),
                rest,
            ) {
                Ask::Stop(stop) => Ask::Stop(stop),
                Ask::Got(_, rest) => flash_left(
                    good_news("Password updated for "@ + subject.username + "."@),
                    user_path(realm, id),
                    rest,
                ),
            },
        },
    }
}

/// An admin sets the password of a user, which may not be empty.
#[verifier::opaque]
pub open spec fn password_set(
    config: ConfigModel,
    realm: Seq<char>,
    id: Seq<char>,
    form: SetPasswordFormModel,
    replies: Seq<ReplyModel>,
) -> Asked<OutcomeModel> {
    match admin_form_checked(config, form.csrf_token, replies) {
        Ask::Stop(stop) => Ask::Stop(stop),
        Ask::Got(user, rest) => if form.password.len() == 0 {
            Ask::Stop(failed(AppErrorModel::Internal("password cannot be empty"@)))
        } else {
            password_stored(user.username, realm, id, form, rest)
        },
    }
}

/// Sets the password of a user.
pub fn set_user_password(
    cursor: &mut Replies<'_>,
    config: &Config,
    realm: &str,
    id: &str,
    form: &SetPasswordForm,
) -> (r: Result<Outcome, Step>)
    ensures
        answers(
            r,
            final(cursor).rest(),
            password_set(config.deep_view(), realm@, id@, form.deep_view(), old(cursor).rest()),
        ),
{
    proof {
        reveal(password_set);
    }
    let user = check_admin_form(cursor, config, form.csrf_token.as_str())?;
    if form.password.as_str().is_empty() {
        return Err(fail(AppError::Internal("password cannot be empty".to_string())));
    }
    let temporary = is_ticked(&form.temporary);
    ask_mutation(
        cursor,
        ProviderCall::SetUserPassword {
            realm: realm.to_string(),
            id: id.to_string(),
            password: form.password.clone(),
            temporary,
        },
    )?;
    let subject = ask_user(
        cursor,
        ProviderCall::GetUser { realm: realm.to_string(), id: id.to_string() },
    )?;
    let detail = if temporary {
        "temporary password set".to_string()
    } else {
        "password set".to_string()
    };
    ask_audit(
        cursor,
        user.username.as_str(),
        "set_password",
        realm,
        Some(subject.username.clone()),
        detail,
    )?;
    leave_flash(
        cursor,
        Flash::success(
            "Password updated for ".to_string().concat(subject.username.as_str()).concat("."),
        ),
        path_of_user(realm, id),
    )
}

} // verus!
