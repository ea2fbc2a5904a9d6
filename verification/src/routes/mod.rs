//! What the portal does with each request.

pub mod admin;
pub mod audit;
pub mod auth;
pub mod changes;
pub mod clients;
pub mod dashboard;
pub mod emergency;
pub mod profile;
pub mod teams;
pub mod users;

use crate::asks::{
    any_asked, ask, ask_any, ask_csrf, ask_groups, ask_roles, ask_store, asked, csrf_asked, fail,
    failed, groups_asked, roles_asked, store_asked,
};
use crate::config::{Config, ConfigModel};
use crate::effects::{
    Asked, Effect, EffectModel, Outcome, OutcomeModel, Replies, Reply, ReplyModel, Step,
};
use crate::error::{AppError, AppErrorModel};
use crate::lists::{find, first, first_where, sort, sorted};
use crate::pages::{Frame, FrameModel};
use crate::provider::{
    Group, GroupModel, ProviderCall, ProviderCallModel, Realm, RealmModel, Role as RealmRole,
    RoleModel,
};
use crate::script::{answers, Ask};
use crate::session::{role_of, Flash, FlashModel, Role, SessionUser, SessionUserModel};
use crate::storage::{StorageAnswer, StorageAnswerModel, StorageCall, StorageCallModel};
use crate::text::{in_order, is_in_order, last_segment, last_segment_of, same};
use vstd::prelude::*;

verus! {

// ── Who asks ─────────────────────────────────────────────────────────────────

/// The names of a list of roles.
pub open spec fn role_names(roles: Seq<RoleModel>) -> Seq<Seq<char>> {
    roles.map_values(|r: RoleModel| r.name)
}

fn names_of(roles: &Vec<RealmRole>) -> (r: Vec<String>)
    ensures
        r.deep_view() == role_names(roles.deep_view()),
{
    let mut r: Vec<String> = Vec::new();
    let mut i: usize = 0;
    while i < roles.len()
        invariant
            i <= roles@.len(),
            r.deep_view() =~= role_names(roles.deep_view().take(i as int)),
        decreases roles@.len() - i,
    {
        let ghost before = r.deep_view();
        let name = roles[i].name.clone();
        let ghost model = name@;
        r.push(name);
        assert(r.deep_view() =~= before.push(model));
        i = i + 1;
    }
    assert(roles.deep_view().take(i as int) =~= roles.deep_view());
    r
}

/// The realm that users sign in to: the last segment of the issuer's address.
pub open spec fn home_realm(config: ConfigModel) -> Seq<char> {
    last_segment(config.oidc_issuer)
}

/// The realm that operators work in.
pub fn operator_realm(config: &Config) -> (r: String)
    ensures
        r@ == home_realm(config.deep_view()),
{
    last_segment_of(config.oidc_issuer.as_str())
}

/// The user that the session holds; without one, nobody is signed in.
pub open spec fn session_user_asked(replies: Seq<ReplyModel>) -> Asked<SessionUserModel> {
    match asked(EffectModel::LoadUser, replies) {
        Ask::Stop(stop) => Ask::Stop(stop),
        Ask::Got(ReplyModel::User(Some(user)), rest) => Ask::Got(user, rest),
        Ask::Got(_, _) => Ask::Stop(failed(AppErrorModel::Unauthenticated)),
    }
}

fn ask_session_user(cursor: &mut Replies<'_>) -> (r: Result<SessionUser, Step>)
    ensures
        answers(r, final(cursor).rest(), session_user_asked(old(cursor).rest())),
{
    match ask(cursor, Effect::LoadUser)? {
        Reply::User(Some(user)) => Ok(user.clone()),
        _ => Err(fail(AppError::Unauthenticated)),
    }
}

/// The session's user with the role that their realm roles grant now. A role that changed is
/// written back to the session.
pub open spec fn role_refreshed(
    user: SessionUserModel,
    role: Role,
    replies: Seq<ReplyModel>,
) -> Asked<SessionUserModel> {
    if role == user.role {
        Ask::Got(user, replies)
    } else {
        let fresh = SessionUserModel { role, ..user };
        match store_asked(EffectModel::StoreUser(fresh), replies) {
            Ask::Stop(stop) => Ask::Stop(stop),
            Ask::Got(_, rest) => Ask::Got(fresh, rest),
        }
    }
}

/// A request goes on for a signed-in user whose realm roles, read anew, still grant a role;
/// the session of one whose roles do not is ended.
#[verifier::opaque]
pub open spec fn session_required(config: ConfigModel, replies: Seq<ReplyModel>) -> Asked<
    SessionUserModel,
> {
    match session_user_asked(replies) {
        Ask::Stop(stop) => Ask::Stop(stop),
        Ask::Got(user, rest) => match roles_asked(
            ProviderCallModel::GetUserEffectiveRealmRoles {
                realm: home_realm(config),
                user_id: user.sub,
            },
            rest,
        ) {
            Ask::Stop(stop) => Ask::Stop(stop),
            Ask::Got(roles, rest) => match role_of(
                role_names(roles),
                config.role_admin,
                config.role_operator,
            ) {
                Some(role) => role_refreshed(user, role, rest),
                None => match any_asked(EffectModel::EndSession, rest) {
                    Ask::Stop(stop) => Ask::Stop(stop),
                    Ask::Got(_, _) => Ask::Stop(failed(AppErrorModel::Forbidden)),
                },
            },
        },
    }
}

/// Lets a request go on for a signed-in user. The role is read from the identity provider on
/// every call, so that one that was revoked there stops working at once.
pub fn require_session(cursor: &mut Replies<'_>, config: &Config) -> (r: Result<SessionUser, Step>)
    ensures
        answers(
            r,
            final(cursor).rest(),
            session_required(config.deep_view(), old(cursor).rest()),
        ),
{
    proof {
        reveal(session_required);
    }
    let mut user = ask_session_user(cursor)?;
    let roles = ask_roles(
        cursor,
        ProviderCall::GetUserEffectiveRealmRoles {
            realm: operator_realm(config),
            user_id: user.sub.clone(),
        },
    )?;
    let names = names_of(&roles);
    assert(names.deep_view() =~= role_names(roles.deep_view()));
    let slice = names.as_slice();
    assert(slice.deep_view() =~= names.deep_view());
    match Role::from_claims(slice, config.role_admin.as_str(), config.role_operator.as_str()) {
        Some(role) => {
            if role != user.role {
                user.role = role;
                ask_store(cursor, Effect::StoreUser(user.clone()))?;
            }
            Ok(user)
        },
        None => {
            ask_any(cursor, Effect::EndSession)?;
            Err(fail(AppError::Forbidden))
        },
    }
}

/// A request goes on for an admin.
pub open spec fn admin_required(config: ConfigModel, replies: Seq<ReplyModel>) -> Asked<
    SessionUserModel,
> {
    match session_required(config, replies) {
        Ask::Stop(stop) => Ask::Stop(stop),
        Ask::Got(user, rest) => if user.role == Role::Admin {
            Ask::Got(user, rest)
        } else {
            Ask::Stop(failed(AppErrorModel::Forbidden))
        },
    }
}

/// Lets a request go on for an admin.
pub fn require_admin(cursor: &mut Replies<'_>, config: &Config) -> (r: Result<SessionUser, Step>)
    ensures
        answers(r, final(cursor).rest(), admin_required(config.deep_view(), old(cursor).rest())),
{
    let user = require_session(cursor, config)?;
    if user.role.is_admin() {
        Ok(user)
    } else {
        Err(fail(AppError::Forbidden))
    }
}

/// A form of a signed-in user counts with the session's token.
#[verifier::opaque]
pub open spec fn session_form_checked(
    config: ConfigModel,
    token: Seq<char>,
    replies: Seq<ReplyModel>,
) -> Asked<SessionUserModel> {
    match session_required(config, replies) {
        Ask::Stop(stop) => Ask::Stop(stop),
        Ask::Got(user, rest) => match csrf_asked(token, rest) {
            Ask::Stop(stop) => Ask::Stop(stop),
            Ask::Got(_, rest) => Ask::Got(user, rest),
        },
    }
}

pub(crate) fn check_session_form(cursor: &mut Replies<'_>, config: &Config, token: &str) -> (r:
    Result<SessionUser, Step>)
    ensures
        answers(
            r,
            final(cursor).rest(),
            session_form_checked(config.deep_view(), token@, old(cursor).rest()),
        ),
{
    proof {
        reveal(session_form_checked);
    }
    let user = require_session(cursor, config)?;
    ask_csrf(cursor, token)?;
    Ok(user)
}

/// A form of an admin counts with the session's token.
#[verifier::opaque]
pub open spec fn admin_form_checked(
    config: ConfigModel,
    token: Seq<char>,
    replies: Seq<ReplyModel>,
) -> Asked<SessionUserModel> {
    match admin_required(config, replies) {
        Ask::Stop(stop) => Ask::Stop(stop),
        Ask::Got(user, rest) => match csrf_asked(token, rest) {
            Ask::Stop(stop) => Ask::Stop(stop),
            Ask::Got(_, rest) => Ask::Got(user, rest),
        },
    }
}

pub(crate) fn check_admin_form(cursor: &mut Replies<'_>, config: &Config, token: &str) -> (r:
    Result<SessionUser, Step>)
    ensures
        answers(
            r,
            final(cursor).rest(),
            admin_form_checked(config.deep_view(), token@, old(cursor).rest()),
        ),
{
    proof {
        reveal(admin_form_checked);
    }
    let user = require_admin(cursor, config)?;
    ask_csrf(cursor, token)?;
    Ok(user)
}

// ── Which realm ──────────────────────────────────────────────────────────────

/// Admins reach every realm, operators the one they sign in to.
pub open spec fn may_reach(config: ConfigModel, user: SessionUserModel, realm: Seq<char>) -> bool {
    user.role == Role::Admin || realm == home_realm(config)
}

/// Whether a user may work in a realm.
pub fn reaches(config: &Config, user: &SessionUser, realm: &str) -> (r: bool)
    ensures
        r == may_reach(config.deep_view(), user.deep_view(), realm@),
{
    user.role.is_admin() || same(realm, operator_realm(config).as_str())
}

/// Refuses a realm that a user may not work in.
pub fn check_realm_access(config: &Config, user: &SessionUser, realm: &str) -> (r: Result<(), Step>)
    ensures
        may_reach(config.deep_view(), user.deep_view(), realm@) ==> r == Ok::<(), Step>(()),
        !may_reach(config.deep_view(), user.deep_view(), realm@) ==> (r matches Err(stop)
            && stop.deep_view() == failed(AppErrorModel::Forbidden)),
{
    if reaches(config, user, realm) {
        Ok(())
    } else {
        Err(fail(AppError::Forbidden))
    }
}

/// The realm that a query names, or else the first one.
pub open spec fn chosen_realm(named: Option<Seq<char>>, realms: Seq<RealmModel>) -> Seq<char> {
    match named {
        Some(realm) => realm,
        None => match first(realms) {
            Some(realm) => realm.name,
            None => Seq::empty(),
        },
    }
}

pub(crate) fn choose_realm(named: &Option<String>, realms: &Vec<Realm>) -> (r: String)
    ensures
        r@ == chosen_realm(named.deep_view(), realms.deep_view()),
{
    match named {
        Some(realm) => realm.clone(),
        None => if realms.len() > 0 {
            realms[0].name.clone()
        } else {
            String::new()
        },
    }
}

// ── What pages share ─────────────────────────────────────────────────────────

/// The order of groups by name.
pub open spec fn by_name() -> spec_fn(GroupModel, GroupModel) -> bool {
    |a: GroupModel, b: GroupModel| in_order(a.name, b.name)
}

/// The groups of a realm, in the order of their names.
pub open spec fn teams_asked(realm: Seq<char>, replies: Seq<ReplyModel>) -> Asked<
    Seq<GroupModel>,
> {
    match groups_asked(ProviderCallModel::ListGroups { realm }, replies) {
        Ask::Stop(stop) => Ask::Stop(stop),
        Ask::Got(groups, rest) => Ask::Got(sorted(groups, by_name()), rest),
    }
}

pub(crate) fn sort_by_name(groups: Vec<Group>) -> (r: Vec<Group>)
    ensures
        r.deep_view() == sorted(groups.deep_view(), by_name()),
{
    let ghost leq = by_name();
    let ordered = |x: &Group, y: &Group| -> (b: bool)
        ensures
            b == leq(x.deep_view(), y.deep_view()),
        { is_in_order(x.name.as_str(), y.name.as_str()) };
    sort(groups, ordered, Ghost(leq))
}

/// Lists the groups of a realm in the order of their names.
pub fn load_team_groups(cursor: &mut Replies<'_>, realm: &str) -> (r: Result<Vec<Group>, Step>)
    ensures
        answers(r, final(cursor).rest(), teams_asked(realm@, old(cursor).rest())),
{
    let groups = ask_groups(cursor, ProviderCall::ListGroups { realm: realm.to_string() })?;
    Ok(sort_by_name(groups))
}

/// The number of changes that wait for an admin; none, where they cannot be listed.
pub open spec fn pending_asked(replies: Seq<ReplyModel>) -> Asked<usize> {
    match asked(EffectModel::Storage(StorageCallModel::ListPendingChanges), replies) {
        Ask::Stop(stop) => Ask::Stop(stop),
        Ask::Got(ReplyModel::Storage(StorageAnswerModel::Changes(changes)), rest) => Ask::Got(
            changes.len() as usize,
            rest,
        ),
        Ask::Got(_, rest) => Ask::Got(0, rest),
    }
}

/// Counts the changes that wait for an admin.
pub fn pending_changes_count(cursor: &mut Replies<'_>) -> (r: Result<usize, Step>)
    ensures
        answers(r, final(cursor).rest(), pending_asked(old(cursor).rest())),
{
    match ask(cursor, Effect::Storage(StorageCall::ListPendingChanges))? {
        Reply::Storage(StorageAnswer::Changes(changes)) => Ok(changes.len()),
        _ => Ok(0),
    }
}

/// The number of waiting changes for an admin, zero for an operator.
pub open spec fn badge_asked(user: SessionUserModel, replies: Seq<ReplyModel>) -> Asked<usize> {
    if user.role == Role::Admin {
        pending_asked(replies)
    } else {
        Ask::Got(0, replies)
    }
}

pub(crate) fn ask_badge(cursor: &mut Replies<'_>, user: &SessionUser) -> (r: Result<usize, Step>)
    ensures
        answers(r, final(cursor).rest(), badge_asked(user.deep_view(), old(cursor).rest())),
{
    if user.role.is_admin() {
        pending_changes_count(cursor)
    } else {
        Ok(0)
    }
}

/// What a page shows around its contents.
pub open spec fn framed(
    user: SessionUserModel,
    active_tab: Seq<char>,
    pending_count: Option<usize>,
) -> FrameModel {
    FrameModel { user, is_admin: user.role == Role::Admin, active_tab, pending_count }
}

pub(crate) fn frame(user: SessionUser, active_tab: &str, pending_count: Option<usize>) -> (r: Frame)
    ensures
        r.deep_view() == framed(user.deep_view(), active_tab@, pending_count),
{
    let is_admin = user.role.is_admin();
    Frame { user, is_admin, active_tab: active_tab.to_string(), pending_count }
}

// ── How requests end ─────────────────────────────────────────────────────────

/// The browser is sent to another page.
pub open spec fn redirected(to: Seq<char>) -> OutcomeModel {
    OutcomeModel::Redirect { to }
}

/// A message is left for the next page, and the browser sent there.
pub open spec fn flash_left(flash: FlashModel, to: Seq<char>, replies: Seq<ReplyModel>) -> Asked<
    OutcomeModel,
> {
    match store_asked(EffectModel::StoreFlash(flash), replies) {
        Ask::Stop(stop) => Ask::Stop(stop),
        Ask::Got(_, rest) => Ask::Got(redirected(to), rest),
    }
}

pub(crate) fn leave_flash(cursor: &mut Replies<'_>, flash: Flash, to: String) -> (r: Result<
    Outcome,
    Step,
>)
    ensures
        answers(r, final(cursor).rest(), flash_left(flash.deep_view(), to@, old(cursor).rest())),
{
    ask_store(cursor, Effect::StoreFlash(flash))?;
    Ok(Outcome::Redirect { to })
}

/// The page of a user.
pub open spec fn user_path(realm: Seq<char>, id: Seq<char>) -> Seq<char> {
    "/users/"@ + realm + "/"@ + id
}

pub(crate) fn path_of_user(realm: &str, id: &str) -> (r: String)
    ensures
        r@ == user_path(realm@, id@),
{
    "/users/".to_string().concat(realm).concat("/").concat(id)
}

// ── Groups ───────────────────────────────────────────────────────────────────

/// Whether a group with this id is among `groups`.
pub open spec fn holds_group(groups: Seq<GroupModel>, id: Seq<char>) -> bool {
    exists|i: int| 0 <= i < groups.len() && (#[trigger] groups[i]).id == id
}

pub(crate) fn has_group(groups: &Vec<Group>, id: &str) -> (r: bool)
    ensures
        r == holds_group(groups.deep_view(), id@),
{
    let ghost all = groups.deep_view();
    let mut i: usize = 0;
    while i < groups.len()
        invariant
            i <= groups@.len(),
            all == groups.deep_view(),
            forall|j: int| 0 <= j < i ==> (#[trigger] all[j]).id != id@,
        decreases groups@.len() - i,
    {
        if same(groups[i].id.as_str(), id) {
            assert(all[i as int].id == id@);
            return true;
        }
        i = i + 1;
    }
    false
}

/// The group with this id.
pub open spec fn group_with(groups: Seq<GroupModel>, id: Seq<char>) -> Option<GroupModel> {
    first_where(groups, |g: GroupModel| g.id == id)
}

pub(crate) fn find_group<'a>(groups: &'a Vec<Group>, id: &str) -> (r: Option<&'a Group>)
    ensures
        r.deep_view() == group_with(groups.deep_view(), id@),
{
    let ghost wanted = |g: GroupModel| g.id == id@;
    let has_id = |g: &Group| -> (b: bool)
        ensures
            b == wanted(g.deep_view()),
        { same(g.id.as_str(), id) };
    find(groups, has_id, Ghost(wanted))
}

} // verus!
