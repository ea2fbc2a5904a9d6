//! The users of a realm: listing and showing them.

pub mod access;
pub mod bulk;
pub mod create;
pub mod edit;

use crate::asks::{
    ask, ask_changes, ask_flash, ask_form_token, ask_groups, ask_realms, ask_roles, ask_user,
    ask_users, asked, changes_asked, fail_session, fail_unexpected, failed, flash_asked,
    form_token_asked, groups_asked, realms_asked, roles_asked, session_failed, unexpected,
    user_asked, users_asked,
};
use crate::config::{Config, ConfigModel};
use crate::effects::{
    Asked, Effect, EffectModel, Outcome, OutcomeModel, Replies, Reply, ReplyModel, Step,
};
use crate::error::AppErrorModel;
use crate::lists::{at_most, retain, shorten, sort, sorted};
use crate::outside::{lowercase, lowercase_of};
use crate::pages::{
    NewUserPage, NewUserPageModel, Page, PageModel, RealmUser, RealmUserModel, SimilarUser,
    SimilarUserModel, UserPage, UserPageModel, UsersPage, UsersPageModel,
};
use crate::provider::{
    users_like, GroupModel, ListUsersQuery, ProviderCall, ProviderCallModel, RealmModel,
    Role as RealmRole, RoleModel, User, UserModel,
};
use crate::routes::{
    ask_badge, badge_asked, check_realm_access, choose_realm, chosen_realm, frame, framed,
    home_realm, load_team_groups, may_reach, operator_realm, redirected, require_session,
    session_required, teams_asked,
};
use crate::routes::users::edit::{current_team, find_current_team};
use crate::script::{answers, Ask};
use crate::session::{Role, SessionUserModel};
use crate::storage::{PendingChange, PendingChangeModel, StorageCall, StorageCallModel};
use crate::text::{chars_of, in_order, is_in_order, same, trim, trimmed};
use vstd::prelude::*;

verus! {

// ── The start page ───────────────────────────────────────────────────────────

/// Whoever is signed in is sent to the users, and anyone else to the login page.
#[verifier::opaque]
pub open spec fn started(replies: Seq<ReplyModel>) -> Asked<OutcomeModel> {
    match asked(EffectModel::LoadUser, replies) {
        Ask::Stop(stop) => Ask::Stop(stop),
        Ask::Got(ReplyModel::User(Some(_)), rest) => Ask::Got(redirected("/users"@), rest),
        Ask::Got(ReplyModel::User(None), rest) => Ask::Got(redirected("/auth/login"@), rest),
        Ask::Got(ReplyModel::Failed(message), _) => Ask::Stop(session_failed(message)),
        Ask::Got(_, _) => Ask::Stop(unexpected()),
    }
}

/// Sends the browser to where it can start.
pub fn index(cursor: &mut Replies<'_>) -> (r: Result<Outcome, Step>)
    ensures
        answers(r, final(cursor).rest(), started(old(cursor).rest())),
{
    proof {
        reveal(started);
    }
    match ask(cursor, Effect::LoadUser)? {
        Reply::User(Some(_)) => Ok(Outcome::Redirect { to: "/users".to_string() }),
        Reply::User(None) => Ok(Outcome::Redirect { to: "/auth/login".to_string() }),
        Reply::Failed(message) => Err(fail_session(message.as_str())),
        _ => Err(fail_unexpected()),
    }
}

// ── The list ─────────────────────────────────────────────────────────────────

/// Which users a list is to show.
#[derive(Debug, PartialEq)]
pub struct ListQuery {
    pub realm: Option<String>,
    pub search: Option<String>,
}

/// What a [`ListQuery`] stands for in contracts.
#[verifier::ext_equal]
pub struct ListQueryModel {
    pub realm: Option<Seq<char>>,
    pub search: Option<Seq<char>>,
}

impl DeepView for ListQuery {
    type V = ListQueryModel;

    open spec fn deep_view(&self) -> ListQueryModel {
        ListQueryModel {
            realm: self.realm.deep_view(),
            search: self.search.deep_view(),
        }
    }
}

impl Clone for ListQuery {
    fn clone(&self) -> (r: Self)
        ensures
            r.deep_view() == self.deep_view(),
    {
        ListQuery {
            realm: self.realm.clone(),
            search: self.search.clone(),
        }
    }
}

/// Users with the realm that they are in.
pub open spec fn in_realm(users: Seq<UserModel>, realm: Seq<char>) -> Seq<RealmUserModel> {
    users.map_values(|user: UserModel| RealmUserModel { user, realm })
}

fn place_in_realm(users: &Vec<User>, realm: &str) -> (r: Vec<RealmUser>)
    ensures
        r.deep_view() == in_realm(users.deep_view(), realm@),
{
    let ghost whole = users.deep_view();
    let mut r: Vec<RealmUser> = Vec::new();
    let mut i: usize = 0;
    while i < users.len()
        invariant
            i <= users@.len(),
            whole == users.deep_view(),
            r.deep_view() =~= in_realm(whole.take(i as int), realm@),
        decreases users@.len() - i,
    {
        let ghost before = r.deep_view();
        let one = RealmUser { user: users[i].clone(), realm: realm.to_string() };
        let ghost model = one.deep_view();
        r.push(one);
        assert(r.deep_view() =~= before.push(model));
        i = i + 1;
    }
    assert(whole.take(i as int) =~= whole);
    r
}

/// The users of a realm are shown, the first five hundred that match.
pub open spec fn realm_shown(
    user: SessionUserModel,
    realms: Seq<RealmModel>,
    realm: Seq<char>,
    search: Option<Seq<char>>,
    replies: Seq<ReplyModel>,
) -> Asked<OutcomeModel> {
    match users_asked(
        ProviderCallModel::ListUsers { realm, query: users_like(search, 500) },
        replies,
    ) {
        Ask::Stop(stop) => Ask::Stop(stop),
        Ask::Got(users, rest) => match teams_asked(realm, rest) {
            Ask::Stop(stop) => Ask::Stop(stop),
            Ask::Got(teams, rest) => match badge_asked(user, rest) {
                Ask::Stop(stop) => Ask::Stop(stop),
                Ask::Got(pending, rest) => match form_token_asked(rest) {
                    Ask::Stop(stop) => Ask::Stop(stop),
                    Ask::Got(csrf, rest) => Ask::Got(
                        OutcomeModel::Page(
                            PageModel::Users(
                                UsersPageModel {
                                    frame: framed(user, "users"@, Some(pending)),
                                    realms,
                                    current_realm: realm,
                                    users: in_realm(users, realm),
                                    team_groups: teams,
                                    search,
                                    csrf,
                                },
                            ),
                        ),
                        rest,
                    ),
                },
            },
        },
    }
}

/// The list of users. Operators see their own realm only.
#[verifier::opaque]
pub open spec fn users_listed(
    config: ConfigModel,
    query: ListQueryModel,
    replies: Seq<ReplyModel>,
) -> Asked<OutcomeModel> {
    match session_required(config, replies) {
        Ask::Stop(stop) => Ask::Stop(stop),
        Ask::Got(user, rest) => match realms_asked(ProviderCallModel::ListRealms, rest) {
            Ask::Stop(stop) => Ask::Stop(stop),
            Ask::Got(realms, rest) => {
                let realm = chosen_realm(query.realm, realms);
                if may_reach(config, user, realm) {
                    realm_shown(user, realms, realm, query.search, rest)
                } else {
                    Ask::Stop(failed(AppErrorModel::Forbidden))
                }
            },
        },
    }
}

/// Lists the users of a realm.
pub fn list_users(cursor: &mut Replies<'_>, config: &Config, query: &ListQuery) -> (r: Result<
    Outcome,
    Step,
>)
    ensures
        answers(
            r,
            final(cursor).rest(),
            users_listed(config.deep_view(), query.deep_view(), old(cursor).rest()),
        ),
{
    proof {
        reveal(users_listed);
    }
    let user = require_session(cursor, config)?;
    let realms = ask_realms(cursor, ProviderCall::ListRealms)?;
    let realm = choose_realm(&query.realm, &realms);
    check_realm_access(config, &user, realm.as_str())?;
    let all = ListUsersQuery::new().page(0, 500);
    let wanted = match &query.search {
        Some(text) => all.search(text.clone()),
        None => all,
    };
    let users = ask_users(cursor, ProviderCall::ListUsers { realm: realm.clone(), query: wanted })?;
    let team_groups = load_team_groups(cursor, realm.as_str())?;
    let pending = ask_badge(cursor, &user)?;
    let csrf = ask_form_token(cursor)?;
    let users = place_in_realm(&users, realm.as_str());
    Ok(
        Outcome::Page(
            Page::Users(
                UsersPage {
                    frame: frame(user, "users", Some(pending)),
                    realms,
                    current_realm: realm,
                    users,
                    team_groups,
                    search: query.search.clone(),
                    csrf,
                },
            ),
        ),
    )
}

// ── Similar names ────────────────────────────────────────────────────────────

/// A name that is about to be given to a new user.
#[derive(Debug, PartialEq)]
pub struct SimilarQuery {
    pub realm: String,
    pub q: String,
}

/// What a [`SimilarQuery`] stands for in contracts.
#[verifier::ext_equal]
pub struct SimilarQueryModel {
    pub realm: Seq<char>,
    pub q: Seq<char>,
}

impl DeepView for SimilarQuery {
    type V = SimilarQueryModel;

    open spec fn deep_view(&self) -> SimilarQueryModel {
        SimilarQueryModel {
            realm: self.realm.deep_view(),
            q: self.q.deep_view(),
        }
    }
}

impl Clone for SimilarQuery {
    fn clone(&self) -> (r: Self)
        ensures
            r.deep_view() == self.deep_view(),
    {
        SimilarQuery {
            realm: self.realm.clone(),
            q: self.q.clone(),
        }
    }
}

/// What is shown of users with similar names.
pub open spec fn similar_users(users: Seq<UserModel>, realm: Seq<char>) -> Seq<SimilarUserModel> {
    users.map_values(
        |user: UserModel|
            SimilarUserModel {
                id: user.id,
                realm,
                username: user.username,
                full_name: user.full_name(),
            },
    )
}

fn describe_similar(users: &Vec<User>, realm: &str) -> (r: Vec<SimilarUser>)
    ensures
        r.deep_view() == similar_users(users.deep_view(), realm@),
{
    let ghost whole = users.deep_view();
    let mut r: Vec<SimilarUser> = Vec::new();
    let mut i: usize = 0;
    while i < users.len()
        invariant
            i <= users@.len(),
            whole == users.deep_view(),
            r.deep_view() =~= similar_users(whole.take(i as int), realm@),
        decreases users@.len() - i,
    {
        let ghost before = r.deep_view();
        let one = SimilarUser {
            id: users[i].id.clone(),
            realm: realm.to_string(),
            username: users[i].username.clone(),
            full_name: users[i].full_name(),
        };
        let ghost model = one.deep_view();
        r.push(one);
        assert(r.deep_view() =~= before.push(model));
        i = i + 1;
    }
    assert(whole.take(i as int) =~= whole);
    r
}

/// The first five users that match a name of at least two characters.
pub open spec fn similar_asked(
    realm: Seq<char>,
    name: Seq<char>,
    replies: Seq<ReplyModel>,
) -> Asked<OutcomeModel> {
    if name.len() < 2 {
        Ask::Got(OutcomeModel::Similar(Seq::empty()), replies)
    } else {
        match users_asked(
            ProviderCallModel::ListUsers { realm, query: users_like(Some(name), 100) },
            replies,
        ) {
            Ask::Stop(stop) => Ask::Stop(stop),
            Ask::Got(users, rest) => Ask::Got(
                OutcomeModel::Similar(similar_users(at_most(users, 5), realm)),
                rest,
            ),
        }
    }
}

/// Whoever creates a user is told of accounts with a similar name.
#[verifier::opaque]
pub open spec fn similar_checked(
    config: ConfigModel,
    query: SimilarQueryModel,
    replies: Seq<ReplyModel>,
) -> Asked<OutcomeModel> {
    match session_required(config, replies) {
        Ask::Stop(stop) => Ask::Stop(stop),
        Ask::Got(user, rest) => if may_reach(config, user, query.realm) {
            similar_asked(query.realm, trimmed(query.q), rest)
        } else {
            Ask::Stop(failed(AppErrorModel::Forbidden))
        },
    }
}

/// Looks for users with a similar name.
pub fn check_similar(cursor: &mut Replies<'_>, config: &Config, query: &SimilarQuery) -> (r: Result<
    Outcome,
    Step,
>)
    ensures
        answers(
            r,
            final(cursor).rest(),
            similar_checked(config.deep_view(), query.deep_view(), old(cursor).rest()),
        ),
{
    proof {
        reveal(similar_checked);
    }
    let user = require_session(cursor, config)?;
    check_realm_access(config, &user, query.realm.as_str())?;
    let name = trim(query.q.as_str());
    if chars_of(name.as_str()).len() < 2 {
        let none: Vec<SimilarUser> = Vec::new();
        assert(none.deep_view() =~= Seq::empty());
        return Ok(Outcome::Similar(none));
    }
    let users = ask_users(
        cursor,
        ProviderCall::ListUsers {
            realm: query.realm.clone(),
            query: ListUsersQuery::new().search(name),
        },
    )?;
    let some = shorten(users, 5);
    Ok(Outcome::Similar(describe_similar(&some, query.realm.as_str())))
}

// ── One user ─────────────────────────────────────────────────────────────────

/// Whether a role with this id is among `roles`.
pub open spec fn holds_role(roles: Seq<RoleModel>, id: Seq<char>) -> bool {
    exists|i: int| 0 <= i < roles.len() && (#[trigger] roles[i]).id == id
}

fn has_role(roles: &Vec<RealmRole>, id: &str) -> (r: bool)
    ensures
        r == holds_role(roles.deep_view(), id@),
{
    let ghost all = roles.deep_view();
    let mut i: usize = 0;
    while i < roles.len()
        invariant
            i <= roles@.len(),
            all == roles.deep_view(),
            forall|j: int| 0 <= j < i ==> (#[trigger] all[j]).id != id@,
        decreases roles@.len() - i,
    {
        if same(roles[i].id.as_str(), id) {
            assert(all[i as int].id == id@);
            return true;
        }
        i = i + 1;
    }
    false
}

/// The order of roles by name, upper and lower case alike.
pub open spec fn by_folded_name() -> spec_fn(RoleModel, RoleModel) -> bool {
    |a: RoleModel, b: RoleModel| in_order(lowercase_of(a.name), lowercase_of(b.name))
}

/// The roles that a user does not have, in the order of their names.
pub open spec fn available_roles(all: Seq<RoleModel>, assigned: Seq<RoleModel>) -> Seq<RoleModel> {
    sorted(all.filter(|role: RoleModel| !holds_role(assigned, role.id)), by_folded_name())
}

fn collect_available(all: Vec<RealmRole>, assigned: &Vec<RealmRole>) -> (r: Vec<RealmRole>)
    ensures
        r.deep_view() == available_roles(all.deep_view(), assigned.deep_view()),
{
    let ghost held = assigned.deep_view();
    let ghost wanted = |role: RoleModel| !holds_role(held, role.id);
    let is_free = |role: &RealmRole| -> (b: bool)
        ensures
            b == wanted(role.deep_view()),
        { !has_role(assigned, role.id.as_str()) };
    let free = retain(all, is_free, Ghost(wanted));
    let ghost leq = by_folded_name();
    let ordered = |x: &RealmRole, y: &RealmRole| -> (b: bool)
        ensures
            b == leq(x.deep_view(), y.deep_view()),
        { is_in_order(lowercase(x.name.as_str()).as_str(), lowercase(y.name.as_str()).as_str()) };
    sort(free, ordered, Ghost(leq))
}

/// The changes of one user.
pub open spec fn changes_of(changes: Seq<PendingChangeModel>, user_id: Seq<char>) -> Seq<
    PendingChangeModel,
> {
    changes.filter(|c: PendingChangeModel| c.user_id == user_id)
}

fn keep_changes_of(changes: Vec<PendingChange>, user_id: &str) -> (r: Vec<PendingChange>)
    ensures
        r.deep_view() == changes_of(changes.deep_view(), user_id@),
{
    let ghost wanted = |c: PendingChangeModel| c.user_id == user_id@;
    let is_about = |c: &PendingChange| -> (b: bool)
        ensures
            b == wanted(c.deep_view()),
        { same(c.user_id.as_str(), user_id) };
    retain(changes, is_about, Ghost(wanted))
}

/// What the identity provider knows of a user, and of the realm around them.
#[verifier::ext_equal]
pub struct Dossier {
    pub subject: UserModel,
    pub groups: Seq<GroupModel>,
    pub roles: Seq<RoleModel>,
    pub all_groups: Seq<GroupModel>,
    pub all_roles: Seq<RoleModel>,
    pub teams: Seq<GroupModel>,
}

/// A user, their groups and their roles are read.
pub open spec fn member_asked(realm: Seq<char>, id: Seq<char>, replies: Seq<ReplyModel>) -> Asked<
    (UserModel, Seq<GroupModel>, Seq<RoleModel>),
> {
    match user_asked(ProviderCallModel::GetUser { realm, id }, replies) {
        Ask::Stop(stop) => Ask::Stop(stop),
        Ask::Got(subject, rest) => match groups_asked(
            ProviderCallModel::GetUserGroups { realm, user_id: id },
            rest,
        ) {
            Ask::Stop(stop) => Ask::Stop(stop),
            Ask::Got(groups, rest) => match roles_asked(
                ProviderCallModel::GetUserRealmRoles { realm, user_id: id },
                rest,
            ) {
                Ask::Stop(stop) => Ask::Stop(stop),
                Ask::Got(roles, rest) => Ask::Got((subject, groups, roles), rest),
            },
        },
    }
}

/// What the identity provider knows of a user, and of the realm around them, is read.
pub open spec fn dossier_asked(realm: Seq<char>, id: Seq<char>, replies: Seq<ReplyModel>) -> Asked<
    Dossier,
> {
    match member_asked(realm, id, replies) {
        Ask::Stop(stop) => Ask::Stop(stop),
        Ask::Got((subject, groups, roles), rest) => match groups_asked(
            ProviderCallModel::ListGroups { realm },
            rest,
        ) {
            Ask::Stop(stop) => Ask::Stop(stop),
            Ask::Got(all_groups, rest) => match roles_asked(
                ProviderCallModel::ListRealmRoles { realm },
                rest,
            ) {
                Ask::Stop(stop) => Ask::Stop(stop),
                Ask::Got(all_roles, rest) => match teams_asked(realm, rest) {
                    Ask::Stop(stop) => Ask::Stop(stop),
                    Ask::Got(teams, rest) => Ask::Got(
                        Dossier { subject, groups, roles, all_groups, all_roles, teams },
                        rest,
                    ),
                },
            },
        },
    }
}

/// A user is shown.
pub open spec fn dossier_shown(
    user: SessionUserModel,
    realm: Seq<char>,
    id: Seq<char>,
    known: Dossier,
    replies: Seq<ReplyModel>,
) -> Asked<OutcomeModel> {
    match changes_asked(StorageCallModel::ListPendingChanges, replies) {
        Ask::Stop(stop) => Ask::Stop(stop),
        Ask::Got(changes, rest) => match form_token_asked(rest) {
            Ask::Stop(stop) => Ask::Stop(stop),
            Ask::Got(csrf, rest) => match flash_asked(rest) {
                Ask::Stop(stop) => Ask::Stop(stop),
                Ask::Got(flash, rest) => match badge_asked(user, rest) {
                    Ask::Stop(stop) => Ask::Stop(stop),
                    Ask::Got(pending, rest) => Ask::Got(
                        OutcomeModel::Page(
                            PageModel::User(
                                UserPageModel {
                                    frame: framed(user, "users"@, Some(pending)),
                                    realm,
                                    subject: known.subject,
                                    groups: known.groups,
                                    roles: known.roles,
                                    all_groups: known.all_groups,
                                    available_roles: available_roles(
                                        known.all_roles,
                                        known.roles,
                                    ),
                                    pending: changes_of(changes, id),
                                    team_groups: known.teams,
                                    current_team_group_id: current_team(
                                        known.groups,
                                        known.teams,
                                    ),
                                    csrf,
                                    flash,
                                },
                            ),
                        ),
                        rest,
                    ),
                },
            },
        },
    }
}

/// A user is shown to whoever may work in the realm.
#[verifier::opaque]
pub open spec fn user_shown(
    config: ConfigModel,
    realm: Seq<char>,
    id: Seq<char>,
    replies: Seq<ReplyModel>,
) -> Asked<OutcomeModel> {
    match session_required(config, replies) {
        Ask::Stop(stop) => Ask::Stop(stop),
        Ask::Got(user, rest) => if may_reach(config, user, realm) {
            match dossier_asked(realm, id, rest) {
                Ask::Stop(stop) => Ask::Stop(stop),
                Ask::Got(known, rest) => dossier_shown(user, realm, id, known, rest),
            }
        } else {
            Ask::Stop(failed(AppErrorModel::Forbidden))
        },
    }
}

/// Shows a user.
pub fn user_detail(cursor: &mut Replies<'_>, config: &Config, realm: &str, id: &str) -> (r: Result<
    Outcome,
    Step,
>)
    ensures
        answers(
            r,
            final(cursor).rest(),
            user_shown(config.deep_view(), realm@, id@, old(cursor).rest()),
        ),
{
    proof {
        reveal(user_shown);
    }
    let user = require_session(cursor, config)?;
    check_realm_access(config, &user, realm)?;
    let subject = ask_user(
        cursor,
        ProviderCall::GetUser { realm: realm.to_string(), id: id.to_string() },
    )?;
    let groups = ask_groups(
        cursor,
        ProviderCall::GetUserGroups { realm: realm.to_string(), user_id: id.to_string() },
    )?;
    let roles = ask_roles(
        cursor,
        ProviderCall::GetUserRealmRoles { realm: realm.to_string(), user_id: id.to_string() },
    )?;
    let all_groups = ask_groups(cursor, ProviderCall::ListGroups { realm: realm.to_string() })?;
    let all_roles = ask_roles(cursor, ProviderCall::ListRealmRoles { realm: realm.to_string() })?;
    let team_groups = load_team_groups(cursor, realm)?;
    let changes = ask_changes(cursor, StorageCall::ListPendingChanges)?;
    let csrf = ask_form_token(cursor)?;
    let flash = ask_flash(cursor)?;
    let pending_count = ask_badge(cursor, &user)?;
    let current_team_group_id = find_current_team(&groups, &team_groups);
    let available_roles = collect_available(all_roles, &roles);
    let pending = keep_changes_of(changes, id);
    Ok(
        Outcome::Page(
            Page::User(
                UserPage {
                    frame: frame(user, "users", Some(pending_count)),
                    realm: realm.to_string(),
                    subject,
                    groups,
                    roles,
                    all_groups,
                    available_roles,
                    pending,
                    team_groups,
                    current_team_group_id,
                    csrf,
                    flash,
                },
            ),
        ),
    )
}

// ── The form for a new user ──────────────────────────────────────────────────

/// The realm of a new user: an admin may choose it.
pub open spec fn new_user_realm(
    config: ConfigModel,
    user: SessionUserModel,
    named: Option<Seq<char>>,
    realms: Seq<RealmModel>,
) -> Seq<char> {
    if user.role == Role::Admin {
        chosen_realm(named, realms)
    } else {
        home_realm(config)
    }
}

/// The form for a user in a realm.
pub open spec fn form_shown(
    user: SessionUserModel,
    realms: Seq<RealmModel>,
    realm: Seq<char>,
    replies: Seq<ReplyModel>,
) -> Asked<OutcomeModel> {
    match teams_asked(realm, replies) {
        Ask::Stop(stop) => Ask::Stop(stop),
        Ask::Got(teams, rest) => match form_token_asked(rest) {
            Ask::Stop(stop) => Ask::Stop(stop),
            Ask::Got(csrf, rest) => match badge_asked(user, rest) {
                Ask::Stop(stop) => Ask::Stop(stop),
                Ask::Got(pending, rest) => Ask::Got(
                    OutcomeModel::Page(
                        PageModel::NewUser(
                            NewUserPageModel {
                                frame: framed(user, "users"@, Some(pending)),
                                realms,
                                current_realm: realm,
                                team_groups: teams,
                                csrf,
                            },
                        ),
                    ),
                    rest,
                ),
            },
        },
    }
}

/// The form for a new user.
#[verifier::opaque]
pub open spec fn new_user_shown(
    config: ConfigModel,
    query: ListQueryModel,
    replies: Seq<ReplyModel>,
) -> Asked<OutcomeModel> {
    match session_required(config, replies) {
        Ask::Stop(stop) => Ask::Stop(stop),
        Ask::Got(user, rest) => match realms_asked(ProviderCallModel::ListRealms, rest) {
            Ask::Stop(stop) => Ask::Stop(stop),
            Ask::Got(realms, rest) => form_shown(
                user,
                realms,
                new_user_realm(config, user, query.realm, realms),
                rest,
            ),
        },
    }
}

/// Shows the form for a new user.
pub fn new_user_form(cursor: &mut Replies<'_>, config: &Config, query: &ListQuery) -> (r: Result<
    Outcome,
    Step,
>)
    ensures
        answers(
            r,
            final(cursor).rest(),
            new_user_shown(config.deep_view(), query.deep_view(), old(cursor).rest()),
        ),
{
    proof {
        reveal(new_user_shown);
    }
    let user = require_session(cursor, config)?;
    let realms = ask_realms(cursor, ProviderCall::ListRealms)?;
    let realm = if user.role.is_admin() {
        choose_realm(&query.realm, &realms)
    } else {
        operator_realm(config)
    };
    let team_groups = load_team_groups(cursor, realm.as_str())?;
    let csrf = ask_form_token(cursor)?;
    let pending = ask_badge(cursor, &user)?;
    Ok(
        Outcome::Page(
            Page::NewUser(
                NewUserPage {
                    frame: frame(user, "users", Some(pending)),
                    realms,
                    current_realm: realm,
                    team_groups,
                    csrf,
                },
            ),
        ),
    )
}

} // verus!
