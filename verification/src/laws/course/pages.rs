//! The pages: what is looked up for each, and what it shows.

use super::{
    first_user_named, groups_found, leads_to, lemma_first, lemma_none, lemma_signed_in_goes_on,
    refused, roles_found, signed_in, user_found, users_found,
};
use super::edits::team_is;
use crate::config::ConfigModel;
use crate::effects::{EffectModel, OutcomeModel, ReplyModel, StepModel};
use crate::error::AppErrorModel;
use crate::laws::performs;
use crate::lists::sorted;
use crate::pages::{
    AuditPageModel, ClientPageModel, ClientsPageModel, FrameModel, NewUserPageModel, PageModel,
    ProfilePageModel, RealmUserModel, SimilarUserModel, UserPageModel, UsersPageModel,
};
use crate::portal::{response, settled, RequestModel};
use crate::provider::{
    AppClientModel, GroupModel, ListUsersQueryModel, ProviderAnswerModel, ProviderCallModel,
    RealmModel, RoleModel, UserModel,
};
use crate::routes::{by_name, holds_group, home_realm};
use crate::routes::audit::{audit_listed, AuditQueryModel};
use crate::routes::auth::login_shown;
use crate::routes::clients::{client_shown, clients_listed, secret_revealed, RealmQueryModel};
use crate::routes::dashboard::newest_first;
use crate::routes::emergency::issuer_realm;
use crate::routes::profile::profile_shown;
use crate::routes::teams::teams_listed;
use crate::routes::users::{
    available_roles, by_folded_name, dossier_shown, holds_role, in_realm, new_user_shown, similar_checked,
    similar_users, started, user_shown, users_listed, Dossier, ListQueryModel, SimilarQueryModel,
};
use crate::routes::users::edit::current_team;
use crate::session::{FlashModel, Role, SessionUserModel};
use crate::storage::{AuditEntryModel, PendingChangeModel, StorageAnswerModel, StorageCallModel};
use crate::text::trimmed;
use crate::time::Timestamp;
use vstd::prelude::*;

verus! {

broadcast use lemma_signed_in_goes_on;

/// The request has ended with a page.
pub open spec fn shows(
    config: ConfigModel,
    request: RequestModel,
    replies: Seq<ReplyModel>,
    page: PageModel,
) -> bool {
    response(config, request, replies) == StepModel::Finish(OutcomeModel::Page(page))
}

/// A call to the identity provider comes next.
pub open spec fn calls(
    config: ConfigModel,
    request: RequestModel,
    replies: Seq<ReplyModel>,
    call: ProviderCallModel,
) -> bool {
    performs(config, request, replies, EffectModel::Provider(call))
}

/// A call to the storage comes next.
pub open spec fn stores(
    config: ConfigModel,
    request: RequestModel,
    replies: Seq<ReplyModel>,
    call: StorageCallModel,
) -> bool {
    performs(config, request, replies, EffectModel::Storage(call))
}

/// The reply of the identity provider that holds these realms.
pub open spec fn realms_found(realms: Seq<RealmModel>) -> ReplyModel {
    ReplyModel::Provider(ProviderAnswerModel::Realms(realms))
}

/// The reply of the storage that holds these changes.
pub open spec fn changes_found(changes: Seq<PendingChangeModel>) -> ReplyModel {
    ReplyModel::Storage(StorageAnswerModel::Changes(changes))
}

/// The reply of the storage that holds these entries.
pub open spec fn entries_found(entries: Seq<AuditEntryModel>) -> ReplyModel {
    ReplyModel::Storage(StorageAnswerModel::Entries(entries))
}

/// The replies to a look at the waiting changes, which only an admin is told of.
pub open spec fn badge(user: SessionUserModel, waiting: Seq<PendingChangeModel>) -> Seq<
    ReplyModel,
> {
    if user.role == Role::Admin {
        seq![changes_found(waiting)]
    } else {
        Seq::empty()
    }
}

/// What every page shows around its contents: the user, and for an admin the number of changes
/// that wait.
pub open spec fn is_frame(
    frame: FrameModel,
    user: SessionUserModel,
    tab: Seq<char>,
    waiting: Seq<PendingChangeModel>,
) -> bool {
    &&& frame.user == user
    &&& frame.is_admin == (user.role == Role::Admin)
    &&& frame.active_tab == tab
    &&& frame.pending_count is Some
    &&& frame.pending_count->0 == (if user.role == Role::Admin {
        waiting.len()
    } else {
        0
    })
}

/// The replies to a token that is put into the session for the form of a page.
pub open spec fn form_ready(token: Seq<char>) -> Seq<ReplyModel> {
    seq![ReplyModel::Token(token), ReplyModel::Done]
}

/// A token is drawn for the form of a page, and put into the session.
pub open spec fn readies_form(
    config: ConfigModel,
    request: RequestModel,
    head: Seq<ReplyModel>,
    tail: Seq<ReplyModel>,
    token: Seq<char>,
) -> bool {
    &&& performs(config, request, head + tail, EffectModel::NewToken)
    &&& performs(
        config,
        request,
        head + tail.push(ReplyModel::Token(token)),
        EffectModel::StoreText { key: "csrf"@, value: token },
    )
}

/// The realm that a page is about: the one that is named, or else the first.
pub open spec fn realm_meant(
    named: Option<Seq<char>>,
    realms: Seq<RealmModel>,
    realm: Seq<char>,
) -> bool {
    if named is Some {
        realm == named->0
    } else if realms.len() > 0 {
        realm == realms[0].name
    } else {
        realm.len() == 0
    }
}

// ── Starting ─────────────────────────────────────────────────────────────────

/// Whoever is signed in starts with the users, anybody else with the login page, which names
/// the realm.
pub proof fn lemma_where_to_start(
    config: ConfigModel,
    user: SessionUserModel,
    head: Seq<ReplyModel>,
    problem: Seq<char>,
)
    ensures
        performs(config, RequestModel::Index, Seq::empty(), EffectModel::LoadUser),
        leads_to(config, RequestModel::Index, seq![ReplyModel::User(Some(user))], "/users"@),
        leads_to(config, RequestModel::Index, seq![ReplyModel::User(None)], "/auth/login"@),
        refused(
            config,
            RequestModel::Index,
            seq![ReplyModel::Failed(problem)],
            AppErrorModel::Internal("session error: "@ + problem),
        ),
        shows(
            config,
            RequestModel::Login,
            Seq::empty(),
            PageModel::Login { realm: home_realm(config) },
        ),
        signed_in(config, head, user) ==> leads_to(
            config,
            RequestModel::ListTeams,
            head,
            "/users"@,
        ),
{
    reveal(started);
    reveal(login_shown);
    reveal(teams_listed);
    assert(head + Seq::empty() =~= head);
}

// ── Users ────────────────────────────────────────────────────────────────────

/// The list of users shows the first five hundred of the realm that match, every one of them
/// with the realm, and the teams by their names. An operator sees the realm that users sign
/// in to, and no other.
pub proof fn lemma_the_list_of_users(
    config: ConfigModel,
    query: ListQueryModel,
    head: Seq<ReplyModel>,
    user: SessionUserModel,
    realms: Seq<RealmModel>,
    realm: Seq<char>,
    users: Seq<UserModel>,
    groups: Seq<GroupModel>,
    waiting: Seq<PendingChangeModel>,
    token: Seq<char>,
)
    requires
        signed_in(config, head, user),
        realm_meant(query.realm, realms, realm),
        waiting.len() <= usize::MAX,
    ensures
        ({
            let request = RequestModel::ListUsers(query);
            let t1 = seq![realms_found(realms)];
            let t2 = t1.push(users_found(users));
            let t3 = t2.push(groups_found(groups));
            let t4 = t3 + badge(user, waiting);
            let t5 = t4 + form_ready(token);
            &&& calls(config, request, head, ProviderCallModel::ListRealms)
            &&& if user.role == Role::Operator && realm != home_realm(config) {
                refused(config, request, head + t1, AppErrorModel::Forbidden)
            } else {
                &&& calls(
                    config,
                    request,
                    head + t1,
                    ProviderCallModel::ListUsers {
                        realm,
                        query: ListUsersQueryModel { search: query.search, offset: 0, max: 500 },
                    },
                )
                &&& calls(config, request, head + t2, ProviderCallModel::ListGroups { realm })
                &&& user.role == Role::Admin ==> stores(
                    config,
                    request,
                    head + t3,
                    StorageCallModel::ListPendingChanges,
                )
                &&& readies_form(config, request, head, t4, token)
                &&& response(config, request, head + t5) matches StepModel::Finish(
                    OutcomeModel::Page(PageModel::Users(page)),
                ) && {
                    &&& is_frame(page.frame, user, "users"@, waiting)
                    &&& page.realms == realms
                    &&& page.current_realm == realm
                    &&& page.users.len() == users.len()
                    &&& forall|i: int|
                        0 <= i < users.len() ==> #[trigger] page.users[i] == (RealmUserModel {
                            user: users[i],
                            realm,
                        })
                    &&& page.team_groups == sorted(groups, by_name())
                    &&& page.search == query.search
                    &&& page.csrf == token
                }
            }
        }),
{
    reveal(users_listed);
    assert(head + Seq::empty() =~= head);
    if query.realm is None && realms.len() == 0 {
        assert(realm =~= Seq::empty());
    }
}

/// The first and the last name of a user, as far as they are there; else the username.
pub open spec fn name_of(user: UserModel, name: Seq<char>) -> bool {
    if user.first_name is Some && user.last_name is Some {
        name == user.first_name->0 + " "@ + user.last_name->0
    } else if user.first_name is Some {
        name == user.first_name->0
    } else if user.last_name is Some {
        name == user.last_name->0
    } else {
        name == user.username
    }
}

/// Users with a similar name are looked for once two characters were typed; the first five are
/// named.
pub proof fn lemma_similar_users_are_named(
    config: ConfigModel,
    query: SimilarQueryModel,
    head: Seq<ReplyModel>,
    user: SessionUserModel,
    users: Seq<UserModel>,
)
    requires
        signed_in(config, head, user),
    ensures
        ({
            let request = RequestModel::CheckSimilar(query);
            let name = trimmed(query.q);
            if user.role == Role::Operator && query.realm != home_realm(config) {
                refused(config, request, head, AppErrorModel::Forbidden)
            } else if name.len() < 2 {
                response(config, request, head) == StepModel::Finish(
                    OutcomeModel::Similar(Seq::empty()),
                )
            } else {
                &&& calls(
                    config,
                    request,
                    head,
                    ProviderCallModel::ListUsers {
                        realm: query.realm,
                        query: ListUsersQueryModel { search: Some(name), offset: 0, max: 100 },
                    },
                )
                &&& response(
                    config,
                    request,
                    head + seq![users_found(users)],
                ) matches StepModel::Finish(OutcomeModel::Similar(named)) && {
                    &&& named.len() == (if users.len() < 5 {
                        users.len()
                    } else {
                        5
                    })
                    &&& forall|i: int|
                        0 <= i < named.len() ==> (#[trigger] named[i]).id == users[i].id
                            && named[i].realm == query.realm && named[i].username
                            == users[i].username && name_of(users[i], named[i].full_name)
                }
            }
        }),
{
    reveal(similar_checked);
    assert(head + Seq::empty() =~= head);
}

/// The form for a new user is for the realm that an admin names, and for an operator for the
/// one that users sign in to.
pub proof fn lemma_the_form_for_a_new_user(
    config: ConfigModel,
    query: ListQueryModel,
    head: Seq<ReplyModel>,
    user: SessionUserModel,
    realms: Seq<RealmModel>,
    realm: Seq<char>,
    groups: Seq<GroupModel>,
    token: Seq<char>,
    waiting: Seq<PendingChangeModel>,
)
    requires
        signed_in(config, head, user),
        user.role == Role::Admin ==> realm_meant(query.realm, realms, realm),
        user.role == Role::Operator ==> realm == home_realm(config),
        waiting.len() <= usize::MAX,
    ensures
        ({
            let request = RequestModel::NewUserForm(query);
            let t1 = seq![realms_found(realms)];
            let t2 = t1.push(groups_found(groups));
            let t3 = t2 + form_ready(token);
            &&& calls(config, request, head, ProviderCallModel::ListRealms)
            &&& calls(config, request, head + t1, ProviderCallModel::ListGroups { realm })
            &&& readies_form(config, request, head, t2, token)
            &&& user.role == Role::Admin ==> stores(
                config,
                request,
                head + t3,
                StorageCallModel::ListPendingChanges,
            )
            &&& response(
                config,
                request,
                head + (t3 + badge(user, waiting)),
            ) matches StepModel::Finish(OutcomeModel::Page(PageModel::NewUser(page))) && {
                &&& is_frame(page.frame, user, "users"@, waiting)
                &&& page.realms == realms
                &&& page.current_realm == realm
                &&& page.team_groups == sorted(groups, by_name())
                &&& page.csrf == token
            }
        }),
{
    reveal(new_user_shown);
    assert(head + Seq::empty() =~= head);
    if user.role == Role::Admin && query.realm is None && realms.len() == 0 {
        assert(realm =~= Seq::empty());
    }
}

/// A role is among some, by its id.
pub open spec fn is_among(roles: Seq<RoleModel>, id: Seq<char>) -> bool {
    exists|i: int| 0 <= i < roles.len() && (#[trigger] roles[i]).id == id
}

proof fn lemma_available(all: Seq<RoleModel>, assigned: Seq<RoleModel>)
    ensures
        available_roles(all, assigned) == sorted(
            all.filter(|role: RoleModel| !is_among(assigned, role.id)),
            by_folded_name(),
        ),
{
    let a = |role: RoleModel| !is_among(assigned, role.id);
    let b = |role: RoleModel| !holds_role(assigned, role.id);
    assert(a =~= b);
}

proof fn lemma_current_team(
    groups: Seq<GroupModel>,
    teams: Seq<GroupModel>,
    team: Option<Seq<char>>,
)
    requires
        team_is(groups, teams, team),
    ensures
        current_team(groups, teams) == team,
{
    let of_team = |g: GroupModel| holds_group(teams, g.id);
    assert forall|id: Seq<char>| super::edits::is_team(teams, id) == #[trigger] holds_group(
        teams,
        id,
    ) by {}
    match team {
        Some(id) => {
            let i = choose|i: int|
                0 <= i < groups.len() && (#[trigger] groups[i]).id == id && super::edits::is_team(
                    teams,
                    id,
                ) && forall|j: int|
                    0 <= j < i ==> !super::edits::is_team(teams, (#[trigger] groups[j]).id);
            assert forall|j: int| 0 <= j < i implies !of_team(#[trigger] groups[j]) by {
                assert(!super::edits::is_team(teams, groups[j].id));
            }
            lemma_first(groups, i, of_team);
        },
        None => {
            assert forall|j: int| 0 <= j < groups.len() implies !of_team(#[trigger] groups[j]) by {
                assert(!super::edits::is_team(teams, groups[j].id));
            }
            lemma_none(groups, of_team);
        },
    }
}

/// The replies to all that the identity provider is asked about a user.
pub open spec fn file_of(
    subject: UserModel,
    groups: Seq<GroupModel>,
    roles: Seq<RoleModel>,
    all_groups: Seq<GroupModel>,
    all_roles: Seq<RoleModel>,
    listed: Seq<GroupModel>,
) -> Seq<ReplyModel> {
    seq![
        user_found(subject),
        groups_found(groups),
        roles_found(roles),
        groups_found(all_groups),
        roles_found(all_roles),
        groups_found(listed),
    ]
}

/// For the page of a user, the identity provider is asked about their account, their groups
/// and their roles, and about all groups and roles of the realm.
pub proof fn lemma_users_are_looked_up(
    config: ConfigModel,
    realm: Seq<char>,
    id: Seq<char>,
    head: Seq<ReplyModel>,
    user: SessionUserModel,
    subject: UserModel,
    groups: Seq<GroupModel>,
    roles: Seq<RoleModel>,
    all_groups: Seq<GroupModel>,
    all_roles: Seq<RoleModel>,
    listed: Seq<GroupModel>,
)
    requires
        signed_in(config, head, user),
        user.role == Role::Admin || realm == home_realm(config),
    ensures
        ({
            let request = RequestModel::UserDetail { realm, id };
            let known = file_of(subject, groups, roles, all_groups, all_roles, listed);
            &&& calls(config, request, head + known.take(0), ProviderCallModel::GetUser { realm, id })
            &&& calls(
                config,
                request,
                head + known.take(1),
                ProviderCallModel::GetUserGroups { realm, user_id: id },
            )
            &&& calls(
                config,
                request,
                head + known.take(2),
                ProviderCallModel::GetUserRealmRoles { realm, user_id: id },
            )
            &&& calls(config, request, head + known.take(3), ProviderCallModel::ListGroups { realm })
            &&& calls(
                config,
                request,
                head + known.take(4),
                ProviderCallModel::ListRealmRoles { realm },
            )
            &&& calls(config, request, head + known.take(5), ProviderCallModel::ListGroups { realm })
        }),
{
    reveal(user_shown);
}

proof fn lemma_file_is_read(
    config: ConfigModel,
    realm: Seq<char>,
    id: Seq<char>,
    head: Seq<ReplyModel>,
    user: SessionUserModel,
    subject: UserModel,
    groups: Seq<GroupModel>,
    roles: Seq<RoleModel>,
    all_groups: Seq<GroupModel>,
    all_roles: Seq<RoleModel>,
    listed: Seq<GroupModel>,
    tail: Seq<ReplyModel>,
)
    requires
        signed_in(config, head, user),
        user.role == Role::Admin || realm == home_realm(config),
    ensures
        response(
            config,
            RequestModel::UserDetail { realm, id },
            head + (file_of(subject, groups, roles, all_groups, all_roles, listed) + tail),
        ) == settled(
            dossier_shown(
                user,
                realm,
                id,
                Dossier {
                    subject,
                    groups,
                    roles,
                    all_groups,
                    all_roles,
                    teams: sorted(listed, by_name()),
                },
                tail,
            ),
        ),
{
    reveal(user_shown);
    let known = file_of(subject, groups, roles, all_groups, all_roles, listed);
    let all = known + tail;
    assert(all.skip(1).skip(1).skip(1).skip(1).skip(1).skip(1) =~= tail);
}

/// The page of a user shows their account, their groups and roles, the roles that they do not
/// have, the changes that wait for them, and their team.
pub proof fn lemma_the_page_of_a_user(
    config: ConfigModel,
    realm: Seq<char>,
    id: Seq<char>,
    head: Seq<ReplyModel>,
    user: SessionUserModel,
    subject: UserModel,
    groups: Seq<GroupModel>,
    roles: Seq<RoleModel>,
    all_groups: Seq<GroupModel>,
    all_roles: Seq<RoleModel>,
    listed: Seq<GroupModel>,
    team: Option<Seq<char>>,
    pending: Seq<PendingChangeModel>,
    token: Seq<char>,
    flash: Option<FlashModel>,
    waiting: Seq<PendingChangeModel>,
)
    requires
        signed_in(config, head, user),
        user.role == Role::Admin || realm == home_realm(config),
        team_is(groups, sorted(listed, by_name()), team),
        waiting.len() <= usize::MAX,
    ensures
        ({
            let request = RequestModel::UserDetail { realm, id };
            let known = file_of(subject, groups, roles, all_groups, all_roles, listed);
            let t1 = seq![changes_found(pending)];
            let t2 = t1 + form_ready(token);
            let t3 = t2.push(ReplyModel::Flash(flash));
            &&& stores(
                config,
                request,
                head + (known + Seq::empty()),
                StorageCallModel::ListPendingChanges,
            )
            &&& readies_form(config, request, head, known + t1, token)
            &&& performs(config, request, head + (known + t2), EffectModel::TakeFlash)
            &&& user.role == Role::Admin ==> stores(
                config,
                request,
                head + (known + t3),
                StorageCallModel::ListPendingChanges,
            )
            &&& response(
                config,
                request,
                head + (known + (t3 + badge(user, waiting))),
            ) matches StepModel::Finish(OutcomeModel::Page(PageModel::User(page))) && {
                &&& is_frame(page.frame, user, "users"@, waiting)
                &&& page.realm == realm
                &&& page.subject == subject
                &&& page.groups == groups
                &&& page.roles == roles
                &&& page.all_groups == all_groups
                &&& page.available_roles == sorted(
                    all_roles.filter(|role: RoleModel| !is_among(roles, role.id)),
                    by_folded_name(),
                )
                &&& page.pending == pending.filter(|c: PendingChangeModel| c.user_id == id)
                &&& page.team_groups == sorted(listed, by_name())
                &&& page.current_team_group_id == team
                &&& page.csrf == token
                &&& page.flash == flash
            }
        }),
{
    lemma_available(all_roles, roles);
    lemma_current_team(groups, sorted(listed, by_name()), team);
    let known = file_of(subject, groups, roles, all_groups, all_roles, listed);
    let t1 = seq![changes_found(pending)];
    let drawn = t1.push(ReplyModel::Token(token));
    let t2 = t1 + form_ready(token);
    let t3 = t2.push(ReplyModel::Flash(flash));
    assert((known + t1).push(ReplyModel::Token(token)) =~= known + drawn);
    lemma_file_is_read(config, realm, id, head, user, subject, groups, roles, all_groups, all_roles, listed, Seq::empty());
    lemma_file_is_read(config, realm, id, head, user, subject, groups, roles, all_groups, all_roles, listed, t1);
    lemma_file_is_read(config, realm, id, head, user, subject, groups, roles, all_groups, all_roles, listed, drawn);
    lemma_file_is_read(config, realm, id, head, user, subject, groups, roles, all_groups, all_roles, listed, t2);
    lemma_file_is_read(config, realm, id, head, user, subject, groups, roles, all_groups, all_roles, listed, t3);
    lemma_file_is_read(config, realm, id, head, user, subject, groups, roles, all_groups, all_roles, listed, t3 + badge(user, waiting));
}

/// An operator is not shown users of another realm than the one that users sign in to.
pub proof fn lemma_operators_see_one_realm(
    config: ConfigModel,
    realm: Seq<char>,
    id: Seq<char>,
    head: Seq<ReplyModel>,
    user: SessionUserModel,
)
    requires
        signed_in(config, head, user),
        user.role == Role::Operator,
        realm != home_realm(config),
    ensures
        refused(config, RequestModel::UserDetail { realm, id }, head, AppErrorModel::Forbidden),
{
    reveal(user_shown);
    assert(head + Seq::empty() =~= head);
}

/// The profile shows the account with the name of whoever is signed in, with its roles and
/// groups, in the realm of the issuer.
pub proof fn lemma_the_profile(
    config: ConfigModel,
    head: Seq<ReplyModel>,
    user: SessionUserModel,
    users: Seq<UserModel>,
    i: int,
    roles: Seq<RoleModel>,
    groups: Seq<GroupModel>,
    waiting: Seq<PendingChangeModel>,
)
    requires
        signed_in(config, head, user),
        waiting.len() <= usize::MAX,
    ensures
        ({
            let request = RequestModel::Profile;
            let realm = issuer_realm(config);
            let t1 = seq![users_found(users)];
            let t2 = t1.push(roles_found(roles));
            let t3 = t2.push(groups_found(groups));
            &&& calls(
                config,
                request,
                head,
                ProviderCallModel::ListUsers {
                    realm,
                    query: ListUsersQueryModel {
                        search: Some(user.username),
                        offset: 0,
                        max: 100,
                    },
                },
            )
            &&& (forall|k: int|
                0 <= k < users.len() ==> (#[trigger] users[k]).username != user.username)
                ==> refused(
                config,
                request,
                head + t1,
                AppErrorModel::NotFound("user "@ + user.username),
            )
            &&& first_user_named(users, i, user.username) ==> {
                &&& calls(
                    config,
                    request,
                    head + t1,
                    ProviderCallModel::GetUserRealmRoles { realm, user_id: users[i].id },
                )
                &&& calls(
                    config,
                    request,
                    head + t2,
                    ProviderCallModel::GetUserGroups { realm, user_id: users[i].id },
                )
                &&& user.role == Role::Admin ==> stores(
                    config,
                    request,
                    head + t3,
                    StorageCallModel::ListPendingChanges,
                )
                &&& response(
                    config,
                    request,
                    head + (t3 + badge(user, waiting)),
                ) matches StepModel::Finish(OutcomeModel::Page(PageModel::Profile(page))) && {
                    &&& is_frame(page.frame, user, "profile"@, waiting)
                    &&& page.subject == users[i]
                    &&& page.roles == roles
                    &&& page.groups == groups
                    &&& page.realm == realm
                }
            }
        }),
{
    reveal(profile_shown);
    assert(head + Seq::empty() =~= head);
    let called = |each: UserModel| each.username == user.username;
    if first_user_named(users, i, user.username) {
        lemma_first(users, i, called);
    } else if forall|k: int|
        0 <= k < users.len() ==> (#[trigger] users[k]).username != user.username {
        lemma_none(users, called);
    }
}

// ── Clients ──────────────────────────────────────────────────────────────────

/// The clients of a realm are shown as they were found, and so are one client and its secret.
pub proof fn lemma_the_pages_of_clients(
    config: ConfigModel,
    query: RealmQueryModel,
    id: Seq<char>,
    head: Seq<ReplyModel>,
    user: SessionUserModel,
    realms: Seq<RealmModel>,
    realm: Seq<char>,
    clients: Seq<AppClientModel>,
    client: AppClientModel,
    secret: Option<Seq<char>>,
    token: Seq<char>,
    flash: Option<FlashModel>,
)
    requires
        signed_in(config, head, user),
        user.role == Role::Admin,
        realm_meant(query.realm, realms, realm),
    ensures
        ({
            let list = RequestModel::ListClients(query);
            let one = RequestModel::ClientDetail { realm, id };
            let reveal_one = RequestModel::RevealSecret { realm, id };
            let t1 = seq![realms_found(realms)];
            let t2 = t1.push(ReplyModel::Provider(ProviderAnswerModel::Clients(clients)));
            let s1 = seq![ReplyModel::Provider(ProviderAnswerModel::Client(client))];
            let s2 = s1 + form_ready(token);
            &&& calls(config, list, head, ProviderCallModel::ListRealms)
            &&& calls(config, list, head + t1, ProviderCallModel::ListClients { realm })
            &&& performs(config, list, head + t2, EffectModel::TakeFlash)
            &&& shows(
                config,
                list,
                head + t2.push(ReplyModel::Flash(flash)),
                PageModel::Clients(
                    ClientsPageModel {
                        frame: FrameModel {
                            user,
                            is_admin: true,
                            active_tab: "clients"@,
                            pending_count: None,
                        },
                        realms,
                        current_realm: realm,
                        clients,
                        flash,
                    },
                ),
            )
            &&& calls(config, one, head, ProviderCallModel::GetClient { realm, id })
            &&& readies_form(config, one, head, s1, token)
            &&& performs(config, one, head + s2, EffectModel::TakeFlash)
            &&& shows(
                config,
                one,
                head + s2.push(ReplyModel::Flash(flash)),
                PageModel::Client(
                    ClientPageModel {
                        frame: FrameModel {
                            user,
                            is_admin: true,
                            active_tab: "clients"@,
                            pending_count: None,
                        },
                        realm,
                        client,
                        csrf: token,
                        flash,
                    },
                ),
            )
            &&& calls(config, reveal_one, head, ProviderCallModel::GetClientSecret { realm, id })
            &&& response(
                config,
                reveal_one,
                head + seq![ReplyModel::Provider(ProviderAnswerModel::Secret(secret))],
            ) == StepModel::Finish(OutcomeModel::Secret(secret))
        }),
{
    reveal(clients_listed);
    reveal(client_shown);
    reveal(secret_revealed);
    assert(head + Seq::empty() =~= head);
    if query.realm is None && realms.len() == 0 {
        assert(realm =~= Seq::empty());
    }
}

// ── The log ──────────────────────────────────────────────────────────────────

/// The audit page shows all entries of the day that is named, or of today, the last one first.
pub proof fn lemma_the_audit_page(
    config: ConfigModel,
    query: AuditQueryModel,
    head: Seq<ReplyModel>,
    user: SessionUserModel,
    now: Timestamp,
    day: Seq<char>,
    entries: Seq<AuditEntryModel>,
    waiting: Seq<PendingChangeModel>,
)
    requires
        signed_in(config, head, user),
        user.role == Role::Admin,
        query.date is Some ==> day == query.date->0,
        query.date is None ==> crate::laws::records::day_of(now, day),
        waiting.len() <= usize::MAX,
    ensures
        ({
            let request = RequestModel::ListAudit(query);
            let t1 = seq![ReplyModel::Time(now)];
            let t2 = t1.push(entries_found(entries));
            &&& performs(config, request, head, EffectModel::ReadClock)
            &&& stores(config, request, head + t1, StorageCallModel::ListAudit { date: Some(day) })
            &&& stores(config, request, head + t2, StorageCallModel::ListPendingChanges)
            &&& response(
                config,
                request,
                head + t2.push(changes_found(waiting)),
            ) matches StepModel::Finish(OutcomeModel::Page(PageModel::Audit(page))) && {
                &&& is_frame(page.frame, user, "audit"@, waiting)
                &&& page.entries == sorted(entries, newest_first())
                &&& page.selected_date == day
            }
        }),
{
    reveal(audit_listed);
    assert(head + Seq::empty() =~= head);
    if query.date is None && crate::outside::utc_date(now.secs, now.nanos) is None {
        assert(day =~= Seq::empty());
    }
}

} // verus!
