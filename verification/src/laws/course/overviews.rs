//! The overview, and the page of those who may use the portal.

use super::{groups_found, lemma_signed_in, lemma_signed_in_goes_on, signed_in, users_found};
use super::pages::{
    badge, calls, changes_found, entries_found, is_frame, name_of, readies_form, realm_meant,
    realms_found, stores, form_ready,
};
use crate::attributes::first_value;
use crate::config::ConfigModel;
use crate::effects::{EffectModel, OutcomeModel, ReplyModel, StepModel};
use crate::laws::orders::lemma_texts_are_ordered;
use crate::laws::performs;
use crate::laws::records::day_of;
use crate::lists::{in_sequence, is_order, lemma_sorted, sorted};
use crate::pages::{AccessUserModel, AttentionUserModel, PageModel, TeamCountModel};
use crate::portal::{response, RequestModel};
use crate::provider::{
    GroupModel, ListUsersQueryModel, ProviderCallModel, RealmModel, UserModel,
};
use crate::routes::{admin_required, by_name, home_realm};
use crate::routes::admin::{
    access_list, admin_entries, admin_shown, holds_access, with_operators, AdminQueryModel,
};
use crate::routes::admin::by_username;
use crate::routes::dashboard::{
    attention_entries, attention_list, dashboard_shown, largest_first, member_count, newest_first, team_breakdown,
    team_counts,
};
use crate::script::Ask;
use crate::session::{FlashModel, Role, SessionUserModel};
use crate::storage::{AuditEntryModel, ChangeStatus, PendingChangeModel, StorageCallModel};
use crate::text::{in_order, lemma_in_order};
use crate::time::Timestamp;
use vstd::prelude::*;

verus! {

broadcast use lemma_signed_in_goes_on;

// ── Accounts that need attention ─────────────────────────────────────────────

/// The team that a user is listed under; an empty name counts as none.
pub open spec fn team_of(user: UserModel) -> Option<Seq<char>> {
    if user.attributes.dom().contains("team"@) && user.attributes["team"@].len() > 0
        && user.attributes["team"@][0].len() > 0 {
        Some(user.attributes["team"@][0])
    } else {
        None
    }
}

/// An account that looks unfinished or inconsistent: an active one without a team, or one
/// that is disabled and still has one.
pub open spec fn needs_attention(user: UserModel) -> bool {
    user.enabled == (team_of(user) is None)
}

/// What the overview says of an account that needs attention.
pub open spec fn tells_of(entry: AttentionUserModel, realm: Seq<char>, user: UserModel) -> bool {
    &&& entry.id == user.id
    &&& entry.realm == realm
    &&& entry.username == user.username
    &&& name_of(user, entry.full_name)
    &&& entry.reason == (if user.enabled {
        "No team assigned"@
    } else {
        "Disabled but still in a team"@
    })
}

/// The entries tell of the users that need attention, of each once.
pub open spec fn tell_of_all(
    entries: Seq<AttentionUserModel>,
    realm: Seq<char>,
    users: Seq<UserModel>,
) -> bool
    decreases users.len(),
{
    if users.len() == 0 {
        entries.len() == 0
    } else if needs_attention(users.last()) {
        entries.len() > 0 && tells_of(entries.last(), realm, users.last()) && tell_of_all(
            entries.drop_last(),
            realm,
            users.drop_last(),
        )
    } else {
        tell_of_all(entries, realm, users.drop_last())
    }
}

proof fn lemma_attention(realm: Seq<char>, users: Seq<UserModel>)
    ensures
        tell_of_all(attention_entries(realm, users), realm, users),
    decreases users.len(),
{
    if users.len() > 0 {
        let front = attention_entries(realm, users.drop_last());
        lemma_attention(realm, users.drop_last());
        if needs_attention(users.last()) {
            assert(attention_entries(realm, users).drop_last() =~= front);
        }
    }
}

/// A list is another one in the order of usernames.
pub open spec fn by_name_of_user(
    all: Seq<AttentionUserModel>,
    entries: Seq<AttentionUserModel>,
) -> bool {
    &&& all.to_multiset() == entries.to_multiset()
    &&& all.len() == entries.len()
    &&& forall|i: int, j: int|
        0 <= i <= j < all.len() ==> in_order(
            (#[trigger] all[i]).username,
            (#[trigger] all[j]).username,
        )
}

proof fn lemma_attention_list(realm: Seq<char>, users: Seq<UserModel>)
    ensures
        by_name_of_user(attention_list(realm, users), attention_entries(realm, users)),
{
    let order = crate::routes::dashboard::by_username();
    let all = attention_list(realm, users);
    lemma_texts_are_ordered();
    assert(is_order(order));
    lemma_sorted(attention_entries(realm, users), order);
    assert forall|i: int, j: int| 0 <= i <= j < all.len() implies in_order(
        (#[trigger] all[i]).username,
        (#[trigger] all[j]).username,
    ) by {
        assert(order(all[i], all[j]));
    }
}

// ── Teams ────────────────────────────────────────────────────────────────────

/// A user is listed under a team of this name.
pub open spec fn listed_under(user: UserModel, name: Seq<char>) -> bool {
    user.attributes.dom().contains("team"@) && user.attributes["team"@].len() > 0
        && user.attributes["team"@][0] == name
}

/// How many users are listed under a team.
pub open spec fn members(users: Seq<UserModel>, name: Seq<char>) -> nat
    decreases users.len(),
{
    if users.len() == 0 {
        0
    } else if listed_under(users.last(), name) {
        members(users.drop_last(), name) + 1
    } else {
        members(users.drop_last(), name)
    }
}

/// The counts are those of the teams that have members, of each once.
pub open spec fn count_all(
    counts: Seq<TeamCountModel>,
    users: Seq<UserModel>,
    teams: Seq<GroupModel>,
) -> bool
    decreases teams.len(),
{
    if teams.len() == 0 {
        counts.len() == 0
    } else if members(users, teams.last().name) > 0 {
        counts.len() > 0 && counts.last().name == teams.last().name && counts.last().count
            == members(users, teams.last().name) && count_all(
            counts.drop_last(),
            users,
            teams.drop_last(),
        )
    } else {
        count_all(counts, users, teams.drop_last())
    }
}

proof fn lemma_members(users: Seq<UserModel>, name: Seq<char>)
    ensures
        members(users, name) == member_count(users, name),
        members(users, name) <= users.len(),
    decreases users.len(),
{
    reveal(Seq::filter);
    if users.len() > 0 {
        lemma_members(users.drop_last(), name);
        assert((users.last().team() == Some(name)) == listed_under(users.last(), name));
    }
}

proof fn lemma_counts(users: Seq<UserModel>, teams: Seq<GroupModel>)
    requires
        users.len() <= usize::MAX,
    ensures
        count_all(team_counts(users, teams), users, teams),
    decreases teams.len(),
{
    if teams.len() > 0 {
        lemma_counts(users, teams.drop_last());
        lemma_members(users, teams.last().name);
        if members(users, teams.last().name) > 0 {
            assert(team_counts(users, teams).drop_last() =~= team_counts(users, teams.drop_last()));
        }
    }
}

/// A list of teams is another one with the largest first.
pub open spec fn by_size(all: Seq<TeamCountModel>, counts: Seq<TeamCountModel>) -> bool {
    &&& all.to_multiset() == counts.to_multiset()
    &&& forall|i: int, j: int|
        0 <= i <= j < all.len() ==> (#[trigger] all[i]).count >= (#[trigger] all[j]).count
}

proof fn lemma_by_size(users: Seq<UserModel>, teams: Seq<GroupModel>)
    ensures
        by_size(team_breakdown(users, teams), team_counts(users, teams)),
{
    let order = largest_first();
    let all = team_breakdown(users, teams);
    assert(is_order(order));
    lemma_sorted(team_counts(users, teams), order);
    assert forall|i: int, j: int| 0 <= i <= j < all.len() implies (#[trigger] all[i]).count >= (
    #[trigger] all[j]).count by {
        assert(order(all[i], all[j]));
    }
}

/// The teams that have members are shown with the number of them, the largest first.
pub open spec fn teams_are_counted(
    shown: Seq<TeamCountModel>,
    users: Seq<UserModel>,
    groups: Seq<GroupModel>,
) -> bool {
    exists|counts: Seq<TeamCountModel>|
        count_all(counts, users, sorted(groups, by_name())) && #[trigger] by_size(shown, counts)
}

proof fn lemma_teams_are_counted(users: Seq<UserModel>, groups: Seq<GroupModel>)
    requires
        users.len() <= usize::MAX,
    ensures
        teams_are_counted(team_breakdown(users, sorted(groups, by_name())), users, groups),
{
    let teams = sorted(groups, by_name());
    lemma_counts(users, teams);
    lemma_by_size(users, teams);
}

// ── The overview ─────────────────────────────────────────────────────────────

/// The replies to a look at today's log, which only an admin sees.
pub open spec fn log_replies(user: SessionUserModel, entries: Seq<AuditEntryModel>) -> Seq<
    ReplyModel,
> {
    if user.role == Role::Admin {
        seq![entries_found(entries)]
    } else {
        Seq::empty()
    }
}

/// The changes that a user sees: an admin sees all, an operator their own.
pub open spec fn changes_seen(user: SessionUserModel, changes: Seq<PendingChangeModel>) -> Seq<
    PendingChangeModel,
> {
    if user.role == Role::Admin {
        changes
    } else {
        changes.filter(|c: PendingChangeModel| c.proposed_by == user.username)
    }
}

/// How many of the changes that a user sees stand at a status.
pub open spec fn seen_at(
    user: SessionUserModel,
    changes: Seq<PendingChangeModel>,
    status: ChangeStatus,
) -> nat {
    changes_seen(user, changes).filter(|c: PendingChangeModel| c.status == status).len()
}

/// The overview counts the users of the realm that users sign in to, and the changes that the
/// user sees, by their status; it names the first ten accounts that need attention, the teams
/// by their size, and, to an admin, the last twelve entries of the log.
pub proof fn lemma_the_overview(
    config: ConfigModel,
    head: Seq<ReplyModel>,
    user: SessionUserModel,
    users: Seq<UserModel>,
    groups: Seq<GroupModel>,
    changes: Seq<PendingChangeModel>,
    entries: Seq<AuditEntryModel>,
    waiting: Seq<PendingChangeModel>,
)
    requires
        signed_in(config, head, user),
        users.len() <= usize::MAX,
        changes.len() <= usize::MAX,
        waiting.len() <= usize::MAX,
    ensures
        ({
            let request = RequestModel::Dashboard;
            let realm = home_realm(config);
            let t1 = seq![users_found(users)];
            let t2 = t1.push(groups_found(groups));
            let t3 = t2.push(changes_found(changes));
            let t4 = t3 + log_replies(user, entries);
            &&& calls(
                config,
                request,
                head,
                ProviderCallModel::ListUsers {
                    realm,
                    query: ListUsersQueryModel { search: None, offset: 0, max: 2000 },
                },
            )
            &&& calls(config, request, head + t1, ProviderCallModel::ListGroups { realm })
            &&& stores(config, request, head + t2, StorageCallModel::ListChanges)
            &&& user.role == Role::Admin ==> stores(
                config,
                request,
                head + t3,
                StorageCallModel::ListAudit { date: None },
            ) && stores(config, request, head + t4, StorageCallModel::ListPendingChanges)
            &&& response(
                config,
                request,
                head + (t4 + badge(user, waiting)),
            ) matches StepModel::Finish(OutcomeModel::Page(PageModel::Dashboard(page))) && {
                &&& is_frame(page.frame, user, "dashboard"@, waiting)
                &&& page.realm == realm
                &&& page.total_users == users.len()
                &&& page.active_users == users.filter(|each: UserModel| each.enabled).len()
                &&& page.disabled_users == users.len() - page.active_users
                &&& exists|all: Seq<AttentionUserModel>, told: Seq<AttentionUserModel>|
                    {
                        &&& tell_of_all(told, realm, users)
                        &&& #[trigger] by_name_of_user(all, told)
                        &&& page.attention_total == all.len()
                        &&& page.attention == (if all.len() > 10 {
                            all.take(10)
                        } else {
                            all
                        })
                    }
                &&& teams_are_counted(page.teams, users, groups)
                &&& page.req_pending == seen_at(user, changes, ChangeStatus::Pending)
                &&& page.req_approved == seen_at(user, changes, ChangeStatus::Approved)
                &&& page.req_rejected == seen_at(user, changes, ChangeStatus::Rejected)
                &&& if user.role == Role::Admin {
                    let all = sorted(entries, newest_first());
                    page.recent_audit == (if all.len() > 12 {
                        all.take(12)
                    } else {
                        all
                    })
                } else {
                    page.recent_audit.len() == 0
                }
            }
        }),
{
    reveal(dashboard_shown);
    assert(head + Seq::empty() =~= head);
    let realm = home_realm(config);
    lemma_attention(realm, users);
    lemma_attention_list(realm, users);
    lemma_teams_are_counted(users, groups);
    users.lemma_filter_len(|each: UserModel| each.enabled);
    lemma_attention_is_short(realm, users);
    lemma_seen_is_short(user, changes, ChangeStatus::Pending);
    lemma_seen_is_short(user, changes, ChangeStatus::Approved);
    lemma_seen_is_short(user, changes, ChangeStatus::Rejected);
    assert(by_name_of_user(attention_list(realm, users), attention_entries(realm, users)));
}

proof fn lemma_attention_is_short(realm: Seq<char>, users: Seq<UserModel>)
    ensures
        attention_entries(realm, users).len() <= users.len(),
    decreases users.len(),
{
    if users.len() > 0 {
        lemma_attention_is_short(realm, users.drop_last());
    }
}

proof fn lemma_seen_is_short(
    user: SessionUserModel,
    changes: Seq<PendingChangeModel>,
    status: ChangeStatus,
)
    ensures
        seen_at(user, changes, status) <= changes.len(),
{
    let own = |c: PendingChangeModel| c.proposed_by == user.username;
    let at = |c: PendingChangeModel| c.status == status;
    changes.lemma_filter_len(own);
    changes.lemma_filter_len(at);
    changes.filter(own).lemma_filter_len(at);
}

// ── Who may use the portal ───────────────────────────────────────────────────

/// An entry names a user who may use the portal, and as what.
pub open spec fn names_user(
    entry: AccessUserModel,
    user: UserModel,
    role: Seq<char>,
    realm: Seq<char>,
) -> bool {
    &&& entry.id == user.id
    &&& entry.username == user.username
    &&& name_of(user, entry.full_name)
    &&& entry.email == user.email
    &&& entry.role == role
    &&& entry.realm == realm
}

/// The entries name every admin, and behind them every operator who is not named yet.
pub open spec fn names_all(
    entries: Seq<AccessUserModel>,
    admins: Seq<UserModel>,
    operators: Seq<UserModel>,
    realm: Seq<char>,
) -> bool
    decreases operators.len(),
{
    if operators.len() == 0 {
        entries.len() == admins.len() && forall|i: int|
            0 <= i < admins.len() ==> names_user(
                #[trigger] entries[i],
                admins[i],
                "admin"@,
                realm,
            )
    } else {
        ||| names_all(entries, admins, operators.drop_last(), realm) && exists|i: int|
            0 <= i < entries.len() && (#[trigger] entries[i]).id == operators.last().id
        ||| entries.len() > 0 && names_user(
            entries.last(),
            operators.last(),
            "operator"@,
            realm,
        ) && names_all(entries.drop_last(), admins, operators.drop_last(), realm) && forall|i: int|
            0 <= i < entries.len() - 1 ==> (#[trigger] entries[i]).id != operators.last().id
    }
}

proof fn lemma_names_all(admins: Seq<UserModel>, operators: Seq<UserModel>, realm: Seq<char>)
    ensures
        names_all(
            with_operators(admin_entries(admins, realm), operators, realm),
            admins,
            operators,
            realm,
        ),
    decreases operators.len(),
{
    if operators.len() > 0 {
        let front = with_operators(admin_entries(admins, realm), operators.drop_last(), realm);
        let all = with_operators(admin_entries(admins, realm), operators, realm);
        lemma_names_all(admins, operators.drop_last(), realm);
        if holds_access(front, operators.last().id) {
            assert(all == front);
        } else {
            assert(all.drop_last() =~= front);
            assert forall|i: int| 0 <= i < all.len() - 1 implies (#[trigger] all[i]).id
                != operators.last().id by {
                assert(all[i] == front[i]);
            }
        }
    }
}

/// A list of users is another one in the order of usernames.
pub open spec fn by_username_of(all: Seq<AccessUserModel>, entries: Seq<AccessUserModel>) -> bool {
    &&& all.to_multiset() == entries.to_multiset()
    &&& forall|i: int, j: int|
        0 <= i <= j < all.len() ==> in_order(
            (#[trigger] all[i]).username,
            (#[trigger] all[j]).username,
        )
}

/// All who may use the portal in a realm are shown, each once, in the order of their usernames.
#[verifier::opaque]
pub open spec fn access_is_listed(
    shown: Seq<AccessUserModel>,
    admins: Seq<UserModel>,
    operators: Seq<UserModel>,
    realm: Seq<char>,
) -> bool {
    exists|named: Seq<AccessUserModel>|
        names_all(named, admins, operators, realm) && #[trigger] by_username_of(shown, named)
}

proof fn lemma_access_is_listed(
    admins: Seq<UserModel>,
    operators: Seq<UserModel>,
    realm: Seq<char>,
)
    ensures
        access_is_listed(access_list(admins, operators, realm), admins, operators, realm),
{
    reveal(access_is_listed);
    lemma_names_all(admins, operators, realm);
    lemma_by_username(admins, operators, realm);
}

proof fn lemma_by_username(admins: Seq<UserModel>, operators: Seq<UserModel>, realm: Seq<char>)
    ensures
        by_username_of(
            access_list(admins, operators, realm),
            with_operators(admin_entries(admins, realm), operators, realm),
        ),
{
    let entries = with_operators(admin_entries(admins, realm), operators, realm);
    let order = by_username();
    let all = access_list(admins, operators, realm);
    lemma_texts_are_ordered();
    assert(is_order(order));
    lemma_sorted(entries, order);
    assert forall|i: int, j: int| 0 <= i <= j < all.len() implies in_order(
        (#[trigger] all[i]).username,
        (#[trigger] all[j]).username,
    ) by {
        assert(order(all[i], all[j]));
    }
}

/// The admin page names all who have the admin role or the operator role in a realm, each
/// under the higher of the two, by their usernames; and the last hundred entries of a day of
/// the log, the last one first.
#[verifier::rlimit(40)]
pub proof fn lemma_the_admin_page(
    config: ConfigModel,
    query: AdminQueryModel,
    head: Seq<ReplyModel>,
    user: SessionUserModel,
    realms: Seq<RealmModel>,
    realm: Seq<char>,
    admins: Seq<UserModel>,
    operators: Seq<UserModel>,
    entries: Seq<AuditEntryModel>,
    token: Seq<char>,
    flash: Option<FlashModel>,
    waiting: Seq<PendingChangeModel>,
    now: Timestamp,
    today: Seq<char>,
)
    requires
        signed_in(config, head, user),
        user.role == Role::Admin,
        realm_meant(query.realm, realms, realm),
        day_of(now, today),
        waiting.len() <= usize::MAX,
    ensures
        ({
            let request = RequestModel::AdminPanel(query);
            let t1 = seq![realms_found(realms)];
            let t2 = t1.push(users_found(admins));
            let t3 = t2.push(users_found(operators));
            let t4 = t3.push(entries_found(entries));
            let t5 = t4 + form_ready(token);
            let t6 = t5.push(ReplyModel::Flash(flash));
            let t7 = t6.push(changes_found(waiting));
            &&& calls(config, request, head, ProviderCallModel::ListRealms)
            &&& calls(
                config,
                request,
                head + t1,
                ProviderCallModel::ListRoleUsers { realm, role_name: config.role_admin },
            )
            &&& calls(
                config,
                request,
                head + t2,
                ProviderCallModel::ListRoleUsers { realm, role_name: config.role_operator },
            )
            &&& stores(
                config,
                request,
                head + t3,
                StorageCallModel::ListAudit { date: query.log_date },
            )
            &&& readies_form(config, request, head, t4, token)
            &&& performs(config, request, head + t5, EffectModel::TakeFlash)
            &&& stores(config, request, head + t6, StorageCallModel::ListPendingChanges)
            &&& performs(config, request, head + t7, EffectModel::ReadClock)
            &&& response(
                config,
                request,
                head + t7.push(ReplyModel::Time(now)),
            ) matches StepModel::Finish(OutcomeModel::Page(PageModel::Admin(page))) && {
                &&& is_frame(page.frame, user, "admin"@, waiting)
                &&& page.realms == realms
                &&& page.current_realm == realm
                &&& access_is_listed(page.access_users, admins, operators, realm)
                &&& page.admin_role == config.role_admin
                &&& page.op_role == config.role_operator
                &&& page.audit.len() == (if entries.len() > 100 {
                    100
                } else {
                    entries.len()
                })
                &&& forall|i: int|
                    0 <= i < page.audit.len() ==> #[trigger] page.audit[i] == entries[entries.len()
                        - 1 - i]
                &&& page.log_date == (if query.log_date is Some {
                    query.log_date->0
                } else {
                    today
                })
                &&& page.today == today
                &&& page.csrf == token
                &&& page.flash == flash
            }
        }),
{
    reveal(admin_shown);
    assert(head + Seq::empty() =~= head);
    if query.realm is None && realms.len() == 0 {
        assert(realm =~= Seq::empty());
    }
    if crate::outside::utc_date(now.secs, now.nanos) is None {
        assert(today =~= Seq::empty());
    }
    lemma_signed_in(config, head, user, Seq::empty());
    assert forall|tail: Seq<ReplyModel>| #[trigger] admin_required(config, head + tail) == Ask::<
        SessionUserModel,
        ReplyModel,
        StepModel,
    >::Got(user, tail) by {
        lemma_signed_in(config, head, user, tail);
    }
    lemma_access_is_listed(admins, operators, realm);
}

} // verus!
