//! The overview of a realm.

use crate::asks::{ask_changes, ask_entries, ask_users, changes_asked, entries_asked, users_asked};
use crate::config::{Config, ConfigModel};
use crate::effects::{Asked, Outcome, OutcomeModel, Replies, ReplyModel, Step};
use crate::lists::{at_most, count, shorten, sort, sorted};
use crate::pages::{
    AttentionUser, AttentionUserModel, DashboardPage, DashboardPageModel, Page, PageModel,
    TeamCount, TeamCountModel,
};
use crate::provider::{
    users_like, Group, GroupModel, ListUsersQuery, ProviderCall, ProviderCallModel, User, UserModel,
};
use crate::routes::{
    ask_badge, badge_asked, frame, framed, home_realm, load_team_groups, operator_realm,
    require_session, session_required, teams_asked,
};
use crate::routes::changes::{keep_visible, visible_changes};
use crate::script::{answers, Ask};
use crate::session::{Role, SessionUser, SessionUserModel};
use crate::storage::{
    AuditEntry, AuditEntryModel, ChangeStatus, PendingChange, PendingChangeModel, StorageCall,
    StorageCallModel,
};
use crate::text::{in_order, is_in_order, same};
use crate::time::later;
use vstd::prelude::*;

verus! {

// ── Accounts that need attention ─────────────────────────────────────────────

/// Whether a user is listed under a team.
pub open spec fn has_team(user: UserModel) -> bool {
    user.team() matches Some(team) && team.len() > 0
}

/// Why an account looks unfinished or inconsistent: nobody has placed an active user, or a
/// disabled one was never taken out of the team.
pub open spec fn attention_reason(user: UserModel) -> Option<Seq<char>> {
    if user.enabled && !has_team(user) {
        Some("No team assigned"@)
    } else if !user.enabled && has_team(user) {
        Some("Disabled but still in a team"@)
    } else {
        None
    }
}

/// What the overview says of an account that needs attention.
pub open spec fn attention_entry(
    realm: Seq<char>,
    user: UserModel,
    reason: Seq<char>,
) -> AttentionUserModel {
    AttentionUserModel {
        id: user.id,
        realm,
        username: user.username,
        full_name: user.full_name(),
        reason,
    }
}

/// The accounts that need attention, in the order in which they were listed.
pub open spec fn attention_entries(realm: Seq<char>, users: Seq<UserModel>) -> Seq<
    AttentionUserModel,
>
    decreases users.len(),
{
    if users.len() == 0 {
        Seq::empty()
    } else {
        let front = attention_entries(realm, users.drop_last());
        match attention_reason(users.last()) {
            Some(reason) => front.push(attention_entry(realm, users.last(), reason)),
            None => front,
        }
    }
}

/// The order of accounts by username.
pub open spec fn by_username() -> spec_fn(AttentionUserModel, AttentionUserModel) -> bool {
    |a: AttentionUserModel, b: AttentionUserModel| in_order(a.username, b.username)
}

/// The accounts that need attention, in the order of their usernames.
pub open spec fn attention_list(realm: Seq<char>, users: Seq<UserModel>) -> Seq<
    AttentionUserModel,
> {
    sorted(attention_entries(realm, users), by_username())
}

fn find_reason(user: &User) -> (r: Option<String>)
    ensures
        r.deep_view() == attention_reason(user.deep_view()),
{
    let placed = match user.team() {
        Some(team) => !team.is_empty(),
        None => false,
    };
    if user.enabled && !placed {
        Some("No team assigned".to_string())
    } else if !user.enabled && placed {
        Some("Disabled but still in a team".to_string())
    } else {
        None
    }
}

fn list_attention(realm: &str, users: &Vec<User>) -> (r: Vec<AttentionUser>)
    ensures
        r.deep_view() == attention_list(realm@, users.deep_view()),
{
    let ghost whole = users.deep_view();
    let mut found: Vec<AttentionUser> = Vec::new();
    let mut i: usize = 0;
    assert(whole.take(0) =~= Seq::empty());
    assert(found.deep_view() =~= Seq::empty());
    while i < users.len()
        invariant
            i <= users@.len(),
            whole == users.deep_view(),
            found.deep_view() == attention_entries(realm@, whole.take(i as int)),
        decreases users@.len() - i,
    {
        let user = &users[i];
        let ghost before = found.deep_view();
        assert(whole.take(i + 1).drop_last() =~= whole.take(i as int));
        assert(whole.take(i + 1).last() == user.deep_view());
        if let Some(reason) = find_reason(user) {
            let entry = AttentionUser {
                id: user.id.clone(),
                realm: realm.to_string(),
                username: user.username.clone(),
                full_name: user.full_name(),
                reason,
            };
            let ghost model = entry.deep_view();
            found.push(entry);
            assert(found.deep_view() =~= before.push(model));
        }
        i = i + 1;
    }
    assert(whole.take(i as int) =~= whole);
    let ghost leq = by_username();
    let ordered = |x: &AttentionUser, y: &AttentionUser| -> (b: bool)
        ensures
            b == leq(x.deep_view(), y.deep_view()),
        { is_in_order(x.username.as_str(), y.username.as_str()) };
    sort(found, ordered, Ghost(leq))
}

// ── Teams ────────────────────────────────────────────────────────────────────

/// How many users are listed under a team.
pub open spec fn member_count(users: Seq<UserModel>, name: Seq<char>) -> nat {
    users.filter(|user: UserModel| user.team() == Some(name)).len()
}

/// The teams that have members, in the order in which they were listed.
pub open spec fn team_counts(users: Seq<UserModel>, teams: Seq<GroupModel>) -> Seq<TeamCountModel>
    decreases teams.len(),
{
    if teams.len() == 0 {
        Seq::empty()
    } else {
        let front = team_counts(users, teams.drop_last());
        let members = member_count(users, teams.last().name);
        if members > 0 {
            front.push(TeamCountModel { name: teams.last().name, count: members as usize })
        } else {
            front
        }
    }
}

/// The order of teams by size, the largest first.
pub open spec fn largest_first() -> spec_fn(TeamCountModel, TeamCountModel) -> bool {
    |a: TeamCountModel, b: TeamCountModel| a.count >= b.count
}

/// The teams that have members, the largest first.
pub open spec fn team_breakdown(users: Seq<UserModel>, teams: Seq<GroupModel>) -> Seq<
    TeamCountModel,
> {
    sorted(team_counts(users, teams), largest_first())
}

fn count_members(users: &Vec<User>, name: &str) -> (r: usize)
    ensures
        r == member_count(users.deep_view(), name@),
{
    let ghost wanted = |user: UserModel| user.team() == Some(name@);
    let is_member = |user: &User| -> (b: bool)
        ensures
            b == wanted(user.deep_view()),
        {
            match user.team() {
                Some(team) => same(team, name),
                None => false,
            }
        };
    count(users, is_member, Ghost(wanted))
}

fn list_teams(users: &Vec<User>, teams: &Vec<Group>) -> (r: Vec<TeamCount>)
    ensures
        r.deep_view() == team_breakdown(users.deep_view(), teams.deep_view()),
{
    let ghost all = users.deep_view();
    let ghost whole = teams.deep_view();
    let mut counts: Vec<TeamCount> = Vec::new();
    let mut i: usize = 0;
    assert(whole.take(0) =~= Seq::empty());
    assert(counts.deep_view() =~= Seq::empty());
    while i < teams.len()
        invariant
            i <= teams@.len(),
            all == users.deep_view(),
            whole == teams.deep_view(),
            counts.deep_view() == team_counts(all, whole.take(i as int)),
        decreases teams@.len() - i,
    {
        let ghost before = counts.deep_view();
        assert(whole.take(i + 1).drop_last() =~= whole.take(i as int));
        assert(whole.take(i + 1).last() == teams@[i as int].deep_view());
        let members = count_members(users, teams[i].name.as_str());
        if members > 0 {
            let entry = TeamCount { name: teams[i].name.clone(), count: members };
            let ghost model = entry.deep_view();
            counts.push(entry);
            assert(counts.deep_view() =~= before.push(model));
        }
        i = i + 1;
    }
    assert(whole.take(i as int) =~= whole);
    let ghost leq = largest_first();
    let ordered = |x: &TeamCount, y: &TeamCount| -> (b: bool)
        ensures
            b == leq(x.deep_view(), y.deep_view()),
        { x.count >= y.count };
    sort(counts, ordered, Ghost(leq))
}

// ── Changes and log ──────────────────────────────────────────────────────────

/// How many changes stand at a status.
pub open spec fn status_count(changes: Seq<PendingChangeModel>, status: ChangeStatus) -> nat {
    changes.filter(|c: PendingChangeModel| c.status == status).len()
}

fn count_status(changes: &Vec<PendingChange>, status: ChangeStatus) -> (r: usize)
    ensures
        r == status_count(changes.deep_view(), status),
{
    let ghost wanted = |c: PendingChangeModel| c.status == status;
    let stands = |c: &PendingChange| -> (b: bool)
        ensures
            b == wanted(c.deep_view()),
        { c.status == status };
    count(changes, stands, Ghost(wanted))
}

/// The order of entries by time, the newest first.
pub open spec fn newest_first() -> spec_fn(AuditEntryModel, AuditEntryModel) -> bool {
    |a: AuditEntryModel, b: AuditEntryModel| !later(b.timestamp, a.timestamp)
}

pub(crate) fn sort_newest_first(entries: Vec<AuditEntry>) -> (r: Vec<AuditEntry>)
    ensures
        r.deep_view() == sorted(entries.deep_view(), newest_first()),
{
    let ghost leq = newest_first();
    let ordered = |x: &AuditEntry, y: &AuditEntry| -> (b: bool)
        ensures
            b == leq(x.deep_view(), y.deep_view()),
        { !y.timestamp.is_later(&x.timestamp) };
    sort(entries, ordered, Ghost(leq))
}

/// The twelve newest entries of the log, which only admins see.
pub open spec fn recent_asked(user: SessionUserModel, replies: Seq<ReplyModel>) -> Asked<
    Seq<AuditEntryModel>,
> {
    if user.role == Role::Admin {
        match entries_asked(StorageCallModel::ListAudit { date: None }, replies) {
            Ask::Stop(stop) => Ask::Stop(stop),
            Ask::Got(entries, rest) => Ask::Got(at_most(sorted(entries, newest_first()), 12), rest),
        }
    } else {
        Ask::Got(Seq::empty(), replies)
    }
}

fn ask_recent(cursor: &mut Replies<'_>, user: &SessionUser) -> (r: Result<Vec<AuditEntry>, Step>)
    ensures
        answers(r, final(cursor).rest(), recent_asked(user.deep_view(), old(cursor).rest())),
{
    if user.role.is_admin() {
        let entries = ask_entries(cursor, StorageCall::ListAudit { date: None })?;
        Ok(shorten(sort_newest_first(entries), 12))
    } else {
        let none: Vec<AuditEntry> = Vec::new();
        assert(none.deep_view() =~= Seq::empty());
        Ok(none)
    }
}

// ── The page ─────────────────────────────────────────────────────────────────

/// How many users are active.
pub open spec fn active_count(users: Seq<UserModel>) -> nat {
    users.filter(|user: UserModel| user.enabled).len()
}

/// What the overview shows.
pub open spec fn dashboard_page(
    user: SessionUserModel,
    realm: Seq<char>,
    users: Seq<UserModel>,
    teams: Seq<GroupModel>,
    changes: Seq<PendingChangeModel>,
    recent: Seq<AuditEntryModel>,
    pending: usize,
) -> DashboardPageModel {
    let attention = attention_list(realm, users);
    let visible = visible_changes(user, changes);
    DashboardPageModel {
        frame: framed(user, "dashboard"@, Some(pending)),
        realm,
        total_users: users.len() as usize,
        active_users: active_count(users) as usize,
        disabled_users: (users.len() - active_count(users)) as usize,
        attention: at_most(attention, 10),
        attention_total: attention.len() as usize,
        teams: team_breakdown(users, teams),
        req_pending: status_count(visible, ChangeStatus::Pending) as usize,
        req_approved: status_count(visible, ChangeStatus::Approved) as usize,
        req_rejected: status_count(visible, ChangeStatus::Rejected) as usize,
        recent_audit: recent,
    }
}

/// What is left to read for the overview, and the overview itself.
pub open spec fn overview_finished(
    user: SessionUserModel,
    realm: Seq<char>,
    users: Seq<UserModel>,
    teams: Seq<GroupModel>,
    changes: Seq<PendingChangeModel>,
    replies: Seq<ReplyModel>,
) -> Asked<OutcomeModel> {
    match recent_asked(user, replies) {
        Ask::Stop(stop) => Ask::Stop(stop),
        Ask::Got(recent, rest) => match badge_asked(user, rest) {
            Ask::Stop(stop) => Ask::Stop(stop),
            Ask::Got(pending, rest) => Ask::Got(
                OutcomeModel::Page(
                    PageModel::Dashboard(
                        dashboard_page(user, realm, users, teams, changes, recent, pending),
                    ),
                ),
                rest,
            ),
        },
    }
}

/// The overview is put together.
pub open spec fn overview_asked(
    user: SessionUserModel,
    realm: Seq<char>,
    replies: Seq<ReplyModel>,
) -> Asked<OutcomeModel> {
    match users_asked(
        ProviderCallModel::ListUsers { realm, query: users_like(None, 2000) },
        replies,
    ) {
        Ask::Stop(stop) => Ask::Stop(stop),
        Ask::Got(users, rest) => match teams_asked(realm, rest) {
            Ask::Stop(stop) => Ask::Stop(stop),
            Ask::Got(teams, rest) => match changes_asked(StorageCallModel::ListChanges, rest) {
                Ask::Stop(stop) => Ask::Stop(stop),
                Ask::Got(changes, rest) => overview_finished(
                    user,
                    realm,
                    users,
                    teams,
                    changes,
                    rest,
                ),
            },
        },
    }
}

/// The overview of the realm that users sign in to.
#[verifier::opaque]
pub open spec fn dashboard_shown(config: ConfigModel, replies: Seq<ReplyModel>) -> Asked<
    OutcomeModel,
> {
    match session_required(config, replies) {
        Ask::Stop(stop) => Ask::Stop(stop),
        Ask::Got(user, rest) => overview_asked(user, home_realm(config), rest),
    }
}

/// Shows the overview.
pub fn dashboard(cursor: &mut Replies<'_>, config: &Config) -> (r: Result<Outcome, Step>)
    ensures
        answers(r, final(cursor).rest(), dashboard_shown(config.deep_view(), old(cursor).rest())),
{
    proof {
        reveal(dashboard_shown);
    }
    let user = require_session(cursor, config)?;
    let realm = operator_realm(config);
    let users = ask_users(
        cursor,
        ProviderCall::ListUsers {
            realm: realm.clone(),
            query: ListUsersQuery::new().page(0, 2000),
        },
    )?;
    let team_groups = load_team_groups(cursor, realm.as_str())?;
    let changes = ask_changes(cursor, StorageCall::ListChanges)?;
    let recent_audit = ask_recent(cursor, &user)?;
    let pending = ask_badge(cursor, &user)?;
    let ghost wanted = |user: UserModel| user.enabled;
    let is_active = |user: &User| -> (b: bool)
        ensures
            b == wanted(user.deep_view()),
        { user.enabled };
    let active_users = count(&users, is_active, Ghost(wanted));
    let attention = list_attention(realm.as_str(), &users);
    let attention_total = attention.len();
    let teams = list_teams(&users, &team_groups);
    let visible = keep_visible(&user, changes);
    Ok(
        Outcome::Page(
            Page::Dashboard(
                DashboardPage {
                    frame: frame(user, "dashboard", Some(pending)),
                    realm,
                    total_users: users.len(),
                    active_users,
                    disabled_users: users.len() - active_users,
                    attention: shorten(attention, 10),
                    attention_total,
                    teams,
                    req_pending: count_status(&visible, ChangeStatus::Pending),
                    req_approved: count_status(&visible, ChangeStatus::Approved),
                    req_rejected: count_status(&visible, ChangeStatus::Rejected),
                    recent_audit,
                },
            ),
        ),
    )
}

} // verus!
