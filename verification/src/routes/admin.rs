//! Who may use the portal.

use crate::asks::{
    ask_entries, ask_flash, ask_form_token, ask_realms, ask_time, ask_users, entries_asked, fail,
    failed, flash_asked, form_token_asked, realms_asked, time_asked, users_asked,
};
use crate::config::{Config, ConfigModel};
use crate::effects::{Asked, Outcome, OutcomeModel, Replies, ReplyModel, Step};
use crate::error::{AppError, AppErrorModel};
use crate::lists::{at_most, find, first_where, reversed, shorten, sort, sorted};
use crate::outside::utc_date;
use crate::pages::{AccessUser, AccessUserModel, AdminPage, AdminPageModel, Page, PageModel};
use crate::provider::{
    users_like, ListUsersQuery, ProviderCall, ProviderCallModel, RealmModel, Role as RealmRole,
    RoleModel, User, UserModel,
};
use crate::routes::{
    admin_form_checked, admin_required, check_admin_form, choose_realm, chosen_realm, flash_left,
    frame, framed, leave_flash, pending_asked, pending_changes_count, require_admin,
};
use crate::routes::users::access::{
    ask_role_by_name, bare_role, change_recorded, new_bare_role, record_change, role_by_name_asked,
};
use crate::script::{answers, Ask};
use crate::session::{good_news, notice, Flash, SessionUserModel};
use crate::storage::{StorageCall, StorageCallModel};
use crate::text::{in_order, is_in_order, or_empty, same, text_or_empty};
use crate::time::Timestamp;
use vstd::prelude::*;

verus! {

// ── The page ─────────────────────────────────────────────────────────────────

/// What the page is to show.
#[derive(Debug, PartialEq)]
pub struct AdminQuery {
    pub realm: Option<String>,
    pub log_date: Option<String>,
}

/// What a [`AdminQuery`] stands for in contracts.
#[verifier::ext_equal]
pub struct AdminQueryModel {
    pub realm: Option<Seq<char>>,
    pub log_date: Option<Seq<char>>,
}

impl DeepView for AdminQuery {
    type V = AdminQueryModel;

    open spec fn deep_view(&self) -> AdminQueryModel {
        AdminQueryModel {
            realm: self.realm.deep_view(),
            log_date: self.log_date.deep_view(),
        }
    }
}

impl Clone for AdminQuery {
    fn clone(&self) -> (r: Self)
        ensures
            r.deep_view() == self.deep_view(),
    {
        AdminQuery {
            realm: self.realm.clone(),
            log_date: self.log_date.clone(),
        }
    }
}

/// A user who may use the portal.
pub open spec fn access_entry(
    user: UserModel,
    role: Seq<char>,
    realm: Seq<char>,
) -> AccessUserModel {
    AccessUserModel {
        id: user.id,
        username: user.username,
        full_name: user.full_name(),
        email: user.email,
        role,
        realm,
    }
}

fn new_access_entry(user: &User, role: &str, realm: &str) -> (r: AccessUser)
    ensures
        r.deep_view() == access_entry(user.deep_view(), role@, realm@),
{
    AccessUser {
        id: user.id.clone(),
        username: user.username.clone(),
        full_name: user.full_name(),
        email: user.email.clone(),
        role: role.to_string(),
        realm: realm.to_string(),
    }
}

/// Whether a user with this id is among those with access.
pub open spec fn holds_access(known: Seq<AccessUserModel>, id: Seq<char>) -> bool {
    exists|i: int| 0 <= i < known.len() && (#[trigger] known[i]).id == id
}

fn has_access(known: &Vec<AccessUser>, id: &str) -> (r: bool)
    ensures
        r == holds_access(known.deep_view(), id@),
{
    let ghost all = known.deep_view();
    let mut i: usize = 0;
    while i < known.len()
        invariant
            i <= known@.len(),
            all == known.deep_view(),
            forall|j: int| 0 <= j < i ==> (#[trigger] all[j]).id != id@,
        decreases known@.len() - i,
    {
        if same(known[i].id.as_str(), id) {
            assert(all[i as int].id == id@);
            return true;
        }
        i = i + 1;
    }
    false
}

/// The admins of a realm.
pub open spec fn admin_entries(admins: Seq<UserModel>, realm: Seq<char>) -> Seq<AccessUserModel> {
    admins.map_values(|user: UserModel| access_entry(user, "admin"@, realm))
}

/// Those with access, and the operators who are not among them yet.
pub open spec fn with_operators(
    known: Seq<AccessUserModel>,
    operators: Seq<UserModel>,
    realm: Seq<char>,
) -> Seq<AccessUserModel>
    decreases operators.len(),
{
    if operators.len() == 0 {
        known
    } else {
        let front = with_operators(known, operators.drop_last(), realm);
        if holds_access(front, operators.last().id) {
            front
        } else {
            front.push(access_entry(operators.last(), "operator"@, realm))
        }
    }
}

/// The order of users by username.
pub open spec fn by_username() -> spec_fn(AccessUserModel, AccessUserModel) -> bool {
    |a: AccessUserModel, b: AccessUserModel| in_order(a.username, b.username)
}

/// All who may use the portal, each once: one who is an admin is listed as that.
pub open spec fn access_list(
    admins: Seq<UserModel>,
    operators: Seq<UserModel>,
    realm: Seq<char>,
) -> Seq<AccessUserModel> {
    sorted(with_operators(admin_entries(admins, realm), operators, realm), by_username())
}

fn list_access(admins: &Vec<User>, operators: &Vec<User>, realm: &str) -> (r: Vec<AccessUser>)
    ensures
        r.deep_view() == access_list(admins.deep_view(), operators.deep_view(), realm@),
{
    let ghost first = admins.deep_view();
    let ghost second = operators.deep_view();
    let mut known: Vec<AccessUser> = Vec::new();
    let mut i: usize = 0;
    while i < admins.len()
        invariant
            i <= admins@.len(),
            first == admins.deep_view(),
            known.deep_view() =~= admin_entries(first.take(i as int), realm@),
        decreases admins@.len() - i,
    {
        let ghost before = known.deep_view();
        let entry = new_access_entry(&admins[i], "admin", realm);
        let ghost model = entry.deep_view();
        known.push(entry);
        assert(known.deep_view() =~= before.push(model));
        i = i + 1;
    }
    assert(first.take(i as int) =~= first);
    let ghost start = known.deep_view();
    let mut k: usize = 0;
    assert(second.take(0) =~= Seq::empty());
    while k < operators.len()
        invariant
            k <= operators@.len(),
            second == operators.deep_view(),
            known.deep_view() == with_operators(start, second.take(k as int), realm@),
        decreases operators@.len() - k,
    {
        let ghost before = known.deep_view();
        assert(second.take(k + 1).drop_last() =~= second.take(k as int));
        assert(second.take(k + 1).last() == operators@[k as int].deep_view());
        if !has_access(&known, operators[k].id.as_str()) {
            let entry = new_access_entry(&operators[k], "operator", realm);
            let ghost model = entry.deep_view();
            known.push(entry);
            assert(known.deep_view() =~= before.push(model));
        }
        k = k + 1;
    }
    assert(second.take(k as int) =~= second);
    let ghost leq = by_username();
    let ordered = |x: &AccessUser, y: &AccessUser| -> (b: bool)
        ensures
            b == leq(x.deep_view(), y.deep_view()),
        { is_in_order(x.username.as_str(), y.username.as_str()) };
    sort(known, ordered, Ghost(leq))
}

/// The date of a point in time, as `YYYY-MM-DD`.
pub open spec fn date_text(at: Timestamp) -> Seq<char> {
    or_empty(utc_date(at.secs, at.nanos))
}

pub(crate) fn write_date(at: &Timestamp) -> (r: String)
    ensures
        r@ == date_text(*at),
{
    text_or_empty(&at.date())
}

/// The users with access and the log of a day are shown.
pub open spec fn access_shown(
    config: ConfigModel,
    user: SessionUserModel,
    realms: Seq<RealmModel>,
    realm: Seq<char>,
    access_users: Seq<AccessUserModel>,
    log_date: Option<Seq<char>>,
    replies: Seq<ReplyModel>,
) -> Asked<OutcomeModel> {
    match entries_asked(StorageCallModel::ListAudit { date: log_date }, replies) {
        Ask::Stop(stop) => Ask::Stop(stop),
        Ask::Got(entries, rest) => match form_token_asked(rest) {
            Ask::Stop(stop) => Ask::Stop(stop),
            Ask::Got(csrf, rest) => match flash_asked(rest) {
                Ask::Stop(stop) => Ask::Stop(stop),
                Ask::Got(flash, rest) => match pending_asked(rest) {
                    Ask::Stop(stop) => Ask::Stop(stop),
                    Ask::Got(pending, rest) => match time_asked(rest) {
                        Ask::Stop(stop) => Ask::Stop(stop),
                        Ask::Got(now, rest) => Ask::Got(
                            OutcomeModel::Page(
                                PageModel::Admin(
                                    AdminPageModel {
                                        frame: framed(user, "admin"@, Some(pending)),
                                        realms,
                                        current_realm: realm,
                                        access_users,
                                        admin_role: config.role_admin,
                                        op_role: config.role_operator,
                                        audit: at_most(entries.reverse(), 100),
                                        log_date: match log_date {
                                            Some(date) => date,
                                            None => date_text(now),
                                        },
                                        today: date_text(now),
                                        csrf,
                                        flash,
                                    },
                                ),
                            ),
                            rest,
                        ),
                    },
                },
            },
        },
    }
}

/// The users with access to a realm are listed and shown.
pub open spec fn access_asked(
    config: ConfigModel,
    user: SessionUserModel,
    realms: Seq<RealmModel>,
    realm: Seq<char>,
    log_date: Option<Seq<char>>,
    replies: Seq<ReplyModel>,
) -> Asked<OutcomeModel> {
    match users_asked(
        ProviderCallModel::ListRoleUsers { realm, role_name: config.role_admin },
        replies,
    ) {
        Ask::Stop(stop) => Ask::Stop(stop),
        Ask::Got(admins, rest) => match users_asked(
            ProviderCallModel::ListRoleUsers { realm, role_name: config.role_operator },
            rest,
        ) {
            Ask::Stop(stop) => Ask::Stop(stop),
            Ask::Got(operators, rest) => access_shown(
                config,
                user,
                realms,
                realm,
                access_list(admins, operators, realm),
                log_date,
                rest,
            ),
        },
    }
}

/// An admin sees who may use the portal.
#[verifier::opaque]
pub open spec fn admin_shown(
    config: ConfigModel,
    query: AdminQueryModel,
    replies: Seq<ReplyModel>,
) -> Asked<OutcomeModel> {
    match admin_required(config, replies) {
        Ask::Stop(stop) => Ask::Stop(stop),
        Ask::Got(user, rest) => match realms_asked(ProviderCallModel::ListRealms, rest) {
            Ask::Stop(stop) => Ask::Stop(stop),
            Ask::Got(realms, rest) => access_asked(
                config,
                user,
                realms,
                chosen_realm(query.realm, realms),
                query.log_date,
                rest,
            ),
        },
    }
}

/// Shows who may use the portal.
pub fn admin_panel(cursor: &mut Replies<'_>, config: &Config, query: &AdminQuery) -> (r: Result<
    Outcome,
    Step,
>)
    ensures
        answers(
            r,
            final(cursor).rest(),
            admin_shown(config.deep_view(), query.deep_view(), old(cursor).rest()),
        ),
{
    proof {
        reveal(admin_shown);
    }
    let user = require_admin(cursor, config)?;
    let realms = ask_realms(cursor, ProviderCall::ListRealms)?;
    let realm = choose_realm(&query.realm, &realms);
    let admins = ask_users(
        cursor,
        ProviderCall::ListRoleUsers { realm: realm.clone(), role_name: config.role_admin.clone() },
    )?;
    let operators = ask_users(
        cursor,
        ProviderCall::ListRoleUsers {
            realm: realm.clone(),
            role_name: config.role_operator.clone(),
        },
    )?;
    let access_users = list_access(&admins, &operators, realm.as_str());
    let entries = ask_entries(cursor, StorageCall::ListAudit { date: query.log_date.clone() })?;
    let audit = shorten(reversed(entries), 100);
    let csrf = ask_form_token(cursor)?;
    let flash = ask_flash(cursor)?;
    let pending = pending_changes_count(cursor)?;
    let today = write_date(&ask_time(cursor)?);
    let log_date = match &query.log_date {
        Some(date) => date.clone(),
        None => today.clone(),
    };
    Ok(
        Outcome::Page(
            Page::Admin(
                AdminPage {
                    frame: frame(user, "admin", Some(pending)),
                    realms,
                    current_realm: realm,
                    access_users,
                    admin_role: config.role_admin.clone(),
                    op_role: config.role_operator.clone(),
                    audit,
                    log_date,
                    today,
                    csrf,
                    flash,
                },
            ),
        ),
    )
}

// ── Granting access ──────────────────────────────────────────────────────────

/// The form for granting access.
#[derive(Debug, PartialEq)]
pub struct GrantForm {
    pub csrf_token: String,
    pub realm: String,
    pub username: String,
    pub role: String,
}

/// What a [`GrantForm`] stands for in contracts.
#[verifier::ext_equal]
pub struct GrantFormModel {
    pub csrf_token: Seq<char>,
    pub realm: Seq<char>,
    pub username: Seq<char>,
    pub role: Seq<char>,
}

impl DeepView for GrantForm {
    type V = GrantFormModel;

    open spec fn deep_view(&self) -> GrantFormModel {
        GrantFormModel {
            csrf_token: self.csrf_token.deep_view(),
            realm: self.realm.deep_view(),
            username: self.username.deep_view(),
            role: self.role.deep_view(),
        }
    }
}

impl Clone for GrantForm {
    fn clone(&self) -> (r: Self)
        ensures
            r.deep_view() == self.deep_view(),
    {
        GrantForm {
            csrf_token: self.csrf_token.clone(),
            realm: self.realm.clone(),
            username: self.username.clone(),
            role: self.role.clone(),
        }
    }
}

/// The page of those with access to a realm.
pub open spec fn admin_path(realm: Seq<char>) -> Seq<char> {
    "/admin?realm="@ + realm
}

fn path_of_admin(realm: &str) -> (r: String)
    ensures
        r@ == admin_path(realm@),
{
    "/admin?realm=".to_string().concat(realm)
}

/// The first user with exactly this name.
pub open spec fn user_named(users: Seq<UserModel>, username: Seq<char>) -> Option<UserModel> {
    first_where(users, |user: UserModel| user.username == username)
}

pub(crate) fn find_user_named<'a>(users: &'a Vec<User>, username: &str) -> (r: Option<&'a User>)
    ensures
        r.deep_view() == user_named(users.deep_view(), username@),
{
    let ghost wanted = |user: UserModel| user.username == username@;
    let is_named = |user: &User| -> (b: bool)
        ensures
            b == wanted(user.deep_view()),
        { same(user.username.as_str(), username) };
    find(users, is_named, Ghost(wanted))
}

/// The user with this name, who has to be in the realm.
pub open spec fn user_by_name_asked(
    realm: Seq<char>,
    username: Seq<char>,
    replies: Seq<ReplyModel>,
) -> Asked<UserModel> {
    match users_asked(
        ProviderCallModel::ListUsers { realm, query: users_like(Some(username), 100) },
        replies,
    ) {
        Ask::Stop(stop) => Ask::Stop(stop),
        Ask::Got(users, rest) => match user_named(users, username) {
            Some(user) => Ask::Got(user, rest),
            None => Ask::Stop(failed(AppErrorModel::NotFound("user "@ + username))),
        },
    }
}

pub(crate) fn ask_user_by_name(cursor: &mut Replies<'_>, realm: &str, username: &str) -> (r: Result<
    User,
    Step,
>)
    ensures
        answers(
            r,
            final(cursor).rest(),
            user_by_name_asked(realm@, username@, old(cursor).rest()),
        ),
{
    let users = ask_users(
        cursor,
        ProviderCall::ListUsers {
            realm: realm.to_string(),
            query: ListUsersQuery::new().search(username.to_string()),
        },
    )?;
    match find_user_named(&users, username) {
        Some(user) => Ok(user.clone()),
        None => Err(fail(AppError::NotFound("user ".to_string().concat(username)))),
    }
}

/// The realm role that stands for a kind of access.
pub open spec fn granted_role(config: ConfigModel, role: Seq<char>) -> Seq<char> {
    if role == "admin"@ {
        config.role_admin
    } else {
        config.role_operator
    }
}

/// An admin lets a user in.
#[verifier::opaque]
pub open spec fn access_granted(
    config: ConfigModel,
    form: GrantFormModel,
    replies: Seq<ReplyModel>,
) -> Asked<OutcomeModel> {
    match admin_form_checked(config, form.csrf_token, replies) {
        Ask::Stop(stop) => Ask::Stop(stop),
        Ask::Got(user, rest) => match user_by_name_asked(form.realm, form.username, rest) {
            Ask::Stop(stop) => Ask::Stop(stop),
            Ask::Got(target, rest) => match role_by_name_asked(
                form.realm,
                granted_role(config, form.role),
                rest,
            ) {
                Ask::Stop(stop) => Ask::Stop(stop),
                Ask::Got(role, rest) => change_recorded(
                    ProviderCallModel::AssignRealmRole {
                        realm: form.realm,
                        user_id: target.id,
                        role,
                    },
                    user.username,
                    "grant_access"@,
                    form.realm,
                    Some(form.username),
                    "granted "@ + form.username + " role '"@ + granted_role(config, form.role)
                        + "'"@,
                    good_news(form.username + " granted "@ + form.role + " access."@),
                    admin_path(form.realm),
                    rest,
                ),
            },
        },
    }
}

/// Lets a user in.
pub fn grant_access(cursor: &mut Replies<'_>, config: &Config, form: &GrantForm) -> (r: Result<
    Outcome,
    Step,
>)
    ensures
        answers(
            r,
            final(cursor).rest(),
            access_granted(config.deep_view(), form.deep_view(), old(cursor).rest()),
        ),
{
    proof {
        reveal(access_granted);
    }
    let user = check_admin_form(cursor, config, form.csrf_token.as_str())?;
    let role_name = if same(form.role.as_str(), "admin") {
        config.role_admin.clone()
    } else {
        config.role_operator.clone()
    };
    let target = ask_user_by_name(cursor, form.realm.as_str(), form.username.as_str())?;
    let role = ask_role_by_name(cursor, form.realm.as_str(), role_name.as_str())?;
    let detail = "granted ".to_string().concat(form.username.as_str()).concat(" role '").concat(
        role_name.as_str(),
    ).concat("'");
    let flash = Flash::success(
        form.username.clone().concat(" granted ").concat(form.role.as_str()).concat(" access."),
    );
    record_change(
        cursor,
        ProviderCall::AssignRealmRole { realm: form.realm.clone(), user_id: target.id, role },
        user.username.as_str(),
        "grant_access",
        form.realm.as_str(),
        Some(form.username.clone()),
        detail,
        flash,
        path_of_admin(form.realm.as_str()),
    )
}

// ── Revoking access ──────────────────────────────────────────────────────────

/// The form for revoking access.
#[derive(Debug, PartialEq)]
pub struct RevokeForm {
    pub csrf_token: String,
    pub realm: String,
    pub user_id: String,
    pub username: String,
    pub role_name: String,
    pub role_id: String,
}

/// What a [`RevokeForm`] stands for in contracts.
#[verifier::ext_equal]
pub struct RevokeFormModel {
    pub csrf_token: Seq<char>,
    pub realm: Seq<char>,
    pub user_id: Seq<char>,
    pub username: Seq<char>,
    pub role_name: Seq<char>,
    pub role_id: Seq<char>,
}

impl DeepView for RevokeForm {
    type V = RevokeFormModel;

    open spec fn deep_view(&self) -> RevokeFormModel {
        RevokeFormModel {
            csrf_token: self.csrf_token.deep_view(),
            realm: self.realm.deep_view(),
            user_id: self.user_id.deep_view(),
            username: self.username.deep_view(),
            role_name: self.role_name.deep_view(),
            role_id: self.role_id.deep_view(),
        }
    }
}

impl Clone for RevokeForm {
    fn clone(&self) -> (r: Self)
        ensures
            r.deep_view() == self.deep_view(),
    {
        RevokeForm {
            csrf_token: self.csrf_token.clone(),
            realm: self.realm.clone(),
            user_id: self.user_id.clone(),
            username: self.username.clone(),
            role_name: self.role_name.clone(),
            role_id: self.role_id.clone(),
        }
    }
}

/// The role that is revoked; one without an id is looked up by its name.
pub open spec fn revoked_role_asked(form: RevokeFormModel, replies: Seq<ReplyModel>) -> Asked<
    RoleModel,
> {
    if form.role_id.len() == 0 {
        role_by_name_asked(form.realm, form.role_name, replies)
    } else {
        Ask::Got(bare_role(form.role_id, form.role_name), replies)
    }
}

fn ask_revoked_role(cursor: &mut Replies<'_>, form: &RevokeForm) -> (r: Result<RealmRole, Step>)
    ensures
        answers(r, final(cursor).rest(), revoked_role_asked(form.deep_view(), old(cursor).rest())),
{
    if form.role_id.as_str().is_empty() {
        ask_role_by_name(cursor, form.realm.as_str(), form.role_name.as_str())
    } else {
        Ok(new_bare_role(form.role_id.as_str(), form.role_name.as_str()))
    }
}

/// Whether an admin is about to lock themselves out.
pub open spec fn locks_out(
    config: ConfigModel,
    user: SessionUserModel,
    form: RevokeFormModel,
) -> bool {
    form.username == user.username && form.role_name == config.role_admin
}

/// An admin takes access away, but never the admin role from themselves.
#[verifier::opaque]
pub open spec fn access_revoked(
    config: ConfigModel,
    form: RevokeFormModel,
    replies: Seq<ReplyModel>,
) -> Asked<OutcomeModel> {
    match admin_form_checked(config, form.csrf_token, replies) {
        Ask::Stop(stop) => Ask::Stop(stop),
        Ask::Got(user, rest) => if locks_out(config, user, form) {
            flash_left(
                notice("You cannot revoke your own admin access."@),
                admin_path(form.realm),
                rest,
            )
        } else {
            match revoked_role_asked(form, rest) {
                Ask::Stop(stop) => Ask::Stop(stop),
                Ask::Got(role, rest) => change_recorded(
                    ProviderCallModel::RemoveRealmRole {
                        realm: form.realm,
                        user_id: form.user_id,
                        role,
                    },
                    user.username,
                    "revoke_access"@,
                    form.realm,
                    Some(form.username),
                    "revoked '"@ + form.role_name + "' from "@ + form.username,
                    notice("Access revoked for "@ + form.username + "."@),
                    admin_path(form.realm),
                    rest,
                ),
            }
        },
    }
}

/// Takes access away.
pub fn revoke_access(cursor: &mut Replies<'_>, config: &Config, form: &RevokeForm) -> (r: Result<
    Outcome,
    Step,
>)
    ensures
        answers(
            r,
            final(cursor).rest(),
            access_revoked(config.deep_view(), form.deep_view(), old(cursor).rest()),
        ),
{
    proof {
        reveal(access_revoked);
    }
    let user = check_admin_form(cursor, config, form.csrf_token.as_str())?;
    let to = path_of_admin(form.realm.as_str());
    if same(form.username.as_str(), user.username.as_str()) && same(
        form.role_name.as_str(),
        config.role_admin.as_str(),
    ) {
        return leave_flash(
            cursor,
            Flash::warning("You cannot revoke your own admin access.".to_string()),
            to,
        );
    }
    let role = ask_revoked_role(cursor, form)?;
    let detail = "revoked '".to_string().concat(form.role_name.as_str()).concat("' from ").concat(
        form.username.as_str(),
    );
    let flash = Flash::warning(
        "Access revoked for ".to_string().concat(form.username.as_str()).concat("."),
    );
    record_change(
        cursor,
        ProviderCall::RemoveRealmRole {
            realm: form.realm.clone(),
            user_id: form.user_id.clone(),
            role,
        },
        user.username.as_str(),
        "revoke_access",
        form.realm.as_str(),
        Some(form.username.clone()),
        detail,
        flash,
        to,
    )
}

} // verus!
