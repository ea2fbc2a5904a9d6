//! Pages: what one comes to after some of the replies is not changed by those that follow.

use super::{group_skip, only_looks};
use super::steady::{
    lemma_steady_asked, lemma_steady_call, lemma_steady_session, lemma_steady_store, steady, used,
};
use crate::asks::{
    changes_asked, client_asked, clients_asked, entries_asked, flash_asked, form_token_asked,
    groups_asked, realms_asked, roles_asked, store_asked, text_asked, time_asked, token_asked,
    user_asked, users_asked,
};
use crate::attributes::AttributesModel;
use crate::auth::token_user_asked;
use crate::config::ConfigModel;
use crate::effects::{EffectModel, ReplyModel};
use crate::lists::sorted;
use crate::pages::AccessUserModel;
use crate::portal::{handled, RequestModel};
use crate::provider::{
    users_like, GroupModel, ProviderAnswerModel, ProviderCallModel, RealmModel, UserModel,
};
use crate::routes::{badge_asked, by_name, chosen_realm, home_realm, session_required, teams_asked};
use crate::routes::admin::{
    access_asked, access_list, access_shown, admin_shown, date_text, user_by_name_asked,
    AdminQueryModel,
};
use crate::routes::audit::{audit_listed, day_shown, AuditQueryModel};
use crate::routes::auth::{
    code_accepted, logged_out, login_shown, login_started, returned, session_opened, tokens_asked,
    CallbackParamsModel,
};
use crate::routes::changes::{
    changes_listed, changes_shown, grants_asked, history_asked, look_noted, page_slice, realms_of,
    shown_page, unseen_count, visible_changes, with_grants, ChangesQueryModel,
};
use crate::routes::clients::{client_shown, clients_listed, secret_revealed, RealmQueryModel};
use crate::routes::dashboard::{dashboard_shown, overview_asked, overview_finished, recent_asked};
use crate::routes::emergency::issuer_realm;
use crate::routes::profile::{account_shown, profile_shown};
use crate::routes::teams::teams_listed;
use crate::routes::users::{
    dossier_asked, dossier_shown, form_shown, member_asked, new_user_realm, new_user_shown,
    realm_shown, similar_checked, started, user_shown, users_listed, Dossier, ListQueryModel,
    SimilarQueryModel,
};
use crate::script::Ask;
use crate::session::SessionUserModel;
use crate::storage::{PendingChangeModel, StorageCallModel};
use crate::text::trimmed;
use vstd::prelude::*;

verus! {

broadcast use group_skip;

// ── Parts of pages ───────────────────────────────────────────────────────────

pub(crate) proof fn lemma_steady_badge(user: SessionUserModel, replies: Seq<ReplyModel>, k: int)
    ensures
        steady(badge_asked(user, replies), badge_asked(user, replies.take(k)), replies, k),
{
    lemma_steady_asked(
        EffectModel::Storage(StorageCallModel::ListPendingChanges),
        replies,
        k,
    );
}

proof fn lemma_steady_form_token(replies: Seq<ReplyModel>, k: int)
    ensures
        steady(form_token_asked(replies), form_token_asked(replies.take(k)), replies, k),
{
    lemma_steady_asked(EffectModel::NewToken, replies, k);
    if let Ask::Got(token, rest) = token_asked(replies) {
        lemma_steady_asked(EffectModel::StoreText { key: "csrf"@, value: token }, rest, k - 1);
    }
}

// ── Users ────────────────────────────────────────────────────────────────────

proof fn lemma_steady_realm_shown(
    user: SessionUserModel,
    realms: Seq<RealmModel>,
    realm: Seq<char>,
    search: Option<Seq<char>>,
    replies: Seq<ReplyModel>,
    k: int,
)
    ensures
        steady(
            realm_shown(user, realms, realm, search, replies),
            realm_shown(user, realms, realm, search, replies.take(k)),
            replies,
            k,
        ),
{
    let call = ProviderCallModel::ListUsers { realm, query: users_like(search, 500) };
    lemma_steady_call(call, replies, k);
    if let Ask::Got(_, rest) = users_asked(call, replies) {
        lemma_steady_call(ProviderCallModel::ListGroups { realm }, rest, k - 1);
        if let Ask::Got(_, rest) = teams_asked(realm, rest) {
            let badge = badge_asked(user, rest);
            lemma_steady_badge(user, rest, k - 2);
            if let Ask::Got(_, last) = badge {
                lemma_steady_form_token(last, k - 2 - used(badge, rest));
            }
        }
    }
}

proof fn lemma_steady_users_listed(
    config: ConfigModel,
    query: ListQueryModel,
    replies: Seq<ReplyModel>,
    k: int,
)
    ensures
        steady(
            users_listed(config, query, replies),
            users_listed(config, query, replies.take(k)),
            replies,
            k,
        ),
{
    reveal(users_listed);
    let session = session_required(config, replies);
    lemma_steady_session(config, replies, k);
    if let Ask::Got(user, rest) = session {
        let left = k - used(session, replies);
        lemma_steady_call(ProviderCallModel::ListRealms, rest, left);
        if let Ask::Got(realms, rest) = realms_asked(ProviderCallModel::ListRealms, rest) {
            lemma_steady_realm_shown(
                user,
                realms,
                chosen_realm(query.realm, realms),
                query.search,
                rest,
                left - 1,
            );
        }
    }
}

proof fn lemma_steady_similar(
    config: ConfigModel,
    query: SimilarQueryModel,
    replies: Seq<ReplyModel>,
    k: int,
)
    ensures
        steady(
            similar_checked(config, query, replies),
            similar_checked(config, query, replies.take(k)),
            replies,
            k,
        ),
{
    reveal(similar_checked);
    let session = session_required(config, replies);
    lemma_steady_session(config, replies, k);
    if let Ask::Got(user, rest) = session {
        lemma_steady_call(
            ProviderCallModel::ListUsers {
                realm: query.realm,
                query: users_like(Some(trimmed(query.q)), 100),
            },
            rest,
            k - used(session, replies),
        );
    }
}

pub(crate) proof fn lemma_steady_member(
    realm: Seq<char>,
    id: Seq<char>,
    replies: Seq<ReplyModel>,
    k: int,
)
    ensures
        steady(
            member_asked(realm, id, replies),
            member_asked(realm, id, replies.take(k)),
            replies,
            k,
        ),
{
    let of_user = ProviderCallModel::GetUser { realm, id };
    let of_groups = ProviderCallModel::GetUserGroups { realm, user_id: id };
    lemma_steady_call(of_user, replies, k);
    if let Ask::Got(_, rest) = user_asked(of_user, replies) {
        lemma_steady_call(of_groups, rest, k - 1);
        if let Ask::Got(_, rest) = groups_asked(of_groups, rest) {
            lemma_steady_call(
                ProviderCallModel::GetUserRealmRoles { realm, user_id: id },
                rest,
                k - 2,
            );
        }
    }
}

pub(crate) proof fn lemma_steady_dossier_asked(
    realm: Seq<char>,
    id: Seq<char>,
    replies: Seq<ReplyModel>,
    k: int,
)
    ensures
        steady(
            dossier_asked(realm, id, replies),
            dossier_asked(realm, id, replies.take(k)),
            replies,
            k,
        ),
{
    let all_groups = ProviderCallModel::ListGroups { realm };
    let all_roles = ProviderCallModel::ListRealmRoles { realm };
    let member = member_asked(realm, id, replies);
    lemma_steady_member(realm, id, replies, k);
    if let Ask::Got(_, rest) = member {
        let left = k - used(member, replies);
        lemma_steady_call(all_groups, rest, left);
        if let Ask::Got(_, rest) = groups_asked(all_groups, rest) {
            lemma_steady_call(all_roles, rest, left - 1);
            if let Ask::Got(_, rest) = roles_asked(all_roles, rest) {
                lemma_steady_call(all_groups, rest, left - 2);
            }
        }
    }
}

proof fn lemma_steady_dossier_shown(
    user: SessionUserModel,
    realm: Seq<char>,
    id: Seq<char>,
    known: Dossier,
    replies: Seq<ReplyModel>,
    k: int,
)
    ensures
        steady(
            dossier_shown(user, realm, id, known, replies),
            dossier_shown(user, realm, id, known, replies.take(k)),
            replies,
            k,
        ),
{
    lemma_steady_store(StorageCallModel::ListPendingChanges, replies, k);
    if let Ask::Got(_, rest) = changes_asked(StorageCallModel::ListPendingChanges, replies) {
        lemma_steady_form_token(rest, k - 1);
        if let Ask::Got(_, rest) = form_token_asked(rest) {
            lemma_steady_asked(EffectModel::TakeFlash, rest, k - 3);
            if let Ask::Got(_, rest) = flash_asked(rest) {
                lemma_steady_badge(user, rest, k - 4);
            }
        }
    }
}

proof fn lemma_steady_user_shown(
    config: ConfigModel,
    realm: Seq<char>,
    id: Seq<char>,
    replies: Seq<ReplyModel>,
    k: int,
)
    ensures
        steady(
            user_shown(config, realm, id, replies),
            user_shown(config, realm, id, replies.take(k)),
            replies,
            k,
        ),
{
    reveal(user_shown);
    let session = session_required(config, replies);
    lemma_steady_session(config, replies, k);
    if let Ask::Got(user, rest) = session {
        let left = k - used(session, replies);
        let dossier = dossier_asked(realm, id, rest);
        lemma_steady_dossier_asked(realm, id, rest, left);
        if let Ask::Got(known, last) = dossier {
            lemma_steady_dossier_shown(user, realm, id, known, last, left - used(dossier, rest));
        }
    }
}

proof fn lemma_steady_form_shown(
    user: SessionUserModel,
    realms: Seq<RealmModel>,
    realm: Seq<char>,
    replies: Seq<ReplyModel>,
    k: int,
)
    ensures
        steady(
            form_shown(user, realms, realm, replies),
            form_shown(user, realms, realm, replies.take(k)),
            replies,
            k,
        ),
{
    lemma_steady_call(ProviderCallModel::ListGroups { realm }, replies, k);
    if let Ask::Got(_, rest) = teams_asked(realm, replies) {
        lemma_steady_form_token(rest, k - 1);
        if let Ask::Got(_, rest) = form_token_asked(rest) {
            lemma_steady_badge(user, rest, k - 3);
        }
    }
}

proof fn lemma_steady_new_user(
    config: ConfigModel,
    query: ListQueryModel,
    replies: Seq<ReplyModel>,
    k: int,
)
    ensures
        steady(
            new_user_shown(config, query, replies),
            new_user_shown(config, query, replies.take(k)),
            replies,
            k,
        ),
{
    reveal(new_user_shown);
    let session = session_required(config, replies);
    lemma_steady_session(config, replies, k);
    if let Ask::Got(user, rest) = session {
        let left = k - used(session, replies);
        lemma_steady_call(ProviderCallModel::ListRealms, rest, left);
        if let Ask::Got(realms, rest) = realms_asked(ProviderCallModel::ListRealms, rest) {
            lemma_steady_form_shown(
                user,
                realms,
                new_user_realm(config, user, query.realm, realms),
                rest,
                left - 1,
            );
        }
    }
}

// ── Changes ──────────────────────────────────────────────────────────────────

proof fn lemma_steady_grants(
    realms: Seq<Seq<char>>,
    known: AttributesModel,
    replies: Seq<ReplyModel>,
    k: int,
)
    ensures
        steady(
            grants_asked(realms, known, replies),
            grants_asked(realms, known, replies.take(k)),
            replies,
            k,
        ),
    decreases realms.len(),
{
    if realms.len() > 0 {
        let effect = EffectModel::Provider(ProviderCallModel::ListGroups { realm: realms[0] });
        lemma_steady_asked(effect, replies, k);
        if replies.len() > 0 {
            let next = match replies[0] {
                ReplyModel::Provider(ProviderAnswerModel::Groups(groups)) => with_grants(
                    known,
                    sorted(groups, by_name()),
                ),
                _ => known,
            };
            lemma_steady_grants(realms.skip(1), next, replies.skip(1), k - 1);
        }
    }
}

pub(crate) proof fn lemma_steady_look(
    user: SessionUserModel,
    replies: Seq<ReplyModel>,
    k: int,
)
    ensures
        steady(
            look_noted(user, replies),
            look_noted(user, replies.take(k)),
            replies,
            k,
        ),
{
    lemma_steady_asked(EffectModel::ReadClock, replies, k);
    if let Ask::Got(now, rest) = time_asked(replies) {
        lemma_steady_asked(
            EffectModel::StoreUser(SessionUserModel { last_seen_changes_at: Some(now), ..user }),
            rest,
            k - 1,
        );
    }
}

proof fn lemma_steady_changes_shown(
    user: SessionUserModel,
    visible: Seq<PendingChangeModel>,
    unseen: usize,
    page: int,
    replies: Seq<ReplyModel>,
    k: int,
)
    ensures
        steady(
            changes_shown(user, visible, unseen, page, replies),
            changes_shown(user, visible, unseen, page, replies.take(k)),
            replies,
            k,
        ),
{
    lemma_steady_form_token(replies, k);
    if let Ask::Got(_, rest) = form_token_asked(replies) {
        lemma_steady_asked(EffectModel::TakeFlash, rest, k - 2);
        if let Ask::Got(_, rest) = flash_asked(rest) {
            let realms = realms_of(page_slice(visible, page));
            let grants = grants_asked(realms, AttributesModel::empty(), rest);
            lemma_steady_grants(realms, AttributesModel::empty(), rest, k - 3);
            if let Ask::Got(_, last) = grants {
                lemma_steady_badge(user, last, k - 3 - used(grants, rest));
            }
        }
    }
}

proof fn lemma_steady_history(
    user: SessionUserModel,
    page: Option<usize>,
    replies: Seq<ReplyModel>,
    k: int,
)
    ensures
        steady(
            history_asked(user, page, replies),
            history_asked(user, page, replies.take(k)),
            replies,
            k,
        ),
{
    lemma_steady_store(StorageCallModel::ListChanges, replies, k);
    if let Ask::Got(changes, rest) = changes_asked(StorageCallModel::ListChanges, replies) {
        let visible = visible_changes(user, changes);
        let look = look_noted(user, rest);
        lemma_steady_look(user, rest, k - 1);
        if let Ask::Got(seen, last) = look {
            lemma_steady_changes_shown(
                seen,
                visible,
                unseen_count(user, visible) as usize,
                shown_page(page, visible.len() as int),
                last,
                k - 1 - used(look, rest),
            );
        }
    }
}

proof fn lemma_steady_changes_listed(
    config: ConfigModel,
    query: ChangesQueryModel,
    replies: Seq<ReplyModel>,
    k: int,
)
    ensures
        steady(
            changes_listed(config, query, replies),
            changes_listed(config, query, replies.take(k)),
            replies,
            k,
        ),
{
    reveal(changes_listed);
    let session = session_required(config, replies);
    lemma_steady_session(config, replies, k);
    if let Ask::Got(user, rest) = session {
        lemma_steady_history(user, query.page, rest, k - used(session, replies));
    }
}

// ── Teams, clients, profiles ─────────────────────────────────────────────────

proof fn lemma_steady_teams_listed(
    config: ConfigModel,
    replies: Seq<ReplyModel>,
    k: int,
)
    ensures
        steady(
            teams_listed(config, replies),
            teams_listed(config, replies.take(k)),
            replies,
            k,
        ),
{
    reveal(teams_listed);
    lemma_steady_session(config, replies, k);
}

proof fn lemma_steady_clients_listed(
    config: ConfigModel,
    query: RealmQueryModel,
    replies: Seq<ReplyModel>,
    k: int,
)
    ensures
        steady(
            clients_listed(config, query, replies),
            clients_listed(config, query, replies.take(k)),
            replies,
            k,
        ),
{
    reveal(clients_listed);
    let session = session_required(config, replies);
    lemma_steady_session(config, replies, k);
    if let Ask::Got(user, rest) = session {
        let left = k - used(session, replies);
        lemma_steady_call(ProviderCallModel::ListRealms, rest, left);
        if let Ask::Got(realms, rest) = realms_asked(ProviderCallModel::ListRealms, rest) {
            let call = ProviderCallModel::ListClients { realm: chosen_realm(query.realm, realms) };
            lemma_steady_call(call, rest, left - 1);
            if let Ask::Got(_, rest) = clients_asked(call, rest) {
                lemma_steady_asked(EffectModel::TakeFlash, rest, left - 2);
            }
        }
    }
}

proof fn lemma_steady_client_shown(
    config: ConfigModel,
    realm: Seq<char>,
    id: Seq<char>,
    replies: Seq<ReplyModel>,
    k: int,
)
    ensures
        steady(
            client_shown(config, realm, id, replies),
            client_shown(config, realm, id, replies.take(k)),
            replies,
            k,
        ),
{
    reveal(client_shown);
    let session = session_required(config, replies);
    lemma_steady_session(config, replies, k);
    if let Ask::Got(user, rest) = session {
        let left = k - used(session, replies);
        let call = ProviderCallModel::GetClient { realm, id };
        lemma_steady_call(call, rest, left);
        if let Ask::Got(_, rest) = client_asked(call, rest) {
            lemma_steady_form_token(rest, left - 1);
            if let Ask::Got(_, rest) = form_token_asked(rest) {
                lemma_steady_asked(EffectModel::TakeFlash, rest, left - 3);
            }
        }
    }
}

proof fn lemma_steady_secret(
    config: ConfigModel,
    realm: Seq<char>,
    id: Seq<char>,
    replies: Seq<ReplyModel>,
    k: int,
)
    ensures
        steady(
            secret_revealed(config, realm, id, replies),
            secret_revealed(config, realm, id, replies.take(k)),
            replies,
            k,
        ),
{
    reveal(secret_revealed);
    let session = session_required(config, replies);
    lemma_steady_session(config, replies, k);
    if let Ask::Got(user, rest) = session {
        lemma_steady_call(
            ProviderCallModel::GetClientSecret { realm, id },
            rest,
            k - used(session, replies),
        );
    }
}

proof fn lemma_steady_account(
    user: SessionUserModel,
    realm: Seq<char>,
    replies: Seq<ReplyModel>,
    k: int,
)
    ensures
        steady(
            account_shown(user, realm, replies),
            account_shown(user, realm, replies.take(k)),
            replies,
            k,
        ),
{
    lemma_steady_call(
        ProviderCallModel::ListUsers { realm, query: users_like(Some(user.username), 100) },
        replies,
        k,
    );
    if let Ask::Got(subject, rest) = user_by_name_asked(realm, user.username, replies) {
        let left = k - 1;
        let of_roles = ProviderCallModel::GetUserRealmRoles { realm, user_id: subject.id };
        let of_groups = ProviderCallModel::GetUserGroups { realm, user_id: subject.id };
        lemma_steady_call(of_roles, rest, left);
        if let Ask::Got(_, rest) = roles_asked(of_roles, rest) {
            lemma_steady_call(of_groups, rest, left - 1);
            if let Ask::Got(_, rest) = groups_asked(of_groups, rest) {
                lemma_steady_badge(user, rest, left - 2);
            }
        }
    }
}

proof fn lemma_steady_profile(
    config: ConfigModel,
    replies: Seq<ReplyModel>,
    k: int,
)
    ensures
        steady(
            profile_shown(config, replies),
            profile_shown(config, replies.take(k)),
            replies,
            k,
        ),
{
    reveal(profile_shown);
    let session = session_required(config, replies);
    lemma_steady_session(config, replies, k);
    if let Ask::Got(user, rest) = session {
        lemma_steady_account(user, issuer_realm(config), rest, k - used(session, replies));
    }
}

// ── Admins ───────────────────────────────────────────────────────────────────

proof fn lemma_steady_day_shown(
    user: SessionUserModel,
    date: Seq<char>,
    replies: Seq<ReplyModel>,
    k: int,
)
    ensures
        steady(day_shown(user, date, replies), day_shown(user, date, replies.take(k)), replies, k),
{
    let call = StorageCallModel::ListAudit { date: Some(date) };
    lemma_steady_store(call, replies, k);
    if let Ask::Got(_, rest) = entries_asked(call, replies) {
        lemma_steady_asked(
            EffectModel::Storage(StorageCallModel::ListPendingChanges),
            rest,
            k - 1,
        );
    }
}

proof fn lemma_steady_audit_listed(
    config: ConfigModel,
    query: AuditQueryModel,
    replies: Seq<ReplyModel>,
    k: int,
)
    ensures
        steady(
            audit_listed(config, query, replies),
            audit_listed(config, query, replies.take(k)),
            replies,
            k,
        ),
{
    reveal(audit_listed);
    let session = session_required(config, replies);
    lemma_steady_session(config, replies, k);
    if let Ask::Got(user, rest) = session {
        let left = k - used(session, replies);
        lemma_steady_asked(EffectModel::ReadClock, rest, left);
        if let Ask::Got(now, rest) = time_asked(rest) {
            let date = match query.date {
                Some(date) => date,
                None => date_text(now),
            };
            lemma_steady_day_shown(user, date, rest, left - 1);
        }
    }
}

proof fn lemma_steady_overview_finished(
    user: SessionUserModel,
    realm: Seq<char>,
    users: Seq<UserModel>,
    teams: Seq<GroupModel>,
    changes: Seq<PendingChangeModel>,
    replies: Seq<ReplyModel>,
    k: int,
)
    ensures
        steady(
            overview_finished(user, realm, users, teams, changes, replies),
            overview_finished(user, realm, users, teams, changes, replies.take(k)),
            replies,
            k,
        ),
{
    let recent = recent_asked(user, replies);
    lemma_steady_store(StorageCallModel::ListAudit { date: None }, replies, k);
    if let Ask::Got(_, rest) = recent {
        lemma_steady_badge(user, rest, k - used(recent, replies));
    }
}

proof fn lemma_steady_overview(
    user: SessionUserModel,
    realm: Seq<char>,
    replies: Seq<ReplyModel>,
    k: int,
)
    ensures
        steady(
            overview_asked(user, realm, replies),
            overview_asked(user, realm, replies.take(k)),
            replies,
            k,
        ),
{
    let of_users = ProviderCallModel::ListUsers { realm, query: users_like(None, 2000) };
    lemma_steady_call(of_users, replies, k);
    if let Ask::Got(users, rest) = users_asked(of_users, replies) {
        lemma_steady_call(ProviderCallModel::ListGroups { realm }, rest, k - 1);
        if let Ask::Got(teams, rest) = teams_asked(realm, rest) {
            lemma_steady_store(StorageCallModel::ListChanges, rest, k - 2);
            if let Ask::Got(changes, rest) = changes_asked(StorageCallModel::ListChanges, rest) {
                lemma_steady_overview_finished(user, realm, users, teams, changes, rest, k - 3);
            }
        }
    }
}

proof fn lemma_steady_dashboard(
    config: ConfigModel,
    replies: Seq<ReplyModel>,
    k: int,
)
    ensures
        steady(
            dashboard_shown(config, replies),
            dashboard_shown(config, replies.take(k)),
            replies,
            k,
        ),
{
    reveal(dashboard_shown);
    let session = session_required(config, replies);
    lemma_steady_session(config, replies, k);
    if let Ask::Got(user, rest) = session {
        lemma_steady_overview(user, home_realm(config), rest, k - used(session, replies));
    }
}

proof fn lemma_steady_access_shown(
    config: ConfigModel,
    user: SessionUserModel,
    realms: Seq<RealmModel>,
    realm: Seq<char>,
    access_users: Seq<AccessUserModel>,
    log_date: Option<Seq<char>>,
    replies: Seq<ReplyModel>,
    k: int,
)
    ensures
        steady(
            access_shown(config, user, realms, realm, access_users, log_date, replies),
            access_shown(config, user, realms, realm, access_users, log_date, replies.take(k)),
            replies,
            k,
        ),
{
    let call = StorageCallModel::ListAudit { date: log_date };
    lemma_steady_store(call, replies, k);
    if let Ask::Got(_, rest) = entries_asked(call, replies) {
        lemma_steady_form_token(rest, k - 1);
        if let Ask::Got(_, rest) = form_token_asked(rest) {
            lemma_steady_asked(EffectModel::TakeFlash, rest, k - 3);
            if let Ask::Got(_, rest) = flash_asked(rest) {
                lemma_steady_asked(
                    EffectModel::Storage(StorageCallModel::ListPendingChanges),
                    rest,
                    k - 4,
                );
                if rest.len() > 0 {
                    lemma_steady_asked(EffectModel::ReadClock, rest.skip(1), k - 5);
                }
            }
        }
    }
}

proof fn lemma_steady_access_asked(
    config: ConfigModel,
    user: SessionUserModel,
    realms: Seq<RealmModel>,
    realm: Seq<char>,
    log_date: Option<Seq<char>>,
    replies: Seq<ReplyModel>,
    k: int,
)
    ensures
        steady(
            access_asked(config, user, realms, realm, log_date, replies),
            access_asked(config, user, realms, realm, log_date, replies.take(k)),
            replies,
            k,
        ),
{
    let of_admins = ProviderCallModel::ListRoleUsers { realm, role_name: config.role_admin };
    let of_operators = ProviderCallModel::ListRoleUsers { realm, role_name: config.role_operator };
    lemma_steady_call(of_admins, replies, k);
    if let Ask::Got(admins, rest) = users_asked(of_admins, replies) {
        lemma_steady_call(of_operators, rest, k - 1);
        if let Ask::Got(operators, rest) = users_asked(of_operators, rest) {
            lemma_steady_access_shown(
                config,
                user,
                realms,
                realm,
                access_list(admins, operators, realm),
                log_date,
                rest,
                k - 2,
            );
        }
    }
}

proof fn lemma_steady_admin_shown(
    config: ConfigModel,
    query: AdminQueryModel,
    replies: Seq<ReplyModel>,
    k: int,
)
    ensures
        steady(
            admin_shown(config, query, replies),
            admin_shown(config, query, replies.take(k)),
            replies,
            k,
        ),
{
    reveal(admin_shown);
    let session = session_required(config, replies);
    lemma_steady_session(config, replies, k);
    if let Ask::Got(user, rest) = session {
        let left = k - used(session, replies);
        lemma_steady_call(ProviderCallModel::ListRealms, rest, left);
        if let Ask::Got(realms, rest) = realms_asked(ProviderCallModel::ListRealms, rest) {
            lemma_steady_access_asked(
                config,
                user,
                realms,
                chosen_realm(query.realm, realms),
                query.log_date,
                rest,
                left - 1,
            );
        }
    }
}

// ── Signing in and out ───────────────────────────────────────────────────────

proof fn lemma_steady_login_started(
    config: ConfigModel,
    replies: Seq<ReplyModel>,
    k: int,
)
    ensures
        steady(
            login_started(config, replies),
            login_started(config, replies.take(k)),
            replies,
            k,
        ),
{
    reveal(login_started);
    lemma_steady_asked(EffectModel::NewToken, replies, k);
    if let Ask::Got(state, rest) = token_asked(replies) {
        lemma_steady_asked(EffectModel::NewToken, rest, k - 1);
        if let Ask::Got(nonce, rest) = token_asked(rest) {
            let first = EffectModel::StoreText { key: "oauth_state"@, value: state };
            lemma_steady_asked(first, rest, k - 2);
            if let Ask::Got(_, rest) = store_asked(first, rest) {
                lemma_steady_asked(
                    EffectModel::StoreText { key: "oauth_nonce"@, value: nonce },
                    rest,
                    k - 3,
                );
            }
        }
    }
}

proof fn lemma_steady_session_opened(
    user: SessionUserModel,
    replies: Seq<ReplyModel>,
    k: int,
)
    ensures
        steady(
            session_opened(user, replies),
            session_opened(user, replies.take(k)),
            replies,
            k,
        ),
{
    let first = EffectModel::DropText { key: "oauth_state"@ };
    let second = EffectModel::DropText { key: "oauth_nonce"@ };
    lemma_steady_asked(first, replies, k);
    if let Ask::Got(_, rest) = store_asked(first, replies) {
        lemma_steady_asked(second, rest, k - 1);
        if let Ask::Got(_, rest) = store_asked(second, rest) {
            lemma_steady_asked(EffectModel::StoreUser(user), rest, k - 2);
        }
    }
}

proof fn lemma_steady_code_accepted(
    config: ConfigModel,
    code: Seq<char>,
    nonce: Seq<char>,
    replies: Seq<ReplyModel>,
    k: int,
)
    ensures
        steady(
            code_accepted(config, code, nonce, replies),
            code_accepted(config, code, nonce, replies.take(k)),
            replies,
            k,
        ),
{
    lemma_steady_asked(EffectModel::ExchangeCode { code }, replies, k);
    if let Ask::Got(tokens, rest) = tokens_asked(code, replies) {
        let token = tokens.access_token;
        lemma_steady_asked(EffectModel::VerifyToken { token }, rest, k - 1);
        if let Ask::Got(user, rest) = token_user_asked(config, token, rest) {
            lemma_steady_session_opened(user, rest, k - 2);
        }
    }
}

proof fn lemma_steady_returned(
    config: ConfigModel,
    params: CallbackParamsModel,
    replies: Seq<ReplyModel>,
    k: int,
)
    ensures
        steady(
            returned(config, params, replies),
            returned(config, params, replies.take(k)),
            replies,
            k,
        ),
{
    reveal(returned);
    if let Some(code) = params.code {
        lemma_steady_asked(EffectModel::LoadText { key: "oauth_state"@ }, replies, k);
        if let Ask::Got(_, rest) = text_asked("oauth_state"@, replies) {
            lemma_steady_asked(EffectModel::LoadText { key: "oauth_nonce"@ }, rest, k - 1);
            if let Ask::Got(Some(nonce), rest) = text_asked("oauth_nonce"@, rest) {
                lemma_steady_code_accepted(config, code, nonce, rest, k - 2);
            }
        }
    }
}

/// What the first replies of a request for a page come to goes with what all of them come to.
pub(crate) proof fn lemma_steady_page(
    config: ConfigModel,
    request: RequestModel,
    replies: Seq<ReplyModel>,
    k: int,
)
    requires
        only_looks(request),
    ensures
        steady(
            handled(config, request, replies),
            handled(config, request, replies.take(k)),
            replies,
            k,
        ),
{
    match request {
        RequestModel::Index => {
            reveal(started);
            lemma_steady_asked(EffectModel::LoadUser, replies, k);
        },
        RequestModel::Login => {
            reveal(login_shown);
        },
        RequestModel::StartLogin => lemma_steady_login_started(config, replies, k),
        RequestModel::Callback(params) => lemma_steady_returned(config, params, replies, k),
        RequestModel::Logout => {
            reveal(logged_out);
            lemma_steady_asked(EffectModel::EndSession, replies, k);
        },
        RequestModel::ListUsers(query) => lemma_steady_users_listed(config, query, replies, k),
        RequestModel::CheckSimilar(query) => lemma_steady_similar(config, query, replies, k),
        RequestModel::NewUserForm(query) => lemma_steady_new_user(config, query, replies, k),
        RequestModel::UserDetail { realm, id } => lemma_steady_user_shown(
            config,
            realm,
            id,
            replies,
            k,
        ),
        RequestModel::ListChanges(query) => lemma_steady_changes_listed(config, query, replies, k),
        RequestModel::ListTeams => lemma_steady_teams_listed(config, replies, k),
        RequestModel::ListClients(query) => lemma_steady_clients_listed(config, query, replies, k),
        RequestModel::ClientDetail { realm, id } => lemma_steady_client_shown(
            config,
            realm,
            id,
            replies,
            k,
        ),
        RequestModel::RevealSecret { realm, id } => lemma_steady_secret(
            config,
            realm,
            id,
            replies,
            k,
        ),
        RequestModel::Profile => lemma_steady_profile(config, replies, k),
        RequestModel::ListAudit(query) => lemma_steady_audit_listed(config, query, replies, k),
        RequestModel::Dashboard => lemma_steady_dashboard(config, replies, k),
        RequestModel::AdminPanel(query) => lemma_steady_admin_shown(config, query, replies, k),
        _ => {},
    }
}

} // verus!
