//! Forms, and the token that each is sent with.

use super::{group_skip, performs};
use super::pages::{lemma_steady_badge, lemma_steady_dossier_asked, lemma_steady_look};
use super::steady::{
    lemma_steady, lemma_steady_call, lemma_steady_session, lemma_steady_store, used,
};
use crate::asks::{changes_asked, form_token_asked, realms_asked};
use crate::config::ConfigModel;
use crate::effects::{Asked, EffectModel, OutcomeModel, ReplyModel, StepModel};
use crate::pages::PageModel;
use crate::portal::{handled, response, RequestModel};
use crate::provider::{users_like, ProviderCallModel, RealmModel};
use crate::routes::{badge_asked, chosen_realm, session_required};
use crate::routes::admin::{
    access_asked, access_granted, access_revoked, admin_shown, AdminQueryModel, GrantFormModel,
    RevokeFormModel,
};
use crate::routes::audit::{audit_listed, AuditQueryModel};
use crate::routes::auth::{logged_out, login_shown, login_started, returned, CallbackParamsModel};
use crate::routes::changes::{
    change_approved, change_cancelled, change_rejected, changes_listed, changes_shown,
    history_asked, look_noted, shown_page, unseen_count, visible_changes, ChangesQueryModel,
    ConfirmFormModel, RejectFormModel,
};
use crate::routes::clients::{
    client_edited, client_shown, clients_listed, secret_revealed, EditClientFormModel,
    RealmQueryModel,
};
use crate::routes::dashboard::dashboard_shown;
use crate::routes::emergency::{emergency_promoted, PromoteBodyModel};
use crate::routes::profile::profile_shown;
use crate::routes::teams::{team_created, teams_listed, CreateTeamFormModel};
use crate::routes::users::{
    dossier_asked, dossier_shown, form_shown, new_user_realm, new_user_shown, realm_shown,
    similar_checked, started, user_shown, users_listed, Dossier, ListQueryModel, SimilarQueryModel,
};
use crate::routes::users::access::{
    password_set, role_assigned, role_removed, RoleAssignFormModel, RoleRemoveFormModel,
    SetPasswordFormModel,
};
use crate::routes::users::bulk::{bulk_edited, BulkEditBodyModel};
use crate::routes::users::create::{user_created, NewUserFormModel};
use crate::routes::users::edit::{user_edited, EditFormModel};
use crate::script::Ask;
use crate::session::SessionUserModel;
use crate::storage::{PendingChangeModel, StorageCallModel};
use vstd::prelude::*;

verus! {

broadcast use group_skip;

/// Where a form's token has been drawn and stored, it was stored with the second reply.
proof fn lemma_token_is_stored(replies: Seq<ReplyModel>)
    requires
        form_token_asked(replies) is Got,
    ensures
        form_token_asked(replies)->Got_1 == replies.skip(2),
        form_token_asked(replies.take(1)) == Ask::<Seq<char>, ReplyModel, StepModel>::Stop(
            StepModel::Perform(
                EffectModel::StoreText { key: "csrf"@, value: form_token_asked(replies)->Got_0 },
            ),
        ),
        replies[1] == ReplyModel::Done,
{
    assert(replies.take(1).skip(1) =~= Seq::empty());
}

/// The token that the forms on a page are sent with.
pub open spec fn page_token(page: PageModel) -> Option<Seq<char>> {
    match page {
        PageModel::Users(page) => Some(page.csrf),
        PageModel::User(page) => Some(page.csrf),
        PageModel::NewUser(page) => Some(page.csrf),
        PageModel::Changes(page) => Some(page.csrf),
        PageModel::Client(page) => Some(page.csrf),
        PageModel::Admin(page) => Some(page.csrf),
        _ => None,
    }
}

/// The part that all replies finish with a page is, after the first `k` of them, about to put
/// the token of that page into the session; and reply `k` says that this was done.
spec fn stores_token(
    whole: Asked<OutcomeModel>,
    part: Asked<OutcomeModel>,
    replies: Seq<ReplyModel>,
    k: int,
) -> bool {
    whole matches Ask::Got(OutcomeModel::Page(page), _) ==> (page_token(page) matches Some(token)
        ==> 0 <= k < replies.len() && replies[k] == ReplyModel::Done && part == Ask::<
        OutcomeModel,
        ReplyModel,
        StepModel,
    >::Stop(StepModel::Perform(EffectModel::StoreText { key: "csrf"@, value: token })))
}

proof fn lemma_token_realm_shown(
    user: SessionUserModel,
    realms: Seq<RealmModel>,
    realm: Seq<char>,
    search: Option<Seq<char>>,
    replies: Seq<ReplyModel>,
) -> (k: int)
    ensures
        stores_token(
            realm_shown(user, realms, realm, search, replies),
            realm_shown(user, realms, realm, search, replies.take(k)),
            replies,
            k,
        ),
{
    if realm_shown(user, realms, realm, search, replies) is Got {
        let badge = badge_asked(user, replies.skip(2));
        let k = 3 + used(badge, replies.skip(2));
        lemma_steady_call(
            ProviderCallModel::ListUsers { realm, query: users_like(search, 500) },
            replies,
            k,
        );
        lemma_steady_call(ProviderCallModel::ListGroups { realm }, replies.skip(1), k - 1);
        lemma_steady_badge(user, replies.skip(2), k - 2);
        lemma_token_is_stored(badge->Got_1);
        k
    } else {
        0
    }
}

proof fn lemma_token_users_listed(
    config: ConfigModel,
    query: ListQueryModel,
    replies: Seq<ReplyModel>,
) -> (k: int)
    ensures
        stores_token(
            users_listed(config, query, replies),
            users_listed(config, query, replies.take(k)),
            replies,
            k,
        ),
{
    reveal(users_listed);
    let session = session_required(config, replies);
    if let Ask::Got(user, rest) = session {
        if let Ask::Got(realms, last) = realms_asked(ProviderCallModel::ListRealms, rest) {
            let realm = chosen_realm(query.realm, realms);
            let k = used(session, replies) + 1 + lemma_token_realm_shown(
                user,
                realms,
                realm,
                query.search,
                last,
            );
            lemma_steady_session(config, replies, k);
            lemma_steady_call(ProviderCallModel::ListRealms, rest, k - used(session, replies));
            k
        } else {
            0
        }
    } else {
        0
    }
}

proof fn lemma_token_dossier_shown(
    user: SessionUserModel,
    realm: Seq<char>,
    id: Seq<char>,
    known: Dossier,
    replies: Seq<ReplyModel>,
) -> (k: int)
    ensures
        stores_token(
            dossier_shown(user, realm, id, known, replies),
            dossier_shown(user, realm, id, known, replies.take(k)),
            replies,
            k,
        ),
{
    if dossier_shown(user, realm, id, known, replies) is Got {
        lemma_steady_store(StorageCallModel::ListPendingChanges, replies, 2);
        lemma_token_is_stored(replies.skip(1));
    }
    2
}

proof fn lemma_token_user_shown(
    config: ConfigModel,
    realm: Seq<char>,
    id: Seq<char>,
    replies: Seq<ReplyModel>,
) -> (k: int)
    ensures
        stores_token(
            user_shown(config, realm, id, replies),
            user_shown(config, realm, id, replies.take(k)),
            replies,
            k,
        ),
{
    reveal(user_shown);
    let session = session_required(config, replies);
    if let Ask::Got(user, rest) = session {
        let dossier = dossier_asked(realm, id, rest);
        if let Ask::Got(known, last) = dossier {
            let n = used(session, replies);
            let k = n + used(dossier, rest) + lemma_token_dossier_shown(
                user,
                realm,
                id,
                known,
                last,
            );
            lemma_steady_session(config, replies, k);
            lemma_steady_dossier_asked(realm, id, rest, k - n);
            k
        } else {
            0
        }
    } else {
        0
    }
}

proof fn lemma_token_form_shown(
    user: SessionUserModel,
    realms: Seq<RealmModel>,
    realm: Seq<char>,
    replies: Seq<ReplyModel>,
) -> (k: int)
    ensures
        stores_token(
            form_shown(user, realms, realm, replies),
            form_shown(user, realms, realm, replies.take(k)),
            replies,
            k,
        ),
{
    if form_shown(user, realms, realm, replies) is Got {
        lemma_steady_call(ProviderCallModel::ListGroups { realm }, replies, 2);
        lemma_token_is_stored(replies.skip(1));
    }
    2
}

proof fn lemma_token_new_user(
    config: ConfigModel,
    query: ListQueryModel,
    replies: Seq<ReplyModel>,
) -> (k: int)
    ensures
        stores_token(
            new_user_shown(config, query, replies),
            new_user_shown(config, query, replies.take(k)),
            replies,
            k,
        ),
{
    reveal(new_user_shown);
    let session = session_required(config, replies);
    if let Ask::Got(user, rest) = session {
        if let Ask::Got(realms, last) = realms_asked(ProviderCallModel::ListRealms, rest) {
            let n = used(session, replies);
            let k = n + 1 + lemma_token_form_shown(
                user,
                realms,
                new_user_realm(config, user, query.realm, realms),
                last,
            );
            lemma_steady_session(config, replies, k);
            lemma_steady_call(ProviderCallModel::ListRealms, rest, k - n);
            k
        } else {
            0
        }
    } else {
        0
    }
}

proof fn lemma_token_changes_shown(
    user: SessionUserModel,
    visible: Seq<PendingChangeModel>,
    unseen: usize,
    page: int,
    replies: Seq<ReplyModel>,
) -> (k: int)
    ensures
        stores_token(
            changes_shown(user, visible, unseen, page, replies),
            changes_shown(user, visible, unseen, page, replies.take(k)),
            replies,
            k,
        ),
{
    if changes_shown(user, visible, unseen, page, replies) is Got {
        lemma_token_is_stored(replies);
    }
    1
}

proof fn lemma_token_history(
    user: SessionUserModel,
    page: Option<usize>,
    replies: Seq<ReplyModel>,
) -> (k: int)
    ensures
        stores_token(
            history_asked(user, page, replies),
            history_asked(user, page, replies.take(k)),
            replies,
            k,
        ),
{
    if let Ask::Got(changes, rest) = changes_asked(StorageCallModel::ListChanges, replies) {
        let look = look_noted(user, rest);
        if let Ask::Got(seen, last) = look {
            let visible = visible_changes(user, changes);
            let k = 1 + used(look, rest) + lemma_token_changes_shown(
                seen,
                visible,
                unseen_count(user, visible) as usize,
                shown_page(page, visible.len() as int),
                last,
            );
            lemma_steady_store(StorageCallModel::ListChanges, replies, k);
            lemma_steady_look(user, rest, k - 1);
            k
        } else {
            0
        }
    } else {
        0
    }
}

proof fn lemma_token_changes_listed(
    config: ConfigModel,
    query: ChangesQueryModel,
    replies: Seq<ReplyModel>,
) -> (k: int)
    ensures
        stores_token(
            changes_listed(config, query, replies),
            changes_listed(config, query, replies.take(k)),
            replies,
            k,
        ),
{
    reveal(changes_listed);
    let session = session_required(config, replies);
    if let Ask::Got(user, rest) = session {
        let n = used(session, replies);
        let k = n + lemma_token_history(user, query.page, rest);
        lemma_steady_session(config, replies, k);
        k
    } else {
        0
    }
}

proof fn lemma_token_client_shown(
    config: ConfigModel,
    realm: Seq<char>,
    id: Seq<char>,
    replies: Seq<ReplyModel>,
) -> (k: int)
    ensures
        stores_token(
            client_shown(config, realm, id, replies),
            client_shown(config, realm, id, replies.take(k)),
            replies,
            k,
        ),
{
    reveal(client_shown);
    let session = session_required(config, replies);
    let n = used(session, replies);
    if client_shown(config, realm, id, replies) is Got {
        let rest = session->Got_1;
        lemma_steady_session(config, replies, n + 2);
        lemma_steady_call(ProviderCallModel::GetClient { realm, id }, rest, 2);
        lemma_token_is_stored(rest.skip(1));
    }
    n + 2
}

proof fn lemma_token_access_asked(
    config: ConfigModel,
    user: SessionUserModel,
    realms: Seq<RealmModel>,
    realm: Seq<char>,
    log_date: Option<Seq<char>>,
    replies: Seq<ReplyModel>,
) -> (k: int)
    ensures
        stores_token(
            access_asked(config, user, realms, realm, log_date, replies),
            access_asked(config, user, realms, realm, log_date, replies.take(k)),
            replies,
            k,
        ),
{
    if access_asked(config, user, realms, realm, log_date, replies) is Got {
        let of_admins = ProviderCallModel::ListRoleUsers { realm, role_name: config.role_admin };
        let of_operators = ProviderCallModel::ListRoleUsers {
            realm,
            role_name: config.role_operator,
        };
        lemma_steady_call(of_admins, replies, 4);
        lemma_steady_call(of_operators, replies.skip(1), 3);
        lemma_steady_store(StorageCallModel::ListAudit { date: log_date }, replies.skip(2), 2);
        lemma_token_is_stored(replies.skip(3));
    }
    4
}

proof fn lemma_token_admin_shown(
    config: ConfigModel,
    query: AdminQueryModel,
    replies: Seq<ReplyModel>,
) -> (k: int)
    ensures
        stores_token(
            admin_shown(config, query, replies),
            admin_shown(config, query, replies.take(k)),
            replies,
            k,
        ),
{
    reveal(admin_shown);
    let session = session_required(config, replies);
    if let Ask::Got(user, rest) = session {
        if let Ask::Got(realms, last) = realms_asked(ProviderCallModel::ListRealms, rest) {
            let n = used(session, replies);
            let k = n + 1 + lemma_token_access_asked(
                config,
                user,
                realms,
                chosen_realm(query.realm, realms),
                query.log_date,
                last,
            );
            lemma_steady_session(config, replies, k);
            lemma_steady_call(ProviderCallModel::ListRealms, rest, k - n);
            k
        } else {
            0
        }
    } else {
        0
    }
}

/// Where a request comes to a page, no form is on it.
spec fn shows_no_form(ask: Asked<OutcomeModel>) -> bool {
    ask matches Ask::Got(OutcomeModel::Page(page), _) ==> page_token(page) is None
}

proof fn lemma_no_form_started(replies: Seq<ReplyModel>)
    ensures
        shows_no_form(started(replies)),
{
    reveal(started);
}

proof fn lemma_no_form_login_shown(config: ConfigModel, replies: Seq<ReplyModel>)
    ensures
        shows_no_form(login_shown(config, replies)),
{
    reveal(login_shown);
}

proof fn lemma_no_form_login_started(config: ConfigModel, replies: Seq<ReplyModel>)
    ensures
        shows_no_form(login_started(config, replies)),
{
    reveal(login_started);
}

proof fn lemma_no_form_returned(
    config: ConfigModel,
    params: CallbackParamsModel,
    replies: Seq<ReplyModel>,
)
    ensures
        shows_no_form(returned(config, params, replies)),
{
    reveal(returned);
}

proof fn lemma_no_form_logged_out(config: ConfigModel, replies: Seq<ReplyModel>)
    ensures
        shows_no_form(logged_out(config, replies)),
{
    reveal(logged_out);
}

proof fn lemma_no_form_similar_checked(
    config: ConfigModel,
    query: SimilarQueryModel,
    replies: Seq<ReplyModel>,
)
    ensures
        shows_no_form(similar_checked(config, query, replies)),
{
    reveal(similar_checked);
}

proof fn lemma_no_form_teams_listed(config: ConfigModel, replies: Seq<ReplyModel>)
    ensures
        shows_no_form(teams_listed(config, replies)),
{
    reveal(teams_listed);
}

proof fn lemma_no_form_clients_listed(
    config: ConfigModel,
    query: RealmQueryModel,
    replies: Seq<ReplyModel>,
)
    ensures
        shows_no_form(clients_listed(config, query, replies)),
{
    reveal(clients_listed);
}

proof fn lemma_no_form_secret_revealed(
    config: ConfigModel,
    realm: Seq<char>,
    id: Seq<char>,
    replies: Seq<ReplyModel>,
)
    ensures
        shows_no_form(secret_revealed(config, realm, id, replies)),
{
    reveal(secret_revealed);
}

proof fn lemma_no_form_profile_shown(config: ConfigModel, replies: Seq<ReplyModel>)
    ensures
        shows_no_form(profile_shown(config, replies)),
{
    reveal(profile_shown);
}

proof fn lemma_no_form_audit_listed(
    config: ConfigModel,
    query: AuditQueryModel,
    replies: Seq<ReplyModel>,
)
    ensures
        shows_no_form(audit_listed(config, query, replies)),
{
    reveal(audit_listed);
}

proof fn lemma_no_form_dashboard_shown(config: ConfigModel, replies: Seq<ReplyModel>)
    ensures
        shows_no_form(dashboard_shown(config, replies)),
{
    reveal(dashboard_shown);
}

proof fn lemma_no_form_bulk_edited(
    config: ConfigModel,
    body: BulkEditBodyModel,
    replies: Seq<ReplyModel>,
)
    ensures
        shows_no_form(bulk_edited(config, body, replies)),
{
    reveal(bulk_edited);
}

proof fn lemma_no_form_user_created(
    config: ConfigModel,
    form: NewUserFormModel,
    replies: Seq<ReplyModel>,
)
    ensures
        shows_no_form(user_created(config, form, replies)),
{
    reveal(user_created);
}

proof fn lemma_no_form_user_edited(
    config: ConfigModel,
    realm: Seq<char>,
    id: Seq<char>,
    form: EditFormModel,
    replies: Seq<ReplyModel>,
)
    ensures
        shows_no_form(user_edited(config, realm, id, form, replies)),
{
    reveal(user_edited);
}

proof fn lemma_no_form_role_assigned(
    config: ConfigModel,
    realm: Seq<char>,
    id: Seq<char>,
    role: RoleAssignFormModel,
    replies: Seq<ReplyModel>,
)
    ensures
        shows_no_form(role_assigned(config, realm, id, role, replies)),
{
    reveal(role_assigned);
}

proof fn lemma_no_form_role_removed(
    config: ConfigModel,
    realm: Seq<char>,
    id: Seq<char>,
    removal: RoleRemoveFormModel,
    replies: Seq<ReplyModel>,
)
    ensures
        shows_no_form(role_removed(config, realm, id, removal, replies)),
{
    reveal(role_removed);
}

proof fn lemma_no_form_password_set(
    config: ConfigModel,
    realm: Seq<char>,
    id: Seq<char>,
    password: SetPasswordFormModel,
    replies: Seq<ReplyModel>,
)
    ensures
        shows_no_form(password_set(config, realm, id, password, replies)),
{
    reveal(password_set);
}

proof fn lemma_no_form_change_approved(
    config: ConfigModel,
    id: Seq<char>,
    confirm: ConfirmFormModel,
    replies: Seq<ReplyModel>,
)
    ensures
        shows_no_form(change_approved(config, id, confirm, replies)),
{
    reveal(change_approved);
}

proof fn lemma_no_form_change_rejected(
    config: ConfigModel,
    id: Seq<char>,
    rejection: RejectFormModel,
    replies: Seq<ReplyModel>,
)
    ensures
        shows_no_form(change_rejected(config, id, rejection, replies)),
{
    reveal(change_rejected);
}

proof fn lemma_no_form_change_cancelled(
    config: ConfigModel,
    id: Seq<char>,
    confirm: ConfirmFormModel,
    replies: Seq<ReplyModel>,
)
    ensures
        shows_no_form(change_cancelled(config, id, confirm, replies)),
{
    reveal(change_cancelled);
}

proof fn lemma_no_form_team_created(
    config: ConfigModel,
    form: CreateTeamFormModel,
    replies: Seq<ReplyModel>,
)
    ensures
        shows_no_form(team_created(config, form, replies)),
{
    reveal(team_created);
}

proof fn lemma_no_form_client_edited(
    config: ConfigModel,
    realm: Seq<char>,
    id: Seq<char>,
    client: EditClientFormModel,
    replies: Seq<ReplyModel>,
)
    ensures
        shows_no_form(client_edited(config, realm, id, client, replies)),
{
    reveal(client_edited);
}

proof fn lemma_no_form_access_granted(
    config: ConfigModel,
    form: GrantFormModel,
    replies: Seq<ReplyModel>,
)
    ensures
        shows_no_form(access_granted(config, form, replies)),
{
    reveal(access_granted);
}

proof fn lemma_no_form_access_revoked(
    config: ConfigModel,
    form: RevokeFormModel,
    replies: Seq<ReplyModel>,
)
    ensures
        shows_no_form(access_revoked(config, form, replies)),
{
    reveal(access_revoked);
}

proof fn lemma_no_form_emergency_promoted(
    config: ConfigModel,
    ip: Seq<char>,
    body: PromoteBodyModel,
    replies: Seq<ReplyModel>,
)
    ensures
        shows_no_form(emergency_promoted(config, ip, body, replies)),
{
    reveal(emergency_promoted);
}

proof fn lemma_other_pages(config: ConfigModel, request: RequestModel, replies: Seq<ReplyModel>)
    requires
        !(request is ListUsers),
        !(request is UserDetail),
        !(request is NewUserForm),
        !(request is ListChanges),
        !(request is ClientDetail),
        !(request is AdminPanel),
    ensures
        shows_no_form(handled(config, request, replies)),
{
    match request {
        RequestModel::Index => lemma_no_form_started(replies),
        RequestModel::Login => lemma_no_form_login_shown(config, replies),
        RequestModel::StartLogin => lemma_no_form_login_started(config, replies),
        RequestModel::Callback(params) => lemma_no_form_returned(config, params, replies),
        RequestModel::Logout => lemma_no_form_logged_out(config, replies),
        RequestModel::CheckSimilar(query) => lemma_no_form_similar_checked(config, query, replies),
        RequestModel::ListTeams => lemma_no_form_teams_listed(config, replies),
        RequestModel::ListClients(query) => lemma_no_form_clients_listed(config, query, replies),
        RequestModel::RevealSecret { realm, id } => lemma_no_form_secret_revealed(
            config,
            realm,
            id,
            replies,
        ),
        RequestModel::Profile => lemma_no_form_profile_shown(config, replies),
        RequestModel::ListAudit(query) => lemma_no_form_audit_listed(config, query, replies),
        RequestModel::Dashboard => lemma_no_form_dashboard_shown(config, replies),
        RequestModel::BulkEdit(body) => lemma_no_form_bulk_edited(config, body, replies),
        RequestModel::CreateUser(form) => lemma_no_form_user_created(config, form, replies),
        RequestModel::EditUser { realm, id, form } => lemma_no_form_user_edited(
            config,
            realm,
            id,
            form,
            replies,
        ),
        RequestModel::AssignRole { realm, id, role } => lemma_no_form_role_assigned(
            config,
            realm,
            id,
            role,
            replies,
        ),
        RequestModel::RemoveRole { realm, id, removal } => lemma_no_form_role_removed(
            config,
            realm,
            id,
            removal,
            replies,
        ),
        RequestModel::SetPassword { realm, id, password } => lemma_no_form_password_set(
            config,
            realm,
            id,
            password,
            replies,
        ),
        RequestModel::Approve { id, confirm } => lemma_no_form_change_approved(
            config,
            id,
            confirm,
            replies,
        ),
        RequestModel::Reject { id, rejection } => lemma_no_form_change_rejected(
            config,
            id,
            rejection,
            replies,
        ),
        RequestModel::Cancel { id, confirm } => lemma_no_form_change_cancelled(
            config,
            id,
            confirm,
            replies,
        ),
        RequestModel::CreateTeam(form) => lemma_no_form_team_created(config, form, replies),
        RequestModel::EditClient { realm, id, client } => lemma_no_form_client_edited(
            config,
            realm,
            id,
            client,
            replies,
        ),
        RequestModel::GrantAccess(form) => lemma_no_form_access_granted(config, form, replies),
        RequestModel::RevokeAccess(form) => lemma_no_form_access_revoked(config, form, replies),
        RequestModel::EmergencyPromote { ip, body } => lemma_no_form_emergency_promoted(
            config,
            ip,
            body,
            replies,
        ),
        _ => {},
    }
}

/// A page with a form carries the token that the session holds: it was put there for this
/// page. The place of the reply that says so is returned.
pub proof fn lemma_forms_carry_the_session_token(
    config: ConfigModel,
    request: RequestModel,
    replies: Seq<ReplyModel>,
    page: PageModel,
    token: Seq<char>,
) -> (k: int)
    requires
        response(config, request, replies) == StepModel::Finish(OutcomeModel::Page(page)),
        page_token(page) == Some(token),
    ensures
        0 <= k < replies.len(),
        performs(
            config,
            request,
            replies.take(k),
            EffectModel::StoreText { key: "csrf"@, value: token },
        ),
        replies[k] == ReplyModel::Done,
{
    lemma_steady(config, request, replies, 0);
    match request {
        RequestModel::ListUsers(query) => lemma_token_users_listed(config, query, replies),
        RequestModel::UserDetail { realm, id } => lemma_token_user_shown(
            config,
            realm,
            id,
            replies,
        ),
        RequestModel::NewUserForm(query) => lemma_token_new_user(config, query, replies),
        RequestModel::ListChanges(query) => lemma_token_changes_listed(config, query, replies),
        RequestModel::ClientDetail { realm, id } => lemma_token_client_shown(
            config,
            realm,
            id,
            replies,
        ),
        RequestModel::AdminPanel(query) => lemma_token_admin_shown(config, query, replies),
        _ => {
            lemma_other_pages(config, request, replies);
            0
        },
    }
}

} // verus!
