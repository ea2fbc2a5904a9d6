use grafter::attributes::Attributes;
use grafter::config::Config;
use grafter::effects::{Effect, Outcome, Promotion, Reply, Step};
use grafter::error::{AppError, ErrorReply, ProviderError};
use grafter::pages::Page;
use grafter::portal::{perform_locally, respond, Request};
use grafter::provider::{
    AppClient, Group, ProviderAnswer, ProviderCall, Realm, Role as RealmRole, UpdateAppClient, User,
};
use grafter::routes::admin::{AdminQuery, GrantForm, RevokeForm};
use grafter::routes::audit::AuditQuery;
use grafter::routes::changes::{needs_reconciliation, ChangesQuery, ConfirmForm, RejectForm};
use grafter::routes::clients::{EditClientForm, RealmQuery};
use grafter::routes::emergency::PromoteBody;
use grafter::routes::teams::CreateTeamForm;
use grafter::routes::users::access::{RoleAssignForm, RoleRemoveForm, SetPasswordForm};
use grafter::routes::users::bulk::{BulkEditBody, BulkUser};
use grafter::routes::users::create::NewUserForm;
use grafter::routes::users::edit::EditForm;
use grafter::routes::users::{ListQuery, SimilarQuery};
use grafter::session::{Flash, FlashKind, Role, SessionUser};
use grafter::storage::{ChangeStatus, PendingChange, StorageAnswer, StorageCall};
use grafter::test_support::{FakeProvider, FakeStorage};
use grafter::time::Timestamp;

fn text(s: &str) -> String {
    s.to_string()
}

fn config() -> Config {
    Config {
        host: text("0.0.0.0"),
        port: 3000,
        oidc_issuer: text("https://kc.test/realms/smartech"),
        oidc_client_id: text("grafter"),
        oidc_client_secret: text("s"),
        oidc_redirect_uri: text("https://grafter.test/auth/callback"),
        kc_admin_url: text("https://kc.test"),
        kc_admin_realm: text("master"),
        kc_admin_client_id: text("grafter-admin"),
        kc_admin_client_secret: text("s"),
        role_admin: text("devops"),
        role_operator: text("iam-operator"),
        teams_group: text("teams"),
        s3_endpoint: text("http://s3.test"),
        s3_bucket: text("grafter"),
        s3_access_key: text("k"),
        s3_secret_key: text("s"),
        session_secret: text("0123456789abcdef0123456789abcdef"),
        redis_url: text("redis://127.0.0.1"),
        emergency_token: None,
    }
}

/// A portal with everything around it in memory.
struct World {
    config: Config,
    user: Option<SessionUser>,
    texts: Vec<(String, String)>,
    flash: Option<Flash>,
    locks: Vec<String>,
    attempts: i64,
    /// The realm roles of whoever is signed in.
    granted: Vec<RealmRole>,
    realms: Vec<Realm>,
    realm_roles: Vec<RealmRole>,
    client: Option<AppClient>,
    saves_fail: bool,
    provider: FakeProvider,
    storage: FakeStorage,
    performed: Vec<Effect>,
}

fn role(id: &str, name: &str) -> RealmRole {
    RealmRole { id: text(id), name: text(name), description: None, client_role: false }
}

fn group(id: &str, name: &str, realm_roles: &[&str]) -> Group {
    Group {
        id: text(id),
        name: text(name),
        path: format!("/{name}"),
        subgroups: vec![],
        realm_roles: realm_roles.iter().map(|r| r.to_string()).collect(),
    }
}

fn person(id: &str, username: &str) -> User {
    User {
        id: text(id),
        username: text(username),
        email: None,
        first_name: Some(text("Sara")),
        last_name: None,
        enabled: true,
        attributes: Attributes::new(),
    }
}

fn world(who: Role) -> World {
    let (username, granted) = match who {
        Role::Admin => ("root", role("r1", "devops")),
        Role::Operator => ("oper", role("r2", "iam-operator")),
    };
    let mut provider = FakeProvider::new();
    provider.seed_user("smartech", person("u1", "sara"));
    provider.seed_group(group("g2", "platform", &["vpn"]));
    provider.seed_group(group("g1", "design", &[]));
    World {
        config: config(),
        user: Some(SessionUser {
            sub: format!("sub-{username}"),
            username: text(username),
            email: None,
            role: who,
            last_seen_changes_at: None,
        }),
        texts: vec![(text("csrf"), text("token"))],
        flash: None,
        locks: vec![],
        attempts: 0,
        granted: vec![granted],
        realms: vec![Realm { id: text("1"), name: text("smartech"), display_name: None }],
        realm_roles: vec![role("r9", "viewer"), role("r1", "devops")],
        client: None,
        saves_fail: false,
        provider,
        storage: FakeStorage::new(),
        performed: vec![],
    }
}

impl World {
    fn ask_provider(&mut self, call: &ProviderCall) -> ProviderAnswer {
        match call {
            ProviderCall::GetUserEffectiveRealmRoles { realm, user_id } => {
                assert_eq!(realm, "smartech");
                assert_eq!(Some(user_id), self.user.as_ref().map(|u| &u.sub));
                ProviderAnswer::Roles(self.granted.clone())
            }
            ProviderCall::ListRealms => ProviderAnswer::Realms(self.realms.clone()),
            ProviderCall::ListRealmRoles { .. } => ProviderAnswer::Roles(self.realm_roles.clone()),
            ProviderCall::GetClient { .. } => match &self.client {
                Some(client) => ProviderAnswer::Client(client.clone()),
                None => ProviderAnswer::Failed(ProviderError::NotFound),
            },
            ProviderCall::GetClientSecret { .. } => ProviderAnswer::Secret(Some(text("hush"))),
            other => self.provider.answer(other),
        }
    }

    fn perform(&mut self, effect: &Effect) -> Reply {
        if let Some(reply) = perform_locally(effect) {
            return reply;
        }
        match effect {
            Effect::LoadUser => Reply::User(self.user.clone()),
            Effect::StoreUser(user) => {
                self.user = Some(user.clone());
                Reply::Done
            }
            Effect::LoadText { key } => {
                Reply::Text(self.texts.iter().rev().find(|t| &t.0 == key).map(|t| t.1.clone()))
            }
            Effect::StoreText { key, value } => {
                self.texts.push((key.clone(), value.clone()));
                Reply::Done
            }
            Effect::DropText { key } => {
                self.texts.retain(|t| &t.0 != key);
                Reply::Done
            }
            Effect::StoreFlash(flash) => {
                self.flash = Some(flash.clone());
                Reply::Done
            }
            Effect::TakeFlash => Reply::Flash(self.flash.take()),
            Effect::EndSession => {
                self.user = None;
                self.texts.clear();
                Reply::Done
            }
            Effect::Lock { key, seconds } => {
                assert_eq!(*seconds, 30);
                if self.locks.contains(key) {
                    Reply::Locked(false)
                } else {
                    self.locks.push(key.clone());
                    Reply::Locked(true)
                }
            }
            Effect::Unlock { key } => {
                self.locks.retain(|k| k != key);
                Reply::Done
            }
            Effect::CountAttempt { .. } => {
                self.attempts += 1;
                Reply::Attempts(self.attempts)
            }
            Effect::ExpireAttempts { seconds, .. } => {
                assert_eq!(*seconds, 3600);
                Reply::Done
            }
            Effect::Provider(call) => Reply::Provider(self.ask_provider(call)),
            Effect::Storage(StorageCall::SaveChange(_)) if self.saves_fail => {
                Reply::Storage(StorageAnswer::Failed(text("s3 put change")))
            }
            Effect::Storage(call) => Reply::Storage(self.storage.answer(call)),
            other => panic!("nothing here does {other:?}"),
        }
    }

    fn serve(&mut self, request: &Request) -> Outcome {
        let mut replies: Vec<Reply> = vec![];
        self.performed.clear();
        loop {
            match respond(&self.config, request, &replies) {
                Step::Finish(outcome) => return outcome,
                Step::Perform(effect) => {
                    let reply = self.perform(&effect);
                    self.performed.push(effect);
                    replies.push(reply);
                }
            }
        }
    }

    fn kept_flash(&self) -> (&str, FlashKind) {
        let flash = self.flash.as_ref().expect("a message");
        (flash.text.as_str(), flash.kind)
    }

    fn actions(&self) -> Vec<&str> {
        self.storage.audit.iter().map(|e| e.action.as_str()).collect()
    }
}

fn to(path: &str) -> Outcome {
    Outcome::Redirect { to: text(path) }
}

fn edit_form() -> EditForm {
    EditForm {
        csrf_token: text("token"),
        first_name: Some(text("Sara")),
        last_name: None,
        email: None,
        enabled: Some(text("on")),
        status_reason: None,
        team_group_id: None,
        phone_number: None,
        personnel_code: None,
    }
}

fn edit(form: EditForm) -> Request {
    Request::EditUser { realm: text("smartech"), id: text("u1"), form }
}

fn confirm() -> ConfirmForm {
    ConfirmForm { csrf_token: text("token") }
}

fn approve(id: &str) -> Request {
    Request::Approve { id: text(id), confirm: confirm() }
}

/// Lets an operator propose a change, and hands the queue to an admin.
fn proposed(first_name: &str) -> (World, String) {
    let mut w = world(Role::Operator);
    let mut form = edit_form();
    form.first_name = Some(text(first_name));
    form.team_group_id = Some(text("g2"));
    assert_eq!(w.serve(&edit(form)), to("/users/smartech/u1"));
    let id = w.storage.changes[0].id.clone();
    let mut admin = world(Role::Admin);
    admin.storage = w.storage;
    admin.provider = w.provider;
    (admin, id)
}

// ── Sessions ─────────────────────────────────────────────────────────────────

#[test]
fn strangers_are_sent_to_sign_in() {
    let mut w = world(Role::Admin);
    w.user = None;
    for request in [Request::ListTeams, Request::Profile, approve("c1"), edit(edit_form())] {
        let outcome = w.serve(&request);
        assert_eq!(outcome, Outcome::Failed(AppError::Unauthenticated));
        assert_eq!(w.performed, vec![Effect::LoadUser]);
    }
    assert_eq!(
        AppError::Unauthenticated.reply(),
        ErrorReply::Redirect { to: text("/auth/login") }
    );
}

#[test]
fn a_revoked_role_ends_the_session() {
    let mut w = world(Role::Admin);
    w.granted = vec![role("r5", "nothing")];
    assert_eq!(w.serve(&Request::ListTeams), Outcome::Failed(AppError::Forbidden));
    assert_eq!(w.user, None);
    assert_eq!(w.performed.last(), Some(&Effect::EndSession));
}

#[test]
fn a_changed_role_is_written_back() {
    let mut w = world(Role::Admin);
    w.granted = vec![role("r2", "iam-operator")];
    assert_eq!(w.serve(&Request::ListTeams), to("/users"));
    assert_eq!(w.user.as_ref().unwrap().role, Role::Operator);
    assert_eq!(w.serve(&approve("c1")), Outcome::Failed(AppError::Forbidden));
}

#[test]
fn only_signing_in_names_a_user() {
    let mut w = world(Role::Operator);
    let before = w.user.clone().unwrap();
    w.granted = vec![role("r1", "devops")];
    assert_eq!(w.serve(&Request::ListTeams), to("/users"));
    w.granted = vec![role("r2", "iam-operator")];
    assert!(matches!(
        w.serve(&Request::ListChanges(ChangesQuery { page: None })),
        Outcome::Page(Page::Changes(_))
    ));
    let stored: Vec<&SessionUser> = w
        .performed
        .iter()
        .filter_map(|effect| match effect {
            Effect::StoreUser(user) => Some(user),
            _ => None,
        })
        .collect();
    assert_eq!(stored.len(), 2);
    for user in stored {
        assert_eq!((&user.sub, &user.username), (&before.sub, &before.username));
        assert_eq!(user.email, before.email);
        assert_eq!(user.role, Role::Operator);
    }
}

#[test]
fn the_index_leads_on() {
    let mut w = world(Role::Operator);
    assert_eq!(w.serve(&Request::Index), to("/users"));
    w.user = None;
    assert_eq!(w.serve(&Request::Index), to("/auth/login"));
}

#[test]
fn a_session_that_cannot_be_read_is_an_error() {
    let replies = vec![Reply::Failed(text("down"))];
    assert_eq!(
        respond(&config(), &Request::Index, &replies),
        Step::Finish(Outcome::Failed(AppError::Internal(text("session error: down"))))
    );
    let replies = vec![Reply::Done];
    assert_eq!(
        respond(&config(), &Request::Index, &replies),
        Step::Finish(Outcome::Failed(AppError::Internal(text("unexpected reply"))))
    );
}

#[test]
fn operators_are_refused_what_is_for_admins() {
    let mut w = world(Role::Operator);
    let requests = [
        approve("c1"),
        Request::Reject {
            id: text("c1"),
            rejection: RejectForm { csrf_token: text("token"), reason: None },
        },
        Request::AdminPanel(AdminQuery { realm: None, log_date: None }),
        Request::ListAudit(AuditQuery { date: None }),
        Request::ListClients(RealmQuery { realm: None }),
        Request::RevealSecret { realm: text("smartech"), id: text("c") },
        Request::BulkEdit(BulkEditBody {
            csrf_token: text("token"),
            users: vec![],
            enabled: None,
            team_group_id: None,
        }),
    ];
    for request in requests {
        assert_eq!(w.serve(&request), Outcome::Failed(AppError::Forbidden));
    }
}

#[test]
fn a_form_with_another_token_is_refused() {
    let mut w = world(Role::Admin);
    let mut form = edit_form();
    form.csrf_token = text("stale");
    assert_eq!(w.serve(&edit(form)), Outcome::Failed(AppError::CsrfMismatch));
    w.texts.clear();
    assert_eq!(w.serve(&edit(edit_form())), Outcome::Failed(AppError::CsrfMismatch));
    match AppError::CsrfMismatch.reply() {
        ErrorReply::Page(page) => assert_eq!(page.status, 403),
        other => panic!("expected a page, got {other:?}"),
    }
}

// ── Edits and the queue ──────────────────────────────────────────────────────

#[test]
fn an_admin_edits_at_once() {
    let mut w = world(Role::Admin);
    let mut form = edit_form();
    form.first_name = Some(text("Sahar"));
    form.email = Some(text("sahar@smartech.ir"));
    form.phone_number = Some(text("09120000000"));
    form.team_group_id = Some(text("g2"));
    assert_eq!(w.serve(&edit(form)), to("/users/smartech/u1"));
    assert_eq!(w.kept_flash(), ("User updated.", FlashKind::Success));
    let user = w.provider.get_seeded_user("smartech", "u1");
    assert_eq!(user.first_name.as_deref(), Some("Sahar"));
    assert_eq!(user.email.as_deref(), Some("sahar@smartech.ir"));
    assert_eq!(user.team(), Some("platform"));
    assert_eq!(user.attributes.get("phone_number"), Some(&vec![text("09120000000")]));
    assert_eq!(w.provider.group_ids_of("smartech", "u1"), vec![text("g2")]);
    assert_eq!(w.actions(), vec!["edit_user"]);
    assert!(w.storage.changes.is_empty());
}

#[test]
fn a_form_that_changes_nothing_does_nothing() {
    let mut w = world(Role::Admin);
    assert_eq!(w.serve(&edit(edit_form())), to("/users/smartech/u1"));
    assert_eq!(w.flash, None);
    assert!(w.storage.audit.is_empty());
    assert_eq!(w.provider, world(Role::Admin).provider);
}

#[test]
fn a_disabled_account_keeps_its_reason() {
    let mut w = world(Role::Operator);
    let mut form = edit_form();
    form.enabled = None;
    form.status_reason = Some(text("  left the company "));
    w.serve(&edit(form));
    let diff: Vec<(&str, Option<&str>, &str)> = w.storage.changes[0]
        .diff
        .iter()
        .map(|f| (f.field.as_str(), f.before.as_deref(), f.after.as_str()))
        .collect();
    assert_eq!(
        diff,
        vec![
            ("enabled", Some("true"), "false"),
            ("status_reason", None, "left the company"),
        ]
    );
}

#[test]
fn operators_stay_in_their_realm() {
    let mut w = world(Role::Operator);
    let request = Request::EditUser {
        realm: text("other"),
        id: text("u1"),
        form: edit_form(),
    };
    assert_eq!(w.serve(&request), Outcome::Failed(AppError::Forbidden));
    let request = Request::UserDetail { realm: text("other"), id: text("u1") };
    assert_eq!(w.serve(&request), Outcome::Failed(AppError::Forbidden));
    let request = Request::ListUsers(ListQuery { realm: Some(text("other")), search: None });
    assert_eq!(w.serve(&request), Outcome::Failed(AppError::Forbidden));
    let request = Request::CheckSimilar(SimilarQuery { realm: text("other"), q: text("sara") });
    assert_eq!(w.serve(&request), Outcome::Failed(AppError::Forbidden));
}

#[test]
fn an_approved_change_takes_effect() {
    let (mut w, id) = proposed("Sahar");
    assert_eq!(w.provider.get_seeded_user("smartech", "u1").first_name.as_deref(), Some("Sara"));
    assert_eq!(w.serve(&approve(&id)), to("/changes"));
    assert_eq!(w.kept_flash(), ("Change for sara approved.", FlashKind::Success));
    let user = w.provider.get_seeded_user("smartech", "u1");
    assert_eq!(user.first_name.as_deref(), Some("Sahar"));
    assert_eq!(user.team(), Some("platform"));
    assert_eq!(w.provider.group_ids_of("smartech", "u1"), vec![text("g2")]);
    let change = &w.storage.changes[0];
    assert_eq!(change.status, ChangeStatus::Approved);
    assert_eq!(change.resolved_by.as_deref(), Some("root"));
    assert!(change.resolved_at.is_some());
    assert_eq!(w.actions(), vec!["propose_change", "approve_change"]);
    assert_eq!(w.storage.audit[1].detail, format!("change {id} approved"));
    assert!(w.locks.is_empty());
}

#[test]
fn the_lock_goes_around_an_approval() {
    let (mut w, id) = proposed("Sahar");
    w.serve(&approve(&id));
    let key = format!("grafter:change-lock:{id}");
    let place = |wanted: &dyn Fn(&Effect) -> bool| w.performed.iter().position(wanted).unwrap();
    let locked = place(&|e| e == &Effect::Lock { key: key.clone(), seconds: 30 });
    let read = place(&|e| e == &Effect::Storage(StorageCall::GetChange { id: id.clone() }));
    let updated =
        place(&|e| matches!(e, Effect::Provider(ProviderCall::UpdateUser { .. })));
    let saved = place(&|e| matches!(e, Effect::Storage(StorageCall::SaveChange(_))));
    let unlocked = place(&|e| e == &Effect::Unlock { key: key.clone() });
    let recorded = place(&|e| matches!(e, Effect::Storage(StorageCall::AppendAudit(_))));
    assert!(locked < read && read < updated && updated < saved);
    assert_eq!(unlocked, saved + 1);
    assert!(unlocked < recorded);
}

#[test]
fn a_change_is_approved_once() {
    let (mut w, id) = proposed("Sahar");
    w.serve(&approve(&id));
    let before = w.provider.clone();
    assert_eq!(w.serve(&approve(&id)), to("/changes"));
    assert_eq!(w.kept_flash(), ("This change has already been processed.", FlashKind::Warning));
    assert_eq!(w.provider, before);
    assert!(w.locks.is_empty());
    assert_eq!(w.actions(), vec!["propose_change", "approve_change"]);
}

#[test]
fn a_held_lock_turns_others_away() {
    let (mut w, id) = proposed("Sahar");
    w.locks.push(format!("grafter:change-lock:{id}"));
    assert_eq!(w.serve(&approve(&id)), to("/changes"));
    assert_eq!(w.kept_flash(), ("This change is being processed.", FlashKind::Warning));
    assert_eq!(w.storage.changes[0].status, ChangeStatus::Pending);
    assert_eq!(w.locks.len(), 1);
}

#[test]
fn an_unknown_change_is_not_found() {
    let mut w = world(Role::Admin);
    let outcome = w.serve(&approve("nope"));
    assert_eq!(outcome, Outcome::Failed(AppError::NotFound(text("change nope"))));
    assert_eq!(
        AppError::NotFound(text("change nope")).reply(),
        ErrorReply::Text { status: 404, text: text("change nope") }
    );
}

#[test]
fn a_record_that_cannot_be_saved_keeps_the_lock() {
    let (mut w, id) = proposed("Sahar");
    w.saves_fail = true;
    let outcome = w.serve(&approve(&id));
    assert_eq!(outcome, Outcome::Failed(AppError::Internal(text("s3 put change"))));
    assert_eq!(w.locks, vec![format!("grafter:change-lock:{id}")]);
    assert_eq!(w.actions(), vec!["propose_change"]);
    let save = w.performed.last().unwrap().clone();
    let failed = Reply::Storage(StorageAnswer::Failed(text("s3 put change")));
    assert!(needs_reconciliation(&save, &failed));
    assert!(!needs_reconciliation(&save, &Reply::Storage(StorageAnswer::Done)));
    assert!(!needs_reconciliation(&Effect::LoadUser, &failed));
}

#[test]
fn a_lock_that_cannot_be_asked_for_is_an_error() {
    let config = config();
    let request = approve("c1");
    let replies = vec![
        Reply::User(world(Role::Admin).user),
        Reply::Provider(ProviderAnswer::Roles(vec![role("r1", "devops")])),
        Reply::Text(Some(text("token"))),
        Reply::Failed(text("no route")),
    ];
    assert_eq!(
        respond(&config, &request, &replies),
        Step::Finish(Outcome::Failed(AppError::Internal(text("redis lock error: no route"))))
    );
}

#[test]
fn a_rejected_change_takes_no_effect() {
    let (mut w, id) = proposed("Sahar");
    let before = w.provider.clone();
    let rejection = RejectForm { csrf_token: text("token"), reason: Some(text("not now")) };
    assert_eq!(w.serve(&Request::Reject { id: id.clone(), rejection }), to("/changes"));
    assert_eq!(w.kept_flash(), ("Change for sara rejected.", FlashKind::Warning));
    let change = &w.storage.changes[0];
    assert_eq!(change.status, ChangeStatus::Rejected);
    assert_eq!(change.reject_reason.as_deref(), Some("not now"));
    assert_eq!(w.provider, before);
    assert_eq!(w.storage.audit[1].action, "reject_change");
    assert_eq!(w.storage.audit[1].detail, format!("change {id} rejected: not now"));
}

#[test]
fn a_rejection_without_a_reason_says_so() {
    let (mut w, id) = proposed("Sahar");
    let rejection = RejectForm { csrf_token: text("token"), reason: None };
    w.serve(&Request::Reject { id: id.clone(), rejection });
    assert_eq!(w.storage.audit[1].detail, format!("change {id} rejected: no reason given"));
    assert_eq!(w.storage.changes[0].reject_reason, None);
}

#[test]
fn proposers_cancel_their_own_changes_only() {
    let (w, id) = proposed("Sahar");
    let mut other = world(Role::Operator);
    other.user.as_mut().unwrap().username = text("someone");
    other.storage = w.storage;
    let cancel = Request::Cancel { id: id.clone(), confirm: confirm() };
    assert_eq!(other.serve(&cancel), Outcome::Failed(AppError::Forbidden));
    assert_eq!(other.storage.changes[0].status, ChangeStatus::Pending);
    assert!(other.locks.is_empty());

    other.user.as_mut().unwrap().username = text("oper");
    assert_eq!(other.serve(&cancel), to("/changes"));
    assert_eq!(other.kept_flash(), ("Proposal cancelled.", FlashKind::Success));
    let change = &other.storage.changes[0];
    assert_eq!(change.status, ChangeStatus::Rejected);
    assert_eq!(change.reject_reason.as_deref(), Some("Cancelled by proposer"));
    assert_eq!(other.actions(), vec!["propose_change", "cancel_change"]);
    assert_eq!(other.serve(&cancel), to("/changes"));
    assert_eq!(other.actions().len(), 2);
}

// ── The list of changes ──────────────────────────────────────────────────────

fn change(id: &str, proposed_by: &str, status: ChangeStatus, resolved: Option<i64>) -> PendingChange {
    PendingChange {
        id: text(id),
        realm: text("smartech"),
        user_id: text("u1"),
        username: text("sara"),
        proposed_by: text(proposed_by),
        proposed_at: Timestamp { secs: 100, nanos: 0 },
        status,
        resolved_by: None,
        resolved_at: resolved.map(|secs| Timestamp { secs, nanos: 0 }),
        reject_reason: None,
        diff: vec![grafter::storage::FieldChange {
            field: text("team_group_id"),
            before: None,
            after: text("g2"),
        }],
        action: text("edit_user"),
    }
}

fn changes_page(w: &mut World, page: Option<usize>) -> grafter::pages::ChangesPage {
    match w.serve(&Request::ListChanges(ChangesQuery { page })) {
        Outcome::Page(Page::Changes(page)) => page,
        other => panic!("expected the changes, got {other:?}"),
    }
}

#[test]
fn operators_see_their_own_changes() {
    let mut w = world(Role::Operator);
    w.storage.changes = vec![
        change("c1", "oper", ChangeStatus::Approved, Some(50)),
        change("c2", "someone", ChangeStatus::Pending, None),
        change("c3", "oper", ChangeStatus::Rejected, Some(70)),
    ];
    let page = changes_page(&mut w, None);
    let ids: Vec<&str> = page.changes.iter().map(|c| c.change.id.as_str()).collect();
    assert_eq!(ids, vec!["c1", "c3"]);
    assert_eq!(page.unseen_resolved_count, 0);
    assert_eq!(page.frame.pending_count, Some(0));
    assert_eq!(page.changes[0].team_grants, Some(vec![text("vpn")]));

    w.user.as_mut().unwrap().last_seen_changes_at = Some(Timestamp { secs: 60, nanos: 0 });
    assert_eq!(changes_page(&mut w, None).unseen_resolved_count, 1);
    assert_eq!(changes_page(&mut w, None).unseen_resolved_count, 0);

    let mut admin = world(Role::Admin);
    admin.storage = w.storage;
    let page = changes_page(&mut admin, None);
    assert_eq!(page.changes.len(), 3);
    assert_eq!(page.frame.pending_count, Some(1));
}

#[test]
fn long_lists_come_in_pages() {
    let mut w = world(Role::Admin);
    for i in 0..401 {
        w.storage.changes.push(change(&format!("c{i}"), "oper", ChangeStatus::Pending, None));
    }
    let first = changes_page(&mut w, None);
    assert_eq!((first.page, first.total_pages, first.changes.len()), (0, 3, 200));
    let last = changes_page(&mut w, Some(2));
    assert_eq!((last.page, last.changes.len()), (2, 1));
    assert_eq!(last.changes[0].change.id, "c400");
    let beyond = changes_page(&mut w, Some(usize::MAX));
    assert_eq!((beyond.page, beyond.changes.len()), (2, 1));
    w.storage.changes.clear();
    let none = changes_page(&mut w, Some(7));
    assert_eq!((none.page, none.total_pages, none.changes.len()), (0, 1, 0));
}

#[test]
fn each_page_gets_a_fresh_token() {
    let mut w = world(Role::Admin);
    let first = changes_page(&mut w, None).csrf;
    let second = changes_page(&mut w, None).csrf;
    assert_eq!(first.len(), 43);
    assert_ne!(first, second);
    let mut form = edit_form();
    form.csrf_token = first;
    assert_eq!(w.serve(&edit(form)), Outcome::Failed(AppError::CsrfMismatch));
    let mut form = edit_form();
    form.csrf_token = second;
    assert_eq!(w.serve(&edit(form)), to("/users/smartech/u1"));
}

#[test]
fn a_message_is_shown_once() {
    let mut w = world(Role::Admin);
    w.flash = Some(Flash::success(text("Done.")));
    assert_eq!(changes_page(&mut w, None).flash, Some(Flash::success(text("Done."))));
    assert_eq!(changes_page(&mut w, None).flash, None);
}

// ── Users ────────────────────────────────────────────────────────────────────

#[test]
fn users_are_listed_with_their_teams() {
    let mut w = world(Role::Operator);
    let request = Request::ListUsers(ListQuery { realm: None, search: Some(text("sa")) });
    match w.serve(&request) {
        Outcome::Page(Page::Users(page)) => {
            assert_eq!(page.current_realm, "smartech");
            assert_eq!(page.users.len(), 1);
            assert_eq!(page.users[0].realm, "smartech");
            let teams: Vec<&str> = page.team_groups.iter().map(|g| g.name.as_str()).collect();
            assert_eq!(teams, vec!["design", "platform"]);
            assert_eq!(page.search.as_deref(), Some("sa"));
            assert!(!page.frame.is_admin);
        }
        other => panic!("expected the users, got {other:?}"),
    }
}

#[test]
fn a_user_is_shown_with_what_is_pending() {
    let mut w = world(Role::Admin);
    w.storage.changes = vec![change("c1", "oper", ChangeStatus::Pending, None)];
    w.provider.answer(&ProviderCall::AddUserToGroup {
        realm: text("smartech"),
        user_id: text("u1"),
        group_id: text("g1"),
    });
    w.realm_roles = vec![role("r9", "viewer"), role("r1", "Devops"), role("r3", "auditor")];
    match w.serve(&Request::UserDetail { realm: text("smartech"), id: text("u1") }) {
        Outcome::Page(Page::User(page)) => {
            assert_eq!(page.subject.username, "sara");
            assert_eq!(page.pending.len(), 1);
            assert_eq!(page.current_team_group_id.as_deref(), Some("g1"));
            let names: Vec<&str> = page.available_roles.iter().map(|r| r.name.as_str()).collect();
            assert_eq!(names, vec!["auditor", "Devops", "viewer"]);
        }
        other => panic!("expected the user, got {other:?}"),
    }
    let request = Request::UserDetail { realm: text("smartech"), id: text("nobody") };
    let outcome = w.serve(&request);
    assert_eq!(outcome, Outcome::Failed(AppError::Provider(ProviderError::NotFound)));
}

#[test]
fn similar_users_need_two_characters() {
    let mut w = world(Role::Operator);
    let similar = |q: &str| {
        Request::CheckSimilar(SimilarQuery { realm: text("smartech"), q: text(q) })
    };
    assert_eq!(w.serve(&similar("  s ")), Outcome::Similar(vec![]));
    match w.serve(&similar("\u{3000}sa ")) {
        Outcome::Similar(found) => {
            assert_eq!(found.len(), 1);
            assert_eq!(found[0].username, "sara");
            assert_eq!(found[0].full_name, "Sara");
            let searched = w.performed.last().unwrap();
            assert!(matches!(
                searched,
                Effect::Provider(ProviderCall::ListUsers { query, .. })
                    if query.search.as_deref() == Some("sa")
            ));
        }
        other => panic!("expected users, got {other:?}"),
    }
    for i in 0..9 {
        w.provider.seed_user("smartech", person(&format!("x{i}"), "sam"));
    }
    match w.serve(&similar("sa")) {
        Outcome::Similar(found) => assert_eq!(found.len(), 5),
        other => panic!("expected users, got {other:?}"),
    }
}

fn new_user(password: Option<&str>) -> NewUserForm {
    NewUserForm {
        csrf_token: text("token"),
        realm: text("smartech"),
        username: text("neda"),
        first_name: Some(text("Neda")),
        last_name: Some(text("")),
        email: None,
        team_group_id: Some(text("g1")),
        phone_number: None,
        personnel_code: None,
        password: password.map(String::from),
        password_temporary: Some(text("on")),
        enabled: Some(text("on")),
    }
}

#[test]
fn an_admin_creates_users() {
    let mut w = world(Role::Admin);
    let outcome = w.serve(&Request::CreateUser(new_user(Some("pw"))));
    assert_eq!(outcome, to("/users/smartech/generated-1"));
    assert_eq!(w.kept_flash(), ("User neda created.", FlashKind::Success));
    let user = w.provider.get_seeded_user("smartech", "generated-1");
    assert_eq!(user.username, "neda");
    assert_eq!(user.last_name, None);
    assert_eq!(user.team(), Some("design"));
    assert_eq!(w.provider.group_ids_of("smartech", "generated-1"), vec![text("g1")]);
    assert_eq!(w.actions(), vec!["create_user"]);
    assert!(w.performed.iter().any(|e| matches!(
        e,
        Effect::Provider(ProviderCall::CreateUser { user, .. })
            if user.password.as_deref() == Some("pw") && user.password_temporary
    )));

    let mut w = world(Role::Operator);
    let outcome = w.serve(&Request::CreateUser(new_user(None)));
    assert_eq!(outcome, Outcome::Failed(AppError::Forbidden));
}

#[test]
fn many_users_are_edited_at_once() {
    let mut w = world(Role::Admin);
    w.provider.seed_user("smartech", person("u2", "omid"));
    let users = vec![
        BulkUser { id: text("u1"), realm: text("smartech") },
        BulkUser { id: text("u2"), realm: text("smartech") },
    ];
    let body = BulkEditBody {
        csrf_token: text("token"),
        users,
        enabled: Some(false),
        team_group_id: Some(text("g2")),
    };
    assert_eq!(w.serve(&Request::BulkEdit(body)), Outcome::Accepted);
    for id in ["u1", "u2"] {
        let user = w.provider.get_seeded_user("smartech", id);
        assert!(!user.enabled);
        assert_eq!(user.team(), Some("platform"));
        assert_eq!(w.provider.group_ids_of("smartech", id), vec![text("g2")]);
    }
    assert_eq!(w.actions(), vec!["bulk_edit"]);
    assert_eq!(
        w.storage.audit[0].detail,
        "2 users affected — enabled=Some(false) team=Some(\"g2\")"
    );
    assert_eq!(w.storage.audit[0].target_realm, "smartech");
}

#[test]
fn roles_are_assigned_and_removed() {
    let mut w = world(Role::Admin);
    let assign = |role_id: &str| Request::AssignRole {
        realm: text("smartech"),
        id: text("u1"),
        role: RoleAssignForm { csrf_token: text("token"), role_id: text(role_id) },
    };
    assert_eq!(w.serve(&assign("r9")), to("/users/smartech/u1"));
    assert_eq!(w.kept_flash(), ("Role 'viewer' assigned.", FlashKind::Success));
    assert_eq!(w.storage.audit[0].detail, "role 'viewer' assigned");
    assert_eq!(
        w.serve(&assign("r0")),
        Outcome::Failed(AppError::NotFound(text("role r0")))
    );
    let remove = Request::RemoveRole {
        realm: text("smartech"),
        id: text("u1"),
        removal: RoleRemoveForm {
            csrf_token: text("token"),
            role_id: text("r9"),
            role_name: text("viewer"),
        },
    };
    assert_eq!(w.serve(&remove), to("/users/smartech/u1"));
    assert_eq!(w.kept_flash(), ("Role 'viewer' removed.", FlashKind::Success));
    assert_eq!(w.actions(), vec!["assign_role", "remove_role"]);
}

#[test]
fn passwords_are_set() {
    let mut w = world(Role::Admin);
    let set = |password: &str, temporary: Option<&str>| Request::SetPassword {
        realm: text("smartech"),
        id: text("u1"),
        password: SetPasswordForm {
            csrf_token: text("token"),
            password: text(password),
            temporary: temporary.map(String::from),
        },
    };
    assert_eq!(
        w.serve(&set("", None)),
        Outcome::Failed(AppError::Internal(text("password cannot be empty")))
    );
    assert_eq!(w.serve(&set("pw", None)), to("/users/smartech/u1"));
    assert_eq!(w.kept_flash(), ("Password updated for sara.", FlashKind::Success));
    w.serve(&set("pw", Some("on")));
    let details: Vec<&str> = w.storage.audit.iter().map(|e| e.detail.as_str()).collect();
    assert_eq!(details, vec!["password set", "temporary password set"]);
}

#[test]
fn the_form_for_new_users() {
    let mut w = world(Role::Operator);
    let request = Request::NewUserForm(ListQuery { realm: Some(text("other")), search: None });
    match w.serve(&request) {
        Outcome::Page(Page::NewUser(page)) => assert_eq!(page.current_realm, "smartech"),
        other => panic!("expected the form, got {other:?}"),
    }
    let mut w = world(Role::Admin);
    match w.serve(&request) {
        Outcome::Page(Page::NewUser(page)) => assert_eq!(page.current_realm, "other"),
        other => panic!("expected the form, got {other:?}"),
    }
}

// ── Teams, clients, access ───────────────────────────────────────────────────

#[test]
fn the_first_team_brings_its_parent() {
    let mut w = world(Role::Admin);
    let create = |name: &str| {
        Request::CreateTeam(CreateTeamForm {
            csrf_token: text("token"),
            realm: text("smartech"),
            name: text(name),
        })
    };
    assert_eq!(w.serve(&create("  mobile ")), to("/users?realm=smartech"));
    assert_eq!(w.kept_flash(), ("Team 'mobile' created.", FlashKind::Success));
    let made: Vec<Effect> = w
        .performed
        .iter()
        .filter(|e| matches!(e, Effect::Provider(ProviderCall::CreateGroup { .. })))
        .cloned()
        .collect();
    let group = |name: &str, parent: Option<&str>| {
        Effect::Provider(ProviderCall::CreateGroup {
            realm: text("smartech"),
            name: text(name),
            parent_id: parent.map(String::from),
        })
    };
    assert_eq!(made, vec![group("teams", None), group("mobile", Some("group-teams"))]);
    assert_eq!(w.storage.audit[0].detail, "team 'mobile' created");
    assert_eq!(
        w.serve(&create("  ")),
        Outcome::Failed(AppError::Internal(text("team name cannot be empty")))
    );
}

fn app_client() -> AppClient {
    AppClient {
        id: text("c1"),
        client_id: text("shop"),
        name: None,
        description: None,
        enabled: true,
        public_client: false,
        redirect_uris: vec![],
        web_origins: vec![],
        protocol: None,
        service_accounts_enabled: false,
    }
}

#[test]
fn clients_are_shown_and_edited() {
    let mut w = world(Role::Admin);
    w.client = Some(app_client());
    let request = Request::ClientDetail { realm: text("smartech"), id: text("c1") };
    match w.serve(&request) {
        Outcome::Page(Page::Client(page)) => assert_eq!(page.client, app_client()),
        other => panic!("expected the client, got {other:?}"),
    }
    w.texts = vec![(text("csrf"), text("token"))];
    let request = Request::EditClient {
        realm: text("smartech"),
        id: text("c1"),
        client: EditClientForm {
            csrf_token: text("token"),
            enabled: Some(text("off")),
            redirect_uris: Some(text(" https://a \n\n https://b\r\n")),
            web_origins: None,
        },
    };
    assert_eq!(w.serve(&request), to("/clients/smartech/c1"));
    let settings = UpdateAppClient {
        enabled: Some(false),
        redirect_uris: Some(vec![text("https://a"), text("https://b")]),
        web_origins: None,
    };
    assert!(w.performed.contains(&Effect::Provider(ProviderCall::UpdateClient {
        realm: text("smartech"),
        id: text("c1"),
        settings,
    })));
    assert_eq!(w.actions(), vec!["edit_client"]);
    assert_eq!(w.storage.audit[0].detail, "client c1 updated");
    assert_eq!(
        w.serve(&Request::RevealSecret { realm: text("smartech"), id: text("c1") }),
        Outcome::Secret(Some(text("hush")))
    );
    match w.serve(&Request::ListClients(RealmQuery { realm: None })) {
        Outcome::Page(Page::Clients(page)) => assert_eq!(page.current_realm, "smartech"),
        other => panic!("expected the clients, got {other:?}"),
    }
}

#[test]
fn access_is_granted_and_revoked() {
    let mut w = world(Role::Admin);
    let grant = |username: &str| {
        Request::GrantAccess(GrantForm {
            csrf_token: text("token"),
            realm: text("smartech"),
            username: text(username),
            role: text("admin"),
        })
    };
    assert_eq!(w.serve(&grant("sara")), to("/admin?realm=smartech"));
    assert_eq!(w.kept_flash(), ("sara granted admin access.", FlashKind::Success));
    assert_eq!(w.storage.audit[0].detail, "granted sara role 'devops'");
    assert_eq!(
        w.serve(&grant("nobody")),
        Outcome::Failed(AppError::NotFound(text("user nobody")))
    );
    let revoke = |username: &str, role_id: &str| {
        Request::RevokeAccess(RevokeForm {
            csrf_token: text("token"),
            realm: text("smartech"),
            user_id: text("u1"),
            username: text(username),
            role_name: text("devops"),
            role_id: text(role_id),
        })
    };
    assert_eq!(w.serve(&revoke("sara", "")), to("/admin?realm=smartech"));
    assert_eq!(w.kept_flash(), ("Access revoked for sara.", FlashKind::Warning));
    assert!(w.performed.contains(&Effect::Provider(ProviderCall::RemoveRealmRole {
        realm: text("smartech"),
        user_id: text("u1"),
        role: role("r1", "devops"),
    })));
    assert_eq!(w.actions(), vec!["grant_access", "revoke_access"]);
    assert_eq!(w.serve(&revoke("root", "r1")), to("/admin?realm=smartech"));
    assert_eq!(
        w.kept_flash(),
        ("You cannot revoke your own admin access.", FlashKind::Warning)
    );
    assert_eq!(w.actions().len(), 2);
}

// ── Pages about the portal ───────────────────────────────────────────────────

#[test]
fn the_audit_log_shows_the_last_first() {
    let mut w = world(Role::Admin);
    for (i, secs) in [30, 10, 20].iter().enumerate() {
        w.storage.audit.push(grafter::storage::AuditEntry {
            id: format!("e{i}"),
            timestamp: Timestamp { secs: *secs, nanos: 0 },
            actor: text("root"),
            action: text("edit_user"),
            target_realm: text("smartech"),
            target_user: None,
            detail: text(""),
            outcome: grafter::storage::AuditOutcome::Success,
        });
    }
    let request = Request::ListAudit(AuditQuery { date: Some(text("2026-06-20")) });
    match w.serve(&request) {
        Outcome::Page(Page::Audit(page)) => {
            let ids: Vec<&str> = page.entries.iter().map(|e| e.id.as_str()).collect();
            assert_eq!(ids, vec!["e0", "e2", "e1"]);
            assert_eq!(page.selected_date, "2026-06-20");
        }
        other => panic!("expected the log, got {other:?}"),
    }
    match w.serve(&Request::ListAudit(AuditQuery { date: None })) {
        Outcome::Page(Page::Audit(page)) => assert_eq!(page.selected_date.len(), 10),
        other => panic!("expected the log, got {other:?}"),
    }
}

#[test]
fn the_dashboard_counts() {
    let mut w = world(Role::Admin);
    let mut placed = person("u2", "omid");
    placed.attributes.insert(text("team"), vec![text("design")]);
    let mut gone = person("u3", "ali");
    gone.enabled = false;
    gone.attributes.insert(text("team"), vec![text("design")]);
    w.provider.seed_user("smartech", placed);
    w.provider.seed_user("smartech", gone);
    w.storage.changes = vec![
        change("c1", "oper", ChangeStatus::Pending, None),
        change("c2", "oper", ChangeStatus::Approved, None),
        change("c3", "oper", ChangeStatus::Approved, None),
    ];
    match w.serve(&Request::Dashboard) {
        Outcome::Page(Page::Dashboard(page)) => {
            assert_eq!((page.total_users, page.active_users, page.disabled_users), (3, 2, 1));
            let why: Vec<(&str, &str)> = page
                .attention
                .iter()
                .map(|a| (a.username.as_str(), a.reason.as_str()))
                .collect();
            assert_eq!(
                why,
                vec![("ali", "Disabled but still in a team"), ("sara", "No team assigned")]
            );
            assert_eq!(page.attention_total, 2);
            assert_eq!(page.teams.len(), 1);
            assert_eq!((page.teams[0].name.as_str(), page.teams[0].count), ("design", 2));
            assert_eq!((page.req_pending, page.req_approved, page.req_rejected), (1, 2, 0));
        }
        other => panic!("expected the dashboard, got {other:?}"),
    }
}

#[test]
fn the_profile_is_that_of_the_user() {
    let mut w = world(Role::Operator);
    w.provider.seed_user("smartech", person("u7", "oper"));
    match w.serve(&Request::Profile) {
        Outcome::Page(Page::Profile(page)) => {
            assert_eq!(page.subject.id, "u7");
            assert_eq!(page.realm, "smartech");
        }
        other => panic!("expected the profile, got {other:?}"),
    }
}

#[test]
fn the_admin_panel_lists_who_has_access() {
    let replies = |found: Vec<Reply>| {
        let mut replies = vec![
            Reply::User(world(Role::Admin).user),
            Reply::Provider(ProviderAnswer::Roles(vec![role("r1", "devops")])),
            Reply::Provider(ProviderAnswer::Realms(vec![])),
        ];
        replies.extend(found);
        replies
    };
    let request = Request::AdminPanel(AdminQuery {
        realm: Some(text("smartech")),
        log_date: Some(text("2026-01-01")),
    });
    let found = vec![
        Reply::Provider(ProviderAnswer::Users(vec![person("u2", "zahra"), person("u1", "ali")])),
        Reply::Provider(ProviderAnswer::Users(vec![person("u1", "ali"), person("u3", "omid")])),
        Reply::Storage(StorageAnswer::Entries(vec![])),
        Reply::Token(text("t")),
        Reply::Done,
        Reply::Flash(None),
        Reply::Storage(StorageAnswer::Failed(text("down"))),
        Reply::Time(Timestamp { secs: 0, nanos: 0 }),
    ];
    match respond(&config(), &request, &replies(found)) {
        Step::Finish(Outcome::Page(Page::Admin(page))) => {
            let who: Vec<(&str, &str)> = page
                .access_users
                .iter()
                .map(|a| (a.username.as_str(), a.role.as_str()))
                .collect();
            assert_eq!(who, vec![("ali", "admin"), ("omid", "operator"), ("zahra", "admin")]);
            assert_eq!(page.log_date, "2026-01-01");
            assert_eq!(page.today, "1970-01-01");
            assert_eq!(page.frame.pending_count, Some(0));
        }
        other => panic!("expected the panel, got {other:?}"),
    }
}

// ── Emergency ────────────────────────────────────────────────────────────────

fn promote(token: &str, username: &str) -> Request {
    Request::EmergencyPromote {
        ip: text("10.0.0.1"),
        body: PromoteBody { token: text(token), username: text(username) },
    }
}

fn promotion(status: u16, ok: bool, error: Option<&str>) -> Outcome {
    Outcome::Promotion(Promotion { status, ok, error: error.map(String::from) })
}

#[test]
fn emergencies_need_their_token() {
    let mut w = world(Role::Admin);
    assert_eq!(w.serve(&promote("t", "sara")), promotion(403, false, Some("disabled")));
    assert!(w.performed.is_empty());

    w.config.emergency_token = Some(text("t"));
    assert_eq!(w.serve(&promote("x", "sara")), promotion(403, false, Some("forbidden")));
    assert_eq!(w.serve(&promote("t", "nobody")), promotion(404, false, Some("user not found")));
    assert_eq!(w.serve(&promote("t", "sara")), promotion(200, true, None));
    assert_eq!(w.storage.audit[0].actor, "SYSTEM");
    assert_eq!(
        w.storage.audit[0].detail,
        "break-glass: promoted 'sara' to admin from 10.0.0.1"
    );
    assert!(w.performed.contains(&Effect::Provider(ProviderCall::AssignRealmRole {
        realm: text("smartech"),
        user_id: text("u1"),
        role: role("r1", "devops"),
    })));
    assert_eq!(w.serve(&promote("t", "sara")), promotion(403, false, Some("rate limited")));
}

#[test]
fn emergencies_that_fail_say_where() {
    let mut w = world(Role::Admin);
    w.config.emergency_token = Some(text("t"));
    w.realm_roles = vec![];
    assert_eq!(
        w.serve(&promote("t", "sara")),
        promotion(500, false, Some("admin role not found"))
    );
    let down = || Reply::Provider(ProviderAnswer::Failed(ProviderError::Http(text("down"))));
    let tried = |replies: Vec<Reply>| respond(&w.config, &promote("t", "sara"), &replies);
    assert_eq!(
        tried(vec![Reply::Failed(text("down"))]),
        Step::Finish(promotion(500, false, Some("rate limit check failed")))
    );
    assert_eq!(
        tried(vec![Reply::Attempts(2), down()]),
        Step::Finish(promotion(500, false, Some("user lookup failed")))
    );
    let found = || Reply::Provider(ProviderAnswer::Users(vec![person("u1", "sara")]));
    assert_eq!(
        tried(vec![Reply::Attempts(2), found(), down()]),
        Step::Finish(promotion(500, false, Some("role lookup failed")))
    );
    let roles = || Reply::Provider(ProviderAnswer::Roles(vec![role("r1", "devops")]));
    assert_eq!(
        tried(vec![Reply::Attempts(2), found(), roles(), down()]),
        Step::Finish(promotion(500, false, Some("role assignment failed")))
    );
}

#[test]
fn an_ended_request_stays_ended() {
    let mut w = world(Role::Admin);
    let request = edit(edit_form());
    let mut replies: Vec<Reply> = vec![];
    let end = loop {
        match respond(&w.config, &request, &replies) {
            Step::Finish(outcome) => break outcome,
            Step::Perform(effect) => {
                let reply = w.perform(&effect);
                replies.push(reply);
            }
        }
    };
    for _ in 0..3 {
        replies.push(Reply::Done);
        assert_eq!(respond(&w.config, &request, &replies), Step::Finish(end.clone()));
    }
}

#[test]
fn chance_and_the_clock_give_what_is_asked_for() {
    match perform_locally(&Effect::NewToken) {
        Some(Reply::Token(token)) => {
            assert_eq!(token.len(), 43);
            let plain = |c: char| c.is_ascii_alphanumeric() || c == '-' || c == '_';
            assert!(token.chars().all(plain));
        }
        other => panic!("expected a token, got {other:?}"),
    }
    match perform_locally(&Effect::NewStamp) {
        Some(Reply::Stamp(stamp)) => {
            assert_eq!(stamp.id.len(), 36);
            let plain = |c: char| c.is_ascii_digit() || ('a'..='f').contains(&c) || c == '-';
            assert!(stamp.id.chars().all(plain));
            assert!(stamp.at.nanos < 1_000_000_000);
            assert!(stamp.at.date().is_some());
        }
        other => panic!("expected a stamp, got {other:?}"),
    }
    match perform_locally(&Effect::ReadClock) {
        Some(Reply::Time(now)) => {
            assert!(now.nanos < 1_000_000_000);
            assert!(now.date().is_some());
        }
        other => panic!("expected a time, got {other:?}"),
    }
    assert_eq!(perform_locally(&Effect::LoadUser), None);
}
