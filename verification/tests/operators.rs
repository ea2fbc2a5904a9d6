use grafter::attributes::Attributes;
use grafter::config::Config;
use grafter::effects::{Effect, Outcome, Reply, Step};
use grafter::error::AppError;
use grafter::portal::perform_locally;
use grafter::provider::{Group, User};
use grafter::routes::users::bulk::{bulk_edit_by, BulkEditBody, BulkUser};
use grafter::routes::users::create::{create_user_by, NewUserForm};
use grafter::routes::users::edit::{collect_edits, EditForm};
use grafter::routes::{check_realm_access, operator_realm, reaches};
use grafter::script::Cursor;
use grafter::session::{Role, SessionUser};
use grafter::test_support::{FakeProvider, FakeStorage};

fn text(s: &str) -> String {
    s.to_string()
}

fn config() -> Config {
    Config {
        host: text("0.0.0.0"),
        port: 3000,
        oidc_issuer: text("https://kc.test/realms/smartech"),
        oidc_client_id: text("grafter"),
        oidc_client_secret: text("s"),
        oidc_redirect_uri: text("https://grafter.test/auth/callback"),
        kc_admin_url: text("https://kc.test"),
        kc_admin_realm: text("master"),
        kc_admin_client_id: text("grafter-admin"),
        kc_admin_client_secret: text("s"),
        role_admin: text("devops"),
        role_operator: text("iam-operator"),
        teams_group: text("teams"),
        s3_endpoint: text("http://s3.test"),
        s3_bucket: text("grafter"),
        s3_access_key: text("k"),
        s3_secret_key: text("s"),
        session_secret: text("0123456789abcdef0123456789abcdef"),
        redis_url: text("redis://127.0.0.1"),
        emergency_token: None,
    }
}

fn someone(role: Role) -> SessionUser {
    SessionUser {
        sub: text("s"),
        username: text("oper"),
        email: None,
        role,
        last_seen_changes_at: None,
    }
}

fn seeded() -> (FakeProvider, FakeStorage) {
    let mut provider = FakeProvider::new();
    for (id, enabled) in [("u1", true), ("u2", false)] {
        provider.seed_user(
            "smartech",
            User {
                id: text(id),
                username: format!("name-{id}"),
                email: None,
                first_name: None,
                last_name: None,
                enabled,
                attributes: Attributes::new(),
            },
        );
    }
    provider.seed_group(group("g1", "design"));
    (provider, FakeStorage::new())
}

fn group(id: &str, name: &str) -> Group {
    Group { id: text(id), name: text(name), path: text("/"), subgroups: vec![], realm_roles: vec![] }
}

fn perform(provider: &mut FakeProvider, storage: &mut FakeStorage, effect: &Effect) -> Reply {
    match effect {
        Effect::Provider(call) => Reply::Provider(provider.answer(call)),
        Effect::Storage(call) => Reply::Storage(storage.answer(call)),
        Effect::StoreFlash(_) => Reply::Done,
        other => perform_locally(other).expect("nothing else is needed"),
    }
}

fn bulk(enabled: Option<bool>, team: Option<&str>) -> BulkEditBody {
    BulkEditBody {
        csrf_token: text(""),
        users: vec![
            BulkUser { id: text("u1"), realm: text("smartech") },
            BulkUser { id: text("u2"), realm: text("smartech") },
        ],
        enabled,
        team_group_id: team.map(String::from),
    }
}

fn run_bulk(role: Role, body: &BulkEditBody) -> (FakeProvider, FakeStorage, Result<Outcome, Step>) {
    let (mut provider, mut storage) = seeded();
    let config = config();
    let mut replies: Vec<Reply> = vec![];
    loop {
        let mut cursor = Cursor::new(&replies);
        match bulk_edit_by(&mut cursor, &config, &someone(role), body) {
            Err(Step::Perform(effect)) => {
                let reply = perform(&mut provider, &mut storage, &effect);
                replies.push(reply);
            }
            end => return (provider, storage, end),
        }
    }
}

#[test]
fn an_operator_proposes_for_many() {
    let (provider, storage, end) = run_bulk(Role::Operator, &bulk(Some(false), None));
    assert_eq!(end, Ok(Outcome::Accepted));
    assert_eq!(provider, seeded().0);
    // The second user is disabled already.
    assert_eq!(storage.changes.len(), 1);
    assert_eq!(storage.changes[0].user_id, "u1");
    let (_, storage, _) = run_bulk(Role::Operator, &bulk(None, Some("g1")));
    assert_eq!(storage.changes.len(), 2);
    assert_eq!(storage.changes[1].diff[0].after, "g1");
    assert_eq!(storage.changes[1].diff[1].after, "design");
}

#[test]
fn an_unknown_team_is_no_team() {
    let (provider, storage, end) = run_bulk(Role::Admin, &bulk(None, Some("g9")));
    assert_eq!(end, Ok(Outcome::Accepted));
    assert_eq!(provider, seeded().0);
    assert_eq!(
        storage.audit[0].detail,
        "2 users affected — enabled=None team=Some(\"g9\")"
    );
}

#[test]
fn realms_out_of_reach_are_refused() {
    let mut body = bulk(Some(true), None);
    body.users[1].realm = text("other");
    let (_, _, end) = run_bulk(Role::Operator, &body);
    assert_eq!(end, Err(Step::Finish(Outcome::Failed(AppError::Forbidden))));
    let config = config();
    assert_eq!(operator_realm(&config), "smartech");
    assert!(reaches(&config, &someone(Role::Admin), "other"));
    assert!(reaches(&config, &someone(Role::Operator), "smartech"));
    assert!(!reaches(&config, &someone(Role::Operator), "other"));
    assert!(check_realm_access(&config, &someone(Role::Operator), "smartech").is_ok());
    assert!(check_realm_access(&config, &someone(Role::Operator), "other").is_err());
}

#[test]
fn a_new_user_waits_for_the_team() {
    let (mut provider, mut storage) = seeded();
    let form = NewUserForm {
        csrf_token: text(""),
        realm: text("smartech"),
        username: text("neda"),
        first_name: None,
        last_name: None,
        email: None,
        team_group_id: Some(text("g1")),
        phone_number: None,
        personnel_code: None,
        password: None,
        password_temporary: None,
        enabled: None,
    };
    let config = config();
    let mut replies: Vec<Reply> = vec![];
    let mut left = None;
    let end = loop {
        let mut cursor = Cursor::new(&replies);
        match create_user_by(&mut cursor, &config, &someone(Role::Operator), &form) {
            Err(Step::Perform(effect)) => {
                if let Effect::StoreFlash(flash) = &effect {
                    left = Some(flash.text.clone());
                }
                let reply = perform(&mut provider, &mut storage, &effect);
                replies.push(reply);
            }
            end => break end,
        }
    };
    assert!(matches!(end, Ok(Outcome::Redirect { .. })));
    assert_eq!(
        left.as_deref(),
        Some("User neda created. Team assignment sent for admin approval.")
    );
    assert_eq!(storage.changes.len(), 1);
    assert_eq!(storage.changes[0].username, "neda");
    let id = storage.changes[0].user_id.clone();
    assert!(provider.group_ids_of("smartech", &id).is_empty());
    assert!(!provider.get_seeded_user("smartech", &id).enabled);
}

#[test]
fn edits_are_what_differs() {
    let mut existing = seeded().0.get_seeded_user("smartech", "u1");
    existing.first_name = Some(text("A"));
    existing.attributes.insert(text("phone_number"), vec![text("1"), text("2")]);
    let groups = vec![group("x", "elsewhere"), group("g1", "design")];
    let teams = vec![group("g1", "design"), group("g2", "platform")];
    let form = EditForm {
        csrf_token: text(""),
        first_name: Some(text("B")),
        last_name: Some(text("")),
        email: None,
        enabled: Some(text("on")),
        status_reason: Some(text("unused")),
        team_group_id: Some(text("g2")),
        phone_number: Some(text("")),
        personnel_code: Some(text("")),
    };
    let edits: Vec<(String, Option<String>, String)> =
        collect_edits(&form, &existing, &groups, &teams)
            .into_iter()
            .map(|f| (f.field, f.before, f.after))
            .collect();
    let expected = [
        ("first_name", Some("A"), "B"),
        ("last_name", None, ""),
        ("team_group_id", Some("g1"), "g2"),
        ("team", None, "platform"),
        ("phone_number", Some("1"), ""),
    ];
    let expected: Vec<(String, Option<String>, String)> = expected
        .iter()
        .map(|(f, b, a)| (text(f), b.map(String::from), text(a)))
        .collect();
    assert_eq!(edits, expected);
}
