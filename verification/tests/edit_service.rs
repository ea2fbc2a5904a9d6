use grafter::attributes::Attributes;
use grafter::effects::{Effect, Reply, Step};
use grafter::portal::perform_locally;
use grafter::provider::{Group, ProviderCall, User};
use grafter::script::Cursor;
use grafter::service::users::{propose_or_apply, EditRequest};
use grafter::session::{Flash, Role};
use grafter::storage::{AuditOutcome, ChangeStatus, FieldChange};
use grafter::test_support::{FakeProvider, FakeStorage};

fn seeded() -> (FakeProvider, FakeStorage) {
    let mut provider = FakeProvider::new();
    provider.seed_user(
        "smartech",
        User {
            id: "u1".into(),
            username: "test.user@smartech.ir".into(),
            email: Some("test.user@smartech.ir".into()),
            first_name: Some("Test".into()),
            last_name: Some("User".into()),
            enabled: true,
            attributes: Attributes::new(),
        },
    );
    provider.seed_group(Group {
        id: "g-old".into(),
        name: "old-team".into(),
        path: "/old-team".into(),
        subgroups: vec![],
        realm_roles: vec![],
    });
    provider.seed_group(Group {
        id: "g-new".into(),
        name: "new-team".into(),
        path: "/new-team".into(),
        subgroups: vec![],
        realm_roles: vec!["iam-admin".into()],
    });
    (provider, FakeStorage::new())
}

fn req<'a>(diff: Vec<FieldChange>) -> EditRequest<'a> {
    EditRequest {
        realm: "smartech",
        user_id: "u1",
        username: "test.user@smartech.ir",
        actor: "actor@smartech.ir",
        diff,
    }
}

fn perform(provider: &mut FakeProvider, storage: &mut FakeStorage, effect: &Effect) -> Reply {
    match effect {
        Effect::Provider(call) => Reply::Provider(provider.answer(call)),
        Effect::Storage(call) => Reply::Storage(storage.answer(call)),
        other => perform_locally(other).expect("an edit needs nothing else"),
    }
}

fn run(
    role: Role,
    provider: &mut FakeProvider,
    storage: &mut FakeStorage,
    diff: Vec<FieldChange>,
) -> Result<Flash, Step> {
    let mut replies: Vec<Reply> = vec![];
    loop {
        let mut cursor = Cursor::new(&replies);
        match propose_or_apply(&mut cursor, role, req(diff.clone())) {
            Err(Step::Perform(effect)) => {
                let reply = perform(provider, storage, &effect);
                replies.push(reply);
            }
            end => return end,
        }
    }
}

fn join(provider: &mut FakeProvider, group_id: &str) {
    provider.answer(&ProviderCall::AddUserToGroup {
        realm: "smartech".into(),
        user_id: "u1".into(),
        group_id: group_id.into(),
    });
}

fn change(field: &str, before: Option<&str>, after: &str) -> FieldChange {
    FieldChange { field: field.into(), before: before.map(String::from), after: after.into() }
}

#[test]
fn admin_edit_applies_immediately_and_queues_nothing() {
    let (mut provider, mut storage) = seeded();
    let diff = vec![change("first_name", Some("Test"), "Changed")];

    run(Role::Admin, &mut provider, &mut storage, diff).unwrap();

    assert_eq!(
        provider.get_seeded_user("smartech", "u1").first_name.as_deref(),
        Some("Changed")
    );
    assert!(storage.changes.is_empty(), "admin edits must not queue a change");
}

#[test]
fn operator_edit_queues_and_does_not_touch_the_user() {
    let (mut provider, mut storage) = seeded();
    let diff = vec![change("first_name", Some("Test"), "Changed")];

    run(Role::Operator, &mut provider, &mut storage, diff).unwrap();

    assert_eq!(
        provider.get_seeded_user("smartech", "u1").first_name.as_deref(),
        Some("Test"),
        "operator proposals must not apply before approval"
    );
    assert_eq!(storage.changes.len(), 1);
    assert_eq!(storage.changes[0].status, ChangeStatus::Pending);
}

// An operator's choice of a team must be neither lost nor carried out at once.
#[test]
fn operator_team_change_is_queued_not_dropped() {
    let (mut provider, mut storage) = seeded();
    let diff = vec![
        change("team_group_id", None, "g-new"),
        change("team", None, "new-team"),
    ];

    run(Role::Operator, &mut provider, &mut storage, diff).unwrap();

    assert_eq!(storage.changes.len(), 1);
    assert!(storage.changes[0]
        .diff
        .iter()
        .any(|f| f.field == "team_group_id" && f.after == "g-new"));
}

// A change of nothing but the team must move the user between the groups.
#[test]
fn admin_team_only_change_moves_group_membership() {
    let (mut provider, mut storage) = seeded();
    join(&mut provider, "g-old");

    let diff = vec![
        change("team_group_id", Some("g-old"), "g-new"),
        change("team", None, "new-team"),
    ];
    run(Role::Admin, &mut provider, &mut storage, diff).unwrap();

    let groups = provider.group_ids_of("smartech", "u1");
    assert_eq!(groups, vec!["g-new".to_string()], "old team must be left, new team joined");
    assert_eq!(
        provider.get_seeded_user("smartech", "u1").team(),
        Some("new-team"),
        "team attribute should be synced for list display"
    );
}

#[test]
fn clearing_the_team_leaves_every_group() {
    let (mut provider, mut storage) = seeded();
    join(&mut provider, "g-old");

    let diff = vec![
        change("team_group_id", Some("g-old"), ""),
        change("team", None, ""),
    ];
    run(Role::Admin, &mut provider, &mut storage, diff).unwrap();

    assert!(provider.group_ids_of("smartech", "u1").is_empty());
}

#[test]
fn every_path_writes_an_audit_entry() {
    let (mut provider, mut storage) = seeded();
    let diff = vec![change("email", None, "new@smartech.ir")];

    run(Role::Admin, &mut provider, &mut storage, diff).unwrap();
    assert_eq!(storage.audit.len(), 1);
}

#[test]
fn what_an_edit_leaves_in_the_log() {
    let (mut provider, mut storage) = seeded();
    let diff = vec![change("email", None, "a@b"), change("last_name", None, "L")];
    let flash = run(Role::Admin, &mut provider, &mut storage, diff.clone()).unwrap();
    assert_eq!(flash, Flash::success("User updated.".to_string()));
    let entry = &storage.audit[0];
    assert_eq!(entry.action, "edit_user");
    assert_eq!(entry.actor, "actor@smartech.ir");
    assert_eq!(entry.target_realm, "smartech");
    assert_eq!(entry.target_user.as_deref(), Some("test.user@smartech.ir"));
    assert_eq!(entry.detail, "2 field(s) changed");
    assert_eq!(entry.outcome, AuditOutcome::Success);

    let flash = run(Role::Operator, &mut provider, &mut storage, diff.clone()).unwrap();
    assert_eq!(
        flash,
        Flash::warning("Change proposed and queued for admin approval.".to_string())
    );
    let proposed = &storage.changes[0];
    assert_eq!(proposed.proposed_by, "actor@smartech.ir");
    assert_eq!(proposed.user_id, "u1");
    assert_eq!(proposed.diff, diff);
    assert_eq!(proposed.resolved_by, None);
    assert_eq!(storage.audit[1].action, "propose_change");
    assert_eq!(
        storage.audit[1].detail,
        format!("change {} pending approval", proposed.id)
    );
}
