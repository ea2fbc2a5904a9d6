use grafter::attributes::{first_value_of, Attributes};
use grafter::effects::Reply;
use grafter::error::ProviderError;
use grafter::provider::{
    CreateUser, Group, ListUsersQuery, ProviderAnswer, ProviderCall, UpdateUser, User,
};
use grafter::script::Cursor;
use grafter::storage::{
    AuditEntry, AuditOutcome, ChangeStatus, PendingChange, StorageAnswer, StorageCall,
};
use grafter::test_support::{FakeProvider, FakeStorage};
use grafter::time::Timestamp;

fn text(s: &str) -> String {
    s.to_string()
}

fn user(id: &str) -> User {
    User {
        id: text(id),
        username: format!("user-{id}"),
        email: None,
        first_name: None,
        last_name: None,
        enabled: true,
        attributes: Attributes::new(),
    }
}

fn group(id: &str) -> Group {
    Group { id: text(id), name: text(id), path: text("/"), subgroups: vec![], realm_roles: vec![] }
}

fn get(id: &str) -> ProviderCall {
    ProviderCall::GetUser { realm: text("r"), id: text(id) }
}

#[test]
fn attributes_hold_one_list_for_each_key() {
    let mut a = Attributes::new();
    assert!(a.is_empty());
    a.insert(text("k"), vec![text("1")]);
    a.insert(text("l"), vec![]);
    a.insert(text("k"), vec![text("2"), text("3")]);
    assert_eq!(a.len(), 2);
    assert_eq!(a.get("k"), Some(&vec![text("2"), text("3")]));
    assert_eq!(first_value_of(&a, "k").as_deref(), Some("2"));
    assert_eq!(first_value_of(&a, "l"), None);
    assert_eq!(first_value_of(&a, "m"), None);
    assert_eq!(a.entry(0), Some((&text("k"), &vec![text("2"), text("3")])));
    assert_eq!(a.entry(2), None);
    let mut b = Attributes::new();
    b.insert(text("k"), vec![text("9")]);
    b.insert(text("n"), vec![text("8")]);
    a.extend(&b);
    assert_eq!(a.len(), 3);
    assert_eq!(a.get("k"), Some(&vec![text("9")]));
    assert_eq!(a.clone(), a);
}

#[test]
fn seeded_users_are_found() {
    let mut p = FakeProvider::new();
    assert_eq!(p.name(), "fake");
    p.seed_user("r", user("1"));
    p.seed_user("r", user("2"));
    assert_eq!(p.answer(&get("2")), ProviderAnswer::User(user("2")));
    assert_eq!(p.answer(&get("3")), ProviderAnswer::Failed(ProviderError::NotFound));
    let mut again = user("1");
    again.enabled = false;
    p.seed_user("r", again.clone());
    let list = ProviderCall::ListUsers { realm: text("r"), query: ListUsersQuery::new() };
    assert_eq!(p.answer(&list), ProviderAnswer::Users(vec![again, user("2")]));
    assert_eq!(p.get_seeded_user("r", "2"), user("2"));
}

#[test]
fn updates_keep_what_they_do_not_name() {
    let mut p = FakeProvider::new();
    let mut seeded = user("1");
    seeded.email = Some(text("a@b"));
    seeded.attributes.insert(text("badge"), vec![text("7")]);
    p.seed_user("r", seeded);
    let mut update = UpdateUser::default();
    update.first_name = Some(text("F"));
    let mut attributes = Attributes::new();
    attributes.insert(text("team"), vec![text("t")]);
    update.attributes = Some(attributes);
    let call = ProviderCall::UpdateUser { realm: text("r"), id: text("1"), update };
    assert_eq!(p.answer(&call), ProviderAnswer::Done);
    let now = p.get_seeded_user("r", "1");
    assert_eq!(now.first_name.as_deref(), Some("F"));
    assert_eq!(now.email.as_deref(), Some("a@b"));
    assert_eq!(now.attributes.get("badge"), Some(&vec![text("7")]));
    assert_eq!(now.team(), Some("t"));
    p.answer(&ProviderCall::SetUserEnabled { realm: text("r"), id: text("1"), enabled: false });
    assert!(!p.get_seeded_user("r", "1").enabled);
    let set = ProviderCall::SetUserAttribute {
        realm: text("r"),
        id: text("1"),
        key: text("team"),
        value: text("u"),
    };
    p.answer(&set);
    assert_eq!(p.get_seeded_user("r", "1").team(), Some("u"));
    let lost = ProviderCall::SetUserEnabled { realm: text("r"), id: text("9"), enabled: true };
    assert_eq!(p.answer(&lost), ProviderAnswer::Failed(ProviderError::NotFound));
    p.answer(&ProviderCall::DeleteUser { realm: text("r"), id: text("1") });
    assert_eq!(p.answer(&get("1")), ProviderAnswer::Failed(ProviderError::NotFound));
}

#[test]
fn created_users_are_numbered() {
    let mut p = FakeProvider::new();
    p.seed_user("r", user("1"));
    let call = ProviderCall::CreateUser {
        realm: text("r"),
        user: CreateUser {
            username: text("neda"),
            email: None,
            first_name: None,
            last_name: None,
            enabled: true,
            password: None,
            password_temporary: false,
            phone_number: None,
            personnel_code: None,
            attributes: Attributes::new(),
        },
    };
    match p.answer(&call) {
        ProviderAnswer::User(made) => {
            assert_eq!(made.username, "neda");
            assert_eq!(p.get_seeded_user("r", &made.id), made);
        }
        other => panic!("expected a user, got {other:?}"),
    }
}

#[test]
fn groups_are_joined_and_left() {
    let mut p = FakeProvider::new();
    p.seed_user("r", user("1"));
    p.seed_user("r", user("2"));
    p.seed_group(group("a"));
    p.seed_group(group("b"));
    let join = |id: &str, g: &str| ProviderCall::AddUserToGroup {
        realm: text("r"),
        user_id: text(id),
        group_id: text(g),
    };
    for call in [join("1", "a"), join("1", "b"), join("1", "a"), join("2", "b")] {
        assert_eq!(p.answer(&call), ProviderAnswer::Done);
    }
    assert_eq!(p.group_ids_of("r", "1"), vec![text("a"), text("b")]);
    let groups = ProviderCall::GetUserGroups { realm: text("r"), user_id: text("1") };
    assert_eq!(p.answer(&groups), ProviderAnswer::Groups(vec![group("a"), group("b")]));
    p.answer(&ProviderCall::RemoveUserFromGroup {
        realm: text("r"),
        user_id: text("1"),
        group_id: text("a"),
    });
    assert_eq!(p.group_ids_of("r", "1"), vec![text("b")]);
    assert_eq!(p.group_ids_of("r", "2"), vec![text("b")]);
    let members = ProviderCall::ListGroupMembers { realm: text("r"), group_id: text("b") };
    assert_eq!(p.answer(&members), ProviderAnswer::Users(vec![user("1"), user("2")]));
    let elsewhere = ProviderCall::ListGroupMembers { realm: text("s"), group_id: text("b") };
    assert_eq!(p.answer(&elsewhere), ProviderAnswer::Users(vec![]));
    assert_eq!(
        p.answer(&ProviderCall::ListGroups { realm: text("r") }),
        ProviderAnswer::Groups(vec![group("a"), group("b")])
    );
}

fn change(id: &str, status: ChangeStatus) -> PendingChange {
    PendingChange {
        id: text(id),
        realm: text("r"),
        user_id: text("1"),
        username: text("u"),
        proposed_by: text("p"),
        proposed_at: Timestamp { secs: 1, nanos: 0 },
        status,
        resolved_by: None,
        resolved_at: None,
        reject_reason: None,
        diff: vec![],
        action: text("edit_user"),
    }
}

#[test]
fn saved_changes_are_read_back() {
    let mut s = FakeStorage::new();
    let one = change("1", ChangeStatus::Pending);
    let two = change("2", ChangeStatus::Pending);
    s.answer(&StorageCall::SaveChange(one.clone()));
    s.answer(&StorageCall::SaveChange(two.clone()));
    let done = change("1", ChangeStatus::Approved);
    assert_eq!(s.answer(&StorageCall::SaveChange(done.clone())), StorageAnswer::Done);
    let read = |s: &mut FakeStorage, id: &str| s.answer(&StorageCall::GetChange { id: text(id) });
    assert_eq!(read(&mut s, "1"), StorageAnswer::Change(Some(done.clone())));
    assert_eq!(read(&mut s, "2"), StorageAnswer::Change(Some(two.clone())));
    assert_eq!(read(&mut s, "3"), StorageAnswer::Change(None));
    assert_eq!(
        s.answer(&StorageCall::ListChanges),
        StorageAnswer::Changes(vec![done.clone(), two.clone()])
    );
    assert_eq!(
        s.answer(&StorageCall::ListPendingChanges),
        StorageAnswer::Changes(vec![two])
    );
    s.answer(&StorageCall::DeleteChange { id: text("2") });
    assert_eq!(s.changes, vec![done]);
}

#[test]
fn entries_are_appended() {
    let mut s = FakeStorage::new();
    let entry = AuditEntry {
        id: text("e"),
        timestamp: Timestamp { secs: 1, nanos: 0 },
        actor: text("a"),
        action: text("b"),
        target_realm: text("r"),
        target_user: None,
        detail: text("d"),
        outcome: AuditOutcome::Failure(text("why")),
    };
    s.answer(&StorageCall::AppendAudit(entry.clone()));
    s.answer(&StorageCall::AppendAudit(entry.clone()));
    assert_eq!(
        s.answer(&StorageCall::ListAudit { date: None }),
        StorageAnswer::Entries(vec![entry.clone(), entry])
    );
}

#[test]
fn replies_are_used_in_their_order() {
    let replies = vec![Reply::Done, Reply::Locked(true)];
    let mut cursor = Cursor::new(&replies);
    assert_eq!(cursor.next(), Some(&Reply::Done));
    assert_eq!(cursor.next(), Some(&Reply::Locked(true)));
    assert_eq!(cursor.next(), None);
    assert_eq!(cursor.next(), None);
}
