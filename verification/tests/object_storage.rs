use grafter::storage::s3::{Record, RecordKind, S3Effect, S3Reply, S3Step, S3Storage};
use grafter::storage::{
    default_action, AuditEntry, AuditOutcome, ChangeStatus, FieldChange, PendingChange,
    StorageAnswer, StorageCall,
};
use grafter::time::{Stamp, Timestamp};

fn text(s: &str) -> String {
    s.to_string()
}

fn change(id: &str, secs: i64, status: ChangeStatus) -> PendingChange {
    PendingChange {
        id: text(id),
        realm: text("smartech"),
        user_id: text("u1"),
        username: text("sara"),
        proposed_by: text("oper"),
        proposed_at: Timestamp { secs, nanos: 0 },
        status,
        resolved_by: None,
        resolved_at: None,
        reject_reason: None,
        diff: vec![FieldChange { field: text("email"), before: None, after: text("a@b") }],
        action: default_action(),
    }
}

fn entry(id: &str, secs: i64) -> AuditEntry {
    AuditEntry {
        id: text(id),
        timestamp: Timestamp { secs, nanos: 0 },
        actor: text("root"),
        action: text("edit_user"),
        target_realm: text("smartech"),
        target_user: None,
        detail: text("1 field(s) changed"),
        outcome: AuditOutcome::Success,
    }
}

fn perform(effect: S3Effect) -> S3Step {
    S3Step::Perform(effect)
}

#[test]
fn a_change_is_written_and_read_at_one_place() {
    let storage = S3Storage::new();
    let id = "0d9e7c1a-3f8b-4f63-9d6e-2b1c5a7e8f90";
    let path = format!("grafter/changes/{id}.json");
    assert_eq!(storage.change_path(id), path);
    let saved = change(id, 5, ChangeStatus::Pending);
    let save = StorageCall::SaveChange(saved.clone());
    assert_eq!(
        storage.respond(&save, &vec![]),
        perform(S3Effect::Put { path: path.clone(), record: Record::Change(saved.clone()) })
    );
    assert_eq!(
        storage.respond(&save, &vec![S3Reply::Done]),
        S3Step::Answer(StorageAnswer::Done)
    );
    assert_eq!(
        storage.respond(&save, &vec![S3Reply::Failed(text("down"))]),
        S3Step::Answer(StorageAnswer::Failed(text("s3 put change")))
    );
    let get = StorageCall::GetChange { id: text(id) };
    assert_eq!(
        storage.respond(&get, &vec![]),
        perform(S3Effect::Get { path: path.clone(), kind: RecordKind::Change })
    );
    assert_eq!(
        storage.respond(&get, &vec![S3Reply::Record(Record::Change(saved.clone()))]),
        S3Step::Answer(StorageAnswer::Change(Some(saved)))
    );
    assert_eq!(
        storage.respond(&get, &vec![S3Reply::Missing]),
        S3Step::Answer(StorageAnswer::Change(None))
    );
    let delete = StorageCall::DeleteChange { id: text(id) };
    assert_eq!(storage.respond(&delete, &vec![]), perform(S3Effect::Delete { path }));
    for reply in [S3Reply::Done, S3Reply::Missing] {
        assert_eq!(
            storage.respond(&delete, &vec![reply]),
            S3Step::Answer(StorageAnswer::Done)
        );
    }
}

#[test]
fn odd_ids_make_safe_paths() {
    let storage = S3Storage::new();
    assert_eq!(storage.change_path("a b"), "grafter/changes/a b.json");
    assert_eq!(storage.change_path("//x"), "grafter/changes/x.json");
    assert_ne!(storage.change_path("a#?"), "grafter/changes/a#?.json");
}

#[test]
fn changes_are_listed_newest_first() {
    let storage = S3Storage::new();
    let call = StorageCall::ListChanges;
    assert_eq!(
        storage.respond(&call, &vec![]),
        perform(S3Effect::List { prefix: text("grafter/changes") })
    );
    let mut replies = vec![S3Reply::Paths(vec![text("p1"), text("p2"), text("p3")])];
    assert_eq!(
        storage.respond(&call, &replies),
        perform(S3Effect::Get { path: text("p1"), kind: RecordKind::Change })
    );
    let old = change("c1", 1, ChangeStatus::Approved);
    let new = change("c3", 9, ChangeStatus::Pending);
    replies.push(S3Reply::Record(Record::Change(old.clone())));
    replies.push(S3Reply::Corrupt);
    replies.push(S3Reply::Record(Record::Change(new.clone())));
    assert_eq!(
        storage.respond(&call, &replies),
        S3Step::Answer(StorageAnswer::Changes(vec![new.clone(), old]))
    );
    assert_eq!(
        storage.respond(&StorageCall::ListPendingChanges, &replies),
        S3Step::Answer(StorageAnswer::Changes(vec![new]))
    );
}

#[test]
fn entries_are_kept_by_day() {
    let storage = S3Storage::new();
    let id = "0d9e7c1a-3f8b-4f63-9d6e-2b1c5a7e8f90";
    let noon = entry(id, 1_782_000_000);
    assert_eq!(noon.timestamp.date().as_deref(), Some("2026-06-21"));
    let append = StorageCall::AppendAudit(noon.clone());
    assert_eq!(
        storage.respond(&append, &vec![]),
        perform(S3Effect::Put {
            path: format!("grafter/audit/2026-06-21/{id}.json"),
            record: Record::Entry(noon),
        })
    );
    assert_eq!(
        storage.respond(&append, &vec![S3Reply::Failed(text("down"))]),
        S3Step::Answer(StorageAnswer::Failed(text("s3 put audit entry")))
    );
    assert_eq!(
        storage.audit_entry_path("2026-06-21", "e1"),
        "grafter/audit/2026-06-21/e1.json"
    );
    assert_eq!(storage.audit_prefix("2026-06-21"), "grafter/audit/2026-06-21");
    let day = StorageCall::ListAudit { date: Some(text("2026-06-21")) };
    assert_eq!(
        storage.respond(&day, &vec![]),
        perform(S3Effect::List { prefix: text("grafter/audit/2026-06-21") })
    );
    let replies = vec![
        S3Reply::Paths(vec![text("p1"), text("p2")]),
        S3Reply::Record(Record::Entry(entry("e2", 20))),
        S3Reply::Record(Record::Entry(entry("e1", 10))),
    ];
    assert_eq!(
        storage.respond(&day, &replies),
        S3Step::Answer(StorageAnswer::Entries(vec![entry("e1", 10), entry("e2", 20)]))
    );
}

#[test]
fn without_a_date_it_is_today() {
    let storage = S3Storage::new();
    let call = StorageCall::ListAudit { date: None };
    assert_eq!(storage.respond(&call, &vec![]), perform(S3Effect::ReadClock));
    let now = S3Reply::Time(Timestamp { secs: 86_400, nanos: 0 });
    assert_eq!(
        storage.respond(&call, &vec![now]),
        perform(S3Effect::List { prefix: text("grafter/audit/1970-01-02") })
    );
}

#[test]
fn what_cannot_be_read_is_an_error() {
    let storage = S3Storage::new();
    let failed = |message: &str| S3Step::Answer(StorageAnswer::Failed(text(message)));
    let get = StorageCall::GetChange { id: text("c1") };
    assert_eq!(storage.respond(&get, &vec![S3Reply::Failed(text("down"))]), failed("down"));
    assert_eq!(storage.respond(&get, &vec![S3Reply::Corrupt]), failed("corrupt object"));
    let list = StorageCall::ListChanges;
    assert_eq!(storage.respond(&list, &vec![S3Reply::Failed(text("down"))]), failed("down"));
    let gone = vec![S3Reply::Paths(vec![text("p1")]), S3Reply::Missing];
    assert_eq!(storage.respond(&list, &gone), failed("object not found"));
    let delete = StorageCall::DeleteChange { id: text("c1") };
    assert_eq!(
        storage.respond(&delete, &vec![S3Reply::Failed(text("down"))]),
        failed("s3 delete change")
    );
}

#[test]
fn points_in_time_are_ordered() {
    let at = |secs: i64, nanos: u32| Timestamp { secs, nanos };
    assert!(at(2, 0).is_later(&at(1, 9)));
    assert!(at(1, 2).is_later(&at(1, 1)));
    assert!(!at(1, 1).is_later(&at(1, 1)));
    assert!(Timestamp::now().is_later(&at(1_700_000_000, 0)));
    assert_eq!(at(i64::MAX, 0).date(), None);
}

#[test]
fn drawn_ids_differ() {
    let a = Stamp::fresh();
    let b = Stamp::fresh();
    assert_eq!(a.id.len(), 36);
    assert_ne!(a.id, b.id);
    assert!(!a.at.is_later(&b.at));
    let now = Timestamp::now();
    assert!(!b.at.is_later(&now));
    assert!(now.nanos < 1_000_000_000);
    assert_eq!(now.date().map(|date| date.len()), Some(10));
    assert_eq!(default_action(), "edit_user");
}
