//! Where records are kept, and how lists of them are read.

use crate::lists::{in_sequence, is_order, lemma_sorted, sorted};
use crate::outside::{object_path, utc_date};
use crate::script::Ask;
use crate::storage::{
    AuditEntryModel, ChangeStatus, PendingChangeModel, StorageAnswerModel, StorageCallModel,
};
use crate::storage::s3::{
    call_served, changes_read, entries_read, newest_proposed, oldest_first, s3_response, RecordKind,
    RecordModel, S3EffectModel, S3ReplyModel, S3StepModel,
};
use crate::time::Timestamp;
use vstd::prelude::*;

verus! {

/// A call to the storage needs an effect next.
pub open spec fn wants(
    prefix: Seq<char>,
    call: StorageCallModel,
    replies: Seq<S3ReplyModel>,
    effect: S3EffectModel,
) -> bool {
    s3_response(prefix, call, replies) == S3StepModel::Perform(effect)
}

/// A call to the storage has ended with an answer.
pub open spec fn gives(
    prefix: Seq<char>,
    call: StorageCallModel,
    replies: Seq<S3ReplyModel>,
    answer: StorageAnswerModel,
) -> bool {
    s3_response(prefix, call, replies) == S3StepModel::Answer(answer)
}

/// The place of a change in the bucket.
pub open spec fn place_of(prefix: Seq<char>, id: Seq<char>) -> Seq<char> {
    object_path(prefix + "/changes/"@ + id + ".json"@)
}

/// Every change has one place, named by its id. It is written there, over what was there, and
/// read and deleted there; what cannot be written is an error, and what is not there is none.
pub proof fn lemma_changes_have_one_place(
    prefix: Seq<char>,
    change: PendingChangeModel,
    id: Seq<char>,
    other: S3ReplyModel,
    problem: Seq<char>,
)
    ensures
        ({
            let save = StorageCallModel::SaveChange(change);
            let get = StorageCallModel::GetChange { id };
            let delete = StorageCallModel::DeleteChange { id };
            let none = Seq::<S3ReplyModel>::empty();
            let found = S3ReplyModel::Record(RecordModel::Change(change));
            &&& wants(
                prefix,
                save,
                none,
                S3EffectModel::Put {
                    path: place_of(prefix, change.id),
                    record: RecordModel::Change(change),
                },
            )
            &&& gives(prefix, save, seq![S3ReplyModel::Done], StorageAnswerModel::Done)
            &&& other != S3ReplyModel::Done ==> gives(
                prefix,
                save,
                seq![other],
                StorageAnswerModel::Failed("s3 put change"@),
            )
            &&& wants(
                prefix,
                get,
                none,
                S3EffectModel::Get { path: place_of(prefix, id), kind: RecordKind::Change },
            )
            &&& gives(prefix, get, seq![found], StorageAnswerModel::Change(Some(change)))
            &&& gives(prefix, get, seq![S3ReplyModel::Missing], StorageAnswerModel::Change(None))
            &&& gives(
                prefix,
                get,
                seq![S3ReplyModel::Failed(problem)],
                StorageAnswerModel::Failed(problem),
            )
            &&& gives(
                prefix,
                get,
                seq![S3ReplyModel::Corrupt],
                StorageAnswerModel::Failed("corrupt object"@),
            )
            &&& wants(
                prefix,
                delete,
                none,
                S3EffectModel::Delete { path: place_of(prefix, id) },
            )
            &&& gives(prefix, delete, seq![S3ReplyModel::Done], StorageAnswerModel::Done)
            &&& gives(prefix, delete, seq![S3ReplyModel::Missing], StorageAnswerModel::Done)
            &&& other != S3ReplyModel::Done && other != S3ReplyModel::Missing ==> gives(
                prefix,
                delete,
                seq![other],
                StorageAnswerModel::Failed("s3 delete change"@),
            )
        }),
{
}

/// The day of a point in time, as it is written in paths.
pub open spec fn day_of(at: Timestamp, day: Seq<char>) -> bool {
    match utc_date(at.secs, at.nanos) {
        Some(date) => day == date,
        None => day.len() == 0,
    }
}

/// An entry of the audit log is kept with the others of the day on which it happened, under its
/// id. An entry that cannot be written is an error.
pub proof fn lemma_entries_are_kept_by_day(
    prefix: Seq<char>,
    entry: AuditEntryModel,
    day: Seq<char>,
    other: S3ReplyModel,
)
    requires
        day_of(entry.timestamp, day),
    ensures
        ({
            let call = StorageCallModel::AppendAudit(entry);
            &&& wants(
                prefix,
                call,
                Seq::empty(),
                S3EffectModel::Put {
                    path: object_path(prefix + "/audit/"@ + day + "/"@ + entry.id + ".json"@),
                    record: RecordModel::Entry(entry),
                },
            )
            &&& gives(prefix, call, seq![S3ReplyModel::Done], StorageAnswerModel::Done)
            &&& other != S3ReplyModel::Done ==> gives(
                prefix,
                call,
                seq![other],
                StorageAnswerModel::Failed("s3 put audit entry"@),
            )
        }),
{
    if utc_date(entry.timestamp.secs, entry.timestamp.nanos) is None {
        assert(day =~= Seq::empty());
    }
}

// ── Lists ────────────────────────────────────────────────────────────────────

/// A point in time comes before another.
pub open spec fn before(a: Timestamp, b: Timestamp) -> bool {
    a.secs < b.secs || (a.secs == b.secs && a.nanos < b.nanos)
}

/// The objects of a list were read one by one; some of them may hold something else.
pub open spec fn were_read(records: Seq<S3ReplyModel>) -> bool {
    forall|i: int|
        0 <= i < records.len() ==> (#[trigger] records[i]) is Record || records[i] is Corrupt
}

/// The changes among the objects that were read.
pub open spec fn changes_in(records: Seq<S3ReplyModel>) -> Seq<PendingChangeModel>
    decreases records.len(),
{
    if records.len() == 0 {
        Seq::empty()
    } else {
        match records.last() {
            S3ReplyModel::Record(RecordModel::Change(change)) => changes_in(
                records.drop_last(),
            ).push(change),
            _ => changes_in(records.drop_last()),
        }
    }
}

/// The entries among the objects that were read.
pub open spec fn entries_in(records: Seq<S3ReplyModel>) -> Seq<AuditEntryModel>
    decreases records.len(),
{
    if records.len() == 0 {
        Seq::empty()
    } else {
        match records.last() {
            S3ReplyModel::Record(RecordModel::Entry(entry)) => entries_in(
                records.drop_last(),
            ).push(entry),
            _ => entries_in(records.drop_last()),
        }
    }
}

proof fn lemma_changes_read(
    paths: Seq<Seq<char>>,
    records: Seq<S3ReplyModel>,
    tail: Seq<S3ReplyModel>,
)
    requires
        records.len() <= paths.len(),
        were_read(records),
    ensures
        changes_read(paths, Seq::empty(), records + tail) == changes_read(
            paths.skip(records.len() as int),
            changes_in(records),
            tail,
        ),
        entries_read(paths, Seq::empty(), records + tail) == entries_read(
            paths.skip(records.len() as int),
            entries_in(records),
            tail,
        ),
    decreases records.len(),
{
    if records.len() == 0 {
        assert(paths.skip(0) =~= paths);
        assert(records + tail =~= tail);
    } else {
        let n = records.len() - 1;
        let front = records.drop_last();
        let rest = seq![records.last()] + tail;
        assert(records + tail =~= front + rest);
        assert forall|i: int| 0 <= i < front.len() implies (#[trigger] front[i]) is Record
            || front[i] is Corrupt by {
            assert(records[i] is Record || records[i] is Corrupt);
        }
        assert(records[n] is Record || records[n] is Corrupt);
        lemma_changes_read(paths, front, rest);
        assert(paths.skip(n).skip(1) =~= paths.skip(n + 1));
        assert(rest[0] == records.last());
        assert(rest.skip(1) =~= tail);
    }
}

/// The changes of a list are in their order, the last proposed first.
pub open spec fn lists_changes(
    records: Seq<S3ReplyModel>,
    all: Seq<PendingChangeModel>,
) -> bool {
    &&& all.to_multiset() == changes_in(records).to_multiset()
    &&& forall|i: int, j: int|
        0 <= i <= j < all.len() ==> !before(
            (#[trigger] all[i]).proposed_at,
            (#[trigger] all[j]).proposed_at,
        )
}

proof fn lemma_lists_changes(records: Seq<S3ReplyModel>)
    ensures
        lists_changes(records, sorted(changes_in(records), newest_proposed())),
{
    let order = newest_proposed();
    assert(is_order(order));
    lemma_sorted(changes_in(records), order);
    let all = sorted(changes_in(records), order);
    assert forall|i: int, j: int| 0 <= i <= j < all.len() implies !before(
        (#[trigger] all[i]).proposed_at,
        (#[trigger] all[j]).proposed_at,
    ) by {
        assert(order(all[i], all[j]));
    }
}

/// A list of changes is made of every object below their place, read one by one; all that are
/// changes are in it, the last proposed first. The list of those that wait holds the ones of
/// them that are pending, and no others.
pub proof fn lemma_lists_hold_every_change(
    prefix: Seq<char>,
    paths: Seq<Seq<char>>,
    records: Seq<S3ReplyModel>,
    problem: Seq<char>,
)
    requires
        records.len() <= paths.len(),
        were_read(records),
    ensures
        ({
            let list = StorageCallModel::ListChanges;
            let waiting = StorageCallModel::ListPendingChanges;
            let start = S3EffectModel::List { prefix: object_path(prefix + "/changes"@) };
            let so_far = seq![S3ReplyModel::Paths(paths)] + records;
            let n = records.len() as int;
            &&& wants(prefix, list, Seq::empty(), start)
            &&& wants(prefix, waiting, Seq::empty(), start)
            &&& n < paths.len() ==> {
                let get = S3EffectModel::Get { path: paths[n], kind: RecordKind::Change };
                let lost = so_far.push(S3ReplyModel::Failed(problem));
                &&& wants(prefix, list, so_far, get)
                &&& wants(prefix, waiting, so_far, get)
                &&& gives(prefix, list, lost, StorageAnswerModel::Failed(problem))
                &&& gives(prefix, waiting, lost, StorageAnswerModel::Failed(problem))
            }
            &&& n == paths.len() ==> exists|all: Seq<PendingChangeModel>|
                {
                    &&& #[trigger] lists_changes(records, all)
                    &&& gives(prefix, list, so_far, StorageAnswerModel::Changes(all))
                    &&& gives(
                        prefix,
                        waiting,
                        so_far,
                        StorageAnswerModel::Changes(
                            all.filter(
                                |c: PendingChangeModel| c.status == ChangeStatus::Pending,
                            ),
                        ),
                    )
                }
        }),
{
    let so_far = seq![S3ReplyModel::Paths(paths)] + records;
    let lost = seq![S3ReplyModel::Failed(problem)];
    let none = Seq::<S3ReplyModel>::empty();
    let n = records.len() as int;
    lemma_changes_read(paths, records, none);
    lemma_changes_read(paths, records, lost);
    assert(so_far.skip(1) =~= records + none);
    assert(so_far.push(S3ReplyModel::Failed(problem)).skip(1) =~= records + lost);
    if n < paths.len() {
        assert(paths.skip(n)[0] == paths[n]);
    } else {
        assert(paths.skip(n).len() == 0);
        lemma_lists_changes(records);
        let all = sorted(changes_in(records), newest_proposed());
        let a = |c: PendingChangeModel| c.status == ChangeStatus::Pending;
        let b = |c: PendingChangeModel| crate::storage::is_open(c);
        assert(a =~= b);
        assert(lists_changes(records, all));
    }
}

/// The entries of a list are in the order in which they happened.
pub open spec fn lists_entries(records: Seq<S3ReplyModel>, all: Seq<AuditEntryModel>) -> bool {
    &&& all.to_multiset() == entries_in(records).to_multiset()
    &&& forall|i: int, j: int|
        0 <= i <= j < all.len() ==> !before(
            (#[trigger] all[j]).timestamp,
            (#[trigger] all[i]).timestamp,
        )
}

/// A day of the audit log, today's where none is named, is made of every object below its
/// place, read one by one; all that are entries are in it, the first one first.
pub proof fn lemma_days_hold_every_entry(
    prefix: Seq<char>,
    date: Option<Seq<char>>,
    now: Timestamp,
    day: Seq<char>,
    paths: Seq<Seq<char>>,
    records: Seq<S3ReplyModel>,
    problem: Seq<char>,
)
    requires
        records.len() <= paths.len(),
        were_read(records),
        date is Some ==> day == date->0,
        date is None ==> day_of(now, day),
    ensures
        ({
            let call = StorageCallModel::ListAudit { date };
            let head = if date is Some {
                Seq::empty()
            } else {
                seq![S3ReplyModel::Time(now)]
            };
            let so_far = head + (seq![S3ReplyModel::Paths(paths)] + records);
            let n = records.len() as int;
            &&& date is None ==> wants(prefix, call, Seq::empty(), S3EffectModel::ReadClock)
            &&& wants(
                prefix,
                call,
                head,
                S3EffectModel::List { prefix: object_path(prefix + "/audit/"@ + day) },
            )
            &&& n < paths.len() ==> {
                &&& wants(
                    prefix,
                    call,
                    so_far,
                    S3EffectModel::Get { path: paths[n], kind: RecordKind::Entry },
                )
                &&& gives(
                    prefix,
                    call,
                    so_far.push(S3ReplyModel::Failed(problem)),
                    StorageAnswerModel::Failed(problem),
                )
            }
            &&& n == paths.len() ==> exists|all: Seq<AuditEntryModel>| #[trigger]
                lists_entries(records, all) && gives(
                    prefix,
                    call,
                    so_far,
                    StorageAnswerModel::Entries(all),
                )
        }),
{
    let head = if date is Some {
        Seq::<S3ReplyModel>::empty()
    } else {
        seq![S3ReplyModel::Time(now)]
    };
    let inner = seq![S3ReplyModel::Paths(paths)] + records;
    let lost = seq![S3ReplyModel::Failed(problem)];
    let none = Seq::<S3ReplyModel>::empty();
    let n = records.len() as int;
    if date is None && utc_date(now.secs, now.nanos) is None {
        assert(day =~= Seq::empty());
    }
    lemma_changes_read(paths, records, none);
    lemma_changes_read(paths, records, lost);
    let so_far = head + inner;
    let all_lost = so_far.push(S3ReplyModel::Failed(problem));
    if date is Some {
        assert(so_far =~= inner);
        assert(all_lost =~= inner + lost);
    } else {
        assert(so_far.skip(1) =~= inner);
        assert(all_lost.skip(1) =~= inner + lost);
        assert(head.skip(1) =~= none);
        assert(so_far[0] == S3ReplyModel::Time(now));
        assert(all_lost[0] == S3ReplyModel::Time(now));
    }
    assert(inner.skip(1) =~= records + none);
    assert((inner + lost).skip(1) =~= records + lost);
    assert((inner + lost)[0] == S3ReplyModel::Paths(paths));
    if n < paths.len() {
        assert(paths.skip(n)[0] == paths[n]);
    } else {
        assert(paths.skip(n).len() == 0);
        let order = oldest_first();
        assert(is_order(order));
        lemma_sorted(entries_in(records), order);
        let all = sorted(entries_in(records), order);
        assert forall|i: int, j: int| 0 <= i <= j < all.len() implies !before(
            (#[trigger] all[j]).timestamp,
            (#[trigger] all[i]).timestamp,
        ) by {
            assert(order(all[i], all[j]));
        }
        assert(lists_entries(records, all));
    }
}

} // verus!
