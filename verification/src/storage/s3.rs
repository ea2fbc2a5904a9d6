//! Object storage for changes and the audit log: one object for each record.

use crate::lists::{retain, sort, sorted};
use crate::outside::{
    is_plain_path, is_plain_path_char, is_uuid_char, object_path, object_path_of, utc_date,
};
use crate::script::{answers, Ask, Cursor};
use crate::storage::{
    is_open, AuditEntry, AuditEntryModel, ChangeStatus, PendingChange, PendingChangeModel,
    StorageAnswer, StorageAnswerModel, StorageCall, StorageCallModel,
};
use crate::text::{or_empty, text_or_empty};
use crate::time::{later, Timestamp};
use vstd::prelude::*;

verus! {

/// What an object holds.
#[derive(Debug, PartialEq)]
pub enum Record {
    Change(PendingChange),
    Entry(AuditEntry),
}

/// What a [`Record`] stands for in contracts.
#[verifier::ext_equal]
pub enum RecordModel {
    Change(PendingChangeModel),
    Entry(AuditEntryModel),
}

impl DeepView for Record {
    type V = RecordModel;

    open spec fn deep_view(&self) -> RecordModel {
        match self {
            Record::Change(v) => RecordModel::Change(v.deep_view()),
            Record::Entry(v) => RecordModel::Entry(v.deep_view()),
        }
    }
}

impl Clone for Record {
    fn clone(&self) -> (r: Self)
        ensures
            r.deep_view() == self.deep_view(),
    {
        match self {
            Record::Change(v) => Record::Change(v.clone()),
            Record::Entry(v) => Record::Entry(v.clone()),
        }
    }
}

/// What an object is read as.
#[derive(Clone, Copy, Debug, PartialEq, Eq, Structural)]
pub enum RecordKind {
    Change,
    Entry,
}

impl DeepView for RecordKind {
    type V = RecordKind;

    open spec fn deep_view(&self) -> RecordKind {
        *self
    }
}

/// What a call needs next.
#[derive(Debug, PartialEq)]
pub enum S3Effect {
    Put { path: String, record: Record },
    Get { path: String, kind: RecordKind },
    Delete { path: String },
    /// The paths of all objects below a path.
    List { prefix: String },
    ReadClock,
}

/// What a [`S3Effect`] stands for in contracts.
#[verifier::ext_equal]
pub enum S3EffectModel {
    Put { path: Seq<char>, record: RecordModel },
    Get { path: Seq<char>, kind: RecordKind },
    Delete { path: Seq<char> },
    List { prefix: Seq<char> },
    ReadClock,
}

impl DeepView for S3Effect {
    type V = S3EffectModel;

    open spec fn deep_view(&self) -> S3EffectModel {
        match self {
            S3Effect::Put { path, record } => S3EffectModel::Put {
                path: path.deep_view(),
                record: record.deep_view(),
            },
            S3Effect::Get { path, kind } => S3EffectModel::Get {
                path: path.deep_view(),
                kind: *kind,
            },
            S3Effect::Delete { path } => S3EffectModel::Delete { path: path.deep_view() },
            S3Effect::List { prefix } => S3EffectModel::List { prefix: prefix.deep_view() },
            S3Effect::ReadClock => S3EffectModel::ReadClock,
        }
    }
}

impl Clone for S3Effect {
    fn clone(&self) -> (r: Self)
        ensures
            r.deep_view() == self.deep_view(),
    {
        match self {
            S3Effect::Put { path, record } => S3Effect::Put {
                path: path.clone(),
                record: record.clone(),
            },
            S3Effect::Get { path, kind } => S3Effect::Get { path: path.clone(), kind: *kind },
            S3Effect::Delete { path } => S3Effect::Delete { path: path.clone() },
            S3Effect::List { prefix } => S3Effect::List { prefix: prefix.clone() },
            S3Effect::ReadClock => S3Effect::ReadClock,
        }
    }
}

/// What came back.
#[derive(Debug, PartialEq)]
pub enum S3Reply {
    Failed(String),
    Done,
    /// There is no such object.
    Missing,
    Record(Record),
    /// The object holds something else.
    Corrupt,
    Paths(Vec<String>),
    Time(Timestamp),
}

/// What a [`S3Reply`] stands for in contracts.
#[verifier::ext_equal]
pub enum S3ReplyModel {
    Failed(Seq<char>),
    Done,
    Missing,
    Record(RecordModel),
    Corrupt,
    Paths(Seq<Seq<char>>),
    Time(Timestamp),
}

impl DeepView for S3Reply {
    type V = S3ReplyModel;

    open spec fn deep_view(&self) -> S3ReplyModel {
        match self {
            S3Reply::Failed(v) => S3ReplyModel::Failed(v.deep_view()),
            S3Reply::Done => S3ReplyModel::Done,
            S3Reply::Missing => S3ReplyModel::Missing,
            S3Reply::Record(v) => S3ReplyModel::Record(v.deep_view()),
            S3Reply::Corrupt => S3ReplyModel::Corrupt,
            S3Reply::Paths(v) => S3ReplyModel::Paths(v.deep_view()),
            S3Reply::Time(v) => S3ReplyModel::Time(*v),
        }
    }
}

impl Clone for S3Reply {
    fn clone(&self) -> (r: Self)
        ensures
            r.deep_view() == self.deep_view(),
    {
        let r = match self {
            S3Reply::Failed(v) => S3Reply::Failed(v.clone()),
            S3Reply::Done => S3Reply::Done,
            S3Reply::Missing => S3Reply::Missing,
            S3Reply::Record(v) => S3Reply::Record(v.clone()),
            S3Reply::Corrupt => S3Reply::Corrupt,
            S3Reply::Paths(v) => S3Reply::Paths(v.clone()),
            S3Reply::Time(v) => S3Reply::Time(*v),
        };
        assert(r.deep_view() =~~= self.deep_view());
        r
    }
}

/// What to do next with a call.
#[derive(Debug, PartialEq)]
pub enum S3Step {
    Perform(S3Effect),
    Answer(StorageAnswer),
}

/// What a [`S3Step`] stands for in contracts.
#[verifier::ext_equal]
pub enum S3StepModel {
    Perform(S3EffectModel),
    Answer(StorageAnswerModel),
}

impl DeepView for S3Step {
    type V = S3StepModel;

    open spec fn deep_view(&self) -> S3StepModel {
        match self {
            S3Step::Perform(v) => S3StepModel::Perform(v.deep_view()),
            S3Step::Answer(v) => S3StepModel::Answer(v.deep_view()),
        }
    }
}

impl Clone for S3Step {
    fn clone(&self) -> (r: Self)
        ensures
            r.deep_view() == self.deep_view(),
    {
        match self {
            S3Step::Perform(v) => S3Step::Perform(v.clone()),
            S3Step::Answer(v) => S3Step::Answer(v.clone()),
        }
    }
}

/// What part of a call comes to.
pub type S3Asked<T> = Ask<T, S3ReplyModel, S3StepModel>;

/// A place in the list of replies.
pub type S3Replies<'a> = Cursor<'a, S3Reply>;

/// Where the objects are.
#[derive(Debug, PartialEq)]
pub struct S3Storage {
    pub prefix: String,
}

/// What a [`S3Storage`] stands for in contracts.
#[verifier::ext_equal]
pub struct S3StorageModel {
    pub prefix: Seq<char>,
}

impl DeepView for S3Storage {
    type V = S3StorageModel;

    open spec fn deep_view(&self) -> S3StorageModel {
        S3StorageModel {
            prefix: self.prefix.deep_view(),
        }
    }
}

impl Clone for S3Storage {
    fn clone(&self) -> (r: Self)
        ensures
            r.deep_view() == self.deep_view(),
    {
        S3Storage {
            prefix: self.prefix.clone(),
        }
    }
}

// ── Paths ────────────────────────────────────────────────────────────────────

/// The path of a change, which stays the same when its status changes.
pub open spec fn change_path(prefix: Seq<char>, id: Seq<char>) -> Seq<char> {
    object_path(prefix + "/changes/"@ + id + ".json"@)
}

/// The path above all changes.
pub open spec fn changes_path(prefix: Seq<char>) -> Seq<char> {
    object_path(prefix + "/changes"@)
}

/// The path above the entries of a day.
pub open spec fn day_path(prefix: Seq<char>, date: Seq<char>) -> Seq<char> {
    object_path(prefix + "/audit/"@ + date)
}

/// The path of an entry.
pub open spec fn entry_path(prefix: Seq<char>, date: Seq<char>, id: Seq<char>) -> Seq<char> {
    object_path(prefix + "/audit/"@ + date + "/"@ + id + ".json"@)
}

impl S3Storage {
    /// The objects of the portal.
    pub fn new() -> (r: S3Storage)
        ensures
            r.prefix@ == "grafter"@,
    {
        S3Storage { prefix: "grafter".to_string() }
    }

    /// The path of a change. That of one with a drawn id holds the id as it is.
    pub fn change_path(&self, id: &str) -> (r: String)
        ensures
            r@ == change_path(self.prefix@, id@),
            self.prefix@ == "grafter"@ && is_drawn_id(id@) ==> r@ == plain_change_path(id@),
    {
        proof {
            if self.prefix@ == "grafter"@ && is_drawn_id(id@) {
                lemma_plain_change_path(id@);
            }
        }
        object_path_of(
            self.prefix.clone().concat("/changes/").concat(id).concat(".json").as_str(),
        )
    }

    fn path_of_changes(&self) -> (r: String)
        ensures
            r@ == changes_path(self.prefix@),
    {
        object_path_of(self.prefix.clone().concat("/changes").as_str())
    }

    /// The path above the entries of a day.
    pub fn audit_prefix(&self, date: &str) -> (r: String)
        ensures
            r@ == day_path(self.prefix@, date@),
            is_plain_path(self.prefix@ + "/audit/"@ + date@) ==> r@ == self.prefix@ + "/audit/"@
                + date@,
    {
        object_path_of(self.prefix.clone().concat("/audit/").concat(date).as_str())
    }

    /// The path of an entry. Where nothing in it has to be encoded, it holds the date and the
    /// id as they are.
    pub fn audit_entry_path(&self, date: &str, id: &str) -> (r: String)
        ensures
            r@ == entry_path(self.prefix@, date@, id@),
            is_plain_path(self.prefix@ + "/audit/"@ + date@ + "/"@ + id@ + ".json"@) ==> r@
                == self.prefix@ + "/audit/"@ + date@ + "/"@ + id@ + ".json"@,
    {
        object_path_of(
            self.prefix.clone().concat("/audit/").concat(date).concat("/").concat(id).concat(
                ".json",
            ).as_str(),
        )
    }
}

/// Whether a text has the form of a drawn id.
pub open spec fn is_drawn_id(id: Seq<char>) -> bool {
    id.len() == 36 && forall|i: int| 0 <= i < id.len() ==> is_uuid_char(#[trigger] id[i])
}

/// The path of a change with a drawn id, spelled out.
pub open spec fn plain_change_path(id: Seq<char>) -> Seq<char> {
    "grafter/changes/"@ + id + ".json"@
}

/// A path made of a drawn id is plain.
pub proof fn lemma_plain_change_path(id: Seq<char>)
    requires
        is_drawn_id(id),
    ensures
        is_plain_path("grafter"@ + "/changes/"@ + id + ".json"@),
        "grafter"@ + "/changes/"@ + id + ".json"@ == plain_change_path(id),
{
    reveal_strlit("grafter");
    reveal_strlit("/changes/");
    reveal_strlit("grafter/changes/");
    reveal_strlit(".json");
    let path = "grafter"@ + "/changes/"@ + id + ".json"@;
    assert("grafter"@ + "/changes/"@ =~= "grafter/changes/"@);
    assert forall|i: int| 16 <= i < 52 implies is_plain_path_char(#[trigger] path[i]) by {
        assert(path[i] == id[i - 16]);
        assert(is_uuid_char(id[i - 16]));
    }
    assert(path.len() == 57);
}

/// Two changes are never stored in the same place.
pub proof fn lemma_change_paths_differ(a: Seq<char>, b: Seq<char>)
    requires
        plain_change_path(a) == plain_change_path(b),
    ensures
        a == b,
{
    let head = "grafter/changes/"@;
    let tail = ".json"@;
    let x = plain_change_path(a);
    let y = plain_change_path(b);
    assert(x.len() == y.len());
    assert(x.subrange(head.len() as int, (head.len() + a.len()) as int) =~= a);
    assert(y.subrange(head.len() as int, (head.len() + b.len()) as int) =~= b);
}

// ── Asking ───────────────────────────────────────────────────────────────────

/// The next reply answers `effect`; where there is none, `effect` is what is needed.
pub open spec fn s3_asked(effect: S3EffectModel, replies: Seq<S3ReplyModel>) -> S3Asked<
    S3ReplyModel,
> {
    if replies.len() == 0 {
        Ask::Stop(S3StepModel::Perform(effect))
    } else {
        Ask::Got(replies[0], replies.skip(1))
    }
}

fn s3_ask<'a>(cursor: &mut S3Replies<'a>, effect: S3Effect) -> (r: Result<&'a S3Reply, S3Step>)
    ensures
        answers(r, final(cursor).rest(), s3_asked(effect.deep_view(), old(cursor).rest())),
{
    match cursor.next() {
        Some(reply) => Ok(reply),
        None => Err(S3Step::Perform(effect)),
    }
}

/// The call ends with an error.
pub open spec fn s3_failed(message: Seq<char>) -> S3StepModel {
    S3StepModel::Answer(StorageAnswerModel::Failed(message))
}

fn s3_fail(message: &str) -> (r: S3Step)
    ensures
        r.deep_view() == s3_failed(message@),
{
    S3Step::Answer(StorageAnswer::Failed(message.to_string()))
}

/// An object is written, over what was there.
pub open spec fn put_answered(
    path: Seq<char>,
    record: RecordModel,
    what: Seq<char>,
    replies: Seq<S3ReplyModel>,
) -> S3Asked<StorageAnswerModel> {
    match s3_asked(S3EffectModel::Put { path, record }, replies) {
        Ask::Stop(stop) => Ask::Stop(stop),
        Ask::Got(S3ReplyModel::Done, rest) => Ask::Got(StorageAnswerModel::Done, rest),
        Ask::Got(_, _) => Ask::Stop(s3_failed(what)),
    }
}

fn answer_put(cursor: &mut S3Replies<'_>, path: String, record: Record, what: &str) -> (r: Result<
    StorageAnswer,
    S3Step,
>)
    ensures
        answers(
            r,
            final(cursor).rest(),
            put_answered(path@, record.deep_view(), what@, old(cursor).rest()),
        ),
{
    match s3_ask(cursor, S3Effect::Put { path, record })? {
        S3Reply::Done => Ok(StorageAnswer::Done),
        _ => Err(s3_fail(what)),
    }
}

/// A change is read, if it is there.
pub open spec fn change_answered(path: Seq<char>, replies: Seq<S3ReplyModel>) -> S3Asked<
    StorageAnswerModel,
> {
    match s3_asked(S3EffectModel::Get { path, kind: RecordKind::Change }, replies) {
        Ask::Stop(stop) => Ask::Stop(stop),
        Ask::Got(S3ReplyModel::Record(RecordModel::Change(change)), rest) => Ask::Got(
            StorageAnswerModel::Change(Some(change)),
            rest,
        ),
        Ask::Got(S3ReplyModel::Missing, rest) => Ask::Got(StorageAnswerModel::Change(None), rest),
        Ask::Got(S3ReplyModel::Failed(message), _) => Ask::Stop(s3_failed(message)),
        Ask::Got(_, _) => Ask::Stop(s3_failed("corrupt object"@)),
    }
}

fn answer_get_change(cursor: &mut S3Replies<'_>, path: String) -> (r: Result<StorageAnswer, S3Step>)
    ensures
        answers(r, final(cursor).rest(), change_answered(path@, old(cursor).rest())),
{
    match s3_ask(cursor, S3Effect::Get { path, kind: RecordKind::Change })? {
        S3Reply::Record(Record::Change(change)) => Ok(StorageAnswer::Change(Some(change.clone()))),
        S3Reply::Missing => Ok(StorageAnswer::Change(None)),
        S3Reply::Failed(message) => Err(s3_fail(message.as_str())),
        _ => Err(s3_fail("corrupt object")),
    }
}

/// The paths of all objects below a path.
pub open spec fn paths_asked(prefix: Seq<char>, replies: Seq<S3ReplyModel>) -> S3Asked<
    Seq<Seq<char>>,
> {
    match s3_asked(S3EffectModel::List { prefix }, replies) {
        Ask::Stop(stop) => Ask::Stop(stop),
        Ask::Got(S3ReplyModel::Paths(paths), rest) => Ask::Got(paths, rest),
        Ask::Got(S3ReplyModel::Failed(message), _) => Ask::Stop(s3_failed(message)),
        Ask::Got(_, _) => Ask::Stop(s3_failed("unexpected reply"@)),
    }
}

fn ask_paths<'a>(cursor: &mut S3Replies<'a>, prefix: String) -> (r: Result<&'a Vec<String>, S3Step>)
    ensures
        answers(r, final(cursor).rest(), paths_asked(prefix@, old(cursor).rest())),
{
    match s3_ask(cursor, S3Effect::List { prefix })? {
        S3Reply::Paths(paths) => Ok(paths),
        S3Reply::Failed(message) => Err(s3_fail(message.as_str())),
        _ => Err(s3_fail("unexpected reply")),
    }
}

/// One of several objects: what it holds, or nothing where that is not a record.
pub open spec fn record_asked(
    path: Seq<char>,
    kind: RecordKind,
    replies: Seq<S3ReplyModel>,
) -> S3Asked<Option<RecordModel>> {
    match s3_asked(S3EffectModel::Get { path, kind }, replies) {
        Ask::Stop(stop) => Ask::Stop(stop),
        Ask::Got(S3ReplyModel::Record(record), rest) => Ask::Got(Some(record), rest),
        Ask::Got(S3ReplyModel::Corrupt, rest) => Ask::Got(None, rest),
        Ask::Got(S3ReplyModel::Failed(message), _) => Ask::Stop(s3_failed(message)),
        Ask::Got(S3ReplyModel::Missing, _) => Ask::Stop(s3_failed("object not found"@)),
        Ask::Got(_, _) => Ask::Stop(s3_failed("unexpected reply"@)),
    }
}

fn ask_record<'a>(cursor: &mut S3Replies<'a>, path: &String, kind: RecordKind) -> (r: Result<
    Option<&'a Record>,
    S3Step,
>)
    ensures
        answers(r, final(cursor).rest(), record_asked(path@, kind, old(cursor).rest())),
{
    match s3_ask(cursor, S3Effect::Get { path: path.clone(), kind })? {
        S3Reply::Record(record) => Ok(Some(record)),
        S3Reply::Corrupt => Ok(None),
        S3Reply::Failed(message) => Err(s3_fail(message.as_str())),
        S3Reply::Missing => Err(s3_fail("object not found")),
        _ => Err(s3_fail("unexpected reply")),
    }
}

// ── Listing ──────────────────────────────────────────────────────────────────

/// The changes among several objects; what is not a change is passed over.
pub open spec fn changes_read(
    paths: Seq<Seq<char>>,
    found: Seq<PendingChangeModel>,
    replies: Seq<S3ReplyModel>,
) -> S3Asked<Seq<PendingChangeModel>>
    decreases paths.len(),
{
    if paths.len() == 0 {
        Ask::Got(found, replies)
    } else {
        match record_asked(paths[0], RecordKind::Change, replies) {
            Ask::Stop(stop) => Ask::Stop(stop),
            Ask::Got(Some(RecordModel::Change(change)), rest) => changes_read(
                paths.skip(1),
                found.push(change),
                rest,
            ),
            Ask::Got(_, rest) => changes_read(paths.skip(1), found, rest),
        }
    }
}

fn read_changes(cursor: &mut S3Replies<'_>, paths: &Vec<String>) -> (r: Result<
    Vec<PendingChange>,
    S3Step,
>)
    ensures
        answers(
            r,
            final(cursor).rest(),
            changes_read(paths.deep_view(), Seq::empty(), old(cursor).rest()),
        ),
{
    let ghost whole = paths.deep_view();
    let ghost start = cursor.rest();
    let mut found: Vec<PendingChange> = Vec::new();
    let mut i: usize = 0;
    assert(whole.skip(0) =~= whole);
    assert(found.deep_view() =~= Seq::empty());
    while i < paths.len()
        invariant
            i <= paths@.len(),
            whole == paths.deep_view(),
            start == old(cursor).rest(),
            changes_read(whole, Seq::empty(), start) == changes_read(
                whole.skip(i as int),
                found.deep_view(),
                cursor.rest(),
            ),
        decreases paths@.len() - i,
    {
        let ghost before = found.deep_view();
        assert(whole.skip(i as int).skip(1) =~= whole.skip(i + 1));
        assert(whole.skip(i as int)[0] == paths@[i as int]@);
        if let Some(Record::Change(change)) = ask_record(cursor, &paths[i], RecordKind::Change)? {
            let one = change.clone();
            let ghost model = one.deep_view();
            found.push(one);
            assert(found.deep_view() =~= before.push(model));
        }
        i = i + 1;
    }
    Ok(found)
}

/// The order of changes by the time they were proposed, the newest first.
pub open spec fn newest_proposed() -> spec_fn(PendingChangeModel, PendingChangeModel) -> bool {
    |a: PendingChangeModel, b: PendingChangeModel| !later(b.proposed_at, a.proposed_at)
}

fn sort_changes(changes: Vec<PendingChange>) -> (r: Vec<PendingChange>)
    ensures
        r.deep_view() == sorted(changes.deep_view(), newest_proposed()),
{
    let ghost leq = newest_proposed();
    let ordered = |x: &PendingChange, y: &PendingChange| -> (b: bool)
        ensures
            b == leq(x.deep_view(), y.deep_view()),
        { !y.proposed_at.is_later(&x.proposed_at) };
    sort(changes, ordered, Ghost(leq))
}

/// All changes, the newest first.
pub open spec fn changes_asked(prefix: Seq<char>, replies: Seq<S3ReplyModel>) -> S3Asked<
    Seq<PendingChangeModel>,
> {
    match paths_asked(changes_path(prefix), replies) {
        Ask::Stop(stop) => Ask::Stop(stop),
        Ask::Got(paths, rest) => match changes_read(paths, Seq::empty(), rest) {
            Ask::Stop(stop) => Ask::Stop(stop),
            Ask::Got(found, rest) => Ask::Got(sorted(found, newest_proposed()), rest),
        },
    }
}

fn ask_changes(cursor: &mut S3Replies<'_>, storage: &S3Storage) -> (r: Result<
    Vec<PendingChange>,
    S3Step,
>)
    ensures
        answers(r, final(cursor).rest(), changes_asked(storage.prefix@, old(cursor).rest())),
{
    let paths = ask_paths(cursor, storage.path_of_changes())?;
    Ok(sort_changes(read_changes(cursor, paths)?))
}

/// The entries among several objects; what is not an entry is passed over.
pub open spec fn entries_read(
    paths: Seq<Seq<char>>,
    found: Seq<AuditEntryModel>,
    replies: Seq<S3ReplyModel>,
) -> S3Asked<Seq<AuditEntryModel>>
    decreases paths.len(),
{
    if paths.len() == 0 {
        Ask::Got(found, replies)
    } else {
        match record_asked(paths[0], RecordKind::Entry, replies) {
            Ask::Stop(stop) => Ask::Stop(stop),
            Ask::Got(Some(RecordModel::Entry(entry)), rest) => entries_read(
                paths.skip(1),
                found.push(entry),
                rest,
            ),
            Ask::Got(_, rest) => entries_read(paths.skip(1), found, rest),
        }
    }
}

fn read_entries(cursor: &mut S3Replies<'_>, paths: &Vec<String>) -> (r: Result<
    Vec<AuditEntry>,
    S3Step,
>)
    ensures
        answers(
            r,
            final(cursor).rest(),
            entries_read(paths.deep_view(), Seq::empty(), old(cursor).rest()),
        ),
{
    let ghost whole = paths.deep_view();
    let ghost start = cursor.rest();
    let mut found: Vec<AuditEntry> = Vec::new();
    let mut i: usize = 0;
    assert(whole.skip(0) =~= whole);
    assert(found.deep_view() =~= Seq::empty());
    while i < paths.len()
        invariant
            i <= paths@.len(),
            whole == paths.deep_view(),
            start == old(cursor).rest(),
            entries_read(whole, Seq::empty(), start) == entries_read(
                whole.skip(i as int),
                found.deep_view(),
                cursor.rest(),
            ),
        decreases paths@.len() - i,
    {
        let ghost before = found.deep_view();
        assert(whole.skip(i as int).skip(1) =~= whole.skip(i + 1));
        assert(whole.skip(i as int)[0] == paths@[i as int]@);
        if let Some(Record::Entry(entry)) = ask_record(cursor, &paths[i], RecordKind::Entry)? {
            let one = entry.clone();
            let ghost model = one.deep_view();
            found.push(one);
            assert(found.deep_view() =~= before.push(model));
        }
        i = i + 1;
    }
    Ok(found)
}

/// The order of entries by time, the oldest first.
pub open spec fn oldest_first() -> spec_fn(AuditEntryModel, AuditEntryModel) -> bool {
    |a: AuditEntryModel, b: AuditEntryModel| !later(a.timestamp, b.timestamp)
}

fn sort_entries(entries: Vec<AuditEntry>) -> (r: Vec<AuditEntry>)
    ensures
        r.deep_view() == sorted(entries.deep_view(), oldest_first()),
{
    let ghost leq = oldest_first();
    let ordered = |x: &AuditEntry, y: &AuditEntry| -> (b: bool)
        ensures
            b == leq(x.deep_view(), y.deep_view()),
        { !x.timestamp.is_later(&y.timestamp) };
    sort(entries, ordered, Ghost(leq))
}

/// The date of a day that is named, or else today's.
pub open spec fn date_asked(date: Option<Seq<char>>, replies: Seq<S3ReplyModel>) -> S3Asked<
    Seq<char>,
> {
    match date {
        Some(date) => Ask::Got(date, replies),
        None => match s3_asked(S3EffectModel::ReadClock, replies) {
            Ask::Stop(stop) => Ask::Stop(stop),
            Ask::Got(S3ReplyModel::Time(now), rest) => Ask::Got(
                or_empty(utc_date(now.secs, now.nanos)),
                rest,
            ),
            Ask::Got(_, _) => Ask::Stop(s3_failed("unexpected reply"@)),
        },
    }
}

fn ask_date(cursor: &mut S3Replies<'_>, date: &Option<String>) -> (r: Result<String, S3Step>)
    ensures
        answers(r, final(cursor).rest(), date_asked(date.deep_view(), old(cursor).rest())),
{
    match date {
        Some(date) => Ok(date.clone()),
        None => match s3_ask(cursor, S3Effect::ReadClock)? {
            S3Reply::Time(now) => Ok(text_or_empty(&now.date())),
            _ => Err(s3_fail("unexpected reply")),
        },
    }
}

/// The entries of a day, the oldest first.
pub open spec fn day_answered(
    prefix: Seq<char>,
    date: Option<Seq<char>>,
    replies: Seq<S3ReplyModel>,
) -> S3Asked<StorageAnswerModel> {
    match date_asked(date, replies) {
        Ask::Stop(stop) => Ask::Stop(stop),
        Ask::Got(day, rest) => match paths_asked(day_path(prefix, day), rest) {
            Ask::Stop(stop) => Ask::Stop(stop),
            Ask::Got(paths, rest) => match entries_read(paths, Seq::empty(), rest) {
                Ask::Stop(stop) => Ask::Stop(stop),
                Ask::Got(found, rest) => Ask::Got(
                    StorageAnswerModel::Entries(sorted(found, oldest_first())),
                    rest,
                ),
            },
        },
    }
}

fn answer_day(cursor: &mut S3Replies<'_>, storage: &S3Storage, date: &Option<String>) -> (r: Result<
    StorageAnswer,
    S3Step,
>)
    ensures
        answers(
            r,
            final(cursor).rest(),
            day_answered(storage.prefix@, date.deep_view(), old(cursor).rest()),
        ),
{
    let day = ask_date(cursor, date)?;
    let paths = ask_paths(cursor, storage.audit_prefix(day.as_str()))?;
    let found = read_entries(cursor, paths)?;
    Ok(StorageAnswer::Entries(sort_entries(found)))
}

/// A change is deleted; one that is not there is no error.
pub open spec fn deletion_answered(path: Seq<char>, replies: Seq<S3ReplyModel>) -> S3Asked<
    StorageAnswerModel,
> {
    match s3_asked(S3EffectModel::Delete { path }, replies) {
        Ask::Stop(stop) => Ask::Stop(stop),
        Ask::Got(S3ReplyModel::Done, rest) => Ask::Got(StorageAnswerModel::Done, rest),
        Ask::Got(S3ReplyModel::Missing, rest) => Ask::Got(StorageAnswerModel::Done, rest),
        Ask::Got(_, _) => Ask::Stop(s3_failed("s3 delete change"@)),
    }
}

fn answer_deletion(cursor: &mut S3Replies<'_>, path: String) -> (r: Result<StorageAnswer, S3Step>)
    ensures
        answers(r, final(cursor).rest(), deletion_answered(path@, old(cursor).rest())),
{
    match s3_ask(cursor, S3Effect::Delete { path })? {
        S3Reply::Done => Ok(StorageAnswer::Done),
        S3Reply::Missing => Ok(StorageAnswer::Done),
        _ => Err(s3_fail("s3 delete change")),
    }
}

// ── All calls ────────────────────────────────────────────────────────────────

/// Those of a list of changes that wait for an admin.
pub open spec fn open_changes(changes: Seq<PendingChangeModel>) -> Seq<PendingChangeModel> {
    changes.filter(|c: PendingChangeModel| is_open(c))
}

pub(crate) fn keep_open(changes: Vec<PendingChange>) -> (r: Vec<PendingChange>)
    ensures
        r.deep_view() == open_changes(changes.deep_view()),
{
    let ghost wanted = |c: PendingChangeModel| is_open(c);
    let waits = |c: &PendingChange| -> (b: bool)
        ensures
            b == wanted(c.deep_view()),
        { c.status == ChangeStatus::Pending };
    retain(changes, waits, Ghost(wanted))
}

/// The date under which an entry is stored.
pub open spec fn entry_date(entry: AuditEntryModel) -> Seq<char> {
    or_empty(utc_date(entry.timestamp.secs, entry.timestamp.nanos))
}

/// What a call comes to.
pub open spec fn call_served(
    prefix: Seq<char>,
    call: StorageCallModel,
    replies: Seq<S3ReplyModel>,
) -> S3Asked<StorageAnswerModel> {
    match call {
        StorageCallModel::SaveChange(change) => put_answered(
            change_path(prefix, change.id),
            RecordModel::Change(change),
            "s3 put change"@,
            replies,
        ),
        StorageCallModel::GetChange { id } => change_answered(change_path(prefix, id), replies),
        StorageCallModel::ListChanges => match changes_asked(prefix, replies) {
            Ask::Stop(stop) => Ask::Stop(stop),
            Ask::Got(changes, rest) => Ask::Got(StorageAnswerModel::Changes(changes), rest),
        },
        StorageCallModel::ListPendingChanges => match changes_asked(prefix, replies) {
            Ask::Stop(stop) => Ask::Stop(stop),
            Ask::Got(changes, rest) => Ask::Got(
                StorageAnswerModel::Changes(open_changes(changes)),
                rest,
            ),
        },
        StorageCallModel::DeleteChange { id } => deletion_answered(
            change_path(prefix, id),
            replies,
        ),
        StorageCallModel::AppendAudit(entry) => put_answered(
            entry_path(prefix, entry_date(entry), entry.id),
            RecordModel::Entry(entry),
            "s3 put audit entry"@,
            replies,
        ),
        StorageCallModel::ListAudit { date } => day_answered(prefix, date, replies),
    }
}

fn serve_call(cursor: &mut S3Replies<'_>, storage: &S3Storage, call: &StorageCall) -> (r: Result<
    StorageAnswer,
    S3Step,
>)
    ensures
        answers(
            r,
            final(cursor).rest(),
            call_served(storage.prefix@, call.deep_view(), old(cursor).rest()),
        ),
{
    match call {
        StorageCall::SaveChange(change) => answer_put(
            cursor,
            storage.change_path(change.id.as_str()),
            Record::Change(change.clone()),
            "s3 put change",
        ),
        StorageCall::GetChange { id } => answer_get_change(
            cursor,
            storage.change_path(id.as_str()),
        ),
        StorageCall::ListChanges => Ok(StorageAnswer::Changes(ask_changes(cursor, storage)?)),
        StorageCall::ListPendingChanges => Ok(
            StorageAnswer::Changes(keep_open(ask_changes(cursor, storage)?)),
        ),
        StorageCall::DeleteChange { id } => answer_deletion(
            cursor,
            storage.change_path(id.as_str()),
        ),
        StorageCall::AppendAudit(entry) => {
            let date = text_or_empty(&entry.timestamp.date());
            answer_put(
                cursor,
                storage.audit_entry_path(date.as_str(), entry.id.as_str()),
                Record::Entry(entry.clone()),
                "s3 put audit entry",
            )
        },
        StorageCall::ListAudit { date } => answer_day(cursor, storage, date),
    }
}

/// What a call needs next, or its answer, after these replies.
pub open spec fn s3_response(
    prefix: Seq<char>,
    call: StorageCallModel,
    replies: Seq<S3ReplyModel>,
) -> S3StepModel {
    match call_served(prefix, call, replies) {
        Ask::Stop(stop) => stop,
        Ask::Got(answer, _) => S3StepModel::Answer(answer),
    }
}

impl S3Storage {
    /// Tells what a call needs next, or its answer. To serve a call, call this with no
    /// replies, perform the effect that it names, append the reply, and call it again.
    pub fn respond(&self, call: &StorageCall, replies: &Vec<S3Reply>) -> (r: S3Step)
        ensures
            r.deep_view() == s3_response(self.prefix@, call.deep_view(), replies.deep_view()),
    {
        let mut cursor = Cursor::new(replies);
        match serve_call(&mut cursor, self, call) {
            Ok(answer) => S3Step::Answer(answer),
            Err(step) => step,
        }
    }
}

/// A change is read, and deleted, where it was last written; what was written there is what is
/// read.
pub proof fn lemma_changes_are_read_where_they_are_written(
    prefix: Seq<char>,
    change: PendingChangeModel,
)
    ensures
        s3_response(prefix, StorageCallModel::SaveChange(change), Seq::empty())
            == S3StepModel::Perform(
            S3EffectModel::Put {
                path: change_path(prefix, change.id),
                record: RecordModel::Change(change),
            },
        ),
        s3_response(prefix, StorageCallModel::GetChange { id: change.id }, Seq::empty())
            == S3StepModel::Perform(
            S3EffectModel::Get {
                path: change_path(prefix, change.id),
                kind: RecordKind::Change,
            },
        ),
        s3_response(
            prefix,
            StorageCallModel::GetChange { id: change.id },
            seq![S3ReplyModel::Record(RecordModel::Change(change))],
        ) == S3StepModel::Answer(StorageAnswerModel::Change(Some(change))),
        s3_response(prefix, StorageCallModel::DeleteChange { id: change.id }, Seq::empty())
            == S3StepModel::Perform(
            S3EffectModel::Delete { path: change_path(prefix, change.id) },
        ),
{
}

/// An entry of the audit log is written with one effect, and nothing is read for it.
pub proof fn lemma_entries_are_only_written(prefix: Seq<char>, entry: AuditEntryModel)
    ensures
        s3_response(prefix, StorageCallModel::AppendAudit(entry), Seq::empty())
            == S3StepModel::Perform(
            S3EffectModel::Put {
                path: entry_path(prefix, entry_date(entry), entry.id),
                record: RecordModel::Entry(entry),
            },
        ),
        s3_response(
            prefix,
            StorageCallModel::AppendAudit(entry),
            seq![S3ReplyModel::Done],
        ) == S3StepModel::Answer(StorageAnswerModel::Done),
{
}

} // verus!
