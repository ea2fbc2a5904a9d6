//! Asking the outside world, and refusing what does not answer the question.

use crate::auth::csrf_tokens_equal;
use crate::effects::{
    Asked, Effect, EffectModel, Outcome, OutcomeModel, Replies, Reply, ReplyModel, Step, StepModel,
};
use crate::error::{AppError, AppErrorModel};
use crate::provider::{
    AppClient, AppClientModel, Group, GroupModel, ProviderAnswer, ProviderAnswerModel, ProviderCall,
    ProviderCallModel, Realm, RealmModel, Role, RoleModel, User, UserModel,
};
use crate::script::{answers, Ask};
use crate::session::{Flash, FlashModel};
use crate::storage::{
    AuditEntry, AuditEntryModel, AuditOutcome, AuditOutcomeModel, PendingChange, PendingChangeModel,
    StorageAnswer, StorageAnswerModel, StorageCall, StorageCallModel,
};
use crate::time::{Stamp, StampModel, Timestamp};
use vstd::prelude::*;

verus! {

// ── Stops ────────────────────────────────────────────────────────────────────

/// The request ends with an error.
pub open spec fn failed(error: AppErrorModel) -> StepModel {
    StepModel::Finish(OutcomeModel::Failed(error))
}

/// The reply does not answer the question.
pub open spec fn unexpected() -> StepModel {
    failed(AppErrorModel::Internal("unexpected reply"@))
}

/// The session could not be read or written.
pub open spec fn session_failed(message: Seq<char>) -> StepModel {
    failed(AppErrorModel::Internal("session error: "@ + message))
}

pub(crate) fn fail(error: AppError) -> (r: Step)
    ensures
        r.deep_view() == failed(error.deep_view()),
{
    Step::Finish(Outcome::Failed(error))
}

pub(crate) fn fail_unexpected() -> (r: Step)
    ensures
        r.deep_view() == unexpected(),
{
    fail(AppError::Internal("unexpected reply".to_string()))
}

pub(crate) fn fail_session(message: &str) -> (r: Step)
    ensures
        r.deep_view() == session_failed(message@),
{
    fail(AppError::Internal("session error: ".to_string().concat(message)))
}

// ── Any effect ───────────────────────────────────────────────────────────────

/// The next reply answers `effect`; where there is none, `effect` is what is needed.
pub open spec fn asked(effect: EffectModel, replies: Seq<ReplyModel>) -> Asked<ReplyModel> {
    if replies.len() == 0 {
        Ask::Stop(StepModel::Perform(effect))
    } else {
        Ask::Got(replies[0], replies.skip(1))
    }
}

pub(crate) fn ask<'a>(cursor: &mut Replies<'a>, effect: Effect) -> (r: Result<&'a Reply, Step>)
    ensures
        answers(r, final(cursor).rest(), asked(effect.deep_view(), old(cursor).rest())),
{
    match cursor.next() {
        Some(reply) => Ok(reply),
        None => Err(Step::Perform(effect)),
    }
}

/// An effect whose reply does not matter.
pub open spec fn any_asked(effect: EffectModel, replies: Seq<ReplyModel>) -> Asked<()> {
    match asked(effect, replies) {
        Ask::Stop(stop) => Ask::Stop(stop),
        Ask::Got(_, rest) => Ask::Got((), rest),
    }
}

pub(crate) fn ask_any(cursor: &mut Replies<'_>, effect: Effect) -> (r: Result<(), Step>)
    ensures
        answers(r, final(cursor).rest(), any_asked(effect.deep_view(), old(cursor).rest())),
{
    let _ = ask(cursor, effect)?;
    Ok(())
}

// ── Session, locks, clock ────────────────────────────────────────────────────

/// A write to the session.
pub open spec fn store_asked(effect: EffectModel, replies: Seq<ReplyModel>) -> Asked<()> {
    match asked(effect, replies) {
        Ask::Stop(stop) => Ask::Stop(stop),
        Ask::Got(ReplyModel::Done, rest) => Ask::Got((), rest),
        Ask::Got(ReplyModel::Failed(message), _) => Ask::Stop(session_failed(message)),
        Ask::Got(_, _) => Ask::Stop(unexpected()),
    }
}

pub(crate) fn ask_store(cursor: &mut Replies<'_>, effect: Effect) -> (r: Result<(), Step>)
    ensures
        answers(r, final(cursor).rest(), store_asked(effect.deep_view(), old(cursor).rest())),
{
    match ask(cursor, effect)? {
        Reply::Done => Ok(()),
        Reply::Failed(message) => Err(fail_session(message.as_str())),
        _ => Err(fail_unexpected()),
    }
}

/// The text under `key` in the session.
pub open spec fn text_asked(key: Seq<char>, replies: Seq<ReplyModel>) -> Asked<Option<Seq<char>>> {
    match asked(EffectModel::LoadText { key }, replies) {
        Ask::Stop(stop) => Ask::Stop(stop),
        Ask::Got(ReplyModel::Text(text), rest) => Ask::Got(text, rest),
        Ask::Got(ReplyModel::Failed(message), _) => Ask::Stop(session_failed(message)),
        Ask::Got(_, _) => Ask::Stop(unexpected()),
    }
}

pub(crate) fn ask_text(cursor: &mut Replies<'_>, key: &str) -> (r: Result<Option<String>, Step>)
    ensures
        answers(r, final(cursor).rest(), text_asked(key@, old(cursor).rest())),
{
    match ask(cursor, Effect::LoadText { key: key.to_string() })? {
        Reply::Text(text) => Ok(text.clone()),
        Reply::Failed(message) => Err(fail_session(message.as_str())),
        _ => Err(fail_unexpected()),
    }
}

/// The message for this page.
pub open spec fn flash_asked(replies: Seq<ReplyModel>) -> Asked<Option<FlashModel>> {
    match asked(EffectModel::TakeFlash, replies) {
        Ask::Stop(stop) => Ask::Stop(stop),
        Ask::Got(ReplyModel::Flash(flash), rest) => Ask::Got(flash, rest),
        Ask::Got(ReplyModel::Failed(message), _) => Ask::Stop(session_failed(message)),
        Ask::Got(_, _) => Ask::Stop(unexpected()),
    }
}

pub(crate) fn ask_flash(cursor: &mut Replies<'_>) -> (r: Result<Option<Flash>, Step>)
    ensures
        answers(r, final(cursor).rest(), flash_asked(old(cursor).rest())),
{
    match ask(cursor, Effect::TakeFlash)? {
        Reply::Flash(flash) => Ok(flash.clone()),
        Reply::Failed(message) => Err(fail_session(message.as_str())),
        _ => Err(fail_unexpected()),
    }
}

/// Whether the lock under `key` was taken.
pub open spec fn lock_asked(key: Seq<char>, seconds: i64, replies: Seq<ReplyModel>) -> Asked<bool> {
    match asked(EffectModel::Lock { key, seconds }, replies) {
        Ask::Stop(stop) => Ask::Stop(stop),
        Ask::Got(ReplyModel::Locked(taken), rest) => Ask::Got(taken, rest),
        Ask::Got(ReplyModel::Failed(message), _) => Ask::Stop(
            failed(AppErrorModel::Internal("redis lock error: "@ + message)),
        ),
        Ask::Got(_, _) => Ask::Stop(unexpected()),
    }
}

pub(crate) fn ask_lock(cursor: &mut Replies<'_>, key: &str, seconds: i64) -> (r: Result<bool, Step>)
    ensures
        answers(r, final(cursor).rest(), lock_asked(key@, seconds, old(cursor).rest())),
{
    match ask(cursor, Effect::Lock { key: key.to_string(), seconds })? {
        Reply::Locked(taken) => Ok(*taken),
        Reply::Failed(message) => Err(
            fail(AppError::Internal("redis lock error: ".to_string().concat(message.as_str()))),
        ),
        _ => Err(fail_unexpected()),
    }
}

/// A fresh random token.
pub open spec fn token_asked(replies: Seq<ReplyModel>) -> Asked<Seq<char>> {
    match asked(EffectModel::NewToken, replies) {
        Ask::Stop(stop) => Ask::Stop(stop),
        Ask::Got(ReplyModel::Token(token), rest) => Ask::Got(token, rest),
        Ask::Got(_, _) => Ask::Stop(unexpected()),
    }
}

pub(crate) fn ask_token(cursor: &mut Replies<'_>) -> (r: Result<String, Step>)
    ensures
        answers(r, final(cursor).rest(), token_asked(old(cursor).rest())),
{
    match ask(cursor, Effect::NewToken)? {
        Reply::Token(token) => Ok(token.clone()),
        _ => Err(fail_unexpected()),
    }
}

/// A fresh id and the time.
pub open spec fn stamp_asked(replies: Seq<ReplyModel>) -> Asked<StampModel> {
    match asked(EffectModel::NewStamp, replies) {
        Ask::Stop(stop) => Ask::Stop(stop),
        Ask::Got(ReplyModel::Stamp(stamp), rest) => Ask::Got(stamp, rest),
        Ask::Got(_, _) => Ask::Stop(unexpected()),
    }
}

pub(crate) fn ask_stamp(cursor: &mut Replies<'_>) -> (r: Result<Stamp, Step>)
    ensures
        answers(r, final(cursor).rest(), stamp_asked(old(cursor).rest())),
{
    match ask(cursor, Effect::NewStamp)? {
        Reply::Stamp(stamp) => Ok(stamp.clone()),
        _ => Err(fail_unexpected()),
    }
}

/// The time.
pub open spec fn time_asked(replies: Seq<ReplyModel>) -> Asked<Timestamp> {
    match asked(EffectModel::ReadClock, replies) {
        Ask::Stop(stop) => Ask::Stop(stop),
        Ask::Got(ReplyModel::Time(time), rest) => Ask::Got(time, rest),
        Ask::Got(_, _) => Ask::Stop(unexpected()),
    }
}

pub(crate) fn ask_time(cursor: &mut Replies<'_>) -> (r: Result<Timestamp, Step>)
    ensures
        answers(r, final(cursor).rest(), time_asked(old(cursor).rest())),
{
    match ask(cursor, Effect::ReadClock)? {
        Reply::Time(time) => Ok(*time),
        _ => Err(fail_unexpected()),
    }
}

// ── Identity provider ────────────────────────────────────────────────────────

/// What the identity provider answers, unless it fails.
pub open spec fn provider_asked(
    call: ProviderCallModel,
    replies: Seq<ReplyModel>,
) -> Asked<ProviderAnswerModel> {
    match asked(EffectModel::Provider(call), replies) {
        Ask::Stop(stop) => Ask::Stop(stop),
        Ask::Got(ReplyModel::Provider(ProviderAnswerModel::Failed(error)), _) => Ask::Stop(
            failed(AppErrorModel::Provider(error)),
        ),
        Ask::Got(ReplyModel::Provider(answer), rest) => Ask::Got(answer, rest),
        Ask::Got(_, _) => Ask::Stop(unexpected()),
    }
}

pub(crate) fn ask_provider<'a>(cursor: &mut Replies<'a>, call: ProviderCall) -> (r: Result<
    &'a ProviderAnswer,
    Step,
>)
    ensures
        answers(r, final(cursor).rest(), provider_asked(call.deep_view(), old(cursor).rest())),
{
    match ask(cursor, Effect::Provider(call))? {
        Reply::Provider(ProviderAnswer::Failed(error)) => Err(
            fail(AppError::Provider(error.clone())),
        ),
        Reply::Provider(answer) => Ok(answer),
        _ => Err(fail_unexpected()),
    }
}

/// A change at the identity provider.
pub open spec fn mutation_asked(call: ProviderCallModel, replies: Seq<ReplyModel>) -> Asked<()> {
    match provider_asked(call, replies) {
        Ask::Stop(stop) => Ask::Stop(stop),
        Ask::Got(ProviderAnswerModel::Done, rest) => Ask::Got((), rest),
        Ask::Got(_, _) => Ask::Stop(unexpected()),
    }
}

pub(crate) fn ask_mutation(cursor: &mut Replies<'_>, call: ProviderCall) -> (r: Result<(), Step>)
    ensures
        answers(r, final(cursor).rest(), mutation_asked(call.deep_view(), old(cursor).rest())),
{
    match ask_provider(cursor, call)? {
        ProviderAnswer::Done => Ok(()),
        _ => Err(fail_unexpected()),
    }
}

/// Realms.
pub open spec fn realms_asked(
    call: ProviderCallModel,
    replies: Seq<ReplyModel>,
) -> Asked<Seq<RealmModel>> {
    match provider_asked(call, replies) {
        Ask::Stop(stop) => Ask::Stop(stop),
        Ask::Got(ProviderAnswerModel::Realms(found), rest) => Ask::Got(found, rest),
        Ask::Got(_, _) => Ask::Stop(unexpected()),
    }
}

pub(crate) fn ask_realms(
    cursor: &mut Replies<'_>,
    call: ProviderCall,
) -> (r: Result<Vec<Realm>, Step>)
    ensures
        answers(r, final(cursor).rest(), realms_asked(call.deep_view(), old(cursor).rest())),
{
    match ask_provider(cursor, call)? {
        ProviderAnswer::Realms(found) => {
            let r = found.clone();
            assert(r.deep_view() =~= found.deep_view());
            Ok(r)
        },
        _ => Err(fail_unexpected()),
    }
}

/// Users.
pub open spec fn users_asked(
    call: ProviderCallModel,
    replies: Seq<ReplyModel>,
) -> Asked<Seq<UserModel>> {
    match provider_asked(call, replies) {
        Ask::Stop(stop) => Ask::Stop(stop),
        Ask::Got(ProviderAnswerModel::Users(found), rest) => Ask::Got(found, rest),
        Ask::Got(_, _) => Ask::Stop(unexpected()),
    }
}

pub(crate) fn ask_users(
    cursor: &mut Replies<'_>,
    call: ProviderCall,
) -> (r: Result<Vec<User>, Step>)
    ensures
        answers(r, final(cursor).rest(), users_asked(call.deep_view(), old(cursor).rest())),
{
    match ask_provider(cursor, call)? {
        ProviderAnswer::Users(found) => {
            let r = found.clone();
            assert(r.deep_view() =~= found.deep_view());
            Ok(r)
        },
        _ => Err(fail_unexpected()),
    }
}

/// One user.
pub open spec fn user_asked(call: ProviderCallModel, replies: Seq<ReplyModel>) -> Asked<UserModel> {
    match provider_asked(call, replies) {
        Ask::Stop(stop) => Ask::Stop(stop),
        Ask::Got(ProviderAnswerModel::User(found), rest) => Ask::Got(found, rest),
        Ask::Got(_, _) => Ask::Stop(unexpected()),
    }
}

pub(crate) fn ask_user(cursor: &mut Replies<'_>, call: ProviderCall) -> (r: Result<User, Step>)
    ensures
        answers(r, final(cursor).rest(), user_asked(call.deep_view(), old(cursor).rest())),
{
    match ask_provider(cursor, call)? {
        ProviderAnswer::User(found) => Ok(found.clone()),
        _ => Err(fail_unexpected()),
    }
}

/// Groups.
pub open spec fn groups_asked(
    call: ProviderCallModel,
    replies: Seq<ReplyModel>,
) -> Asked<Seq<GroupModel>> {
    match provider_asked(call, replies) {
        Ask::Stop(stop) => Ask::Stop(stop),
        Ask::Got(ProviderAnswerModel::Groups(found), rest) => Ask::Got(found, rest),
        Ask::Got(_, _) => Ask::Stop(unexpected()),
    }
}

pub(crate) fn ask_groups(
    cursor: &mut Replies<'_>,
    call: ProviderCall,
) -> (r: Result<Vec<Group>, Step>)
    ensures
        answers(r, final(cursor).rest(), groups_asked(call.deep_view(), old(cursor).rest())),
{
    match ask_provider(cursor, call)? {
        ProviderAnswer::Groups(found) => {
            let r = found.clone();
            assert(r.deep_view() =~= found.deep_view());
            Ok(r)
        },
        _ => Err(fail_unexpected()),
    }
}

/// One group.
pub open spec fn group_asked(
    call: ProviderCallModel,
    replies: Seq<ReplyModel>,
) -> Asked<GroupModel> {
    match provider_asked(call, replies) {
        Ask::Stop(stop) => Ask::Stop(stop),
        Ask::Got(ProviderAnswerModel::Group(found), rest) => Ask::Got(found, rest),
        Ask::Got(_, _) => Ask::Stop(unexpected()),
    }
}

pub(crate) fn ask_group(cursor: &mut Replies<'_>, call: ProviderCall) -> (r: Result<Group, Step>)
    ensures
        answers(r, final(cursor).rest(), group_asked(call.deep_view(), old(cursor).rest())),
{
    match ask_provider(cursor, call)? {
        ProviderAnswer::Group(found) => Ok(found.clone()),
        _ => Err(fail_unexpected()),
    }
}

/// Roles.
pub open spec fn roles_asked(
    call: ProviderCallModel,
    replies: Seq<ReplyModel>,
) -> Asked<Seq<RoleModel>> {
    match provider_asked(call, replies) {
        Ask::Stop(stop) => Ask::Stop(stop),
        Ask::Got(ProviderAnswerModel::Roles(found), rest) => Ask::Got(found, rest),
        Ask::Got(_, _) => Ask::Stop(unexpected()),
    }
}

pub(crate) fn ask_roles(
    cursor: &mut Replies<'_>,
    call: ProviderCall,
) -> (r: Result<Vec<Role>, Step>)
    ensures
        answers(r, final(cursor).rest(), roles_asked(call.deep_view(), old(cursor).rest())),
{
    match ask_provider(cursor, call)? {
        ProviderAnswer::Roles(found) => {
            let r = found.clone();
            assert(r.deep_view() =~= found.deep_view());
            Ok(r)
        },
        _ => Err(fail_unexpected()),
    }
}

/// Clients.
pub open spec fn clients_asked(
    call: ProviderCallModel,
    replies: Seq<ReplyModel>,
) -> Asked<Seq<AppClientModel>> {
    match provider_asked(call, replies) {
        Ask::Stop(stop) => Ask::Stop(stop),
        Ask::Got(ProviderAnswerModel::Clients(found), rest) => Ask::Got(found, rest),
        Ask::Got(_, _) => Ask::Stop(unexpected()),
    }
}

pub(crate) fn ask_clients(
    cursor: &mut Replies<'_>,
    call: ProviderCall,
) -> (r: Result<Vec<AppClient>, Step>)
    ensures
        answers(r, final(cursor).rest(), clients_asked(call.deep_view(), old(cursor).rest())),
{
    match ask_provider(cursor, call)? {
        ProviderAnswer::Clients(found) => {
            let r = found.clone();
            assert(r.deep_view() =~= found.deep_view());
            Ok(r)
        },
        _ => Err(fail_unexpected()),
    }
}

/// One client.
pub open spec fn client_asked(
    call: ProviderCallModel,
    replies: Seq<ReplyModel>,
) -> Asked<AppClientModel> {
    match provider_asked(call, replies) {
        Ask::Stop(stop) => Ask::Stop(stop),
        Ask::Got(ProviderAnswerModel::Client(found), rest) => Ask::Got(found, rest),
        Ask::Got(_, _) => Ask::Stop(unexpected()),
    }
}

pub(crate) fn ask_client(
    cursor: &mut Replies<'_>,
    call: ProviderCall,
) -> (r: Result<AppClient, Step>)
    ensures
        answers(r, final(cursor).rest(), client_asked(call.deep_view(), old(cursor).rest())),
{
    match ask_provider(cursor, call)? {
        ProviderAnswer::Client(found) => Ok(found.clone()),
        _ => Err(fail_unexpected()),
    }
}

/// The secret of a client.
pub open spec fn secret_asked(
    call: ProviderCallModel,
    replies: Seq<ReplyModel>,
) -> Asked<Option<Seq<char>>> {
    match provider_asked(call, replies) {
        Ask::Stop(stop) => Ask::Stop(stop),
        Ask::Got(ProviderAnswerModel::Secret(found), rest) => Ask::Got(found, rest),
        Ask::Got(_, _) => Ask::Stop(unexpected()),
    }
}

pub(crate) fn ask_secret(
    cursor: &mut Replies<'_>,
    call: ProviderCall,
) -> (r: Result<Option<String>, Step>)
    ensures
        answers(r, final(cursor).rest(), secret_asked(call.deep_view(), old(cursor).rest())),
{
    match ask_provider(cursor, call)? {
        ProviderAnswer::Secret(found) => Ok(found.clone()),
        _ => Err(fail_unexpected()),
    }
}

// ── Storage ──────────────────────────────────────────────────────────────────

/// What the storage answers, unless it fails.
pub open spec fn storage_asked(
    call: StorageCallModel,
    replies: Seq<ReplyModel>,
) -> Asked<StorageAnswerModel> {
    match asked(EffectModel::Storage(call), replies) {
        Ask::Stop(stop) => Ask::Stop(stop),
        Ask::Got(ReplyModel::Storage(StorageAnswerModel::Failed(message)), _) => Ask::Stop(
            failed(AppErrorModel::Internal(message)),
        ),
        Ask::Got(ReplyModel::Storage(answer), rest) => Ask::Got(answer, rest),
        Ask::Got(_, _) => Ask::Stop(unexpected()),
    }
}

pub(crate) fn ask_storage<'a>(cursor: &mut Replies<'a>, call: StorageCall) -> (r: Result<
    &'a StorageAnswer,
    Step,
>)
    ensures
        answers(r, final(cursor).rest(), storage_asked(call.deep_view(), old(cursor).rest())),
{
    match ask(cursor, Effect::Storage(call))? {
        Reply::Storage(StorageAnswer::Failed(message)) => Err(
            fail(AppError::Internal(message.clone())),
        ),
        Reply::Storage(answer) => Ok(answer),
        _ => Err(fail_unexpected()),
    }
}

/// A write to the storage.
pub open spec fn save_asked(call: StorageCallModel, replies: Seq<ReplyModel>) -> Asked<()> {
    match storage_asked(call, replies) {
        Ask::Stop(stop) => Ask::Stop(stop),
        Ask::Got(StorageAnswerModel::Done, rest) => Ask::Got((), rest),
        Ask::Got(_, _) => Ask::Stop(unexpected()),
    }
}

pub(crate) fn ask_save(cursor: &mut Replies<'_>, call: StorageCall) -> (r: Result<(), Step>)
    ensures
        answers(r, final(cursor).rest(), save_asked(call.deep_view(), old(cursor).rest())),
{
    match ask_storage(cursor, call)? {
        StorageAnswer::Done => Ok(()),
        _ => Err(fail_unexpected()),
    }
}

/// A stored change, if it is there.
pub open spec fn change_asked(
    call: StorageCallModel,
    replies: Seq<ReplyModel>,
) -> Asked<Option<PendingChangeModel>> {
    match storage_asked(call, replies) {
        Ask::Stop(stop) => Ask::Stop(stop),
        Ask::Got(StorageAnswerModel::Change(found), rest) => Ask::Got(found, rest),
        Ask::Got(_, _) => Ask::Stop(unexpected()),
    }
}

pub(crate) fn ask_change(
    cursor: &mut Replies<'_>,
    call: StorageCall,
) -> (r: Result<Option<PendingChange>, Step>)
    ensures
        answers(r, final(cursor).rest(), change_asked(call.deep_view(), old(cursor).rest())),
{
    match ask_storage(cursor, call)? {
        StorageAnswer::Change(found) => Ok(found.clone()),
        _ => Err(fail_unexpected()),
    }
}

/// Stored changes.
pub open spec fn changes_asked(
    call: StorageCallModel,
    replies: Seq<ReplyModel>,
) -> Asked<Seq<PendingChangeModel>> {
    match storage_asked(call, replies) {
        Ask::Stop(stop) => Ask::Stop(stop),
        Ask::Got(StorageAnswerModel::Changes(found), rest) => Ask::Got(found, rest),
        Ask::Got(_, _) => Ask::Stop(unexpected()),
    }
}

pub(crate) fn ask_changes(
    cursor: &mut Replies<'_>,
    call: StorageCall,
) -> (r: Result<Vec<PendingChange>, Step>)
    ensures
        answers(r, final(cursor).rest(), changes_asked(call.deep_view(), old(cursor).rest())),
{
    match ask_storage(cursor, call)? {
        StorageAnswer::Changes(found) => {
            let r = found.clone();
            assert(r.deep_view() =~= found.deep_view());
            Ok(r)
        },
        _ => Err(fail_unexpected()),
    }
}

/// Entries of the audit log.
pub open spec fn entries_asked(
    call: StorageCallModel,
    replies: Seq<ReplyModel>,
) -> Asked<Seq<AuditEntryModel>> {
    match storage_asked(call, replies) {
        Ask::Stop(stop) => Ask::Stop(stop),
        Ask::Got(StorageAnswerModel::Entries(found), rest) => Ask::Got(found, rest),
        Ask::Got(_, _) => Ask::Stop(unexpected()),
    }
}

pub(crate) fn ask_entries(
    cursor: &mut Replies<'_>,
    call: StorageCall,
) -> (r: Result<Vec<AuditEntry>, Step>)
    ensures
        answers(r, final(cursor).rest(), entries_asked(call.deep_view(), old(cursor).rest())),
{
    match ask_storage(cursor, call)? {
        StorageAnswer::Entries(found) => {
            let r = found.clone();
            assert(r.deep_view() =~= found.deep_view());
            Ok(r)
        },
        _ => Err(fail_unexpected()),
    }
}

/// The entry that records a successful action.
pub open spec fn success_entry(
    stamp: StampModel,
    actor: Seq<char>,
    action: Seq<char>,
    realm: Seq<char>,
    target: Option<Seq<char>>,
    detail: Seq<char>,
) -> AuditEntryModel {
    AuditEntryModel {
        id: stamp.id,
        timestamp: stamp.at,
        actor,
        action,
        target_realm: realm,
        target_user: target,
        detail,
        outcome: AuditOutcomeModel::Success,
    }
}

pub(crate) fn new_entry(
    stamp: Stamp,
    actor: &str,
    action: &str,
    realm: &str,
    target: Option<String>,
    detail: String,
) -> (r: AuditEntry)
    ensures
        r.deep_view() == success_entry(
            stamp.deep_view(),
            actor@,
            action@,
            realm@,
            target.deep_view(),
            detail@,
        ),
{
    AuditEntry {
        id: stamp.id,
        timestamp: stamp.at,
        actor: actor.to_string(),
        action: action.to_string(),
        target_realm: realm.to_string(),
        target_user: target,
        detail,
        outcome: AuditOutcome::Success,
    }
}

/// A successful action is recorded under a fresh id.
pub open spec fn audit_asked(
    actor: Seq<char>,
    action: Seq<char>,
    realm: Seq<char>,
    target: Option<Seq<char>>,
    detail: Seq<char>,
    replies: Seq<ReplyModel>,
) -> Asked<()> {
    match stamp_asked(replies) {
        Ask::Stop(stop) => Ask::Stop(stop),
        Ask::Got(stamp, rest) => save_asked(
            StorageCallModel::AppendAudit(
                success_entry(stamp, actor, action, realm, target, detail),
            ),
            rest,
        ),
    }
}

pub(crate) fn ask_audit(
    cursor: &mut Replies<'_>,
    actor: &str,
    action: &str,
    realm: &str,
    target: Option<String>,
    detail: String,
) -> (r: Result<(), Step>)
    ensures
        answers(
            r,
            final(cursor).rest(),
            audit_asked(actor@, action@, realm@, target.deep_view(), detail@, old(cursor).rest()),
        ),
{
    let stamp = ask_stamp(cursor)?;
    ask_save(
        cursor,
        StorageCall::AppendAudit(new_entry(stamp, actor, action, realm, target, detail)),
    )
}

// ── Forms ────────────────────────────────────────────────────────────────────

/// A form counts only with the token that was last put into the session.
pub open spec fn csrf_asked(token: Seq<char>, replies: Seq<ReplyModel>) -> Asked<()> {
    match text_asked("csrf"@, replies) {
        Ask::Stop(stop) => Ask::Stop(stop),
        Ask::Got(Some(expected), rest) => if token == expected {
            Ask::Got((), rest)
        } else {
            Ask::Stop(failed(AppErrorModel::CsrfMismatch))
        },
        Ask::Got(None, _) => Ask::Stop(failed(AppErrorModel::CsrfMismatch)),
    }
}

pub(crate) fn ask_csrf(cursor: &mut Replies<'_>, token: &str) -> (r: Result<(), Step>)
    ensures
        answers(r, final(cursor).rest(), csrf_asked(token@, old(cursor).rest())),
{
    match ask_text(cursor, "csrf")? {
        Some(expected) => if csrf_tokens_equal(token, expected.as_str()) {
            Ok(())
        } else {
            Err(fail(AppError::CsrfMismatch))
        },
        None => Err(fail(AppError::CsrfMismatch)),
    }
}

/// A fresh token, put into the session for the form of this page.
pub open spec fn form_token_asked(replies: Seq<ReplyModel>) -> Asked<Seq<char>> {
    match token_asked(replies) {
        Ask::Stop(stop) => Ask::Stop(stop),
        Ask::Got(token, rest) => match store_asked(
            EffectModel::StoreText { key: "csrf"@, value: token },
            rest,
        ) {
            Ask::Stop(stop) => Ask::Stop(stop),
            Ask::Got(_, rest) => Ask::Got(token, rest),
        },
    }
}

pub(crate) fn ask_form_token(cursor: &mut Replies<'_>) -> (r: Result<String, Step>)
    ensures
        answers(r, final(cursor).rest(), form_token_asked(old(cursor).rest())),
{
    let token = ask_token(cursor)?;
    ask_store(cursor, Effect::StoreText { key: "csrf".to_string(), value: token.clone() })?;
    Ok(token)
}

} // verus!
