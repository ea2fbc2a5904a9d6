//! The queue of proposed changes.

use crate::asks::{
    any_asked, ask, ask_any, ask_audit, ask_change, ask_changes, ask_flash, ask_form_token,
    ask_lock, ask_save, ask_store, ask_time, asked, audit_asked, change_asked, changes_asked, fail,
    failed, flash_asked, form_token_asked, lock_asked, save_asked, store_asked, time_asked,
};
use crate::attributes::{Attributes, AttributesModel};
use crate::config::{Config, ConfigModel};
use crate::effects::{
    Asked, Effect, EffectModel, Outcome, OutcomeModel, Replies, Reply, ReplyModel, Step,
};
use crate::error::{AppError, AppErrorModel};
use crate::lists::{count, retain, sort, sorted};
use crate::pages::{ChangeView, ChangeViewModel, ChangesPage, ChangesPageModel, Page, PageModel};
use crate::provider::{
    Group, GroupModel, ProviderAnswer, ProviderAnswerModel, ProviderCall, ProviderCallModel,
};
use crate::routes::{
    admin_form_checked, ask_badge, badge_asked, by_name, check_admin_form, check_session_form,
    flash_left, frame, framed, leave_flash, require_session, session_form_checked, session_required,
    sort_by_name,
};
use crate::script::{answers, Ask};
use crate::service::changes::{apply_change_diff, diff_applied, find_team_change, team_change};
use crate::session::{good_news, notice, Flash, FlashModel, Role, SessionUser, SessionUserModel};
use crate::storage::{
    is_open, ChangeStatus, PendingChange, PendingChangeModel, StorageAnswer, StorageCall,
    StorageCallModel,
};
use crate::text::{in_order, is_in_order, same};
use crate::time::{later, Timestamp};
use vstd::prelude::*;

verus! {

// ── Resolving a change ───────────────────────────────────────────────────────

/// A form that only confirms.
#[derive(Debug, PartialEq)]
pub struct ConfirmForm {
    pub csrf_token: String,
}

/// What a [`ConfirmForm`] stands for in contracts.
#[verifier::ext_equal]
pub struct ConfirmFormModel {
    pub csrf_token: Seq<char>,
}

impl DeepView for ConfirmForm {
    type V = ConfirmFormModel;

    open spec fn deep_view(&self) -> ConfirmFormModel {
        ConfirmFormModel {
            csrf_token: self.csrf_token.deep_view(),
        }
    }
}

impl Clone for ConfirmForm {
    fn clone(&self) -> (r: Self)
        ensures
            r.deep_view() == self.deep_view(),
    {
        ConfirmForm {
            csrf_token: self.csrf_token.clone(),
        }
    }
}

/// The form for rejecting a change.
#[derive(Debug, PartialEq)]
pub struct RejectForm {
    pub csrf_token: String,
    pub reason: Option<String>,
}

/// What a [`RejectForm`] stands for in contracts.
#[verifier::ext_equal]
pub struct RejectFormModel {
    pub csrf_token: Seq<char>,
    pub reason: Option<Seq<char>>,
}

impl DeepView for RejectForm {
    type V = RejectFormModel;

    open spec fn deep_view(&self) -> RejectFormModel {
        RejectFormModel {
            csrf_token: self.csrf_token.deep_view(),
            reason: self.reason.deep_view(),
        }
    }
}

impl Clone for RejectForm {
    fn clone(&self) -> (r: Self)
        ensures
            r.deep_view() == self.deep_view(),
    {
        RejectForm {
            csrf_token: self.csrf_token.clone(),
            reason: self.reason.clone(),
        }
    }
}

/// The lock on a change.
pub open spec fn lock_key(id: Seq<char>) -> Seq<char> {
    "grafter:change-lock:"@ + id
}

fn lock_key_of(id: &str) -> (r: String)
    ensures
        r@ == lock_key(id@),
{
    "grafter:change-lock:".to_string().concat(id)
}

/// For how many seconds a change stays locked, at most.
pub const LOCK_SECONDS: i64 = 30;

/// A change is locked and read; nothing, where someone else has the lock.
pub open spec fn change_locked(id: Seq<char>, replies: Seq<ReplyModel>) -> Asked<
    Option<PendingChangeModel>,
> {
    match lock_asked(lock_key(id), LOCK_SECONDS, replies) {
        Ask::Stop(stop) => Ask::Stop(stop),
        Ask::Got(false, rest) => Ask::Got(None, rest),
        Ask::Got(true, rest) => match change_asked(StorageCallModel::GetChange { id }, rest) {
            Ask::Stop(stop) => Ask::Stop(stop),
            Ask::Got(Some(change), rest) => Ask::Got(Some(change), rest),
            Ask::Got(None, _) => Ask::Stop(failed(AppErrorModel::NotFound("change "@ + id))),
        },
    }
}

fn lock_change(cursor: &mut Replies<'_>, id: &str) -> (r: Result<Option<PendingChange>, Step>)
    ensures
        answers(r, final(cursor).rest(), change_locked(id@, old(cursor).rest())),
{
    if !ask_lock(cursor, lock_key_of(id).as_str(), LOCK_SECONDS)? {
        return Ok(None);
    }
    match ask_change(cursor, StorageCall::GetChange { id: id.to_string() })? {
        Some(change) => Ok(Some(change)),
        None => Err(fail(AppError::NotFound("change ".to_string().concat(id)))),
    }
}

/// Someone else is at the change.
pub open spec fn busy(replies: Seq<ReplyModel>) -> Asked<OutcomeModel> {
    flash_left(notice("This change is being processed."@), "/changes"@, replies)
}

fn tell_busy(cursor: &mut Replies<'_>) -> (r: Result<Outcome, Step>)
    ensures
        answers(r, final(cursor).rest(), busy(old(cursor).rest())),
{
    leave_flash(
        cursor,
        Flash::warning("This change is being processed.".to_string()),
        "/changes".to_string(),
    )
}

/// The change was resolved before; the lock is given back.
pub open spec fn already_processed(id: Seq<char>, replies: Seq<ReplyModel>) -> Asked<OutcomeModel> {
    match any_asked(EffectModel::Unlock { key: lock_key(id) }, replies) {
        Ask::Stop(stop) => Ask::Stop(stop),
        Ask::Got(_, rest) => flash_left(
            notice("This change has already been processed."@),
            "/changes"@,
            rest,
        ),
    }
}

fn tell_processed(cursor: &mut Replies<'_>, id: &str) -> (r: Result<Outcome, Step>)
    ensures
        answers(r, final(cursor).rest(), already_processed(id@, old(cursor).rest())),
{
    ask_any(cursor, Effect::Unlock { key: lock_key_of(id) })?;
    leave_flash(
        cursor,
        Flash::warning("This change has already been processed.".to_string()),
        "/changes".to_string(),
    )
}

/// A change with its resolution.
pub open spec fn resolved(
    change: PendingChangeModel,
    status: ChangeStatus,
    by: Seq<char>,
    at: Timestamp,
    reason: Option<Seq<char>>,
) -> PendingChangeModel {
    PendingChangeModel {
        status,
        resolved_by: Some(by),
        resolved_at: Some(at),
        reject_reason: reason,
        ..change
    }
}

/// The resolution of a change is stored; only then is the lock given back, and the action
/// recorded. A resolution that cannot be stored leaves the lock to expire.
pub open spec fn resolution_stored(
    id: Seq<char>,
    change: PendingChangeModel,
    actor: Seq<char>,
    action: Seq<char>,
    detail: Seq<char>,
    flash: FlashModel,
    replies: Seq<ReplyModel>,
) -> Asked<OutcomeModel> {
    match save_asked(StorageCallModel::SaveChange(change), replies) {
        Ask::Stop(stop) => Ask::Stop(stop),
        Ask::Got(_, rest) => match any_asked(EffectModel::Unlock { key: lock_key(id) }, rest) {
            Ask::Stop(stop) => Ask::Stop(stop),
            Ask::Got(_, rest) => match audit_asked(
                actor,
                action,
                change.realm,
                Some(change.username),
                detail,
                rest,
            ) {
                Ask::Stop(stop) => Ask::Stop(stop),
                Ask::Got(_, rest) => flash_left(flash, "/changes"@, rest),
            },
        },
    }
}

fn store_resolution(
    cursor: &mut Replies<'_>,
    id: &str,
    change: PendingChange,
    actor: &str,
    action: &str,
    detail: String,
    flash: Flash,
) -> (r: Result<Outcome, Step>)
    ensures
        answers(
            r,
            final(cursor).rest(),
            resolution_stored(
                id@,
                change.deep_view(),
                actor@,
                action@,
                detail@,
                flash.deep_view(),
                old(cursor).rest(),
            ),
        ),
{
    ask_save(cursor, StorageCall::SaveChange(change.clone()))?;
    ask_any(cursor, Effect::Unlock { key: lock_key_of(id) })?;
    ask_audit(
        cursor,
        actor,
        action,
        change.realm.as_str(),
        Some(change.username.clone()),
        detail,
    )?;
    leave_flash(cursor, flash, "/changes".to_string())
}

/// Whether a change took effect, or was turned down, without the record of it being stored:
/// someone has to compare the two.
pub open spec fn is_unreconciled(effect: EffectModel, reply: ReplyModel) -> bool {
    effect matches EffectModel::Storage(StorageCallModel::SaveChange(change)) && !is_open(change)
        && reply is Storage && reply->Storage_0 is Failed
}

/// Tells whether the record of a resolved change was lost.
pub fn needs_reconciliation(effect: &Effect, reply: &Reply) -> (r: bool)
    ensures
        r == is_unreconciled(effect.deep_view(), reply.deep_view()),
{
    match (effect, reply) {
        (
            Effect::Storage(StorageCall::SaveChange(change)),
            Reply::Storage(StorageAnswer::Failed(_)),
        ) => change.status != ChangeStatus::Pending,
        _ => false,
    }
}

/// A locked change takes effect, and is stored as approved.
pub open spec fn approval_made(
    user: SessionUserModel,
    id: Seq<char>,
    change: PendingChangeModel,
    replies: Seq<ReplyModel>,
) -> Asked<OutcomeModel> {
    match diff_applied(change.realm, change.user_id, change.diff, replies) {
        Ask::Stop(stop) => Ask::Stop(stop),
        Ask::Got(_, rest) => match time_asked(rest) {
            Ask::Stop(stop) => Ask::Stop(stop),
            Ask::Got(now, rest) => resolution_stored(
                id,
                resolved(change, ChangeStatus::Approved, user.username, now, change.reject_reason),
                user.username,
                "approve_change"@,
                "change "@ + id + " approved"@,
                good_news("Change for "@ + change.username + " approved."@),
                rest,
            ),
        },
    }
}

/// What an admin's approval comes to.
pub open spec fn approval_asked(
    user: SessionUserModel,
    id: Seq<char>,
    replies: Seq<ReplyModel>,
) -> Asked<OutcomeModel> {
    match change_locked(id, replies) {
        Ask::Stop(stop) => Ask::Stop(stop),
        Ask::Got(None, rest) => busy(rest),
        Ask::Got(Some(change), rest) => if is_open(change) {
            approval_made(user, id, change, rest)
        } else {
            already_processed(id, rest)
        },
    }
}

/// An admin approves a change. It takes effect only under the lock, and only if it is still
/// pending when it is read under the lock.
#[verifier::opaque]
pub open spec fn change_approved(
    config: ConfigModel,
    id: Seq<char>,
    form: ConfirmFormModel,
    replies: Seq<ReplyModel>,
) -> Asked<OutcomeModel> {
    match admin_form_checked(config, form.csrf_token, replies) {
        Ask::Stop(stop) => Ask::Stop(stop),
        Ask::Got(user, rest) => approval_asked(user, id, rest),
    }
}

/// Approves a change, which takes effect.
pub fn approve(cursor: &mut Replies<'_>, config: &Config, id: &str, form: &ConfirmForm) -> (r:
    Result<Outcome, Step>)
    ensures
        answers(
            r,
            final(cursor).rest(),
            change_approved(config.deep_view(), id@, form.deep_view(), old(cursor).rest()),
        ),
{
    proof {
        reveal(change_approved);
    }
    let user = check_admin_form(cursor, config, form.csrf_token.as_str())?;
    let mut change = match lock_change(cursor, id)? {
        Some(change) => change,
        None => return tell_busy(cursor),
    };
    if change.status != ChangeStatus::Pending {
        return tell_processed(cursor, id);
    }
    apply_change_diff(cursor, change.realm.as_str(), change.user_id.as_str(), &change.diff)?;
    change.status = ChangeStatus::Approved;
    change.resolved_by = Some(user.username.clone());
    change.resolved_at = Some(ask_time(cursor)?);
    let detail = "change ".to_string().concat(id).concat(" approved");
    let flash = Flash::success(
        "Change for ".to_string().concat(change.username.as_str()).concat(" approved."),
    );
    store_resolution(
        cursor,
        id,
        change,
        user.username.as_str(),
        "approve_change",
        detail,
        flash,
    )
}

/// What the audit log says of a rejection.
pub open spec fn rejection_detail(id: Seq<char>, reason: Option<Seq<char>>) -> Seq<char> {
    "change "@ + id + " rejected: "@ + (match reason {
        Some(text) => text,
        None => "no reason given"@,
    })
}

/// A locked change is stored as rejected.
pub open spec fn rejection_made(
    user: SessionUserModel,
    id: Seq<char>,
    change: PendingChangeModel,
    reason: Option<Seq<char>>,
    replies: Seq<ReplyModel>,
) -> Asked<OutcomeModel> {
    match time_asked(replies) {
        Ask::Stop(stop) => Ask::Stop(stop),
        Ask::Got(now, rest) => resolution_stored(
            id,
            resolved(change, ChangeStatus::Rejected, user.username, now, reason),
            user.username,
            "reject_change"@,
            rejection_detail(id, reason),
            notice("Change for "@ + change.username + " rejected."@),
            rest,
        ),
    }
}

/// What an admin's rejection comes to.
pub open spec fn rejection_asked(
    user: SessionUserModel,
    id: Seq<char>,
    reason: Option<Seq<char>>,
    replies: Seq<ReplyModel>,
) -> Asked<OutcomeModel> {
    match change_locked(id, replies) {
        Ask::Stop(stop) => Ask::Stop(stop),
        Ask::Got(None, rest) => busy(rest),
        Ask::Got(Some(change), rest) => if is_open(change) {
            rejection_made(user, id, change, reason, rest)
        } else {
            already_processed(id, rest)
        },
    }
}

/// An admin rejects a change, which never takes effect.
#[verifier::opaque]
pub open spec fn change_rejected(
    config: ConfigModel,
    id: Seq<char>,
    form: RejectFormModel,
    replies: Seq<ReplyModel>,
) -> Asked<OutcomeModel> {
    match admin_form_checked(config, form.csrf_token, replies) {
        Ask::Stop(stop) => Ask::Stop(stop),
        Ask::Got(user, rest) => rejection_asked(user, id, form.reason, rest),
    }
}

/// Rejects a change.
pub fn reject(cursor: &mut Replies<'_>, config: &Config, id: &str, form: &RejectForm) -> (r: Result<
    Outcome,
    Step,
>)
    ensures
        answers(
            r,
            final(cursor).rest(),
            change_rejected(config.deep_view(), id@, form.deep_view(), old(cursor).rest()),
        ),
{
    proof {
        reveal(change_rejected);
    }
    let user = check_admin_form(cursor, config, form.csrf_token.as_str())?;
    let mut change = match lock_change(cursor, id)? {
        Some(change) => change,
        None => return tell_busy(cursor),
    };
    if change.status != ChangeStatus::Pending {
        return tell_processed(cursor, id);
    }
    change.status = ChangeStatus::Rejected;
    change.resolved_by = Some(user.username.clone());
    change.resolved_at = Some(ask_time(cursor)?);
    change.reject_reason = form.reason.clone();
    let reason = match &form.reason {
        Some(text) => text.clone(),
        None => "no reason given".to_string(),
    };
    let detail = "change ".to_string().concat(id).concat(" rejected: ").concat(reason.as_str());
    let flash = Flash::warning(
        "Change for ".to_string().concat(change.username.as_str()).concat(" rejected."),
    );
    store_resolution(cursor, id, change, user.username.as_str(), "reject_change", detail, flash)
}

/// A locked change is stored as withdrawn.
pub open spec fn cancellation_made(
    user: SessionUserModel,
    id: Seq<char>,
    change: PendingChangeModel,
    replies: Seq<ReplyModel>,
) -> Asked<OutcomeModel> {
    match time_asked(replies) {
        Ask::Stop(stop) => Ask::Stop(stop),
        Ask::Got(now, rest) => resolution_stored(
            id,
            resolved(
                change,
                ChangeStatus::Rejected,
                user.username,
                now,
                Some("Cancelled by proposer"@),
            ),
            user.username,
            "cancel_change"@,
            "change "@ + id + " cancelled by proposer"@,
            good_news("Proposal cancelled."@),
            rest,
        ),
    }
}

/// A change that somebody else proposed is left alone, and the lock given back.
pub open spec fn cancellation_refused(id: Seq<char>, replies: Seq<ReplyModel>) -> Asked<
    OutcomeModel,
> {
    match any_asked(EffectModel::Unlock { key: lock_key(id) }, replies) {
        Ask::Stop(stop) => Ask::Stop(stop),
        Ask::Got(_, _) => Ask::Stop(failed(AppErrorModel::Forbidden)),
    }
}

/// What a proposer's cancellation comes to.
pub open spec fn cancellation_asked(
    user: SessionUserModel,
    id: Seq<char>,
    replies: Seq<ReplyModel>,
) -> Asked<OutcomeModel> {
    match change_locked(id, replies) {
        Ask::Stop(stop) => Ask::Stop(stop),
        Ask::Got(None, rest) => busy(rest),
        Ask::Got(Some(change), rest) => if change.proposed_by != user.username {
            cancellation_refused(id, rest)
        } else if is_open(change) {
            cancellation_made(user, id, change, rest)
        } else {
            already_processed(id, rest)
        },
    }
}

/// Whoever proposed a change withdraws it while it is pending.
#[verifier::opaque]
pub open spec fn change_cancelled(
    config: ConfigModel,
    id: Seq<char>,
    form: ConfirmFormModel,
    replies: Seq<ReplyModel>,
) -> Asked<OutcomeModel> {
    match session_form_checked(config, form.csrf_token, replies) {
        Ask::Stop(stop) => Ask::Stop(stop),
        Ask::Got(user, rest) => cancellation_asked(user, id, rest),
    }
}

/// Withdraws a change. It is kept as rejected, resolved by whoever proposed it.
pub fn cancel(
    cursor: &mut Replies<'_>,
    config: &Config,
    id: &str,
    form: &ConfirmForm,
) -> (r: Result<
    Outcome,
    Step,
>)
    ensures
        answers(
            r,
            final(cursor).rest(),
            change_cancelled(config.deep_view(), id@, form.deep_view(), old(cursor).rest()),
        ),
{
    proof {
        reveal(change_cancelled);
    }
    let user = check_session_form(cursor, config, form.csrf_token.as_str())?;
    let mut change = match lock_change(cursor, id)? {
        Some(change) => change,
        None => return tell_busy(cursor),
    };
    if !same(change.proposed_by.as_str(), user.username.as_str()) {
        ask_any(cursor, Effect::Unlock { key: lock_key_of(id) })?;
        return Err(fail(AppError::Forbidden));
    }
    if change.status != ChangeStatus::Pending {
        return tell_processed(cursor, id);
    }
    change.status = ChangeStatus::Rejected;
    change.resolved_by = Some(user.username.clone());
    change.resolved_at = Some(ask_time(cursor)?);
    change.reject_reason = Some("Cancelled by proposer".to_string());
    let detail = "change ".to_string().concat(id).concat(" cancelled by proposer");
    let flash = Flash::success("Proposal cancelled.".to_string());
    store_resolution(cursor, id, change, user.username.as_str(), "cancel_change", detail, flash)
}

// ── Listing changes ──────────────────────────────────────────────────────────

/// The page of the list that a query asks for.
#[derive(Debug, PartialEq)]
pub struct ChangesQuery {
    pub page: Option<usize>,
}

/// What a [`ChangesQuery`] stands for in contracts.
#[verifier::ext_equal]
pub struct ChangesQueryModel {
    pub page: Option<usize>,
}

impl DeepView for ChangesQuery {
    type V = ChangesQueryModel;

    open spec fn deep_view(&self) -> ChangesQueryModel {
        ChangesQueryModel {
            page: self.page,
        }
    }
}

impl Clone for ChangesQuery {
    fn clone(&self) -> (r: Self)
        ensures
            r.deep_view() == self.deep_view(),
    {
        ChangesQuery {
            page: self.page,
        }
    }
}

/// How many changes a page shows.
pub const CHANGES_PAGE_LIMIT: usize = 200;

/// The changes that a user sees: an admin all, an operator their own.
pub open spec fn visible_changes(user: SessionUserModel, changes: Seq<PendingChangeModel>) -> Seq<
    PendingChangeModel,
> {
    if user.role == Role::Admin {
        changes
    } else {
        changes.filter(|c: PendingChangeModel| c.proposed_by == user.username)
    }
}

pub(crate) fn keep_visible(user: &SessionUser, changes: Vec<PendingChange>) -> (r: Vec<
    PendingChange,
>)
    ensures
        r.deep_view() == visible_changes(user.deep_view(), changes.deep_view()),
{
    if user.role.is_admin() {
        changes
    } else {
        let ghost name = user.username@;
        let ghost wanted = |c: PendingChangeModel| c.proposed_by == name;
        let is_own = |c: &PendingChange| -> (b: bool)
            ensures
                b == wanted(c.deep_view()),
            { same(c.proposed_by.as_str(), user.username.as_str()) };
        let r = retain(changes, is_own, Ghost(wanted));
        let ghost own = |c: PendingChangeModel| c.proposed_by == user.deep_view().username;
        assert(own =~= wanted);
        r
    }
}

/// Whether a change was resolved after a point in time.
pub open spec fn resolved_since(change: PendingChangeModel, seen: Timestamp) -> bool {
    !is_open(change) && (change.resolved_at matches Some(at) && later(at, seen))
}

fn was_resolved_since(change: &PendingChange, seen: &Timestamp) -> (r: bool)
    ensures
        r == resolved_since(change.deep_view(), *seen),
{
    change.status != ChangeStatus::Pending && match &change.resolved_at {
        Some(at) => at.is_later(seen),
        None => false,
    }
}

/// How many of an operator's proposals were resolved since they last looked. Whoever has
/// never looked is not told of all that ever happened.
pub open spec fn unseen_count(user: SessionUserModel, visible: Seq<PendingChangeModel>) -> nat {
    match user.last_seen_changes_at {
        Some(seen) if user.role != Role::Admin => visible.filter(
            |c: PendingChangeModel| resolved_since(c, seen),
        ).len(),
        _ => 0,
    }
}

fn count_unseen(user: &SessionUser, visible: &Vec<PendingChange>) -> (r: usize)
    ensures
        r == unseen_count(user.deep_view(), visible.deep_view()),
{
    if user.role.is_admin() {
        return 0;
    }
    match &user.last_seen_changes_at {
        Some(seen) => {
            let ghost since = *seen;
            let ghost wanted = |c: PendingChangeModel| resolved_since(c, since);
            let is_unseen = |c: &PendingChange| -> (b: bool)
                ensures
                    b == wanted(c.deep_view()),
                { was_resolved_since(c, seen) };
            count(visible, is_unseen, Ghost(wanted))
        },
        None => 0,
    }
}

/// That an operator looked at the list is written to their session.
pub open spec fn look_noted(user: SessionUserModel, replies: Seq<ReplyModel>) -> Asked<
    SessionUserModel,
> {
    if user.role == Role::Admin {
        Ask::Got(user, replies)
    } else {
        match time_asked(replies) {
            Ask::Stop(stop) => Ask::Stop(stop),
            Ask::Got(now, rest) => {
                let seen = SessionUserModel { last_seen_changes_at: Some(now), ..user };
                match store_asked(EffectModel::StoreUser(seen), rest) {
                    Ask::Stop(stop) => Ask::Stop(stop),
                    Ask::Got(_, rest) => Ask::Got(seen, rest),
                }
            },
        }
    }
}

fn note_look(cursor: &mut Replies<'_>, user: SessionUser) -> (r: Result<SessionUser, Step>)
    ensures
        answers(r, final(cursor).rest(), look_noted(user.deep_view(), old(cursor).rest())),
{
    if user.role.is_admin() {
        return Ok(user);
    }
    let mut seen = user;
    seen.last_seen_changes_at = Some(ask_time(cursor)?);
    ask_store(cursor, Effect::StoreUser(seen.clone()))?;
    Ok(seen)
}

/// The number of pages that so many changes take; an empty list takes one.
pub open spec fn page_count(total: int) -> int {
    if total <= 0 {
        1
    } else {
        (total + CHANGES_PAGE_LIMIT - 1) / (CHANGES_PAGE_LIMIT as int)
    }
}

/// The page that is shown: the one asked for, or the last one.
pub open spec fn shown_page(wanted: Option<usize>, total: int) -> int {
    match wanted {
        Some(page) => if page < page_count(total) {
            page as int
        } else {
            page_count(total) - 1
        },
        None => 0,
    }
}

/// The changes on a page.
pub open spec fn page_slice<T>(items: Seq<T>, page: int) -> Seq<T> {
    let start = page * CHANGES_PAGE_LIMIT;
    let end = if start + CHANGES_PAGE_LIMIT < items.len() {
        start + CHANGES_PAGE_LIMIT
    } else {
        items.len() as int
    };
    items.subrange(start, end)
}

fn count_pages(total: usize) -> (r: usize)
    ensures
        r == page_count(total as int),
        r >= 1,
        (r - 1) * CHANGES_PAGE_LIMIT <= total,
{
    if total == 0 {
        1
    } else if total % CHANGES_PAGE_LIMIT == 0 {
        total / CHANGES_PAGE_LIMIT
    } else {
        total / CHANGES_PAGE_LIMIT + 1
    }
}

fn choose_page(wanted: Option<usize>, total: usize) -> (r: usize)
    ensures
        r == shown_page(wanted, total as int),
        r * CHANGES_PAGE_LIMIT <= total,
{
    let pages = count_pages(total);
    match wanted {
        Some(page) => if page < pages {
            page
        } else {
            pages - 1
        },
        None => 0,
    }
}

fn cut_page(changes: &Vec<PendingChange>, page: usize) -> (r: Vec<PendingChange>)
    requires
        page * CHANGES_PAGE_LIMIT <= changes@.len(),
    ensures
        r.deep_view() == page_slice(changes.deep_view(), page as int),
{
    let total = changes.len();
    let start = page * CHANGES_PAGE_LIMIT;
    let end = if total - start > CHANGES_PAGE_LIMIT {
        start + CHANGES_PAGE_LIMIT
    } else {
        total
    };
    let ghost whole = changes.deep_view();
    let mut r: Vec<PendingChange> = Vec::new();
    let mut i: usize = start;
    while i < end
        invariant
            start <= i <= end <= changes@.len(),
            whole == changes.deep_view(),
            r.deep_view() =~= whole.subrange(start as int, i as int),
        decreases end - i,
    {
        let ghost before = r.deep_view();
        let change = changes[i].clone();
        let ghost model = change.deep_view();
        r.push(change);
        assert(r.deep_view() =~= before.push(model));
        i = i + 1;
    }
    r
}

/// Texts in order, each once.
pub open spec fn deduped(texts: Seq<Seq<char>>) -> Seq<Seq<char>>
    decreases texts.len(),
{
    if texts.len() == 0 {
        texts
    } else {
        let front = deduped(texts.drop_last());
        if front.len() > 0 && front.last() == texts.last() {
            front
        } else {
            front.push(texts.last())
        }
    }
}

/// The order of texts.
pub open spec fn by_text() -> spec_fn(Seq<char>, Seq<char>) -> bool {
    |a: Seq<char>, b: Seq<char>| in_order(a, b)
}

/// The realms that a list of changes is about, in order, each once.
pub open spec fn realms_of(changes: Seq<PendingChangeModel>) -> Seq<Seq<char>> {
    deduped(sorted(changes.map_values(|c: PendingChangeModel| c.realm), by_text()))
}

fn collect_realms(changes: &Vec<PendingChange>) -> (r: Vec<String>)
    ensures
        r.deep_view() == realms_of(changes.deep_view()),
{
    let ghost whole = changes.deep_view();
    let ghost realm = |c: PendingChangeModel| c.realm;
    let mut names: Vec<String> = Vec::new();
    let mut i: usize = 0;
    while i < changes.len()
        invariant
            i <= changes@.len(),
            whole == changes.deep_view(),
            realm == (|c: PendingChangeModel| c.realm),
            names.deep_view() =~= whole.take(i as int).map_values(realm),
        decreases changes@.len() - i,
    {
        let ghost before = names.deep_view();
        let name = changes[i].realm.clone();
        let ghost model = name@;
        names.push(name);
        assert(names.deep_view() =~= before.push(model));
        i = i + 1;
    }
    assert(whole.take(i as int) =~= whole);
    let ghost leq = by_text();
    let ordered = |x: &String, y: &String| -> (b: bool)
        ensures
            b == leq(x.deep_view(), y.deep_view()),
        { is_in_order(x.as_str(), y.as_str()) };
    let all = sort(names, ordered, Ghost(leq));
    let ghost texts = all.deep_view();
    let mut r: Vec<String> = Vec::new();
    let mut k: usize = 0;
    assert(texts.take(0) =~= Seq::empty());
    while k < all.len()
        invariant
            k <= all@.len(),
            texts == all.deep_view(),
            r.deep_view() =~= deduped(texts.take(k as int)),
        decreases all@.len() - k,
    {
        let ghost before = r.deep_view();
        assert(texts.take(k + 1).drop_last() =~= texts.take(k as int));
        if r.len() == 0 || !same(r[r.len() - 1].as_str(), all[k].as_str()) {
            let name = all[k].clone();
            let ghost model = name@;
            r.push(name);
            assert(r.deep_view() =~= before.push(model));
        }
        k = k + 1;
    }
    assert(texts.take(k as int) =~= texts);
    r
}

/// What is known of the roles that teams grant, with those of `groups`.
pub open spec fn with_grants(known: AttributesModel, groups: Seq<GroupModel>) -> AttributesModel
    decreases groups.len(),
{
    if groups.len() == 0 {
        known
    } else {
        with_grants(known, groups.drop_last()).insert(groups.last().id, groups.last().realm_roles)
    }
}

fn add_grants(known: &mut Attributes, groups: &Vec<Group>)
    ensures
        final(known).deep_view() == with_grants(old(known).deep_view(), groups.deep_view()),
{
    let ghost start = known.deep_view();
    let ghost whole = groups.deep_view();
    let mut i: usize = 0;
    assert(whole.take(0) =~= Seq::empty());
    while i < groups.len()
        invariant
            i <= groups@.len(),
            whole == groups.deep_view(),
            known.deep_view() == with_grants(start, whole.take(i as int)),
        decreases groups@.len() - i,
    {
        let roles = groups[i].realm_roles.clone();
        assert(roles.deep_view() =~= groups@[i as int].realm_roles.deep_view());
        assert(whole.take(i + 1).drop_last() =~= whole.take(i as int));
        assert(whole.take(i + 1).last() == groups@[i as int].deep_view());
        known.insert(groups[i].id.clone(), roles);
        i = i + 1;
    }
    assert(whole.take(i as int) =~= whole);
}

/// The roles that the teams of some realms grant. A realm whose groups cannot be listed is
/// passed over.
pub open spec fn grants_asked(
    realms: Seq<Seq<char>>,
    known: AttributesModel,
    replies: Seq<ReplyModel>,
) -> Asked<AttributesModel>
    decreases realms.len(),
{
    if realms.len() == 0 {
        Ask::Got(known, replies)
    } else {
        match asked(
            EffectModel::Provider(ProviderCallModel::ListGroups { realm: realms[0] }),
            replies,
        ) {
            Ask::Stop(stop) => Ask::Stop(stop),
            Ask::Got(
                ReplyModel::Provider(ProviderAnswerModel::Groups(groups)),
                rest,
            ) => grants_asked(realms.skip(1), with_grants(known, sorted(groups, by_name())), rest),
            Ask::Got(_, rest) => grants_asked(realms.skip(1), known, rest),
        }
    }
}

fn ask_grants(cursor: &mut Replies<'_>, realms: &Vec<String>) -> (r: Result<Attributes, Step>)
    ensures
        answers(
            r,
            final(cursor).rest(),
            grants_asked(realms.deep_view(), AttributesModel::empty(), old(cursor).rest()),
        ),
{
    let ghost whole = realms.deep_view();
    let ghost start = cursor.rest();
    let mut known = Attributes::new();
    let mut i: usize = 0;
    assert(whole.skip(0) =~= whole);
    while i < realms.len()
        invariant
            i <= realms@.len(),
            whole == realms.deep_view(),
            start == old(cursor).rest(),
            grants_asked(whole, AttributesModel::empty(), start) == grants_asked(
                whole.skip(i as int),
                known.deep_view(),
                cursor.rest(),
            ),
        decreases realms@.len() - i,
    {
        assert(whole.skip(i as int).skip(1) =~= whole.skip(i + 1));
        assert(whole.skip(i as int)[0] == realms@[i as int]@);
        match ask(
            cursor,
            Effect::Provider(ProviderCall::ListGroups { realm: realms[i].clone() }),
        )? {
            Reply::Provider(ProviderAnswer::Groups(groups)) => {
                let listed = groups.clone();
                assert(listed.deep_view() =~= groups.deep_view());
                let teams = sort_by_name(listed);
                add_grants(&mut known, &teams);
            },
            _ => {},
        }
        i = i + 1;
    }
    Ok(known)
}

/// The roles that the team of a change grants, where it grants any.
pub open spec fn team_grants(change: PendingChangeModel, grants: AttributesModel) -> Option<
    Seq<Seq<char>>,
> {
    match team_change(change.diff) {
        Some(field) => if grants.dom().contains(field.after) && grants[field.after].len() > 0 {
            Some(grants[field.after])
        } else {
            None
        },
        None => None,
    }
}

/// Changes with the roles that their teams grant, so that whoever approves one sees them.
pub open spec fn change_views(
    changes: Seq<PendingChangeModel>,
    grants: AttributesModel,
) -> Seq<ChangeViewModel> {
    changes.map_values(
        |change: PendingChangeModel|
            ChangeViewModel { change, team_grants: team_grants(change, grants) },
    )
}

fn find_grants(change: &PendingChange, grants: &Attributes) -> (r: Option<Vec<String>>)
    ensures
        r.deep_view() == team_grants(change.deep_view(), grants.deep_view()),
{
    match find_team_change(&change.diff) {
        Some(field) => match grants.get(field.after.as_str()) {
            Some(roles) => if roles.len() > 0 {
                let found = roles.clone();
                assert(found.deep_view() =~= roles.deep_view());
                Some(found)
            } else {
                None
            },
            None => None,
        },
        None => None,
    }
}

/// Adds to each change the roles that its team grants.
pub fn attach_team_grants(changes: &Vec<PendingChange>, grants: &Attributes) -> (r: Vec<ChangeView>)
    ensures
        r.deep_view() == change_views(changes.deep_view(), grants.deep_view()),
{
    let ghost whole = changes.deep_view();
    let ghost known = grants.deep_view();
    let mut r: Vec<ChangeView> = Vec::new();
    let mut i: usize = 0;
    while i < changes.len()
        invariant
            i <= changes@.len(),
            whole == changes.deep_view(),
            known == grants.deep_view(),
            r.deep_view() =~= change_views(whole.take(i as int), known),
        decreases changes@.len() - i,
    {
        let ghost before = r.deep_view();
        let view = ChangeView {
            change: changes[i].clone(),
            team_grants: find_grants(&changes[i], grants),
        };
        let ghost model = view.deep_view();
        r.push(view);
        assert(r.deep_view() =~= before.push(model));
        i = i + 1;
    }
    assert(whole.take(i as int) =~= whole);
    r
}

/// The list is shown, one page of it.
pub open spec fn changes_shown(
    user: SessionUserModel,
    visible: Seq<PendingChangeModel>,
    unseen: usize,
    page: int,
    replies: Seq<ReplyModel>,
) -> Asked<OutcomeModel> {
    let shown = page_slice(visible, page);
    match form_token_asked(replies) {
        Ask::Stop(stop) => Ask::Stop(stop),
        Ask::Got(csrf, rest) => match flash_asked(rest) {
            Ask::Stop(stop) => Ask::Stop(stop),
            Ask::Got(flash, rest) => match grants_asked(
                realms_of(shown),
                AttributesModel::empty(),
                rest,
            ) {
                Ask::Stop(stop) => Ask::Stop(stop),
                Ask::Got(grants, rest) => match badge_asked(user, rest) {
                    Ask::Stop(stop) => Ask::Stop(stop),
                    Ask::Got(pending, rest) => Ask::Got(
                        OutcomeModel::Page(
                            PageModel::Changes(
                                ChangesPageModel {
                                    frame: framed(user, "changes"@, Some(pending)),
                                    changes: change_views(shown, grants),
                                    unseen_resolved_count: unseen,
                                    page: page as usize,
                                    total_pages: page_count(visible.len() as int) as usize,
                                    csrf,
                                    flash,
                                },
                            ),
                        ),
                        rest,
                    ),
                },
            },
        },
    }
}

/// The changes that a user sees are read, that they looked is noted, and a page is shown.
pub open spec fn history_asked(
    user: SessionUserModel,
    page: Option<usize>,
    replies: Seq<ReplyModel>,
) -> Asked<OutcomeModel> {
    match changes_asked(StorageCallModel::ListChanges, replies) {
        Ask::Stop(stop) => Ask::Stop(stop),
        Ask::Got(changes, rest) => {
            let visible = visible_changes(user, changes);
            match look_noted(user, rest) {
                Ask::Stop(stop) => Ask::Stop(stop),
                Ask::Got(seen, rest) => changes_shown(
                    seen,
                    visible,
                    unseen_count(user, visible) as usize,
                    shown_page(page, visible.len() as int),
                    rest,
                ),
            }
        },
    }
}

/// The list of changes, as a user sees it.
#[verifier::opaque]
pub open spec fn changes_listed(
    config: ConfigModel,
    query: ChangesQueryModel,
    replies: Seq<ReplyModel>,
) -> Asked<OutcomeModel> {
    match session_required(config, replies) {
        Ask::Stop(stop) => Ask::Stop(stop),
        Ask::Got(user, rest) => history_asked(user, query.page, rest),
    }
}

/// Lists the changes.
pub fn list_changes(cursor: &mut Replies<'_>, config: &Config, query: &ChangesQuery) -> (r: Result<
    Outcome,
    Step,
>)
    ensures
        answers(
            r,
            final(cursor).rest(),
            changes_listed(config.deep_view(), query.deep_view(), old(cursor).rest()),
        ),
{
    proof {
        reveal(changes_listed);
    }
    let user = require_session(cursor, config)?;
    let changes = ask_changes(cursor, StorageCall::ListChanges)?;
    let visible = keep_visible(&user, changes);
    let unseen_resolved_count = count_unseen(&user, &visible);
    let user = note_look(cursor, user)?;
    let total_pages = count_pages(visible.len());
    let page = choose_page(query.page, visible.len());
    let shown = cut_page(&visible, page);
    let csrf = ask_form_token(cursor)?;
    let flash = ask_flash(cursor)?;
    let grants = ask_grants(cursor, &collect_realms(&shown))?;
    let views = attach_team_grants(&shown, &grants);
    let pending = ask_badge(cursor, &user)?;
    Ok(
        Outcome::Page(
            Page::Changes(
                ChangesPage {
                    frame: frame(user, "changes", Some(pending)),
                    changes: views,
                    unseen_resolved_count,
                    page,
                    total_pages,
                    csrf,
                    flash,
                },
            ),
        ),
    )
}

} // verus!
