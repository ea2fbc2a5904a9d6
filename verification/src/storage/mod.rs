//! What is kept: proposed changes and the audit log.

pub mod s3;

use crate::time::Timestamp;
use vstd::prelude::*;

verus! {

/// Where a proposed change stands.
#[derive(Clone, Copy, Debug, PartialEq, Eq, Structural)]
pub enum ChangeStatus {
    Pending,
    Approved,
    Rejected,
}

impl DeepView for ChangeStatus {
    type V = ChangeStatus;

    open spec fn deep_view(&self) -> ChangeStatus {
        *self
    }
}

/// One field of a user, before and after.
#[derive(Debug, PartialEq)]
pub struct FieldChange {
    pub field: String,
    pub before: Option<String>,
    pub after: String,
}

/// What a [`FieldChange`] stands for in contracts.
#[verifier::ext_equal]
pub struct FieldChangeModel {
    pub field: Seq<char>,
    pub before: Option<Seq<char>>,
    pub after: Seq<char>,
}

impl DeepView for FieldChange {
    type V = FieldChangeModel;

    open spec fn deep_view(&self) -> FieldChangeModel {
        FieldChangeModel {
            field: self.field.deep_view(),
            before: self.before.deep_view(),
            after: self.after.deep_view(),
        }
    }
}

impl Clone for FieldChange {
    fn clone(&self) -> (r: Self)
        ensures
            r.deep_view() == self.deep_view(),
    {
        FieldChange {
            field: self.field.clone(),
            before: self.before.clone(),
            after: self.after.clone(),
        }
    }
}

/// A change that was proposed, and what became of it.
#[derive(Debug, PartialEq)]
pub struct PendingChange {
    pub id: String,
    pub realm: String,
    pub user_id: String,
    pub username: String,
    pub proposed_by: String,
    pub proposed_at: Timestamp,
    pub status: ChangeStatus,
    pub resolved_by: Option<String>,
    pub resolved_at: Option<Timestamp>,
    pub reject_reason: Option<String>,
    pub diff: Vec<FieldChange>,
    pub action: String,
}

/// What a [`PendingChange`] stands for in contracts.
#[verifier::ext_equal]
pub struct PendingChangeModel {
    pub id: Seq<char>,
    pub realm: Seq<char>,
    pub user_id: Seq<char>,
    pub username: Seq<char>,
    pub proposed_by: Seq<char>,
    pub proposed_at: Timestamp,
    pub status: ChangeStatus,
    pub resolved_by: Option<Seq<char>>,
    pub resolved_at: Option<Timestamp>,
    pub reject_reason: Option<Seq<char>>,
    pub diff: Seq<FieldChangeModel>,
    pub action: Seq<char>,
}

impl DeepView for PendingChange {
    type V = PendingChangeModel;

    open spec fn deep_view(&self) -> PendingChangeModel {
        PendingChangeModel {
            id: self.id.deep_view(),
            realm: self.realm.deep_view(),
            user_id: self.user_id.deep_view(),
            username: self.username.deep_view(),
            proposed_by: self.proposed_by.deep_view(),
            proposed_at: self.proposed_at,
            status: self.status,
            resolved_by: self.resolved_by.deep_view(),
            resolved_at: self.resolved_at,
            reject_reason: self.reject_reason.deep_view(),
            diff: self.diff.deep_view(),
            action: self.action.deep_view(),
        }
    }
}

impl Clone for PendingChange {
    fn clone(&self) -> (r: Self)
        ensures
            r.deep_view() == self.deep_view(),
    {
        let r = PendingChange {
            id: self.id.clone(),
            realm: self.realm.clone(),
            user_id: self.user_id.clone(),
            username: self.username.clone(),
            proposed_by: self.proposed_by.clone(),
            proposed_at: self.proposed_at,
            status: self.status,
            resolved_by: self.resolved_by.clone(),
            resolved_at: self.resolved_at,
            reject_reason: self.reject_reason.clone(),
            diff: self.diff.clone(),
            action: self.action.clone(),
        };
        assert(r.diff.deep_view() =~= self.diff.deep_view());
        r
    }
}

/// How an audited action ended.
#[derive(Debug, PartialEq)]
pub enum AuditOutcome {
    Success,
    Failure(String),
}

/// What an [`AuditOutcome`] stands for in contracts.
#[verifier::ext_equal]
pub enum AuditOutcomeModel {
    Success,
    Failure(Seq<char>),
}

impl DeepView for AuditOutcome {
    type V = AuditOutcomeModel;

    open spec fn deep_view(&self) -> AuditOutcomeModel {
        match self {
            AuditOutcome::Success => AuditOutcomeModel::Success,
            AuditOutcome::Failure(v) => AuditOutcomeModel::Failure(v.deep_view()),
        }
    }
}

impl Clone for AuditOutcome {
    fn clone(&self) -> (r: Self)
        ensures
            r.deep_view() == self.deep_view(),
    {
        match self {
            AuditOutcome::Success => AuditOutcome::Success,
            AuditOutcome::Failure(v) => AuditOutcome::Failure(v.clone()),
        }
    }
}

/// One entry of the audit log.
#[derive(Debug, PartialEq)]
pub struct AuditEntry {
    pub id: String,
    pub timestamp: Timestamp,
    pub actor: String,
    pub action: String,
    pub target_realm: String,
    pub target_user: Option<String>,
    pub detail: String,
    pub outcome: AuditOutcome,
}

/// What a [`AuditEntry`] stands for in contracts.
#[verifier::ext_equal]
pub struct AuditEntryModel {
    pub id: Seq<char>,
    pub timestamp: Timestamp,
    pub actor: Seq<char>,
    pub action: Seq<char>,
    pub target_realm: Seq<char>,
    pub target_user: Option<Seq<char>>,
    pub detail: Seq<char>,
    pub outcome: AuditOutcomeModel,
}

impl DeepView for AuditEntry {
    type V = AuditEntryModel;

    open spec fn deep_view(&self) -> AuditEntryModel {
        AuditEntryModel {
            id: self.id.deep_view(),
            timestamp: self.timestamp,
            actor: self.actor.deep_view(),
            action: self.action.deep_view(),
            target_realm: self.target_realm.deep_view(),
            target_user: self.target_user.deep_view(),
            detail: self.detail.deep_view(),
            outcome: self.outcome.deep_view(),
        }
    }
}

impl Clone for AuditEntry {
    fn clone(&self) -> (r: Self)
        ensures
            r.deep_view() == self.deep_view(),
    {
        AuditEntry {
            id: self.id.clone(),
            timestamp: self.timestamp,
            actor: self.actor.clone(),
            action: self.action.clone(),
            target_realm: self.target_realm.clone(),
            target_user: self.target_user.clone(),
            detail: self.detail.clone(),
            outcome: self.outcome.clone(),
        }
    }
}

/// The action of a stored change that names none.
pub fn default_action() -> (r: String)
    ensures
        r@ == "edit_user"@,
{
    "edit_user".to_string()
}

/// A change is proposed, and nobody has resolved it.
pub open spec fn is_open(change: PendingChangeModel) -> bool {
    change.status == ChangeStatus::Pending
}

// ── Requests and answers ─────────────────────────────────────────────────────

/// What can be asked of the storage.
#[derive(Debug, PartialEq)]
pub enum StorageCall {
    SaveChange(PendingChange),
    GetChange { id: String },
    ListChanges,
    ListPendingChanges,
    DeleteChange { id: String },
    AppendAudit(AuditEntry),
    /// The entries of a day; of the current day, where none is named.
    ListAudit { date: Option<String> },
}

/// What a [`StorageCall`] stands for in contracts.
#[verifier::ext_equal]
pub enum StorageCallModel {
    SaveChange(PendingChangeModel),
    GetChange { id: Seq<char> },
    ListChanges,
    ListPendingChanges,
    DeleteChange { id: Seq<char> },
    AppendAudit(AuditEntryModel),
    ListAudit { date: Option<Seq<char>> },
}

impl DeepView for StorageCall {
    type V = StorageCallModel;

    open spec fn deep_view(&self) -> StorageCallModel {
        match self {
            StorageCall::SaveChange(v) => StorageCallModel::SaveChange(v.deep_view()),
            StorageCall::GetChange { id } => StorageCallModel::GetChange { id: id.deep_view() },
            StorageCall::ListChanges => StorageCallModel::ListChanges,
            StorageCall::ListPendingChanges => StorageCallModel::ListPendingChanges,
            StorageCall::DeleteChange { id } => StorageCallModel::DeleteChange {
                id: id.deep_view(),
            },
            StorageCall::AppendAudit(v) => StorageCallModel::AppendAudit(v.deep_view()),
            StorageCall::ListAudit { date } => StorageCallModel::ListAudit {
                date: date.deep_view(),
            },
        }
    }
}

impl Clone for StorageCall {
    fn clone(&self) -> (r: Self)
        ensures
            r.deep_view() == self.deep_view(),
    {
        match self {
            StorageCall::SaveChange(v) => StorageCall::SaveChange(v.clone()),
            StorageCall::GetChange { id } => StorageCall::GetChange { id: id.clone() },
            StorageCall::ListChanges => StorageCall::ListChanges,
            StorageCall::ListPendingChanges => StorageCall::ListPendingChanges,
            StorageCall::DeleteChange { id } => StorageCall::DeleteChange { id: id.clone() },
            StorageCall::AppendAudit(v) => StorageCall::AppendAudit(v.clone()),
            StorageCall::ListAudit { date } => StorageCall::ListAudit { date: date.clone() },
        }
    }
}

/// What the storage answers.
#[derive(Debug, PartialEq)]
pub enum StorageAnswer {
    Failed(String),
    Done,
    Change(Option<PendingChange>),
    Changes(Vec<PendingChange>),
    Entries(Vec<AuditEntry>),
}

/// What a [`StorageAnswer`] stands for in contracts.
#[verifier::ext_equal]
pub enum StorageAnswerModel {
    Failed(Seq<char>),
    Done,
    Change(Option<PendingChangeModel>),
    Changes(Seq<PendingChangeModel>),
    Entries(Seq<AuditEntryModel>),
}

impl DeepView for StorageAnswer {
    type V = StorageAnswerModel;

    open spec fn deep_view(&self) -> StorageAnswerModel {
        match self {
            StorageAnswer::Failed(v) => StorageAnswerModel::Failed(v.deep_view()),
            StorageAnswer::Done => StorageAnswerModel::Done,
            StorageAnswer::Change(v) => StorageAnswerModel::Change(v.deep_view()),
            StorageAnswer::Changes(v) => StorageAnswerModel::Changes(v.deep_view()),
            StorageAnswer::Entries(v) => StorageAnswerModel::Entries(v.deep_view()),
        }
    }
}

impl Clone for StorageAnswer {
    fn clone(&self) -> (r: Self)
        ensures
            r.deep_view() == self.deep_view(),
    {
        let r = match self {
            StorageAnswer::Failed(v) => StorageAnswer::Failed(v.clone()),
            StorageAnswer::Done => StorageAnswer::Done,
            StorageAnswer::Change(v) => StorageAnswer::Change(v.clone()),
            StorageAnswer::Changes(v) => StorageAnswer::Changes(v.clone()),
            StorageAnswer::Entries(v) => StorageAnswer::Entries(v.clone()),
        };
        assert(r.deep_view() =~~= self.deep_view());
        r
    }
}

} // verus!
