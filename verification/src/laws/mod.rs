//! What holds of the portal as a whole.
//!
//! A request is served by performing one effect after another: the effect at place `k` is the
//! one that is needed after the first `k` replies, and reply `k` is what it brought. The laws
//! speak of the replies so far and of the effects that they answer.

pub mod access;
pub mod audit;
pub mod course;
pub mod creation;
pub mod edits;
pub mod forms;
pub mod identity;
pub mod keycloak;
pub mod keys;
pub mod orders;
pub mod pages;
pub mod queue;
pub mod records;
pub mod sessions;
pub mod settings;
pub mod steady;
pub mod texts;
pub mod wire;

use crate::config::ConfigModel;
use crate::effects::{EffectModel, ReplyModel, StepModel};
use crate::portal::{response, RequestModel};
use crate::provider::is_mutation;
use vstd::prelude::*;

verus! {

/// Serving `request` brought `replies`, and needs `effect` next.
pub open spec fn performs(
    config: ConfigModel,
    request: RequestModel,
    replies: Seq<ReplyModel>,
    effect: EffectModel,
) -> bool {
    response(config, request, replies) == StepModel::Perform(effect)
}

/// The effect changes an account at the identity provider.
pub open spec fn mutates(effect: EffectModel) -> bool {
    effect matches EffectModel::Provider(call) && is_mutation(call)
}

/// The effect writes to the list of changes.
pub open spec fn resolves(effect: EffectModel) -> bool {
    effect matches EffectModel::Storage(call) && (call is SaveChange || call is DeleteChange)
}

/// The effect writes to the audit log.
pub open spec fn records(effect: EffectModel) -> bool {
    effect matches EffectModel::Storage(call) && call is AppendAudit
}

/// The request asks for a page, or signs in or out.
pub open spec fn only_looks(request: RequestModel) -> bool {
    match request {
        RequestModel::BulkEdit(_) => false,
        RequestModel::CreateUser(_) => false,
        RequestModel::EditUser { .. } => false,
        RequestModel::AssignRole { .. } => false,
        RequestModel::RemoveRole { .. } => false,
        RequestModel::SetPassword { .. } => false,
        RequestModel::Approve { .. } => false,
        RequestModel::Reject { .. } => false,
        RequestModel::Cancel { .. } => false,
        RequestModel::CreateTeam(_) => false,
        RequestModel::EditClient { .. } => false,
        RequestModel::GrantAccess(_) => false,
        RequestModel::RevokeAccess(_) => false,
        RequestModel::EmergencyPromote { .. } => false,
        _ => true,
    }
}

/// To skip some replies and then some more is to skip them all.
pub broadcast proof fn lemma_skip_skip(replies: Seq<ReplyModel>, n: int, m: int)
    requires
        0 <= n,
        0 <= m,
        n + m <= replies.len(),
    ensures
        #[trigger] replies.skip(n).skip(m) == replies.skip(n + m),
{
    assert(replies.skip(n).skip(m) =~= replies.skip(n + m));
}

/// To skip no replies is to keep them all.
pub broadcast proof fn lemma_skip_none(replies: Seq<ReplyModel>, n: int)
    requires
        n == 0,
    ensures
        #[trigger] replies.skip(n) == replies,
{
    assert(replies.skip(n) =~= replies);
}

pub broadcast group group_skip {
    lemma_skip_skip,
    lemma_skip_none,
}

} // verus!
