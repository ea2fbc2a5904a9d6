//! Edits of a user: an admin's take effect, an operator's wait for approval.

use crate::asks::{ask_audit, ask_save, ask_stamp, audit_asked, save_asked, stamp_asked};
use crate::effects::{Asked, Replies, ReplyModel, Step};
use crate::script::{answers, Ask};
use crate::service::changes::{apply_change_diff, diff_applied};
use crate::session::{good_news, notice, Flash, FlashModel, Role};
use crate::storage::{
    ChangeStatus, FieldChange, FieldChangeModel, PendingChange, PendingChangeModel, StorageCall,
    StorageCallModel,
};
use crate::text::{decimal, decimal_text};
use crate::time::StampModel;
use vstd::prelude::*;

verus! {

/// An edit of a user.
pub struct EditRequest<'a> {
    pub realm: &'a str,
    pub user_id: &'a str,
    /// The user that is edited.
    pub username: &'a str,
    /// The user that edits.
    pub actor: &'a str,
    pub diff: Vec<FieldChange>,
}

/// What an [`EditRequest`] stands for in contracts.
#[verifier::ext_equal]
pub struct EditRequestModel {
    pub realm: Seq<char>,
    pub user_id: Seq<char>,
    pub username: Seq<char>,
    pub actor: Seq<char>,
    pub diff: Seq<FieldChangeModel>,
}

impl<'a> DeepView for EditRequest<'a> {
    type V = EditRequestModel;

    open spec fn deep_view(&self) -> EditRequestModel {
        EditRequestModel {
            realm: self.realm@,
            user_id: self.user_id@,
            username: self.username@,
            actor: self.actor@,
            diff: self.diff.deep_view(),
        }
    }
}

/// An edit takes effect and is recorded.
pub open spec fn edit_applied(edit: EditRequestModel, replies: Seq<ReplyModel>) -> Asked<
    FlashModel,
> {
    match diff_applied(edit.realm, edit.user_id, edit.diff, replies) {
        Ask::Stop(stop) => Ask::Stop(stop),
        Ask::Got(_, rest) => match audit_asked(
            edit.actor,
            "edit_user"@,
            edit.realm,
            Some(edit.username),
            decimal(edit.diff.len()) + " field(s) changed"@,
            rest,
        ) {
            Ask::Stop(stop) => Ask::Stop(stop),
            Ask::Got(_, rest) => Ask::Got(good_news("User updated."@), rest),
        },
    }
}

/// The change that an edit proposes.
pub open spec fn proposal(edit: EditRequestModel, stamp: StampModel) -> PendingChangeModel {
    PendingChangeModel {
        id: stamp.id,
        realm: edit.realm,
        user_id: edit.user_id,
        username: edit.username,
        proposed_by: edit.actor,
        proposed_at: stamp.at,
        status: ChangeStatus::Pending,
        resolved_by: None,
        resolved_at: None,
        reject_reason: None,
        diff: edit.diff,
        action: "edit_user"@,
    }
}

/// An edit is put into the queue, and that is recorded.
pub open spec fn edit_proposed(edit: EditRequestModel, replies: Seq<ReplyModel>) -> Asked<
    FlashModel,
> {
    match stamp_asked(replies) {
        Ask::Stop(stop) => Ask::Stop(stop),
        Ask::Got(stamp, rest) => match save_asked(
            StorageCallModel::SaveChange(proposal(edit, stamp)),
            rest,
        ) {
            Ask::Stop(stop) => Ask::Stop(stop),
            Ask::Got(_, rest) => match audit_asked(
                edit.actor,
                "propose_change"@,
                edit.realm,
                Some(edit.username),
                "change "@ + stamp.id + " pending approval"@,
                rest,
            ) {
                Ask::Stop(stop) => Ask::Stop(stop),
                Ask::Got(_, rest) => Ask::Got(
                    notice("Change proposed and queued for admin approval."@),
                    rest,
                ),
            },
        },
    }
}

/// An admin's edit takes effect; an operator's is put into the queue.
pub open spec fn edit_made(role: Role, edit: EditRequestModel, replies: Seq<ReplyModel>) -> Asked<
    FlashModel,
> {
    match role {
        Role::Admin => edit_applied(edit, replies),
        Role::Operator => edit_proposed(edit, replies),
    }
}

/// Lets an admin's edit take effect, and puts an operator's into the queue. Returns the
/// message for the next page.
pub fn propose_or_apply(cursor: &mut Replies<'_>, role: Role, req: EditRequest<'_>) -> (r: Result<
    Flash,
    Step,
>)
    ensures
        answers(r, final(cursor).rest(), edit_made(role, req.deep_view(), old(cursor).rest())),
{
    match role {
        Role::Admin => {
            apply_change_diff(cursor, req.realm, req.user_id, &req.diff)?;
            ask_audit(
                cursor,
                req.actor,
                "edit_user",
                req.realm,
                Some(req.username.to_string()),
                decimal_text(req.diff.len() as u64).concat(" field(s) changed"),
            )?;
            Ok(Flash::success("User updated.".to_string()))
        },
        Role::Operator => {
            let stamp = ask_stamp(cursor)?;
            let detail = "change ".to_string().concat(stamp.id.as_str()).concat(
                " pending approval",
            );
            ask_save(
                cursor,
                StorageCall::SaveChange(
                    PendingChange {
                        id: stamp.id,
                        realm: req.realm.to_string(),
                        user_id: req.user_id.to_string(),
                        username: req.username.to_string(),
                        proposed_by: req.actor.to_string(),
                        proposed_at: stamp.at,
                        status: ChangeStatus::Pending,
                        resolved_by: None,
                        resolved_at: None,
                        reject_reason: None,
                        diff: req.diff,
                        action: "edit_user".to_string(),
                    },
                ),
            )?;
            ask_audit(
                cursor,
                req.actor,
                "propose_change",
                req.realm,
                Some(req.username.to_string()),
                detail,
            )?;
            Ok(Flash::warning("Change proposed and queued for admin approval.".to_string()))
        },
    }
}

} // verus!
