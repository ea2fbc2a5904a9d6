//! The audit log.

use crate::asks::{ask_entries, ask_time, entries_asked, time_asked};
use crate::config::{Config, ConfigModel};
use crate::effects::{Asked, Outcome, OutcomeModel, Replies, ReplyModel, Step};
use crate::lists::sorted;
use crate::pages::{AuditPage, AuditPageModel, Page, PageModel};
use crate::routes::{
    admin_required, frame, framed, pending_asked, pending_changes_count, require_admin,
};
use crate::routes::admin::{date_text, write_date};
use crate::routes::dashboard::{newest_first, sort_newest_first};
use crate::script::{answers, Ask};
use crate::session::SessionUserModel;
use crate::storage::{StorageCall, StorageCallModel};
use vstd::prelude::*;

verus! {

/// The day whose entries are shown.
#[derive(Debug, PartialEq)]
pub struct AuditQuery {
    pub date: Option<String>,
}

/// What a [`AuditQuery`] stands for in contracts.
#[verifier::ext_equal]
pub struct AuditQueryModel {
    pub date: Option<Seq<char>>,
}

impl DeepView for AuditQuery {
    type V = AuditQueryModel;

    open spec fn deep_view(&self) -> AuditQueryModel {
        AuditQueryModel {
            date: self.date.deep_view(),
        }
    }
}

impl Clone for AuditQuery {
    fn clone(&self) -> (r: Self)
        ensures
            r.deep_view() == self.deep_view(),
    {
        AuditQuery {
            date: self.date.clone(),
        }
    }
}

/// The entries of a day are shown, the newest first.
pub open spec fn day_shown(
    user: SessionUserModel,
    date: Seq<char>,
    replies: Seq<ReplyModel>,
) -> Asked<OutcomeModel> {
    match entries_asked(StorageCallModel::ListAudit { date: Some(date) }, replies) {
        Ask::Stop(stop) => Ask::Stop(stop),
        Ask::Got(entries, rest) => match pending_asked(rest) {
            Ask::Stop(stop) => Ask::Stop(stop),
            Ask::Got(pending, rest) => Ask::Got(
                OutcomeModel::Page(
                    PageModel::Audit(
                        AuditPageModel {
                            frame: framed(user, "audit"@, Some(pending)),
                            entries: sorted(entries, newest_first()),
                            selected_date: date,
                        },
                    ),
                ),
                rest,
            ),
        },
    }
}

/// An admin sees the entries of a day, today's where none is named.
#[verifier::opaque]
pub open spec fn audit_listed(
    config: ConfigModel,
    query: AuditQueryModel,
    replies: Seq<ReplyModel>,
) -> Asked<OutcomeModel> {
    match admin_required(config, replies) {
        Ask::Stop(stop) => Ask::Stop(stop),
        Ask::Got(user, rest) => match time_asked(rest) {
            Ask::Stop(stop) => Ask::Stop(stop),
            Ask::Got(now, rest) => day_shown(
                user,
                match query.date {
                    Some(date) => date,
                    None => date_text(now),
                },
                rest,
            ),
        },
    }
}

/// Lists the entries of a day.
pub fn list_audit(cursor: &mut Replies<'_>, config: &Config, query: &AuditQuery) -> (r: Result<
    Outcome,
    Step,
>)
    ensures
        answers(
            r,
            final(cursor).rest(),
            audit_listed(config.deep_view(), query.deep_view(), old(cursor).rest()),
        ),
{
    proof {
        reveal(audit_listed);
    }
    let user = require_admin(cursor, config)?;
    let today = write_date(&ask_time(cursor)?);
    let selected_date = match &query.date {
        Some(date) => date.clone(),
        None => today,
    };
    let entries = ask_entries(cursor, StorageCall::ListAudit { date: Some(selected_date.clone()) })?;
    let pending = pending_changes_count(cursor)?;
    Ok(
        Outcome::Page(
            Page::Audit(
                AuditPage {
                    frame: frame(user, "audit", Some(pending)),
                    entries: sort_newest_first(entries),
                    selected_date,
                },
            ),
        ),
    )
}

} // verus!
