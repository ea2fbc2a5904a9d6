//! The order in which lists are shown.

use crate::lists::{is_order, lemma_sorted, sorted};
use crate::outside::lowercase_of;
use crate::pages::TeamCountModel;
use crate::provider::{GroupModel, RoleModel};
use crate::routes::by_name;
use crate::routes::dashboard::{largest_first, newest_first};
use crate::routes::users::by_folded_name;
use crate::storage::{AuditEntryModel, PendingChangeModel};
use crate::storage::s3::{newest_proposed, oldest_first};
use crate::text::{in_order, lemma_in_order};
use crate::time::later;
use vstd::prelude::*;

verus! {

pub(crate) proof fn lemma_texts_are_ordered()
    ensures
        forall|a: Seq<char>, b: Seq<char>| #[trigger] in_order(a, b) || in_order(b, a),
        forall|a: Seq<char>, b: Seq<char>, c: Seq<char>| #[trigger]
            in_order(a, b) && #[trigger] in_order(b, c) ==> in_order(a, c),
{
    assert forall|a: Seq<char>, b: Seq<char>| #[trigger] in_order(a, b) || in_order(b, a) by {
        lemma_in_order(a, b, a);
    }
    assert forall|a: Seq<char>, b: Seq<char>, c: Seq<char>| #[trigger]
        in_order(a, b) && #[trigger] in_order(b, c) implies in_order(a, c) by {
        lemma_in_order(a, b, c);
    }
}

/// Teams are listed by name: all of them, and none before one whose name comes first.
pub proof fn lemma_teams_are_listed_by_name(groups: Seq<GroupModel>, i: int, j: int)
    requires
        0 <= i <= j < groups.len(),
    ensures
        sorted(groups, by_name()).to_multiset() == groups.to_multiset(),
        in_order(sorted(groups, by_name())[i].name, sorted(groups, by_name())[j].name),
{
    lemma_texts_are_ordered();
    assert(is_order(by_name()));
    lemma_sorted(groups, by_name());
    assert(by_name()(sorted(groups, by_name())[i], sorted(groups, by_name())[j]));
}

/// Roles are listed by name, whatever the case of its letters.
pub proof fn lemma_roles_are_listed_by_name(roles: Seq<RoleModel>, i: int, j: int)
    requires
        0 <= i <= j < roles.len(),
    ensures
        sorted(roles, by_folded_name()).to_multiset() == roles.to_multiset(),
        in_order(
            lowercase_of(sorted(roles, by_folded_name())[i].name),
            lowercase_of(sorted(roles, by_folded_name())[j].name),
        ),
{
    lemma_texts_are_ordered();
    assert(is_order(by_folded_name()));
    lemma_sorted(roles, by_folded_name());
    assert(by_folded_name()(
        sorted(roles, by_folded_name())[i],
        sorted(roles, by_folded_name())[j],
    ));
}

/// Changes are listed with the last proposed first.
pub proof fn lemma_changes_are_listed_newest_first(
    changes: Seq<PendingChangeModel>,
    i: int,
    j: int,
)
    requires
        0 <= i <= j < changes.len(),
    ensures
        sorted(changes, newest_proposed()).to_multiset() == changes.to_multiset(),
        !later(
            sorted(changes, newest_proposed())[j].proposed_at,
            sorted(changes, newest_proposed())[i].proposed_at,
        ),
{
    assert(is_order(newest_proposed()));
    lemma_sorted(changes, newest_proposed());
    assert(newest_proposed()(
        sorted(changes, newest_proposed())[i],
        sorted(changes, newest_proposed())[j],
    ));
}

/// A day of the audit log is read with the first entry first, and shown with the last first.
pub proof fn lemma_entries_are_listed_by_time(entries: Seq<AuditEntryModel>, i: int, j: int)
    requires
        0 <= i <= j < entries.len(),
    ensures
        sorted(entries, oldest_first()).to_multiset() == entries.to_multiset(),
        sorted(entries, newest_first()).to_multiset() == entries.to_multiset(),
        !later(
            sorted(entries, oldest_first())[i].timestamp,
            sorted(entries, oldest_first())[j].timestamp,
        ),
        !later(
            sorted(entries, newest_first())[j].timestamp,
            sorted(entries, newest_first())[i].timestamp,
        ),
{
    assert(is_order(oldest_first()));
    assert(is_order(newest_first()));
    lemma_sorted(entries, oldest_first());
    lemma_sorted(entries, newest_first());
    assert(oldest_first()(
        sorted(entries, oldest_first())[i],
        sorted(entries, oldest_first())[j],
    ));
    assert(newest_first()(
        sorted(entries, newest_first())[i],
        sorted(entries, newest_first())[j],
    ));
}

/// The teams of the dashboard are listed with the largest first.
pub proof fn lemma_teams_are_listed_by_size(teams: Seq<TeamCountModel>, i: int, j: int)
    requires
        0 <= i <= j < teams.len(),
    ensures
        sorted(teams, largest_first()).to_multiset() == teams.to_multiset(),
        sorted(teams, largest_first())[i].count >= sorted(teams, largest_first())[j].count,
{
    assert(is_order(largest_first()));
    lemma_sorted(teams, largest_first());
    assert(largest_first()(
        sorted(teams, largest_first())[i],
        sorted(teams, largest_first())[j],
    ));
}

} // verus!
