//! The list of changes.

use super::{groups_found, lemma_first, lemma_none, lemma_signed_in_goes_on, signed_in};
use super::overviews::changes_seen;
use super::pages::{badge, calls, changes_found, form_ready, is_frame, readies_form, stores};
use crate::asks::asked;
use crate::attributes::AttributesModel;
use crate::config::ConfigModel;
use crate::effects::{EffectModel, OutcomeModel, ReplyModel, StepModel};
use crate::laws::orders::lemma_texts_are_ordered;
use crate::laws::performs;
use crate::lists::{in_sequence, is_order, lemma_sorted, sorted};
use crate::pages::{ChangesPageModel, PageModel};
use crate::portal::{response, RequestModel};
use crate::provider::{GroupModel, ProviderCallModel};
use crate::routes::{badge_asked, by_name, framed};
use crate::routes::changes::{
    by_text, change_views, changes_listed, changes_shown, deduped, grants_asked, history_asked,
    page_count, page_slice, realms_of, resolved_since, shown_page, team_grants, unseen_count,
    visible_changes, with_grants, ChangesQueryModel,
};
use crate::script::Ask;
use crate::service::changes::team_change;
use crate::session::{FlashModel, Role, SessionUserModel};
use crate::storage::{ChangeStatus, FieldChangeModel, PendingChangeModel, StorageCallModel};
use crate::text::{in_order, lemma_in_order};
use crate::time::Timestamp;
use vstd::prelude::*;

verus! {

broadcast use lemma_signed_in_goes_on;

// ── Realms ───────────────────────────────────────────────────────────────────

proof fn lemma_each_once(texts: Seq<Seq<char>>)
    requires
        forall|i: int, j: int|
            0 <= i <= j < texts.len() ==> in_order(#[trigger] texts[i], #[trigger] texts[j]),
    ensures
        texts.len() > 0 ==> deduped(texts).len() > 0 && deduped(texts).last() == texts.last(),
        forall|i: int| 0 <= i < texts.len() ==> deduped(texts).contains(#[trigger] texts[i]),
        forall|k: int| 0 <= k < deduped(texts).len() ==> texts.contains(#[trigger] deduped(texts)[k]),
        forall|j: int, k: int|
            0 <= j < k < deduped(texts).len() ==> in_order(
                #[trigger] deduped(texts)[j],
                #[trigger] deduped(texts)[k],
            ) && deduped(texts)[j] != deduped(texts)[k],
    decreases texts.len(),
{
    if texts.len() > 0 {
        let front = deduped(texts.drop_last());
        let all = deduped(texts);
        lemma_each_once(texts.drop_last());
        assert forall|k: int| 0 <= k < all.len() implies texts.contains(#[trigger] all[k]) by {
            if k < front.len() {
                assert(texts.drop_last().contains(front[k]));
                let i = choose|i: int|
                    0 <= i < texts.len() - 1 && texts.drop_last()[i] == front[k];
                assert(texts[i] == all[k]);
            } else {
                assert(texts[texts.len() - 1] == all[k]);
            }
        }
        assert forall|i: int| 0 <= i < texts.len() implies all.contains(#[trigger] texts[i]) by {
            if i < texts.len() - 1 {
                assert(texts.drop_last()[i] == texts[i]);
                let k = choose|k: int| 0 <= k < front.len() && front[k] == texts[i];
                assert(all[k] == texts[i]);
            } else {
                assert(all[all.len() - 1] == texts[i]);
            }
        }
        assert forall|j: int, k: int| 0 <= j < k < all.len() implies in_order(
            #[trigger] all[j],
            #[trigger] all[k],
        ) && all[j] != all[k] by {
            if k == front.len() {
                let i = choose|i: int| 0 <= i < texts.len() - 1 && texts.drop_last()[i] == front[j];
                assert(texts.drop_last().contains(front[j]));
                assert(texts[i] == all[j]);
                assert(in_order(texts[i], texts[texts.len() - 1]));
                if all[j] == all[k] {
                    assert(in_order(front[j], front.last()));
                    assert(in_order(texts[texts.len() - 2], texts[texts.len() - 1]));
                    assert(front.last() == texts[texts.len() - 2]);
                    lemma_in_order(front.last(), all[k], all[k]);
                }
            } else {
                assert(all[j] == front[j] && all[k] == front[k]);
            }
        }
    }
}

/// The realms that some changes are about are named in order, each once, and no others.
pub proof fn lemma_every_realm_is_named_once(changes: Seq<PendingChangeModel>)
    ensures
        forall|i: int|
            0 <= i < changes.len() ==> realms_of(changes).contains((#[trigger] changes[i]).realm),
        forall|k: int|
            0 <= k < realms_of(changes).len() ==> exists|i: int|
                0 <= i < changes.len() && (#[trigger] changes[i]).realm
                    == #[trigger] realms_of(changes)[k],
        forall|j: int, k: int|
            0 <= j < k < realms_of(changes).len() ==> in_order(
                #[trigger] realms_of(changes)[j],
                #[trigger] realms_of(changes)[k],
            ) && realms_of(changes)[j] != realms_of(changes)[k],
{
    broadcast use vstd::seq_lib::group_to_multiset_ensures;

    let texts = changes.map_values(|c: PendingChangeModel| c.realm);
    let all = sorted(texts, by_text());
    lemma_texts_are_ordered();
    assert(is_order(by_text()));
    lemma_sorted(texts, by_text());
    assert forall|i: int, j: int| 0 <= i <= j < all.len() implies in_order(
        #[trigger] all[i],
        #[trigger] all[j],
    ) by {
        assert(by_text()(all[i], all[j]));
    }
    lemma_each_once(all);
    assert forall|i: int| 0 <= i < changes.len() implies realms_of(changes).contains(
        (#[trigger] changes[i]).realm,
    ) by {
        assert(texts[i] == changes[i].realm);
        assert(texts.contains(changes[i].realm));
        assert(texts.to_multiset().count(changes[i].realm) > 0);
        assert(all.contains(changes[i].realm));
        let k = choose|k: int| 0 <= k < all.len() && all[k] == changes[i].realm;
        assert(deduped(all).contains(all[k]));
    }
    assert forall|k: int| 0 <= k < realms_of(changes).len() implies exists|i: int|
        0 <= i < changes.len() && (#[trigger] changes[i]).realm
            == #[trigger] realms_of(changes)[k] by {
        assert(all.contains(deduped(all)[k]));
        assert(all.to_multiset().count(deduped(all)[k]) > 0);
        assert(texts.contains(deduped(all)[k]));
        let i = choose|i: int| 0 <= i < texts.len() && texts[i] == deduped(all)[k];
        assert(changes[i].realm == realms_of(changes)[k]);
    }
}

// ── Roles that teams grant ───────────────────────────────────────────────────

/// The replies that hold the groups of some realms.
pub open spec fn lists_found(lists: Seq<Seq<GroupModel>>) -> Seq<ReplyModel> {
    lists.map_values(|groups: Seq<GroupModel>| groups_found(groups))
}

spec fn collected(known: AttributesModel, lists: Seq<Seq<GroupModel>>) -> AttributesModel
    decreases lists.len(),
{
    if lists.len() == 0 {
        known
    } else {
        collected(with_grants(known, sorted(lists[0], by_name())), lists.skip(1))
    }
}

proof fn lemma_every_realm_is_asked(
    realms: Seq<Seq<char>>,
    known: AttributesModel,
    lists: Seq<Seq<GroupModel>>,
    rest: Seq<ReplyModel>,
)
    requires
        lists.len() <= realms.len(),
        lists.len() == realms.len() || rest.len() == 0,
    ensures
        grants_asked(realms, known, lists_found(lists) + rest) == (if lists.len() == realms.len() {
            Ask::Got(collected(known, lists), rest)
        } else {
            Ask::Stop(
                StepModel::Perform(
                    EffectModel::Provider(
                        ProviderCallModel::ListGroups { realm: realms[lists.len() as int] },
                    ),
                ),
            )
        }),
    decreases realms.len(),
{
    let all = lists_found(lists) + rest;
    if lists.len() == 0 {
        assert(all =~= rest);
    } else {
        assert(all[0] == groups_found(lists[0]));
        assert(all.skip(1) =~= lists_found(lists.skip(1)) + rest);
        lemma_every_realm_is_asked(
            realms.skip(1),
            with_grants(known, sorted(lists[0], by_name())),
            lists.skip(1),
            rest,
        );
    }
}

/// Some group with this id is listed, and every such group grants these roles.
pub open spec fn all_grant(
    lists: Seq<Seq<GroupModel>>,
    id: Seq<char>,
    roles: Seq<Seq<char>>,
) -> bool {
    &&& exists|k: int, i: int|
        0 <= k < lists.len() && 0 <= i < lists[k].len() && (#[trigger] lists[k][i]).id == id
    &&& forall|k: int, i: int|
        0 <= k < lists.len() && 0 <= i < lists[k].len() && (#[trigger] lists[k][i]).id == id
            ==> lists[k][i].realm_roles == roles
}

/// No group with this id is listed.
pub open spec fn none_grants(lists: Seq<Seq<GroupModel>>, id: Seq<char>) -> bool {
    forall|k: int, i: int|
        0 <= k < lists.len() && 0 <= i < lists[k].len() ==> (#[trigger] lists[k][i]).id != id
}

proof fn lemma_with_grants(
    known: AttributesModel,
    groups: Seq<GroupModel>,
    id: Seq<char>,
    roles: Seq<Seq<char>>,
)
    requires
        forall|i: int|
            0 <= i < groups.len() && (#[trigger] groups[i]).id == id ==> groups[i].realm_roles
                == roles,
        known.dom().contains(id) ==> known[id] == roles,
    ensures
        with_grants(known, groups).dom().contains(id) ==> with_grants(known, groups)[id] == roles,
        with_grants(known, groups).dom().contains(id) <==> known.dom().contains(id) || exists|
            i: int,
        |
            0 <= i < groups.len() && (#[trigger] groups[i]).id == id,
    decreases groups.len(),
{
    if groups.len() > 0 {
        let front = groups.drop_last();
        assert forall|i: int| 0 <= i < front.len() && (#[trigger] front[i]).id
            == id implies front[i].realm_roles == roles by {
            assert(front[i] == groups[i]);
        }
        lemma_with_grants(known, front, id, roles);
        if exists|i: int| 0 <= i < groups.len() && (#[trigger] groups[i]).id == id {
            let i = choose|i: int| 0 <= i < groups.len() && (#[trigger] groups[i]).id == id;
            if i < front.len() {
                assert(front[i].id == id);
            }
        }
        if exists|i: int| 0 <= i < front.len() && (#[trigger] front[i]).id == id {
            let i = choose|i: int| 0 <= i < front.len() && (#[trigger] front[i]).id == id;
            assert(groups[i].id == id);
        }
        if groups.last().id == id {
            assert(groups[groups.len() - 1].id == id);
        }
    }
}

proof fn lemma_collected(
    known: AttributesModel,
    lists: Seq<Seq<GroupModel>>,
    id: Seq<char>,
    roles: Seq<Seq<char>>,
)
    requires
        forall|k: int, i: int|
            0 <= k < lists.len() && 0 <= i < lists[k].len() && (#[trigger] lists[k][i]).id == id
                ==> lists[k][i].realm_roles == roles,
        known.dom().contains(id) ==> known[id] == roles,
    ensures
        collected(known, lists).dom().contains(id) ==> collected(known, lists)[id] == roles,
        collected(known, lists).dom().contains(id) <==> known.dom().contains(id) || exists|
            k: int,
            i: int,
        |
            0 <= k < lists.len() && 0 <= i < lists[k].len() && (#[trigger] lists[k][i]).id == id,
    decreases lists.len(),
{
    broadcast use vstd::seq_lib::group_to_multiset_ensures;

    if lists.len() > 0 {
        let groups = sorted(lists[0], by_name());
        let later = lists.skip(1);
        lemma_texts_are_ordered();
        assert(is_order(by_name()));
        lemma_sorted(lists[0], by_name());
        assert forall|i: int| 0 <= i < groups.len() implies lists[0].contains(
            #[trigger] groups[i],
        ) by {
            assert(groups.contains(groups[i]));
            assert(groups.to_multiset().count(groups[i]) > 0);
        }
        assert forall|i: int| 0 <= i < lists[0].len() implies groups.contains(
            #[trigger] lists[0][i],
        ) by {
            assert(lists[0].contains(lists[0][i]));
            assert(lists[0].to_multiset().count(lists[0][i]) > 0);
        }
        assert forall|i: int| 0 <= i < groups.len() && (#[trigger] groups[i]).id
            == id implies groups[i].realm_roles == roles by {
            assert(lists[0].contains(groups[i]));
            let j = choose|j: int| 0 <= j < lists[0].len() && lists[0][j] == groups[i];
            assert(lists[0][j].id == id);
        }
        lemma_with_grants(known, groups, id, roles);
        assert forall|k: int, i: int|
            0 <= k < later.len() && 0 <= i < later[k].len() && (#[trigger] later[k][i]).id
                == id implies later[k][i].realm_roles == roles by {
            assert(later[k][i] == lists[k + 1][i]);
        }
        lemma_collected(with_grants(known, groups), later, id, roles);
        if exists|k: int, i: int|
            0 <= k < lists.len() && 0 <= i < lists[k].len() && (#[trigger] lists[k][i]).id == id {
            let (k, i) = choose|k: int, i: int|
                0 <= k < lists.len() && 0 <= i < lists[k].len() && (#[trigger] lists[k][i]).id
                    == id;
            if k == 0 {
                assert(groups.contains(lists[0][i]));
                let j = choose|j: int| 0 <= j < groups.len() && groups[j] == lists[0][i];
                assert(groups[j].id == id);
            } else {
                assert(later[k - 1][i].id == id);
            }
        }
        if exists|i: int| 0 <= i < groups.len() && (#[trigger] groups[i]).id == id {
            let i = choose|i: int| 0 <= i < groups.len() && (#[trigger] groups[i]).id == id;
            assert(lists[0].contains(groups[i]));
            let j = choose|j: int| 0 <= j < lists[0].len() && lists[0][j] == groups[i];
            assert(lists[0][j].id == id);
        }
        if exists|k: int, i: int|
            0 <= k < later.len() && 0 <= i < later[k].len() && (#[trigger] later[k][i]).id == id {
            let (k, i) = choose|k: int, i: int|
                0 <= k < later.len() && 0 <= i < later[k].len() && (#[trigger] later[k][i]).id
                    == id;
            assert(lists[k + 1][i].id == id);
        }
    }
}

/// What a list says of the roles that a change brings: those of the team that the user is to
/// move to.
pub open spec fn tells_roles(
    shown: Option<Seq<Seq<char>>>,
    change: PendingChangeModel,
    lists: Seq<Seq<GroupModel>>,
) -> bool {
    &&& (forall|i: int|
        0 <= i < change.diff.len() ==> (#[trigger] change.diff[i]).field != "team_group_id"@)
        ==> shown is None
    &&& forall|i: int, roles: Seq<Seq<char>>|
        0 <= i < change.diff.len() && change.diff[i].field == "team_group_id"@ && (forall|j: int|
            0 <= j < i ==> (#[trigger] change.diff[j]).field != "team_group_id"@)
            && #[trigger] all_grant(lists, change.diff[i].after, roles) ==> shown == (
        if roles.len() > 0 {
            Some(roles)
        } else {
            None
        })
    &&& forall|i: int|
        0 <= i < change.diff.len() && change.diff[i].field == "team_group_id"@ && (forall|j: int|
            0 <= j < i ==> (#[trigger] change.diff[j]).field != "team_group_id"@)
            && none_grants(lists, (#[trigger] change.diff[i]).after) ==> shown is None
}

proof fn lemma_tells_roles(change: PendingChangeModel, lists: Seq<Seq<GroupModel>>)
    ensures
        tells_roles(
            team_grants(change, collected(AttributesModel::empty(), lists)),
            change,
            lists,
        ),
{
    let none = AttributesModel::empty();
    let shown = team_grants(change, collected(none, lists));
    let wanted = |f: FieldChangeModel| f.field == "team_group_id"@;
    if forall|i: int|
        0 <= i < change.diff.len() ==> (#[trigger] change.diff[i]).field != "team_group_id"@ {
        lemma_none(change.diff, wanted);
    }
    assert forall|i: int, roles: Seq<Seq<char>>|
        0 <= i < change.diff.len() && change.diff[i].field == "team_group_id"@ && (forall|j: int|
            0 <= j < i ==> (#[trigger] change.diff[j]).field != "team_group_id"@)
            && #[trigger] all_grant(lists, change.diff[i].after, roles) implies shown == (
    if roles.len() > 0 {
        Some(roles)
    } else {
        None
    }) by {
        lemma_first(change.diff, i, wanted);
        lemma_collected(none, lists, change.diff[i].after, roles);
    }
    assert forall|i: int|
        0 <= i < change.diff.len() && change.diff[i].field == "team_group_id"@ && (forall|j: int|
            0 <= j < i ==> (#[trigger] change.diff[j]).field != "team_group_id"@) && none_grants(
            lists,
            (#[trigger] change.diff[i]).after,
        ) implies shown is None by {
        lemma_first(change.diff, i, wanted);
        lemma_collected(none, lists, change.diff[i].after, Seq::empty());
    }
}

// ── The list ─────────────────────────────────────────────────────────────────

/// The part of a list that a page of it shows, with at most two hundred changes to a page.
pub open spec fn is_part(
    all: Seq<PendingChangeModel>,
    wanted: Option<usize>,
    page: int,
    pages: int,
    shown: Seq<PendingChangeModel>,
) -> bool {
    &&& if all.len() == 0 {
        pages == 1
    } else {
        (pages - 1) * 200 < all.len() <= pages * 200
    }
    &&& page == (if wanted is None {
        0
    } else if wanted->0 < pages {
        wanted->0 as int
    } else {
        pages - 1
    })
    &&& shown.len() == (if all.len() - page * 200 > 200 {
        200
    } else {
        all.len() - page * 200
    })
    &&& forall|i: int| 0 <= i < shown.len() ==> #[trigger] shown[i] == all[page * 200 + i]
}

proof fn lemma_is_part(
    all: Seq<PendingChangeModel>,
    wanted: Option<usize>,
    page: int,
    pages: int,
    shown: Seq<PendingChangeModel>,
)
    requires
        is_part(all, wanted, page, pages, shown),
    ensures
        pages == page_count(all.len() as int),
        page == shown_page(wanted, all.len() as int),
        shown == page_slice(all, page),
        0 <= page < pages,
        pages <= all.len() + 1,
{
    assert(shown =~= page_slice(all, page));
}

/// How many of some changes were resolved after a point in time.
pub open spec fn resolved_after(changes: Seq<PendingChangeModel>, seen: Timestamp) -> nat
    decreases changes.len(),
{
    if changes.len() == 0 {
        0
    } else {
        let last = changes.last();
        let before = resolved_after(changes.drop_last(), seen);
        if last.status != ChangeStatus::Pending && last.resolved_at is Some && (
        last.resolved_at->0.secs > seen.secs || (last.resolved_at->0.secs == seen.secs
            && last.resolved_at->0.nanos > seen.nanos)) {
            before + 1
        } else {
            before
        }
    }
}

proof fn lemma_resolved_after(changes: Seq<PendingChangeModel>, seen: Timestamp)
    ensures
        changes.filter(|c: PendingChangeModel| resolved_since(c, seen)).len() == resolved_after(
            changes,
            seen,
        ),
        resolved_after(changes, seen) <= changes.len(),
    decreases changes.len(),
{
    reveal(Seq::filter);
    if changes.len() > 0 {
        lemma_resolved_after(changes.drop_last(), seen);
    }
}

/// What is in the session of a user who has looked at the list: of an operator, the time.
pub open spec fn having_looked(user: SessionUserModel, now: Timestamp) -> SessionUserModel {
    SessionUserModel {
        last_seen_changes_at: if user.role == Role::Admin {
            user.last_seen_changes_at
        } else {
            Some(now)
        },
        ..user
    }
}

/// The replies to a note of the time at which an operator looked.
pub open spec fn look_kept(user: SessionUserModel, now: Timestamp) -> Seq<ReplyModel> {
    if user.role == Role::Admin {
        Seq::empty()
    } else {
        seq![ReplyModel::Time(now), ReplyModel::Done]
    }
}

/// For each realm in the list, the groups are read; then the list is shown, one page of it,
/// each change with the roles of the team that it is about.
proof fn lemma_the_end_of_the_list(
    user: SessionUserModel,
    visible: Seq<PendingChangeModel>,
    unseen: usize,
    page: int,
    shown: Seq<PendingChangeModel>,
    token: Seq<char>,
    flash: Option<FlashModel>,
    lists: Seq<Seq<GroupModel>>,
    rest: Seq<ReplyModel>,
)
    requires
        shown == page_slice(visible, page),
        lists.len() <= realms_of(shown).len(),
        lists.len() == realms_of(shown).len() || rest.len() == 0,
    ensures
        ({
            let start = form_ready(token).push(ReplyModel::Flash(flash));
            changes_shown(user, visible, unseen, page, start + (lists_found(lists) + rest)) == (
            if lists.len() < realms_of(shown).len() {
                Ask::Stop(
                    StepModel::Perform(
                        EffectModel::Provider(
                            ProviderCallModel::ListGroups {
                                realm: realms_of(shown)[lists.len() as int],
                            },
                        ),
                    ),
                )
            } else {
                match badge_asked(user, rest) {
                    Ask::Stop(stop) => Ask::Stop(stop),
                    Ask::Got(pending, rest) => Ask::Got(
                        OutcomeModel::Page(
                            PageModel::Changes(
                                ChangesPageModel {
                                    frame: framed(user, "changes"@, Some(pending)),
                                    changes: change_views(
                                        shown,
                                        collected(AttributesModel::empty(), lists),
                                    ),
                                    unseen_resolved_count: unseen,
                                    page: page as usize,
                                    total_pages: page_count(visible.len() as int) as usize,
                                    csrf: token,
                                    flash,
                                },
                            ),
                        ),
                        rest,
                    ),
                }
            })
        }),
{
    let end = lists_found(lists) + rest;
    let all = form_ready(token).push(ReplyModel::Flash(flash)) + end;
    assert(all[0] == ReplyModel::Token(token));
    assert(all.skip(1)[0] == ReplyModel::Done);
    assert(all.skip(1).skip(1)[0] == ReplyModel::Flash(flash));
    assert(all.skip(1).skip(1).skip(1) =~= end);
    lemma_every_realm_is_asked(realms_of(shown), AttributesModel::empty(), lists, rest);
}

proof fn lemma_the_start_of_the_list(
    user: SessionUserModel,
    wanted: Option<usize>,
    changes: Seq<PendingChangeModel>,
    now: Timestamp,
    end: Seq<ReplyModel>,
)
    ensures
        ({
            let visible = changes_seen(user, changes);
            history_asked(
                user,
                wanted,
                (seq![changes_found(changes)] + look_kept(user, now)) + end,
            ) == changes_shown(
                having_looked(user, now),
                visible,
                unseen_count(user, visible) as usize,
                shown_page(wanted, visible.len() as int),
                end,
            )
        }),
{
    let all = (seq![changes_found(changes)] + look_kept(user, now)) + end;
    assert(changes_seen(user, changes) == visible_changes(user, changes));
    assert(all[0] == changes_found(changes));
    if user.role == Role::Admin {
        assert(all.skip(1) =~= end);
        assert(having_looked(user, now) == user);
    } else {
        assert(all.skip(1)[0] == ReplyModel::Time(now));
        assert(all.skip(1).skip(1)[0] == ReplyModel::Done);
        assert(all.skip(1).skip(1).skip(1) =~= end);
    }
}

/// The changes are read first. That an operator looks at them is noted in the session, and
/// their list gets a token for its forms and the message that was left for the user.
pub proof fn lemma_a_look_at_the_list_is_noted(
    config: ConfigModel,
    query: ChangesQueryModel,
    head: Seq<ReplyModel>,
    user: SessionUserModel,
    changes: Seq<PendingChangeModel>,
    now: Timestamp,
    token: Seq<char>,
)
    requires
        signed_in(config, head, user),
    ensures
        ({
            let request = RequestModel::ListChanges(query);
            let t1 = seq![changes_found(changes)];
            let t2 = t1 + look_kept(user, now);
            let t3 = t2 + form_ready(token);
            &&& stores(config, request, head, StorageCallModel::ListChanges)
            &&& user.role != Role::Admin ==> performs(
                config,
                request,
                head + t1,
                EffectModel::ReadClock,
            ) && performs(
                config,
                request,
                head + t1.push(ReplyModel::Time(now)),
                EffectModel::StoreUser(having_looked(user, now)),
            )
            &&& readies_form(config, request, head, t2, token)
            &&& performs(config, request, head + t3, EffectModel::TakeFlash)
        }),
{
    reveal(changes_listed);
    let t2 = seq![changes_found(changes)] + look_kept(user, now);
    assert(head + Seq::empty() =~= head);
    lemma_the_start_of_the_list(user, query.page, changes, now, Seq::empty());
    lemma_the_start_of_the_list(user, query.page, changes, now, seq![ReplyModel::Token(token)]);
    lemma_the_start_of_the_list(user, query.page, changes, now, form_ready(token));
    assert(t2 + Seq::empty() =~= t2);
    assert(t2 + seq![ReplyModel::Token(token)] =~= t2.push(ReplyModel::Token(token)));
}

proof fn lemma_the_list(
    user: SessionUserModel,
    wanted: Option<usize>,
    changes: Seq<PendingChangeModel>,
    now: Timestamp,
    page: int,
    pages: int,
    shown: Seq<PendingChangeModel>,
    token: Seq<char>,
    flash: Option<FlashModel>,
    lists: Seq<Seq<GroupModel>>,
    waiting: Seq<PendingChangeModel>,
)
    requires
        is_part(changes_seen(user, changes), wanted, page, pages, shown),
        lists.len() == realms_of(shown).len(),
        changes.len() < usize::MAX,
        waiting.len() <= usize::MAX,
    ensures
        ({
            let t5 = before_lists(user, changes, now, token, flash) + lists_found(lists);
            history_asked(user, wanted, t5 + badge(user, waiting)) matches Ask::Got(
                OutcomeModel::Page(PageModel::Changes(list)),
                _,
            ) && is_list(list, user, changes, now, page, pages, shown, token, flash, lists, waiting)
        }),
{
    let visible = changes_seen(user, changes);
    let start = form_ready(token).push(ReplyModel::Flash(flash));
    let t4 = before_lists(user, changes, now, token, flash);
    changes.lemma_filter_len(|c: PendingChangeModel| c.proposed_by == user.username);
    lemma_is_part(visible, wanted, page, pages, shown);
    if user.last_seen_changes_at is Some {
        lemma_resolved_after(visible, user.last_seen_changes_at->0);
    }
    let end = start + (lists_found(lists) + badge(user, waiting));
    lemma_the_start_of_the_list(user, wanted, changes, now, end);
    lemma_the_end_of_the_list(
        having_looked(user, now),
        visible,
        unseen_count(user, visible) as usize,
        page,
        shown,
        token,
        flash,
        lists,
        badge(user, waiting),
    );
    assert(t4 + lists_found(lists) + badge(user, waiting) =~= (seq![changes_found(changes)]
        + look_kept(user, now)) + end);
    let grants = collected(AttributesModel::empty(), lists);
    assert forall|i: int| 0 <= i < shown.len() implies (#[trigger] change_views(
        shown,
        grants,
    )[i]).change == shown[i] && tells_roles(
        change_views(shown, grants)[i].team_grants,
        shown[i],
        lists,
    ) by {
        lemma_tells_roles(shown[i], lists);
    }
}

proof fn lemma_the_lists_of_groups(
    user: SessionUserModel,
    wanted: Option<usize>,
    changes: Seq<PendingChangeModel>,
    now: Timestamp,
    page: int,
    pages: int,
    shown: Seq<PendingChangeModel>,
    token: Seq<char>,
    flash: Option<FlashModel>,
    lists: Seq<Seq<GroupModel>>,
)
    requires
        is_part(changes_seen(user, changes), wanted, page, pages, shown),
        lists.len() <= realms_of(shown).len(),
        lists.len() < realms_of(shown).len() || user.role == Role::Admin,
    ensures
        history_asked(
            user,
            wanted,
            before_lists(user, changes, now, token, flash) + lists_found(lists),
        ) == Ask::<OutcomeModel, ReplyModel, StepModel>::Stop(
            StepModel::Perform(
                if lists.len() < realms_of(shown).len() {
                    EffectModel::Provider(
                        ProviderCallModel::ListGroups {
                            realm: realms_of(shown)[lists.len() as int],
                        },
                    )
                } else {
                    EffectModel::Storage(StorageCallModel::ListPendingChanges)
                },
            ),
        ),
{
    let visible = changes_seen(user, changes);
    let start = form_ready(token).push(ReplyModel::Flash(flash));
    let end = start + (lists_found(lists) + Seq::empty());
    lemma_is_part(visible, wanted, page, pages, shown);
    lemma_the_start_of_the_list(user, wanted, changes, now, end);
    lemma_the_end_of_the_list(
        having_looked(user, now),
        visible,
        unseen_count(user, visible) as usize,
        page,
        shown,
        token,
        flash,
        lists,
        Seq::empty(),
    );
    assert(before_lists(user, changes, now, token, flash) + lists_found(lists) =~= (
    seq![changes_found(changes)] + look_kept(user, now)) + end);
}

/// The replies to what comes before the groups of the realms in the list.
pub open spec fn before_lists(
    user: SessionUserModel,
    changes: Seq<PendingChangeModel>,
    now: Timestamp,
    token: Seq<char>,
    flash: Option<FlashModel>,
) -> Seq<ReplyModel> {
    (seq![changes_found(changes)] + look_kept(user, now) + form_ready(token)).push(
        ReplyModel::Flash(flash),
    )
}

/// What the list shows.
pub open spec fn is_list(
    list: ChangesPageModel,
    user: SessionUserModel,
    changes: Seq<PendingChangeModel>,
    now: Timestamp,
    page: int,
    pages: int,
    shown: Seq<PendingChangeModel>,
    token: Seq<char>,
    flash: Option<FlashModel>,
    lists: Seq<Seq<GroupModel>>,
    waiting: Seq<PendingChangeModel>,
) -> bool {
    &&& is_frame(list.frame, having_looked(user, now), "changes"@, waiting)
    &&& list.changes.len() == shown.len()
    &&& forall|i: int|
        0 <= i < shown.len() ==> (#[trigger] list.changes[i]).change == shown[i] && tells_roles(
            list.changes[i].team_grants,
            shown[i],
            lists,
        )
    &&& list.unseen_resolved_count == (if user.role != Role::Admin
        && user.last_seen_changes_at is Some {
        resolved_after(changes_seen(user, changes), user.last_seen_changes_at->0)
    } else {
        0
    })
    &&& list.page == page
    &&& list.total_pages == pages
    &&& list.csrf == token
    &&& list.flash == flash
}

/// An admin sees all changes, an operator their own, and how many of them were resolved since
/// they last looked. The list has pages of two hundred changes. Each change is shown with the
/// roles of the team that the user would move to, for which the groups of every realm in the
/// list are read.
pub proof fn lemma_the_list_of_changes(
    config: ConfigModel,
    query: ChangesQueryModel,
    head: Seq<ReplyModel>,
    user: SessionUserModel,
    changes: Seq<PendingChangeModel>,
    now: Timestamp,
    page: int,
    pages: int,
    shown: Seq<PendingChangeModel>,
    token: Seq<char>,
    flash: Option<FlashModel>,
    lists: Seq<Seq<GroupModel>>,
    waiting: Seq<PendingChangeModel>,
)
    requires
        signed_in(config, head, user),
        is_part(changes_seen(user, changes), query.page, page, pages, shown),
        lists.len() == realms_of(shown).len(),
        changes.len() < usize::MAX,
        waiting.len() <= usize::MAX,
    ensures
        ({
            let request = RequestModel::ListChanges(query);
            let t4 = before_lists(user, changes, now, token, flash);
            let t5 = t4 + lists_found(lists);
            &&& forall|k: int|
                0 <= k < lists.len() ==> calls(
                    config,
                    request,
                    head + (t4 + lists_found(#[trigger] lists.take(k))),
                    ProviderCallModel::ListGroups { realm: realms_of(shown)[k] },
                )
            &&& user.role == Role::Admin ==> stores(
                config,
                request,
                head + t5,
                StorageCallModel::ListPendingChanges,
            )
            &&& response(
                config,
                request,
                head + (t5 + badge(user, waiting)),
            ) matches StepModel::Finish(OutcomeModel::Page(PageModel::Changes(list))) && is_list(
                list,
                user,
                changes,
                now,
                page,
                pages,
                shown,
                token,
                flash,
                lists,
                waiting,
            )
        }),
{
    reveal(changes_listed);
    let request = RequestModel::ListChanges(query);
    let t4 = before_lists(user, changes, now, token, flash);
    assert forall|k: int| 0 <= k < lists.len() implies calls(
        config,
        request,
        head + (t4 + lists_found(#[trigger] lists.take(k))),
        ProviderCallModel::ListGroups { realm: realms_of(shown)[k] },
    ) by {
        lemma_the_lists_of_groups(
            user,
            query.page,
            changes,
            now,
            page,
            pages,
            shown,
            token,
            flash,
            lists.take(k),
        );
    }
    if user.role == Role::Admin {
        lemma_the_lists_of_groups(
            user,
            query.page,
            changes,
            now,
            page,
            pages,
            shown,
            token,
            flash,
            lists,
        );
    }
    lemma_the_list(
        user,
        query.page,
        changes,
        now,
        page,
        pages,
        shown,
        token,
        flash,
        lists,
        waiting,
    );
}

} // verus!
