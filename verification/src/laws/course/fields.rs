//! What a list of changed fields does to an account.

use super::{broke, groups_found, lemma_first, lemma_none, made, refused};
use crate::asks::mutation_asked;
use crate::attributes::AttributesModel;
use crate::config::ConfigModel;
use crate::effects::{Asked, EffectModel, OutcomeModel, ReplyModel, StepModel};
use crate::error::{AppErrorModel, ProviderErrorModel};
use crate::laws::performs;
use crate::lists::{first_where, lemma_filter_push};
use crate::portal::{response, RequestModel};
use crate::provider::{GroupModel, ProviderAnswerModel, ProviderCallModel, UpdateUserModel};
use crate::script::Ask;
use crate::service::changes::{
    changes_any, diff_applied, fields_applied, groups_left, is_attribute, new_attributes, new_value,
    team_change, team_moved, update_of,
};
use crate::storage::FieldChangeModel;
use vstd::prelude::*;

verus! {

/// The last change of a field gives it this value.
pub open spec fn sets(diff: Seq<FieldChangeModel>, field: Seq<char>, value: Seq<char>) -> bool {
    exists|i: int| sets_at(diff, i, field) && diff[i].after == value
}

/// The change at `i` is the last one of a field.
pub open spec fn sets_at(diff: Seq<FieldChangeModel>, i: int, field: Seq<char>) -> bool {
    &&& 0 <= i < diff.len()
    &&& diff[i].field == field
    &&& forall|j: int| i < j < diff.len() ==> (#[trigger] diff[j]).field != field
}

/// No change is about a field.
pub open spec fn leaves(diff: Seq<FieldChangeModel>, field: Seq<char>) -> bool {
    forall|i: int| 0 <= i < diff.len() ==> (#[trigger] diff[i]).field != field
}

/// A new value is there if, and only if, the field is set, and is what it is set to.
pub open spec fn follows(
    diff: Seq<FieldChangeModel>,
    field: Seq<char>,
    value: Option<Seq<char>>,
) -> bool {
    match value {
        Some(text) => sets(diff, field, text),
        None => leaves(diff, field),
    }
}

/// An attribute gets one value if, and only if, the field of its name is set.
pub open spec fn attribute_follows(
    diff: Seq<FieldChangeModel>,
    attributes: AttributesModel,
    key: Seq<char>,
) -> bool {
    if attributes.dom().contains(key) {
        attributes[key].len() == 1 && sets(diff, key, attributes[key][0])
    } else {
        leaves(diff, key)
    }
}

/// An update says what a list of changed fields says: the names, the address and the status
/// as fields, the team, the phone number and the personnel code as attributes, and no more.
pub open spec fn says(diff: Seq<FieldChangeModel>, update: UpdateUserModel) -> bool {
    &&& follows(diff, "first_name"@, update.first_name)
    &&& follows(diff, "last_name"@, update.last_name)
    &&& follows(diff, "email"@, update.email)
    &&& match update.enabled {
        Some(true) => sets(diff, "enabled"@, "true"@),
        Some(false) => !leaves(diff, "enabled"@) && !sets(diff, "enabled"@, "true"@),
        None => leaves(diff, "enabled"@),
    }
    &&& update.phone_number is None
    &&& update.personnel_code is None
    &&& match update.attributes {
        Some(attributes) => {
            &&& !leaves(diff, "team"@) || !leaves(diff, "phone_number"@) || !leaves(
                diff,
                "personnel_code"@,
            )
            &&& attribute_follows(diff, attributes, "team"@)
            &&& attribute_follows(diff, attributes, "phone_number"@)
            &&& attribute_follows(diff, attributes, "personnel_code"@)
            &&& forall|key: Seq<char>| #[trigger]
                attributes.dom().contains(key) ==> key == "team"@ || key == "phone_number"@ || key
                    == "personnel_code"@
        },
        None => leaves(diff, "team"@) && leaves(diff, "phone_number"@) && leaves(
            diff,
            "personnel_code"@,
        ),
    }
}

/// Some change is about what is kept in the account itself.
pub open spec fn touches_account(diff: Seq<FieldChangeModel>) -> bool {
    !leaves(diff, "first_name"@) || !leaves(diff, "last_name"@) || !leaves(diff, "email"@)
        || !leaves(diff, "enabled"@) || !leaves(diff, "team"@) || !leaves(diff, "phone_number"@)
        || !leaves(diff, "personnel_code"@)
}

proof fn lemma_new_value(diff: Seq<FieldChangeModel>, field: Seq<char>)
    ensures
        follows(diff, field, new_value(diff, field)),
        new_value(diff, field) is None == leaves(diff, field),
        forall|value: Seq<char>| #[trigger]
            sets(diff, field, value) ==> new_value(diff, field) == Some(value),
    decreases diff.len(),
{
    if diff.len() > 0 {
        let front = diff.drop_last();
        let n = diff.len() - 1;
        lemma_new_value(front, field);
        if diff.last().field == field {
            assert(sets_at(diff, n, field));
            assert forall|value: Seq<char>| #[trigger] sets(diff, field, value) implies value
                == diff.last().after by {
                let i = choose|i: int| sets_at(diff, i, field) && diff[i].after == value;
                if i < n {
                    assert(diff[n].field != field);
                }
            }
        } else {
            assert forall|i: int| sets_at(front, i, field) == #[trigger] sets_at(
                diff,
                i,
                field,
            ) by {
                if sets_at(diff, i, field) {
                    assert forall|j: int| i < j < front.len() implies (#[trigger] front[j]).field
                        != field by {
                        assert(diff[j].field != field);
                    }
                }
                if sets_at(front, i, field) {
                    assert forall|j: int| i < j < diff.len() implies (#[trigger] diff[j]).field
                        != field by {
                        if j < n {
                            assert(front[j].field != field);
                        }
                    }
                }
            }
            if new_value(front, field) is Some {
                let value = new_value(front, field)->0;
                let i = choose|i: int| sets_at(front, i, field) && front[i].after == value;
                assert(sets_at(diff, i, field) && diff[i].after == value);
                assert(diff[i].field == field);
            } else {
                assert forall|i: int| 0 <= i < diff.len() implies (#[trigger] diff[i]).field
                    != field by {
                    if i < n {
                        assert(front[i].field != field);
                    }
                }
            }
            assert forall|value: Seq<char>| #[trigger] sets(diff, field, value) implies new_value(
                diff,
                field,
            ) == Some(value) by {
                let i = choose|i: int| sets_at(diff, i, field) && diff[i].after == value;
                assert(sets_at(front, i, field) && front[i].after == value);
                assert(sets(front, field, value));
            }
        }
    }
}

/// The one update that carries out a list of changed fields says what the list says; it is
/// made if, and only if, some change is about the account itself.
pub proof fn lemma_updates_say_what_was_changed(diff: Seq<FieldChangeModel>)
    ensures
        says(diff, update_of(diff)),
        changes_any(update_of(diff)) == touches_account(diff),
{
    lemma_new_value(diff, "first_name"@);
    lemma_new_value(diff, "last_name"@);
    lemma_new_value(diff, "email"@);
    lemma_new_value(diff, "enabled"@);
    lemma_new_value(diff, "team"@);
    lemma_new_value(diff, "phone_number"@);
    lemma_new_value(diff, "personnel_code"@);
    let new = new_attributes(diff);
    assert(new.dom().contains("team"@) == !leaves(diff, "team"@));
    assert(new.dom().contains("phone_number"@) == !leaves(diff, "phone_number"@));
    assert(new.dom().contains("personnel_code"@) == !leaves(diff, "personnel_code"@));
    if leaves(diff, "team"@) && leaves(diff, "phone_number"@) && leaves(diff, "personnel_code"@) {
        assert(new =~= AttributesModel::empty());
    } else {
        assert(new != AttributesModel::empty());
    }
}

// ── Teams ────────────────────────────────────────────────────────────────────

/// The change at `i` is the first that names a team's group.
pub open spec fn moves_at(diff: Seq<FieldChangeModel>, i: int) -> bool {
    &&& 0 <= i < diff.len()
    &&& diff[i].field == "team_group_id"@
    &&& forall|j: int| 0 <= j < i ==> (#[trigger] diff[j]).field != "team_group_id"@
}

/// The groups that a user leaves who moves to the group `keep`.
pub open spec fn others(groups: Seq<GroupModel>, keep: Seq<char>) -> Seq<GroupModel> {
    groups.filter(|g: GroupModel| g.id != keep)
}

/// So many changes that the identity provider has made.
pub open spec fn all_made(n: nat) -> Seq<ReplyModel> {
    Seq::new(n, |i: int| made())
}

pub(crate) proof fn lemma_groups_left_in_turn(
    realm: Seq<char>,
    user_id: Seq<char>,
    groups: Seq<GroupModel>,
    keep: Seq<char>,
    n: nat,
    tail: Seq<ReplyModel>,
)
    requires
        n <= others(groups, keep).len(),
    ensures
        n == others(groups, keep).len() ==> groups_left(
            realm,
            user_id,
            groups,
            keep,
            all_made(n) + tail,
        ) == Ask::<(), ReplyModel, StepModel>::Got((), tail),
        n < others(groups, keep).len() ==> groups_left(
            realm,
            user_id,
            groups,
            keep,
            all_made(n) + tail,
        ) == (match mutation_asked(
            ProviderCallModel::RemoveUserFromGroup {
                realm,
                user_id,
                group_id: others(groups, keep)[n as int].id,
            },
            tail,
        ) {
            Ask::Stop(stop) => Ask::Stop(stop),
            Ask::Got(_, rest) => groups_left(
                realm,
                user_id,
                groups,
                keep,
                all_made((n + 1) as nat) + rest,
            ),
        }),
    decreases groups.len(),
{
    let other = |g: GroupModel| g.id != keep;
    if groups.len() == 0 {
        assert(groups.filter(other).len() == 0) by {
            groups.lemma_filter_len(other);
        }
        assert(all_made(0) + tail =~= tail);
    } else {
        let none = Seq::<GroupModel>::empty();
        let front = none.push(groups[0]);
        let back = groups.skip(1);
        assert(groups =~= front + back);
        Seq::filter_distributes_over_add(front, back, other);
        lemma_filter_push(none, groups[0], other);
        none.lemma_filter_len(other);
        if groups[0].id == keep {
            assert(others(groups, keep) =~= others(back, keep));
            lemma_groups_left_in_turn(realm, user_id, back, keep, n, tail);
        } else {
            assert(others(groups, keep) =~= front + others(back, keep));
            if n > 0 {
                let m = (n - 1) as nat;
                assert((all_made(n) + tail).skip(1) =~= all_made(m) + tail);
                assert((all_made(n) + tail)[0] == made());
                lemma_groups_left_in_turn(realm, user_id, back, keep, m, tail);
                if n < others(groups, keep).len() {
                    assert(others(groups, keep)[n as int] == others(back, keep)[m as int]);
                    assert forall|rest: Seq<ReplyModel>| groups_left(
                        realm,
                        user_id,
                        groups,
                        keep,
                        #[trigger] (all_made((n + 1) as nat) + rest),
                    ) == groups_left(realm, user_id, back, keep, all_made(n) + rest) by {
                        let all = all_made((n + 1) as nat) + rest;
                        assert(all.skip(1) =~= all_made(n) + rest);
                        assert(all[0] == made());
                    }
                }
            } else {
                assert(all_made(0) + tail =~= tail);
                assert(others(groups, keep)[0] == groups[0]);
                if tail.len() > 0 {
                    let rest = tail.skip(1);
                    assert((all_made(1) + rest).skip(1) =~= rest);
                    assert((all_made(1) + rest)[0] == made());
                }
            }
        }
    }
}

proof fn lemma_only_one_update(diff: Seq<FieldChangeModel>, update: UpdateUserModel)
    requires
        says(diff, update),
    ensures
        update == update_of(diff),
{
    lemma_new_value(diff, "first_name"@);
    lemma_new_value(diff, "last_name"@);
    lemma_new_value(diff, "email"@);
    lemma_new_value(diff, "enabled"@);
    lemma_new_value(diff, "team"@);
    lemma_new_value(diff, "phone_number"@);
    lemma_new_value(diff, "personnel_code"@);
    let new = new_attributes(diff);
    assert(new.dom().contains("team"@) == !leaves(diff, "team"@));
    assert(new.dom().contains("phone_number"@) == !leaves(diff, "phone_number"@));
    assert(new.dom().contains("personnel_code"@) == !leaves(diff, "personnel_code"@));
    match update.attributes {
        Some(attributes) => {
            assert forall|key: Seq<char>| #[trigger] attributes.dom().contains(key)
                == new.dom().contains(key) by {
                if !(key == "team"@ || key == "phone_number"@ || key == "personnel_code"@) {
                    assert(!attributes.dom().contains(key));
                }
            }
            assert forall|key: Seq<char>| #[trigger] attributes.dom().contains(key) implies attributes[key]
                == new[key] by {
                assert(attribute_follows(diff, attributes, key));
                assert(attributes[key] =~= seq![attributes[key][0]]);
            }
            assert(attributes =~= new);
        },
        None => {
            assert(new =~= AttributesModel::empty());
        },
    }
}

/// The replies to an update of the account, where there is one.
pub open spec fn update_replies(diff: Seq<FieldChangeModel>) -> Seq<ReplyModel> {
    if touches_account(diff) {
        seq![made()]
    } else {
        Seq::empty()
    }
}

/// The replies to a move to another team, which the change at `i` asks for.
pub open spec fn move_replies(
    diff: Seq<FieldChangeModel>,
    i: int,
    groups: Seq<GroupModel>,
) -> Seq<ReplyModel> {
    let left = seq![groups_found(groups)] + all_made(others(groups, diff[i].after).len());
    if diff[i].after.len() > 0 {
        left.push(made())
    } else {
        left
    }
}

/// The replies to all that a list of changed fields takes.
pub open spec fn all_replies(
    diff: Seq<FieldChangeModel>,
    i: int,
    groups: Seq<GroupModel>,
) -> Seq<ReplyModel> {
    if leaves(diff, "team_group_id"@) {
        update_replies(diff)
    } else {
        update_replies(diff) + move_replies(diff, i, groups)
    }
}

/// After `start`, a list of changed fields takes effect for a user. What the account itself
/// holds is changed in one update. Then, where the team changes, the user leaves every group
/// but the new one, and joins that, unless there is none. A failure ends the request.
pub open spec fn takes_effect(
    config: ConfigModel,
    request: RequestModel,
    start: Seq<ReplyModel>,
    realm: Seq<char>,
    id: Seq<char>,
    diff: Seq<FieldChangeModel>,
    update: UpdateUserModel,
    i: int,
    groups: Seq<GroupModel>,
    n: nat,
    error: ProviderErrorModel,
) -> bool {
    let updated = start + update_replies(diff);
    let failed = AppErrorModel::Provider(error);
    &&& touches_account(diff) ==> performs(
        config,
        request,
        start,
        EffectModel::Provider(ProviderCallModel::UpdateUser { realm, id, update }),
    ) && refused(config, request, start.push(broke(error)), failed)
    &&& !leaves(diff, "team_group_id"@) ==> {
        let target = diff[i].after;
        let leaving = updated.push(groups_found(groups)) + all_made(n);
        &&& performs(
            config,
            request,
            updated,
            EffectModel::Provider(ProviderCallModel::GetUserGroups { realm, user_id: id }),
        )
        &&& refused(config, request, updated.push(broke(error)), failed)
        &&& n < others(groups, target).len() ==> performs(
            config,
            request,
            leaving,
            EffectModel::Provider(
                ProviderCallModel::RemoveUserFromGroup {
                    realm,
                    user_id: id,
                    group_id: others(groups, target)[n as int].id,
                },
            ),
        ) && refused(config, request, leaving.push(broke(error)), failed)
        &&& n == others(groups, target).len() && target.len() > 0 ==> performs(
            config,
            request,
            leaving,
            EffectModel::Provider(
                ProviderCallModel::AddUserToGroup { realm, user_id: id, group_id: target },
            ),
        ) && refused(config, request, leaving.push(broke(error)), failed)
    }
}

/// What a part of a request needs next, where it is left to decide.
spec fn left_to<T>(part: Asked<T>, step: StepModel) -> bool {
    part == Ask::<T, ReplyModel, StepModel>::Stop(step)
}

proof fn lemma_team_change(diff: Seq<FieldChangeModel>, i: int)
    requires
        !leaves(diff, "team_group_id"@) ==> moves_at(diff, i),
    ensures
        team_change(diff) == (if leaves(diff, "team_group_id"@) {
            None
        } else {
            Some(diff[i])
        }),
{
    let moves = |f: FieldChangeModel| f.field == "team_group_id"@;
    if leaves(diff, "team_group_id"@) {
        lemma_none(diff, moves);
    } else {
        lemma_first(diff, i, moves);
    }
}

/// All that a list of changed fields takes, as replies, is used up by it.
pub(crate) proof fn lemma_diff_ends(
    realm: Seq<char>,
    id: Seq<char>,
    diff: Seq<FieldChangeModel>,
    i: int,
    groups: Seq<GroupModel>,
    tail: Seq<ReplyModel>,
)
    requires
        !leaves(diff, "team_group_id"@) ==> moves_at(diff, i),
    ensures
        diff_applied(realm, id, diff, all_replies(diff, i, groups) + tail) == Ask::<
            (),
            ReplyModel,
            StepModel,
        >::Got((), tail),
{
    lemma_updates_say_what_was_changed(diff);
    lemma_team_change(diff, i);
    let all = all_replies(diff, i, groups) + tail;
    if leaves(diff, "team_group_id"@) {
        if touches_account(diff) {
            assert(all[0] == made());
            assert(all.skip(1) =~= tail);
        } else {
            assert(all =~= tail);
        }
    } else {
        let target = diff[i].after;
        let n = others(groups, target).len();
        let behind = move_replies(diff, i, groups) + tail;
        if touches_account(diff) {
            assert(all[0] == made());
            assert(all.skip(1) =~= behind);
        } else {
            assert(all =~= behind);
        }
        assert(behind[0] == groups_found(groups));
        if target.len() > 0 {
            let joining = seq![made()] + tail;
            assert(behind.skip(1) =~= all_made(n) + joining);
            lemma_groups_left_in_turn(realm, id, groups, target, n, joining);
            assert(joining[0] == made());
            assert(joining.skip(1) =~= tail);
        } else {
            assert(behind.skip(1) =~= all_made(n) + tail);
            lemma_groups_left_in_turn(realm, id, groups, target, n, tail);
        }
    }
}

/// A request that comes, after `start`, to what a list of changed fields comes to, lets the
/// list take effect.
pub(crate) proof fn lemma_takes_effect(
    config: ConfigModel,
    request: RequestModel,
    start: Seq<ReplyModel>,
    realm: Seq<char>,
    id: Seq<char>,
    diff: Seq<FieldChangeModel>,
    update: UpdateUserModel,
    i: int,
    groups: Seq<GroupModel>,
    n: nat,
    error: ProviderErrorModel,
)
    requires
        says(diff, update),
        !leaves(diff, "team_group_id"@) ==> moves_at(diff, i),
        forall|tail: Seq<ReplyModel>|
            (#[trigger] diff_applied(realm, id, diff, tail)) matches Ask::Stop(stop) ==> response(
                config,
                request,
                start + tail,
            ) == stop,
    ensures
        takes_effect(config, request, start, realm, id, diff, update, i, groups, n, error),
{
    let failed = StepModel::Finish(OutcomeModel::Failed(AppErrorModel::Provider(error)));
    lemma_only_one_update(diff, update);
    lemma_updates_say_what_was_changed(diff);
    lemma_team_change(diff, i);
    let none = Seq::<ReplyModel>::empty();
    if touches_account(diff) {
        assert(start + none =~= start);
        assert(start + seq![broke(error)] =~= start.push(broke(error)));
        assert(left_to(diff_applied(realm, id, diff, seq![broke(error)]), failed));
        assert(diff_applied(realm, id, diff, none) is Stop);
    }
    if !leaves(diff, "team_group_id"@) {
        let target = diff[i].after;
        let first = update_replies(diff);
        let updated = start + first;
        let get = StepModel::Perform(
            EffectModel::Provider(ProviderCallModel::GetUserGroups { realm, user_id: id }),
        );
        if touches_account(diff) {
            assert(first.skip(1) =~= none);
            assert(first.push(broke(error)).skip(1) =~= seq![broke(error)]);
        }
        assert(left_to(diff_applied(realm, id, diff, first), get));
        assert(left_to(diff_applied(realm, id, diff, first.push(broke(error))), failed));
        assert(start + first.push(broke(error)) =~= updated.push(broke(error)));
        let leaving = updated.push(groups_found(groups)) + all_made(n);
        let inner = first + (seq![groups_found(groups)] + all_made(n));
        let inner_lost = first + (seq![groups_found(groups)] + (all_made(n) + seq![broke(error)]));
        assert(start + inner =~= leaving);
        assert(start + inner_lost =~= leaving.push(broke(error)));
        let list = seq![groups_found(groups)] + all_made(n);
        let list_lost = seq![groups_found(groups)] + (all_made(n) + seq![broke(error)]);
        if touches_account(diff) {
            assert(inner.skip(1) =~= list);
            assert(inner_lost.skip(1) =~= list_lost);
            assert(inner[0] == made());
            assert(inner_lost[0] == made());
        } else {
            assert(inner =~= list);
            assert(inner_lost =~= list_lost);
        }
        assert(list[0] == groups_found(groups));
        assert(list_lost[0] == groups_found(groups));
        assert(list.skip(1) =~= all_made(n) + none);
        assert(list_lost.skip(1) =~= all_made(n) + seq![broke(error)]);
        if n <= others(groups, target).len() {
            lemma_groups_left_in_turn(realm, id, groups, target, n, none);
            lemma_groups_left_in_turn(realm, id, groups, target, n, seq![broke(error)]);
            if n < others(groups, target).len() || target.len() > 0 {
                assert(diff_applied(realm, id, diff, inner) is Stop);
                assert(left_to(diff_applied(realm, id, diff, inner_lost), failed));
            }
        }
    }
}

} // verus!
