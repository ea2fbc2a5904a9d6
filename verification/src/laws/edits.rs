//! What an edit makes of an account.

use crate::attributes::{first_value, AttributesModel};
use crate::effects::{EffectModel, ReplyModel, StepModel};
use crate::lists::{lemma_filter_push, lemma_first_where, lemma_first_where_holds};
use crate::provider::{GroupModel, ProviderCallModel, UserModel};
use crate::provider::keycloak::{merged_account, merged_attributes, or_held};
use crate::routes::users::edit::{
    attribute_edit, current_team, field_edit, form_edits, status_edit, team_edit, team_name,
    EditFormModel,
};
use crate::script::Ask;
use crate::service::changes::{
    groups_left, is_attribute, new_attributes, new_value, team_change, update_of,
};
use crate::storage::FieldChangeModel;
use crate::text::{flag_text, non_empty, or_empty, ticked};
use vstd::prelude::*;

verus! {

proof fn lemma_new_value_of_both(
    a: Seq<FieldChangeModel>,
    b: Seq<FieldChangeModel>,
    field: Seq<char>,
)
    ensures
        new_value(a + b, field) == (match new_value(b, field) {
            Some(value) => Some(value),
            None => new_value(a, field),
        }),
    decreases b.len(),
{
    if b.len() == 0 {
        assert(a + b =~= a);
    } else {
        assert((a + b).drop_last() =~= a + b.drop_last());
        lemma_new_value_of_both(a, b.drop_last(), field);
    }
}

proof fn lemma_new_value_of_none(diff: Seq<FieldChangeModel>, field: Seq<char>)
    requires
        forall|i: int| 0 <= i < diff.len() ==> (#[trigger] diff[i]).field != field,
    ensures
        new_value(diff, field) is None,
    decreases diff.len(),
{
    if diff.len() > 0 {
        assert(diff[diff.len() - 1].field != field);
        assert forall|i: int| 0 <= i < diff.drop_last().len() implies (
        #[trigger] diff.drop_last()[i]).field != field by {
            assert(diff[i].field != field);
        }
        lemma_new_value_of_none(diff.drop_last(), field);
    }
}

/// The names of the fields of the form all differ.
proof fn lemma_form_fields()
    ensures
        "first_name"@.len() == 10,
        "last_name"@.len() == 9,
        "email"@.len() == 5,
        "enabled"@.len() == 7,
        "status_reason"@.len() == 13,
        "team_group_id"@.len() == 13,
        "status_reason"@ != "team_group_id"@,
        "team"@.len() == 4,
        "phone_number"@.len() == 12,
        "personnel_code"@.len() == 14,
        flag_text(true) == "true"@,
        flag_text(false) != "true"@,
{
    reveal_strlit("first_name");
    reveal_strlit("last_name");
    reveal_strlit("email");
    reveal_strlit("enabled");
    reveal_strlit("status_reason");
    reveal_strlit("team_group_id");
    reveal_strlit("team");
    reveal_strlit("phone_number");
    reveal_strlit("personnel_code");
    reveal_strlit("true");
    reveal_strlit("false");
    assert("status_reason"@[0] != "team_group_id"@[0]);
}

/// The pieces of a form's edits.
#[verifier::opaque]
spec fn pieces(
    form: EditFormModel,
    existing: UserModel,
    groups: Seq<GroupModel>,
    teams: Seq<GroupModel>,
) -> Seq<Seq<FieldChangeModel>> {
    seq![
        field_edit("first_name"@, form.first_name, existing.first_name),
        field_edit("last_name"@, form.last_name, existing.last_name),
        field_edit("email"@, form.email, existing.email),
        status_edit(ticked(form.enabled), existing.enabled, form.status_reason),
        team_edit(non_empty(form.team_group_id), current_team(groups, teams), teams),
        attribute_edit("phone_number"@, form.phone_number, existing.attributes),
        attribute_edit("personnel_code"@, form.personnel_code, existing.attributes),
    ]
}

/// The piece that a field stands in.
spec fn piece_of(field: Seq<char>) -> int {
    if field == "first_name"@ {
        0
    } else if field == "last_name"@ {
        1
    } else if field == "email"@ {
        2
    } else if field == "enabled"@ || field == "status_reason"@ {
        3
    } else if field == "team_group_id"@ || field == "team"@ {
        4
    } else if field == "phone_number"@ {
        5
    } else {
        6
    }
}

proof fn lemma_pieces(
    form: EditFormModel,
    existing: UserModel,
    groups: Seq<GroupModel>,
    teams: Seq<GroupModel>,
)
    ensures
        forall|i: int, j: int|
            0 <= i < 7 && 0 <= j < pieces(form, existing, groups, teams)[i].len() ==> piece_of(
                (#[trigger] pieces(form, existing, groups, teams)[i][j]).field,
            ) == i,
{
    reveal(pieces);
    lemma_form_fields();
}

/// The value that a form gives to a field stands in the piece of that field.
proof fn lemma_form_value(
    form: EditFormModel,
    existing: UserModel,
    groups: Seq<GroupModel>,
    teams: Seq<GroupModel>,
    field: Seq<char>,
)
    ensures
        new_value(form_edits(form, existing, groups, teams), field) == new_value(
            pieces(form, existing, groups, teams)[piece_of(field)],
            field,
        ),
{
    let p = pieces(form, existing, groups, teams);
    lemma_new_value_of_both(p[0], p[1], field);
    lemma_new_value_of_both(p[0] + p[1], p[2], field);
    lemma_new_value_of_both(p[0] + p[1] + p[2], p[3], field);
    lemma_new_value_of_both(p[0] + p[1] + p[2] + p[3], p[4], field);
    lemma_new_value_of_both(p[0] + p[1] + p[2] + p[3] + p[4], p[5], field);
    lemma_new_value_of_both(p[0] + p[1] + p[2] + p[3] + p[4] + p[5], p[6], field);
    lemma_pieces(form, existing, groups, teams);
    assert forall|i: int| 0 <= i < 7 && i != piece_of(field) implies new_value(
        #[trigger] p[i],
        field,
    ) is None by {
        lemma_new_value_of_none(p[i], field);
    }
    assert(form_edits(form, existing, groups, teams) == p[0] + p[1] + p[2] + p[3] + p[4] + p[5]
        + p[6]) by {
        reveal(pieces);
    }
}

proof fn lemma_form_values(
    form: EditFormModel,
    existing: UserModel,
    groups: Seq<GroupModel>,
    teams: Seq<GroupModel>,
)
    ensures
        ({
            let diff = form_edits(form, existing, groups, teams);
            let chosen = non_empty(form.team_group_id);
            &&& or_held(new_value(diff, "first_name"@), existing.first_name) == or_held(
                form.first_name,
                existing.first_name,
            )
            &&& or_held(new_value(diff, "last_name"@), existing.last_name) == or_held(
                form.last_name,
                existing.last_name,
            )
            &&& or_held(new_value(diff, "email"@), existing.email) == or_held(
                form.email,
                existing.email,
            )
            &&& new_value(diff, "enabled"@) == (if ticked(form.enabled) == existing.enabled {
                None
            } else {
                Some(flag_text(ticked(form.enabled)))
            })
            &&& new_value(diff, "team"@) == (if chosen == current_team(groups, teams) {
                None
            } else {
                Some(team_name(teams, chosen))
            })
            &&& or_held(
                new_value(diff, "phone_number"@),
                first_value(existing.attributes, "phone_number"@),
            ) == or_empty(form.phone_number)
            &&& or_held(
                new_value(diff, "personnel_code"@),
                first_value(existing.attributes, "personnel_code"@),
            ) == or_empty(form.personnel_code)
        }),
{
    lemma_form_fields();
    lemma_form_value(form, existing, groups, teams, "first_name"@);
    lemma_form_value(form, existing, groups, teams, "last_name"@);
    lemma_form_value(form, existing, groups, teams, "email"@);
    lemma_form_value(form, existing, groups, teams, "enabled"@);
    lemma_form_value(form, existing, groups, teams, "team"@);
    lemma_form_value(form, existing, groups, teams, "phone_number"@);
    lemma_form_value(form, existing, groups, teams, "personnel_code"@);
    reveal(pieces);
    reveal_with_fuel(new_value, 3);
}

/// The first value of an attribute after a list of changed fields was carried out.
proof fn lemma_attribute_after(held: AttributesModel, diff: Seq<FieldChangeModel>, key: Seq<char>)
    ensures
        ({
            let after = merged_attributes(held, update_of(diff));
            if is_attribute(key) && new_value(diff, key) is Some {
                first_value(after, key) == new_value(diff, key)
            } else {
                after.dom().contains(key) == held.dom().contains(key) && (held.dom().contains(key)
                    ==> after[key] == held[key])
            }
        }),
{
    let new = new_attributes(diff);
    assert(new.dom().contains(key) == (is_attribute(key) && new_value(diff, key) is Some));
    if new == AttributesModel::empty() {
        assert(!new.dom().contains(key));
    }
}

/// An account holds, after an edit, what the form says; a field that the form leaves out keeps
/// its value, and so does every attribute that the form knows nothing of.
pub proof fn lemma_edits_reach_the_account(
    form: EditFormModel,
    existing: UserModel,
    groups: Seq<GroupModel>,
    teams: Seq<GroupModel>,
    key: Seq<char>,
)
    ensures
        ({
            let after = merged_account(
                existing,
                update_of(form_edits(form, existing, groups, teams)),
            );
            let chosen = non_empty(form.team_group_id);
            &&& after.first_name == or_held(form.first_name, existing.first_name)
            &&& after.last_name == or_held(form.last_name, existing.last_name)
            &&& after.email == or_held(form.email, existing.email)
            &&& after.enabled == ticked(form.enabled)
            &&& or_empty(first_value(after.attributes, "phone_number"@)) == or_empty(
                form.phone_number,
            )
            &&& or_empty(first_value(after.attributes, "personnel_code"@)) == or_empty(
                form.personnel_code,
            )
            &&& first_value(after.attributes, "team"@) == (if chosen == current_team(
                groups,
                teams,
            ) {
                first_value(existing.attributes, "team"@)
            } else {
                Some(team_name(teams, chosen))
            })
            &&& !is_attribute(key) ==> (after.attributes.dom().contains(key)
                == existing.attributes.dom().contains(key) && (existing.attributes.dom().contains(
                key,
            ) ==> after.attributes[key] == existing.attributes[key]))
        }),
{
    let diff = form_edits(form, existing, groups, teams);
    lemma_form_fields();
    lemma_form_values(form, existing, groups, teams);
    lemma_attribute_after(existing.attributes, diff, "phone_number"@);
    lemma_attribute_after(existing.attributes, diff, "personnel_code"@);
    lemma_attribute_after(existing.attributes, diff, "team"@);
    lemma_attribute_after(existing.attributes, diff, key);
}

/// A form makes no edits if, and only if, it says what the account holds already.
pub proof fn lemma_unchanged_forms_make_no_edits(
    form: EditFormModel,
    existing: UserModel,
    groups: Seq<GroupModel>,
    teams: Seq<GroupModel>,
)
    ensures
        (form_edits(form, existing, groups, teams).len() == 0) == {
            &&& form.first_name is None || form.first_name == existing.first_name
            &&& form.last_name is None || form.last_name == existing.last_name
            &&& form.email is None || form.email == existing.email
            &&& ticked(form.enabled) == existing.enabled
            &&& non_empty(form.team_group_id) == current_team(groups, teams)
            &&& or_empty(form.phone_number) == or_empty(
                first_value(existing.attributes, "phone_number"@),
            )
            &&& or_empty(form.personnel_code) == or_empty(
                first_value(existing.attributes, "personnel_code"@),
            )
        },
{
}

/// An edit moves the user to the team that the form chooses, if it is another one than theirs.
pub proof fn lemma_edits_move_the_team(
    form: EditFormModel,
    existing: UserModel,
    groups: Seq<GroupModel>,
    teams: Seq<GroupModel>,
)
    ensures
        ({
            let chosen = non_empty(form.team_group_id);
            match team_change(form_edits(form, existing, groups, teams)) {
                Some(field) => chosen != current_team(groups, teams) && field.after == or_empty(
                    chosen,
                ),
                None => chosen == current_team(groups, teams),
            }
        }),
{
    let diff = form_edits(form, existing, groups, teams);
    let moves = |f: FieldChangeModel| f.field == "team_group_id"@;
    let p = pieces(form, existing, groups, teams);
    let before = p[0] + p[1] + p[2] + p[3];
    let behind = p[5] + p[6];
    lemma_form_fields();
    lemma_pieces(form, existing, groups, teams);
    assert(diff =~= before + p[4] + behind) by {
        reveal(pieces);
    }
    assert forall|i: int| 0 <= i < before.len() implies !moves(#[trigger] before[i]) by {
        let a = p[0].len();
        let b = a + p[1].len();
        let c = b + p[2].len();
        if i < a {
            assert(before[i] == p[0][i]);
        } else if i < b {
            assert(before[i] == p[1][i - a]);
        } else if i < c {
            assert(before[i] == p[2][i - b]);
        } else {
            assert(before[i] == p[3][i - c]);
            reveal(pieces);
        }
    }
    assert forall|i: int| 0 <= i < behind.len() implies !moves(#[trigger] behind[i]) by {
        if i < p[5].len() {
            assert(behind[i] == p[5][i]);
        } else {
            assert(behind[i] == p[6][i - p[5].len()]);
        }
    }
    assert(p[4] == team_edit(
        non_empty(form.team_group_id),
        current_team(groups, teams),
        teams,
    )) by {
        reveal(pieces);
    }
    if p[4].len() == 0 {
        assert forall|i: int| 0 <= i < diff.len() implies !moves(#[trigger] diff[i]) by {
            if i < before.len() {
                assert(diff[i] == before[i]);
            } else {
                assert(diff[i] == behind[i - before.len()]);
            }
        }
        lemma_first_where_holds(diff, moves);
    } else {
        let n = before.len() as int;
        assert(diff[n] == p[4][0]);
        assert forall|i: int| 0 <= i < n implies !moves(#[trigger] diff.take(n)[i]) by {
            assert(diff.take(n)[i] == before[i]);
        }
        lemma_first_where_holds(diff.take(n), moves);
        lemma_first_where(diff, n, moves);
    }
}

/// A user who moves to a group leaves every other one that they are in, one after another.
pub proof fn lemma_every_other_group_is_left(
    realm: Seq<char>,
    user_id: Seq<char>,
    groups: Seq<GroupModel>,
    keep: Seq<char>,
    replies: Seq<ReplyModel>,
)
    ensures
        groups_left(realm, user_id, groups, keep, replies) matches Ask::Got(_, rest) ==> {
            let others = groups.filter(|g: GroupModel| g.id != keep);
            &&& replies.len() - rest.len() == others.len()
            &&& forall|i: int|
                0 <= i < others.len() ==> groups_left(
                    realm,
                    user_id,
                    groups,
                    keep,
                    #[trigger] replies.take(i),
                ) == Ask::<(), ReplyModel, StepModel>::Stop(
                    StepModel::Perform(
                        EffectModel::Provider(
                            ProviderCallModel::RemoveUserFromGroup {
                                realm,
                                user_id,
                                group_id: others[i].id,
                            },
                        ),
                    ),
                )
        },
    decreases groups.len(),
{
    let other = |g: GroupModel| g.id != keep;
    if groups.len() > 0 {
        let none = Seq::<GroupModel>::empty();
        let head = none.push(groups[0]);
        let tail = groups.skip(1);
        assert(groups =~= head + tail);
        Seq::filter_distributes_over_add(head, tail, other);
        lemma_filter_push(none, groups[0], other);
        none.lemma_filter_len(other);
        let others = groups.filter(other);
        if groups[0].id == keep {
            lemma_every_other_group_is_left(realm, user_id, tail, keep, replies);
            assert(others =~= tail.filter(other));
        } else if replies.len() > 0 {
            lemma_every_other_group_is_left(realm, user_id, tail, keep, replies.skip(1));
            assert(others =~= head + tail.filter(other));
            if groups_left(realm, user_id, groups, keep, replies) is Got {
                assert forall|i: int| 0 <= i < others.len() implies groups_left(
                    realm,
                    user_id,
                    groups,
                    keep,
                    #[trigger] replies.take(i),
                ) == Ask::<(), ReplyModel, StepModel>::Stop(
                    StepModel::Perform(
                        EffectModel::Provider(
                            ProviderCallModel::RemoveUserFromGroup {
                                realm,
                                user_id,
                                group_id: others[i].id,
                            },
                        ),
                    ),
                ) by {
                    if i > 0 {
                        assert(replies.take(i).skip(1) =~= replies.skip(1).take(i - 1));
                        assert(others[i] == tail.filter(other)[i - 1]);
                    }
                }
            }
        }
    }
}

} // verus!
