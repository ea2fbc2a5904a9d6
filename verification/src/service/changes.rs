//! Turning a list of changed fields into changes at the identity provider.

use crate::asks::{ask_groups, ask_mutation, groups_asked, mutation_asked};
use crate::attributes::{Attributes, AttributesModel};
use crate::effects::{Asked, Replies, ReplyModel, Step};
use crate::lists::{find, first_where};
use crate::provider::{
    no_update, Group, GroupModel, ProviderCall, ProviderCallModel, UpdateUser, UpdateUserModel,
};
use crate::script::{answers, Ask};
use crate::storage::{FieldChange, FieldChangeModel};
use crate::text::same;
use vstd::prelude::*;

verus! {

/// What the last change of `field` sets it to, if there is one.
pub open spec fn new_value(diff: Seq<FieldChangeModel>, field: Seq<char>) -> Option<Seq<char>>
    decreases diff.len(),
{
    if diff.len() == 0 {
        None
    } else if diff.last().field == field {
        Some(diff.last().after)
    } else {
        new_value(diff.drop_last(), field)
    }
}

/// The fields that are kept as user attributes.
pub open spec fn is_attribute(field: Seq<char>) -> bool {
    field == "team"@ || field == "phone_number"@ || field == "personnel_code"@
}

/// The attributes that a list of changed fields sets.
pub open spec fn new_attributes(diff: Seq<FieldChangeModel>) -> AttributesModel {
    Map::new(
        |field: Seq<char>| is_attribute(field) && new_value(diff, field) is Some,
        |field: Seq<char>| seq![new_value(diff, field)->0],
    )
}

/// The one update that a list of changed fields amounts to.
pub open spec fn update_of(diff: Seq<FieldChangeModel>) -> UpdateUserModel {
    UpdateUserModel {
        email: new_value(diff, "email"@),
        first_name: new_value(diff, "first_name"@),
        last_name: new_value(diff, "last_name"@),
        enabled: match new_value(diff, "enabled"@) {
            Some(value) => Some(value == "true"@),
            None => None,
        },
        phone_number: None,
        personnel_code: None,
        attributes: if new_attributes(diff) == AttributesModel::empty() {
            None
        } else {
            Some(new_attributes(diff))
        },
    }
}

/// The names of the fields all differ.
proof fn lemma_field_names()
    ensures
        "first_name"@.len() == 10,
        "last_name"@.len() == 9,
        "email"@.len() == 5,
        "enabled"@.len() == 7,
        "team"@.len() == 4,
        "phone_number"@.len() == 12,
        "personnel_code"@.len() == 14,
{
    reveal_strlit("first_name");
    reveal_strlit("last_name");
    reveal_strlit("email");
    reveal_strlit("enabled");
    reveal_strlit("team");
    reveal_strlit("phone_number");
    reveal_strlit("personnel_code");
}

/// Collects a list of changed fields into one update. A later change of a field wins.
pub fn diff_to_update(diff: &[FieldChange]) -> (r: UpdateUser)
    ensures
        r.deep_view() == update_of(diff.deep_view()),
{
    let ghost whole = diff.deep_view();
    let mut update = UpdateUser::default();
    let mut attrs = Attributes::new();
    let mut i: usize = 0;
    proof {
        lemma_field_names();
        assert(whole.take(0) =~= Seq::empty());
        assert(new_attributes(whole.take(0)) =~= AttributesModel::empty());
    }
    while i < diff.len()
        invariant
            i <= diff@.len(),
            whole == diff.deep_view(),
            update.deep_view() == (UpdateUserModel {
                attributes: None,
                ..update_of(whole.take(i as int))
            }),
            attrs.deep_view() == new_attributes(whole.take(i as int)),
        decreases diff@.len() - i,
    {
        let field = &diff[i];
        let name = field.field.as_str();
        let ghost before = whole.take(i as int);
        let ghost now = whole.take(i + 1);
        let ghost old_attrs = attrs.deep_view();
        proof {
            lemma_field_names();
            assert(now.drop_last() =~= before);
            assert(now.last() == field.deep_view());
        }
        if same(name, "first_name") {
            update.first_name = Some(field.after.clone());
        } else if same(name, "last_name") {
            update.last_name = Some(field.after.clone());
        } else if same(name, "email") {
            update.email = Some(field.after.clone());
        } else if same(name, "enabled") {
            update.enabled = Some(same(field.after.as_str(), "true"));
        } else if same(name, "team") || same(name, "phone_number") || same(name, "personnel_code") {
            let values = vec![field.after.clone()];
            assert(values.deep_view() =~= seq![field.after@]);
            attrs.insert(field.field.clone(), values);
        }
        proof {
            assert forall|k: Seq<char>| k != field.field@ implies new_value(now, k) == new_value(
                before,
                k,
            ) by {}
            if is_attribute(field.field@) {
                assert(new_attributes(now) =~= old_attrs.insert(
                    field.field@,
                    seq![field.after@],
                ));
            } else {
                assert(new_attributes(now) =~= new_attributes(before));
            }
        }
        i = i + 1;
    }
    assert(whole.take(i as int) =~= whole);
    if !attrs.is_empty() {
        update.attributes = Some(attrs);
    }
    update
}

/// Whether an update changes anything.
pub open spec fn changes_any(update: UpdateUserModel) -> bool {
    update != no_update()
}

/// Whether an update changes anything.
pub fn has_any_change(update: &UpdateUser) -> (r: bool)
    ensures
        r == changes_any(update.deep_view()),
{
    update.first_name.is_some() || update.last_name.is_some() || update.email.is_some()
        || update.enabled.is_some() || update.phone_number.is_some()
        || update.personnel_code.is_some() || update.attributes.is_some()
}

/// A user leaves every one of `groups` but `keep`.
pub open spec fn groups_left(
    realm: Seq<char>,
    user_id: Seq<char>,
    groups: Seq<GroupModel>,
    keep: Seq<char>,
    replies: Seq<ReplyModel>,
) -> Asked<()>
    decreases groups.len(),
{
    if groups.len() == 0 {
        Ask::Got((), replies)
    } else if groups[0].id == keep {
        groups_left(realm, user_id, groups.skip(1), keep, replies)
    } else {
        match mutation_asked(
            ProviderCallModel::RemoveUserFromGroup { realm, user_id, group_id: groups[0].id },
            replies,
        ) {
            Ask::Stop(stop) => Ask::Stop(stop),
            Ask::Got(_, rest) => groups_left(realm, user_id, groups.skip(1), keep, rest),
        }
    }
}

pub(crate) fn leave_groups(
    cursor: &mut Replies<'_>,
    realm: &str,
    user_id: &str,
    groups: &Vec<Group>,
    keep: &str,
) -> (r: Result<(), Step>)
    ensures
        answers(
            r,
            final(cursor).rest(),
            groups_left(realm@, user_id@, groups.deep_view(), keep@, old(cursor).rest()),
        ),
{
    let ghost whole = groups.deep_view();
    let ghost start = cursor.rest();
    let mut i: usize = 0;
    assert(whole.skip(0) =~= whole);
    while i < groups.len()
        invariant
            i <= groups@.len(),
            whole == groups.deep_view(),
            start == old(cursor).rest(),
            groups_left(realm@, user_id@, whole, keep@, start) == groups_left(
                realm@,
                user_id@,
                whole.skip(i as int),
                keep@,
                cursor.rest(),
            ),
        decreases groups@.len() - i,
    {
        assert(whole.skip(i as int).skip(1) =~= whole.skip(i + 1));
        assert(whole.skip(i as int)[0] == groups@[i as int].deep_view());
        let id = &groups[i].id;
        if !same(id.as_str(), keep) {
            ask_mutation(
                cursor,
                ProviderCall::RemoveUserFromGroup {
                    realm: realm.to_string(),
                    user_id: user_id.to_string(),
                    group_id: id.clone(),
                },
            )?;
        }
        i = i + 1;
    }
    Ok(())
}

/// A user leaves every group but `group_id` and joins that one, unless it is empty.
pub open spec fn team_moved(
    realm: Seq<char>,
    user_id: Seq<char>,
    group_id: Seq<char>,
    replies: Seq<ReplyModel>,
) -> Asked<()> {
    match groups_asked(ProviderCallModel::GetUserGroups { realm, user_id }, replies) {
        Ask::Stop(stop) => Ask::Stop(stop),
        Ask::Got(groups, rest) => match groups_left(realm, user_id, groups, group_id, rest) {
            Ask::Stop(stop) => Ask::Stop(stop),
            Ask::Got(_, rest) => if group_id.len() == 0 {
                Ask::Got((), rest)
            } else {
                mutation_asked(ProviderCallModel::AddUserToGroup { realm, user_id, group_id }, rest)
            },
        },
    }
}

fn move_team(cursor: &mut Replies<'_>, realm: &str, user_id: &str, group_id: &str) -> (r: Result<
    (),
    Step,
>)
    ensures
        answers(
            r,
            final(cursor).rest(),
            team_moved(realm@, user_id@, group_id@, old(cursor).rest()),
        ),
{
    let groups = ask_groups(
        cursor,
        ProviderCall::GetUserGroups { realm: realm.to_string(), user_id: user_id.to_string() },
    )?;
    leave_groups(cursor, realm, user_id, &groups, group_id)?;
    if group_id.is_empty() {
        Ok(())
    } else {
        ask_mutation(
            cursor,
            ProviderCall::AddUserToGroup {
                realm: realm.to_string(),
                user_id: user_id.to_string(),
                group_id: group_id.to_string(),
            },
        )
    }
}

/// The first change of the group that stands for the user's team.
pub open spec fn team_change(diff: Seq<FieldChangeModel>) -> Option<FieldChangeModel> {
    first_where(diff, |f: FieldChangeModel| f.field == "team_group_id"@)
}

pub(crate) fn find_team_change(diff: &Vec<FieldChange>) -> (r: Option<&FieldChange>)
    ensures
        r.deep_view() == team_change(diff.deep_view()),
{
    let ghost wanted = |f: FieldChangeModel| f.field == "team_group_id"@;
    let names_team = |f: &FieldChange| -> (b: bool)
        ensures
            b == wanted(f.deep_view()),
        { same(f.field.as_str(), "team_group_id") };
    find(diff, names_team, Ghost(wanted))
}

/// The fields that are part of the account, as one update.
pub open spec fn fields_applied(
    realm: Seq<char>,
    user_id: Seq<char>,
    diff: Seq<FieldChangeModel>,
    replies: Seq<ReplyModel>,
) -> Asked<()> {
    if changes_any(update_of(diff)) {
        mutation_asked(
            ProviderCallModel::UpdateUser { realm, id: user_id, update: update_of(diff) },
            replies,
        )
    } else {
        Ask::Got((), replies)
    }
}

/// A list of changed fields takes effect: those of the account in one update, and then the
/// move to another team.
pub open spec fn diff_applied(
    realm: Seq<char>,
    user_id: Seq<char>,
    diff: Seq<FieldChangeModel>,
    replies: Seq<ReplyModel>,
) -> Asked<()> {
    match fields_applied(realm, user_id, diff, replies) {
        Ask::Stop(stop) => Ask::Stop(stop),
        Ask::Got(_, rest) => match team_change(diff) {
            None => Ask::Got((), rest),
            Some(field) => team_moved(realm, user_id, field.after, rest),
        },
    }
}

/// Lets a list of changed fields take effect.
pub fn apply_change_diff(
    cursor: &mut Replies<'_>,
    realm: &str,
    user_id: &str,
    diff: &Vec<FieldChange>,
) -> (r: Result<(), Step>)
    ensures
        answers(
            r,
            final(cursor).rest(),
            diff_applied(realm@, user_id@, diff.deep_view(), old(cursor).rest()),
        ),
{
    let fields = diff.as_slice();
    assert(fields.deep_view() =~= diff.deep_view());
    let update = diff_to_update(fields);
    if has_any_change(&update) {
        ask_mutation(
            cursor,
            ProviderCall::UpdateUser { realm: realm.to_string(), id: user_id.to_string(), update },
        )?;
    }
    match find_team_change(diff) {
        None => Ok(()),
        Some(field) => move_team(cursor, realm, user_id, field.after.as_str()),
    }
}

} // verus!
