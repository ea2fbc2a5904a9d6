//! Editing an account.

use super::{
    closes, filled, first_group_with, group_opened, groups_found, leads_to, lemma_first, lemma_none,
    opened, refused, success, told, user_found, warning,
};
use super::fields::{
    all_replies, leaves, lemma_diff_ends, lemma_takes_effect, moves_at, says, takes_effect,
};
use crate::attributes::{first_value, AttributesModel};
use crate::asks::audit_asked;
use crate::config::ConfigModel;
use crate::effects::{Asked, EffectModel, OutcomeModel, ReplyModel};
use crate::error::{AppErrorModel, ProviderErrorModel};
use crate::laws::performs;
use crate::lists::sorted;
use crate::portal::{response, settled, RequestModel};
use crate::provider::{GroupModel, ProviderCallModel, UpdateUserModel, UserModel};
use crate::routes::{by_name, flash_left, holds_group, home_realm, user_path};
use crate::routes::users::edit::{
    current_team, edits_made, form_edits, status_edit, team_edit, team_name, user_edited,
    EditFormModel,
};
use crate::script::Ask;
use crate::service::changes::diff_applied;
use crate::session::{Role, SessionUserModel};
use crate::storage::{
    ChangeStatus, FieldChangeModel, PendingChangeModel, StorageAnswerModel, StorageCallModel,
};
use crate::text::{decimal, non_empty, ticked, trimmed};
use crate::time::StampModel;
use vstd::prelude::*;

verus! {

broadcast use group_opened;

/// A name or an address that was sent, and is another than the one that the account holds.
pub open spec fn text_changed(
    field: Seq<char>,
    sent: Option<Seq<char>>,
    held: Option<Seq<char>>,
) -> Seq<FieldChangeModel> {
    if sent is Some && sent != held {
        seq![FieldChangeModel { field, before: held, after: sent->0 }]
    } else {
        Seq::empty()
    }
}

/// How a status is written.
pub open spec fn status_word(enabled: bool) -> Seq<char> {
    if enabled {
        "true"@
    } else {
        "false"@
    }
}

/// A status that is another than the account's, and the reason that was given for it.
pub open spec fn status_changed(form: EditFormModel, held: bool) -> Seq<FieldChangeModel> {
    let enabled = form.enabled == Some("on"@);
    let changed = seq![
        FieldChangeModel {
            field: "enabled"@,
            before: Some(status_word(held)),
            after: status_word(enabled),
        },
    ];
    if enabled == held {
        Seq::empty()
    } else if form.status_reason is Some && trimmed(form.status_reason->0).len() > 0 {
        changed.push(
            FieldChangeModel {
                field: "status_reason"@,
                before: None,
                after: trimmed(form.status_reason->0),
            },
        )
    } else {
        changed
    }
}

/// A team that is another than the user's: its group, and the name that it is listed under.
pub open spec fn team_changed(
    form: EditFormModel,
    held: Option<Seq<char>>,
    name: Seq<char>,
) -> Seq<FieldChangeModel> {
    let chosen = filled(form.team_group_id);
    if chosen == held {
        Seq::empty()
    } else {
        seq![
            FieldChangeModel {
                field: "team_group_id"@,
                before: held,
                after: if chosen is Some {
                    chosen->0
                } else {
                    Seq::empty()
                },
            },
            FieldChangeModel { field: "team"@, before: None, after: name },
        ]
    }
}

/// The first value that an account holds under a key.
pub open spec fn held_value(attributes: AttributesModel, key: Seq<char>) -> Option<Seq<char>> {
    if attributes.dom().contains(key) && attributes[key].len() > 0 {
        Some(attributes[key][0])
    } else {
        None
    }
}

/// An attribute that was sent, and is another than the one that the account holds; what is
/// left out counts as empty.
pub open spec fn attribute_changed(
    key: Seq<char>,
    sent: Option<Seq<char>>,
    held: Option<Seq<char>>,
) -> Seq<FieldChangeModel> {
    let before = if held is Some {
        held->0
    } else {
        Seq::empty()
    };
    let after = if sent is Some {
        sent->0
    } else {
        Seq::empty()
    };
    if before == after {
        Seq::empty()
    } else {
        seq![FieldChangeModel { field: key, before: held, after }]
    }
}

/// All in which a form differs from an account.
pub open spec fn differences(
    form: EditFormModel,
    existing: UserModel,
    held_team: Option<Seq<char>>,
    team: Seq<char>,
) -> Seq<FieldChangeModel> {
    text_changed("first_name"@, form.first_name, existing.first_name) + text_changed(
        "last_name"@,
        form.last_name,
        existing.last_name,
    ) + text_changed("email"@, form.email, existing.email) + status_changed(form, existing.enabled)
        + team_changed(form, held_team, team) + attribute_changed(
        "phone_number"@,
        form.phone_number,
        held_value(existing.attributes, "phone_number"@),
    ) + attribute_changed(
        "personnel_code"@,
        form.personnel_code,
        held_value(existing.attributes, "personnel_code"@),
    )
}

/// The group is one of the teams.
pub open spec fn is_team(teams: Seq<GroupModel>, id: Seq<char>) -> bool {
    exists|i: int| 0 <= i < teams.len() && (#[trigger] teams[i]).id == id
}

/// The team of a user who is in `groups`: the first of them that is a team.
pub open spec fn team_is(
    groups: Seq<GroupModel>,
    teams: Seq<GroupModel>,
    team: Option<Seq<char>>,
) -> bool {
    match team {
        Some(id) => exists|i: int|
            0 <= i < groups.len() && (#[trigger] groups[i]).id == id && is_team(teams, id) && forall|
                j: int,
            |
                0 <= j < i ==> !is_team(teams, (#[trigger] groups[j]).id),
        None => forall|j: int| 0 <= j < groups.len() ==> !is_team(teams, (#[trigger] groups[j]).id),
    }
}

/// The name of a team: that of the first with this id, and empty where there is none.
pub open spec fn called(teams: Seq<GroupModel>, id: Option<Seq<char>>, name: Seq<char>) -> bool {
    ||| id is Some && exists|i: int| #[trigger]
        first_group_with(teams, i, id->0) && teams[i].name == name
    ||| (id is None || !is_team(teams, id->0)) && name.len() == 0
}

proof fn lemma_teams_of(
    groups: Seq<GroupModel>,
    teams: Seq<GroupModel>,
    held: Option<Seq<char>>,
    chosen: Option<Seq<char>>,
    name: Seq<char>,
)
    requires
        team_is(groups, teams, held),
        called(teams, chosen, name),
    ensures
        current_team(groups, teams) == held,
        team_name(teams, chosen) == name,
{
    let of_team = |g: GroupModel| holds_group(teams, g.id);
    assert forall|id: Seq<char>| is_team(teams, id) == #[trigger] holds_group(teams, id) by {}
    match held {
        Some(id) => {
            let i = choose|i: int|
                0 <= i < groups.len() && (#[trigger] groups[i]).id == id && is_team(teams, id)
                    && forall|j: int| 0 <= j < i ==> !is_team(teams, (#[trigger] groups[j]).id);
            assert forall|j: int| 0 <= j < i implies !of_team(#[trigger] groups[j]) by {
                assert(!is_team(teams, groups[j].id));
            }
            lemma_first(groups, i, of_team);
        },
        None => {
            assert forall|j: int| 0 <= j < groups.len() implies !of_team(#[trigger] groups[j]) by {
                assert(!is_team(teams, groups[j].id));
            }
            lemma_none(groups, of_team);
        },
    }
    if let Some(id) = chosen {
        let wanted = |g: GroupModel| g.id == id;
        if exists|i: int| #[trigger] first_group_with(teams, i, id) && teams[i].name == name {
            let i = choose|i: int| #[trigger]
                first_group_with(teams, i, id) && teams[i].name == name;
            lemma_first(teams, i, wanted);
        } else {
            assert forall|j: int| 0 <= j < teams.len() implies !wanted(#[trigger] teams[j]) by {
                assert(is_team(teams, teams[j].id));
            }
            lemma_none(teams, wanted);
            assert(name =~= Seq::empty());
        }
    } else {
        assert(name =~= Seq::empty());
    }
}

proof fn lemma_status_changed(form: EditFormModel, held: bool)
    ensures
        status_changed(form, held) == status_edit(ticked(form.enabled), held, form.status_reason),
{
    assert(status_changed(form, held) =~= status_edit(
        ticked(form.enabled),
        held,
        form.status_reason,
    ));
}

proof fn lemma_differences(
    form: EditFormModel,
    existing: UserModel,
    groups: Seq<GroupModel>,
    teams: Seq<GroupModel>,
    held: Option<Seq<char>>,
    team: Seq<char>,
)
    requires
        team_is(groups, teams, held),
        called(teams, filled(form.team_group_id), team),
    ensures
        differences(form, existing, held, team) == form_edits(form, existing, groups, teams),
{
    lemma_teams_of(groups, teams, held, filled(form.team_group_id), team);
    lemma_status_changed(form, existing.enabled);
    assert(filled(form.team_group_id) == non_empty(form.team_group_id));
    assert(team_changed(form, held, team) == team_edit(
        non_empty(form.team_group_id),
        current_team(groups, teams),
        teams,
    ));
    assert(held_value(existing.attributes, "phone_number"@) == first_value(
        existing.attributes,
        "phone_number"@,
    ));
    assert(held_value(existing.attributes, "personnel_code"@) == first_value(
        existing.attributes,
        "personnel_code"@,
    ));
}

/// The replies that an edit begins with: the account, the groups of the user, and all groups.
pub open spec fn looked_up(
    existing: UserModel,
    groups: Seq<GroupModel>,
    listed: Seq<GroupModel>,
) -> Seq<ReplyModel> {
    seq![user_found(existing), groups_found(groups), groups_found(listed)]
}

/// An edit first looks up the account, the groups of the user, and all groups of the realm.
/// An operator edits in the realm that users sign in to, and nowhere else.
pub proof fn lemma_edits_look_first(
    config: ConfigModel,
    realm: Seq<char>,
    id: Seq<char>,
    form: EditFormModel,
    head: Seq<ReplyModel>,
    user: SessionUserModel,
    existing: UserModel,
    groups: Seq<GroupModel>,
)
    requires
        opened(config, form.csrf_token, head, user),
    ensures
        ({
            let request = RequestModel::EditUser { realm, id, form };
            if user.role == Role::Operator && realm != home_realm(config) {
                refused(config, request, head, AppErrorModel::Forbidden)
            } else {
                &&& performs(
                    config,
                    request,
                    head,
                    EffectModel::Provider(ProviderCallModel::GetUser { realm, id }),
                )
                &&& performs(
                    config,
                    request,
                    head + seq![user_found(existing)],
                    EffectModel::Provider(ProviderCallModel::GetUserGroups { realm, user_id: id }),
                )
                &&& performs(
                    config,
                    request,
                    head + seq![user_found(existing), groups_found(groups)],
                    EffectModel::Provider(ProviderCallModel::ListGroups { realm }),
                )
            }
        }),
{
    reveal(user_edited);
    assert(head + Seq::empty() =~= head);
}

proof fn lemma_edits_come_to(
    config: ConfigModel,
    realm: Seq<char>,
    id: Seq<char>,
    form: EditFormModel,
    head: Seq<ReplyModel>,
    user: SessionUserModel,
    existing: UserModel,
    groups: Seq<GroupModel>,
    listed: Seq<GroupModel>,
    held: Option<Seq<char>>,
    team: Seq<char>,
    tail: Seq<ReplyModel>,
)
    requires
        opened(config, form.csrf_token, head, user),
        user.role == Role::Operator ==> realm == home_realm(config),
        team_is(groups, sorted(listed, by_name()), held),
        called(sorted(listed, by_name()), filled(form.team_group_id), team),
    ensures
        response(
            config,
            RequestModel::EditUser { realm, id, form },
            head + looked_up(existing, groups, listed) + tail,
        ) == settled(
            edits_made(
                user,
                realm,
                id,
                existing.username,
                differences(form, existing, held, team),
                tail,
            ),
        ),
{
    reveal(user_edited);
    let teams = sorted(listed, by_name());
    let looked = looked_up(existing, groups, listed);
    lemma_differences(form, existing, groups, teams, held, team);
    assert(head + looked + tail =~= head + (looked + tail));
    assert((looked + tail)[0] == user_found(existing));
    assert((looked + tail).skip(1)[0] == groups_found(groups));
    assert((looked + tail).skip(1).skip(1)[0] == groups_found(listed));
    assert((looked + tail).skip(1).skip(1).skip(1) =~= tail);
}

/// A form that says what the account holds changes nothing: the browser is sent back at once.
pub proof fn lemma_unchanged_accounts_are_left_alone(
    config: ConfigModel,
    realm: Seq<char>,
    id: Seq<char>,
    form: EditFormModel,
    head: Seq<ReplyModel>,
    user: SessionUserModel,
    existing: UserModel,
    groups: Seq<GroupModel>,
    listed: Seq<GroupModel>,
    held: Option<Seq<char>>,
    team: Seq<char>,
)
    requires
        opened(config, form.csrf_token, head, user),
        user.role == Role::Operator ==> realm == home_realm(config),
        team_is(groups, sorted(listed, by_name()), held),
        called(sorted(listed, by_name()), filled(form.team_group_id), team),
        differences(form, existing, held, team).len() == 0,
    ensures
        leads_to(
            config,
            RequestModel::EditUser { realm, id, form },
            head + looked_up(existing, groups, listed),
            "/users/"@ + realm + "/"@ + id,
        ),
{
    lemma_edits_come_to(
        config,
        realm,
        id,
        form,
        head,
        user,
        existing,
        groups,
        listed,
        held,
        team,
        Seq::empty(),
    );
    let start = head + looked_up(existing, groups, listed);
    assert(start + Seq::empty() =~= start);
}

/// An admin's edit takes effect at once: all in which the form differs from the account, for
/// the user whom the request names. Then it is told the log.
pub proof fn lemma_admins_edits_take_effect(
    config: ConfigModel,
    realm: Seq<char>,
    id: Seq<char>,
    form: EditFormModel,
    head: Seq<ReplyModel>,
    user: SessionUserModel,
    existing: UserModel,
    groups: Seq<GroupModel>,
    listed: Seq<GroupModel>,
    held: Option<Seq<char>>,
    team: Seq<char>,
    update: UpdateUserModel,
    i: int,
    joined: Seq<GroupModel>,
    n: nat,
    stamp: StampModel,
    error: ProviderErrorModel,
    problem: Seq<char>,
)
    requires
        opened(config, form.csrf_token, head, user),
        user.role == Role::Admin,
        team_is(groups, sorted(listed, by_name()), held),
        called(sorted(listed, by_name()), filled(form.team_group_id), team),
        differences(form, existing, held, team).len() > 0,
        says(differences(form, existing, held, team), update),
        !leaves(differences(form, existing, held, team), "team_group_id"@) ==> moves_at(
            differences(form, existing, held, team),
            i,
        ),
    ensures
        ({
            let request = RequestModel::EditUser { realm, id, form };
            let diff = differences(form, existing, held, team);
            let start = head + looked_up(existing, groups, listed);
            &&& takes_effect(
                config,
                request,
                start,
                realm,
                id,
                diff,
                update,
                i,
                joined,
                n,
                error,
            )
            &&& closes(
                config,
                request,
                start + all_replies(diff, i, joined),
                Seq::empty(),
                stamp,
                told(
                    stamp,
                    user.username,
                    "edit_user"@,
                    realm,
                    Some(existing.username),
                    decimal(diff.len()) + " field(s) changed"@,
                ),
                success("User updated."@),
                "/users/"@ + realm + "/"@ + id,
                problem,
            )
        }),
{
    let request = RequestModel::EditUser { realm, id, form };
    let diff = differences(form, existing, held, team);
    let start = head + looked_up(existing, groups, listed);
    let all = all_replies(diff, i, joined);
    assert forall|tail: Seq<ReplyModel>|
        (#[trigger] diff_applied(realm, id, diff, tail)) is Stop implies response(
        config,
        request,
        start + tail,
    ) == diff_applied(realm, id, diff, tail)->Stop_0 by {
        lemma_edits_come_to(
            config,
            realm,
            id,
            form,
            head,
            user,
            existing,
            groups,
            listed,
            held,
            team,
            tail,
        );
    }
    lemma_takes_effect(config, request, start, realm, id, diff, update, i, joined, n, error);
    let done = ReplyModel::Storage(StorageAnswerModel::Done);
    let lost = ReplyModel::Storage(StorageAnswerModel::Failed(problem));
    let t0 = Seq::<ReplyModel>::empty();
    let t1 = t0.push(ReplyModel::Stamp(stamp));
    let t2 = t1.push(done);
    let t3 = t2.push(ReplyModel::Done);
    lemma_edit_ends(config, realm, id, form, head, user, existing, groups, listed, held, team, i, joined, t0);
    lemma_edit_ends(config, realm, id, form, head, user, existing, groups, listed, held, team, i, joined, t1);
    lemma_edit_ends(config, realm, id, form, head, user, existing, groups, listed, held, team, i, joined, t1.push(lost));
    lemma_edit_ends(config, realm, id, form, head, user, existing, groups, listed, held, team, i, joined, t2);
    lemma_edit_ends(config, realm, id, form, head, user, existing, groups, listed, held, team, i, joined, t3);
}

/// What is left of an admin's edit once it has taken effect.
spec fn after_edit(
    user: SessionUserModel,
    realm: Seq<char>,
    id: Seq<char>,
    username: Seq<char>,
    count: nat,
    tail: Seq<ReplyModel>,
) -> Asked<OutcomeModel> {
    match audit_asked(
        user.username,
        "edit_user"@,
        realm,
        Some(username),
        decimal(count) + " field(s) changed"@,
        tail,
    ) {
        Ask::Stop(stop) => Ask::Stop(stop),
        Ask::Got(_, rest) => flash_left(success("User updated."@), user_path(realm, id), rest),
    }
}

proof fn lemma_edit_ends(
    config: ConfigModel,
    realm: Seq<char>,
    id: Seq<char>,
    form: EditFormModel,
    head: Seq<ReplyModel>,
    user: SessionUserModel,
    existing: UserModel,
    groups: Seq<GroupModel>,
    listed: Seq<GroupModel>,
    held: Option<Seq<char>>,
    team: Seq<char>,
    i: int,
    joined: Seq<GroupModel>,
    tail: Seq<ReplyModel>,
)
    requires
        opened(config, form.csrf_token, head, user),
        user.role == Role::Admin,
        team_is(groups, sorted(listed, by_name()), held),
        called(sorted(listed, by_name()), filled(form.team_group_id), team),
        differences(form, existing, held, team).len() > 0,
        !leaves(differences(form, existing, held, team), "team_group_id"@) ==> moves_at(
            differences(form, existing, held, team),
            i,
        ),
    ensures
        ({
            let diff = differences(form, existing, held, team);
            response(
                config,
                RequestModel::EditUser { realm, id, form },
                head + looked_up(existing, groups, listed) + all_replies(diff, i, joined) + tail,
            ) == settled(after_edit(user, realm, id, existing.username, diff.len(), tail))
        }),
{
    let diff = differences(form, existing, held, team);
    let all = all_replies(diff, i, joined);
    let start = head + looked_up(existing, groups, listed);
    lemma_edits_come_to(
        config,
        realm,
        id,
        form,
        head,
        user,
        existing,
        groups,
        listed,
        held,
        team,
        all + tail,
    );
    assert(start + all + tail =~= start + (all + tail));
    lemma_diff_ends(realm, id, diff, i, joined, tail);
}

/// An operator's edit is put into the queue: a pending change that holds all in which the form
/// differs from the account, about the user whom the request names. No account is changed.
pub proof fn lemma_operators_edits_are_queued(
    config: ConfigModel,
    realm: Seq<char>,
    id: Seq<char>,
    form: EditFormModel,
    head: Seq<ReplyModel>,
    user: SessionUserModel,
    existing: UserModel,
    groups: Seq<GroupModel>,
    listed: Seq<GroupModel>,
    held: Option<Seq<char>>,
    team: Seq<char>,
    first: StampModel,
    second: StampModel,
    problem: Seq<char>,
)
    requires
        opened(config, form.csrf_token, head, user),
        user.role == Role::Operator,
        realm == home_realm(config),
        team_is(groups, sorted(listed, by_name()), held),
        called(sorted(listed, by_name()), filled(form.team_group_id), team),
        differences(form, existing, held, team).len() > 0,
    ensures
        ({
            let request = RequestModel::EditUser { realm, id, form };
            let start = head + looked_up(existing, groups, listed);
            let saved = ReplyModel::Storage(StorageAnswerModel::Done);
            let lost = ReplyModel::Storage(StorageAnswerModel::Failed(problem));
            &&& performs(config, request, start, EffectModel::NewStamp)
            &&& performs(
                config,
                request,
                start + seq![ReplyModel::Stamp(first)],
                EffectModel::Storage(
                    StorageCallModel::SaveChange(
                        PendingChangeModel {
                            id: first.id,
                            realm,
                            user_id: id,
                            username: existing.username,
                            proposed_by: user.username,
                            proposed_at: first.at,
                            status: ChangeStatus::Pending,
                            resolved_by: None,
                            resolved_at: None,
                            reject_reason: None,
                            diff: differences(form, existing, held, team),
                            action: "edit_user"@,
                        },
                    ),
                ),
            )
            &&& refused(
                config,
                request,
                start + seq![ReplyModel::Stamp(first), lost],
                AppErrorModel::Internal(problem),
            )
            &&& closes(
                config,
                request,
                start,
                seq![ReplyModel::Stamp(first), saved],
                second,
                told(
                    second,
                    user.username,
                    "propose_change"@,
                    realm,
                    Some(existing.username),
                    "change "@ + first.id + " pending approval"@,
                ),
                warning("Change proposed and queued for admin approval."@),
                "/users/"@ + realm + "/"@ + id,
                problem,
            )
        }),
{
    let start = head + looked_up(existing, groups, listed);
    let saved = ReplyModel::Storage(StorageAnswerModel::Done);
    let lost = ReplyModel::Storage(StorageAnswerModel::Failed(problem));
    let t1 = seq![ReplyModel::Stamp(first)];
    let t2 = seq![ReplyModel::Stamp(first), saved];
    let t3 = t2.push(ReplyModel::Stamp(second));
    let t4 = t3.push(saved);
    let t5 = t4.push(ReplyModel::Done);
    assert(start + Seq::empty() =~= start);
    lemma_edits_come_to(config, realm, id, form, head, user, existing, groups, listed, held, team, Seq::empty());
    lemma_edits_come_to(config, realm, id, form, head, user, existing, groups, listed, held, team, t1);
    lemma_edits_come_to(config, realm, id, form, head, user, existing, groups, listed, held, team, seq![ReplyModel::Stamp(first), lost]);
    lemma_edits_come_to(config, realm, id, form, head, user, existing, groups, listed, held, team, t2);
    lemma_edits_come_to(config, realm, id, form, head, user, existing, groups, listed, held, team, t3);
    lemma_edits_come_to(config, realm, id, form, head, user, existing, groups, listed, held, team, t3.push(lost));
    lemma_edits_come_to(config, realm, id, form, head, user, existing, groups, listed, held, team, t4);
    lemma_edits_come_to(config, realm, id, form, head, user, existing, groups, listed, held, team, t5);
}

} // verus!
