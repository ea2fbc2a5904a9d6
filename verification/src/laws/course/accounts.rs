//! Creating accounts.

use super::{
    broke, filled, first_group_with, group_opened, groups_found, leads_to, lemma_first, lemma_none,
    made, opened, refused, success, told, user_found,
};
use crate::attributes::AttributesModel;
use crate::config::ConfigModel;
use crate::effects::{EffectModel, ReplyModel};
use crate::error::{AppErrorModel, ProviderErrorModel};
use crate::laws::performs;
use crate::portal::{response, RequestModel};
use crate::provider::{CreateUserModel, GroupModel, ProviderCallModel, UserModel};
use crate::routes::group_with;
use crate::routes::users::create::{user_created, NewUserFormModel};
use crate::session::{Role, SessionUserModel};
use crate::storage::StorageAnswerModel;
use crate::time::StampModel;
use vstd::prelude::*;

verus! {

broadcast use group_opened;

/// The account holds what the form holds, field by field: an empty field counts as none, a box
/// as ticked if it says so. Of attributes it has the name of the team, where there is one.
pub open spec fn as_the_form_says(
    form: NewUserFormModel,
    team: Option<GroupModel>,
    account: CreateUserModel,
) -> bool {
    &&& account.username == form.username
    &&& account.email == filled(form.email)
    &&& account.first_name == filled(form.first_name)
    &&& account.last_name == filled(form.last_name)
    &&& account.password == filled(form.password)
    &&& account.phone_number == filled(form.phone_number)
    &&& account.personnel_code == filled(form.personnel_code)
    &&& account.enabled == (form.enabled == Some("on"@))
    &&& account.password_temporary == (form.password_temporary == Some("on"@))
    &&& forall|key: Seq<char>|
        #![trigger account.attributes.dom().contains(key)]
        account.attributes.dom().contains(key) == (key == "team"@ && team is Some)
    &&& team is Some ==> account.attributes["team"@] == seq![team->0.name]
}

/// After `head` and `tail` the account that a form describes is created and told the log; the
/// new user joins the chosen team, and the browser is sent to them.
pub open spec fn creates(
    config: ConfigModel,
    form: NewUserFormModel,
    head: Seq<ReplyModel>,
    tail: Seq<ReplyModel>,
    user: SessionUserModel,
    team: Option<GroupModel>,
    account: CreateUserModel,
    created: UserModel,
    stamp: StampModel,
    error: ProviderErrorModel,
    problem: Seq<char>,
) -> bool {
    let request = RequestModel::CreateUser(form);
    let there = tail.push(user_found(created));
    let drawn = there.push(ReplyModel::Stamp(stamp));
    let lost = drawn.push(ReplyModel::Storage(StorageAnswerModel::Failed(problem)));
    let logged = drawn.push(ReplyModel::Storage(StorageAnswerModel::Done));
    let joined = if team is Some {
        logged.push(made())
    } else {
        logged
    };
    &&& performs(
        config,
        request,
        head + tail,
        EffectModel::Provider(ProviderCallModel::CreateUser { realm: form.realm, user: account }),
    )
    &&& refused(config, request, head + tail.push(broke(error)), AppErrorModel::Provider(error))
    &&& performs(config, request, head + there, EffectModel::NewStamp)
    &&& performs(
        config,
        request,
        head + drawn,
        told(
            stamp,
            user.username,
            "create_user"@,
            form.realm,
            Some(form.username),
            "user created"@,
        ),
    )
    &&& refused(config, request, head + lost, AppErrorModel::Internal(problem))
    &&& team is Some ==> {
        &&& performs(
            config,
            request,
            head + logged,
            EffectModel::Provider(
                ProviderCallModel::AddUserToGroup {
                    realm: form.realm,
                    user_id: created.id,
                    group_id: team->0.id,
                },
            ),
        )
        &&& refused(
            config,
            request,
            head + logged.push(broke(error)),
            AppErrorModel::Provider(error),
        )
    }
    &&& performs(
        config,
        request,
        head + joined,
        EffectModel::StoreFlash(success("User "@ + form.username + " created."@)),
    )
    &&& leads_to(
        config,
        request,
        head + joined.push(ReplyModel::Done),
        "/users/"@ + form.realm + "/"@ + created.id,
    )
}

proof fn lemma_creates(
    config: ConfigModel,
    form: NewUserFormModel,
    head: Seq<ReplyModel>,
    tail: Seq<ReplyModel>,
    user: SessionUserModel,
    team: Option<GroupModel>,
    account: CreateUserModel,
    created: UserModel,
    stamp: StampModel,
    error: ProviderErrorModel,
    problem: Seq<char>,
    groups: Seq<GroupModel>,
)
    requires
        opened(config, form.csrf_token, head, user),
        user.role == Role::Admin,
        as_the_form_says(form, team, account),
        match filled(form.team_group_id) {
            None => team is None && tail == Seq::<ReplyModel>::empty(),
            Some(id) => tail == seq![groups_found(groups)] && team == group_with(groups, id),
        },
    ensures
        creates(
            config,
            form,
            head,
            tail,
            user,
            team,
            account,
            created,
            stamp,
            error,
            problem,
        ),
{
    reveal(user_created);
    match team {
        None => {
            assert(account.attributes =~= AttributesModel::empty());
        },
        Some(group) => {
            assert(account.attributes =~= AttributesModel::empty().insert(
                "team"@,
                seq![group.name],
            ));
        },
    }
}

/// A new account holds exactly what the form holds. A team that was chosen, and is one of the
/// realm's groups, is joined, and its name kept with the account.
pub proof fn lemma_accounts_are_created_as_described(
    config: ConfigModel,
    form: NewUserFormModel,
    head: Seq<ReplyModel>,
    user: SessionUserModel,
    groups: Seq<GroupModel>,
    i: int,
    account: CreateUserModel,
    created: UserModel,
    stamp: StampModel,
    error: ProviderErrorModel,
    problem: Seq<char>,
)
    requires
        opened(config, form.csrf_token, head, user),
        user.role == Role::Admin,
    ensures
        match filled(form.team_group_id) {
            None => as_the_form_says(form, None, account) ==> creates(
                config,
                form,
                head,
                Seq::empty(),
                user,
                None,
                account,
                created,
                stamp,
                error,
                problem,
            ),
            Some(id) => {
                &&& performs(
                    config,
                    RequestModel::CreateUser(form),
                    head,
                    EffectModel::Provider(ProviderCallModel::ListGroups { realm: form.realm }),
                )
                &&& refused(
                    config,
                    RequestModel::CreateUser(form),
                    head + seq![broke(error)],
                    AppErrorModel::Provider(error),
                )
                &&& first_group_with(groups, i, id) && as_the_form_says(
                    form,
                    Some(groups[i]),
                    account,
                ) ==> creates(
                    config,
                    form,
                    head,
                    seq![groups_found(groups)],
                    user,
                    Some(groups[i]),
                    account,
                    created,
                    stamp,
                    error,
                    problem,
                )
                &&& (forall|j: int| 0 <= j < groups.len() ==> (#[trigger] groups[j]).id != id)
                    && as_the_form_says(form, None, account) ==> creates(
                    config,
                    form,
                    head,
                    seq![groups_found(groups)],
                    user,
                    None,
                    account,
                    created,
                    stamp,
                    error,
                    problem,
                )
            },
        },
{
    reveal(user_created);
    assert(head + Seq::<ReplyModel>::empty() =~= head);
    if let Some(id) = filled(form.team_group_id) {
        let wanted = |g: GroupModel| g.id == id;
        let listed = seq![groups_found(groups)];
        if first_group_with(groups, i, id) && as_the_form_says(form, Some(groups[i]), account) {
            lemma_first(groups, i, wanted);
            lemma_creates(
                config,
                form,
                head,
                listed,
                user,
                Some(groups[i]),
                account,
                created,
                stamp,
                error,
                problem,
                groups,
            );
        }
        if (forall|j: int| 0 <= j < groups.len() ==> (#[trigger] groups[j]).id != id)
            && as_the_form_says(form, None, account) {
            lemma_none(groups, wanted);
            lemma_creates(
                config,
                form,
                head,
                listed,
                user,
                None,
                account,
                created,
                stamp,
                error,
                problem,
                groups,
            );
        }
    } else if as_the_form_says(form, None, account) {
        lemma_creates(
            config,
            form,
            head,
            Seq::empty(),
            user,
            None,
            account,
            created,
            stamp,
            error,
            problem,
            groups,
        );
    }
}

} // verus!
