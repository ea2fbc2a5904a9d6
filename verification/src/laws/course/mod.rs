//! The course that each request takes: one effect after another, and what it ends with.
//!
//! The laws here speak of a request, of what was answered so far, and of the effect that
//! comes next, in terms of the request itself.

pub mod access;
pub mod accounts;
pub mod bulk;
pub mod calls;
pub mod changes;
pub mod edits;
pub mod fields;
pub mod history;
pub mod others;
pub mod overviews;
pub mod pages;
pub mod signing;

use crate::asks::{any_asked, csrf_asked, roles_asked, store_asked};
use crate::config::ConfigModel;
use crate::effects::{Asked, EffectModel, OutcomeModel, ReplyModel, StepModel};
use crate::error::{AppErrorModel, ProviderErrorModel};
use crate::laws::performs;
use crate::lists::{first_where, lemma_first_where, lemma_first_where_holds};
use crate::portal::{response, RequestModel};
use crate::provider::{GroupModel, ProviderAnswerModel, ProviderCallModel, RoleModel, UserModel};
use crate::routes::{
    admin_form_checked, admin_required, home_realm, role_names, role_refreshed, session_form_checked,
    session_required, session_user_asked,
};
use crate::script::Ask;
use crate::session::{role_of, FlashKind, FlashModel, Role, SessionUserModel};
use crate::storage::{AuditEntryModel, AuditOutcomeModel, StorageAnswerModel, StorageCallModel};
use crate::time::StampModel;
use vstd::prelude::*;

verus! {

// ── Who asks ─────────────────────────────────────────────────────────────────

/// A list of realm roles has one with this name.
pub open spec fn names(roles: Seq<RoleModel>, name: Seq<char>) -> bool {
    exists|i: int| 0 <= i < roles.len() && (#[trigger] roles[i]).name == name
}

/// The realm roles make somebody an admin, or else an operator.
pub open spec fn makes(config: ConfigModel, roles: Seq<RoleModel>, role: Role) -> bool {
    match role {
        Role::Admin => names(roles, config.role_admin),
        Role::Operator => !names(roles, config.role_admin) && names(roles, config.role_operator),
    }
}

/// The first replies of a request name a signed-in user and the role that their realm roles
/// give them now; a role that has changed was written back to the session.
pub open spec fn signed_in(
    config: ConfigModel,
    head: Seq<ReplyModel>,
    user: SessionUserModel,
) -> bool {
    &&& head.len() >= 2
    &&& head[0] matches ReplyModel::User(Some(held)) && user == (SessionUserModel {
        role: user.role,
        ..held
    }) && (if held.role == user.role {
        head.len() == 2
    } else {
        head.len() == 3 && head[2] == ReplyModel::Done
    })
    &&& head[1] matches ReplyModel::Provider(ProviderAnswerModel::Roles(roles)) && makes(
        config,
        roles,
        user.role,
    )
}

/// The first replies of a form name a signed-in user, and the token that the form was sent
/// with.
pub open spec fn opened(
    config: ConfigModel,
    token: Seq<char>,
    head: Seq<ReplyModel>,
    user: SessionUserModel,
) -> bool {
    &&& head.len() > 0
    &&& signed_in(config, head.drop_last(), user)
    &&& head.last() == ReplyModel::Text(Some(token))
}

proof fn lemma_makes(config: ConfigModel, roles: Seq<RoleModel>, role: Role)
    requires
        makes(config, roles, role),
    ensures
        role_of(role_names(roles), config.role_admin, config.role_operator) == Some(role),
{
    let listed = role_names(roles);
    assert forall|name: Seq<char>| names(roles, name) == #[trigger] listed.contains(name) by {
        if names(roles, name) {
            let i = choose|i: int| 0 <= i < roles.len() && (#[trigger] roles[i]).name == name;
            assert(listed[i] == name);
        }
        if listed.contains(name) {
            let i = choose|i: int| 0 <= i < listed.len() && listed[i] == name;
            assert(roles[i].name == name);
        }
    }
}

pub(crate) proof fn lemma_signed_in(
    config: ConfigModel,
    head: Seq<ReplyModel>,
    user: SessionUserModel,
    tail: Seq<ReplyModel>,
)
    requires
        signed_in(config, head, user),
    ensures
        session_required(config, head + tail) == Ask::<
            SessionUserModel,
            ReplyModel,
            StepModel,
        >::Got(user, tail),
        user.role == Role::Admin ==> admin_required(config, head + tail) == Ask::<
            SessionUserModel,
            ReplyModel,
            StepModel,
        >::Got(user, tail),
{
    reveal(session_required);
    let replies = head + tail;
    let roles = head[1]->Provider_0->Roles_0;
    lemma_makes(config, roles, user.role);
    assert(replies[0] == head[0]);
    assert(replies.skip(1)[0] == head[1]);
    if head.len() == 2 {
        assert(replies.skip(1).skip(1) =~= tail);
    } else {
        assert(replies.skip(1).skip(1)[0] == head[2]);
        assert(replies.skip(1).skip(1).skip(1) =~= tail);
    }
}

pub broadcast proof fn lemma_opened(
    config: ConfigModel,
    token: Seq<char>,
    head: Seq<ReplyModel>,
    user: SessionUserModel,
    tail: Seq<ReplyModel>,
)
    requires
        #[trigger] opened(config, token, head, user),
    ensures
        #[trigger] session_form_checked(config, token, head + tail) == Ask::<
            SessionUserModel,
            ReplyModel,
            StepModel,
        >::Got(user, tail),
{
    reveal(session_form_checked);
    let rest = seq![head.last()] + tail;
    assert(head + tail =~= head.drop_last() + rest);
    lemma_signed_in(config, head.drop_last(), user, rest);
    assert(rest[0] == head.last());
    assert(rest.skip(1) =~= tail);
}

pub broadcast proof fn lemma_opened_by_admin(
    config: ConfigModel,
    token: Seq<char>,
    head: Seq<ReplyModel>,
    user: SessionUserModel,
    tail: Seq<ReplyModel>,
)
    requires
        #[trigger] opened(config, token, head, user),
        user.role == Role::Admin,
    ensures
        #[trigger] admin_form_checked(config, token, head + tail) == Ask::<
            SessionUserModel,
            ReplyModel,
            StepModel,
        >::Got(user, tail),
{
    reveal(admin_form_checked);
    let rest = seq![head.last()] + tail;
    assert(head + tail =~= head.drop_last() + rest);
    lemma_signed_in(config, head.drop_last(), user, rest);
    assert(rest[0] == head.last());
    assert(rest.skip(1) =~= tail);
}

pub broadcast group group_opened {
    lemma_opened,
    lemma_opened_by_admin,
}

pub broadcast proof fn lemma_signed_in_goes_on(
    config: ConfigModel,
    head: Seq<ReplyModel>,
    user: SessionUserModel,
    tail: Seq<ReplyModel>,
)
    requires
        #[trigger] signed_in(config, head, user),
    ensures
        #[trigger] session_required(config, head + tail) == Ask::<
            SessionUserModel,
            ReplyModel,
            StepModel,
        >::Got(user, tail),
{
    lemma_signed_in(config, head, user, tail);
}

/// A request for signed-in users first reads the user from the session and then their realm
/// roles; a role that has changed is written back. A form's token is read after that.
pub proof fn lemma_requests_open_alike(
    config: ConfigModel,
    token: Seq<char>,
    head: Seq<ReplyModel>,
    user: SessionUserModel,
)
    requires
        opened(config, token, head, user),
    ensures
        session_form_checked(config, token, head.take(0)) == waiting::<SessionUserModel>(
            EffectModel::LoadUser,
        ),
        session_form_checked(config, token, head.take(1)) == waiting::<SessionUserModel>(
            EffectModel::Provider(
                ProviderCallModel::GetUserEffectiveRealmRoles {
                    realm: home_realm(config),
                    user_id: user.sub,
                },
            ),
        ),
        head.len() == 4 ==> session_form_checked(config, token, head.take(2)) == waiting::<
            SessionUserModel,
        >(EffectModel::StoreUser(user)),
        session_form_checked(config, token, head.drop_last()) == waiting::<SessionUserModel>(
            EffectModel::LoadText { key: "csrf"@ },
        ),
{
    reveal(session_required);
    reveal(session_form_checked);
    let roles = head.drop_last()[1]->Provider_0->Roles_0;
    lemma_makes(config, roles, user.role);
    lemma_signed_in(config, head.drop_last(), user, Seq::empty());
    assert(head.drop_last() + Seq::empty() =~= head.drop_last());
    assert(head.drop_last()[0] == head[0]);
    assert(head.drop_last()[1] == head[1]);
}

/// The effect is needed next.
pub open spec fn waiting<T>(effect: EffectModel) -> Asked<T> {
    Ask::Stop(StepModel::Perform(effect))
}

// ── How requests end ─────────────────────────────────────────────────────────

/// The request has ended with this error.
pub open spec fn refused(
    config: ConfigModel,
    request: RequestModel,
    replies: Seq<ReplyModel>,
    error: AppErrorModel,
) -> bool {
    response(config, request, replies) == StepModel::Finish(OutcomeModel::Failed(error))
}

/// The request has ended, and the browser is sent to a page.
pub open spec fn leads_to(
    config: ConfigModel,
    request: RequestModel,
    replies: Seq<ReplyModel>,
    to: Seq<char>,
) -> bool {
    response(config, request, replies) == StepModel::Finish(OutcomeModel::Redirect { to })
}

/// The entry that tells of a successful action.
pub open spec fn told(
    stamp: StampModel,
    actor: Seq<char>,
    action: Seq<char>,
    realm: Seq<char>,
    target: Option<Seq<char>>,
    detail: Seq<char>,
) -> EffectModel {
    EffectModel::Storage(
        StorageCallModel::AppendAudit(
            AuditEntryModel {
                id: stamp.id,
                timestamp: stamp.at,
                actor,
                action,
                target_realm: realm,
                target_user: target,
                detail,
                outcome: AuditOutcomeModel::Success,
            },
        ),
    )
}

/// After `head` and `tail` what was done is told the audit log, under a fresh id and the time,
/// then the user, who is sent to a page. What the log does not take ends the request.
pub open spec fn closes(
    config: ConfigModel,
    request: RequestModel,
    head: Seq<ReplyModel>,
    tail: Seq<ReplyModel>,
    stamp: StampModel,
    entry: EffectModel,
    message: FlashModel,
    to: Seq<char>,
    problem: Seq<char>,
) -> bool {
    let drawn = tail.push(ReplyModel::Stamp(stamp));
    let logged = drawn.push(ReplyModel::Storage(StorageAnswerModel::Done));
    let lost = drawn.push(ReplyModel::Storage(StorageAnswerModel::Failed(problem)));
    &&& performs(config, request, head + tail, EffectModel::NewStamp)
    &&& performs(config, request, head + drawn, entry)
    &&& refused(config, request, head + lost, AppErrorModel::Internal(problem))
    &&& performs(config, request, head + logged, EffectModel::StoreFlash(message))
    &&& leads_to(config, request, head + logged.push(ReplyModel::Done), to)
}

/// A message of success.
pub open spec fn success(text: Seq<char>) -> FlashModel {
    FlashModel { text, kind: FlashKind::Success }
}

/// A warning.
pub open spec fn warning(text: Seq<char>) -> FlashModel {
    FlashModel { text, kind: FlashKind::Warning }
}

/// The identity provider has made a change.
pub open spec fn made() -> ReplyModel {
    ReplyModel::Provider(ProviderAnswerModel::Done)
}

/// The identity provider has failed.
pub open spec fn broke(error: ProviderErrorModel) -> ReplyModel {
    ReplyModel::Provider(ProviderAnswerModel::Failed(error))
}

/// A text that was sent and is not empty.
pub open spec fn filled(text: Option<Seq<char>>) -> Option<Seq<char>> {
    if text is Some && text->0.len() > 0 {
        text
    } else {
        None
    }
}

// ── Looking through lists ────────────────────────────────────────────────────

/// `users[i]` is the first with this name.
pub open spec fn first_user_named(users: Seq<UserModel>, i: int, username: Seq<char>) -> bool {
    &&& 0 <= i < users.len()
    &&& users[i].username == username
    &&& forall|j: int| 0 <= j < i ==> (#[trigger] users[j]).username != username
}

/// `roles[i]` is the first with this name.
pub open spec fn first_role_named(roles: Seq<RoleModel>, i: int, name: Seq<char>) -> bool {
    &&& 0 <= i < roles.len()
    &&& roles[i].name == name
    &&& forall|j: int| 0 <= j < i ==> (#[trigger] roles[j]).name != name
}

/// `roles[i]` is the first with this id.
pub open spec fn first_role_with(roles: Seq<RoleModel>, i: int, id: Seq<char>) -> bool {
    &&& 0 <= i < roles.len()
    &&& roles[i].id == id
    &&& forall|j: int| 0 <= j < i ==> (#[trigger] roles[j]).id != id
}

/// `groups[i]` is the first with this id.
pub open spec fn first_group_with(groups: Seq<GroupModel>, i: int, id: Seq<char>) -> bool {
    &&& 0 <= i < groups.len()
    &&& groups[i].id == id
    &&& forall|j: int| 0 <= j < i ==> (#[trigger] groups[j]).id != id
}

/// `groups[i]` is the first with this name.
pub open spec fn first_group_named(groups: Seq<GroupModel>, i: int, name: Seq<char>) -> bool {
    &&& 0 <= i < groups.len()
    &&& groups[i].name == name
    &&& forall|j: int| 0 <= j < i ==> (#[trigger] groups[j]).name != name
}

pub(crate) proof fn lemma_first<T>(items: Seq<T>, i: int, wanted: spec_fn(T) -> bool)
    requires
        0 <= i < items.len(),
        wanted(items[i]),
        forall|j: int| 0 <= j < i ==> !wanted(#[trigger] items[j]),
    ensures
        first_where(items, wanted) == Some(items[i]),
{
    let front = items.take(i);
    assert forall|j: int| 0 <= j < front.len() implies !wanted(#[trigger] front[j]) by {
        assert(front[j] == items[j]);
    }
    lemma_first_where_holds(front, wanted);
    if front.filter(wanted).len() > 0 {
        assert(first_where(front, wanted) is Some);
        let x = first_where(front, wanted)->0;
        let j = choose|j: int| 0 <= j < front.len() && front[j] == x;
        assert(!wanted(front[j]));
    }
    lemma_first_where(items, i, wanted);
}

pub(crate) proof fn lemma_none<T>(items: Seq<T>, wanted: spec_fn(T) -> bool)
    requires
        forall|j: int| 0 <= j < items.len() ==> !wanted(#[trigger] items[j]),
    ensures
        first_where(items, wanted) is None,
{
    lemma_first_where_holds(items, wanted);
    if first_where(items, wanted) is Some {
        let x = first_where(items, wanted)->0;
        let j = choose|j: int| 0 <= j < items.len() && items[j] == x;
        assert(!wanted(items[j]));
    }
}

/// The reply of the identity provider that holds these users.
pub open spec fn users_found(users: Seq<UserModel>) -> ReplyModel {
    ReplyModel::Provider(ProviderAnswerModel::Users(users))
}

/// The reply of the identity provider that holds these roles.
pub open spec fn roles_found(roles: Seq<RoleModel>) -> ReplyModel {
    ReplyModel::Provider(ProviderAnswerModel::Roles(roles))
}

/// The reply of the identity provider that holds these groups.
pub open spec fn groups_found(groups: Seq<GroupModel>) -> ReplyModel {
    ReplyModel::Provider(ProviderAnswerModel::Groups(groups))
}

/// The reply of the identity provider that holds this user.
pub open spec fn user_found(user: UserModel) -> ReplyModel {
    ReplyModel::Provider(ProviderAnswerModel::User(user))
}

} // verus!
