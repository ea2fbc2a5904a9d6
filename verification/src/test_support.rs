//! An identity provider and a storage in memory, for trying out what is built on them.

use crate::attributes::{Attributes, AttributesModel};
use crate::error::{ProviderError, ProviderErrorModel};
use crate::lists::{find, first_where, retain};
use crate::provider::{
    no_update, CreateUser, CreateUserModel, Group, GroupModel, ProviderAnswer, ProviderAnswerModel,
    ProviderCall, ProviderCallModel, UpdateUser, UpdateUserModel, User, UserModel,
};
use crate::storage::{
    AuditEntry, AuditEntryModel, PendingChange, PendingChangeModel, StorageAnswer,
    StorageAnswerModel, StorageCall, StorageCallModel,
};
use crate::storage::s3::{keep_open, open_changes};
use crate::text::{decimal, decimal_text, has_prefix, same};
use vstd::prelude::*;

verus! {

// ── Identity provider ────────────────────────────────────────────────────────

/// A user and the key that they are kept under.
#[derive(Debug, PartialEq)]
pub struct KeptUser {
    pub key: String,
    pub user: User,
}

/// What a [`KeptUser`] stands for in contracts.
#[verifier::ext_equal]
pub struct KeptUserModel {
    pub key: Seq<char>,
    pub user: UserModel,
}

impl DeepView for KeptUser {
    type V = KeptUserModel;

    open spec fn deep_view(&self) -> KeptUserModel {
        KeptUserModel {
            key: self.key.deep_view(),
            user: self.user.deep_view(),
        }
    }
}

impl Clone for KeptUser {
    fn clone(&self) -> (r: Self)
        ensures
            r.deep_view() == self.deep_view(),
    {
        KeptUser {
            key: self.key.clone(),
            user: self.user.clone(),
        }
    }
}

/// The groups of a user.
#[derive(Debug, PartialEq)]
pub struct Membership {
    pub key: String,
    pub group_ids: Vec<String>,
}

/// What a [`Membership`] stands for in contracts.
#[verifier::ext_equal]
pub struct MembershipModel {
    pub key: Seq<char>,
    pub group_ids: Seq<Seq<char>>,
}

impl DeepView for Membership {
    type V = MembershipModel;

    open spec fn deep_view(&self) -> MembershipModel {
        MembershipModel {
            key: self.key.deep_view(),
            group_ids: self.group_ids.deep_view(),
        }
    }
}

impl Clone for Membership {
    fn clone(&self) -> (r: Self)
        ensures
            r.deep_view() == self.deep_view(),
    {
        let r = Membership {
            key: self.key.clone(),
            group_ids: self.group_ids.clone(),
        };
        assert(r.group_ids.deep_view() =~= self.group_ids.deep_view());
        r
    }
}

/// An identity provider in memory.
#[derive(Debug, PartialEq)]
pub struct FakeProvider {
    pub users: Vec<KeptUser>,
    pub groups: Vec<Group>,
    pub user_groups: Vec<Membership>,
}

/// What a [`FakeProvider`] stands for in contracts.
#[verifier::ext_equal]
pub struct FakeProviderModel {
    pub users: Seq<KeptUserModel>,
    pub groups: Seq<GroupModel>,
    pub user_groups: Seq<MembershipModel>,
}

impl DeepView for FakeProvider {
    type V = FakeProviderModel;

    open spec fn deep_view(&self) -> FakeProviderModel {
        FakeProviderModel {
            users: self.users.deep_view(),
            groups: self.groups.deep_view(),
            user_groups: self.user_groups.deep_view(),
        }
    }
}

impl Clone for FakeProvider {
    fn clone(&self) -> (r: Self)
        ensures
            r.deep_view() == self.deep_view(),
    {
        let r = FakeProvider {
            users: self.users.clone(),
            groups: self.groups.clone(),
            user_groups: self.user_groups.clone(),
        };
        assert(r.users.deep_view() =~= self.users.deep_view());
        assert(r.groups.deep_view() =~= self.groups.deep_view());
        assert(r.user_groups.deep_view() =~= self.user_groups.deep_view());
        r
    }
}

/// The key of a user.
pub open spec fn user_key(realm: Seq<char>, id: Seq<char>) -> Seq<char> {
    realm + "/"@ + id
}

fn key_of(realm: &str, id: &str) -> (r: String)
    ensures
        r@ == user_key(realm@, id@),
{
    realm.to_string().concat("/").concat(id)
}

/// Where a key stands among users, or their number.
pub open spec fn user_position(users: Seq<KeptUserModel>, key: Seq<char>) -> int
    decreases users.len(),
{
    if users.len() == 0 || users[0].key == key {
        0
    } else {
        1 + user_position(users.skip(1), key)
    }
}

/// A key stands at its position, and nowhere before.
pub proof fn lemma_user_position(users: Seq<KeptUserModel>, key: Seq<char>)
    ensures
        0 <= user_position(users, key) <= users.len(),
        user_position(users, key) < users.len() ==> users[user_position(users, key)].key == key,
        forall|i: int|
            0 <= i < user_position(users, key) && i < users.len() ==> (#[trigger] users[i]).key
                != key,
    decreases users.len(),
{
    if users.len() > 0 && users[0].key != key {
        lemma_user_position(users.skip(1), key);
        assert forall|i: int| 0 <= i < user_position(users, key) && i < users.len() implies (
        #[trigger] users[i]).key != key by {
            if i > 0 {
                assert(users[i] == users.skip(1)[i - 1]);
            }
        }
    }
}

/// The user under a key.
pub open spec fn user_at(users: Seq<KeptUserModel>, key: Seq<char>) -> Option<UserModel> {
    if user_position(users, key) < users.len() {
        Some(users[user_position(users, key)].user)
    } else {
        None
    }
}

/// The users with this one under a key, in the place of what was there.
pub open spec fn with_user(users: Seq<KeptUserModel>, key: Seq<char>, user: UserModel) -> Seq<
    KeptUserModel,
> {
    let kept = KeptUserModel { key, user };
    if user_position(users, key) < users.len() {
        users.update(user_position(users, key), kept)
    } else {
        users.push(kept)
    }
}

/// What was put under a key is found there, and nothing else has changed.
pub proof fn lemma_with_user(
    users: Seq<KeptUserModel>,
    key: Seq<char>,
    user: UserModel,
    other: Seq<char>,
)
    ensures
        user_at(with_user(users, key, user), key) == Some(user),
        other != key ==> user_at(with_user(users, key, user), other) == user_at(users, other),
{
    let now = with_user(users, key, user);
    lemma_user_position(users, key);
    lemma_user_position(users, other);
    lemma_user_position(now, key);
    lemma_user_position(now, other);
    let at = user_position(users, key);
    assert(now[at].key == key);
    if user_position(now, key) < at {
        assert(now[user_position(now, key)] == users[user_position(now, key)]);
    } else if user_position(now, key) > at {
        assert(now[at].key != key);
    }
    if other != key {
        let before = user_position(users, other);
        let after = user_position(now, other);
        if before < users.len() {
            assert(now[before] == users[before]);
            if after < before {
                assert(now[after].key == other);
                assert(users[after].key == other);
            } else if before < after {
                assert(now[before].key != other);
            }
        } else if after < now.len() {
            assert(now[after].key == other);
            assert(users[after].key == other);
        }
    }
}

fn find_user(users: &Vec<KeptUser>, key: &str) -> (r: usize)
    ensures
        r == user_position(users.deep_view(), key@),
        r <= users@.len(),
{
    let ghost whole = users.deep_view();
    let mut i: usize = 0;
    assert(whole.skip(0) =~= whole);
    while i < users.len() && !same(users[i].key.as_str(), key)
        invariant
            i <= users@.len(),
            whole == users.deep_view(),
            user_position(whole, key@) == i + user_position(whole.skip(i as int), key@),
        decreases users@.len() - i,
    {
        assert(whole.skip(i as int).skip(1) =~= whole.skip(i + 1));
        assert(whole.skip(i as int)[0] == users@[i as int].deep_view());
        i = i + 1;
    }
    proof {
        if i < users.len() {
            assert(whole.skip(i as int)[0] == users@[i as int].deep_view());
        }
    }
    i
}

fn put_user(users: &mut Vec<KeptUser>, key: String, user: User)
    ensures
        final(users).deep_view() == with_user(old(users).deep_view(), key@, user.deep_view()),
{
    let ghost before = users.deep_view();
    let at = find_user(users, key.as_str());
    let kept = KeptUser { key, user };
    let ghost model = kept.deep_view();
    if at < users.len() {
        users.set(at, kept);
        assert(users.deep_view() =~= before.update(at as int, model));
    } else {
        users.push(kept);
        assert(users.deep_view() =~= before.push(model));
    }
}

/// The groups of the user under a key.
pub open spec fn groups_at(memberships: Seq<MembershipModel>, key: Seq<char>) -> Seq<Seq<char>> {
    match first_where(memberships, |m: MembershipModel| m.key == key) {
        Some(membership) => membership.group_ids,
        None => Seq::empty(),
    }
}

fn find_membership<'a>(memberships: &'a Vec<Membership>, key: &str) -> (r: Option<&'a Membership>)
    ensures
        r.deep_view() == first_where(
            memberships.deep_view(),
            |m: MembershipModel| m.key == key@,
        ),
{
    let ghost wanted = |m: MembershipModel| m.key == key@;
    let is_theirs = |m: &Membership| -> (b: bool)
        ensures
            b == wanted(m.deep_view()),
        { same(m.key.as_str(), key) };
    find(memberships, is_theirs, Ghost(wanted))
}

fn groups_of(memberships: &Vec<Membership>, key: &str) -> (r: Vec<String>)
    ensures
        r.deep_view() == groups_at(memberships.deep_view(), key@),
{
    match find_membership(memberships, key) {
        Some(membership) => {
            let r = membership.group_ids.clone();
            assert(r.deep_view() =~= membership.group_ids.deep_view());
            r
        },
        None => {
            let r: Vec<String> = Vec::new();
            assert(r.deep_view() =~= Seq::empty());
            r
        },
    }
}

/// The memberships without those of the user under a key.
pub open spec fn without_key(memberships: Seq<MembershipModel>, key: Seq<char>) -> Seq<
    MembershipModel,
> {
    memberships.filter(|m: MembershipModel| m.key != key)
}

/// The memberships with these groups for the user under a key.
pub open spec fn with_groups(
    memberships: Seq<MembershipModel>,
    key: Seq<char>,
    group_ids: Seq<Seq<char>>,
) -> Seq<MembershipModel> {
    without_key(memberships, key).push(MembershipModel { key, group_ids })
}

/// What was put under a key is found there, and nothing else has changed.
pub proof fn lemma_with_groups(
    memberships: Seq<MembershipModel>,
    key: Seq<char>,
    group_ids: Seq<Seq<char>>,
    other: Seq<char>,
)
    ensures
        groups_at(with_groups(memberships, key, group_ids), key) == group_ids,
        other != key ==> groups_at(with_groups(memberships, key, group_ids), other) == groups_at(
            memberships,
            other,
        ),
{
    let kept = |m: MembershipModel| m.key != key;
    let mine = |m: MembershipModel| m.key == key;
    let theirs = |m: MembershipModel| m.key == other;
    let rest = memberships.filter(kept);
    let new = MembershipModel { key, group_ids };
    crate::lists::lemma_filter_push(rest, new, mine);
    crate::lists::lemma_filter_push(rest, new, theirs);
    lemma_filter_twice(memberships, kept, mine);
    lemma_filter_twice(memberships, kept, theirs);
    assert(memberships.filter(|m: MembershipModel| kept(m) && mine(m)) =~= Seq::empty()) by {
        let both = |m: MembershipModel| kept(m) && mine(m);
        if memberships.filter(both).len() > 0 {
            memberships.lemma_filter_pred(both, 0);
        }
    }
    if other != key {
        lemma_filter_same(memberships, |m: MembershipModel| kept(m) && theirs(m), theirs);
    }
}

proof fn lemma_filter_twice<T>(items: Seq<T>, p: spec_fn(T) -> bool, q: spec_fn(T) -> bool)
    ensures
        items.filter(p).filter(q) == items.filter(|x: T| p(x) && q(x)),
    decreases items.len(),
{
    reveal(Seq::filter);
    if items.len() > 0 {
        let front = items.drop_last();
        lemma_filter_twice(front, p, q);
        assert(items =~= front.push(items.last()));
        crate::lists::lemma_filter_push(front, items.last(), p);
        crate::lists::lemma_filter_push(front.filter(p), items.last(), q);
        crate::lists::lemma_filter_push(front, items.last(), |x: T| p(x) && q(x));
    }
}

proof fn lemma_filter_same<T>(items: Seq<T>, p: spec_fn(T) -> bool, q: spec_fn(T) -> bool)
    requires
        forall|x: T| #[trigger] p(x) == q(x),
    ensures
        items.filter(p) == items.filter(q),
    decreases items.len(),
{
    reveal(Seq::filter);
    if items.len() > 0 {
        lemma_filter_same(items.drop_last(), p, q);
        assert(p(items.last()) == q(items.last()));
    }
}

fn put_groups(memberships: &mut Vec<Membership>, key: String, group_ids: Vec<String>)
    ensures
        final(memberships).deep_view() == with_groups(
            old(memberships).deep_view(),
            key@,
            group_ids.deep_view(),
        ),
{
    let mut all: Vec<Membership> = Vec::new();
    std::mem::swap(&mut all, memberships);
    let ghost name = key@;
    let ghost wanted = |m: MembershipModel| m.key != name;
    let is_other = |m: &Membership| -> (b: bool)
        ensures
            b == wanted(m.deep_view()),
        { !same(m.key.as_str(), key.as_str()) };
    let mut rest = retain(all, is_other, Ghost(wanted));
    let ghost before = rest.deep_view();
    let new = Membership { key, group_ids };
    let ghost model = new.deep_view();
    rest.push(new);
    assert(rest.deep_view() =~= before.push(model));
    *memberships = rest;
}

/// A user with an update.
pub open spec fn updated_user(user: UserModel, update: UpdateUserModel) -> UserModel {
    UserModel {
        first_name: if update.first_name is Some {
            update.first_name
        } else {
            user.first_name
        },
        last_name: if update.last_name is Some {
            update.last_name
        } else {
            user.last_name
        },
        email: if update.email is Some {
            update.email
        } else {
            user.email
        },
        enabled: match update.enabled {
            Some(enabled) => enabled,
            None => user.enabled,
        },
        attributes: match update.attributes {
            Some(new) => user.attributes.union_prefer_right(new),
            None => user.attributes,
        },
        ..user
    }
}

fn update_of(user: &User, update: &UpdateUser) -> (r: User)
    ensures
        r.deep_view() == updated_user(user.deep_view(), update.deep_view()),
{
    let mut r = user.clone();
    if update.first_name.is_some() {
        r.first_name = update.first_name.clone();
    }
    if update.last_name.is_some() {
        r.last_name = update.last_name.clone();
    }
    if update.email.is_some() {
        r.email = update.email.clone();
    }
    if let Some(enabled) = update.enabled {
        r.enabled = enabled;
    }
    if let Some(new) = &update.attributes {
        let mut attributes = user.attributes.clone();
        attributes.extend(new);
        r.attributes = attributes;
    }
    r
}

/// The users themselves.
pub open spec fn all_users(users: Seq<KeptUserModel>) -> Seq<UserModel> {
    users.map_values(|kept: KeptUserModel| kept.user)
}

fn collect_users(users: &Vec<KeptUser>) -> (r: Vec<User>)
    ensures
        r.deep_view() == all_users(users.deep_view()),
{
    let ghost whole = users.deep_view();
    let mut r: Vec<User> = Vec::new();
    let mut i: usize = 0;
    while i < users.len()
        invariant
            i <= users@.len(),
            whole == users.deep_view(),
            r.deep_view() =~= all_users(whole.take(i as int)),
        decreases users@.len() - i,
    {
        let ghost before = r.deep_view();
        let one = users[i].user.clone();
        let ghost model = one.deep_view();
        r.push(one);
        assert(r.deep_view() =~= before.push(model));
        i = i + 1;
    }
    assert(whole.take(i as int) =~= whole);
    r
}

fn has_text(texts: &Vec<String>, wanted: &str) -> (r: bool)
    ensures
        r == texts.deep_view().contains(wanted@),
{
    let ghost all = texts.deep_view();
    let mut i: usize = 0;
    while i < texts.len()
        invariant
            i <= texts@.len(),
            all == texts.deep_view(),
            forall|j: int| 0 <= j < i ==> #[trigger] all[j] != wanted@,
        decreases texts@.len() - i,
    {
        if same(texts[i].as_str(), wanted) {
            assert(all[i as int] == wanted@);
            return true;
        }
        i = i + 1;
    }
    false
}

/// The members of a group among the users of a realm.
pub open spec fn members(
    users: Seq<KeptUserModel>,
    memberships: Seq<MembershipModel>,
    realm: Seq<char>,
    group_id: Seq<char>,
) -> Seq<UserModel> {
    all_users(
        users.filter(
            |kept: KeptUserModel|
                (realm + "/"@).is_prefix_of(kept.key) && groups_at(memberships, kept.key).contains(
                    group_id,
                ),
        ),
    )
}

fn collect_members(provider: &FakeProvider, realm: &str, group_id: &str) -> (r: Vec<User>)
    ensures
        r.deep_view() == members(
            provider.deep_view().users,
            provider.deep_view().user_groups,
            realm@,
            group_id@,
        ),
{
    let start = realm.to_string().concat("/");
    let ghost known = provider.deep_view().user_groups;
    let ghost wanted = |kept: KeptUserModel|
        (realm@ + "/"@).is_prefix_of(kept.key) && groups_at(known, kept.key).contains(group_id@);
    let is_member = |kept: &KeptUser| -> (b: bool)
        ensures
            b == wanted(kept.deep_view()),
        {
            has_prefix(kept.key.as_str(), start.as_str()) && has_text(
                &groups_of(&provider.user_groups, kept.key.as_str()),
                group_id,
            )
        };
    let all = provider.users.clone();
    assert(all.deep_view() =~= provider.users.deep_view());
    let some = retain(all, is_member, Ghost(wanted));
    collect_users(&some)
}

/// The group that is made for a name.
pub open spec fn new_group(name: Seq<char>) -> GroupModel {
    GroupModel {
        id: "group-"@ + name,
        name,
        path: "/"@ + name,
        subgroups: Seq::empty(),
        realm_roles: Seq::empty(),
    }
}

/// The user that is made of a new account.
pub open spec fn new_user(count: nat, user: CreateUserModel) -> UserModel {
    UserModel {
        id: "generated-"@ + decimal(count),
        username: user.username,
        email: user.email,
        first_name: user.first_name,
        last_name: user.last_name,
        enabled: user.enabled,
        attributes: user.attributes,
    }
}

/// The provider after an update of a user, and its answer.
pub open spec fn after_update(
    fake: FakeProviderModel,
    realm: Seq<char>,
    id: Seq<char>,
    update: UpdateUserModel,
) -> (FakeProviderModel, ProviderAnswerModel) {
    let key = user_key(realm, id);
    match user_at(fake.users, key) {
        Some(user) => (
            FakeProviderModel {
                users: with_user(fake.users, key, updated_user(user, update)),
                ..fake
            },
            ProviderAnswerModel::Done,
        ),
        None => (fake, ProviderAnswerModel::Failed(ProviderErrorModel::NotFound)),
    }
}

/// The provider after a user joined a group.
pub open spec fn after_join(
    fake: FakeProviderModel,
    key: Seq<char>,
    group_id: Seq<char>,
) -> FakeProviderModel {
    let held = groups_at(fake.user_groups, key);
    if held.contains(group_id) {
        fake
    } else {
        FakeProviderModel {
            user_groups: with_groups(fake.user_groups, key, held.push(group_id)),
            ..fake
        }
    }
}

/// The provider after a user left a group.
pub open spec fn after_leave(
    fake: FakeProviderModel,
    key: Seq<char>,
    group_id: Seq<char>,
) -> FakeProviderModel {
    FakeProviderModel {
        user_groups: with_groups(
            fake.user_groups,
            key,
            groups_at(fake.user_groups, key).filter(|g: Seq<char>| g != group_id),
        ),
        ..fake
    }
}

/// The provider after a call, and its answer.
pub open spec fn provider_after(fake: FakeProviderModel, call: ProviderCallModel) -> (
    FakeProviderModel,
    ProviderAnswerModel,
) {
    match call {
        ProviderCallModel::ListRealms => (fake, ProviderAnswerModel::Realms(Seq::empty())),
        ProviderCallModel::ListUsers { .. } => (
            fake,
            ProviderAnswerModel::Users(all_users(fake.users)),
        ),
        ProviderCallModel::GetUser { realm, id } => (
            fake,
            match user_at(fake.users, user_key(realm, id)) {
                Some(user) => ProviderAnswerModel::User(user),
                None => ProviderAnswerModel::Failed(ProviderErrorModel::NotFound),
            },
        ),
        ProviderCallModel::CreateUser { realm, user } => {
            let made = new_user(fake.users.len(), user);
            (
                FakeProviderModel {
                    users: with_user(fake.users, user_key(realm, made.id), made),
                    ..fake
                },
                ProviderAnswerModel::User(made),
            )
        },
        ProviderCallModel::UpdateUser { realm, id, update } => after_update(
            fake,
            realm,
            id,
            update,
        ),
        ProviderCallModel::SetUserEnabled { realm, id, enabled } => after_update(
            fake,
            realm,
            id,
            UpdateUserModel { enabled: Some(enabled), ..no_update() },
        ),
        ProviderCallModel::SetUserAttribute { realm, id, key, value } => after_update(
            fake,
            realm,
            id,
            UpdateUserModel {
                attributes: Some(AttributesModel::empty().insert(key, seq![value])),
                ..no_update()
            },
        ),
        ProviderCallModel::SetUserPassword { .. } => (fake, ProviderAnswerModel::Done),
        ProviderCallModel::DeleteUser { realm, id } => (
            FakeProviderModel {
                users: fake.users.filter(|kept: KeptUserModel| kept.key != user_key(realm, id)),
                ..fake
            },
            ProviderAnswerModel::Done,
        ),
        ProviderCallModel::ListGroups { .. } => (fake, ProviderAnswerModel::Groups(fake.groups)),
        ProviderCallModel::GetUserGroups { realm, user_id } => (
            fake,
            ProviderAnswerModel::Groups(
                fake.groups.filter(
                    |g: GroupModel|
                        groups_at(fake.user_groups, user_key(realm, user_id)).contains(g.id),
                ),
            ),
        ),
        ProviderCallModel::ListGroupMembers { realm, group_id } => (
            fake,
            ProviderAnswerModel::Users(members(fake.users, fake.user_groups, realm, group_id)),
        ),
        ProviderCallModel::CreateGroup { name, .. } => (
            FakeProviderModel { groups: fake.groups.push(new_group(name)), ..fake },
            ProviderAnswerModel::Group(new_group(name)),
        ),
        ProviderCallModel::AddUserToGroup { realm, user_id, group_id } => (
            after_join(fake, user_key(realm, user_id), group_id),
            ProviderAnswerModel::Done,
        ),
        ProviderCallModel::RemoveUserFromGroup { realm, user_id, group_id } => (
            after_leave(fake, user_key(realm, user_id), group_id),
            ProviderAnswerModel::Done,
        ),
        ProviderCallModel::ListRealmRoles { .. } => (
            fake,
            ProviderAnswerModel::Roles(Seq::empty()),
        ),
        ProviderCallModel::ListRoleUsers { .. } => (fake, ProviderAnswerModel::Users(Seq::empty())),
        ProviderCallModel::GetUserRealmRoles { .. } => (
            fake,
            ProviderAnswerModel::Roles(Seq::empty()),
        ),
        ProviderCallModel::GetUserEffectiveRealmRoles { .. } => (
            fake,
            ProviderAnswerModel::Roles(Seq::empty()),
        ),
        ProviderCallModel::AssignRealmRole { .. } => (fake, ProviderAnswerModel::Done),
        ProviderCallModel::RemoveRealmRole { .. } => (fake, ProviderAnswerModel::Done),
        ProviderCallModel::ListClients { .. } => (fake, ProviderAnswerModel::Clients(Seq::empty())),
        ProviderCallModel::GetClient { .. } => (
            fake,
            ProviderAnswerModel::Failed(ProviderErrorModel::NotFound),
        ),
        ProviderCallModel::UpdateClient { .. } => (fake, ProviderAnswerModel::Done),
        ProviderCallModel::GetClientSecret { .. } => (fake, ProviderAnswerModel::Secret(None)),
    }
}

impl FakeProvider {
    /// A provider that knows nobody.
    pub fn new() -> (r: FakeProvider)
        ensures
            r.deep_view() == (FakeProviderModel {
                users: Seq::empty(),
                groups: Seq::empty(),
                user_groups: Seq::empty(),
            }),
    {
        let r = FakeProvider { users: Vec::new(), groups: Vec::new(), user_groups: Vec::new() };
        assert(r.users.deep_view() =~= Seq::empty());
        assert(r.groups.deep_view() =~= Seq::empty());
        assert(r.user_groups.deep_view() =~= Seq::empty());
        r
    }

    /// The name of this kind of provider.
    pub fn name(&self) -> (r: &'static str)
        ensures
            r@ == "fake"@,
    {
        "fake"
    }

    /// Adds a user, in the place of one with the same id.
    pub fn seed_user(&mut self, realm: &str, user: User)
        ensures
            final(self).deep_view() == (FakeProviderModel {
                users: with_user(
                    old(self).deep_view().users,
                    user_key(realm@, user.id@),
                    user.deep_view(),
                ),
                ..old(self).deep_view()
            }),
    {
        let key = key_of(realm, user.id.as_str());
        put_user(&mut self.users, key, user);
    }

    /// Adds a group.
    pub fn seed_group(&mut self, group: Group)
        ensures
            final(self).deep_view() == (FakeProviderModel {
                groups: old(self).deep_view().groups.push(group.deep_view()),
                ..old(self).deep_view()
            }),
    {
        let ghost before = self.groups.deep_view();
        let ghost model = group.deep_view();
        self.groups.push(group);
        assert(self.groups.deep_view() =~= before.push(model));
    }

    /// A user that was added.
    pub fn get_seeded_user(&self, realm: &str, id: &str) -> (r: User)
        requires
            user_at(self.deep_view().users, user_key(realm@, id@)) is Some,
        ensures
            user_at(self.deep_view().users, user_key(realm@, id@)) == Some(r.deep_view()),
    {
        let at = find_user(&self.users, key_of(realm, id).as_str());
        self.users[at].user.clone()
    }

    /// The groups of a user.
    pub fn group_ids_of(&self, realm: &str, user_id: &str) -> (r: Vec<String>)
        ensures
            r.deep_view() == groups_at(
                self.deep_view().user_groups,
                user_key(realm@, user_id@),
            ),
    {
        groups_of(&self.user_groups, key_of(realm, user_id).as_str())
    }

    fn update(&mut self, realm: &str, id: &str, update: &UpdateUser) -> (r: ProviderAnswer)
        ensures
            (final(self).deep_view(), r.deep_view()) == after_update(
                old(self).deep_view(),
                realm@,
                id@,
                update.deep_view(),
            ),
    {
        let key = key_of(realm, id);
        let at = find_user(&self.users, key.as_str());
        if at < self.users.len() {
            let user = update_of(&self.users[at].user, update);
            put_user(&mut self.users, key, user);
            ProviderAnswer::Done
        } else {
            ProviderAnswer::Failed(ProviderError::NotFound)
        }
    }

    fn create(&mut self, realm: &str, account: &CreateUser) -> (r: ProviderAnswer)
        ensures
            (final(self).deep_view(), r.deep_view()) == provider_after(
                old(self).deep_view(),
                ProviderCallModel::CreateUser { realm: realm@, user: account.deep_view() },
            ),
    {
        let user = User {
            id: "generated-".to_string().concat(decimal_text(self.users.len() as u64).as_str()),
            username: account.username.clone(),
            email: account.email.clone(),
            first_name: account.first_name.clone(),
            last_name: account.last_name.clone(),
            enabled: account.enabled,
            attributes: account.attributes.clone(),
        };
        put_user(&mut self.users, key_of(realm, user.id.as_str()), user.clone());
        ProviderAnswer::User(user)
    }

    fn delete(&mut self, key: &str)
        ensures
            final(self).deep_view() == (FakeProviderModel {
                users: old(self).deep_view().users.filter(
                    |kept: KeptUserModel| kept.key != key@,
                ),
                ..old(self).deep_view()
            }),
    {
        let mut all: Vec<KeptUser> = Vec::new();
        std::mem::swap(&mut all, &mut self.users);
        let ghost wanted = |kept: KeptUserModel| kept.key != key@;
        let is_other = |kept: &KeptUser| -> (b: bool)
            ensures
                b == wanted(kept.deep_view()),
            { !same(kept.key.as_str(), key) };
        self.users = retain(all, is_other, Ghost(wanted));
    }

    fn groups_of_user(&self, key: &str) -> (r: Vec<Group>)
        ensures
            r.deep_view() == self.deep_view().groups.filter(
                |g: GroupModel| groups_at(self.deep_view().user_groups, key@).contains(g.id),
            ),
    {
        let ids = groups_of(&self.user_groups, key);
        let ghost held = ids.deep_view();
        let ghost wanted = |g: GroupModel| held.contains(g.id);
        let is_held = |g: &Group| -> (b: bool)
            ensures
                b == wanted(g.deep_view()),
            { has_text(&ids, g.id.as_str()) };
        let all = self.groups.clone();
        assert(all.deep_view() =~= self.groups.deep_view());
        let r = retain(all, is_held, Ghost(wanted));
        assert(wanted =~= (|g: GroupModel|
            groups_at(self.deep_view().user_groups, key@).contains(g.id)));
        r
    }

    fn join(&mut self, key: String, group_id: &String)
        ensures
            final(self).deep_view() == after_join(old(self).deep_view(), key@, group_id@),
    {
        let mut held = groups_of(&self.user_groups, key.as_str());
        if !has_text(&held, group_id.as_str()) {
            let ghost before = held.deep_view();
            held.push(group_id.clone());
            assert(held.deep_view() =~= before.push(group_id@));
            put_groups(&mut self.user_groups, key, held);
        }
    }

    fn leave(&mut self, key: String, group_id: &String)
        ensures
            final(self).deep_view() == after_leave(old(self).deep_view(), key@, group_id@),
    {
        let held = groups_of(&self.user_groups, key.as_str());
        let ghost gone = group_id@;
        let ghost wanted = |g: Seq<char>| g != gone;
        let is_other = |g: &String| -> (b: bool)
            ensures
                b == wanted(g.deep_view()),
            { !same(g.as_str(), group_id.as_str()) };
        let rest = retain(held, is_other, Ghost(wanted));
        assert(wanted =~= (|g: Seq<char>| g != group_id@));
        put_groups(&mut self.user_groups, key, rest);
    }

    fn add_group(&mut self, name: &String) -> (r: ProviderAnswer)
        ensures
            final(self).deep_view() == (FakeProviderModel {
                groups: old(self).deep_view().groups.push(new_group(name@)),
                ..old(self).deep_view()
            }),
            r.deep_view() == ProviderAnswerModel::Group(new_group(name@)),
    {
        let group = Group {
            id: "group-".to_string().concat(name.as_str()),
            name: name.clone(),
            path: "/".to_string().concat(name.as_str()),
            subgroups: Vec::new(),
            realm_roles: Vec::new(),
        };
        assert(group.deep_view().subgroups =~= Seq::empty());
        assert(group.deep_view().realm_roles =~= Seq::empty());
        self.seed_group(group.clone());
        ProviderAnswer::Group(group)
    }

    /// Answers a call.
    pub fn answer(&mut self, call: &ProviderCall) -> (r: ProviderAnswer)
        ensures
            (final(self).deep_view(), r.deep_view()) == provider_after(
                old(self).deep_view(),
                call.deep_view(),
            ),
    {
        match call {
            ProviderCall::ListRealms => {
                let r = ProviderAnswer::Realms(Vec::new());
                assert(r.deep_view() =~= ProviderAnswerModel::Realms(Seq::empty()));
                r
            },
            ProviderCall::ListUsers { .. } => ProviderAnswer::Users(collect_users(&self.users)),
            ProviderCall::GetUser { realm, id } => {
                let at = find_user(&self.users, key_of(realm.as_str(), id.as_str()).as_str());
                if at < self.users.len() {
                    ProviderAnswer::User(self.users[at].user.clone())
                } else {
                    ProviderAnswer::Failed(ProviderError::NotFound)
                }
            },
            ProviderCall::CreateUser { realm, user } => self.create(realm.as_str(), user),
            ProviderCall::UpdateUser { realm, id, update } => self.update(
                realm.as_str(),
                id.as_str(),
                update,
            ),
            ProviderCall::SetUserEnabled { realm, id, enabled } => {
                let mut update = UpdateUser::default();
                update.enabled = Some(*enabled);
                self.update(realm.as_str(), id.as_str(), &update)
            },
            ProviderCall::SetUserAttribute { realm, id, key, value } => {
                let values = vec![value.clone()];
                assert(values.deep_view() =~= seq![value@]);
                let mut attributes = Attributes::new();
                attributes.insert(key.clone(), values);
                let mut update = UpdateUser::default();
                update.attributes = Some(attributes);
                self.update(realm.as_str(), id.as_str(), &update)
            },
            ProviderCall::SetUserPassword { .. } => ProviderAnswer::Done,
            ProviderCall::DeleteUser { realm, id } => {
                self.delete(key_of(realm.as_str(), id.as_str()).as_str());
                ProviderAnswer::Done
            },
            ProviderCall::ListGroups { .. } => {
                let all = self.groups.clone();
                assert(all.deep_view() =~= self.groups.deep_view());
                ProviderAnswer::Groups(all)
            },
            ProviderCall::GetUserGroups { realm, user_id } => ProviderAnswer::Groups(
                self.groups_of_user(key_of(realm.as_str(), user_id.as_str()).as_str()),
            ),
            ProviderCall::ListGroupMembers { realm, group_id } => ProviderAnswer::Users(
                collect_members(self, realm.as_str(), group_id.as_str()),
            ),
            ProviderCall::CreateGroup { name, .. } => self.add_group(name),
            ProviderCall::AddUserToGroup { realm, user_id, group_id } => {
                self.join(key_of(realm.as_str(), user_id.as_str()), group_id);
                ProviderAnswer::Done
            },
            ProviderCall::RemoveUserFromGroup { realm, user_id, group_id } => {
                self.leave(key_of(realm.as_str(), user_id.as_str()), group_id);
                ProviderAnswer::Done
            },
            ProviderCall::ListRealmRoles { .. } => no_roles(),
            ProviderCall::ListRoleUsers { .. } => {
                let r = ProviderAnswer::Users(Vec::new());
                assert(r.deep_view() =~= ProviderAnswerModel::Users(Seq::empty()));
                r
            },
            ProviderCall::GetUserRealmRoles { .. } => no_roles(),
            ProviderCall::GetUserEffectiveRealmRoles { .. } => no_roles(),
            ProviderCall::AssignRealmRole { .. } => ProviderAnswer::Done,
            ProviderCall::RemoveRealmRole { .. } => ProviderAnswer::Done,
            ProviderCall::ListClients { .. } => {
                let r = ProviderAnswer::Clients(Vec::new());
                assert(r.deep_view() =~= ProviderAnswerModel::Clients(Seq::empty()));
                r
            },
            ProviderCall::GetClient { .. } => ProviderAnswer::Failed(ProviderError::NotFound),
            ProviderCall::UpdateClient { .. } => ProviderAnswer::Done,
            ProviderCall::GetClientSecret { .. } => ProviderAnswer::Secret(None),
        }
    }
}

fn no_roles() -> (r: ProviderAnswer)
    ensures
        r.deep_view() == ProviderAnswerModel::Roles(Seq::empty()),
{
    let r = ProviderAnswer::Roles(Vec::new());
    assert(r.deep_view() =~= ProviderAnswerModel::Roles(Seq::empty()));
    r
}

// ── Storage ──────────────────────────────────────────────────────────────────

/// A storage in memory.
#[derive(Debug, PartialEq)]
pub struct FakeStorage {
    pub changes: Vec<PendingChange>,
    pub audit: Vec<AuditEntry>,
}

/// What a [`FakeStorage`] stands for in contracts.
#[verifier::ext_equal]
pub struct FakeStorageModel {
    pub changes: Seq<PendingChangeModel>,
    pub audit: Seq<AuditEntryModel>,
}

impl DeepView for FakeStorage {
    type V = FakeStorageModel;

    open spec fn deep_view(&self) -> FakeStorageModel {
        FakeStorageModel {
            changes: self.changes.deep_view(),
            audit: self.audit.deep_view(),
        }
    }
}

impl Clone for FakeStorage {
    fn clone(&self) -> (r: Self)
        ensures
            r.deep_view() == self.deep_view(),
    {
        let r = FakeStorage {
            changes: self.changes.clone(),
            audit: self.audit.clone(),
        };
        assert(r.changes.deep_view() =~= self.changes.deep_view());
        assert(r.audit.deep_view() =~= self.audit.deep_view());
        r
    }
}

/// Where a change stands, or the number of changes.
pub open spec fn change_position(changes: Seq<PendingChangeModel>, id: Seq<char>) -> int
    decreases changes.len(),
{
    if changes.len() == 0 || changes[0].id == id {
        0
    } else {
        1 + change_position(changes.skip(1), id)
    }
}

/// A change stands at its position, and nowhere before.
pub proof fn lemma_change_position(changes: Seq<PendingChangeModel>, id: Seq<char>)
    ensures
        0 <= change_position(changes, id) <= changes.len(),
        change_position(changes, id) < changes.len() ==> changes[change_position(changes, id)].id
            == id,
        forall|i: int|
            0 <= i < change_position(changes, id) && i < changes.len() ==> (
            #[trigger] changes[i]).id != id,
    decreases changes.len(),
{
    if changes.len() > 0 && changes[0].id != id {
        lemma_change_position(changes.skip(1), id);
        assert forall|i: int| 0 <= i < change_position(changes, id) && i < changes.len() implies (
        #[trigger] changes[i]).id != id by {
            if i > 0 {
                assert(changes[i] == changes.skip(1)[i - 1]);
            }
        }
    }
}

/// The change with this id.
pub open spec fn change_at(changes: Seq<PendingChangeModel>, id: Seq<char>) -> Option<
    PendingChangeModel,
> {
    if change_position(changes, id) < changes.len() {
        Some(changes[change_position(changes, id)])
    } else {
        None
    }
}

/// The changes with this one, in the place of one with the same id.
pub open spec fn with_change(changes: Seq<PendingChangeModel>, change: PendingChangeModel) -> Seq<
    PendingChangeModel,
> {
    if change_position(changes, change.id) < changes.len() {
        changes.update(change_position(changes, change.id), change)
    } else {
        changes.push(change)
    }
}

fn find_change(changes: &Vec<PendingChange>, id: &str) -> (r: usize)
    ensures
        r == change_position(changes.deep_view(), id@),
        r <= changes@.len(),
{
    let ghost whole = changes.deep_view();
    let mut i: usize = 0;
    assert(whole.skip(0) =~= whole);
    while i < changes.len() && !same(changes[i].id.as_str(), id)
        invariant
            i <= changes@.len(),
            whole == changes.deep_view(),
            change_position(whole, id@) == i + change_position(whole.skip(i as int), id@),
        decreases changes@.len() - i,
    {
        assert(whole.skip(i as int).skip(1) =~= whole.skip(i + 1));
        assert(whole.skip(i as int)[0] == changes@[i as int].deep_view());
        i = i + 1;
    }
    proof {
        if i < changes.len() {
            assert(whole.skip(i as int)[0] == changes@[i as int].deep_view());
        }
    }
    i
}

/// The storage after a call, and its answer.
pub open spec fn storage_after(fake: FakeStorageModel, call: StorageCallModel) -> (
    FakeStorageModel,
    StorageAnswerModel,
) {
    match call {
        StorageCallModel::SaveChange(change) => (
            FakeStorageModel { changes: with_change(fake.changes, change), ..fake },
            StorageAnswerModel::Done,
        ),
        StorageCallModel::GetChange { id } => (
            fake,
            StorageAnswerModel::Change(change_at(fake.changes, id)),
        ),
        StorageCallModel::ListChanges => (fake, StorageAnswerModel::Changes(fake.changes)),
        StorageCallModel::ListPendingChanges => (
            fake,
            StorageAnswerModel::Changes(open_changes(fake.changes)),
        ),
        StorageCallModel::DeleteChange { id } => (
            FakeStorageModel {
                changes: fake.changes.filter(|c: PendingChangeModel| c.id != id),
                ..fake
            },
            StorageAnswerModel::Done,
        ),
        StorageCallModel::AppendAudit(entry) => (
            FakeStorageModel { audit: fake.audit.push(entry), ..fake },
            StorageAnswerModel::Done,
        ),
        StorageCallModel::ListAudit { .. } => (fake, StorageAnswerModel::Entries(fake.audit)),
    }
}

/// A change that was saved is read back, and no other change is touched.
pub proof fn lemma_saved_change_is_read_back(
    fake: FakeStorageModel,
    change: PendingChangeModel,
    other: Seq<char>,
)
    ensures
        storage_after(
            storage_after(fake, StorageCallModel::SaveChange(change)).0,
            StorageCallModel::GetChange { id: change.id },
        ).1 == StorageAnswerModel::Change(Some(change)),
        other != change.id ==> storage_after(
            storage_after(fake, StorageCallModel::SaveChange(change)).0,
            StorageCallModel::GetChange { id: other },
        ).1 == storage_after(fake, StorageCallModel::GetChange { id: other }).1,
{
    let before = fake.changes;
    let now = with_change(before, change);
    lemma_change_position(before, change.id);
    lemma_change_position(before, other);
    lemma_change_position(now, change.id);
    lemma_change_position(now, other);
    let at = change_position(before, change.id);
    assert(now[at].id == change.id);
    let found = change_position(now, change.id);
    if found < at {
        assert(now[found] == before[found]);
    } else if found > at {
        assert(now[at].id != change.id);
    }
    if other != change.id {
        let p = change_position(before, other);
        let q = change_position(now, other);
        if p < before.len() {
            assert(now[p] == before[p]);
            if q < p {
                assert(now[q].id == other);
                assert(before[q].id == other);
            } else if p < q {
                assert(now[p].id != other);
            }
        } else if q < now.len() {
            assert(now[q].id == other);
            assert(before[q].id == other);
        }
    }
}

impl FakeStorage {
    /// A storage that holds nothing.
    pub fn new() -> (r: FakeStorage)
        ensures
            r.deep_view() == (FakeStorageModel { changes: Seq::empty(), audit: Seq::empty() }),
    {
        let r = FakeStorage { changes: Vec::new(), audit: Vec::new() };
        assert(r.changes.deep_view() =~= Seq::empty());
        assert(r.audit.deep_view() =~= Seq::empty());
        r
    }

    fn save(&mut self, change: &PendingChange)
        ensures
            final(self).deep_view() == (FakeStorageModel {
                changes: with_change(old(self).deep_view().changes, change.deep_view()),
                ..old(self).deep_view()
            }),
    {
        let ghost before = self.changes.deep_view();
        let ghost model = change.deep_view();
        let at = find_change(&self.changes, change.id.as_str());
        if at < self.changes.len() {
            self.changes.set(at, change.clone());
            assert(self.changes.deep_view() =~= before.update(at as int, model));
        } else {
            self.changes.push(change.clone());
            assert(self.changes.deep_view() =~= before.push(model));
        }
    }

    fn delete(&mut self, id: &str)
        ensures
            final(self).deep_view() == (FakeStorageModel {
                changes: old(self).deep_view().changes.filter(
                    |c: PendingChangeModel| c.id != id@,
                ),
                ..old(self).deep_view()
            }),
    {
        let mut all: Vec<PendingChange> = Vec::new();
        std::mem::swap(&mut all, &mut self.changes);
        let ghost wanted = |c: PendingChangeModel| c.id != id@;
        let is_other = |c: &PendingChange| -> (b: bool)
            ensures
                b == wanted(c.deep_view()),
            { !same(c.id.as_str(), id) };
        self.changes = retain(all, is_other, Ghost(wanted));
    }

    fn copy_changes(&self) -> (r: Vec<PendingChange>)
        ensures
            r.deep_view() == self.deep_view().changes,
    {
        let r = self.changes.clone();
        assert(r.deep_view() =~= self.changes.deep_view());
        r
    }

    /// Answers a call.
    pub fn answer(&mut self, call: &StorageCall) -> (r: StorageAnswer)
        ensures
            (final(self).deep_view(), r.deep_view()) == storage_after(
                old(self).deep_view(),
                call.deep_view(),
            ),
    {
        match call {
            StorageCall::SaveChange(change) => {
                self.save(change);
                StorageAnswer::Done
            },
            StorageCall::GetChange { id } => {
                let at = find_change(&self.changes, id.as_str());
                if at < self.changes.len() {
                    StorageAnswer::Change(Some(self.changes[at].clone()))
                } else {
                    StorageAnswer::Change(None)
                }
            },
            StorageCall::ListChanges => StorageAnswer::Changes(self.copy_changes()),
            StorageCall::ListPendingChanges => StorageAnswer::Changes(
                keep_open(self.copy_changes()),
            ),
            StorageCall::DeleteChange { id } => {
                self.delete(id.as_str());
                StorageAnswer::Done
            },
            StorageCall::AppendAudit(entry) => {
                let ghost before = self.audit.deep_view();
                let one = entry.clone();
                let ghost model = one.deep_view();
                self.audit.push(one);
                assert(self.audit.deep_view() =~= before.push(model));
                StorageAnswer::Done
            },
            StorageCall::ListAudit { .. } => {
                let all = self.audit.clone();
                assert(all.deep_view() =~= self.audit.deep_view());
                StorageAnswer::Entries(all)
            },
        }
    }
}

} // verus!
