//! What Keycloak's answers look like, and what they stand for.

use crate::attributes::{Attributes, AttributesModel};
use crate::provider::{
    AppClient, AppClientModel, Group, GroupModel, Realm, RealmModel, Role, RoleModel, User,
    UserModel,
};
use crate::text::{or_empty, text_or_empty};
use vstd::prelude::*;

verus! {

/// A realm, as Keycloak spells it.
#[derive(Debug, PartialEq)]
pub struct KcRealm {
    pub id: String,
    pub realm: String,
    pub display_name: Option<String>,
}

/// What a [`KcRealm`] stands for in contracts.
#[verifier::ext_equal]
pub struct KcRealmModel {
    pub id: Seq<char>,
    pub realm: Seq<char>,
    pub display_name: Option<Seq<char>>,
}

impl DeepView for KcRealm {
    type V = KcRealmModel;

    open spec fn deep_view(&self) -> KcRealmModel {
        KcRealmModel {
            id: self.id.deep_view(),
            realm: self.realm.deep_view(),
            display_name: self.display_name.deep_view(),
        }
    }
}

impl Clone for KcRealm {
    fn clone(&self) -> (r: Self)
        ensures
            r.deep_view() == self.deep_view(),
    {
        KcRealm {
            id: self.id.clone(),
            realm: self.realm.clone(),
            display_name: self.display_name.clone(),
        }
    }
}

/// A user, as Keycloak spells it.
#[derive(Debug, PartialEq)]
pub struct KcUser {
    pub id: Option<String>,
    pub username: String,
    pub email: Option<String>,
    pub first_name: Option<String>,
    pub last_name: Option<String>,
    pub enabled: Option<bool>,
    pub attributes: Option<Attributes>,
}

/// What a [`KcUser`] stands for in contracts.
#[verifier::ext_equal]
pub struct KcUserModel {
    pub id: Option<Seq<char>>,
    pub username: Seq<char>,
    pub email: Option<Seq<char>>,
    pub first_name: Option<Seq<char>>,
    pub last_name: Option<Seq<char>>,
    pub enabled: Option<bool>,
    pub attributes: Option<AttributesModel>,
}

impl DeepView for KcUser {
    type V = KcUserModel;

    open spec fn deep_view(&self) -> KcUserModel {
        KcUserModel {
            id: self.id.deep_view(),
            username: self.username.deep_view(),
            email: self.email.deep_view(),
            first_name: self.first_name.deep_view(),
            last_name: self.last_name.deep_view(),
            enabled: self.enabled,
            attributes: self.attributes.deep_view(),
        }
    }
}

impl Clone for KcUser {
    fn clone(&self) -> (r: Self)
        ensures
            r.deep_view() == self.deep_view(),
    {
        KcUser {
            id: self.id.clone(),
            username: self.username.clone(),
            email: self.email.clone(),
            first_name: self.first_name.clone(),
            last_name: self.last_name.clone(),
            enabled: self.enabled,
            attributes: self.attributes.clone(),
        }
    }
}

/// A role, as Keycloak spells it.
#[derive(Debug, PartialEq)]
pub struct KcRole {
    pub id: String,
    pub name: String,
    pub description: Option<String>,
    pub client_role: bool,
}

/// What a [`KcRole`] stands for in contracts.
#[verifier::ext_equal]
pub struct KcRoleModel {
    pub id: Seq<char>,
    pub name: Seq<char>,
    pub description: Option<Seq<char>>,
    pub client_role: bool,
}

impl DeepView for KcRole {
    type V = KcRoleModel;

    open spec fn deep_view(&self) -> KcRoleModel {
        KcRoleModel {
            id: self.id.deep_view(),
            name: self.name.deep_view(),
            description: self.description.deep_view(),
            client_role: self.client_role,
        }
    }
}

impl Clone for KcRole {
    fn clone(&self) -> (r: Self)
        ensures
            r.deep_view() == self.deep_view(),
    {
        KcRole {
            id: self.id.clone(),
            name: self.name.clone(),
            description: self.description.clone(),
            client_role: self.client_role,
        }
    }
}

/// A client, as Keycloak spells it.
#[derive(Debug, PartialEq)]
pub struct KcClientRep {
    pub id: Option<String>,
    pub client_id: String,
    pub name: Option<String>,
    pub description: Option<String>,
    pub enabled: bool,
    pub public_client: bool,
    pub redirect_uris: Vec<String>,
    pub web_origins: Vec<String>,
    pub protocol: Option<String>,
    pub service_accounts_enabled: bool,
}

/// What a [`KcClientRep`] stands for in contracts.
#[verifier::ext_equal]
pub struct KcClientRepModel {
    pub id: Option<Seq<char>>,
    pub client_id: Seq<char>,
    pub name: Option<Seq<char>>,
    pub description: Option<Seq<char>>,
    pub enabled: bool,
    pub public_client: bool,
    pub redirect_uris: Seq<Seq<char>>,
    pub web_origins: Seq<Seq<char>>,
    pub protocol: Option<Seq<char>>,
    pub service_accounts_enabled: bool,
}

impl DeepView for KcClientRep {
    type V = KcClientRepModel;

    open spec fn deep_view(&self) -> KcClientRepModel {
        KcClientRepModel {
            id: self.id.deep_view(),
            client_id: self.client_id.deep_view(),
            name: self.name.deep_view(),
            description: self.description.deep_view(),
            enabled: self.enabled,
            public_client: self.public_client,
            redirect_uris: self.redirect_uris.deep_view(),
            web_origins: self.web_origins.deep_view(),
            protocol: self.protocol.deep_view(),
            service_accounts_enabled: self.service_accounts_enabled,
        }
    }
}

impl Clone for KcClientRep {
    fn clone(&self) -> (r: Self)
        ensures
            r.deep_view() == self.deep_view(),
    {
        let r = KcClientRep {
            id: self.id.clone(),
            client_id: self.client_id.clone(),
            name: self.name.clone(),
            description: self.description.clone(),
            enabled: self.enabled,
            public_client: self.public_client,
            redirect_uris: self.redirect_uris.clone(),
            web_origins: self.web_origins.clone(),
            protocol: self.protocol.clone(),
            service_accounts_enabled: self.service_accounts_enabled,
        };
        assert(r.redirect_uris.deep_view() =~= self.redirect_uris.deep_view());
        assert(r.web_origins.deep_view() =~= self.web_origins.deep_view());
        r
    }
}

/// A group, as Keycloak spells it. A list of groups gives the number of children, and not
/// always the children.
#[derive(Debug, PartialEq)]
pub struct KcGroup {
    pub id: String,
    pub name: String,
    pub path: String,
    pub sub_groups: Vec<KcGroup>,
    pub realm_roles: Vec<String>,
    pub sub_group_count: u32,
}

/// What a [`KcGroup`] stands for in contracts: the group, and whether its children have to
/// be fetched.
#[verifier::ext_equal]
pub struct KcGroupModel {
    pub group: GroupModel,
    pub lacks_children: bool,
}

/// The group that Keycloak spells.
pub open spec fn spelled_group(group: KcGroup) -> GroupModel
    decreases group,
{
    GroupModel {
        id: group.id@,
        name: group.name@,
        path: group.path@,
        subgroups: Seq::new(
            group.sub_groups@.len(),
            |i: int|
                if 0 <= i < group.sub_groups@.len() {
                    spelled_group(group.sub_groups@[i])
                } else {
                    arbitrary()
                },
        ),
        realm_roles: group.realm_roles.deep_view(),
    }
}

impl DeepView for KcGroup {
    type V = KcGroupModel;

    open spec fn deep_view(&self) -> KcGroupModel {
        KcGroupModel {
            group: spelled_group(*self),
            lacks_children: self.sub_group_count > 0 && self.sub_groups@.len() == 0,
        }
    }
}

// ── Users, roles, clients ────────────────────────────────────────────────────

/// The user that Keycloak spells.
pub open spec fn user_of(u: KcUserModel) -> UserModel {
    UserModel {
        id: or_empty(u.id),
        username: u.username,
        email: u.email,
        first_name: u.first_name,
        last_name: u.last_name,
        enabled: u.enabled == Some(true),
        attributes: match u.attributes {
            Some(attributes) => attributes,
            None => AttributesModel::empty(),
        },
    }
}

/// Reads a user.
pub fn kc_user_to_user(u: &KcUser) -> (r: User)
    ensures
        r.deep_view() == user_of(u.deep_view()),
{
    let enabled = match u.enabled {
        Some(enabled) => enabled,
        None => false,
    };
    let attributes = match &u.attributes {
        Some(attributes) => attributes.clone(),
        None => Attributes::new(),
    };
    User {
        id: text_or_empty(&u.id),
        username: u.username.clone(),
        email: u.email.clone(),
        first_name: u.first_name.clone(),
        last_name: u.last_name.clone(),
        enabled,
        attributes,
    }
}

/// The users that Keycloak spells.
pub open spec fn users_of(users: Seq<KcUserModel>) -> Seq<UserModel> {
    users.map_values(|u: KcUserModel| user_of(u))
}

pub(crate) fn read_users(users: &Vec<KcUser>) -> (r: Vec<User>)
    ensures
        r.deep_view() == users_of(users.deep_view()),
{
    let ghost whole = users.deep_view();
    let mut r: Vec<User> = Vec::new();
    let mut i: usize = 0;
    while i < users.len()
        invariant
            i <= users@.len(),
            whole == users.deep_view(),
            r.deep_view() =~= users_of(whole.take(i as int)),
        decreases users@.len() - i,
    {
        let ghost before = r.deep_view();
        let one = kc_user_to_user(&users[i]);
        let ghost model = one.deep_view();
        r.push(one);
        assert(r.deep_view() =~= before.push(model));
        i = i + 1;
    }
    assert(whole.take(i as int) =~= whole);
    r
}

/// The role that Keycloak spells.
pub open spec fn role_of(r: KcRoleModel) -> RoleModel {
    RoleModel {
        id: r.id,
        name: r.name,
        description: r.description,
        client_role: r.client_role,
    }
}

/// Reads a role.
pub fn kc_role_to_role(role: &KcRole) -> (r: Role)
    ensures
        r.deep_view() == role_of(role.deep_view()),
{
    Role {
        id: role.id.clone(),
        name: role.name.clone(),
        description: role.description.clone(),
        client_role: role.client_role,
    }
}

/// The roles that Keycloak spells.
pub open spec fn roles_of(roles: Seq<KcRoleModel>) -> Seq<RoleModel> {
    roles.map_values(|r: KcRoleModel| role_of(r))
}

pub(crate) fn read_roles(roles: &Vec<KcRole>) -> (r: Vec<Role>)
    ensures
        r.deep_view() == roles_of(roles.deep_view()),
{
    let ghost whole = roles.deep_view();
    let mut r: Vec<Role> = Vec::new();
    let mut i: usize = 0;
    while i < roles.len()
        invariant
            i <= roles@.len(),
            whole == roles.deep_view(),
            r.deep_view() =~= roles_of(whole.take(i as int)),
        decreases roles@.len() - i,
    {
        let ghost before = r.deep_view();
        let one = kc_role_to_role(&roles[i]);
        let ghost model = one.deep_view();
        r.push(one);
        assert(r.deep_view() =~= before.push(model));
        i = i + 1;
    }
    assert(whole.take(i as int) =~= whole);
    r
}

/// The client that Keycloak spells; one without an id is none.
pub open spec fn client_of(c: KcClientRepModel) -> Option<AppClientModel> {
    match c.id {
        None => None,
        Some(id) => Some(
            AppClientModel {
                id,
                client_id: c.client_id,
                name: c.name,
                description: c.description,
                enabled: c.enabled,
                public_client: c.public_client,
                redirect_uris: c.redirect_uris,
                web_origins: c.web_origins,
                protocol: c.protocol,
                service_accounts_enabled: c.service_accounts_enabled,
            },
        ),
    }
}

/// Reads a client.
pub fn kc_client_to_client(c: &KcClientRep) -> (r: Option<AppClient>)
    ensures
        r.deep_view() == client_of(c.deep_view()),
{
    match &c.id {
        None => None,
        Some(id) => {
            let redirect_uris = c.redirect_uris.clone();
            let web_origins = c.web_origins.clone();
            assert(redirect_uris.deep_view() =~= c.redirect_uris.deep_view());
            assert(web_origins.deep_view() =~= c.web_origins.deep_view());
            Some(
                AppClient {
                    id: id.clone(),
                    client_id: c.client_id.clone(),
                    name: c.name.clone(),
                    description: c.description.clone(),
                    enabled: c.enabled,
                    public_client: c.public_client,
                    redirect_uris,
                    web_origins,
                    protocol: c.protocol.clone(),
                    service_accounts_enabled: c.service_accounts_enabled,
                },
            )
        },
    }
}

/// The clients that Keycloak spells.
pub open spec fn clients_of(clients: Seq<KcClientRepModel>) -> Seq<AppClientModel>
    decreases clients.len(),
{
    if clients.len() == 0 {
        Seq::empty()
    } else {
        match client_of(clients.last()) {
            Some(client) => clients_of(clients.drop_last()).push(client),
            None => clients_of(clients.drop_last()),
        }
    }
}

pub(crate) fn read_clients(clients: &Vec<KcClientRep>) -> (r: Vec<AppClient>)
    ensures
        r.deep_view() == clients_of(clients.deep_view()),
{
    let ghost whole = clients.deep_view();
    let mut r: Vec<AppClient> = Vec::new();
    let mut i: usize = 0;
    assert(whole.take(0) =~= Seq::empty());
    assert(r.deep_view() =~= Seq::empty());
    while i < clients.len()
        invariant
            i <= clients@.len(),
            whole == clients.deep_view(),
            r.deep_view() == clients_of(whole.take(i as int)),
        decreases clients@.len() - i,
    {
        let ghost before = r.deep_view();
        assert(whole.take(i + 1).drop_last() =~= whole.take(i as int));
        assert(whole.take(i + 1).last() == clients@[i as int].deep_view());
        if let Some(one) = kc_client_to_client(&clients[i]) {
            let ghost model = one.deep_view();
            r.push(one);
            assert(r.deep_view() =~= before.push(model));
        }
        i = i + 1;
    }
    assert(whole.take(i as int) =~= whole);
    r
}

/// The realm that Keycloak spells.
pub open spec fn realm_of(r: KcRealmModel) -> RealmModel {
    RealmModel { id: r.id, name: r.realm, display_name: r.display_name }
}

pub(crate) fn read_realm(realm: &KcRealm) -> (r: Realm)
    ensures
        r.deep_view() == realm_of(realm.deep_view()),
{
    Realm {
        id: realm.id.clone(),
        name: realm.realm.clone(),
        display_name: realm.display_name.clone(),
    }
}

// ── Groups ───────────────────────────────────────────────────────────────────

/// Reads a group and all below it.
pub fn kc_group_to_group(g: &KcGroup) -> (r: Group)
    ensures
        r.deep_view() == g.deep_view().group,
    decreases g,
{
    let mut subgroups: Vec<Group> = Vec::new();
    let mut i: usize = 0;
    while i < g.sub_groups.len()
        invariant
            i <= g.sub_groups@.len(),
            subgroups@.len() == i,
            forall|j: int|
                0 <= j < i ==> (#[trigger] subgroups@[j]).deep_view() == spelled_group(
                    g.sub_groups@[j],
                ),
        decreases g.sub_groups@.len() - i,
    {
        let one = kc_group_to_group(&g.sub_groups[i]);
        subgroups.push(one);
        i = i + 1;
    }
    let realm_roles = g.realm_roles.clone();
    assert(realm_roles.deep_view() =~= g.realm_roles.deep_view());
    let r = Group {
        id: g.id.clone(),
        name: g.name.clone(),
        path: g.path.clone(),
        subgroups,
        realm_roles,
    };
    assert(r.deep_view().subgroups =~= spelled_group(*g).subgroups) by {
        assert forall|j: int| 0 <= j < r.subgroups@.len() implies r.deep_view().subgroups[j]
            == spelled_group(*g).subgroups[j] by {
            assert(subgroups@[j].deep_view() == spelled_group(g.sub_groups@[j]));
        }
    }
    r
}

/// The groups that Keycloak spells.
pub open spec fn groups_of(groups: Seq<KcGroupModel>) -> Seq<GroupModel> {
    groups.map_values(|g: KcGroupModel| g.group)
}

pub(crate) fn read_groups(groups: &Vec<KcGroup>) -> (r: Vec<Group>)
    ensures
        r.deep_view() == groups_of(groups.deep_view()),
{
    let ghost whole = groups.deep_view();
    let mut r: Vec<Group> = Vec::new();
    let mut i: usize = 0;
    while i < groups.len()
        invariant
            i <= groups@.len(),
            whole == groups.deep_view(),
            r.deep_view() =~= groups_of(whole.take(i as int)),
        decreases groups@.len() - i,
    {
        let ghost before = r.deep_view();
        let one = kc_group_to_group(&groups[i]);
        let ghost model = one.deep_view();
        r.push(one);
        assert(r.deep_view() =~= before.push(model));
        i = i + 1;
    }
    assert(whole.take(i as int) =~= whole);
    r
}

} // verus!
