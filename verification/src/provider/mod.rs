//! Users, groups, roles and clients, as the identity provider knows them.

pub mod keycloak;

use crate::attributes::{first_value, Attributes, AttributesModel};
use crate::error::{ProviderError, ProviderErrorModel};
use vstd::prelude::*;

verus! {

/// A realm.
#[derive(Debug, PartialEq)]
pub struct Realm {
    pub id: String,
    pub name: String,
    pub display_name: Option<String>,
}

/// What a [`Realm`] stands for in contracts.
#[verifier::ext_equal]
pub struct RealmModel {
    pub id: Seq<char>,
    pub name: Seq<char>,
    pub display_name: Option<Seq<char>>,
}

impl DeepView for Realm {
    type V = RealmModel;

    open spec fn deep_view(&self) -> RealmModel {
        RealmModel {
            id: self.id.deep_view(),
            name: self.name.deep_view(),
            display_name: self.display_name.deep_view(),
        }
    }
}

impl Clone for Realm {
    fn clone(&self) -> (r: Self)
        ensures
            r.deep_view() == self.deep_view(),
    {
        Realm {
            id: self.id.clone(),
            name: self.name.clone(),
            display_name: self.display_name.clone(),
        }
    }
}

/// A user account.
#[derive(Debug, PartialEq)]
pub struct User {
    pub id: String,
    pub username: String,
    pub email: Option<String>,
    pub first_name: Option<String>,
    pub last_name: Option<String>,
    pub enabled: bool,
    pub attributes: Attributes,
}

/// What a [`User`] stands for in contracts.
#[verifier::ext_equal]
pub struct UserModel {
    pub id: Seq<char>,
    pub username: Seq<char>,
    pub email: Option<Seq<char>>,
    pub first_name: Option<Seq<char>>,
    pub last_name: Option<Seq<char>>,
    pub enabled: bool,
    pub attributes: AttributesModel,
}

impl DeepView for User {
    type V = UserModel;

    open spec fn deep_view(&self) -> UserModel {
        UserModel {
            id: self.id.deep_view(),
            username: self.username.deep_view(),
            email: self.email.deep_view(),
            first_name: self.first_name.deep_view(),
            last_name: self.last_name.deep_view(),
            enabled: self.enabled,
            attributes: self.attributes.deep_view(),
        }
    }
}

impl Clone for User {
    fn clone(&self) -> (r: Self)
        ensures
            r.deep_view() == self.deep_view(),
    {
        User {
            id: self.id.clone(),
            username: self.username.clone(),
            email: self.email.clone(),
            first_name: self.first_name.clone(),
            last_name: self.last_name.clone(),
            enabled: self.enabled,
            attributes: self.attributes.clone(),
        }
    }
}

impl UserModel {
    /// First and last name, as far as they are there; else the username.
    pub open spec fn full_name(self) -> Seq<char> {
        match (self.first_name, self.last_name) {
            (Some(f), Some(l)) => f + " "@ + l,
            (Some(f), None) => f,
            (None, Some(l)) => l,
            (None, None) => self.username,
        }
    }

    /// The first value of the attribute `team`.
    pub open spec fn team(self) -> Option<Seq<char>> {
        first_value(self.attributes, "team"@)
    }
}

impl User {
    /// First and last name, as far as they are there; else the username.
    pub fn full_name(&self) -> (r: String)
        ensures
            r@ == self.deep_view().full_name(),
    {
        match (&self.first_name, &self.last_name) {
            (Some(f), Some(l)) => f.clone().concat(" ").concat(l.as_str()),
            (Some(f), None) => f.clone(),
            (None, Some(l)) => l.clone(),
            (None, None) => self.username.clone(),
        }
    }

    /// The first value of the attribute `team`.
    pub fn team(&self) -> (r: Option<&str>)
        ensures
            r.deep_view() == self.deep_view().team(),
    {
        match self.attributes.get("team") {
            Some(values) => if values.len() > 0 {
                Some(values[0].as_str())
            } else {
                None
            },
            None => None,
        }
    }
}

/// A role of a realm.
#[derive(Debug, PartialEq)]
pub struct Role {
    pub id: String,
    pub name: String,
    pub description: Option<String>,
    pub client_role: bool,
}

/// What a [`Role`] stands for in contracts.
#[verifier::ext_equal]
pub struct RoleModel {
    pub id: Seq<char>,
    pub name: Seq<char>,
    pub description: Option<Seq<char>>,
    pub client_role: bool,
}

impl DeepView for Role {
    type V = RoleModel;

    open spec fn deep_view(&self) -> RoleModel {
        RoleModel {
            id: self.id.deep_view(),
            name: self.name.deep_view(),
            description: self.description.deep_view(),
            client_role: self.client_role,
        }
    }
}

impl Clone for Role {
    fn clone(&self) -> (r: Self)
        ensures
            r.deep_view() == self.deep_view(),
    {
        Role {
            id: self.id.clone(),
            name: self.name.clone(),
            description: self.description.clone(),
            client_role: self.client_role,
        }
    }
}

/// A new user account.
#[derive(Debug, PartialEq)]
pub struct CreateUser {
    pub username: String,
    pub email: Option<String>,
    pub first_name: Option<String>,
    pub last_name: Option<String>,
    pub enabled: bool,
    pub password: Option<String>,
    pub password_temporary: bool,
    pub phone_number: Option<String>,
    pub personnel_code: Option<String>,
    pub attributes: Attributes,
}

/// What a [`CreateUser`] stands for in contracts.
#[verifier::ext_equal]
pub struct CreateUserModel {
    pub username: Seq<char>,
    pub email: Option<Seq<char>>,
    pub first_name: Option<Seq<char>>,
    pub last_name: Option<Seq<char>>,
    pub enabled: bool,
    pub password: Option<Seq<char>>,
    pub password_temporary: bool,
    pub phone_number: Option<Seq<char>>,
    pub personnel_code: Option<Seq<char>>,
    pub attributes: AttributesModel,
}

impl DeepView for CreateUser {
    type V = CreateUserModel;

    open spec fn deep_view(&self) -> CreateUserModel {
        CreateUserModel {
            username: self.username.deep_view(),
            email: self.email.deep_view(),
            first_name: self.first_name.deep_view(),
            last_name: self.last_name.deep_view(),
            enabled: self.enabled,
            password: self.password.deep_view(),
            password_temporary: self.password_temporary,
            phone_number: self.phone_number.deep_view(),
            personnel_code: self.personnel_code.deep_view(),
            attributes: self.attributes.deep_view(),
        }
    }
}

impl Clone for CreateUser {
    fn clone(&self) -> (r: Self)
        ensures
            r.deep_view() == self.deep_view(),
    {
        CreateUser {
            username: self.username.clone(),
            email: self.email.clone(),
            first_name: self.first_name.clone(),
            last_name: self.last_name.clone(),
            enabled: self.enabled,
            password: self.password.clone(),
            password_temporary: self.password_temporary,
            phone_number: self.phone_number.clone(),
            personnel_code: self.personnel_code.clone(),
            attributes: self.attributes.clone(),
        }
    }
}

/// What to change of a user account; what is `None` stays.
#[derive(Debug, PartialEq)]
pub struct UpdateUser {
    pub email: Option<String>,
    pub first_name: Option<String>,
    pub last_name: Option<String>,
    pub enabled: Option<bool>,
    pub phone_number: Option<String>,
    pub personnel_code: Option<String>,
    pub attributes: Option<Attributes>,
}

/// What a [`UpdateUser`] stands for in contracts.
#[verifier::ext_equal]
pub struct UpdateUserModel {
    pub email: Option<Seq<char>>,
    pub first_name: Option<Seq<char>>,
    pub last_name: Option<Seq<char>>,
    pub enabled: Option<bool>,
    pub phone_number: Option<Seq<char>>,
    pub personnel_code: Option<Seq<char>>,
    pub attributes: Option<AttributesModel>,
}

impl DeepView for UpdateUser {
    type V = UpdateUserModel;

    open spec fn deep_view(&self) -> UpdateUserModel {
        UpdateUserModel {
            email: self.email.deep_view(),
            first_name: self.first_name.deep_view(),
            last_name: self.last_name.deep_view(),
            enabled: self.enabled,
            phone_number: self.phone_number.deep_view(),
            personnel_code: self.personnel_code.deep_view(),
            attributes: self.attributes.deep_view(),
        }
    }
}

impl Clone for UpdateUser {
    fn clone(&self) -> (r: Self)
        ensures
            r.deep_view() == self.deep_view(),
    {
        UpdateUser {
            email: self.email.clone(),
            first_name: self.first_name.clone(),
            last_name: self.last_name.clone(),
            enabled: self.enabled,
            phone_number: self.phone_number.clone(),
            personnel_code: self.personnel_code.clone(),
            attributes: self.attributes.clone(),
        }
    }
}

/// The update that changes nothing.
pub open spec fn no_update() -> UpdateUserModel {
    UpdateUserModel {
        email: None,
        first_name: None,
        last_name: None,
        enabled: None,
        phone_number: None,
        personnel_code: None,
        attributes: None,
    }
}

impl Default for UpdateUser {
    /// The update that changes nothing.
    fn default() -> (r: Self)
        ensures
            r.deep_view() == no_update(),
    {
        UpdateUser {
            email: None,
            first_name: None,
            last_name: None,
            enabled: None,
            phone_number: None,
            personnel_code: None,
            attributes: None,
        }
    }
}

/// Which users to list.
#[derive(Debug, PartialEq)]
pub struct ListUsersQuery {
    pub search: Option<String>,
    pub offset: u32,
    pub max: u32,
}

/// What a [`ListUsersQuery`] stands for in contracts.
#[verifier::ext_equal]
pub struct ListUsersQueryModel {
    pub search: Option<Seq<char>>,
    pub offset: u32,
    pub max: u32,
}

impl DeepView for ListUsersQuery {
    type V = ListUsersQueryModel;

    open spec fn deep_view(&self) -> ListUsersQueryModel {
        ListUsersQueryModel {
            search: self.search.deep_view(),
            offset: self.offset,
            max: self.max,
        }
    }
}

impl Clone for ListUsersQuery {
    fn clone(&self) -> (r: Self)
        ensures
            r.deep_view() == self.deep_view(),
    {
        ListUsersQuery {
            search: self.search.clone(),
            offset: self.offset,
            max: self.max,
        }
    }
}

/// The first `max` users that match `search`.
pub open spec fn users_like(search: Option<Seq<char>>, max: u32) -> ListUsersQueryModel {
    ListUsersQueryModel { search, offset: 0, max }
}

impl ListUsersQuery {
    /// The first hundred users.
    pub fn new() -> (r: ListUsersQuery)
        ensures
            r.deep_view() == users_like(None, 100),
    {
        ListUsersQuery { search: None, offset: 0, max: 100 }
    }

    /// Only users that match `q`.
    pub fn search(self, q: String) -> (r: ListUsersQuery)
        ensures
            r.deep_view() == (ListUsersQueryModel { search: Some(q@), ..self.deep_view() }),
    {
        ListUsersQuery { search: Some(q), offset: self.offset, max: self.max }
    }

    /// The `max` users behind the first `offset`.
    pub fn page(self, offset: u32, max: u32) -> (r: ListUsersQuery)
        ensures
            r.deep_view() == (ListUsersQueryModel { offset, max, ..self.deep_view() }),
    {
        ListUsersQuery { search: self.search, offset, max }
    }
}

/// An application that signs its users in through the realm.
#[derive(Debug, PartialEq)]
pub struct AppClient {
    pub id: String,
    pub client_id: String,
    pub name: Option<String>,
    pub description: Option<String>,
    pub enabled: bool,
    pub public_client: bool,
    pub redirect_uris: Vec<String>,
    pub web_origins: Vec<String>,
    pub protocol: Option<String>,
    pub service_accounts_enabled: bool,
}

/// What a [`AppClient`] stands for in contracts.
#[verifier::ext_equal]
pub struct AppClientModel {
    pub id: Seq<char>,
    pub client_id: Seq<char>,
    pub name: Option<Seq<char>>,
    pub description: Option<Seq<char>>,
    pub enabled: bool,
    pub public_client: bool,
    pub redirect_uris: Seq<Seq<char>>,
    pub web_origins: Seq<Seq<char>>,
    pub protocol: Option<Seq<char>>,
    pub service_accounts_enabled: bool,
}

impl DeepView for AppClient {
    type V = AppClientModel;

    open spec fn deep_view(&self) -> AppClientModel {
        AppClientModel {
            id: self.id.deep_view(),
            client_id: self.client_id.deep_view(),
            name: self.name.deep_view(),
            description: self.description.deep_view(),
            enabled: self.enabled,
            public_client: self.public_client,
            redirect_uris: self.redirect_uris.deep_view(),
            web_origins: self.web_origins.deep_view(),
            protocol: self.protocol.deep_view(),
            service_accounts_enabled: self.service_accounts_enabled,
        }
    }
}

impl Clone for AppClient {
    fn clone(&self) -> (r: Self)
        ensures
            r.deep_view() == self.deep_view(),
    {
        let r = AppClient {
            id: self.id.clone(),
            client_id: self.client_id.clone(),
            name: self.name.clone(),
            description: self.description.clone(),
            enabled: self.enabled,
            public_client: self.public_client,
            redirect_uris: self.redirect_uris.clone(),
            web_origins: self.web_origins.clone(),
            protocol: self.protocol.clone(),
            service_accounts_enabled: self.service_accounts_enabled,
        };
        assert(r.redirect_uris.deep_view() =~= self.redirect_uris.deep_view());
        assert(r.web_origins.deep_view() =~= self.web_origins.deep_view());
        r
    }
}

/// What to change of a client; what is `None` stays.
#[derive(Debug, PartialEq)]
pub struct UpdateAppClient {
    pub enabled: Option<bool>,
    pub redirect_uris: Option<Vec<String>>,
    pub web_origins: Option<Vec<String>>,
}

/// What a [`UpdateAppClient`] stands for in contracts.
#[verifier::ext_equal]
pub struct UpdateAppClientModel {
    pub enabled: Option<bool>,
    pub redirect_uris: Option<Seq<Seq<char>>>,
    pub web_origins: Option<Seq<Seq<char>>>,
}

impl DeepView for UpdateAppClient {
    type V = UpdateAppClientModel;

    open spec fn deep_view(&self) -> UpdateAppClientModel {
        UpdateAppClientModel {
            enabled: self.enabled,
            redirect_uris: self.redirect_uris.deep_view(),
            web_origins: self.web_origins.deep_view(),
        }
    }
}

impl Clone for UpdateAppClient {
    fn clone(&self) -> (r: Self)
        ensures
            r.deep_view() == self.deep_view(),
    {
        let r = UpdateAppClient {
            enabled: self.enabled,
            redirect_uris: self.redirect_uris.clone(),
            web_origins: self.web_origins.clone(),
        };
        assert(r.redirect_uris.deep_view() =~= self.redirect_uris.deep_view());
        assert(r.web_origins.deep_view() =~= self.web_origins.deep_view());
        r
    }
}

// ── Groups ───────────────────────────────────────────────────────────────────

/// A group. Every group is a team; some also grant realm roles.
#[derive(Debug, PartialEq)]
pub struct Group {
    pub id: String,
    pub name: String,
    pub path: String,
    pub subgroups: Vec<Group>,
    pub realm_roles: Vec<String>,
}

/// What a [`Group`] stands for in contracts.
#[verifier::ext_equal]
pub struct GroupModel {
    pub id: Seq<char>,
    pub name: Seq<char>,
    pub path: Seq<char>,
    pub subgroups: Seq<GroupModel>,
    pub realm_roles: Seq<Seq<char>>,
}

/// The model of a group and of all below it.
pub open spec fn group_model(group: Group) -> GroupModel
    decreases group,
{
    GroupModel {
        id: group.id@,
        name: group.name@,
        path: group.path@,
        subgroups: Seq::new(
            group.subgroups@.len(),
            |i: int|
                if 0 <= i < group.subgroups@.len() {
                    group_model(group.subgroups@[i])
                } else {
                    arbitrary()
                },
        ),
        realm_roles: group.realm_roles.deep_view(),
    }
}

impl DeepView for Group {
    type V = GroupModel;

    open spec fn deep_view(&self) -> GroupModel {
        group_model(*self)
    }
}

impl Clone for Group {
    fn clone(&self) -> (r: Self)
        ensures
            r.deep_view() == self.deep_view(),
        decreases self,
    {
        let mut subgroups: Vec<Group> = Vec::new();
        let mut i: usize = 0;
        while i < self.subgroups.len()
            invariant
                i <= self.subgroups@.len(),
                subgroups@.len() == i,
                forall|j: int|
                    0 <= j < i ==> group_model(#[trigger] subgroups@[j]) == group_model(
                        self.subgroups@[j],
                    ),
            decreases self.subgroups@.len() - i,
        {
            let one = self.subgroups[i].clone();
            subgroups.push(one);
            i = i + 1;
        }
        let r = Group {
            id: self.id.clone(),
            name: self.name.clone(),
            path: self.path.clone(),
            subgroups,
            realm_roles: self.realm_roles.clone(),
        };
        assert(r.realm_roles.deep_view() =~= self.realm_roles.deep_view());
        assert(group_model(r).subgroups =~= group_model(*self).subgroups);
        r
    }
}

// ── Requests and answers ─────────────────────────────────────────────────────

/// What can be asked of the identity provider.
#[derive(Debug, PartialEq)]
pub enum ProviderCall {
    ListRealms,
    ListUsers { realm: String, query: ListUsersQuery },
    GetUser { realm: String, id: String },
    CreateUser { realm: String, user: CreateUser },
    UpdateUser { realm: String, id: String, update: UpdateUser },
    SetUserEnabled { realm: String, id: String, enabled: bool },
    SetUserAttribute { realm: String, id: String, key: String, value: String },
    SetUserPassword { realm: String, id: String, password: String, temporary: bool },
    DeleteUser { realm: String, id: String },
    ListGroups { realm: String },
    GetUserGroups { realm: String, user_id: String },
    ListGroupMembers { realm: String, group_id: String },
    CreateGroup { realm: String, name: String, parent_id: Option<String> },
    AddUserToGroup { realm: String, user_id: String, group_id: String },
    RemoveUserFromGroup { realm: String, user_id: String, group_id: String },
    ListRealmRoles { realm: String },
    ListRoleUsers { realm: String, role_name: String },
    GetUserRealmRoles { realm: String, user_id: String },
    /// The roles of a user, those of groups and composite roles among them.
    GetUserEffectiveRealmRoles { realm: String, user_id: String },
    AssignRealmRole { realm: String, user_id: String, role: Role },
    RemoveRealmRole { realm: String, user_id: String, role: Role },
    ListClients { realm: String },
    GetClient { realm: String, id: String },
    UpdateClient { realm: String, id: String, settings: UpdateAppClient },
    GetClientSecret { realm: String, id: String },
}

/// What a [`ProviderCall`] stands for in contracts.
#[verifier::ext_equal]
pub enum ProviderCallModel {
    ListRealms,
    ListUsers { realm: Seq<char>, query: ListUsersQueryModel },
    GetUser { realm: Seq<char>, id: Seq<char> },
    CreateUser { realm: Seq<char>, user: CreateUserModel },
    UpdateUser { realm: Seq<char>, id: Seq<char>, update: UpdateUserModel },
    SetUserEnabled { realm: Seq<char>, id: Seq<char>, enabled: bool },
    SetUserAttribute { realm: Seq<char>, id: Seq<char>, key: Seq<char>, value: Seq<char> },
    SetUserPassword { realm: Seq<char>, id: Seq<char>, password: Seq<char>, temporary: bool },
    DeleteUser { realm: Seq<char>, id: Seq<char> },
    ListGroups { realm: Seq<char> },
    GetUserGroups { realm: Seq<char>, user_id: Seq<char> },
    ListGroupMembers { realm: Seq<char>, group_id: Seq<char> },
    CreateGroup { realm: Seq<char>, name: Seq<char>, parent_id: Option<Seq<char>> },
    AddUserToGroup { realm: Seq<char>, user_id: Seq<char>, group_id: Seq<char> },
    RemoveUserFromGroup { realm: Seq<char>, user_id: Seq<char>, group_id: Seq<char> },
    ListRealmRoles { realm: Seq<char> },
    ListRoleUsers { realm: Seq<char>, role_name: Seq<char> },
    GetUserRealmRoles { realm: Seq<char>, user_id: Seq<char> },
    GetUserEffectiveRealmRoles { realm: Seq<char>, user_id: Seq<char> },
    AssignRealmRole { realm: Seq<char>, user_id: Seq<char>, role: RoleModel },
    RemoveRealmRole { realm: Seq<char>, user_id: Seq<char>, role: RoleModel },
    ListClients { realm: Seq<char> },
    GetClient { realm: Seq<char>, id: Seq<char> },
    UpdateClient { realm: Seq<char>, id: Seq<char>, settings: UpdateAppClientModel },
    GetClientSecret { realm: Seq<char>, id: Seq<char> },
}

impl DeepView for ProviderCall {
    type V = ProviderCallModel;

    open spec fn deep_view(&self) -> ProviderCallModel {
        match self {
            ProviderCall::ListRealms => ProviderCallModel::ListRealms,
            ProviderCall::ListUsers { realm, query } => ProviderCallModel::ListUsers {
                realm: realm.deep_view(),
                query: query.deep_view(),
            },
            ProviderCall::GetUser { realm, id } => ProviderCallModel::GetUser {
                realm: realm.deep_view(),
                id: id.deep_view(),
            },
            ProviderCall::CreateUser { realm, user } => ProviderCallModel::CreateUser {
                realm: realm.deep_view(),
                user: user.deep_view(),
            },
            ProviderCall::UpdateUser { realm, id, update } => ProviderCallModel::UpdateUser {
                realm: realm.deep_view(),
                id: id.deep_view(),
                update: update.deep_view(),
            },
            ProviderCall::SetUserEnabled { realm, id, enabled } => ProviderCallModel::SetUserEnabled {
                realm: realm.deep_view(),
                id: id.deep_view(),
                enabled: *enabled,
            },
            ProviderCall::SetUserAttribute { realm, id, key, value } => ProviderCallModel::SetUserAttribute {
                realm: realm.deep_view(),
                id: id.deep_view(),
                key: key.deep_view(),
                value: value.deep_view(),
            },
            ProviderCall::SetUserPassword { realm, id, password, temporary } => ProviderCallModel::SetUserPassword {
                realm: realm.deep_view(),
                id: id.deep_view(),
                password: password.deep_view(),
                temporary: *temporary,
            },
            ProviderCall::DeleteUser { realm, id } => ProviderCallModel::DeleteUser {
                realm: realm.deep_view(),
                id: id.deep_view(),
            },
            ProviderCall::ListGroups { realm } => ProviderCallModel::ListGroups {
                realm: realm.deep_view(),
            },
            ProviderCall::GetUserGroups { realm, user_id } => ProviderCallModel::GetUserGroups {
                realm: realm.deep_view(),
                user_id: user_id.deep_view(),
            },
            ProviderCall::ListGroupMembers { realm, group_id } => ProviderCallModel::ListGroupMembers {
                realm: realm.deep_view(),
                group_id: group_id.deep_view(),
            },
            ProviderCall::CreateGroup { realm, name, parent_id } => ProviderCallModel::CreateGroup {
                realm: realm.deep_view(),
                name: name.deep_view(),
                parent_id: parent_id.deep_view(),
            },
            ProviderCall::AddUserToGroup { realm, user_id, group_id } => ProviderCallModel::AddUserToGroup {
                realm: realm.deep_view(),
                user_id: user_id.deep_view(),
                group_id: group_id.deep_view(),
            },
            ProviderCall::RemoveUserFromGroup { realm, user_id, group_id } => ProviderCallModel::RemoveUserFromGroup {
                realm: realm.deep_view(),
                user_id: user_id.deep_view(),
                group_id: group_id.deep_view(),
            },
            ProviderCall::ListRealmRoles { realm } => ProviderCallModel::ListRealmRoles {
                realm: realm.deep_view(),
            },
            ProviderCall::ListRoleUsers { realm, role_name } => ProviderCallModel::ListRoleUsers {
                realm: realm.deep_view(),
                role_name: role_name.deep_view(),
            },
            ProviderCall::GetUserRealmRoles { realm, user_id } => ProviderCallModel::GetUserRealmRoles {
                realm: realm.deep_view(),
                user_id: user_id.deep_view(),
            },
            ProviderCall::GetUserEffectiveRealmRoles { realm, user_id } => ProviderCallModel::GetUserEffectiveRealmRoles {
                realm: realm.deep_view(),
                user_id: user_id.deep_view(),
            },
            ProviderCall::AssignRealmRole { realm, user_id, role } => ProviderCallModel::AssignRealmRole {
                realm: realm.deep_view(),
                user_id: user_id.deep_view(),
                role: role.deep_view(),
            },
            ProviderCall::RemoveRealmRole { realm, user_id, role } => ProviderCallModel::RemoveRealmRole {
                realm: realm.deep_view(),
                user_id: user_id.deep_view(),
                role: role.deep_view(),
            },
            ProviderCall::ListClients { realm } => ProviderCallModel::ListClients {
                realm: realm.deep_view(),
            },
            ProviderCall::GetClient { realm, id } => ProviderCallModel::GetClient {
                realm: realm.deep_view(),
                id: id.deep_view(),
            },
            ProviderCall::UpdateClient { realm, id, settings } => ProviderCallModel::UpdateClient {
                realm: realm.deep_view(),
                id: id.deep_view(),
                settings: settings.deep_view(),
            },
            ProviderCall::GetClientSecret { realm, id } => ProviderCallModel::GetClientSecret {
                realm: realm.deep_view(),
                id: id.deep_view(),
            },
        }
    }
}

impl Clone for ProviderCall {
    fn clone(&self) -> (r: Self)
        ensures
            r.deep_view() == self.deep_view(),
    {
        match self {
            ProviderCall::ListRealms => ProviderCall::ListRealms,
            ProviderCall::ListUsers { realm, query } => ProviderCall::ListUsers {
                realm: realm.clone(),
                query: query.clone(),
            },
            ProviderCall::GetUser { realm, id } => ProviderCall::GetUser {
                realm: realm.clone(),
                id: id.clone(),
            },
            ProviderCall::CreateUser { realm, user } => ProviderCall::CreateUser {
                realm: realm.clone(),
                user: user.clone(),
            },
            ProviderCall::UpdateUser { realm, id, update } => ProviderCall::UpdateUser {
                realm: realm.clone(),
                id: id.clone(),
                update: update.clone(),
            },
            ProviderCall::SetUserEnabled { realm, id, enabled } => ProviderCall::SetUserEnabled {
                realm: realm.clone(),
                id: id.clone(),
                enabled: *enabled,
            },
            ProviderCall::SetUserAttribute { realm, id, key, value } => ProviderCall::SetUserAttribute {
                realm: realm.clone(),
                id: id.clone(),
                key: key.clone(),
                value: value.clone(),
            },
            ProviderCall::SetUserPassword { realm, id, password, temporary } => ProviderCall::SetUserPassword {
                realm: realm.clone(),
                id: id.clone(),
                password: password.clone(),
                temporary: *temporary,
            },
            ProviderCall::DeleteUser { realm, id } => ProviderCall::DeleteUser {
                realm: realm.clone(),
                id: id.clone(),
            },
            ProviderCall::ListGroups { realm } => ProviderCall::ListGroups {
                realm: realm.clone(),
            },
            ProviderCall::GetUserGroups { realm, user_id } => ProviderCall::GetUserGroups {
                realm: realm.clone(),
                user_id: user_id.clone(),
            },
            ProviderCall::ListGroupMembers { realm, group_id } => ProviderCall::ListGroupMembers {
                realm: realm.clone(),
                group_id: group_id.clone(),
            },
            ProviderCall::CreateGroup { realm, name, parent_id } => ProviderCall::CreateGroup {
                realm: realm.clone(),
                name: name.clone(),
                parent_id: parent_id.clone(),
            },
            ProviderCall::AddUserToGroup { realm, user_id, group_id } => ProviderCall::AddUserToGroup {
                realm: realm.clone(),
                user_id: user_id.clone(),
                group_id: group_id.clone(),
            },
            ProviderCall::RemoveUserFromGroup { realm, user_id, group_id } => ProviderCall::RemoveUserFromGroup {
                realm: realm.clone(),
                user_id: user_id.clone(),
                group_id: group_id.clone(),
            },
            ProviderCall::ListRealmRoles { realm } => ProviderCall::ListRealmRoles {
                realm: realm.clone(),
            },
            ProviderCall::ListRoleUsers { realm, role_name } => ProviderCall::ListRoleUsers {
                realm: realm.clone(),
                role_name: role_name.clone(),
            },
            ProviderCall::GetUserRealmRoles { realm, user_id } => ProviderCall::GetUserRealmRoles {
                realm: realm.clone(),
                user_id: user_id.clone(),
            },
            ProviderCall::GetUserEffectiveRealmRoles { realm, user_id } => ProviderCall::GetUserEffectiveRealmRoles {
                realm: realm.clone(),
                user_id: user_id.clone(),
            },
            ProviderCall::AssignRealmRole { realm, user_id, role } => ProviderCall::AssignRealmRole {
                realm: realm.clone(),
                user_id: user_id.clone(),
                role: role.clone(),
            },
            ProviderCall::RemoveRealmRole { realm, user_id, role } => ProviderCall::RemoveRealmRole {
                realm: realm.clone(),
                user_id: user_id.clone(),
                role: role.clone(),
            },
            ProviderCall::ListClients { realm } => ProviderCall::ListClients {
                realm: realm.clone(),
            },
            ProviderCall::GetClient { realm, id } => ProviderCall::GetClient {
                realm: realm.clone(),
                id: id.clone(),
            },
            ProviderCall::UpdateClient { realm, id, settings } => ProviderCall::UpdateClient {
                realm: realm.clone(),
                id: id.clone(),
                settings: settings.clone(),
            },
            ProviderCall::GetClientSecret { realm, id } => ProviderCall::GetClientSecret {
                realm: realm.clone(),
                id: id.clone(),
            },
        }
    }
}

/// What the identity provider answers.
#[derive(Debug, PartialEq)]
pub enum ProviderAnswer {
    Failed(ProviderError),
    Done,
    Realms(Vec<Realm>),
    Users(Vec<User>),
    User(User),
    Groups(Vec<Group>),
    Group(Group),
    Roles(Vec<Role>),
    Clients(Vec<AppClient>),
    Client(AppClient),
    Secret(Option<String>),
}

/// What a [`ProviderAnswer`] stands for in contracts.
#[verifier::ext_equal]
pub enum ProviderAnswerModel {
    Failed(ProviderErrorModel),
    Done,
    Realms(Seq<RealmModel>),
    Users(Seq<UserModel>),
    User(UserModel),
    Groups(Seq<GroupModel>),
    Group(GroupModel),
    Roles(Seq<RoleModel>),
    Clients(Seq<AppClientModel>),
    Client(AppClientModel),
    Secret(Option<Seq<char>>),
}

impl DeepView for ProviderAnswer {
    type V = ProviderAnswerModel;

    open spec fn deep_view(&self) -> ProviderAnswerModel {
        match self {
            ProviderAnswer::Failed(v) => ProviderAnswerModel::Failed(v.deep_view()),
            ProviderAnswer::Done => ProviderAnswerModel::Done,
            ProviderAnswer::Realms(v) => ProviderAnswerModel::Realms(v.deep_view()),
            ProviderAnswer::Users(v) => ProviderAnswerModel::Users(v.deep_view()),
            ProviderAnswer::User(v) => ProviderAnswerModel::User(v.deep_view()),
            ProviderAnswer::Groups(v) => ProviderAnswerModel::Groups(v.deep_view()),
            ProviderAnswer::Group(v) => ProviderAnswerModel::Group(v.deep_view()),
            ProviderAnswer::Roles(v) => ProviderAnswerModel::Roles(v.deep_view()),
            ProviderAnswer::Clients(v) => ProviderAnswerModel::Clients(v.deep_view()),
            ProviderAnswer::Client(v) => ProviderAnswerModel::Client(v.deep_view()),
            ProviderAnswer::Secret(v) => ProviderAnswerModel::Secret(v.deep_view()),
        }
    }
}

impl Clone for ProviderAnswer {
    fn clone(&self) -> (r: Self)
        ensures
            r.deep_view() == self.deep_view(),
    {
        let r = match self {
            ProviderAnswer::Failed(v) => ProviderAnswer::Failed(v.clone()),
            ProviderAnswer::Done => ProviderAnswer::Done,
            ProviderAnswer::Realms(v) => ProviderAnswer::Realms(v.clone()),
            ProviderAnswer::Users(v) => ProviderAnswer::Users(v.clone()),
            ProviderAnswer::User(v) => ProviderAnswer::User(v.clone()),
            ProviderAnswer::Groups(v) => ProviderAnswer::Groups(v.clone()),
            ProviderAnswer::Group(v) => ProviderAnswer::Group(v.clone()),
            ProviderAnswer::Roles(v) => ProviderAnswer::Roles(v.clone()),
            ProviderAnswer::Clients(v) => ProviderAnswer::Clients(v.clone()),
            ProviderAnswer::Client(v) => ProviderAnswer::Client(v.clone()),
            ProviderAnswer::Secret(v) => ProviderAnswer::Secret(v.clone()),
        };
        assert(r.deep_view() =~~= self.deep_view());
        r
    }
}

/// Whether a request changes what the identity provider holds.
pub open spec fn is_mutation(call: ProviderCallModel) -> bool {
    match call {
        ProviderCallModel::CreateUser { .. } => true,
        ProviderCallModel::UpdateUser { .. } => true,
        ProviderCallModel::SetUserEnabled { .. } => true,
        ProviderCallModel::SetUserAttribute { .. } => true,
        ProviderCallModel::SetUserPassword { .. } => true,
        ProviderCallModel::DeleteUser { .. } => true,
        ProviderCallModel::CreateGroup { .. } => true,
        ProviderCallModel::AddUserToGroup { .. } => true,
        ProviderCallModel::RemoveUserFromGroup { .. } => true,
        ProviderCallModel::AssignRealmRole { .. } => true,
        ProviderCallModel::RemoveRealmRole { .. } => true,
        ProviderCallModel::UpdateClient { .. } => true,
        _ => false,
    }
}

} // verus!
