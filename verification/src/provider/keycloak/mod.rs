//! Keycloak as the identity provider: which requests each call takes.

pub mod errors;
pub mod http;
pub mod shapes;
pub mod token;

use crate::attributes::{Attributes, AttributesModel};
use crate::error::{ProviderError, ProviderErrorModel};
use crate::outside::{
    json_put_array, json_put_flag, json_with_array, json_with_flag, percent_encoded, url_encode,
};
use crate::provider::{
    group_model, no_update, CreateUser, CreateUserModel, Group, GroupModel, ListUsersQuery,
    ListUsersQueryModel, ProviderAnswer, ProviderAnswerModel, ProviderCall, ProviderCallModel, Role,
    RoleModel, UpdateAppClient, UpdateAppClientModel, UpdateUser, UpdateUserModel, User, UserModel,
};
use crate::provider::keycloak::http::{
    change, change_plainly, client_fetched, clients_fetched, fetch_client, fetch_clients,
    fetch_groups, fetch_json, fetch_realm, fetch_roles, fetch_secret, fetch_user, fetch_users,
    groups_fetched, json_fetched, realm_fetched, roles_fetched, secret_fetched, user_fetched,
    users_fetched, written, written_plainly, Attempt, AttemptModel, Credential, CredentialModel,
    HttpRequest, HttpRequestModel, KcAsked, KcReplies, KcReply, KcReplyModel, KcStep, KcStepModel,
    Method, NewUserBody, NewUserBodyModel, Payload, PayloadModel, Response, ResponseModel, RoleRef,
    RoleRefModel, UserBody, UserBodyModel,
};
use crate::provider::keycloak::shapes::{
    client_of, clients_of, groups_of, kc_client_to_client, kc_group_to_group, kc_user_to_user,
    read_clients, read_groups, read_realm, read_roles, read_users, realm_of, roles_of, user_of,
    users_of, KcGroup, KcGroupModel,
};
use crate::script::{answers, Ask, Cursor};
use crate::text::{
    decimal, decimal_text, last_segment, last_segment_of, or_empty, same, text_or_empty, trim,
    trimmed,
};
use vstd::prelude::*;
use vstd::utf8::encode_utf8;

verus! {

/// A Keycloak server, and the service account that changes users there.
#[derive(Debug, PartialEq)]
pub struct KeycloakProvider {
    pub admin_url: String,
    pub admin_realm: String,
    pub client_id: String,
    pub client_secret: String,
}

/// What a [`KeycloakProvider`] stands for in contracts.
#[verifier::ext_equal]
pub struct KeycloakProviderModel {
    pub admin_url: Seq<char>,
    pub admin_realm: Seq<char>,
    pub client_id: Seq<char>,
    pub client_secret: Seq<char>,
}

impl DeepView for KeycloakProvider {
    type V = KeycloakProviderModel;

    open spec fn deep_view(&self) -> KeycloakProviderModel {
        KeycloakProviderModel {
            admin_url: self.admin_url.deep_view(),
            admin_realm: self.admin_realm.deep_view(),
            client_id: self.client_id.deep_view(),
            client_secret: self.client_secret.deep_view(),
        }
    }
}

impl Clone for KeycloakProvider {
    fn clone(&self) -> (r: Self)
        ensures
            r.deep_view() == self.deep_view(),
    {
        KeycloakProvider {
            admin_url: self.admin_url.clone(),
            admin_realm: self.admin_realm.clone(),
            client_id: self.client_id.clone(),
            client_secret: self.client_secret.clone(),
        }
    }
}

impl KeycloakProvider {
    /// A server and a service account.
    pub fn new(
        admin_url: String,
        admin_realm: String,
        client_id: String,
        client_secret: String,
    ) -> (r: KeycloakProvider)
        ensures
            r.deep_view() == (KeycloakProviderModel {
                admin_url: admin_url@,
                admin_realm: admin_realm@,
                client_id: client_id@,
                client_secret: client_secret@,
            }),
    {
        KeycloakProvider { admin_url, admin_realm, client_id, client_secret }
    }

    /// The name of this kind of provider.
    pub fn name(&self) -> (r: &'static str)
        ensures
            r@ == "keycloak"@,
    {
        "keycloak"
    }

    /// The address of a realm's administration.
    pub fn realm_url(&self, realm: &str) -> (r: String)
        ensures
            r@ == self.deep_view().realm_address(realm@),
    {
        self.admin_url.clone().concat("/admin/realms/").concat(realm)
    }

    fn user_url(&self, realm: &str, id: &str) -> (r: String)
        ensures
            r@ == self.deep_view().user_address(realm@, id@),
    {
        self.realm_url(realm).concat("/users/").concat(id)
    }

    fn membership_url(&self, realm: &str, user_id: &str, group_id: &str) -> (r: String)
        ensures
            r@ == self.deep_view().membership_address(realm@, user_id@, group_id@),
    {
        self.user_url(realm, user_id).concat("/groups/").concat(group_id)
    }

    fn roles_url(&self, realm: &str, user_id: &str) -> (r: String)
        ensures
            r@ == self.deep_view().roles_address(realm@, user_id@),
    {
        self.user_url(realm, user_id).concat("/role-mappings/realm")
    }

    fn client_url(&self, realm: &str, id: &str) -> (r: String)
        ensures
            r@ == self.deep_view().client_address(realm@, id@),
    {
        self.realm_url(realm).concat("/clients/").concat(id)
    }
}

impl KeycloakProviderModel {
    /// The address of a realm's administration.
    pub open spec fn realm_address(self, realm: Seq<char>) -> Seq<char> {
        self.admin_url + "/admin/realms/"@ + realm
    }

    /// The address of a user.
    pub open spec fn user_address(self, realm: Seq<char>, id: Seq<char>) -> Seq<char> {
        self.realm_address(realm) + "/users/"@ + id
    }

    /// The address of a user's membership in a group.
    pub open spec fn membership_address(
        self,
        realm: Seq<char>,
        user_id: Seq<char>,
        group_id: Seq<char>,
    ) -> Seq<char> {
        self.user_address(realm, user_id) + "/groups/"@ + group_id
    }

    /// The address of the roles that are assigned to a user.
    pub open spec fn roles_address(self, realm: Seq<char>, user_id: Seq<char>) -> Seq<char> {
        self.user_address(realm, user_id) + "/role-mappings/realm"@
    }

    /// The address of a client.
    pub open spec fn client_address(self, realm: Seq<char>, id: Seq<char>) -> Seq<char> {
        self.realm_address(realm) + "/clients/"@ + id
    }
}

// ── Answers ──────────────────────────────────────────────────────────────────

/// A change is made, and that it was made is the answer.
pub open spec fn change_answered(request: HttpRequestModel, replies: Seq<KcReplyModel>) -> KcAsked<
    ProviderAnswerModel,
> {
    match written(request, replies) {
        Ask::Stop(stop) => Ask::Stop(stop),
        Ask::Got(AttemptModel::Failed(error), rest) => Ask::Got(
            ProviderAnswerModel::Failed(error),
            rest,
        ),
        Ask::Got(AttemptModel::Done(_), rest) => Ask::Got(ProviderAnswerModel::Done, rest),
    }
}

fn answer_change(cursor: &mut KcReplies<'_>, request: HttpRequest) -> (r: Result<
    ProviderAnswer,
    KcStep,
>)
    ensures
        answers(r, final(cursor).rest(), change_answered(request.deep_view(), old(cursor).rest())),
{
    match change(cursor, request)? {
        Attempt::Failed(error) => Ok(ProviderAnswer::Failed(error)),
        Attempt::Done(_) => Ok(ProviderAnswer::Done),
    }
}

/// Users are read.
pub open spec fn users_answered(url: Seq<char>, replies: Seq<KcReplyModel>) -> KcAsked<
    ProviderAnswerModel,
> {
    match users_fetched(url, replies) {
        Ask::Stop(stop) => Ask::Stop(stop),
        Ask::Got(AttemptModel::Failed(error), rest) => Ask::Got(
            ProviderAnswerModel::Failed(error),
            rest,
        ),
        Ask::Got(AttemptModel::Done(found), rest) => Ask::Got(
            ProviderAnswerModel::Users(users_of(found)),
            rest,
        ),
    }
}

fn answer_users(cursor: &mut KcReplies<'_>, url: String) -> (r: Result<ProviderAnswer, KcStep>)
    ensures
        answers(r, final(cursor).rest(), users_answered(url@, old(cursor).rest())),
{
    match fetch_users(cursor, url)? {
        Attempt::Failed(error) => Ok(ProviderAnswer::Failed(error)),
        Attempt::Done(found) => Ok(ProviderAnswer::Users(read_users(found))),
    }
}

/// One user is read.
pub open spec fn user_answered(url: Seq<char>, replies: Seq<KcReplyModel>) -> KcAsked<
    ProviderAnswerModel,
> {
    match user_fetched(url, replies) {
        Ask::Stop(stop) => Ask::Stop(stop),
        Ask::Got(AttemptModel::Failed(error), rest) => Ask::Got(
            ProviderAnswerModel::Failed(error),
            rest,
        ),
        Ask::Got(AttemptModel::Done(found), rest) => Ask::Got(
            ProviderAnswerModel::User(user_of(found)),
            rest,
        ),
    }
}

fn answer_user(cursor: &mut KcReplies<'_>, url: String) -> (r: Result<ProviderAnswer, KcStep>)
    ensures
        answers(r, final(cursor).rest(), user_answered(url@, old(cursor).rest())),
{
    match fetch_user(cursor, url)? {
        Attempt::Failed(error) => Ok(ProviderAnswer::Failed(error)),
        Attempt::Done(found) => Ok(ProviderAnswer::User(kc_user_to_user(found))),
    }
}

/// Groups are read.
pub open spec fn groups_answered(url: Seq<char>, replies: Seq<KcReplyModel>) -> KcAsked<
    ProviderAnswerModel,
> {
    match groups_fetched(url, replies) {
        Ask::Stop(stop) => Ask::Stop(stop),
        Ask::Got(AttemptModel::Failed(error), rest) => Ask::Got(
            ProviderAnswerModel::Failed(error),
            rest,
        ),
        Ask::Got(AttemptModel::Done(found), rest) => Ask::Got(
            ProviderAnswerModel::Groups(groups_of(found)),
            rest,
        ),
    }
}

fn answer_groups(cursor: &mut KcReplies<'_>, url: String) -> (r: Result<ProviderAnswer, KcStep>)
    ensures
        answers(r, final(cursor).rest(), groups_answered(url@, old(cursor).rest())),
{
    match fetch_groups(cursor, url)? {
        Attempt::Failed(error) => Ok(ProviderAnswer::Failed(error)),
        Attempt::Done(found) => Ok(ProviderAnswer::Groups(read_groups(found))),
    }
}

/// Roles are read.
pub open spec fn roles_answered(url: Seq<char>, replies: Seq<KcReplyModel>) -> KcAsked<
    ProviderAnswerModel,
> {
    match roles_fetched(url, replies) {
        Ask::Stop(stop) => Ask::Stop(stop),
        Ask::Got(AttemptModel::Failed(error), rest) => Ask::Got(
            ProviderAnswerModel::Failed(error),
            rest,
        ),
        Ask::Got(AttemptModel::Done(found), rest) => Ask::Got(
            ProviderAnswerModel::Roles(roles_of(found)),
            rest,
        ),
    }
}

fn answer_roles(cursor: &mut KcReplies<'_>, url: String) -> (r: Result<ProviderAnswer, KcStep>)
    ensures
        answers(r, final(cursor).rest(), roles_answered(url@, old(cursor).rest())),
{
    match fetch_roles(cursor, url)? {
        Attempt::Failed(error) => Ok(ProviderAnswer::Failed(error)),
        Attempt::Done(found) => Ok(ProviderAnswer::Roles(read_roles(found))),
    }
}

/// Clients are read.
pub open spec fn clients_answered(url: Seq<char>, replies: Seq<KcReplyModel>) -> KcAsked<
    ProviderAnswerModel,
> {
    match clients_fetched(url, replies) {
        Ask::Stop(stop) => Ask::Stop(stop),
        Ask::Got(AttemptModel::Failed(error), rest) => Ask::Got(
            ProviderAnswerModel::Failed(error),
            rest,
        ),
        Ask::Got(AttemptModel::Done(found), rest) => Ask::Got(
            ProviderAnswerModel::Clients(clients_of(found)),
            rest,
        ),
    }
}

fn answer_clients(cursor: &mut KcReplies<'_>, url: String) -> (r: Result<ProviderAnswer, KcStep>)
    ensures
        answers(r, final(cursor).rest(), clients_answered(url@, old(cursor).rest())),
{
    match fetch_clients(cursor, url)? {
        Attempt::Failed(error) => Ok(ProviderAnswer::Failed(error)),
        Attempt::Done(found) => Ok(ProviderAnswer::Clients(read_clients(found))),
    }
}

/// The one realm that the service account may read.
pub open spec fn realms_answered(url: Seq<char>, replies: Seq<KcReplyModel>) -> KcAsked<
    ProviderAnswerModel,
> {
    match realm_fetched(url, replies) {
        Ask::Stop(stop) => Ask::Stop(stop),
        Ask::Got(AttemptModel::Failed(error), rest) => Ask::Got(
            ProviderAnswerModel::Failed(error),
            rest,
        ),
        Ask::Got(AttemptModel::Done(found), rest) => Ask::Got(
            ProviderAnswerModel::Realms(seq![realm_of(found)]),
            rest,
        ),
    }
}

fn answer_realms(cursor: &mut KcReplies<'_>, url: String) -> (r: Result<ProviderAnswer, KcStep>)
    ensures
        answers(r, final(cursor).rest(), realms_answered(url@, old(cursor).rest())),
{
    match fetch_realm(cursor, url)? {
        Attempt::Failed(error) => Ok(ProviderAnswer::Failed(error)),
        Attempt::Done(found) => {
            let realms = vec![read_realm(found)];
            assert(realms.deep_view() =~= seq![realm_of(found.deep_view())]);
            Ok(ProviderAnswer::Realms(realms))
        },
    }
}

// ── Users ────────────────────────────────────────────────────────────────────

/// The address of a list of users.
pub open spec fn users_address(
    provider: KeycloakProviderModel,
    realm: Seq<char>,
    query: ListUsersQueryModel,
) -> Seq<char> {
    provider.realm_address(realm) + "/users?briefRepresentation=false&first="@ + decimal(
        query.offset as nat,
    ) + "&max="@ + decimal(query.max as nat) + (match query.search {
        Some(text) => "&search="@ + percent_encoded(encode_utf8(text)),
        None => Seq::empty(),
    })
}

fn users_url(provider: &KeycloakProvider, realm: &str, query: &ListUsersQuery) -> (r: String)
    ensures
        r@ == users_address(provider.deep_view(), realm@, query.deep_view()),
{
    let page = provider.realm_url(realm).concat("/users?briefRepresentation=false&first=").concat(
        decimal_text(query.offset as u64).as_str(),
    ).concat("&max=").concat(decimal_text(query.max as u64).as_str());
    match &query.search {
        Some(text) => {
            let found = "&search=".to_string().concat(url_encode(text.as_str()).as_str());
            page.concat(found.as_str())
        },
        None => {
            assert(page@ + Seq::<char>::empty() =~= page@);
            page
        },
    }
}

/// The attributes of a new account, with the phone number and the personnel code.
pub open spec fn full_attributes(user: CreateUserModel) -> AttributesModel {
    let with_phone = match user.phone_number {
        Some(value) if value.len() > 0 => user.attributes.insert("phone_number"@, seq![value]),
        _ => user.attributes,
    };
    match user.personnel_code {
        Some(value) if value.len() > 0 => with_phone.insert("personnel_code"@, seq![value]),
        _ => with_phone,
    }
}

fn put_one(attributes: &mut Attributes, key: &str, value: &String)
    ensures
        final(attributes).deep_view() == old(attributes).deep_view().insert(key@, seq![value@]),
{
    let values = vec![value.clone()];
    assert(values.deep_view() =~= seq![value@]);
    attributes.insert(key.to_string(), values);
}

fn collect_attributes(user: &CreateUser) -> (r: Attributes)
    ensures
        r.deep_view() == full_attributes(user.deep_view()),
{
    let mut attributes = user.attributes.clone();
    if let Some(value) = &user.phone_number {
        if !value.as_str().is_empty() {
            put_one(&mut attributes, "phone_number", value);
        }
    }
    if let Some(value) = &user.personnel_code {
        if !value.as_str().is_empty() {
            put_one(&mut attributes, "personnel_code", value);
        }
    }
    attributes
}

/// Whether a new account comes with a password.
pub open spec fn has_password(user: CreateUserModel) -> bool {
    user.password matches Some(password) && password.len() > 0
}

/// The account that is sent, with the password or, without it, the duty to choose one.
pub open spec fn account_body(user: CreateUserModel, with_password: bool) -> NewUserBodyModel {
    NewUserBodyModel {
        username: user.username,
        email: user.email,
        first_name: user.first_name,
        last_name: user.last_name,
        enabled: user.enabled,
        attributes: full_attributes(user),
        credential: if with_password && has_password(user) {
            Some(
                CredentialModel { value: user.password->0, temporary: user.password_temporary },
            )
        } else {
            None
        },
        required_actions: if !with_password && user.password_temporary {
            seq!["UPDATE_PASSWORD"@]
        } else {
            Seq::empty()
        },
    }
}

fn new_account_body(user: &CreateUser, with_password: bool) -> (r: NewUserBody)
    ensures
        r.deep_view() == account_body(user.deep_view(), with_password),
{
    let credential = match &user.password {
        Some(password) => if with_password && !password.as_str().is_empty() {
            Some(Credential { value: password.clone(), temporary: user.password_temporary })
        } else {
            None
        },
        None => None,
    };
    let mut required_actions: Vec<String> = Vec::new();
    if !with_password && user.password_temporary {
        required_actions.push("UPDATE_PASSWORD".to_string());
    }
    assert(required_actions.deep_view() =~= account_body(
        user.deep_view(),
        with_password,
    ).required_actions);
    NewUserBody {
        username: user.username.clone(),
        email: user.email.clone(),
        first_name: user.first_name.clone(),
        last_name: user.last_name.clone(),
        enabled: user.enabled,
        attributes: collect_attributes(user),
        credential,
        required_actions,
    }
}

/// The request that creates an account.
pub open spec fn account_request(
    provider: KeycloakProviderModel,
    realm: Seq<char>,
    user: CreateUserModel,
    with_password: bool,
) -> HttpRequestModel {
    HttpRequestModel {
        method: Method::Post,
        url: provider.realm_address(realm) + "/users"@,
        payload: PayloadModel::NewUser(account_body(user, with_password)),
    }
}

fn new_account_request(
    provider: &KeycloakProvider,
    realm: &str,
    user: &CreateUser,
    with_password: bool,
) -> (r: HttpRequest)
    ensures
        r.deep_view() == account_request(
            provider.deep_view(),
            realm@,
            user.deep_view(),
            with_password,
        ),
{
    HttpRequest {
        method: Method::Post,
        url: provider.realm_url(realm).concat("/users"),
        payload: Payload::NewUser(new_account_body(user, with_password)),
    }
}

/// The account is created. Where the realm refuses a temporary password, it is created
/// without one, and the user has to choose it.
pub open spec fn account_posted(
    provider: KeycloakProviderModel,
    realm: Seq<char>,
    user: CreateUserModel,
    replies: Seq<KcReplyModel>,
) -> KcAsked<AttemptModel<ResponseModel>> {
    match written(account_request(provider, realm, user, true), replies) {
        Ask::Stop(stop) => Ask::Stop(stop),
        Ask::Got(AttemptModel::Failed(ProviderErrorModel::Validation(message)), rest) => if has_password(
            user,
        ) && user.password_temporary {
            written(account_request(provider, realm, user, false), rest)
        } else {
            Ask::Got(AttemptModel::Failed(ProviderErrorModel::Validation(message)), rest)
        },
        Ask::Got(other, rest) => Ask::Got(other, rest),
    }
}

fn post_account<'a>(
    cursor: &mut KcReplies<'a>,
    provider: &KeycloakProvider,
    realm: &str,
    user: &CreateUser,
) -> (r: Result<Attempt<&'a Response>, KcStep>)
    ensures
        answers(
            r,
            final(cursor).rest(),
            account_posted(provider.deep_view(), realm@, user.deep_view(), old(cursor).rest()),
        ),
{
    let protected = match &user.password {
        Some(password) => !password.as_str().is_empty(),
        None => false,
    };
    match change(cursor, new_account_request(provider, realm, user, true))? {
        Attempt::Failed(ProviderError::Validation(message)) => if protected
            && user.password_temporary {
            change(cursor, new_account_request(provider, realm, user, false))
        } else {
            Ok(Attempt::Failed(ProviderError::Validation(message)))
        },
        other => Ok(other),
    }
}

/// The id at the end of the address of what was created, or why there is none.
pub open spec fn created_id(
    location: Option<Seq<char>>,
    missing: Seq<char>,
    bad: Seq<char>,
) -> AttemptModel<Seq<char>> {
    match location {
        None => AttemptModel::Failed(
            ProviderErrorModel::UnexpectedResponse { status: 201, body: missing },
        ),
        Some(address) => if last_segment(address).len() == 0 {
            AttemptModel::Failed(
                ProviderErrorModel::UnexpectedResponse { status: 201, body: bad + address },
            )
        } else {
            AttemptModel::Done(last_segment(address))
        },
    }
}

fn read_id(location: &Option<String>, missing: &str, bad: &str) -> (r: Attempt<String>)
    ensures
        r.deep_view() == created_id(location.deep_view(), missing@, bad@),
{
    match location {
        None => Attempt::Failed(
            ProviderError::UnexpectedResponse { status: 201, body: missing.to_string() },
        ),
        Some(address) => {
            let id = last_segment_of(address.as_str());
            if id.as_str().is_empty() {
                Attempt::Failed(
                    ProviderError::UnexpectedResponse {
                        status: 201,
                        body: bad.to_string().concat(address.as_str()),
                    },
                )
            } else {
                Attempt::Done(id)
            }
        },
    }
}

/// A user is created and read back.
pub open spec fn user_created(
    provider: KeycloakProviderModel,
    realm: Seq<char>,
    user: CreateUserModel,
    replies: Seq<KcReplyModel>,
) -> KcAsked<ProviderAnswerModel> {
    match account_posted(provider, realm, user, replies) {
        Ask::Stop(stop) => Ask::Stop(stop),
        Ask::Got(AttemptModel::Failed(error), rest) => Ask::Got(
            ProviderAnswerModel::Failed(error),
            rest,
        ),
        Ask::Got(AttemptModel::Done(response), rest) => match created_id(
            response.location,
            "Keycloak did not return a Location header after user creation"@,
            "could not extract user ID from Location header: "@,
        ) {
            AttemptModel::Failed(error) => Ask::Got(ProviderAnswerModel::Failed(error), rest),
            AttemptModel::Done(id) => user_answered(provider.user_address(realm, id), rest),
        },
    }
}

fn create_user(
    cursor: &mut KcReplies<'_>,
    provider: &KeycloakProvider,
    realm: &str,
    user: &CreateUser,
) -> (r: Result<ProviderAnswer, KcStep>)
    ensures
        answers(
            r,
            final(cursor).rest(),
            user_created(provider.deep_view(), realm@, user.deep_view(), old(cursor).rest()),
        ),
{
    let response = match post_account(cursor, provider, realm, user)? {
        Attempt::Failed(error) => return Ok(ProviderAnswer::Failed(error)),
        Attempt::Done(response) => response,
    };
    match read_id(
        &response.location,
        "Keycloak did not return a Location header after user creation",
        "could not extract user ID from Location header: ",
    ) {
        Attempt::Failed(error) => Ok(ProviderAnswer::Failed(error)),
        Attempt::Done(id) => answer_user(cursor, provider.user_url(realm, id.as_str())),
    }
}

/// A value, or the one that is there.
pub open spec fn or_held(new: Option<Seq<char>>, held: Option<Seq<char>>) -> Seq<char> {
    match new {
        Some(value) => value,
        None => or_empty(held),
    }
}

fn new_or_held(new: &Option<String>, held: &Option<String>) -> (r: String)
    ensures
        r@ == or_held(new.deep_view(), held.deep_view()),
{
    match new {
        Some(value) => value.clone(),
        None => text_or_empty(held),
    }
}

/// The attributes of an account after an update: those that the update does not name stay.
pub open spec fn merged_attributes(
    held: AttributesModel,
    update: UpdateUserModel,
) -> AttributesModel {
    let with_new = match update.attributes {
        Some(new) => held.union_prefer_right(new),
        None => held,
    };
    let with_phone = match update.phone_number {
        Some(value) => with_new.insert("phone_number"@, seq![value]),
        None => with_new,
    };
    match update.personnel_code {
        Some(value) => with_phone.insert("personnel_code"@, seq![value]),
        None => with_phone,
    }
}

/// The whole account after an update. Keycloak checks all required fields on every change,
/// so that all of them are sent.
pub open spec fn merged_account(held: UserModel, update: UpdateUserModel) -> UserBodyModel {
    UserBodyModel {
        first_name: or_held(update.first_name, held.first_name),
        last_name: or_held(update.last_name, held.last_name),
        email: or_held(update.email, held.email),
        enabled: match update.enabled {
            Some(enabled) => enabled,
            None => held.enabled,
        },
        attributes: merged_attributes(held.attributes, update),
    }
}

/// Puts an update and the account it is about together.
pub fn merge_account(held: &User, update: &UpdateUser) -> (r: UserBody)
    ensures
        r.deep_view() == merged_account(held.deep_view(), update.deep_view()),
{
    let mut attributes = held.attributes.clone();
    if let Some(new) = &update.attributes {
        attributes.extend(new);
    }
    if let Some(value) = &update.phone_number {
        put_one(&mut attributes, "phone_number", value);
    }
    if let Some(value) = &update.personnel_code {
        put_one(&mut attributes, "personnel_code", value);
    }
    let enabled = match update.enabled {
        Some(enabled) => enabled,
        None => held.enabled,
    };
    UserBody {
        first_name: new_or_held(&update.first_name, &held.first_name),
        last_name: new_or_held(&update.last_name, &held.last_name),
        email: new_or_held(&update.email, &held.email),
        enabled,
        attributes,
    }
}

/// A user is read, and written back with the update.
pub open spec fn user_updated(
    provider: KeycloakProviderModel,
    realm: Seq<char>,
    id: Seq<char>,
    update: UpdateUserModel,
    replies: Seq<KcReplyModel>,
) -> KcAsked<ProviderAnswerModel> {
    let url = provider.user_address(realm, id);
    match user_fetched(url, replies) {
        Ask::Stop(stop) => Ask::Stop(stop),
        Ask::Got(AttemptModel::Failed(error), rest) => Ask::Got(
            ProviderAnswerModel::Failed(error),
            rest,
        ),
        Ask::Got(AttemptModel::Done(held), rest) => change_answered(
            HttpRequestModel {
                method: Method::Put,
                url,
                payload: PayloadModel::User(merged_account(user_of(held), update)),
            },
            rest,
        ),
    }
}

fn update_user(
    cursor: &mut KcReplies<'_>,
    provider: &KeycloakProvider,
    realm: &str,
    id: &str,
    update: &UpdateUser,
) -> (r: Result<ProviderAnswer, KcStep>)
    ensures
        answers(
            r,
            final(cursor).rest(),
            user_updated(
                provider.deep_view(),
                realm@,
                id@,
                update.deep_view(),
                old(cursor).rest(),
            ),
        ),
{
    let url = provider.user_url(realm, id);
    match fetch_user(cursor, url.clone())? {
        Attempt::Failed(error) => Ok(ProviderAnswer::Failed(error)),
        Attempt::Done(held) => {
            let body = merge_account(&kc_user_to_user(held), update);
            answer_change(
                cursor,
                HttpRequest { method: Method::Put, url, payload: Payload::User(body) },
            )
        },
    }
}

/// A user is read, and updated with one more attribute.
pub open spec fn attribute_set(
    provider: KeycloakProviderModel,
    realm: Seq<char>,
    id: Seq<char>,
    key: Seq<char>,
    value: Seq<char>,
    replies: Seq<KcReplyModel>,
) -> KcAsked<ProviderAnswerModel> {
    match user_fetched(provider.user_address(realm, id), replies) {
        Ask::Stop(stop) => Ask::Stop(stop),
        Ask::Got(AttemptModel::Failed(error), rest) => Ask::Got(
            ProviderAnswerModel::Failed(error),
            rest,
        ),
        Ask::Got(AttemptModel::Done(held), rest) => user_updated(
            provider,
            realm,
            id,
            UpdateUserModel {
                attributes: Some(user_of(held).attributes.insert(key, seq![value])),
                ..no_update()
            },
            rest,
        ),
    }
}

fn set_attribute(
    cursor: &mut KcReplies<'_>,
    provider: &KeycloakProvider,
    realm: &str,
    id: &str,
    key: &str,
    value: &String,
) -> (r: Result<ProviderAnswer, KcStep>)
    ensures
        answers(
            r,
            final(cursor).rest(),
            attribute_set(provider.deep_view(), realm@, id@, key@, value@, old(cursor).rest()),
        ),
{
    match fetch_user(cursor, provider.user_url(realm, id))? {
        Attempt::Failed(error) => Ok(ProviderAnswer::Failed(error)),
        Attempt::Done(held) => {
            let mut attributes = kc_user_to_user(held).attributes;
            put_one(&mut attributes, key, value);
            let mut update = UpdateUser::default();
            update.attributes = Some(attributes);
            update_user(cursor, provider, realm, id, &update)
        },
    }
}

// ── Groups ───────────────────────────────────────────────────────────────────

/// The address of the children of a group.
pub open spec fn children_address(
    provider: KeycloakProviderModel,
    realm: Seq<char>,
    id: Seq<char>,
) -> Seq<char> {
    provider.realm_address(realm) + "/groups/"@ + id + "/children?briefRepresentation=false"@
}

/// A group, with its children where they have to be fetched. Children that cannot be fetched
/// are left out.
pub open spec fn group_completed(
    provider: KeycloakProviderModel,
    realm: Seq<char>,
    group: KcGroupModel,
    replies: Seq<KcReplyModel>,
) -> KcAsked<GroupModel> {
    if group.lacks_children {
        match groups_fetched(children_address(provider, realm, group.group.id), replies) {
            Ask::Stop(stop) => Ask::Stop(stop),
            Ask::Got(AttemptModel::Done(children), rest) => Ask::Got(
                GroupModel { subgroups: groups_of(children), ..group.group },
                rest,
            ),
            Ask::Got(AttemptModel::Failed(_), rest) => Ask::Got(group.group, rest),
        }
    } else {
        Ask::Got(group.group, replies)
    }
}

fn complete_group(
    cursor: &mut KcReplies<'_>,
    provider: &KeycloakProvider,
    realm: &str,
    group: &KcGroup,
) -> (r: Result<Group, KcStep>)
    ensures
        answers(
            r,
            final(cursor).rest(),
            group_completed(provider.deep_view(), realm@, group.deep_view(), old(cursor).rest()),
        ),
{
    let mut r = kc_group_to_group(group);
    if group.sub_group_count > 0 && group.sub_groups.len() == 0 {
        let url = provider.realm_url(realm).concat("/groups/").concat(group.id.as_str()).concat(
            "/children?briefRepresentation=false",
        );
        if let Attempt::Done(children) = fetch_groups(cursor, url)? {
            let ghost bare = r.deep_view();
            let subgroups = read_groups(children);
            let ghost below = subgroups.deep_view();
            r.subgroups = subgroups;
            assert(group_model(r).subgroups =~= below);
            assert(r.deep_view() == (GroupModel { subgroups: below, ..bare }));
        }
    }
    Ok(r)
}

/// Groups, each with its children.
pub open spec fn groups_completed(
    provider: KeycloakProviderModel,
    realm: Seq<char>,
    groups: Seq<KcGroupModel>,
    done: Seq<GroupModel>,
    replies: Seq<KcReplyModel>,
) -> KcAsked<Seq<GroupModel>>
    decreases groups.len(),
{
    if groups.len() == 0 {
        Ask::Got(done, replies)
    } else {
        match group_completed(provider, realm, groups[0], replies) {
            Ask::Stop(stop) => Ask::Stop(stop),
            Ask::Got(group, rest) => groups_completed(
                provider,
                realm,
                groups.skip(1),
                done.push(group),
                rest,
            ),
        }
    }
}

fn complete_groups(
    cursor: &mut KcReplies<'_>,
    provider: &KeycloakProvider,
    realm: &str,
    groups: &Vec<KcGroup>,
) -> (r: Result<Vec<Group>, KcStep>)
    ensures
        answers(
            r,
            final(cursor).rest(),
            groups_completed(
                provider.deep_view(),
                realm@,
                groups.deep_view(),
                Seq::empty(),
                old(cursor).rest(),
            ),
        ),
{
    let ghost whole = groups.deep_view();
    let ghost start = cursor.rest();
    let ghost server = provider.deep_view();
    let mut done: Vec<Group> = Vec::new();
    let mut i: usize = 0;
    assert(whole.skip(0) =~= whole);
    assert(done.deep_view() =~= Seq::empty());
    while i < groups.len()
        invariant
            i <= groups@.len(),
            whole == groups.deep_view(),
            server == provider.deep_view(),
            start == old(cursor).rest(),
            groups_completed(server, realm@, whole, Seq::empty(), start) == groups_completed(
                server,
                realm@,
                whole.skip(i as int),
                done.deep_view(),
                cursor.rest(),
            ),
        decreases groups@.len() - i,
    {
        let ghost before = done.deep_view();
        assert(whole.skip(i as int).skip(1) =~= whole.skip(i + 1));
        assert(whole.skip(i as int)[0] == groups@[i as int].deep_view());
        let group = complete_group(cursor, provider, realm, &groups[i])?;
        let ghost model = group.deep_view();
        done.push(group);
        assert(done.deep_view() =~= before.push(model));
        i = i + 1;
    }
    Ok(done)
}

/// The groups of a realm are read, each with its children.
pub open spec fn groups_listed(
    provider: KeycloakProviderModel,
    realm: Seq<char>,
    replies: Seq<KcReplyModel>,
) -> KcAsked<ProviderAnswerModel> {
    match groups_fetched(
        provider.realm_address(realm) + "/groups?briefRepresentation=false"@,
        replies,
    ) {
        Ask::Stop(stop) => Ask::Stop(stop),
        Ask::Got(AttemptModel::Failed(error), rest) => Ask::Got(
            ProviderAnswerModel::Failed(error),
            rest,
        ),
        Ask::Got(AttemptModel::Done(groups), rest) => match groups_completed(
            provider,
            realm,
            groups,
            Seq::empty(),
            rest,
        ) {
            Ask::Stop(stop) => Ask::Stop(stop),
            Ask::Got(all, rest) => Ask::Got(ProviderAnswerModel::Groups(all), rest),
        },
    }
}

fn list_groups(cursor: &mut KcReplies<'_>, provider: &KeycloakProvider, realm: &str) -> (r: Result<
    ProviderAnswer,
    KcStep,
>)
    ensures
        answers(
            r,
            final(cursor).rest(),
            groups_listed(provider.deep_view(), realm@, old(cursor).rest()),
        ),
{
    let url = provider.realm_url(realm).concat("/groups?briefRepresentation=false");
    match fetch_groups(cursor, url)? {
        Attempt::Failed(error) => Ok(ProviderAnswer::Failed(error)),
        Attempt::Done(groups) => Ok(
            ProviderAnswer::Groups(complete_groups(cursor, provider, realm, groups)?),
        ),
    }
}

/// Where a group is created: below its parent, or at the top.
pub open spec fn new_group_address(
    provider: KeycloakProviderModel,
    realm: Seq<char>,
    parent_id: Option<Seq<char>>,
) -> Seq<char> {
    match parent_id {
        Some(parent) => provider.realm_address(realm) + "/groups/"@ + parent + "/children"@,
        None => provider.realm_address(realm) + "/groups"@,
    }
}

/// The path of a new group.
pub open spec fn new_group_path(name: Seq<char>, parent_id: Option<Seq<char>>) -> Seq<char> {
    match parent_id {
        Some(_) => "/teams/"@ + name,
        None => "/"@ + name,
    }
}

/// A group is created.
pub open spec fn group_created(
    provider: KeycloakProviderModel,
    realm: Seq<char>,
    name: Seq<char>,
    parent_id: Option<Seq<char>>,
    replies: Seq<KcReplyModel>,
) -> KcAsked<ProviderAnswerModel> {
    match written(
        HttpRequestModel {
            method: Method::Post,
            url: new_group_address(provider, realm, parent_id),
            payload: PayloadModel::GroupName(name),
        },
        replies,
    ) {
        Ask::Stop(stop) => Ask::Stop(stop),
        Ask::Got(AttemptModel::Failed(error), rest) => Ask::Got(
            ProviderAnswerModel::Failed(error),
            rest,
        ),
        Ask::Got(AttemptModel::Done(response), rest) => match created_id(
            response.location,
            "no Location header"@,
            "bad Location: "@,
        ) {
            AttemptModel::Failed(error) => Ask::Got(ProviderAnswerModel::Failed(error), rest),
            AttemptModel::Done(id) => Ask::Got(
                ProviderAnswerModel::Group(
                    GroupModel {
                        id,
                        name,
                        path: new_group_path(name, parent_id),
                        subgroups: Seq::empty(),
                        realm_roles: Seq::empty(),
                    },
                ),
                rest,
            ),
        },
    }
}

fn create_group(
    cursor: &mut KcReplies<'_>,
    provider: &KeycloakProvider,
    realm: &str,
    name: &str,
    parent_id: &Option<String>,
) -> (r: Result<ProviderAnswer, KcStep>)
    ensures
        answers(
            r,
            final(cursor).rest(),
            group_created(
                provider.deep_view(),
                realm@,
                name@,
                parent_id.deep_view(),
                old(cursor).rest(),
            ),
        ),
{
    let url = match parent_id {
        Some(parent) => provider.realm_url(realm).concat("/groups/").concat(
            parent.as_str(),
        ).concat("/children"),
        None => provider.realm_url(realm).concat("/groups"),
    };
    let response = match change(
        cursor,
        HttpRequest { method: Method::Post, url, payload: Payload::GroupName(name.to_string()) },
    )? {
        Attempt::Failed(error) => return Ok(ProviderAnswer::Failed(error)),
        Attempt::Done(response) => response,
    };
    match read_id(&response.location, "no Location header", "bad Location: ") {
        Attempt::Failed(error) => Ok(ProviderAnswer::Failed(error)),
        Attempt::Done(id) => {
            let path = match parent_id {
                Some(_) => "/teams/".to_string().concat(name),
                None => "/".to_string().concat(name),
            };
            let group = Group {
                id,
                name: name.to_string(),
                path,
                subgroups: Vec::new(),
                realm_roles: Vec::new(),
            };
            assert(group.deep_view().subgroups =~= Seq::empty());
            assert(group.deep_view().realm_roles =~= Seq::empty());
            Ok(ProviderAnswer::Group(group))
        },
    }
}

// ── Roles and clients ────────────────────────────────────────────────────────

/// The request that assigns or removes a role.
pub open spec fn role_request(
    provider: KeycloakProviderModel,
    method: Method,
    realm: Seq<char>,
    user_id: Seq<char>,
    role: RoleModel,
) -> HttpRequestModel {
    HttpRequestModel {
        method,
        url: provider.roles_address(realm, user_id),
        payload: PayloadModel::Roles(seq![RoleRefModel { id: role.id, name: role.name }]),
    }
}

fn new_role_request(
    provider: &KeycloakProvider,
    method: Method,
    realm: &str,
    user_id: &str,
    role: &Role,
) -> (r: HttpRequest)
    ensures
        r.deep_view() == role_request(
            provider.deep_view(),
            method,
            realm@,
            user_id@,
            role.deep_view(),
        ),
{
    let roles = vec![RoleRef { id: role.id.clone(), name: role.name.clone() }];
    assert(roles.deep_view() =~= seq![RoleRefModel { id: role.id@, name: role.name@ }]);
    HttpRequest {
        method,
        url: provider.roles_url(realm, user_id),
        payload: Payload::Roles(roles),
    }
}

/// A role is removed.
pub open spec fn role_removed(
    provider: KeycloakProviderModel,
    realm: Seq<char>,
    user_id: Seq<char>,
    role: RoleModel,
    replies: Seq<KcReplyModel>,
) -> KcAsked<ProviderAnswerModel> {
    match written_plainly(role_request(provider, Method::Delete, realm, user_id, role), replies) {
        Ask::Stop(stop) => Ask::Stop(stop),
        Ask::Got(AttemptModel::Failed(error), rest) => Ask::Got(
            ProviderAnswerModel::Failed(error),
            rest,
        ),
        Ask::Got(AttemptModel::Done(_), rest) => Ask::Got(ProviderAnswerModel::Done, rest),
    }
}

fn remove_role(
    cursor: &mut KcReplies<'_>,
    provider: &KeycloakProvider,
    realm: &str,
    user_id: &str,
    role: &Role,
) -> (r: Result<ProviderAnswer, KcStep>)
    ensures
        answers(
            r,
            final(cursor).rest(),
            role_removed(
                provider.deep_view(),
                realm@,
                user_id@,
                role.deep_view(),
                old(cursor).rest(),
            ),
        ),
{
    match change_plainly(
        cursor,
        new_role_request(provider, Method::Delete, realm, user_id, role),
    )? {
        Attempt::Failed(error) => Ok(ProviderAnswer::Failed(error)),
        Attempt::Done(_) => Ok(ProviderAnswer::Done),
    }
}

/// One client is read; one without an id is not there.
pub open spec fn client_answered(url: Seq<char>, replies: Seq<KcReplyModel>) -> KcAsked<
    ProviderAnswerModel,
> {
    match client_fetched(url, replies) {
        Ask::Stop(stop) => Ask::Stop(stop),
        Ask::Got(AttemptModel::Failed(error), rest) => Ask::Got(
            ProviderAnswerModel::Failed(error),
            rest,
        ),
        Ask::Got(AttemptModel::Done(found), rest) => match client_of(found) {
            Some(client) => Ask::Got(ProviderAnswerModel::Client(client), rest),
            None => Ask::Got(ProviderAnswerModel::Failed(ProviderErrorModel::NotFound), rest),
        },
    }
}

fn answer_client(cursor: &mut KcReplies<'_>, url: String) -> (r: Result<ProviderAnswer, KcStep>)
    ensures
        answers(r, final(cursor).rest(), client_answered(url@, old(cursor).rest())),
{
    match fetch_client(cursor, url)? {
        Attempt::Failed(error) => Ok(ProviderAnswer::Failed(error)),
        Attempt::Done(found) => match kc_client_to_client(found) {
            Some(client) => Ok(ProviderAnswer::Client(client)),
            None => Ok(ProviderAnswer::Failed(ProviderError::NotFound)),
        },
    }
}

/// The secret of a client; a client without one has none.
pub open spec fn secret_answered(url: Seq<char>, replies: Seq<KcReplyModel>) -> KcAsked<
    ProviderAnswerModel,
> {
    match secret_fetched(url, replies) {
        Ask::Stop(stop) => Ask::Stop(stop),
        Ask::Got(AttemptModel::Done(secret), rest) => Ask::Got(
            ProviderAnswerModel::Secret(secret),
            rest,
        ),
        Ask::Got(AttemptModel::Failed(ProviderErrorModel::NotFound), rest) => Ask::Got(
            ProviderAnswerModel::Secret(None),
            rest,
        ),
        Ask::Got(AttemptModel::Failed(error), rest) => Ask::Got(
            ProviderAnswerModel::Failed(error),
            rest,
        ),
    }
}

fn answer_secret(cursor: &mut KcReplies<'_>, url: String) -> (r: Result<ProviderAnswer, KcStep>)
    ensures
        answers(r, final(cursor).rest(), secret_answered(url@, old(cursor).rest())),
{
    match fetch_secret(cursor, url)? {
        Attempt::Done(secret) => Ok(ProviderAnswer::Secret(secret.clone())),
        Attempt::Failed(ProviderError::NotFound) => Ok(ProviderAnswer::Secret(None)),
        Attempt::Failed(error) => Ok(ProviderAnswer::Failed(error)),
    }
}

/// The representation that a setting is put into: `null` stands for an object that holds
/// nothing yet.
pub open spec fn settable(json: Seq<char>) -> Seq<char> {
    if trimmed(json) == "null"@ {
        "{}"@
    } else {
        json
    }
}

fn settable_json(json: &str) -> (r: String)
    ensures
        r@ == settable(json@),
{
    if same(trim(json).as_str(), "null") {
        "{}".to_string()
    } else {
        json.to_string()
    }
}

/// The representation of a client with a flag, where one is set.
pub open spec fn with_flag(json: Option<Seq<char>>, key: Seq<char>, flag: Option<bool>) -> Option<
    Seq<char>,
> {
    match (json, flag) {
        (Some(text), Some(value)) => json_with_flag(settable(text), key, value),
        _ => json,
    }
}

/// The representation of a client with a list, where one is set.
pub open spec fn with_list(
    json: Option<Seq<char>>,
    key: Seq<char>,
    list: Option<Seq<Seq<char>>>,
) -> Option<Seq<char>> {
    match (json, list) {
        (Some(text), Some(values)) => json_with_array(settable(text), key, values),
        _ => json,
    }
}

/// The representation of a client with new settings; nothing, where a setting is put and it
/// is neither an object nor `null`.
pub open spec fn client_json(json: Seq<char>, settings: UpdateAppClientModel) -> Option<Seq<char>> {
    with_list(
        with_list(
            with_flag(Some(json), "enabled"@, settings.enabled),
            "redirectUris"@,
            settings.redirect_uris,
        ),
        "webOrigins"@,
        settings.web_origins,
    )
}

fn put_list(json: Option<String>, key: &str, list: &Option<Vec<String>>) -> (r: Option<String>)
    ensures
        r.deep_view() == with_list(json.deep_view(), key@, list.deep_view()),
{
    match (&json, list) {
        (Some(text), Some(values)) => json_put_array(
            settable_json(text.as_str()).as_str(),
            key,
            values,
        ),
        _ => json,
    }
}

fn new_client_json(json: &String, settings: &UpdateAppClient) -> (r: Option<String>)
    ensures
        r.deep_view() == client_json(json@, settings.deep_view()),
{
    let first = match settings.enabled {
        Some(value) => json_put_flag(settable_json(json.as_str()).as_str(), "enabled", value),
        None => Some(json.clone()),
    };
    let second = put_list(first, "redirectUris", &settings.redirect_uris);
    put_list(second, "webOrigins", &settings.web_origins)
}

/// A client is read, and written back with the new settings, all else as it was.
pub open spec fn client_updated(
    provider: KeycloakProviderModel,
    realm: Seq<char>,
    id: Seq<char>,
    settings: UpdateAppClientModel,
    replies: Seq<KcReplyModel>,
) -> KcAsked<ProviderAnswerModel> {
    let url = provider.client_address(realm, id);
    match json_fetched(url, replies) {
        Ask::Stop(stop) => Ask::Stop(stop),
        Ask::Got(AttemptModel::Failed(error), rest) => Ask::Got(
            ProviderAnswerModel::Failed(error),
            rest,
        ),
        Ask::Got(AttemptModel::Done(json), rest) => match client_json(json, settings) {
            None => Ask::Got(
                ProviderAnswerModel::Failed(
                    ProviderErrorModel::Http("client representation is not an object"@),
                ),
                rest,
            ),
            Some(text) => change_answered(
                HttpRequestModel { method: Method::Put, url, payload: PayloadModel::Json(text) },
                rest,
            ),
        },
    }
}

fn update_client(
    cursor: &mut KcReplies<'_>,
    provider: &KeycloakProvider,
    realm: &str,
    id: &str,
    settings: &UpdateAppClient,
) -> (r: Result<ProviderAnswer, KcStep>)
    ensures
        answers(
            r,
            final(cursor).rest(),
            client_updated(
                provider.deep_view(),
                realm@,
                id@,
                settings.deep_view(),
                old(cursor).rest(),
            ),
        ),
{
    let url = provider.client_url(realm, id);
    match fetch_json(cursor, url.clone())? {
        Attempt::Failed(error) => Ok(ProviderAnswer::Failed(error)),
        Attempt::Done(json) => match new_client_json(json, settings) {
            None => Ok(
                ProviderAnswer::Failed(
                    ProviderError::Http("client representation is not an object".to_string()),
                ),
            ),
            Some(text) => answer_change(
                cursor,
                HttpRequest { method: Method::Put, url, payload: Payload::Json(text) },
            ),
        },
    }
}

// ── All calls ────────────────────────────────────────────────────────────────

/// What a call comes to.
pub open spec fn call_served(
    provider: KeycloakProviderModel,
    call: ProviderCallModel,
    replies: Seq<KcReplyModel>,
) -> KcAsked<ProviderAnswerModel> {
    match call {
        // A service account of one realm may read that realm only, not the list of all.
        ProviderCallModel::ListRealms => realms_answered(
            provider.realm_address(provider.admin_realm),
            replies,
        ),
        ProviderCallModel::ListUsers { realm, query } => users_answered(
            users_address(provider, realm, query),
            replies,
        ),
        ProviderCallModel::GetUser { realm, id } => user_answered(
            provider.user_address(realm, id),
            replies,
        ),
        ProviderCallModel::CreateUser { realm, user } => user_created(
            provider,
            realm,
            user,
            replies,
        ),
        ProviderCallModel::UpdateUser { realm, id, update } => user_updated(
            provider,
            realm,
            id,
            update,
            replies,
        ),
        ProviderCallModel::SetUserEnabled { realm, id, enabled } => user_updated(
            provider,
            realm,
            id,
            UpdateUserModel { enabled: Some(enabled), ..no_update() },
            replies,
        ),
        ProviderCallModel::SetUserAttribute { realm, id, key, value } => attribute_set(
            provider,
            realm,
            id,
            key,
            value,
            replies,
        ),
        ProviderCallModel::SetUserPassword { realm, id, password, temporary } => change_answered(
            HttpRequestModel {
                method: Method::Put,
                url: provider.user_address(realm, id) + "/reset-password"@,
                payload: PayloadModel::Password(CredentialModel { value: password, temporary }),
            },
            replies,
        ),
        ProviderCallModel::DeleteUser { realm, id } => change_answered(
            HttpRequestModel {
                method: Method::Delete,
                url: provider.user_address(realm, id),
                payload: PayloadModel::Nothing,
            },
            replies,
        ),
        ProviderCallModel::ListGroups { realm } => groups_listed(provider, realm, replies),
        ProviderCallModel::GetUserGroups { realm, user_id } => groups_answered(
            provider.user_address(realm, user_id) + "/groups"@,
            replies,
        ),
        ProviderCallModel::ListGroupMembers { realm, group_id } => users_answered(
            provider.realm_address(realm) + "/groups/"@ + group_id + "/members?max=2000"@,
            replies,
        ),
        ProviderCallModel::CreateGroup { realm, name, parent_id } => group_created(
            provider,
            realm,
            name,
            parent_id,
            replies,
        ),
        ProviderCallModel::AddUserToGroup { realm, user_id, group_id } => change_answered(
            HttpRequestModel {
                method: Method::Put,
                url: provider.membership_address(realm, user_id, group_id),
                payload: PayloadModel::EmptyObject,
            },
            replies,
        ),
        ProviderCallModel::RemoveUserFromGroup { realm, user_id, group_id } => change_answered(
            HttpRequestModel {
                method: Method::Delete,
                url: provider.membership_address(realm, user_id, group_id),
                payload: PayloadModel::Nothing,
            },
            replies,
        ),
        ProviderCallModel::ListRealmRoles { realm } => roles_answered(
            provider.realm_address(realm) + "/roles"@,
            replies,
        ),
        ProviderCallModel::ListRoleUsers { realm, role_name } => users_answered(
            provider.realm_address(realm) + "/roles/"@ + percent_encoded(encode_utf8(role_name))
                + "/users?max=500"@,
            replies,
        ),
        ProviderCallModel::GetUserRealmRoles { realm, user_id } => roles_answered(
            provider.roles_address(realm, user_id),
            replies,
        ),
        ProviderCallModel::GetUserEffectiveRealmRoles { realm, user_id } => roles_answered(
            provider.roles_address(realm, user_id) + "/composite"@,
            replies,
        ),
        ProviderCallModel::AssignRealmRole { realm, user_id, role } => change_answered(
            role_request(provider, Method::Post, realm, user_id, role),
            replies,
        ),
        ProviderCallModel::RemoveRealmRole { realm, user_id, role } => role_removed(
            provider,
            realm,
            user_id,
            role,
            replies,
        ),
        ProviderCallModel::ListClients { realm } => clients_answered(
            provider.realm_address(realm) + "/clients?max=200"@,
            replies,
        ),
        ProviderCallModel::GetClient { realm, id } => client_answered(
            provider.client_address(realm, id),
            replies,
        ),
        ProviderCallModel::UpdateClient { realm, id, settings } => client_updated(
            provider,
            realm,
            id,
            settings,
            replies,
        ),
        ProviderCallModel::GetClientSecret { realm, id } => secret_answered(
            provider.client_address(realm, id) + "/client-secret"@,
            replies,
        ),
    }
}

fn serve_call(cursor: &mut KcReplies<'_>, provider: &KeycloakProvider, call: &ProviderCall) -> (r:
    Result<ProviderAnswer, KcStep>)
    ensures
        answers(
            r,
            final(cursor).rest(),
            call_served(provider.deep_view(), call.deep_view(), old(cursor).rest()),
        ),
{
    match call {
        ProviderCall::ListRealms => answer_realms(
            cursor,
            provider.realm_url(provider.admin_realm.as_str()),
        ),
        ProviderCall::ListUsers { realm, query } => answer_users(
            cursor,
            users_url(provider, realm.as_str(), query),
        ),
        ProviderCall::GetUser { realm, id } => answer_user(
            cursor,
            provider.user_url(realm.as_str(), id.as_str()),
        ),
        ProviderCall::CreateUser { realm, user } => create_user(
            cursor,
            provider,
            realm.as_str(),
            user,
        ),
        ProviderCall::UpdateUser { realm, id, update } => update_user(
            cursor,
            provider,
            realm.as_str(),
            id.as_str(),
            update,
        ),
        ProviderCall::SetUserEnabled { realm, id, enabled } => {
            let mut update = UpdateUser::default();
            update.enabled = Some(*enabled);
            update_user(cursor, provider, realm.as_str(), id.as_str(), &update)
        },
        ProviderCall::SetUserAttribute { realm, id, key, value } => set_attribute(
            cursor,
            provider,
            realm.as_str(),
            id.as_str(),
            key.as_str(),
            value,
        ),
        ProviderCall::SetUserPassword { realm, id, password, temporary } => answer_change(
            cursor,
            HttpRequest {
                method: Method::Put,
                url: provider.user_url(realm.as_str(), id.as_str()).concat("/reset-password"),
                payload: Payload::Password(
                    Credential { value: password.clone(), temporary: *temporary },
                ),
            },
        ),
        ProviderCall::DeleteUser { realm, id } => answer_change(
            cursor,
            HttpRequest {
                method: Method::Delete,
                url: provider.user_url(realm.as_str(), id.as_str()),
                payload: Payload::Nothing,
            },
        ),
        ProviderCall::ListGroups { realm } => list_groups(cursor, provider, realm.as_str()),
        ProviderCall::GetUserGroups { realm, user_id } => answer_groups(
            cursor,
            provider.user_url(realm.as_str(), user_id.as_str()).concat("/groups"),
        ),
        ProviderCall::ListGroupMembers { realm, group_id } => answer_users(
            cursor,
            provider.realm_url(realm.as_str()).concat("/groups/").concat(
                group_id.as_str(),
            ).concat("/members?max=2000"),
        ),
        ProviderCall::CreateGroup { realm, name, parent_id } => create_group(
            cursor,
            provider,
            realm.as_str(),
            name.as_str(),
            parent_id,
        ),
        ProviderCall::AddUserToGroup { realm, user_id, group_id } => answer_change(
            cursor,
            HttpRequest {
                method: Method::Put,
                url: provider.membership_url(realm.as_str(), user_id.as_str(), group_id.as_str()),
                payload: Payload::EmptyObject,
            },
        ),
        ProviderCall::RemoveUserFromGroup { realm, user_id, group_id } => answer_change(
            cursor,
            HttpRequest {
                method: Method::Delete,
                url: provider.membership_url(realm.as_str(), user_id.as_str(), group_id.as_str()),
                payload: Payload::Nothing,
            },
        ),
        ProviderCall::ListRealmRoles { realm } => answer_roles(
            cursor,
            provider.realm_url(realm.as_str()).concat("/roles"),
        ),
        ProviderCall::ListRoleUsers { realm, role_name } => answer_users(
            cursor,
            provider.realm_url(realm.as_str()).concat("/roles/").concat(
                url_encode(role_name.as_str()).as_str(),
            ).concat("/users?max=500"),
        ),
        ProviderCall::GetUserRealmRoles { realm, user_id } => answer_roles(
            cursor,
            provider.roles_url(realm.as_str(), user_id.as_str()),
        ),
        ProviderCall::GetUserEffectiveRealmRoles { realm, user_id } => answer_roles(
            cursor,
            provider.roles_url(realm.as_str(), user_id.as_str()).concat("/composite"),
        ),
        ProviderCall::AssignRealmRole { realm, user_id, role } => answer_change(
            cursor,
            new_role_request(provider, Method::Post, realm.as_str(), user_id.as_str(), role),
        ),
        ProviderCall::RemoveRealmRole { realm, user_id, role } => remove_role(
            cursor,
            provider,
            realm.as_str(),
            user_id.as_str(),
            role,
        ),
        ProviderCall::ListClients { realm } => answer_clients(
            cursor,
            provider.realm_url(realm.as_str()).concat("/clients?max=200"),
        ),
        ProviderCall::GetClient { realm, id } => answer_client(
            cursor,
            provider.client_url(realm.as_str(), id.as_str()),
        ),
        ProviderCall::UpdateClient { realm, id, settings } => update_client(
            cursor,
            provider,
            realm.as_str(),
            id.as_str(),
            settings,
        ),
        ProviderCall::GetClientSecret { realm, id } => answer_secret(
            cursor,
            provider.client_url(realm.as_str(), id.as_str()).concat("/client-secret"),
        ),
    }
}

/// What a call needs next, or its answer, after these replies.
pub open spec fn kc_response(
    provider: KeycloakProviderModel,
    call: ProviderCallModel,
    replies: Seq<KcReplyModel>,
) -> KcStepModel {
    match call_served(provider, call, replies) {
        Ask::Stop(stop) => stop,
        Ask::Got(answer, _) => KcStepModel::Answer(answer),
    }
}

impl KeycloakProvider {
    /// Tells what a call needs next, or its answer. To serve a call, call this with no
    /// replies, perform the effect that it names, append the reply, and call it again.
    pub fn respond(&self, call: &ProviderCall, replies: &Vec<KcReply>) -> (r: KcStep)
        ensures
            r.deep_view() == kc_response(
                self.deep_view(),
                call.deep_view(),
                replies.deep_view(),
            ),
    {
        let mut cursor = Cursor::new(replies);
        match serve_call(&mut cursor, self, call) {
            Ok(answer) => KcStep::Answer(answer),
            Err(step) => step,
        }
    }
}

} // verus!
