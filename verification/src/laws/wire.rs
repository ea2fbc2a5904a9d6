//! What each call sends to Keycloak, and what its answer stands for.

use crate::attributes::AttributesModel;
use crate::error::ProviderErrorModel;
use crate::laws::course::filled;
use crate::outside::{json_with_array, json_with_flag, percent_encoded};
use crate::provider::{
    AppClientModel, CreateUserModel, GroupModel, ListUsersQueryModel, ProviderAnswerModel,
    ProviderCallModel, RealmModel, RoleModel, UpdateAppClientModel, UpdateUserModel, UserModel,
};
use crate::provider::keycloak::{
    call_served, group_completed, groups_completed, kc_response, merged_account, user_updated,
    KeycloakProviderModel,
};
use crate::provider::keycloak::http::{
    CredentialModel, DecodedModel, Expect, HttpRequestModel, KcAsked, KcEffectModel, KcReplyModel,
    KcStepModel, Method, NewUserBodyModel, PayloadModel, ResponseModel, RoleRefModel, UserBodyModel,
};
use crate::provider::keycloak::shapes::{
    clients_of, user_of, KcClientRepModel, KcGroupModel, KcRealmModel, KcRoleModel, KcUserModel,
};
use crate::script::Ask;
use crate::text::{decimal, last_segment, trimmed};
use vstd::prelude::*;
use vstd::utf8::encode_utf8;

verus! {

// ── Sending ──────────────────────────────────────────────────────────────────

/// A call needs an effect next.
pub open spec fn needs(
    provider: KeycloakProviderModel,
    call: ProviderCallModel,
    replies: Seq<KcReplyModel>,
    effect: KcEffectModel,
) -> bool {
    kc_response(provider, call, replies) == KcStepModel::Perform(effect)
}

/// A call has ended with an answer.
pub open spec fn ends(
    provider: KeycloakProviderModel,
    call: ProviderCallModel,
    replies: Seq<KcReplyModel>,
    answer: ProviderAnswerModel,
) -> bool {
    kc_response(provider, call, replies) == KcStepModel::Answer(answer)
}

/// A call has ended with an error.
pub open spec fn breaks(
    provider: KeycloakProviderModel,
    call: ProviderCallModel,
    replies: Seq<KcReplyModel>,
    error: ProviderErrorModel,
) -> bool {
    ends(provider, call, replies, ProviderAnswerModel::Failed(error))
}

/// After `start` a call sends a request in the name of the service account. Without a token,
/// and where the request cannot be sent, it ends with the error.
pub open spec fn sends(
    provider: KeycloakProviderModel,
    call: ProviderCallModel,
    start: Seq<KcReplyModel>,
    token: Seq<char>,
    request: HttpRequestModel,
    error: ProviderErrorModel,
    problem: Seq<char>,
) -> bool {
    let named = start.push(KcReplyModel::Token(token));
    &&& needs(provider, call, start, KcEffectModel::AdminToken)
    &&& breaks(provider, call, start.push(KcReplyModel::NoToken(error)), error)
    &&& needs(provider, call, named, KcEffectModel::Send { token, request })
    &&& breaks(
        provider,
        call,
        named.push(KcReplyModel::Failed(problem)),
        ProviderErrorModel::Http(problem),
    )
}

/// The answer tells of success.
pub open spec fn went_well(response: ResponseModel) -> bool {
    response.status >= 200 && response.status <= 299
}

/// The replies to a request that was sent.
pub open spec fn answered(
    start: Seq<KcReplyModel>,
    token: Seq<char>,
    response: ResponseModel,
) -> Seq<KcReplyModel> {
    start.push(KcReplyModel::Token(token)).push(KcReplyModel::Response(response))
}

/// After `start` a call reads from an address. What is not there is reported as that, any other
/// refusal as it stands; what came is read as what was expected.
pub open spec fn reads(
    provider: KeycloakProviderModel,
    call: ProviderCallModel,
    start: Seq<KcReplyModel>,
    token: Seq<char>,
    url: Seq<char>,
    expect: Expect,
    response: ResponseModel,
    error: ProviderErrorModel,
    problem: Seq<char>,
) -> bool {
    let there = answered(start, token, response);
    &&& sends(
        provider,
        call,
        start,
        token,
        HttpRequestModel { method: Method::Get, url, payload: PayloadModel::Nothing },
        error,
        problem,
    )
    &&& if response.status == 404 {
        !(call is GetClientSecret) ==> breaks(
            provider,
            call,
            there,
            ProviderErrorModel::NotFound,
        )
    } else if !went_well(response) {
        breaks(
            provider,
            call,
            there,
            ProviderErrorModel::UnexpectedResponse {
                status: response.status,
                body: response.body,
            },
        )
    } else {
        &&& needs(provider, call, there, KcEffectModel::Decode { expect, body: response.body })
        &&& breaks(
            provider,
            call,
            there.push(KcReplyModel::Failed(problem)),
            ProviderErrorModel::Http(problem),
        )
    }
}

/// The address of a realm.
pub open spec fn in_realm(provider: KeycloakProviderModel, realm: Seq<char>) -> Seq<char> {
    provider.admin_url + "/admin/realms/"@ + realm
}

/// The address of a user in a realm.
pub open spec fn of_user(
    provider: KeycloakProviderModel,
    realm: Seq<char>,
    id: Seq<char>,
) -> Seq<char> {
    in_realm(provider, realm) + "/users/"@ + id
}

/// The one request that a call sends, where one is enough.
pub open spec fn one_request(
    provider: KeycloakProviderModel,
    call: ProviderCallModel,
) -> Option<HttpRequestModel> {
    match call {
        ProviderCallModel::SetUserPassword { realm, id, password, temporary } => Some(
            HttpRequestModel {
                method: Method::Put,
                url: of_user(provider, realm, id) + "/reset-password"@,
                payload: PayloadModel::Password(CredentialModel { value: password, temporary }),
            },
        ),
        ProviderCallModel::DeleteUser { realm, id } => Some(
            HttpRequestModel {
                method: Method::Delete,
                url: of_user(provider, realm, id),
                payload: PayloadModel::Nothing,
            },
        ),
        ProviderCallModel::AddUserToGroup { realm, user_id, group_id } => Some(
            HttpRequestModel {
                method: Method::Put,
                url: of_user(provider, realm, user_id) + "/groups/"@ + group_id,
                payload: PayloadModel::EmptyObject,
            },
        ),
        ProviderCallModel::RemoveUserFromGroup { realm, user_id, group_id } => Some(
            HttpRequestModel {
                method: Method::Delete,
                url: of_user(provider, realm, user_id) + "/groups/"@ + group_id,
                payload: PayloadModel::Nothing,
            },
        ),
        ProviderCallModel::AssignRealmRole { realm, user_id, role } => Some(
            HttpRequestModel {
                method: Method::Post,
                url: of_user(provider, realm, user_id) + "/role-mappings/realm"@,
                payload: PayloadModel::Roles(seq![RoleRefModel { id: role.id, name: role.name }]),
            },
        ),
        ProviderCallModel::RemoveRealmRole { realm, user_id, role } => Some(
            HttpRequestModel {
                method: Method::Delete,
                url: of_user(provider, realm, user_id) + "/role-mappings/realm"@,
                payload: PayloadModel::Roles(seq![RoleRefModel { id: role.id, name: role.name }]),
            },
        ),
        _ => None,
    }
}

/// A call that one request carries out sends that request, and tells whether it went well.
pub proof fn lemma_one_request_carries_a_call_out(
    provider: KeycloakProviderModel,
    call: ProviderCallModel,
    token: Seq<char>,
    request: HttpRequestModel,
    response: ResponseModel,
    error: ProviderErrorModel,
    problem: Seq<char>,
)
    requires
        one_request(provider, call) == Some(request),
    ensures
        sends(provider, call, Seq::empty(), token, request, error, problem),
        went_well(response) ==> ends(
            provider,
            call,
            answered(Seq::empty(), token, response),
            ProviderAnswerModel::Done,
        ),
        !went_well(response) ==> (kc_response(
            provider,
            call,
            answered(Seq::empty(), token, response),
        ) matches KcStepModel::Answer(ProviderAnswerModel::Failed(_))),
{
}

// ── Updates ──────────────────────────────────────────────────────────────────

/// The value that an update names, or else the one that is held, or else none.
pub open spec fn new_or_held(new: Option<Seq<char>>, held: Option<Seq<char>>) -> Seq<char> {
    if new is Some {
        new->0
    } else if held is Some {
        held->0
    } else {
        Seq::empty()
    }
}

/// The values of an attribute after an update.
pub open spec fn values_after(
    held: AttributesModel,
    update: UpdateUserModel,
    key: Seq<char>,
    values: Option<Seq<Seq<char>>>,
) -> bool {
    if key == "personnel_code"@ && update.personnel_code is Some {
        values == Some(seq![update.personnel_code->0])
    } else if key == "phone_number"@ && update.phone_number is Some {
        values == Some(seq![update.phone_number->0])
    } else if update.attributes is Some && update.attributes->0.dom().contains(key) {
        values == Some(update.attributes->0[key])
    } else if held.dom().contains(key) {
        values == Some(held[key])
    } else {
        values is None
    }
}

/// What is held under a key.
pub open spec fn held_under(attributes: AttributesModel, key: Seq<char>) -> Option<Seq<Seq<char>>> {
    if attributes.dom().contains(key) {
        Some(attributes[key])
    } else {
        None
    }
}

/// The account that is written back: what the update names, and of all else what was read.
pub open spec fn is_updated(held: KcUserModel, update: UpdateUserModel, body: UserBodyModel) -> bool {
    let attributes = if held.attributes is Some {
        held.attributes->0
    } else {
        Map::empty()
    };
    &&& body.first_name == new_or_held(update.first_name, held.first_name)
    &&& body.last_name == new_or_held(update.last_name, held.last_name)
    &&& body.email == new_or_held(update.email, held.email)
    &&& body.enabled == (if update.enabled is Some {
        update.enabled->0
    } else {
        held.enabled == Some(true)
    })
    &&& forall|key: Seq<char>|
        #![trigger body.attributes.dom().contains(key)]
        values_after(attributes, update, key, held_under(body.attributes, key))
}

/// After `start` a call reads an account and writes it back updated, and tells whether that
/// went well.
pub open spec fn updates(
    provider: KeycloakProviderModel,
    call: ProviderCallModel,
    start: Seq<KcReplyModel>,
    realm: Seq<char>,
    id: Seq<char>,
    update: UpdateUserModel,
    token: Seq<char>,
    response: ResponseModel,
    held: KcUserModel,
    body: UserBodyModel,
    second: Seq<char>,
    last: ResponseModel,
    error: ProviderErrorModel,
    problem: Seq<char>,
) -> bool {
    let url = of_user(provider, realm, id);
    let read = answered(start, token, response).push(
        KcReplyModel::Decoded(DecodedModel::User(held)),
    );
    &&& reads(provider, call, start, token, url, Expect::User, response, error, problem)
    &&& went_well(response) && is_updated(held, update, body) ==> {
        &&& sends(
            provider,
            call,
            read,
            second,
            HttpRequestModel { method: Method::Put, url, payload: PayloadModel::User(body) },
            error,
            problem,
        )
        &&& went_well(last) ==> ends(
            provider,
            call,
            answered(read, second, last),
            ProviderAnswerModel::Done,
        )
        &&& !went_well(last) ==> (kc_response(
            provider,
            call,
            answered(read, second, last),
        ) matches KcStepModel::Answer(ProviderAnswerModel::Failed(_)))
    }
}

proof fn lemma_is_updated(held: KcUserModel, update: UpdateUserModel, body: UserBodyModel)
    requires
        is_updated(held, update, body),
    ensures
        body == merged_account(user_of(held), update),
{
    let merged = merged_account(user_of(held), update);
    assert forall|key: Seq<char>| #[trigger] body.attributes.dom().contains(key)
        == merged.attributes.dom().contains(key) && (body.attributes.dom().contains(key)
        ==> body.attributes[key] == merged.attributes[key]) by {
        let attributes = user_of(held).attributes;
        assert(values_after(attributes, update, key, held_under(body.attributes, key)));
    }
    assert(body.attributes =~= merged.attributes);
}

proof fn lemma_updates(
    provider: KeycloakProviderModel,
    call: ProviderCallModel,
    start: Seq<KcReplyModel>,
    realm: Seq<char>,
    id: Seq<char>,
    update: UpdateUserModel,
    token: Seq<char>,
    response: ResponseModel,
    held: KcUserModel,
    body: UserBodyModel,
    second: Seq<char>,
    last: ResponseModel,
    error: ProviderErrorModel,
    problem: Seq<char>,
)
    requires
        !(call is GetClientSecret),
        forall|tail: Seq<KcReplyModel>|
            call_served(provider, call, start + tail) == #[trigger] user_updated(
                provider,
                realm,
                id,
                update,
                tail,
            ),
    ensures
        updates(
            provider,
            call,
            start,
            realm,
            id,
            update,
            token,
            response,
            held,
            body,
            second,
            last,
            error,
            problem,
        ),
{
    let e = Seq::<KcReplyModel>::empty();
    let t = e.push(KcReplyModel::Token(token));
    let r = t.push(KcReplyModel::Response(response));
    let d = r.push(KcReplyModel::Decoded(DecodedModel::User(held)));
    let s = d.push(KcReplyModel::Token(second));
    assert(start + e =~= start);
    assert(call_served(provider, call, start + e) == user_updated(provider, realm, id, update, e));
    lemma_tail(provider, call, start, realm, id, update, e, KcReplyModel::NoToken(error));
    lemma_tail(provider, call, start, realm, id, update, e, KcReplyModel::Token(token));
    lemma_tail(provider, call, start, realm, id, update, t, KcReplyModel::Failed(problem));
    lemma_tail(provider, call, start, realm, id, update, t, KcReplyModel::Response(response));
    lemma_tail(provider, call, start, realm, id, update, r, KcReplyModel::Failed(problem));
    lemma_tail(provider, call, start, realm, id, update, r, d.last());
    lemma_tail(provider, call, start, realm, id, update, d, KcReplyModel::NoToken(error));
    lemma_tail(provider, call, start, realm, id, update, d, KcReplyModel::Token(second));
    lemma_tail(provider, call, start, realm, id, update, s, KcReplyModel::Failed(problem));
    lemma_tail(provider, call, start, realm, id, update, s, KcReplyModel::Response(last));
    if is_updated(held, update, body) {
        lemma_is_updated(held, update, body);
    }
}

proof fn lemma_tail(
    provider: KeycloakProviderModel,
    call: ProviderCallModel,
    start: Seq<KcReplyModel>,
    realm: Seq<char>,
    id: Seq<char>,
    update: UpdateUserModel,
    tail: Seq<KcReplyModel>,
    next: KcReplyModel,
)
    requires
        forall|tail: Seq<KcReplyModel>|
            call_served(provider, call, start + tail) == #[trigger] user_updated(
                provider,
                realm,
                id,
                update,
                tail,
            ),
    ensures
        call_served(provider, call, (start + tail).push(next)) == user_updated(
            provider,
            realm,
            id,
            update,
            tail.push(next),
        ),
        (start + tail).push(next) == start + tail.push(next),
{
    assert(start + tail.push(next) =~= (start + tail).push(next));
    assert(call_served(provider, call, start + tail.push(next)) == user_updated(
        provider,
        realm,
        id,
        update,
        tail.push(next),
    ));
}

/// An update of an account changes what it names, and nothing else; a new status is an update
/// of the status alone.
pub proof fn lemma_updates_reach_the_account(
    provider: KeycloakProviderModel,
    realm: Seq<char>,
    id: Seq<char>,
    update: UpdateUserModel,
    enabled: bool,
    token: Seq<char>,
    response: ResponseModel,
    held: KcUserModel,
    body: UserBodyModel,
    second: Seq<char>,
    last: ResponseModel,
    error: ProviderErrorModel,
    problem: Seq<char>,
)
    ensures
        updates(
            provider,
            ProviderCallModel::UpdateUser { realm, id, update },
            Seq::empty(),
            realm,
            id,
            update,
            token,
            response,
            held,
            body,
            second,
            last,
            error,
            problem,
        ),
        updates(
            provider,
            ProviderCallModel::SetUserEnabled { realm, id, enabled },
            Seq::empty(),
            realm,
            id,
            UpdateUserModel {
                email: None,
                first_name: None,
                last_name: None,
                enabled: Some(enabled),
                phone_number: None,
                personnel_code: None,
                attributes: None,
            },
            token,
            response,
            held,
            body,
            second,
            last,
            error,
            problem,
        ),
{
    let only = UpdateUserModel {
        email: None,
        first_name: None,
        last_name: None,
        enabled: Some(enabled),
        phone_number: None,
        personnel_code: None,
        attributes: None,
    };
    let e = Seq::<KcReplyModel>::empty();
    assert forall|tail: Seq<KcReplyModel>|
        call_served(
            provider,
            ProviderCallModel::UpdateUser { realm, id, update },
            e + tail,
        ) == #[trigger] user_updated(provider, realm, id, update, tail) by {
        assert(e + tail =~= tail);
    }
    lemma_updates(
        provider,
        ProviderCallModel::UpdateUser { realm, id, update },
        e,
        realm,
        id,
        update,
        token,
        response,
        held,
        body,
        second,
        last,
        error,
        problem,
    );
    assert forall|tail: Seq<KcReplyModel>|
        call_served(
            provider,
            ProviderCallModel::SetUserEnabled { realm, id, enabled },
            e + tail,
        ) == #[trigger] user_updated(provider, realm, id, only, tail) by {
        assert(e + tail =~= tail);
    }
    lemma_updates(
        provider,
        ProviderCallModel::SetUserEnabled { realm, id, enabled },
        e,
        realm,
        id,
        only,
        token,
        response,
        held,
        body,
        second,
        last,
        error,
        problem,
    );
}

/// A new attribute is added to those that the account holds, in place of one of the same name.
pub proof fn lemma_attributes_are_added(
    provider: KeycloakProviderModel,
    realm: Seq<char>,
    id: Seq<char>,
    key: Seq<char>,
    value: Seq<char>,
    token: Seq<char>,
    response: ResponseModel,
    found: KcUserModel,
    update: UpdateUserModel,
    second: Seq<char>,
    again: ResponseModel,
    held: KcUserModel,
    body: UserBodyModel,
    third: Seq<char>,
    last: ResponseModel,
    error: ProviderErrorModel,
    problem: Seq<char>,
)
    requires
        update.attributes is Some,
        update == (UpdateUserModel {
            email: None,
            first_name: None,
            last_name: None,
            enabled: None,
            phone_number: None,
            personnel_code: None,
            attributes: update.attributes,
        }),
        forall|k: Seq<char>|
            #![trigger update.attributes->0.dom().contains(k)]
            held_under(update.attributes->0, k) == (if k == key {
                Some(seq![value])
            } else if found.attributes is Some {
                held_under(found.attributes->0, k)
            } else {
                None
            }),
    ensures
        ({
            let call = ProviderCallModel::SetUserAttribute { realm, id, key, value };
            let start = answered(Seq::empty(), token, response).push(
                KcReplyModel::Decoded(DecodedModel::User(found)),
            );
            &&& reads(
                provider,
                call,
                Seq::empty(),
                token,
                of_user(provider, realm, id),
                Expect::User,
                response,
                error,
                problem,
            )
            &&& went_well(response) ==> updates(
                provider,
                call,
                start,
                realm,
                id,
                update,
                second,
                again,
                held,
                body,
                third,
                last,
                error,
                problem,
            )
        }),
{
    let call = ProviderCallModel::SetUserAttribute { realm, id, key, value };
    let start = answered(Seq::empty(), token, response).push(
        KcReplyModel::Decoded(DecodedModel::User(found)),
    );
    let new = update.attributes->0;
    let wanted = user_of(found).attributes.insert(key, seq![value]);
    assert forall|k: Seq<char>| #[trigger] new.dom().contains(k) == wanted.dom().contains(k) && (
    new.dom().contains(k) ==> new[k] == wanted[k]) by {
        assert(held_under(new, k) == held_under(new, k));
    }
    assert(new =~= wanted);
    if went_well(response) {
        assert forall|tail: Seq<KcReplyModel>|
            call_served(provider, call, start + tail) == #[trigger] user_updated(
                provider,
                realm,
                id,
                update,
                tail,
            ) by {
            assert((start + tail).skip(1).skip(1).skip(1) =~= tail);
            assert((start + tail)[0] == KcReplyModel::Token(token));
            assert((start + tail).skip(1)[0] == KcReplyModel::Response(response));
            assert((start + tail).skip(1).skip(1)[0] == KcReplyModel::Decoded(
                DecodedModel::User(found),
            ));
        }
        lemma_updates(
            provider,
            call,
            start,
            realm,
            id,
            update,
            second,
            again,
            held,
            body,
            third,
            last,
            error,
            problem,
        );
    }
}

// ── Reading ──────────────────────────────────────────────────────────────────

/// Where a call reads, and what it expects there, for the calls that read once.
pub open spec fn one_read(
    provider: KeycloakProviderModel,
    call: ProviderCallModel,
) -> Option<(Seq<char>, Expect)> {
    match call {
        ProviderCallModel::ListRealms => Some(
            (in_realm(provider, provider.admin_realm), Expect::Realm),
        ),
        ProviderCallModel::ListUsers { realm, query } => {
            let all = in_realm(provider, realm) + "/users?briefRepresentation=false&first="@
                + decimal(query.offset as nat) + "&max="@ + decimal(query.max as nat);
            Some(
                (
                    if query.search is Some {
                        all + ("&search="@ + percent_encoded(encode_utf8(query.search->0)))
                    } else {
                        all
                    },
                    Expect::Users,
                ),
            )
        },
        ProviderCallModel::GetUser { realm, id } => Some(
            (of_user(provider, realm, id), Expect::User),
        ),
        ProviderCallModel::GetUserGroups { realm, user_id } => Some(
            (of_user(provider, realm, user_id) + "/groups"@, Expect::Groups),
        ),
        ProviderCallModel::ListGroupMembers { realm, group_id } => Some(
            (
                in_realm(provider, realm) + "/groups/"@ + group_id + "/members?max=2000"@,
                Expect::Users,
            ),
        ),
        ProviderCallModel::ListRealmRoles { realm } => Some(
            (in_realm(provider, realm) + "/roles"@, Expect::Roles),
        ),
        ProviderCallModel::ListRoleUsers { realm, role_name } => Some(
            (
                in_realm(provider, realm) + "/roles/"@ + percent_encoded(encode_utf8(role_name))
                    + "/users?max=500"@,
                Expect::Users,
            ),
        ),
        ProviderCallModel::GetUserRealmRoles { realm, user_id } => Some(
            (of_user(provider, realm, user_id) + "/role-mappings/realm"@, Expect::Roles),
        ),
        ProviderCallModel::GetUserEffectiveRealmRoles { realm, user_id } => Some(
            (
                of_user(provider, realm, user_id) + "/role-mappings/realm"@ + "/composite"@,
                Expect::Roles,
            ),
        ),
        ProviderCallModel::ListClients { realm } => Some(
            (in_realm(provider, realm) + "/clients?max=200"@, Expect::Clients),
        ),
        ProviderCallModel::GetClient { realm, id } => Some(
            (in_realm(provider, realm) + "/clients/"@ + id, Expect::Client),
        ),
        ProviderCallModel::GetClientSecret { realm, id } => Some(
            (in_realm(provider, realm) + "/clients/"@ + id + "/client-secret"@, Expect::Secret),
        ),
        _ => None,
    }
}

/// The user is the one that Keycloak spells; what it leaves out is empty, or off.
pub open spec fn same_user(found: KcUserModel, user: UserModel) -> bool {
    &&& user.id == (if found.id is Some {
        found.id->0
    } else {
        Seq::empty()
    })
    &&& user.username == found.username
    &&& user.email == found.email
    &&& user.first_name == found.first_name
    &&& user.last_name == found.last_name
    &&& user.enabled == (found.enabled == Some(true))
    &&& user.attributes == (if found.attributes is Some {
        found.attributes->0
    } else {
        Map::empty()
    })
}

/// The role is the one that Keycloak spells.
pub open spec fn same_role(found: KcRoleModel, role: RoleModel) -> bool {
    &&& role.id == found.id
    &&& role.name == found.name
    &&& role.description == found.description
    &&& role.client_role == found.client_role
}

/// The client is the one that Keycloak spells.
pub open spec fn same_client(found: KcClientRepModel, client: AppClientModel) -> bool {
    &&& found.id == Some(client.id)
    &&& client.client_id == found.client_id
    &&& client.name == found.name
    &&& client.description == found.description
    &&& client.enabled == found.enabled
    &&& client.public_client == found.public_client
    &&& client.redirect_uris == found.redirect_uris
    &&& client.web_origins == found.web_origins
    &&& client.protocol == found.protocol
    &&& client.service_accounts_enabled == found.service_accounts_enabled
}

/// The clients are those that Keycloak spells, in their order; one without an id is left out.
pub open spec fn same_clients(found: Seq<KcClientRepModel>, clients: Seq<AppClientModel>) -> bool
    decreases found.len(),
{
    if found.len() == 0 {
        clients.len() == 0
    } else if found.last().id is None {
        same_clients(found.drop_last(), clients)
    } else {
        clients.len() > 0 && same_client(found.last(), clients.last()) && same_clients(
            found.drop_last(),
            clients.drop_last(),
        )
    }
}

/// An answer is what the body of Keycloak's was read as: one for one, in the same order.
pub open spec fn stands_for(found: DecodedModel, answer: ProviderAnswerModel) -> bool {
    match found {
        DecodedModel::Realm(realm) => answer matches ProviderAnswerModel::Realms(realms)
            && realms.len() == 1 && realms[0] == (RealmModel {
            id: realm.id,
            name: realm.realm,
            display_name: realm.display_name,
        }),
        DecodedModel::Users(users) => answer matches ProviderAnswerModel::Users(all) && all.len()
            == users.len() && forall|i: int|
            0 <= i < all.len() ==> same_user(users[i], #[trigger] all[i]),
        DecodedModel::User(user) => answer matches ProviderAnswerModel::User(one) && same_user(
            user,
            one,
        ),
        DecodedModel::Groups(groups) => answer matches ProviderAnswerModel::Groups(all)
            && all.len() == groups.len() && forall|i: int|
            0 <= i < all.len() ==> #[trigger] all[i] == groups[i].group,
        DecodedModel::Roles(roles) => answer matches ProviderAnswerModel::Roles(all) && all.len()
            == roles.len() && forall|i: int|
            0 <= i < all.len() ==> same_role(roles[i], #[trigger] all[i]),
        DecodedModel::Clients(clients) => answer matches ProviderAnswerModel::Clients(all)
            && same_clients(clients, all),
        DecodedModel::Client(client) => if client.id is None {
            answer == ProviderAnswerModel::Failed(ProviderErrorModel::NotFound)
        } else {
            answer matches ProviderAnswerModel::Client(one) && same_client(client, one)
        },
        DecodedModel::Secret(secret) => answer == ProviderAnswerModel::Secret(secret),
        DecodedModel::Json(_) => false,
    }
}

/// The body was read as what was expected.
pub open spec fn is_expected(expect: Expect, found: DecodedModel) -> bool {
    match expect {
        Expect::Realm => found is Realm,
        Expect::Users => found is Users,
        Expect::User => found is User,
        Expect::Groups => found is Groups,
        Expect::Roles => found is Roles,
        Expect::Clients => found is Clients,
        Expect::Client => found is Client,
        Expect::Secret => found is Secret,
        Expect::Json => found is Json,
    }
}

proof fn lemma_same_clients(found: Seq<KcClientRepModel>)
    ensures
        same_clients(found, clients_of(found)),
    decreases found.len(),
{
    if found.len() > 0 {
        lemma_same_clients(found.drop_last());
        let all = clients_of(found);
        if found.last().id is Some {
            assert(all.drop_last() =~= clients_of(found.drop_last()));
        }
    }
}

/// A call reads at an address, and answers what it finds there. Only a client's secret may be
/// missing, and is none in that case.
pub open spec fn looks_up(
    provider: KeycloakProviderModel,
    call: ProviderCallModel,
    token: Seq<char>,
    url: Seq<char>,
    expect: Expect,
    response: ResponseModel,
    found: DecodedModel,
    error: ProviderErrorModel,
    problem: Seq<char>,
) -> bool {
    let start = Seq::<KcReplyModel>::empty();
    let there = answered(start, token, response);
    &&& reads(provider, call, start, token, url, expect, response, error, problem)
    &&& call is GetClientSecret && response.status == 404 ==> ends(
        provider,
        call,
        there,
        ProviderAnswerModel::Secret(None),
    )
    &&& went_well(response) && is_expected(expect, found) ==> (kc_response(
        provider,
        call,
        there.push(KcReplyModel::Decoded(found)),
    ) matches KcStepModel::Answer(answer) && stands_for(found, answer))
}

proof fn lemma_looks_up_realm(
    provider: KeycloakProviderModel,
    call: ProviderCallModel,
    token: Seq<char>,
    url: Seq<char>,
    response: ResponseModel,
    found: DecodedModel,
    error: ProviderErrorModel,
    problem: Seq<char>,
)
    requires
        one_read(provider, call) == Some((url, Expect::Realm)),
    ensures
        looks_up(provider, call, token, url, Expect::Realm, response, found, error, problem),
{
}

proof fn lemma_looks_up_users(
    provider: KeycloakProviderModel,
    call: ProviderCallModel,
    token: Seq<char>,
    url: Seq<char>,
    response: ResponseModel,
    found: DecodedModel,
    error: ProviderErrorModel,
    problem: Seq<char>,
)
    requires
        one_read(provider, call) == Some((url, Expect::Users)),
    ensures
        looks_up(provider, call, token, url, Expect::Users, response, found, error, problem),
{
    if let ProviderCallModel::ListUsers { realm, query } = call {
        if query.search is None {
            let all = in_realm(provider, realm) + "/users?briefRepresentation=false&first="@
                + decimal(query.offset as nat) + "&max="@ + decimal(query.max as nat);
            assert(all + Seq::<char>::empty() =~= all);
        }
    }
}

proof fn lemma_looks_up_user(
    provider: KeycloakProviderModel,
    call: ProviderCallModel,
    token: Seq<char>,
    url: Seq<char>,
    response: ResponseModel,
    found: DecodedModel,
    error: ProviderErrorModel,
    problem: Seq<char>,
)
    requires
        one_read(provider, call) == Some((url, Expect::User)),
    ensures
        looks_up(provider, call, token, url, Expect::User, response, found, error, problem),
{
}

proof fn lemma_looks_up_groups(
    provider: KeycloakProviderModel,
    call: ProviderCallModel,
    token: Seq<char>,
    url: Seq<char>,
    response: ResponseModel,
    found: DecodedModel,
    error: ProviderErrorModel,
    problem: Seq<char>,
)
    requires
        one_read(provider, call) == Some((url, Expect::Groups)),
    ensures
        looks_up(provider, call, token, url, Expect::Groups, response, found, error, problem),
{
}

proof fn lemma_looks_up_roles(
    provider: KeycloakProviderModel,
    call: ProviderCallModel,
    token: Seq<char>,
    url: Seq<char>,
    response: ResponseModel,
    found: DecodedModel,
    error: ProviderErrorModel,
    problem: Seq<char>,
)
    requires
        one_read(provider, call) == Some((url, Expect::Roles)),
    ensures
        looks_up(provider, call, token, url, Expect::Roles, response, found, error, problem),
{
}

proof fn lemma_looks_up_clients(
    provider: KeycloakProviderModel,
    call: ProviderCallModel,
    token: Seq<char>,
    url: Seq<char>,
    response: ResponseModel,
    found: DecodedModel,
    error: ProviderErrorModel,
    problem: Seq<char>,
)
    requires
        one_read(provider, call) == Some((url, Expect::Clients)),
    ensures
        looks_up(provider, call, token, url, Expect::Clients, response, found, error, problem),
{
    if let DecodedModel::Clients(clients) = found {
        lemma_same_clients(clients);
    }
}

proof fn lemma_looks_up_client(
    provider: KeycloakProviderModel,
    call: ProviderCallModel,
    token: Seq<char>,
    url: Seq<char>,
    response: ResponseModel,
    found: DecodedModel,
    error: ProviderErrorModel,
    problem: Seq<char>,
)
    requires
        one_read(provider, call) == Some((url, Expect::Client)),
    ensures
        looks_up(provider, call, token, url, Expect::Client, response, found, error, problem),
{
}

proof fn lemma_looks_up_secret(
    provider: KeycloakProviderModel,
    call: ProviderCallModel,
    token: Seq<char>,
    url: Seq<char>,
    response: ResponseModel,
    found: DecodedModel,
    error: ProviderErrorModel,
    problem: Seq<char>,
)
    requires
        one_read(provider, call) == Some((url, Expect::Secret)),
        error != ProviderErrorModel::NotFound,
    ensures
        looks_up(provider, call, token, url, Expect::Secret, response, found, error, problem),
{
}

/// A call that looks something up reads it where it is kept, and answers what it found.
pub proof fn lemma_lookups_answer_what_is_found(
    provider: KeycloakProviderModel,
    call: ProviderCallModel,
    token: Seq<char>,
    url: Seq<char>,
    expect: Expect,
    response: ResponseModel,
    found: DecodedModel,
    error: ProviderErrorModel,
    problem: Seq<char>,
)
    requires
        one_read(provider, call) == Some((url, expect)),
        call is GetClientSecret ==> error != ProviderErrorModel::NotFound,
    ensures
        looks_up(provider, call, token, url, expect, response, found, error, problem),
{
    match expect {
        Expect::Realm => lemma_looks_up_realm(
            provider,
            call,
            token,
            url,
            response,
            found,
            error,
            problem,
        ),
        Expect::Users => lemma_looks_up_users(
            provider,
            call,
            token,
            url,
            response,
            found,
            error,
            problem,
        ),
        Expect::User => lemma_looks_up_user(
            provider,
            call,
            token,
            url,
            response,
            found,
            error,
            problem,
        ),
        Expect::Groups => lemma_looks_up_groups(
            provider,
            call,
            token,
            url,
            response,
            found,
            error,
            problem,
        ),
        Expect::Roles => lemma_looks_up_roles(
            provider,
            call,
            token,
            url,
            response,
            found,
            error,
            problem,
        ),
        Expect::Clients => lemma_looks_up_clients(
            provider,
            call,
            token,
            url,
            response,
            found,
            error,
            problem,
        ),
        Expect::Client => lemma_looks_up_client(
            provider,
            call,
            token,
            url,
            response,
            found,
            error,
            problem,
        ),
        Expect::Secret => lemma_looks_up_secret(
            provider,
            call,
            token,
            url,
            response,
            found,
            error,
            problem,
        ),
        Expect::Json => {},
    }
}

} // verus!
