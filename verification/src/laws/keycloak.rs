//! What is sent to Keycloak.

use super::access::realm_named;
use crate::provider::{
    is_mutation, no_update, GroupModel, ProviderCallModel, UpdateUserModel, UserModel,
};
use crate::provider::keycloak::{
    attribute_set, call_served, group_completed, groups_completed, groups_listed, kc_response,
    merged_account, user_updated, KeycloakProviderModel,
};
use crate::provider::keycloak::http::{
    groups_fetched, user_fetched, AttemptModel, HttpRequestModel, KcAsked, KcEffectModel,
    KcReplyModel, KcStepModel, Method, PayloadModel,
};
use crate::provider::keycloak::shapes::{user_of, KcGroupModel};
use crate::script::Ask;
use crate::text::or_empty;
use vstd::prelude::*;

verus! {

/// The address is that of a realm, or of something in it.
pub open spec fn is_in_realm(
    provider: KeycloakProviderModel,
    realm: Seq<char>,
    url: Seq<char>,
) -> bool {
    let whole = provider.realm_address(realm);
    &&& url.len() >= whole.len()
    &&& url.take(whole.len() as int) == whole
    &&& url.len() > whole.len() ==> url[whole.len() as int] == '/'
}

/// The address is that of something in a realm.
spec fn is_below(provider: KeycloakProviderModel, realm: Seq<char>, url: Seq<char>) -> bool {
    is_in_realm(provider, realm, url) && url.len() > provider.realm_address(realm).len()
}

proof fn lemma_below(provider: KeycloakProviderModel, realm: Seq<char>, rest: Seq<char>)
    requires
        rest.len() > 0,
        rest[0] == '/',
    ensures
        is_below(provider, realm, provider.realm_address(realm) + rest),
{
    let whole = provider.realm_address(realm);
    assert((whole + rest).take(whole.len() as int) =~= whole);
}

proof fn lemma_further(
    provider: KeycloakProviderModel,
    realm: Seq<char>,
    url: Seq<char>,
    rest: Seq<char>,
)
    requires
        is_below(provider, realm, url),
    ensures
        is_below(provider, realm, url + rest),
{
    let whole = provider.realm_address(realm);
    assert((url + rest).take(whole.len() as int) =~= url.take(whole.len() as int));
}

/// The addresses of what is in a realm.
proof fn lemma_addresses(provider: KeycloakProviderModel, realm: Seq<char>)
    ensures
        is_in_realm(provider, realm, provider.realm_address(realm)),
        is_below(provider, realm, provider.realm_address(realm) + "/users"@),
        is_below(provider, realm, provider.realm_address(realm) + "/groups"@),
        is_below(provider, realm, provider.realm_address(realm) + "/roles"@),
        is_below(provider, realm, provider.realm_address(realm) + "/users/"@),
        is_below(provider, realm, provider.realm_address(realm) + "/groups/"@),
        is_below(provider, realm, provider.realm_address(realm) + "/roles/"@),
        is_below(provider, realm, provider.realm_address(realm) + "/clients/"@),
        is_below(provider, realm, provider.realm_address(realm) + "/clients?max=200"@),
        is_below(
            provider,
            realm,
            provider.realm_address(realm) + "/users?briefRepresentation=false&first="@,
        ),
        is_below(
            provider,
            realm,
            provider.realm_address(realm) + "/groups?briefRepresentation=false"@,
        ),
        forall|url: Seq<char>, rest: Seq<char>|
            is_below(provider, realm, url) ==> is_below(provider, realm, #[trigger] (url + rest)),
{
    let whole = provider.realm_address(realm);
    assert(whole.take(whole.len() as int) =~= whole);
    reveal_strlit("/users");
    reveal_strlit("/groups");
    reveal_strlit("/roles");
    reveal_strlit("/users/");
    reveal_strlit("/groups/");
    reveal_strlit("/roles/");
    reveal_strlit("/clients/");
    reveal_strlit("/clients?max=200");
    reveal_strlit("/users?briefRepresentation=false&first=");
    reveal_strlit("/groups?briefRepresentation=false");
    lemma_below(provider, realm, "/users"@);
    lemma_below(provider, realm, "/groups"@);
    lemma_below(provider, realm, "/roles"@);
    lemma_below(provider, realm, "/users/"@);
    lemma_below(provider, realm, "/groups/"@);
    lemma_below(provider, realm, "/roles/"@);
    lemma_below(provider, realm, "/clients/"@);
    lemma_below(provider, realm, "/clients?max=200"@);
    lemma_below(provider, realm, "/users?briefRepresentation=false&first="@);
    lemma_below(provider, realm, "/groups?briefRepresentation=false"@);
    assert forall|url: Seq<char>, rest: Seq<char>|
        is_below(provider, realm, url) implies is_below(
        provider,
        realm,
        #[trigger] (url + rest),
    ) by {
        lemma_further(provider, realm, url, rest);
    }
}

/// Whatever is sent next goes to a realm, and where `reads` is set, only reads there.
spec fn stays<T>(
    ask: KcAsked<T>,
    provider: KeycloakProviderModel,
    realm: Seq<char>,
    reads: bool,
) -> bool {
    ask matches Ask::Stop(KcStepModel::Perform(KcEffectModel::Send { token, request })) ==> {
        &&& is_in_realm(provider, realm, request.url)
        &&& reads ==> request.method == Method::Get && request.payload == PayloadModel::Nothing
    }
}

proof fn lemma_completion_stays(
    provider: KeycloakProviderModel,
    realm: Seq<char>,
    groups: Seq<KcGroupModel>,
    done: Seq<GroupModel>,
    replies: Seq<KcReplyModel>,
)
    ensures
        stays(groups_completed(provider, realm, groups, done, replies), provider, realm, true),
    decreases groups.len(),
{
    if groups.len() > 0 {
        lemma_addresses(provider, realm);
        let completed = group_completed(provider, realm, groups[0], replies);
        assert(stays(completed, provider, realm, true));
        if let Ask::Got(group, rest) = completed {
            lemma_completion_stays(provider, realm, groups.skip(1), done.push(group), rest);
        }
    }
}

proof fn lemma_creation_stays(
    provider: KeycloakProviderModel,
    call: ProviderCallModel,
    realm: Seq<char>,
    replies: Seq<KcReplyModel>,
)
    requires
        call is CreateUser || call is CreateGroup,
        realm_named(call) == Some(realm),
    ensures
        stays(call_served(provider, call, replies), provider, realm, false),
{
    lemma_addresses(provider, realm);
}

proof fn lemma_update_stays(
    provider: KeycloakProviderModel,
    realm: Seq<char>,
    id: Seq<char>,
    update: UpdateUserModel,
    replies: Seq<KcReplyModel>,
)
    ensures
        stays(user_updated(provider, realm, id, update, replies), provider, realm, false),
{
    lemma_addresses(provider, realm);
}

proof fn lemma_attribute_stays(
    provider: KeycloakProviderModel,
    realm: Seq<char>,
    id: Seq<char>,
    key: Seq<char>,
    value: Seq<char>,
    replies: Seq<KcReplyModel>,
)
    ensures
        stays(attribute_set(provider, realm, id, key, value, replies), provider, realm, false),
{
    lemma_addresses(provider, realm);
    let url = provider.user_address(realm, id);
    if let Ask::Got(AttemptModel::Done(held), rest) = user_fetched(url, replies) {
        lemma_update_stays(
            provider,
            realm,
            id,
            UpdateUserModel {
                attributes: Some(user_of(held).attributes.insert(key, seq![value])),
                ..no_update()
            },
            rest,
        );
    }
}

proof fn lemma_groups_stay(
    provider: KeycloakProviderModel,
    realm: Seq<char>,
    replies: Seq<KcReplyModel>,
)
    ensures
        stays(groups_listed(provider, realm, replies), provider, realm, true),
{
    lemma_addresses(provider, realm);
    let url = provider.realm_address(realm) + "/groups?briefRepresentation=false"@;
    if let Ask::Got(AttemptModel::Done(groups), rest) = groups_fetched(url, replies) {
        lemma_completion_stays(provider, realm, groups, Seq::empty(), rest);
    }
}

#[verifier::rlimit(40)]
proof fn lemma_read_stays(
    provider: KeycloakProviderModel,
    call: ProviderCallModel,
    realm: Seq<char>,
    replies: Seq<KcReplyModel>,
)
    requires
        !is_mutation(call),
        realm_named(call) == Some(realm),
    ensures
        stays(call_served(provider, call, replies), provider, realm, true),
{
    lemma_addresses(provider, realm);
    if call is ListGroups {
        lemma_groups_stay(provider, realm, replies);
    }
}

proof fn lemma_change_stays(
    provider: KeycloakProviderModel,
    call: ProviderCallModel,
    realm: Seq<char>,
    replies: Seq<KcReplyModel>,
)
    requires
        is_mutation(call),
        realm_named(call) == Some(realm),
    ensures
        stays(call_served(provider, call, replies), provider, realm, false),
{
    match call {
        ProviderCallModel::CreateUser { .. } => lemma_creation_stays(
            provider,
            call,
            realm,
            replies,
        ),
        ProviderCallModel::CreateGroup { .. } => lemma_creation_stays(
            provider,
            call,
            realm,
            replies,
        ),
        ProviderCallModel::UpdateUser { id, update, .. } => lemma_update_stays(
            provider,
            realm,
            id,
            update,
            replies,
        ),
        ProviderCallModel::SetUserEnabled { id, enabled, .. } => lemma_update_stays(
            provider,
            realm,
            id,
            UpdateUserModel { enabled: Some(enabled), ..no_update() },
            replies,
        ),
        ProviderCallModel::SetUserAttribute { id, key, value, .. } => lemma_attribute_stays(
            provider,
            realm,
            id,
            key,
            value,
            replies,
        ),
        _ => lemma_addresses(provider, realm),
    }
}

/// A call that changes nothing sends nothing but reads.
pub proof fn lemma_looking_sends_only_reads(
    provider: KeycloakProviderModel,
    call: ProviderCallModel,
    replies: Seq<KcReplyModel>,
    token: Seq<char>,
    request: HttpRequestModel,
)
    requires
        !is_mutation(call),
        kc_response(provider, call, replies) == KcStepModel::Perform(
            KcEffectModel::Send { token, request },
        ),
    ensures
        request.method == Method::Get,
        request.payload == PayloadModel::Nothing,
{
    if let Some(realm) = realm_named(call) {
        lemma_read_stays(provider, call, realm, replies);
    }
}

/// What a call sends goes to the realm that the call names; the one call that names none goes
/// to the realm of the service account.
pub proof fn lemma_calls_stay_in_their_realm(
    provider: KeycloakProviderModel,
    call: ProviderCallModel,
    replies: Seq<KcReplyModel>,
    token: Seq<char>,
    request: HttpRequestModel,
)
    requires
        kc_response(provider, call, replies) == KcStepModel::Perform(
            KcEffectModel::Send { token, request },
        ),
    ensures
        is_in_realm(
            provider,
            match realm_named(call) {
                Some(realm) => realm,
                None => provider.admin_realm,
            },
            request.url,
        ),
{
    match realm_named(call) {
        Some(realm) => if is_mutation(call) {
            lemma_change_stays(provider, call, realm, replies);
        } else {
            lemma_read_stays(provider, call, realm, replies);
        },
        None => lemma_addresses(provider, provider.admin_realm),
    }
}

/// An update keeps what it does not name: the fields of an account, and each of its
/// attributes.
pub proof fn lemma_updates_keep_what_they_do_not_name(
    held: UserModel,
    update: UpdateUserModel,
    key: Seq<char>,
)
    ensures
        update.first_name is None ==> merged_account(held, update).first_name == or_empty(
            held.first_name,
        ),
        update.last_name is None ==> merged_account(held, update).last_name == or_empty(
            held.last_name,
        ),
        update.email is None ==> merged_account(held, update).email == or_empty(held.email),
        update.enabled is None ==> merged_account(held, update).enabled == held.enabled,
        held.attributes.dom().contains(key) && (update.attributes matches Some(new)
            ==> !new.dom().contains(key)) && (key == "phone_number"@ ==> update.phone_number is None)
            && (key == "personnel_code"@ ==> update.personnel_code is None) ==> merged_account(
            held,
            update,
        ).attributes.dom().contains(key) && merged_account(held, update).attributes[key]
            == held.attributes[key],
{
}

} // verus!
