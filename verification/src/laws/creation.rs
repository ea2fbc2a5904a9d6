//! What Keycloak is sent to create accounts and groups, to list groups, and to change clients.

use super::course::filled;
use super::wire::{
    answered, breaks, ends, held_under, in_realm, needs, of_user, reads, same_user, sends, went_well,
};
use crate::attributes::AttributesModel;
use crate::error::ProviderErrorModel;
use crate::outside::{json_string, json_with_array, json_with_flag};
use crate::provider::{
    CreateUserModel, GroupModel, ProviderAnswerModel, ProviderCallModel, UpdateAppClientModel,
    UserModel,
};
use crate::provider::keycloak::{
    account_body, call_served, change_answered, client_json, full_attributes, group_completed,
    groups_completed, created_id, kc_response, user_answered, KeycloakProviderModel,
};
use crate::provider::keycloak::http::{
    fetched, written, AttemptModel, CredentialModel, DecodedModel, Expect, HttpRequestModel,
    KcAsked, KcEffectModel, KcReplyModel, KcStepModel, Method, NewUserBodyModel, PayloadModel,
    ResponseModel,
};
use crate::provider::keycloak::shapes::{groups_of, KcGroupModel, KcUserModel};
use crate::script::Ask;
use crate::text::{last_segment, trimmed};
use vstd::prelude::*;
use vstd::utf8::encode_utf8;

verus! {

// ── Accounts ─────────────────────────────────────────────────────────────────

/// The values of an attribute of a new account.
pub open spec fn value_of_new(
    user: CreateUserModel,
    key: Seq<char>,
    values: Option<Seq<Seq<char>>>,
) -> bool {
    if key == "personnel_code"@ && filled(user.personnel_code) is Some {
        values == Some(seq![user.personnel_code->0])
    } else if key == "phone_number"@ && filled(user.phone_number) is Some {
        values == Some(seq![user.phone_number->0])
    } else {
        values == held_under(user.attributes, key)
    }
}

/// The account that is sent holds what the new user is to have. With the password it carries
/// it; without, the user has to choose one, if it was meant to be temporary.
pub open spec fn is_new_account(
    user: CreateUserModel,
    with_password: bool,
    body: NewUserBodyModel,
) -> bool {
    &&& body.username == user.username
    &&& body.email == user.email
    &&& body.first_name == user.first_name
    &&& body.last_name == user.last_name
    &&& body.enabled == user.enabled
    &&& forall|key: Seq<char>|
        #![trigger body.attributes.dom().contains(key)]
        value_of_new(user, key, held_under(body.attributes, key))
    &&& if with_password && filled(user.password) is Some {
        body.credential == Some(
            CredentialModel { value: user.password->0, temporary: user.password_temporary },
        )
    } else {
        body.credential is None
    }
    &&& if !with_password && user.password_temporary {
        body.required_actions.len() == 1 && body.required_actions[0] == "UPDATE_PASSWORD"@
    } else {
        body.required_actions.len() == 0
    }
}

proof fn lemma_is_new_account(user: CreateUserModel, with_password: bool, body: NewUserBodyModel)
    requires
        is_new_account(user, with_password, body),
    ensures
        body == account_body(user, with_password),
{
    let all = full_attributes(user);
    assert forall|key: Seq<char>| #[trigger] body.attributes.dom().contains(key)
        == all.dom().contains(key) && (body.attributes.dom().contains(key)
        ==> body.attributes[key] == all[key]) by {
        assert(value_of_new(user, key, held_under(body.attributes, key)));
    }
    assert(body.attributes =~= all);
    assert(body.required_actions =~= account_body(user, with_password).required_actions);
}

/// The request that creates an account.
pub open spec fn creating(
    provider: KeycloakProviderModel,
    realm: Seq<char>,
    body: NewUserBodyModel,
) -> HttpRequestModel {
    HttpRequestModel {
        method: Method::Post,
        url: in_realm(provider, realm) + "/users"@,
        payload: PayloadModel::NewUser(body),
    }
}

/// The answer refuses what was sent, and says why.
pub open spec fn is_explained(response: ResponseModel) -> bool {
    response.status == 400 && (json_string(encode_utf8(response.body), "errorMessage"@) is Some
        || json_string(encode_utf8(response.body), "error_description"@) is Some)
}

/// After `start` and a request that went well, a new account is read back by the id at the end
/// of its address.
pub open spec fn reads_back(
    provider: KeycloakProviderModel,
    call: ProviderCallModel,
    realm: Seq<char>,
    done: Seq<KcReplyModel>,
    response: ResponseModel,
    token: Seq<char>,
    second: ResponseModel,
    found: KcUserModel,
    error: ProviderErrorModel,
    problem: Seq<char>,
) -> bool {
    if response.location is None {
        breaks(
            provider,
            call,
            done,
            ProviderErrorModel::UnexpectedResponse {
                status: 201,
                body: "Keycloak did not return a Location header after user creation"@,
            },
        )
    } else {
        let id = last_segment(response.location->0);
        if id.len() == 0 {
            breaks(
                provider,
                call,
                done,
                ProviderErrorModel::UnexpectedResponse {
                    status: 201,
                    body: "could not extract user ID from Location header: "@
                        + response.location->0,
                },
            )
        } else {
            &&& reads(
                provider,
                call,
                done,
                token,
                of_user(provider, realm, id),
                Expect::User,
                second,
                error,
                problem,
            )
            &&& went_well(second) ==> (kc_response(
                provider,
                call,
                answered(done, token, second).push(
                    KcReplyModel::Decoded(DecodedModel::User(found)),
                ),
            ) matches KcStepModel::Answer(ProviderAnswerModel::User(user)) && same_user(
                found,
                user,
            ))
        }
    }
}

proof fn lemma_reads_back(
    provider: KeycloakProviderModel,
    call: ProviderCallModel,
    realm: Seq<char>,
    done: Seq<KcReplyModel>,
    response: ResponseModel,
    token: Seq<char>,
    second: ResponseModel,
    found: KcUserModel,
    error: ProviderErrorModel,
    problem: Seq<char>,
)
    requires
        call is CreateUser,
        forall|tail: Seq<KcReplyModel>|
            #![trigger call_served(provider, call, done + tail)]
            call_served(provider, call, done + tail) == coming_back(
                provider,
                realm,
                response,
                tail,
            ),
    ensures
        reads_back(
            provider,
            call,
            realm,
            done,
            response,
            token,
            second,
            found,
            error,
            problem,
        ),
{
    let e = Seq::<KcReplyModel>::empty();
    let t = e.push(KcReplyModel::Token(token));
    let r = t.push(KcReplyModel::Response(second));
    let d = KcReplyModel::Decoded(DecodedModel::User(found));
    assert(done + e =~= done);
    assert(done + t =~= done.push(KcReplyModel::Token(token)));
    assert(done + e.push(KcReplyModel::NoToken(error)) =~= done.push(KcReplyModel::NoToken(error)));
    assert(done + t.push(KcReplyModel::Failed(problem)) =~= (done + t).push(
        KcReplyModel::Failed(problem),
    ));
    assert(done + r =~= (done + t).push(KcReplyModel::Response(second)));
    assert(done + r.push(KcReplyModel::Failed(problem)) =~= (done + r).push(
        KcReplyModel::Failed(problem),
    ));
    assert(done + r.push(d) =~= (done + r).push(d));
}

/// What is left of a creation when the account has been posted.
spec fn coming_back(
    provider: KeycloakProviderModel,
    realm: Seq<char>,
    response: ResponseModel,
    tail: Seq<KcReplyModel>,
) -> KcAsked<ProviderAnswerModel> {
    match created_id(
        response.location,
        "Keycloak did not return a Location header after user creation"@,
        "could not extract user ID from Location header: "@,
    ) {
        AttemptModel::Failed(error) => Ask::Got(ProviderAnswerModel::Failed(error), tail),
        AttemptModel::Done(id) => user_answered(provider.user_address(realm, id), tail),
    }
}

/// A new account is sent as it is to be, and read back. Where a temporary password is refused,
/// it is sent again without it, so that the user has to choose one; any other refusal is final.
pub proof fn lemma_accounts_are_created(
    provider: KeycloakProviderModel,
    realm: Seq<char>,
    user: CreateUserModel,
    body: NewUserBodyModel,
    token: Seq<char>,
    response: ResponseModel,
    other: NewUserBodyModel,
    again: Seq<char>,
    retried: ResponseModel,
    last: Seq<char>,
    second: ResponseModel,
    found: KcUserModel,
    error: ProviderErrorModel,
    problem: Seq<char>,
)
    requires
        is_new_account(user, true, body),
        is_new_account(user, false, other),
        !(error is Validation),
    ensures
        ({
            let call = ProviderCallModel::CreateUser { realm, user };
            let start = Seq::<KcReplyModel>::empty();
            let done = answered(start, token, response);
            let redone = answered(done, again, retried);
            &&& sends(
                provider,
                call,
                start,
                token,
                creating(provider, realm, body),
                error,
                problem,
            )
            &&& went_well(response) ==> reads_back(
                provider,
                call,
                realm,
                done,
                response,
                last,
                second,
                found,
                error,
                problem,
            )
            &&& !went_well(response) && !(is_explained(response) && filled(user.password) is Some
                && user.password_temporary) ==> (kc_response(
                provider,
                call,
                done,
            ) matches KcStepModel::Answer(ProviderAnswerModel::Failed(_)))
            &&& is_explained(response) && filled(user.password) is Some && user.password_temporary
                ==> {
                &&& sends(
                    provider,
                    call,
                    done,
                    again,
                    creating(provider, realm, other),
                    error,
                    problem,
                )
                &&& went_well(retried) ==> reads_back(
                    provider,
                    call,
                    realm,
                    redone,
                    retried,
                    last,
                    second,
                    found,
                    error,
                    problem,
                )
                &&& !went_well(retried) ==> (kc_response(
                    provider,
                    call,
                    redone,
                ) matches KcStepModel::Answer(ProviderAnswerModel::Failed(_)))
            }
        }),
{
    let call = ProviderCallModel::CreateUser { realm, user };
    let start = Seq::<KcReplyModel>::empty();
    let done = answered(start, token, response);
    let redone = answered(done, again, retried);
    lemma_is_new_account(user, true, body);
    lemma_is_new_account(user, false, other);
    if went_well(response) {
        assert forall|tail: Seq<KcReplyModel>|
            #![trigger call_served(provider, call, done + tail)]
            call_served(provider, call, done + tail) == coming_back(
                provider,
                realm,
                response,
                tail,
            ) by {
            assert((done + tail)[0] == KcReplyModel::Token(token));
            assert((done + tail).skip(1)[0] == KcReplyModel::Response(response));
            assert((done + tail).skip(1).skip(1) =~= tail);
        }
        lemma_reads_back(
            provider,
            call,
            realm,
            done,
            response,
            last,
            second,
            found,
            error,
            problem,
        );
    }
    if is_explained(response) && filled(user.password) is Some && user.password_temporary
        && went_well(retried) {
        assert forall|tail: Seq<KcReplyModel>|
            #![trigger call_served(provider, call, redone + tail)]
            call_served(provider, call, redone + tail) == coming_back(
                provider,
                realm,
                retried,
                tail,
            ) by {
            let all = redone + tail;
            assert(all[0] == KcReplyModel::Token(token));
            assert(all.skip(1)[0] == KcReplyModel::Response(response));
            assert(all.skip(1).skip(1)[0] == KcReplyModel::Token(again));
            assert(all.skip(1).skip(1).skip(1)[0] == KcReplyModel::Response(retried));
            assert(all.skip(1).skip(1).skip(1).skip(1) =~= tail);
        }
        lemma_reads_back(
            provider,
            call,
            realm,
            redone,
            retried,
            last,
            second,
            found,
            error,
            problem,
        );
    }
}

// ── Groups ───────────────────────────────────────────────────────────────────

/// A group is created under the name that the call gives it, below the parent that it names, or
/// else at the top; its id stands at the end of its address.
pub proof fn lemma_groups_are_created(
    provider: KeycloakProviderModel,
    realm: Seq<char>,
    name: Seq<char>,
    parent_id: Option<Seq<char>>,
    token: Seq<char>,
    response: ResponseModel,
    error: ProviderErrorModel,
    problem: Seq<char>,
)
    ensures
        ({
            let call = ProviderCallModel::CreateGroup { realm, name, parent_id };
            let start = Seq::<KcReplyModel>::empty();
            let done = answered(start, token, response);
            &&& sends(
                provider,
                call,
                start,
                token,
                HttpRequestModel {
                    method: Method::Post,
                    url: if parent_id is Some {
                        in_realm(provider, realm) + "/groups/"@ + parent_id->0 + "/children"@
                    } else {
                        in_realm(provider, realm) + "/groups"@
                    },
                    payload: PayloadModel::GroupName(name),
                },
                error,
                problem,
            )
            &&& !went_well(response) ==> (kc_response(
                provider,
                call,
                done,
            ) matches KcStepModel::Answer(ProviderAnswerModel::Failed(_)))
            &&& went_well(response) && response.location is None ==> breaks(
                provider,
                call,
                done,
                ProviderErrorModel::UnexpectedResponse {
                    status: 201,
                    body: "no Location header"@,
                },
            )
            &&& went_well(response) && response.location is Some && last_segment(
                response.location->0,
            ).len() > 0 ==> ends(
                provider,
                call,
                done,
                ProviderAnswerModel::Group(
                    GroupModel {
                        id: last_segment(response.location->0),
                        name,
                        path: if parent_id is Some {
                            "/teams/"@ + name
                        } else {
                            "/"@ + name
                        },
                        subgroups: Seq::empty(),
                        realm_roles: Seq::empty(),
                    },
                ),
            )
        }),
{
}

/// The replies to a look at the children of the first `n` groups, where they were left out.
pub open spec fn children_replies(
    groups: Seq<KcGroupModel>,
    token: Seq<char>,
    response: ResponseModel,
    children: Seq<Seq<KcGroupModel>>,
    n: nat,
) -> Seq<KcReplyModel>
    decreases n,
{
    if n == 0 {
        Seq::empty()
    } else {
        let before = children_replies(groups, token, response, children, (n - 1) as nat);
        if groups[n - 1].lacks_children {
            answered(before, token, response).push(
                KcReplyModel::Decoded(DecodedModel::Groups(children[n - 1])),
            )
        } else {
            before
        }
    }
}

/// The group with its children: those that came with it, or those that were looked up.
pub open spec fn with_children(
    group: KcGroupModel,
    children: Seq<KcGroupModel>,
    whole: GroupModel,
) -> bool {
    &&& whole.id == group.group.id
    &&& whole.name == group.group.name
    &&& whole.path == group.group.path
    &&& whole.realm_roles == group.group.realm_roles
    &&& if group.lacks_children {
        whole.subgroups.len() == children.len() && forall|i: int|
            0 <= i < children.len() ==> #[trigger] whole.subgroups[i] == children[i].group
    } else {
        whole.subgroups == group.group.subgroups
    }
}

proof fn lemma_completed(
    provider: KeycloakProviderModel,
    realm: Seq<char>,
    groups: Seq<KcGroupModel>,
    token: Seq<char>,
    response: ResponseModel,
    children: Seq<Seq<KcGroupModel>>,
    n: nat,
    whole: Seq<GroupModel>,
    tail: Seq<KcReplyModel>,
)
    requires
        n <= groups.len(),
        went_well(response),
        whole.len() == n,
        forall|i: int| 0 <= i < n ==> with_children(groups[i], children[i], #[trigger] whole[i]),
    ensures
        groups_completed(
            provider,
            realm,
            groups,
            Seq::empty(),
            children_replies(groups, token, response, children, n) + tail,
        ) == groups_completed(provider, realm, groups.skip(n as int), whole, tail),
    decreases n,
{
    let e = Seq::<GroupModel>::empty();
    if n == 0 {
        assert(groups.skip(0) =~= groups);
        assert(whole =~= e);
        assert(children_replies(groups, token, response, children, 0) + tail =~= tail);
    } else {
        let m = (n - 1) as nat;
        let before = children_replies(groups, token, response, children, m);
        let group = groups[m as int];
        let rest = groups.skip(m as int);
        let mine = if group.lacks_children {
            seq![
                KcReplyModel::Token(token),
                KcReplyModel::Response(response),
                KcReplyModel::Decoded(DecodedModel::Groups(children[m as int])),
            ] + tail
        } else {
            tail
        };
        assert(children_replies(groups, token, response, children, n) + tail =~= before + mine);
        assert forall|i: int| 0 <= i < m implies with_children(
            groups[i],
            children[i],
            #[trigger] whole.drop_last()[i],
        ) by {
            assert(with_children(groups[i], children[i], whole[i]));
        }
        lemma_completed(
            provider,
            realm,
            groups,
            token,
            response,
            children,
            m,
            whole.drop_last(),
            mine,
        );
        assert(rest[0] == group);
        assert(rest.skip(1) =~= groups.skip(n as int));
        assert(with_children(group, children[m as int], whole[m as int]));
        assert(whole.drop_last().push(whole.last()) =~= whole);
        if group.lacks_children {
            assert(mine[0] == KcReplyModel::Token(token));
            assert(mine.skip(1)[0] == KcReplyModel::Response(response));
            assert(mine.skip(1).skip(1)[0] == KcReplyModel::Decoded(
                DecodedModel::Groups(children[m as int]),
            ));
            assert(mine.skip(1).skip(1).skip(1) =~= tail);
            assert(whole.last().subgroups =~= groups_of(children[m as int]));
        }
        assert(group_completed(provider, realm, group, mine) == Ask::<
            GroupModel,
            KcReplyModel,
            KcStepModel,
        >::Got(whole.last(), tail));
    }
}

/// The groups of a realm are listed in their order, each with its children; children that were
/// left out of the list are looked up.
pub proof fn lemma_groups_are_listed_with_their_children(
    provider: KeycloakProviderModel,
    realm: Seq<char>,
    token: Seq<char>,
    response: ResponseModel,
    groups: Seq<KcGroupModel>,
    children: Seq<Seq<KcGroupModel>>,
    n: nat,
    whole: Seq<GroupModel>,
    error: ProviderErrorModel,
    problem: Seq<char>,
)
    requires
        went_well(response),
        n <= groups.len(),
        whole.len() == groups.len(),
        forall|i: int|
            0 <= i < whole.len() ==> with_children(groups[i], children[i], #[trigger] whole[i]),
    ensures
        ({
            let call = ProviderCallModel::ListGroups { realm };
            let listed = answered(Seq::empty(), token, response).push(
                KcReplyModel::Decoded(DecodedModel::Groups(groups)),
            );
            let so_far = listed + children_replies(groups, token, response, children, n);
            &&& reads(
                provider,
                call,
                Seq::empty(),
                token,
                in_realm(provider, realm) + "/groups?briefRepresentation=false"@,
                Expect::Groups,
                response,
                error,
                problem,
            )
            &&& n < groups.len() && groups[n as int].lacks_children ==> needs(
                provider,
                call,
                so_far,
                KcEffectModel::AdminToken,
            ) && needs(
                provider,
                call,
                so_far + seq![KcReplyModel::Token(token)],
                KcEffectModel::Send {
                    token,
                    request: HttpRequestModel {
                        method: Method::Get,
                        url: in_realm(provider, realm) + "/groups/"@ + groups[n as int].group.id
                            + "/children?briefRepresentation=false"@,
                        payload: PayloadModel::Nothing,
                    },
                },
            )
            &&& n == groups.len() ==> ends(
                provider,
                call,
                so_far,
                ProviderAnswerModel::Groups(whole),
            )
        }),
{
    let call = ProviderCallModel::ListGroups { realm };
    let listed = answered(Seq::empty(), token, response).push(
        KcReplyModel::Decoded(DecodedModel::Groups(groups)),
    );
    let inner = children_replies(groups, token, response, children, n);
    let so_far = listed + inner;
    let part = whole.take(n as int);
    assert forall|i: int| 0 <= i < n implies with_children(
        groups[i],
        children[i],
        #[trigger] part[i],
    ) by {
        assert(with_children(groups[i], children[i], whole[i]));
    }
    let e = Seq::<KcReplyModel>::empty();
    let t = seq![KcReplyModel::Token(token)];
    lemma_completed(provider, realm, groups, token, response, children, n, part, e);
    lemma_completed(provider, realm, groups, token, response, children, n, part, t);
    assert(so_far.skip(1).skip(1).skip(1) =~= inner + e);
    assert((so_far + t).skip(1).skip(1).skip(1) =~= inner + t);
    assert(so_far[0] == KcReplyModel::Token(token));
    assert(so_far.skip(1)[0] == KcReplyModel::Response(response));
    assert(so_far.skip(1).skip(1)[0] == KcReplyModel::Decoded(DecodedModel::Groups(groups)));
    assert((so_far + t)[0] == KcReplyModel::Token(token));
    assert((so_far + t).skip(1)[0] == KcReplyModel::Response(response));
    assert((so_far + t).skip(1).skip(1)[0] == KcReplyModel::Decoded(DecodedModel::Groups(groups)));
    if n < groups.len() {
        assert(groups.skip(n as int)[0] == groups[n as int]);
    } else {
        assert(groups.skip(n as int).len() == 0);
        assert(part =~= whole);
    }
}

// ── Clients ──────────────────────────────────────────────────────────────────

/// The object that a setting is put into; `null` counts as one that is empty.
pub open spec fn object_in(json: Seq<char>) -> Seq<char> {
    if trimmed(json) == "null"@ {
        "{}"@
    } else {
        json
    }
}

/// The representation of a client, with the settings that are named put into it one by one.
pub open spec fn is_new_client(
    json: Seq<char>,
    settings: UpdateAppClientModel,
    first: Option<Seq<char>>,
    second: Option<Seq<char>>,
    third: Option<Seq<char>>,
) -> bool {
    &&& first == (if settings.enabled is Some {
        json_with_flag(object_in(json), "enabled"@, settings.enabled->0)
    } else {
        Some(json)
    })
    &&& second == (if first is Some && settings.redirect_uris is Some {
        json_with_array(object_in(first->0), "redirectUris"@, settings.redirect_uris->0)
    } else {
        first
    })
    &&& third == (if second is Some && settings.web_origins is Some {
        json_with_array(object_in(second->0), "webOrigins"@, settings.web_origins->0)
    } else {
        second
    })
}

/// A client is read, and written back with the settings that are named put into it, and else
/// as it was.
pub proof fn lemma_clients_are_written_back(
    provider: KeycloakProviderModel,
    realm: Seq<char>,
    id: Seq<char>,
    settings: UpdateAppClientModel,
    token: Seq<char>,
    response: ResponseModel,
    json: Seq<char>,
    first: Option<Seq<char>>,
    second: Option<Seq<char>>,
    third: Option<Seq<char>>,
    again: Seq<char>,
    last: ResponseModel,
    error: ProviderErrorModel,
    problem: Seq<char>,
)
    requires
        is_new_client(json, settings, first, second, third),
    ensures
        ({
            let call = ProviderCallModel::UpdateClient { realm, id, settings };
            let url = in_realm(provider, realm) + "/clients/"@ + id;
            let start = Seq::<KcReplyModel>::empty();
            let read = answered(start, token, response).push(
                KcReplyModel::Decoded(DecodedModel::Json(json)),
            );
            &&& reads(
                provider,
                call,
                start,
                token,
                url,
                Expect::Json,
                response,
                error,
                problem,
            )
            &&& went_well(response) && third is None ==> breaks(
                provider,
                call,
                read,
                ProviderErrorModel::Http("client representation is not an object"@),
            )
            &&& went_well(response) && third is Some ==> {
                &&& sends(
                    provider,
                    call,
                    read,
                    again,
                    HttpRequestModel {
                        method: Method::Put,
                        url,
                        payload: PayloadModel::Json(third->0),
                    },
                    error,
                    problem,
                )
                &&& went_well(last) ==> ends(
                    provider,
                    call,
                    answered(read, again, last),
                    ProviderAnswerModel::Done,
                )
                &&& !went_well(last) ==> (kc_response(
                    provider,
                    call,
                    answered(read, again, last),
                ) matches KcStepModel::Answer(ProviderAnswerModel::Failed(_)))
            }
        }),
{
    assert(client_json(json, settings) == third);
}

} // verus!
