use grafter::attributes::Attributes;
use grafter::auth::FormPost;
use grafter::error::ProviderError;
use grafter::provider::keycloak::http::{
    Credential, Decoded, Expect, HttpRequest, KcEffect, KcReply, KcStep, Method, Payload, Response,
    RoleRef,
};
use grafter::provider::keycloak::shapes::{
    kc_client_to_client, kc_group_to_group, kc_role_to_role, kc_user_to_user, KcClientRep, KcGroup,
    KcRealm, KcRole, KcUser,
};
use grafter::provider::keycloak::token::{TokenCache, TokenEvent, TokenStep};
use grafter::provider::keycloak::{merge_account, KeycloakProvider};
use grafter::provider::{
    CreateUser, Group, ListUsersQuery, ProviderAnswer, ProviderCall, Realm, Role, UpdateAppClient,
    UpdateUser, User,
};

fn text(s: &str) -> String {
    s.to_string()
}

fn provider() -> KeycloakProvider {
    KeycloakProvider::new(
        text("https://kc.test"),
        text("smartech"),
        text("grafter-admin"),
        text("s"),
    )
}

fn answered(status: u16, body: &str) -> KcReply {
    KcReply::Response(Response { status, location: None, body: text(body) })
}

fn created(location: &str) -> KcReply {
    KcReply::Response(Response { status: 201, location: Some(text(location)), body: text("") })
}

/// Serves a call with these replies; a token is handed out whenever one is asked for.
fn serve(call: ProviderCall, replies: Vec<KcReply>) -> (Vec<HttpRequest>, KcStep) {
    let provider = provider();
    let mut given: Vec<KcReply> = vec![];
    let mut left = replies.into_iter();
    let mut sent = vec![];
    loop {
        match provider.respond(&call, &given) {
            KcStep::Perform(KcEffect::AdminToken) => given.push(KcReply::Token(text("at"))),
            KcStep::Perform(effect) => {
                if let KcEffect::Send { token, request } = &effect {
                    assert_eq!(token, "at");
                    sent.push(request.clone());
                }
                match left.next() {
                    Some(reply) => given.push(reply),
                    None => return (sent, KcStep::Perform(effect)),
                }
            }
            end => return (sent, end),
        }
    }
}

fn get(url: &str) -> HttpRequest {
    HttpRequest { method: Method::Get, url: text(url), payload: Payload::Nothing }
}

fn answer(answer: ProviderAnswer) -> KcStep {
    KcStep::Answer(answer)
}

fn failed(error: ProviderError) -> KcStep {
    KcStep::Answer(ProviderAnswer::Failed(error))
}

fn kc_user() -> KcUser {
    let mut attributes = Attributes::new();
    attributes.insert(text("team"), vec![text("design")]);
    attributes.insert(text("badge"), vec![text("7")]);
    KcUser {
        id: Some(text("u1")),
        username: text("sara"),
        email: None,
        first_name: Some(text("Sara")),
        last_name: None,
        enabled: Some(true),
        attributes: Some(attributes),
    }
}

fn get_user() -> ProviderCall {
    ProviderCall::GetUser { realm: text("smartech"), id: text("u1") }
}

#[test]
fn the_provider_has_a_name() {
    assert_eq!(provider().name(), "keycloak");
    assert_eq!(provider().realm_url("smartech"), "https://kc.test/admin/realms/smartech");
}

#[test]
fn a_user_is_fetched() {
    let (sent, end) = serve(get_user(), vec![answered(200, "{}")]);
    assert_eq!(sent, vec![get("https://kc.test/admin/realms/smartech/users/u1")]);
    assert_eq!(
        end,
        KcStep::Perform(KcEffect::Decode { expect: Expect::User, body: text("{}") })
    );
    let replies = vec![answered(200, "{}"), KcReply::Decoded(Decoded::User(kc_user()))];
    let (_, end) = serve(get_user(), replies);
    assert_eq!(end, answer(ProviderAnswer::User(kc_user_to_user(&kc_user()))));
}

#[test]
fn what_goes_wrong_is_told_apart() {
    let (_, end) = serve(get_user(), vec![answered(404, "")]);
    assert_eq!(end, failed(ProviderError::NotFound));
    let (_, end) = serve(get_user(), vec![answered(500, "oops")]);
    assert_eq!(
        end,
        failed(ProviderError::UnexpectedResponse { status: 500, body: text("oops") })
    );
    let (_, end) = serve(get_user(), vec![KcReply::Failed(text("down"))]);
    assert_eq!(end, failed(ProviderError::Http(text("down"))));
    let (_, end) = serve(get_user(), vec![answered(200, "?"), KcReply::Failed(text("bad json"))]);
    assert_eq!(end, failed(ProviderError::Http(text("bad json"))));
    let refused = ProviderError::UnexpectedResponse { status: 401, body: text("no") };
    assert_eq!(
        provider().respond(&get_user(), &vec![KcReply::NoToken(refused.clone())]),
        failed(refused)
    );
}

#[test]
fn users_are_searched_for() {
    let query = ListUsersQuery::new().search(text("a b&c")).page(10, 50);
    let call = ProviderCall::ListUsers { realm: text("smartech"), query };
    let (sent, _) = serve(call, vec![]);
    assert_eq!(
        sent,
        vec![get(
            "https://kc.test/admin/realms/smartech/users?briefRepresentation=false&first=10\
             &max=50&search=a%20b%26c"
        )]
    );
    let query = ListUsersQuery::new();
    assert_eq!((query.search, query.offset, query.max), (None, 0, 100));
}

#[test]
fn the_one_realm_is_listed() {
    let realm =
        KcRealm { id: text("1"), realm: text("smartech"), display_name: Some(text("Smartech")) };
    let replies = vec![answered(200, "{}"), KcReply::Decoded(Decoded::Realm(realm))];
    let (sent, end) = serve(ProviderCall::ListRealms, replies);
    assert_eq!(sent, vec![get("https://kc.test/admin/realms/smartech")]);
    let realm =
        Realm { id: text("1"), name: text("smartech"), display_name: Some(text("Smartech")) };
    assert_eq!(end, answer(ProviderAnswer::Realms(vec![realm])));
}

fn new_user(password: Option<&str>, temporary: bool) -> ProviderCall {
    ProviderCall::CreateUser {
        realm: text("smartech"),
        user: CreateUser {
            username: text("neda"),
            email: None,
            first_name: None,
            last_name: None,
            enabled: true,
            password: password.map(String::from),
            password_temporary: temporary,
            phone_number: Some(text("0912")),
            personnel_code: Some(text("")),
            attributes: Attributes::new(),
        },
    }
}

fn posted(request: &HttpRequest) -> (Option<Credential>, Vec<String>) {
    match &request.payload {
        Payload::NewUser(body) => {
            assert_eq!(body.attributes.get("phone_number"), Some(&vec![text("0912")]));
            assert_eq!(body.attributes.get("personnel_code"), None);
            (body.credential.clone(), body.required_actions.clone())
        }
        other => panic!("expected a user, got {other:?}"),
    }
}

#[test]
fn a_user_is_created_and_read_back() {
    let replies = vec![created("https://kc.test/admin/realms/smartech/users/u9")];
    let (sent, _) = serve(new_user(Some("pw"), false), replies);
    assert_eq!(sent[0].method, Method::Post);
    assert_eq!(sent[0].url, "https://kc.test/admin/realms/smartech/users");
    let credential = Credential { value: text("pw"), temporary: false };
    assert_eq!(posted(&sent[0]), (Some(credential), vec![]));
    assert_eq!(sent[1], get("https://kc.test/admin/realms/smartech/users/u9"));
    let (_, end) = serve(new_user(None, false), vec![created("https://kc.test/users/")]);
    assert_eq!(
        end,
        failed(ProviderError::UnexpectedResponse {
            status: 201,
            body: text("could not extract user ID from Location header: https://kc.test/users/"),
        })
    );
    let (_, end) = serve(new_user(None, false), vec![answered(201, "")]);
    assert_eq!(
        end,
        failed(ProviderError::UnexpectedResponse {
            status: 201,
            body: text("Keycloak did not return a Location header after user creation"),
        })
    );
}

#[test]
fn a_refused_temporary_password_is_asked_for_later() {
    let refusal = answered(400, r#"{"errorMessage":"invalidPasswordMinLength"}"#);
    let (sent, _) = serve(new_user(Some("pw"), true), vec![refusal]);
    assert_eq!(sent.len(), 2);
    assert_eq!(posted(&sent[1]), (None, vec![text("UPDATE_PASSWORD")]));
    let refusal = answered(400, r#"{"errorMessage":"invalidPasswordMinLength"}"#);
    let (sent, end) = serve(new_user(Some("pw"), false), vec![refusal]);
    assert_eq!(sent.len(), 1);
    assert_eq!(
        end,
        failed(ProviderError::Validation(text("This field: invalidPasswordMinLength")))
    );
}

#[test]
fn an_update_sends_the_whole_account() {
    let mut update = UpdateUser::default();
    update.last_name = Some(text("Ahmadi"));
    let mut attributes = Attributes::new();
    attributes.insert(text("team"), vec![text("platform")]);
    update.attributes = Some(attributes);
    update.phone_number = Some(text("0912"));
    let body = merge_account(&kc_user_to_user(&kc_user()), &update);
    assert_eq!(
        (body.first_name.as_str(), body.last_name.as_str(), body.email.as_str()),
        ("Sara", "Ahmadi", "")
    );
    assert!(body.enabled);
    assert_eq!(body.attributes.get("team"), Some(&vec![text("platform")]));
    assert_eq!(body.attributes.get("badge"), Some(&vec![text("7")]));
    assert_eq!(body.attributes.get("phone_number"), Some(&vec![text("0912")]));

    let call = ProviderCall::UpdateUser { realm: text("smartech"), id: text("u1"), update };
    let replies = vec![
        answered(200, "{}"),
        KcReply::Decoded(Decoded::User(kc_user())),
        answered(204, ""),
    ];
    let (sent, end) = serve(call, replies);
    assert_eq!(sent[1].method, Method::Put);
    assert_eq!(sent[1].payload, Payload::User(body));
    assert_eq!(end, answer(ProviderAnswer::Done));
}

#[test]
fn an_attribute_keeps_the_others() {
    let call = ProviderCall::SetUserAttribute {
        realm: text("smartech"),
        id: text("u1"),
        key: text("team"),
        value: text("mobile"),
    };
    let found = || vec![answered(200, "{}"), KcReply::Decoded(Decoded::User(kc_user()))];
    let mut replies = found();
    replies.extend(found());
    let (sent, _) = serve(call, replies);
    match &sent[2].payload {
        Payload::User(body) => {
            assert_eq!(body.attributes.get("team"), Some(&vec![text("mobile")]));
            assert_eq!(body.attributes.get("badge"), Some(&vec![text("7")]));
        }
        other => panic!("expected a user, got {other:?}"),
    }
}

fn kc_group(id: &str, children: Vec<KcGroup>, count: u32) -> KcGroup {
    KcGroup {
        id: text(id),
        name: text(id),
        path: format!("/{id}"),
        sub_groups: children,
        realm_roles: vec![text("vpn")],
        sub_group_count: count,
    }
}

#[test]
fn children_that_are_missing_are_fetched() {
    let call = ProviderCall::ListGroups { realm: text("smartech") };
    let listed = vec![
        kc_group("a", vec![], 0),
        kc_group("b", vec![], 1),
        kc_group("c", vec![kc_group("d", vec![], 0)], 1),
        kc_group("e", vec![], 2),
    ];
    let replies = vec![
        answered(200, "[]"),
        KcReply::Decoded(Decoded::Groups(listed)),
        answered(200, "[]"),
        KcReply::Decoded(Decoded::Groups(vec![kc_group("f", vec![], 0)])),
        answered(500, ""),
    ];
    let (sent, end) = serve(call, replies);
    let urls: Vec<&str> = sent.iter().map(|r| r.url.as_str()).collect();
    assert_eq!(
        urls,
        vec![
            "https://kc.test/admin/realms/smartech/groups?briefRepresentation=false",
            "https://kc.test/admin/realms/smartech/groups/b/children?briefRepresentation=false",
            "https://kc.test/admin/realms/smartech/groups/e/children?briefRepresentation=false",
        ]
    );
    match end {
        KcStep::Answer(ProviderAnswer::Groups(groups)) => {
            let children: Vec<Vec<&str>> = groups
                .iter()
                .map(|g| g.subgroups.iter().map(|c| c.id.as_str()).collect())
                .collect();
            assert_eq!(children, vec![vec![], vec!["f"], vec!["d"], vec![]]);
        }
        other => panic!("expected groups, got {other:?}"),
    }
}

#[test]
fn a_group_is_created() {
    let call = |parent: Option<&str>| ProviderCall::CreateGroup {
        realm: text("smartech"),
        name: text("mobile"),
        parent_id: parent.map(String::from),
    };
    let (sent, end) = serve(call(Some("p")), vec![created("https://kc.test/groups/g9")]);
    assert_eq!(sent[0].url, "https://kc.test/admin/realms/smartech/groups/p/children");
    assert_eq!(sent[0].payload, Payload::GroupName(text("mobile")));
    let group = Group {
        id: text("g9"),
        name: text("mobile"),
        path: text("/teams/mobile"),
        subgroups: vec![],
        realm_roles: vec![],
    };
    assert_eq!(end, answer(ProviderAnswer::Group(group)));
    let (sent, end) = serve(call(None), vec![answered(409, "{}")]);
    assert_eq!(sent[0].url, "https://kc.test/admin/realms/smartech/groups");
    assert_eq!(
        end,
        failed(ProviderError::Conflict(text("A resource with that identifier already exists.")))
    );
}

#[test]
fn memberships_and_roles_are_changed() {
    let join = ProviderCall::AddUserToGroup {
        realm: text("r"),
        user_id: text("u"),
        group_id: text("g"),
    };
    let (sent, end) = serve(join, vec![answered(204, "")]);
    assert_eq!(sent[0].method, Method::Put);
    assert_eq!(sent[0].url, "https://kc.test/admin/realms/r/users/u/groups/g");
    assert_eq!(sent[0].payload, Payload::EmptyObject);
    assert_eq!(end, answer(ProviderAnswer::Done));
    let leave = ProviderCall::RemoveUserFromGroup {
        realm: text("r"),
        user_id: text("u"),
        group_id: text("g"),
    };
    assert_eq!(serve(leave, vec![]).0[0].method, Method::Delete);
    let role = Role { id: text("1"), name: text("vpn"), description: None, client_role: false };
    let roles = Payload::Roles(vec![RoleRef { id: text("1"), name: text("vpn") }]);
    let assign = ProviderCall::AssignRealmRole {
        realm: text("r"),
        user_id: text("u"),
        role: role.clone(),
    };
    let (sent, _) = serve(assign, vec![]);
    assert_eq!(sent[0].url, "https://kc.test/admin/realms/r/users/u/role-mappings/realm");
    assert_eq!((sent[0].method, &sent[0].payload), (Method::Post, &roles));
    let remove = ProviderCall::RemoveRealmRole { realm: text("r"), user_id: text("u"), role };
    let (sent, end) = serve(remove, vec![answered(400, r#"{"errorMessage":"x"}"#)]);
    assert_eq!((sent[0].method, &sent[0].payload), (Method::Delete, &roles));
    assert_eq!(
        end,
        failed(ProviderError::UnexpectedResponse {
            status: 400,
            body: text(r#"{"errorMessage":"x"}"#),
        })
    );
}

#[test]
fn a_client_keeps_what_is_not_changed() {
    let call = ProviderCall::UpdateClient {
        realm: text("r"),
        id: text("c"),
        settings: UpdateAppClient {
            enabled: Some(false),
            redirect_uris: Some(vec![text("https://a")]),
            web_origins: None,
        },
    };
    let held = r#"{"clientId":"shop","enabled":true,"webOrigins":["*"]}"#;
    let replies = vec![answered(200, held), KcReply::Decoded(Decoded::Json(text(held)))];
    let (sent, _) = serve(call.clone(), replies);
    assert_eq!(sent[1].method, Method::Put);
    match &sent[1].payload {
        Payload::Json(json) => {
            let json: serde_json::Value = serde_json::from_str(json).unwrap();
            assert_eq!(json["clientId"], "shop");
            assert_eq!(json["enabled"], false);
            assert_eq!(json["redirectUris"][0], "https://a");
            assert_eq!(json["webOrigins"][0], "*");
        }
        other => panic!("expected JSON, got {other:?}"),
    }
    let replies = vec![answered(200, "[]"), KcReply::Decoded(Decoded::Json(text("[]")))];
    let (_, end) = serve(call, replies);
    assert_eq!(
        end,
        failed(ProviderError::Http(text("client representation is not an object")))
    );
}

fn put_of_client(held: &str, settings: UpdateAppClient) -> (Vec<HttpRequest>, KcStep) {
    let call = ProviderCall::UpdateClient { realm: text("r"), id: text("c"), settings };
    serve(call, vec![answered(200, held), KcReply::Decoded(Decoded::Json(text(held)))])
}

#[test]
fn a_null_client_becomes_an_object_where_a_setting_is_put() {
    for held in ["null", " null\n"] {
        let settings = UpdateAppClient {
            enabled: Some(true),
            redirect_uris: None,
            web_origins: Some(vec![text("*")]),
        };
        let (sent, _) = put_of_client(held, settings);
        assert_eq!(sent[1].method, Method::Put);
        assert_eq!(
            sent[1].payload,
            Payload::Json(text(r#"{"enabled":true,"webOrigins":["*"]}"#))
        );
        let settings = UpdateAppClient {
            enabled: None,
            redirect_uris: Some(vec![text("https://a")]),
            web_origins: None,
        };
        let (sent, _) = put_of_client(held, settings);
        assert_eq!(sent[1].payload, Payload::Json(text(r#"{"redirectUris":["https://a"]}"#)));
    }
}

#[test]
fn a_client_is_written_back_as_it_was_where_no_setting_is_put() {
    for held in ["null", "[]", "7", r#"{"clientId":"shop"}"#] {
        let settings = UpdateAppClient { enabled: None, redirect_uris: None, web_origins: None };
        let (sent, _) = put_of_client(held, settings);
        assert_eq!(sent[1].method, Method::Put);
        assert_eq!(sent[1].payload, Payload::Json(text(held)));
    }
}

#[test]
fn a_setting_cannot_be_put_into_what_is_no_object() {
    for held in ["[]", "7", "true", "\"null\""] {
        let settings =
            UpdateAppClient { enabled: Some(true), redirect_uris: None, web_origins: None };
        let (_, end) = put_of_client(held, settings);
        assert_eq!(
            end,
            failed(ProviderError::Http(text("client representation is not an object")))
        );
    }
}

fn kc_client(id: Option<&str>) -> KcClientRep {
    KcClientRep {
        id: id.map(String::from),
        client_id: text("shop"),
        name: None,
        description: None,
        enabled: true,
        public_client: true,
        redirect_uris: vec![],
        web_origins: vec![],
        protocol: None,
        service_accounts_enabled: false,
    }
}

#[test]
fn clients_without_an_id_are_not_there() {
    assert_eq!(kc_client_to_client(&kc_client(None)), None);
    assert_eq!(kc_client_to_client(&kc_client(Some("c"))).unwrap().client_id, "shop");
    let call = ProviderCall::GetClient { realm: text("r"), id: text("c") };
    let replies =
        vec![answered(200, "{}"), KcReply::Decoded(Decoded::Client(kc_client(None)))];
    assert_eq!(serve(call, replies).1, failed(ProviderError::NotFound));
    let call = ProviderCall::ListClients { realm: text("r") };
    let listed = vec![kc_client(None), kc_client(Some("c"))];
    let replies = vec![answered(200, "[]"), KcReply::Decoded(Decoded::Clients(listed))];
    match serve(call, replies).1 {
        KcStep::Answer(ProviderAnswer::Clients(clients)) => assert_eq!(clients.len(), 1),
        other => panic!("expected clients, got {other:?}"),
    }
    let call = ProviderCall::GetClientSecret { realm: text("r"), id: text("c") };
    assert_eq!(
        serve(call, vec![answered(404, "")]).1,
        answer(ProviderAnswer::Secret(None))
    );
}

#[test]
fn spellings_are_read() {
    let mut user = kc_user();
    user.id = None;
    user.enabled = None;
    user.attributes = None;
    let read = kc_user_to_user(&user);
    assert_eq!((read.id.as_str(), read.enabled), ("", false));
    assert!(read.attributes.is_empty());
    let role = KcRole {
        id: text("1"),
        name: text("vpn"),
        description: Some(text("d")),
        client_role: true,
    };
    let read = kc_role_to_role(&role);
    assert_eq!((read.name.as_str(), read.client_role), ("vpn", true));
    let read = kc_group_to_group(&kc_group("a", vec![kc_group("b", vec![], 0)], 1));
    assert_eq!(read.subgroups[0].path, "/b");
    assert_eq!(read.realm_roles, vec![text("vpn")]);
}

#[test]
fn names_of_users() {
    let mut user: User = kc_user_to_user(&kc_user());
    assert_eq!(user.full_name(), "Sara");
    assert_eq!(user.team(), Some("design"));
    user.last_name = Some(text("Ahmadi"));
    assert_eq!(user.full_name(), "Sara Ahmadi");
    user.first_name = None;
    assert_eq!(user.full_name(), "Ahmadi");
    user.last_name = None;
    assert_eq!(user.full_name(), "sara");
    user.attributes = Attributes::new();
    assert_eq!(user.team(), None);
}

// ── The token of the service account ─────────────────────────────────────────

#[test]
fn a_token_is_kept_while_it_lasts() {
    let provider = provider();
    let cache = TokenCache { token: None, expires_at: None };
    match provider.admin_token(&cache, 0, &vec![]) {
        TokenStep::Send(FormPost { url, fields }) => {
            assert_eq!(url, "https://kc.test/realms/smartech/protocol/openid-connect/token");
            assert_eq!(fields[0], (text("grant_type"), text("client_credentials")));
            assert_eq!(fields[1], (text("client_id"), text("grafter-admin")));
            assert_eq!(fields[2], (text("client_secret"), text("s")));
        }
        other => panic!("expected a form, got {other:?}"),
    }
    let granted =
        vec![TokenEvent::Token { access_token: text("at"), expires_in: 100, now: 1000 }];
    let kept = TokenCache { token: Some(text("at")), expires_at: Some(1070) };
    assert_eq!(
        provider.admin_token(&cache, 0, &granted),
        TokenStep::Ready { token: text("at"), cache: kept.clone() }
    );
    assert_eq!(
        provider.admin_token(&kept, 1069, &vec![]),
        TokenStep::Ready { token: text("at"), cache: kept.clone() }
    );
    assert!(matches!(provider.admin_token(&kept, 1070, &vec![]), TokenStep::Send(_)));
    let short = vec![TokenEvent::Token { access_token: text("at"), expires_in: 20, now: 1000 }];
    match provider.admin_token(&cache, 0, &short) {
        TokenStep::Ready { cache, .. } => assert_eq!(cache.expires_at, Some(1000)),
        other => panic!("expected a token, got {other:?}"),
    }
}

#[test]
fn a_refused_token_is_an_error() {
    let provider = provider();
    let cache = TokenCache { token: None, expires_at: None };
    let response = |status: u16| vec![TokenEvent::Response { status, body: text("b") }];
    assert_eq!(provider.admin_token(&cache, 0, &response(200)), TokenStep::Decode(text("b")));
    assert_eq!(
        provider.admin_token(&cache, 0, &response(401)),
        TokenStep::Failed(ProviderError::UnexpectedResponse { status: 401, body: text("b") })
    );
    assert_eq!(
        provider.admin_token(&cache, 0, &vec![TokenEvent::Failed(text("down"))]),
        TokenStep::Failed(ProviderError::Http(text("down")))
    );
}

#[test]
fn calls_stay_in_their_realm_and_reads_only_read() {
    let realm = || text("r1");
    let id = || text("x1");
    let reads = vec![
        ProviderCall::ListUsers { realm: realm(), query: ListUsersQuery::new() },
        ProviderCall::GetUser { realm: realm(), id: id() },
        ProviderCall::ListGroups { realm: realm() },
        ProviderCall::GetUserGroups { realm: realm(), user_id: id() },
        ProviderCall::ListGroupMembers { realm: realm(), group_id: id() },
        ProviderCall::ListRealmRoles { realm: realm() },
        ProviderCall::ListRoleUsers { realm: realm(), role_name: text("a b") },
        ProviderCall::GetUserRealmRoles { realm: realm(), user_id: id() },
        ProviderCall::GetUserEffectiveRealmRoles { realm: realm(), user_id: id() },
        ProviderCall::ListClients { realm: realm() },
        ProviderCall::GetClient { realm: realm(), id: id() },
        ProviderCall::GetClientSecret { realm: realm(), id: id() },
    ];
    let changes = vec![
        ProviderCall::DeleteUser { realm: realm(), id: id() },
        ProviderCall::AddUserToGroup { realm: realm(), user_id: id(), group_id: text("g1") },
        ProviderCall::RemoveUserFromGroup { realm: realm(), user_id: id(), group_id: text("g1") },
        ProviderCall::CreateGroup { realm: realm(), name: text("design"), parent_id: None },
    ];
    for (calls, reading) in [(reads, true), (changes, false)] {
        for call in calls {
            let (sent, _) = serve(call, vec![]);
            assert_eq!(sent.len(), 1);
            assert!(sent[0].url.starts_with("https://kc.test/admin/realms/r1/"));
            assert_eq!(sent[0].method == Method::Get, reading);
        }
    }
    let (sent, _) = serve(ProviderCall::ListRealms, vec![]);
    assert_eq!(sent, vec![get("https://kc.test/admin/realms/smartech")]);
}
