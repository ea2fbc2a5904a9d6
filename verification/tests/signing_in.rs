use base64::engine::general_purpose::URL_SAFE_NO_PAD;
use base64::Engine;
use grafter::auth::{
    authorization_url, csrf_tokens_equal, exchange_code, logout_url, new_csrf_token, next_key_step,
    nonce_from_id_token, random_string, select_key, user_of_claims, Claims, ExchangeEvent,
    ExchangeStep, Jwk, JwksCache, JwksEntry, KeyParameters, KeyStep, TokenError,
    TokenResponse,
};
use grafter::config::Config;
use grafter::effects::{Effect, Outcome, Reply, Step};
use grafter::error::AppError;
use grafter::pages::Page;
use grafter::portal::{respond, Request};
use grafter::routes::auth::CallbackParams;
use grafter::session::{Role, SessionUser};

fn text(s: &str) -> String {
    s.to_string()
}

fn config() -> Config {
    Config {
        host: text("0.0.0.0"),
        port: 3000,
        oidc_issuer: text("https://kc.test/realms/smartech"),
        oidc_client_id: text("graf ter"),
        oidc_client_secret: text("s"),
        oidc_redirect_uri: text("https://grafter.test/auth/callback"),
        kc_admin_url: text("https://kc.test"),
        kc_admin_realm: text("master"),
        kc_admin_client_id: text("grafter-admin"),
        kc_admin_client_secret: text("s"),
        role_admin: text("devops"),
        role_operator: text("iam-operator"),
        teams_group: text("teams"),
        s3_endpoint: text("http://s3.test"),
        s3_bucket: text("grafter"),
        s3_access_key: text("k"),
        s3_secret_key: text("s"),
        session_secret: text("0123456789abcdef0123456789abcdef"),
        redis_url: text("redis://127.0.0.1"),
        emergency_token: None,
    }
}

// ── Addresses ────────────────────────────────────────────────────────────────

#[test]
fn the_address_to_sign_in_at() {
    assert_eq!(
        authorization_url(&config(), "st", "no"),
        "https://kc.test/realms/smartech/protocol/openid-connect/auth?response_type=code\
         &client_id=graf%20ter&redirect_uri=https%3A%2F%2Fgrafter.test%2Fauth%2Fcallback\
         &scope=openid+profile+email&state=st&nonce=no"
    );
}

#[test]
fn the_address_to_sign_out_at() {
    assert_eq!(
        logout_url(&config()),
        "https://kc.test/realms/smartech/protocol/openid-connect/logout?client_id=graf%20ter\
         &post_logout_redirect_uri=https%3A%2F%2Fgrafter.test%2Fauth%2Flogin"
    );
    let mut bare = config();
    bare.oidc_redirect_uri = text("grafter");
    assert!(logout_url(&bare).ends_with("&post_logout_redirect_uri=grafter%2Fauth%2Flogin"));
    bare.oidc_redirect_uri = text("http://grafter.test");
    assert!(logout_url(&bare).ends_with("=http%3A%2F%2Fgrafter.test%2Fauth%2Flogin"));
}

// ── Tokens of the portal ─────────────────────────────────────────────────────

#[test]
fn random_texts_are_long_and_differ() {
    let a = random_string();
    let b = new_csrf_token();
    assert_eq!(a.len(), 43);
    assert_ne!(a, b);
    assert_eq!(URL_SAFE_NO_PAD.decode(&a).unwrap().len(), 32);
}

#[test]
fn tokens_are_compared_whole() {
    assert!(csrf_tokens_equal("", ""));
    assert!(csrf_tokens_equal("abc", "abc"));
    assert!(!csrf_tokens_equal("abc", "abd"));
    assert!(!csrf_tokens_equal("abc", "ab"));
    assert!(!csrf_tokens_equal("é", "e"));
}

// ── Trading the code ─────────────────────────────────────────────────────────

#[test]
fn a_code_is_traded_for_tokens() {
    let config = config();
    match exchange_code(&config, "c0de", &vec![]) {
        ExchangeStep::Send(form) => {
            assert_eq!(form.url, "https://kc.test/realms/smartech/protocol/openid-connect/token");
            let pairs: Vec<(&str, &str)> =
                form.fields.iter().map(|(k, v)| (k.as_str(), v.as_str())).collect();
            assert_eq!(
                pairs,
                vec![
                    ("grant_type", "authorization_code"),
                    ("client_id", "graf ter"),
                    ("client_secret", "s"),
                    ("redirect_uri", "https://grafter.test/auth/callback"),
                    ("code", "c0de"),
                ]
            );
        }
        other => panic!("expected a form, got {other:?}"),
    }
    let answered = |status: u16| vec![ExchangeEvent::Response { status, body: text("{}") }];
    assert_eq!(exchange_code(&config, "c", &answered(200)), ExchangeStep::Decode(text("{}")));
    assert_eq!(
        exchange_code(&config, "c", &answered(400)),
        ExchangeStep::Failed(text("token exchange failed (400): {}"))
    );
    let failed = vec![ExchangeEvent::Failed(text("down"))];
    assert_eq!(exchange_code(&config, "c", &failed), ExchangeStep::Failed(text("down")));
    let tokens =
        TokenResponse { access_token: text("a"), id_token: None, refresh_token: None };
    assert_eq!(
        exchange_code(&config, "c", &vec![ExchangeEvent::Tokens(tokens.clone())]),
        ExchangeStep::Tokens(tokens)
    );
}

// ── Reading tokens ───────────────────────────────────────────────────────────

fn unsigned(payload: &str) -> String {
    format!("{}.{}.x", URL_SAFE_NO_PAD.encode("{}"), URL_SAFE_NO_PAD.encode(payload))
}

#[test]
fn a_nonce_is_read_from_an_id_token() {
    assert_eq!(
        nonce_from_id_token(&unsigned(r#"{"nonce":"n1"}"#)).as_deref(),
        Some("n1")
    );
    assert_eq!(nonce_from_id_token(&unsigned(r#"{"nonce":1}"#)), None);
    assert_eq!(nonce_from_id_token(&unsigned("{}")), None);
    assert_eq!(nonce_from_id_token(&unsigned("no json")), None);
    assert_eq!(nonce_from_id_token("one part"), None);
    assert_eq!(nonce_from_id_token("a.!!!.c"), None);
}

#[test]
fn claims_stand_for_a_user() {
    let config = config();
    let mut claims = Claims {
        sub: Some(text("u1")),
        preferred_username: Some(text("sara")),
        email: None,
        roles: Some(vec![None, Some(text("iam-operator"))]),
    };
    let user = user_of_claims(&config, &claims).unwrap();
    assert_eq!((user.sub.as_str(), user.username.as_str()), ("u1", "sara"));
    assert_eq!(user.role, Role::Operator);
    claims.preferred_username = None;
    assert_eq!(user_of_claims(&config, &claims).unwrap().username, "u1");
    claims.roles = None;
    assert_eq!(user_of_claims(&config, &claims), None);
}

// ── Keys ─────────────────────────────────────────────────────────────────────

fn other_key(kid: Option<&str>) -> Jwk {
    Jwk { kid: kid.map(String::from), parameters: KeyParameters::Other }
}

#[test]
fn a_key_is_found_by_its_id() {
    let keys = vec![other_key(None), other_key(Some("a")), other_key(Some("b"))];
    assert_eq!(select_key(&keys, "b"), Some(&keys[2]));
    assert_eq!(select_key(&keys, "c"), None);
    assert_eq!(select_key(&keys, ""), Some(&keys[0]));
    assert_eq!(select_key(&vec![], ""), None);
}

#[test]
fn keys_are_kept_for_an_hour() {
    let mut cache = JwksCache::new("https://kc.test/realms/smartech");
    assert_eq!(
        cache.jwks_url,
        "https://kc.test/realms/smartech/protocol/openid-connect/certs"
    );
    assert_eq!(cache.get_jwks(0), None);
    cache.entry = Some(JwksEntry { keys: vec![other_key(None)], fetched_at: 100 });
    assert!(cache.get_jwks(100 + 3599).is_some());
    assert!(cache.get_jwks(100 + 3600).is_none());
}

#[test]
fn a_failed_verification_is_tried_again_once() {
    assert_eq!(next_key_step(None, false), KeyStep::Fetch { last: true });
    assert_eq!(next_key_step(None, true), KeyStep::Refused);
    assert_eq!(next_key_step(Some(text("{}")), true), KeyStep::Verified(text("{}")));
}

fn concat_parts(parts: &[&str]) -> String {
    parts.concat()
}

const CLAIMS: &str = r#"{"iss":"https://kc.test/realms/smartech","exp":4102444800,"sub":"u1","preferred_username":"sara","email":"sara@smartech.ir","realm_access":{"roles":["devops",7]}}"#;

fn rsa_modulus() -> String {
    concat_parts(&[
        "h8O6HBUv4PQjXr3On_pOZOF2GIs94Ke2BF-rbNDzhhImj5wPcSmqogt-aiYK93DMN0Ki_z4cu8HT8Dyp5JI_vUsR",
        "EAljk6HPilAGuJlUBIShoEHuaL_yR7fAHmMLMNDGagwDFiFvallz6g5xIiqXkgDxvOYP_fMSO3umq7Q8AJFPBsJJ",
        "bOGkZ3PHPR-h6As637gqxSgxCs5mcMAEQ0T3Pp7GLhMhAdEbwk9W17OtXY8WhTL4tDzpwEGoEtqclzG0uHrtLepa",
        "Cs58LlRGW2mNcK8wP3FwyJx6aAfrL9owqpL7PtS-ucqUznx6SzEXxf780vwVqXoV1woGoKtZ1wUHUQ",
    ])
}

fn rsa_token() -> String {
    let signature = concat_parts(&[
        "WQiaq6d9zO8vU-RqqueGaIN1DtQlrZMQRvaWudD8NWI_WAlUEmAHS7s5o1F60EqnSmq5-Sk0gqutaPkw4Jw9Ypev",
        "u1sb5gIgNjLzU0JxrPzInPGXVNneIMLpw-CmUkAIDV8owNuN9VmIhHqgbcGWvMw66SZI1PwKR4cZq5tuACQ6qFLO",
        "ud7Xd7O5Kn--VOeG_ZP9nb4fE4fXoTlVJCBbJPOL_Lpig9tW36p33LLh-1R2rYi3Hk4pWqsZGDhwYQT8We8gooUi",
        "YaQ2Dz0WQldpa6Ftot_r4la8BYWABKyP-Wzak3cZJIEL2337EEP-UFArp2_sAAPv8ooBObtOUjhkdQ",
    ]);
    let header = URL_SAFE_NO_PAD.encode(r#"{"alg":"RS256","typ":"JWT","kid":"rsa-key"}"#);
    format!("{header}.{}.{signature}", URL_SAFE_NO_PAD.encode(CLAIMS))
}

fn rsa_key() -> Jwk {
    Jwk {
        kid: Some(text("rsa-key")),
        parameters: KeyParameters::Rsa { n: rsa_modulus(), e: text("AQAB") },
    }
}

fn ec_token() -> String {
    let signature = "ZzICXjKjtUl3NXKwNEcYyjQvl4uu8FcmEoBsO_ydgvMTVv_0iAf1nBI8XqhnE6fkPeXw8P4tnBojQNyuej9xRg";
    let header = URL_SAFE_NO_PAD.encode(r#"{"alg":"ES256","typ":"JWT","kid":"ec-key"}"#);
    format!("{header}.{}.{signature}", URL_SAFE_NO_PAD.encode(CLAIMS))
}

fn ec_key() -> Jwk {
    Jwk {
        kid: Some(text("ec-key")),
        parameters: KeyParameters::EllipticCurve {
            x: text("iqG0uGhD4U43QhnNn5hJMtK9nQxhQqstY8UPxd0g_vk"),
            y: text("abdw-yegLrWItzG1F1tyGFvRWjQoK3NjPL6wndSlRf4"),
        },
    }
}

fn cache_of(keys: Vec<Jwk>) -> JwksCache {
    let mut cache = JwksCache::new("https://kc.test/realms/smartech");
    cache.entry = Some(JwksEntry { keys, fetched_at: 0 });
    cache
}

fn same_json(a: &str, b: &str) -> bool {
    let a: serde_json::Value = serde_json::from_str(a).unwrap();
    let b: serde_json::Value = serde_json::from_str(b).unwrap();
    a == b
}

#[test]
fn signed_tokens_are_verified() {
    for (token, key) in [(rsa_token(), rsa_key()), (ec_token(), ec_key())] {
        let mut cache = cache_of(vec![other_key(Some("x")), key.clone()]);
        match cache.verify_and_decode_with_refresh(&token, 10) {
            KeyStep::Verified(claims) => assert!(same_json(&claims, CLAIMS)),
            other => panic!("expected claims, got {other:?}"),
        }
        assert!(cache.entry.is_some());
    }
}

#[test]
fn other_tokens_are_not() {
    let token = rsa_token();
    let keys = vec![rsa_key(), ec_key()];
    let tampered = {
        let parts: Vec<&str> = token.split('.').collect();
        let claims = CLAIMS.replace("u1", "u2");
        format!("{}.{}.{}", parts[0], URL_SAFE_NO_PAD.encode(claims), parts[2])
    };
    let cache = cache_of(vec![]);
    let none: Vec<Jwk> = vec![];
    let other = vec![other_key(Some("rsa-key"))];
    let broken = vec![Jwk {
        kid: Some(text("rsa-key")),
        parameters: KeyParameters::Rsa { n: text("?"), e: text("?") },
    }];
    assert!(cache.verify_and_decode(&token, &keys).is_ok());
    assert_eq!(cache.verify_and_decode(&tampered, &keys), Err(TokenError::NotVerified));
    assert_eq!(cache.verify_and_decode("no token", &keys), Err(TokenError::BadHeader));
    assert_eq!(cache.verify_and_decode(&token, &none), Err(TokenError::NoMatchingKey));
    assert_eq!(cache.verify_and_decode(&token, &vec![ec_key()]), Err(TokenError::NoMatchingKey));
    assert_eq!(cache.verify_and_decode(&token, &other), Err(TokenError::UnsupportedKey));
    assert_eq!(cache.verify_and_decode(&token, &broken), Err(TokenError::NotVerified));
    let elsewhere = JwksCache::new("https://other.test/realms/smartech");
    assert_eq!(elsewhere.verify_and_decode(&token, &keys), Err(TokenError::NotVerified));
}

#[test]
fn tokens_whose_time_is_over_are_told_apart() {
    let header = URL_SAFE_NO_PAD.encode(r#"{"alg":"ES256","typ":"JWT","kid":"ec-key"}"#);
    let claims = r#"{"iss":"https://kc.test/realms/smartech","exp":1000000000,"sub":"u1"}"#;
    let signature = "yRgZlFvLNu3Ty5APNf_tYvDnzuuyFhNLLol3X_hA2sGIeguwdQ9MO2HIDQhTiGps12DPJ91GTgFupxcJY-aekQ";
    let token = format!("{header}.{}.{signature}", URL_SAFE_NO_PAD.encode(claims));
    let keys = vec![Jwk {
        kid: Some(text("ec-key")),
        parameters: KeyParameters::EllipticCurve {
            x: text("r4-x1zxM-FNOBD56DjTb234JoKJOrDvpwgOBp4r8znI"),
            y: text("NJaTVS3uHOcxe7PHTNv_IXVpv9JFZE4BDnF7CK_MyrA"),
        },
    }];
    let mut cache = cache_of(keys.clone());
    assert_eq!(cache.verify_and_decode(&token, &keys), Err(TokenError::Expired));
    assert_eq!(cache.verify_and_decode(&token, &vec![ec_key()]), Err(TokenError::NotVerified));
    assert_eq!(cache.verify_and_decode_with_refresh(&token, 10), KeyStep::Fetch { last: true });
}

#[test]
fn changed_keys_are_fetched_anew() {
    let token = rsa_token();
    let mut cache = cache_of(vec![ec_key()]);
    assert_eq!(cache.verify_and_decode_with_refresh(&token, 10), KeyStep::Fetch { last: true });
    assert_eq!(cache.entry, None);
    let fetched = JwksEntry { keys: vec![rsa_key()], fetched_at: 11 };
    match cache.keys_fetched(&token, true, Some(fetched.clone())) {
        KeyStep::Verified(claims) => assert!(same_json(&claims, CLAIMS)),
        other => panic!("expected claims, got {other:?}"),
    }
    assert_eq!(cache.entry, Some(fetched));

    let mut cache = JwksCache::new("https://kc.test/realms/smartech");
    assert_eq!(cache.verify_and_decode_with_refresh(&token, 10), KeyStep::Fetch { last: false });
    let wrong = JwksEntry { keys: vec![], fetched_at: 11 };
    assert_eq!(
        cache.keys_fetched(&token, false, Some(wrong.clone())),
        KeyStep::Fetch { last: true }
    );
    assert_eq!(cache.entry, None);
    assert_eq!(cache.keys_fetched(&token, true, Some(wrong.clone())), KeyStep::Refused);
    assert_eq!(cache.entry, Some(wrong));
    assert_eq!(cache.keys_fetched(&token, false, None), KeyStep::Fetch { last: true });
}

#[test]
fn no_keys_are_fetched_for_what_is_no_token() {
    let mut cache = cache_of(vec![rsa_key()]);
    assert_eq!(cache.verify_and_decode_with_refresh("no token", 10), KeyStep::Refused);
    assert_eq!(cache.entry, None);
    assert_eq!(cache.verify_and_decode_with_refresh("no token", 10), KeyStep::Refused);
}

// ── Signing in ───────────────────────────────────────────────────────────────

fn callback(code: Option<&str>, state: Option<&str>, error: Option<&str>) -> Request {
    Request::Callback(CallbackParams {
        code: code.map(String::from),
        state: state.map(String::from),
        error: error.map(String::from),
    })
}

fn internal(message: &str) -> Step {
    Step::Finish(Outcome::Failed(AppError::Internal(text(message))))
}

#[test]
fn signing_in_begins_with_a_state_and_a_nonce() {
    let config = config();
    let mut replies = vec![];
    assert_eq!(
        respond(&config, &Request::StartLogin, &replies),
        Step::Perform(Effect::NewToken)
    );
    replies.extend(vec![Reply::Token(text("st")), Reply::Token(text("no"))]);
    assert_eq!(
        respond(&config, &Request::StartLogin, &replies),
        Step::Perform(Effect::StoreText { key: text("oauth_state"), value: text("st") })
    );
    replies.push(Reply::Done);
    assert_eq!(
        respond(&config, &Request::StartLogin, &replies),
        Step::Perform(Effect::StoreText { key: text("oauth_nonce"), value: text("no") })
    );
    replies.push(Reply::Done);
    assert_eq!(
        respond(&config, &Request::StartLogin, &replies),
        Step::Finish(Outcome::Redirect { to: authorization_url(&config, "st", "no") })
    );
}

#[test]
fn signing_in_ends_with_a_session() {
    let config = config();
    let request = callback(Some("c0de"), Some("st"), None);
    let tokens = TokenResponse {
        access_token: text("at"),
        id_token: Some(unsigned(r#"{"nonce":"no"}"#)),
        refresh_token: None,
    };
    let steps = vec![
        (Effect::LoadText { key: text("oauth_state") }, Reply::Text(Some(text("st")))),
        (Effect::LoadText { key: text("oauth_nonce") }, Reply::Text(Some(text("no")))),
        (Effect::ExchangeCode { code: text("c0de") }, Reply::Tokens(tokens)),
        (Effect::VerifyToken { token: text("at") }, Reply::Claims(text(CLAIMS))),
        (Effect::DropText { key: text("oauth_state") }, Reply::Done),
        (Effect::DropText { key: text("oauth_nonce") }, Reply::Done),
        (
            Effect::StoreUser(SessionUser {
                sub: text("u1"),
                username: text("sara"),
                email: Some(text("sara@smartech.ir")),
                role: Role::Admin,
                last_seen_changes_at: None,
            }),
            Reply::Done,
        ),
    ];
    let mut replies = vec![];
    for (effect, reply) in steps {
        assert_eq!(respond(&config, &request, &replies), Step::Perform(effect));
        replies.push(reply);
    }
    assert_eq!(
        respond(&config, &request, &replies),
        Step::Finish(Outcome::Redirect { to: text("/") })
    );
}

#[test]
fn signing_in_fails_where_anything_is_wrong() {
    let config = config();
    let request = callback(Some("c0de"), Some("st"), None);
    let run = |replies: Vec<Reply>| respond(&config, &request, &replies);
    let state = || Reply::Text(Some(text("st")));
    let nonce = || Reply::Text(Some(text("no")));
    let tokens = |id_token: Option<String>| {
        Reply::Tokens(TokenResponse { access_token: text("at"), id_token, refresh_token: None })
    };
    assert_eq!(run(vec![Reply::Text(Some(text("other")))]), internal("state mismatch"));
    assert_eq!(run(vec![Reply::Text(None)]), internal("state mismatch"));
    assert_eq!(run(vec![state(), Reply::Text(None)]), internal("missing nonce in session"));
    assert_eq!(run(vec![state(), nonce(), Reply::Failed(text("down"))]), internal("down"));
    let replayed = tokens(Some(unsigned(r#"{"nonce":"old"}"#)));
    assert_eq!(
        run(vec![state(), nonce(), replayed]),
        internal("nonce mismatch — possible replay attack")
    );
    assert_eq!(
        run(vec![state(), nonce(), tokens(None), Reply::Failed(text("bad"))]),
        internal("token verification failed")
    );
    assert_eq!(
        run(vec![state(), nonce(), tokens(None), Reply::Claims(text("{}"))]),
        internal("user has no grafter role assigned")
    );
    assert_eq!(
        respond(&config, &callback(None, None, None), &vec![]),
        internal("missing code")
    );
    assert_eq!(
        respond(&config, &callback(Some("c"), None, Some("denied")), &vec![]),
        internal("OIDC error: denied")
    );
}

#[test]
fn signing_out_ends_the_session() {
    let config = config();
    assert_eq!(
        respond(&config, &Request::Logout, &vec![]),
        Step::Perform(Effect::EndSession)
    );
    assert_eq!(
        respond(&config, &Request::Logout, &vec![Reply::Failed(text("down"))]),
        Step::Finish(Outcome::Redirect { to: logout_url(&config) })
    );
}

#[test]
fn the_login_page_names_the_realm() {
    assert_eq!(
        respond(&config(), &Request::Login, &vec![]),
        Step::Finish(Outcome::Page(Page::Login { realm: text("smartech") }))
    );
}
