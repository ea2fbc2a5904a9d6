//! Tokens and the keys that they are verified with.

use super::course::lemma_first;
use super::course::lemma_none;
use crate::auth::{
    after_attempt, exchanged, kept_keys, key_problem, selected_key, signed_claims, signed_token,
    signing_key, ExchangeEventModel, ExchangeStepModel, JwkModel, JwksEntryModel,
    KeyParametersModel, KeyStepModel, TokenError, TokenResponseModel,
};
use crate::config::ConfigModel;
use crate::error::ProviderErrorModel;
use crate::outside::{ec_signed_token, jwt_header, rsa_signed_token};
use crate::provider::keycloak::KeycloakProviderModel;
use crate::provider::keycloak::token::{
    token_had, TokenCacheModel, TokenEventModel, TokenStepModel,
};
use crate::text::decimal;
use vstd::prelude::*;

verus! {

/// Keys are kept for an hour, and no longer.
pub proof fn lemma_keys_are_kept_for_an_hour(entry: JwksEntryModel, now: u64)
    ensures
        kept_keys(None, now) is None,
        now < entry.fetched_at + 3600 ==> kept_keys(Some(entry), now) == Some(entry.keys),
        now >= entry.fetched_at + 3600 ==> kept_keys(Some(entry), now) is None,
{
}

/// `keys[i]` is the first with this id.
pub open spec fn first_key_with(keys: Seq<JwkModel>, i: int, kid: Seq<char>) -> bool {
    &&& 0 <= i < keys.len()
    &&& keys[i].kid == Some(kid)
    &&& forall|j: int| 0 <= j < i ==> (#[trigger] keys[j]).kid != Some(kid)
}

/// A token is held against the key that its header names by its id, and against no other; only
/// one that names none is held against the first.
pub proof fn lemma_tokens_are_held_against_their_key(
    token: Seq<char>,
    keys: Seq<JwkModel>,
    i: int,
    alg: Seq<char>,
    named: Option<Seq<char>>,
    kid: Seq<char>,
)
    requires
        named is Some ==> kid == named->0,
        named is None ==> kid.len() == 0,
    ensures
        jwt_header(token) is None ==> signing_key(token, keys) is None && key_problem(token, keys)
            == Some(TokenError::BadHeader),
        jwt_header(token) == Some((alg, named)) && first_key_with(keys, i, kid) ==> signing_key(
            token,
            keys,
        ) == Some((alg, keys[i].parameters)) && key_problem(token, keys) == (
        if keys[i].parameters is Other {
            Some(TokenError::UnsupportedKey)
        } else {
            None
        }),
        jwt_header(token) == Some((alg, named)) && kid.len() > 0 && (forall|j: int|
            0 <= j < keys.len() ==> (#[trigger] keys[j]).kid != Some(kid)) ==> signing_key(
            token,
            keys,
        ) is None && key_problem(token, keys) == Some(TokenError::NoMatchingKey),
        jwt_header(token) == Some((alg, named)) && kid.len() == 0 && keys.len() > 0 && (forall|
            j: int,
        |
            0 <= j < keys.len() ==> (#[trigger] keys[j]).kid != Some(kid)) ==> signing_key(
            token,
            keys,
        ) == Some((alg, keys[0].parameters)),
{
    let wanted = |key: JwkModel| key.kid == Some(kid);
    if named is None {
        assert(kid =~= Seq::empty());
    }
    if first_key_with(keys, i, kid) {
        lemma_first(keys, i, wanted);
    }
    if forall|j: int| 0 <= j < keys.len() ==> (#[trigger] keys[j]).kid != Some(kid) {
        lemma_none(keys, wanted);
    }
}

/// The claims of a token count only if the key signed it, by the algorithm that it names, and
/// it comes from the issuer.
pub proof fn lemma_claims_are_signed_for_the_issuer(
    token: Seq<char>,
    parameters: KeyParametersModel,
    alg: Seq<char>,
    issuer: Seq<char>,
    claims: Seq<char>,
)
    ensures
        signed_claims(token, parameters, alg, issuer) == Some(claims) <==> match parameters {
            KeyParametersModel::Rsa { n, e } => rsa_signed_token(token, n, e, alg, issuer, false)
                == Some((claims, true)),
            KeyParametersModel::EllipticCurve { x, y } => ec_signed_token(
                token,
                x,
                y,
                alg,
                issuer,
                false,
            ) == Some((claims, true)),
            KeyParametersModel::Other => false,
        },
{
}

/// A token that was not verified is tried once more, with keys that are fetched anew, and is
/// refused after that.
pub proof fn lemma_tokens_get_a_second_try(claims: Seq<char>, last: bool)
    ensures
        after_attempt(Some(claims), last) == KeyStepModel::Verified(claims),
        after_attempt(None, false) == (KeyStepModel::Fetch { last: true }),
        after_attempt(None, true) == KeyStepModel::Refused,
{
}

/// A code is traded for tokens at the issuer, in the name of the portal. Only an answer that
/// tells of success is read.
pub proof fn lemma_codes_are_traded_at_the_issuer(
    config: ConfigModel,
    code: Seq<char>,
    events: Seq<ExchangeEventModel>,
    status: u16,
    body: Seq<char>,
    tokens: TokenResponseModel,
    problem: Seq<char>,
)
    ensures
        exchanged(config, code, Seq::empty()) matches ExchangeStepModel::Send(form) && form.url
            == config.oidc_issuer + "/protocol/openid-connect/token"@ && form.fields.len() == 5
            && form.fields[0] == ("grant_type"@, "authorization_code"@) && form.fields[1] == (
            "client_id"@,
            config.oidc_client_id,
        ) && form.fields[2] == ("client_secret"@, config.oidc_client_secret) && form.fields[3] == (
            "redirect_uri"@,
            config.oidc_redirect_uri,
        ) && form.fields[4] == ("code"@, code),
        exchanged(config, code, events.push(ExchangeEventModel::Failed(problem)))
            == ExchangeStepModel::Failed(problem),
        exchanged(config, code, events.push(ExchangeEventModel::Response { status, body })) == (
        if status >= 200 && status <= 299 {
            ExchangeStepModel::Decode(body)
        } else {
            ExchangeStepModel::Failed(
                "token exchange failed ("@ + decimal(status as nat) + "): "@ + body,
            )
        }),
        exchanged(config, code, events.push(ExchangeEventModel::Tokens(tokens)))
            == ExchangeStepModel::Tokens(tokens),
{
}

/// The token of the service account is obtained with its own credentials, kept until half a
/// minute before its end, and obtained anew after that.
pub proof fn lemma_service_tokens_are_kept(
    provider: KeycloakProviderModel,
    cache: TokenCacheModel,
    now: u64,
    events: Seq<TokenEventModel>,
    status: u16,
    body: Seq<char>,
    access_token: Seq<char>,
    expires_in: u64,
    at: u64,
    problem: Seq<char>,
)
    ensures
        cache.token is Some && cache.expires_at is Some && now < cache.expires_at->0 ==> token_had(
            provider,
            cache,
            now,
            events,
        ) == (TokenStepModel::Ready { token: cache.token->0, cache }),
        !(cache.token is Some && cache.expires_at is Some && now < cache.expires_at->0) ==> {
            &&& token_had(provider, cache, now, Seq::empty()) matches TokenStepModel::Send(form)
                && form.url == provider.admin_url + "/realms/"@ + provider.admin_realm
                + "/protocol/openid-connect/token"@ && form.fields.len() == 3 && form.fields[0] == (
                "grant_type"@,
                "client_credentials"@,
            ) && form.fields[1] == ("client_id"@, provider.client_id) && form.fields[2] == (
                "client_secret"@,
                provider.client_secret,
            )
            &&& token_had(
                provider,
                cache,
                now,
                events.push(TokenEventModel::Failed(problem)),
            ) == TokenStepModel::Failed(ProviderErrorModel::Http(problem))
            &&& token_had(
                provider,
                cache,
                now,
                events.push(TokenEventModel::Response { status, body }),
            ) == (if status >= 200 && status <= 299 {
                TokenStepModel::Decode(body)
            } else {
                TokenStepModel::Failed(ProviderErrorModel::UnexpectedResponse { status, body })
            })
            &&& token_had(
                provider,
                cache,
                now,
                events.push(TokenEventModel::Token { access_token, expires_in, now: at }),
            ) matches TokenStepModel::Ready { token, cache: kept } && token == access_token
                && kept.token == Some(access_token) && kept.expires_at is Some && (at + expires_in
                <= u64::MAX && expires_in >= 30 ==> kept.expires_at->0 == at + expires_in - 30) && (
            expires_in < 30 ==> kept.expires_at->0 == at)
        },
{
}

} // verus!
