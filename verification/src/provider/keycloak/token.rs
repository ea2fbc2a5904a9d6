//! The token of the service account, kept until shortly before it expires.

use crate::auth::{is_success, reports_success, FormPost, FormPostModel};
use crate::error::{ProviderError, ProviderErrorModel};
use crate::provider::keycloak::{KeycloakProvider, KeycloakProviderModel};
use vstd::prelude::*;

verus! {

/// The token that was last obtained. Times are seconds on a clock that never goes back.
#[derive(Debug, PartialEq)]
pub struct TokenCache {
    pub token: Option<String>,
    pub expires_at: Option<u64>,
}

/// What a [`TokenCache`] stands for in contracts.
#[verifier::ext_equal]
pub struct TokenCacheModel {
    pub token: Option<Seq<char>>,
    pub expires_at: Option<u64>,
}

impl DeepView for TokenCache {
    type V = TokenCacheModel;

    open spec fn deep_view(&self) -> TokenCacheModel {
        TokenCacheModel {
            token: self.token.deep_view(),
            expires_at: self.expires_at,
        }
    }
}

impl Clone for TokenCache {
    fn clone(&self) -> (r: Self)
        ensures
            r.deep_view() == self.deep_view(),
    {
        TokenCache {
            token: self.token.clone(),
            expires_at: self.expires_at,
        }
    }
}

/// How many seconds before its end a token is no longer used.
pub const TOKEN_MARGIN: u64 = 30;

/// What to do next to have a token.
#[derive(Debug, PartialEq)]
pub enum TokenStep {
    Send(FormPost),
    /// Read a token and the number of seconds that it lasts from this JSON.
    Decode(String),
    /// The token, and what is kept.
    Ready { token: String, cache: TokenCache },
    Failed(ProviderError),
}

/// What a [`TokenStep`] stands for in contracts.
#[verifier::ext_equal]
pub enum TokenStepModel {
    Send(FormPostModel),
    Decode(Seq<char>),
    Ready { token: Seq<char>, cache: TokenCacheModel },
    Failed(ProviderErrorModel),
}

impl DeepView for TokenStep {
    type V = TokenStepModel;

    open spec fn deep_view(&self) -> TokenStepModel {
        match self {
            TokenStep::Send(v) => TokenStepModel::Send(v.deep_view()),
            TokenStep::Decode(v) => TokenStepModel::Decode(v.deep_view()),
            TokenStep::Ready { token, cache } => TokenStepModel::Ready {
                token: token.deep_view(),
                cache: cache.deep_view(),
            },
            TokenStep::Failed(v) => TokenStepModel::Failed(v.deep_view()),
        }
    }
}

/// What came of a step.
#[derive(Debug, PartialEq)]
pub enum TokenEvent {
    /// The form could not be sent, or the token not be read.
    Failed(String),
    Response { status: u16, body: String },
    Token { access_token: String, expires_in: u64, now: u64 },
}

/// What a [`TokenEvent`] stands for in contracts.
#[verifier::ext_equal]
pub enum TokenEventModel {
    Failed(Seq<char>),
    Response { status: u16, body: Seq<char> },
    Token { access_token: Seq<char>, expires_in: u64, now: u64 },
}

impl DeepView for TokenEvent {
    type V = TokenEventModel;

    open spec fn deep_view(&self) -> TokenEventModel {
        match self {
            TokenEvent::Failed(v) => TokenEventModel::Failed(v.deep_view()),
            TokenEvent::Response { status, body } => TokenEventModel::Response {
                status: *status,
                body: body.deep_view(),
            },
            TokenEvent::Token { access_token, expires_in, now } => TokenEventModel::Token {
                access_token: access_token.deep_view(),
                expires_in: *expires_in,
                now: *now,
            },
        }
    }
}

impl Clone for TokenEvent {
    fn clone(&self) -> (r: Self)
        ensures
            r.deep_view() == self.deep_view(),
    {
        match self {
            TokenEvent::Failed(v) => TokenEvent::Failed(v.clone()),
            TokenEvent::Response { status, body } => TokenEvent::Response {
                status: *status,
                body: body.clone(),
            },
            TokenEvent::Token { access_token, expires_in, now } => TokenEvent::Token {
                access_token: access_token.clone(),
                expires_in: *expires_in,
                now: *now,
            },
        }
    }
}

/// The kept token, until its time is over.
pub open spec fn usable_token(cache: TokenCacheModel, now: u64) -> Option<Seq<char>> {
    match (cache.token, cache.expires_at) {
        (Some(token), Some(end)) => if now < end {
            Some(token)
        } else {
            None
        },
        _ => None,
    }
}

/// The time at which a token is no longer used.
pub open spec fn token_end(now: u64, expires_in: u64) -> u64 {
    let lasts = if expires_in > TOKEN_MARGIN {
        expires_in - TOKEN_MARGIN
    } else {
        0
    };
    if now + lasts > u64::MAX {
        u64::MAX
    } else {
        (now + lasts) as u64
    }
}

/// What is kept of a new token.
pub open spec fn kept_token(token: Seq<char>, expires_in: u64, now: u64) -> TokenCacheModel {
    TokenCacheModel { token: Some(token), expires_at: Some(token_end(now, expires_in)) }
}

/// The form that obtains a token.
pub open spec fn token_form(provider: KeycloakProviderModel) -> FormPostModel {
    FormPostModel {
        url: provider.admin_url + "/realms/"@ + provider.admin_realm
            + "/protocol/openid-connect/token"@,
        fields: seq![
            ("grant_type"@, "client_credentials"@),
            ("client_id"@, provider.client_id),
            ("client_secret"@, provider.client_secret),
        ],
    }
}

fn new_token_form(provider: &KeycloakProvider) -> (r: FormPost)
    ensures
        r.deep_view() == token_form(provider.deep_view()),
{
    let fields = vec![
        ("grant_type".to_string(), "client_credentials".to_string()),
        ("client_id".to_string(), provider.client_id.clone()),
        ("client_secret".to_string(), provider.client_secret.clone()),
    ];
    assert(fields.deep_view() =~= token_form(provider.deep_view()).fields);
    FormPost {
        url: provider.admin_url.clone().concat("/realms/").concat(
            provider.admin_realm.as_str(),
        ).concat("/protocol/openid-connect/token"),
        fields,
    }
}

/// A token is had: the kept one while it may be used, else a new one.
pub open spec fn token_had(
    provider: KeycloakProviderModel,
    cache: TokenCacheModel,
    now: u64,
    events: Seq<TokenEventModel>,
) -> TokenStepModel {
    match usable_token(cache, now) {
        Some(token) => TokenStepModel::Ready { token, cache },
        None => if events.len() == 0 {
            TokenStepModel::Send(token_form(provider))
        } else {
            match events.last() {
                TokenEventModel::Failed(message) => TokenStepModel::Failed(
                    ProviderErrorModel::Http(message),
                ),
                TokenEventModel::Response { status, body } => if is_success(status) {
                    TokenStepModel::Decode(body)
                } else {
                    TokenStepModel::Failed(ProviderErrorModel::UnexpectedResponse { status, body })
                },
                TokenEventModel::Token { access_token, expires_in, now } => TokenStepModel::Ready {
                    token: access_token,
                    cache: kept_token(access_token, expires_in, now),
                },
            }
        },
    }
}

impl KeycloakProvider {
    /// Decides how to have a token.
    pub fn admin_token(&self, cache: &TokenCache, now: u64, events: &Vec<TokenEvent>) -> (r:
        TokenStep)
        ensures
            r.deep_view() == token_had(
                self.deep_view(),
                cache.deep_view(),
                now,
                events.deep_view(),
            ),
    {
        if let (Some(token), Some(end)) = (&cache.token, cache.expires_at) {
            if now < end {
                return TokenStep::Ready { token: token.clone(), cache: cache.clone() };
            }
        }
        if events.len() == 0 {
            return TokenStep::Send(new_token_form(self));
        }
        match &events[events.len() - 1] {
            TokenEvent::Failed(message) => TokenStep::Failed(ProviderError::Http(message.clone())),
            TokenEvent::Response { status, body } => if reports_success(*status) {
                TokenStep::Decode(body.clone())
            } else {
                TokenStep::Failed(
                    ProviderError::UnexpectedResponse { status: *status, body: body.clone() },
                )
            },
            TokenEvent::Token { access_token, expires_in, now } => {
                let lasts = expires_in.saturating_sub(TOKEN_MARGIN);
                TokenStep::Ready {
                    token: access_token.clone(),
                    cache: TokenCache {
                        token: Some(access_token.clone()),
                        expires_at: Some(now.saturating_add(lasts)),
                    },
                }
            },
        }
    }
}

/// A kept token is used only while it has more than the margin left to last.
pub proof fn lemma_tokens_are_renewed_early(token: Seq<char>, expires_in: u64, then: u64, now: u64)
    requires
        then <= now,
        usable_token(kept_token(token, expires_in, then), now) is Some,
    ensures
        now + TOKEN_MARGIN < then + expires_in,
{
}

} // verus!
