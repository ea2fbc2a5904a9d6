//! Signing in: tokens, keys and the users they stand for.

use crate::asks::{ask, asked, fail, fail_unexpected, failed, unexpected};
use crate::config::{Config, ConfigModel};
use crate::effects::{Asked, Effect, EffectModel, Replies, Reply, ReplyModel, Step};
use crate::error::{AppError, AppErrorModel};
use crate::lists::{find, first, first_where};
use crate::outside::{
    base64url_bytes, decode_base64url, decode_jwt_header, ec_signed_token, encode_base64url,
    is_base64url_char, json_array, json_array_at, json_string, json_string_at, jwt_header,
    percent_encoded, random_bytes, rsa_signed_token, url_encode, verify_ec_jwt, verify_rsa_jwt,
};
use crate::script::{answers, Ask};
use crate::session::{role_of, Role, SessionUser, SessionUserModel};
use crate::text::{
    chars_of, decimal, decimal_text, find_char, find_text, lemma_utf8_injective, occurrence,
    or_empty, position_of, same, second_part, second_part_of, text_between, text_or_empty,
};
use vstd::prelude::*;
use vstd::utf8::encode_utf8;

verus! {

// ── Keys ─────────────────────────────────────────────────────────────────────

/// The parameters of a public key.
#[derive(Debug, PartialEq)]
pub enum KeyParameters {
    Rsa { n: String, e: String },
    EllipticCurve { x: String, y: String },
    /// A kind of key that signs no tokens here.
    Other,
}

/// What a [`KeyParameters`] stands for in contracts.
#[verifier::ext_equal]
pub enum KeyParametersModel {
    Rsa { n: Seq<char>, e: Seq<char> },
    EllipticCurve { x: Seq<char>, y: Seq<char> },
    Other,
}

impl DeepView for KeyParameters {
    type V = KeyParametersModel;

    open spec fn deep_view(&self) -> KeyParametersModel {
        match self {
            KeyParameters::Rsa { n, e } => KeyParametersModel::Rsa {
                n: n.deep_view(),
                e: e.deep_view(),
            },
            KeyParameters::EllipticCurve { x, y } => KeyParametersModel::EllipticCurve {
                x: x.deep_view(),
                y: y.deep_view(),
            },
            KeyParameters::Other => KeyParametersModel::Other,
        }
    }
}

impl Clone for KeyParameters {
    fn clone(&self) -> (r: Self)
        ensures
            r.deep_view() == self.deep_view(),
    {
        match self {
            KeyParameters::Rsa { n, e } => KeyParameters::Rsa { n: n.clone(), e: e.clone() },
            KeyParameters::EllipticCurve { x, y } => KeyParameters::EllipticCurve {
                x: x.clone(),
                y: y.clone(),
            },
            KeyParameters::Other => KeyParameters::Other,
        }
    }
}

/// A public key of the issuer.
#[derive(Debug, PartialEq)]
pub struct Jwk {
    pub kid: Option<String>,
    pub parameters: KeyParameters,
}

/// What a [`Jwk`] stands for in contracts.
#[verifier::ext_equal]
pub struct JwkModel {
    pub kid: Option<Seq<char>>,
    pub parameters: KeyParametersModel,
}

impl DeepView for Jwk {
    type V = JwkModel;

    open spec fn deep_view(&self) -> JwkModel {
        JwkModel {
            kid: self.kid.deep_view(),
            parameters: self.parameters.deep_view(),
        }
    }
}

impl Clone for Jwk {
    fn clone(&self) -> (r: Self)
        ensures
            r.deep_view() == self.deep_view(),
    {
        Jwk {
            kid: self.kid.clone(),
            parameters: self.parameters.clone(),
        }
    }
}

/// The keys of the issuer, and when they were fetched.
#[derive(Debug, PartialEq)]
pub struct JwksEntry {
    pub keys: Vec<Jwk>,
    /// Seconds on a clock that never goes back.
    pub fetched_at: u64,
}

/// What a [`JwksEntry`] stands for in contracts.
#[verifier::ext_equal]
pub struct JwksEntryModel {
    pub keys: Seq<JwkModel>,
    pub fetched_at: u64,
}

impl DeepView for JwksEntry {
    type V = JwksEntryModel;

    open spec fn deep_view(&self) -> JwksEntryModel {
        JwksEntryModel {
            keys: self.keys.deep_view(),
            fetched_at: self.fetched_at,
        }
    }
}

impl Clone for JwksEntry {
    fn clone(&self) -> (r: Self)
        ensures
            r.deep_view() == self.deep_view(),
    {
        let r = JwksEntry {
            keys: self.keys.clone(),
            fetched_at: self.fetched_at,
        };
        assert(r.keys.deep_view() =~= self.keys.deep_view());
        r
    }
}

/// The keys of an issuer, kept for a while.
#[derive(Debug, PartialEq)]
pub struct JwksCache {
    pub jwks_url: String,
    pub issuer: String,
    pub entry: Option<JwksEntry>,
}

/// What a [`JwksCache`] stands for in contracts.
#[verifier::ext_equal]
pub struct JwksCacheModel {
    pub jwks_url: Seq<char>,
    pub issuer: Seq<char>,
    pub entry: Option<JwksEntryModel>,
}

impl DeepView for JwksCache {
    type V = JwksCacheModel;

    open spec fn deep_view(&self) -> JwksCacheModel {
        JwksCacheModel {
            jwks_url: self.jwks_url.deep_view(),
            issuer: self.issuer.deep_view(),
            entry: self.entry.deep_view(),
        }
    }
}

impl Clone for JwksCache {
    fn clone(&self) -> (r: Self)
        ensures
            r.deep_view() == self.deep_view(),
    {
        JwksCache {
            jwks_url: self.jwks_url.clone(),
            issuer: self.issuer.clone(),
            entry: self.entry.clone(),
        }
    }
}

/// For how many seconds keys are kept.
pub const KEYS_SECONDS: u64 = 3600;

/// Whether keys that were fetched at one time are used at another.
pub open spec fn is_fresh(fetched_at: u64, now: u64) -> bool {
    now - fetched_at < KEYS_SECONDS
}

/// The keys that may be used without fetching them.
pub open spec fn kept_keys(entry: Option<JwksEntryModel>, now: u64) -> Option<Seq<JwkModel>> {
    match entry {
        Some(entry) if is_fresh(entry.fetched_at, now) => Some(entry.keys),
        _ => None,
    }
}

/// The key that a token names. A token that names none is held against the first key.
pub open spec fn selected_key(keys: Seq<JwkModel>, kid: Seq<char>) -> Option<JwkModel> {
    match first_where(keys, |key: JwkModel| key.kid == Some(kid)) {
        Some(key) => Some(key),
        None => if kid.len() == 0 {
            first(keys)
        } else {
            None
        },
    }
}

/// Picks the key that a token names.
pub fn select_key<'a>(keys: &'a Vec<Jwk>, kid: &str) -> (r: Option<&'a Jwk>)
    ensures
        r.deep_view() == selected_key(keys.deep_view(), kid@),
{
    let ghost wanted = |key: JwkModel| key.kid == Some(kid@);
    let is_named = |key: &Jwk| -> (b: bool)
        ensures
            b == wanted(key.deep_view()),
        {
            match &key.kid {
                Some(id) => same(id.as_str(), kid),
                None => false,
            }
        };
    match find(keys, is_named, Ghost(wanted)) {
        Some(key) => Some(key),
        None => if kid.is_empty() && keys.len() > 0 {
            Some(&keys[0])
        } else {
            None
        },
    }
}

/// Why a token is not verified.
#[derive(Clone, Copy, Debug, PartialEq, Eq, Structural)]
pub enum TokenError {
    /// It cannot be read.
    BadHeader,
    /// It names a key that is not among those at hand.
    NoMatchingKey,
    /// The key that it names is of a kind that signs no tokens here.
    UnsupportedKey,
    /// The key did not sign it, or it is not from the issuer.
    NotVerified,
    /// The key signed it, but its time is over.
    Expired,
}

/// The claims of a token that a key signed, and whether it is from the issuer. Its audience is
/// not checked: access tokens do not always name the client that they are for.
pub open spec fn signed_token(
    token: Seq<char>,
    parameters: KeyParametersModel,
    alg: Seq<char>,
    issuer: Seq<char>,
) -> Option<(Seq<char>, bool)> {
    match parameters {
        KeyParametersModel::Rsa { n, e } => rsa_signed_token(token, n, e, alg, issuer, false),
        KeyParametersModel::EllipticCurve { x, y } => ec_signed_token(
            token,
            x,
            y,
            alg,
            issuer,
            false,
        ),
        KeyParametersModel::Other => None,
    }
}

/// The claims of a token that a key signed for an issuer.
pub open spec fn signed_claims(
    token: Seq<char>,
    parameters: KeyParametersModel,
    alg: Seq<char>,
    issuer: Seq<char>,
) -> Option<Seq<char>> {
    match signed_token(token, parameters, alg, issuer) {
        Some((claims, true)) => Some(claims),
        _ => None,
    }
}

/// The key that a token has to be signed with, and the algorithm that it names.
pub open spec fn signing_key(token: Seq<char>, keys: Seq<JwkModel>) -> Option<
    (Seq<char>, KeyParametersModel),
> {
    match jwt_header(token) {
        None => None,
        Some((alg, kid)) => match selected_key(keys, or_empty(kid)) {
            None => None,
            Some(key) => Some((alg, key.parameters)),
        },
    }
}

/// What stands against a token before its signature is looked at.
pub open spec fn key_problem(token: Seq<char>, keys: Seq<JwkModel>) -> Option<TokenError> {
    match jwt_header(token) {
        None => Some(TokenError::BadHeader),
        Some((_, kid)) => match selected_key(keys, or_empty(kid)) {
            None => Some(TokenError::NoMatchingKey),
            Some(key) => if key.parameters is Other {
                Some(TokenError::UnsupportedKey)
            } else {
                None
            },
        },
    }
}

/// What to do next to verify a token.
#[derive(Debug, PartialEq)]
pub enum KeyStep {
    /// Fetch the keys; `last` tells that a token that they do not verify is refused.
    Fetch { last: bool },
    /// The claims of the token, as JSON.
    Verified(String),
    Refused,
}

/// What a [`KeyStep`] stands for in contracts.
#[verifier::ext_equal]
pub enum KeyStepModel {
    Fetch { last: bool },
    Verified(Seq<char>),
    Refused,
}

impl DeepView for KeyStep {
    type V = KeyStepModel;

    open spec fn deep_view(&self) -> KeyStepModel {
        match self {
            KeyStep::Fetch { last } => KeyStepModel::Fetch { last: *last },
            KeyStep::Verified(v) => KeyStepModel::Verified(v.deep_view()),
            KeyStep::Refused => KeyStepModel::Refused,
        }
    }
}

impl Clone for KeyStep {
    fn clone(&self) -> (r: Self)
        ensures
            r.deep_view() == self.deep_view(),
    {
        match self {
            KeyStep::Fetch { last } => KeyStep::Fetch { last: *last },
            KeyStep::Verified(v) => KeyStep::Verified(v.clone()),
            KeyStep::Refused => KeyStep::Refused,
        }
    }
}

/// What follows from an attempt to verify a token: a failed one is made again, once, with
/// keys that were fetched anew, because the issuer may have changed them.
pub open spec fn after_attempt(claims: Option<Seq<char>>, last: bool) -> KeyStepModel {
    match claims {
        Some(claims) => KeyStepModel::Verified(claims),
        None => if last {
            KeyStepModel::Refused
        } else {
            KeyStepModel::Fetch { last: true }
        },
    }
}

/// Decides what follows from an attempt to verify a token.
pub fn next_key_step(claims: Option<String>, last: bool) -> (r: KeyStep)
    ensures
        r.deep_view() == after_attempt(claims.deep_view(), last),
{
    match claims {
        Some(claims) => KeyStep::Verified(claims),
        None => if last {
            KeyStep::Refused
        } else {
            KeyStep::Fetch { last: true }
        },
    }
}

impl JwksCache {
    /// No keys yet.
    pub fn new(issuer: &str) -> (r: JwksCache)
        ensures
            r.deep_view() == (JwksCacheModel {
                jwks_url: issuer@ + "/protocol/openid-connect/certs"@,
                issuer: issuer@,
                entry: None,
            }),
    {
        JwksCache {
            jwks_url: issuer.to_string().concat("/protocol/openid-connect/certs"),
            issuer: issuer.to_string(),
            entry: None,
        }
    }

    /// The keys that may be used without fetching them.
    pub fn get_jwks(&self, now: u64) -> (r: Option<&Vec<Jwk>>)
        ensures
            r.deep_view() == kept_keys(self.deep_view().entry, now),
    {
        match &self.entry {
            Some(entry) => if now < entry.fetched_at || now - entry.fetched_at < KEYS_SECONDS {
                Some(&entry.keys)
            } else {
                None
            },
            None => None,
        }
    }

    /// Verifies a token with the key among `keys` that it names: the signature, that it was
    /// issued by the issuer, and that it has not expired. Whether it has expired depends on the
    /// time of the call; all else depends on the token, the keys and the issuer.
    pub fn verify_and_decode(&self, token: &str, keys: &Vec<Jwk>) -> (r: Result<String, TokenError>)
        ensures
            key_problem(token@, keys.deep_view()) matches Some(problem) ==> r == Err::<
                String,
                TokenError,
            >(problem),
            key_problem(token@, keys.deep_view()) is None ==> (signing_key(
                token@,
                keys.deep_view(),
            ) matches Some((alg, parameters)) && match r {
                Ok(claims) => signed_claims(token@, parameters, alg, self.issuer@) == Some(claims@),
                Err(TokenError::Expired) => signed_token(
                    token@,
                    parameters,
                    alg,
                    self.issuer@,
                ) is Some,
                Err(error) => error is NotVerified && signed_claims(
                    token@,
                    parameters,
                    alg,
                    self.issuer@,
                ) is None,
            }),
    {
        let (alg, kid) = match decode_jwt_header(token) {
            Some(header) => header,
            None => return Err(TokenError::BadHeader),
        };
        let key = match select_key(keys, text_or_empty(&kid).as_str()) {
            Some(key) => key,
            None => return Err(TokenError::NoMatchingKey),
        };
        let issuer = self.issuer.as_str();
        match &key.parameters {
            KeyParameters::Rsa { n, e } => verify_rsa_jwt(
                token,
                n.as_str(),
                e.as_str(),
                alg.as_str(),
                issuer,
                false,
            ),
            KeyParameters::EllipticCurve { x, y } => verify_ec_jwt(
                token,
                x.as_str(),
                y.as_str(),
                alg.as_str(),
                issuer,
                false,
            ),
            KeyParameters::Other => Err(TokenError::UnsupportedKey),
        }
    }

    /// Begins to verify a token: with the kept keys, or by fetching them. Keys that do not
    /// verify the token are dropped. No keys are fetched for a token that cannot be read.
    pub fn verify_and_decode_with_refresh(&mut self, token: &str, now: u64) -> (r: KeyStep)
        ensures
            final(self).jwks_url@ == old(self).jwks_url@,
            final(self).issuer@ == old(self).issuer@,
            jwt_header(token@) is None ==> r is Refused && final(self).entry is None,
            jwt_header(token@) is Some ==> match kept_keys(old(self).deep_view().entry, now) {
                None => r == (KeyStep::Fetch { last: false }) && final(self).deep_view() == old(
                    self,
                ).deep_view(),
                Some(keys) => match r {
                    KeyStep::Verified(claims) => final(self).deep_view() == old(self).deep_view()
                        && (signing_key(token@, keys) matches Some((alg, parameters))
                        && signed_claims(token@, parameters, alg, old(self).issuer@) == Some(
                        claims@,
                    )),
                    KeyStep::Fetch { last } => last && final(self).entry is None,
                    KeyStep::Refused => false,
                },
            },
    {
        if decode_jwt_header(token).is_none() {
            self.entry = None;
            return KeyStep::Refused;
        }
        let claims = match self.get_jwks(now) {
            None => return KeyStep::Fetch { last: false },
            Some(keys) => match self.verify_and_decode(token, keys) {
                Ok(claims) => Some(claims),
                Err(_) => None,
            },
        };
        if claims.is_none() {
            self.entry = None;
        }
        next_key_step(claims, false)
    }

    /// Goes on to verify a token once the keys were fetched, or could not be. Fetched keys
    /// are kept; those that do not verify the token are dropped before they are fetched anew.
    pub fn keys_fetched(&mut self, token: &str, last: bool, fetched: Option<JwksEntry>) -> (r:
        KeyStep)
        ensures
            final(self).jwks_url@ == old(self).jwks_url@,
            final(self).issuer@ == old(self).issuer@,
            match r {
                KeyStep::Verified(claims) => fetched is Some && final(self).deep_view().entry
                    == fetched.deep_view() && (signing_key(
                    token@,
                    fetched.deep_view()->0.keys,
                ) matches Some((alg, parameters)) && signed_claims(
                    token@,
                    parameters,
                    alg,
                    old(self).issuer@,
                ) == Some(claims@)),
                KeyStep::Fetch { last: again } => !last && again && final(self).entry is None,
                KeyStep::Refused => last && final(self).deep_view().entry == (if fetched is Some {
                    fetched.deep_view()
                } else {
                    old(self).deep_view().entry
                }),
            },
            fetched is None ==> r == (if last {
                KeyStep::Refused
            } else {
                KeyStep::Fetch { last: true }
            }),
    {
        let claims = match fetched {
            None => None,
            Some(entry) => {
                let verified = self.verify_and_decode(token, &entry.keys);
                self.entry = Some(entry);
                match verified {
                    Ok(claims) => Some(claims),
                    Err(_) => None,
                }
            },
        };
        if claims.is_none() && !last {
            self.entry = None;
        }
        next_key_step(claims, last)
    }
}

// ── Addresses ────────────────────────────────────────────────────────────────

/// A text as part of a query.
pub open spec fn encoded(text: Seq<char>) -> Seq<char> {
    percent_encoded(encode_utf8(text))
}

/// Where the browser is sent to sign in.
pub open spec fn login_address(
    config: ConfigModel,
    state: Seq<char>,
    nonce: Seq<char>,
) -> Seq<char> {
    config.oidc_issuer + "/protocol/openid-connect/auth?response_type=code&client_id="@ + encoded(
        config.oidc_client_id,
    ) + "&redirect_uri="@ + encoded(config.oidc_redirect_uri)
        + "&scope=openid+profile+email&state="@ + state + "&nonce="@ + nonce
}

/// The address at which a user signs in.
pub fn authorization_url(config: &Config, state: &str, nonce: &str) -> (r: String)
    ensures
        r@ == login_address(config.deep_view(), state@, nonce@),
{
    config.oidc_issuer.clone().concat(
        "/protocol/openid-connect/auth?response_type=code&client_id=",
    ).concat(url_encode(config.oidc_client_id.as_str()).as_str()).concat("&redirect_uri=").concat(
        url_encode(config.oidc_redirect_uri.as_str()).as_str(),
    ).concat("&scope=openid+profile+email&state=").concat(state).concat("&nonce=").concat(nonce)
}

/// An address without its path: all before the first `/` behind `://`.
pub open spec fn origin(address: Seq<char>) -> Seq<char> {
    match occurrence(address, "://"@, 0) {
        None => address,
        Some(i) => {
            let end = position_of(address, '/', i + 3);
            if end < address.len() {
                address.take(end)
            } else {
                address
            }
        },
    }
}

fn origin_of(address: &str) -> (r: String)
    ensures
        r@ == origin(address@),
{
    let chars = chars_of(address);
    let mark = chars_of("://");
    proof {
        reveal_strlit("://");
    }
    let length = chars.len();
    match find_text(&chars, &mark, 0) {
        None => address.to_string(),
        Some(i) => {
            let end = find_char(&chars, '/', i + 3);
            if end < length {
                assert(chars@.subrange(0, end as int) =~= address@.take(end as int));
                text_between(&chars, 0, end)
            } else {
                address.to_string()
            }
        },
    }
}

/// Where the browser is sent to sign out, and from there back to the login page.
pub open spec fn logout_address(config: ConfigModel) -> Seq<char> {
    config.oidc_issuer + "/protocol/openid-connect/logout?client_id="@ + encoded(
        config.oidc_client_id,
    ) + "&post_logout_redirect_uri="@ + encoded(origin(config.oidc_redirect_uri) + "/auth/login"@)
}

/// The address at which a user signs out.
pub fn logout_url(config: &Config) -> (r: String)
    ensures
        r@ == logout_address(config.deep_view()),
{
    let login = origin_of(config.oidc_redirect_uri.as_str()).concat("/auth/login");
    config.oidc_issuer.clone().concat("/protocol/openid-connect/logout?client_id=").concat(
        url_encode(config.oidc_client_id.as_str()).as_str(),
    ).concat("&post_logout_redirect_uri=").concat(url_encode(login.as_str()).as_str())
}

// ── Random texts ─────────────────────────────────────────────────────────────

/// Draws a random text: thirty-two random bytes, in URL-safe base64. Which one is left open.
pub fn random_string() -> (r: String)
    ensures
        r@.len() == 43,
        forall|i: int| 0 <= i < r@.len() ==> is_base64url_char(#[trigger] r@[i]),
        base64url_bytes(r@) matches Some(bytes) && bytes.len() == 32,
{
    let bytes = random_bytes();
    encode_base64url(&bytes)
}

/// Draws a random token for forms.
pub fn new_csrf_token() -> (r: String)
    ensures
        r@.len() == 43,
        forall|i: int| 0 <= i < r@.len() ==> is_base64url_char(#[trigger] r@[i]),
        base64url_bytes(r@) matches Some(bytes) && bytes.len() == 32,
{
    random_string()
}

/// An OR of differences is zero only where all before it was and nothing differs.
proof fn lemma_or_of_differences(acc: u8, x: u8, y: u8)
    ensures
        (acc | (x ^ y)) == 0 <==> acc == 0 && x == y,
{
    assert((acc | (x ^ y)) == 0 <==> acc == 0 && x == y) by (bit_vector);
}

/// Compares two tokens. Every byte is looked at, whatever the bytes before it were, so that
/// the time taken tells nothing of where they differ.
pub fn csrf_tokens_equal(a: &str, b: &str) -> (r: bool)
    ensures
        r == (a@ == b@),
{
    let x = a.as_bytes();
    let y = b.as_bytes();
    if x.len() != y.len() {
        return false;
    }
    let mut acc: u8 = 0;
    let mut i: usize = 0;
    while i < x.len()
        invariant
            x@.len() == y@.len(),
            i <= x@.len(),
            acc == 0 <==> (forall|j: int| 0 <= j < i ==> x@[j] == y@[j]),
        decreases x@.len() - i,
    {
        proof {
            lemma_or_of_differences(acc, x@[i as int], y@[i as int]);
        }
        acc = acc | (x[i] ^ y[i]);
        i = i + 1;
    }
    proof {
        if acc == 0 {
            assert(x@ =~= y@);
            lemma_utf8_injective(a@, b@);
        }
    }
    acc == 0
}

// ── Trading the code for tokens ──────────────────────────────────────────────

/// The tokens that an authorization code was traded for.
#[derive(Debug, PartialEq)]
pub struct TokenResponse {
    pub access_token: String,
    pub id_token: Option<String>,
    pub refresh_token: Option<String>,
}

/// What a [`TokenResponse`] stands for in contracts.
#[verifier::ext_equal]
pub struct TokenResponseModel {
    pub access_token: Seq<char>,
    pub id_token: Option<Seq<char>>,
    pub refresh_token: Option<Seq<char>>,
}

impl DeepView for TokenResponse {
    type V = TokenResponseModel;

    open spec fn deep_view(&self) -> TokenResponseModel {
        TokenResponseModel {
            access_token: self.access_token.deep_view(),
            id_token: self.id_token.deep_view(),
            refresh_token: self.refresh_token.deep_view(),
        }
    }
}

impl Clone for TokenResponse {
    fn clone(&self) -> (r: Self)
        ensures
            r.deep_view() == self.deep_view(),
    {
        TokenResponse {
            access_token: self.access_token.clone(),
            id_token: self.id_token.clone(),
            refresh_token: self.refresh_token.clone(),
        }
    }
}

/// A form that is sent to a server.
#[derive(Debug, PartialEq)]
pub struct FormPost {
    pub url: String,
    pub fields: Vec<(String, String)>,
}

/// What a [`FormPost`] stands for in contracts.
#[verifier::ext_equal]
pub struct FormPostModel {
    pub url: Seq<char>,
    pub fields: Seq<(Seq<char>, Seq<char>)>,
}

impl DeepView for FormPost {
    type V = FormPostModel;

    open spec fn deep_view(&self) -> FormPostModel {
        FormPostModel {
            url: self.url.deep_view(),
            fields: self.fields.deep_view(),
        }
    }
}

/// What to do next to trade a code for tokens.
#[derive(Debug, PartialEq)]
pub enum ExchangeStep {
    Send(FormPost),
    /// Read the tokens from this JSON.
    Decode(String),
    Tokens(TokenResponse),
    Failed(String),
}

/// What an [`ExchangeStep`] stands for in contracts.
#[verifier::ext_equal]
pub enum ExchangeStepModel {
    Send(FormPostModel),
    Decode(Seq<char>),
    Tokens(TokenResponseModel),
    Failed(Seq<char>),
}

impl DeepView for ExchangeStep {
    type V = ExchangeStepModel;

    open spec fn deep_view(&self) -> ExchangeStepModel {
        match self {
            ExchangeStep::Send(v) => ExchangeStepModel::Send(v.deep_view()),
            ExchangeStep::Decode(v) => ExchangeStepModel::Decode(v.deep_view()),
            ExchangeStep::Tokens(v) => ExchangeStepModel::Tokens(v.deep_view()),
            ExchangeStep::Failed(v) => ExchangeStepModel::Failed(v.deep_view()),
        }
    }
}

/// What came of a step.
#[derive(Debug, PartialEq)]
pub enum ExchangeEvent {
    /// The form could not be sent, or the tokens not be read.
    Failed(String),
    Response { status: u16, body: String },
    Tokens(TokenResponse),
}

/// What an [`ExchangeEvent`] stands for in contracts.
#[verifier::ext_equal]
pub enum ExchangeEventModel {
    Failed(Seq<char>),
    Response { status: u16, body: Seq<char> },
    Tokens(TokenResponseModel),
}

impl DeepView for ExchangeEvent {
    type V = ExchangeEventModel;

    open spec fn deep_view(&self) -> ExchangeEventModel {
        match self {
            ExchangeEvent::Failed(v) => ExchangeEventModel::Failed(v.deep_view()),
            ExchangeEvent::Response { status, body } => ExchangeEventModel::Response {
                status: *status,
                body: body.deep_view(),
            },
            ExchangeEvent::Tokens(v) => ExchangeEventModel::Tokens(v.deep_view()),
        }
    }
}

impl Clone for ExchangeEvent {
    fn clone(&self) -> (r: Self)
        ensures
            r.deep_view() == self.deep_view(),
    {
        match self {
            ExchangeEvent::Failed(v) => ExchangeEvent::Failed(v.clone()),
            ExchangeEvent::Response { status, body } => ExchangeEvent::Response {
                status: *status,
                body: body.clone(),
            },
            ExchangeEvent::Tokens(v) => ExchangeEvent::Tokens(v.clone()),
        }
    }
}

/// The form that trades a code for tokens.
pub open spec fn exchange_form(config: ConfigModel, code: Seq<char>) -> FormPostModel {
    FormPostModel {
        url: config.oidc_issuer + "/protocol/openid-connect/token"@,
        fields: seq![
            ("grant_type"@, "authorization_code"@),
            ("client_id"@, config.oidc_client_id),
            ("client_secret"@, config.oidc_client_secret),
            ("redirect_uri"@, config.oidc_redirect_uri),
            ("code"@, code),
        ],
    }
}

fn new_exchange_form(config: &Config, code: &str) -> (r: FormPost)
    ensures
        r.deep_view() == exchange_form(config.deep_view(), code@),
{
    let fields = vec![
        ("grant_type".to_string(), "authorization_code".to_string()),
        ("client_id".to_string(), config.oidc_client_id.clone()),
        ("client_secret".to_string(), config.oidc_client_secret.clone()),
        ("redirect_uri".to_string(), config.oidc_redirect_uri.clone()),
        ("code".to_string(), code.to_string()),
    ];
    assert(fields.deep_view() =~= exchange_form(config.deep_view(), code@).fields);
    FormPost { url: config.oidc_issuer.clone().concat("/protocol/openid-connect/token"), fields }
}

/// Whether a server reports success.
pub open spec fn is_success(status: u16) -> bool {
    200 <= status < 300
}

pub(crate) fn reports_success(status: u16) -> (r: bool)
    ensures
        r == is_success(status),
{
    200 <= status && status < 300
}

/// What follows from the events so far: the form is sent, and the tokens are read from an
/// answer that reports success.
pub open spec fn exchanged(
    config: ConfigModel,
    code: Seq<char>,
    events: Seq<ExchangeEventModel>,
) -> ExchangeStepModel {
    if events.len() == 0 {
        ExchangeStepModel::Send(exchange_form(config, code))
    } else {
        match events.last() {
            ExchangeEventModel::Failed(message) => ExchangeStepModel::Failed(message),
            ExchangeEventModel::Response { status, body } => if is_success(status) {
                ExchangeStepModel::Decode(body)
            } else {
                ExchangeStepModel::Failed(
                    "token exchange failed ("@ + decimal(status as nat) + "): "@ + body,
                )
            },
            ExchangeEventModel::Tokens(tokens) => ExchangeStepModel::Tokens(tokens),
        }
    }
}

/// Decides how to go on with trading a code for tokens.
pub fn exchange_code(config: &Config, code: &str, events: &Vec<ExchangeEvent>) -> (r: ExchangeStep)
    ensures
        r.deep_view() == exchanged(config.deep_view(), code@, events.deep_view()),
{
    if events.len() == 0 {
        return ExchangeStep::Send(new_exchange_form(config, code));
    }
    match &events[events.len() - 1] {
        ExchangeEvent::Failed(message) => ExchangeStep::Failed(message.clone()),
        ExchangeEvent::Response { status, body } => if reports_success(*status) {
            ExchangeStep::Decode(body.clone())
        } else {
            ExchangeStep::Failed(
                "token exchange failed (".to_string().concat(
                    decimal_text(*status as u64).as_str(),
                ).concat("): ").concat(body.as_str()),
            )
        },
        ExchangeEvent::Tokens(tokens) => ExchangeStep::Tokens(tokens.clone()),
    }
}

// ── Reading tokens ───────────────────────────────────────────────────────────

/// The nonce that an ID token carries: the payload is the second of the parts that dots
/// divide it into.
pub open spec fn token_nonce(id_token: Seq<char>) -> Option<Seq<char>> {
    match second_part(id_token, '.') {
        None => None,
        Some(payload) => match base64url_bytes(payload) {
            None => None,
            Some(json) => json_string(json, "nonce"@),
        },
    }
}

/// Reads the nonce of an ID token, without verifying it: the nonce only tells a replay, and
/// who the user is comes from the access token.
pub fn nonce_from_id_token(id_token: &str) -> (r: Option<String>)
    ensures
        r.deep_view() == token_nonce(id_token@),
{
    match second_part_of(id_token, '.') {
        None => None,
        Some(payload) => match decode_base64url(payload.as_str()) {
            None => None,
            Some(json) => {
                assert(json@ =~= json.deep_view());
                json_string_at(json.as_slice(), "nonce")
            },
        },
    }
}

/// The claims of an access token that matter here.
#[derive(Debug, PartialEq)]
pub struct Claims {
    pub sub: Option<String>,
    pub preferred_username: Option<String>,
    pub email: Option<String>,
    /// The realm roles; `None` in the place of one that is not a text.
    pub roles: Option<Vec<Option<String>>>,
}

/// What a [`Claims`] stands for in contracts.
#[verifier::ext_equal]
pub struct ClaimsModel {
    pub sub: Option<Seq<char>>,
    pub preferred_username: Option<Seq<char>>,
    pub email: Option<Seq<char>>,
    pub roles: Option<Seq<Option<Seq<char>>>>,
}

impl DeepView for Claims {
    type V = ClaimsModel;

    open spec fn deep_view(&self) -> ClaimsModel {
        ClaimsModel {
            sub: self.sub.deep_view(),
            preferred_username: self.preferred_username.deep_view(),
            email: self.email.deep_view(),
            roles: self.roles.deep_view(),
        }
    }
}

impl Clone for Claims {
    fn clone(&self) -> (r: Self)
        ensures
            r.deep_view() == self.deep_view(),
    {
        let r = Claims {
            sub: self.sub.clone(),
            preferred_username: self.preferred_username.clone(),
            email: self.email.clone(),
            roles: self.roles.clone(),
        };
        assert(r.roles.deep_view() =~= self.roles.deep_view());
        r
    }
}

/// The claims that a JSON text holds.
pub open spec fn claims_in(json: Seq<char>) -> ClaimsModel {
    let bytes = encode_utf8(json);
    ClaimsModel {
        sub: json_string(bytes, "sub"@),
        preferred_username: json_string(bytes, "preferred_username"@),
        email: json_string(bytes, "email"@),
        roles: json_array(bytes, "realm_access"@, "roles"@),
    }
}

fn read_claims(json: &str) -> (r: Claims)
    ensures
        r.deep_view() == claims_in(json@),
{
    let bytes = json.as_bytes();
    Claims {
        sub: json_string_at(bytes, "sub"),
        preferred_username: json_string_at(bytes, "preferred_username"),
        email: json_string_at(bytes, "email"),
        roles: json_array_at(bytes, "realm_access", "roles"),
    }
}

/// Those of a list that are there.
pub open spec fn present(texts: Seq<Option<Seq<char>>>) -> Seq<Seq<char>>
    decreases texts.len(),
{
    if texts.len() == 0 {
        Seq::empty()
    } else {
        match texts.last() {
            Some(text) => present(texts.drop_last()).push(text),
            None => present(texts.drop_last()),
        }
    }
}

fn collect_present(texts: &Vec<Option<String>>) -> (r: Vec<String>)
    ensures
        r.deep_view() == present(texts.deep_view()),
{
    let ghost whole = texts.deep_view();
    let mut r: Vec<String> = Vec::new();
    let mut i: usize = 0;
    assert(whole.take(0) =~= Seq::empty());
    assert(r.deep_view() =~= Seq::empty());
    while i < texts.len()
        invariant
            i <= texts@.len(),
            whole == texts.deep_view(),
            r.deep_view() == present(whole.take(i as int)),
        decreases texts@.len() - i,
    {
        let ghost before = r.deep_view();
        assert(whole.take(i + 1).drop_last() =~= whole.take(i as int));
        assert(whole.take(i + 1).last() == texts@[i as int].deep_view());
        if let Some(text) = &texts[i] {
            let one = text.clone();
            let ghost model = one@;
            r.push(one);
            assert(r.deep_view() =~= before.push(model));
        }
        i = i + 1;
    }
    assert(whole.take(i as int) =~= whole);
    r
}

/// The realm roles of a user; none, where the claims hold none.
pub open spec fn claimed_roles(claims: ClaimsModel) -> Seq<Seq<char>> {
    match claims.roles {
        Some(roles) => present(roles),
        None => Seq::empty(),
    }
}

/// The user that claims stand for, where their roles let them in. Without a username the
/// subject stands for it.
pub open spec fn claimed_user(
    config: ConfigModel,
    claims: ClaimsModel,
) -> Option<SessionUserModel> {
    let sub = or_empty(claims.sub);
    match role_of(claimed_roles(claims), config.role_admin, config.role_operator) {
        None => None,
        Some(role) => Some(
            SessionUserModel {
                sub,
                username: match claims.preferred_username {
                    Some(name) => name,
                    None => sub,
                },
                email: claims.email,
                role,
                last_seen_changes_at: None,
            },
        ),
    }
}

/// Makes a session's user of the claims of a token.
pub fn user_of_claims(config: &Config, claims: &Claims) -> (r: Option<SessionUser>)
    ensures
        r.deep_view() == claimed_user(config.deep_view(), claims.deep_view()),
{
    let roles: Vec<String> = match &claims.roles {
        Some(roles) => collect_present(roles),
        None => Vec::new(),
    };
    assert(roles.deep_view() =~= claimed_roles(claims.deep_view()));
    let slice = roles.as_slice();
    assert(slice.deep_view() =~= roles.deep_view());
    match Role::from_claims(slice, config.role_admin.as_str(), config.role_operator.as_str()) {
        None => None,
        Some(role) => {
            let sub = text_or_empty(&claims.sub);
            let username = match &claims.preferred_username {
                Some(name) => name.clone(),
                None => sub.clone(),
            };
            Some(
                SessionUser {
                    sub,
                    username,
                    email: claims.email.clone(),
                    role,
                    last_seen_changes_at: None,
                },
            )
        },
    }
}

/// The user that an access token stands for, once it was verified.
pub open spec fn token_user_asked(
    config: ConfigModel,
    token: Seq<char>,
    replies: Seq<ReplyModel>,
) -> Asked<SessionUserModel> {
    match asked(EffectModel::VerifyToken { token }, replies) {
        Ask::Stop(stop) => Ask::Stop(stop),
        Ask::Got(ReplyModel::Claims(json), rest) => match claimed_user(config, claims_in(json)) {
            Some(user) => Ask::Got(user, rest),
            None => Ask::Stop(failed(AppErrorModel::Internal("user has no grafter role assigned"@))),
        },
        Ask::Got(ReplyModel::Failed(_), _) => Ask::Stop(
            failed(AppErrorModel::Internal("token verification failed"@)),
        ),
        Ask::Got(_, _) => Ask::Stop(unexpected()),
    }
}

/// Verifies an access token and makes a session's user of it.
pub fn session_user_from_token(
    cursor: &mut Replies<'_>,
    config: &Config,
    token: &str,
) -> (r: Result<
    SessionUser,
    Step,
>)
    ensures
        answers(
            r,
            final(cursor).rest(),
            token_user_asked(config.deep_view(), token@, old(cursor).rest()),
        ),
{
    match ask(cursor, Effect::VerifyToken { token: token.to_string() })? {
        Reply::Claims(json) => match user_of_claims(config, &read_claims(json.as_str())) {
            Some(user) => Ok(user),
            None => Err(fail(AppError::Internal("user has no grafter role assigned".to_string()))),
        },
        Reply::Failed(_) => Err(fail(AppError::Internal("token verification failed".to_string()))),
        _ => Err(fail_unexpected()),
    }
}

} // verus!
