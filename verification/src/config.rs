//! The settings of the portal, read from named variables.

use crate::lists::{find, first_where};
use crate::text::{
    decimal, decimal_text, has_prefix, keep_non_empty, non_empty, or_empty, same, text_or_empty,
};
use vstd::prelude::*;
use vstd::utf8::encode_utf8;

verus! {

/// The settings of the portal.
#[derive(Debug, PartialEq)]
pub struct Config {
    pub host: String,
    pub port: u16,
    /// The realm that users sign in to.
    pub oidc_issuer: String,
    pub oidc_client_id: String,
    pub oidc_client_secret: String,
    pub oidc_redirect_uri: String,
    /// The service account that changes users.
    pub kc_admin_url: String,
    pub kc_admin_realm: String,
    pub kc_admin_client_id: String,
    pub kc_admin_client_secret: String,
    /// The realm roles that let a user in.
    pub role_admin: String,
    pub role_operator: String,
    /// The group above all teams.
    pub teams_group: String,
    pub s3_endpoint: String,
    pub s3_bucket: String,
    pub s3_access_key: String,
    pub s3_secret_key: String,
    pub session_secret: String,
    pub redis_url: String,
    /// The token of the break-glass promotion, which is off without it.
    pub emergency_token: Option<String>,
}

/// What a [`Config`] stands for in contracts.
#[verifier::ext_equal]
pub struct ConfigModel {
    pub host: Seq<char>,
    pub port: u16,
    pub oidc_issuer: Seq<char>,
    pub oidc_client_id: Seq<char>,
    pub oidc_client_secret: Seq<char>,
    pub oidc_redirect_uri: Seq<char>,
    pub kc_admin_url: Seq<char>,
    pub kc_admin_realm: Seq<char>,
    pub kc_admin_client_id: Seq<char>,
    pub kc_admin_client_secret: Seq<char>,
    pub role_admin: Seq<char>,
    pub role_operator: Seq<char>,
    pub teams_group: Seq<char>,
    pub s3_endpoint: Seq<char>,
    pub s3_bucket: Seq<char>,
    pub s3_access_key: Seq<char>,
    pub s3_secret_key: Seq<char>,
    pub session_secret: Seq<char>,
    pub redis_url: Seq<char>,
    pub emergency_token: Option<Seq<char>>,
}

impl DeepView for Config {
    type V = ConfigModel;

    open spec fn deep_view(&self) -> ConfigModel {
        ConfigModel {
            host: self.host.deep_view(),
            port: self.port,
            oidc_issuer: self.oidc_issuer.deep_view(),
            oidc_client_id: self.oidc_client_id.deep_view(),
            oidc_client_secret: self.oidc_client_secret.deep_view(),
            oidc_redirect_uri: self.oidc_redirect_uri.deep_view(),
            kc_admin_url: self.kc_admin_url.deep_view(),
            kc_admin_realm: self.kc_admin_realm.deep_view(),
            kc_admin_client_id: self.kc_admin_client_id.deep_view(),
            kc_admin_client_secret: self.kc_admin_client_secret.deep_view(),
            role_admin: self.role_admin.deep_view(),
            role_operator: self.role_operator.deep_view(),
            teams_group: self.teams_group.deep_view(),
            s3_endpoint: self.s3_endpoint.deep_view(),
            s3_bucket: self.s3_bucket.deep_view(),
            s3_access_key: self.s3_access_key.deep_view(),
            s3_secret_key: self.s3_secret_key.deep_view(),
            session_secret: self.session_secret.deep_view(),
            redis_url: self.redis_url.deep_view(),
            emergency_token: self.emergency_token.deep_view(),
        }
    }
}

impl Clone for Config {
    fn clone(&self) -> (r: Self)
        ensures
            r.deep_view() == self.deep_view(),
    {
        Config {
            host: self.host.clone(),
            port: self.port,
            oidc_issuer: self.oidc_issuer.clone(),
            oidc_client_id: self.oidc_client_id.clone(),
            oidc_client_secret: self.oidc_client_secret.clone(),
            oidc_redirect_uri: self.oidc_redirect_uri.clone(),
            kc_admin_url: self.kc_admin_url.clone(),
            kc_admin_realm: self.kc_admin_realm.clone(),
            kc_admin_client_id: self.kc_admin_client_id.clone(),
            kc_admin_client_secret: self.kc_admin_client_secret.clone(),
            role_admin: self.role_admin.clone(),
            role_operator: self.role_operator.clone(),
            teams_group: self.teams_group.clone(),
            s3_endpoint: self.s3_endpoint.clone(),
            s3_bucket: self.s3_bucket.clone(),
            s3_access_key: self.s3_access_key.clone(),
            s3_secret_key: self.s3_secret_key.clone(),
            session_secret: self.session_secret.clone(),
            redis_url: self.redis_url.clone(),
            emergency_token: self.emergency_token.clone(),
        }
    }
}

/// Why the settings cannot be used.
#[derive(Debug, PartialEq)]
pub enum ConfigError {
    /// `PORT` is not a port number.
    Port,
    Missing(String),
    /// `SESSION_SECRET` has fewer than thirty-two bytes.
    ShortSecret,
}

/// What a [`ConfigError`] stands for in contracts.
#[verifier::ext_equal]
pub enum ConfigErrorModel {
    Port,
    Missing(Seq<char>),
    ShortSecret,
}

impl DeepView for ConfigError {
    type V = ConfigErrorModel;

    open spec fn deep_view(&self) -> ConfigErrorModel {
        match self {
            ConfigError::Port => ConfigErrorModel::Port,
            ConfigError::Missing(v) => ConfigErrorModel::Missing(v.deep_view()),
            ConfigError::ShortSecret => ConfigErrorModel::ShortSecret,
        }
    }
}

impl Clone for ConfigError {
    fn clone(&self) -> (r: Self)
        ensures
            r.deep_view() == self.deep_view(),
    {
        match self {
            ConfigError::Port => ConfigError::Port,
            ConfigError::Missing(v) => ConfigError::Missing(v.clone()),
            ConfigError::ShortSecret => ConfigError::ShortSecret,
        }
    }
}

/// The value of a variable: that of the first entry with its name.
pub open spec fn variable(vars: Seq<(Seq<char>, Seq<char>)>, name: Seq<char>) -> Option<Seq<char>> {
    match first_where(vars, |v: (Seq<char>, Seq<char>)| v.0 == name) {
        Some(v) => Some(v.1),
        None => None,
    }
}

/// The value of a variable, or `default` where there is none.
pub open spec fn variable_or(
    vars: Seq<(Seq<char>, Seq<char>)>,
    name: Seq<char>,
    default: Seq<char>,
) -> Seq<char> {
    match variable(vars, name) {
        Some(value) => value,
        None => default,
    }
}

/// The variables that have no default, in the order in which they are looked for.
pub open spec fn required_variables() -> Seq<Seq<char>> {
    seq![
        "OIDC_ISSUER"@,
        "OIDC_CLIENT_ID"@,
        "OIDC_CLIENT_SECRET"@,
        "OIDC_REDIRECT_URI"@,
        "KC_ADMIN_URL"@,
        "KC_ADMIN_REALM"@,
        "KC_ADMIN_CLIENT_ID"@,
        "KC_ADMIN_CLIENT_SECRET"@,
        "IAM_ROLE_ADMIN"@,
        "IAM_ROLE_OPERATOR"@,
        "S3_ENDPOINT"@,
        "S3_BUCKET"@,
        "S3_ACCESS_KEY"@,
        "S3_SECRET_KEY"@,
        "SESSION_SECRET"@,
        "REDIS_URL"@,
    ]
}

/// Whether all characters are decimal digits.
pub open spec fn all_digits(text: Seq<char>) -> bool {
    forall|i: int| 0 <= i < text.len() ==> '0' <= #[trigger] text[i] && text[i] <= '9'
}

/// The number that a row of decimal digits spells.
pub open spec fn digits_value(text: Seq<char>) -> nat
    decreases text.len(),
{
    if text.len() == 0 {
        0
    } else {
        digits_value(text.drop_last()) * 10 + (text.last() as nat - 48) as nat
    }
}

/// The digits of a number that may carry a plus sign.
pub open spec fn unsigned(text: Seq<char>) -> Seq<char> {
    if text.len() > 0 && text[0] == '+' {
        text.skip(1)
    } else {
        text
    }
}

/// The port number that a text spells, if it spells one.
pub open spec fn port_number(text: Seq<char>) -> Option<u16> {
    let digits = unsigned(text);
    if digits.len() > 0 && all_digits(digits) && digits_value(digits) <= 65535 {
        Some(digits_value(digits) as u16)
    } else {
        None
    }
}

/// The settings that a list of variables gives, or why it gives none.
pub open spec fn configured(vars: Seq<(Seq<char>, Seq<char>)>) -> Result<
    ConfigModel,
    ConfigErrorModel,
> {
    match port_number(variable_or(vars, "PORT"@, "3000"@)) {
        None => Err(ConfigErrorModel::Port),
        Some(port) => match first_where(
            required_variables(),
            |name: Seq<char>| variable(vars, name) is None,
        ) {
            Some(name) => Err(ConfigErrorModel::Missing(name)),
            None => if encode_utf8(or_empty(variable(vars, "SESSION_SECRET"@))).len() < 32 {
                Err(ConfigErrorModel::ShortSecret)
            } else {
                Ok(settings(vars, port))
            },
        },
    }
}

/// The settings that a complete list of variables gives.
pub open spec fn settings(vars: Seq<(Seq<char>, Seq<char>)>, port: u16) -> ConfigModel {
    ConfigModel {
        host: variable_or(vars, "HOST"@, "0.0.0.0"@),
        port,
        oidc_issuer: or_empty(variable(vars, "OIDC_ISSUER"@)),
        oidc_client_id: or_empty(variable(vars, "OIDC_CLIENT_ID"@)),
        oidc_client_secret: or_empty(variable(vars, "OIDC_CLIENT_SECRET"@)),
        oidc_redirect_uri: or_empty(variable(vars, "OIDC_REDIRECT_URI"@)),
        kc_admin_url: or_empty(variable(vars, "KC_ADMIN_URL"@)),
        kc_admin_realm: or_empty(variable(vars, "KC_ADMIN_REALM"@)),
        kc_admin_client_id: or_empty(variable(vars, "KC_ADMIN_CLIENT_ID"@)),
        kc_admin_client_secret: or_empty(variable(vars, "KC_ADMIN_CLIENT_SECRET"@)),
        role_admin: or_empty(variable(vars, "IAM_ROLE_ADMIN"@)),
        role_operator: or_empty(variable(vars, "IAM_ROLE_OPERATOR"@)),
        teams_group: variable_or(vars, "TEAMS_GROUP"@, "teams"@),
        s3_endpoint: or_empty(variable(vars, "S3_ENDPOINT"@)),
        s3_bucket: or_empty(variable(vars, "S3_BUCKET"@)),
        s3_access_key: or_empty(variable(vars, "S3_ACCESS_KEY"@)),
        s3_secret_key: or_empty(variable(vars, "S3_SECRET_KEY"@)),
        session_secret: or_empty(variable(vars, "SESSION_SECRET"@)),
        redis_url: or_empty(variable(vars, "REDIS_URL"@)),
        emergency_token: non_empty(variable(vars, "EMERGENCY_TOKEN"@)),
    }
}

fn get(vars: &Vec<(String, String)>, name: &str) -> (r: Option<String>)
    ensures
        r.deep_view() == variable(vars.deep_view(), name@),
{
    let ghost wanted = |v: (Seq<char>, Seq<char>)| v.0 == name@;
    let named = |v: &(String, String)| -> (b: bool)
        ensures
            b == wanted(v.deep_view()),
        { same(v.0.as_str(), name) };
    match find(vars, named, Ghost(wanted)) {
        Some(v) => Some(v.1.clone()),
        None => None,
    }
}

fn get_text(vars: &Vec<(String, String)>, name: &str) -> (r: String)
    ensures
        r@ == or_empty(variable(vars.deep_view(), name@)),
{
    text_or_empty(&get(vars, name))
}

fn get_or(vars: &Vec<(String, String)>, name: &str, default: &str) -> (r: String)
    ensures
        r@ == variable_or(vars.deep_view(), name@, default@),
{
    match get(vars, name) {
        Some(value) => value,
        None => default.to_string(),
    }
}

proof fn lemma_digits_value_grows(text: Seq<char>, n: int)
    requires
        0 <= n <= text.len(),
    ensures
        digits_value(text.take(n)) <= digits_value(text),
    decreases text.len() - n,
{
    if n < text.len() {
        lemma_digits_value_grows(text, n + 1);
        assert(text.take(n + 1).drop_last() =~= text.take(n));
    } else {
        assert(text.take(n) =~= text);
    }
}

/// Reads a port number.
pub fn parse_port(text: &str) -> (r: Option<u16>)
    ensures
        r == port_number(text@),
{
    let chars = crate::text::chars_of(text);
    let start: usize = if chars.len() > 0 && chars[0] == '+' {
        1
    } else {
        0
    };
    let ghost digits = unsigned(text@);
    assert(digits =~= chars@.skip(start as int));
    if start == chars.len() {
        return None;
    }
    let mut i: usize = start;
    let mut value: u32 = 0;
    assert(digits.take(0) =~= Seq::empty());
    while i < chars.len()
        invariant
            digits == chars@.skip(start as int),
            start <= i <= chars@.len(),
            digits.len() > 0,
            digits == unsigned(text@),
            value <= 65535,
            value == digits_value(digits.take(i - start)),
            all_digits(digits.take(i - start)),
        decreases chars@.len() - i,
    {
        let c = chars[i];
        let ghost n = i - start;
        assert(digits[n] == c);
        assert(digits.take(n + 1).drop_last() =~= digits.take(n));
        if !('0' <= c && c <= '9') {
            return None;
        }
        let digit: u32 = c as u32 - 48;
        value = value * 10 + digit;
        if value > 65535 {
            proof {
                lemma_digits_value_grows(digits, n + 1);
            }
            return None;
        }
        assert forall|j: int| 0 <= j < n + 1 implies '0' <= #[trigger] digits.take(n + 1)[j]
            && digits.take(n + 1)[j] <= '9' by {
            if j < n {
                assert(digits.take(n)[j] == digits.take(n + 1)[j]);
            }
        }
        i = i + 1;
    }
    assert(digits.take(digits.len() as int) =~= digits);
    Some(value as u16)
}

fn required() -> (r: Vec<String>)
    ensures
        r.deep_view() == required_variables(),
{
    let r = vec![
        "OIDC_ISSUER".to_string(),
        "OIDC_CLIENT_ID".to_string(),
        "OIDC_CLIENT_SECRET".to_string(),
        "OIDC_REDIRECT_URI".to_string(),
        "KC_ADMIN_URL".to_string(),
        "KC_ADMIN_REALM".to_string(),
        "KC_ADMIN_CLIENT_ID".to_string(),
        "KC_ADMIN_CLIENT_SECRET".to_string(),
        "IAM_ROLE_ADMIN".to_string(),
        "IAM_ROLE_OPERATOR".to_string(),
        "S3_ENDPOINT".to_string(),
        "S3_BUCKET".to_string(),
        "S3_ACCESS_KEY".to_string(),
        "S3_SECRET_KEY".to_string(),
        "SESSION_SECRET".to_string(),
        "REDIS_URL".to_string(),
    ];
    assert(r.deep_view() =~= required_variables());
    r
}

impl Config {
    /// Reads the settings from a list of variables.
    pub fn from_variables(vars: &Vec<(String, String)>) -> (r: Result<Config, ConfigError>)
        ensures
            match configured(vars.deep_view()) {
                Ok(config) => r matches Ok(c) && c.deep_view() == config,
                Err(error) => r matches Err(e) && e.deep_view() == error,
            },
    {
        let port = match parse_port(get_or(vars, "PORT", "3000").as_str()) {
            Some(port) => port,
            None => return Err(ConfigError::Port),
        };
        let ghost model = vars.deep_view();
        let ghost absent = |name: Seq<char>| variable(model, name) is None;
        let names = required();
        let is_absent = |name: &String| -> (b: bool)
            ensures
                b == absent(name.deep_view()),
            { get(vars, name.as_str()).is_none() };
        if let Some(name) = find(&names, is_absent, Ghost(absent)) {
            return Err(ConfigError::Missing(name.clone()));
        }
        let session_secret = get_text(vars, "SESSION_SECRET");
        if session_secret.as_str().as_bytes().len() < 32 {
            return Err(ConfigError::ShortSecret);
        }
        Ok(
            Config {
                host: get_or(vars, "HOST", "0.0.0.0"),
                port,
                oidc_issuer: get_text(vars, "OIDC_ISSUER"),
                oidc_client_id: get_text(vars, "OIDC_CLIENT_ID"),
                oidc_client_secret: get_text(vars, "OIDC_CLIENT_SECRET"),
                oidc_redirect_uri: get_text(vars, "OIDC_REDIRECT_URI"),
                kc_admin_url: get_text(vars, "KC_ADMIN_URL"),
                kc_admin_realm: get_text(vars, "KC_ADMIN_REALM"),
                kc_admin_client_id: get_text(vars, "KC_ADMIN_CLIENT_ID"),
                kc_admin_client_secret: get_text(vars, "KC_ADMIN_CLIENT_SECRET"),
                role_admin: get_text(vars, "IAM_ROLE_ADMIN"),
                role_operator: get_text(vars, "IAM_ROLE_OPERATOR"),
                teams_group: get_or(vars, "TEAMS_GROUP", "teams"),
                s3_endpoint: get_text(vars, "S3_ENDPOINT"),
                s3_bucket: get_text(vars, "S3_BUCKET"),
                s3_access_key: get_text(vars, "S3_ACCESS_KEY"),
                s3_secret_key: get_text(vars, "S3_SECRET_KEY"),
                session_secret,
                redis_url: get_text(vars, "REDIS_URL"),
                emergency_token: keep_non_empty(&get(vars, "EMERGENCY_TOKEN")),
            },
        )
    }
}

impl Config {
    /// Whether the portal is reached over HTTPS, so that its cookies may demand it.
    pub fn is_https(&self) -> (r: bool)
        ensures
            r == "https://"@.is_prefix_of(self.oidc_redirect_uri@),
    {
        has_prefix(self.oidc_redirect_uri.as_str(), "https://")
    }

    /// The address that the portal listens at.
    pub fn address(&self) -> (r: String)
        ensures
            r@ == self.host@ + ":"@ + decimal(self.port as nat),
    {
        self.host.clone().concat(":").concat(decimal_text(self.port as u64).as_str())
    }
}

} // verus!
