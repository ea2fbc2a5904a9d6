//! Calls into other crates, and into the parts of the standard library that carry no
//! contract of their own. Nothing here is proved: each item says what the rest of the
//! library relies on.

use crate::auth::TokenError;
use base64::Engine;
use rand::Rng;
use vstd::prelude::*;
use vstd::utf8::encode_utf8;

verus! {

// ── Standard library ─────────────────────────────────────────────────────────

/// `==` on `str`: two string slices are equal when they hold the same characters.
pub assume_specification[ <str as PartialEq>::eq ](a: &str, b: &str) -> (r: bool)
    ensures
        r == (a@ == b@),
;

/// `String::push` appends one character.
pub assume_specification[ String::push ](s: &mut String, c: char)
    ensures
        final(s)@ == old(s)@.push(c),
;

/// Whether `c` is an ASCII character.
pub open spec fn ascii(c: char) -> bool {
    c <= '\u{7F}'
}

/// The capital of an ASCII letter; any other ASCII character is its own.
pub open spec fn ascii_capital(c: char) -> char {
    if 'a' <= c && c <= 'z' {
        (c as int - 32) as char
    } else {
        c
    }
}

/// The first character that `char::to_uppercase` yields for `c`, which is not an ASCII
/// character, and those that follow it.
pub uninterp spec fn other_capitals(c: char) -> (char, Seq<char>);

/// The uppercase mapping of a character: one character, or more.
pub open spec fn uppercase_of(c: char) -> Seq<char> {
    if ascii(c) {
        seq![ascii_capital(c)]
    } else {
        seq![other_capitals(c).0] + other_capitals(c).1
    }
}

/// Calls `char::to_uppercase` and collects what it yields: one or more characters, and for
/// an ASCII character its one ASCII capital. Left unsaid is which characters come out for
/// one that is not ASCII, and what they in turn map to.
#[verifier::external_body]
pub(crate) fn uppercase(c: char) -> (r: String)
    ensures
        ascii(c) ==> r@ == seq![ascii_capital(c)],
        !ascii(c) ==> r@ == seq![other_capitals(c).0] + other_capitals(c).1,
{
    c.to_uppercase().collect::<String>()
}

/// The lowercase equivalent that `str::to_lowercase` gives for `text`.
pub uninterp spec fn lowercase_of(text: Seq<char>) -> Seq<char>;

/// Calls `str::to_lowercase`.
#[verifier::external_body]
pub(crate) fn lowercase(text: &str) -> (r: String)
    ensures
        r@ == lowercase_of(text@),
{
    text.to_lowercase()
}

/// Whether `c` has the Unicode property `White_Space`.
pub open spec fn white_space(c: char) -> bool {
    ('\u{0009}' <= c && c <= '\u{000D}') || c == '\u{0020}' || c == '\u{0085}' || c == '\u{00A0}'
        || c == '\u{1680}' || ('\u{2000}' <= c && c <= '\u{200A}') || c == '\u{2028}' || c
        == '\u{2029}' || c == '\u{202F}' || c == '\u{205F}' || c == '\u{3000}'
}

/// Calls `char::is_whitespace`, which tells whether a character has the Unicode property
/// `White_Space`.
#[verifier::external_body]
pub(crate) fn is_white_space(c: char) -> (r: bool)
    ensures
        r == white_space(c),
{
    c.is_whitespace()
}

/// What `{:?}` writes for an optional text.
pub uninterp spec fn debug_of(text: Option<Seq<char>>) -> Seq<char>;

/// Formats an optional text with its `Debug` implementation.
#[verifier::external_body]
pub(crate) fn debug_text(text: &Option<String>) -> (r: String)
    ensures
        r@ == debug_of(text.deep_view()),
{
    format!("{:?}", text)
}

// ── rand, base64, urlencoding ────────────────────────────────────────────────

/// Calls `rand::Rng::gen` on the thread's generator. Nothing is promised of the bytes.
#[verifier::external_body]
pub(crate) fn random_bytes() -> (r: [u8; 32]) {
    rand::thread_rng().gen()
}

/// The URL-safe, unpadded base64 text of `bytes`.
pub uninterp spec fn base64url(bytes: Seq<u8>) -> Seq<char>;

/// The bytes that a URL-safe, unpadded base64 text stands for, if it is one.
pub uninterp spec fn base64url_bytes(text: Seq<char>) -> Option<Seq<u8>>;

/// The alphabet of URL-safe base64.
pub open spec fn is_base64url_char(c: char) -> bool {
    ('a' <= c && c <= 'z') || ('A' <= c && c <= 'Z') || ('0' <= c && c <= '9') || c == '-' || c
        == '_'
}

/// Calls `encode` of base64's `URL_SAFE_NO_PAD` engine: four characters for every three
/// bytes, rounded up, all of the URL-safe alphabet, and decoding them gives the bytes back.
#[verifier::external_body]
pub(crate) fn encode_base64url(bytes: &[u8; 32]) -> (r: String)
    ensures
        r@ == base64url(bytes@),
        r@.len() == 43,
        forall|i: int| 0 <= i < r@.len() ==> is_base64url_char(#[trigger] r@[i]),
        base64url_bytes(r@) == Some(bytes@),
{
    base64::engine::general_purpose::URL_SAFE_NO_PAD.encode(bytes)
}

/// Calls `decode` of base64's `URL_SAFE_NO_PAD` engine; a refused text gives `None`.
#[verifier::external_body]
pub(crate) fn decode_base64url(text: &str) -> (r: Option<Vec<u8>>)
    ensures
        r.deep_view() == base64url_bytes(text@),
{
    base64::engine::general_purpose::URL_SAFE_NO_PAD.decode(text).ok()
}

/// A byte that percent-encoding leaves as it is: a letter, a digit, or one of `-_.~`.
pub open spec fn is_unreserved(b: u8) -> bool {
    (48 <= b && b <= 57) || (65 <= b && b <= 90) || (97 <= b && b <= 122) || b == 45 || b == 95
        || b == 46 || b == 126
}

/// The upper-case hexadecimal digit of a number below sixteen.
pub open spec fn hex_digit(n: int) -> char {
    if n < 10 {
        (48 + n) as char
    } else {
        (55 + n) as char
    }
}

/// The percent-encoding of a byte string.
pub open spec fn percent_encoded(bytes: Seq<u8>) -> Seq<char>
    decreases bytes.len(),
{
    if bytes.len() == 0 {
        Seq::empty()
    } else {
        let b = bytes.last();
        percent_encoded(bytes.drop_last()) + if is_unreserved(b) {
            seq![b as char]
        } else {
            seq!['%', hex_digit(b as int / 16), hex_digit(b as int % 16)]
        }
    }
}

/// Calls `urlencoding::encode`: every byte of the text's UTF-8 form is percent-encoded,
/// except letters, digits and `-_.~`.
#[verifier::external_body]
pub(crate) fn url_encode(text: &str) -> (r: String)
    ensures
        r@ == percent_encoded(encode_utf8(text@)),
{
    urlencoding::encode(text).into_owned()
}

// ── serde_json ───────────────────────────────────────────────────────────────

/// The string under `key` in the JSON object that `json` spells, where `json` is JSON, an
/// object, has the key, and holds a string there.
pub uninterp spec fn json_string(json: Seq<u8>, key: Seq<char>) -> Option<Seq<char>>;

/// Calls `serde_json::from_slice`, `Value::get` and `Value::as_str`.
#[verifier::external_body]
pub(crate) fn json_string_at(json: &[u8], key: &str) -> (r: Option<String>)
    ensures
        r.deep_view() == json_string(json@, key@),
{
    let value = serde_json::from_slice::<serde_json::Value>(json).ok()?;
    value.get(key)?.as_str().map(String::from)
}

/// The array under `inner` in the object under `outer` of the JSON object that `json`
/// spells: each element that is a string, or `None` in the place of one that is not.
pub uninterp spec fn json_array(json: Seq<u8>, outer: Seq<char>, inner: Seq<char>) -> Option<
    Seq<Option<Seq<char>>>,
>;

/// Calls `serde_json::from_slice`, `Value::get` and `Value::as_array`, and `Value::as_str`
/// on each element.
#[verifier::external_body]
pub(crate) fn json_array_at(json: &[u8], outer: &str, inner: &str) -> (r: Option<
    Vec<Option<String>>,
>)
    ensures
        r.deep_view() == json_array(json@, outer@, inner@),
{
    let value = serde_json::from_slice::<serde_json::Value>(json).ok()?;
    let array = value.get(outer)?.get(inner)?.as_array()?;
    Some(array.iter().map(|v| v.as_str().map(String::from)).collect())
}

/// The JSON object that `json` spells with the flag `value` put under `key`.
pub uninterp spec fn json_with_flag(json: Seq<char>, key: Seq<char>, value: bool) -> Option<
    Seq<char>,
>;

/// Calls `serde_json::from_str`, `Map::insert` and `serde_json::to_string`; `None` where
/// `json` is not a JSON object.
#[verifier::external_body]
pub(crate) fn json_put_flag(json: &str, key: &str, value: bool) -> (r: Option<String>)
    ensures
        r.deep_view() == json_with_flag(json@, key@, value),
{
    let mut map = serde_json::from_str::<serde_json::Map<String, serde_json::Value>>(json).ok()?;
    map.insert(key.to_string(), serde_json::Value::from(value));
    serde_json::to_string(&map).ok()
}

/// The JSON object that `json` spells with the array of strings `values` put under `key`.
pub uninterp spec fn json_with_array(
    json: Seq<char>,
    key: Seq<char>,
    values: Seq<Seq<char>>,
) -> Option<Seq<char>>;

/// Calls `serde_json::from_str`, `Map::insert` and `serde_json::to_string`; `None` where
/// `json` is not a JSON object.
#[verifier::external_body]
pub(crate) fn json_put_array(json: &str, key: &str, values: &Vec<String>) -> (r: Option<String>)
    ensures
        r.deep_view() == json_with_array(json@, key@, values.deep_view()),
{
    let mut map = serde_json::from_str::<serde_json::Map<String, serde_json::Value>>(json).ok()?;
    map.insert(key.to_string(), serde_json::Value::from(values.clone()));
    serde_json::to_string(&map).ok()
}

// ── jsonwebtoken ─────────────────────────────────────────────────────────────

/// The algorithm and the key id that the header of a JSON web token names.
pub uninterp spec fn jwt_header(token: Seq<char>) -> Option<(Seq<char>, Option<Seq<char>>)>;

/// Calls `jsonwebtoken::decode_header`, which verifies nothing; a malformed token gives
/// `None`.
#[verifier::external_body]
pub(crate) fn decode_jwt_header(token: &str) -> (r: Option<(String, Option<String>)>)
    ensures
        r.deep_view() == jwt_header(token@),
{
    let header = jsonwebtoken::decode_header(token).ok()?;
    Some((format!("{:?}", header.alg), header.kid))
}

/// The claims of `token`, as JSON, where its signature holds for the RSA public key with
/// modulus `n` and exponent `e` under the algorithm `alg`, and it carries an expiry time; and
/// whether it is meant: it does not name an issuer other than `issuer`, and it names no
/// audience where `audience` tells that one is checked.
pub uninterp spec fn rsa_signed_token(
    token: Seq<char>,
    n: Seq<char>,
    e: Seq<char>,
    alg: Seq<char>,
    issuer: Seq<char>,
    audience: bool,
) -> Option<(Seq<char>, bool)>;

/// Calls `DecodingKey::from_rsa_components` and `jsonwebtoken::decode`, with the issuer
/// checked, and the audience where `audience` says so. A token that is signed and meant gives
/// its claims, unless it has expired; a token that is not signed never counts as expired. Any
/// other error, also that of a malformed key, means that the token is not signed or not meant.
/// When a token has expired is left open: that depends on the time of the call.
#[verifier::external_body]
pub(crate) fn verify_rsa_jwt(
    token: &str,
    n: &str,
    e: &str,
    alg: &str,
    issuer: &str,
    audience: bool,
) -> (r: Result<String, TokenError>)
    ensures
        match r {
            Ok(claims) => rsa_signed_token(token@, n@, e@, alg@, issuer@, audience) == Some(
                (claims@, true),
            ),
            Err(TokenError::Expired) => rsa_signed_token(
                token@,
                n@,
                e@,
                alg@,
                issuer@,
                audience,
            ) is Some,
            Err(error) => error is NotVerified && !(rsa_signed_token(
                token@,
                n@,
                e@,
                alg@,
                issuer@,
                audience,
            ) matches Some((_, true))),
        },
{
    let key = jsonwebtoken::DecodingKey::from_rsa_components(n, e);
    let key = key.map_err(|_| TokenError::NotVerified)?;
    let alg = alg.parse::<jsonwebtoken::Algorithm>().map_err(|_| TokenError::NotVerified)?;
    let mut validation = jsonwebtoken::Validation::new(alg);
    validation.set_issuer(&[issuer]);
    validation.validate_aud = audience;
    match jsonwebtoken::decode::<serde_json::Value>(token, &key, &validation) {
        Ok(data) => Ok(data.claims.to_string()),
        Err(error) => match error.kind() {
            jsonwebtoken::errors::ErrorKind::ExpiredSignature => Err(TokenError::Expired),
            _ => Err(TokenError::NotVerified),
        },
    }
}

/// The claims of `token`, as JSON, where its signature holds for the elliptic-curve public
/// key with coordinates `x` and `y` under the algorithm `alg`, and it carries an expiry time;
/// and whether it is meant: it does not name an issuer other than `issuer`, and it names no
/// audience where `audience` tells that one is checked.
pub uninterp spec fn ec_signed_token(
    token: Seq<char>,
    x: Seq<char>,
    y: Seq<char>,
    alg: Seq<char>,
    issuer: Seq<char>,
    audience: bool,
) -> Option<(Seq<char>, bool)>;

/// Calls `DecodingKey::from_ec_components` and `jsonwebtoken::decode`, with the issuer
/// checked, and the audience where `audience` says so. A token that is signed and meant gives
/// its claims, unless it has expired; a token that is not signed never counts as expired. Any
/// other error, also that of a malformed key, means that the token is not signed or not meant.
/// When a token has expired is left open: that depends on the time of the call.
#[verifier::external_body]
pub(crate) fn verify_ec_jwt(
    token: &str,
    x: &str,
    y: &str,
    alg: &str,
    issuer: &str,
    audience: bool,
) -> (r: Result<String, TokenError>)
    ensures
        match r {
            Ok(claims) => ec_signed_token(token@, x@, y@, alg@, issuer@, audience) == Some(
                (claims@, true),
            ),
            Err(TokenError::Expired) => ec_signed_token(
                token@,
                x@,
                y@,
                alg@,
                issuer@,
                audience,
            ) is Some,
            Err(error) => error is NotVerified && !(ec_signed_token(
                token@,
                x@,
                y@,
                alg@,
                issuer@,
                audience,
            ) matches Some((_, true))),
        },
{
    let key = jsonwebtoken::DecodingKey::from_ec_components(x, y);
    let key = key.map_err(|_| TokenError::NotVerified)?;
    let alg = alg.parse::<jsonwebtoken::Algorithm>().map_err(|_| TokenError::NotVerified)?;
    let mut validation = jsonwebtoken::Validation::new(alg);
    validation.set_issuer(&[issuer]);
    validation.validate_aud = audience;
    match jsonwebtoken::decode::<serde_json::Value>(token, &key, &validation) {
        Ok(data) => Ok(data.claims.to_string()),
        Err(error) => match error.kind() {
            jsonwebtoken::errors::ErrorKind::ExpiredSignature => Err(TokenError::Expired),
            _ => Err(TokenError::NotVerified),
        },
    }
}

// ── axum ─────────────────────────────────────────────────────────────────────

/// A status code and its reason, such as `404 Not Found`, of a number that is one.
pub uninterp spec fn status_text(code: u16) -> Option<Seq<char>>;

/// Calls `axum::http::StatusCode::from_u16` and writes the status.
#[verifier::external_body]
pub(crate) fn write_status(code: u16) -> (r: Option<String>)
    ensures
        r.deep_view() == status_text(code),
{
    axum::http::StatusCode::from_u16(code).ok().map(|s| s.to_string())
}

// ── uuid, chrono, object_store ───────────────────────────────────────────────

/// A lower-case hexadecimal digit or a hyphen.
pub open spec fn is_uuid_char(c: char) -> bool {
    ('0' <= c && c <= '9') || ('a' <= c && c <= 'f') || c == '-'
}

/// Calls `uuid::Uuid::new_v4` and writes the id in its hyphenated form: thirty-six
/// lower-case hexadecimal digits and hyphens.
#[verifier::external_body]
pub(crate) fn new_uuid() -> (r: String)
    ensures
        r@.len() == 36,
        forall|i: int| 0 <= i < r@.len() ==> is_uuid_char(#[trigger] r@[i]),
{
    uuid::Uuid::new_v4().to_string()
}

/// Calls `chrono::Utc::now`: whole seconds since the epoch, and the nanoseconds behind them,
/// less than a second. The calendar reaches every time that the clock gives; which time that
/// is, is left open.
#[verifier::external_body]
pub(crate) fn utc_now() -> (r: (i64, u32))
    ensures
        r.1 < 1_000_000_000,
        utc_date(r.0, r.1) is Some,
{
    let now = chrono::Utc::now();
    (now.timestamp(), now.timestamp_subsec_nanos())
}

/// The UTC date, as `YYYY-MM-DD`, of a point in time that the calendar reaches.
pub uninterp spec fn utc_date(secs: i64, nanos: u32) -> Option<Seq<char>>;

/// Calls `chrono::DateTime::from_timestamp` and formats the date.
#[verifier::external_body]
pub(crate) fn utc_date_text(secs: i64, nanos: u32) -> (r: Option<String>)
    ensures
        r.deep_view() == utc_date(secs, nanos),
{
    chrono::DateTime::from_timestamp(secs, nanos).map(|t| t.format("%Y-%m-%d").to_string())
}

/// The object path that `object_store` makes of a text: empty segments dropped, unsafe
/// characters percent-encoded.
pub uninterp spec fn object_path(text: Seq<char>) -> Seq<char>;

/// A character that object paths hold as it is, other than the delimiter and the dot.
pub open spec fn is_plain_path_char(c: char) -> bool {
    ('a' <= c && c <= 'z') || ('A' <= c && c <= 'Z') || ('0' <= c && c <= '9') || c == '-' || c
        == '_'
}

/// A text with nothing to encode or drop: plain characters, in which each delimiter and
/// each dot stands between two of them.
pub open spec fn is_plain_path(text: Seq<char>) -> bool {
    &&& text.len() > 0
    &&& is_plain_path_char(text[0])
    &&& is_plain_path_char(text.last())
    &&& forall|i: int|
        0 <= i < text.len() ==> (is_plain_path_char(#[trigger] text[i]) || text[i] == '/' || text[i]
            == '.')
    &&& forall|i: int|
        0 <= i < text.len() - 1 ==> (is_plain_path_char(#[trigger] text[i])
            || is_plain_path_char(text[i + 1]))
}

/// Calls `object_store::path::Path::from`. A plain text is its own path.
#[verifier::external_body]
pub(crate) fn object_path_of(text: &str) -> (r: String)
    ensures
        r@ == object_path(text@),
        is_plain_path(text@) ==> r@ == text@,
{
    object_store::path::Path::from(text).to_string()
}

} // verus!
