//! The settings, and the variables that they come from.

use super::course::{lemma_first, lemma_none};
use super::texts::spelled;
use crate::config::{
    all_digits, configured, digits_value, port_number, required_variables, unsigned,
    variable, ConfigErrorModel,
    ConfigModel,
};
use crate::lists::{first_where, lemma_first_where_holds};
use vstd::prelude::*;
use vstd::utf8::encode_utf8;

verus! {

/// A variable has a value: that of the first entry with its name.
pub open spec fn has_value(
    vars: Seq<(Seq<char>, Seq<char>)>,
    name: Seq<char>,
    value: Seq<char>,
) -> bool {
    exists|i: int|
        0 <= i < vars.len() && #[trigger] vars[i] == (name, value) && forall|j: int|
            0 <= j < i ==> (#[trigger] vars[j]).0 != name
}

/// A variable is not set.
pub open spec fn is_unset(vars: Seq<(Seq<char>, Seq<char>)>, name: Seq<char>) -> bool {
    forall|i: int| 0 <= i < vars.len() ==> (#[trigger] vars[i]).0 != name
}

/// A setting is the value of a variable, or a default where the variable is not set.
pub open spec fn is_or(
    vars: Seq<(Seq<char>, Seq<char>)>,
    name: Seq<char>,
    default: Seq<char>,
    setting: Seq<char>,
) -> bool {
    has_value(vars, name, setting) || (is_unset(vars, name) && setting == default)
}

proof fn lemma_variable(vars: Seq<(Seq<char>, Seq<char>)>, name: Seq<char>)
    ensures
        match variable(vars, name) {
            Some(value) => has_value(vars, name, value) && !is_unset(vars, name),
            None => is_unset(vars, name),
        },
        forall|value: Seq<char>| #[trigger]
            has_value(vars, name, value) ==> variable(vars, name) == Some(value),
{
    let named = |v: (Seq<char>, Seq<char>)| v.0 == name;
    assert forall|wanted: spec_fn((Seq<char>, Seq<char>)) -> bool|
        #![trigger first_where(vars, wanted)]
        (forall|v: (Seq<char>, Seq<char>)| #[trigger] wanted(v) == (v.0 == name)) implies first_where(
        vars,
        wanted,
    ) == first_where(vars, named) by {
        assert(wanted =~= named);
    }
    if is_unset(vars, name) {
        lemma_none(vars, named);
        assert forall|value: Seq<char>| !#[trigger] has_value(vars, name, value) by {
            if has_value(vars, name, value) {
                let i = choose|i: int|
                    0 <= i < vars.len() && #[trigger] vars[i] == (name, value) && forall|j: int|
                        0 <= j < i ==> (#[trigger] vars[j]).0 != name;
                assert(vars[i].0 != name);
            }
        }
    } else {
        let i = lemma_first_place(vars, name, vars.len() as int);
        lemma_first(vars, i, named);
        assert(vars[i] == (name, vars[i].1));
        assert(has_value(vars, name, vars[i].1));
        assert forall|value: Seq<char>| #[trigger] has_value(vars, name, value) implies value
            == vars[i].1 by {
            let k = choose|k: int|
                0 <= k < vars.len() && #[trigger] vars[k] == (name, value) && forall|j: int|
                    0 <= j < k ==> (#[trigger] vars[j]).0 != name;
            if i < k {
                assert(vars[i].0 != name);
            }
            if k < i {
                assert(vars[k].0 != name);
            }
        }
    }
}

proof fn lemma_first_place(vars: Seq<(Seq<char>, Seq<char>)>, name: Seq<char>, n: int) -> (i: int)
    requires
        0 <= n <= vars.len(),
        exists|i: int| 0 <= i < n && (#[trigger] vars[i]).0 == name,
    ensures
        0 <= i < n,
        vars[i].0 == name,
        forall|j: int| 0 <= j < i ==> (#[trigger] vars[j]).0 != name,
    decreases n,
{
    if exists|i: int| 0 <= i < n - 1 && (#[trigger] vars[i]).0 == name {
        lemma_first_place(vars, name, n - 1)
    } else {
        n - 1
    }
}

/// The settings hold the values of the variables that they are named after.
pub open spec fn comes_from(vars: Seq<(Seq<char>, Seq<char>)>, config: ConfigModel) -> bool {
    &&& is_or(vars, "HOST"@, "0.0.0.0"@, config.host)
    &&& is_or(vars, "TEAMS_GROUP"@, "teams"@, config.teams_group)
    &&& has_value(vars, "OIDC_ISSUER"@, config.oidc_issuer)
    &&& has_value(vars, "OIDC_CLIENT_ID"@, config.oidc_client_id)
    &&& has_value(vars, "OIDC_CLIENT_SECRET"@, config.oidc_client_secret)
    &&& has_value(vars, "OIDC_REDIRECT_URI"@, config.oidc_redirect_uri)
    &&& has_value(vars, "KC_ADMIN_URL"@, config.kc_admin_url)
    &&& has_value(vars, "KC_ADMIN_REALM"@, config.kc_admin_realm)
    &&& has_value(vars, "KC_ADMIN_CLIENT_ID"@, config.kc_admin_client_id)
    &&& has_value(vars, "KC_ADMIN_CLIENT_SECRET"@, config.kc_admin_client_secret)
    &&& has_value(vars, "IAM_ROLE_ADMIN"@, config.role_admin)
    &&& has_value(vars, "IAM_ROLE_OPERATOR"@, config.role_operator)
    &&& has_value(vars, "S3_ENDPOINT"@, config.s3_endpoint)
    &&& has_value(vars, "S3_BUCKET"@, config.s3_bucket)
    &&& has_value(vars, "S3_ACCESS_KEY"@, config.s3_access_key)
    &&& has_value(vars, "S3_SECRET_KEY"@, config.s3_secret_key)
    &&& has_value(vars, "SESSION_SECRET"@, config.session_secret)
    &&& has_value(vars, "REDIS_URL"@, config.redis_url)
    &&& match config.emergency_token {
        Some(token) => token.len() > 0 && has_value(vars, "EMERGENCY_TOKEN"@, token),
        None => is_unset(vars, "EMERGENCY_TOKEN"@) || has_value(
            vars,
            "EMERGENCY_TOKEN"@,
            Seq::empty(),
        ),
    }
}

/// A variable has no default.
pub open spec fn is_required(name: Seq<char>) -> bool {
    name == "OIDC_ISSUER"@ || name == "OIDC_CLIENT_ID"@ || name == "OIDC_CLIENT_SECRET"@ || name
        == "OIDC_REDIRECT_URI"@ || name == "KC_ADMIN_URL"@ || name == "KC_ADMIN_REALM"@ || name
        == "KC_ADMIN_CLIENT_ID"@ || name == "KC_ADMIN_CLIENT_SECRET"@ || name == "IAM_ROLE_ADMIN"@
        || name == "IAM_ROLE_OPERATOR"@ || name == "S3_ENDPOINT"@ || name == "S3_BUCKET"@ || name
        == "S3_ACCESS_KEY"@ || name == "S3_SECRET_KEY"@ || name == "SESSION_SECRET"@ || name
        == "REDIS_URL"@
}

proof fn lemma_required(name: Seq<char>)
    ensures
        required_variables().contains(name) == is_required(name),
{
    let all = required_variables();
    assert(all[0] == "OIDC_ISSUER"@);
    assert(all[1] == "OIDC_CLIENT_ID"@);
    assert(all[2] == "OIDC_CLIENT_SECRET"@);
    assert(all[3] == "OIDC_REDIRECT_URI"@);
    assert(all[4] == "KC_ADMIN_URL"@);
    assert(all[5] == "KC_ADMIN_REALM"@);
    assert(all[6] == "KC_ADMIN_CLIENT_ID"@);
    assert(all[7] == "KC_ADMIN_CLIENT_SECRET"@);
    assert(all[8] == "IAM_ROLE_ADMIN"@);
    assert(all[9] == "IAM_ROLE_OPERATOR"@);
    assert(all[10] == "S3_ENDPOINT"@);
    assert(all[11] == "S3_BUCKET"@);
    assert(all[12] == "S3_ACCESS_KEY"@);
    assert(all[13] == "S3_SECRET_KEY"@);
    assert(all[14] == "SESSION_SECRET"@);
    assert(all[15] == "REDIS_URL"@);
}

proof fn lemma_digits(text: Seq<char>)
    requires
        all_digits(text),
    ensures
        digits_value(text) == spelled(text),
    decreases text.len(),
{
    if text.len() > 0 {
        assert forall|i: int| 0 <= i < text.drop_last().len() implies '0'
            <= #[trigger] text.drop_last()[i] && text.drop_last()[i] <= '9' by {
            assert(text.drop_last()[i] == text[i]);
        }
        lemma_digits(text.drop_last());
        assert('0' <= text[text.len() - 1]);
    }
}

/// A text spells a port: decimal digits, that may carry a plus sign, up to the largest port.
pub open spec fn is_port(text: Seq<char>, port: u16) -> bool {
    if text.len() > 0 && text[0] == '+' {
        spells(text.skip(1), port)
    } else {
        spells(text, port)
    }
}

/// A row of decimal digits spells a port.
pub open spec fn spells(digits: Seq<char>, port: u16) -> bool {
    &&& digits.len() > 0
    &&& forall|i: int| 0 <= i < digits.len() ==> '0' <= (#[trigger] digits[i]) && digits[i] <= '9'
    &&& spelled(digits) == port
}

/// The port is a number that the variable spells, or the default. All required variables are
/// set, and the secret has at least thirty-two bytes.
pub proof fn lemma_settings_come_from_variables(
    vars: Seq<(Seq<char>, Seq<char>)>,
    config: ConfigModel,
    name: Seq<char>,
    port: Seq<char>,
)
    requires
        is_or(vars, "PORT"@, "3000"@, port),
    ensures
        configured(vars) == Ok::<ConfigModel, ConfigErrorModel>(config) ==> comes_from(vars, config)
            && is_port(port, config.port) && encode_utf8(config.session_secret).len() >= 32,
        configured(vars) == Err::<ConfigModel, ConfigErrorModel>(ConfigErrorModel::Missing(name))
            ==> is_required(name) && is_unset(vars, name),
        is_required(name) && is_unset(vars, name) ==> configured(vars) is Err,
        configured(vars) == Err::<ConfigModel, ConfigErrorModel>(ConfigErrorModel::Port) ==> forall|
            n: u16,
        |
            !is_port(port, n),
        is_port(port, config.port) && comes_from(vars, config) && encode_utf8(
            config.session_secret,
        ).len() >= 32 ==> configured(vars) == Ok::<ConfigModel, ConfigErrorModel>(config),
{
    lemma_variable(vars, "PORT"@);
    lemma_all_variables(vars);
    lemma_variable(vars, name);
    lemma_required(name);
    lemma_port(port);
    let missing = |name: Seq<char>| variable(vars, name) is None;
    lemma_first_where_holds(required_variables(), missing);
    if let Some(found) = first_where(required_variables(), missing) {
        lemma_required(found);
        lemma_variable(vars, found);
    } else {
        lemma_none_missing(vars);
    }
    if let Some(token) = variable(vars, "EMERGENCY_TOKEN"@) {
        if token.len() == 0 {
            assert(token =~= Seq::empty());
        }
    }
    if comes_from(vars, config) {
        if config.emergency_token is None && has_value(vars, "EMERGENCY_TOKEN"@, Seq::empty()) {
            assert(variable(vars, "EMERGENCY_TOKEN"@) == Some(Seq::<char>::empty()));
        }
        if let Some(found) = first_where(required_variables(), missing) {
            assert(is_unset(vars, found));
        }
    }
}

proof fn lemma_none_missing(vars: Seq<(Seq<char>, Seq<char>)>)
    requires
        first_where(required_variables(), |name: Seq<char>| variable(vars, name) is None) is None,
    ensures
        forall|name: Seq<char>| #[trigger] is_required(name) ==> variable(vars, name) is Some,
{
    let missing = |name: Seq<char>| variable(vars, name) is None;
    lemma_first_where_holds(required_variables(), missing);
    assert forall|name: Seq<char>| #[trigger] is_required(name) implies variable(
        vars,
        name,
    ) is Some by {
        lemma_required(name);
        let i = choose|i: int| 0 <= i < required_variables().len() && required_variables()[i] == name;
        assert(!missing(required_variables()[i]));
    }
    assert(is_required("OIDC_ISSUER"@) && is_required("OIDC_CLIENT_ID"@) && is_required(
        "OIDC_CLIENT_SECRET"@,
    ) && is_required("OIDC_REDIRECT_URI"@) && is_required("KC_ADMIN_URL"@) && is_required(
        "KC_ADMIN_REALM"@,
    ) && is_required("KC_ADMIN_CLIENT_ID"@) && is_required("KC_ADMIN_CLIENT_SECRET"@)
        && is_required("IAM_ROLE_ADMIN"@) && is_required("IAM_ROLE_OPERATOR"@) && is_required(
        "S3_ENDPOINT"@,
    ) && is_required("S3_BUCKET"@) && is_required("S3_ACCESS_KEY"@) && is_required(
        "S3_SECRET_KEY"@,
    ) && is_required("SESSION_SECRET"@) && is_required("REDIS_URL"@));
}

proof fn lemma_all_variables(vars: Seq<(Seq<char>, Seq<char>)>)
    ensures
        forall|name: Seq<char>|
            #![trigger variable(vars, name)]
            match variable(vars, name) {
                Some(value) => has_value(vars, name, value) && !is_unset(vars, name),
                None => is_unset(vars, name),
            },
        forall|name: Seq<char>, value: Seq<char>| #[trigger]
            has_value(vars, name, value) ==> variable(vars, name) == Some(value),
{
    assert forall|name: Seq<char>|
        #![trigger variable(vars, name)]
        match variable(vars, name) {
            Some(value) => has_value(vars, name, value) && !is_unset(vars, name),
            None => is_unset(vars, name),
        } by {
        lemma_variable(vars, name);
    }
    assert forall|name: Seq<char>, value: Seq<char>| #[trigger]
        has_value(vars, name, value) implies variable(vars, name) == Some(value) by {
        lemma_variable(vars, name);
    }
}

proof fn lemma_port(text: Seq<char>)
    ensures
        forall|port: u16| #[trigger] is_port(text, port) == (port_number(text) == Some(port)),
        port_number(text) is None ==> forall|port: u16| !#[trigger] is_port(text, port),
{
    let digits = if text.len() > 0 && text[0] == '+' {
        text.skip(1)
    } else {
        text
    };
    assert(digits == unsigned(text));
    if all_digits(digits) {
        lemma_digits(digits);
    }
    assert forall|port: u16| #[trigger] is_port(text, port) == (port_number(text) == Some(
        port,
    )) by {
        if is_port(text, port) {
            assert(all_digits(digits));
        }
    }
}

} // verus!
