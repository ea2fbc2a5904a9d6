use grafter::config::{parse_port, Config, ConfigError};

fn variables() -> Vec<(String, String)> {
    [
        ("OIDC_ISSUER", "https://kc.test/realms/smartech"),
        ("OIDC_CLIENT_ID", "grafter"),
        ("OIDC_CLIENT_SECRET", "a"),
        ("OIDC_REDIRECT_URI", "http://localhost:3000/auth/callback"),
        ("KC_ADMIN_URL", "https://kc.test"),
        ("KC_ADMIN_REALM", "smartech"),
        ("KC_ADMIN_CLIENT_ID", "grafter-admin"),
        ("KC_ADMIN_CLIENT_SECRET", "b"),
        ("IAM_ROLE_ADMIN", "devops"),
        ("IAM_ROLE_OPERATOR", "iam-operator"),
        ("S3_ENDPOINT", "http://s3.test"),
        ("S3_BUCKET", "grafter"),
        ("S3_ACCESS_KEY", "c"),
        ("S3_SECRET_KEY", "d"),
        ("SESSION_SECRET", "0123456789abcdef0123456789abcdef"),
        ("REDIS_URL", "redis://127.0.0.1:6379"),
    ]
    .iter()
    .map(|(k, v)| (k.to_string(), v.to_string()))
    .collect()
}

#[test]
fn settings_have_defaults() {
    let config = Config::from_variables(&variables()).unwrap();
    assert_eq!(config.host, "0.0.0.0");
    assert_eq!(config.port, 3000);
    assert_eq!(config.teams_group, "teams");
    assert_eq!(config.emergency_token, None);
    assert_eq!(config.oidc_issuer, "https://kc.test/realms/smartech");
    assert_eq!(config.redis_url, "redis://127.0.0.1:6379");
    assert_eq!(config.role_admin, "devops");
}

#[test]
fn settings_can_be_given() {
    let mut vars = variables();
    for (k, v) in [
        ("PORT", "8080"),
        ("HOST", "127.0.0.1"),
        ("TEAMS_GROUP", "squads"),
        ("EMERGENCY_TOKEN", "t"),
    ] {
        vars.push((k.to_string(), v.to_string()));
    }
    let config = Config::from_variables(&vars).unwrap();
    assert_eq!(config.address(), "127.0.0.1:8080");
    assert_eq!(config.teams_group, "squads");
    assert_eq!(config.emergency_token.as_deref(), Some("t"));
}

#[test]
fn an_empty_emergency_token_is_none() {
    let mut vars = variables();
    vars.push(("EMERGENCY_TOKEN".to_string(), String::new()));
    assert_eq!(Config::from_variables(&vars).unwrap().emergency_token, None);
}

#[test]
fn the_first_missing_variable_is_named() {
    for at in 0..variables().len() {
        let mut vars = variables();
        let (name, _) = vars.remove(at);
        assert_eq!(Config::from_variables(&vars), Err(ConfigError::Missing(name)));
    }
    assert_eq!(
        Config::from_variables(&vec![]),
        Err(ConfigError::Missing("OIDC_ISSUER".to_string()))
    );
}

#[test]
fn a_short_secret_is_refused() {
    let mut vars = variables();
    vars[14].1 = "0123456789abcdef0123456789abcde".to_string();
    assert_eq!(Config::from_variables(&vars), Err(ConfigError::ShortSecret));
    // Bytes count, not characters.
    vars[14].1 = "é".repeat(16);
    assert!(Config::from_variables(&vars).is_ok());
}

#[test]
fn ports_are_numbers() {
    assert_eq!(parse_port("3000"), Some(3000));
    assert_eq!(parse_port("+80"), Some(80));
    assert_eq!(parse_port("65535"), Some(65535));
    assert_eq!(parse_port("0080"), Some(80));
    for text in ["", "+", "65536", "-1", "80 ", "8o", "99999999999999999999"] {
        assert_eq!(parse_port(text), None);
    }
    let mut vars = variables();
    vars.push(("PORT".to_string(), "http".to_string()));
    assert_eq!(Config::from_variables(&vars), Err(ConfigError::Port));
}

#[test]
fn https_is_read_off_the_redirect_address() {
    let mut config = Config::from_variables(&variables()).unwrap();
    assert!(!config.is_https());
    config.oidc_redirect_uri = "https://grafter.test/auth/callback".to_string();
    assert!(config.is_https());
    config.oidc_redirect_uri = "https:/".to_string();
    assert!(!config.is_https());
}
