use grafter::error::ProviderError;
use grafter::provider::keycloak::errors::{
    error_of_report, humanize_field, humanize_kc_code, is_arabic_script, parse_kc_error, ErrorReport,
};

#[test]
fn required_field_error_is_readable() {
    let msg = humanize_kc_code("error-user-attribute-required", Some("email"));
    assert_eq!(msg, "Email is required.");
}

#[test]
fn camel_case_field_gets_a_readable_label() {
    let msg = humanize_kc_code("error-user-attribute-required", Some("firstName"));
    assert_eq!(msg, "First name is required.");
}

#[test]
fn unmapped_code_still_names_the_field() {
    let msg = humanize_kc_code("some-future-error-code", Some("username"));
    assert_eq!(msg, "Username: some-future-error-code");
}

#[test]
fn no_field_falls_back_to_generic_subject() {
    let msg = humanize_kc_code("error-user-attribute-required", None);
    assert_eq!(msg, "This field is required.");
}

#[test]
fn parse_kc_error_400_uses_humanized_message() {
    let body = r#"{"field":"email","errorMessage":"error-user-attribute-required"}"#.to_string();
    match parse_kc_error(400, body) {
        ProviderError::Validation(msg) => assert_eq!(msg, "Email is required."),
        other => panic!("expected Validation, got {other:?}"),
    }
}

// The realm's phone_number validator carries a Persian error message, which must never reach
// an English-only page verbatim.
#[test]
fn non_english_custom_message_is_replaced_for_phone_number() {
    let msg = humanize_kc_code(
        "شماره موبایل معتبر وارد کنید (مثلاً 09123456789)",
        Some("phone_number"),
    );
    assert!(
        !msg.chars().any(is_arabic_script),
        "message shown to users must not carry through non-English text: {msg}"
    );
    assert!(msg.contains("09"));
}

#[test]
fn non_english_custom_message_falls_back_generically() {
    let msg = humanize_kc_code("مقدار نامعتبر", Some("personnel_code"));
    assert_eq!(msg, "Personnel code is not in the expected format.");
}

#[test]
fn labels_of_fields() {
    assert_eq!(humanize_field("firstName"), "First name");
    assert_eq!(humanize_field("lastName"), "Last name");
    assert_eq!(humanize_field("phone_number"), "Phone number");
    assert_eq!(humanize_field("personnel_code"), "Personnel code");
    assert_eq!(humanize_field("éclair"), "Éclair");
    assert_eq!(humanize_field("ßeta"), "SSeta");
    assert_eq!(humanize_field(""), "This field");
}

#[test]
fn a_label_is_its_own_label() {
    for field in ["firstName", "phone_number", "", "email", "Email", "9lives", "_x", "ßeta", "ŉ"] {
        let label = humanize_field(field);
        assert!(!label.is_empty());
        assert_eq!(humanize_field(&label), label);
    }
}

#[test]
fn labels_of_every_first_character() {
    for c in '\0'..=char::MAX {
        let label = humanize_field(&format!("{c}z"));
        assert!(label.len() > 1);
        assert_eq!(humanize_field(&label), label);
        assert_eq!(label.chars().any(is_arabic_script), is_arabic_script(c));
        if c.is_ascii() {
            assert_eq!(label, format!("{}z", c.to_ascii_uppercase()));
        }
    }
}

#[test]
fn nothing_of_an_arabic_message_is_shown() {
    for field in [None, Some("email"), Some("phone_number")] {
        let first = humanize_kc_code("مقدار نامعتبر", field);
        assert_eq!(first, humanize_kc_code("error ش 1", field));
        assert!(!first.chars().any(is_arabic_script));
    }
}

#[test]
fn messages_of_codes() {
    let email = Some("email");
    assert_eq!(
        humanize_kc_code("error-invalid-email", email),
        "Email must be a valid email address."
    );
    assert_eq!(humanize_kc_code("error-invalid-length", email), "Email is too short.");
    assert_eq!(humanize_kc_code("error-invalid-length-too-short", email), "Email is too short.");
    assert_eq!(humanize_kc_code("error-invalid-length-too-long", email), "Email is too long.");
    for code in [
        "error-username-invalid-character",
        "error-person-name-invalid-character",
        "error-username-prohibited-character",
        "error-invalid-value",
    ] {
        assert_eq!(
            humanize_kc_code(code, email),
            "Email contains characters that aren't allowed."
        );
    }
}

#[test]
fn edges_of_the_arabic_script() {
    for c in ['\u{0600}', '\u{06FF}', '\u{0750}', '\u{077F}', '\u{FB50}', '\u{FDFF}', '\u{FE70}', '\u{FEFF}'] {
        assert!(is_arabic_script(c));
    }
    for c in ['a', '\u{05FF}', '\u{0700}', '\u{074F}', '\u{0780}', '\u{FB4F}', '\u{FE00}', '\u{FE6F}', '\u{FF00}'] {
        assert!(!is_arabic_script(c));
    }
}

#[test]
fn conflicts_carry_the_reported_message() {
    assert_eq!(
        parse_kc_error(409, r#"{"errorMessage":"User exists with same username"}"#.to_string()),
        ProviderError::Conflict("User exists with same username".to_string())
    );
    assert_eq!(
        parse_kc_error(409, "not json".to_string()),
        ProviderError::Conflict("A resource with that identifier already exists.".to_string())
    );
}

#[test]
fn descriptions_stand_in_for_messages() {
    let body = r#"{"error":"invalid","error_description":"error-invalid-email"}"#.to_string();
    assert_eq!(
        parse_kc_error(400, body),
        ProviderError::Validation("This field must be a valid email address.".to_string())
    );
}

#[test]
fn other_answers_are_passed_on() {
    assert_eq!(
        parse_kc_error(400, "{}".to_string()),
        ProviderError::UnexpectedResponse { status: 400, body: "{}".to_string() }
    );
    let body = r#"{"errorMessage":"no"}"#.to_string();
    assert_eq!(
        parse_kc_error(500, body.clone()),
        ProviderError::UnexpectedResponse { status: 500, body }
    );
}

#[test]
fn reports_are_judged_by_their_status() {
    let report = ErrorReport {
        field: Some("lastName".to_string()),
        error_message: Some("error-invalid-length-too-long".to_string()),
        error_description: Some("ignored".to_string()),
    };
    assert_eq!(
        error_of_report(400, String::new(), &report),
        ProviderError::Validation("Last name is too long.".to_string())
    );
    assert_eq!(
        error_of_report(409, String::new(), &report),
        ProviderError::Conflict("error-invalid-length-too-long".to_string())
    );
}
