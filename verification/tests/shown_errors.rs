use grafter::error::{error_page, he, AppError, ErrorPage, ErrorReply, ProviderError};
use grafter::pages::humanize_field_filter;

fn text(s: &str) -> String {
    s.to_string()
}

#[test]
fn errors_in_words() {
    assert_eq!(AppError::Unauthenticated.text(), "not authenticated");
    assert_eq!(AppError::Forbidden.text(), "forbidden");
    assert_eq!(AppError::NotFound(text("change 1")).text(), "not found: change 1");
    assert_eq!(AppError::CsrfMismatch.text(), "csrf validation failed");
    assert_eq!(AppError::Internal(text("x")).text(), "internal: x");
    let unexpected = ProviderError::UnexpectedResponse { status: 503, body: text("busy") };
    assert_eq!(
        AppError::Provider(unexpected).text(),
        "provider error: unexpected response (503): busy"
    );
    assert_eq!(ProviderError::Http(text("down")).text(), "request failed: down");
    assert_eq!(ProviderError::NotFound.text(), "not found");
    assert_eq!(ProviderError::Validation(text("v")).text(), "validation: v");
    assert_eq!(ProviderError::Conflict(text("c")).text(), "conflict: c");
}

fn page(status: u16, title: &str, detail: &str) -> ErrorReply {
    ErrorReply::Page(ErrorPage {
        status,
        title: text(title),
        detail: text(detail),
        back: None,
    })
}

#[test]
fn errors_as_the_browser_gets_them() {
    assert_eq!(
        AppError::Unauthenticated.reply(),
        ErrorReply::Redirect { to: text("/auth/login") }
    );
    assert_eq!(
        AppError::Forbidden.reply(),
        page(403, "Access denied", "You don't have permission to perform this action.")
    );
    assert_eq!(
        AppError::CsrfMismatch.reply(),
        page(
            403,
            "Session expired",
            "Your form token expired. Please reload the page and try again."
        )
    );
    assert_eq!(
        AppError::Internal(text("secret detail")).reply(),
        page(500, "Internal error", "An internal error occurred.")
    );
    assert_eq!(
        AppError::NotFound(text("role r1")).reply(),
        ErrorReply::Text { status: 404, text: text("role r1") }
    );
    let provider = |error: ProviderError| AppError::Provider(error).reply();
    assert_eq!(
        provider(ProviderError::NotFound),
        ErrorReply::Text {
            status: 404,
            text: text("The requested resource was not found in the identity provider."),
        }
    );
    assert_eq!(
        provider(ProviderError::Validation(text("Email is required."))),
        page(422, "Validation error", "Email is required.")
    );
    assert_eq!(
        provider(ProviderError::Conflict(text("User exists"))),
        page(409, "Conflict", "User exists")
    );
    assert_eq!(
        provider(ProviderError::UnexpectedResponse { status: 500, body: text("stack") }),
        page(
            502,
            "Identity provider error",
            "The identity provider returned an unexpected error. Check server logs for details."
        )
    );
    assert_eq!(
        provider(ProviderError::Http(text("refused"))),
        page(502, "Provider unreachable", "Could not reach the identity provider.")
    );
}

#[test]
fn markup_is_escaped() {
    assert_eq!(he("a<b>&\"c'"), "a&lt;b&gt;&amp;&quot;c&#39;");
    assert_eq!(he(""), "");
}

#[test]
fn an_error_page_is_a_whole_page() {
    let html = error_page(&ErrorPage {
        status: 409,
        title: text("Conflict"),
        detail: text("<b>taken</b>"),
        back: None,
    });
    assert!(html.starts_with("<!doctype html>"));
    assert!(html.contains("<title>Conflict — Grafter</title>"));
    assert!(html.contains("<h1>Conflict</h1>"));
    assert!(html.contains("<p>&lt;b&gt;taken&lt;/b&gt;</p>"));
    assert!(html.contains(r#"<button onclick="history.back()" class="btn">← Go back</button>"#));
    assert!(html.contains("HTTP 409 Conflict"));
    let html = error_page(&ErrorPage {
        status: 403,
        title: text("No"),
        detail: text(""),
        back: Some(text("/a?b=\"c\"")),
    });
    assert!(html.contains(r#"<a href="/a?b=&quot;c&quot;" class="btn">← Go back</a>"#));
}

#[test]
fn changed_fields_are_labelled() {
    let labels = [
        ("first_name", "First name"),
        ("last_name", "Last name"),
        ("email", "Email"),
        ("enabled", "Account enabled"),
        ("team", "Team"),
        ("team_group_id", "Team"),
        ("phone_number", "Phone number"),
        ("personnel_code", "Personnel code"),
        ("status_reason", "Reason"),
        ("anything", "anything"),
    ];
    for (field, label) in labels {
        assert_eq!(humanize_field_filter(field), label);
    }
}

#[test]
fn inner_errors_are_not_shown() {
    let replies: Vec<ErrorReply> = ["token exchange failed", "redis lock error: down"]
        .iter()
        .map(|message| AppError::Internal(message.to_string()).reply())
        .collect();
    assert_eq!(replies[0], replies[1]);
    let answer = |status: u16, body: &str| {
        AppError::Provider(ProviderError::UnexpectedResponse { status, body: body.to_string() })
            .reply()
    };
    assert_eq!(answer(500, "stack trace"), answer(403, "denied"));
    let unreachable = |message: &str| {
        AppError::Provider(ProviderError::Http(message.to_string())).reply()
    };
    assert_eq!(unreachable("connection refused"), unreachable("timed out"));
}
