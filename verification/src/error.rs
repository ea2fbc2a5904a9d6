//! What can go wrong, and what is shown of it.

use crate::outside::{status_text, write_status};
use crate::text::{chars_of, decimal, decimal_text, or_empty, text_or_empty};
use vstd::prelude::*;

verus! {

/// What the identity provider, or the way to it, answers in place of a result.
#[derive(Debug, PartialEq)]
pub enum ProviderError {
    /// The request did not get through, or the answer could not be read.
    Http(String),
    UnexpectedResponse { status: u16, body: String },
    NotFound,
    Validation(String),
    Conflict(String),
}

/// What a [`ProviderError`] stands for in contracts.
#[verifier::ext_equal]
pub enum ProviderErrorModel {
    Http(Seq<char>),
    UnexpectedResponse { status: u16, body: Seq<char> },
    NotFound,
    Validation(Seq<char>),
    Conflict(Seq<char>),
}

impl DeepView for ProviderError {
    type V = ProviderErrorModel;

    open spec fn deep_view(&self) -> ProviderErrorModel {
        match self {
            ProviderError::Http(v) => ProviderErrorModel::Http(v.deep_view()),
            ProviderError::UnexpectedResponse { status, body } => ProviderErrorModel::UnexpectedResponse {
                status: *status,
                body: body.deep_view(),
            },
            ProviderError::NotFound => ProviderErrorModel::NotFound,
            ProviderError::Validation(v) => ProviderErrorModel::Validation(v.deep_view()),
            ProviderError::Conflict(v) => ProviderErrorModel::Conflict(v.deep_view()),
        }
    }
}

impl Clone for ProviderError {
    fn clone(&self) -> (r: Self)
        ensures
            r.deep_view() == self.deep_view(),
    {
        match self {
            ProviderError::Http(v) => ProviderError::Http(v.clone()),
            ProviderError::UnexpectedResponse { status, body } => ProviderError::UnexpectedResponse {
                status: *status,
                body: body.clone(),
            },
            ProviderError::NotFound => ProviderError::NotFound,
            ProviderError::Validation(v) => ProviderError::Validation(v.clone()),
            ProviderError::Conflict(v) => ProviderError::Conflict(v.clone()),
        }
    }
}

/// Why a request is not served.
#[derive(Debug, PartialEq)]
pub enum AppError {
    Unauthenticated,
    Forbidden,
    NotFound(String),
    CsrfMismatch,
    Provider(ProviderError),
    Internal(String),
}

/// What an [`AppError`] stands for in contracts.
#[verifier::ext_equal]
pub enum AppErrorModel {
    Unauthenticated,
    Forbidden,
    NotFound(Seq<char>),
    CsrfMismatch,
    Provider(ProviderErrorModel),
    Internal(Seq<char>),
}

impl DeepView for AppError {
    type V = AppErrorModel;

    open spec fn deep_view(&self) -> AppErrorModel {
        match self {
            AppError::Unauthenticated => AppErrorModel::Unauthenticated,
            AppError::Forbidden => AppErrorModel::Forbidden,
            AppError::NotFound(v) => AppErrorModel::NotFound(v.deep_view()),
            AppError::CsrfMismatch => AppErrorModel::CsrfMismatch,
            AppError::Provider(v) => AppErrorModel::Provider(v.deep_view()),
            AppError::Internal(v) => AppErrorModel::Internal(v.deep_view()),
        }
    }
}

impl Clone for AppError {
    fn clone(&self) -> (r: Self)
        ensures
            r.deep_view() == self.deep_view(),
    {
        match self {
            AppError::Unauthenticated => AppError::Unauthenticated,
            AppError::Forbidden => AppError::Forbidden,
            AppError::NotFound(v) => AppError::NotFound(v.clone()),
            AppError::CsrfMismatch => AppError::CsrfMismatch,
            AppError::Provider(v) => AppError::Provider(v.clone()),
            AppError::Internal(v) => AppError::Internal(v.clone()),
        }
    }
}

// ── For the log ──────────────────────────────────────────────────────────────

impl ProviderErrorModel {
    /// The error in words.
    pub open spec fn text(self) -> Seq<char> {
        match self {
            ProviderErrorModel::Http(message) => "request failed: "@ + message,
            ProviderErrorModel::UnexpectedResponse { status, body } => "unexpected response ("@
                + decimal(status as nat) + "): "@ + body,
            ProviderErrorModel::NotFound => "not found"@,
            ProviderErrorModel::Validation(message) => "validation: "@ + message,
            ProviderErrorModel::Conflict(message) => "conflict: "@ + message,
        }
    }
}

impl AppErrorModel {
    /// The error in words.
    pub open spec fn text(self) -> Seq<char> {
        match self {
            AppErrorModel::Unauthenticated => "not authenticated"@,
            AppErrorModel::Forbidden => "forbidden"@,
            AppErrorModel::NotFound(what) => "not found: "@ + what,
            AppErrorModel::CsrfMismatch => "csrf validation failed"@,
            AppErrorModel::Provider(error) => "provider error: "@ + error.text(),
            AppErrorModel::Internal(message) => "internal: "@ + message,
        }
    }
}

impl ProviderError {
    /// The error in words.
    pub fn text(&self) -> (r: String)
        ensures
            r@ == self.deep_view().text(),
    {
        match self {
            ProviderError::Http(message) => "request failed: ".to_string().concat(
                message.as_str(),
            ),
            ProviderError::UnexpectedResponse { status, body } => "unexpected response ("
                .to_string().concat(decimal_text(*status as u64).as_str()).concat("): ").concat(
                body.as_str(),
            ),
            ProviderError::NotFound => "not found".to_string(),
            ProviderError::Validation(message) => "validation: ".to_string().concat(
                message.as_str(),
            ),
            ProviderError::Conflict(message) => "conflict: ".to_string().concat(message.as_str()),
        }
    }
}

impl AppError {
    /// The error in words.
    pub fn text(&self) -> (r: String)
        ensures
            r@ == self.deep_view().text(),
    {
        match self {
            AppError::Unauthenticated => "not authenticated".to_string(),
            AppError::Forbidden => "forbidden".to_string(),
            AppError::NotFound(what) => "not found: ".to_string().concat(what.as_str()),
            AppError::CsrfMismatch => "csrf validation failed".to_string(),
            AppError::Provider(error) => "provider error: ".to_string().concat(
                error.text().as_str(),
            ),
            AppError::Internal(message) => "internal: ".to_string().concat(message.as_str()),
        }
    }
}

// ── For the browser ──────────────────────────────────────────────────────────

/// A page that tells of an error.
#[derive(Debug, PartialEq)]
pub struct ErrorPage {
    pub status: u16,
    pub title: String,
    pub detail: String,
    /// Where the way back leads; without it, to the page before.
    pub back: Option<String>,
}

/// What a [`ErrorPage`] stands for in contracts.
#[verifier::ext_equal]
pub struct ErrorPageModel {
    pub status: u16,
    pub title: Seq<char>,
    pub detail: Seq<char>,
    pub back: Option<Seq<char>>,
}

impl DeepView for ErrorPage {
    type V = ErrorPageModel;

    open spec fn deep_view(&self) -> ErrorPageModel {
        ErrorPageModel {
            status: self.status,
            title: self.title.deep_view(),
            detail: self.detail.deep_view(),
            back: self.back.deep_view(),
        }
    }
}

impl Clone for ErrorPage {
    fn clone(&self) -> (r: Self)
        ensures
            r.deep_view() == self.deep_view(),
    {
        ErrorPage {
            status: self.status,
            title: self.title.clone(),
            detail: self.detail.clone(),
            back: self.back.clone(),
        }
    }
}

/// What the browser gets in place of what it asked for.
#[derive(Debug, PartialEq)]
pub enum ErrorReply {
    Redirect { to: String },
    Text { status: u16, text: String },
    Page(ErrorPage),
}

/// What an [`ErrorReply`] stands for in contracts.
#[verifier::ext_equal]
pub enum ErrorReplyModel {
    Redirect { to: Seq<char> },
    Text { status: u16, text: Seq<char> },
    Page(ErrorPageModel),
}

impl DeepView for ErrorReply {
    type V = ErrorReplyModel;

    open spec fn deep_view(&self) -> ErrorReplyModel {
        match self {
            ErrorReply::Redirect { to } => ErrorReplyModel::Redirect { to: to.deep_view() },
            ErrorReply::Text { status, text } => ErrorReplyModel::Text {
                status: *status,
                text: text.deep_view(),
            },
            ErrorReply::Page(v) => ErrorReplyModel::Page(v.deep_view()),
        }
    }
}

impl Clone for ErrorReply {
    fn clone(&self) -> (r: Self)
        ensures
            r.deep_view() == self.deep_view(),
    {
        match self {
            ErrorReply::Redirect { to } => ErrorReply::Redirect { to: to.clone() },
            ErrorReply::Text { status, text } => ErrorReply::Text {
                status: *status,
                text: text.clone(),
            },
            ErrorReply::Page(v) => ErrorReply::Page(v.clone()),
        }
    }
}

/// An error page with the way back to the page before.
pub open spec fn shown(status: u16, title: Seq<char>, detail: Seq<char>) -> ErrorReplyModel {
    ErrorReplyModel::Page(ErrorPageModel { status, title, detail, back: None })
}

/// What the browser gets where something is not there.
pub open spec fn missing(text: Seq<char>) -> ErrorReplyModel {
    ErrorReplyModel::Text { status: 404, text }
}

/// What the browser gets for an error of the identity provider.
pub open spec fn provider_error_shown(error: ProviderErrorModel) -> ErrorReplyModel {
    match error {
        ProviderErrorModel::NotFound => missing(
            "The requested resource was not found in the identity provider."@,
        ),
        ProviderErrorModel::Validation(message) => shown(422, "Validation error"@, message),
        ProviderErrorModel::Conflict(message) => shown(409, "Conflict"@, message),
        ProviderErrorModel::UnexpectedResponse { .. } => shown(
            502,
            "Identity provider error"@,
            "The identity provider returned an unexpected error. Check server logs for details."@,
        ),
        ProviderErrorModel::Http(_) => shown(
            502,
            "Provider unreachable"@,
            "Could not reach the identity provider."@,
        ),
    }
}

/// What the browser gets for an error: who is not signed in is sent to sign in, and what went
/// wrong inside is not told.
pub open spec fn error_shown(error: AppErrorModel) -> ErrorReplyModel {
    match error {
        AppErrorModel::Unauthenticated => ErrorReplyModel::Redirect { to: "/auth/login"@ },
        AppErrorModel::Forbidden => shown(
            403,
            "Access denied"@,
            "You don't have permission to perform this action."@,
        ),
        AppErrorModel::NotFound(what) => missing(what),
        AppErrorModel::CsrfMismatch => shown(
            403,
            "Session expired"@,
            "Your form token expired. Please reload the page and try again."@,
        ),
        AppErrorModel::Provider(error) => provider_error_shown(error),
        AppErrorModel::Internal(_) => shown(
            500,
            "Internal error"@,
            "An internal error occurred."@,
        ),
    }
}

fn show(status: u16, title: &str, detail: &str) -> (r: ErrorReply)
    ensures
        r.deep_view() == shown(status, title@, detail@),
{
    ErrorReply::Page(
        ErrorPage { status, title: title.to_string(), detail: detail.to_string(), back: None },
    )
}

fn miss(text: &str) -> (r: ErrorReply)
    ensures
        r.deep_view() == missing(text@),
{
    ErrorReply::Text { status: 404, text: text.to_string() }
}

impl AppError {
    /// What the browser gets for this error.
    pub fn reply(&self) -> (r: ErrorReply)
        ensures
            r.deep_view() == error_shown(self.deep_view()),
    {
        match self {
            AppError::Unauthenticated => ErrorReply::Redirect { to: "/auth/login".to_string() },
            AppError::Forbidden => show(
                403,
                "Access denied",
                "You don't have permission to perform this action.",
            ),
            AppError::NotFound(what) => miss(what.as_str()),
            AppError::CsrfMismatch => show(
                403,
                "Session expired",
                "Your form token expired. Please reload the page and try again.",
            ),
            AppError::Provider(ProviderError::NotFound) => miss(
                "The requested resource was not found in the identity provider.",
            ),
            AppError::Provider(ProviderError::Validation(message)) => show(
                422,
                "Validation error",
                message.as_str(),
            ),
            AppError::Provider(ProviderError::Conflict(message)) => show(
                409,
                "Conflict",
                message.as_str(),
            ),
            AppError::Provider(ProviderError::UnexpectedResponse { .. }) => show(
                502,
                "Identity provider error",
                "The identity provider returned an unexpected error. Check server logs for details.",
            ),
            AppError::Provider(ProviderError::Http(_)) => show(
                502,
                "Provider unreachable",
                "Could not reach the identity provider.",
            ),
            AppError::Internal(_) => show(500, "Internal error", "An internal error occurred."),
        }
    }
}

/// A character as part of a page.
pub open spec fn escaped_char(c: char) -> Seq<char> {
    if c == '&' {
        "&amp;"@
    } else if c == '<' {
        "&lt;"@
    } else if c == '>' {
        "&gt;"@
    } else if c == '"' {
        "&quot;"@
    } else if c == '\'' {
        "&#39;"@
    } else {
        seq![c]
    }
}

/// A text as part of a page.
pub open spec fn escaped(text: Seq<char>) -> Seq<char>
    decreases text.len(),
{
    if text.len() == 0 {
        Seq::empty()
    } else {
        escaped(text.drop_last()) + escaped_char(text.last())
    }
}

/// Makes a text part of a page.
pub fn he(text: &str) -> (r: String)
    ensures
        r@ == escaped(text@),
{
    let chars = chars_of(text);
    let mut out = String::new();
    let mut i: usize = 0;
    assert(text@.take(0) =~= Seq::empty());
    while i < chars.len()
        invariant
            chars@ == text@,
            i <= chars@.len(),
            out@ == escaped(text@.take(i as int)),
        decreases chars@.len() - i,
    {
        let c = chars[i];
        let ghost before = out@;
        assert(text@.take(i + 1).drop_last() =~= text@.take(i as int));
        if c == '&' {
            out = out.concat("&amp;");
        } else if c == '<' {
            out = out.concat("&lt;");
        } else if c == '>' {
            out = out.concat("&gt;");
        } else if c == '"' {
            out = out.concat("&quot;");
        } else if c == '\'' {
            out = out.concat("&#39;");
        } else {
            out.push(c);
            assert(out@ =~= before + seq![c]);
        }
        i = i + 1;
    }
    assert(text@.take(i as int) =~= text@);
    out
}

/// A character that could end the text and begin markup.
pub open spec fn is_markup(c: char) -> bool {
    c == '<' || c == '>' || c == '"' || c == '\''
}

/// What went wrong inside is not shown: neither the message of an internal error, nor what the
/// identity provider answered, nor why it could not be reached.
pub proof fn lemma_inner_errors_are_not_shown(
    messages: (Seq<char>, Seq<char>),
    statuses: (u16, u16),
)
    ensures
        error_shown(AppErrorModel::Internal(messages.0)) == error_shown(
            AppErrorModel::Internal(messages.1),
        ),
        error_shown(AppErrorModel::Provider(ProviderErrorModel::Http(messages.0)))
            == error_shown(AppErrorModel::Provider(ProviderErrorModel::Http(messages.1))),
        error_shown(
            AppErrorModel::Provider(
                ProviderErrorModel::UnexpectedResponse { status: statuses.0, body: messages.0 },
            ),
        ) == error_shown(
            AppErrorModel::Provider(
                ProviderErrorModel::UnexpectedResponse { status: statuses.1, body: messages.1 },
            ),
        ),
{
}

/// What is shown of a text never begins markup.
pub proof fn lemma_escaped_holds_no_markup(text: Seq<char>)
    ensures
        forall|i: int| 0 <= i < escaped(text).len() ==> !is_markup(#[trigger] escaped(text)[i]),
    decreases text.len(),
{
    if text.len() > 0 {
        lemma_escaped_holds_no_markup(text.drop_last());
        reveal_strlit("&amp;");
        reveal_strlit("&lt;");
        reveal_strlit("&gt;");
        reveal_strlit("&quot;");
        reveal_strlit("&#39;");
        let front = escaped(text.drop_last());
        let last = escaped_char(text.last());
        assert forall|i: int| 0 <= i < escaped(text).len() implies !is_markup(
            #[trigger] escaped(text)[i],
        ) by {
            if i < front.len() {
                assert(escaped(text)[i] == front[i]);
            } else {
                assert(escaped(text)[i] == last[i - front.len()]);
            }
        }
    }
}

/// The head of an error page, up to its title.
pub const PAGE_HEAD: &'static str = "<!doctype html><html lang=\"en\"><head>\n<meta charset=\"utf-8\"><meta name=\"viewport\" content=\"width=device-width,initial-scale=1\">\n<title>";

/// What stands between the title of an error page and its heading.
pub const PAGE_STYLE: &'static str = " — Grafter</title>\n<style>\n*{box-sizing:border-box;margin:0;padding:0}\nbody{font-family:'Inter',system-ui,sans-serif;background:#060e0d;color:#c8e6e0;\n  min-height:100vh;display:flex;align-items:center;justify-content:center;}\n.card{background:#0b1f1d;border:1px solid #1a3d38;border-radius:12px;padding:36px 32px;\n  max-width:480px;width:100%;margin:20px;}\nh1{font-size:1.1rem;font-weight:700;color:#f0faf7;margin-bottom:10px;}\np{font-size:0.875rem;color:#6aa89a;line-height:1.6;margin-bottom:24px;}\n.btn{display:inline-block;padding:9px 18px;background:transparent;border:1px solid #243f3a;\n  border-radius:8px;color:#6aa89a;font-size:0.84rem;font-family:inherit;cursor:pointer;\n  text-decoration:none;}\n.btn:hover{border-color:#00bfa5;color:#00bfa5;}\n.code{font-size:0.7rem;color:#2e5a52;margin-top:20px;}\n</style></head><body>\n<div class=\"card\">\n  <h1>";

/// The way back from an error page.
pub open spec fn back_html(back: Option<Seq<char>>) -> Seq<char> {
    match back {
        Some(url) => "<a href=\""@ + escaped(url) + "\" class=\"btn\">← Go back</a>"@,
        None => "<button onclick=\"history.back()\" class=\"btn\">← Go back</button>"@,
    }
}

fn write_back(back: &Option<String>) -> (r: String)
    ensures
        r@ == back_html(back.deep_view()),
{
    match back {
        Some(url) => "<a href=\"".to_string().concat(he(url.as_str()).as_str()).concat(
            "\" class=\"btn\">← Go back</a>",
        ),
        None => "<button onclick=\"history.back()\" class=\"btn\">← Go back</button>".to_string(),
    }
}

/// The text of an error page.
pub open spec fn error_html(page: ErrorPageModel) -> Seq<char> {
    PAGE_HEAD@ + escaped(page.title) + PAGE_STYLE@ + escaped(page.title) + "</h1>\n  <p>"@
        + escaped(page.detail) + "</p>\n  "@ + back_html(page.back)
        + "\n  <p class=\"code\">HTTP "@ + or_empty(status_text(page.status))
        + "</p>\n</div></body></html>"@
}

/// Writes an error page.
pub fn error_page(page: &ErrorPage) -> (r: String)
    ensures
        r@ == error_html(page.deep_view()),
{
    let title = he(page.title.as_str());
    PAGE_HEAD.to_string().concat(title.as_str()).concat(PAGE_STYLE).concat(title.as_str()).concat(
        "</h1>\n  <p>",
    ).concat(he(page.detail.as_str()).as_str()).concat("</p>\n  ").concat(
        write_back(&page.back).as_str(),
    ).concat("\n  <p class=\"code\">HTTP ").concat(
        text_or_empty(&write_status(page.status)).as_str(),
    ).concat("</p>\n</div></body></html>")
}

} // verus!
