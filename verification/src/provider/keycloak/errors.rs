//! Turning what Keycloak answers in place of a result into messages for people.

use crate::error::{ProviderError, ProviderErrorModel};
use crate::outside::{ascii, json_string, json_string_at, uppercase, uppercase_of};
use crate::text::{chars_of, same, text_between};
use vstd::prelude::*;
use vstd::utf8::encode_utf8;

verus! {

/// What a field is called in a message.
pub open spec fn field_label(field: Seq<char>) -> Seq<char> {
    if field == "firstName"@ {
        "First name"@
    } else if field == "lastName"@ {
        "Last name"@
    } else if field == "phone_number"@ {
        "Phone number"@
    } else if field == "personnel_code"@ {
        "Personnel code"@
    } else if field.len() == 0 {
        "This field"@
    } else {
        uppercase_of(field[0]) + field.skip(1)
    }
}

/// Names a field in a message.
pub fn humanize_field(field: &str) -> (r: String)
    ensures
        r@ == field_label(field@),
{
    if same(field, "firstName") {
        "First name".to_string()
    } else if same(field, "lastName") {
        "Last name".to_string()
    } else if same(field, "phone_number") {
        "Phone number".to_string()
    } else if same(field, "personnel_code") {
        "Personnel code".to_string()
    } else {
        let chars = chars_of(field);
        if chars.len() == 0 {
            "This field".to_string()
        } else {
            let tail = text_between(&chars, 1, chars.len());
            assert(tail@ =~= field@.skip(1));
            uppercase(chars[0]).concat(tail.as_str())
        }
    }
}

/// The Arabic block, and the supplements that Persian draws from.
pub open spec fn arabic(c: char) -> bool {
    ('\u{0600}' <= c && c <= '\u{06FF}') || ('\u{0750}' <= c && c <= '\u{077F}') || ('\u{FB50}' <= c
        && c <= '\u{FDFF}') || ('\u{FE70}' <= c && c <= '\u{FEFF}')
}

/// Whether a character is of the Arabic script.
pub fn is_arabic_script(c: char) -> (r: bool)
    ensures
        r == arabic(c),
{
    ('\u{0600}' <= c && c <= '\u{06FF}') || ('\u{0750}' <= c && c <= '\u{077F}') || ('\u{FB50}' <= c
        && c <= '\u{FDFF}') || ('\u{FE70}' <= c && c <= '\u{FEFF}')
}

/// Whether a text holds a character of the Arabic script.
pub open spec fn holds_arabic(text: Seq<char>) -> bool {
    exists|i: int| 0 <= i < text.len() && arabic(#[trigger] text[i])
}

fn has_arabic(text: &str) -> (r: bool)
    ensures
        r == holds_arabic(text@),
{
    let chars = chars_of(text);
    let mut i: usize = 0;
    while i < chars.len()
        invariant
            chars@ == text@,
            i <= chars@.len(),
            forall|j: int| 0 <= j < i ==> !arabic(#[trigger] text@[j]),
        decreases chars@.len() - i,
    {
        if is_arabic_script(chars[i]) {
            assert(arabic(text@[i as int]));
            return true;
        }
        i = i + 1;
    }
    false
}

/// What a message is about.
pub open spec fn subject(field: Option<Seq<char>>) -> Seq<char> {
    match field {
        Some(name) => field_label(name),
        None => "This field"@,
    }
}

/// Whether a code says that a value has characters that are not allowed.
pub open spec fn names_bad_characters(code: Seq<char>) -> bool {
    code == "error-username-invalid-character"@ || code == "error-person-name-invalid-character"@
        || code == "error-username-prohibited-character"@ || code == "error-invalid-value"@
}

/// The message for an error code. Realm admins can attach texts of their own to a rule, in
/// any language; one in the Arabic script is replaced by an English one.
pub open spec fn code_message(code: Seq<char>, field: Option<Seq<char>>) -> Seq<char> {
    let about = subject(field);
    if holds_arabic(code) {
        if field == Some("phone_number"@) {
            "Phone number must be 11 digits starting with 09 — e.g. 09123456789."@
        } else {
            about + " is not in the expected format."@
        }
    } else if code == "error-user-attribute-required"@ {
        about + " is required."@
    } else if code == "error-invalid-email"@ {
        about + " must be a valid email address."@
    } else if code == "error-invalid-length"@ || code == "error-invalid-length-too-short"@ {
        about + " is too short."@
    } else if code == "error-invalid-length-too-long"@ {
        about + " is too long."@
    } else if names_bad_characters(code) {
        about + " contains characters that aren't allowed."@
    } else {
        about + ": "@ + code
    }
}

/// Makes a message of an error code.
pub fn humanize_kc_code(code: &str, field: Option<&str>) -> (r: String)
    ensures
        r@ == code_message(code@, field.deep_view()),
{
    let about = match field {
        Some(name) => humanize_field(name),
        None => "This field".to_string(),
    };
    if has_arabic(code) {
        let of_phone = match field {
            Some(name) => same(name, "phone_number"),
            None => false,
        };
        return if of_phone {
            "Phone number must be 11 digits starting with 09 — e.g. 09123456789.".to_string()
        } else {
            about.concat(" is not in the expected format.")
        };
    }
    if same(code, "error-user-attribute-required") {
        about.concat(" is required.")
    } else if same(code, "error-invalid-email") {
        about.concat(" must be a valid email address.")
    } else if same(code, "error-invalid-length") || same(code, "error-invalid-length-too-short") {
        about.concat(" is too short.")
    } else if same(code, "error-invalid-length-too-long") {
        about.concat(" is too long.")
    } else if same(code, "error-username-invalid-character") || same(
        code,
        "error-person-name-invalid-character",
    ) || same(code, "error-username-prohibited-character") || same(code, "error-invalid-value") {
        about.concat(" contains characters that aren't allowed.")
    } else {
        about.concat(": ").concat(code)
    }
}

/// The parts of an error report that matter here.
#[derive(Debug, PartialEq)]
pub struct ErrorReport {
    pub field: Option<String>,
    pub error_message: Option<String>,
    pub error_description: Option<String>,
}

/// What a [`ErrorReport`] stands for in contracts.
#[verifier::ext_equal]
pub struct ErrorReportModel {
    pub field: Option<Seq<char>>,
    pub error_message: Option<Seq<char>>,
    pub error_description: Option<Seq<char>>,
}

impl DeepView for ErrorReport {
    type V = ErrorReportModel;

    open spec fn deep_view(&self) -> ErrorReportModel {
        ErrorReportModel {
            field: self.field.deep_view(),
            error_message: self.error_message.deep_view(),
            error_description: self.error_description.deep_view(),
        }
    }
}

impl Clone for ErrorReport {
    fn clone(&self) -> (r: Self)
        ensures
            r.deep_view() == self.deep_view(),
    {
        ErrorReport {
            field: self.field.clone(),
            error_message: self.error_message.clone(),
            error_description: self.error_description.clone(),
        }
    }
}

/// The parts that the body of an answer holds.
pub open spec fn report_in(body: Seq<char>) -> ErrorReportModel {
    let json = encode_utf8(body);
    ErrorReportModel {
        field: json_string(json, "field"@),
        error_message: json_string(json, "errorMessage"@),
        error_description: json_string(json, "error_description"@),
    }
}

fn read_report(body: &str) -> (r: ErrorReport)
    ensures
        r.deep_view() == report_in(body@),
{
    let json = body.as_bytes();
    ErrorReport {
        field: json_string_at(json, "field"),
        error_message: json_string_at(json, "errorMessage"),
        error_description: json_string_at(json, "error_description"),
    }
}

/// The error that a refused request amounts to.
pub open spec fn reported_error(
    status: u16,
    body: Seq<char>,
    report: ErrorReportModel,
) -> ProviderErrorModel {
    let unexpected = ProviderErrorModel::UnexpectedResponse { status, body };
    if status == 409 {
        match report.error_message {
            Some(message) => ProviderErrorModel::Conflict(message),
            None => ProviderErrorModel::Conflict(
                "A resource with that identifier already exists."@,
            ),
        }
    } else if status == 400 {
        match (report.error_message, report.error_description) {
            (Some(code), _) => ProviderErrorModel::Validation(code_message(code, report.field)),
            (None, Some(code)) => ProviderErrorModel::Validation(code_message(code, report.field)),
            (None, None) => unexpected,
        }
    } else {
        unexpected
    }
}

fn message_of(code: &String, field: &Option<String>) -> (r: ProviderError)
    ensures
        r.deep_view() == ProviderErrorModel::Validation(code_message(code@, field.deep_view())),
{
    let name = match field {
        Some(name) => Some(name.as_str()),
        None => None,
    };
    ProviderError::Validation(humanize_kc_code(code.as_str(), name))
}

/// Makes an error of the status and the body of a refused request, and of what the body
/// reports.
pub fn error_of_report(status: u16, body: String, report: &ErrorReport) -> (r: ProviderError)
    ensures
        r.deep_view() == reported_error(status, body@, report.deep_view()),
{
    if status == 409 {
        return match &report.error_message {
            Some(message) => ProviderError::Conflict(message.clone()),
            None => ProviderError::Conflict(
                "A resource with that identifier already exists.".to_string(),
            ),
        };
    }
    if status == 400 {
        if let Some(code) = &report.error_message {
            return message_of(code, &report.field);
        }
        if let Some(code) = &report.error_description {
            return message_of(code, &report.field);
        }
    }
    ProviderError::UnexpectedResponse { status, body }
}

/// Makes an error of the answer to a refused request.
pub fn parse_kc_error(status: u16, body: String) -> (r: ProviderError)
    ensures
        r.deep_view() == reported_error(status, body@, report_in(body@)),
{
    let report = read_report(body.as_str());
    error_of_report(status, body, &report)
}

/// None of the first `n` characters is of the Arabic script.
spec fn no_arabic(text: Seq<char>, n: nat) -> bool
    decreases n,
{
    n == 0 || (!arabic(text[n - 1]) && no_arabic(text, (n - 1) as nat))
}

proof fn lemma_no_arabic(text: Seq<char>, n: nat)
    requires
        no_arabic(text, n),
    ensures
        forall|i: int| 0 <= i < n ==> !arabic(#[trigger] text[i]),
    decreases n,
{
    if n > 0 {
        lemma_no_arabic(text, (n - 1) as nat);
    }
}

proof fn lemma_joined(a: Seq<char>, b: Seq<char>)
    requires
        !holds_arabic(a),
        !holds_arabic(b),
    ensures
        !holds_arabic(a + b),
{
    assert forall|i: int| 0 <= i < (a + b).len() implies !arabic(#[trigger] (a + b)[i]) by {
        if i < a.len() {
            assert((a + b)[i] == a[i]);
        } else {
            assert((a + b)[i] == b[i - a.len()]);
        }
    }
}

proof fn lemma_messages_are_plain()
    ensures
        !holds_arabic("Phone number must be 11 digits starting with 09 — e.g. 09123456789."@),
        !holds_arabic(" is not in the expected format."@),
        !holds_arabic(" is required."@),
        !holds_arabic(" must be a valid email address."@),
        !holds_arabic(" is too short."@),
        !holds_arabic(" is too long."@),
        !holds_arabic(" contains characters that aren't allowed."@),
        !holds_arabic(": "@),
{
    reveal_strlit("Phone number must be 11 digits starting with 09 — e.g. 09123456789.");
    reveal_strlit(" is not in the expected format.");
    reveal_strlit(" is required.");
    reveal_strlit(" must be a valid email address.");
    reveal_strlit(" is too short.");
    reveal_strlit(" is too long.");
    reveal_strlit(" contains characters that aren't allowed.");
    reveal_strlit(": ");
    reveal_with_fuel(no_arabic, 70);
    lemma_no_arabic(
        "Phone number must be 11 digits starting with 09 — e.g. 09123456789."@,
        "Phone number must be 11 digits starting with 09 — e.g. 09123456789."@.len(),
    );
    lemma_no_arabic(
        " is not in the expected format."@,
        " is not in the expected format."@.len(),
    );
    lemma_no_arabic(" is required."@, " is required."@.len());
    lemma_no_arabic(
        " must be a valid email address."@,
        " must be a valid email address."@.len(),
    );
    lemma_no_arabic(" is too short."@, " is too short."@.len());
    lemma_no_arabic(" is too long."@, " is too long."@.len());
    lemma_no_arabic(
        " contains characters that aren't allowed."@,
        " contains characters that aren't allowed."@.len(),
    );
    lemma_no_arabic(": "@, ": "@.len());
}

/// Every field has a label that is not empty.
pub proof fn lemma_labels_are_not_empty(field: Seq<char>)
    ensures
        field_label(field).len() > 0,
{
    reveal_strlit("First name");
    reveal_strlit("Last name");
    reveal_strlit("Phone number");
    reveal_strlit("Personnel code");
    reveal_strlit("This field");
}

/// To label a label changes nothing. Where the field begins with a character beyond ASCII,
/// this asks that the first of its capitals be its own capital.
pub proof fn lemma_labels_keep(field: Seq<char>)
    requires
        field.len() > 0 && !ascii(field[0]) ==> uppercase_of(uppercase_of(field[0])[0]) == seq![
            uppercase_of(field[0])[0],
        ],
    ensures
        field_label(field_label(field)) == field_label(field),
{
    reveal_strlit("firstName");
    reveal_strlit("lastName");
    reveal_strlit("phone_number");
    reveal_strlit("personnel_code");
    reveal_strlit("First name");
    reveal_strlit("Last name");
    reveal_strlit("Phone number");
    reveal_strlit("Personnel code");
    reveal_strlit("This field");
    let label = field_label(field);
    let first = label[0];
    assert(uppercase_of(first) == seq![first]);
    assert(first != 'f' && first != 'l' && first != 'p') by {
        assert(uppercase_of(first)[0] == first);
    }
    assert(seq![first] + label.skip(1) == label);
}

proof fn lemma_labels_are_plain()
    ensures
        !holds_arabic("First name"@),
        !holds_arabic("Last name"@),
        !holds_arabic("Phone number"@),
        !holds_arabic("Personnel code"@),
        !holds_arabic("This field"@),
{
    reveal_strlit("First name");
    reveal_strlit("Last name");
    reveal_strlit("Phone number");
    reveal_strlit("Personnel code");
    reveal_strlit("This field");
    reveal_with_fuel(no_arabic, 15);
    lemma_no_arabic("First name"@, "First name"@.len());
    lemma_no_arabic("Last name"@, "Last name"@.len());
    lemma_no_arabic("Phone number"@, "Phone number"@.len());
    lemma_no_arabic("Personnel code"@, "Personnel code"@.len());
    lemma_no_arabic("This field"@, "This field"@.len());
}

/// The name of a field holds no character of the Arabic script, nor do the capitals of its
/// first character, where that is beyond ASCII.
pub open spec fn named_plainly(field: Option<Seq<char>>) -> bool {
    match field {
        Some(name) => !holds_arabic(name) && (name.len() > 0 && !ascii(name[0]) ==> !holds_arabic(
            uppercase_of(name[0]),
        )),
        None => true,
    }
}

proof fn lemma_subject_is_plain(field: Option<Seq<char>>)
    requires
        named_plainly(field),
    ensures
        !holds_arabic(subject(field)),
{
    lemma_labels_are_plain();
    if let Some(name) = field {
        if name.len() > 0 {
            let tail = name.skip(1);
            assert forall|i: int| 0 <= i < tail.len() implies !arabic(#[trigger] tail[i]) by {
                assert(tail[i] == name[i + 1]);
            }
            lemma_joined(uppercase_of(name[0]), tail);
        }
    }
}

/// Whatever the identity provider's message is, the one that is shown holds no character of
/// the Arabic script, unless the name of the field does. Where the name begins with a
/// character beyond ASCII, this asks the same of its capitals.
pub proof fn lemma_messages_hold_no_arabic(code: Seq<char>, field: Option<Seq<char>>)
    requires
        named_plainly(field),
    ensures
        !holds_arabic(code_message(code, field)),
{
    let about = subject(field);
    lemma_subject_is_plain(field);
    lemma_messages_are_plain();
    lemma_joined(about, " is not in the expected format."@);
    lemma_joined(about, " is required."@);
    lemma_joined(about, " must be a valid email address."@);
    lemma_joined(about, " is too short."@);
    lemma_joined(about, " is too long."@);
    lemma_joined(about, " contains characters that aren't allowed."@);
    lemma_joined(about, ": "@);
    if !holds_arabic(code) {
        lemma_joined(about + ": "@, code);
    }
}

/// Nothing of a message in the Arabic script is shown: any two of them give the same
/// message for a field.
pub proof fn lemma_arabic_codes_are_alike(
    code: Seq<char>,
    other: Seq<char>,
    field: Option<Seq<char>>,
)
    requires
        holds_arabic(code),
        holds_arabic(other),
    ensures
        code_message(code, field) == code_message(other, field),
{
}

} // verus!
