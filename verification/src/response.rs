//! The response formatter: from the outcome of a request to a status code
//! and a message.

use crate::binder::{texts, BindError, BindErrorView, Field, Mismatch};
use crate::decoder::DecodeError;
use crate::schema::{Binding, BindingView, Mode, UndeclaredAttributes};
use crate::text::{decimal, decimal_string};
use crate::validator::ValidationError;
use vstd::prelude::*;

verus! {

/// The status of an accepted request.
pub const STATUS_OK: u16 = 200;

/// The status of a request whose encoding or document is rejected.
pub const STATUS_BAD_REQUEST: u16 = 400;

/// The status of a request whose values are out of range.
pub const STATUS_UNPROCESSABLE: u16 = 422;

/// How a request ended.
#[derive(Debug, Clone, PartialEq, Eq)]
pub enum Outcome {
    /// The text was not base64.
    DecodeFailed(DecodeError),
    /// The bytes did not bind to the schema.
    BindFailed(BindError),
    /// The bound state broke a value rule.
    ValidationFailed(ValidationError),
    /// The state was accepted.
    Accepted(Binding),
}

/// The model of an `Outcome`.
pub enum OutcomeView {
    DecodeFailed(DecodeError),
    BindFailed(BindErrorView),
    ValidationFailed(ValidationError),
    Accepted(BindingView),
}

impl View for Outcome {
    type V = OutcomeView;

    open spec fn view(&self) -> OutcomeView {
        match self {
            Outcome::DecodeFailed(error) => OutcomeView::DecodeFailed(*error),
            Outcome::BindFailed(error) => OutcomeView::BindFailed(error@),
            Outcome::ValidationFailed(error) => OutcomeView::ValidationFailed(*error),
            Outcome::Accepted(binding) => OutcomeView::Accepted(binding@),
        }
    }
}

/// A status code and a plain-text body.
#[derive(Debug, Clone, PartialEq, Eq)]
pub struct Response {
    pub status: u16,
    pub body: String,
}

/// The model of a `Response`.
pub struct ResponseView {
    pub status: u16,
    pub body: Seq<char>,
}

impl View for Response {
    type V = ResponseView;

    open spec fn view(&self) -> ResponseView {
        ResponseView { status: self.status, body: self.body@ }
    }
}

/// The path of a field within the document.
pub open spec fn field_path(field: Field) -> Seq<char> {
    match field {
        Field::Equipment => "equipment"@,
        Field::Items => "equipment.items"@,
        Field::Location => "location"@,
        Field::X => "location.x"@,
        Field::Y => "location.y"@,
        Field::Zone => "location.zone"@,
        Field::IsAdmin => "isAdmin"@,
        Field::Gold => "gold"@,
    }
}

/// The message of a schema mismatch.
pub open spec fn mismatch_text(mismatch: Mismatch) -> Seq<char> {
    match mismatch {
        Mismatch::NotAnObject => "invalid type: expected a JSON object"@,
        Mismatch::Missing(field) => "missing field `"@ + field_path(field) + "`"@,
        Mismatch::Invalid(field) => "invalid value for field `"@ + field_path(field) + "`"@,
    }
}

/// A name between backticks.
pub open spec fn quoted(name: Seq<char>) -> Seq<char> {
    "`"@ + name + "`"@
}

/// The quoted names, separated by a comma and a space.
pub open spec fn name_list(names: Seq<Seq<char>>) -> Seq<char>
    decreases names.len(),
{
    if names.len() == 0 {
        Seq::empty()
    } else if names.len() == 1 {
        quoted(names[0])
    } else {
        name_list(names.drop_last()) + ", "@ + quoted(names.last())
    }
}

/// The message of a bind error. For unexpected fields it is made of their
/// names alone.
pub open spec fn bind_error_text(error: BindErrorView) -> Seq<char> {
    match error {
        BindErrorView::Malformed(text) => text,
        BindErrorView::SchemaMismatch(mismatch) => mismatch_text(mismatch),
        BindErrorView::UnexpectedFields(names) => "unknown field "@ + name_list(names)
            + ", expected `equipment` or `location`"@,
    }
}

/// The message of a validation error.
pub open spec fn validation_text(error: ValidationError) -> Seq<char> {
    match error {
        ValidationError::OutOfRange { bound, .. } =>
            "MITIGATED: Invalid item level detected. Sword level cannot exceed "@ + decimal(
            bound as nat,
        ) + "."@,
    }
}

/// What introduces the message of a bind error in each mode.
pub open spec fn bind_failure_prefix(mode: Mode) -> Seq<char> {
    match mode {
        Mode::Permissive => "JSON Deserialization Error: "@,
        Mode::Strict => "MITIGATED: Payload rejected due to unexpected fields. Error: "@,
    }
}

/// The message that echoes the sword level of an accepted state.
pub open spec fn echo(user_id: u32, mode: Mode, level: u32) -> Seq<char> {
    "Player state for user "@ + decimal(user_id as nat) + (match mode {
        Mode::Permissive => " updated. Sword level is now: "@,
        Mode::Strict => " securely updated. Sword level is now: "@,
    }) + decimal(level as nat) + "."@
}

/// The lines that announce what a sender gained through the optional
/// fields: one if `isAdmin` is set and true, one if `gold` is set.
pub open spec fn alerts(undeclared: UndeclaredAttributes) -> Seq<char> {
    (if undeclared.is_admin == Some(true) {
        "\nALERT: Attacker successfully escalated privileges to ADMIN!"@
    } else {
        Seq::empty()
    }) + (match undeclared.gold {
        Some(amount) => "\nALERT: Attacker granted themselves "@ + decimal(amount as nat)
            + " gold!"@,
        None => Seq::empty(),
    })
}

/// The message of an accepted state. Only the permissive mode reads the
/// optional fields.
pub open spec fn accepted_text(user_id: u32, mode: Mode, binding: BindingView) -> Seq<char> {
    match mode {
        Mode::Permissive => echo(user_id, mode, binding.state.sword_level()) + alerts(
            binding.undeclared,
        ),
        Mode::Strict => echo(user_id, mode, binding.state.sword_level()),
    }
}

/// The response to each outcome.
pub open spec fn reply(user_id: u32, mode: Mode, outcome: OutcomeView) -> ResponseView {
    match outcome {
        OutcomeView::DecodeFailed(_) => ResponseView {
            status: STATUS_BAD_REQUEST,
            body: "Invalid Base64 data"@,
        },
        OutcomeView::BindFailed(error) => ResponseView {
            status: STATUS_BAD_REQUEST,
            body: bind_failure_prefix(mode) + bind_error_text(error),
        },
        OutcomeView::ValidationFailed(error) => ResponseView {
            status: STATUS_UNPROCESSABLE,
            body: validation_text(error),
        },
        OutcomeView::Accepted(binding) => ResponseView {
            status: STATUS_OK,
            body: accepted_text(user_id, mode, binding),
        },
    }
}

impl Field {
    /// The path of the field within the document.
    pub fn path(self) -> (r: &'static str)
        ensures
            r@ == field_path(self),
    {
        match self {
            Field::Equipment => "equipment",
            Field::Items => "equipment.items",
            Field::Location => "location",
            Field::X => "location.x",
            Field::Y => "location.y",
            Field::Zone => "location.zone",
            Field::IsAdmin => "isAdmin",
            Field::Gold => "gold",
        }
    }
}

impl Mismatch {
    /// The message of the mismatch.
    pub fn message(self) -> (r: String)
        ensures
            r@ == mismatch_text(self),
    {
        match self {
            Mismatch::NotAnObject => String::from_str("invalid type: expected a JSON object"),
            Mismatch::Missing(field) => {
                let mut text = String::from_str("missing field `");
                text.append(field.path());
                text.append("`");
                text
            },
            Mismatch::Invalid(field) => {
                let mut text = String::from_str("invalid value for field `");
                text.append(field.path());
                text.append("`");
                text
            },
        }
    }
}

/// Writes the quoted names, separated by a comma and a space.
pub fn list_names(names: &Vec<String>) -> (r: String)
    ensures
        r@ == name_list(texts(names@)),
{
    let ghost all = texts(names@);
    let mut text = String::new();
    let mut i: usize = 0;
    while i < names.len()
        invariant
            i <= names.len(),
            all == texts(names@),
            text@ == name_list(all.take(i as int)),
        decreases names.len() - i,
    {
        assert(all.take(i + 1).drop_last() =~= all.take(i as int));
        if i > 0 {
            text.append(", ");
        }
        text.append("`");
        text.append(names[i].as_str());
        text.append("`");
        i += 1;
    }
    assert(all.take(i as int) =~= all);
    text
}

impl BindError {
    /// The message of the error.
    pub fn message(&self) -> (r: String)
        ensures
            r@ == bind_error_text(self@),
    {
        match self {
            BindError::Malformed(text) => text.clone(),
            BindError::SchemaMismatch(mismatch) => mismatch.message(),
            BindError::UnexpectedFields(names) => {
                let mut text = String::from_str("unknown field ");
                let list = list_names(names);
                text.append(list.as_str());
                text.append(", expected `equipment` or `location`");
                text
            },
        }
    }
}

impl ValidationError {
    /// The message of the error.
    pub fn message(&self) -> (r: String)
        ensures
            r@ == validation_text(*self),
    {
        match self {
            ValidationError::OutOfRange { bound, .. } => {
                let mut text = String::from_str(
                    "MITIGATED: Invalid item level detected. Sword level cannot exceed ",
                );
                let limit = decimal_string(*bound);
                text.append(limit.as_str());
                text.append(".");
                text
            },
        }
    }
}

/// Writes the message of an accepted state.
fn accepted_message(user_id: u32, mode: Mode, binding: &Binding) -> (r: String)
    ensures
        r@ == accepted_text(user_id, mode, binding@),
{
    let mut text = String::from_str("Player state for user ");
    let user = decimal_string(user_id);
    text.append(user.as_str());
    match mode {
        Mode::Permissive => text.append(" updated. Sword level is now: "),
        Mode::Strict => text.append(" securely updated. Sword level is now: "),
    }
    let level = decimal_string(binding.state.sword_level());
    text.append(level.as_str());
    text.append(".");
    match mode {
        Mode::Permissive => {
            match binding.undeclared.is_admin {
                Some(true) => {
                    text.append("\nALERT: Attacker successfully escalated privileges to ADMIN!");
                },
                _ => {},
            }
            match binding.undeclared.gold {
                Some(amount) => {
                    text.append("\nALERT: Attacker granted themselves ");
                    let gold = decimal_string(amount);
                    text.append(gold.as_str());
                    text.append(" gold!");
                },
                None => {},
            }
        },
        Mode::Strict => {},
    }
    text
}

/// Maps the outcome of a request to its response.
///
/// The status is 400 for a failed decoding or binding, 422 for a failed
/// validation and 200 for an accepted state; the body is the message that
/// `reply` gives for the outcome.
pub fn format_response(user_id: u32, mode: Mode, outcome: &Outcome) -> (r: Response)
    ensures
        r@ == reply(user_id, mode, outcome@),
{
    match outcome {
        Outcome::DecodeFailed(_) => Response {
            status: STATUS_BAD_REQUEST,
            body: String::from_str("Invalid Base64 data"),
        },
        Outcome::BindFailed(error) => {
            let mut body = match mode {
                Mode::Permissive => String::from_str("JSON Deserialization Error: "),
                Mode::Strict => String::from_str(
                    "MITIGATED: Payload rejected due to unexpected fields. Error: ",
                ),
            };
            let detail = error.message();
            body.append(detail.as_str());
            Response { status: STATUS_BAD_REQUEST, body }
        },
        Outcome::ValidationFailed(error) => Response {
            status: STATUS_UNPROCESSABLE,
            body: error.message(),
        },
        Outcome::Accepted(binding) => Response {
            status: STATUS_OK,
            body: accepted_message(user_id, mode, binding),
        },
    }
}

} // verus!
