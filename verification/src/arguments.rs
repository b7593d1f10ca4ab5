//! The argument parser: extracts named, typed fields from an optional JSON payload.
//!
//! No coercion takes place: a quoted numeral is not a number, and a number is not a
//! string. Operations downstream rely on the types established here.

use vstd::prelude::*;
use crate::json::{json_document, json_model, member, number_bits, parse_document, text_slice, Json};

verus! {

/// A number, held as the bit pattern of an IEEE 754 double.
#[derive(Debug, Clone, Copy, PartialEq, Eq, Structural)]
pub struct Number {
    pub bits: u64,
}

/// Whether the double with these bits compares equal to zero: all bits clear
/// except possibly the sign.
pub open spec fn zero_bits(bits: u64) -> bool {
    bits & 0x7fff_ffff_ffff_ffff == 0
}

impl Number {
    /// Whether the number is zero, of either sign.
    pub fn is_zero(&self) -> (zero: bool)
        ensures
            zero == zero_bits(self.bits),
    {
        self.bits & 0x7fff_ffff_ffff_ffff == 0
    }
}

/// What a payload holds under one name.
#[derive(Debug, Clone, PartialEq, Eq)]
pub enum Field {
    /// The payload is not an object, or has no member of that name.
    Missing,
    Number(Number),
    Text(String),
    /// A member of any other JSON type.
    Other,
}

/// Mathematical model of a [`Field`].
pub enum FieldView {
    Missing,
    Number(Number),
    Text(Seq<char>),
    Other,
}

impl View for Field {
    type V = FieldView;

    open spec fn view(&self) -> FieldView {
        match self {
            Field::Missing => FieldView::Missing,
            Field::Number(n) => FieldView::Number(*n),
            Field::Text(t) => FieldView::Text(t@),
            Field::Other => FieldView::Other,
        }
    }
}

/// The field that a document holds under `name`.
pub open spec fn field_of(document: Json, name: Seq<char>) -> FieldView {
    match document.member(name) {
        None => FieldView::Missing,
        Some(Json::Number(bits)) => FieldView::Number(Number { bits }),
        Some(Json::Text(chars)) => FieldView::Text(chars),
        Some(_) => FieldView::Other,
    }
}

/// Why a payload was rejected.
#[derive(Debug, Clone, PartialEq, Eq)]
pub enum ArgumentError {
    /// No payload was supplied at all.
    MissingArguments,
    /// The payload is not JSON; the detail is the parser's report.
    InvalidJson(String),
    /// The payload is not an object, lacks the named field, or holds a value of
    /// another type under it.
    MissingOrInvalidParameter(String),
}

/// Mathematical model of an [`ArgumentError`].
pub enum ArgumentErrorView {
    MissingArguments,
    InvalidJson(Seq<char>),
    MissingOrInvalidParameter(Seq<char>),
}

impl View for ArgumentError {
    type V = ArgumentErrorView;

    open spec fn view(&self) -> ArgumentErrorView {
        match self {
            ArgumentError::MissingArguments => ArgumentErrorView::MissingArguments,
            ArgumentError::InvalidJson(detail) => ArgumentErrorView::InvalidJson(detail@),
            ArgumentError::MissingOrInvalidParameter(name) => {
                ArgumentErrorView::MissingOrInvalidParameter(name@)
            },
        }
    }
}

impl ArgumentErrorView {
    /// The diagnostic shown to the caller.
    pub open spec fn message(self) -> Seq<char> {
        match self {
            ArgumentErrorView::MissingArguments => "Missing arguments"@,
            ArgumentErrorView::InvalidJson(detail) => "Invalid JSON arguments: "@ + detail,
            ArgumentErrorView::MissingOrInvalidParameter(name) => {
                "Missing or invalid parameter '"@ + name + "'"@
            },
        }
    }
}

impl ArgumentError {
    /// The diagnostic shown to the caller.
    pub fn message(&self) -> (text: String)
        ensures
            text@ == self@.message(),
    {
        match self {
            ArgumentError::MissingArguments => "Missing arguments".to_owned(),
            ArgumentError::InvalidJson(detail) => {
                let mut text = "Invalid JSON arguments: ".to_owned();
                text.append(detail.as_str());
                text
            },
            ArgumentError::MissingOrInvalidParameter(name) => {
                let mut text = "Missing or invalid parameter '".to_owned();
                text.append(name.as_str());
                text.append("'");
                text
            },
        }
    }
}

/// The characters of an optional payload.
pub open spec fn payload_text(arguments: Option<String>) -> Option<Seq<char>> {
    match arguments {
        Some(text) => Some(text@),
        None => None,
    }
}

/// The document that an optional payload parses to.
pub open spec fn parsed_payload(arguments: Option<Seq<char>>) -> Result<Json, ArgumentErrorView> {
    match arguments {
        None => Err(ArgumentErrorView::MissingArguments),
        Some(text) => match json_document(text) {
            Ok(document) => Ok(document),
            Err(detail) => Err(ArgumentErrorView::InvalidJson(detail)),
        },
    }
}

/// The number that a field supplies for the parameter `name`.
pub open spec fn required_number(field: FieldView, name: Seq<char>) -> Result<
    Number,
    ArgumentErrorView,
> {
    match field {
        FieldView::Number(n) => Ok(n),
        _ => Err(ArgumentErrorView::MissingOrInvalidParameter(name)),
    }
}

/// The text that a field supplies for the parameter `name`.
pub open spec fn required_text(field: FieldView, name: Seq<char>) -> Result<
    Seq<char>,
    ArgumentErrorView,
> {
    match field {
        FieldView::Text(chars) => Ok(chars),
        _ => Err(ArgumentErrorView::MissingOrInvalidParameter(name)),
    }
}

/// The two numbers `a` and `b` that a payload supplies. A payload that fails on
/// both reports `a`.
pub open spec fn parsed_numbers(arguments: Option<Seq<char>>) -> Result<
    (Number, Number),
    ArgumentErrorView,
> {
    match parsed_payload(arguments) {
        Err(error) => Err(error),
        Ok(document) => match required_number(field_of(document, "a"@), "a"@) {
            Err(error) => Err(error),
            Ok(a) => match required_number(field_of(document, "b"@), "b"@) {
                Err(error) => Err(error),
                Ok(b) => Ok((a, b)),
            },
        },
    }
}

/// The string `text` that a payload supplies.
pub open spec fn parsed_text(arguments: Option<Seq<char>>) -> Result<Seq<char>, ArgumentErrorView> {
    match parsed_payload(arguments) {
        Err(error) => Err(error),
        Ok(document) => required_text(field_of(document, "text"@), "text"@),
    }
}

/// Accepts a field only if it is a number.
pub fn require_number(field: Field, name: &str) -> (r: Result<Number, ArgumentError>)
    ensures
        match r {
            Ok(n) => required_number(field@, name@) == Ok::<Number, ArgumentErrorView>(n),
            Err(error) => required_number(field@, name@) == Err::<Number, ArgumentErrorView>(
                error@,
            ),
        },
{
    match field {
        Field::Number(n) => Ok(n),
        _ => Err(ArgumentError::MissingOrInvalidParameter(name.to_owned())),
    }
}

/// Accepts a field only if it is a string.
pub fn require_text(field: Field, name: &str) -> (r: Result<String, ArgumentError>)
    ensures
        match r {
            Ok(text) => required_text(field@, name@) == Ok::<Seq<char>, ArgumentErrorView>(text@),
            Err(error) => required_text(field@, name@) == Err::<Seq<char>, ArgumentErrorView>(
                error@,
            ),
        },
{
    match field {
        Field::Text(text) => Ok(text),
        _ => Err(ArgumentError::MissingOrInvalidParameter(name.to_owned())),
    }
}

/// Reads the field stored under `name` in a parsed document.
fn lookup(document: &serde_json::Value, name: &str) -> (field: Field)
    ensures
        field@ == field_of(json_model(*document), name@),
{
    match member(document, name) {
        None => Field::Missing,
        Some(found) => match number_bits(found) {
            Some(bits) => Field::Number(Number { bits }),
            None => match text_slice(found) {
                Some(slice) => Field::Text(slice.to_owned()),
                None => Field::Other,
            },
        },
    }
}

/// Parses an optional payload into a document.
fn parse_payload(arguments: &Option<String>) -> (r: Result<serde_json::Value, ArgumentError>)
    ensures
        match r {
            Ok(document) => parsed_payload(payload_text(*arguments)) == Ok::<
                Json,
                ArgumentErrorView,
            >(json_model(document)),
            Err(error) => parsed_payload(payload_text(*arguments)) == Err::<
                Json,
                ArgumentErrorView,
            >(error@),
        },
{
    match arguments {
        None => Err(ArgumentError::MissingArguments),
        Some(text) => match parse_document(text.as_str()) {
            Ok(document) => Ok(document),
            Err(detail) => Err(ArgumentError::InvalidJson(detail)),
        },
    }
}

/// Extracts the numbers `a` and `b` from a payload.
pub fn parse_args(arguments: &Option<String>) -> (r: Result<(Number, Number), ArgumentError>)
    ensures
        match r {
            Ok(pair) => parsed_numbers(payload_text(*arguments)) == Ok::<
                (Number, Number),
                ArgumentErrorView,
            >(pair),
            Err(error) => parsed_numbers(payload_text(*arguments)) == Err::<
                (Number, Number),
                ArgumentErrorView,
            >(error@),
        },
{
    let document = match parse_payload(arguments) {
        Ok(document) => document,
        Err(error) => { return Err(error); },
    };
    let a = match require_number(lookup(&document, "a"), "a") {
        Ok(a) => a,
        Err(error) => { return Err(error); },
    };
    let b = match require_number(lookup(&document, "b"), "b") {
        Ok(b) => b,
        Err(error) => { return Err(error); },
    };
    Ok((a, b))
}

/// Extracts the string `text` from a payload.
pub fn parse_text_arg(arguments: &Option<String>) -> (r: Result<String, ArgumentError>)
    ensures
        match r {
            Ok(text) => parsed_text(payload_text(*arguments)) == Ok::<Seq<char>, ArgumentErrorView>(
                text@,
            ),
            Err(error) => parsed_text(payload_text(*arguments)) == Err::<
                Seq<char>,
                ArgumentErrorView,
            >(error@),
        },
{
    let document = match parse_payload(arguments) {
        Ok(document) => document,
        Err(error) => { return Err(error); },
    };
    require_text(lookup(&document, "text"), "text")
}

/// A payload that is absent is rejected as missing, whichever parameters are asked
/// for, and the diagnostic reads "Missing arguments".
pub proof fn absent_payload_is_rejected()
    ensures
        parsed_numbers(None) == Err::<(Number, Number), ArgumentErrorView>(
            ArgumentErrorView::MissingArguments,
        ),
        parsed_text(None) == Err::<Seq<char>, ArgumentErrorView>(
            ArgumentErrorView::MissingArguments,
        ),
        ArgumentErrorView::MissingArguments.message() == "Missing arguments"@,
{
}

/// Only an object supplies fields: under every name, any other document holds nothing.
pub proof fn only_objects_hold_fields(document: Json, name: Seq<char>)
    requires
        !(document is Object),
    ensures
        field_of(document, name) is Missing,
        required_number(field_of(document, name), name) is Err,
        required_text(field_of(document, name), name) is Err,
{
}

/// Numbers are not coerced from strings, nor strings from numbers: a field is
/// accepted as a number only if it is one, and as a text only if it is one.
pub proof fn fields_are_not_coerced(field: FieldView, name: Seq<char>)
    ensures
        required_number(field, name) is Ok <==> field is Number,
        required_text(field, name) is Ok <==> field is Text,
        !(required_number(field, name) is Ok && required_text(field, name) is Ok),
{
}

} // verus!
