//! Turning the text of the settings file into a structured value.
//!
//! The grammar is that of the `json5` crate and the value model that of
//! `serde_json`; both are used as they are. What this module decides is which
//! texts reach the parser, and what becomes of its answer.

use vstd::prelude::*;
use vstd::string::StringExecFns;
use serde_json::Value;
use crate::error::outcome_view;
use crate::error::ErrorView;
use crate::error::SettingsError;
use crate::nesting::nesting;
use crate::nesting::within_nesting_limit;
use crate::nesting::MAX_NESTING;

verus! {

/// A structured value: null, boolean, number, string, array or object. The
/// library hands such values on and never looks inside.
#[verifier::external_type_specification]
#[verifier::external_body]
pub struct ExValue(serde_json::Value);

/// The parser's account of why a text is no document of the lenient dialect.
#[verifier::external_type_specification]
#[verifier::external_body]
pub struct ExParseFailure(json5::Error);

/// What `json5::from_str` makes of `text` when asked for a `serde_json::Value`.
pub uninterp spec fn lenient_parse(text: Seq<char>) -> Result<Value, json5::Error>;

/// What `failure` says when displayed: the problem, and the line and column
/// where the parser met it if it recorded them.
pub uninterp spec fn failure_text(failure: json5::Error) -> Seq<char>;

/// Calls `json5::from_str::<serde_json::Value>`. The parser reads nothing but
/// its argument, so its answer is a function of the text; the contract claims
/// that and no more.
///
/// The parser calls itself once for each array or object that it enters and
/// counts no depth, so a text nested without end would exhaust the stack.
/// Such texts are left out: the call is made only for a text whose brackets,
/// outside comments and strings, are never open more than `MAX_NESTING` deep.
#[verifier::external_body]
fn parse_lenient(text: &str) -> (parsed: Result<Value, json5::Error>)
    requires
        nesting(text@) <= MAX_NESTING,
    ensures
        parsed == lenient_parse(text@),
{
    json5::from_str::<Value>(text)
}

/// Renders a `json5::Error` through its `Display` impl, which writes the
/// error's own fields and nothing else.
#[verifier::external_body]
fn describe_failure(failure: &json5::Error) -> (text: String)
    ensures
        text@ == failure_text(*failure),
{
    failure.to_string()
}

/// What the library returns for an answer of the parser: the value as it is,
/// or a `ParseError` that carries the parser's description.
pub open spec fn parse_result(parsed: Result<Value, json5::Error>) -> Result<Value, ErrorView> {
    match parsed {
        Ok(value) => Ok(value),
        Err(failure) => Err(ErrorView::ParseError(failure_text(failure))),
    }
}

/// Maps the parser's answer to the library's result.
pub fn parse_outcome(parsed: Result<Value, json5::Error>) -> (outcome: Result<
    Value,
    SettingsError,
>)
    ensures
        outcome_view(outcome) == parse_result(parsed),
{
    match parsed {
        Ok(value) => Ok(value),
        Err(failure) => Err(SettingsError::ParseError(describe_failure(&failure))),
    }
}

/// The description carried by the `ParseError` of a text that is nested too
/// deeply to be parsed.
pub open spec fn too_deep_message() -> Seq<char> {
    "nesting exceeds 128 levels"@
}

/// What parsing `text` gives: the parser's answer where the text is nested no
/// deeper than `MAX_NESTING`, and a `ParseError` of the library's own where it
/// is.
pub open spec fn parsed_settings(text: Seq<char>) -> Result<Value, ErrorView> {
    if nesting(text) <= MAX_NESTING {
        parse_result(lenient_parse(text))
    } else {
        Err(ErrorView::ParseError(too_deep_message()))
    }
}

/// Parses `text` as a document of the lenient dialect.
///
/// The result is all or nothing: the whole value, or a `ParseError`. A text
/// nested deeper than `MAX_NESTING` is turned away without being parsed.
pub fn parse_settings(text: &str) -> (outcome: Result<Value, SettingsError>)
    ensures
        outcome_view(outcome) == parsed_settings(text@),
{
    if within_nesting_limit(text) {
        parse_outcome(parse_lenient(text))
    } else {
        Err(SettingsError::ParseError(String::from_str("nesting exceeds 128 levels")))
    }
}

} // verus!
