//! The settings reader: from what the file system handed back to a structured
//! value.
//!
//! A load runs in two steps around one read of the file system.
//! [`crate::location::locate`] names the file; the caller reads it as text and
//! reports how that went; [`finish_read`] decides the result.

use vstd::prelude::*;
use serde_json::Value;
use crate::error::outcome_view;
use crate::error::ErrorView;
use crate::error::SettingsError;
use crate::parse::parse_settings;
use crate::parse::parsed_settings;

verus! {

/// The view of what a read of the file system reports: the file's text, or the
/// description of what went wrong.
pub open spec fn loaded_view(loaded: Result<String, String>) -> Result<Seq<char>, Seq<char>> {
    match loaded {
        Ok(text) => Ok(text@),
        Err(cause) => Err(cause@),
    }
}

/// The result of a load, given what reading the file reported.
///
/// A file that could not be read is a `FileReadError` with the cause's
/// description, never an empty or default value. A file that was read is
/// whatever parsing makes of its whole text.
pub open spec fn read_result(loaded: Result<Seq<char>, Seq<char>>) -> Result<Value, ErrorView> {
    match loaded {
        Ok(text) => parsed_settings(text),
        Err(cause) => Err(ErrorView::FileReadError(cause)),
    }
}

/// Concludes a load from the outcome of reading the settings file.
pub fn finish_read(loaded: Result<String, String>) -> (outcome: Result<Value, SettingsError>)
    ensures
        outcome_view(outcome) == read_result(loaded_view(loaded)),
{
    match loaded {
        Ok(text) => parse_settings(text.as_str()),
        Err(cause) => Err(SettingsError::FileReadError(cause)),
    }
}

} // verus!
