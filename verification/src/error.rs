//! The failures of the settings operations and the messages shown for them.

use vstd::prelude::*;
use vstd::string::StringExecFns;

verus! {

/// Why a settings operation failed.
///
/// The variants that wrap a `String` carry the description given by whoever
/// detected the failure: the file system for the three I/O variants, the
/// parser for `ParseError`.
#[derive(Debug, Clone, PartialEq, Eq)]
pub enum SettingsError {
    /// The environment names no home directory for the current user.
    HomeDirectoryUnavailable,
    /// The settings file could not be opened or read.
    FileReadError(String),
    /// The settings file does not hold a document of the lenient dialect.
    ParseError(String),
    /// The directory that holds the settings file could not be created.
    DirectoryCreateError(String),
    /// The settings file could not be written.
    FileWriteError(String),
}

/// The mathematical value of a [`SettingsError`]: descriptions as sequences of
/// characters.
pub enum ErrorView {
    HomeDirectoryUnavailable,
    FileReadError(Seq<char>),
    ParseError(Seq<char>),
    DirectoryCreateError(Seq<char>),
    FileWriteError(Seq<char>),
}

impl ErrorView {
    /// The text shown to the user for this failure.
    ///
    /// I/O failures show the description of their cause as it is; a parse
    /// failure is introduced by a fixed phrase; a missing home directory has a
    /// fixed message of its own.
    pub open spec fn message(self) -> Seq<char> {
        match self {
            ErrorView::HomeDirectoryUnavailable => "Não foi possível encontrar a pasta Home"@,
            ErrorView::FileReadError(cause) => cause,
            ErrorView::ParseError(cause) => "Erro ao processar configurações: "@ + cause,
            ErrorView::DirectoryCreateError(cause) => cause,
            ErrorView::FileWriteError(cause) => cause,
        }
    }
}

impl View for SettingsError {
    type V = ErrorView;

    open spec fn view(&self) -> ErrorView {
        match self {
            SettingsError::HomeDirectoryUnavailable => ErrorView::HomeDirectoryUnavailable,
            SettingsError::FileReadError(cause) => ErrorView::FileReadError(cause@),
            SettingsError::ParseError(cause) => ErrorView::ParseError(cause@),
            SettingsError::DirectoryCreateError(cause) => ErrorView::DirectoryCreateError(cause@),
            SettingsError::FileWriteError(cause) => ErrorView::FileWriteError(cause@),
        }
    }
}

/// The view of an operation's result: successes as they are, failures by
/// their view.
pub open spec fn outcome_view<T>(outcome: Result<T, SettingsError>) -> Result<T, ErrorView> {
    match outcome {
        Ok(value) => Ok(value),
        Err(error) => Err(error@),
    }
}

/// The view of a step's result: the next step or the failure, each by its
/// view.
pub open spec fn step_view<T: View>(step: Result<T, SettingsError>) -> Result<T::V, ErrorView> {
    match step {
        Ok(next) => Ok(next@),
        Err(error) => Err(error@),
    }
}

impl SettingsError {
    /// Collapses the failure into the one string handed across the process
    /// boundary.
    pub fn message(&self) -> (text: String)
        ensures
            text@ == self@.message(),
    {
        match self {
            SettingsError::HomeDirectoryUnavailable => String::from_str(
                "Não foi possível encontrar a pasta Home",
            ),
            SettingsError::FileReadError(cause) => cause.clone(),
            SettingsError::ParseError(cause) => String::from_str(
                "Erro ao processar configurações: ",
            ).concat(cause.as_str()),
            SettingsError::DirectoryCreateError(cause) => cause.clone(),
            SettingsError::FileWriteError(cause) => cause.clone(),
        }
    }
}

} // verus!
