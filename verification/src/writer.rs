//! The settings writer: in which order a save touches the file system, and
//! what each outcome leads to.
//!
//! A save runs in three steps around two requests to the file system. The
//! caller performs each request and reports how it went:
//!
//! 1. [`start_write`] names the directory to create, with all its missing
//!    ancestors.
//! 2. [`PendingWrite::directory_created`] takes the outcome of that and, if it
//!    went well, names the file to replace and the text to put there.
//! 3. [`FileWrite::finished`] takes the outcome of the write and gives the
//!    result of the save.
//!
//! The text is never parsed or validated: it goes to the file as it came.

use vstd::prelude::*;
use crate::error::outcome_view;
use crate::error::step_view;
use crate::error::ErrorView;
use crate::error::SettingsError;
use crate::location::home_view;
use crate::location::locate;
use crate::location::location_of;
use crate::location::resolve;
use crate::location::resolved;
use crate::location::LocationView;
use crate::location::Platform;
use crate::location::SettingsLocation;

verus! {

/// The mathematical value of a [`PendingWrite`].
pub struct PendingWriteView {
    pub location: LocationView,
    pub content: Seq<char>,
}

/// The mathematical value of a [`FileWrite`].
pub struct FileWriteView {
    pub path: Seq<char>,
    pub content: Seq<char>,
}

/// A save that knows where it goes and waits for its directory.
#[derive(Debug, Clone, PartialEq, Eq)]
pub struct PendingWrite {
    location: SettingsLocation,
    content: String,
}

/// The one write of a save: the whole of `content` replaces whatever the file
/// at `path` held.
#[derive(Debug, Clone, PartialEq, Eq)]
pub struct FileWrite {
    path: String,
    content: String,
}

impl View for PendingWrite {
    type V = PendingWriteView;

    closed spec fn view(&self) -> PendingWriteView {
        PendingWriteView { location: self.location@, content: self.content@ }
    }
}

impl View for FileWrite {
    type V = FileWriteView;

    closed spec fn view(&self) -> FileWriteView {
        FileWriteView { path: self.path@, content: self.content@ }
    }
}

/// The view of what the file system reports of a request that returns
/// nothing: success, or the description of what went wrong.
pub open spec fn reply_view(reply: Result<(), String>) -> Result<(), Seq<char>> {
    match reply {
        Ok(done) => Ok(done),
        Err(cause) => Err(cause@),
    }
}

/// How a save starts for a user whose home directory, if any, is `home`.
///
/// Without a home directory the save fails at once and asks nothing of the
/// file system. Otherwise it waits for the settings directory, holding
/// `content` unchanged.
pub open spec fn write_plan(home: Option<Seq<char>>, platform: Platform, content: Seq<char>)
    -> Result<PendingWriteView, ErrorView> {
    match home {
        Some(home) => Ok(PendingWriteView { location: location_of(platform, home), content }),
        None => Err(ErrorView::HomeDirectoryUnavailable),
    }
}

impl PendingWriteView {
    /// How a save goes on once creating the directory has been tried.
    ///
    /// If that failed, the save fails with a `DirectoryCreateError` and the
    /// file is left alone. If it went well, the settings file is to be
    /// replaced by the caller's text.
    pub open spec fn after_directory(self, reply: Result<(), Seq<char>>) -> Result<
        FileWriteView,
        ErrorView,
    > {
        match reply {
            Ok(_) => Ok(FileWriteView { path: self.location.file, content: self.content }),
            Err(cause) => Err(ErrorView::DirectoryCreateError(cause)),
        }
    }
}

/// The result of a save, given what writing the file reported.
pub open spec fn write_result(reply: Result<(), Seq<char>>) -> Result<(), ErrorView> {
    match reply {
        Ok(done) => Ok(done),
        Err(cause) => Err(ErrorView::FileWriteError(cause)),
    }
}

/// Starts a save of `content` for a user whose home directory, if any, is
/// `home`.
pub fn plan_write(home: Option<String>, platform: Platform, content: String) -> (step: Result<
    PendingWrite,
    SettingsError,
>)
    ensures
        step_view(step) == write_plan(home_view(home), platform, content@),
{
    match resolve(home, platform) {
        Ok(location) => Ok(PendingWrite { location, content }),
        Err(error) => Err(error),
    }
}

/// Starts a save of `content` for the current user.
///
/// The home directory is whatever the environment says at the time of the
/// call; the rest is [`plan_write`].
pub fn start_write(platform: Platform, content: String) -> (step: Result<
    PendingWrite,
    SettingsError,
>)
    ensures
        exists|home: Option<Seq<char>>| step_view(step) == write_plan(home, platform, content@),
{
    let found = locate(platform);
    let ghost home = choose|home: Option<Seq<char>>|
        step_view(found) == resolved(home, platform);
    let step = match found {
        Ok(location) => Ok(PendingWrite { location, content }),
        Err(error) => Err(error),
    };
    assert(step_view(step) == write_plan(home, platform, content@));
    step
}

impl PendingWrite {
    /// The directory to create, with all its missing ancestors, before the
    /// file is written.
    pub fn directory(&self) -> (text: &str)
        ensures
            text@ == self@.location.directory,
    {
        self.location.directory()
    }

    /// Takes the outcome of creating the directory and decides how the save
    /// goes on.
    pub fn directory_created(self, reply: Result<(), String>) -> (step: Result<
        FileWrite,
        SettingsError,
    >)
        ensures
            step_view(step) == self@.after_directory(reply_view(reply)),
    {
        match reply {
            Ok(_) => {
                let path = String::from_str(self.location.file());
                Ok(FileWrite { path, content: self.content })
            },
            Err(cause) => Err(SettingsError::DirectoryCreateError(cause)),
        }
    }
}

impl FileWrite {
    /// The file to replace.
    pub fn path(&self) -> (text: &str)
        ensures
            text@ == self@.path,
    {
        self.path.as_str()
    }

    /// The text that becomes the file's whole content.
    pub fn content(&self) -> (text: &str)
        ensures
            text@ == self@.content,
    {
        self.content.as_str()
    }

    /// Takes the outcome of the write and gives the result of the save.
    pub fn finished(self, reply: Result<(), String>) -> (outcome: Result<(), SettingsError>)
        ensures
            outcome_view(outcome) == write_result(reply_view(reply)),
    {
        match reply {
            Ok(done) => Ok(done),
            Err(cause) => Err(SettingsError::FileWriteError(cause)),
        }
    }
}

} // verus!
