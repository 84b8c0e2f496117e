//! Where the settings file lives: a fixed relative path below the user's home
//! directory, which differs between Windows and every other platform.

use vstd::prelude::*;
use vstd::string::StrSliceExecFns;
use vstd::string::StringExecFns;
use crate::error::step_view;
use crate::error::ErrorView;
use crate::error::SettingsError;

verus! {

/// The family of platforms that decides the layout below the home directory.
#[derive(Debug, Clone, Copy, PartialEq, Eq, Structural)]
pub enum Platform {
    Windows,
    Other,
}

impl Platform {
    /// The text put between a directory and what lies in it.
    pub open spec fn separator(self) -> Seq<char> {
        match self {
            Platform::Windows => "\\"@,
            Platform::Other => "/"@,
        }
    }

    /// Whether `c` ends a component of a path. A slash does so everywhere, a
    /// backslash on Windows only.
    pub open spec fn is_separator(self, c: char) -> bool {
        c == '/' || (self == Platform::Windows && c == '\\')
    }

    /// The directory of the settings file, relative to the home directory.
    pub open spec fn relative_directory(self) -> Seq<char> {
        match self {
            Platform::Windows => "AppData/Roaming/Zed"@,
            Platform::Other => ".config/zed"@,
        }
    }

    /// The settings file, relative to the home directory.
    pub open spec fn relative_file(self) -> Seq<char> {
        match self {
            Platform::Windows => "AppData/Roaming/Zed/settings.json"@,
            Platform::Other => ".config/zed/settings.json"@,
        }
    }

    /// Tells whether `c` ends a component of a path on this platform.
    pub fn separates(self, c: char) -> (yes: bool)
        ensures
            yes == self.is_separator(c),
    {
        match self {
            Platform::Windows => c == '/' || c == '\\',
            Platform::Other => c == '/',
        }
    }

    /// The separator of this platform.
    pub fn separator_text(self) -> (text: &'static str)
        ensures
            text@ == self.separator(),
    {
        match self {
            Platform::Windows => "\\",
            Platform::Other => "/",
        }
    }

    /// The directory of the settings file, relative to the home directory.
    pub fn directory_below_home(self) -> (text: &'static str)
        ensures
            text@ == self.relative_directory(),
    {
        match self {
            Platform::Windows => "AppData/Roaming/Zed",
            Platform::Other => ".config/zed",
        }
    }
}

/// What lies between the directory of the settings file and the end of the
/// file's path: a slash and the file's name, on every platform.
pub open spec fn file_part() -> Seq<char> {
    "/settings.json"@
}

/// `relative` appended to `base`: with the platform's separator in between,
/// unless `base` is empty or ends in a separator already.
///
/// This is how an ordinary directory is extended. Two kinds of base on
/// Windows are outside this model, because the platform's own path type
/// treats them otherwise: a base that is a drive and nothing more (`C:`),
/// behind which it puts no separator, and a base with a verbatim prefix
/// (`\\?\`), where it rewrites what is appended. A home directory as Windows
/// reports it is neither.
pub open spec fn joined(platform: Platform, base: Seq<char>, relative: Seq<char>) -> Seq<char> {
    if base.len() == 0 || platform.is_separator(base.last()) {
        base + relative
    } else {
        base + platform.separator() + relative
    }
}

/// The mathematical value of a [`SettingsLocation`].
pub struct LocationView {
    pub directory: Seq<char>,
    pub file: Seq<char>,
}

/// The location of the settings file of a user whose home directory is `home`.
pub open spec fn location_of(platform: Platform, home: Seq<char>) -> LocationView {
    LocationView {
        directory: joined(platform, home, platform.relative_directory()),
        file: joined(platform, home, platform.relative_file()),
    }
}

/// The view of a home directory that may be missing.
pub open spec fn home_view(home: Option<String>) -> Option<Seq<char>> {
    match home {
        Some(home) => Some(home@),
        None => None,
    }
}

/// The answer of the path resolver for a user whose home directory, if any, is
/// `home`: the location below it, or `HomeDirectoryUnavailable`.
pub open spec fn resolved(home: Option<Seq<char>>, platform: Platform) -> Result<
    LocationView,
    ErrorView,
> {
    match home {
        Some(home) => Ok(location_of(platform, home)),
        None => Err(ErrorView::HomeDirectoryUnavailable),
    }
}

/// The settings file lies directly in the settings directory: its path is the
/// directory's, a slash, and `settings.json`.
pub proof fn lemma_file_lies_in_directory(platform: Platform, home: Seq<char>)
    ensures
        location_of(platform, home).file == location_of(platform, home).directory + file_part(),
{
    reveal_strlit("AppData/Roaming/Zed");
    reveal_strlit(".config/zed");
    reveal_strlit("AppData/Roaming/Zed/settings.json");
    reveal_strlit(".config/zed/settings.json");
    reveal_strlit("/settings.json");
    assert(platform.relative_file() =~= platform.relative_directory() + file_part());
    let directory = location_of(platform, home).directory;
    assert(location_of(platform, home).file =~= directory + file_part());
}

/// A location stays below the home directory it was derived from: the home
/// directory is a prefix of the settings directory, which is a prefix of the
/// file's path. So the path is absolute wherever the home directory is.
pub proof fn lemma_location_extends_home(platform: Platform, home: Seq<char>)
    ensures
        home.is_prefix_of(location_of(platform, home).directory),
        location_of(platform, home).directory.is_prefix_of(location_of(platform, home).file),
        home.is_prefix_of(location_of(platform, home).file),
{
    lemma_file_lies_in_directory(platform, home);
    let location = location_of(platform, home);
    assert(home =~= location.directory.subrange(0, home.len() as int));
    assert(location.directory =~= location.file.subrange(0, location.directory.len() as int));
    assert(home =~= location.file.subrange(0, home.len() as int));
}

/// Appends `relative` to `base` as a further stretch of path.
///
/// `relative` is taken as it is: the caller sees to it that it does not start
/// at a root. On Windows, a `base` that is only a drive (`C:`) or that has a
/// verbatim prefix (`\\?\`) is outside what this function models; see
/// [`joined`].
pub fn join(platform: Platform, base: &str, relative: &str) -> (path: String)
    ensures
        path@ == joined(platform, base@, relative@),
{
    let length: usize = base.unicode_len();
    let mut path = String::from_str(base);
    if length > 0 && !platform.separates(base.get_char(length - 1)) {
        path.append(platform.separator_text());
    }
    path.append(relative);
    path
}

/// The directory that holds the settings file, and the file itself.
#[derive(Debug, Clone, PartialEq, Eq)]
pub struct SettingsLocation {
    directory: String,
    file: String,
}

impl View for SettingsLocation {
    type V = LocationView;

    closed spec fn view(&self) -> LocationView {
        LocationView { directory: self.directory@, file: self.file@ }
    }
}

impl SettingsLocation {
    /// The directory to create before the file is written.
    pub fn directory(&self) -> (text: &str)
        ensures
            text@ == self@.directory,
    {
        self.directory.as_str()
    }

    /// The path of the settings file.
    pub fn file(&self) -> (text: &str)
        ensures
            text@ == self@.file,
    {
        self.file.as_str()
    }
}

/// Derives the location of the settings file from the home directory, if
/// there is one.
///
/// The home directory is extended as [`joined`] says, which on Windows leaves
/// a home that is only a drive or has a verbatim prefix outside the model.
pub fn resolve(home: Option<String>, platform: Platform) -> (found: Result<
    SettingsLocation,
    SettingsError,
>)
    ensures
        step_view(found) == resolved(home_view(home), platform),
{
    match home {
        None => Err(SettingsError::HomeDirectoryUnavailable),
        Some(home) => {
            let directory = join(platform, home.as_str(), platform.directory_below_home());
            let mut file = directory.clone();
            file.append("/settings.json");
            proof {
                lemma_file_lies_in_directory(platform, home@);
            }
            Ok(SettingsLocation { directory, file })
        },
    }
}

/// What asking the environment for the home directory came to.
#[derive(Debug, Clone, PartialEq, Eq)]
pub enum HomeLookup {
    /// The environment names no home directory.
    Missing,
    /// It names one whose path is not valid Unicode, so that it cannot be
    /// written as text.
    NotText,
    /// It names this directory.
    Found(String),
}

/// The home directory that a lookup yields, if it yields one: the directory
/// that was found, and none in the two other cases.
pub open spec fn usable_home_of(lookup: HomeLookup) -> Option<Seq<char>> {
    match lookup {
        HomeLookup::Found(home) => Some(home@),
        HomeLookup::Missing => None,
        HomeLookup::NotText => None,
    }
}

/// Decides what a lookup gives the path resolver to work with.
///
/// Paths are text throughout this library, so a home directory that cannot be
/// written as text counts as unavailable, like one that is missing.
pub fn usable_home(lookup: HomeLookup) -> (home: Option<String>)
    ensures
        home_view(home) == usable_home_of(lookup),
{
    match lookup {
        HomeLookup::Found(home) => Some(home),
        HomeLookup::Missing => None,
        HomeLookup::NotText => None,
    }
}

/// Asks `dirs::home_dir` for the home directory of the current user and
/// converts the path to text, telling apart whether there was none, one that
/// is not valid Unicode, or one that is.
///
/// Nothing is promised of the answer: it depends on the environment of the
/// running process.
#[verifier::external_body]
fn look_up_home() -> HomeLookup {
    match dirs::home_dir() {
        None => HomeLookup::Missing,
        Some(path) => match path.into_os_string().into_string() {
            Ok(text) => HomeLookup::Found(text),
            Err(_) => HomeLookup::NotText,
        },
    }
}

/// Finds the settings file of the current user.
///
/// The home directory is whatever the environment says at the time of the
/// call, as far as [`usable_home`] takes it; the rest is [`resolve`].
pub fn locate(platform: Platform) -> (found: Result<SettingsLocation, SettingsError>)
    ensures
        exists|home: Option<Seq<char>>| step_view(found) == resolved(home, platform),
{
    let home = usable_home(look_up_home());
    let found = resolve(home, platform);
    assert(step_view(found) == resolved(home_view(home), platform));
    found
}

} // verus!
