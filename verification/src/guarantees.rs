//! What holds of the two operations taken together, stated over the models
//! that their contracts use.

use vstd::prelude::*;
use crate::error::ErrorView;
use crate::location::file_part;
use crate::location::lemma_file_lies_in_directory;
use crate::location::resolved;
use crate::location::Platform;
use crate::parse::failure_text;
use crate::parse::lenient_parse;
use crate::parse::parse_result;
use crate::parse::parsed_settings;
use crate::parse::too_deep_message;
use crate::nesting::nesting;
use crate::nesting::MAX_NESTING;
use crate::reader::read_result;
use crate::writer::write_plan;
use crate::writer::write_result;

verus! {

/// Without a home directory neither operation gets as far as the file system:
/// the path resolver fails with `HomeDirectoryUnavailable`, and so does the
/// first step of a save, before any request to the file system is named.
pub proof fn lemma_no_home_no_request(platform: Platform, content: Seq<char>)
    ensures
        resolved(None, platform) matches Err(error) && error
            == ErrorView::HomeDirectoryUnavailable,
        write_plan(None, platform, content) matches Err(error) && error
            == ErrorView::HomeDirectoryUnavailable,
{
}

/// A save whose directory could be created writes to the file that a load
/// reads, and writes the caller's text unchanged. So a load that reads that
/// text back returns what parsing makes of the text that was saved: for a
/// text within the nesting limit, the parser's own answer.
pub proof fn lemma_save_meets_load(platform: Platform, home: Seq<char>, content: Seq<char>)
    ensures
        write_plan(Some(home), platform, content) matches Ok(pending)
            && pending.after_directory(Ok(())) matches Ok(write)
            && resolved(Some(home), platform) matches Ok(location)
            && write.path == location.file
            && write.content == content
            && read_result(Ok(write.content)) == parsed_settings(content),
        nesting(content) <= MAX_NESTING ==> read_result(Ok(content)) == parse_result(
            lenient_parse(content),
        ),
{
}

/// The directory that a save asks for is the one that its file lies in: the
/// file's path is the directory's, a slash, and `settings.json`.
pub proof fn lemma_save_creates_the_file_directory(
    platform: Platform,
    home: Seq<char>,
    content: Seq<char>,
)
    ensures
        write_plan(Some(home), platform, content) matches Ok(pending)
            && pending.after_directory(Ok(())) matches Ok(write)
            && write.path == pending.location.directory + file_part(),
{
    lemma_file_lies_in_directory(platform, home);
}

/// A save whose directory could not be created fails with that cause and
/// names no write; one whose write failed fails with that cause.
pub proof fn lemma_save_fails_with_its_cause(
    platform: Platform,
    home: Seq<char>,
    content: Seq<char>,
    cause: Seq<char>,
)
    ensures
        write_plan(Some(home), platform, content) matches Ok(pending)
            && pending.after_directory(Err(cause)) matches Err(error) && error
            == ErrorView::DirectoryCreateError(cause),
        write_result(Err(cause)) matches Err(error) && error == ErrorView::FileWriteError(cause),
        write_result(Ok(())) is Ok,
{
}

/// A load is all or nothing. It returns a value only if the file was read,
/// its text is within the nesting limit and the whole of it parsed, and then
/// the parser's value. A file that could not be read gives a `FileReadError`;
/// a text that is nested too deeply or did not parse gives a `ParseError`:
/// never a default, an empty or a partial value.
pub proof fn lemma_load_is_all_or_nothing(loaded: Result<Seq<char>, Seq<char>>)
    ensures
        match loaded {
            Err(cause) => read_result(loaded) matches Err(error) && error
                == ErrorView::FileReadError(cause),
            Ok(text) => if nesting(text) > MAX_NESTING {
                read_result(loaded) matches Err(error) && error == ErrorView::ParseError(
                    too_deep_message(),
                )
            } else {
                match lenient_parse(text) {
                    Ok(value) => read_result(loaded) matches Ok(read) && read == value,
                    Err(failure) => read_result(loaded) matches Err(error) && error
                        == ErrorView::ParseError(failure_text(failure)),
                }
            },
        },
        read_result(loaded) is Ok <==> (loaded matches Ok(text) && nesting(text) <= MAX_NESTING
            && lenient_parse(text) is Ok),
{
}

} // verus!
