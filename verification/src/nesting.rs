//! How deeply the arrays and objects of a text are nested.
//!
//! The parser of the lenient dialect descends one level for each array or
//! object that it is inside, and sets itself no limit. This module measures, in
//! one pass and without descending, how deep a text would take it, so that a
//! text that goes too deep can be turned away before the parser sees it.
//!
//! The pass follows the dialect's rules for what is a comment and what is a
//! string, since brackets inside either open nothing. As long as the parser
//! accepts what it has read, the depth counted here is the number of arrays
//! and objects it is inside. Where the parser would stop at an error, the pass
//! goes on counting, so the measure can only be too high, never too low.

use vstd::prelude::*;
use vstd::std_specs::iter::IteratorSpec;

verus! {

/// The deepest nesting that is handed to the parser.
pub const MAX_NESTING: usize = 128;

/// What the character just read belongs to.
#[derive(Debug, Clone, Copy)]
pub enum Lexing {
    /// Outside any comment or string.
    Plain,
    /// Right behind a slash that may open a comment.
    Slash,
    /// In a comment that runs to the end of the line.
    LineComment,
    /// In a comment that runs to the next `*/`.
    BlockComment,
    /// In such a comment, right behind a star.
    BlockCommentStar,
    /// In a string that `delimiter` opened and will close.
    Quoted { delimiter: char },
    /// In such a string, right behind a backslash.
    Escaped { delimiter: char },
}

/// The state of the pass: where it is, how many brackets are open, and the
/// most that were ever open at once.
pub struct Scan {
    pub lexing: Lexing,
    pub depth: nat,
    pub deepest: nat,
}

/// The characters that end a line, and with it a line comment.
pub open spec fn is_line_end(c: char) -> bool {
    c == '\u{000A}' || c == '\u{000D}' || c == '\u{2028}' || c == '\u{2029}'
}

/// Reading `c` outside comments and strings: brackets open and close, a quote
/// opens a string, a slash may open a comment. A closing bracket with nothing
/// open leaves the depth at zero.
pub open spec fn advance_plain(depth: nat, c: char) -> (Lexing, nat) {
    if c == '[' || c == '{' {
        (Lexing::Plain, depth + 1)
    } else if c == ']' || c == '}' {
        (Lexing::Plain, if depth > 0 { (depth - 1) as nat } else { 0 })
    } else if c == '"' || c == '\'' {
        (Lexing::Quoted { delimiter: c }, depth)
    } else if c == '/' {
        (Lexing::Slash, depth)
    } else {
        (Lexing::Plain, depth)
    }
}

/// Reading `c` in any place. Only a character outside comments and strings
/// changes the depth.
pub open spec fn advance(lexing: Lexing, depth: nat, c: char) -> (Lexing, nat) {
    match lexing {
        Lexing::Plain => advance_plain(depth, c),
        Lexing::Slash => if c == '/' {
            (Lexing::LineComment, depth)
        } else if c == '*' {
            (Lexing::BlockComment, depth)
        } else {
            advance_plain(depth, c)
        },
        Lexing::LineComment => if is_line_end(c) {
            (Lexing::Plain, depth)
        } else {
            (Lexing::LineComment, depth)
        },
        Lexing::BlockComment => if c == '*' {
            (Lexing::BlockCommentStar, depth)
        } else {
            (Lexing::BlockComment, depth)
        },
        Lexing::BlockCommentStar => if c == '/' {
            (Lexing::Plain, depth)
        } else if c == '*' {
            (Lexing::BlockCommentStar, depth)
        } else {
            (Lexing::BlockComment, depth)
        },
        Lexing::Quoted { delimiter } => if c == '\\' {
            (Lexing::Escaped { delimiter }, depth)
        } else if c == delimiter {
            (Lexing::Plain, depth)
        } else {
            (Lexing::Quoted { delimiter }, depth)
        },
        Lexing::Escaped { delimiter } => (Lexing::Quoted { delimiter }, depth),
    }
}

/// The state after one more character.
pub open spec fn step(scan: Scan, c: char) -> Scan {
    let (lexing, depth) = advance(scan.lexing, scan.depth, c);
    Scan { lexing, depth, deepest: if depth > scan.deepest { depth } else { scan.deepest } }
}

/// The state after all of `text`, read from `scan` on.
pub open spec fn scan_from(scan: Scan, text: Seq<char>) -> Scan
    decreases text.len(),
{
    if text.len() == 0 {
        scan
    } else {
        scan_from(step(scan, text[0]), text.drop_first())
    }
}

/// The state before anything is read.
pub open spec fn start() -> Scan {
    Scan { lexing: Lexing::Plain, depth: 0, deepest: 0 }
}

/// The most brackets that are open at once anywhere in `text`.
pub open spec fn nesting(text: Seq<char>) -> nat {
    scan_from(start(), text).deepest
}

/// Reading on never lowers the deepest level seen.
pub proof fn lemma_deepest_only_grows(scan: Scan, text: Seq<char>)
    ensures
        scan_from(scan, text).deepest >= scan.deepest,
    decreases text.len(),
{
    if text.len() > 0 {
        lemma_deepest_only_grows(step(scan, text[0]), text.drop_first());
    }
}

/// The nesting of a text is no less than that of any beginning of it.
pub proof fn lemma_nesting_of_a_beginning(beginning: Seq<char>, rest: Seq<char>)
    ensures
        nesting(beginning) <= nesting(beginning + rest),
{
    lemma_scan_in_two(start(), beginning, rest);
    lemma_deepest_only_grows(scan_from(start(), beginning), rest);
}

/// Reading a text is reading its beginning and then the rest.
pub proof fn lemma_scan_in_two(scan: Scan, beginning: Seq<char>, rest: Seq<char>)
    ensures
        scan_from(scan, beginning + rest) == scan_from(scan_from(scan, beginning), rest),
    decreases beginning.len(),
{
    if beginning.len() == 0 {
        assert(beginning + rest =~= rest);
    } else {
        assert((beginning + rest).drop_first() =~= beginning.drop_first() + rest);
        lemma_scan_in_two(step(scan, beginning[0]), beginning.drop_first(), rest);
    }
}

fn is_line_end_char(c: char) -> (yes: bool)
    ensures
        yes == is_line_end(c),
{
    c == '\u{000A}' || c == '\u{000D}' || c == '\u{2028}' || c == '\u{2029}'
}

fn advance_plain_by(depth: usize, c: char) -> (next: (Lexing, usize))
    requires
        depth <= MAX_NESTING,
    ensures
        (next.0, next.1 as nat) == advance_plain(depth as nat, c),
{
    if c == '[' || c == '{' {
        (Lexing::Plain, depth + 1)
    } else if c == ']' || c == '}' {
        (Lexing::Plain, if depth > 0 { depth - 1 } else { 0 })
    } else if c == '"' || c == '\'' {
        (Lexing::Quoted { delimiter: c }, depth)
    } else if c == '/' {
        (Lexing::Slash, depth)
    } else {
        (Lexing::Plain, depth)
    }
}

fn advance_by(lexing: Lexing, depth: usize, c: char) -> (next: (Lexing, usize))
    requires
        depth <= MAX_NESTING,
    ensures
        (next.0, next.1 as nat) == advance(lexing, depth as nat, c),
{
    match lexing {
        Lexing::Plain => advance_plain_by(depth, c),
        Lexing::Slash => if c == '/' {
            (Lexing::LineComment, depth)
        } else if c == '*' {
            (Lexing::BlockComment, depth)
        } else {
            advance_plain_by(depth, c)
        },
        Lexing::LineComment => if is_line_end_char(c) {
            (Lexing::Plain, depth)
        } else {
            (Lexing::LineComment, depth)
        },
        Lexing::BlockComment => if c == '*' {
            (Lexing::BlockCommentStar, depth)
        } else {
            (Lexing::BlockComment, depth)
        },
        Lexing::BlockCommentStar => if c == '/' {
            (Lexing::Plain, depth)
        } else if c == '*' {
            (Lexing::BlockCommentStar, depth)
        } else {
            (Lexing::BlockComment, depth)
        },
        Lexing::Quoted { delimiter } => if c == '\\' {
            (Lexing::Escaped { delimiter }, depth)
        } else if c == delimiter {
            (Lexing::Plain, depth)
        } else {
            (Lexing::Quoted { delimiter }, depth)
        },
        Lexing::Escaped { delimiter } => (Lexing::Quoted { delimiter }, depth),
    }
}

/// Tells whether `text` is nested no deeper than [`MAX_NESTING`].
///
/// Reads the text once, front to back, and stops at the first bracket that
/// goes beyond the limit.
pub fn within_nesting_limit(text: &str) -> (within: bool)
    ensures
        within == (nesting(text@) <= MAX_NESTING),
{
    broadcast use vstd::string::group_string_axioms;

    let mut rest = text.chars();
    let mut lexing = Lexing::Plain;
    let mut depth: usize = 0;
    let ghost mut scan = start();
    loop
        invariant
            rest.decrease() is Some,
            depth <= MAX_NESTING,
            scan.lexing == lexing,
            scan.depth == depth,
            scan.deepest <= MAX_NESTING,
            scan_from(start(), text@) == scan_from(scan, rest.remaining()),
        decreases rest.decrease()->0,
    {
        match rest.next() {
            Some(c) => {
                let next = advance_by(lexing, depth, c);
                proof {
                    scan = step(scan, c);
                }
                if next.1 > MAX_NESTING {
                    proof {
                        lemma_deepest_only_grows(scan, rest.remaining());
                    }
                    return false;
                }
                lexing = next.0;
                depth = next.1;
            },
            None => {
                return true;
            },
        }
    }
}

} // verus!
