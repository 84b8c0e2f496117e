//! Locating, loading and saving the settings file of the Zed editor.
//!
//! The file lives at a fixed place below the user's home directory and is
//! written in a lenient JSON dialect (comments, trailing commas, bare keys).
//! This library holds every decision of the two operations on it: where the
//! file is, which texts are handed to the parser and how loaded text becomes
//! a structured value, in which order a save touches the file system, and
//! which error each failure turns into. The file system itself is driven by
//! the caller, who reports each outcome back.

pub mod error;
pub mod guarantees;
pub mod location;
pub mod nesting;
pub mod parse;
pub mod reader;
pub mod writer;
