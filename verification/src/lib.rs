//! Detection of a binary buffer's file format from magic numbers.
//!
//! A fixed, ordered rule table pairs byte signatures (anchored at the start
//! or at the end of the buffer, optionally at an offset) with file types.
//! `detect_filetype` scans the table in order and returns the file type of
//! the first rule whose signatures all match, or `None` when no rule does.

pub mod detect;
pub mod filetype;
pub mod pattern;
pub mod table;

pub use detect::detect_filetype;
pub use filetype::FileType;
