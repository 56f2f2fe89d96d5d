//! Dated scratch-draft directories: where a draft lives, which template seeds
//! it, and which entries a listing shows.
//!
//! Paths are text with `/` between segments.  The library decides and
//! computes; touching the terminal and the file system is left to the caller.

pub mod command;
pub mod date;
pub mod decimal;
pub mod listing;
pub mod option;
pub mod path;
pub mod request;
pub mod template;
pub mod text;
