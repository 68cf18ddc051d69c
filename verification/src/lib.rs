//! A shell-prompt fragment for the repository that encloses a directory:
//! the current branch, tag or short commit hash, or the operation that is
//! under way, followed by a marker when the working tree has pending changes.

pub mod formatter;
pub mod hexfmt;
pub mod refname;
pub mod repository;
pub mod resolve;
pub mod status;
