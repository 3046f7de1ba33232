//! Guarded backup, restore and delete of one file under a root directory.
//!
//! The library holds the rules: which filenames are safe, what each
//! operation does given what the filesystem reports, and the text of the
//! notices and audit records. Reading, writing and prompting happen around it.

pub mod audit;
pub mod command;
pub mod error;
pub mod laws;
pub mod ops;
pub mod path;
pub mod text;
