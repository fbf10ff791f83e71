//! Loads a directory of syntax definitions once, while a web application
//! starts, and hands the parsed set to request handlers as read-only shared
//! state.
//!
//! The crate holds the decisions of that startup: which directory is meant
//! ([`path`]), what each outcome of the file-system work leads to
//! ([`startup`]), and what a request handler may see ([`registry`]). Touching
//! the file system and talking to the web framework are left to the caller,
//! who performs each [`startup::Action`] and reports back with an
//! [`startup::Event`].
pub mod error;
pub mod path;
pub mod registry;
pub mod startup;
pub mod guarantees;
