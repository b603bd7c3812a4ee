//! Verified core of the workspace bootstrap task.
//!
//! The task stages an ephemeral workspace, fetches a pinned release of the
//! native library sources, drives that project's own build, vendors the
//! generated headers into the binding crate and stamps the vendored tree with
//! the revision it came from. Everything that decides *what* is done lives
//! here, as pure functions with proved contracts; running processes and
//! touching the file system is left to the caller.

pub mod command;
pub mod laws;
pub mod layout;
pub mod paths;
pub mod pin;
pub mod plan;
pub mod stamp;
pub mod text;
