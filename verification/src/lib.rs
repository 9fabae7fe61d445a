//! Library behind the `init` subcommand of the kaku companion CLI.
//!
//! The crate models the two delicate parts of `init` as pure, verified
//! logic: the platform-aware resolution of the real application binary and
//! of the bundled setup script (ordered candidate lists, first existing
//! entry wins), and the idempotent installation of a wrapper script
//! (escaping of untrusted paths, generated script text, symlink-safe
//! install plan). All filesystem, environment and subprocess work is left
//! to the surrounding binary, which feeds plain values in and carries the
//! returned plans and actions out.

pub mod escape;
pub mod flow;
pub mod install;
pub mod paths;
pub mod profile;
pub mod resolve;
pub mod script;
