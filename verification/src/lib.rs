//! Finding and starting the rust-analyzer language server for an editor.
//!
//! The library decides; it does no input or output itself. A [`resolver::Resolver`]
//! takes the events that the outside world reports, one at a time, and
//! answers each with the next thing to do, until the host has been told to
//! start a server, shown a warning, or handed an error. The ways to a server
//! are tried in a fixed order: a server path set in the configuration, the
//! default command on the search path, and last the release for the host's
//! architecture and system, stored in the plugin's directory or fetched and
//! unpacked there.

pub mod archive;
pub mod config;
pub mod resolver;
pub mod target;
pub mod text;
pub mod trace;
pub mod uri;
