//! Finding and starting the CSS variables language server.
//!
//! The server can come from several places: a path that the user configured,
//! a development build, the cache of downloaded releases, the newest release,
//! the search path, or a package of the alternate channel. This crate decides
//! which one is used, and how it is started. It never touches the disk, the
//! network or a process itself: whoever uses it does what the crate asks for
//! and reports what came of it.
//!
//! - `semver`, `order`, `canonical`: reading versions and ordering them.
//! - `token`, `probe`: asking a binary for its version.
//! - `cache`, `search`: the cached releases and the binaries inside them.
//! - `release`, `release_tier`: the newest release and its download.
//! - `dev_build`: development builds.
//! - `channel`: the alternate channel.
//! - `resolver`: the order of the sources.
//! - `command`, `launch`, `config`: what is handed to the editor.
//! - `text`: working on strings character by character.

pub mod cache;
pub mod canonical;
pub mod channel;
pub mod command;
pub mod config;
pub mod dev_build;
pub mod launch;
pub mod order;
pub mod probe;
pub mod release;
pub mod release_tier;
pub mod resolver;
pub mod search;
pub mod semver;
pub mod text;
pub mod token;
