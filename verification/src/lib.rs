//! Resolution and provisioning of the language-server binaries an editor launches for Elixir.
//!
//! The library decides; a host performs. Every question a resolution has to put to the outside
//! world (settings, the search path, the file system, the release index) is handed out as a
//! [`protocol::Request`], and the host's answer comes back as a [`protocol::Event`]. What lies
//! between the two is verified.
//!
//! - [`identity`] says what tells one tool from another, and names its assets, directories
//!   and files; [`platform`] names operating systems and architectures.
//! - [`release`] selects the asset of a release; [`store`] tells outdated installed copies
//!   from the one in use and finds a copy to fall back on; [`digest`] names a download by its
//!   content.
//! - [`model`] is the resolution as a state machine over plain values, [`resolver`] the
//!   resolver that runs it, and [`laws`] what holds of every resolution.
//! - [`language_servers`] are the tools that are provisioned, each with its identity, its
//!   resolver and its [`labels`].
//! - [`failure`] says why a resolution failed, in words that name the tool.

pub mod digest;
pub mod failure;
pub mod identity;
pub mod labels;
pub mod language_servers;
pub mod laws;
pub mod model;
pub mod platform;
pub mod protocol;
pub mod release;
pub mod resolver;
pub mod store;
pub mod text;
