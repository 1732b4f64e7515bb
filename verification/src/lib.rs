//! An adapter that presents a locally installed command-line assistant as a
//! streaming completion provider.
//!
//! The library holds the decisions of that adapter: the credential state, the
//! command line handed to the child process, the prompt written to it, and the
//! decoding of its output into completion events. Spawning the process and
//! moving bytes is left to the caller.

pub mod auth;
pub mod decode;
pub mod event;
pub mod invocation;
pub mod json;
pub mod keyed;
pub mod provider;
pub mod request;
pub mod settings;
pub mod stream;
pub mod toml_text;
