//! A small, verified core for a command-line client of a social-network
//! REST API: credential validation, request parameter assembly, response
//! decoding, timeline presentation, and command dispatch.
//!
//! Network transport and OAuth signing are reached only through the
//! [`client::Transport`] capability trait, so every decision this crate
//! makes is verified for every possible transport outcome.

pub mod client;
pub mod credentials;
pub mod decode;
pub mod present;
pub mod router;
pub mod text;
pub mod timeline;

pub use client::{Method, RequestError, SignedClient, Transport};
pub use router::{Command, RunReport};
pub use credentials::{ConfigError, CredentialStore, Credentials};
pub use timeline::{TimelineResult, TweetRecord};
