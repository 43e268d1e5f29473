//! Adapter between a vault-provider host and a cloud secrets service.
//!
//! The adapter reads a small JSON configuration (`config`, on top of `json`),
//! makes of it a client configuration that carries its own static credentials
//! and nothing else (`sdk`), scrubs the secret material it held (`scrub`), and
//! says what the host is told for each answer of the service (`service`,
//! `provider`). Sending the requests is left to the caller.

pub mod config;
pub mod error;
pub mod json;
pub mod provider;
pub mod scrub;
pub mod sdk;
pub mod service;
pub mod text;
