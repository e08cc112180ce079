//! Decision logic of an inline authentication gateway.
//!
//! Every inbound request is suspended while an external auth service is asked
//! whether it may pass. This crate holds the rules of that exchange: which
//! requests bypass the check, how the auth call is built, how the auth
//! service's answer is classified, and which terminal response follows.
//! The host transport itself stays outside: the library takes plain values
//! in and hands plain values back.
//!
//! - [`proxy`]: the life of one request, from its headers to its outcome.
//! - [`responses`]: the classification of the auth service's answer.
//! - [`http_client`]: the auth service's endpoint and the outbound headers.
//! - [`headers`]: the header policy.
//! - [`config`]: the configuration and its check.
//! - [`metrics`]: counters of what the gateway did.
//! - [`text`]: the string primitives that the rules are stated over.

pub mod config;
pub mod headers;
pub mod http_client;
pub mod metrics;
pub mod proxy;
pub mod responses;
pub mod text;

pub use proxy::{AuthProxy, AuthProxyRoot};
