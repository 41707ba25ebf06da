//! Local control plane of a desktop inference host: a supervisor for named
//! tool-provider services and a gateway that routes OpenAI-style requests
//! to locally running model sessions.
//!
//! Everything in this crate is decision logic on plain values. Whatever
//! waits, spawns or touches the network lives with the caller, which feeds
//! events in and carries actions out.

pub mod backoff;
pub mod text;
pub mod hosts;
pub mod json;
pub mod http;
pub mod cors;
pub mod sessions;
pub mod gateway;
pub mod registry;
pub mod supervisor;
pub mod config;
pub mod server;
