//! Silence, clear and list maintenance silences on a Sensu monitoring server.
//!
//! The crate holds the decisions of the tool: how an expiration is read, how
//! resources are resolved against the server's answers, which requests a
//! command expands to and in which order, and how silences are filtered and
//! shown. Network traffic is left to the caller, who sends the requests that
//! the crate hands out and feeds the answers back in.

pub mod batch;
pub mod client;
pub mod command;
pub mod config;
pub mod directory;
pub mod endpoint;
pub mod err;
pub mod expire;
pub mod json;
pub mod opts;
pub mod pattern;
pub mod payload;
pub mod resolve;
pub mod resource;
pub mod resources;
pub mod silences;
pub mod text;
