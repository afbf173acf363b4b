//! Slack realtime messaging client: https://api.slack.com/bot-users
//!
//! The library holds what the client computes: the requests it sends to the
//! Web API, the reading of the JSON documents that Slack answers with, the
//! messages it writes on the realtime socket and the decisions of its receive
//! loop. Sockets and HTTP are left to the program that drives it.
pub mod api;
pub mod client;
pub mod error;
pub mod json;
pub mod run;
pub mod string_map;
pub mod text;

pub use crate::error::Error;
