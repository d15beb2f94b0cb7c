//! A client library for the Wolfram|Alpha query API: it builds the query
//! parameters of a request, decodes the JSON answer into a typed document,
//! renders that document as text, and drives a one-shot or interactive
//! session. Everything that touches the network or the terminal is left to
//! the caller, who performs the actions that the session hands out.

pub mod command;
pub mod document;
pub mod error;
pub mod format;
pub mod json;
pub mod params;
pub mod session;
pub mod text;
