//! Agent processes that bridge a line-oriented command protocol on standard
//! input/output to a note store's local HTTP API.
//!
//! The library holds the verified core: the command dispatcher, the input
//! validators, the construction of request parameters and output envelopes,
//! and the loop's shutdown decisions. The surrounding process (reading lines,
//! performing the HTTP call, printing the output line) hands values in and
//! out of these functions.

pub mod append_agent;
pub mod config;
pub mod get_agent;
pub mod json;
pub mod laws;
pub mod outside;
pub mod protocol;
pub mod request;
pub mod text;
pub mod validate;
