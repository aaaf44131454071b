//! Library behind a command-line client for a smart-contract chain: it
//! models transaction-query responses, decodes event attributes that may
//! be base64-encoded, resolves contract addresses against a name
//! registry, and renders a compact textual summary of the events.

pub mod decode;
pub mod errors;
pub mod handler;
pub mod jsonval;
pub mod model;
pub mod parse;
pub mod registry;
pub mod summarize;
