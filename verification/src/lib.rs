//! A webhook-activated deployment trigger.
//!
//! A signed release notification comes in as raw bytes with its headers. The
//! library authenticates it, decodes it, decides whether it calls for a
//! deployment, and maps every way the request can end to the response that
//! is sent back. Running the deployment script is left to the caller: the
//! library says which command to run and interprets what came of it.

pub mod config;
pub mod deploy;
pub mod endpoint;
pub mod filter;
pub mod hex;
pub mod payload;
pub mod settings;
pub mod signature;
pub mod text;
