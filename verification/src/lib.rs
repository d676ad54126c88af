//! A client library for hastebin-compatible paste servers: resolving a key or
//! document URL to a server origin and key, planning the fetch and create
//! requests, and interpreting what the server answered.

pub mod cli;
pub mod decode;
pub mod error;
pub mod get;
pub mod post;
pub mod request;
pub mod resolver;
pub mod text;
pub mod wire;
