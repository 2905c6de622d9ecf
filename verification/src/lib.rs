//! A client library for Bitcoin Core's JSON-RPC interface: configuration
//! resolution, JSON-RPC request framing, response interpretation, wallet
//! error handling and the text that the commands print.

pub mod cli;
pub mod commands;
pub mod config;
pub mod endpoint;
pub mod error;
pub mod json;
pub mod rpc;
pub mod text;
