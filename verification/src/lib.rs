//! The verified core of a proxy for Ethereum JSON-RPC servers: what a request needs before it
//! is sent on, how long it may take, what is recorded of its response, and what is kept of it
//! when it is done.
pub mod app;
pub mod block;
mod call;
pub mod decimal;
pub mod errors;
pub mod frontend;
pub mod jsonrpc;
pub mod migration;
pub mod referee;
pub mod stats;
pub mod time;
