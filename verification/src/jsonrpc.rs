//! JSON-RPC requests, from the first bytes to the recorded response.
pub mod builder;
pub mod builder_laws;
pub mod laws;
pub mod request;
pub mod request_laws;
pub mod response;
pub mod setup;
pub mod validated;
