//! What the outside world sees of the proxy.
pub mod authorization;
pub mod http;
