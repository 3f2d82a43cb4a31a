//! Who sent a request, and how the proxy is to treat it.
use vstd::prelude::*;

verus! {

/// How the proxy picks the servers that answer a request.
#[derive(Clone, Copy, Debug, PartialEq, Eq, Structural)]
pub enum ProxyMode {
    /// Ask the best server.
    Best,
    /// Ask every server and compare.
    Versus,
    /// Ask the best server and log the request and the response.
    Debug,
}

/// What was found out about the sender of a request.
#[derive(Clone, Copy, Debug, PartialEq, Eq, Structural)]
pub struct AuthorizationChecks {
    pub proxy_mode: ProxyMode,
}

/// The permission to send a request.
#[derive(Clone, Copy, Debug, PartialEq, Eq, Structural)]
pub struct Authorization {
    /// The number under which the proxy keeps the sender's limits and balance.
    pub id: u64,
    pub checks: AuthorizationChecks,
}

/// A logger that keeps the debug trail of one request.
#[derive(Clone, Copy, Debug, PartialEq, Eq, Structural)]
pub struct KafkaDebugLogger {
    /// The number under which the proxy keeps the logger.
    pub id: u64,
}

/// How many requests each origin may send in one period.
#[derive(Debug)]
pub struct AllowedOrigins {
    pub requests_per_period: Vec<(String, u64)>,
}

} // verus!
