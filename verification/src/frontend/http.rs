//! The pages that the proxy shows.
use vstd::prelude::*;

verus! {

/// What the status page shows of the proxy.
#[derive(Debug)]
pub struct Web3ProxyApp {
    /// The servers that requests are spread over, as JSON text.
    pub balanced_rpcs: String,
    /// The servers that private transactions go to, as JSON text.
    pub private_rpcs: String,
    /// The requests that are being worked on.
    pub active_requests: Vec<String>,
}

/// The status page.
#[derive(Debug)]
pub struct StatusPage {
    /// The HTTP status code.
    pub status_code: u16,
    /// The servers that requests are spread over, as JSON text.
    pub balanced_rpcs: String,
    /// The servers that private transactions go to, as JSON text.
    pub private_rpcs: String,
    /// How many requests are being worked on.
    pub num_active_requests: usize,
}

/// The status page is served as an internal server error.
pub const STATUS_PAGE_CODE: u16 = 500;

/// A page for configuring your wallet with all the rpcs.
pub fn index() -> (page: &'static str)
    ensures
        page@ == "Hello, World!"@,
{
    "Hello, World!"
}

/// Very basic status page.
pub fn status(app: &Web3ProxyApp) -> (page: StatusPage)
    ensures
        page.status_code == 500,
        page.balanced_rpcs == app.balanced_rpcs,
        page.private_rpcs == app.private_rpcs,
        page.num_active_requests == app.active_requests@.len(),
{
    StatusPage {
        status_code: STATUS_PAGE_CODE,
        balanced_rpcs: app.balanced_rpcs.clone(),
        private_rpcs: app.private_rpcs.clone(),
        num_active_requests: app.active_requests.len(),
    }
}

} // verus!
