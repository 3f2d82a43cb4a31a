//! What can go wrong while a request is prepared.
use vstd::prelude::*;

verus! {

/// Why a request could not be prepared.
#[derive(Debug)]
pub enum Web3ProxyError {
    /// A caller from outside was to be authorized before the app was known.
    AppRequiredForPublicRequests,
    /// A request was to be built before the app was known.
    AppRequired,
    /// A request was to be built before its caller was authorized.
    AuthorizationRequired,
    /// A part of the proxy that the request depends on failed; its own message.
    Other(String),
}

/// The result of a step that prepares a request.
pub type Web3ProxyResult<T> = Result<T, Web3ProxyError>;

impl Web3ProxyError {
    /// The text that tells a person what went wrong.
    pub open spec fn text(&self) -> Seq<char> {
        match self {
            Web3ProxyError::AppRequiredForPublicRequests => "app is required for public requests"@,
            Web3ProxyError::AppRequired => "app is required"@,
            Web3ProxyError::AuthorizationRequired => "authorization is required"@,
            Web3ProxyError::Other(message) => message@,
        }
    }

    /// The text that tells a person what went wrong.
    pub fn message(&self) -> (message: String)
        ensures
            message@ == self.text(),
    {
        match self {
            Web3ProxyError::AppRequiredForPublicRequests => {
                "app is required for public requests".to_owned()
            },
            Web3ProxyError::AppRequired => "app is required".to_owned(),
            Web3ProxyError::AuthorizationRequired => "authorization is required".to_owned(),
            Web3ProxyError::Other(message) => message.clone(),
        }
    }
}

} // verus!
