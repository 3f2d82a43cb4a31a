//! What is recorded of the response to a request.
use crate::frontend::authorization::KafkaDebugLogger;
use std::sync::Arc;
use vstd::prelude::*;

verus! {

/// A server that the proxy forwards requests to.
#[derive(Debug)]
pub struct Web3Rpc {
    pub name: String,
    /// Whether the server is asked only when no other can answer.
    pub backup: bool,
}

/// A response, by how it arrived and its size in bytes.
#[derive(Clone, Copy, Debug, PartialEq, Eq, Structural)]
pub enum SingleResponse {
    /// The response was read whole.
    Parsed { num_bytes: u64 },
    /// The response is passed on while it arrives.
    Stream { num_bytes: u64 },
}

/// A response, or only its size in bytes.
#[derive(Clone, Copy, Debug, PartialEq, Eq, Structural)]
pub enum ResponseOrBytes {
    Response(SingleResponse),
    Bytes(u64),
}

impl ResponseOrBytes {
    /// The size of the JSON response in bytes.
    pub open spec fn size(&self) -> u64 {
        match self {
            ResponseOrBytes::Response(SingleResponse::Parsed { num_bytes }) => *num_bytes,
            ResponseOrBytes::Response(SingleResponse::Stream { num_bytes }) => *num_bytes,
            ResponseOrBytes::Bytes(num_bytes) => *num_bytes,
        }
    }

    /// The size of the JSON response in bytes.
    pub fn num_bytes(&self) -> (num_bytes: u64)
        ensures
            num_bytes == self.size(),
    {
        match self {
            ResponseOrBytes::Response(SingleResponse::Parsed { num_bytes }) => *num_bytes,
            ResponseOrBytes::Response(SingleResponse::Stream { num_bytes }) => *num_bytes,
            ResponseOrBytes::Bytes(num_bytes) => *num_bytes,
        }
    }
}

/// What the debug trail is to hold of a response.
#[derive(Clone, Copy, Debug, PartialEq, Eq, Structural)]
pub enum ResponseLog {
    /// Nothing.
    Nothing,
    /// The response, in the trail of this logger.
    Log(KafkaDebugLogger),
    /// A warning that a response that is passed on while it arrives is not logged.
    WarnStreaming,
}

impl ResponseLog {
    /// What the trail of `logger` is to hold of `response`.
    pub open spec fn wanted(
        logger: Option<KafkaDebugLogger>,
        response: ResponseOrBytes,
    ) -> ResponseLog {
        match (logger, response) {
            (Some(logger), ResponseOrBytes::Response(SingleResponse::Parsed { .. })) => {
                ResponseLog::Log(logger)
            },
            (Some(_), ResponseOrBytes::Response(SingleResponse::Stream { .. })) => {
                ResponseLog::WarnStreaming
            },
            _ => ResponseLog::Nothing,
        }
    }

    /// What the trail of `logger` is to hold of `response`.
    pub fn of(logger: Option<KafkaDebugLogger>, response: &ResponseOrBytes) -> (log: ResponseLog)
        ensures
            log == ResponseLog::wanted(logger, *response),
    {
        match logger {
            None => ResponseLog::Nothing,
            Some(logger) => match response {
                ResponseOrBytes::Response(SingleResponse::Parsed { .. }) => ResponseLog::Log(logger),
                ResponseOrBytes::Response(SingleResponse::Stream { .. }) => {
                    ResponseLog::WarnStreaming
                },
                ResponseOrBytes::Bytes(_) => ResponseLog::Nothing,
            },
        }
    }
}

/// What is recorded of the response to a request.
#[derive(Debug)]
pub struct ValidatedResponse {
    /// Whether the request needs blocks that only archive servers keep.
    pub archive_request: bool,
    /// The servers that were asked, in the order in which they were asked. Empty on a cache hit.
    pub backend_rpcs: Vec<Arc<Web3Rpc>>,
    /// How often the request waited because no server was synced.
    pub no_servers: u64,
    /// Whether handling the request failed inside the proxy.
    pub error_response: bool,
    /// The size of the JSON response in bytes.
    pub response_bytes: u64,
    /// How many milliseconds it took to respond.
    pub response_millis: u64,
    /// Whether a response was recorded.
    pub has_response: bool,
    /// When the first response was passed on, as a Unix timestamp; zero before that.
    pub response_timestamp: i64,
    /// Whether the request was invalid or was answered with a JSON-RPC error.
    pub user_error_response: bool,
}

/// The contents of a [`ValidatedResponse`].
#[verifier::ext_equal]
pub struct ResponseView {
    pub archive_request: bool,
    pub backend_rpcs: Seq<Arc<Web3Rpc>>,
    pub no_servers: u64,
    pub error_response: bool,
    pub response_bytes: u64,
    pub response_millis: u64,
    pub has_response: bool,
    pub response_timestamp: i64,
    pub user_error_response: bool,
}

impl ResponseView {
    /// Nothing was recorded yet.
    pub open spec fn blank() -> ResponseView {
        ResponseView {
            archive_request: false,
            backend_rpcs: Seq::empty(),
            no_servers: 0,
            error_response: false,
            response_bytes: 0,
            response_millis: 0,
            has_response: false,
            response_timestamp: 0,
            user_error_response: false,
        }
    }

    /// The server that was asked last is a backup server.
    pub open spec fn from_backup_rpc(self) -> bool {
        self.backend_rpcs.len() > 0 && self.backend_rpcs.last().backup
    }
}

impl View for ValidatedResponse {
    type V = ResponseView;

    open spec fn view(&self) -> ResponseView {
        ResponseView {
            archive_request: self.archive_request,
            backend_rpcs: self.backend_rpcs@,
            no_servers: self.no_servers,
            error_response: self.error_response,
            response_bytes: self.response_bytes,
            response_millis: self.response_millis,
            has_response: self.has_response,
            response_timestamp: self.response_timestamp,
            user_error_response: self.user_error_response,
        }
    }
}

impl Default for ValidatedResponse {
    fn default() -> (blank: ValidatedResponse)
        ensures
            blank@ == ResponseView::blank(),
    {
        ValidatedResponse {
            archive_request: false,
            backend_rpcs: Vec::new(),
            no_servers: 0,
            error_response: false,
            response_bytes: 0,
            response_millis: 0,
            has_response: false,
            response_timestamp: 0,
            user_error_response: false,
        }
    }
}

impl ValidatedResponse {
    /// True if the response required querying a backup RPC.
    /// RPC aggregators that query multiple providers to compare responses may use this to
    /// ignore the response.
    pub fn response_from_backup_rpc(&self) -> (backup: bool)
        ensures
            backup == self@.from_backup_rpc(),
    {
        let asked: usize = self.backend_rpcs.len();
        if asked == 0 {
            false
        } else {
            self.backend_rpcs[asked - 1].backup
        }
    }

    /// The servers that were asked, in the order in which they were asked.
    pub fn backend_rpcs_used(&self) -> (used: Vec<Arc<Web3Rpc>>)
        ensures
            used@ == self.backend_rpcs@,
    {
        let mut used: Vec<Arc<Web3Rpc>> = Vec::new();
        for i in 0..self.backend_rpcs.len()
            invariant
                used@ == self.backend_rpcs@.take(i as int),
        {
            used.push(self.backend_rpcs[i].clone());
        }
        used
    }

    /// The names of the servers that were asked, in the order in which they were asked.
    pub fn backend_names(&self) -> (names: Vec<String>)
        ensures
            names@.len() == self.backend_rpcs@.len(),
            forall|i: int|
                0 <= i < names@.len() ==> (#[trigger] names@[i]) == self.backend_rpcs@[i].name,
    {
        let mut names: Vec<String> = Vec::new();
        for i in 0..self.backend_rpcs.len()
            invariant
                names@.len() == i,
                forall|j: int|
                    0 <= j < i ==> (#[trigger] names@[j]) == self.backend_rpcs@[j].name,
        {
            names.push(self.backend_rpcs[i].name.clone());
        }
        names
    }
}

} // verus!
