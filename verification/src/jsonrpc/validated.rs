//! A request that the proxy works on, from its start to its stat.
use crate::block::{BlockHeader, CacheMode};
use crate::call::call_with_one;
use crate::decimal::Decimal;
use crate::errors::{Web3ProxyError, Web3ProxyResult};
use crate::frontend::authorization::{
    Authorization, AuthorizationChecks, KafkaDebugLogger, ProxyMode,
};
use crate::jsonrpc::request::{LooseId, RequestOrMethod};
use crate::jsonrpc::response::{
    ResponseLog, ResponseOrBytes, ResponseView, ValidatedResponse, Web3Rpc,
};
use crate::stats::{AppStat, StatDelivery};
use crate::time::{utc_now, Clock, Duration, Moment};
use std::sync::Arc;
use vstd::prelude::*;

verus! {

/// A permit of a Tokio semaphore, with nothing inside that can be read.
#[verifier::external_type_specification]
#[verifier::external_body]
pub struct ExOwnedSemaphorePermit(tokio::sync::OwnedSemaphorePermit);

/// A request that the proxy works on.
pub struct ValidatedRequest {
    pub authorization: Arc<Authorization>,
    pub cache_mode: CacheMode,
    /// The chain that the request is about.
    pub chain_id: u64,
    /// The head block when the request was received.
    pub head_block: Option<BlockHeader>,
    /// The price of one compute unit in US dollars.
    pub usd_per_cu: Decimal,
    pub response: ValidatedResponse,
    pub inner: RequestOrMethod,
    /// If the sender's key was premium at the start of the request.
    pub started_active_premium: bool,
    /// The clock that the request's times are read from.
    pub clock: Clock,
    /// When the request was received, or at least close to it.
    pub start_instant: Moment,
    /// Keeps the debug trail of the request.
    pub kafka_debug_logger: Option<KafkaDebugLogger>,
    /// Where the stat of the request goes.
    pub stat_sender: Option<tokio::sync::mpsc::UnboundedSender<AppStat>>,
    /// How long to wait for a server that can take the request.
    pub connect_timeout: Duration,
    /// How long to wait for a server to respond to the request.
    pub expire_timeout: Duration,
    /// Limits the number of requests that one sender has running.
    pub permit: Option<tokio::sync::OwnedSemaphorePermit>,
    /// The identifier under which the request is traced.
    pub request_id: Option<String>,
}

/// The contents of a [`ValidatedRequest`].
#[verifier::ext_equal]
pub struct RequestView {
    pub authorization: Authorization,
    pub cache_mode: CacheMode,
    pub chain_id: u64,
    pub head_block: Option<BlockHeader>,
    pub usd_per_cu: Decimal,
    pub response: ResponseView,
    pub inner: RequestOrMethod,
    pub started_active_premium: bool,
    pub clock: Clock,
    pub start_instant: Moment,
    pub kafka_debug_logger: Option<KafkaDebugLogger>,
    pub stat_sender: Option<tokio::sync::mpsc::UnboundedSender<AppStat>>,
    pub connect_timeout: Duration,
    pub expire_timeout: Duration,
    pub permit: Option<tokio::sync::OwnedSemaphorePermit>,
    pub request_id: Option<String>,
}

impl View for ValidatedRequest {
    type V = RequestView;

    open spec fn view(&self) -> RequestView {
        RequestView {
            authorization: *self.authorization,
            cache_mode: self.cache_mode,
            chain_id: self.chain_id,
            head_block: self.head_block,
            usd_per_cu: self.usd_per_cu,
            response: self.response@,
            inner: self.inner,
            started_active_premium: self.started_active_premium,
            clock: self.clock,
            start_instant: self.start_instant,
            kafka_debug_logger: self.kafka_debug_logger,
            stat_sender: self.stat_sender,
            connect_timeout: self.connect_timeout,
            expire_timeout: self.expire_timeout,
            permit: self.permit,
            request_id: self.request_id,
        }
    }
}

impl RequestView {
    /// Nothing is known of the request, and it has nowhere to send a stat.
    pub open spec fn is_blank(self) -> bool {
        &&& self.authorization == Authorization {
            id: 0,
            checks: AuthorizationChecks { proxy_mode: ProxyMode::Best },
        }
        &&& self.cache_mode is Never
        &&& self.chain_id == 0
        &&& self.head_block is None
        &&& self.usd_per_cu == Decimal::zero()
        &&& self.response == ResponseView::blank()
        &&& self.inner.is_unset()
        &&& !self.started_active_premium
        &&& self.kafka_debug_logger is None
        &&& self.stat_sender is None
        &&& self.connect_timeout == Duration::secs(0)
        &&& self.expire_timeout == Duration::secs(0)
        &&& self.permit is None
        &&& self.request_id is None
    }

    /// The request when `num_bytes` of response were passed on at `now`, which is `timestamp`
    /// as a Unix timestamp. The timestamp is that of the first response.
    pub open spec fn responded(self, num_bytes: u64, now: Moment, timestamp: i64) -> RequestView {
        RequestView {
            response: ResponseView {
                response_bytes: num_bytes,
                response_millis: now.since(self.start_instant).millis() as u64,
                has_response: true,
                response_timestamp: if self.response.has_response {
                    self.response.response_timestamp
                } else {
                    timestamp
                },
                ..self.response
            },
            ..self
        }
    }

    /// The request when handling it failed inside the proxy.
    pub open spec fn failed(self) -> RequestView {
        RequestView {
            response: ResponseView {
                error_response: true,
                user_error_response: false,
                ..self.response
            },
            ..self
        }
    }

    /// The highest block that a server needs to answer the request.
    pub open spec fn max_block(self) -> Option<u64> {
        match self.cache_mode.last_block() {
            Some(block) => Some(block),
            None => match self.head_block {
                Some(head_block) => Some(head_block.number),
                None => None,
            },
        }
    }

    /// The lowest block that a server needs to answer the request.
    pub open spec fn min_block(self) -> Option<u64> {
        match self.cache_mode.first_block() {
            Some(block) => Some(block),
            None => if self.response.archive_request {
                Some(0)
            } else {
                None
            },
        }
    }

    /// No server that can take the request was found in time, as seen at `now`.
    pub open spec fn connect_timed_out(self, now: Moment) -> bool {
        self.start_instant.nanos + self.connect_timeout.nanos <= now.nanos
    }

    /// No server responded to the request in time, as seen at `now`.
    pub open spec fn expires(self, now: Moment) -> bool {
        self.start_instant.nanos + self.expire_timeout.nanos <= now.nanos
    }
}

impl Default for ValidatedRequest {
    /// A request of which nothing is known, started at the time of the call.
    fn default() -> (blank: ValidatedRequest)
        ensures
            blank@.is_blank(),
            blank.clock.is_started(),
            blank.clock.shows(blank.start_instant),
            blank.start_instant.is_shown(),
    {
        let clock = Clock::start();
        let start_instant = clock.now();
        ValidatedRequest {
            authorization: Arc::new(
                Authorization {
                    id: 0,
                    checks: AuthorizationChecks { proxy_mode: ProxyMode::Best },
                },
            ),
            cache_mode: CacheMode::Never,
            chain_id: 0,
            head_block: None,
            usd_per_cu: Decimal::unwrap_or_default(None),
            response: ValidatedResponse::default(),
            inner: RequestOrMethod::default(),
            started_active_premium: false,
            clock,
            start_instant,
            kafka_debug_logger: None,
            stat_sender: None,
            connect_timeout: Duration::from_secs(0),
            expire_timeout: Duration::from_secs(0),
            permit: None,
            request_id: None,
        }
    }
}

impl ValidatedRequest {
    /// The servers that were asked, in the order in which they were asked.
    pub fn backend_rpcs_used(&self) -> (used: Vec<Arc<Web3Rpc>>)
        ensures
            used@ == self@.response.backend_rpcs,
    {
        self.response.backend_rpcs_used()
    }

    /// The key under which the response is cached, `None` where it must not be cached.
    /// `hash` computes the key of a request that is cached in a given mode; it is asked at
    /// most once.
    pub fn cache_key<F: FnOnce(&CacheMode, &RequestOrMethod) -> u64>(
        &self,
        hash: F,
    ) -> (key: Option<u64>)
        requires
            !(self.cache_mode is Never) ==> call_requires(hash, (&self.cache_mode, &self.inner)),
        ensures
            match key {
                None => self.cache_mode is Never,
                Some(key) => {
                    &&& !(self.cache_mode is Never)
                    &&& call_ensures(hash, (&self.cache_mode, &self.inner), key)
                },
            },
    {
        match &self.cache_mode {
            CacheMode::Never => None,
            mode => {
                let key: u64 = hash(mode, &self.inner);
                Some(key)
            },
        }
    }

    /// Whether a JSON-RPC error is cached too.
    pub fn cache_jsonrpc_errors(&self) -> (cached: bool)
        ensures
            cached == (self.cache_mode matches CacheMode::Cached { cache_errors: true, .. }),
    {
        self.cache_mode.cache_jsonrpc_errors()
    }

    /// The identifier that the sender gave to the request.
    pub fn id(&self) -> (id: LooseId)
        ensures
            id == (match self.inner {
                RequestOrMethod::Request(request) => request.id,
                RequestOrMethod::Method(_, _) => LooseId::Missing,
            }),
    {
        self.inner.id()
    }

    /// The highest block that a server needs to answer the request: the last one that the
    /// request asks about, or the head block.
    pub fn max_block_needed(&self) -> (block: Option<u64>)
        ensures
            block == self@.max_block(),
    {
        if let Some(to_block) = self.cache_mode.to_block() {
            Some(to_block.num())
        } else {
            match &self.head_block {
                Some(head_block) => Some(head_block.number()),
                None => None,
            }
        }
    }

    /// The lowest block that a server needs to answer the request: the first one that the
    /// request asks about, or block zero for an archive request.
    pub fn min_block_needed(&self) -> (block: Option<u64>)
        ensures
            block == self@.min_block(),
    {
        match self.cache_mode.from_block() {
            Some(from_block) => Some(from_block.num()),
            None => {
                if self.response.archive_request {
                    Some(0)
                } else {
                    None
                }
            },
        }
    }

    /// When to stop waiting for a server that can take the request.
    pub fn connect_timeout_at(&self) -> (at: Moment)
        requires
            self.start_instant.reaches(self.connect_timeout),
        ensures
            at.nanos == self.start_instant.nanos + self.connect_timeout.nanos,
    {
        self.start_instant.after(self.connect_timeout)
    }

    /// Whether, as seen at `now`, no server that can take the request was found in time.
    pub fn connect_timeout_by(&self, now: Moment) -> (timed_out: bool)
        requires
            self.start_instant.reaches(self.connect_timeout),
        ensures
            timed_out == self@.connect_timed_out(now),
    {
        self.connect_timeout_at().nanos <= now.nanos
    }

    /// Whether, at the time of the call, no server that can take the request was found in
    /// time.
    pub fn connect_timeout(&self) -> (timed_out: bool)
        requires
            self.start_instant.reaches(self.connect_timeout),
        ensures
            exists|now: Moment|
                self.clock.shows(now) && now.is_shown() && timed_out == #[trigger] self@.connect_timed_out(now),
    {
        let now = self.clock.now();
        self.connect_timeout_by(now)
    }

    /// When to stop waiting for a server to respond.
    pub fn expire_at(&self) -> (at: Moment)
        requires
            self.start_instant.reaches(self.expire_timeout),
        ensures
            at.nanos == self.start_instant.nanos + self.expire_timeout.nanos,
    {
        self.start_instant.after(self.expire_timeout)
    }

    /// Whether, as seen at `now`, no server responded in time.
    pub fn expired_by(&self, now: Moment) -> (expired: bool)
        requires
            self.start_instant.reaches(self.expire_timeout),
        ensures
            expired == self@.expires(now),
    {
        self.expire_at().nanos <= now.nanos
    }

    /// Whether, at the time of the call, no server responded in time.
    pub fn expired(&self) -> (expired: bool)
        requires
            self.start_instant.reaches(self.expire_timeout),
        ensures
            exists|now: Moment|
                self.clock.shows(now) && now.is_shown() && expired == #[trigger] self@.expires(now),
    {
        let now = self.clock.now();
        self.expired_by(now)
    }

    /// How the proxy picks the servers that answer the request.
    pub fn proxy_mode(&self) -> (mode: ProxyMode)
        ensures
            mode == self@.authorization.checks.proxy_mode,
    {
        self.authorization.checks.proxy_mode
    }

    /// The method and the parameters of the request, as `method(params)`.
    pub fn describe(&self) -> (text: String)
        ensures
            text@ == self.inner.method_name() + "("@ + self.inner.params_json() + ")"@,
    {
        let params = self.inner.params_text();
        self.inner.method().to_owned().concat("(").concat(params.as_str()).concat(")")
    }

    /// Records that handling the request failed inside the proxy, and an empty response.
    /// Returns what the debug trail is to hold of the response.
    pub fn set_error_response(&mut self, _err: &Web3ProxyError) -> (log: ResponseLog)
        ensures
            log == ResponseLog::Nothing,
            exists|now: Moment, timestamp: i64|
                old(self).clock.shows(now) && now.is_shown() && crate::time::utc_shows(timestamp)
                    && final(self)@ == #[trigger] old(self)@.failed().responded(
                    0,
                    now,
                    timestamp,
                ),
    {
        self.response.error_response = true;
        self.response.user_error_response = false;
        self.set_response(&ResponseOrBytes::Bytes(0))
    }

    /// Records a response of which `num_bytes` were passed on at `now`, which is `timestamp`
    /// as a Unix timestamp. The timestamp is kept of the first response only.
    pub fn record_response(&mut self, num_bytes: u64, now: Moment, timestamp: i64)
        ensures
            final(self)@ == old(self)@.responded(num_bytes, now, timestamp),
    {
        let elapsed = now.saturating_duration_since(self.start_instant);
        self.response.response_bytes = num_bytes;
        self.response.response_millis = elapsed.as_millis_u64();
        if !self.response.has_response {
            self.response.has_response = true;
            self.response.response_timestamp = timestamp;
        }
    }

    /// Records a response that is passed on at the time of the call. Returns what the debug
    /// trail is to hold of it.
    pub fn set_response(&mut self, response: &ResponseOrBytes) -> (log: ResponseLog)
        ensures
            log == ResponseLog::wanted(old(self).kafka_debug_logger, *response),
            exists|now: Moment, timestamp: i64|
                old(self).clock.shows(now) && now.is_shown() && crate::time::utc_shows(timestamp)
                    && final(self)@ == #[trigger] old(self)@.responded(
                    response.size(),
                    now,
                    timestamp,
                ),
    {
        let num_bytes: u64 = response.num_bytes();
        let now = self.clock.now();
        let timestamp: i64 = utc_now();
        self.record_response(num_bytes, now, timestamp);
        ResponseLog::of(self.kafka_debug_logger, response)
    }

    /// The stat of the request and where it goes, `None` where it goes nowhere.
    pub fn into_stat(self) -> (pending: Option<
        (tokio::sync::mpsc::UnboundedSender<AppStat>, AppStat),
    >)
        ensures
            pending == self.pending_stat(),
    {
        let mut request = self;
        match request.stat_sender.take() {
            Some(sender) => Some((sender, AppStat::from(request))),
            None => None,
        }
    }

    /// Gives the stat of the request to `send`, with the channel that it goes to, and says what
    /// became of it. `send` can be called once only, and nothing is known of it but that it
    /// takes this stat for this channel: it is called exactly once if the request has somewhere
    /// to send its stat, and otherwise not at all.
    pub fn deliver_stat_through<
        S: FnOnce(tokio::sync::mpsc::UnboundedSender<AppStat>, AppStat) -> StatDelivery,
    >(self, send: S) -> (delivery: StatDelivery)
        requires
            self.stat_sender matches Some(sender) ==> call_requires(send, (sender, self.stat())),
        ensures
            match self.stat_sender {
                None => delivery is NoSender,
                Some(sender) => call_ensures(send, (sender, self.stat()), delivery),
            },
    {
        match self.into_stat() {
            None => StatDelivery::NoSender,
            Some((sender, stat)) => send(sender, stat),
        }
    }

    /// Sends the stat of the request, if it has somewhere to send it. A stat that cannot be
    /// sent is given up: it is better to undercharge than to fail.
    pub fn try_send_stat(self) -> (sent: Web3ProxyResult<()>)
        ensures
            sent == Ok::<(), Web3ProxyError>(()),
            self.stat_handed_over(),
    {
        let _ = self.deliver_stat();
        Ok(())
    }

    /// Sends the stat of a request that is about to go away, if it has somewhere to send it,
    /// and leaves a request of which nothing is known. Says what became of the stat.
    pub fn finish(&mut self) -> (delivery: StatDelivery)
        ensures
            old(self).finishes(delivery, *final(self)),
    {
        if self.stat_sender.is_some() {
            let mut taken = ValidatedRequest::default();
            std::mem::swap(self, &mut taken);
            taken.deliver_stat()
        } else {
            StatDelivery::NoSender
        }
    }

    /// Sends the stat of a request that was shared until now. `unshared` is the request, or
    /// `None` where somebody still holds it. Says what became of the stat.
    pub fn deliver_unshared_stat(
        unshared: Option<ValidatedRequest>,
    ) -> (delivery: Option<StatDelivery>)
        ensures
            ValidatedRequest::unshared_stat_delivered(unshared, delivery),
    {
        match unshared {
            Some(request) => Some(request.deliver_stat()),
            None => None,
        }
    }

    /// Sends the stat of a shared request, if nobody else holds it any more. Says what became
    /// of the stat, `None` where somebody else holds the request.
    pub fn deliver_arc_stat(self: Arc<Self>) -> (delivery: Option<StatDelivery>)
        ensures
            exists|unshared: Option<ValidatedRequest>|
                #[trigger] self.was_taken_out(unshared)
                    && ValidatedRequest::unshared_stat_delivered(unshared, delivery),
            delivery matches Some(delivery) ==> self.stat_delivered(delivery),
    {
        let unshared = call_with_one(arc_into_inner, self);
        assert(self.was_taken_out(unshared));
        ValidatedRequest::deliver_unshared_stat(unshared)
    }

    /// Sends the stat of a shared request, if nobody else holds it any more and it has
    /// somewhere to send it.
    pub fn try_send_arc_stat(self: Arc<Self>) -> (sent: Web3ProxyResult<()>)
        ensures
            sent == Ok::<(), Web3ProxyError>(()),
            exists|unshared: Option<ValidatedRequest>|
                #[trigger] self.was_taken_out(unshared) && (unshared is Some
                    ==> self.stat_handed_over()),
    {
        let _ = self.deliver_arc_stat();
        Ok(())
    }

    /// What is shown of the request in logs, as seen at `now`.
    pub fn record_at(&self, now: Moment) -> (record: RequestRecord)
        ensures
            record.shows(self@, now),
    {
        let head_block = self.head_block.clone();
        let request = self.inner.clone();
        RequestRecord {
            chain_id: self.chain_id,
            head_block,
            request,
            elapsed: now.saturating_duration_since(self.start_instant),
            archive_request: self.response.archive_request,
            backend_requests: self.response.backend_names(),
            response_bytes: self.response.response_bytes,
        }
    }

    /// What is shown of the request in logs at the time of the call.
    pub fn record(&self) -> (record: RequestRecord)
        ensures
            exists|now: Moment|
                self.clock.shows(now) && now.is_shown() && #[trigger] record.shows(self@, now),
    {
        let now = self.clock.now();
        self.record_at(now)
    }
}

/// What is shown of a request in logs.
#[derive(Debug)]
pub struct RequestRecord {
    pub chain_id: u64,
    pub head_block: Option<BlockHeader>,
    pub request: RequestOrMethod,
    /// The time since the request was received.
    pub elapsed: Duration,
    pub archive_request: bool,
    /// The names of the servers that were asked, in the order in which they were asked.
    pub backend_requests: Vec<String>,
    pub response_bytes: u64,
}

impl RequestRecord {
    /// The record shows `request` as it is at `now`.
    pub open spec fn shows(&self, request: RequestView, now: Moment) -> bool {
        &&& self.chain_id == request.chain_id
        &&& self.head_block == request.head_block
        &&& self.request == request.inner
        &&& self.elapsed == now.since(request.start_instant)
        &&& self.archive_request == request.response.archive_request
        &&& self.backend_requests@.len() == request.response.backend_rpcs.len()
        &&& forall|i: int|
            0 <= i < self.backend_requests@.len() ==> (#[trigger] self.backend_requests@[i])
                == request.response.backend_rpcs[i].name
        &&& self.response_bytes == request.response.response_bytes
    }
}

/// Calls `std::sync::Arc::into_inner`: the value, if the handle is the last one. Whether it
/// is depends on who else holds one.
#[verifier::external_body]
fn arc_into_inner(shared: Arc<ValidatedRequest>) -> (inner: Option<ValidatedRequest>)
    ensures
        inner matches Some(request) ==> request == *shared,
{
    Arc::into_inner(shared)
}

/// What was taken out of a handle is what `Arc::into_inner` gave for that handle: the request
/// that it holds, or nothing.
proof fn law_request_is_taken_out_of_its_handle(
    shared: Arc<ValidatedRequest>,
    unshared: Option<ValidatedRequest>,
)
    requires
        shared.was_taken_out(unshared),
    ensures
        call_ensures(arc_into_inner, (shared,), unshared),
        unshared matches Some(request) ==> request == *shared,
{
}

impl From<ValidatedRequest> for AppStat {
    fn from(request: ValidatedRequest) -> (stat: AppStat) {
        AppStat {
            authorization: request.authorization,
            cache_mode: request.cache_mode,
            chain_id: request.chain_id,
            head_block: request.head_block,
            usd_per_cu: request.usd_per_cu,
            response: request.response,
            request: request.inner,
            started_active_premium: request.started_active_premium,
            start_instant: request.start_instant,
            request_id: request.request_id,
        }
    }
}

impl vstd::std_specs::convert::FromSpecImpl<ValidatedRequest> for AppStat {
    open spec fn obeys_from_spec() -> bool {
        true
    }

    open spec fn from_spec(request: ValidatedRequest) -> AppStat {
        request.stat()
    }
}

impl ValidatedRequest {
    /// What is kept of the request.
    pub open spec fn stat(self) -> AppStat {
        AppStat {
            authorization: self.authorization,
            cache_mode: self.cache_mode,
            chain_id: self.chain_id,
            head_block: self.head_block,
            usd_per_cu: self.usd_per_cu,
            response: self.response,
            request: self.inner,
            started_active_premium: self.started_active_premium,
            start_instant: self.start_instant,
            request_id: self.request_id,
        }
    }

    /// The stat of the request and where it goes, `None` where it goes nowhere.
    pub open spec fn pending_stat(self) -> Option<
        (tokio::sync::mpsc::UnboundedSender<AppStat>, AppStat),
    > {
        match self.stat_sender {
            Some(sender) => Some((sender, self.stat())),
            None => None,
        }
    }

    /// The stat of the request, if there is somewhere to send it, was handed to that channel.
    pub open spec fn stat_handed_over(self) -> bool {
        self.pending_stat() matches Some(pending) ==> exists|sent: Result<(), AppStat>|
            #[trigger] crate::stats::was_handed_over(pending.0, pending.1, sent)
    }

    /// `delivery` is what became of the stat of the request: without somewhere to send it,
    /// nothing; otherwise it was handed to that channel, and `delivery` is how the channel
    /// took it.
    pub open spec fn stat_delivered(self, delivery: StatDelivery) -> bool {
        &&& delivery is NoSender <==> self.pending_stat() is None
        &&& self.pending_stat() matches Some(pending) ==> exists|sent: Result<(), AppStat>|
            #[trigger] crate::stats::was_handed_over(pending.0, pending.1, sent) && delivery
                == StatDelivery::of(sent)
        &&& delivery matches StatDelivery::Unsent(stat) ==> stat == self.stat()
    }

    /// The request went away, `delivery` is what became of its stat, and `after` is left.
    pub open spec fn finishes(self, delivery: StatDelivery, after: ValidatedRequest) -> bool {
        &&& self.stat_delivered(delivery)
        &&& after.pending_stat() is None
        &&& delivery is NoSender ==> after == self
        &&& !(delivery is NoSender) ==> after@.is_blank()
    }

    /// `unshared` is what taking the request out of its last handle gave.
    pub closed spec fn was_taken_out(self: Arc<Self>, unshared: Option<ValidatedRequest>) -> bool {
        call_ensures(arc_into_inner, (self,), unshared)
    }

    /// `delivery` is what became of the stat of a request that was shared until now.
    pub open spec fn unshared_stat_delivered(
        unshared: Option<ValidatedRequest>,
        delivery: Option<StatDelivery>,
    ) -> bool {
        &&& delivery is Some <==> unshared is Some
        &&& delivery matches Some(delivery) ==> unshared->0.stat_delivered(delivery)
    }
}

} // verus!
