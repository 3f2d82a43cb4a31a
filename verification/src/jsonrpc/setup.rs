//! How a request is made ready.
//!
//! Making a request ready takes answers from other parts of the proxy: whether the sender is
//! premium, and how the response may be cached. A [`RequestSetup`] says which answer it
//! waits for, and goes one step further with each one.
use crate::app::App;
use crate::block::{BlockHeader, CacheMode};
use crate::decimal::Decimal;
use crate::errors::{Web3ProxyError, Web3ProxyResult};
use crate::frontend::authorization::{Authorization, KafkaDebugLogger, ProxyMode};
use crate::jsonrpc::request::{LooseId, RequestOrMethod, SingleRequest};
use crate::jsonrpc::response::{ResponseView, ValidatedResponse};
use crate::jsonrpc::validated::{RequestView, ValidatedRequest};
use crate::stats::AppStat;
use crate::time::{Clock, Duration, Moment};
use std::sync::Arc;
use vstd::prelude::*;

verus! {

/// How many seconds a request waits for a server that can take it.
pub const CONNECT_TIMEOUT_SECS: u64 = 10;

/// How many seconds a premium request waits for a response.
pub const PREMIUM_EXPIRE_TIMEOUT_SECS: u64 = 295;

/// How many seconds any other request waits for a response.
pub const EXPIRE_TIMEOUT_SECS: u64 = 60;

/// The answer that a setup waits for.
#[derive(Clone, Copy, Debug)]
pub enum SetupStage {
    /// Whether the sender is premium at the start of the request.
    StartPremium,
    /// That the request, as the sender wrote it, is in the debug trail.
    DebugLog { started_active_premium: bool },
    /// How the response may be cached, and the parameters with their block numbers filled in.
    CacheMode { started_active_premium: bool },
    /// Whether the sender is premium when the time to wait for a response is set.
    ExpirePremium { started_active_premium: bool, cache_mode: CacheMode },
}

/// An answer to a setup.
#[derive(Debug)]
pub enum SetupAnswer {
    /// Whether the sender is premium.
    ActivePremium(bool),
    /// The request is in the debug trail.
    RequestLogged,
    /// How the response may be cached, and the parameters with their block numbers filled in.
    CacheMode(Web3ProxyResult<(serde_json::Value, CacheMode)>),
}

/// A request that is being made ready.
pub struct RequestSetup {
    pub authorization: Arc<Authorization>,
    pub chain_id: u64,
    pub clock: Clock,
    pub head_block: Option<BlockHeader>,
    pub kafka_debug_logger: Option<KafkaDebugLogger>,
    pub max_wait: Option<Duration>,
    pub permit: Option<tokio::sync::OwnedSemaphorePermit>,
    pub request: RequestOrMethod,
    pub request_id: Option<String>,
    pub start_instant: Moment,
    pub stat_sender: Option<tokio::sync::mpsc::UnboundedSender<AppStat>>,
    pub usd_per_cu: Decimal,
    /// The answer that the setup waits for.
    pub stage: SetupStage,
}

/// What an answer leads to.
pub enum SetupStep {
    /// The setup waits for another answer.
    Pending(RequestSetup),
    /// The request is ready, or cannot be made ready.
    Done(Web3ProxyResult<ValidatedRequest>),
}

/// The contents of a [`SetupStep`].
#[verifier::ext_equal]
pub enum StepView {
    Pending(RequestSetup),
    Done(Web3ProxyResult<RequestView>),
}

impl View for SetupStep {
    type V = StepView;

    open spec fn view(&self) -> StepView {
        match self {
            SetupStep::Pending(setup) => StepView::Pending(*setup),
            SetupStep::Done(Ok(request)) => StepView::Done(Ok(request@)),
            SetupStep::Done(Err(error)) => StepView::Done(Err(*error)),
        }
    }
}

impl RequestSetup {
    /// `answer` is the kind of answer that the setup waits for.
    pub open spec fn takes(self, answer: SetupAnswer) -> bool {
        match self.stage {
            SetupStage::StartPremium => answer is ActivePremium,
            SetupStage::DebugLog { .. } => answer is RequestLogged,
            SetupStage::CacheMode { .. } => answer is CacheMode,
            SetupStage::ExpirePremium { .. } => answer is ActivePremium,
        }
    }

    /// The response can be cached at all: there is a head block to go by, and the whole
    /// request is known.
    pub open spec fn is_cacheable(self) -> bool {
        self.head_block is Some && self.request is Request
    }

    /// The request, ready, when it may wait for `wait`.
    pub open spec fn ready(
        self,
        started_active_premium: bool,
        cache_mode: CacheMode,
        wait: Duration,
    ) -> RequestView {
        RequestView {
            authorization: *self.authorization,
            cache_mode,
            chain_id: self.chain_id,
            head_block: self.head_block,
            usd_per_cu: self.usd_per_cu,
            response: ResponseView::blank(),
            inner: self.request,
            started_active_premium,
            clock: self.clock,
            start_instant: self.start_instant,
            kafka_debug_logger: self.kafka_debug_logger,
            stat_sender: self.stat_sender,
            connect_timeout: Duration::secs(CONNECT_TIMEOUT_SECS),
            expire_timeout: wait.longer(Duration::secs(CONNECT_TIMEOUT_SECS)),
            permit: self.permit,
            request_id: self.request_id,
        }
    }

    /// How long a request waits for a response if nothing else was asked for.
    pub open spec fn usual_wait(active_premium: bool) -> Duration {
        if active_premium {
            Duration::secs(PREMIUM_EXPIRE_TIMEOUT_SECS)
        } else {
            Duration::secs(EXPIRE_TIMEOUT_SECS)
        }
    }

    /// What follows once it is known how the response may be cached.
    pub open spec fn with_cache_mode(
        self,
        started_active_premium: bool,
        cache_mode: CacheMode,
    ) -> StepView {
        match self.max_wait {
            Some(wait) => StepView::Done(
                Ok(self.ready(started_active_premium, cache_mode, wait)),
            ),
            None => StepView::Pending(
                RequestSetup {
                    stage: SetupStage::ExpirePremium { started_active_premium, cache_mode },
                    ..self
                },
            ),
        }
    }

    /// What follows once the debug trail holds what it is to hold of the request.
    pub open spec fn once_logged(self, started_active_premium: bool) -> StepView {
        if self.is_cacheable() {
            StepView::Pending(
                RequestSetup { stage: SetupStage::CacheMode { started_active_premium }, ..self },
            )
        } else {
            self.with_cache_mode(started_active_premium, CacheMode::Never)
        }
    }

    /// What an answer leads to. One that the setup does not wait for leads nowhere.
    pub open spec fn next(self, answer: SetupAnswer) -> StepView {
        match (self.stage, answer) {
            (SetupStage::StartPremium, SetupAnswer::ActivePremium(active)) => {
                if self.kafka_debug_logger is Some {
                    StepView::Pending(
                        RequestSetup {
                            stage: SetupStage::DebugLog { started_active_premium: active },
                            ..self
                        },
                    )
                } else {
                    self.once_logged(active)
                }
            },
            (
                SetupStage::DebugLog { started_active_premium },
                SetupAnswer::RequestLogged,
            ) => self.once_logged(started_active_premium),
            (
                SetupStage::CacheMode { started_active_premium },
                SetupAnswer::CacheMode(Ok(found)),
            ) => RequestSetup { request: self.request.with_params(found.0), ..self }
                .with_cache_mode(started_active_premium, found.1),
            (
                SetupStage::CacheMode { .. },
                SetupAnswer::CacheMode(Err(error)),
            ) => StepView::Done(Err(error)),
            (
                SetupStage::ExpirePremium { started_active_premium, cache_mode },
                SetupAnswer::ActivePremium(active),
            ) => StepView::Done(
                Ok(
                    self.ready(
                        started_active_premium,
                        cache_mode,
                        RequestSetup::usual_wait(active),
                    ),
                ),
            ),
            _ => StepView::Pending(self),
        }
    }

    /// The setup of a request that was received at `start_instant`.
    pub fn begin(
        app: Option<&App>,
        authorization: Arc<Authorization>,
        chain_id: u64,
        head_block: Option<BlockHeader>,
        kafka_debug_logger: Option<KafkaDebugLogger>,
        max_wait: Option<Duration>,
        permit: Option<tokio::sync::OwnedSemaphorePermit>,
        request: RequestOrMethod,
        usd_per_cu: Decimal,
        request_id: Option<String>,
        clock: Clock,
        start_instant: Moment,
    ) -> (setup: RequestSetup)
        ensures
            setup == (RequestSetup {
                authorization,
                chain_id,
                clock,
                head_block,
                kafka_debug_logger,
                max_wait,
                permit,
                request,
                request_id,
                start_instant,
                stat_sender: App::stat_sender_of(app),
                usd_per_cu,
                stage: SetupStage::StartPremium,
            }),
    {
        RequestSetup {
            authorization,
            chain_id,
            clock,
            head_block,
            kafka_debug_logger,
            max_wait,
            permit,
            request,
            request_id,
            start_instant,
            stat_sender: App::clone_stat_sender(app),
            usd_per_cu,
            stage: SetupStage::StartPremium,
        }
    }

    /// Goes one step further with the answer that the setup waits for. Any other answer
    /// leaves the setup as it is.
    pub fn step(self, answer: SetupAnswer) -> (step: SetupStep)
        ensures
            step@ == self.next(answer),
    {
        match (self.stage, answer) {
            (SetupStage::StartPremium, SetupAnswer::ActivePremium(active)) => {
                if self.kafka_debug_logger.is_some() {
                    SetupStep::Pending(
                        RequestSetup {
                            stage: SetupStage::DebugLog { started_active_premium: active },
                            ..self
                        },
                    )
                } else {
                    self.continue_logged(active)
                }
            },
            (
                SetupStage::DebugLog { started_active_premium },
                SetupAnswer::RequestLogged,
            ) => self.continue_logged(started_active_premium),
            (
                SetupStage::CacheMode { started_active_premium },
                SetupAnswer::CacheMode(Ok((params, cache_mode))),
            ) => {
                let request = match self.request {
                    RequestOrMethod::Request(request) => {
                        RequestOrMethod::Request(SingleRequest { params, ..request })
                    },
                    RequestOrMethod::Method(method, size) => RequestOrMethod::Method(method, size),
                };
                let setup = RequestSetup { request, ..self };
                setup.continue_cached(started_active_premium, cache_mode)
            },
            (
                SetupStage::CacheMode { .. },
                SetupAnswer::CacheMode(Err(error)),
            ) => SetupStep::Done(Err(error)),
            (
                SetupStage::ExpirePremium { started_active_premium, cache_mode },
                SetupAnswer::ActivePremium(active),
            ) => {
                let wait = if active {
                    Duration::from_secs(PREMIUM_EXPIRE_TIMEOUT_SECS)
                } else {
                    Duration::from_secs(EXPIRE_TIMEOUT_SECS)
                };
                SetupStep::Done(Ok(self.complete(started_active_premium, cache_mode, wait)))
            },
            _ => SetupStep::Pending(self),
        }
    }

    /// Goes on once the debug trail holds what it is to hold of the request.
    fn continue_logged(self, started_active_premium: bool) -> (step: SetupStep)
        ensures
            step@ == self.once_logged(started_active_premium),
    {
        let whole = match &self.request {
            RequestOrMethod::Request(_) => true,
            RequestOrMethod::Method(_, _) => false,
        };
        if self.head_block.is_none() || !whole {
            self.continue_cached(started_active_premium, CacheMode::Never)
        } else {
            SetupStep::Pending(
                RequestSetup { stage: SetupStage::CacheMode { started_active_premium }, ..self },
            )
        }
    }

    /// Goes on once it is known how the response may be cached.
    fn continue_cached(
        self,
        started_active_premium: bool,
        cache_mode: CacheMode,
    ) -> (step: SetupStep)
        ensures
            step@ == self.with_cache_mode(started_active_premium, cache_mode),
    {
        match self.max_wait {
            Some(wait) => {
                SetupStep::Done(Ok(self.complete(started_active_premium, cache_mode, wait)))
            },
            None => SetupStep::Pending(
                RequestSetup {
                    stage: SetupStage::ExpirePremium { started_active_premium, cache_mode },
                    ..self
                },
            ),
        }
    }

    /// The request, ready, when it may wait for `wait`.
    fn complete(
        self,
        started_active_premium: bool,
        cache_mode: CacheMode,
        wait: Duration,
    ) -> (request: ValidatedRequest)
        ensures
            request@ == self.ready(started_active_premium, cache_mode, wait),
    {
        let connect_timeout = Duration::from_secs(CONNECT_TIMEOUT_SECS);
        ValidatedRequest {
            authorization: self.authorization,
            cache_mode,
            chain_id: self.chain_id,
            head_block: self.head_block,
            usd_per_cu: self.usd_per_cu,
            response: ValidatedResponse::default(),
            inner: self.request,
            started_active_premium,
            clock: self.clock,
            start_instant: self.start_instant,
            kafka_debug_logger: self.kafka_debug_logger,
            stat_sender: self.stat_sender,
            connect_timeout,
            expire_timeout: wait.max(connect_timeout),
            permit: self.permit,
            request_id: self.request_id,
        }
    }
}

/// The height of a block that may not be there.
pub open spec fn height_of(head_block: Option<BlockHeader>) -> Option<u64> {
    match head_block {
        Some(head_block) => Some(head_block.number),
        None => None,
    }
}

/// `make_logger` can be asked for a logger, if the sender's mode calls for one.
pub open spec fn logger_can_be_made<
    L: FnOnce(&App, &Authorization, Option<u64>, &str, &Option<String>) -> Option<
        KafkaDebugLogger,
    >,
>(
    make_logger: L,
    app: &App,
    authorization: &Authorization,
    head_block: Option<BlockHeader>,
    request_id: Option<String>,
) -> bool {
    authorization.checks.proxy_mode is Debug ==> call_requires(
        make_logger,
        (app, authorization, height_of(head_block), "web3_proxy:rpc", &request_id),
    )
}

/// `logger` is what `make_logger` gives for the request if the sender's mode calls for a
/// logger, and otherwise there is none.
pub open spec fn logger_was_made<
    L: FnOnce(&App, &Authorization, Option<u64>, &str, &Option<String>) -> Option<
        KafkaDebugLogger,
    >,
>(
    make_logger: L,
    app: &App,
    authorization: &Authorization,
    head_block: Option<BlockHeader>,
    request_id: Option<String>,
    logger: Option<KafkaDebugLogger>,
) -> bool {
    if authorization.checks.proxy_mode is Debug {
        call_ensures(
            make_logger,
            (app, authorization, height_of(head_block), "web3_proxy:rpc", &request_id),
            logger,
        )
    } else {
        logger is None
    }
}

impl RequestSetup {
    /// The setup of a request of the given app that was received at `start_instant`.
    pub open spec fn of_app(
        app: &App,
        authorization: Arc<Authorization>,
        kafka_debug_logger: Option<KafkaDebugLogger>,
        max_wait: Option<Duration>,
        permit: Option<tokio::sync::OwnedSemaphorePermit>,
        request: RequestOrMethod,
        head_block: Option<BlockHeader>,
        request_id: Option<String>,
        clock: Clock,
        start_instant: Moment,
    ) -> RequestSetup {
        RequestSetup {
            authorization,
            chain_id: app.config.chain_id,
            clock,
            head_block,
            kafka_debug_logger,
            max_wait,
            permit,
            request,
            request_id,
            start_instant,
            stat_sender: app.stat_sender,
            usd_per_cu: Decimal::or_zero(app.config.usd_per_cu),
            stage: SetupStage::StartPremium,
        }
    }

    /// The setup of a request without an app that was received at `start_instant`.
    pub open spec fn of_no_app(
        authorization: Arc<Authorization>,
        max_wait: Option<Duration>,
        request: RequestOrMethod,
        head_block: Option<BlockHeader>,
        clock: Clock,
        start_instant: Moment,
    ) -> RequestSetup {
        RequestSetup {
            authorization,
            chain_id: 0,
            clock,
            head_block,
            kafka_debug_logger: None,
            max_wait,
            permit: None,
            request,
            request_id: None,
            start_instant,
            stat_sender: None,
            usd_per_cu: Decimal::zero(),
            stage: SetupStage::StartPremium,
        }
    }
}

impl ValidatedRequest {
    /// Starts to make ready a request that is received at the time of the call.
    pub fn new_with_options(
        app: Option<&App>,
        authorization: Arc<Authorization>,
        chain_id: u64,
        head_block: Option<BlockHeader>,
        kafka_debug_logger: Option<KafkaDebugLogger>,
        max_wait: Option<Duration>,
        permit: Option<tokio::sync::OwnedSemaphorePermit>,
        request: RequestOrMethod,
        usd_per_cu: Decimal,
        request_id: Option<String>,
        clock: Clock,
    ) -> (setup: RequestSetup)
        ensures
            setup == (RequestSetup {
                authorization,
                chain_id,
                clock,
                head_block,
                kafka_debug_logger,
                max_wait,
                permit,
                request,
                request_id,
                start_instant: setup.start_instant,
                stat_sender: App::stat_sender_of(app),
                usd_per_cu,
                stage: SetupStage::StartPremium,
            }),
            clock.shows(setup.start_instant),
            setup.start_instant.is_shown(),
    {
        let start_instant = clock.now();
        RequestSetup::begin(
            app,
            authorization,
            chain_id,
            head_block,
            kafka_debug_logger,
            max_wait,
            permit,
            request,
            usd_per_cu,
            request_id,
            clock,
            start_instant,
        )
    }

    /// Starts to make ready a request of the given app. In debug mode `make_logger` is asked,
    /// once, for a logger for the request's debug trail.
    pub fn new_with_app<
        L: FnOnce(&App, &Authorization, Option<u64>, &str, &Option<String>) -> Option<
            KafkaDebugLogger,
        >,
    >(
        app: &App,
        authorization: Arc<Authorization>,
        max_wait: Option<Duration>,
        permit: Option<tokio::sync::OwnedSemaphorePermit>,
        request: RequestOrMethod,
        head_block: Option<BlockHeader>,
        request_id: Option<String>,
        clock: Clock,
        make_logger: L,
    ) -> (setup: RequestSetup)
        requires
            logger_can_be_made(make_logger, app, &*authorization, head_block, request_id),
        ensures
            setup == RequestSetup::of_app(
                app,
                authorization,
                setup.kafka_debug_logger,
                max_wait,
                permit,
                request,
                head_block,
                request_id,
                clock,
                setup.start_instant,
            ),
            logger_was_made(
                make_logger,
                app,
                &*authorization,
                head_block,
                request_id,
                setup.kafka_debug_logger,
            ),
            clock.shows(setup.start_instant),
            setup.start_instant.is_shown(),
    {
        let kafka_debug_logger = match authorization.checks.proxy_mode {
            ProxyMode::Debug => {
                let height: Option<u64> = match &head_block {
                    Some(head_block) => Some(head_block.number()),
                    None => None,
                };
                make_logger(app, &authorization, height, "web3_proxy:rpc", &request_id)
            },
            _ => None,
        };
        let chain_id: u64 = app.config.chain_id;
        let usd_per_cu = Decimal::unwrap_or_default(app.config.usd_per_cu);
        ValidatedRequest::new_with_options(
            Some(app),
            authorization,
            chain_id,
            head_block,
            kafka_debug_logger,
            max_wait,
            permit,
            request,
            usd_per_cu,
            request_id,
            clock,
        )
    }

    /// Starts to make ready a request that the proxy itself sends, under the authorization
    /// that it gives itself. `app` is the running app, if there is one.
    pub fn new_internal<
        L: FnOnce(&App, &Authorization, Option<u64>, &str, &Option<String>) -> Option<
            KafkaDebugLogger,
        >,
    >(
        app: Option<&App>,
        authorization: Arc<Authorization>,
        method: String,
        params: serde_json::Value,
        head_block: Option<BlockHeader>,
        max_wait: Option<Duration>,
        clock: Clock,
        make_logger: L,
    ) -> (setup: RequestSetup)
        requires
            app matches Some(app) ==> logger_can_be_made(
                make_logger,
                app,
                &*authorization,
                head_block,
                None,
            ),
        ensures
            setup.request == RequestOrMethod::Request(
                SingleRequest { id: LooseId::Number(1), method, params },
            ),
            match app {
                Some(app) => {
                    &&& setup == RequestSetup::of_app(
                        app,
                        authorization,
                        setup.kafka_debug_logger,
                        max_wait,
                        None,
                        setup.request,
                        head_block,
                        None,
                        clock,
                        setup.start_instant,
                    )
                    &&& logger_was_made(
                        make_logger,
                        app,
                        &*authorization,
                        head_block,
                        None,
                        setup.kafka_debug_logger,
                    )
                },
                None => setup == RequestSetup::of_no_app(
                    authorization,
                    max_wait,
                    setup.request,
                    head_block,
                    clock,
                    setup.start_instant,
                ),
            },
            clock.shows(setup.start_instant),
            setup.start_instant.is_shown(),
    {
        let id = LooseId::Number(1);
        let request = RequestOrMethod::Request(SingleRequest::new(id, method, params));
        match app {
            Some(app) => ValidatedRequest::new_with_app(
                app,
                authorization,
                max_wait,
                None,
                request,
                head_block,
                None,
                clock,
                make_logger,
            ),
            None => {
                let usd_per_cu = Decimal::unwrap_or_default(None);
                ValidatedRequest::new_with_options(
                    None,
                    authorization,
                    0,
                    head_block,
                    None,
                    max_wait,
                    None,
                    request,
                    usd_per_cu,
                    None,
                    clock,
                )
            },
        }
    }
}

} // verus!
