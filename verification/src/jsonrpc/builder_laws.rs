//! What holds of a request while it is put together and started.
use crate::app::App;
use crate::block::BlockHeader;
use crate::decimal::Decimal;
use crate::errors::{Web3ProxyError, Web3ProxyResult};
use crate::frontend::authorization::{
    AllowedOrigins, Authorization, KafkaDebugLogger, ProxyMode,
};
use crate::jsonrpc::builder::{BuildPlan, RequestBuilder};
use crate::jsonrpc::request::{LooseId, RequestOrMethod, SingleRequest};
use crate::jsonrpc::setup::RequestSetup;
use crate::jsonrpc::validated::ValidatedRequest;
use crate::time::{Clock, Duration};
use std::sync::Arc;
use vstd::prelude::*;

verus! {

/// Each thing that is said of a request is taken as it was said, and nothing else changes.
pub proof fn law_builder_takes_what_is_said(
    builder: RequestBuilder,
    archive_request: bool,
    archiving: RequestBuilder,
    request: SingleRequest,
    requesting: Web3ProxyResult<RequestBuilder>,
    method: String,
    size: usize,
    naming: RequestBuilder,
)
    requires
        call_ensures(
            RequestBuilder::set_archive_request,
            (builder, archive_request),
            archiving,
        ),
        call_ensures(RequestBuilder::set_request, (builder, request), requesting),
        call_ensures(RequestBuilder::set_method, (builder, method, size), naming),
    ensures
        archiving == (RequestBuilder { archive_request, ..builder }),
        requesting matches Ok(set) && set == (RequestBuilder {
            request_or_method: RequestOrMethod::Request(request),
            ..builder
        }),
        naming == (RequestBuilder {
            request_or_method: RequestOrMethod::Method(method, size),
            ..builder
        }),
{
}

/// A new builder knows its app and the head block and nothing else.
pub proof fn law_new_builder(
    app: Arc<App>,
    now: RequestBuilder,
    head_block: Option<BlockHeader>,
    then: RequestBuilder,
)
    requires
        call_ensures(RequestBuilder::new, (app,), now),
        call_ensures(RequestBuilder::new_at, (app, head_block), then),
    ensures
        app.announced(now.head_block),
        then.head_block == head_block,
        now.app == Some(app) && then.app == Some(app),
        now.authorization is None && then.authorization is None,
        !now.archive_request && !then.archive_request,
        now.request_or_method matches RequestOrMethod::Method(method, size) && method@.len() == 0
            && size == 0,
{
}

/// An authorization that was granted is the one that the request is sent under, and nothing else
/// of the builder changes: not the app, the head block or the request, nor whether it is an
/// archive request. A refusal is passed on. Senders from outside are authorized only with an
/// app.
pub proof fn law_authorization_is_taken_as_granted(
    builder: RequestBuilder,
    granted: Web3ProxyResult<Authorization>,
    internal: Web3ProxyResult<RequestBuilder>,
    premium: Web3ProxyResult<RequestBuilder>,
    head_block: Option<BlockHeader>,
    public: Web3ProxyResult<RequestBuilder>,
)
    requires
        call_ensures(RequestBuilder::authorize_internal, (builder, granted), internal),
        call_ensures(RequestBuilder::authorize_premium, (builder, granted), premium),
        call_ensures(
            RequestBuilder::authorize_public_at,
            (builder, granted, head_block),
            public,
        ),
    ensures
        is_authorized(builder, granted, internal),
        match builder.app {
            Some(_) => {
                &&& is_authorized(builder, granted, premium)
                &&& is_authorized((RequestBuilder { head_block, ..builder }), granted, public)
            },
            None => {
                &&& premium matches Err(Web3ProxyError::AppRequiredForPublicRequests)
                &&& public matches Err(Web3ProxyError::AppRequiredForPublicRequests)
            },
        },
{
}

/// A sender without a key is checked against the limits of the app with everything that is known
/// of the sender. What the check grants is what the request is sent under, with the head block
/// that the app was told last; what it refuses is refused for that reason.
pub proof fn law_public_sender_is_checked<
    I,
    O,
    U,
    R,
    F: FnOnce(&AllowedOrigins, &I, Option<&O>, ProxyMode, Option<&R>, Option<&U>) -> Web3ProxyResult<Authorization>,
>(
    builder: RequestBuilder,
    ip: &I,
    origin: Option<&O>,
    user_agent: Option<&U>,
    proxy_mode: ProxyMode,
    referer: Option<&R>,
    external: F,
    app: Arc<App>,
    authorized: Web3ProxyResult<RequestBuilder>,
)
    requires
        builder.app == Some(app),
        call_ensures(
            RequestBuilder::authorize_public::<I, O, U, R, F>,
            (builder, ip, origin, user_agent, proxy_mode, referer, external),
            authorized,
        ),
    ensures
        exists|granted: Web3ProxyResult<Authorization>| #[trigger]
            call_ensures(
                external,
                (
                    &app.config.allowed_origin_requests_per_period,
                    ip,
                    origin,
                    proxy_mode,
                    referer,
                    user_agent,
                ),
                granted,
            ) && match (granted, authorized) {
                (Ok(authorization), Ok(built)) => {
                    &&& built.authorization matches Some(taken) && *taken == authorization
                    &&& app.announced(built.head_block)
                    &&& built.app == builder.app
                    &&& built.archive_request == builder.archive_request
                    &&& built.request_or_method == builder.request_or_method
                },
                (Err(error), Err(passed_on)) => passed_on == error,
                _ => false,
            },
{
    let granted: Web3ProxyResult<Authorization> = match authorized {
        Ok(built) => Ok(*built.authorization->0),
        Err(error) => Err(error),
    };
    assert(call_ensures(
        external,
        (
            &app.config.allowed_origin_requests_per_period,
            ip,
            origin,
            proxy_mode,
            referer,
            user_agent,
        ),
        granted,
    ));
}

/// `authorized` is `builder` with the authorization that was granted, or the refusal.
pub open spec fn is_authorized(
    builder: RequestBuilder,
    granted: Web3ProxyResult<Authorization>,
    authorized: Web3ProxyResult<RequestBuilder>,
) -> bool {
    match (granted, authorized) {
        (Ok(authorization), Ok(built)) => {
            &&& built.authorization matches Some(taken) && *taken == authorization
            &&& built.app == builder.app
            &&& built.archive_request == builder.archive_request
            &&& built.head_block == builder.head_block
            &&& built.request_or_method == builder.request_or_method
        },
        (Err(error), Err(passed_on)) => passed_on == error,
        _ => false,
    }
}

/// A request can be built exactly if its app and its sender's authorization are known. A missing
/// app is told first. What is built is what the builder holds.
pub proof fn law_build_needs_app_and_authorization(
    builder: RequestBuilder,
    max_wait: Option<Duration>,
    plan: Web3ProxyResult<BuildPlan>,
)
    requires
        call_ensures(RequestBuilder::build, (&builder, max_wait), plan),
    ensures
        match plan {
            Ok(plan) => {
                &&& builder.app == Some(plan.app)
                &&& builder.authorization == Some(plan.authorization)
                &&& plan.max_wait == max_wait
                &&& plan.request == builder.request_or_method
                &&& plan.head_block == builder.head_block
            },
            Err(Web3ProxyError::AppRequired) => builder.app is None,
            Err(Web3ProxyError::AuthorizationRequired) => {
                builder.app is Some && builder.authorization is None
            },
            Err(_) => false,
        },
{
}

/// A request that was built is an archive request if the builder says so, and otherwise what it
/// was. Nothing else of it changes, and an error is passed on.
pub proof fn law_archive_mark_is_set(
    builder: RequestBuilder,
    built: Web3ProxyResult<ValidatedRequest>,
    finished: Web3ProxyResult<ValidatedRequest>,
)
    requires
        call_ensures(RequestBuilder::finish_build, (&builder, built), finished),
    ensures
        match (built, finished) {
            (Ok(ready), Ok(request)) => {
                &&& builder.archive_request ==> request@.response.archive_request
                &&& !builder.archive_request ==> request@ == ready@
                &&& request@.inner == ready@.inner
                &&& request@.cache_mode == ready@.cache_mode
                &&& request@.authorization == ready@.authorization
                &&& request@.head_block == ready@.head_block
                &&& request@.chain_id == ready@.chain_id
                &&& request@.usd_per_cu == ready@.usd_per_cu
                &&& request@.stat_sender == ready@.stat_sender
                &&& request@.permit == ready@.permit
                &&& request@.clock == ready@.clock
                &&& request@.start_instant == ready@.start_instant
                &&& request@.connect_timeout == ready@.connect_timeout
                &&& request@.expire_timeout == ready@.expire_timeout
                &&& request@.kafka_debug_logger == ready@.kafka_debug_logger
                &&& request@.request_id == ready@.request_id
                &&& request@.started_active_premium == ready@.started_active_premium
                &&& request@.response.backend_rpcs == ready@.response.backend_rpcs
                &&& request@.response.response_bytes == ready@.response.response_bytes
            },
            (Err(error), Err(passed_on)) => passed_on == error,
            _ => false,
        },
{
}

/// A debug trail is kept exactly in debug mode: only then is a logger asked for, with the app,
/// the sender, the height of the head block, the topic and the trace of the request.
pub proof fn law_only_debug_mode_is_logged<
    L: FnOnce(&App, &Authorization, Option<u64>, &str, &Option<String>) -> Option<
        KafkaDebugLogger,
    >,
>(
    make_logger: L,
    app: &App,
    authorization: &Authorization,
    head_block: Option<BlockHeader>,
    request_id: Option<String>,
    logger: Option<KafkaDebugLogger>,
)
    ensures
        authorization.checks.proxy_mode != ProxyMode::Debug ==> crate::jsonrpc::setup::logger_can_be_made(
            make_logger,
            app,
            authorization,
            head_block,
            request_id,
        ),
        crate::jsonrpc::setup::logger_was_made(make_logger, app, authorization, head_block, request_id, logger) ==> {
            &&& authorization.checks.proxy_mode != ProxyMode::Debug ==> logger is None
            &&& authorization.checks.proxy_mode == ProxyMode::Debug ==> call_ensures(
                make_logger,
                (
                    app,
                    authorization,
                    match head_block {
                        Some(head) => Some(head.number),
                        None => None,
                    },
                    "web3_proxy:rpc",
                    &request_id,
                ),
                logger,
            )
        },
{
}

/// A setup begins with what it was given, with the channel for stats of the app, and with the
/// first question.
pub proof fn law_setup_begins_with_what_was_given(
    app: Option<&App>,
    authorization: Arc<Authorization>,
    chain_id: u64,
    head_block: Option<BlockHeader>,
    logger: Option<KafkaDebugLogger>,
    max_wait: Option<Duration>,
    permit: Option<tokio::sync::OwnedSemaphorePermit>,
    request: RequestOrMethod,
    usd_per_cu: Decimal,
    request_id: Option<String>,
    clock: Clock,
    setup: RequestSetup,
)
    requires
        call_ensures(
            ValidatedRequest::new_with_options,
            (
                app,
                authorization,
                chain_id,
                head_block,
                logger,
                max_wait,
                permit,
                request,
                usd_per_cu,
                request_id,
                clock,
            ),
            setup,
        ),
    ensures
        setup.authorization == authorization,
        setup.chain_id == chain_id,
        setup.head_block == head_block,
        setup.kafka_debug_logger == logger,
        setup.max_wait == max_wait,
        setup.permit == permit,
        setup.request == request,
        setup.usd_per_cu == usd_per_cu,
        setup.request_id == request_id,
        setup.clock == clock,
        clock.shows(setup.start_instant),
        app matches Some(app) ==> setup.stat_sender == app.stat_sender,
        app is None ==> setup.stat_sender is None,
        setup.stage is StartPremium,
{
}

/// A request of an app is about the app's chain, at the app's price or for nothing, and its stat
/// goes where the app says; it is logged only in debug mode.
pub proof fn law_request_of_an_app<
    L: FnOnce(&App, &Authorization, Option<u64>, &str, &Option<String>) -> Option<
        KafkaDebugLogger,
    >,
>(
    app: &App,
    authorization: Arc<Authorization>,
    max_wait: Option<Duration>,
    permit: Option<tokio::sync::OwnedSemaphorePermit>,
    request: RequestOrMethod,
    head_block: Option<BlockHeader>,
    request_id: Option<String>,
    clock: Clock,
    make_logger: L,
    setup: RequestSetup,
)
    requires
        call_ensures(
            ValidatedRequest::new_with_app::<L>,
            (
                app,
                authorization,
                max_wait,
                permit,
                request,
                head_block,
                request_id,
                clock,
                make_logger,
            ),
            setup,
        ),
    ensures
        setup.chain_id == app.config.chain_id,
        match app.config.usd_per_cu {
            Some(price) => setup.usd_per_cu == price,
            None => setup.usd_per_cu.mantissa == 0,
        },
        setup.stat_sender == app.stat_sender,
        setup.authorization == authorization,
        setup.max_wait == max_wait,
        setup.permit == permit,
        setup.request == request,
        setup.head_block == head_block,
        setup.request_id == request_id,
        setup.clock == clock,
        clock.shows(setup.start_instant),
        authorization.checks.proxy_mode != ProxyMode::Debug ==> setup.kafka_debug_logger is None,
        setup.stage is StartPremium,
{
}

/// A request that the proxy itself sends is a whole request with the number one for its
/// identifier, under the authorization that it was given, without a permit or a trace. With an
/// app it is about the app's chain; without one it costs nothing, and its stat goes nowhere.
pub proof fn law_request_of_the_proxy_itself<
    L: FnOnce(&App, &Authorization, Option<u64>, &str, &Option<String>) -> Option<
        KafkaDebugLogger,
    >,
>(
    app: Option<&App>,
    authorization: Arc<Authorization>,
    method: String,
    params: serde_json::Value,
    head_block: Option<BlockHeader>,
    max_wait: Option<Duration>,
    clock: Clock,
    make_logger: L,
    setup: RequestSetup,
)
    requires
        call_ensures(
            ValidatedRequest::new_internal::<L>,
            (app, authorization, method, params, head_block, max_wait, clock, make_logger),
            setup,
        ),
    ensures
        setup.request matches RequestOrMethod::Request(asked) && {
            &&& asked.id == LooseId::Number(1)
            &&& asked.method == method
            &&& asked.params == params
        },
        setup.authorization == authorization,
        setup.head_block == head_block,
        setup.max_wait == max_wait,
        setup.permit is None,
        setup.request_id is None,
        setup.clock == clock,
        clock.shows(setup.start_instant),
        match app {
            Some(app) => {
                &&& setup.chain_id == app.config.chain_id
                &&& setup.stat_sender == app.stat_sender
            },
            None => {
                &&& setup.chain_id == 0
                &&& setup.usd_per_cu.mantissa == 0
                &&& setup.stat_sender is None
                &&& setup.kafka_debug_logger is None
            },
        },
        setup.stage is StartPremium,
{
}

/// A planned request is started with the permit that its sender was given, and not at all
/// without one that was asked for in vain.
pub proof fn law_planned_request_is_started<
    L: FnOnce(&App, &Authorization, Option<u64>, &str, &Option<String>) -> Option<
        KafkaDebugLogger,
    >,
>(
    plan: BuildPlan,
    permit: Web3ProxyResult<Option<tokio::sync::OwnedSemaphorePermit>>,
    clock: Clock,
    make_logger: L,
    setup: Web3ProxyResult<RequestSetup>,
)
    requires
        call_ensures(BuildPlan::start::<L>, (plan, permit, clock, make_logger), setup),
    ensures
        match (permit, setup) {
            (Ok(permit), Ok(setup)) => {
                &&& setup.permit == permit
                &&& setup.authorization == plan.authorization
                &&& setup.request == plan.request
                &&& setup.head_block == plan.head_block
                &&& setup.max_wait == plan.max_wait
                &&& setup.chain_id == plan.app.config.chain_id
                &&& setup.stat_sender == plan.app.stat_sender
                &&& setup.request_id is None
                &&& setup.clock == clock
                &&& clock.shows(setup.start_instant)
                &&& setup.stage is StartPremium
            },
            (Err(error), Err(passed_on)) => passed_on == error,
            _ => false,
        },
{
}

} // verus!
