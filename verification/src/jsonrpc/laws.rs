//! What holds of requests across calls.
use crate::app::App;
use crate::block::{BlockHeader, CacheMode};
use crate::decimal::Decimal;
use crate::errors::{Web3ProxyError, Web3ProxyResult};
use crate::frontend::authorization::{Authorization, KafkaDebugLogger};
use crate::jsonrpc::builder::RequestBuilder;
use crate::jsonrpc::request::{LooseId, RequestOrMethod, SingleRequest};
use crate::jsonrpc::response::{ResponseView, Web3Rpc};
use crate::jsonrpc::setup::{RequestSetup, SetupAnswer, SetupStage, SetupStep, StepView};
use crate::jsonrpc::validated::{RequestView, ValidatedRequest};
use crate::stats::{AppStat, StatDelivery};
use crate::time::{Clock, Duration, Moment};
use std::sync::Arc;
use vstd::prelude::*;

verus! {

impl RequestSetup {
    /// The answer to the setup, out of all the answers that it may ask for.
    pub open spec fn pick(
        self,
        starts_premium: bool,
        found: Web3ProxyResult<(serde_json::Value, CacheMode)>,
        stays_premium: bool,
    ) -> SetupAnswer {
        match self.stage {
            SetupStage::StartPremium => SetupAnswer::ActivePremium(starts_premium),
            SetupStage::DebugLog { .. } => SetupAnswer::RequestLogged,
            SetupStage::CacheMode { .. } => SetupAnswer::CacheMode(found),
            SetupStage::ExpirePremium { .. } => SetupAnswer::ActivePremium(stays_premium),
        }
    }

    /// What comes out when the setup is given everything that it asks for.
    pub open spec fn outcome(
        self,
        starts_premium: bool,
        found: Web3ProxyResult<(serde_json::Value, CacheMode)>,
        stays_premium: bool,
    ) -> Web3ProxyResult<RequestView> {
        let wait = match self.max_wait {
            Some(wait) => wait,
            None => RequestSetup::usual_wait(stays_premium),
        };
        if !self.is_cacheable() {
            Ok(self.ready(starts_premium, CacheMode::Never, wait))
        } else {
            match found {
                Ok(found) => Ok(
                    RequestView {
                        inner: self.request.with_params(found.0),
                        ..self.ready(starts_premium, found.1, wait)
                    },
                ),
                Err(error) => Err(error),
            }
        }
    }

    /// How many answers the setup has had, counting those that it skipped.
    pub open spec fn progress(self) -> nat {
        match self.stage {
            SetupStage::StartPremium => 0,
            SetupStage::DebugLog { .. } => 1,
            SetupStage::CacheMode { .. } => 2,
            SetupStage::ExpirePremium { .. } => 3,
        }
    }
}

impl ResponseView {
    /// The record when `server` was asked too.
    pub open spec fn asked(self, server: Arc<Web3Rpc>) -> ResponseView {
        ResponseView { backend_rpcs: self.backend_rpcs.push(server), ..self }
    }
}

impl StepView {
    /// Where up to `answers` further answers lead.
    pub open spec fn run(
        self,
        starts_premium: bool,
        found: Web3ProxyResult<(serde_json::Value, CacheMode)>,
        stays_premium: bool,
        answers: nat,
    ) -> StepView
        decreases answers,
    {
        match self {
            StepView::Pending(setup) if answers > 0 => {
                let answer = setup.pick(starts_premium, found, stays_premium);
                setup.next(answer).run(
                    starts_premium,
                    found,
                    stays_premium,
                    (answers - 1) as nat,
                )
            },
            _ => self,
        }
    }
}

/// A setup that is given every answer it asks for is done after at most four of them, and
/// what comes out is its outcome: the request if it needs no cache mode or one was found, and
/// otherwise the error that finding one ended in.
pub proof fn law_setup_reaches_its_outcome(
    setup: RequestSetup,
    starts_premium: bool,
    found: Web3ProxyResult<(serde_json::Value, CacheMode)>,
    stays_premium: bool,
)
    requires
        setup.stage is StartPremium,
    ensures
        StepView::Pending(setup).run(starts_premium, found, stays_premium, 4) == StepView::Done(
            setup.outcome(starts_premium, found, stays_premium),
        ),
{
    reveal_with_fuel(StepView::run, 5);
}

/// Every answer that a setup waits for brings it further, and one that it does not wait for
/// leaves it as it is.
pub proof fn law_setup_advances(setup: RequestSetup, answer: SetupAnswer)
    ensures
        setup.takes(answer) ==> (setup.next(answer) matches StepView::Pending(next)
            ==> setup.progress() < next.progress()),
        !setup.takes(answer) ==> setup.next(answer) == StepView::Pending(setup),
{
}

/// The debug trail sees the request as its sender wrote it. With a logger, logging the
/// request is the first thing after the start; until then, and until the cache mode is asked
/// for, the request is not changed.
pub proof fn law_request_is_logged_unchanged(setup: RequestSetup, answer: SetupAnswer)
    requires
        setup.takes(answer),
    ensures
        setup.stage is StartPremium && setup.kafka_debug_logger is Some ==> (
        setup.next(answer) matches StepView::Pending(next) && next.stage is DebugLog),
        setup.next(answer) matches StepView::Pending(next) ==> {
            &&& next.stage is DebugLog ==> setup.stage is StartPremium
            &&& !(setup.stage is CacheMode) ==> next.request == setup.request
        },
{
}

/// A request that was made ready is given up for want of a server after ten seconds, and
/// never expires before that.
pub proof fn law_expires_after_connect_timeout(
    setup: RequestSetup,
    answer: SetupAnswer,
    request: RequestView,
    now: Moment,
)
    requires
        setup.next(answer) == StepView::Done(Ok::<_, Web3ProxyError>(request)),
    ensures
        request.connect_timeout == Duration::secs(10),
        request.connect_timeout.nanos <= request.expire_timeout.nanos,
        request.expires(now) ==> request.connect_timed_out(now),
{
}

/// A wait that was asked for is kept, unless it is shorter than the ten seconds that a request
/// waits for a server; then it is those ten seconds. Otherwise a premium sender waits 295
/// seconds for a response and any other sender 60 seconds.
pub proof fn law_how_long_a_request_waits(
    setup: RequestSetup,
    starts_premium: bool,
    found: Web3ProxyResult<(serde_json::Value, CacheMode)>,
    stays_premium: bool,
)
    ensures
        setup.outcome(starts_premium, found, stays_premium) matches Ok(request) ==> {
            match setup.max_wait {
                Some(wait) => request.expire_timeout.nanos == if wait.nanos < 10_000_000_000 {
                    10_000_000_000
                } else {
                    wait.nanos
                },
                None => request.expire_timeout.nanos == if stays_premium {
                    295_000_000_000u128
                } else {
                    60_000_000_000u128
                },
            }
        },
{
}

/// The deadlines of a request that was made ready can be told: the one for finding a server
/// always, and the one for a response whenever the wait that was asked for is no longer than
/// what a clock can show.
pub proof fn law_deadlines_can_be_told(
    setup: RequestSetup,
    starts_premium: bool,
    found: Web3ProxyResult<(serde_json::Value, CacheMode)>,
    stays_premium: bool,
)
    requires
        setup.start_instant.is_shown(),
    ensures
        setup.outcome(starts_premium, found, stays_premium) matches Ok(request) ==> {
            &&& request.start_instant.reaches(request.connect_timeout)
            &&& (setup.max_wait matches Some(wait) ==> (Moment { nanos: wait.nanos }).is_shown())
                ==> request.start_instant.reaches(request.expire_timeout)
        },
{
}

/// The response to a request is cached only if there was a head block and the whole request
/// was known.
pub proof fn law_cached_only_with_head_block(
    setup: RequestSetup,
    starts_premium: bool,
    found: Web3ProxyResult<(serde_json::Value, CacheMode)>,
    stays_premium: bool,
)
    ensures
        setup.outcome(starts_premium, found, stays_premium) matches Ok(request) ==> {
            !(request.cache_mode is Never) ==> request.head_block is Some && request.inner is Request
        },
{
}

/// Making a request ready leaves what its sender and the app gave: the sender, the chain, the
/// price, the head block, the permit, the clock, the logger and the place where its stat goes;
/// and it starts with nothing recorded of a response.
pub proof fn law_setup_keeps_what_was_given(
    setup: RequestSetup,
    starts_premium: bool,
    found: Web3ProxyResult<(serde_json::Value, CacheMode)>,
    stays_premium: bool,
)
    ensures
        setup.outcome(starts_premium, found, stays_premium) matches Ok(request) ==> {
            &&& request.authorization == *setup.authorization
            &&& request.chain_id == setup.chain_id
            &&& request.usd_per_cu == setup.usd_per_cu
            &&& request.head_block == setup.head_block
            &&& request.permit == setup.permit
            &&& request.stat_sender == setup.stat_sender
            &&& request.request_id == setup.request_id
            &&& request.clock == setup.clock
            &&& request.start_instant == setup.start_instant
            &&& request.kafka_debug_logger == setup.kafka_debug_logger
            &&& request.started_active_premium == starts_premium
            &&& request.response == ResponseView::blank()
        },
{
}

/// A request with a head block whose whole text is known has the cache mode that was found for
/// it, whether or not its sender is premium, and however long it waits. Any other request is
/// never cached.
pub proof fn law_found_cache_mode_is_kept(
    setup: RequestSetup,
    starts_premium: bool,
    params: serde_json::Value,
    mode: CacheMode,
    stays_premium: bool,
)
    ensures
        setup.outcome(starts_premium, Ok((params, mode)), stays_premium) matches Ok(request) && {
            if setup.head_block is Some && setup.request is Request {
                &&& request.cache_mode == mode
                &&& request.inner matches RequestOrMethod::Request(kept) && kept.params == params
            } else {
                &&& request.cache_mode is Never
                &&& request.inner == setup.request
            }
        },
{
}

/// A request cannot be made ready exactly if a cache mode was needed and finding one failed,
/// and then for that reason.
pub proof fn law_setup_fails_only_for_want_of_a_cache_mode(
    setup: RequestSetup,
    starts_premium: bool,
    found: Web3ProxyResult<(serde_json::Value, CacheMode)>,
    stays_premium: bool,
)
    ensures
        setup.outcome(starts_premium, found, stays_premium) is Err <==> setup.head_block is Some
            && setup.request is Request && found is Err,
        setup.outcome(starts_premium, found, stays_premium) matches Err(error) ==> found == Err::<
            (serde_json::Value, CacheMode),
            Web3ProxyError,
        >(error),
{
}

/// Two requests that differ only in whether their senders are premium at the start differ, once
/// they are ready, in nothing else.
pub proof fn law_premium_start_changes_nothing_else(
    setup: RequestSetup,
    found: Web3ProxyResult<(serde_json::Value, CacheMode)>,
    stays_premium: bool,
)
    ensures
        match (
            setup.outcome(true, found, stays_premium),
            setup.outcome(false, found, stays_premium),
        ) {
            (Ok(premium), Ok(other)) => {
                &&& premium.started_active_premium
                &&& !other.started_active_premium
                &&& premium == (RequestView { started_active_premium: true, ..other })
            },
            (Err(premium), Err(other)) => premium == other,
            _ => false,
        },
{
}

/// A setup asks only for what it needs: for the debug trail only with a logger, for a cache mode
/// only with a head block and a whole request, and whether the sender is still premium only
/// where no wait was asked for.
pub proof fn law_setup_asks_only_for_what_it_needs(
    setup: RequestSetup,
    answer: SetupAnswer,
    step: SetupStep,
)
    requires
        setup.takes(answer),
        call_ensures(RequestSetup::step, (setup, answer), step),
    ensures
        step matches SetupStep::Pending(next) ==> match next.stage {
            SetupStage::StartPremium => false,
            SetupStage::DebugLog { .. } => setup.kafka_debug_logger is Some,
            SetupStage::CacheMode { .. } => setup.head_block is Some && setup.request is Request,
            SetupStage::ExpirePremium { .. } => setup.max_wait is None,
        },
{
}

/// From one answer to the next a setup keeps what it was given, and once it is done so does the
/// request: the sender, the chain, the clock, the head block, the logger, the permit, the trace,
/// the start, the channel for the stat and the price.
pub proof fn law_step_keeps_what_was_given(
    setup: RequestSetup,
    answer: SetupAnswer,
    step: SetupStep,
)
    requires
        call_ensures(RequestSetup::step, (setup, answer), step),
    ensures
        step matches SetupStep::Pending(next) ==> next == (RequestSetup {
            stage: next.stage,
            request: next.request,
            ..setup
        }),
        step matches SetupStep::Done(Ok(ready)) ==> {
            &&& *ready.authorization == *setup.authorization
            &&& ready.chain_id == setup.chain_id
            &&& ready.clock == setup.clock
            &&& ready.head_block == setup.head_block
            &&& ready.kafka_debug_logger == setup.kafka_debug_logger
            &&& ready.permit == setup.permit
            &&& ready.request_id == setup.request_id
            &&& ready.start_instant == setup.start_instant
            &&& ready.stat_sender == setup.stat_sender
            &&& ready.usd_per_cu == setup.usd_per_cu
        },
{
}

/// The answer to the first question is whether the sender is premium at the start, and the
/// request is said to have started so.
pub proof fn law_premium_at_the_start_is_kept(
    setup: RequestSetup,
    active: bool,
    step: SetupStep,
)
    requires
        setup.stage is StartPremium,
        call_ensures(RequestSetup::step, (setup, SetupAnswer::ActivePremium(active)), step),
    ensures
        match step {
            SetupStep::Pending(next) => {
                &&& next.request == setup.request
                &&& match next.stage {
                    SetupStage::StartPremium => false,
                    SetupStage::DebugLog { started_active_premium } => {
                        started_active_premium == active
                    },
                    SetupStage::CacheMode { started_active_premium } => {
                        started_active_premium == active
                    },
                    SetupStage::ExpirePremium { started_active_premium, cache_mode } => {
                        started_active_premium == active && cache_mode is Never
                    },
                }
            },
            SetupStep::Done(Ok(ready)) => {
                &&& ready.started_active_premium == active
                &&& ready.cache_mode is Never
                &&& ready.inner == setup.request
            },
            SetupStep::Done(Err(_)) => false,
        },
{
}

/// A cache mode that was found is kept as it is, and the parameters that were found with it take
/// the place of the request's own. If a wait was asked for, the request is ready; otherwise only
/// that is missing.
pub proof fn law_found_cache_mode_takes_effect(
    setup: RequestSetup,
    premium: bool,
    asked: SingleRequest,
    params: serde_json::Value,
    mode: CacheMode,
    step: SetupStep,
)
    requires
        setup.stage == (SetupStage::CacheMode { started_active_premium: premium }),
        setup.request == RequestOrMethod::Request(asked),
        call_ensures(RequestSetup::step, (setup, SetupAnswer::CacheMode(Ok((params, mode)))), step),
    ensures
        match (setup.max_wait, step) {
            (Some(_), SetupStep::Done(Ok(ready))) => {
                &&& ready.cache_mode == mode
                &&& ready.started_active_premium == premium
                &&& ready.inner matches RequestOrMethod::Request(kept)
                &&& kept.params == params
                &&& kept.id == asked.id
                &&& kept.method == asked.method
            },
            (None, SetupStep::Pending(next)) => {
                &&& next.stage == (SetupStage::ExpirePremium {
                    started_active_premium: premium,
                    cache_mode: mode,
                })
                &&& next.request matches RequestOrMethod::Request(kept)
                &&& kept.params == params
                &&& kept.id == asked.id
                &&& kept.method == asked.method
            },
            _ => false,
        },
{
}

/// A search for a cache mode that fails ends the setup with the error that it failed with.
pub proof fn law_failed_search_ends_the_setup(
    setup: RequestSetup,
    error: Web3ProxyError,
    step: SetupStep,
)
    requires
        setup.stage is CacheMode,
        call_ensures(RequestSetup::step, (setup, SetupAnswer::CacheMode(Err(error))), step),
    ensures
        step matches SetupStep::Done(Err(passed_on)) && passed_on == error,
{
}

/// An answer to another question than the one that a setup asks leaves it as it is.
pub proof fn law_other_answers_change_nothing(
    setup: RequestSetup,
    answer: SetupAnswer,
    step: SetupStep,
)
    requires
        match setup.stage {
            SetupStage::StartPremium => !(answer is ActivePremium),
            SetupStage::DebugLog { .. } => !(answer is RequestLogged),
            SetupStage::CacheMode { .. } => !(answer is CacheMode),
            SetupStage::ExpirePremium { .. } => !(answer is ActivePremium),
        },
        call_ensures(RequestSetup::step, (setup, answer), step),
    ensures
        step == SetupStep::Pending(setup),
{
}

/// Once the request is in the debug trail, the setup goes on as it would have without a debug
/// trail, with the request as its sender wrote it.
pub proof fn law_debug_trail_changes_nothing_else(
    setup: RequestSetup,
    active: bool,
    logged: SetupStep,
    started: SetupStep,
)
    requires
        setup.stage == (SetupStage::DebugLog { started_active_premium: active }),
        call_ensures(RequestSetup::step, (setup, SetupAnswer::RequestLogged), logged),
        call_ensures(
            RequestSetup::step,
            (
                (RequestSetup { stage: SetupStage::StartPremium, kafka_debug_logger: None, ..setup }),
                SetupAnswer::ActivePremium(active),
            ),
            started,
        ),
    ensures
        match (logged, started) {
            (SetupStep::Pending(next), SetupStep::Pending(other)) => next == (RequestSetup {
                kafka_debug_logger: setup.kafka_debug_logger,
                ..other
            }) && next.request == setup.request,
            (SetupStep::Done(Ok(ready)), SetupStep::Done(Ok(other))) => ready@ == (RequestView {
                kafka_debug_logger: setup.kafka_debug_logger,
                ..other@
            }) && ready.inner == setup.request,
            _ => false,
        },
{
}

/// The last answer decides only how long the request waits for a response: 295 seconds if the
/// sender is premium by then, and 60 seconds otherwise. The cache mode, the request and whether
/// the sender was premium at the start stay what they were.
pub proof fn law_last_answer_sets_the_wait(
    setup: RequestSetup,
    premium: bool,
    mode: CacheMode,
    active: bool,
    step: SetupStep,
)
    requires
        setup.stage == (SetupStage::ExpirePremium {
            started_active_premium: premium,
            cache_mode: mode,
        }),
        call_ensures(RequestSetup::step, (setup, SetupAnswer::ActivePremium(active)), step),
    ensures
        step matches SetupStep::Done(Ok(ready)) && {
            &&& ready.cache_mode == mode
            &&& ready.started_active_premium == premium
            &&& ready.inner == setup.request
            &&& ready.connect_timeout.nanos == 10_000_000_000
            &&& ready.expire_timeout.nanos == if active {
                295_000_000_000u128
            } else {
                60_000_000_000u128
            }
        },
{
}

/// A request that is ready has nothing recorded of a response, and waits ten seconds for a
/// server and no shorter for a response; a longer wait that was asked for is kept.
pub proof fn law_ready_request_is_fresh(setup: RequestSetup, answer: SetupAnswer, step: SetupStep)
    requires
        call_ensures(RequestSetup::step, (setup, answer), step),
    ensures
        step matches SetupStep::Done(Ok(ready)) ==> {
            &&& ready.connect_timeout.nanos == 10_000_000_000
            &&& 10_000_000_000 <= ready.expire_timeout.nanos
            &&& !(setup.stage is ExpirePremium) ==> (setup.max_wait matches Some(wait) && {
                &&& 10_000_000_000 <= wait.nanos ==> ready.expire_timeout == wait
                &&& wait.nanos <= 10_000_000_000 ==> ready.expire_timeout.nanos == 10_000_000_000
            })
            &&& !ready.response.archive_request
            &&& ready.response.backend_rpcs@.len() == 0
            &&& ready.response.no_servers == 0
            &&& !ready.response.error_response
            &&& ready.response.response_bytes == 0
            &&& ready.response.response_millis == 0
            &&& !ready.response.has_response
            &&& ready.response.response_timestamp == 0
            &&& !ready.response.user_error_response
        },
{
}

/// Making a request ready changes nothing of it but its parameters: its identifier, its method
/// and how much is known of it stay.
pub proof fn law_setup_changes_only_params(
    setup: RequestSetup,
    starts_premium: bool,
    found: Web3ProxyResult<(serde_json::Value, CacheMode)>,
    stays_premium: bool,
)
    ensures
        setup.outcome(starts_premium, found, stays_premium) matches Ok(ready) ==> {
            match (setup.request, ready.inner) {
                (RequestOrMethod::Request(asked), RequestOrMethod::Request(kept)) => {
                    kept.id == asked.id && kept.method == asked.method
                },
                (asked, kept) => kept == asked,
            }
        },
{
}

/// A request that the proxy itself sends has the authorization that it was given, holds no
/// permit, is not traced, and is a whole request with the number one for its identifier and
/// with its own method, with an app and without one.
pub proof fn law_internal_request(
    app: Option<&App>,
    authorization: Arc<Authorization>,
    logger: Option<KafkaDebugLogger>,
    max_wait: Option<Duration>,
    method: String,
    params: serde_json::Value,
    head_block: Option<BlockHeader>,
    clock: Clock,
    start_instant: Moment,
    starts_premium: bool,
    found: Web3ProxyResult<(serde_json::Value, CacheMode)>,
    stays_premium: bool,
)
    ensures
        ({
            let asked = RequestOrMethod::Request(
                SingleRequest { id: LooseId::Number(1), method, params },
            );
            let setup = match app {
                Some(app) => RequestSetup::of_app(
                    app,
                    authorization,
                    logger,
                    max_wait,
                    None,
                    asked,
                    head_block,
                    None,
                    clock,
                    start_instant,
                ),
                None => RequestSetup::of_no_app(
                    authorization,
                    max_wait,
                    asked,
                    head_block,
                    clock,
                    start_instant,
                ),
            };
            setup.outcome(starts_premium, found, stays_premium) matches Ok(ready) ==> {
                &&& ready.authorization == *authorization
                &&& ready.permit is None
                &&& ready.request_id is None
                &&& ready.inner matches RequestOrMethod::Request(kept)
                &&& kept.id == LooseId::Number(1)
                &&& kept.method == method
            }
        }),
{
}

/// A request that is built is the one that was asked for: it is an archive request exactly if
/// the builder says so, it has the builder's sender and head block and the app's chain, price
/// and place for its stat, and it is the builder's request, but for the parameters into which
/// finding the cache mode filled block numbers.
pub proof fn law_built_request_is_what_was_asked_for(
    builder: RequestBuilder,
    max_wait: Option<Duration>,
    permit: Option<tokio::sync::OwnedSemaphorePermit>,
    logger: Option<KafkaDebugLogger>,
    clock: Clock,
    start_instant: Moment,
    starts_premium: bool,
    found: Web3ProxyResult<(serde_json::Value, CacheMode)>,
    stays_premium: bool,
)
    requires
        builder.app is Some,
        builder.authorization is Some,
    ensures
        builder.plan(max_wait) matches Ok(plan) && {
            let setup = plan.setup(permit, logger, clock, start_instant);
            setup.outcome(starts_premium, found, stays_premium) matches Ok(ready) ==> {
                let request = ready.marked(builder.archive_request);
                &&& request.response.archive_request == builder.archive_request
                &&& request.authorization == *builder.authorization->0
                &&& request.head_block == builder.head_block
                &&& request.chain_id == builder.app->0.config.chain_id
                &&& request.usd_per_cu == Decimal::or_zero(builder.app->0.config.usd_per_cu)
                &&& request.stat_sender == builder.app->0.stat_sender
                &&& request.permit == permit
                &&& request.inner == if setup.is_cacheable() {
                    builder.request_or_method.with_params(found->Ok_0.0)
                } else {
                    builder.request_or_method
                }
            }
        },
{
}

/// Once a request has expired it stays so, and once it is given up for want of a server it
/// stays so.
pub proof fn law_timeouts_are_lasting(request: RequestView, now: Moment, later: Moment)
    requires
        now.nanos <= later.nanos,
    ensures
        request.expires(now) ==> request.expires(later),
        request.connect_timed_out(now) ==> request.connect_timed_out(later),
{
}

/// What is said of a request while it is built does not depend on the order in which it is
/// said, and what is said last holds.
pub proof fn law_builder_order_does_not_matter(
    builder: RequestBuilder,
    archive_request: bool,
    earlier_archive: bool,
    request: RequestOrMethod,
    earlier_request: RequestOrMethod,
)
    ensures
        builder.archiving(archive_request).requesting(request) == builder.requesting(
            request,
        ).archiving(archive_request),
        builder.archiving(earlier_archive).archiving(archive_request) == builder.archiving(
            archive_request,
        ),
        builder.requesting(earlier_request).requesting(request) == builder.requesting(request),
{
}

/// Authorizing the sender changes nothing of what else was said of the request, before or
/// after it.
pub proof fn law_authorization_is_independent(
    builder: RequestBuilder,
    authorization: Authorization,
    authorized: RequestBuilder,
    archive_request: bool,
    request: RequestOrMethod,
)
    requires
        builder.with_authorization(authorization, authorized),
    ensures
        builder.archiving(archive_request).with_authorization(
            authorization,
            authorized.archiving(archive_request),
        ),
        builder.requesting(request).with_authorization(
            authorization,
            authorized.requesting(request),
        ),
{
}

/// A request that is marked as an archive request always needs a lowest block, and marking it
/// changes neither its highest block nor a lowest block that it asks for itself.
pub proof fn law_archive_request_needs_a_lowest_block(request: RequestView)
    ensures
        request.marked(true).min_block() is Some,
        request.marked(true).max_block() == request.max_block(),
        request.min_block() matches Some(block) ==> request.marked(true).min_block() == Some(block),
        request.cache_mode.first_block() is None ==> request.marked(true).min_block() == Some(0u64),
{
}

/// The highest block that a request needs is known whenever there was a head block.
pub proof fn law_highest_block_is_known(request: RequestView)
    requires
        request.head_block is Some,
    ensures
        request.max_block() is Some,
{
}

/// Recording a response changes only its size and its times: not whether the request failed,
/// nor the servers that were asked, nor what a server needs to answer. The size and the time
/// taken are those of the last response, the timestamp is that of the first.
pub proof fn law_first_timestamp_stays(
    request: RequestView,
    first_bytes: u64,
    first: Moment,
    first_timestamp: i64,
    num_bytes: u64,
    now: Moment,
    timestamp: i64,
)
    ensures
        !request.response.has_response ==> request.responded(
            first_bytes,
            first,
            first_timestamp,
        ).response.response_timestamp == first_timestamp,
        ({
            let once = request.responded(first_bytes, first, first_timestamp);
            let twice = once.responded(num_bytes, now, timestamp);
            &&& twice.response.response_timestamp == once.response.response_timestamp
            &&& twice.response.response_bytes == num_bytes
            &&& twice.response.response_millis == now.since(request.start_instant).millis()
            &&& twice.response.error_response == request.response.error_response
            &&& twice.response.user_error_response == request.response.user_error_response
            &&& twice.response.backend_rpcs == request.response.backend_rpcs
            &&& twice.max_block() == request.max_block()
            &&& twice.min_block() == request.min_block()
        }),
{
}

/// A request that failed inside the proxy counts as failed there and not as the sender's
/// fault, whatever responses are recorded before and after.
pub proof fn law_failure_is_kept(request: RequestView, num_bytes: u64, now: Moment, timestamp: i64)
    ensures
        request.failed().responded(num_bytes, now, timestamp).response.error_response,
        !request.failed().responded(num_bytes, now, timestamp).response.user_error_response,
        request.failed().responded(num_bytes, now, timestamp) == request.responded(
            num_bytes,
            now,
            timestamp,
        ).failed(),
        request.failed().failed() == request.failed(),
{
}

/// A response comes from a backup server exactly if the server that was asked last is one,
/// whichever servers were asked before it.
pub proof fn law_last_server_decides_backup(response: ResponseView, server: Arc<Web3Rpc>)
    ensures
        response.asked(server).from_backup_rpc() == server.backup,
        response.backend_rpcs.len() == 0 ==> !response.from_backup_rpc(),
{
}

/// Over its life a request hands one stat to its channel: its own, when it goes away. What is
/// left then has none, so going away again hands nothing over. A request without a channel
/// hands nothing over.
pub proof fn law_one_stat_per_request(
    request: ValidatedRequest,
    delivery: StatDelivery,
    after: ValidatedRequest,
    again: StatDelivery,
    last: ValidatedRequest,
)
    requires
        request.finishes(delivery, after),
        after.finishes(again, last),
    ensures
        request.stat_sender matches Some(sender) ==> exists|sent: Result<(), AppStat>|
            #[trigger] crate::stats::was_handed_over(sender, request.stat(), sent) && delivery
                == StatDelivery::of(sent),
        request.stat_sender is None ==> delivery is NoSender,
        again is NoSender,
        last == after,
{
}

/// However the stat of a request is sent, it is made of the request's own data.
pub proof fn law_stat_is_the_requests_own(request: ValidatedRequest)
    ensures
        request.stat_sender is Some <==> request.pending_stat() is Some,
        request.pending_stat() matches Some(pending) ==> {
            &&& pending.0 == request.stat_sender->0
            &&& *pending.1.authorization == request@.authorization
            &&& pending.1.chain_id == request@.chain_id
            &&& pending.1.request == request@.inner
            &&& pending.1.response@ == request@.response
            &&& pending.1.usd_per_cu == request@.usd_per_cu
            &&& pending.1.started_active_premium == request@.started_active_premium
        },
{
}

} // verus!
