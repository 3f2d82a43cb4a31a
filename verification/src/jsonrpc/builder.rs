//! Puts together what is needed to make a request ready.
use crate::app::App;
use crate::block::BlockHeader;
use crate::errors::{Web3ProxyError, Web3ProxyResult};
use crate::frontend::authorization::{
    AllowedOrigins, Authorization, KafkaDebugLogger, ProxyMode,
};
use crate::jsonrpc::request::{RequestOrMethod, SingleRequest};
use crate::jsonrpc::response::ResponseView;
use crate::jsonrpc::setup::RequestSetup;
use crate::jsonrpc::validated::{RequestView, ValidatedRequest};
use crate::time::{Clock, Duration, Moment};
use std::sync::Arc;
use vstd::prelude::*;

verus! {

/// Puts together what is needed to make a request ready.
pub struct RequestBuilder {
    pub app: Option<Arc<App>>,
    /// Whether the request needs blocks that only archive servers keep.
    pub archive_request: bool,
    pub head_block: Option<BlockHeader>,
    pub authorization: Option<Arc<Authorization>>,
    pub request_or_method: RequestOrMethod,
}

/// A request that can be made ready once its sender has a permit for it.
pub struct BuildPlan {
    pub app: Arc<App>,
    pub authorization: Arc<Authorization>,
    pub max_wait: Option<Duration>,
    pub request: RequestOrMethod,
    pub head_block: Option<BlockHeader>,
}

impl Default for RequestBuilder {
    fn default() -> (builder: RequestBuilder)
        ensures
            builder.app is None,
            !builder.archive_request,
            builder.head_block is None,
            builder.authorization is None,
            builder.request_or_method.is_unset(),
    {
        RequestBuilder {
            app: None,
            archive_request: false,
            head_block: None,
            authorization: None,
            request_or_method: RequestOrMethod::default(),
        }
    }
}

impl RequestBuilder {
    /// The builder with the given authorization in place of its own.
    pub open spec fn with_authorization(
        self,
        authorization: Authorization,
        built: RequestBuilder,
    ) -> bool {
        &&& built.authorization matches Some(given) && *given == authorization
        &&& built == RequestBuilder { authorization: built.authorization, ..self }
    }

    /// The builder, saying whether the request needs blocks that only archive servers keep.
    pub open spec fn archiving(self, archive_request: bool) -> RequestBuilder {
        RequestBuilder { archive_request, ..self }
    }

    /// The builder with `request` in place of its own.
    pub open spec fn requesting(self, request: RequestOrMethod) -> RequestBuilder {
        RequestBuilder { request_or_method: request, ..self }
    }

    /// What is known of the request to be built, or what is missing: the app comes first.
    pub open spec fn plan(self, max_wait: Option<Duration>) -> Web3ProxyResult<BuildPlan> {
        match (self.app, self.authorization) {
            (None, _) => Err(Web3ProxyError::AppRequired),
            (Some(_), None) => Err(Web3ProxyError::AuthorizationRequired),
            (Some(app), Some(authorization)) => Ok(
                BuildPlan {
                    app,
                    authorization,
                    max_wait,
                    request: self.request_or_method,
                    head_block: self.head_block,
                },
            ),
        }
    }

    /// A builder for a request to `app`, with the head block at the time of the call.
    pub fn new(app: Arc<App>) -> (builder: RequestBuilder)
        ensures
            builder.app == Some(app),
            !builder.archive_request,
            app.announced(builder.head_block),
            builder.authorization is None,
            builder.request_or_method.is_unset(),
    {
        let head_block = app.head_block();
        RequestBuilder::new_at(app, head_block)
    }

    /// A builder for a request to `app` that is received when `head_block` is the head block.
    pub fn new_at(app: Arc<App>, head_block: Option<BlockHeader>) -> (builder: RequestBuilder)
        ensures
            builder.app == Some(app),
            !builder.archive_request,
            builder.head_block == head_block,
            builder.authorization is None,
            builder.request_or_method.is_unset(),
    {
        RequestBuilder { app: Some(app), head_block, ..RequestBuilder::default() }
    }

    /// Authorizes a request that the proxy itself sends. `internal` is the authorization that
    /// the proxy gives itself.
    pub fn authorize_internal(
        self,
        internal: Web3ProxyResult<Authorization>,
    ) -> (authorized: Web3ProxyResult<RequestBuilder>)
        ensures
            match internal {
                Ok(authorization) => authorized matches Ok(built) && self.with_authorization(
                    authorization,
                    built,
                ),
                Err(error) => authorized == Err::<RequestBuilder, Web3ProxyError>(error),
            },
    {
        match internal {
            Ok(authorization) => Ok(
                RequestBuilder { authorization: Some(Arc::new(authorization)), ..self },
            ),
            Err(error) => Err(error),
        }
    }

    /// The app that a sender from outside has to be known to.
    pub fn app_for_public(&self) -> (app: Web3ProxyResult<Arc<App>>)
        ensures
            match self.app {
                Some(known) => app == Ok::<Arc<App>, Web3ProxyError>(known),
                None => app == Err::<Arc<App>, Web3ProxyError>(
                    Web3ProxyError::AppRequiredForPublicRequests,
                ),
            },
    {
        match &self.app {
            Some(app) => Ok(app.clone()),
            None => Err(Web3ProxyError::AppRequiredForPublicRequests),
        }
    }

    /// Authorizes a sender with a key. `checked` is what the check of the key by
    /// [`app_for_public`](Self::app_for_public) came to.
    pub fn authorize_premium(
        self,
        checked: Web3ProxyResult<Authorization>,
    ) -> (authorized: Web3ProxyResult<RequestBuilder>)
        ensures
            match (self.app, checked) {
                (None, _) => authorized == Err::<RequestBuilder, Web3ProxyError>(
                    Web3ProxyError::AppRequiredForPublicRequests,
                ),
                (Some(_), Ok(authorization)) => authorized matches Ok(built)
                    && self.with_authorization(authorization, built),
                (Some(_), Err(error)) => authorized == Err::<RequestBuilder, Web3ProxyError>(
                    error,
                ),
            },
    {
        match &self.app {
            None => Err(Web3ProxyError::AppRequiredForPublicRequests),
            Some(_) => match checked {
                Ok(authorization) => Ok(
                    RequestBuilder { authorization: Some(Arc::new(authorization)), ..self },
                ),
                Err(error) => Err(error),
            },
        }
    }

    /// Authorizes a sender without a key, when `external` is what the check of the sender
    /// came to and `head_block` is the head block after it.
    pub fn authorize_public_at(
        self,
        external: Web3ProxyResult<Authorization>,
        head_block: Option<BlockHeader>,
    ) -> (authorized: Web3ProxyResult<RequestBuilder>)
        ensures
            match (self.app, external) {
                (None, _) => authorized == Err::<RequestBuilder, Web3ProxyError>(
                    Web3ProxyError::AppRequiredForPublicRequests,
                ),
                (Some(_), Ok(authorization)) => authorized matches Ok(built)
                    && (RequestBuilder { head_block, ..self }).with_authorization(
                    authorization,
                    built,
                ),
                (Some(_), Err(error)) => authorized == Err::<RequestBuilder, Web3ProxyError>(
                    error,
                ),
            },
    {
        match &self.app {
            None => Err(Web3ProxyError::AppRequiredForPublicRequests),
            Some(_) => match external {
                Ok(authorization) => Ok(
                    RequestBuilder {
                        authorization: Some(Arc::new(authorization)),
                        head_block,
                        ..self
                    },
                ),
                Err(error) => Err(error),
            },
        }
    }

    /// Authorizes a sender without a key, and takes the head block at the time of the call.
    /// `external` checks the sender against the limits of the app; it is asked at most once.
    pub fn authorize_public<
        I,
        O,
        U,
        R,
        F: FnOnce(&AllowedOrigins, &I, Option<&O>, ProxyMode, Option<&R>, Option<&U>) -> Web3ProxyResult<Authorization>,
    >(
        self,
        ip: &I,
        origin: Option<&O>,
        user_agent: Option<&U>,
        proxy_mode: ProxyMode,
        referer: Option<&R>,
        external: F,
    ) -> (authorized: Web3ProxyResult<RequestBuilder>)
        requires
            self.app matches Some(app) ==> call_requires(
                external,
                (
                    &app.config.allowed_origin_requests_per_period,
                    ip,
                    origin,
                    proxy_mode,
                    referer,
                    user_agent,
                ),
            ),
        ensures
            match (self.app, authorized) {
                (None, authorized) => authorized == Err::<RequestBuilder, Web3ProxyError>(
                    Web3ProxyError::AppRequiredForPublicRequests,
                ),
                (Some(app), Ok(built)) => {
                    &&& built.authorization is Some
                    &&& call_ensures(
                        external,
                        (
                            &app.config.allowed_origin_requests_per_period,
                            ip,
                            origin,
                            proxy_mode,
                            referer,
                            user_agent,
                        ),
                        Ok(*built.authorization->0),
                    )
                    &&& built == RequestBuilder {
                        authorization: built.authorization,
                        head_block: built.head_block,
                        ..self
                    }
                    &&& app.announced(built.head_block)
                },
                (Some(app), Err(error)) => call_ensures(
                    external,
                    (
                        &app.config.allowed_origin_requests_per_period,
                        ip,
                        origin,
                        proxy_mode,
                        referer,
                        user_agent,
                    ),
                    Err(error),
                ),
            },
    {
        match self.app_for_public() {
            Err(error) => Err(error),
            Ok(app) => {
                let checked = external(
                    &app.config.allowed_origin_requests_per_period,
                    ip,
                    origin,
                    proxy_mode,
                    referer,
                    user_agent,
                );
                match checked {
                    Err(error) => Err(error),
                    Ok(authorization) => {
                        let head_block = app.head_block();
                        self.authorize_public_at(Ok(authorization), head_block)
                    },
                }
            },
        }
    }

    /// Says whether the request needs blocks that only archive servers keep.
    pub fn set_archive_request(self, archive_request: bool) -> (builder: RequestBuilder)
        ensures
            builder == self.archiving(archive_request),
    {
        RequestBuilder { archive_request, ..self }
    }

    /// Gives the whole request.
    pub fn set_request(self, request: SingleRequest) -> (builder: Web3ProxyResult<RequestBuilder>)
        ensures
            builder == Ok::<RequestBuilder, Web3ProxyError>(
                self.requesting(RequestOrMethod::Request(request)),
            ),
    {
        Ok(RequestBuilder { request_or_method: RequestOrMethod::Request(request), ..self })
    }

    /// Gives only the method of the request and its size in bytes.
    pub fn set_method(self, method: String, size: usize) -> (builder: RequestBuilder)
        ensures
            builder == self.requesting(RequestOrMethod::Method(method, size)),
    {
        RequestBuilder { request_or_method: RequestOrMethod::Method(method, size), ..self }
    }

    /// Starts to build the request: the app and the authorization must be known. The sender
    /// then needs a permit before the request is made ready.
    pub fn build(&self, max_wait: Option<Duration>) -> (plan: Web3ProxyResult<BuildPlan>)
        ensures
            plan == self.plan(max_wait),
    {
        match (&self.app, &self.authorization) {
            (None, _) => Err(Web3ProxyError::AppRequired),
            (Some(_), None) => Err(Web3ProxyError::AuthorizationRequired),
            (Some(app), Some(authorization)) => {
                let head_block = self.head_block.clone();
                Ok(
                    BuildPlan {
                        app: app.clone(),
                        authorization: authorization.clone(),
                        max_wait,
                        request: self.request_or_method.clone(),
                        head_block,
                    },
                )
            },
        }
    }

    /// Ends building the request: one that was made ready is marked as an archive request if
    /// it is to be one.
    pub fn finish_build(
        &self,
        built: Web3ProxyResult<ValidatedRequest>,
    ) -> (request: Web3ProxyResult<ValidatedRequest>)
        ensures
            match built {
                Ok(ready) => request matches Ok(request) && request@ == ready@.marked(
                    self.archive_request,
                ),
                Err(error) => request == Err::<ValidatedRequest, Web3ProxyError>(error),
            },
    {
        match built {
            Ok(ready) => {
                let mut request = ready;
                if self.archive_request {
                    request.response.archive_request = true;
                }
                Ok(request)
            },
            Err(error) => Err(error),
        }
    }
}

impl RequestView {
    /// The request, marked as an archive request if it is to be one.
    pub open spec fn marked(self, archive_request: bool) -> RequestView {
        RequestView {
            response: ResponseView {
                archive_request: archive_request || self.response.archive_request,
                ..self.response
            },
            ..self
        }
    }
}

impl BuildPlan {
    /// The setup of the request, received at `start_instant` with the given permit.
    pub open spec fn setup(
        self,
        permit: Option<tokio::sync::OwnedSemaphorePermit>,
        kafka_debug_logger: Option<KafkaDebugLogger>,
        clock: Clock,
        start_instant: Moment,
    ) -> RequestSetup {
        RequestSetup::of_app(
            &*self.app,
            self.authorization,
            kafka_debug_logger,
            self.max_wait,
            permit,
            self.request,
            self.head_block,
            None,
            clock,
            start_instant,
        )
    }

    /// Starts to make the request ready with the permit that its sender was given. In debug
    /// mode `make_logger` is asked, once, for a logger for the request's debug trail.
    pub fn start<
        L: FnOnce(&App, &Authorization, Option<u64>, &str, &Option<String>) -> Option<
            KafkaDebugLogger,
        >,
    >(
        self,
        permit: Web3ProxyResult<Option<tokio::sync::OwnedSemaphorePermit>>,
        clock: Clock,
        make_logger: L,
    ) -> (setup: Web3ProxyResult<RequestSetup>)
        requires
            permit is Ok ==> crate::jsonrpc::setup::logger_can_be_made(
                make_logger,
                &*self.app,
                &*self.authorization,
                self.head_block,
                None,
            ),
        ensures
            match permit {
                Err(error) => setup == Err::<RequestSetup, Web3ProxyError>(error),
                Ok(permit) => setup matches Ok(setup) && {
                    &&& setup == self.setup(
                        permit,
                        setup.kafka_debug_logger,
                        clock,
                        setup.start_instant,
                    )
                    &&& clock.shows(setup.start_instant)
                    &&& setup.start_instant.is_shown()
                    &&& crate::jsonrpc::setup::logger_was_made(
                        make_logger,
                        &*self.app,
                        &*self.authorization,
                        self.head_block,
                        None,
                        setup.kafka_debug_logger,
                    )
                },
            },
    {
        match permit {
            Err(error) => Err(error),
            Ok(permit) => Ok(
                ValidatedRequest::new_with_app(
                    &self.app,
                    self.authorization,
                    self.max_wait,
                    permit,
                    self.request,
                    self.head_block,
                    None,
                    clock,
                    make_logger,
                ),
            ),
        }
    }
}

} // verus!
