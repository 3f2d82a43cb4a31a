use std::sync::Arc;
use tokio::sync::mpsc::{unbounded_channel, UnboundedReceiver, UnboundedSender};
use tokio::sync::{watch, Semaphore};
use web3_proxy::app::{App, AppConfig};
use web3_proxy::block::{BlockHeader, BlockNumAndHash, CacheMode};
use web3_proxy::decimal::Decimal;
use web3_proxy::errors::Web3ProxyError;
use web3_proxy::frontend::authorization::{
    AllowedOrigins, Authorization, AuthorizationChecks, KafkaDebugLogger, ProxyMode,
};
use web3_proxy::jsonrpc::builder::RequestBuilder;
use web3_proxy::jsonrpc::request::{LooseId, RequestOrMethod, SingleRequest};
use web3_proxy::jsonrpc::response::{
    ResponseLog, ResponseOrBytes, SingleResponse, ValidatedResponse, Web3Rpc,
};
use web3_proxy::jsonrpc::setup::{RequestSetup, SetupAnswer, SetupStage, SetupStep};
use web3_proxy::jsonrpc::validated::ValidatedRequest;
use web3_proxy::stats::{AppStat, StatDelivery};
use web3_proxy::time::{Clock, Duration, Moment};

fn block(number: u64) -> BlockHeader {
    BlockHeader { number, json: format!("{{\"number\":{}}}", number) }
}

fn at(num: u64) -> BlockNumAndHash {
    BlockNumAndHash { num, hash: [0; 32] }
}

fn authorization(id: u64, proxy_mode: ProxyMode) -> Authorization {
    Authorization { id, checks: AuthorizationChecks { proxy_mode } }
}

fn app(
    head_block: Option<BlockHeader>,
    stat_sender: Option<UnboundedSender<AppStat>>,
) -> (Arc<App>, watch::Sender<Option<BlockHeader>>) {
    let (sender, receiver) = watch::channel(head_block);
    let app = App {
        config: AppConfig {
            chain_id: 137,
            usd_per_cu: Some(Decimal { mantissa: 4, scale: 6 }),
            allowed_origin_requests_per_period: AllowedOrigins {
                requests_per_period: vec![("https://example.com".to_string(), 30)],
            },
        },
        watch_consensus_head_receiver: receiver,
        stat_sender,
    };
    (Arc::new(app), sender)
}

fn request(method: &str) -> SingleRequest {
    let params = serde_json::Value::Array(vec![
        serde_json::Value::String("latest".to_string()),
        serde_json::Value::Bool(false),
    ]);
    SingleRequest::new(LooseId::Number(42), method.to_string(), params)
}

fn no_logger(
    _: &App,
    _: &Authorization,
    _: Option<u64>,
    _: &str,
    _: &Option<String>,
) -> Option<KafkaDebugLogger> {
    panic!("nobody asked for a logger")
}

fn setup(
    head_block: Option<BlockHeader>,
    inner: RequestOrMethod,
    max_wait: Option<Duration>,
    logger: Option<KafkaDebugLogger>,
) -> RequestSetup {
    RequestSetup::begin(
        None,
        Arc::new(authorization(7, ProxyMode::Best)),
        1,
        head_block,
        logger,
        max_wait,
        None,
        inner,
        Decimal { mantissa: 0, scale: 0 },
        Some("trace".to_string()),
        Clock::start(),
        Moment { nanos: 1_000 },
    )
}

fn pending(step: SetupStep) -> RequestSetup {
    match step {
        SetupStep::Pending(setup) => setup,
        SetupStep::Done(_) => panic!("the setup is done"),
    }
}

fn done(step: SetupStep) -> Result<ValidatedRequest, Web3ProxyError> {
    match step {
        SetupStep::Pending(_) => panic!("the setup waits for an answer"),
        SetupStep::Done(result) => result,
    }
}

fn ready(stat_sender: Option<UnboundedSender<AppStat>>) -> ValidatedRequest {
    let step = setup(Some(block(100)), RequestOrMethod::Method("m".to_string(), 3), None, None)
        .step(SetupAnswer::ActivePremium(true));
    let mut request = done(pending(step).step(SetupAnswer::ActivePremium(false))).unwrap();
    request.stat_sender = stat_sender;
    request
}

#[test]
fn new_takes_the_announced_head_block() {
    let (app, announce) = app(Some(block(5)), None);
    let builder = RequestBuilder::new(app.clone());
    assert_eq!(builder.head_block.as_ref().map(|head| head.number), Some(5));
    assert!(builder.app.is_some());
    assert!(builder.authorization.is_none());
    assert!(!builder.archive_request);
    assert!(matches!(&builder.request_or_method, RequestOrMethod::Method(m, 0) if m.is_empty()));

    announce.send(Some(block(6))).unwrap();
    let builder = builder
        .authorize_public(
            &[10u8, 0, 0, 1],
            Some(&"origin"),
            Some(&"agent"),
            ProxyMode::Versus,
            Some(&"referer"),
            |allowed: &AllowedOrigins,
             ip: &[u8; 4],
             origin: Option<&&str>,
             mode: ProxyMode,
             referer: Option<&&str>,
             agent: Option<&&str>| {
                assert_eq!(allowed.requests_per_period[0].1, 30);
                assert_eq!(ip, &[10, 0, 0, 1]);
                assert_eq!(origin, Some(&"origin"));
                assert_eq!(referer, Some(&"referer"));
                assert_eq!(agent, Some(&"agent"));
                Ok(authorization(9, mode))
            },
        )
        .unwrap();
    assert_eq!(builder.head_block.as_ref().map(|head| head.number), Some(6));
    assert_eq!(builder.authorization.unwrap().checks.proxy_mode, ProxyMode::Versus);
}

#[test]
fn authorize_internal_keeps_the_rest() {
    let (app, _announce) = app(Some(block(5)), None);
    let builder = RequestBuilder::new(app)
        .set_method("eth_chainId".to_string(), 12)
        .set_archive_request(true)
        .authorize_internal(Ok(authorization(1, ProxyMode::Best)))
        .unwrap();
    assert_eq!(builder.authorization.as_ref().unwrap().id, 1);
    assert!(builder.archive_request);
    assert_eq!(builder.request_or_method.method(), "eth_chainId");
    assert_eq!(builder.head_block.as_ref().unwrap().number, 5);

    let refused = builder.authorize_internal(Err(Web3ProxyError::Other("down".to_string())));
    assert_eq!(refused.err().unwrap().message(), "down");
}

#[test]
fn public_senders_need_an_app() {
    let builder = RequestBuilder::default();
    let error = builder.app_for_public().err().unwrap();
    assert_eq!(error.message(), "app is required for public requests");
    let refused = builder.authorize_premium(Ok(authorization(1, ProxyMode::Best)));
    assert!(matches!(refused, Err(Web3ProxyError::AppRequiredForPublicRequests)));
    let refused = RequestBuilder::default().authorize_public(
        &"::1",
        None,
        None,
        ProxyMode::Best,
        None,
        |_: &AllowedOrigins,
         _: &&str,
         _: Option<&&str>,
         _: ProxyMode,
         _: Option<&&str>,
         _: Option<&&str>| panic!("there is nobody to ask"),
    );
    assert!(matches!(refused, Err(Web3ProxyError::AppRequiredForPublicRequests)));
}

#[test]
fn premium_senders_are_checked() {
    let (app, _announce) = app(Some(block(5)), None);
    let builder = RequestBuilder::new_at(app.clone(), Some(block(2)));
    let builder = builder.authorize_premium(Ok(authorization(3, ProxyMode::Debug))).unwrap();
    assert_eq!(builder.authorization.as_ref().unwrap().id, 3);
    assert_eq!(builder.head_block.as_ref().unwrap().number, 2);
    let refused = builder.authorize_premium(Err(Web3ProxyError::Other("no".to_string())));
    assert!(matches!(refused, Err(Web3ProxyError::Other(m)) if m == "no"));
    let refused = RequestBuilder::new(app).authorize_public(
        &"::1",
        None,
        None,
        ProxyMode::Best,
        None,
        |_: &AllowedOrigins,
         _: &&str,
         _: Option<&&str>,
         _: ProxyMode,
         _: Option<&&str>,
         _: Option<&&str>| Err(Web3ProxyError::Other("limit".to_string())),
    );
    assert!(matches!(refused, Err(Web3ProxyError::Other(m)) if m == "limit"));
}

#[test]
fn the_last_request_that_was_set_holds() {
    let builder = RequestBuilder::default()
        .set_method("a".to_string(), 1)
        .set_request(request("b"))
        .unwrap();
    assert_eq!(builder.request_or_method.method(), "b");
    let builder = builder.set_method("c".to_string(), 1);
    assert_eq!(builder.request_or_method.method(), "c");
    let builder = builder.set_archive_request(true).set_archive_request(false);
    assert!(!builder.archive_request);
}

#[test]
fn build_needs_an_app_and_an_authorization() {
    let error = RequestBuilder::default().build(None).err().unwrap();
    assert_eq!(error.message(), "app is required");
    let unknown = RequestBuilder::default()
        .authorize_internal(Ok(authorization(1, ProxyMode::Best)))
        .unwrap();
    assert!(matches!(unknown.build(None), Err(Web3ProxyError::AppRequired)));
    let (app, _announce) = app(None, None);
    let error = RequestBuilder::new(app).build(None).err().unwrap();
    assert!(matches!(error, Web3ProxyError::AuthorizationRequired));
    assert_eq!(error.message(), "authorization is required");
}

#[test]
fn build_makes_an_archive_request_ready() {
    let (stat_sender, _stats) = unbounded_channel();
    let (app, _announce) = app(Some(block(5)), Some(stat_sender));
    let builder = RequestBuilder::new(app)
        .authorize_internal(Ok(authorization(1, ProxyMode::Debug)))
        .unwrap()
        .set_request(request("eth_call"))
        .unwrap()
        .set_archive_request(true);
    let permit = Arc::new(Semaphore::new(1)).try_acquire_owned().unwrap();
    let plan = builder.build(Some(Duration::from_secs(30))).unwrap();
    let setup = plan
        .start(
            Ok(Some(permit)),
            Clock::start(),
            |app: &App,
             authorization: &Authorization,
             height: Option<u64>,
             topic: &str,
             request_id: &Option<String>| {
                assert_eq!(app.config.chain_id, 137);
                assert_eq!(authorization.id, 1);
                assert_eq!(height, Some(5));
                assert_eq!(topic, "web3_proxy:rpc");
                assert!(request_id.is_none());
                Some(KafkaDebugLogger { id: 77 })
            },
        )
        .unwrap();
    let setup = pending(setup.step(SetupAnswer::ActivePremium(true)));
    assert!(matches!(setup.stage, SetupStage::DebugLog { started_active_premium: true }));
    let setup = pending(setup.step(SetupAnswer::RequestLogged));
    assert!(matches!(setup.stage, SetupStage::CacheMode { started_active_premium: true }));
    let mode = CacheMode::Cached { from_block: None, to_block: Some(at(4)), cache_errors: true };
    let filled = serde_json::Value::Array(vec![serde_json::Value::from(4)]);
    let built = done(setup.step(SetupAnswer::CacheMode(Ok((filled, mode)))));
    let ready = builder.finish_build(built).unwrap();
    assert!(ready.response.archive_request);
    assert_eq!(ready.chain_id, 137);
    assert_eq!(ready.usd_per_cu, Decimal { mantissa: 4, scale: 6 });
    assert_eq!(ready.describe(), "eth_call([4])");
    assert!(matches!(ready.id(), LooseId::Number(42)));
    assert_eq!(ready.expire_timeout, Duration::from_secs(30));
    assert_eq!(ready.kafka_debug_logger, Some(KafkaDebugLogger { id: 77 }));
    assert!(ready.permit.is_some());
    assert!(ready.stat_sender.is_some());
    assert!(ready.started_active_premium);
    assert_eq!(ready.min_block_needed(), Some(0));
    assert_eq!(ready.max_block_needed(), Some(4));
    assert_eq!(ready.proxy_mode(), ProxyMode::Debug);
}

#[test]
fn build_passes_errors_on() {
    let (app, _announce) = app(None, None);
    let builder = RequestBuilder::new(app)
        .authorize_internal(Ok(authorization(1, ProxyMode::Best)))
        .unwrap();
    let plan = builder.build(None).unwrap();
    let refused =
        plan.start(Err(Web3ProxyError::Other("busy".to_string())), Clock::start(), no_logger);
    assert_eq!(refused.err().unwrap().message(), "busy");
    let failed = builder.finish_build(Err(Web3ProxyError::Other("bad".to_string())));
    assert_eq!(failed.err().unwrap().message(), "bad");
}

#[test]
fn without_a_head_block_nothing_is_cached() {
    let step = setup(
        None,
        RequestOrMethod::Request(request("eth_call")),
        Some(Duration::from_secs(20)),
        None,
    )
    .step(SetupAnswer::ActivePremium(false));
    let ready = done(step).unwrap();
    assert!(matches!(ready.cache_mode, CacheMode::Never));
    assert_eq!(ready.max_block_needed(), None);
    assert_eq!(ready.min_block_needed(), None);
    assert!(!ready.cache_jsonrpc_errors());
    assert_eq!(ready.cache_key(|_: &CacheMode, _: &RequestOrMethod| panic!("not asked")), None);
    assert_eq!(ready.expire_timeout, Duration::from_secs(20));
}

#[test]
fn a_bare_method_is_not_cached() {
    let ready = ready(None);
    assert!(matches!(ready.cache_mode, CacheMode::Never));
    assert_eq!(ready.max_block_needed(), Some(100));
    assert!(matches!(ready.id(), LooseId::Missing));
    assert_eq!(ready.request_id.as_deref(), Some("trace"));
}

#[test]
fn an_error_of_the_cache_mode_ends_the_setup() {
    let inner = RequestOrMethod::Request(request("eth_call"));
    let step = setup(Some(block(1)), inner, None, None).step(SetupAnswer::ActivePremium(false));
    let error = Web3ProxyError::Other("future block".to_string());
    let result = done(pending(step).step(SetupAnswer::CacheMode(Err(error))));
    assert_eq!(result.err().unwrap().message(), "future block");
}

#[test]
fn an_answer_that_nobody_waits_for_changes_nothing() {
    let first = setup(None, RequestOrMethod::default(), None, None);
    let same = pending(first.step(SetupAnswer::RequestLogged));
    assert!(matches!(same.stage, SetupStage::StartPremium));
}

#[test]
fn the_debug_trail_sees_the_request_as_it_came() {
    let inner = RequestOrMethod::Request(request("as it came"));
    let logger = Some(KafkaDebugLogger { id: 5 });
    let first = setup(Some(block(1)), inner, None, logger);
    let logging = pending(first.step(SetupAnswer::ActivePremium(false)));
    assert!(matches!(logging.stage, SetupStage::DebugLog { .. }));
    assert_eq!(logging.request.method(), "as it came");
    let asking = pending(logging.step(SetupAnswer::RequestLogged));
    assert!(matches!(asking.stage, SetupStage::CacheMode { .. }));
    assert_eq!(asking.request.method(), "as it came");
}

#[test]
fn usual_waits() {
    for (premium, secs) in [(true, 295), (false, 60)] {
        let step = setup(None, RequestOrMethod::default(), None, None)
            .step(SetupAnswer::ActivePremium(!premium));
        let ready = done(pending(step).step(SetupAnswer::ActivePremium(premium))).unwrap();
        assert_eq!(ready.expire_timeout, Duration::from_secs(secs));
        assert_eq!(ready.connect_timeout, Duration::from_secs(10));
        assert_eq!(ready.started_active_premium, !premium);
    }
}

#[test]
fn a_short_wait_is_as_long_as_the_connect_timeout() {
    let wait = Some(Duration::from_secs(1));
    let step = setup(None, RequestOrMethod::default(), wait, None)
        .step(SetupAnswer::ActivePremium(true));
    assert_eq!(done(step).unwrap().expire_timeout, Duration::from_secs(10));
}

#[test]
fn timeouts_count_from_the_start() {
    let ready = ready(None);
    assert_eq!(ready.connect_timeout_at(), Moment { nanos: 10_000_001_000 });
    assert_eq!(ready.expire_at(), Moment { nanos: 60_000_001_000 });
    assert!(!ready.connect_timeout_by(Moment { nanos: 10_000_000_999 }));
    assert!(ready.connect_timeout_by(Moment { nanos: 10_000_001_000 }));
    assert!(!ready.expired_by(Moment { nanos: 60_000_000_999 }));
    assert!(ready.expired_by(Moment { nanos: 60_000_001_000 }));
    assert!(ready.expired_by(Moment { nanos: 60_000_001_001 }));
    assert!(!ready.connect_timeout());
    assert!(!ready.expired());
}

#[test]
fn deadlines_are_told_for_the_latest_start() {
    let mut ready = ready(None);
    let latest = Moment::at(u64::MAX, u32::MAX);
    ready.start_instant = latest;
    ready.expire_timeout = Duration { nanos: latest.nanos };
    assert_eq!(ready.connect_timeout_at().nanos, latest.nanos + 10_000_000_000);
    assert_eq!(ready.expire_at().nanos, 2 * latest.nanos);
    assert!(!ready.connect_timeout());
    assert!(!ready.expired());
}

#[test]
fn a_blank_request_has_no_time_left() {
    let blank = ValidatedRequest::default();
    assert!(blank.connect_timeout());
    assert!(blank.expired());
}

#[test]
fn internal_requests_have_the_first_identifier() {
    let params = serde_json::Value::Array(vec![]);
    let setup = ValidatedRequest::new_internal(
        None,
        Arc::new(authorization(1, ProxyMode::Debug)),
        "eth_blockNumber".to_string(),
        params.clone(),
        Some(block(8)),
        None,
        Clock::start(),
        no_logger,
    );
    assert_eq!(setup.chain_id, 0);
    assert_eq!(setup.usd_per_cu, Decimal { mantissa: 0, scale: 0 });
    assert!(setup.stat_sender.is_none());
    assert!(matches!(setup.request.id(), LooseId::Number(1)));
    assert_eq!(setup.request.method(), "eth_blockNumber");
    assert_eq!(setup.request.params_text(), "[]");
    let setup = pending(setup.step(SetupAnswer::ActivePremium(false)));
    let filled = serde_json::Value::Array(vec![serde_json::Value::from(8)]);
    let mode = CacheMode::Cached { from_block: None, to_block: None, cache_errors: false };
    let setup = pending(setup.step(SetupAnswer::CacheMode(Ok((filled, mode)))));
    let ready = done(setup.step(SetupAnswer::ActivePremium(false))).unwrap();
    assert!(matches!(ready.id(), LooseId::Number(1)));
    assert_eq!(ready.describe(), "eth_blockNumber([8])");
    assert!(ready.permit.is_none());
    assert!(ready.request_id.is_none());
    assert_eq!(ready.authorization.id, 1);

    let (app, _announce) = app(None, None);
    let setup = ValidatedRequest::new_internal(
        Some(&app),
        Arc::new(authorization(1, ProxyMode::Best)),
        "eth_blockNumber".to_string(),
        params,
        None,
        Some(Duration::from_secs(3)),
        Clock::start(),
        no_logger,
    );
    assert_eq!(setup.chain_id, 137);
    assert_eq!(setup.usd_per_cu, Decimal { mantissa: 4, scale: 6 });
    assert!(setup.kafka_debug_logger.is_none());
}

#[test]
fn the_cache_key_is_the_hash_of_mode_and_request() {
    let mut ready = ready(None);
    ready.cache_mode =
        CacheMode::Cached { from_block: Some(at(3)), to_block: None, cache_errors: false };
    let key = ready.cache_key(|mode: &CacheMode, inner: &RequestOrMethod| {
        assert!(matches!(mode, CacheMode::Cached { .. }));
        inner.method().len() as u64 + 10
    });
    assert_eq!(key, Some(11));
    assert_eq!(ready.min_block_needed(), Some(3));
    assert_eq!(ready.max_block_needed(), Some(100));
    assert!(!ready.cache_jsonrpc_errors());
    ready.cache_mode = CacheMode::Cached { from_block: None, to_block: None, cache_errors: true };
    assert!(ready.cache_jsonrpc_errors());
    assert_eq!(ready.min_block_needed(), None);
}

#[test]
fn a_request_is_described_by_method_and_parameters() {
    let mut ready = ready(None);
    assert_eq!(ready.describe(), "m(null)");
    ready.inner = RequestOrMethod::Request(request("eth_getBlockByNumber"));
    assert_eq!(ready.describe(), "eth_getBlockByNumber([\"latest\",false])");
    assert!(matches!(ready.id(), LooseId::Number(42)));
}

#[test]
fn a_response_is_recorded() {
    let mut ready = ready(None);
    ready.record_response(12, Moment { nanos: 3_500_001_000 }, 1_700_000_000);
    assert_eq!(ready.response.response_bytes, 12);
    assert_eq!(ready.response.response_millis, 3_500);
    assert_eq!(ready.response.response_timestamp, 1_700_000_000);
    let log = ready.set_response(&ResponseOrBytes::Bytes(9));
    assert_eq!(log, ResponseLog::Nothing);
    assert_eq!(ready.response.response_bytes, 9);
    assert_eq!(ready.response.response_timestamp, 1_700_000_000);
    assert!(!ready.response.error_response);
}

#[test]
fn the_timestamp_is_that_of_the_first_response() {
    for first in [0, 5, 1_700_000_000] {
        let mut ready = ready(None);
        ready.record_response(1, Moment { nanos: 1_000 }, first);
        ready.record_response(2, Moment { nanos: 9_001_000 }, 1_800_000_000);
        assert_eq!(ready.response.response_timestamp, first);
        assert_eq!(ready.response.response_bytes, 2);
        assert_eq!(ready.response.response_millis, 9);
        assert!(ready.response.has_response);
    }
    let mut ready = ready(None);
    assert!(!ready.response.has_response);
    ready.set_response(&ResponseOrBytes::Bytes(9));
    assert!(ready.response.response_timestamp > 1_700_000_000);
}

#[test]
fn a_failure_is_recorded_as_the_proxys_own() {
    let mut ready = ready(None);
    ready.response.user_error_response = true;
    ready.response.response_bytes = 5;
    ready.set_error_response(&Web3ProxyError::Other("down".to_string()));
    assert!(ready.response.error_response);
    assert!(!ready.response.user_error_response);
    assert_eq!(ready.response.response_bytes, 0);
    assert!(ready.response.response_timestamp > 0);
    ready.set_response(&ResponseOrBytes::Bytes(4));
    assert!(ready.response.error_response);
}

#[test]
fn the_debug_trail_holds_parsed_responses() {
    let parsed = ResponseOrBytes::Response(SingleResponse::Parsed { num_bytes: 31 });
    let stream = ResponseOrBytes::Response(SingleResponse::Stream { num_bytes: 32 });
    let mut ready = ready(None);
    assert_eq!(ready.set_response(&parsed), ResponseLog::Nothing);
    let logger = KafkaDebugLogger { id: 4 };
    ready.kafka_debug_logger = Some(logger);
    assert_eq!(ready.set_response(&parsed), ResponseLog::Log(logger));
    assert_eq!(ready.response.response_bytes, 31);
    assert_eq!(ready.set_response(&stream), ResponseLog::WarnStreaming);
    assert_eq!(ready.response.response_bytes, 32);
    assert_eq!(ready.set_response(&ResponseOrBytes::Bytes(1)), ResponseLog::Nothing);
}

#[test]
fn the_last_server_decides_whether_a_backup_answered() {
    let backup = Arc::new(Web3Rpc { name: "backup".to_string(), backup: true });
    let usual = Arc::new(Web3Rpc { name: "usual".to_string(), backup: false });
    let mut response = ValidatedResponse::default();
    assert!(!response.response_from_backup_rpc());
    response.backend_rpcs.push(usual.clone());
    assert!(!response.response_from_backup_rpc());
    response.backend_rpcs.push(backup);
    assert!(response.response_from_backup_rpc());
    response.backend_rpcs.push(usual);
    assert!(!response.response_from_backup_rpc());
    assert_eq!(response.backend_names(), vec!["usual", "backup", "usual"]);
}

#[test]
fn a_record_shows_the_request() {
    let mut ready = ready(None);
    let server = Arc::new(Web3Rpc { name: "one".to_string(), backup: false });
    ready.response.backend_rpcs.push(server.clone());
    ready.response.archive_request = true;
    ready.response.response_bytes = 6;
    assert!(Arc::ptr_eq(&ready.backend_rpcs_used()[0], &server));
    let record = ready.record_at(Moment { nanos: 4_000 });
    assert_eq!(record.chain_id, 1);
    assert_eq!(record.head_block.unwrap().number, 100);
    assert_eq!(record.request.method(), "m");
    assert_eq!(record.elapsed, Duration { nanos: 3_000 });
    assert!(record.archive_request);
    assert_eq!(record.backend_requests, vec!["one"]);
    assert_eq!(record.response_bytes, 6);
    assert_eq!(ready.record().response_bytes, 6);
}

fn received(stats: &mut UnboundedReceiver<AppStat>) -> Option<AppStat> {
    stats.try_recv().ok()
}

#[test]
fn a_stat_is_sent_once() {
    let (sender, mut stats) = unbounded_channel();
    let mut ready = ready(Some(sender));
    ready.response.response_bytes = 88;
    assert!(matches!(ready.finish(), StatDelivery::Sent));
    assert!(ready.stat_sender.is_none());
    assert!(matches!(ready.finish(), StatDelivery::NoSender));
    assert!(ready.try_send_stat().is_ok());
    let stat = received(&mut stats).unwrap();
    assert_eq!(stat.response.response_bytes, 88);
    assert_eq!(stat.request.method(), "m");
    assert_eq!(stat.authorization.id, 7);
    assert!(received(&mut stats).is_none());
}

#[test]
fn a_request_without_a_sender_sends_nothing() {
    assert!(ready(None).into_stat().is_none());
    assert!(matches!(ready(None).deliver_stat(), StatDelivery::NoSender));
    assert!(ready(None).try_send_stat().is_ok());
}

#[test]
fn a_stat_that_cannot_be_sent_is_handed_back() {
    let (sender, stats) = unbounded_channel();
    drop(stats);
    let request = ready(Some(sender.clone()));
    match request.deliver_stat() {
        StatDelivery::Unsent(stat) => assert_eq!(stat.request_id.as_deref(), Some("trace")),
        _ => panic!("the channel is closed"),
    }
    assert!(ready(Some(sender)).try_send_stat().is_ok());
}

#[test]
fn a_shared_request_sends_its_stat_when_the_last_holder_is_done() {
    let (sender, mut stats) = unbounded_channel();
    let shared = Arc::new(ready(Some(sender)));
    let other = shared.clone();
    assert!(shared.try_send_arc_stat().is_ok());
    assert!(received(&mut stats).is_none());
    assert!(other.try_send_arc_stat().is_ok());
    assert_eq!(received(&mut stats).unwrap().chain_id, 1);
}

#[test]
fn a_request_that_is_still_shared_keeps_its_stat() {
    assert!(ValidatedRequest::deliver_unshared_stat(None).is_none());
    let (sender, mut stats) = unbounded_channel();
    let delivery = ValidatedRequest::deliver_unshared_stat(Some(ready(Some(sender))));
    assert!(matches!(delivery, Some(StatDelivery::Sent)));
    assert!(received(&mut stats).is_some());
    let shared = Arc::new(ready(None));
    let other = shared.clone();
    assert!(shared.deliver_arc_stat().is_none());
    assert!(matches!(other.deliver_arc_stat(), Some(StatDelivery::NoSender)));
}

#[test]
fn a_request_of_an_app_sends_its_stat_where_the_app_says() {
    let (sender, mut stats) = unbounded_channel();
    let (app, _announce) = app(Some(block(5)), Some(sender));
    let setup = ValidatedRequest::new_with_app(
        &app,
        Arc::new(authorization(2, ProxyMode::Best)),
        Some(Duration::from_secs(11)),
        None,
        RequestOrMethod::Method("sub".to_string(), 1),
        None,
        None,
        Clock::start(),
        no_logger,
    );
    let request = done(setup.step(SetupAnswer::ActivePremium(false))).unwrap();
    assert!(matches!(Arc::new(request).deliver_arc_stat(), Some(StatDelivery::Sent)));
    let stat = received(&mut stats).unwrap();
    assert_eq!(stat.chain_id, 137);
    assert_eq!(stat.authorization.id, 2);
}
