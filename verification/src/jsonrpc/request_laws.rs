//! What holds of a request that is ready: of the blocks it needs, of its deadlines, of the
//! record of its response and of its stat.
use crate::block::CacheMode;
use crate::errors::{Web3ProxyError, Web3ProxyResult};
use crate::frontend::authorization::ProxyMode;
use crate::jsonrpc::request::{LooseId, RequestOrMethod};
use crate::jsonrpc::response::{
    ResponseLog, ResponseOrBytes, ResponseView, SingleResponse, ValidatedResponse, Web3Rpc,
};
use crate::jsonrpc::validated::{RequestRecord, RequestView, ValidatedRequest};
use crate::stats::{AppStat, StatDelivery};
use crate::time::Moment;
use std::sync::Arc;
use vstd::prelude::*;

verus! {

/// What is said of the contents of a request is said of the request: every part of it is
/// among them, as it is.
pub proof fn law_view_holds_every_part(request: ValidatedRequest)
    ensures
        request@.authorization == *request.authorization,
        request@.cache_mode == request.cache_mode,
        request@.chain_id == request.chain_id,
        request@.head_block == request.head_block,
        request@.usd_per_cu == request.usd_per_cu,
        request@.inner == request.inner,
        request@.started_active_premium == request.started_active_premium,
        request@.clock == request.clock,
        request@.start_instant == request.start_instant,
        request@.kafka_debug_logger == request.kafka_debug_logger,
        request@.stat_sender == request.stat_sender,
        request@.connect_timeout == request.connect_timeout,
        request@.expire_timeout == request.expire_timeout,
        request@.permit == request.permit,
        request@.request_id == request.request_id,
        request@.response.archive_request == request.response.archive_request,
        request@.response.backend_rpcs == request.response.backend_rpcs@,
        request@.response.no_servers == request.response.no_servers,
        request@.response.error_response == request.response.error_response,
        request@.response.response_bytes == request.response.response_bytes,
        request@.response.response_millis == request.response.response_millis,
        request@.response.has_response == request.response.has_response,
        request@.response.response_timestamp == request.response.response_timestamp,
        request@.response.user_error_response == request.response.user_error_response,
{
}

/// The lowest block that a request needs is the first one that it asks about, whatever the
/// last one is, and whether or not it is an archive request. Where it names no first block, an
/// archive request needs every block from the first of the chain on, and any other needs none
/// in particular.
pub proof fn law_lowest_block(request: ValidatedRequest, lowest: Option<u64>)
    requires
        call_ensures(ValidatedRequest::min_block_needed, (&request,), lowest),
    ensures
        match request.cache_mode {
            CacheMode::Cached { from_block: Some(first), .. } => lowest == Some(first.num),
            _ => if request.response.archive_request {
                lowest == Some(0u64)
            } else {
                lowest is None
            },
        },
{
}

/// The highest block that a request needs is the last one that it asks about. Where it names
/// none, it is the head block that was known when the request was received.
pub proof fn law_highest_block(request: ValidatedRequest, highest: Option<u64>)
    requires
        call_ensures(ValidatedRequest::max_block_needed, (&request,), highest),
    ensures
        match request.cache_mode {
            CacheMode::Cached { to_block: Some(last), .. } => highest == Some(last.num),
            _ => match request.head_block {
                Some(head) => highest == Some(head.number),
                None => highest is None,
            },
        },
{
}

/// A request that asks about a range of blocks needs that range: the lowest block that it needs
/// is not above the highest, and both ends are its own. A range without an end goes up to the
/// head block.
pub proof fn law_block_range_is_needed_whole(
    request: ValidatedRequest,
    lowest: Option<u64>,
    highest: Option<u64>,
    block: u64,
)
    requires
        call_ensures(ValidatedRequest::min_block_needed, (&request,), lowest),
        call_ensures(ValidatedRequest::max_block_needed, (&request,), highest),
    ensures
        request.cache_mode matches CacheMode::Cached {
            from_block: Some(first),
            to_block: Some(last),
            ..
        } ==> {
            &&& lowest is Some && highest is Some
            &&& first.num <= block <= last.num <==> lowest->0 <= block <= highest->0
            &&& first.num <= last.num ==> lowest->0 <= highest->0
        },
        request.cache_mode matches CacheMode::Cached { from_block: Some(first), to_block: None, .. }
            ==> (request.head_block matches Some(head) ==> {
            &&& lowest is Some && highest is Some
            &&& first.num <= block <= head.number <==> lowest->0 <= block <= highest->0
        }),
{
}

/// A request has expired from its deadline on and not before. The deadline lies as long after
/// the start as the request waits for a response, whatever is recorded of the response and of
/// the servers that were asked.
pub proof fn law_expires_at_its_deadline(
    request: ValidatedRequest,
    deadline: Moment,
    now: Moment,
    expired: bool,
)
    requires
        call_ensures(ValidatedRequest::expire_at, (&request,), deadline),
        call_ensures(ValidatedRequest::expired_by, (&request, now), expired),
    ensures
        deadline.nanos == request.start_instant.nanos + request.expire_timeout.nanos,
        expired <==> deadline.nanos <= now.nanos,
        now == deadline ==> expired,
        now.nanos < deadline.nanos ==> !expired,
{
}

/// A request is given up for want of a server from its deadline for that on and not before. The
/// deadline lies as long after the start as the request waits for a server, whatever is
/// recorded of the response and of the servers that were asked.
pub proof fn law_connect_times_out_at_its_deadline(
    request: ValidatedRequest,
    deadline: Moment,
    now: Moment,
    timed_out: bool,
)
    requires
        call_ensures(ValidatedRequest::connect_timeout_at, (&request,), deadline),
        call_ensures(ValidatedRequest::connect_timeout_by, (&request, now), timed_out),
    ensures
        deadline.nanos == request.start_instant.nanos + request.connect_timeout.nanos,
        timed_out <==> deadline.nanos <= now.nanos,
        now == deadline ==> timed_out,
        now.nanos < deadline.nanos ==> !timed_out,
{
}

/// A deadline can be asked for, and whether it has passed, whenever the point at which it lies
/// can be represented.
pub proof fn law_deadlines_can_be_asked_for(request: ValidatedRequest, now: Moment)
    ensures
        request.start_instant.nanos + request.expire_timeout.nanos <= u128::MAX ==> {
            &&& call_requires(ValidatedRequest::expire_at, (&request,))
            &&& call_requires(ValidatedRequest::expired_by, (&request, now))
            &&& call_requires(ValidatedRequest::expired, (&request,))
        },
        request.start_instant.nanos + request.connect_timeout.nanos <= u128::MAX ==> {
            &&& call_requires(ValidatedRequest::connect_timeout_at, (&request,))
            &&& call_requires(ValidatedRequest::connect_timeout_by, (&request, now))
            &&& call_requires(ValidatedRequest::connect_timeout, (&request,))
        },
{
}

/// Whether a request has expired is told as of the time that its own clock shows, and so is
/// whether it is given up for want of a server.
pub proof fn law_timeouts_are_told_by_the_clock(
    request: ValidatedRequest,
    expired: bool,
    timed_out: bool,
)
    requires
        call_ensures(ValidatedRequest::expired, (&request,), expired),
        call_ensures(ValidatedRequest::connect_timeout, (&request,), timed_out),
    ensures
        exists|now: Moment| #[trigger]
            request.clock.shows(now) && expired == (request.start_instant.nanos
                + request.expire_timeout.nanos <= now.nanos),
        exists|now: Moment| #[trigger]
            request.clock.shows(now) && timed_out == (request.start_instant.nanos
                + request.connect_timeout.nanos <= now.nanos),
{
}

/// Two requests that started at the same time and wait equally long expire at the same time,
/// however else they differ.
pub proof fn law_only_start_and_wait_decide_expiry(
    a: ValidatedRequest,
    b: ValidatedRequest,
    now: Moment,
    a_expired: bool,
    b_expired: bool,
)
    requires
        a.start_instant == b.start_instant,
        a.expire_timeout == b.expire_timeout,
        call_ensures(ValidatedRequest::expired_by, (&a, now), a_expired),
        call_ensures(ValidatedRequest::expired_by, (&b, now), b_expired),
    ensures
        a_expired == b_expired,
{
}

/// From `before` to `after`, a response of `num_bytes` was recorded that was passed on at `now`:
/// its size, the whole milliseconds from the start of the request to `now`, and, if it is the
/// first response, its Unix timestamp. Nothing else changed.
pub open spec fn is_recorded(
    before: RequestView,
    after: RequestView,
    num_bytes: u64,
    now: Moment,
    timestamp: i64,
) -> bool {
    let nanos = now.nanos - before.start_instant.nanos;
    &&& after.response.response_bytes == num_bytes
    &&& nanos <= 0 ==> after.response.response_millis == 0
    &&& 0 <= nanos / 1_000_000 <= u64::MAX ==> after.response.response_millis == nanos / 1_000_000
    &&& after.response.has_response
    &&& after.response.response_timestamp == if before.response.has_response {
        before.response.response_timestamp
    } else {
        timestamp
    }
    &&& after == RequestView {
        response: ResponseView {
            response_bytes: after.response.response_bytes,
            response_millis: after.response.response_millis,
            has_response: after.response.has_response,
            response_timestamp: after.response.response_timestamp,
            ..before.response
        },
        ..before
    }
}

/// A response is recorded with its size and with the whole milliseconds that it took, counted
/// from the start of the request, the first response as well as any later one.
pub proof fn law_response_is_recorded(
    request: &mut ValidatedRequest,
    num_bytes: u64,
    now: Moment,
    timestamp: i64,
)
    requires
        call_ensures(ValidatedRequest::record_response, (request, num_bytes, now, timestamp), ()),
    ensures
        is_recorded(old(request)@, final(request)@, num_bytes, now, timestamp),
{
}

/// A response that took longer is not recorded as having taken less time, and the clock's origin
/// does not matter: where the start and the response both lie `shift` later, the same time is
/// recorded.
pub proof fn law_time_taken_counts_from_the_start(
    one: &mut ValidatedRequest,
    other: &mut ValidatedRequest,
    num_bytes: u64,
    now: Moment,
    later: Moment,
    timestamp: i64,
    shift: nat,
)
    requires
        call_ensures(ValidatedRequest::record_response, (one, num_bytes, now, timestamp), ()),
        call_ensures(ValidatedRequest::record_response, (other, num_bytes, later, timestamp), ()),
        one.start_instant.nanos <= now.nanos,
        later.nanos - one.start_instant.nanos < 0x1_0000_0000_0000_0000 * 1_000_000,
    ensures
        old(other).start_instant == old(one).start_instant && now.nanos <= later.nanos
            ==> final(one).response.response_millis <= final(other).response.response_millis,
        old(other).start_instant.nanos == old(one).start_instant.nanos + shift && later.nanos
            == now.nanos + shift ==> final(one).response.response_millis
            == final(other).response.response_millis,
{
}

/// A response is recorded with its own size, as of the time that the request's own clock shows
/// and with a timestamp that chrono tells. The debug trail holds a response that was read
/// whole, if the request has a logger.
pub proof fn law_response_is_recorded_as_of_now(
    request: &mut ValidatedRequest,
    response: ResponseOrBytes,
    log: ResponseLog,
)
    requires
        call_ensures(ValidatedRequest::set_response, (request, &response), log),
    ensures
        exists|now: Moment, timestamp: i64|
            #![trigger old(request).clock.shows(now), crate::time::utc_shows(timestamp)]
            old(request).clock.shows(now) && crate::time::utc_shows(timestamp) && is_recorded(
                old(request)@,
                final(request)@,
                match response {
                    ResponseOrBytes::Response(SingleResponse::Parsed { num_bytes }) => num_bytes,
                    ResponseOrBytes::Response(SingleResponse::Stream { num_bytes }) => num_bytes,
                    ResponseOrBytes::Bytes(num_bytes) => num_bytes,
                },
                now,
                timestamp,
            ),
        match old(request).kafka_debug_logger {
            None => log is Nothing,
            Some(logger) => match response {
                ResponseOrBytes::Response(SingleResponse::Parsed { .. }) => log == ResponseLog::Log(
                    logger,
                ),
                ResponseOrBytes::Response(SingleResponse::Stream { .. }) => log is WarnStreaming,
                ResponseOrBytes::Bytes(_) => log is Nothing,
            },
        },
{
}

/// A failure inside the proxy is recorded as such and as an empty response, not as the sender's
/// error, and nothing of it goes to the debug trail.
pub proof fn law_failure_is_recorded_as_of_now(
    request: &mut ValidatedRequest,
    error: Web3ProxyError,
    log: ResponseLog,
)
    requires
        call_ensures(ValidatedRequest::set_error_response, (request, &error), log),
    ensures
        exists|now: Moment, timestamp: i64|
            #![trigger old(request).clock.shows(now), crate::time::utc_shows(timestamp)]
            old(request).clock.shows(now) && crate::time::utc_shows(timestamp) && is_recorded(
                (RequestView {
                    response: ResponseView {
                        error_response: true,
                        user_error_response: false,
                        ..old(request)@.response
                    },
                    ..old(request)@
                }),
                final(request)@,
                0,
                now,
                timestamp,
            ),
        log is Nothing,
{
}

/// A request has a cache key exactly if its response may be cached, and the key is that of its
/// own cache mode and its own request. Without one, nothing is asked of `hash`.
pub proof fn law_cache_key<F: FnOnce(&CacheMode, &RequestOrMethod) -> u64>(
    request: ValidatedRequest,
    hash: F,
    key: Option<u64>,
)
    ensures
        request.cache_mode is Never ==> call_requires(
            ValidatedRequest::cache_key::<F>,
            (&request, hash),
        ),
        call_ensures(ValidatedRequest::cache_key::<F>, (&request, hash), key) ==> {
            &&& key is Some <==> request.cache_mode is Cached
            &&& key matches Some(key) ==> call_ensures(
                hash,
                (&request.cache_mode, &request.inner),
                key,
            )
        },
{
}

/// A request is described by its method and, in round brackets, its parameters as JSON, `null`
/// where they are not known.
pub proof fn law_description(request: ValidatedRequest, text: String)
    requires
        call_ensures(ValidatedRequest::describe, (&request,), text),
    ensures
        match request.inner {
            RequestOrMethod::Request(asked) => text@ == asked.method@ + "("@ + crate::jsonrpc::request::json_text(
                asked.params,
            ) + ")"@,
            RequestOrMethod::Method(method, _) => text@ == method@ + "("@ + "null"@ + ")"@,
        },
{
}

/// What a request tells of itself is its own: the sender's identifier, the sender's mode, whether
/// errors are cached, and the servers that were asked, each in its place.
pub proof fn law_request_tells_its_own(
    request: ValidatedRequest,
    id: LooseId,
    mode: ProxyMode,
    cached: bool,
    used: Vec<Arc<Web3Rpc>>,
)
    requires
        call_ensures(ValidatedRequest::id, (&request,), id),
        call_ensures(ValidatedRequest::proxy_mode, (&request,), mode),
        call_ensures(ValidatedRequest::cache_jsonrpc_errors, (&request,), cached),
        call_ensures(ValidatedRequest::backend_rpcs_used, (&request,), used),
    ensures
        match request.inner {
            RequestOrMethod::Request(asked) => id == asked.id,
            RequestOrMethod::Method(_, _) => id is Missing,
        },
        mode == request.authorization.checks.proxy_mode,
        match request.cache_mode {
            CacheMode::Never => !cached,
            CacheMode::Cached { cache_errors, .. } => cached == cache_errors,
        },
        used@ == request.response.backend_rpcs@,
{
}

/// A log shows a request as it is: what it asks, how long ago it started, and the names of the
/// servers that were asked, each in its place.
pub proof fn law_log_shows_the_request(request: ValidatedRequest, now: Moment, record: RequestRecord)
    requires
        call_ensures(ValidatedRequest::record_at, (&request, now), record),
    ensures
        record.chain_id == request.chain_id,
        record.head_block == request.head_block,
        record.request == request.inner,
        request.start_instant.nanos <= now.nanos ==> record.elapsed.nanos == now.nanos
            - request.start_instant.nanos,
        now.nanos <= request.start_instant.nanos ==> record.elapsed.nanos == 0,
        record.archive_request == request.response.archive_request,
        record.backend_requests@.len() == request.response.backend_rpcs@.len(),
        forall|i: int|
            0 <= i < record.backend_requests@.len() ==> (#[trigger] record.backend_requests@[i])
                == request.response.backend_rpcs@[i].name,
        record.response_bytes == request.response.response_bytes,
{
}

/// A response comes from a backup server exactly if the last server that was asked is one.
pub proof fn law_last_server_tells_backup(response: ValidatedResponse, backup: bool)
    requires
        call_ensures(ValidatedResponse::response_from_backup_rpc, (&response,), backup),
    ensures
        response.backend_rpcs@.len() == 0 ==> !backup,
        response.backend_rpcs@.len() > 0 ==> backup
            == response.backend_rpcs@[response.backend_rpcs@.len() - 1].backup,
{
}

/// The stat of a request holds all that is charged for and nothing of another request, and it
/// goes to the request's own channel.
pub proof fn law_stat_holds_the_request(
    request: ValidatedRequest,
    pending: Option<(tokio::sync::mpsc::UnboundedSender<AppStat>, AppStat)>,
)
    requires
        call_ensures(ValidatedRequest::into_stat, (request,), pending),
    ensures
        pending is Some <==> request.stat_sender is Some,
        pending matches Some((sender, stat)) ==> {
            &&& Some(sender) == request.stat_sender
            &&& stat.authorization == request.authorization
            &&& stat.cache_mode == request.cache_mode
            &&& stat.chain_id == request.chain_id
            &&& stat.head_block == request.head_block
            &&& stat.usd_per_cu == request.usd_per_cu
            &&& stat.response == request.response
            &&& stat.request == request.inner
            &&& stat.started_active_premium == request.started_active_premium
            &&& stat.start_instant == request.start_instant
            &&& stat.request_id == request.request_id
            &&& stat == request.stat()
        },
{
}

/// Delivering the stat of a request through `send` calls it exactly once. That takes no more of
/// `send` than that it takes this one stat for this one channel, and `send` can be called once
/// only; so it is not called again, nor with another stat, nor at all for a request without a
/// channel. For a request with a channel it is called, and what becomes of the stat is what
/// `send` says.
pub proof fn law_send_is_called_exactly_once<
    S: FnOnce(tokio::sync::mpsc::UnboundedSender<AppStat>, AppStat) -> StatDelivery,
>(request: ValidatedRequest, send: S, delivery: StatDelivery)
    ensures
        (request.stat_sender matches Some(sender) ==> call_requires(
            send,
            (sender, request.stat()),
        )) ==> call_requires(ValidatedRequest::deliver_stat_through::<S>, (request, send)),
        call_ensures(ValidatedRequest::deliver_stat_through::<S>, (request, send), delivery) ==> {
            match request.stat_sender {
                Some(sender) => call_ensures(send, (sender, request.stat()), delivery),
                None => delivery is NoSender,
            }
        },
{
}

/// Where a stat was delivered on a channel, it is the request's own that was handed over there.
proof fn lemma_own_stat_is_handed_over(request: &ValidatedRequest, delivery: StatDelivery)
    requires
        request.stat_delivered(delivery),
    ensures
        request.stat_sender matches Some(sender) ==> exists|sent: Result<(), AppStat>| #[trigger]
            crate::stats::was_handed_over(sender, request.stat(), sent) && match sent {
                Ok(_) => delivery is Sent,
                Err(unsent) => delivery == StatDelivery::Unsent(unsent),
            },
{
    if request.stat_sender is Some {
        let pending = request.pending_stat()->0;
        let sent = choose|sent: Result<(), AppStat>|
            #[trigger] crate::stats::was_handed_over(pending.0, pending.1, sent) && delivery == StatDelivery::of(
                sent,
            );
        assert(crate::stats::was_handed_over(request.stat_sender->0, request.stat(), sent));
    }
}

/// A request that sends its stat hands its own stat to its own channel, and says so truly:
/// without a channel nothing is sent, and a stat that the channel does not take comes back.
pub proof fn law_own_stat_is_delivered(request: ValidatedRequest, delivery: StatDelivery)
    requires
        call_ensures(ValidatedRequest::deliver_stat, (request,), delivery),
    ensures
        delivery is NoSender <==> request.stat_sender is None,
        request.stat_sender matches Some(sender) ==> exists|sent: Result<(), AppStat>| #[trigger]
            crate::stats::was_handed_over(sender, request.stat(), sent) && match sent {
                Ok(_) => delivery is Sent,
                Err(unsent) => delivery == StatDelivery::Unsent(unsent),
            },
        delivery matches StatDelivery::Unsent(unsent) ==> unsent == request.stat(),
{
    lemma_own_stat_is_handed_over(&request, delivery);
}

/// Sending the stat of a request never fails, and a request with a channel has handed its own
/// stat to it.
pub proof fn law_sending_a_stat_never_fails(request: ValidatedRequest, result: Web3ProxyResult<()>)
    requires
        call_ensures(ValidatedRequest::try_send_stat, (request,), result),
    ensures
        result is Ok,
        request.stat_sender matches Some(sender) ==> exists|sent: Result<(), AppStat>| #[trigger]
            crate::stats::was_handed_over(sender, request.stat(), sent),
{
}

/// A request that goes away twice sends its stat the first time and nothing the second time.
/// After the first time nothing of it is left but an empty request, if it had a channel; one
/// that had none stays as it is.
pub proof fn law_finishing_twice_sends_once(
    first: &mut ValidatedRequest,
    delivery: StatDelivery,
    second: &mut ValidatedRequest,
    again: StatDelivery,
)
    requires
        call_ensures(ValidatedRequest::finish, (first,), delivery),
        call_ensures(ValidatedRequest::finish, (second,), again),
        *second == *final(first),
    ensures
        delivery is NoSender <==> old(first).stat_sender is None,
        old(first).stat_sender matches Some(sender) ==> exists|sent: Result<(), AppStat>| #[trigger]
            crate::stats::was_handed_over(sender, old(first).stat(), sent),
        old(first).stat_sender is None ==> *final(first) == *old(first),
        final(first).stat_sender is None,
        again is NoSender,
        *final(second) == *old(second),
{
    lemma_own_stat_is_handed_over(&*first, delivery);
}

/// A shared request sends its own stat, and only where nobody else holds the request any more.
pub proof fn law_shared_request_sends_its_own_stat(
    shared: Arc<ValidatedRequest>,
    delivery: Option<StatDelivery>,
)
    requires
        call_ensures(ValidatedRequest::deliver_arc_stat, (shared,), delivery),
    ensures
        delivery is None ==> shared.was_taken_out(None),
        delivery matches Some(delivery) ==> {
            &&& delivery is NoSender <==> shared.stat_sender is None
            &&& shared.stat_sender matches Some(sender) ==> exists|sent: Result<(), AppStat>|
                #[trigger]
                crate::stats::was_handed_over(sender, shared.stat(), sent)
        },
{
    if delivery is Some {
        lemma_own_stat_is_handed_over(&*shared, delivery->0);
    }
}

/// A request that is still shared keeps its stat, and one that is not sends it as any request
/// does.
pub proof fn law_only_an_unshared_request_sends(
    unshared: Option<ValidatedRequest>,
    delivery: Option<StatDelivery>,
)
    requires
        call_ensures(ValidatedRequest::deliver_unshared_stat, (unshared,), delivery),
    ensures
        delivery is Some <==> unshared is Some,
        unshared matches Some(request) ==> {
            &&& delivery->0 is NoSender <==> request.stat_sender is None
            &&& request.stat_sender matches Some(sender) ==> exists|sent: Result<(), AppStat>|
                #[trigger]
                crate::stats::was_handed_over(sender, request.stat(), sent)
        },
{
    if unshared is Some {
        lemma_own_stat_is_handed_over(&unshared->0, delivery->0);
    }
}

/// Sending the stat of a shared request never fails, and where the request was taken out of its
/// last handle, its own stat was handed to its own channel.
pub proof fn law_sending_a_shared_stat_never_fails(
    shared: Arc<ValidatedRequest>,
    result: Web3ProxyResult<()>,
)
    requires
        call_ensures(ValidatedRequest::try_send_arc_stat, (shared,), result),
    ensures
        result is Ok,
        exists|unshared: Option<ValidatedRequest>| #[trigger]
            shared.was_taken_out(unshared) && (unshared is Some && shared.stat_sender is Some
                ==> exists|sent: Result<(), AppStat>| #[trigger]
                crate::stats::was_handed_over(shared.stat_sender->0, shared.stat(), sent)),
{
}

/// A request of which nothing is known may not be cached, needs no block, has nobody to send a
/// stat to, and has no time left.
pub proof fn law_blank_request(
    blank: ValidatedRequest,
    lowest: Option<u64>,
    highest: Option<u64>,
    now: Moment,
    expired: bool,
)
    requires
        call_ensures(<ValidatedRequest as Default>::default, (), blank),
        call_ensures(ValidatedRequest::min_block_needed, (&blank,), lowest),
        call_ensures(ValidatedRequest::max_block_needed, (&blank,), highest),
        call_ensures(ValidatedRequest::expired_by, (&blank, now), expired),
    ensures
        blank.cache_mode is Never,
        lowest is None,
        highest is None,
        blank.stat_sender is None,
        blank.permit is None,
        blank.request_id is None,
        blank.kafka_debug_logger is None,
        blank.head_block is None,
        blank.chain_id == 0,
        blank.usd_per_cu.mantissa == 0,
        !blank.started_active_premium,
        blank.clock.shows(blank.start_instant),
        blank.start_instant.nanos <= now.nanos ==> expired,
        blank.response.backend_rpcs@.len() == 0,
        blank.response.no_servers == 0,
        blank.response.response_bytes == 0,
        blank.response.response_millis == 0,
        blank.response.response_timestamp == 0,
        !blank.response.archive_request,
        !blank.response.error_response,
        !blank.response.user_error_response,
        !blank.response.has_response,
{
}

} // verus!
