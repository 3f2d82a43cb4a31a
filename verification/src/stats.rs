//! What is kept of a finished request, and where it is sent.
use crate::block::{BlockHeader, CacheMode};
use crate::call::call_with_two;
use crate::decimal::Decimal;
use crate::frontend::authorization::Authorization;
use crate::jsonrpc::request::RequestOrMethod;
use crate::jsonrpc::response::ValidatedResponse;
use crate::jsonrpc::validated::ValidatedRequest;
use crate::time::Moment;
use std::sync::Arc;
use vstd::prelude::*;

verus! {

/// What is kept of a finished request.
#[derive(Debug)]
pub struct AppStat {
    pub authorization: Arc<Authorization>,
    pub cache_mode: CacheMode,
    pub chain_id: u64,
    pub head_block: Option<BlockHeader>,
    pub usd_per_cu: Decimal,
    pub response: ValidatedResponse,
    pub request: RequestOrMethod,
    pub started_active_premium: bool,
    pub start_instant: Moment,
    pub request_id: Option<String>,
}

/// What became of the stat of a request.
#[derive(Debug)]
pub enum StatDelivery {
    /// The request has nowhere to send a stat.
    NoSender,
    /// The stat was handed to the channel.
    Sent,
    /// The other end of the channel is closed; this is the stat that was not sent.
    Unsent(AppStat),
}

/// The sending end of a Tokio channel without a bound, with nothing inside that can be read.
#[verifier::external_type_specification]
#[verifier::external_body]
#[verifier::reject_recursive_types(T)]
pub struct ExUnboundedSender<T>(tokio::sync::mpsc::UnboundedSender<T>);

/// `Clone` of a sender: the copy is a handle on the same channel, and a handle is nothing
/// but the channel that it leads to.
pub assume_specification<T>[ <tokio::sync::mpsc::UnboundedSender<T> as Clone>::clone ](
    sender: &tokio::sync::mpsc::UnboundedSender<T>,
) -> (copy: tokio::sync::mpsc::UnboundedSender<T>)
    ensures
        copy == *sender,
;

/// Calls `tokio::sync::mpsc::UnboundedSender::send`. Whether the stat can be sent depends
/// on the other end of the channel; where it cannot, it is handed back as it was.
#[verifier::external_body]
fn send_stat(
    sender: &tokio::sync::mpsc::UnboundedSender<AppStat>,
    stat: AppStat,
) -> (sent: Result<(), AppStat>)
    ensures
        sent matches Err(unsent) ==> unsent == stat,
{
    match sender.send(stat) {
        Ok(()) => Ok(()),
        Err(error) => Err(error.0),
    }
}

/// `stat` was handed to the channel of `sender`, and `sent` is how the channel took it.
pub closed spec fn was_handed_over(
    sender: tokio::sync::mpsc::UnboundedSender<AppStat>,
    stat: AppStat,
    sent: Result<(), AppStat>,
) -> bool {
    call_ensures(send_stat, (&sender, stat), sent)
}

/// A stat that was handed over went through `send_stat`, on the channel of that sender, and
/// what became of it is how that channel took it.
proof fn law_handing_over_is_sending(
    sender: tokio::sync::mpsc::UnboundedSender<AppStat>,
    stat: AppStat,
    delivery: StatDelivery,
)
    requires
        call_ensures(hand_over, (sender, stat), delivery),
    ensures
        exists|sent: Result<(), AppStat>| #[trigger]
            call_ensures(send_stat, (&sender, stat), sent) && match sent {
                Ok(_) => delivery is Sent,
                Err(unsent) => unsent == stat && delivery == StatDelivery::Unsent(stat),
            },
{
    let sent = choose|sent: Result<(), AppStat>|
        #[trigger] was_handed_over(sender, stat, sent) && delivery == StatDelivery::of(sent);
    assert(call_ensures(send_stat, (&sender, stat), sent));
}

/// A stat that a channel does not take is handed back as it was.
pub proof fn law_unsent_stat_is_handed_back(
    sender: tokio::sync::mpsc::UnboundedSender<AppStat>,
    stat: AppStat,
    sent: Result<(), AppStat>,
)
    requires
        was_handed_over(sender, stat, sent),
    ensures
        sent matches Err(unsent) ==> unsent == stat,
{
}

impl StatDelivery {
    /// What became of a stat that a channel took in the given way.
    pub open spec fn of(sent: Result<(), AppStat>) -> StatDelivery {
        match sent {
            Ok(_) => StatDelivery::Sent,
            Err(unsent) => StatDelivery::Unsent(unsent),
        }
    }
}

/// Hands `stat` to the channel of `sender` and says what became of it.
fn hand_over(
    sender: tokio::sync::mpsc::UnboundedSender<AppStat>,
    stat: AppStat,
) -> (delivery: StatDelivery)
    ensures
        exists|sent: Result<(), AppStat>|
            #[trigger] was_handed_over(sender, stat, sent) && delivery == StatDelivery::of(sent),
        delivery matches StatDelivery::Unsent(unsent) ==> unsent == stat,
{
    let sent = call_with_two(send_stat, &sender, stat);
    assert(was_handed_over(sender, stat, sent));
    match sent {
        Ok(()) => StatDelivery::Sent,
        Err(unsent) => StatDelivery::Unsent(unsent),
    }
}

impl ValidatedRequest {
    /// Sends the stat of the request, if it has somewhere to send it. Says what became of it.
    /// The request is given up for it, so its stat can be sent this one time only.
    pub fn deliver_stat(self) -> (delivery: StatDelivery)
        ensures
            self.stat_delivered(delivery),
    {
        let ghost request = self;
        let delivery = self.deliver_stat_through(hand_over);
        proof {
            if let Some(pending) = request.pending_stat() {
                let sent = choose|sent: Result<(), AppStat>|
                    #[trigger] was_handed_over(pending.0, pending.1, sent) && delivery
                        == StatDelivery::of(sent);
                assert(was_handed_over(pending.0, pending.1, sent));
            }
        }
        delivery
    }
}

} // verus!
