//! What the requests of one process share.
use crate::block::BlockHeader;
use crate::call::call_with_one;
use crate::decimal::Decimal;
use crate::frontend::authorization::AllowedOrigins;
use crate::stats::AppStat;
use vstd::prelude::*;

verus! {

/// The receiving end of a Tokio watch channel, with nothing inside that can be read.
#[verifier::external_type_specification]
#[verifier::external_body]
#[verifier::reject_recursive_types(T)]
pub struct ExWatchReceiver<T>(tokio::sync::watch::Receiver<T>);

/// Calls `tokio::sync::watch::Receiver::borrow` and copies what it refers to. Nothing is
/// claimed of the block: it is the one that was announced last when the call is made.
#[verifier::external_body]
fn latest_announced(
    receiver: &tokio::sync::watch::Receiver<Option<BlockHeader>>,
) -> (latest: Option<BlockHeader>) {
    receiver.borrow().clone()
}

/// The settings of the proxy.
#[derive(Debug)]
pub struct AppConfig {
    /// The chain that the servers follow.
    pub chain_id: u64,
    /// The price of one compute unit in US dollars.
    pub usd_per_cu: Option<Decimal>,
    /// How many requests each origin may send in one period.
    pub allowed_origin_requests_per_period: AllowedOrigins,
}

/// What the requests of one process share.
#[derive(Debug)]
pub struct App {
    pub config: AppConfig,
    /// Announces each new head block.
    pub watch_consensus_head_receiver: tokio::sync::watch::Receiver<Option<BlockHeader>>,
    /// Where the stats of finished requests go.
    pub stat_sender: Option<tokio::sync::mpsc::UnboundedSender<AppStat>>,
}

impl App {
    /// The sender for stats of an app that may not be there.
    pub open spec fn stat_sender_of(
        app: Option<&App>,
    ) -> Option<tokio::sync::mpsc::UnboundedSender<AppStat>> {
        match app {
            Some(app) => app.stat_sender,
            None => None,
        }
    }

    /// `head_block` is what was announced last to this app at the time of a call.
    pub closed spec fn announced(self, head_block: Option<BlockHeader>) -> bool {
        call_ensures(latest_announced, (&self.watch_consensus_head_receiver,), head_block)
    }

    /// The head block that was announced last when the call is made.
    pub fn head_block(&self) -> (head_block: Option<BlockHeader>)
        ensures
            self.announced(head_block),
    {
        call_with_one(latest_announced, &self.watch_consensus_head_receiver)
    }

    /// The sender for stats of an app that may not be there.
    pub fn clone_stat_sender(
        app: Option<&App>,
    ) -> (sender: Option<tokio::sync::mpsc::UnboundedSender<AppStat>>)
        ensures
            sender == App::stat_sender_of(app),
    {
        match app {
            Some(app) => match &app.stat_sender {
                Some(sender) => Some(sender.clone()),
                None => None,
            },
            None => None,
        }
    }
}

/// The head block that an app tells is the one that its own receiver was told last.
proof fn law_head_block_is_announced(app: App, head_block: Option<BlockHeader>)
    requires
        app.announced(head_block) || call_ensures(App::head_block, (&app,), head_block),
    ensures
        call_ensures(latest_announced, (&app.watch_consensus_head_receiver,), head_block),
{
}

/// The stats of requests go where the app says, and nowhere without an app.
pub proof fn law_stats_go_where_the_app_says(
    app: &App,
    sender: Option<tokio::sync::mpsc::UnboundedSender<AppStat>>,
    none: Option<tokio::sync::mpsc::UnboundedSender<AppStat>>,
)
    requires
        call_ensures(App::clone_stat_sender, (Some(app),), sender),
        call_ensures(App::clone_stat_sender, (None::<&App>,), none),
    ensures
        sender == app.stat_sender,
        none is None,
{
}

} // verus!
