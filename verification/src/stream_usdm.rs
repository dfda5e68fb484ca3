//! The USD-M futures stream catalog: one topic type per market-data
//! stream, each building its endpoint path, and the event shapes the
//! streams carry.

use vstd::prelude::*;
use vstd::string::StringExecFns;
use crate::encoding::{lower_of, lowercase};

verus! {

/// A named real-time stream subscription target: it knows the endpoint
/// path its connection is opened on.
pub trait StreamTopic {
    /// The endpoint path the topic subscribes to.
    spec fn endpoint_spec(&self) -> Seq<char>;

    fn endpoint(&self) -> (r: String)
        ensures
            r@ == self.endpoint_spec(),
    ;
}

/// Subscribes to one symbol's aggregate trades.
#[derive(Debug)]
pub struct AggTradeStream {
    pub symbol: String,
}

#[derive(Debug)]
pub struct AggTradeEvent {
    pub event_time: u64,
    pub symbol: String,
    pub id: u64,
    pub price: String,
    pub qty: String,
    pub first_trade_id: u64,
    pub last_trade_id: u64,
    pub trade_time: u64,
    pub buyer_is_maker: bool,
}

impl StreamTopic for AggTradeStream {
    /// `/ws/<symbol lowercased>@aggTrade`.
    open spec fn endpoint_spec(&self) -> Seq<char> {
        "/ws/"@ + lower_of(self.symbol@) + "@aggTrade"@
    }

    fn endpoint(&self) -> (r: String)
        ensures
            r@ == self.endpoint_spec(),
    {
        let mut s = String::from_str("/ws/");
        let low = lowercase(self.symbol.as_str());
        s.append(low.as_str());
        s.append("@aggTrade");
        s
    }
}

/// Subscribes to one symbol's best bid and ask updates.
#[derive(Debug)]
pub struct BookTickerStream {
    pub symbol: String,
}

#[derive(Debug)]
pub struct BookTickerEvent {
    pub order_book_update_id: u64,
    pub event_time: u64,
    pub transaction_time: u64,
    pub symbol: String,
    pub best_bid_price: String,
    pub best_bid_qty: String,
    pub best_ask_price: String,
    pub best_ask_qty: String,
}

impl StreamTopic for BookTickerStream {
    /// `/ws/<symbol lowercased>@bookTicker`.
    open spec fn endpoint_spec(&self) -> Seq<char> {
        "/ws/"@ + lower_of(self.symbol@) + "@bookTicker"@
    }

    fn endpoint(&self) -> (r: String)
        ensures
            r@ == self.endpoint_spec(),
    {
        let mut s = String::from_str("/ws/");
        let low = lowercase(self.symbol.as_str());
        s.append(low.as_str());
        s.append("@bookTicker");
        s
    }
}

#[derive(Debug)]
pub struct DiffDepthEvent {
    pub event_time: u64,
    pub transaction_time: u64,
    pub symbol: String,
    pub first_update_id: u64,
    pub final_update_id: u64,
    pub last_event_final_update_id: u64,
    pub bid_updates: Vec<BookLevelUpdate>,
    pub ask_updates: Vec<BookLevelUpdate>,
}

#[derive(Debug)]
pub struct BookLevelUpdate {
    pub price: String,
    pub qty: String,
}

/// Subscribes to one symbol's depth diff stream at 100ms cadence.
#[derive(Debug)]
pub struct DiffDepthStream {
    pub symbol: String,
}

impl StreamTopic for DiffDepthStream {
    /// `/ws/<symbol lowercased>@depth@100ms`.
    open spec fn endpoint_spec(&self) -> Seq<char> {
        "/ws/"@ + lower_of(self.symbol@) + "@depth@100ms"@
    }

    fn endpoint(&self) -> (r: String)
        ensures
            r@ == self.endpoint_spec(),
    {
        let mut s = String::from_str("/ws/");
        let low = lowercase(self.symbol.as_str());
        s.append(low.as_str());
        s.append("@depth@100ms");
        s
    }
}

/// Subscribes to the account's user-data stream under a listen key.
#[derive(Debug)]
pub struct UserStream {
    pub listen_key: String,
}

#[derive(Debug)]
pub struct PositionMarginCall {
    pub symbol: String,
    pub position_side: String,
    pub position_amount: String,
    pub margin_type: String,
    pub isolated_wallet: Option<String>,
    pub mark_price: String,
    pub unrealized_pnl: String,
    pub required_maintenance_margin: String,
}

#[derive(Debug)]
pub struct MarginCallEvent {
    pub event_time: u64,
    pub cross_wallet_balance: Option<String>,
    pub positions: Vec<PositionMarginCall>,
}

#[derive(Debug)]
pub struct BalancePositionUpdateEvent {
    pub event_time: u64,
    pub transaction_time: u64,
    pub balance_position_update: BalancePositionUpdate,
}

#[derive(Debug)]
pub struct BalancePositionUpdate {
    pub reason: String,
    pub balance_updates: Vec<BalanceUpdate>,
    pub position_updates: Vec<PositionUpdate>,
}

#[derive(Debug)]
pub struct BalanceUpdate {
    pub asset: String,
    pub wallet_balance: String,
    pub cross_wallet_balance: String,
    pub balance_change: String,
}

#[derive(Debug)]
pub struct PositionUpdate {
    pub symbol: String,
    pub position_amount: String,
    pub entry_price: String,
    pub breakeven_price: String,
    pub realized_pnl: String,
    pub unrealized_pnl: String,
    pub margin_type: String,
    pub isolated_wallet: Option<String>,
    pub position_side: String,
}

#[derive(Debug)]
pub struct OrderUpdateEvent {
    pub event_time: u64,
    pub transaction_time: u64,
    pub order_update: OrderUpdate,
}

#[derive(Debug)]
pub struct OrderUpdate {
    pub symbol: String,
    pub client_order_id: String,
    pub side: String,
    pub order_type: String,
    pub time_in_force: String,
    pub orig_qty: String,
    pub orig_price: String,
    pub average_price: String,
    pub stop_price: String,
    pub current_order_execution_type: String,
    pub current_order_status: String,
    pub order_id: u64,
    pub last_filled_qty: String,
    pub cummulative_filled_qty: String,
    pub last_fill_price: String,
    pub commission_asset: Option<String>,
    pub commission_amount: Option<String>,
    pub order_trade_time: u64,
    pub order_trade_id: u64,
    pub bid_notional: String,
    pub ask_notional: String,
    pub is_trade_maker: bool,
    pub is_reduce_only: bool,
    pub stop_price_working_type: String,
    pub orig_order_type: String,
    pub position_side: String,
    pub close_position: bool,
    pub activation_price: Option<String>,
    pub callback_rate: Option<String>,
    pub price_protection: bool,
    pub trade_realized_profit: String,
    pub self_trade_prevention_mode: String,
    pub good_till_date: u64,
}

#[derive(Debug)]
pub struct AccountConfigurationUpdateEvent {
    pub event_time: u64,
    pub transaction_time: u64,
    pub leverage: Option<LeverageUpdate>,
    pub multi_asset_mode: Option<MultiAssetModeUpdate>,
}

#[derive(Debug)]
pub struct LeverageUpdate {
    pub symbol: String,
    pub leverage: u64,
}

#[derive(Debug)]
pub struct MultiAssetModeUpdate {
    pub multi_asset_mode: bool,
}

#[derive(Debug)]
pub struct ConditionalOrderTriggerRejectEvent {
    pub event_time: u64,
    pub transaction_time: u64,
    pub conditional_order_trigger_reject: ConditionalOrderTriggerReject,
}

#[derive(Debug)]
pub struct ConditionalOrderTriggerReject {
    pub symbol: String,
    pub order_id: u64,
}

#[derive(Debug)]
pub struct ListenKeyExpiredEvent {
    pub event_time: u64,
    pub listen_key: String,
}

/// One event on the user-data stream, tagged by its kind.
#[derive(Debug)]
pub enum UserStreamEvent {
    MarginCall(MarginCallEvent),
    BalancePositionUpdate(BalancePositionUpdateEvent),
    OrderUpdate(OrderUpdateEvent),
    AccountConfigurationUpdate(AccountConfigurationUpdateEvent),
    ConditionalOrderTriggerReject(ConditionalOrderTriggerRejectEvent),
    ListenKeyExpired(ListenKeyExpiredEvent),
}

impl StreamTopic for UserStream {
    /// `/ws/<listen key>`, verbatim.
    open spec fn endpoint_spec(&self) -> Seq<char> {
        "/ws/"@ + self.listen_key@
    }

    fn endpoint(&self) -> (r: String)
        ensures
            r@ == self.endpoint_spec(),
    {
        let mut s = String::from_str("/ws/");
        s.append(self.listen_key.as_str());
        s
    }
}

} // verus!
