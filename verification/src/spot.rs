//! The spot catalog: request, response and event shapes for the spot
//! API, and the market-data stream topics with their endpoint URLs.

use vstd::prelude::*;
use vstd::string::StringExecFns;
use crate::encoding::{lower_of, lowercase};
use crate::model::{Side, BookLevel, SelfTradePreventionMode};

verus! {

#[derive(Clone, Copy, Debug)]
pub enum OrderType {
    Limit,
    Market,
    StopLoss,
    StopLossLimit,
    TakeProfit,
    TakeProfitLimit,
    LimitMaker,
}

#[derive(Clone, Copy, Debug)]
pub enum OrderStatus {
    New,
    PartiallyFilled,
    Filled,
    Canceled,
    PendingCancel,
    Rejected,
    Expired,
    ExpiredInMatch,
}

#[derive(Clone, Copy, Debug)]
pub enum TimeInForce {
    GoodTilCanceled,
    ImmediateOrCancel,
    FillOrKill,
}

#[allow(non_camel_case_types)]
#[derive(Clone, Copy, Debug)]
pub enum KlineInterval {
    s1,
    m1,
    m3,
    m5,
    m15,
    m30,
    h1,
    h2,
    h4,
    h6,
    h8,
    h12,
    d1,
    d3,
    w1,
    M1,
}

#[derive(Clone, Copy, Debug)]
pub enum ContingencyType {
    Oco,
}

#[derive(Clone, Copy, Debug)]
pub enum ListStatusType {
    Response,
    ExecStarted,
    AllDone,
}

#[derive(Clone, Copy, Debug)]
pub enum ListOrderStatus {
    Executing,
    ExecStarted,
    AllDone,
}

#[derive(Debug)]
pub struct Order {
    pub symbol: String,
    pub id: usize,
    pub client_order_id: String,
}

#[derive(Debug)]
pub struct Balance {
    pub asset: String,
    pub free: String,
    pub locked: String,
}

#[derive(Debug)]
pub struct AggTradeEvent {
    pub event_time: usize,
    pub symbol: String,
    pub id: usize,
    pub price: String,
    pub qty: String,
    pub first_trade_id: usize,
    pub last_trade_id: usize,
    pub trade_time: usize,
    pub buyer_is_maker: bool,
}

#[derive(Debug)]
pub struct AggTradeStream {
    pub symbol: String,
}

#[derive(Debug)]
pub struct TradeEvent {
    pub event_time: usize,
    pub symbol: String,
    pub id: usize,
    pub price: String,
    pub qty: String,
    pub buyer_order_id: usize,
    pub seller_order_id: usize,
    pub trade_time: usize,
    pub buyer_is_maker: bool,
}

#[derive(Debug)]
pub struct TradeStream {
    pub symbol: String,
}

#[derive(Debug)]
pub struct KlineUpdateEvent {
    pub event_time: usize,
    pub symbol: String,
    pub kline_update: KlineUpdate,
}

#[derive(Debug)]
pub struct KlineUpdate {
    pub open_time: usize,
    pub close_time: usize,
    pub symbol: String,
    pub interval: KlineInterval,
    pub first_trade_id: usize,
    pub last_trade_id: usize,
    pub open_price: String,
    pub close_price: String,
    pub high_price: String,
    pub low_price: String,
    pub base_asset_volume: String,
    pub trade_count: usize,
    pub is_closed: bool,
    pub quote_asset_volume: String,
    pub taker_buy_base_asset_volume: String,
    pub taker_buy_quote_asset_volume: String,
}

#[derive(Debug)]
pub struct KlineUpdateStream {
    pub symbol: String,
    pub interval: KlineInterval,
}

#[derive(Debug)]
pub struct MiniTickerEvent {
    pub event_time: usize,
    pub symbol: String,
    pub close_price: String,
    pub open_price: String,
    pub high_price: String,
    pub low_price: String,
    pub base_asset_volume: String,
    pub quote_asset_volume: String,
}

#[derive(Debug)]
pub struct MiniTickerStream {
    pub symbol: String,
}

#[derive(Debug)]
pub struct AllMiniTickersStream;

#[derive(Debug)]
pub struct TickerEvent {
    pub event_time: usize,
    pub symbol: String,
    pub price_change: String,
    pub price_change_percent: String,
    pub volume_weighted_avg_price: String,
    pub previous_trade_price: String,
    pub last_price: String,
    pub last_qty: String,
    pub best_bid_price: String,
    pub best_bid_qty: String,
    pub best_ask_price: String,
    pub best_ask_qty: String,
    pub open_price: String,
    pub high_price: String,
    pub low_price: String,
    pub base_asset_volume: String,
    pub quote_asset_volume: String,
    pub open_time: usize,
    pub close_time: usize,
    pub first_trade_id: usize,
    pub last_trade_id: usize,
    pub trade_count: usize,
}

#[derive(Debug)]
pub struct TickerStream {
    pub symbol: String,
}

#[derive(Debug)]
pub struct AllTickersStream;

#[derive(Debug)]
pub struct WindowSizedTickerEvent {
    pub event_time: usize,
    pub symbol: String,
    pub price_change: String,
    pub price_change_percent: String,
    pub open_price: String,
    pub high_price: String,
    pub low_price: String,
    pub close_price: String,
    pub volume_weighted_avg_price: String,
    pub base_asset_volume: String,
    pub quote_asset_volume: String,
    pub open_time: usize,
    pub close_time: usize,
    pub first_trade_id: usize,
    pub last_trade_id: usize,
    pub trade_count: usize,
}

#[allow(non_camel_case_types)]
#[derive(Clone, Copy, Debug)]
pub enum WindowSizedTickerWindowSize {
    h1,
    h4,
    d1,
}

#[derive(Debug)]
pub struct WindowSizedTickerStream {
    pub symbol: String,
    pub window_size: WindowSizedTickerWindowSize,
}

#[derive(Debug)]
pub struct AllWindowSizedTickersStream {
    pub window_size: WindowSizedTickerWindowSize,
}

#[derive(Debug)]
pub struct BookTickerEvent {
    pub order_book_update_id: usize,
    pub symbol: String,
    pub best_bid_price: String,
    pub best_bid_qty: String,
    pub best_ask_price: String,
    pub best_ask_qty: String,
}

#[derive(Debug)]
pub struct BookTickerStream {
    pub symbol: String,
}

#[derive(Debug)]
pub struct PartialDepthEvent {
    pub last_update_id: usize,
    pub bids: Vec<BookLevel>,
    pub asks: Vec<BookLevel>,
}

#[allow(non_camel_case_types)]
#[derive(Clone, Copy, Debug)]
pub enum PartialDepthStreamUpdateSpeed {
    ms100,
    ms1000,
}

#[allow(non_camel_case_types)]
#[derive(Clone, Copy, Debug)]
pub enum PartialDepthStreamLevels {
    l5,
    l10,
    l20,
}

#[derive(Debug)]
pub struct PartialDepthStream {
    pub symbol: String,
    pub update_speed: PartialDepthStreamUpdateSpeed,
    pub levels: PartialDepthStreamLevels,
}

#[derive(Debug)]
pub struct DiffDepthEvent {
    pub event_time: usize,
    pub symbol: String,
    pub first_update_id: usize,
    pub final_update_id: usize,
    pub bid_updates: Vec<BookLevel>,
    pub ask_updates: Vec<BookLevel>,
}

#[allow(non_camel_case_types)]
#[derive(Clone, Copy, Debug)]
pub enum DiffDepthStreamUpdateSpeed {
    ms100,
    ms1000,
}

#[derive(Debug)]
pub struct DiffDepthStream {
    pub symbol: String,
    pub update_speed: DiffDepthStreamUpdateSpeed,
}

#[derive(Debug)]
pub struct AccountUpdateEvent {
    pub event_time: usize,
    pub last_account_update_time: usize,
    pub balance_updates: Vec<Balance>,
}

#[derive(Debug)]
pub struct BalanceUpdateEvent {
    pub event_time: usize,
    pub asset: String,
    pub balance_delta: String,
    pub clear_time: usize,
}

#[derive(Clone, Copy, Debug)]
pub enum OrderExecutionType {
    New,
    Canceled,
    Replaced, // Currently unused
    Rejected,
    Trade,
    Expired,
    TradePrevention,
}

#[derive(Debug)]
pub struct OrderUpdateEvent {
    pub event_time: usize,
    pub symbol: String,
    pub client_order_id: String,
    pub side: Side,
    pub order_type: OrderType,
    pub time_in_force: TimeInForce,
    pub order_qty: String,
    pub order_price: String,
    pub stop_price: String,
    pub iceberg_qty: String,
    pub order_list_id: Option<usize>,
    pub original_client_order_id: String,
    pub current_order_execution_type: OrderExecutionType,
    pub current_order_status: OrderStatus,
    pub order_id: usize,
    pub last_filled_qty: String,
    pub cumulative_filled_qty: String,
    pub last_filled_price: String,
    pub commission_amount: Option<String>,
    pub commission_asset: Option<String>,
    pub transaction_time: usize,
    pub trade_id: Option<usize>,
    pub is_order_on_book: bool,
    pub is_trade_maker: bool,
    pub order_creation_time: usize,
    pub cumulative_quote_asset_transacted_qty: String,
    pub last_quote_asset_transacted_qty: String,
    pub order_quote_qty: String,
    pub order_working_time: Option<usize>,
    pub self_trade_prevention_mode: SelfTradePreventionMode,
    pub trailing_delta: Option<usize>,
    pub trailing_time: Option<usize>,
    pub strategy_id: Option<usize>,
    pub strategy_type: Option<usize>,
    pub prevented_match_id: Option<usize>,
    pub prevented_qty: Option<String>,
    pub last_prevented_qty: Option<String>,
    pub trade_group_id: Option<usize>,
    pub counter_order_id: Option<usize>,
}

#[derive(Debug)]
pub struct ListOrderUpdate {
    pub event_time: usize,
    pub symbol: String,
    pub order_list_id: usize,
    pub contingency_type: ContingencyType,
    pub list_status_type: ListStatusType,
    pub list_order_status: ListOrderStatus,
    pub list_client_order_id: String,
    pub transaction_time: usize,
    pub orders: Vec<Order>,
}

#[derive(Debug)]
pub enum UserStreamEvent {
    AccountUpdate(AccountUpdateEvent),
    BalanceUpdate(BalanceUpdateEvent),
    OrderUpdate(OrderUpdateEvent),
    ListOrderUpdate(ListOrderUpdate),
}

#[derive(Debug)]
pub struct UserStream {
    pub listen_key: String,
}

#[derive(Debug)]
pub struct PingRequest;

#[derive(Debug)]
pub struct PingResponse { }

#[derive(Debug)]
pub struct ServerTimeRequest;

#[derive(Debug)]
pub struct ServerTimeResponse {
    pub server_time: usize,
}

#[derive(Debug)]
pub struct ExchangeInfoRequest {
    pub symbols: Option<Vec<String>>,
    pub permissions: Option<Vec<Permission>>,
}

#[derive(Debug)]
pub struct ExchangeInfoResponse {
    pub server_time: usize,
    pub rate_limits: Vec<RateLimit>,
    pub exchange_filters: Vec<ExchangeFilter>,
    pub markets: Vec<Market>,
}

#[derive(Debug)]
pub struct RateLimit {
    pub rate_limit_type: RateLimitType,
    pub interval: RateLimitInterval,
    pub interval_num: usize,
    pub limit: usize,
}

#[derive(Clone, Copy, Debug)]
pub enum RateLimitType {
    RequestWeight,
    Orders,
    RawRequests,
}

#[derive(Clone, Copy, Debug)]
pub enum RateLimitInterval {
    Second,
    Minute,
    Day,
}

#[allow(non_camel_case_types)]
#[derive(Debug)]
pub enum ExchangeFilter {
    MaxNumOrders {
        max: usize,
    },
    MaxNumAlgoOrders {
        max: usize,
    },
    MaxNumIcebergOrders {
        max: usize,
    },
}

#[derive(Debug)]
pub struct Market {
    pub symbol: String,
    pub status: SymbolStatus,
    pub base_asset: String,
    pub base_asset_precision: usize,
    pub quote_asset: String,
    pub quote_asset_precision: usize,
    pub order_types: Vec<OrderType>,
    pub iceberg_allowed: bool,
    pub oco_allowed: bool,
    pub quote_order_qty_market_allowed: bool,
    pub allow_trailing_stop: bool,
    pub cancel_replace_allowed: bool,
    pub is_spot_trading_allowed: bool,
    pub is_margin_trading_allowed: bool,
    pub filters: Vec<SymbolFilter>,
    pub permissions: Vec<Permission>,
    pub default_self_trade_prevention_mode: SelfTradePreventionMode,
    pub allowed_self_trade_prevention_modes: Vec<SelfTradePreventionMode>,
}

#[derive(Clone, Copy, Debug)]
pub enum SymbolStatus {
    PreTrading,
    Trading,
    PostTrading,
    EndOfDay,
    Halt,
    AuctionMatch,
    Break,
}

#[allow(non_camel_case_types)]
#[derive(Debug)]
pub enum SymbolFilter {
    Price {
        min: String,
        max: String,
        tick_size: String,
    },
    PercentPrice {
        multiplier_up: String,
        multiplier_down: String,
        avg_price_mins: usize,
    },
    PercentPriceBySide {
        bid_multiplier_up: String,
        bid_multiplier_down: String,
        ask_multiplier_up: String,
        ask_multiplier_down: String,
        avg_price_mins: usize,
    },
    LotSize {
        min_qty: String,
        max_qty: String,
        step_size: String,
    },
    MinNotional {
        min: String,
        apply_to_market: bool,
        avg_price_mins: usize,
    },
    Notional {
        min: String,
        apply_min_to_market: bool,
        max: String,
        apply_max_to_market: bool,
        avg_price_mins: usize,
    },
    IcebergParts {
        limit: usize,
    },
    MarketLotSize {
        min_qty: String,
        max_qty: String,
        step_size: String,
    },
    MaxNumOrders {
        max: usize,
    },
    MaxNumAlgoOrders {
        max: usize,
    },
    MaxNumIcebergOrders {
        max: usize,
    },
    MaxPosition {
        max: String
    },
    TrailingDelta {
        min_trailing_above_delta: usize,
        max_trailing_above_delta: usize,
        min_trailing_below_delta: usize,
        max_trailing_below_delta: usize,
    },
}

#[derive(Clone, Copy, Debug)]
pub enum Permission {
    Spot,
    Margin,
    Leveraged,
    TrdGrp002,
    TrdGrp003,
    TrdGrp004,
    TrdGrp005,
    TrdGrp006,
    TrdGrp007,
    TrdGrp008,
    TrdGrp009,
    TrdGrp010,
    TrdGrp011,
    TrdGrp012,
    TrdGrp013,
}

#[derive(Debug)]
pub struct OrderBookRequest {
    pub symbol: String,
    pub limit: Option<usize>, // max 5000
}

#[derive(Debug)]
pub struct OrderBookResponse {
    pub last_update_id: usize,
    pub bids: Vec<BookLevel>,
    pub asks: Vec<BookLevel>,
}

#[derive(Debug)]
pub struct RecentTradesRequest {
    pub symbol: String,
    pub limit: Option<usize>, // <= 1000
}

#[derive(Debug)]
pub struct OldTradesRequest {
    pub symbol: String,
    pub limit: Option<usize>, // <= 1000
    pub from_id: Option<usize>,
}

#[derive(Debug)]
pub struct TradeResponse {
    pub id: usize,
    pub price: String,
    pub qty: String,
    pub quote_qty: String,
    pub time: usize,
    pub is_buyer_maker: bool,
}

#[derive(Debug)]
pub struct AggTradesRequest {
    pub symbol: String,
    pub from_id: Option<usize>,
    pub start_time: Option<usize>,
    pub end_time: Option<usize>,
    pub limit: Option<usize>, // <= 1000
}

#[derive(Debug)]
pub struct AggTradeResponse {
    pub id: usize,
    pub price: String,
    pub qty: String,
    pub first_trade_id: usize,
    pub last_trade_id: usize,
    pub time: usize,
    pub is_buyer_maker: bool,
}

#[derive(Debug)]
pub struct KlinesRequest {
    pub symbol: String,
    pub interval: KlineInterval,
    pub start_time: Option<usize>,
    pub end_time: Option<usize>,
    pub limit: Option<usize>, // <= 1000
}

#[derive(Debug)]
pub struct UiKlinesRequest {
    pub symbol: String,
    pub interval: KlineInterval,
    pub start_time: Option<usize>,
    pub end_time: Option<usize>,
    pub limit: Option<usize>, // <= 1000
}

#[derive(Debug)]
pub struct KlineResponse {
    pub open_time: usize,
    pub open_price: String,
    pub high_price: String,
    pub low_price: String,
    pub close_price: String,
    pub base_asset_volume: String,
    pub close_time: usize,
    pub quote_asset_volmue: String,
    pub trade_count: usize,
    pub taker_buy_base_asset_volume: String,
    pub taker_buy_quote_asset_volume: String,
}

#[derive(Debug)]
pub struct AvgPriceRequest {
    pub symbol: String,
}

#[derive(Debug)]
pub struct AvgPriceResponse {
    pub mins: usize,
    pub price: String,
}

#[derive(Debug)]
pub struct TickerRequest {
    pub symbol: String,
    pub ticker_type: Option<TickerType>,
}

#[derive(Debug)]
pub struct TickersRequest {
    pub symbols: Option<Vec<String>>,
    pub ticker_type: Option<TickerType>,
}

#[derive(Clone, Copy, Debug)]
pub enum TickerType {
    Full,
    Mini,
}

#[derive(Debug)]
pub struct FullTickerResponse {
    pub symbol: String,
    pub price_change: String,
    pub price_change_percent: String,
    pub volume_weighted_avg_price: String,
    pub previous_trade_price: String,
    pub last_price: String,
    pub last_qty: String,
    pub best_bid_price: String,
    pub best_bid_qty: String,
    pub best_ask_price: String,
    pub best_ask_qty: String,
    pub open_price: String,
    pub hight_price: String,
    pub low_price: String,
    pub base_asset_volume: String,
    pub quote_asset_volume: String,
    pub open_time: usize,
    pub close_time: usize,
    pub first_trade_id: usize,
    pub last_trade_id: usize,
    pub trade_count: usize,
}

#[derive(Debug)]
pub struct MiniTickerResponse {
    pub symbol: String,
    pub open_price: String,
    pub high_price: String,
    pub low_price: String,
    pub last_price: String,
    pub base_asset_volume: String,
    pub quote_asset_volume: String,
    pub open_time: usize,
    pub close_time: usize,
    pub first_trade_id: usize,
    pub last_trade_id: usize,
    pub trade_count: usize,
}

#[derive(Debug)]
pub enum TickerResponse {
    Full(FullTickerResponse),
    Mini(MiniTickerResponse),
}

#[derive(Debug)]
pub struct PriceTickerRequest {
    pub symbol: String,
}

#[derive(Debug)]
pub struct PriceTickersRequest {
    pub symbols: Option<Vec<String>>,
}

#[derive(Debug)]
pub struct PriceTickerResponse {
    pub symbol: String,
    pub price: String,
}

#[derive(Debug)]
pub struct BookTickerRequest {
    pub symbol: String,
}

#[derive(Debug)]
pub struct BookTickersRequest {
    pub symbols: Option<Vec<String>>,
}

#[derive(Debug)]
pub struct BookTickerResponse {
    pub symbol: String,
    pub best_bid_price: String,
    pub best_bid_qty: String,
    pub best_ask_price: String,
    pub best_ask_qty: String,
}

#[derive(Debug)]
pub struct WindowSizedTickerRequest {
    pub symbol: String,
    pub window_size: Option<String>,
    pub window_sized_ticker_type: Option<WindowSizedTickerType>,
}

#[derive(Debug)]
pub struct WindowSizedTickersRequest {
    pub symbols: Vec<String>,
    pub window_size: Option<String>,
    pub window_sized_ticker_type: Option<WindowSizedTickerType>,
}

#[derive(Clone, Copy, Debug)]
pub enum WindowSizedTickerType {
    Full,
    Mini,
}

#[derive(Debug)]
pub struct FullWindowSizedTickerResponse {
    pub symbol: String,
    pub price_change: String,
    pub price_change_percent: String,
    pub volume_weighted_avg_price: String,
    pub open_price: String,
    pub hight_price: String,
    pub low_price: String,
    pub last_price: String,
    pub base_asset_volume: String,
    pub quote_asset_volume: String,
    pub open_time: usize,
    pub close_time: usize,
    pub first_trade_id: usize,
    pub last_trade_id: usize,
    pub trade_count: usize,
}

#[derive(Debug)]
pub struct MiniWindowSizedTickerResponse {
    pub symbol: String,
    pub open_price: String,
    pub hight_price: String,
    pub low_price: String,
    pub last_price: String,
    pub base_asset_volume: String,
    pub quote_asset_volume: String,
    pub open_time: usize,
    pub close_time: usize,
    pub first_trade_id: usize,
    pub last_trade_id: usize,
    pub trade_count: usize,
}

#[derive(Debug)]
pub enum WindowSizedTickerResponse {
    Full(FullWindowSizedTickerResponse),
    Mini(MiniWindowSizedTickerResponse),
}

#[derive(Debug)]
pub struct CreateSpotListenKeyRequest;

#[derive(Debug)]
pub struct CreateMarginListenKeyRequest;

#[derive(Debug)]
pub struct CreateIsolatedMarginListenKeyRequest {
    pub symbol: String,
}

#[derive(Debug)]
pub struct CreateListenKeyResponse {
    pub listen_key: String,
}

#[derive(Debug)]
pub struct KeepAliveSpotListenKeyRequest {
    pub listen_key: String,
}

#[derive(Debug)]
pub struct KeepAliveSpotListenKeyResponse { }

#[derive(Debug)]
pub struct KeepAliveMarginListenKeyRequest {
    pub listen_key: String,
}

#[derive(Debug)]
pub struct KeepAliveMarginListenKeyResponse { }

#[derive(Debug)]
pub struct KeepAliveIsolatedMarginListenKeyRequest {
    pub symbol: String,
    pub listen_key: String,
}

#[derive(Debug)]
pub struct KeepAliveIsolatedMarginListenKeyResponse { }

#[derive(Debug)]
pub struct CloseSpotListenKeyRequest {
    pub listen_key: String,
}

#[derive(Debug)]
pub struct CloseSpotListenKeyResponse { }

#[derive(Debug)]
pub struct CloseMarginListenKeyRequest {
    pub listen_key: String,
}

#[derive(Debug)]
pub struct CloseMarginListenKeyResponse { }

#[derive(Debug)]
pub struct CloseIsolatedMarginListenKeyRequest {
    pub symbol: String,
    pub listen_key: String,
}

#[derive(Debug)]
pub struct CloseIsolatedMarginListenKeyResponse { }

#[derive(Debug)]
pub struct TestNewOrderRequest {
    pub symbol: String,
    pub side: Side,
    pub order_type: OrderType,
    pub time_in_force: Option<TimeInForce>,
    pub qty: Option<String>,
    pub quote_qty: Option<String>,
    pub price: Option<String>,
    pub client_order_id: Option<String>,
    pub strategy_id: Option<usize>,
    pub strategy_type: Option<usize>, // >= 1_000_000
    pub stop_price: Option<String>,
    pub trailing_delta: Option<usize>,
    pub iceberg_qty: Option<String>,
    pub new_order_resp_type: Option<NewOrderResponseType>,
    pub self_trade_prevention_mode: Option<SelfTradePreventionMode>,
    pub recv_window: Option<usize>, // <= 60_000
}

#[derive(Debug)]
pub struct TestNewOrderResponse { }

#[derive(Clone, Copy, Debug)]
pub enum NewOrderResponseType {
    Full,
    Result,
    Ack,
}

#[derive(Debug)]
pub struct NewOrderRequest {
    pub symbol: String,
    pub side: Side,
    pub order_type: OrderType,
    pub time_in_force: Option<TimeInForce>,
    pub qty: Option<String>,
    pub quote_qty: Option<String>,
    pub price: Option<String>,
    pub client_order_id: Option<String>,
    pub strategy_id: Option<usize>,
    pub strategy_type: Option<usize>, // >= 1_000_000
    pub stop_price: Option<String>,
    pub trailing_delta: Option<usize>,
    pub iceberg_qty: Option<String>,
    pub new_order_resp_type: Option<NewOrderResponseType>,
    pub self_trade_prevention_mode: Option<SelfTradePreventionMode>,
    pub recv_window: Option<usize>, // <= 60_000
}

#[derive(Debug)]
pub struct NewOrderAckResponse {
    pub symbol: String,
    pub order_id: usize,
    pub order_list_id: Option<usize>,
    pub client_order_id: String,
    pub transaction_time: usize,
}

#[derive(Debug)]
pub struct NewOrderResultResponse {
    pub symbol: String,
    pub order_id: usize,
    pub order_list_id: Option<usize>,
    pub client_order_id: String,
    pub transaction_time: usize,
    pub price: String,
    pub orig_qty: String,
    pub executed_qty: String,
    pub cummulative_quote_qty: String,
    pub status: OrderStatus,
    pub time_in_force: TimeInForce,
    pub order_type: OrderType,
    pub side: Side,
    pub working_time: Option<usize>,
    pub self_trade_prevention_mode: SelfTradePreventionMode,
}

#[derive(Debug)]
pub struct NewOrderFullResponse {
    pub symbol: String,
    pub order_id: usize,
    pub order_list_id: Option<usize>,
    pub client_order_id: String,
    pub transaction_time: usize,
    pub price: String,
    pub orig_qty: String,
    pub executed_qty: String,
    pub cummulative_quote_qty: String,
    pub status: OrderStatus,
    pub time_in_force: TimeInForce,
    pub order_type: OrderType,
    pub side: Side,
    pub working_time: Option<usize>,
    pub self_trade_prevention_mode: SelfTradePreventionMode,
    pub fills: Vec<Fill>,
}

#[derive(Debug)]
pub enum NewOrderResponse {
    Full(NewOrderFullResponse),
    Result(NewOrderResultResponse),
    Ack(NewOrderAckResponse),
}

#[derive(Debug)]
pub struct Fill {
    pub price: String,
    pub qty: String,
    pub commission: String,
    pub commission_asset: String,
    pub trade_id: usize,
}

#[derive(Debug)]
pub struct CancelOrderRequest {
    pub symbol: String,
    pub order_id: Option<usize>,
    pub orig_client_order_id: Option<String>,
    pub new_client_order_id: Option<String>,
    pub cancel_restrictions: Option<CancelRestrictions>,
    pub recv_window: Option<usize>, // <= 60_000
}

#[derive(Clone, Copy, Debug)]
pub enum CancelRestrictions {
    OnlyNew,
    OnlyPartiallyFilled,
}

#[derive(Debug)]
pub struct CancelOrderResponse {
    pub symbol: String,
    pub orig_client_order_id: String,
    pub order_id: usize,
    pub order_list_id: Option<usize>,
    pub client_order_id: String,
    pub transaction_time: usize,
    pub price: String,
    pub orig_qty: String,
    pub executed_qty: String,
    pub cummulative_quote_qty: String,
    pub status: OrderStatus,
    pub time_in_force: TimeInForce,
    pub order_type: OrderType,
    pub side: Side,
    pub stop_price: Option<String>,
    pub iceberg_qty: Option<String>,
    pub self_trade_prevention_mode: SelfTradePreventionMode,
    pub prevented_match_id: Option<usize>,
    pub prevented_qty: Option<String>,
    pub strategy_id: Option<usize>,
    pub strategy_type: Option<usize>,
    pub trailing_delta: Option<usize>,
    pub trailing_time: Option<usize>,
}

#[derive(Debug)]
pub struct CancelAllOrdersRequest {
    pub symbol: String,
    pub recv_window: Option<usize>, // <= 60_000
}

#[derive(Debug)]
pub enum CancelOrderOrListOrderResponse {
    CancelOrderResponse(CancelOrderResponse),
    CancelListOrderResponse(CancelListOrderResponse),
}

#[derive(Debug)]
pub struct QueryOrderRequest {
    pub symbol: String,
    pub order_id: Option<usize>,
    pub orig_client_order_id: Option<String>,
    pub recv_window: Option<usize>, // <= 60_000
}

#[derive(Debug)]
pub struct QueryOrderResponse {
    pub symbol: String,
    pub order_id: usize,
    pub order_list_id: Option<usize>,
    pub client_order_id: String,
    pub price: String,
    pub orig_qty: String,
    pub executed_qty: String,
    pub cummulative_quote_qty: String,
    pub status: OrderStatus,
    pub time_in_force: TimeInForce,
    pub order_type: OrderType,
    pub side: Side,
    pub stop_price: Option<String>,
    pub iceberg_qty: Option<String>,
    pub time: usize,
    pub update_time: usize,
    pub is_working: bool,
    pub working_time: Option<usize>,
    pub orig_quote_order_qty: String,
    pub self_trade_prevention_mode: SelfTradePreventionMode,
    pub prevented_match_id: Option<usize>,
    pub prevented_qty: Option<String>,
    pub strategy_id: Option<usize>,
    pub strategy_type: Option<usize>,
    pub trailing_delta: Option<usize>,
    pub trailing_time: Option<usize>,
}

#[derive(Debug)]
pub struct CancelReplaceOrderRequest {
    pub symbol: String,
    pub side: Side,
    pub order_type: OrderType,
    pub cancel_replace_mode: CancelReplaceMode,
    pub time_in_force: Option<TimeInForce>,
    pub qty: Option<String>,
    pub quote_order_qty: Option<String>,
    pub price: Option<String>,
    pub cancel_new_client_order_id: Option<String>,
    pub cancel_orig_client_order_id: Option<String>,
    pub cancel_order_id: Option<usize>,
    pub new_client_order_id: Option<String>,
    pub strategy_id: Option<usize>,
    pub strategy_type: Option<usize>,
    pub stop_price: Option<String>,
    pub trailing_delta: Option<usize>,
    pub iceberg_qty: Option<String>,
    pub new_order_resp_type: Option<NewOrderResponseType>,
    pub self_tarde_prevention_mode: Option<SelfTradePreventionMode>,
    pub cancel_restrictions: Option<CancelRestrictions>,
    pub recv_window: Option<usize>, // <= 60_000
}

#[derive(Clone, Copy, Debug)]
pub enum CancelReplaceMode {
    StopOnFailure,
    AllowFailure,
}

#[derive(Debug)]
pub struct CancelReplaceOrderResponse {
    pub cancel_response: CancelOrderResponse,
    pub new_order_response: NewOrderResponse,
}

#[derive(Debug)]
pub struct OpenOrdersRequest {
    pub symbol: Option<String>,
    pub recv_window: Option<usize>, // <= 60_000
}

#[derive(Debug)]
pub struct AllOrdersRequest {
    pub symbol: String,
    pub from_order_id: Option<usize>,
    pub start_time: Option<usize>,
    pub end_time: Option<usize>,
    pub limit: Option<usize>, // <= 1000
    pub recv_window: Option<usize>, // <= 60_000
}

#[derive(Debug)]
pub struct NewOcoOrderRequest {
    pub symbol: String,
    pub list_client_order_id: Option<String>,
    pub side: Side,
    pub qty: String,
    pub limit_client_order_id: Option<String>,
    pub limit_strategy_id: Option<usize>,
    pub limit_strategy_type: Option<usize>, // >= 1_000_000
    pub price: String,
    pub limit_iceberg_qty: Option<String>,
    pub trailing_delta: Option<usize>,
    pub stop_client_order_id: Option<String>,
    pub stop_price: String,
    pub stop_strategy_id: Option<usize>,
    pub stop_strategy_type: Option<usize>, // >= 1_000_000
    pub stop_limit_price: Option<String>,
    pub stop_iceberg_qty: Option<String>,
    pub stop_limit_time_in_force: Option<TimeInForce>,
    pub new_order_resp_type: Option<NewOrderResponseType>,
    pub self_trade_prevention_mode: Option<SelfTradePreventionMode>,
    pub recv_window: Option<usize>, // <= 60_000
}

#[derive(Debug)]
pub struct NewOcoOrderResponse {
    pub order_list_id: usize,
    pub list_status_type: ListStatusType,
    pub list_order_status: ListOrderStatus,
    pub list_client_order_id: String,
    pub transaction_time: usize,
    pub symbol: String,
    pub orders: [Order; 2], 
    pub order_reports: [NewOrderResponse; 2],
}

#[derive(Debug)]
pub struct CancelListOrderRequest {
    pub symbol: String,
    pub order_list_id: Option<usize>,
    pub list_client_order_id: Option<String>,
    pub new_client_order_id: Option<String>,
    pub recv_window: Option<usize>, // <= 60_000
}

#[derive(Debug)]
pub struct CancelListOrderResponse {
    pub order_list_id: usize,
    pub contingency_type: ContingencyType,
    pub list_status_type: ListStatusType,
    pub list_order_status: ListOrderStatus,
    pub list_client_order_id: String,
    pub transaction_time: usize,
    pub symbol: String,
    pub orders: Vec<Order>, 
    pub order_reports: Vec<CancelOrderResponse>,
}

#[derive(Debug)]
pub struct ListOrderRequest {
    pub order_list_id: Option<usize>,
    pub list_client_order_id: Option<String>,
    pub recv_window: Option<usize>, // <= 60_000
}

#[derive(Debug)]
pub struct ListOrderResponse {
    pub order_list_id: usize,
    pub contingency_type: ContingencyType,
    pub list_status_type: ListStatusType,
    pub list_order_status: ListOrderStatus,
    pub list_client_order_id: String,
    pub transaction_time: usize,
    pub symbol: String,
    pub orders: Vec<Order>,
}

#[derive(Debug)]
pub struct AllListOrdersRequest {
    pub from_id: Option<usize>,
    pub start_time: Option<usize>,
    pub end_time: Option<usize>,
    pub limit: Option<usize>,
    pub recv_window: Option<usize>, // <= 60_000
}

#[derive(Debug)]
pub struct OpenListOrdersRequest {
    pub recv_window: Option<usize>, // <= 60_000
}

#[derive(Debug)]
pub struct AccountInformationRequest {
    pub recv_window: Option<usize>, // <= 60_000
}

#[derive(Debug)]
pub struct AccountInformationResponse {
    pub commission_rates: CommissionRates,
    pub can_trade: bool,
    pub can_withdraw: bool,
    pub can_deposit: bool,
    pub brokered: bool,
    pub required_self_trade_prevention: bool,
    pub prevent_sor: bool,
    pub update_time: usize,
    pub balances: Vec<Balance>,
    pub permissions: Vec<Permission>,
    pub uid: usize,
}

#[derive(Debug)]
pub struct CommissionRates {
    pub maker: String,
    pub taker: String,
    pub buyer: String,
    pub seller: String,
}

#[derive(Debug)]
pub struct MyTradesRequest {
    pub symbol: String,
    pub order_id: Option<usize>,
    pub start_time: Option<usize>,
    pub end_time: Option<usize>,
    pub from_id: Option<usize>,
    pub limit: Option<usize>, // <= 1000
    pub recv_window: Option<usize>, // <= 60_000
}

#[derive(Debug)]
pub struct MyTradeResponse {
    pub symbol: String,
    pub id: usize,
    pub order_id: usize,
    pub price: String,
    pub qty: String,
    pub quote_qty: String,
    pub commission: String,
    pub commission_asset: String,
    pub time: usize,
    pub is_buyer: bool,
    pub is_maker: bool,
}

#[derive(Debug)]
pub struct RateLimitsOrderUsageRequest {
    pub recv_window: Option<usize>, // <= 60_000
}

#[derive(Debug)]
pub struct RateLimitOrderUsageResponse {
    pub interval: RateLimitInterval,
    pub interval_num: usize,
    pub limit: usize,
    pub count: usize,
}

#[derive(Debug)]
pub struct MyPreventedMatchesRequest {
    pub symbol: String,
    pub prevented_match_id: Option<usize>,
    pub order_id: Option<usize>,
    pub from_prevented_match_id: Option<usize>,
    pub limit: Option<usize>, // <= 1000
    pub recv_window: Option<usize>, // <= 60_000
}

#[derive(Debug)]
pub struct MyPreventedMatchResponse {
    pub symbol: String,
    pub prevented_match_id: usize,
    pub taker_order_id: usize,
    pub maker_order_id: usize,
    pub trade_group_id: usize,
    pub self_trade_prevention_mode: SelfTradePreventionMode,
    pub price: String,
    pub maker_prevented_qty: String,
    pub transaction_time: usize,
}

/// The URL fragment of each `KlineInterval`.
pub open spec fn kline_interval_suffix(v: KlineInterval) -> Seq<char> {
    match v {
        KlineInterval::s1 => "1s"@,
        KlineInterval::m1 => "1m"@,
        KlineInterval::m3 => "3m"@,
        KlineInterval::m5 => "5m"@,
        KlineInterval::m15 => "15m"@,
        KlineInterval::m30 => "30m"@,
        KlineInterval::h1 => "1h"@,
        KlineInterval::h2 => "2h"@,
        KlineInterval::h4 => "4h"@,
        KlineInterval::h6 => "6h"@,
        KlineInterval::h8 => "8h"@,
        KlineInterval::h12 => "12h"@,
        KlineInterval::d1 => "1d"@,
        KlineInterval::d3 => "3d"@,
        KlineInterval::w1 => "1w"@,
        KlineInterval::M1 => "1M"@,
    }
}

/// Renders the fragment of one `KlineInterval`.
pub fn kline_interval_suffix_str(v: KlineInterval) -> (r: &'static str)
    ensures
        r@ == kline_interval_suffix(v),
{
    match v {
        KlineInterval::s1 => "1s",
        KlineInterval::m1 => "1m",
        KlineInterval::m3 => "3m",
        KlineInterval::m5 => "5m",
        KlineInterval::m15 => "15m",
        KlineInterval::m30 => "30m",
        KlineInterval::h1 => "1h",
        KlineInterval::h2 => "2h",
        KlineInterval::h4 => "4h",
        KlineInterval::h6 => "6h",
        KlineInterval::h8 => "8h",
        KlineInterval::h12 => "12h",
        KlineInterval::d1 => "1d",
        KlineInterval::d3 => "3d",
        KlineInterval::w1 => "1w",
        KlineInterval::M1 => "1M",
    }
}

/// The URL fragment of each `WindowSizedTickerWindowSize`.
pub open spec fn window_size_suffix(v: WindowSizedTickerWindowSize) -> Seq<char> {
    match v {
        WindowSizedTickerWindowSize::h1 => "1h"@,
        WindowSizedTickerWindowSize::h4 => "4h"@,
        WindowSizedTickerWindowSize::d1 => "1d"@,
    }
}

/// Renders the fragment of one `WindowSizedTickerWindowSize`.
pub fn window_size_suffix_str(v: WindowSizedTickerWindowSize) -> (r: &'static str)
    ensures
        r@ == window_size_suffix(v),
{
    match v {
        WindowSizedTickerWindowSize::h1 => "1h",
        WindowSizedTickerWindowSize::h4 => "4h",
        WindowSizedTickerWindowSize::d1 => "1d",
    }
}

/// The URL fragment of each `PartialDepthStreamLevels`.
pub open spec fn partial_depth_levels_suffix(v: PartialDepthStreamLevels) -> Seq<char> {
    match v {
        PartialDepthStreamLevels::l5 => "5"@,
        PartialDepthStreamLevels::l10 => "10"@,
        PartialDepthStreamLevels::l20 => "20"@,
    }
}

/// Renders the fragment of one `PartialDepthStreamLevels`.
pub fn partial_depth_levels_suffix_str(v: PartialDepthStreamLevels) -> (r: &'static str)
    ensures
        r@ == partial_depth_levels_suffix(v),
{
    match v {
        PartialDepthStreamLevels::l5 => "5",
        PartialDepthStreamLevels::l10 => "10",
        PartialDepthStreamLevels::l20 => "20",
    }
}

/// The URL fragment of each `PartialDepthStreamUpdateSpeed`.
pub open spec fn partial_depth_speed_suffix(v: PartialDepthStreamUpdateSpeed) -> Seq<char> {
    match v {
        PartialDepthStreamUpdateSpeed::ms100 => "@100ms"@,
        PartialDepthStreamUpdateSpeed::ms1000 => ""@,
    }
}

/// Renders the fragment of one `PartialDepthStreamUpdateSpeed`.
pub fn partial_depth_speed_suffix_str(v: PartialDepthStreamUpdateSpeed) -> (r: &'static str)
    ensures
        r@ == partial_depth_speed_suffix(v),
{
    match v {
        PartialDepthStreamUpdateSpeed::ms100 => "@100ms",
        PartialDepthStreamUpdateSpeed::ms1000 => "",
    }
}

/// The URL fragment of each `DiffDepthStreamUpdateSpeed`.
pub open spec fn diff_depth_speed_suffix(v: DiffDepthStreamUpdateSpeed) -> Seq<char> {
    match v {
        DiffDepthStreamUpdateSpeed::ms100 => "@100ms"@,
        DiffDepthStreamUpdateSpeed::ms1000 => ""@,
    }
}

/// Renders the fragment of one `DiffDepthStreamUpdateSpeed`.
pub fn diff_depth_speed_suffix_str(v: DiffDepthStreamUpdateSpeed) -> (r: &'static str)
    ensures
        r@ == diff_depth_speed_suffix(v),
{
    match v {
        DiffDepthStreamUpdateSpeed::ms100 => "@100ms",
        DiffDepthStreamUpdateSpeed::ms1000 => "",
    }
}

impl AggTradeStream {
    /// `<base>/ws/<symbol lowercased>@aggTrade`.
    pub fn build_url(&self, ws_base_url: &str) -> (r: String)
        ensures
            r@ == ws_base_url@ + "/ws/"@ + lower_of(self.symbol@) + "@aggTrade"@,
    {
        let mut s = String::from_str(ws_base_url);
        s.append("/ws/");
        let low = lowercase(self.symbol.as_str());
        s.append(low.as_str());
        s.append("@aggTrade");
        s
    }
}

impl TradeStream {
    /// `<base>/ws/<symbol lowercased>@trade`.
    pub fn build_url(&self, ws_base_url: &str) -> (r: String)
        ensures
            r@ == ws_base_url@ + "/ws/"@ + lower_of(self.symbol@) + "@trade"@,
    {
        let mut s = String::from_str(ws_base_url);
        s.append("/ws/");
        let low = lowercase(self.symbol.as_str());
        s.append(low.as_str());
        s.append("@trade");
        s
    }
}

impl KlineUpdateStream {
    /// `<base>/ws/<symbol lowercased>@kline_<interval>`.
    pub fn build_url(&self, ws_base_url: &str) -> (r: String)
        ensures
            r@ == ws_base_url@ + "/ws/"@ + lower_of(self.symbol@) + "@kline_"@ + kline_interval_suffix(self.interval),
    {
        let mut s = String::from_str(ws_base_url);
        s.append("/ws/");
        let low = lowercase(self.symbol.as_str());
        s.append(low.as_str());
        s.append("@kline_");
        s.append(kline_interval_suffix_str(self.interval));
        s
    }
}

impl MiniTickerStream {
    /// `<base>/ws/<symbol lowercased>@miniTicker`.
    pub fn build_url(&self, ws_base_url: &str) -> (r: String)
        ensures
            r@ == ws_base_url@ + "/ws/"@ + lower_of(self.symbol@) + "@miniTicker"@,
    {
        let mut s = String::from_str(ws_base_url);
        s.append("/ws/");
        let low = lowercase(self.symbol.as_str());
        s.append(low.as_str());
        s.append("@miniTicker");
        s
    }
}

impl AllMiniTickersStream {
    /// `<base>/ws/!miniTicker@arr`.
    pub fn build_url(&self, ws_base_url: &str) -> (r: String)
        ensures
            r@ == ws_base_url@ + "/ws/!miniTicker@arr"@,
    {
        let mut s = String::from_str(ws_base_url);
        s.append("/ws/!miniTicker@arr");
        s
    }
}

impl TickerStream {
    /// `<base>/ws/<symbol lowercased>@ticker`.
    pub fn build_url(&self, ws_base_url: &str) -> (r: String)
        ensures
            r@ == ws_base_url@ + "/ws/"@ + lower_of(self.symbol@) + "@ticker"@,
    {
        let mut s = String::from_str(ws_base_url);
        s.append("/ws/");
        let low = lowercase(self.symbol.as_str());
        s.append(low.as_str());
        s.append("@ticker");
        s
    }
}

impl AllTickersStream {
    /// `<base>/ws/!ticker@arr`.
    pub fn build_url(&self, ws_base_url: &str) -> (r: String)
        ensures
            r@ == ws_base_url@ + "/ws/!ticker@arr"@,
    {
        let mut s = String::from_str(ws_base_url);
        s.append("/ws/!ticker@arr");
        s
    }
}

impl WindowSizedTickerStream {
    /// `<base>/ws/<symbol lowercased>@ticker_<window>`.
    pub fn build_url(&self, ws_base_url: &str) -> (r: String)
        ensures
            r@ == ws_base_url@ + "/ws/"@ + lower_of(self.symbol@) + "@ticker_"@ + window_size_suffix(self.window_size),
    {
        let mut s = String::from_str(ws_base_url);
        s.append("/ws/");
        let low = lowercase(self.symbol.as_str());
        s.append(low.as_str());
        s.append("@ticker_");
        s.append(window_size_suffix_str(self.window_size));
        s
    }
}

impl AllWindowSizedTickersStream {
    /// `<base>/ws/!ticker_<window>@arr`.
    pub fn build_url(&self, ws_base_url: &str) -> (r: String)
        ensures
            r@ == ws_base_url@ + "/ws/!ticker_"@ + window_size_suffix(self.window_size) + "@arr"@,
    {
        let mut s = String::from_str(ws_base_url);
        s.append("/ws/!ticker_");
        s.append(window_size_suffix_str(self.window_size));
        s.append("@arr");
        s
    }
}

impl BookTickerStream {
    /// `<base>/ws/<symbol lowercased>@bookTicker`.
    pub fn build_url(&self, ws_base_url: &str) -> (r: String)
        ensures
            r@ == ws_base_url@ + "/ws/"@ + lower_of(self.symbol@) + "@bookTicker"@,
    {
        let mut s = String::from_str(ws_base_url);
        s.append("/ws/");
        let low = lowercase(self.symbol.as_str());
        s.append(low.as_str());
        s.append("@bookTicker");
        s
    }
}

impl PartialDepthStream {
    /// `<base>/ws/<symbol lowercased>@depth<levels><speed>`.
    pub fn build_url(&self, ws_base_url: &str) -> (r: String)
        ensures
            r@ == ws_base_url@ + "/ws/"@ + lower_of(self.symbol@) + "@depth"@ + partial_depth_levels_suffix(self.levels) + partial_depth_speed_suffix(self.update_speed),
    {
        let mut s = String::from_str(ws_base_url);
        s.append("/ws/");
        let low = lowercase(self.symbol.as_str());
        s.append(low.as_str());
        s.append("@depth");
        s.append(partial_depth_levels_suffix_str(self.levels));
        s.append(partial_depth_speed_suffix_str(self.update_speed));
        s
    }
}

impl DiffDepthStream {
    /// `<base>/ws/<symbol lowercased>@depth<speed>`.
    pub fn build_url(&self, ws_base_url: &str) -> (r: String)
        ensures
            r@ == ws_base_url@ + "/ws/"@ + lower_of(self.symbol@) + "@depth"@ + diff_depth_speed_suffix(self.update_speed),
    {
        let mut s = String::from_str(ws_base_url);
        s.append("/ws/");
        let low = lowercase(self.symbol.as_str());
        s.append(low.as_str());
        s.append("@depth");
        s.append(diff_depth_speed_suffix_str(self.update_speed));
        s
    }
}

impl UserStream {
    /// `<base>/ws/<listen key>`, verbatim.
    pub fn build_url(&self, ws_base_url: &str) -> (r: String)
        ensures
            r@ == ws_base_url@ + "/ws/"@ + self.listen_key@,
    {
        let mut s = String::from_str(ws_base_url);
        s.append("/ws/");
        s.append(self.listen_key.as_str());
        s
    }
}

} // verus!
