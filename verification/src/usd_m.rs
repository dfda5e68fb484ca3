//! The USD-M futures catalog: request, response and event shapes for
//! the futures API, and the market-data stream topics with their
//! endpoint URLs.

use vstd::prelude::*;
use vstd::string::StringExecFns;
use crate::encoding::{lower_of, lowercase};
use crate::model::{Side, BookLevel, SelfTradePreventionMode};

verus! {

#[derive(Debug)]
pub struct AggTradeEvent {
    pub event_time: usize,
    pub symbol: String,
    pub id: usize,
    pub price: String,
    pub qty: String,
    pub first_trade_id: usize,
    pub last_trade_id: usize,
    pub trade_time: usize,
    pub buyer_is_maker: bool,
}

#[derive(Debug)]
pub struct AggTradeStream {
    pub symbol: String,
}

#[derive(Debug)]
pub struct MarkPriceEvent {
    pub event_time: usize,
    pub symbol: String,
    pub mark_price: String,
    pub index_price: String,
    pub estimated_settelment_price: String,
    pub funding_fee_rate: String,
    pub next_funding_time: usize,
}

#[allow(non_camel_case_types)]
#[derive(Clone, Copy, Debug)]
pub enum MarkPriceStreamUpdateSpeed {
    ms1000,
    ms3000,
}

#[derive(Debug)]
pub struct MarkPriceStream {
    pub symbol: String,
    pub update_speed: MarkPriceStreamUpdateSpeed,
}

#[derive(Debug)]
pub struct AllMarkPricesStream {
    pub update_speed: MarkPriceStreamUpdateSpeed,
}

#[allow(non_camel_case_types)]
#[derive(Clone, Copy, Debug)]
pub enum KlineInterval {
    m1,
    m3,
    m5,
    m15,
    m30,
    h1,
    h2,
    h4,
    h6,
    h8,
    h12,
    d1,
    d3,
    w1,
    M1,
}

#[derive(Debug)]
pub struct KlineUpdateEvent {
    pub event_time: usize,
    pub symbol: String,
    pub kline_update: KlineUpdate,
}

#[derive(Debug)]
pub struct KlineUpdate {
    pub open_time: usize,
    pub close_time: usize,
    pub symbol: String,
    pub interval: KlineInterval,
    pub first_trade_id: usize,
    pub last_trade_id: usize,
    pub open_price: String,
    pub close_price: String,
    pub high_price: String,
    pub low_price: String,
    pub base_asset_volume: String,
    pub trade_count: usize,
    pub is_closed: bool,
    pub quote_asset_volume: String,
    pub taker_buy_base_asset_volume: String,
    pub taker_buy_quote_asset_volume: String,
}

#[derive(Debug)]
pub struct KlineUpdateStream {
    pub symbol: String,
    pub interval: KlineInterval,
}

#[derive(Clone, Copy, Debug)]
pub enum ContractType {
    Perpetual,
    CurrentMonth,
    NextMonth,
    CurrentQuarter,
    NextQuarter,
    PerpetualDelivering,
}

#[derive(Debug)]
pub struct ContinuousContractKlineUpdateEvent {
    pub event_time: usize,
    pub pair: String,
    pub contract_type: ContractType,
    pub kline_update: ContinuousContractKlineUpdate,
}

#[derive(Debug)]
pub struct ContinuousContractKlineUpdate {
    pub open_time: usize,
    pub close_time: usize,
    pub interval: KlineInterval,
    pub first_trade_id: usize,
    pub last_trade_id: usize,
    pub open_price: String,
    pub close_price: String,
    pub high_price: String,
    pub low_price: String,
    pub base_asset_volume: String,
    pub trade_count: usize,
    pub is_closed: bool,
    pub quote_asset_volume: String,
    pub taker_buy_base_asset_volume: String,
    pub taker_buy_quote_asset_volume: String,
}

#[derive(Debug)]
pub struct ContinuousContractKlineUpdateStream {
    pub pair: String,
    pub contract_type: ContractType,
    pub interval: KlineInterval,
}

#[derive(Debug)]
pub struct MiniTickerEvent {
    pub event_time: usize,
    pub symbol: String,
    pub close_price: String,
    pub open_price: String,
    pub high_price: String,
    pub low_price: String,
    pub base_asset_volume: String,
    pub quote_asset_volume: String,
}

#[derive(Debug)]
pub struct MiniTickerStream {
    pub symbol: String,
}

#[derive(Debug)]
pub struct AllMiniTickersStream;

#[derive(Debug)]
pub struct TickerEvent {
    pub event_time: usize,
    pub symbol: String,
    pub price_change: String,
    pub price_change_percent: String,
    pub volume_weighted_avg_price: String,
    pub last_price: String,
    pub last_qty: String,
    pub open_price: String,
    pub high_price: String,
    pub low_price: String,
    pub base_asset_volume: String,
    pub quote_asset_volume: String,
    pub open_time: usize,
    pub close_time: usize,
    pub first_trade_id: usize,
    pub last_trade_id: usize,
    pub trade_count: usize,
}

#[derive(Debug)]
pub struct TickerStream {
    pub symbol: String,
}

#[derive(Debug)]
pub struct AllTickersStream;

#[derive(Debug)]
pub struct BookTickerEvent {
    pub order_book_update_id: usize,
    pub event_time: usize,
    pub transaction_time: usize,
    pub symbol: String,
    pub best_bid_price: String,
    pub best_bid_qty: String,
    pub best_ask_price: String,
    pub best_ask_qty: String,
}

#[derive(Debug)]
pub struct BookTickerStream {
    pub symbol: String,
}

#[derive(Debug)]
pub struct AllBookTickersStream;

#[derive(Clone, Copy, Debug)]
pub enum OrderType {
    Limit,
    Market,
    Stop,
    StopMarket,
    TakeProfit,
    TakeProfitMarket,
    TrailingStopMarket,
}

#[derive(Clone, Copy, Debug)]
pub enum TimeInForce {
    GoodTillCancel,
    ImmediateOrCancel,
    FillOrKill,
    GoodTillCrossing,
}

#[derive(Clone, Copy, Debug)]
pub enum OrderStatus {
    New,
    PartiallyFilled,
    Filled,
    Canceled,
    Rejected,
    Expired,
}

#[derive(Debug)]
pub struct LiquidationOrderEvent {
    pub event_time: usize,
    pub liquidation_order: LiquidationOrder,
}

#[derive(Debug)]
pub struct LiquidationOrder {
    pub symbol: String,
    pub side: Side,
    pub order_type: OrderType,
    pub time_in_force: TimeInForce,
    pub orig_qty: String,
    pub price: String,
    pub avg_price: String,
    pub status: OrderStatus,
    pub last_filled_qty: String,
    pub cumulative_filled_qty: String,
    pub order_trade_time: usize,
}

#[derive(Debug)]
pub struct LiquidationOrderStream {
    pub symbol: String,
}

#[derive(Debug)]
pub struct AllLiquidationOrdersStream;

#[derive(Debug)]
pub struct PartialDepthEvent {
    pub event_time: usize,
    pub transaction_time: usize,
    pub symbol: String,
    pub first_update_id: usize,
    pub final_update_id: usize,
    pub last_event_final_update_id: usize,
    pub bids: Vec<BookLevel>,
    pub asks: Vec<BookLevel>,
}

#[allow(non_camel_case_types)]
#[derive(Clone, Copy, Debug)]
pub enum PartialDepthStreamUpdateSpeed {
    ms100,
    ms250,
    ms500,
}

#[allow(non_camel_case_types)]
#[derive(Clone, Copy, Debug)]
pub enum PartialDepthStreamLevels {
    l5,
    l10,
    l20,
}

#[derive(Debug)]
pub struct PartialDepthStream {
    pub symbol: String,
    pub update_speed: PartialDepthStreamUpdateSpeed,
    pub levels: PartialDepthStreamLevels,
}

#[derive(Debug)]
pub struct DiffDepthEvent {
    pub event_time: usize,
    pub transaction_time: usize,
    pub symbol: String,
    pub first_update_id: usize,
    pub final_update_id: usize,
    pub last_event_final_update_id: usize,
    pub bid_updates: Vec<BookLevel>,
    pub ask_updates: Vec<BookLevel>,
}

#[allow(non_camel_case_types)]
#[derive(Clone, Copy, Debug)]
pub enum DiffDepthStreamUpdateSpeed {
    ms100,
    ms250,
    ms500,
}

#[derive(Debug)]
pub struct DiffDepthStream {
    pub symbol: String,
    pub update_speed: DiffDepthStreamUpdateSpeed,
}

#[derive(Debug)]
pub struct CompositeIndexEvent {
    pub event_time: usize,
    pub symbol: String,
    pub price: String,
    pub c: String,
    pub composition: Vec<Composite>,
}

#[derive(Debug)]
pub struct Composite {
    pub base_asset: String,
    pub quote_asset: String,
    pub qty_weight: String,
    pub percentage_weight: String,
    pub index_price: String,
}

#[derive(Debug)]
pub struct CompositeIndexStream {
    pub symbol: String,
}

#[derive(Clone, Copy, Debug)]
pub enum ContractStatus {
    PendingTrading,
    Trading,
    PreDelivering,
    Delivering,
    Delivered,
    PreSettle,
    Settling,
    Close,
}

#[derive(Debug)]
pub struct ContractInfoEvent {
    pub event_time: usize,
    pub symbol: String,
    pub pair: String,
    pub contract_type: ContractType,
    pub delivery_time: usize,
    pub onboard_time: usize,
    pub contract_status: ContractStatus,
    pub notional_brackets: Vec<NotionalBracket>,
}

#[derive(Debug)]
pub struct NotionalBracket {
    pub id: usize,
    pub floor: String,
    pub cap: String,
    pub maintenance_ratio: String,
    pub auxiliary_number: String,
    pub min_leverage: usize,
    pub max_leverage: usize,
}

#[derive(Debug)]
pub struct ContractInfoStream;

#[derive(Debug)]
pub struct AssetIndexUpdateEvent {
    pub event_time: usize,
    pub symbol: String,
    pub index_price: String,
    pub bid_buffer: String,
    pub ask_buffer: String,
    pub bid_rate: String,
    pub ask_rate: String,
    pub auto_exchange_bid_buffer: String,
    pub auto_exchange_ask_buffer: String,
    pub auto_exchange_bid_rate: String,
    pub auto_exchange_ask_rate: String,
}

#[derive(Debug)]
pub struct AssetIndexUpdateStream {
    pub symbol: String,
}

#[derive(Debug)]
pub struct AllAssetIndexUpdatesStream;

#[derive(Debug)]
pub struct PingRequest;

#[derive(Debug)]
pub struct PingResponse { }

#[derive(Debug)]
pub struct ServerTimeRequest;

#[derive(Debug)]
pub struct ServerTimeResponse {
    pub server_time: usize,
}

#[derive(Debug)]
pub struct ExchangeInfoRequest;

#[derive(Debug)]
pub struct ExchangeInfoResponse {
    pub exchange_filters: Vec<ExchangeFilter>,
    pub rate_limits: Vec<RateLimit>,
    pub server_time: usize,
    pub markets: Vec<Market>,
}

#[derive(Debug)]
pub enum ExchangeFilter {
    /// The exchange documents no filter at this level; the variant only
    /// keeps the shape decodable.
    Unspecified,
}

#[derive(Debug)]
pub struct RateLimit {
    pub rate_limit_type: RateLimitType,
    pub interval: RateLimitInterval,
    pub interval_num: usize,
    pub limit: usize,
}

#[derive(Clone, Copy, Debug)]
pub enum RateLimitType {
    RequestWeight,
    Orders,
}

#[derive(Clone, Copy, Debug)]
pub enum RateLimitInterval {
    Second,
    Minute,
}

#[derive(Debug)]
pub struct Market {
    pub symbol: String,
    pub pair: String,
    pub contract_type: Option<ContractType>,
    pub delivery_date: usize,
    pub onboard_date: usize,
    pub status: ContractStatus,
    pub maint_margin_percent: String,
    pub required_margin_percent: String,
    pub base_asset: String,
    pub quote_asset: String,
    pub margin_asset: String,
    pub price_precision: usize,
    pub qty_precision: usize,
    pub base_asset_precision: usize,
    pub quote_asset_precision: usize,
    pub underlying_type: String, // No info on this
    pub underlying_sub_type: Vec<String>, // No info on this
    pub settle_plan: usize, // No info on this
    pub trigger_protect: String,
    pub filters: Vec<SymbolFilter>,
    pub liquidation_fee: String,
    pub market_take_bound: String,
}

#[allow(non_camel_case_types)]
#[derive(Debug)]
pub enum SymbolFilter {
    Price {
        min: String,
        max: String,
        tick_size: String,
    },
    LotSize {
        min_qty: String,
        max_qty: String,
        step_size: String,
    },
    MarketLotSize {
        min_qty: String,
        max_qty: String,
        step_size: String,
    },
    MaxNumOrders {
        max: usize,
    },
    MaxNumAlgoOrders {
        max: usize,
    },
    PercentPrice {
        multiplier_up: String,
        multiplier_down: String,
        multiplier_precision: String,
    },
    MinNotional {
        min: String,
    },
}

#[derive(Debug)]
pub struct OrderBookRequest {
    pub symbol: String,
    pub limit: Option<OrderBookRequestLevels>,
}

#[allow(non_camel_case_types)]
#[derive(Debug)]
pub enum OrderBookRequestLevels {
    l5,
    l10,
    l20,
    l50,
    l100,
    l500,
    l1000,
}

#[derive(Debug)]
pub struct OrderBookResponse {
    pub last_update_id: usize,
    pub message_output_time: usize,
    pub transaction_time: usize,
    pub bids: Vec<BookLevel>,
    pub asks: Vec<BookLevel>,
}

#[derive(Debug)]
pub struct RecentTradesRequest {
    pub symbol: String,
    pub limit: Option<usize>, // <= 1000
}

#[derive(Debug)]
pub struct OldTradesRequest {
    pub symbol: String,
    pub limit: Option<usize>, // <= 1000
    pub from_id: Option<usize>,
}

#[derive(Debug)]
pub struct TradeResponse {
    pub id: usize,
    pub price: String,
    pub qty: String,
    pub quote_qty: String,
    pub time: usize,
    pub is_buyer_maker: bool,
}

#[derive(Debug)]
pub struct AggTradesRequest {
    pub symbol: String,
    pub from_id: Option<usize>,
    pub start_time: Option<usize>,
    pub end_time: Option<usize>,
    pub limit: Option<usize>, // <= 1000
}

#[derive(Debug)]
pub struct AggTradeResponse {
    pub id: usize,
    pub price: String,
    pub qty: String,
    pub first_trade_id: usize,
    pub last_trade_id: usize,
    pub time: usize,
    pub is_buyer_maker: bool,
}

#[derive(Debug)]
pub struct KlinesRequest {
    pub symbol: String,
    pub interval: KlineInterval,
    pub start_time: Option<usize>,
    pub end_time: Option<usize>,
    pub limit: Option<usize>, // <= 1500
}

#[derive(Debug)]
pub struct ContinuousContractKlinesRequest {
    pub pair: String,
    pub contract_type: ContractType,
    pub interval: KlineInterval,
    pub start_time: Option<usize>,
    pub end_time: Option<usize>,
    pub limit: Option<usize>, // <= 1500
}

#[derive(Debug)]
pub struct KlineResponse {
    pub open_time: usize,
    pub open_price: String,
    pub high_price: String,
    pub low_price: String,
    pub close_price: String,
    pub base_asset_volume: String,
    pub close_time: usize,
    pub quote_asset_volmue: String,
    pub trade_count: usize,
    pub taker_buy_base_asset_volume: String,
    pub taker_buy_quote_asset_volume: String,
}

#[derive(Debug)]
pub struct IndexPriceKlinesRequest {
    pub pair: String,
    pub interval: KlineInterval,
    pub start_time: Option<usize>,
    pub end_time: Option<usize>,
    pub limit: Option<usize>, // <= 1500
}

#[derive(Debug)]
pub struct MarkPriceKlinesRequest {
    pub symbol: String,
    pub interval: KlineInterval,
    pub start_time: Option<usize>,
    pub end_time: Option<usize>,
    pub limit: Option<usize>, // <= 1500
}

#[derive(Debug)]
pub struct IndexKlineResponse {
    pub open_time: usize,
    pub open_price: String,
    pub high_price: String,
    pub low_price: String,
    pub close_price: String,
    pub close_time: usize,
}

#[derive(Debug)]
pub struct MarkPriceRequest {
    pub symbol: String,
}

#[derive(Debug)]
pub struct AllMarkPricesRequest;

#[derive(Debug)]
pub struct MarkPriceResponse {
    pub symbol: String,
    pub mark_price: String,
    pub index_price: String,
    pub estimated_settle_price: String,
    pub last_funding_rate: String,
    pub next_funding_time: usize,
    pub interest_rate: String,
    pub time: usize,
}

#[derive(Debug)]
pub struct FundingRateHistoryRequest {
    pub symbol: String,
    pub start_time: Option<usize>,
    pub end_time: Option<usize>,
    pub limit: Option<usize>, // <= 1000
}

#[derive(Debug)]
pub struct FundingRateHistoryResponse {
    pub symbol: String,
    pub funding_rate: String,
    pub funding_time: usize,
}

#[derive(Debug)]
pub struct TickerRequest {
    pub symbol: String,
}

#[derive(Debug)]
pub struct AllTickersRequest;

#[derive(Debug)]
pub struct TickerResponse {
    pub symbol: String,
    pub price_change: String,
    pub price_change_percent: String,
    pub volume_weighted_avg_price: String,
    pub last_price: String,
    pub last_qty: String,
    pub open_price: String,
    pub hight_price: String,
    pub low_price: String,
    pub base_asset_volume: String,
    pub quote_asset_volume: String,
    pub open_time: usize,
    pub close_time: usize,
    pub first_trade_id: usize,
    pub last_trade_id: usize,
    pub trade_count: usize,
}

#[derive(Debug)]
pub struct PriceTickerRequest {
    pub symbol: String,
}

#[derive(Debug)]
pub struct AllPriceTickersRequest;

#[derive(Debug)]
pub struct PriceTickerResponse {
    pub symbol: String,
    pub price: String,
    pub time: usize,
}

#[derive(Debug)]
pub struct BookTickerRequest {
    pub symbol: String,
}

#[derive(Debug)]
pub struct AllBookTickersRequest;

#[derive(Debug)]
pub struct BookTickerResponse {
    pub symbol: String,
    pub best_bid_price: String,
    pub best_bid_qty: String,
    pub best_ask_price: String,
    pub best_ask_qty: String,
    pub time: usize,
}

#[derive(Debug)]
pub struct OpenInterestRequest {
    pub symbol: String,
}

#[derive(Debug)]
pub struct OpenInterestResponse {
    pub open_interest: String,
    pub symbol: String,
    pub time: usize,
}

#[derive(Debug)]
pub struct OpenInterestStatisticsRequest {
    pub symbol: String,
    pub period: FuturesStatisticsPeriod,
    pub limit: Option<usize>, // <= 500
    pub start_time: Option<usize>,
    pub end_time: Option<usize>,
}

#[allow(non_camel_case_types)]
#[derive(Clone, Copy, Debug)]
pub enum FuturesStatisticsPeriod {
    m5,
    m15,
    m30,
    h1,
    h2,
    h4,
    h6,
    h12,
    d1,
}

#[derive(Debug)]
pub struct OpenInterestStatisticsResponse {
    pub symbol: String,
    pub sum_open_interest: String,
    pub sum_open_interest_value: String,
    pub timestamp: usize,
}

#[derive(Debug)]
pub struct TopLongShortAccountRatioRequest {
    pub symbol: String,
    pub period: FuturesStatisticsPeriod,
    pub limit: Option<usize>, // <= 500
    pub start_time: Option<usize>,
    pub end_time: Option<usize>,
}

#[derive(Debug)]
pub struct TopLongShortAccountRatioResponse {
    pub symbol: String,
    pub long_short_ratio: String,
    pub long_account: String,
    pub short_account: String,
    pub timestamp: usize,
}

#[derive(Debug)]
pub struct TopLongShortPositionRatioRequest {
    pub symbol: String,
    pub period: FuturesStatisticsPeriod,
    pub limit: Option<usize>, // <= 500
    pub start_time: Option<usize>,
    pub end_time: Option<usize>,
}

#[derive(Debug)]
pub struct TopLongShortPositionRatioResponse {
    pub symbol: String,
    pub long_short_ratio: String,
    pub long_account: String,
    pub short_account: String,
    pub timestamp: usize,
}

#[derive(Debug)]
pub struct GlobalLongShortAccountRatioRequest {
    pub symbol: String,
    pub period: FuturesStatisticsPeriod,
    pub limit: Option<usize>, // <= 500
    pub start_time: Option<usize>,
    pub end_time: Option<usize>,
}

#[derive(Debug)]
pub struct GlobalLongShortAccountRatioResponse {
    pub symbol: String,
    pub long_short_ratio: String,
    pub long_account: String,
    pub short_account: String,
    pub timestamp: usize,
}

#[derive(Debug)]
pub struct TakerBuySellVolumeRequest {
    pub symbol: String,
    pub period: FuturesStatisticsPeriod,
    pub limit: Option<usize>, // <= 500
    pub start_time: Option<usize>,
    pub end_time: Option<usize>,
}

#[derive(Debug)]
pub struct TakerBuySellVolumeResponse {
    pub buy_sell_ratio: String,
    pub buy_vol: String,
    pub sell_vol: String,
    pub timestamp: usize,
}

#[derive(Debug)]
pub struct HistoricalBlvtKlinesRequest {
    pub symbol: String,
    pub interval: KlineInterval,
    pub start_time: Option<usize>,
    pub end_time: Option<usize>,
    pub limit: Option<usize>, // <= 1500
}

#[derive(Debug)]
pub struct HistoricalBlvtKlineResponse {
    pub open_time: usize,
    pub open_price: String,
    pub high_price: String,
    pub low_price: String,
    pub close_price: String,
    pub real_leverage: String,
    pub close_time: usize,
    pub nav_update_count: usize,
}

#[derive(Debug)]
pub struct AssetIndexRequest {
    pub symbol: String,
}

#[derive(Debug)]
pub struct AllAssetIndexesRequest;

#[derive(Debug)]
pub struct AssetIndexResponse {
    pub symbol: String,
    pub time: usize,
    pub index: String,
    pub bid_buffer: String,
    pub ask_buffer: String,
    pub bid_rate: String,
    pub ask_rate: String,
    pub auto_exchange_bid_buffer: String,
    pub auto_exchange_ask_buffer: String,
    pub auto_exchange_bid_rate: String,
    pub auto_exchange_ask_rate: String,
}

#[derive(Debug)]
pub struct CreateListenKeyRequest;

#[derive(Debug)]
pub struct CreateListenKeyResponse {
    pub listen_key: String,
}

#[derive(Debug)]
pub struct KeepAliveListenKeyRequest;

#[derive(Debug)]
pub struct KeepAliveListenKeyResponse { }

#[derive(Debug)]
pub struct CloseListenKeyRequest;

#[derive(Debug)]
pub struct CloseListenKeyResponse { }

#[derive(Debug)]
pub struct ChangePositionModeRequest {
    pub dual_side_position: bool,
    pub recv_window: Option<usize>, // <= 60_000
}

#[derive(Debug)]
pub struct ChangePositionModeResponse { }

#[derive(Debug)]
pub struct GetPositionModeRequest {
    pub recv_window: Option<usize>, // <= 60_000
}

#[derive(Debug)]
pub struct GetPositionModeResponse {
    pub dual_side_position: bool,
}

#[derive(Debug)]
pub struct ChangeMultiAssetModeRequest {
    pub multi_asset_margin: bool,
    pub recv_window: Option<usize>, // <= 60_000
}

#[derive(Debug)]
pub struct ChangeMultiAssetModeResponse { }

#[derive(Debug)]
pub struct GetMultiAssetModeRequest {
    pub recv_window: Option<usize>, // <= 60_000
}

#[derive(Debug)]
pub struct GetMultiAssetModeResponse {
    pub multi_asset_margin: bool,
}

#[derive(Clone, Copy, Debug)]
pub enum PositionSide {
    Both,
    Long,
    Short,
}

#[derive(Clone, Copy, Debug)]
pub enum WorkingType {
    MarkPrice,
    ContractPrice,
}

#[derive(Debug)]
pub struct TestNewOrderRequest {
    pub symbol: String,
    pub side: Side,
    pub position_side: Option<PositionSide>,
    pub order_type: OrderType,
    pub time_in_force: Option<TimeInForce>,
    pub qty: Option<String>,
    pub reduce_only: Option<bool>,
    pub price: Option<String>,
    pub client_order_id: Option<String>,
    pub stop_price: Option<String>,
    pub close_position: Option<bool>,
    pub activation_price: Option<String>,
    pub callback_rate: Option<String>,
    pub working_type: Option<WorkingType>,
    pub price_protect: Option<bool>,
    pub self_trade_prevention_mode: Option<SelfTradePreventionMode>,
    pub good_till_date: Option<usize>,
    pub recv_window: Option<usize>, // <= 60_000
}

#[derive(Debug)]
pub struct TestNewOrderResponse { }

#[derive(Debug)]
pub struct NewOrderRequest {
    pub symbol: String,
    pub side: Side,
    pub position_side: Option<PositionSide>,
    pub order_type: OrderType,
    pub time_in_force: Option<TimeInForce>,
    pub qty: Option<String>,
    pub reduce_only: Option<bool>,
    pub price: Option<String>,
    pub client_order_id: Option<String>,
    pub stop_price: Option<String>,
    pub close_position: Option<bool>,
    pub activation_price: Option<String>,
    pub callback_rate: Option<String>,
    pub working_type: Option<WorkingType>,
    pub price_protect: Option<bool>,
    pub self_trade_prevention_mode: Option<SelfTradePreventionMode>,
    pub good_till_date: Option<usize>,
    pub recv_window: Option<usize>, // <= 60_000
}

#[derive(Debug)]
pub struct NewOrderResponse {
    pub client_order_id: String,
    pub cummulative_qty: String,
    pub cummulative_quote_qty: String,
    pub executed_qty: String,
    pub order_id: usize,
    pub average_price: String,
    pub orig_qty: String,
    pub price: String,
    pub reduce_only: bool,
    pub side: Side,
    pub position_side: PositionSide,
    pub status: OrderStatus,
    pub stop_price: String,
    pub close_position: bool,
    pub symbol: String,
    pub time_in_force: TimeInForce,
    pub order_type: OrderType,
    pub orig_order_type: OrderType,
    pub activate_price: Option<String>,
    pub price_rate: Option<String>,
    pub update_time: usize,
    pub working_type: WorkingType,
    pub price_protect: bool,
    pub self_trade_prevention_mode: SelfTradePreventionMode,
    pub good_till_date: usize,
}

#[derive(Debug)]
pub struct ModifyOrderRequest {
    pub order_id: Option<usize>,
    pub orig_client_order_id: Option<usize>,
    pub symbol: String,
    pub side: Side,
    pub qty: String,
    pub price: String,
    pub recv_window: Option<usize>, // <= 60_000
}

#[derive(Debug)]
pub struct ModifyOrderResponse {
    pub order_id: usize,
    pub symbol: String,
    pub pair: String,
    pub status: OrderStatus,
    pub client_order_id: String,
    pub price: String,
    pub average_price: String,
    pub orig_qty: String,
    pub executed_qty: String,
    pub cummulative_qty: String,
    pub cummulative_base_qty: String,
    pub time_in_force: TimeInForce,
    pub order_type: OrderType,
    pub reduce_only: bool,
    pub close_position: bool,
    pub side: Side,
    pub position_side: PositionSide,
    pub stop_price: String,
    pub working_type: WorkingType,
    pub price_protect: bool,
    pub orig_order_type: OrderType,
    pub self_trade_prevention_mode: SelfTradePreventionMode,
    pub good_till_date: usize,
    pub update_time: usize,
}

#[derive(Debug)]
pub struct NewOrdersRequest {
    pub batch_orders: Vec<NewOrderRequest>,
    pub recv_window: Option<usize>, // <= 60_000
}

#[derive(Debug)]
pub struct ModifyOrdersRequest {
    pub batch_orders: Vec<ModifyOrderRequest>,
    pub recv_window: Option<usize>, // <= 60_000
}

#[derive(Debug)]
pub struct GetOrderModifyHistoryRequest {
    pub symbol: String,
    pub order_id: Option<usize>,
    pub orig_client_order_id: Option<String>,
    pub start_time: Option<usize>,
    pub end_time: Option<usize>,
    pub limit: Option<usize>, // <= 100
    pub recv_window: Option<usize>, // <= 60_000
}

#[derive(Debug)]
pub struct Modification {
    pub before: String,
    pub after: String,
}

#[derive(Debug)]
pub struct OrderAmendment {
    pub price: Modification,
    pub orig_qty: Modification,
    pub count: usize,
}

#[derive(Debug)]
pub struct GetOrderModifyHistoryResponse {
    pub amendment_id: usize,
    pub symbol: String,
    pub pair: String,
    pub order_id: usize,
    pub client_order_id: String,
    pub time: usize,
    pub amendment: OrderAmendment,
}

#[derive(Debug)]
pub struct QueryOrderRequest {
    pub symbol: String,
    pub order_id: Option<usize>,
    pub orig_client_order_id: Option<String>,
    pub recv_window: Option<usize>, // <= 60_000
}

#[derive(Debug)]
pub struct QueryOrderResponse {
    pub average_price: String,
    pub client_order_id: String,
    pub cummulative_quote_qty: String,
    pub executed_qty: String,
    pub order_id: usize,
    pub orig_qty: String,
    pub orig_order_type: OrderType,
    pub price: String,
    pub reduce_only: bool,
    pub side: Side,
    pub position_side: PositionSide,
    pub status: OrderStatus,
    pub stop_price: String,
    pub close_position: bool,
    pub symbol: String,
    pub time: usize,
    pub time_in_force: TimeInForce,
    pub order_type: OrderType,
    pub activate_price: Option<String>,
    pub price_rate: Option<String>,
    pub update_time: usize,
    pub working_type: WorkingType,
    pub price_protect: bool,
    pub self_trade_prevention_mode: SelfTradePreventionMode,
    pub good_till_date: usize,
}

#[derive(Debug)]
pub struct CancelOrderRequest {
    pub symbol: String,
    pub order_id: Option<usize>,
    pub orig_client_order_id: Option<String>,
    pub recv_window: Option<usize>, // <= 60_000
}

#[derive(Debug)]
pub struct CancelOrderResponse {
    pub client_order_id: String,
    pub cummulative_qty: String,
    pub cummulative_quote_qty: String,
    pub executed_qty: String,
    pub order_id: usize,
    pub orig_qty: String,
    pub orig_order_type: OrderType,
    pub price: String,
    pub reduce_only: bool,
    pub side: Side,
    pub position_side: PositionSide,
    pub status: OrderStatus,
    pub stop_price: String,
    pub close_position: bool,
    pub symbol: String,
    pub time_in_force: TimeInForce,
    pub order_type: OrderType,
    pub activate_price: Option<String>,
    pub price_rate: Option<String>,
    pub update_time: usize,
    pub working_type: WorkingType,
    pub price_protect: bool,
    pub self_trade_prevention_mode: SelfTradePreventionMode,
    pub good_till_date: usize,
}

#[derive(Debug)]
pub struct CancelAllOrdersRequest {
    pub symbol: String,
    pub recv_window: Option<usize>, // <= 60_000
}

#[derive(Debug)]
pub struct CancelAllOrdersResponse { }

#[derive(Debug)]
pub struct CancelOrdersRequest {
    pub symbol: String,
    pub order_id_list: Option<Vec<usize>>, // len <= 10
    pub orig_client_order_id_list: Option<Vec<String>>, // len <= 10
    pub recv_window: Option<usize>, // <= 60_000
}

#[derive(Debug)]
pub struct CancelAllOrdersWithCountdownRequest {
    pub symbol: String,
    pub countdown_time: usize,
    pub recv_window: Option<usize>, // <= 60_000
}

#[derive(Debug)]
pub struct CancelAllOrdersWithCountdownResponse {
    pub symbol: String,
    pub countdown_time: String,
}

#[derive(Debug)]
pub struct QueryOpenOrderRequest {
    pub symbol: String,
    pub order_id: Option<usize>,
    pub orig_client_order_id: Option<String>,
    pub recv_window: Option<usize>, // <= 60_000
}

#[derive(Debug)]
pub struct QueryOpenOrderResponse {
    pub average_price: String,
    pub client_order_id: String,
    pub cummulative_quote_qty: String,
    pub executed_qty: String,
    pub order_id: usize,
    pub orig_qty: String,
    pub orig_order_type: OrderType,
    pub price: String,
    pub reduce_only: bool,
    pub side: Side,
    pub position_side: PositionSide,
    pub status: OrderStatus,
    pub stop_price: String,
    pub close_position: bool,
    pub symbol: String,
    pub time: usize,
    pub time_in_force: TimeInForce,
    pub order_type: OrderType,
    pub activate_price: Option<String>,
    pub price_rate: Option<String>,
    pub update_time: usize,
    pub working_type: WorkingType,
    pub price_protect: bool,
    pub self_trade_prevention_mode: SelfTradePreventionMode,
    pub good_till_date: usize,
}

#[derive(Debug)]
pub struct QueryAllOpenOrdersRequest {
    pub symbol: Option<String>,
    pub recv_window: Option<usize>, // <= 60_000
}

#[derive(Debug)]
pub struct QueryAllOrdersRequest {
    pub symbol: String,
    pub from_order_id: Option<usize>,
    pub start_time: Option<usize>,
    pub end_time: Option<usize>,
    pub limit: Option<usize>, // <= 1000
    pub recv_window: Option<usize>, // <= 60_000
}

#[derive(Debug)]
pub struct BalancesRequest {
    pub recv_window: Option<usize>, // <= 60_000
}

#[derive(Debug)]
pub struct BalanceResponse {
    pub account_alias: String,
    pub asset: String,
    pub balance: String,
    pub cross_wallet_balance: String,
    pub cross_unrealized_pnl: String,
    pub available_balance: String,
    pub max_withdraw_amount: String,
    pub margin_availble: bool,
    pub update_time: usize,
}

#[derive(Debug)]
pub struct AccountInformationRequest {
    pub recv_window: Option<usize>, // <= 60_000
}

#[derive(Debug)]
pub struct AssetInformation {
    pub asset: String,
    pub wallet_balance: String,
    pub unrealized_profit: String,
    pub margin_balance: String,
    pub maintenance_margin: String,
    pub initial_margin: String,
    pub position_initial_margin: String,
    pub open_order_initial_margin: String,
    pub cross_wallet_balance: String,
    pub cross_unrealized_pnl: String,
    pub available_balance: String,
    pub max_withdraw_amount: String,
    pub margin_available: bool,
    pub update_time: usize,
}

#[derive(Debug)]
pub struct PositionInformation {
    pub symbol: String,
    pub initial_margin: String,
    pub maintenance_margin: String,
    pub unrealized_profit: String,
    pub position_initial_margin: String,
    pub open_order_initial_margin: String,
    pub leverage: String,
    pub isolated: bool,
    pub entry_price: String,
    pub max_notional: String,
    pub bid_notional: String,
    pub ask_notional: String,
    pub position_side: PositionSide,
    pub position_amount: String,
    pub update_time: usize,
}

#[derive(Debug)]
pub struct AccountInformationResponse {
    pub fee_tier: usize,
    pub can_trade: bool,
    pub can_deposit: bool,
    pub can_withdraw: bool,
    pub update_time: usize,
    pub multi_asset_margin: bool,
    pub trade_group_id: Option<usize>,
    pub total_initial_margin: String,
    pub total_maintenance_margin: String,
    pub total_wallet_balance: String,
    pub total_unrealized_profit: String,
    pub total_margin_balance: String,
    pub total_position_initial_margin: String,
    pub total_open_order_initial_margin: String,
    pub total_cross_wallet_balance: String,
    pub total_cross_unrealized_pnl: String,
    pub available_balance: String,
    pub max_withdraw_amount: String,
    pub assets: Vec<AssetInformation>,
    pub positions: Vec<PositionInformation>,
}

#[derive(Debug)]
pub struct ChangeLeverageRequest {
    pub symbol: String,
    pub leverage: usize,
    pub recv_window: Option<usize>, // <= 60_000
}

#[derive(Debug)]
pub struct ChangeLeverageResponse {
    pub leverage: usize,
    pub max_notional_value: String,
    pub symbol: String,
}

#[derive(Clone, Copy, Debug)]
pub enum MarginType {
    Isolated,
    Crossed,
}

#[derive(Debug)]
pub struct ChangeMarginTypeRequest {
    pub symbol: String,
    pub margin_type: MarginType,
    pub recv_window: Option<usize>, // <= 60_000
}

#[derive(Debug)]
pub struct ChangeMarginTypeResponse { }

#[derive(Debug)]
pub enum ModifiyPositionMarginType {
    Add,
    Reduce,
}

#[derive(Debug)]
pub struct ModifyIsolatedPositionMarginRequest {
    pub symbol: String,
    pub position_side: Option<PositionSide>,
    pub amount: String,
    pub modifiy_position_margin_type: ModifiyPositionMarginType,
    pub recv_window: Option<usize>, // <= 60_000
}

#[derive(Debug)]
pub struct ModifyIsolatedPositionMarginResponse { }

#[derive(Debug)]
pub struct PositionMarginChangeHistoryRequest {
    pub symbol: String,
    pub modifiy_position_margin_type: Option<ModifiyPositionMarginType>,
    pub start_time: Option<usize>,
    pub end_time: Option<usize>,
    pub limit: Option<usize>,
    pub recv_window: Option<usize>, // <= 60_000
}

#[derive(Debug)]
pub struct PositionMarginChange {
    pub symbol: String,
    pub modifiy_position_margin_type: ModifiyPositionMarginType,
    pub amount: String,
    pub asset: String,
    pub time: usize,
    pub position_side: PositionSide,
}

#[derive(Debug)]
pub struct PositionRequest {
    pub symbol: String,
    pub recv_window: Option<usize>, // <= 60_000
}

#[derive(Debug)]
pub struct PositionResponse {
    pub entry_price: String,
    pub break_even_price: String,
    pub margin_type: MarginType,
    pub is_auto_add_margin: String,
    pub isolated_margin: String,
    pub leverage: String,
    pub liquidation_price: String,
    pub mark_price: String,
    pub max_notional_value: String,
    pub position_amount: String,
    pub notional: String,
    pub isolated_wallet: String,
    pub symbol: String,
    pub unrealized_profit: String,
    pub position_side: PositionSide,
    pub update_time: usize,
}

#[derive(Debug)]
pub struct AccountTradesRequest {
    pub symbol: String,
    pub order_id: Option<usize>,
    pub start_time: Option<usize>,
    pub end_time: Option<usize>,
    pub from_id: Option<usize>,
    pub limit: Option<usize>, // <= 1000
    pub recv_window: Option<usize>, // <= 60_000
}

#[derive(Debug)]
pub struct AccountTrade {
    pub buyer: bool,
    pub commission: String,
    pub commission_asset: String,
    pub id: usize,
    pub maker: bool,
    pub order_id: usize,
    pub price: String,
    pub qty: String,
    pub quote_qty: String,
    pub realized_pnl: String,
    pub side: Side,
    pub position_side: PositionSide,
    pub symbol: String,
    pub time: usize,
}

#[derive(Clone, Copy, Debug)]
pub enum IncomeType {
    Transfer,
    WelcomeBonus,
    RealizedPNL,
    FundingFee,
    Commission,
    InsuranceClear,
    ReferralKickback,
    CommissionRebate,
    ApiRebate,
    ContestReward,
    CrossCollateralTransfer,
    OptionsPremiumFee,
    OptionsSettleProfit,
    InternalTransfer,
    AutoExchange,
    DeliveredSettlement,
    CoinSwapDeposit,
    CoinSwapWithdraw,
    PositionLimitIncreaseFee,
}

#[derive(Debug)]
pub struct IncomeHistoryRequest {
    pub symbol: Option<String>,
    pub income_type: Option<IncomeType>,
    pub start_time: Option<usize>,
    pub end_time: Option<usize>,
    pub page: Option<usize>,
    pub limit: Option<usize>,
    pub recv_window: Option<usize>, // <= 60_000
}

#[derive(Debug)]
pub struct Income {
    pub symbol: String,
    pub income_type: IncomeType,
    pub income: String,
    pub asset: String,
    pub time: usize,
    pub traansaction_id: String,
    pub trade_id: String,
}

#[derive(Debug)]
pub struct LeverageBracketsRequest {
    pub symbol: Option<String>,
    pub recv_window: Option<usize>, // <= 60_000
}

#[derive(Debug)]
pub struct LeverageBracket {
    pub bracket: usize,
    pub initial_leverage: usize,
    pub notional_cap: usize,
    pub notional_floor: usize,
    pub maintenance_margin_ration: usize,
}

#[derive(Debug)]
pub struct SymbolLeverageBrackets {
    pub symbol: String,
    pub brackets: Vec<LeverageBracket>,
}

#[derive(Clone, Copy, Debug)]
pub enum AutoCloseType {
    Liquidation,
    Adl,
}

#[derive(Debug)]
pub struct UserForceOrdersRequest {
    pub symbol: Option<String>,
    pub auto_close_type: Option<AutoCloseType>,
    pub start_time: Option<usize>,
    pub end_time: Option<usize>,
    pub limit: Option<usize>, // <= 100
    pub recv_window: Option<usize>, // <= 60_000
}

#[derive(Debug)]
pub struct UserForceOrder {
    pub order_id: usize,
    pub symbol: String,
    pub status: OrderStatus,
    pub client_order_id: String,
    pub price: String,
    pub average_price: String,
    pub orig_qty: String,
    pub executed_qty: String,
    pub cummulative_quote_qty: String,
    pub time_in_force: TimeInForce,
    pub order_type: OrderType,
    pub reduce_only: bool,
    pub close_position: bool,
    pub side: Side,
    pub position_side: PositionSide,
    pub stop_price: String,
    pub working_type: WorkingType,
    pub orig_order_type: OrderType,
    pub time: usize,
    pub update_time: usize,
}

#[derive(Debug)]
pub struct UserCommissionRateRequest {
    pub symbol: String,
    pub recv_window: Option<usize>, // <= 60_000
}

#[derive(Debug)]
pub struct UserCommissionRateResponse {
    pub symbol: String,
    pub maker_commission_rate: String,
    pub taker_commission_rate: String,
}

#[derive(Debug)]
pub struct PositionMarginCall {
    pub symbol: String,
    pub position_side: PositionSide,
    pub position_amount: String,
    pub margin_type: MarginType,
    pub isolated_wallet: Option<String>,
    pub mark_price: String,
    pub unrealized_pnl: String,
    pub required_maintenance_margin: String,
}

#[derive(Debug)]
pub struct MarginCallEvent {
    pub event_time: usize,
    pub cross_wallet_balance: Option<String>,
    pub positions: Vec<PositionMarginCall>,
}

#[derive(Clone, Copy, Debug)]
pub enum BalancePositionEventReason {
    Deposit,
    Withdraw,
    Order,
    FundingFee,
    WithdrawReject,
    Adjustment,
    InsuranceClear,
    AdminDeposit,
    AdminWithdraw,
    MarginTransfer,
    MarginTypeChange,
    AssetTransfer,
    OptionsPremiumFee,
    OptionsSettleProfit,
    AutoExchange,
    CoinSwapDeposit,
    CoinSwapWithdraw,
}

#[derive(Debug)]
pub struct BalancePositionUpdateEvent {
    pub event_time: usize,
    pub transaction_time: usize,
    pub balance_position_update: BalancePositionUpdate,
}

#[derive(Debug)]
pub struct BalancePositionUpdate {
    pub reason: BalancePositionEventReason,
    pub balance_updates: Vec<BalanceUpdate>,
    pub position_updates: Vec<PositionUpdate>,
}

#[derive(Debug)]
pub struct BalanceUpdate {
    pub asset: String,
    pub wallet_balance: String,
    pub cross_wallet_balance: String,
    pub balance_change: String,
}

#[derive(Debug)]
pub struct PositionUpdate {
    pub symbol: String,
    pub position_amount: String,
    pub entry_price: String,
    pub breakeven_price: String,
    pub realized_pnl: String,
    pub unrealized_pnl: String,
    pub margin_type: MarginType,
    pub isolated_wallet: Option<String>,
    pub position_side: PositionSide,
}

#[derive(Clone, Copy, Debug)]
pub enum OrderExecutionType {
    New,
    Canceled,
    Calculated, // Liquidation Execution
    Expired,
    Trade,
    Amendment,
}

#[derive(Debug)]
pub struct OrderUpdateEvent {
    pub event_time: usize,
    pub transaction_time: usize,
    pub order_update: OrderUpdate,
}

#[derive(Debug)]
pub struct OrderUpdate {
    pub symbol: String,
    pub client_order_id: String,
    pub side: Side,
    pub order_type: OrderType,
    pub time_in_force: TimeInForce,
    pub orig_qty: String,
    pub orig_price: String,
    pub average_price: String,
    pub stop_price: String,
    pub current_order_execution_type: OrderExecutionType,
    pub current_order_status: OrderStatus,
    pub order_id: usize,
    pub last_filled_qty: String,
    pub cummulative_filled_qty: String,
    pub last_fill_price: String,
    pub commission_asset: Option<String>,
    pub commission_amount: Option<String>,
    pub order_trade_time: usize,
    pub order_trade_id: usize,
    pub bid_notional: String,
    pub ask_notional: String,
    pub is_trade_maker: bool,
    pub is_reduce_only: bool,
    pub stop_price_working_type: WorkingType,
    pub orig_order_type: OrderType,
    pub position_side: PositionSide,
    pub close_position: bool,
    pub activation_price: Option<String>,
    pub callback_rate: Option<String>,
    pub price_protection: bool,
    pub trade_realized_profit: String,
    pub self_trade_prevention_mode: SelfTradePreventionMode,
    pub good_till_date: usize,
}

#[derive(Debug)]
pub struct AccountConfigurationUpdateEvent {
    pub event_time: usize,
    pub transaction_time: usize,
    pub leverage: Option<LeverageUpdate>,
    pub multi_asset_mode: Option<MultiAssetModeUpdate>,
}

#[derive(Debug)]
pub struct LeverageUpdate {
    pub symbol: String,
    pub leverage: usize,
}

#[derive(Debug)]
pub struct MultiAssetModeUpdate {
    pub multi_asset_mode: bool,
}

#[derive(Debug)]
pub struct ConditionalOrderTriggerRejectEvent {
    pub event_time: usize,
    pub transaction_time: usize,
    pub conditional_order_trigger_reject: ConditionalOrderTriggerReject,
}

#[derive(Debug)]
pub struct ConditionalOrderTriggerReject {
    pub symbol: String,
    pub order_id: usize,
}

#[derive(Debug)]
pub struct ListenKeyExpiredEvent {
    pub event_time: usize,
    pub listen_key: String,
}

#[derive(Debug)]
pub enum UserStreamEvent {
    MarginCall(MarginCallEvent),
    BalancePositionUpdate(BalancePositionUpdateEvent),
    OrderUpdate(OrderUpdateEvent),
    AccountConfigurationUpdate(AccountConfigurationUpdateEvent),
    ConditionalOrderTriggerReject(ConditionalOrderTriggerRejectEvent),
    ListenKeyExpired(ListenKeyExpiredEvent),
}

#[derive(Debug)]
pub struct UserStream {
    pub listen_key: String,
}

/// The URL fragment of each `MarkPriceStreamUpdateSpeed`.
pub open spec fn mark_price_speed_suffix(v: MarkPriceStreamUpdateSpeed) -> Seq<char> {
    match v {
        MarkPriceStreamUpdateSpeed::ms1000 => "@1s"@,
        MarkPriceStreamUpdateSpeed::ms3000 => ""@,
    }
}

/// Renders the fragment of one `MarkPriceStreamUpdateSpeed`.
pub fn mark_price_speed_suffix_str(v: MarkPriceStreamUpdateSpeed) -> (r: &'static str)
    ensures
        r@ == mark_price_speed_suffix(v),
{
    match v {
        MarkPriceStreamUpdateSpeed::ms1000 => "@1s",
        MarkPriceStreamUpdateSpeed::ms3000 => "",
    }
}

/// The URL fragment of each `KlineInterval`.
pub open spec fn kline_interval_suffix(v: KlineInterval) -> Seq<char> {
    match v {
        KlineInterval::m1 => "1m"@,
        KlineInterval::m3 => "3m"@,
        KlineInterval::m5 => "5m"@,
        KlineInterval::m15 => "15m"@,
        KlineInterval::m30 => "30m"@,
        KlineInterval::h1 => "1h"@,
        KlineInterval::h2 => "2h"@,
        KlineInterval::h4 => "4h"@,
        KlineInterval::h6 => "6h"@,
        KlineInterval::h8 => "8h"@,
        KlineInterval::h12 => "12h"@,
        KlineInterval::d1 => "1d"@,
        KlineInterval::d3 => "3d"@,
        KlineInterval::w1 => "1w"@,
        KlineInterval::M1 => "1M"@,
    }
}

/// Renders the fragment of one `KlineInterval`.
pub fn kline_interval_suffix_str(v: KlineInterval) -> (r: &'static str)
    ensures
        r@ == kline_interval_suffix(v),
{
    match v {
        KlineInterval::m1 => "1m",
        KlineInterval::m3 => "3m",
        KlineInterval::m5 => "5m",
        KlineInterval::m15 => "15m",
        KlineInterval::m30 => "30m",
        KlineInterval::h1 => "1h",
        KlineInterval::h2 => "2h",
        KlineInterval::h4 => "4h",
        KlineInterval::h6 => "6h",
        KlineInterval::h8 => "8h",
        KlineInterval::h12 => "12h",
        KlineInterval::d1 => "1d",
        KlineInterval::d3 => "3d",
        KlineInterval::w1 => "1w",
        KlineInterval::M1 => "1M",
    }
}

/// The URL fragment of each `ContractType`.
pub open spec fn contract_type_suffix(v: ContractType) -> Seq<char> {
    match v {
        ContractType::Perpetual => "perpetual"@,
        ContractType::CurrentMonth => "current_month"@,
        ContractType::NextMonth => "next_month"@,
        ContractType::CurrentQuarter => "current_quarter"@,
        ContractType::NextQuarter => "next_quarter"@,
        ContractType::PerpetualDelivering => "perpetual_delivering"@,
    }
}

/// Renders the fragment of one `ContractType`.
pub fn contract_type_suffix_str(v: ContractType) -> (r: &'static str)
    ensures
        r@ == contract_type_suffix(v),
{
    match v {
        ContractType::Perpetual => "perpetual",
        ContractType::CurrentMonth => "current_month",
        ContractType::NextMonth => "next_month",
        ContractType::CurrentQuarter => "current_quarter",
        ContractType::NextQuarter => "next_quarter",
        ContractType::PerpetualDelivering => "perpetual_delivering",
    }
}

/// The URL fragment of each `PartialDepthStreamLevels`.
pub open spec fn partial_depth_levels_suffix(v: PartialDepthStreamLevels) -> Seq<char> {
    match v {
        PartialDepthStreamLevels::l5 => "5"@,
        PartialDepthStreamLevels::l10 => "10"@,
        PartialDepthStreamLevels::l20 => "20"@,
    }
}

/// Renders the fragment of one `PartialDepthStreamLevels`.
pub fn partial_depth_levels_suffix_str(v: PartialDepthStreamLevels) -> (r: &'static str)
    ensures
        r@ == partial_depth_levels_suffix(v),
{
    match v {
        PartialDepthStreamLevels::l5 => "5",
        PartialDepthStreamLevels::l10 => "10",
        PartialDepthStreamLevels::l20 => "20",
    }
}

/// The URL fragment of each `PartialDepthStreamUpdateSpeed`.
pub open spec fn partial_depth_speed_suffix(v: PartialDepthStreamUpdateSpeed) -> Seq<char> {
    match v {
        PartialDepthStreamUpdateSpeed::ms100 => "@100ms"@,
        PartialDepthStreamUpdateSpeed::ms250 => ""@,
        PartialDepthStreamUpdateSpeed::ms500 => "@500ms"@,
    }
}

/// Renders the fragment of one `PartialDepthStreamUpdateSpeed`.
pub fn partial_depth_speed_suffix_str(v: PartialDepthStreamUpdateSpeed) -> (r: &'static str)
    ensures
        r@ == partial_depth_speed_suffix(v),
{
    match v {
        PartialDepthStreamUpdateSpeed::ms100 => "@100ms",
        PartialDepthStreamUpdateSpeed::ms250 => "",
        PartialDepthStreamUpdateSpeed::ms500 => "@500ms",
    }
}

/// The URL fragment of each `DiffDepthStreamUpdateSpeed`.
pub open spec fn diff_depth_speed_suffix(v: DiffDepthStreamUpdateSpeed) -> Seq<char> {
    match v {
        DiffDepthStreamUpdateSpeed::ms100 => "@100ms"@,
        DiffDepthStreamUpdateSpeed::ms250 => ""@,
        DiffDepthStreamUpdateSpeed::ms500 => "@500ms"@,
    }
}

/// Renders the fragment of one `DiffDepthStreamUpdateSpeed`.
pub fn diff_depth_speed_suffix_str(v: DiffDepthStreamUpdateSpeed) -> (r: &'static str)
    ensures
        r@ == diff_depth_speed_suffix(v),
{
    match v {
        DiffDepthStreamUpdateSpeed::ms100 => "@100ms",
        DiffDepthStreamUpdateSpeed::ms250 => "",
        DiffDepthStreamUpdateSpeed::ms500 => "@500ms",
    }
}

impl AggTradeStream {
    /// `<base>/ws/<symbol lowercased>@aggTrade`.
    pub fn build_url(&self, ws_base_url: &str) -> (r: String)
        ensures
            r@ == ws_base_url@ + "/ws/"@ + lower_of(self.symbol@) + "@aggTrade"@,
    {
        let mut s = String::from_str(ws_base_url);
        s.append("/ws/");
        let low = lowercase(self.symbol.as_str());
        s.append(low.as_str());
        s.append("@aggTrade");
        s
    }
}

impl MarkPriceStream {
    /// `<base>/ws/<symbol lowercased>@markPrice<speed>`.
    pub fn build_url(&self, ws_base_url: &str) -> (r: String)
        ensures
            r@ == ws_base_url@ + "/ws/"@ + lower_of(self.symbol@) + "@markPrice"@ + mark_price_speed_suffix(self.update_speed),
    {
        let mut s = String::from_str(ws_base_url);
        s.append("/ws/");
        let low = lowercase(self.symbol.as_str());
        s.append(low.as_str());
        s.append("@markPrice");
        s.append(mark_price_speed_suffix_str(self.update_speed));
        s
    }
}

impl AllMarkPricesStream {
    /// `<base>/ws/!markPrice@arr<speed>`.
    pub fn build_url(&self, ws_base_url: &str) -> (r: String)
        ensures
            r@ == ws_base_url@ + "/ws/!markPrice@arr"@ + mark_price_speed_suffix(self.update_speed),
    {
        let mut s = String::from_str(ws_base_url);
        s.append("/ws/!markPrice@arr");
        s.append(mark_price_speed_suffix_str(self.update_speed));
        s
    }
}

impl KlineUpdateStream {
    /// `<base>/ws/<symbol lowercased>@kline_<interval>`.
    pub fn build_url(&self, ws_base_url: &str) -> (r: String)
        ensures
            r@ == ws_base_url@ + "/ws/"@ + lower_of(self.symbol@) + "@kline_"@ + kline_interval_suffix(self.interval),
    {
        let mut s = String::from_str(ws_base_url);
        s.append("/ws/");
        let low = lowercase(self.symbol.as_str());
        s.append(low.as_str());
        s.append("@kline_");
        s.append(kline_interval_suffix_str(self.interval));
        s
    }
}

impl ContinuousContractKlineUpdateStream {
    /// `<base>/ws/<pair lowercased>_<contract type>@continuousKline_<interval>`.
    pub fn build_url(&self, ws_base_url: &str) -> (r: String)
        ensures
            r@ == ws_base_url@ + "/ws/"@ + lower_of(self.pair@) + "_"@ + contract_type_suffix(
                self.contract_type,
            ) + "@continuousKline_"@ + kline_interval_suffix(self.interval),
    {
        let mut s = String::from_str(ws_base_url);
        s.append("/ws/");
        let low = lowercase(self.pair.as_str());
        s.append(low.as_str());
        s.append("_");
        s.append(contract_type_suffix_str(self.contract_type));
        s.append("@continuousKline_");
        s.append(kline_interval_suffix_str(self.interval));
        s
    }
}

impl MiniTickerStream {
    /// `<base>/ws/<symbol lowercased>@miniTicker`.
    pub fn build_url(&self, ws_base_url: &str) -> (r: String)
        ensures
            r@ == ws_base_url@ + "/ws/"@ + lower_of(self.symbol@) + "@miniTicker"@,
    {
        let mut s = String::from_str(ws_base_url);
        s.append("/ws/");
        let low = lowercase(self.symbol.as_str());
        s.append(low.as_str());
        s.append("@miniTicker");
        s
    }
}

impl AllMiniTickersStream {
    /// `<base>/ws/!miniTicker@arr`.
    pub fn build_url(&self, ws_base_url: &str) -> (r: String)
        ensures
            r@ == ws_base_url@ + "/ws/!miniTicker@arr"@,
    {
        let mut s = String::from_str(ws_base_url);
        s.append("/ws/!miniTicker@arr");
        s
    }
}

impl TickerStream {
    /// `<base>/ws/<symbol lowercased>@ticker`.
    pub fn build_url(&self, ws_base_url: &str) -> (r: String)
        ensures
            r@ == ws_base_url@ + "/ws/"@ + lower_of(self.symbol@) + "@ticker"@,
    {
        let mut s = String::from_str(ws_base_url);
        s.append("/ws/");
        let low = lowercase(self.symbol.as_str());
        s.append(low.as_str());
        s.append("@ticker");
        s
    }
}

impl AllTickersStream {
    /// `<base>/ws/!ticker@arr`.
    pub fn build_url(&self, ws_base_url: &str) -> (r: String)
        ensures
            r@ == ws_base_url@ + "/ws/!ticker@arr"@,
    {
        let mut s = String::from_str(ws_base_url);
        s.append("/ws/!ticker@arr");
        s
    }
}

impl BookTickerStream {
    /// `<base>/ws/<symbol lowercased>@bookTicker`.
    pub fn build_url(&self, ws_base_url: &str) -> (r: String)
        ensures
            r@ == ws_base_url@ + "/ws/"@ + lower_of(self.symbol@) + "@bookTicker"@,
    {
        let mut s = String::from_str(ws_base_url);
        s.append("/ws/");
        let low = lowercase(self.symbol.as_str());
        s.append(low.as_str());
        s.append("@bookTicker");
        s
    }
}

impl AllBookTickersStream {
    /// `<base>/ws/!bookTicker`.
    pub fn build_url(&self, ws_base_url: &str) -> (r: String)
        ensures
            r@ == ws_base_url@ + "/ws/!bookTicker"@,
    {
        let mut s = String::from_str(ws_base_url);
        s.append("/ws/!bookTicker");
        s
    }
}

impl LiquidationOrderStream {
    /// `<base>/ws/<symbol lowercased>@forceOrder`.
    pub fn build_url(&self, ws_base_url: &str) -> (r: String)
        ensures
            r@ == ws_base_url@ + "/ws/"@ + lower_of(self.symbol@) + "@forceOrder"@,
    {
        let mut s = String::from_str(ws_base_url);
        s.append("/ws/");
        let low = lowercase(self.symbol.as_str());
        s.append(low.as_str());
        s.append("@forceOrder");
        s
    }
}

impl AllLiquidationOrdersStream {
    /// `<base>/ws/!forceOrder@arr`.
    pub fn build_url(&self, ws_base_url: &str) -> (r: String)
        ensures
            r@ == ws_base_url@ + "/ws/!forceOrder@arr"@,
    {
        let mut s = String::from_str(ws_base_url);
        s.append("/ws/!forceOrder@arr");
        s
    }
}

impl PartialDepthStream {
    /// `<base>/ws/<symbol lowercased>@depth<levels><speed>`.
    pub fn build_url(&self, ws_base_url: &str) -> (r: String)
        ensures
            r@ == ws_base_url@ + "/ws/"@ + lower_of(self.symbol@) + "@depth"@ + partial_depth_levels_suffix(self.levels) + partial_depth_speed_suffix(self.update_speed),
    {
        let mut s = String::from_str(ws_base_url);
        s.append("/ws/");
        let low = lowercase(self.symbol.as_str());
        s.append(low.as_str());
        s.append("@depth");
        s.append(partial_depth_levels_suffix_str(self.levels));
        s.append(partial_depth_speed_suffix_str(self.update_speed));
        s
    }
}

impl DiffDepthStream {
    /// `<base>/ws/<symbol lowercased>@depth<speed>`.
    pub fn build_url(&self, ws_base_url: &str) -> (r: String)
        ensures
            r@ == ws_base_url@ + "/ws/"@ + lower_of(self.symbol@) + "@depth"@ + diff_depth_speed_suffix(self.update_speed),
    {
        let mut s = String::from_str(ws_base_url);
        s.append("/ws/");
        let low = lowercase(self.symbol.as_str());
        s.append(low.as_str());
        s.append("@depth");
        s.append(diff_depth_speed_suffix_str(self.update_speed));
        s
    }
}

impl CompositeIndexStream {
    /// `<base>/ws/<symbol lowercased>@compositeIndex`.
    pub fn build_url(&self, ws_base_url: &str) -> (r: String)
        ensures
            r@ == ws_base_url@ + "/ws/"@ + lower_of(self.symbol@) + "@compositeIndex"@,
    {
        let mut s = String::from_str(ws_base_url);
        s.append("/ws/");
        let low = lowercase(self.symbol.as_str());
        s.append(low.as_str());
        s.append("@compositeIndex");
        s
    }
}

impl ContractInfoStream {
    /// `<base>/ws/!contractInfo`.
    pub fn build_url(&self, ws_base_url: &str) -> (r: String)
        ensures
            r@ == ws_base_url@ + "/ws/!contractInfo"@,
    {
        let mut s = String::from_str(ws_base_url);
        s.append("/ws/!contractInfo");
        s
    }
}

impl AssetIndexUpdateStream {
    /// `<base>/ws/<symbol lowercased>@assetIndex`.
    pub fn build_url(&self, ws_base_url: &str) -> (r: String)
        ensures
            r@ == ws_base_url@ + "/ws/"@ + lower_of(self.symbol@) + "@assetIndex"@,
    {
        let mut s = String::from_str(ws_base_url);
        s.append("/ws/");
        let low = lowercase(self.symbol.as_str());
        s.append(low.as_str());
        s.append("@assetIndex");
        s
    }
}

impl AllAssetIndexUpdatesStream {
    /// `<base>/ws/!assetIndex@arr`.
    pub fn build_url(&self, ws_base_url: &str) -> (r: String)
        ensures
            r@ == ws_base_url@ + "/ws/!assetIndex@arr"@,
    {
        let mut s = String::from_str(ws_base_url);
        s.append("/ws/!assetIndex@arr");
        s
    }
}

} // verus!
