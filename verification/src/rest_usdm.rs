//! The USD-M futures REST catalog: one request type per endpoint, each
//! carrying its endpoint descriptor and deriving its canonical parameter
//! list, plus the response shapes the endpoints return.

use vstd::prelude::*;
use vstd::string::StringExecFns;
use crate::dispatch::{Descriptor, HttpMethod, Tier};
use crate::params::{Param, ParamView, param_views, pv_text, pv_uint, pv_bool, text_param,
    uint_param, bool_param, push_text_param, push_opt_text_param, push_opt_uint_param,
    push_opt_bool_param};

verus! {

/// Queries the exchange's trading rules and symbol catalog.
#[derive(Debug)]
pub struct ExchangeInfoRequest;

#[derive(Debug)]
pub struct ExchangeInfoResponse {
    pub exchange_filters: Vec<ExchangeFilter>,
    pub rate_limits: Vec<RateLimit>,
    pub server_time: u64,
    pub assets: Vec<Asset>,
    pub symbols: Vec<Market>,
    pub timezone: String,
}

#[derive(Debug)]
pub struct ExchangeFilter {
}

#[derive(Debug)]
pub struct RateLimit {
    pub rate_limit_type: String,
    pub interval: String,
    pub interval_num: u64,
    pub limit: u64,
}

#[derive(Debug)]
pub struct Asset {
    pub asset: String,
    pub margin_available: bool,
    pub auto_asset_exchange: String,
}

#[derive(Debug)]
pub struct Market {
    pub symbol: String,
    pub pair: String,
    pub contract_type: String,
    pub delivery_date: u64,
    pub onboard_date: u64,
    pub status: String,
    pub maint_margin_percent: String,
    pub required_margin_percent: String,
    pub base_asset: String,
    pub quote_asset: String,
    pub margin_asset: String,
    pub price_precision: u64,
    pub quantity_precision: u64,
    pub base_asset_precision: u64,
    pub quote_precision: u64,
    pub underlying_type: String,
    pub underlying_sub_type: Vec<String>,
    pub trigger_protect: String,
    pub filters: Vec<SymbolFilter>,
    pub order_types: Vec<String>,
    pub time_in_force: Vec<String>,
    pub liquidation_fee: String,
    pub market_take_bound: String,
}

#[derive(Debug)]
pub enum SymbolFilter {
    PriceFilter { min_price: String, max_price: String, tick_size: String },
    LotSize { min_qty: String, max_qty: String, step_size: String },
    MarketLotSize { min_qty: String, max_qty: String, step_size: String },
    MaxNumOrders { limit: u64 },
    MaxNumAlgoOrders { limit: u64 },
    PercentPrice { multiplier_up: String, multiplier_down: String, multiplier_decimal: String },
    MinNotional { notional: String },
}

impl ExchangeInfoRequest {
    /// The request's parameter list: none.
    pub open spec fn param_list(&self) -> Seq<ParamView> {
        Seq::empty()
    }

    pub fn descriptor(&self) -> (r: Descriptor)
        ensures
            r.method == HttpMethod::Get,
            r.path@ == "/fapi/v1/exchangeInfo"@,
            r.tier == Tier::Public,
    {
        Descriptor {
            method: HttpMethod::Get,
            path: String::from_str("/fapi/v1/exchangeInfo"),
            tier: Tier::Public,
        }
    }

    pub fn params(&self) -> (r: Vec<Param>)
        ensures
            param_views(r@) == self.param_list(),
    {
        let r: Vec<Param> = Vec::new();
        proof {
            assert(param_views(r@) =~= self.param_list());
        }
        r
    }
}

/// Queries one symbol's order book.
#[derive(Debug)]
pub struct OrderBookRequest {
    pub symbol: String,
    pub limit: Option<u64>,
}

#[derive(Debug)]
pub struct OrderBookResponse {
    pub last_update_id: u64,
    pub message_output_time: u64,
    pub transaction_time: u64,
    pub bids: Vec<BookLevel>,
    pub asks: Vec<BookLevel>,
}

#[derive(Debug)]
pub struct BookLevel {
    pub price: String,
    pub qty: String,
}

impl OrderBookRequest {
    /// The request's parameter list: the symbol, then the limit if given.
    pub open spec fn param_list(&self) -> Seq<ParamView> {
        seq![pv_text("symbol"@, self.symbol@)] + (if self.limit is Some {
            seq![pv_uint("limit"@, self.limit->0)]
        } else {
            Seq::empty()
        })
    }

    pub fn descriptor(&self) -> (r: Descriptor)
        ensures
            r.method == HttpMethod::Get,
            r.path@ == "/fapi/v1/depth"@,
            r.tier == Tier::Public,
    {
        Descriptor {
            method: HttpMethod::Get,
            path: String::from_str("/fapi/v1/depth"),
            tier: Tier::Public,
        }
    }

    pub fn params(&self) -> (r: Vec<Param>)
        ensures
            param_views(r@) == self.param_list(),
    {
        let mut r: Vec<Param> = Vec::new();
        r.push(text_param("symbol", self.symbol.as_str()));
        if let Some(l) = self.limit {
            r.push(uint_param("limit", l));
        }
        proof {
            assert(param_views(r@) =~= self.param_list());
        }
        r
    }
}

/// Queries one symbol's latest price.
#[derive(Debug)]
pub struct PriceTickerRequest {
    pub symbol: String,
}

#[derive(Debug)]
pub struct PriceTickerResponse {
    pub symbol: String,
    pub price: String,
    pub time: u64,
}

impl PriceTickerRequest {
    /// The request's parameter list: the symbol.
    pub open spec fn param_list(&self) -> Seq<ParamView> {
        seq![pv_text("symbol"@, self.symbol@)]
    }

    pub fn descriptor(&self) -> (r: Descriptor)
        ensures
            r.method == HttpMethod::Get,
            r.path@ == "/fapi/v1/ticker/price"@,
            r.tier == Tier::Public,
    {
        Descriptor {
            method: HttpMethod::Get,
            path: String::from_str("/fapi/v1/ticker/price"),
            tier: Tier::Public,
        }
    }

    pub fn params(&self) -> (r: Vec<Param>)
        ensures
            param_views(r@) == self.param_list(),
    {
        let mut r: Vec<Param> = Vec::new();
        r.push(text_param("symbol", self.symbol.as_str()));
        proof {
            assert(param_views(r@) =~= self.param_list());
        }
        r
    }
}

/// Queries one symbol's best bid and ask.
#[derive(Debug)]
pub struct BookTickerRequest {
    pub symbol: String,
}

#[derive(Debug)]
pub struct BookTickerResponse {
    pub symbol: String,
    pub bid_price: String,
    pub bid_qty: String,
    pub ask_price: String,
    pub ask_qty: String,
    pub time: u64,
}

impl BookTickerRequest {
    /// The request's parameter list: the symbol.
    pub open spec fn param_list(&self) -> Seq<ParamView> {
        seq![pv_text("symbol"@, self.symbol@)]
    }

    pub fn descriptor(&self) -> (r: Descriptor)
        ensures
            r.method == HttpMethod::Get,
            r.path@ == "/fapi/v1/ticker/bookTicker"@,
            r.tier == Tier::Public,
    {
        Descriptor {
            method: HttpMethod::Get,
            path: String::from_str("/fapi/v1/ticker/bookTicker"),
            tier: Tier::Public,
        }
    }

    pub fn params(&self) -> (r: Vec<Param>)
        ensures
            param_views(r@) == self.param_list(),
    {
        let mut r: Vec<Param> = Vec::new();
        r.push(text_param("symbol", self.symbol.as_str()));
        proof {
            assert(param_views(r@) =~= self.param_list());
        }
        r
    }
}

/// Queries recent compressed trades.
#[derive(Debug)]
pub struct RecentAggTradesRequest {
    pub symbol: String,
    pub from_id: Option<u64>,
    pub start_time: Option<u64>,
    pub end_time: Option<u64>,
    pub limit: Option<u64>,
}

#[derive(Debug)]
pub struct AggTradeResponse {
    pub id: u64,
    pub price: String,
    pub qty: String,
    pub first_trade_id: u64,
    pub last_trade_id: u64,
    pub timestamp: u64,
    pub buyer_is_maker: bool,
}

impl RecentAggTradesRequest {
    /// The request's parameter list: the symbol, then each given filter
    /// in declaration order.
    pub open spec fn param_list(&self) -> Seq<ParamView> {
        seq![pv_text("symbol"@, self.symbol@)] + (if self.from_id is Some {
            seq![pv_uint("fromId"@, self.from_id->0)]
        } else {
            Seq::empty()
        }) + (if self.start_time is Some {
            seq![pv_uint("startTime"@, self.start_time->0)]
        } else {
            Seq::empty()
        }) + (if self.end_time is Some {
            seq![pv_uint("endTime"@, self.end_time->0)]
        } else {
            Seq::empty()
        }) + (if self.limit is Some {
            seq![pv_uint("limit"@, self.limit->0)]
        } else {
            Seq::empty()
        })
    }

    pub fn descriptor(&self) -> (r: Descriptor)
        ensures
            r.method == HttpMethod::Get,
            r.path@ == "/fapi/v1/aggTrades"@,
            r.tier == Tier::Public,
    {
        Descriptor {
            method: HttpMethod::Get,
            path: String::from_str("/fapi/v1/aggTrades"),
            tier: Tier::Public,
        }
    }

    pub fn params(&self) -> (r: Vec<Param>)
        ensures
            param_views(r@) == self.param_list(),
    {
        let mut r: Vec<Param> = Vec::new();
        r.push(text_param("symbol", self.symbol.as_str()));
        if let Some(v) = self.from_id {
            r.push(uint_param("fromId", v));
        }
        if let Some(v) = self.start_time {
            r.push(uint_param("startTime", v));
        }
        if let Some(v) = self.end_time {
            r.push(uint_param("endTime", v));
        }
        if let Some(v) = self.limit {
            r.push(uint_param("limit", v));
        }
        proof {
            assert(param_views(r@) =~= self.param_list());
        }
        r
    }
}

/// Opens a user-data stream, yielding its listen key.
#[derive(Debug)]
pub struct CreateListenKeyRequest {
}

#[derive(Debug)]
pub struct CreateListenKeyResponse {
    pub listen_key: String,
}

impl CreateListenKeyRequest {
    /// The request's parameter list: none.
    pub open spec fn param_list(&self) -> Seq<ParamView> {
        Seq::empty()
    }

    pub fn descriptor(&self) -> (r: Descriptor)
        ensures
            r.method == HttpMethod::Post,
            r.path@ == "/fapi/v1/listenKey"@,
            r.tier == Tier::KeyOnly,
    {
        Descriptor {
            method: HttpMethod::Post,
            path: String::from_str("/fapi/v1/listenKey"),
            tier: Tier::KeyOnly,
        }
    }

    pub fn params(&self) -> (r: Vec<Param>)
        ensures
            param_views(r@) == self.param_list(),
    {
        let r: Vec<Param> = Vec::new();
        proof {
            assert(param_views(r@) =~= self.param_list());
        }
        r
    }
}

/// Keeps a user-data stream alive.
#[derive(Debug)]
pub struct KeepAliveListenKeyRequest {
}

#[derive(Debug)]
pub struct KeepAliveListenKeyResponse {
    pub listen_key: String,
}

impl KeepAliveListenKeyRequest {
    /// The request's parameter list: none.
    pub open spec fn param_list(&self) -> Seq<ParamView> {
        Seq::empty()
    }

    pub fn descriptor(&self) -> (r: Descriptor)
        ensures
            r.method == HttpMethod::Put,
            r.path@ == "/fapi/v1/listenKey"@,
            r.tier == Tier::KeyOnly,
    {
        Descriptor {
            method: HttpMethod::Put,
            path: String::from_str("/fapi/v1/listenKey"),
            tier: Tier::KeyOnly,
        }
    }

    pub fn params(&self) -> (r: Vec<Param>)
        ensures
            param_views(r@) == self.param_list(),
    {
        let r: Vec<Param> = Vec::new();
        proof {
            assert(param_views(r@) =~= self.param_list());
        }
        r
    }
}

/// Closes a user-data stream.
#[derive(Debug)]
pub struct CloseListenKeyRequest {
}

#[derive(Debug)]
pub struct CloseListenKeyResponse {
}

impl CloseListenKeyRequest {
    /// The request's parameter list: none.
    pub open spec fn param_list(&self) -> Seq<ParamView> {
        Seq::empty()
    }

    pub fn descriptor(&self) -> (r: Descriptor)
        ensures
            r.method == HttpMethod::Delete,
            r.path@ == "/fapi/v1/listenKey"@,
            r.tier == Tier::KeyOnly,
    {
        Descriptor {
            method: HttpMethod::Delete,
            path: String::from_str("/fapi/v1/listenKey"),
            tier: Tier::KeyOnly,
        }
    }

    pub fn params(&self) -> (r: Vec<Param>)
        ensures
            param_views(r@) == self.param_list(),
    {
        let r: Vec<Param> = Vec::new();
        proof {
            assert(param_views(r@) =~= self.param_list());
        }
        r
    }
}

/// Switches the account between one-way and hedge position mode.
#[derive(Debug)]
pub struct ChangePositionModeRequest {
    pub dual_side_position: String,
    pub recv_window: Option<u64>,
    pub timestamp: u64,
}

#[derive(Debug)]
pub struct ChangePositionModeResponse {
}

impl ChangePositionModeRequest {
    /// The request's parameter list: the mode flag. The timestamp and
    /// receive window are appended by the signing engine.
    pub open spec fn param_list(&self) -> Seq<ParamView> {
        seq![pv_text("dualSidePosition"@, self.dual_side_position@)]
    }

    pub fn descriptor(&self) -> (r: Descriptor)
        ensures
            r.method == HttpMethod::Post,
            r.path@ == "/fapi/v1/positionSide/dual"@,
            r.tier == Tier::Signed,
    {
        Descriptor {
            method: HttpMethod::Post,
            path: String::from_str("/fapi/v1/positionSide/dual"),
            tier: Tier::Signed,
        }
    }

    pub fn params(&self) -> (r: Vec<Param>)
        ensures
            param_views(r@) == self.param_list(),
    {
        let mut r: Vec<Param> = Vec::new();
        r.push(text_param("dualSidePosition", self.dual_side_position.as_str()));
        proof {
            assert(param_views(r@) =~= self.param_list());
        }
        r
    }

    pub fn timestamp(&self) -> (r: u64)
        ensures
            r == self.timestamp,
    {
        self.timestamp
    }

    pub fn recv_window(&self) -> (r: u64)
        ensures
            r == if self.recv_window is Some {
                self.recv_window->0
            } else {
                5000u64
            },
    {
        match self.recv_window {
            Some(w) => w,
            None => 5000,
        }
    }
}

/// Places one order.
#[derive(Debug)]
pub struct NewOrderRequest {
    pub symbol: String,
    pub side: String,
    pub position_side: Option<String>,
    pub order_type: String,
    pub time_in_force: Option<String>,
    pub quantity: Option<String>,
    pub reduce_only: Option<bool>,
    pub price: Option<String>,
    pub new_client_order_id: Option<String>,
    pub stop_price: Option<String>,
    pub close_position: Option<bool>,
    pub activation_price: Option<String>,
    pub callback_rate: Option<String>,
    pub working_type: Option<String>,
    pub price_protect: Option<bool>,
    pub self_trade_prevention_mode: Option<String>,
    pub good_till_date: Option<u64>,
    pub recv_window: Option<u64>,
    pub timestamp: u64,
}

#[derive(Debug)]
pub struct NewOrderResponse {
    pub client_order_id: String,
    pub cum_qty: String,
    pub cum_quote: String,
    pub executed_qty: String,
    pub order_id: u64,
    pub avg_price: String,
    pub orig_qty: String,
    pub price: String,
    pub reduce_only: bool,
    pub side: String,
    pub position_side: String,
    pub status: String,
    pub stop_price: String,
    pub close_position: bool,
    pub symbol: String,
    pub time_in_force: String,
    pub order_type: String,
    pub orig_type: String,
    pub activate_price: Option<String>,
    pub price_rate: Option<String>,
    pub update_time: u64,
    pub working_type: String,
    pub price_protect: bool,
    pub self_trade_prevention_mode: String,
    pub good_till_date: u64,
}

impl NewOrderRequest {
    /// The request's parameter list: each field in declaration order,
    /// optional fields only when given, under its wire name. The
    /// timestamp and receive window are appended by the signing engine.
    pub open spec fn param_list(&self) -> Seq<ParamView> {
        seq![pv_text("symbol"@, self.symbol@)] + seq![pv_text("side"@, self.side@)] + (
        if self.position_side is Some {
            seq![pv_text("positionSide"@, self.position_side->0@)]
        } else {
            Seq::empty()
        }) + seq![pv_text("type"@, self.order_type@)] + (if self.time_in_force is Some {
            seq![pv_text("timeInForce"@, self.time_in_force->0@)]
        } else {
            Seq::empty()
        }) + (if self.quantity is Some {
            seq![pv_text("quantity"@, self.quantity->0@)]
        } else {
            Seq::empty()
        }) + (if self.reduce_only is Some {
            seq![pv_bool("reduceOnly"@, self.reduce_only->0)]
        } else {
            Seq::empty()
        }) + (if self.price is Some {
            seq![pv_text("price"@, self.price->0@)]
        } else {
            Seq::empty()
        }) + (if self.new_client_order_id is Some {
            seq![pv_text("newClientOrderId"@, self.new_client_order_id->0@)]
        } else {
            Seq::empty()
        }) + (if self.stop_price is Some {
            seq![pv_text("stopPrice"@, self.stop_price->0@)]
        } else {
            Seq::empty()
        }) + (if self.close_position is Some {
            seq![pv_bool("closePosition"@, self.close_position->0)]
        } else {
            Seq::empty()
        }) + (if self.activation_price is Some {
            seq![pv_text("activationPrice"@, self.activation_price->0@)]
        } else {
            Seq::empty()
        }) + (if self.callback_rate is Some {
            seq![pv_text("callbackRate"@, self.callback_rate->0@)]
        } else {
            Seq::empty()
        }) + (if self.working_type is Some {
            seq![pv_text("workingType"@, self.working_type->0@)]
        } else {
            Seq::empty()
        }) + (if self.price_protect is Some {
            seq![pv_bool("priceProtect"@, self.price_protect->0)]
        } else {
            Seq::empty()
        }) + (if self.self_trade_prevention_mode is Some {
            seq![pv_text("selfTradePreventionMode"@, self.self_trade_prevention_mode->0@)]
        } else {
            Seq::empty()
        }) + (if self.good_till_date is Some {
            seq![pv_uint("goodTillDate"@, self.good_till_date->0)]
        } else {
            Seq::empty()
        })
    }

    pub fn descriptor(&self) -> (r: Descriptor)
        ensures
            r.method == HttpMethod::Post,
            r.path@ == "/fapi/v1/order"@,
            r.tier == Tier::Signed,
    {
        Descriptor {
            method: HttpMethod::Post,
            path: String::from_str("/fapi/v1/order"),
            tier: Tier::Signed,
        }
    }

    pub fn params(&self) -> (r: Vec<Param>)
        ensures
            param_views(r@) == self.param_list(),
    {
        let mut r: Vec<Param> = Vec::new();
        proof {
            assert(param_views(r@) =~= Seq::<ParamView>::empty());
        }
        push_text_param(&mut r, "symbol", self.symbol.as_str());
        push_text_param(&mut r, "side", self.side.as_str());
        push_opt_text_param(&mut r, "positionSide", &self.position_side);
        push_text_param(&mut r, "type", self.order_type.as_str());
        push_opt_text_param(&mut r, "timeInForce", &self.time_in_force);
        push_opt_text_param(&mut r, "quantity", &self.quantity);
        push_opt_bool_param(&mut r, "reduceOnly", &self.reduce_only);
        push_opt_text_param(&mut r, "price", &self.price);
        push_opt_text_param(&mut r, "newClientOrderId", &self.new_client_order_id);
        push_opt_text_param(&mut r, "stopPrice", &self.stop_price);
        push_opt_bool_param(&mut r, "closePosition", &self.close_position);
        push_opt_text_param(&mut r, "activationPrice", &self.activation_price);
        push_opt_text_param(&mut r, "callbackRate", &self.callback_rate);
        push_opt_text_param(&mut r, "workingType", &self.working_type);
        push_opt_bool_param(&mut r, "priceProtect", &self.price_protect);
        push_opt_text_param(&mut r, "selfTradePreventionMode", &self.self_trade_prevention_mode);
        push_opt_uint_param(&mut r, "goodTillDate", &self.good_till_date);
        proof {
            assert(Seq::<ParamView>::empty() + seq![pv_text("symbol"@, self.symbol@)] =~= seq![
                pv_text("symbol"@, self.symbol@),
            ]);
        }
        r
    }

    pub fn timestamp(&self) -> (r: u64)
        ensures
            r == self.timestamp,
    {
        self.timestamp
    }

    pub fn recv_window(&self) -> (r: u64)
        ensures
            r == if self.recv_window is Some {
                self.recv_window->0
            } else {
                5000u64
            },
    {
        match self.recv_window {
            Some(w) => w,
            None => 5000,
        }
    }
}

/// Cancels one order by id or client order id.
#[derive(Debug)]
pub struct CancelOrderRequest {
    pub symbol: String,
    pub order_id: Option<u64>,
    pub orig_client_order_id: Option<String>,
    pub recv_window: Option<u64>,
    pub timestamp: u64,
}

#[derive(Debug)]
pub struct CancelOrderResponse {
    pub client_order_id: String,
    pub cum_qty: String,
    pub cum_quote: String,
    pub executed_qty: String,
    pub order_id: u64,
    pub orig_qty: String,
    pub orig_type: String,
    pub price: String,
    pub reduce_only: bool,
    pub side: String,
    pub position_side: String,
    pub status: String,
    pub stop_price: String,
    pub close_position: bool,
    pub symbol: String,
    pub time_in_force: String,
    pub order_type: String,
    pub activate_price: Option<String>,
    pub price_rate: Option<String>,
    pub update_time: u64,
    pub working_type: String,
    pub price_protect: bool,
    pub self_trade_prevention_mode: String,
    pub good_till_date: u64,
}

impl CancelOrderRequest {
    /// The request's parameter list: the symbol, then whichever order
    /// identifiers are given. The timestamp and receive window are
    /// appended by the signing engine.
    pub open spec fn param_list(&self) -> Seq<ParamView> {
        seq![pv_text("symbol"@, self.symbol@)] + (if self.order_id is Some {
            seq![pv_uint("orderId"@, self.order_id->0)]
        } else {
            Seq::empty()
        }) + (if self.orig_client_order_id is Some {
            seq![pv_text("origClientOrderId"@, self.orig_client_order_id->0@)]
        } else {
            Seq::empty()
        })
    }

    pub fn descriptor(&self) -> (r: Descriptor)
        ensures
            r.method == HttpMethod::Delete,
            r.path@ == "/fapi/v1/order"@,
            r.tier == Tier::Signed,
    {
        Descriptor {
            method: HttpMethod::Delete,
            path: String::from_str("/fapi/v1/order"),
            tier: Tier::Signed,
        }
    }

    pub fn params(&self) -> (r: Vec<Param>)
        ensures
            param_views(r@) == self.param_list(),
    {
        let mut r: Vec<Param> = Vec::new();
        r.push(text_param("symbol", self.symbol.as_str()));
        if let Some(v) = self.order_id {
            r.push(uint_param("orderId", v));
        }
        if let Some(v) = &self.orig_client_order_id {
            r.push(text_param("origClientOrderId", v.as_str()));
        }
        proof {
            assert(param_views(r@) =~= self.param_list());
        }
        r
    }

    pub fn timestamp(&self) -> (r: u64)
        ensures
            r == self.timestamp,
    {
        self.timestamp
    }

    pub fn recv_window(&self) -> (r: u64)
        ensures
            r == if self.recv_window is Some {
                self.recv_window->0
            } else {
                5000u64
            },
    {
        match self.recv_window {
            Some(w) => w,
            None => 5000,
        }
    }
}

/// Queries the account's commission rate for one symbol.
#[derive(Debug)]
pub struct UserCommissionRateRequest {
    pub symbol: String,
    pub recv_window: Option<u64>,
    pub timestamp: u64,
}

#[derive(Debug)]
pub struct UserCommissionRateResponse {
    pub symbol: String,
    pub maker_commission_rate: String,
    pub taker_commission_rate: String,
}

impl UserCommissionRateRequest {
    /// The request's parameter list: the symbol. The timestamp and
    /// receive window are appended by the signing engine.
    pub open spec fn param_list(&self) -> Seq<ParamView> {
        seq![pv_text("symbol"@, self.symbol@)]
    }

    pub fn descriptor(&self) -> (r: Descriptor)
        ensures
            r.method == HttpMethod::Get,
            r.path@ == "/fapi/v1/commissionRate"@,
            r.tier == Tier::Signed,
    {
        Descriptor {
            method: HttpMethod::Get,
            path: String::from_str("/fapi/v1/commissionRate"),
            tier: Tier::Signed,
        }
    }

    pub fn params(&self) -> (r: Vec<Param>)
        ensures
            param_views(r@) == self.param_list(),
    {
        let mut r: Vec<Param> = Vec::new();
        r.push(text_param("symbol", self.symbol.as_str()));
        proof {
            assert(param_views(r@) =~= self.param_list());
        }
        r
    }

    pub fn timestamp(&self) -> (r: u64)
        ensures
            r == self.timestamp,
    {
        self.timestamp
    }

    pub fn recv_window(&self) -> (r: u64)
        ensures
            r == if self.recv_window is Some {
                self.recv_window->0
            } else {
                5000u64
            },
    {
        match self.recv_window {
            Some(w) => w,
            None => 5000,
        }
    }
}

} // verus!
