//! WS-API bindings for the USD-M futures catalog: each REST request type
//! that the WS-API also serves gets its method name and its message
//! parameter list, timestamp and receive window included for the signed
//! operations.

use vstd::prelude::*;
use vstd::string::StringExecFns;
use crate::params::{Param, ParamView, param_views, pv_uint, push_opt_uint_param, uint_param};
use crate::rest_usdm::{
    OrderBookRequest,
    PriceTickerRequest,
    BookTickerRequest,
    NewOrderRequest,
    CancelOrderRequest,
    OrderBookResponse,
    PriceTickerResponse,
    NewOrderResponse,
    CancelOrderResponse,
};
use crate::wsapi::{WsApiPublicRequest, WsApiSignedRequest, WsApiResponse};

verus! {

impl WsApiPublicRequest for OrderBookRequest {
    open spec fn method_name(&self) -> Seq<char> {
        "depth"@
    }

    open spec fn ws_param_list(&self) -> Seq<ParamView> {
        self.param_list()
    }

    fn method(&self) -> (r: String)
        ensures
            r@ == self.method_name(),
    {
        String::from_str("depth")
    }

    fn ws_params(&self) -> (r: Vec<Param>)
        ensures
            param_views(r@) == self.ws_param_list(),
    {
        self.params()
    }
}

impl WsApiPublicRequest for PriceTickerRequest {
    open spec fn method_name(&self) -> Seq<char> {
        "ticker.price"@
    }

    open spec fn ws_param_list(&self) -> Seq<ParamView> {
        self.param_list()
    }

    fn method(&self) -> (r: String)
        ensures
            r@ == self.method_name(),
    {
        String::from_str("ticker.price")
    }

    fn ws_params(&self) -> (r: Vec<Param>)
        ensures
            param_views(r@) == self.ws_param_list(),
    {
        self.params()
    }
}

impl WsApiPublicRequest for BookTickerRequest {
    open spec fn method_name(&self) -> Seq<char> {
        "ticker.book"@
    }

    open spec fn ws_param_list(&self) -> Seq<ParamView> {
        self.param_list()
    }

    fn method(&self) -> (r: String)
        ensures
            r@ == self.method_name(),
    {
        String::from_str("ticker.book")
    }

    fn ws_params(&self) -> (r: Vec<Param>)
        ensures
            param_views(r@) == self.ws_param_list(),
    {
        self.params()
    }
}

impl WsApiSignedRequest for NewOrderRequest {
    open spec fn method_name(&self) -> Seq<char> {
        "order.place"@
    }

    /// The message carries every request field, the receive window when
    /// given and the timestamp last.
    open spec fn ws_param_list(&self) -> Seq<ParamView> {
        self.param_list() + (if self.recv_window is Some {
            seq![pv_uint("recvWindow"@, self.recv_window->0)]
        } else {
            Seq::empty()
        }) + seq![pv_uint("timestamp"@, self.timestamp)]
    }

    open spec fn spec_timestamp(&self) -> u64 {
        self.timestamp
    }

    open spec fn spec_recv_window(&self) -> u64 {
        if self.recv_window is Some {
            self.recv_window->0
        } else {
            5000
        }
    }

    fn method(&self) -> (r: String)
        ensures
            r@ == self.method_name(),
    {
        String::from_str("order.place")
    }

    fn ws_params(&self) -> (r: Vec<Param>)
        ensures
            param_views(r@) == self.ws_param_list(),
    {
        let mut r = self.params();
        push_opt_uint_param(&mut r, "recvWindow", &self.recv_window);
        r.push(uint_param("timestamp", self.timestamp));
        proof {
            assert(param_views(r@) =~= self.ws_param_list());
        }
        r
    }

    fn timestamp(&self) -> (r: u64)
        ensures
            r == self.spec_timestamp(),
    {
        NewOrderRequest::timestamp(self)
    }

    fn recv_window(&self) -> (r: u64)
        ensures
            r == self.spec_recv_window(),
    {
        NewOrderRequest::recv_window(self)
    }
}

impl WsApiSignedRequest for CancelOrderRequest {
    open spec fn method_name(&self) -> Seq<char> {
        "order.cancel"@
    }

    /// The message carries every request field, the receive window when
    /// given and the timestamp last.
    open spec fn ws_param_list(&self) -> Seq<ParamView> {
        self.param_list() + (if self.recv_window is Some {
            seq![pv_uint("recvWindow"@, self.recv_window->0)]
        } else {
            Seq::empty()
        }) + seq![pv_uint("timestamp"@, self.timestamp)]
    }

    open spec fn spec_timestamp(&self) -> u64 {
        self.timestamp
    }

    open spec fn spec_recv_window(&self) -> u64 {
        if self.recv_window is Some {
            self.recv_window->0
        } else {
            5000
        }
    }

    fn method(&self) -> (r: String)
        ensures
            r@ == self.method_name(),
    {
        String::from_str("order.cancel")
    }

    fn ws_params(&self) -> (r: Vec<Param>)
        ensures
            param_views(r@) == self.ws_param_list(),
    {
        let mut r = self.params();
        push_opt_uint_param(&mut r, "recvWindow", &self.recv_window);
        r.push(uint_param("timestamp", self.timestamp));
        proof {
            assert(param_views(r@) =~= self.ws_param_list());
        }
        r
    }

    fn timestamp(&self) -> (r: u64)
        ensures
            r == self.spec_timestamp(),
    {
        CancelOrderRequest::timestamp(self)
    }

    fn recv_window(&self) -> (r: u64)
        ensures
            r == self.spec_recv_window(),
    {
        CancelOrderRequest::recv_window(self)
    }
}

/// The book ticker as the WS-API returns it.
#[derive(Debug)]
pub struct BookTickerResponse {
    pub last_update_id: u64,
    pub symbol: String,
    pub bid_price: String,
    pub bid_qty: String,
    pub ask_price: String,
    pub ask_qty: String,
    pub time: u64,
}

/// Every result payload a USD-M WS-API connection can carry.
#[derive(Debug)]
pub enum WsApiResult {
    OrderBook(OrderBookResponse),
    PriceTicker(PriceTickerResponse),
    BookTicker(BookTickerResponse),
    NewOrder(NewOrderResponse),
    CancelOrder(CancelOrderResponse),
}

impl WsApiResponse for WsApiResult {

}

} // verus!
