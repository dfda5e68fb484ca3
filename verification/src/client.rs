//! Client configuration: which product's API a client instance talks to
//! and the base URLs of its three transports. The transport itself lives
//! outside the library; dispatch and stream building take these values.

use vstd::prelude::*;
use vstd::string::StringExecFns;

verus! {

/// The product a client is configured for, selecting its base URLs.
#[derive(Clone, Copy, Debug, PartialEq, Eq, Structural)]
pub enum Product {
    /// Spot trading.
    Spot,
    /// USD-margined futures.
    Usdm,
    /// Coin-margined futures.
    Coinm,
}

/// The base URLs one client instance uses for REST calls, market-data
/// streams and the WS-API.
#[derive(Debug)]
pub struct ClientConfig {
    pub product: Product,
    pub rest_base_url: String,
    pub websocket_base_url: String,
    pub ws_api_base_url: String,
}

impl ClientConfig {
    /// The spot configuration.
    pub fn spot() -> (r: ClientConfig)
        ensures
            r.product == Product::Spot,
            r.rest_base_url@ == "https://api.binance.com"@,
            r.websocket_base_url@ == "wss://stream.binance.com:9443"@,
            r.ws_api_base_url@ == "wss://ws-api.binance.com:443/ws-api/v3"@,
    {
        ClientConfig {
            product: Product::Spot,
            rest_base_url: String::from_str("https://api.binance.com"),
            websocket_base_url: String::from_str("wss://stream.binance.com:9443"),
            ws_api_base_url: String::from_str("wss://ws-api.binance.com:443/ws-api/v3"),
        }
    }

    /// The USD-margined futures configuration.
    pub fn usdm() -> (r: ClientConfig)
        ensures
            r.product == Product::Usdm,
            r.rest_base_url@ == "https://fapi.binance.com"@,
            r.websocket_base_url@ == "wss://fstream.binance.com"@,
            r.ws_api_base_url@ == "wss://ws-fapi.binance.com/ws-fapi/v1"@,
    {
        ClientConfig {
            product: Product::Usdm,
            rest_base_url: String::from_str("https://fapi.binance.com"),
            websocket_base_url: String::from_str("wss://fstream.binance.com"),
            ws_api_base_url: String::from_str("wss://ws-fapi.binance.com/ws-fapi/v1"),
        }
    }

    /// The coin-margined futures configuration; it has no WS-API endpoint.
    pub fn coinm() -> (r: ClientConfig)
        ensures
            r.product == Product::Coinm,
            r.rest_base_url@ == "https://dapi.binance.com"@,
            r.websocket_base_url@ == "wss://dstream.binance.com"@,
            r.ws_api_base_url@ == ""@,
    {
        ClientConfig {
            product: Product::Coinm,
            rest_base_url: String::from_str("https://dapi.binance.com"),
            websocket_base_url: String::from_str("wss://dstream.binance.com"),
            ws_api_base_url: String::from_str(""),
        }
    }

    /// Replaces the REST base URL, keeping everything else.
    pub fn with_rest_base_url(self, rest_base_url: String) -> (r: Self)
        ensures
            r.product == self.product,
            r.rest_base_url@ == rest_base_url@,
            r.websocket_base_url@ == self.websocket_base_url@,
            r.ws_api_base_url@ == self.ws_api_base_url@,
    {
        let mut c = self;
        c.rest_base_url = rest_base_url;
        c
    }

    /// Replaces the market-data stream base URL, keeping everything else.
    pub fn with_websocket_base_url(self, websocket_base_url: String) -> (r: Self)
        ensures
            r.product == self.product,
            r.rest_base_url@ == self.rest_base_url@,
            r.websocket_base_url@ == websocket_base_url@,
            r.ws_api_base_url@ == self.ws_api_base_url@,
    {
        let mut c = self;
        c.websocket_base_url = websocket_base_url;
        c
    }

    /// Replaces the WS-API base URL, keeping everything else.
    pub fn with_ws_api_base_url(self, ws_api_base_url: String) -> (r: Self)
        ensures
            r.product == self.product,
            r.rest_base_url@ == self.rest_base_url@,
            r.websocket_base_url@ == self.websocket_base_url@,
            r.ws_api_base_url@ == ws_api_base_url@,
    {
        let mut c = self;
        c.ws_api_base_url = ws_api_base_url;
        c
    }
}

impl Default for ClientConfig {
    /// The default configuration is the spot one.
    fn default() -> (r: ClientConfig)
        ensures
            r.product == Product::Spot,
            r.rest_base_url@ == "https://api.binance.com"@,
            r.websocket_base_url@ == "wss://stream.binance.com:9443"@,
            r.ws_api_base_url@ == "wss://ws-api.binance.com:443/ws-api/v3"@,
    {
        ClientConfig::spot()
    }
}

} // verus!
