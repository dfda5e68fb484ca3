//! The flat endpoint table: production and testnet hosts for every
//! product's REST and stream transports.

use vstd::prelude::*;
use vstd::string::StringExecFns;

verus! {

/// The REST and stream hosts of every product.
#[derive(Debug)]
pub struct Config {
    pub rest_api_endpoint: String,
    pub ws_endpoint: String,
    pub usdm_futures_rest_api_endpoint: String,
    pub usdm_futures_ws_endpoint: String,
    pub coinm_futures_rest_api_endpoint: String,
    pub coinm_futures_ws_endpoint: String,
}

impl Config {
    /// The testnet hosts.
    pub fn testnet() -> (r: Config)
        ensures
            r.rest_api_endpoint@ == "https://testnet.binance.vision"@,
            r.ws_endpoint@ == "wss://testnet.binance.vision"@,
            r.usdm_futures_rest_api_endpoint@ == "https://testnet.binancefuture.com"@,
            r.usdm_futures_ws_endpoint@ == "wss://stream.binancefuture.com"@,
            r.coinm_futures_rest_api_endpoint@ == "https://testnet.binancefuture.com"@,
            r.coinm_futures_ws_endpoint@ == "wss://dstream.binancefuture.com"@,
    {
        Config {
            rest_api_endpoint: String::from_str("https://testnet.binance.vision"),
            ws_endpoint: String::from_str("wss://testnet.binance.vision"),
            usdm_futures_rest_api_endpoint: String::from_str("https://testnet.binancefuture.com"),
            usdm_futures_ws_endpoint: String::from_str("wss://stream.binancefuture.com"),
            coinm_futures_rest_api_endpoint: String::from_str("https://testnet.binancefuture.com"),
            coinm_futures_ws_endpoint: String::from_str("wss://dstream.binancefuture.com"),
        }
    }
}

impl Default for Config {
    /// The production hosts.
    fn default() -> (r: Config)
        ensures
            r.rest_api_endpoint@ == "https://api.binance.com"@,
            r.ws_endpoint@ == "wss://stream.binance.com:9443"@,
            r.usdm_futures_rest_api_endpoint@ == "https://fapi.binance.com"@,
            r.usdm_futures_ws_endpoint@ == "wss://fstream.binance.com"@,
            r.coinm_futures_rest_api_endpoint@ == "https://dapi.binance.com"@,
            r.coinm_futures_ws_endpoint@ == "wss://dstream.binance.com"@,
    {
        Config {
            rest_api_endpoint: String::from_str("https://api.binance.com"),
            ws_endpoint: String::from_str("wss://stream.binance.com:9443"),
            usdm_futures_rest_api_endpoint: String::from_str("https://fapi.binance.com"),
            usdm_futures_ws_endpoint: String::from_str("wss://fstream.binance.com"),
            coinm_futures_rest_api_endpoint: String::from_str("https://dapi.binance.com"),
            coinm_futures_ws_endpoint: String::from_str("wss://dstream.binance.com"),
        }
    }
}

} // verus!
