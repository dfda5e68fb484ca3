use binance_async_api::client::{ClientConfig, Product};
use binance_async_api::config::Config;
use binance_async_api::spot;
use binance_async_api::usd_m;

#[test]
fn product_configs_carry_their_base_urls() {
    let s = ClientConfig::spot();
    assert!(matches!(s.product, Product::Spot));
    assert_eq!(s.rest_base_url, "https://api.binance.com");
    assert_eq!(s.websocket_base_url, "wss://stream.binance.com:9443");
    assert_eq!(s.ws_api_base_url, "wss://ws-api.binance.com:443/ws-api/v3");

    let u = ClientConfig::usdm();
    assert!(matches!(u.product, Product::Usdm));
    assert_eq!(u.rest_base_url, "https://fapi.binance.com");
    assert_eq!(u.websocket_base_url, "wss://fstream.binance.com");
    assert_eq!(u.ws_api_base_url, "wss://ws-fapi.binance.com/ws-fapi/v1");

    let c = ClientConfig::coinm();
    assert!(matches!(c.product, Product::Coinm));
    assert_eq!(c.rest_base_url, "https://dapi.binance.com");
    assert_eq!(c.websocket_base_url, "wss://dstream.binance.com");
    assert_eq!(c.ws_api_base_url, "");
}

#[test]
fn default_config_is_spot() {
    let d = ClientConfig::default();
    assert!(matches!(d.product, Product::Spot));
    assert_eq!(d.rest_base_url, "https://api.binance.com");
}

#[test]
fn builders_replace_exactly_one_url() {
    let c = ClientConfig::usdm()
        .with_rest_base_url("https://testnet.binancefuture.com".to_string());
    assert_eq!(c.rest_base_url, "https://testnet.binancefuture.com");
    assert_eq!(c.websocket_base_url, "wss://fstream.binance.com");

    let c = c.with_websocket_base_url("wss://stream.binancefuture.com".to_string());
    assert_eq!(c.websocket_base_url, "wss://stream.binancefuture.com");
    assert_eq!(c.rest_base_url, "https://testnet.binancefuture.com");

    let c = c.with_ws_api_base_url("wss://somewhere/else".to_string());
    assert_eq!(c.ws_api_base_url, "wss://somewhere/else");
    assert!(matches!(c.product, Product::Usdm));
}

#[test]
fn endpoint_table_defaults_and_testnet() {
    let d = Config::default();
    assert_eq!(d.rest_api_endpoint, "https://api.binance.com");
    assert_eq!(d.ws_endpoint, "wss://stream.binance.com:9443");
    assert_eq!(d.usdm_futures_rest_api_endpoint, "https://fapi.binance.com");
    assert_eq!(d.usdm_futures_ws_endpoint, "wss://fstream.binance.com");
    assert_eq!(d.coinm_futures_rest_api_endpoint, "https://dapi.binance.com");
    assert_eq!(d.coinm_futures_ws_endpoint, "wss://dstream.binance.com");

    let t = Config::testnet();
    assert_eq!(t.rest_api_endpoint, "https://testnet.binance.vision");
    assert_eq!(t.ws_endpoint, "wss://testnet.binance.vision");
    assert_eq!(t.usdm_futures_rest_api_endpoint, "https://testnet.binancefuture.com");
    assert_eq!(t.usdm_futures_ws_endpoint, "wss://stream.binancefuture.com");
    assert_eq!(t.coinm_futures_rest_api_endpoint, "https://testnet.binancefuture.com");
    assert_eq!(t.coinm_futures_ws_endpoint, "wss://dstream.binancefuture.com");
}

#[test]
fn spot_stream_urls() {
    let base = "wss://stream.binance.com:9443";
    let agg = spot::AggTradeStream { symbol: "BTCUSDT".to_string() };
    assert_eq!(agg.build_url(base), format!("{}/ws/btcusdt@aggTrade", base));
    let trade = spot::TradeStream { symbol: "ETHUSDT".to_string() };
    assert_eq!(trade.build_url(base), format!("{}/ws/ethusdt@trade", base));
    let kline = spot::KlineUpdateStream {
        symbol: "BTCUSDT".to_string(),
        interval: spot::KlineInterval::m15,
    };
    assert_eq!(kline.build_url(base), format!("{}/ws/btcusdt@kline_15m", base));
    let all = spot::AllMiniTickersStream;
    assert_eq!(all.build_url(base), format!("{}/ws/!miniTicker@arr", base));
    let windowed = spot::WindowSizedTickerStream {
        symbol: "BTCUSDT".to_string(),
        window_size: spot::WindowSizedTickerWindowSize::h4,
    };
    assert_eq!(windowed.build_url(base), format!("{}/ws/btcusdt@ticker_4h", base));
    let partial = spot::PartialDepthStream {
        symbol: "BTCUSDT".to_string(),
        update_speed: spot::PartialDepthStreamUpdateSpeed::ms100,
        levels: spot::PartialDepthStreamLevels::l10,
    };
    assert_eq!(partial.build_url(base), format!("{}/ws/btcusdt@depth10@100ms", base));
    let diff = spot::DiffDepthStream {
        symbol: "BTCUSDT".to_string(),
        update_speed: spot::DiffDepthStreamUpdateSpeed::ms1000,
    };
    assert_eq!(diff.build_url(base), format!("{}/ws/btcusdt@depth", base));
    let user = spot::UserStream { listen_key: "Key123".to_string() };
    assert_eq!(user.build_url(base), format!("{}/ws/Key123", base));
}

#[test]
fn usdm_stream_urls() {
    let base = "wss://fstream.binance.com";
    let mark = usd_m::MarkPriceStream {
        symbol: "BTCUSDT".to_string(),
        update_speed: usd_m::MarkPriceStreamUpdateSpeed::ms1000,
    };
    assert_eq!(mark.build_url(base), format!("{}/ws/btcusdt@markPrice@1s", base));
    let all_marks = usd_m::AllMarkPricesStream {
        update_speed: usd_m::MarkPriceStreamUpdateSpeed::ms3000,
    };
    assert_eq!(all_marks.build_url(base), format!("{}/ws/!markPrice@arr", base));
    let cont = usd_m::ContinuousContractKlineUpdateStream {
        pair: "BTCUSDT".to_string(),
        contract_type: usd_m::ContractType::Perpetual,
        interval: usd_m::KlineInterval::h1,
    };
    assert_eq!(
        cont.build_url(base),
        format!("{}/ws/btcusdt_perpetual@continuousKline_1h", base)
    );
    let liq = usd_m::LiquidationOrderStream { symbol: "BTCUSDT".to_string() };
    assert_eq!(liq.build_url(base), format!("{}/ws/btcusdt@forceOrder", base));
    let info = usd_m::ContractInfoStream;
    assert_eq!(info.build_url(base), format!("{}/ws/!contractInfo", base));
    let partial = usd_m::PartialDepthStream {
        symbol: "BTCUSDT".to_string(),
        update_speed: usd_m::PartialDepthStreamUpdateSpeed::ms500,
        levels: usd_m::PartialDepthStreamLevels::l20,
    };
    assert_eq!(partial.build_url(base), format!("{}/ws/btcusdt@depth20@500ms", base));
    let assets = usd_m::AllAssetIndexUpdatesStream;
    assert_eq!(assets.build_url(base), format!("{}/ws/!assetIndex@arr", base));
}
