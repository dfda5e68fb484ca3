use binance_async_api::dispatch::{build_request, BuildError, Credentials, HttpMethod, Tier};
use binance_async_api::rest_usdm::{
    ChangePositionModeRequest, NewOrderRequest, OrderBookRequest, UserCommissionRateRequest,
    CreateListenKeyRequest,
};

fn no_credentials() -> Credentials {
    Credentials { api_key: None, api_secret: None }
}

fn full_credentials() -> Credentials {
    Credentials {
        api_key: Some("the-api-key".to_string()),
        api_secret: Some("secret".to_string()),
    }
}

#[test]
fn public_request_never_carries_api_key_header() {
    let req = OrderBookRequest { symbol: "BTCUSDT".to_string(), limit: Some(5) };
    let prepared = build_request(
        "https://fapi.binance.com",
        &req.descriptor(),
        req.params(),
        &full_credentials(),
        1700000000000,
        None,
    )
    .unwrap();
    for h in &prepared.headers {
        assert_ne!(h.name, "x-mbx-apikey".to_string());
    }
    assert_eq!(
        prepared.url,
        b"https://fapi.binance.com/fapi/v1/depth?symbol=BTCUSDT&limit=5".to_vec()
    );
    assert!(prepared.body.is_empty());
    assert!(matches!(prepared.method, HttpMethod::Get));
}

#[test]
fn keyed_request_without_key_fails_before_any_send() {
    let req = CreateListenKeyRequest {};
    let r = build_request(
        "https://fapi.binance.com",
        &req.descriptor(),
        req.params(),
        &no_credentials(),
        0,
        None,
    );
    assert!(matches!(r, Err(BuildError::MissingApiKey)));
}

#[test]
fn signed_request_without_key_fails_with_missing_key() {
    let req = UserCommissionRateRequest {
        symbol: "BTCUSDT".to_string(),
        recv_window: None,
        timestamp: 1700000000000,
    };
    let r = build_request(
        "https://fapi.binance.com",
        &req.descriptor(),
        req.params(),
        &no_credentials(),
        req.timestamp(),
        None,
    );
    assert!(matches!(r, Err(BuildError::MissingApiKey)));
}

#[test]
fn signed_request_without_secret_fails_with_missing_secret() {
    let req = UserCommissionRateRequest {
        symbol: "BTCUSDT".to_string(),
        recv_window: None,
        timestamp: 1700000000000,
    };
    let creds = Credentials { api_key: Some("k".to_string()), api_secret: None };
    let r = build_request(
        "https://fapi.binance.com",
        &req.descriptor(),
        req.params(),
        &creds,
        req.timestamp(),
        None,
    );
    assert!(matches!(r, Err(BuildError::MissingApiSecret)));
}

#[test]
fn keyed_request_carries_api_key_header() {
    let req = CreateListenKeyRequest {};
    let prepared = build_request(
        "https://fapi.binance.com",
        &req.descriptor(),
        req.params(),
        &full_credentials(),
        0,
        None,
    )
    .unwrap();
    assert!(prepared
        .headers
        .iter()
        .any(|h| h.name == "x-mbx-apikey" && h.value == "the-api-key"));
    assert_eq!(prepared.url, b"https://fapi.binance.com/fapi/v1/listenKey".to_vec());
    assert!(prepared.body.is_empty());
}

#[test]
fn signed_get_signs_exactly_the_transmitted_query() {
    let req = UserCommissionRateRequest {
        symbol: "BTCUSDT".to_string(),
        recv_window: None,
        timestamp: 1700000000000,
    };
    let prepared = build_request(
        "https://fapi.binance.com",
        &req.descriptor(),
        req.params(),
        &full_credentials(),
        req.timestamp(),
        None,
    )
    .unwrap();
    let expected = b"https://fapi.binance.com/fapi/v1/commissionRate?\
symbol=BTCUSDT&timestamp=1700000000000&recvWindow=5000\
&signature=898122a528961a351a3a8321656401f94a9273b6b8a3eee071845e9c573a755e"
        .to_vec();
    assert_eq!(prepared.url, expected);
    assert!(prepared.body.is_empty());
}

#[test]
fn signed_post_places_params_in_body_and_signature_in_query() {
    let req = ChangePositionModeRequest {
        dual_side_position: "true".to_string(),
        recv_window: None,
        timestamp: 1700000000000,
    };
    let prepared = build_request(
        "https://fapi.binance.com",
        &req.descriptor(),
        req.params(),
        &full_credentials(),
        req.timestamp(),
        None,
    )
    .unwrap();
    assert_eq!(
        prepared.body,
        b"dualSidePosition=true&timestamp=1700000000000&recvWindow=5000".to_vec()
    );
    assert_eq!(
        prepared.url,
        b"https://fapi.binance.com/fapi/v1/positionSide/dual?\
signature=669e5389d1fbedf0badfe0aa60fe276be4d2631bc56644e1d345a906239d5272"
            .to_vec()
    );
    assert!(matches!(prepared.method, HttpMethod::Post));
}

#[test]
fn caller_supplied_recv_window_is_used() {
    let req = UserCommissionRateRequest {
        symbol: "BTCUSDT".to_string(),
        recv_window: Some(10000),
        timestamp: 1700000000000,
    };
    assert_eq!(req.recv_window(), 10000);
    let prepared = build_request(
        "https://fapi.binance.com",
        &req.descriptor(),
        req.params(),
        &full_credentials(),
        req.timestamp(),
        Some(req.recv_window()),
    )
    .unwrap();
    let url = String::from_utf8(prepared.url).unwrap();
    assert!(url.contains("recvWindow=10000"));
}

#[test]
fn default_recv_window_is_5000() {
    let req = ChangePositionModeRequest {
        dual_side_position: "false".to_string(),
        recv_window: None,
        timestamp: 1,
    };
    assert_eq!(req.recv_window(), 5000);
}

#[test]
fn new_order_params_follow_field_order() {
    let req = NewOrderRequest {
        symbol: "BTCUSDT".to_string(),
        side: "BUY".to_string(),
        position_side: None,
        order_type: "LIMIT".to_string(),
        time_in_force: Some("GTC".to_string()),
        quantity: Some("0.01".to_string()),
        reduce_only: None,
        price: Some("35000".to_string()),
        new_client_order_id: None,
        stop_price: None,
        close_position: None,
        activation_price: None,
        callback_rate: None,
        working_type: None,
        price_protect: None,
        self_trade_prevention_mode: None,
        good_till_date: None,
        recv_window: None,
        timestamp: 1700000000000,
    };
    let encoded = binance_async_api::params::encode_params(&req.params());
    assert_eq!(
        encoded,
        b"symbol=BTCUSDT&side=BUY&type=LIMIT&timeInForce=GTC&quantity=0.01&price=35000".to_vec()
    );
    assert!(matches!(req.descriptor().tier, Tier::Signed));
}
