use binance_async_api::params::{text_param, uint_param, bool_param, Param};
use binance_async_api::wsapi::{
    build_public, build_signed, json_escape, ws_keyed_message, ws_public_message, ws_sign_message,
    ws_signed_message, sort_by_key, lex_le_bytes,
};
use binance_async_api::rest_usdm::{OrderBookRequest, CancelOrderRequest};

#[test]
fn public_message_exact_bytes() {
    let params = vec![text_param("symbol", "BTCUSDT"), uint_param("limit", 5)];
    let req = ws_public_message(0, "depth", params);
    assert_eq!(
        req.raw,
        br#"{"id":0,"method":"depth","params":{"symbol":"BTCUSDT","limit":5}}"#.to_vec()
    );
}

#[test]
fn public_message_with_no_params() {
    let req = ws_public_message(9, "ping", Vec::new());
    assert_eq!(req.raw, br#"{"id":9,"method":"ping","params":{}}"#.to_vec());
}

#[test]
fn keyed_message_attaches_api_key_member() {
    let params = vec![text_param("symbol", "BTCUSDT")];
    let req = ws_keyed_message(3, "account.status", params, "my-key");
    assert_eq!(
        req.raw,
        br#"{"id":3,"method":"account.status","params":{"symbol":"BTCUSDT","apiKey":"my-key"}}"#
            .to_vec()
    );
}

#[test]
fn signed_message_signs_the_sorted_parameters() {
    let params = vec![
        uint_param("timestamp", 1700000000000),
        text_param("symbol", "BTCUSDT"),
    ];
    // the signer sorts by key: symbol before timestamp, values in JSON form
    let sign_msg = ws_sign_message(params);
    assert_eq!(
        sign_msg,
        br#"symbol="BTCUSDT"&timestamp=1700000000000&"#.to_vec()
    );

    let params = vec![
        uint_param("timestamp", 1700000000000),
        text_param("symbol", "BTCUSDT"),
    ];
    let req = ws_signed_message(1, "order.place", params, "key", "secret");
    let raw = String::from_utf8(req.raw).unwrap();
    assert!(raw.starts_with(
        r#"{"id":1,"method":"order.place","params":{"timestamp":1700000000000,"symbol":"BTCUSDT","api_key":"key","signature":""#
    ));
    assert!(raw.contains("d47a0c1aaa6cf05bad8951ba44526a1ee95ed67fad010bda45bc966e294db913"));
}

#[test]
fn sign_message_of_empty_params_is_empty() {
    assert_eq!(ws_sign_message(Vec::new()), b"".to_vec());
}

#[test]
fn sort_is_stable_and_byte_lexicographic() {
    assert!(lex_le_bytes(b"abc", b"abd"));
    assert!(lex_le_bytes(b"ab", b"abc"));
    assert!(!lex_le_bytes(b"b", b"abc"));
    assert!(lex_le_bytes(b"", b""));

    let params = vec![
        text_param("b", "1"),
        text_param("a", "2"),
        text_param("b", "3"),
    ];
    let sorted = sort_by_key(params);
    let keys: Vec<Vec<u8>> = sorted.iter().map(|p| p.key.clone()).collect();
    assert_eq!(keys, vec![b"a".to_vec(), b"b".to_vec(), b"b".to_vec()]);
    // stability: the two `b` entries keep their original order
    let rendered = ws_sign_message(sorted);
    assert_eq!(rendered, br#"a="2"&b="1"&b="3"&"#.to_vec());
}

#[test]
fn json_escaping_exact() {
    assert_eq!(json_escape(b"plain"), b"plain".to_vec());
    assert_eq!(json_escape(b"a\"b"), b"a\\\"b".to_vec());
    assert_eq!(json_escape(b"a\\b"), b"a\\\\b".to_vec());
    assert_eq!(json_escape(b"a\nb\t"), b"a\\nb\\t".to_vec());
    assert_eq!(json_escape(&[0x01u8]), b"\\u0001".to_vec());
    assert_eq!(json_escape(&[0x1Fu8]), b"\\u001F".to_vec());
}

#[test]
fn boolean_values_render_bare_in_messages() {
    let params = vec![bool_param("reduceOnly", true)];
    let req = ws_public_message(2, "order.test", params);
    assert_eq!(
        req.raw,
        br#"{"id":2,"method":"order.test","params":{"reduceOnly":true}}"#.to_vec()
    );
}

#[test]
fn order_book_request_builds_a_depth_message() {
    let req = OrderBookRequest { symbol: "BTCUSDT".to_string(), limit: Some(5) };
    let msg = build_public(&req, 0);
    assert_eq!(
        msg.raw,
        br#"{"id":0,"method":"depth","params":{"symbol":"BTCUSDT","limit":5}}"#.to_vec()
    );
}

#[test]
fn cancel_order_request_builds_a_signed_message() {
    let req = CancelOrderRequest {
        symbol: "BTCUSDT".to_string(),
        order_id: Some(42),
        orig_client_order_id: None,
        recv_window: None,
        timestamp: 1700000000000,
    };
    let msg = build_signed(&req, 5, "key", "secret");
    let raw = String::from_utf8(msg.raw).unwrap();
    assert!(raw.starts_with(
        r#"{"id":5,"method":"order.cancel","params":{"symbol":"BTCUSDT","orderId":42,"timestamp":1700000000000,"api_key":"key","signature":""#
    ));
    assert!(raw.ends_with(r#""}}"#));
}

#[test]
fn params_render_in_field_order_in_the_message() {
    let params: Vec<Param> = vec![
        text_param("zeta", "1"),
        text_param("alpha", "2"),
    ];
    // message members keep the caller's order; only the signer sorts
    let req = ws_public_message(0, "m", params);
    assert_eq!(
        req.raw,
        br#"{"id":0,"method":"m","params":{"zeta":"1","alpha":"2"}}"#.to_vec()
    );
}
