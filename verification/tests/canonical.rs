use binance_async_api::encoding::{pct_encode, to_hex, u64_to_dec, lowercase, ascii_string_of};
use binance_async_api::params::{Param, ParamValue, encode_params, text_param, uint_param,
    bool_param};

#[test]
fn decimal_rendering_exact() {
    assert_eq!(u64_to_dec(0), b"0".to_vec());
    assert_eq!(u64_to_dec(7), b"7".to_vec());
    assert_eq!(u64_to_dec(10), b"10".to_vec());
    assert_eq!(u64_to_dec(1700000000000), b"1700000000000".to_vec());
    assert_eq!(u64_to_dec(u64::MAX), b"18446744073709551615".to_vec());
}

#[test]
fn percent_encoding_exact() {
    assert_eq!(pct_encode(b"BTCUSDT"), b"BTCUSDT".to_vec());
    assert_eq!(pct_encode(b"a b"), b"a%20b".to_vec());
    assert_eq!(pct_encode(b"a&b=c"), b"a%26b%3Dc".to_vec());
    assert_eq!(pct_encode(b"x-._~"), b"x-._~".to_vec());
    assert_eq!(pct_encode(&[0xFFu8]), b"%FF".to_vec());
    assert_eq!(pct_encode(b""), b"".to_vec());
}

#[test]
fn hex_rendering_exact() {
    assert_eq!(to_hex(&[]), b"".to_vec());
    assert_eq!(to_hex(&[0x00, 0xAB, 0xFF]), b"00abff".to_vec());
}

#[test]
fn hex_matches_reference_encoder() {
    let bytes: Vec<u8> = (0u16..=255).map(|b| b as u8).collect();
    assert_eq!(to_hex(&bytes), hex::encode(&bytes).into_bytes());
}

#[test]
fn canonical_query_exact() {
    let params = vec![
        text_param("symbol", "BTCUSDT"),
        uint_param("limit", 5),
        bool_param("reduceOnly", true),
    ];
    assert_eq!(
        encode_params(&params),
        b"symbol=BTCUSDT&limit=5&reduceOnly=true".to_vec()
    );
}

#[test]
fn canonical_query_empty_and_single() {
    let empty: Vec<Param> = Vec::new();
    assert_eq!(encode_params(&empty), b"".to_vec());
    let one = vec![bool_param("closePosition", false)];
    assert_eq!(encode_params(&one), b"closePosition=false".to_vec());
}

#[test]
fn canonical_query_escapes_values() {
    let params = vec![Param {
        key: b"note".to_vec(),
        value: ParamValue::Text(b"a b&c".to_vec()),
    }];
    assert_eq!(encode_params(&params), b"note=a%20b%26c".to_vec());
}

#[test]
fn encode_is_deterministic() {
    let make = || {
        vec![
            text_param("symbol", "ETHUSDT"),
            uint_param("timestamp", 1700000000000),
            bool_param("reduceOnly", false),
        ]
    };
    let a = encode_params(&make());
    let b = encode_params(&make());
    assert_eq!(a, b);
    let c = encode_params(&make());
    assert_eq!(b, c);
}

#[test]
fn lowercase_folds_symbols() {
    assert_eq!(lowercase("BTCUSDT"), "btcusdt".to_string());
    assert_eq!(lowercase("btcusdt"), "btcusdt".to_string());
    assert_eq!(lowercase(""), "".to_string());
}

#[test]
fn ascii_string_round_trip() {
    assert_eq!(ascii_string_of(b"hello-123".to_vec()), "hello-123".to_string());
}
