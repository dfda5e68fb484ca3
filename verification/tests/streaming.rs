use binance_async_api::stream::{
    classify_connect, collect_events, connect_failure_of, inbound_of, poll_step, settle_event,
    ConnectError, Frame, Inbound, PullAction, StreamError, StreamState, WsFault,
};
use binance_async_api::stream_usdm::{
    AggTradeStream, BookTickerStream, DiffDepthStream, UserStream, StreamTopic,
};
use tokio_tungstenite::tungstenite;

#[test]
fn http_rejection_is_a_handshake_error_not_transport() {
    let fault = WsFault::Http { status: 429, headers: Vec::new(), body: b"slow down".to_vec() };
    match classify_connect(fault) {
        ConnectError::HandshakeRejected { status, body, .. } => {
            assert_eq!(status, 429);
            assert_eq!(body, b"slow down".to_vec());
        },
        other => panic!("expected HandshakeRejected, got {:?}", other),
    }
}

#[test]
fn refused_connection_is_transport_not_handshake() {
    match classify_connect(WsFault::Io) {
        ConnectError::Transport { fault } => assert!(matches!(fault, WsFault::Io)),
        other => panic!("expected Transport, got {:?}", other),
    }
    assert!(matches!(
        classify_connect(WsFault::Tls),
        ConnectError::Transport { .. }
    ));
}

#[test]
fn real_http_upgrade_rejection_classifies_as_handshake() {
    let resp = tungstenite::http::Response::builder()
        .status(429)
        .body(Some(b"rate limited".to_vec()))
        .unwrap();
    let e = tungstenite::Error::Http(Box::new(resp));
    match connect_failure_of(e) {
        ConnectError::HandshakeRejected { status, body, .. } => {
            assert_eq!(status, 429);
            assert_eq!(body, b"rate limited".to_vec());
        },
        other => panic!("expected HandshakeRejected, got {:?}", other),
    }
}

#[test]
fn real_io_failure_classifies_as_transport() {
    let io = std::io::Error::new(std::io::ErrorKind::ConnectionRefused, "refused");
    let e = tungstenite::Error::Io(io);
    assert!(matches!(connect_failure_of(e), ConnectError::Transport { .. }));
}

#[test]
fn frame_filtering_yields_exactly_the_text_events_in_order() {
    let frames = vec![
        Frame::Ping(vec![1, 2]),
        Frame::Text(b"{\"e\":\"one\"}".to_vec()),
        Frame::Pong(vec![]),
        Frame::Text(b"{\"e\":\"two\"}".to_vec()),
        Frame::Close,
    ];
    let (events, state) = collect_events(&frames);
    assert_eq!(events.len(), 2);
    assert_eq!(events[0], b"{\"e\":\"one\"}".to_vec());
    assert_eq!(events[1], b"{\"e\":\"two\"}".to_vec());
    assert!(matches!(state, StreamState::Closed));
}

#[test]
fn frames_after_a_close_are_not_delivered() {
    let frames = vec![Frame::Close, Frame::Text(b"late".to_vec())];
    let (events, state) = collect_events(&frames);
    assert!(events.is_empty());
    assert!(matches!(state, StreamState::Closed));
}

#[test]
fn a_sequence_without_close_stays_open() {
    let frames = vec![Frame::Binary(vec![9]), Frame::Text(b"x".to_vec())];
    let (events, state) = collect_events(&frames);
    assert_eq!(events, vec![b"x".to_vec()]);
    assert!(matches!(state, StreamState::Open));
}

#[test]
fn poll_step_walks_the_state_machine() {
    let (s1, a1) = poll_step(StreamState::Open, Inbound::Item(Frame::Ping(vec![])));
    assert!(matches!(s1, StreamState::Open));
    assert!(matches!(a1, PullAction::Skip));

    let (s2, a2) = poll_step(s1, Inbound::Item(Frame::Text(b"ev".to_vec())));
    assert!(matches!(s2, StreamState::Open));
    match a2 {
        PullAction::Deliver(t) => assert_eq!(t, b"ev".to_vec()),
        other => panic!("expected Deliver, got {:?}", other),
    }

    let (s3, a3) = poll_step(s2, Inbound::Item(Frame::Close));
    assert!(matches!(s3, StreamState::Closed));
    assert!(matches!(a3, PullAction::EndClean));

    let (s4, a4) = poll_step(s3, Inbound::Item(Frame::Text(b"late".to_vec())));
    assert!(matches!(s4, StreamState::Closed));
    assert!(matches!(a4, PullAction::EndClean));
}

#[test]
fn transport_failure_ends_the_stream_with_the_fault_attached() {
    let (s, a) = poll_step(StreamState::Open, Inbound::Failed(WsFault::Io));
    assert!(matches!(s, StreamState::Closed));
    assert!(matches!(a, PullAction::EndFault(WsFault::Io)));
    let err = StreamError::Transport { fault: WsFault::Io };
    assert!(err.is_terminal());
}

#[test]
fn malformed_event_is_a_recoverable_error_not_a_crash() {
    // a text frame arrives but its payload does not decode
    let (state, action) = poll_step(
        StreamState::Open,
        Inbound::Item(Frame::Text(b"not the event type".to_vec())),
    );
    assert!(matches!(action, PullAction::Deliver(_)));
    // the decode fails downstream; the caller gets a typed error
    let decoded: Option<u32> = None;
    let err = settle_event(decoded).unwrap_err();
    assert!(matches!(err, StreamError::Decode));
    assert!(!err.is_terminal());
    // the connection state is untouched: pulling may continue
    let (s2, a2) = poll_step(state, Inbound::Item(Frame::Text(b"{\"ok\":1}".to_vec())));
    assert!(matches!(s2, StreamState::Open));
    assert!(matches!(a2, PullAction::Deliver(_)));
}

#[test]
fn settle_event_passes_decoded_values_through() {
    let ok = settle_event(Some(41u32)).unwrap();
    assert_eq!(ok, 41);
}

#[test]
fn inbound_of_maps_transport_items() {
    assert!(matches!(inbound_of(None), Inbound::Ended));
    let msg = tungstenite::Message::Text("hey".into());
    match inbound_of(Some(Ok(msg))) {
        Inbound::Item(Frame::Text(t)) => assert_eq!(t, b"hey".to_vec()),
        other => panic!("expected text item, got {:?}", other),
    }
    let e = tungstenite::Error::AttackAttempt;
    assert!(matches!(
        inbound_of(Some(Err(e))),
        Inbound::Failed(WsFault::AttackAttempt)
    ));
}

#[test]
fn stream_topics_build_their_endpoints() {
    let agg = AggTradeStream { symbol: "BTCUSDT".to_string() };
    assert_eq!(agg.endpoint(), "/ws/btcusdt@aggTrade".to_string());
    let book = BookTickerStream { symbol: "ethusdt".to_string() };
    assert_eq!(book.endpoint(), "/ws/ethusdt@bookTicker".to_string());
    let depth = DiffDepthStream { symbol: "SOLUSDT".to_string() };
    assert_eq!(depth.endpoint(), "/ws/solusdt@depth@100ms".to_string());
    let user = UserStream { listen_key: "AbC123".to_string() };
    assert_eq!(user.endpoint(), "/ws/AbC123".to_string());
}

#[test]
fn stream_url_joins_base_and_endpoint() {
    let agg = AggTradeStream { symbol: "BTCUSDT".to_string() };
    let url = binance_async_api::stream::stream_url("wss://fstream.binance.com", &agg.endpoint());
    assert_eq!(url, b"wss://fstream.binance.com/ws/btcusdt@aggTrade".to_vec());
}
