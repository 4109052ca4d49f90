use bitvavo_api_client::ws::{
    authenticate_message, classify_event, classify_text, next_step, payload_source, ConnectionState, PayloadSource, get_book_message, next_loop_action, subscribe_account_message,
    subscribe_book_message, subscribe_candles_message, subscribe_ticker_24h_message, subscribe_ticker_message,
    subscribe_trades_message, unsubscribe_message, EventClass, EventKind, LoopAction, LoopInput,
    WsConnectionOperation,
};
use bitvavo_api_client::{ClientConfig, Error};

/// Classifies a text message.
fn classify(text: &str) -> EventClass {
    classify_text(text)
}

#[test]
fn parse_ticker_event() {
    let text = r#"{"event":"ticker","market":"BTC-EUR","bestBid":"9156.8","bestAsk":"9157.9","lastPrice":"9157.3"}"#;
    match classify(text) {
        EventClass::Event(kind) => assert_eq!(kind, EventKind::Ticker),
        other => panic!("unexpected event: {other:?}"),
    }
}

#[test]
fn parse_error_event() {
    let text = r#"{"errorCode":105,"error":"rate limit exceeded"}"#;
    match classify(text) {
        EventClass::Error { code, message } => {
            assert_eq!(code, 105);
            assert_eq!(message, "rate limit exceeded");
        }
        other => panic!("unexpected event: {other:?}"),
    }
}

#[test]
fn parse_book_response() {
    let text = r#"{"action":"getBook","response":{"market":"BTC-EUR","nonce":1,"bids":[],"asks":[]}}"#;
    match classify(text) {
        EventClass::Response { action } => assert_eq!(action, "getBook"),
        other => panic!("unexpected event: {other:?}"),
    }
}

#[test]
fn parse_candle_event() {
    let text = r#"{"event":"candle","market":"BTC-EUR","interval":"1h","candle":[[1538784000000,"4999","5012","4999","5012","0.45"]]}"#;
    match classify(text) {
        EventClass::Event(kind) => assert_eq!(kind, EventKind::Candle),
        other => panic!("unexpected event: {other:?}"),
    }
}

#[test]
fn classification_order_and_fallbacks() {
    assert!(matches!(classify(r#"{"errorCode":1,"event":"ticker"}"#), EventClass::Error { code: 1, .. }));
    match classify(r#"{"errorCode":2}"#) {
        EventClass::Error { message, .. } => assert_eq!(message, ""),
        other => panic!("unexpected event: {other:?}"),
    }
    assert!(matches!(classify(r#"{"event":"authenticate","action":"x"}"#), EventClass::Event(EventKind::Authenticated)));
    assert!(matches!(classify(r#"{"event":"nope","action":"x"}"#), EventClass::Unknown));
    assert!(matches!(classify(r#"{"errorCode":"105","event":"fill"}"#), EventClass::Event(EventKind::Fill)));
    assert!(matches!(classify(r#"[1,2]"#), EventClass::Unknown));
    assert!(matches!(classify(r#"{"event":5,"action":"getBook"}"#), EventClass::Response { .. }));
}

#[test]
fn subscription_messages() {
    assert_eq!(
        subscribe_ticker_message(&["BTC-EUR", "ETH-EUR"]),
        r#"{"action":"subscribe","channels":[{"markets":["BTC-EUR","ETH-EUR"],"name":"ticker"}]}"#
    );
    assert_eq!(
        subscribe_candles_message(&["BTC-EUR"], "1h"),
        r#"{"action":"subscribe","channels":[{"interval":["1h"],"markets":["BTC-EUR"],"name":"candles"}]}"#
    );
    assert_eq!(
        unsubscribe_message("book", &[]),
        r#"{"action":"unsubscribe","channels":[{"markets":[],"name":"book"}]}"#
    );
    assert_eq!(get_book_message("BTC-EUR"), r#"{"action":"getBook","market":"BTC-EUR"}"#);
    for message in [
        subscribe_ticker_24h_message(&["A"]),
        subscribe_trades_message(&["A"]),
        subscribe_book_message(&["A"]),
        subscribe_account_message(&["A"]),
    ] {
        let value: serde_json::Value = serde_json::from_str(&message).unwrap();
        assert_eq!(value["action"], "subscribe");
        assert_eq!(value["channels"][0]["markets"][0], "A");
    }
}

#[test]
fn authenticate_message_is_signed() {
    assert_eq!(authenticate_message(&ClientConfig::new(), 42), Err(Error::MissingCredentials));
    let config = ClientConfig::with_credentials("key", "sec");
    assert_eq!(
        authenticate_message(&config, 42).unwrap(),
        r#"{"action":"authenticate","key":"key","signature":"513f315520e2f3ceb4d619d3c27558dcce77977903cb2c8bb880190871818a72","timestamp":42,"window":"10000"}"#
    );
}

#[test]
fn connection_loop_decisions() {
    assert_eq!(next_loop_action(LoopInput::SendRequested), LoopAction::WriteText);
    assert_eq!(next_loop_action(LoopInput::CloseRequested), LoopAction::WriteClose);
    assert_eq!(next_loop_action(LoopInput::WriteSucceeded { closing: true }), LoopAction::Stop);
    assert_eq!(next_loop_action(LoopInput::WriteSucceeded { closing: false }), LoopAction::Continue);
    assert_eq!(next_loop_action(LoopInput::WriteFailed), LoopAction::Fail(WsConnectionOperation::Write));
    assert_eq!(next_loop_action(LoopInput::ReadFailed), LoopAction::Fail(WsConnectionOperation::Read));
    assert_eq!(next_loop_action(LoopInput::PingReceived), LoopAction::WritePong);
    assert_eq!(next_loop_action(LoopInput::TextReceived), LoopAction::Deliver);
    assert_eq!(next_loop_action(LoopInput::StreamEnded), LoopAction::Stop);
    assert_eq!(next_loop_action(LoopInput::CloseReceived), LoopAction::Stop);
    assert_eq!(next_loop_action(LoopInput::CommandsEnded), LoopAction::Stop);
    assert_eq!(next_loop_action(LoopInput::EventReceiverGone), LoopAction::Stop);
    assert_eq!(next_loop_action(LoopInput::OtherReceived), LoopAction::Continue);
}

#[test]
fn text_that_is_not_json_is_an_invalid_json_error() {
    for text in ["not json", "", "{\"event\":"] {
        let expected = serde_json::from_str::<serde_json::Value>(text).unwrap_err().to_string();
        match classify_text(text) {
            EventClass::Error { code, message } => {
                assert_eq!(code, -1);
                assert_eq!(message, format!("invalid json: {expected}"));
            }
            other => panic!("unexpected event: {other:?}"),
        }
    }
    assert!(matches!(classify_text("42"), EventClass::Unknown));
    assert!(matches!(classify_text(r#"{"errorCode":1.5}"#), EventClass::Unknown));
    assert!(matches!(classify_text(r#"{"event":["ticker"]}"#), EventClass::Unknown));
}

#[test]
fn payload_sources_of_each_class() {
    let sub = classify(r#"{"event":"subscribed","subscriptions":{"ticker":["BTC-EUR"]}}"#);
    assert_eq!(payload_source(&sub), PayloadSource::Member("subscriptions"));
    let unsub = classify(r#"{"event":"unsubscribed","subscriptions":{}}"#);
    assert_eq!(payload_source(&unsub), PayloadSource::Member("subscriptions"));
    let day = classify(r#"{"event":"ticker24h","data":[]}"#);
    assert_eq!(payload_source(&day), PayloadSource::Member("data"));
    let book = classify(r#"{"action":"getBook","response":{"market":"BTC-EUR"}}"#);
    assert_eq!(payload_source(&book), PayloadSource::Member("response"));
    let ticker = classify(r#"{"event":"ticker","market":"BTC-EUR"}"#);
    assert_eq!(payload_source(&ticker), PayloadSource::Whole);
    let auth = classify(r#"{"event":"authenticate"}"#);
    assert_eq!(payload_source(&auth), PayloadSource::Nothing);
    let error = classify(r#"{"errorCode":105,"error":"x"}"#);
    assert_eq!(payload_source(&error), PayloadSource::Nothing);
    assert_eq!(payload_source(&classify("[]")), PayloadSource::Whole);
}

#[test]
fn connection_run_closes_once() {
    let mut state = ConnectionState::Open;
    let mut closed = 0;
    for input in [
        LoopInput::TextReceived,
        LoopInput::EventDelivered,
        LoopInput::PingReceived,
        LoopInput::WriteSucceeded { closing: false },
        LoopInput::ReadFailed,
        LoopInput::TextReceived,
        LoopInput::StreamEnded,
    ] {
        let before = state;
        let (next, action) = next_step(state, input);
        if before == ConnectionState::Open && next == ConnectionState::Ended {
            closed += 1;
            assert_eq!(action, LoopAction::Fail(WsConnectionOperation::Read));
        }
        if before == ConnectionState::Ended {
            assert_eq!(action, LoopAction::Stop);
            assert_eq!(next, ConnectionState::Ended);
        }
        state = next;
    }
    assert_eq!(closed, 1);
    assert_eq!(state, ConnectionState::Ended);
}
