use gmocoin::json::{JsonArray, JsonNumber, JsonObject, JsonString, JsonValue};
use gmocoin::market::Msg;
use gmocoin::ingest::{plan_payload, PayloadAction};
use gmocoin::model::{now_ns, nanos_to_i64, parse_ws_payload, rfc3339_timestamp, ChannelKind, ParseError};

fn to_json(v: &serde_json::Value) -> JsonValue {
    match v {
        serde_json::Value::Null => JsonValue::Null,
        serde_json::Value::Bool(b) => JsonValue::Bool(*b),
        serde_json::Value::Number(n) => JsonValue::Number(JsonNumber {
            as_i64: n.as_i64(),
            as_f64_bits: n.as_f64().map(f64::to_bits),
            millis_as_nanos: n.as_f64().map(|f| (f * 1_000_000.0) as i64),
            text: n.to_string(),
        }),
        serde_json::Value::String(s) => JsonValue::Str(JsonString {
            text: s.clone(),
            float_bits: s.parse::<f64>().ok().map(f64::to_bits),
        }),
        serde_json::Value::Array(a) => JsonValue::Array(JsonArray {
            items: a.iter().map(to_json).collect(),
            text: v.to_string(),
        }),
        serde_json::Value::Object(o) => JsonValue::Object(JsonObject {
            entries: o.iter().map(|(k, x)| (k.clone(), to_json(x))).collect(),
            text: v.to_string(),
        }),
    }
}

fn parse_text(json: &str, received_at_ns: i64) -> Result<Vec<gmocoin::model::ParsedMessage>, ParseError> {
    let value: serde_json::Value = serde_json::from_str(json).expect("valid JSON");
    parse_ws_payload(&to_json(&value), received_at_ns)
}

fn f(bits: gmocoin::market::Float64) -> f64 {
    f64::from_bits(bits.bits)
}

#[test]
fn parses_ticker_payload() {
    let json = r#"{
        "channel": "ticker",
        "data": {
            "symbol": "BTC_JPY",
            "bid": "5000000",
            "ask": "5001000",
            "last": "5000500",
            "volume": "12.5",
            "timestamp": 1700000000000
        }
    }"#;

    let messages = parse_text(json, 1700000000000000).expect("parse ticker");
    assert_eq!(messages.len(), 1);
    match &messages[0].message.msg {
        Some(Msg::Ticker(ticker)) => {
            assert_eq!(ticker.symbol, "BTC_JPY");
            assert_eq!(ticker.exchange_ts_ns, 1700000000000 * 1_000_000);
            assert!((f(ticker.best_bid) - 5_000_000.0).abs() < f64::EPSILON);
        }
        _ => panic!("unexpected message variant"),
    }
}

#[test]
fn parses_trade_payload_array() {
    let json = r#"{
        "channel": "trades",
        "symbol": "ETH_JPY",
        "data": [
            {
                "price": "300000",
                "size": "0.1",
                "side": "SELL",
                "timestamp": 1700000001000,
                "id": 123
            },
            {
                "price": "300500",
                "size": "0.2",
                "side": "BUY",
                "timestamp": "1700000002000",
                "tradeId": "tx-456"
            }
        ]
    }"#;

    let messages = parse_text(json, 1700000003000000).expect("parse trades");
    assert_eq!(messages.len(), 2);
    for parsed in messages {
        match parsed.message.msg.expect("trade") {
            Msg::Trade(trade) => {
                assert_eq!(trade.symbol, "ETH_JPY");
                assert!(f(trade.price) > 0.0);
            }
            _ => panic!("unexpected variant"),
        }
    }
}

#[test]
fn parses_orderbook_snapshot() {
    let json = r#"{
        "channel": "orderbooks",
        "symbol": "BTC_JPY",
        "data": {
            "symbol": "BTC_JPY",
            "timestamp": "2024-01-01T00:00:00Z",
            "bids": [["5000000", "0.3"]],
            "asks": [{"price": "5001000", "size": "0.4"}]
        }
    }"#;

    let messages = parse_text(json, 1704067200000000000).expect("parse orderbook");
    assert_eq!(messages.len(), 1);
    match messages[0].message.msg.as_ref().expect("snapshot") {
        Msg::ObSnapshot(snapshot) => {
            assert_eq!(snapshot.bids.len(), 1);
            assert_eq!(snapshot.asks.len(), 1);
        }
        _ => panic!("unexpected variant"),
    }
}

#[test]
fn trade_details_are_kept() {
    let json = r#"{"channel":"trades","symbol":"ETH_JPY","data":[
        {"price":"300000","size":"0.1","side":"SELL","timestamp":1700000001000,"id":123},
        {"price":300500,"amount":"0.2","timestamp":"1700000002000","tradeId":"tx-456"}]}"#;
    let messages = parse_text(json, 7).expect("parse trades");
    let trades: Vec<_> = messages
        .into_iter()
        .map(|m| {
            assert_eq!(m.channel, ChannelKind::Trades);
            assert_eq!(m.message.received_at_ns, 7);
            match m.message.msg {
                Some(Msg::Trade(t)) => t,
                _ => panic!("trade expected"),
            }
        })
        .collect();
    assert_eq!(trades[0].event_id, "123");
    assert_eq!(trades[0].side, "SELL");
    assert_eq!(trades[0].exchange_ts_ns, 1_700_000_001_000_000_000);
    assert_eq!(f(trades[0].amount), 0.1);
    assert_eq!(trades[1].event_id, "tx-456");
    assert_eq!(trades[1].side, "BUY");
    assert_eq!(f(trades[1].price), 300500.0);
    assert_eq!(f(trades[1].amount), 0.2);
    assert_eq!(trades[1].exchange_ts_ns, 1_700_000_002_000_000_000);
}

#[test]
fn trade_without_id_gets_derived_id() {
    let json = r#"{"channel":"trades","data":[{"symbol":"BTC_JPY","price":"2","size":"3","timestamp":5}]}"#;
    let messages = parse_text(json, 0).expect("parse trades");
    match &messages[0].message.msg {
        Some(Msg::Trade(t)) => {
            let bits = 2.0f64.to_bits() ^ 3.0f64.to_bits();
            assert_eq!(t.event_id, format!("BTC_JPY-5000000-{}", bits));
            assert_eq!(t.symbol, "BTC_JPY");
        }
        _ => panic!("trade expected"),
    }
}

#[test]
fn trade_timestamp_falls_back_to_payload() {
    let json = r#"{"channel":"trades","symbol":"X","timestamp":9,"data":[{"price":1,"size":1,"id":true}]}"#;
    let messages = parse_text(json, 0).expect("parse trades");
    match &messages[0].message.msg {
        Some(Msg::Trade(t)) => {
            assert_eq!(t.exchange_ts_ns, 9_000_000);
            assert_eq!(t.event_id, "true");
        }
        _ => panic!("trade expected"),
    }
}

#[test]
fn ticker_accepts_alternate_names_and_plain_body() {
    let json = r#"{"channel":"ticker","symbol":"BTC_JPY","bestBid":"1.5","bestAsk":2,"lastTradedPrice":"3","volume24h":"4","timestamp":"-2"}"#;
    let messages = parse_text(json, 0).expect("parse ticker");
    match &messages[0].message.msg {
        Some(Msg::Ticker(t)) => {
            assert_eq!(f(t.best_bid), 1.5);
            assert_eq!(f(t.best_ask), 2.0);
            assert_eq!(f(t.last), 3.0);
            assert_eq!(f(t.volume_24h), 4.0);
            assert_eq!(t.exchange_ts_ns, -2_000_000);
        }
        _ => panic!("ticker expected"),
    }
}

#[test]
fn fractional_millisecond_timestamp() {
    let json = r#"{"channel":"ticker","data":{"symbol":"A","bid":1,"ask":1,"last":1,"volume":1,"timestamp":1.5}}"#;
    let messages = parse_text(json, 0).expect("parse ticker");
    match &messages[0].message.msg {
        Some(Msg::Ticker(t)) => assert_eq!(t.exchange_ts_ns, 1_500_000),
        _ => panic!("ticker expected"),
    }
}

#[test]
fn unknown_channel_gives_nothing() {
    let messages = parse_text(r#"{"channel":"status","data":{"status":0}}"#, 0).expect("ok");
    assert!(messages.is_empty());
}

#[test]
fn parse_errors() {
    assert!(matches!(parse_text(r#"{"data":{}}"#, 0), Err(ParseError::MissingChannel)));
    assert!(matches!(parse_text(r#"{"channel":5}"#, 0), Err(ParseError::MissingChannel)));
    assert!(matches!(parse_text(r#"{"channel":"ticker","data":{"bid":1}}"#, 0), Err(ParseError::TickerMissingSymbol)));
    assert!(matches!(parse_text(r#"{"channel":"trades","data":{}}"#, 0), Err(ParseError::TradeDataNotArray)));
    assert!(matches!(parse_text(r#"{"channel":"trades","data":[]}"#, 0), Err(ParseError::TradeMissingSymbol)));
    assert!(matches!(
        parse_text(r#"{"channel":"trades","symbol":"A","data":[{"size":1,"timestamp":1}]}"#, 0),
        Err(ParseError::MissingNumber)
    ));
    assert!(matches!(
        parse_text(r#"{"channel":"trades","symbol":"A","data":[{"price":"abc","size":1,"timestamp":1}]}"#, 0),
        Err(ParseError::InvalidNumber)
    ));
    assert!(matches!(
        parse_text(r#"{"channel":"trades","symbol":"A","data":[{"price":true,"size":1,"timestamp":1}]}"#, 0),
        Err(ParseError::UnexpectedNumericType)
    ));
    assert!(matches!(
        parse_text(r#"{"channel":"trades","symbol":"A","data":[{"price":1,"size":1}]}"#, 0),
        Err(ParseError::MissingTimestamp)
    ));
    assert!(matches!(
        parse_text(r#"{"channel":"trades","symbol":"A","data":[{"price":1,"size":1,"timestamp":"soon"}]}"#, 0),
        Err(ParseError::InvalidTimestamp)
    ));
    assert!(matches!(
        parse_text(r#"{"channel":"trades","symbol":"A","data":[{"price":1,"size":1,"timestamp":[1]}]}"#, 0),
        Err(ParseError::UnsupportedTimestampType)
    ));
    assert!(matches!(
        parse_text(r#"{"channel":"trades","symbol":"A","data":[{"price":1,"size":1,"timestamp":9223372036854775807}]}"#, 0),
        Err(ParseError::TimestampOutOfRange)
    ));
    assert!(matches!(parse_text(r#"{"channel":"orderbooks","data":[1]}"#, 0), Err(ParseError::OrderbookNotObject)));
    assert!(matches!(
        parse_text(r#"{"channel":"orderbooks","data":{"bids":[],"asks":[]}}"#, 0),
        Err(ParseError::OrderbookMissingSymbol)
    ));
    assert!(matches!(
        parse_text(r#"{"channel":"orderbooks","symbol":"A","data":{"asks":[]}}"#, 0),
        Err(ParseError::LevelsMissing)
    ));
    assert!(matches!(
        parse_text(r#"{"channel":"orderbooks","symbol":"A","data":{"bids":[[1]],"asks":[]}}"#, 0),
        Err(ParseError::UnrecognisedLevel)
    ));
    assert!(matches!(
        parse_text(r#"{"channel":"ticker","data":[1]}"#, 0),
        Err(ParseError::TickerMissingSymbol)
    ));
}

#[test]
fn orderbook_reads_symbol_and_time_from_envelope() {
    let json = r#"{"channel":"orderbooks","symbol":"ETH_JPY","timestamp":3,
        "bids":[["1","2"],{"price":3,"size":"4"}],"asks":[]}"#;
    let messages = parse_text(json, 0).expect("parse orderbook");
    assert_eq!(messages[0].symbol, "ETH_JPY");
    match &messages[0].message.msg {
        Some(Msg::ObSnapshot(s)) => {
            assert_eq!(s.exchange_ts_ns, 3_000_000);
            assert_eq!(s.bids.len(), 2);
            assert_eq!(f(s.bids[1].price), 3.0);
            assert_eq!(f(s.bids[1].size), 4.0);
            assert!(s.asks.is_empty());
        }
        _ => panic!("snapshot expected"),
    }
}

#[test]
fn rfc3339_timestamp_is_read_in_nanoseconds() {
    let json = r#"{"channel":"orderbooks","data":{"symbol":"A","timestamp":"2024-01-01T00:00:00.5+09:00","bids":[],"asks":[]}}"#;
    let messages = parse_text(json, 0).expect("parse orderbook");
    match &messages[0].message.msg {
        Some(Msg::ObSnapshot(s)) => assert_eq!(s.exchange_ts_ns, 1_704_034_800_500_000_000),
        _ => panic!("snapshot expected"),
    }
}

#[test]
fn rfc3339_reading_decides_the_timestamp() {
    assert_eq!(rfc3339_timestamp(Some(1_704_067_200_000_000_000)), Ok(1_704_067_200_000_000_000));
    assert_eq!(rfc3339_timestamp(Some(-5)), Ok(-5));
    assert_eq!(rfc3339_timestamp(None), Err(ParseError::InvalidTimestamp));
}

#[test]
fn channel_names_round_trip() {
    for k in [ChannelKind::Trades, ChannelKind::Ticker, ChannelKind::Orderbooks] {
        assert_eq!(ChannelKind::from_name(k.as_str()), Some(k));
    }
    assert_eq!(ChannelKind::Trades.as_str(), "trades");
    assert_eq!(ChannelKind::Ticker.as_str(), "ticker");
    assert_eq!(ChannelKind::Orderbooks.as_str(), "orderbooks");
    assert_eq!(ChannelKind::from_name("Trades"), None);
}

#[test]
fn clock_readings() {
    assert!(now_ns() > 1_600_000_000_000_000_000);
    assert_eq!(nanos_to_i64(None), 0);
    assert_eq!(nanos_to_i64(Some(5)), 5);
    assert_eq!(nanos_to_i64(Some(u64::MAX as u128)), -1);
}

#[test]
fn text_frames_become_publications() {
    let topics = gmocoin::model::KafkaTopics {
        trades: "t.trades".to_string(),
        ticker: "t.ticker".to_string(),
        orderbook: "t.book".to_string(),
    };
    let json = r#"{"channel":"trades","symbol":"ETH_JPY","data":[
        {"price":"1","size":"2","timestamp":1700000001000,"id":1},
        {"price":"3","size":"4","timestamp":1700000002000,"id":2}]}"#;
    match plan_payload(&topics, parse_text(json, 42)) {
        PayloadAction::Publish(ps) => {
            assert_eq!(ps.len(), 2);
            assert_eq!(ps[0].topic, "t.trades");
            assert_eq!(ps[0].key, "ETH_JPY");
            assert_eq!(ps[0].channel, ChannelKind::Trades);
            assert_eq!(ps[0].exchange_ts_ns, 1_700_000_001_000_000_000);
            assert_eq!(ps[1].exchange_ts_ns, 1_700_000_002_000_000_000);
            assert_eq!(ps[1].message.received_at_ns, 42);
        }
        PayloadAction::CountParseError(_) => panic!("publications expected"),
    }
    let json = r#"{"channel":"ticker","data":{"symbol":"BTC_JPY","bid":"1","ask":"2","last":"3","volume":"4","timestamp":5}}"#;
    match plan_payload(&topics, parse_text(json, 0)) {
        PayloadAction::Publish(ps) => assert_eq!(ps[0].topic, "t.ticker"),
        PayloadAction::CountParseError(_) => panic!("publication expected"),
    }
    assert!(matches!(
        plan_payload(&topics, Err(ParseError::InvalidJson)),
        PayloadAction::CountParseError(ParseError::InvalidJson)
    ));
    assert!(matches!(
        plan_payload(&topics, parse_text(r#"{"data":1}"#, 0)),
        PayloadAction::CountParseError(ParseError::MissingChannel)
    ));
}
