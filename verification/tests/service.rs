use gmocoin::backtest::{BarAgg, BarInterval, GetBarsRequest, GetOrderbookSnapshotRequest, GetTradesRequest, ReplayRequest};
use gmocoin::config::QueryLimits;
use gmocoin::json::{JsonArray, JsonNumber, JsonObject, JsonString, JsonValue};
use gmocoin::market::Msg;
use gmocoin::merge_sort::sort_events;
use gmocoin::replay::{append_row_events, replay_gaps, ReplayEvent, RowKind};
use gmocoin::rows::{row_f64, row_i64, row_value, RowError};
use gmocoin::text::{i64_parse_error, FloatParseError, IntParseError};
use gmocoin::service::{assemble_snapshot, bar_from_row, internal_error, snapshot_ts, trade_from_row, BacktestServiceImpl, Code};

fn to_json(v: &serde_json::Value) -> JsonValue {
    match v {
        serde_json::Value::Null => JsonValue::Null,
        serde_json::Value::Bool(b) => JsonValue::Bool(*b),
        serde_json::Value::Number(n) => JsonValue::Number(JsonNumber {
            as_i64: n.as_i64(),
            as_f64_bits: n.as_f64().map(f64::to_bits),
            millis_as_nanos: n.as_f64().map(|f| (f * 1_000_000.0) as i64),
            text: n.to_string(),
        }),
        serde_json::Value::String(s) => JsonValue::Str(JsonString {
            text: s.clone(),
            float_bits: s.parse::<f64>().ok().map(f64::to_bits),
        }),
        serde_json::Value::Array(a) => JsonValue::Array(JsonArray {
            items: a.iter().map(to_json).collect(),
            text: v.to_string(),
        }),
        serde_json::Value::Object(o) => JsonValue::Object(JsonObject {
            entries: o.iter().map(|(k, x)| (k.clone(), to_json(x))).collect(),
            text: v.to_string(),
        }),
    }
}

fn row(text: &str) -> JsonValue {
    to_json(&serde_json::from_str::<serde_json::Value>(text).expect("valid JSON"))
}

fn rows(texts: &[&str]) -> Vec<JsonValue> {
    texts.iter().map(|t| row(t)).collect()
}

#[test]
fn symbol_validation_rejects_lowercase() {
    assert!(BacktestServiceImpl::validate_symbol("BTC_JPY").is_ok());
    assert!(BacktestServiceImpl::validate_symbol("btc").is_err());
}

#[test]
fn interval_seconds_resolves_builtin() {
    let req = GetBarsRequest {
        symbol: "BTC_JPY".into(),
        interval: BarInterval::BarInterval5s.into(),
        aggregation: BarAgg::Ohlcv.into(),
        start_ns: 1,
        end_ns: 2,
        custom_interval_ns: 0,
    };
    assert_eq!(BacktestServiceImpl::interval_seconds(&req).unwrap(), 5);
}

fn bars(interval: BarInterval, custom: u64) -> GetBarsRequest {
    GetBarsRequest {
        symbol: "BTC_JPY".into(),
        interval: interval.into(),
        aggregation: BarAgg::Ohlcv.into(),
        start_ns: 1,
        end_ns: 2,
        custom_interval_ns: custom,
    }
}

#[test]
fn interval_seconds_cases() {
    assert_eq!(BacktestServiceImpl::interval_seconds(&bars(BarInterval::BarInterval1s, 0)).unwrap(), 1);
    assert_eq!(BacktestServiceImpl::interval_seconds(&bars(BarInterval::BarInterval1m, 0)).unwrap(), 60);
    assert_eq!(BacktestServiceImpl::interval_seconds(&bars(BarInterval::Custom, 3_500_000_000)).unwrap(), 3);
    assert_eq!(BacktestServiceImpl::interval_seconds(&bars(BarInterval::Custom, 10)).unwrap(), 1);
    let e = BacktestServiceImpl::interval_seconds(&bars(BarInterval::Custom, 0)).unwrap_err();
    assert_eq!(e.code, Code::InvalidArgument);
    assert_eq!(e.message, "custom interval must be > 0");
    let e = BacktestServiceImpl::interval_seconds(&bars(BarInterval::Unspecified, 0)).unwrap_err();
    assert_eq!(e.message, "interval must be specified");
    let mut unknown = bars(BarInterval::Unspecified, 0);
    unknown.interval = 42;
    assert!(BacktestServiceImpl::interval_seconds(&unknown).is_err());
}

#[test]
fn symbol_and_range_errors() {
    let e = BacktestServiceImpl::validate_symbol("").unwrap_err();
    assert_eq!(e.code, Code::InvalidArgument);
    assert_eq!(e.message, "symbol must not be empty");
    let e = BacktestServiceImpl::validate_symbol("BTC-JPY").unwrap_err();
    assert_eq!(e.message, "symbol must match [A-Z0-9_]+");
    assert!(BacktestServiceImpl::validate_symbol("ÄBC").is_err());
    assert_eq!(BacktestServiceImpl::validate_range(1, 1).unwrap(), (1, 1));
    assert_eq!(BacktestServiceImpl::validate_range(0, 5).unwrap_err().message, "timestamps must be positive");
    assert_eq!(BacktestServiceImpl::validate_range(5, -1).unwrap_err().message, "timestamps must be positive");
    assert_eq!(BacktestServiceImpl::validate_range(5, 4).unwrap_err().message, "end_ns must be >= start_ns");
}

#[test]
fn trades_query_text() {
    let req = GetTradesRequest { symbol: "BTC_JPY".into(), start_ns: 10, end_ns: 20 };
    let sql = BacktestServiceImpl::trades_query(&req).unwrap();
    assert_eq!(
        sql,
        "SELECT symbol, event_id, toUnixTimestamp64Nano(exchange_ts) AS exchange_ts_ns, toUnixTimestamp64Nano(received_at) AS received_at_ns, price, amount, side FROM gmo.trades WHERE symbol = 'BTC_JPY' AND exchange_ts >= fromUnixTimestamp64Nano(10) AND exchange_ts <= fromUnixTimestamp64Nano(20) ORDER BY exchange_ts FORMAT JSONEachRow"
    );
    let bad = GetTradesRequest { symbol: "x".into(), start_ns: 10, end_ns: 20 };
    assert_eq!(BacktestServiceImpl::trades_query(&bad).unwrap_err().code, Code::InvalidArgument);
}

#[test]
fn bars_query_text() {
    let mut req = bars(BarInterval::BarInterval1m, 0);
    req.start_ns = 1_000;
    req.end_ns = 9_000;
    let sql = BacktestServiceImpl::bars_query(&req).unwrap();
    assert!(sql.starts_with("SELECT symbol, bucket, toUnixTimestamp64Nano(bucket) AS start_ns, toUnixTimestamp64Nano(addSeconds(bucket, 60)) - 1 AS end_ns"));
    assert!(sql.contains("INTERVAL 60 SECOND"));
    assert!(sql.contains("WHERE symbol = 'BTC_JPY' AND exchange_ts >= fromUnixTimestamp64Nano(1000) AND exchange_ts <= fromUnixTimestamp64Nano(9000) )"));
    assert!(sql.ends_with("GROUP BY symbol, bucket ORDER BY bucket FORMAT JSONEachRow"));
    req.aggregation = 0;
    assert_eq!(BacktestServiceImpl::bars_query(&req).unwrap_err().message, "unsupported aggregation");
}

#[test]
fn snapshot_query_text_and_lookup() {
    let req = GetOrderbookSnapshotRequest { symbol: "ETH_JPY".into(), at_ns: 77 };
    assert_eq!(
        BacktestServiceImpl::snapshot_query(&req).unwrap(),
        "SELECT toUnixTimestamp64Nano(max(exchange_ts)) AS ts FROM gmo.orderbooks WHERE symbol = 'ETH_JPY' AND exchange_ts <= fromUnixTimestamp64Nano(77) FORMAT JSONEachRow"
    );
    let req = GetOrderbookSnapshotRequest { symbol: "ETH_JPY".into(), at_ns: 0 };
    assert_eq!(BacktestServiceImpl::snapshot_query(&req).unwrap_err().message, "timestamps must be positive");
    assert_eq!(snapshot_ts(Some(&row(r#"{"ts":"123"}"#))).unwrap(), 123);
    assert_eq!(snapshot_ts(Some(&row(r#"{"ts":0}"#))).unwrap_err().code, Code::NotFound);
    assert_eq!(snapshot_ts(None).unwrap_err().message, "no snapshot available before requested time");
    let e = snapshot_ts(Some(&row(r#"{"other":1}"#))).unwrap_err();
    assert_eq!(e.code, Code::Internal);
    assert_eq!(e.message, "missing integer field 'ts'");
}

#[test]
fn snapshot_is_assembled_by_side() {
    let r = rows(&[
        r#"{"side":"BID","price":1.5,"size":"2","exchange_ts_ns":"100"}"#,
        r#"{"side":"ASK","price":"1.6","size":3,"exchange_ts_ns":101}"#,
        r#"{"side":"BID","price":1.4,"size":1,"exchange_ts_ns":102}"#,
    ]);
    let s = assemble_snapshot("BTC_JPY", 99, &r).unwrap();
    assert_eq!(s.symbol, "BTC_JPY");
    assert_eq!(s.exchange_ts_ns, 102);
    assert_eq!(s.bids.len(), 2);
    assert_eq!(s.asks.len(), 1);
    assert_eq!(f64::from_bits(s.asks[0].price.bits), 1.6);
    let empty: Vec<JsonValue> = Vec::new();
    let e = assemble_snapshot("BTC_JPY", 99, &empty).unwrap_err();
    assert_eq!(e.code, Code::NotFound);
    assert_eq!(e.message, "orderbook snapshot empty");
    let bad = rows(&[r#"{"side":"MID","price":1,"size":1,"exchange_ts_ns":1}"#]);
    let e = assemble_snapshot("BTC_JPY", 99, &bad).unwrap_err();
    assert_eq!(e.code, Code::Internal);
    assert_eq!(e.message, "unexpected side MID");
}

#[test]
fn row_readers() {
    let r = row(r#"{"s":"x","i":"-12","j":7,"f":"2.5","g":1,"b":true}"#);
    assert_eq!(row_value(&r, "s").unwrap(), "x");
    assert!(matches!(row_value(&r, "i"), Ok(_)));
    assert!(matches!(row_value(&r, "j"), Err(RowError::MissingField("j"))));
    assert_eq!(row_i64(&r, "i").unwrap(), -12);
    assert_eq!(row_i64(&r, "j").unwrap(), 7);
    assert!(matches!(row_i64(&r, "s"), Err(RowError::InvalidInteger("s", IntParseError::InvalidDigit))));
    assert!(matches!(row_i64(&r, "b"), Err(RowError::MissingInteger("b"))));
    assert_eq!(f64::from_bits(row_f64(&r, "f").unwrap().bits), 2.5);
    assert_eq!(f64::from_bits(row_f64(&r, "g").unwrap().bits), 1.0);
    assert!(matches!(row_f64(&r, "s"), Err(RowError::InvalidFloat("s", FloatParseError::Invalid))));
    assert!(matches!(row_f64(&r, "zz"), Err(RowError::MissingFloat("zz"))));
    assert_eq!(internal_error(RowError::MissingArray("bids")).message, "missing array 'bids'");
    assert_eq!(internal_error(RowError::InvalidSizeObject).message, "invalid size object");
}

#[test]
fn trade_and_bar_rows() {
    let t = trade_from_row(&row(
        r#"{"event_id":"e1","symbol":"BTC_JPY","exchange_ts_ns":"5","received_at_ns":"6","price":10.5,"amount":"0.25","side":"BUY"}"#,
    ))
    .unwrap();
    assert_eq!(t.event_id, "e1");
    assert_eq!(t.exchange_ts_ns, 5);
    assert_eq!(f64::from_bits(t.amount.bits), 0.25);
    let e = trade_from_row(&row(r#"{"symbol":"BTC_JPY"}"#)).unwrap_err();
    assert_eq!(e.message, "missing field 'event_id'");
    let b = bar_from_row(&row(
        r#"{"symbol":"BTC_JPY","start_ns":"1","end_ns":"2","open":1,"high":4,"low":0.5,"close":"2","volume":10}"#,
    ))
    .unwrap();
    assert_eq!(b.start_ts_ns, 1);
    assert_eq!(b.end_ts_ns, 2);
    assert_eq!(f64::from_bits(b.high.bits), 4.0);
    assert_eq!(f64::from_bits(b.low.bits), 0.5);
    assert!(bar_from_row(&row(r#"{"symbol":"BTC_JPY","start_ns":"1"}"#)).is_err());
}

#[test]
fn aggregated_orderbook_rows() {
    let (s, received) = BacktestServiceImpl::parse_orderbook(&row(
        r#"{"symbol":"A","exchange_ts_ns":"3","received_at_ns":"4","bids":[[1,2]],"asks":[{"price":3,"size":4}]}"#,
    ))
    .unwrap();
    assert_eq!(received, 4);
    assert_eq!(s.bids.len(), 1);
    assert_eq!(f64::from_bits(s.asks[0].size.bits), 4.0);
    assert!(matches!(
        BacktestServiceImpl::parse_orderbook(&row(r#"{"bids":[["1",2]],"asks":[]}"#)),
        Err(RowError::InvalidPriceArray)
    ));
    assert!(matches!(
        BacktestServiceImpl::parse_orderbook(&row(r#"{"bids":[],"asks":[3]}"#)),
        Err(RowError::UnexpectedLevel)
    ));
}

#[test]
fn replay_merges_in_exchange_order_and_keeps_ties() {
    let trades = rows(&[
        r#"{"event_id":"t1","symbol":"A","exchange_ts_ns":10,"received_at_ns":1,"price":1,"amount":1,"side":"BUY"}"#,
        r#"{"event_id":"t2","symbol":"A","exchange_ts_ns":30,"received_at_ns":2,"price":1,"amount":1,"side":"BUY"}"#,
    ]);
    let tickers = rows(&[
        r#"{"symbol":"A","exchange_ts_ns":10,"received_at_ns":3,"best_bid":1,"best_ask":2,"last":1,"volume_24h":5}"#,
        r#"{"symbol":"A","exchange_ts_ns":20,"received_at_ns":4,"best_bid":1,"best_ask":2,"last":1,"volume_24h":5}"#,
    ]);
    let mut events: Vec<ReplayEvent> = Vec::new();
    append_row_events(&mut events, RowKind::Trade, &trades).unwrap();
    append_row_events(&mut events, RowKind::Ticker, &tickers).unwrap();
    let sorted = sort_events(events);
    let order: Vec<(i64, i64)> = sorted.iter().map(|e| (e.ts, e.message.received_at_ns)).collect();
    assert_eq!(order, vec![(10, 1), (10, 3), (20, 4), (30, 2)]);
    assert!(matches!(sorted[0].message.msg, Some(Msg::Trade(_))));
    assert!(matches!(sorted[1].message.msg, Some(Msg::Ticker(_))));
    assert_eq!(replay_gaps(&sorted), vec![0, 0, 10, 10]);
}

#[test]
fn replay_sort_handles_many_events() {
    let mut events: Vec<ReplayEvent> = Vec::new();
    let mut keys = Vec::new();
    for i in 0..200i64 {
        let ts = (i * 37) % 11;
        keys.push((ts, i));
        events.push(ReplayEvent {
            ts,
            message: gmocoin::market::MarketMessage { msg: None, received_at_ns: i },
        });
    }
    keys.sort_by_key(|k| k.0);
    let sorted = sort_events(events);
    let got: Vec<(i64, i64)> = sorted.iter().map(|e| (e.ts, e.message.received_at_ns)).collect();
    assert_eq!(got, keys);
}

#[test]
fn replay_checks_and_gaps() {
    let req = ReplayRequest { symbols: vec![], start_ns: 1, end_ns: 2 };
    assert_eq!(BacktestServiceImpl::validate_replay(&req).unwrap_err().message, "at least one symbol must be provided");
    let req = ReplayRequest { symbols: vec!["A".into()], start_ns: 3, end_ns: 2 };
    assert_eq!(BacktestServiceImpl::validate_replay(&req).unwrap_err().message, "end_ns must be >= start_ns");
    let req = ReplayRequest { symbols: vec!["A".into()], start_ns: 1, end_ns: 2 };
    assert_eq!(BacktestServiceImpl::validate_replay(&req).unwrap(), (1, 2));
    let events: Vec<ReplayEvent> = [i64::MIN, i64::MAX, 5, 5]
        .iter()
        .map(|ts| ReplayEvent { ts: *ts, message: gmocoin::market::MarketMessage { msg: None, received_at_ns: 0 } })
        .collect();
    assert_eq!(replay_gaps(&events), vec![0, i64::MAX, 0, 0]);
    let mut evs: Vec<ReplayEvent> = Vec::new();
    let bad = rows(&[r#"{"symbol":"A"}"#]);
    assert_eq!(append_row_events(&mut evs, RowKind::Ticker, &bad).unwrap_err().code, Code::Internal);
    assert!(BacktestServiceImpl::with_limits(QueryLimits::default()).limits.max_page_size == 50_000);
}

#[test]
fn unparsable_numbers_give_std_messages() {
    for text in [
        "", "+", "-", "12a", " 1", "1_0", "99999999999999999999", "-99999999999999999999",
        "9223372036854775808", "-9223372036854775809", "99999999999999999999x", "12x99999999999999999999",
    ] {
        let r = row(&format!("{{\"k\":{}}}", serde_json::to_string(text).unwrap()));
        let expected = text.parse::<i64>().unwrap_err().to_string();
        let e = row_i64(&r, "k").unwrap_err();
        assert_eq!(internal_error(e).message, expected, "integer text {text:?}");
    }
    for text in ["", "abc", "1.2.3", "--1"] {
        let r = row(&format!("{{\"k\":{}}}", serde_json::to_string(text).unwrap()));
        let expected = text.parse::<f64>().unwrap_err().to_string();
        let e = row_f64(&r, "k").unwrap_err();
        assert_eq!(internal_error(e).message, expected, "float text {text:?}");
    }
    assert_eq!(i64_parse_error(""), IntParseError::Empty);
    assert_eq!(i64_parse_error("-"), IntParseError::InvalidDigit);
    assert_eq!(i64_parse_error("9223372036854775808"), IntParseError::PosOverflow);
    assert_eq!(i64_parse_error("-9223372036854775809"), IntParseError::NegOverflow);
    assert_eq!(i64_parse_error("-9223372036854775808x"), IntParseError::InvalidDigit);
}
