//! WebSocket payload parsing: GMO Coin channel messages to market messages.

use vstd::prelude::*;
use std::time::Duration;
use crate::json::{
    as_array, as_object, as_str, deref_opt, entries_get, entries_lookup, get, or_opt, spec_as_array,
    spec_as_object, spec_as_str, spec_get, JsonValue,
};
use crate::market::{
    Float64, MarketMessage, MarketMessageView, Msg, MsgView, OrderbookLevel, OrderbookSnapshot,
    SnapshotView, Ticker, TickerView, Trade, TradeView,
};
use crate::text::{dec_int, dec_nat, owned, parse_i64, push_char, push_i64, push_u64, spec_parse_i64, str_eq};

verus! {

/// Kafka topic names.
#[derive(Debug, Clone)]
pub struct KafkaTopics {
    /// Trades topic.
    pub trades: String,
    /// Ticker topic.
    pub ticker: String,
    /// Orderbook snapshots topic.
    pub orderbook: String,
}

/// Subscription channel kinds offered by the GMO Coin API.
#[derive(Debug, Clone, Copy, PartialEq, Eq, Structural)]
pub enum ChannelKind {
    /// Trade executions.
    Trades,
    /// Top-of-book ticker updates.
    Ticker,
    /// Order book depth snapshots.
    Orderbooks,
}

/// The canonical name of a channel.
pub open spec fn channel_name(k: ChannelKind) -> Seq<char> {
    match k {
        ChannelKind::Trades => "trades"@,
        ChannelKind::Ticker => "ticker"@,
        ChannelKind::Orderbooks => "orderbooks"@,
    }
}

/// The channel a name stands for, if any.
pub open spec fn spec_channel_from_name(name: Seq<char>) -> Option<ChannelKind> {
    if name == "trades"@ {
        Some(ChannelKind::Trades)
    } else if name == "ticker"@ {
        Some(ChannelKind::Ticker)
    } else if name == "orderbooks"@ {
        Some(ChannelKind::Orderbooks)
    } else {
        None
    }
}

impl ChannelKind {
    /// Returns the canonical string name for this channel.
    pub fn as_str(self) -> (s: &'static str)
        ensures
            s@ == channel_name(self),
    {
        match self {
            ChannelKind::Trades => "trades",
            ChannelKind::Ticker => "ticker",
            ChannelKind::Orderbooks => "orderbooks",
        }
    }

    /// The channel named by `name` (`"trades"`, `"ticker"` or `"orderbooks"`).
    pub fn from_name(name: &str) -> (k: Option<ChannelKind>)
        ensures
            k == spec_channel_from_name(name@),
    {
        if str_eq(name, "trades") {
            Some(ChannelKind::Trades)
        } else if str_eq(name, "ticker") {
            Some(ChannelKind::Ticker)
        } else if str_eq(name, "orderbooks") {
            Some(ChannelKind::Orderbooks)
        } else {
            None
        }
    }
}

/// Reading a channel's name gives back that channel: the names are distinct.
pub proof fn lemma_channel_name_roundtrip(k: ChannelKind)
    ensures
        spec_channel_from_name(channel_name(k)) == Some(k),
{
    reveal_strlit("trades");
    reveal_strlit("ticker");
    reveal_strlit("orderbooks");
    assert("trades"@ != "ticker"@) by {
        assert("trades"@[1] != "ticker"@[1]);
    }
    assert("trades"@ != "orderbooks"@) by {
        assert("trades"@.len() != "orderbooks"@.len());
    }
    assert("ticker"@ != "orderbooks"@) by {
        assert("ticker"@.len() != "orderbooks"@.len());
    }
}

/// Parsed market message enriched with channel metadata.
#[derive(Debug, Clone)]
pub struct ParsedMessage {
    /// Channel identifier.
    pub channel: ChannelKind,
    /// Trading symbol (e.g. BTC_JPY).
    pub symbol: String,
    /// The market message ready for publication.
    pub message: MarketMessage,
}

pub struct ParsedView {
    pub channel: ChannelKind,
    pub symbol: Seq<char>,
    pub message: MarketMessageView,
}

impl View for ParsedMessage {
    type V = ParsedView;

    open spec fn view(&self) -> ParsedView {
        ParsedView { channel: self.channel, symbol: self.symbol@, message: self.message@ }
    }
}

/// The views of a sequence of parsed messages.
pub open spec fn parsed_views(v: Seq<ParsedMessage>) -> Seq<ParsedView> {
    v.map_values(|m: ParsedMessage| m@)
}

/// Why a payload was rejected.
#[derive(Debug, Clone, Copy, PartialEq, Eq, Structural)]
pub enum ParseError {
    /// The payload is not JSON text.
    InvalidJson,
    /// The payload has no string `channel` member.
    MissingChannel,
    /// A ticker payload is neither an object nor holds an object `data`.
    TickerBodyNotObject,
    /// A ticker payload has no string `symbol`.
    TickerMissingSymbol,
    /// A trades payload has no array `data`.
    TradeDataNotArray,
    /// A trades payload names no symbol.
    TradeMissingSymbol,
    /// An order book payload body is not an object.
    OrderbookNotObject,
    /// An order book payload names no symbol.
    OrderbookMissingSymbol,
    /// An order book side is not an array.
    LevelsMissing,
    /// An order book level is neither a pair nor an object.
    UnrecognisedLevel,
    /// A numeric field is absent.
    MissingNumber,
    /// A numeric field is a string that is not a float literal.
    InvalidNumber,
    /// A numeric field is a number without a floating value.
    NumberWithoutFloat,
    /// A numeric field is neither a string nor a number.
    UnexpectedNumericType,
    /// A timestamp is absent.
    MissingTimestamp,
    /// A timestamp string is neither integer milliseconds nor an RFC 3339 instant
    /// representable in nanoseconds.
    InvalidTimestamp,
    /// Integer milliseconds whose nanoseconds do not fit in an `i64`.
    TimestampOutOfRange,
    /// A timestamp is neither a number nor a string.
    UnsupportedTimestampType,
}

/// `parse_f64`: a numeric field given as a number or as a decimal string.
pub open spec fn spec_parse_f64(v: Option<JsonValue>) -> Result<u64, ParseError> {
    match v {
        None => Err(ParseError::MissingNumber),
        Some(JsonValue::Str(s)) => match s.float_bits {
            Some(b) => Ok(b),
            None => Err(ParseError::InvalidNumber),
        },
        Some(JsonValue::Number(n)) => match n.as_f64_bits {
            Some(b) => Ok(b),
            None => Err(ParseError::NumberWithoutFloat),
        },
        Some(_) => Err(ParseError::UnexpectedNumericType),
    }
}

/// Milliseconds to nanoseconds, when the result fits in an `i64`.
pub open spec fn spec_millis_to_nanos(ms: i64) -> Result<i64, ParseError> {
    if i64::MIN <= ms * 1_000_000 && ms * 1_000_000 <= i64::MAX {
        Ok((ms * 1_000_000) as i64)
    } else {
        Err(ParseError::TimestampOutOfRange)
    }
}

/// Name for what chrono's reading of a text as a UTC instant gives, in
/// nanoseconds since the epoch: absent when chrono does not read the text as
/// an instant or when its nanoseconds do not fit in an `i64`.  Chrono reads
/// RFC 3339 with some relaxations (a space may stand in place of the `T`).
/// It covers two chained chrono calls: the `FromStr` parse of a
/// `DateTime<Utc>`, then `timestamp_nanos_opt`.
pub uninterp spec fn rfc3339_utc_nanos(s: Seq<char>) -> Option<i64>;

/// `parse_timestamp`: integer milliseconds (number or string), fractional
/// milliseconds, or an RFC 3339 instant, in nanoseconds.
pub open spec fn spec_parse_timestamp(v: Option<JsonValue>) -> Result<i64, ParseError> {
    match v {
        None => Err(ParseError::MissingTimestamp),
        Some(JsonValue::Number(n)) => match n.as_i64 {
            Some(ms) => spec_millis_to_nanos(ms),
            None => match n.millis_as_nanos {
                Some(ns) => Ok(ns),
                None => Err(ParseError::UnsupportedTimestampType),
            },
        },
        Some(JsonValue::Str(s)) => match spec_parse_i64(s.text@) {
            Some(ms) => spec_millis_to_nanos(ms),
            None => match rfc3339_utc_nanos(s.text@) {
                Some(ns) => Ok(ns),
                None => Err(ParseError::InvalidTimestamp),
            },
        },
        Some(_) => Err(ParseError::UnsupportedTimestampType),
    }
}

/// `value_to_string`: the string itself, or the JSON text of any other value.
pub open spec fn spec_value_to_string(v: JsonValue) -> Seq<char> {
    match v {
        JsonValue::Str(s) => s.text@,
        JsonValue::Number(n) => n.text@,
        JsonValue::Bool(b) => if b {
            "true"@
        } else {
            "false"@
        },
        JsonValue::Null => "null"@,
        JsonValue::Array(a) => a.text@,
        JsonValue::Object(o) => o.text@,
    }
}

/// Calls chrono's parser for `DateTime<Utc>` (RFC 3339, relaxed as chrono
/// relaxes it) and reads the instant in nanoseconds (`timestamp_nanos_opt`).
/// The contract names the result; chrono's grammar is not restated.
#[verifier::external_body]
fn parse_utc_nanos(s: &str) -> (r: Option<i64>)
    ensures
        r == rfc3339_utc_nanos(s@),
{
    match s.parse::<chrono::DateTime<chrono::Utc>>() {
        Ok(dt) => dt.timestamp_nanos_opt(),
        Err(_) => None,
    }
}

fn bits_result(r: Result<u64, ParseError>) -> (out: Result<Float64, ParseError>)
    ensures
        match out {
            Ok(f) => r == Ok::<u64, ParseError>(f.bits),
            Err(e) => r == Err::<u64, ParseError>(e),
        },
{
    match r {
        Ok(b) => Ok(Float64 { bits: b }),
        Err(e) => Err(e),
    }
}

/// Reads a numeric field given as a number or a decimal string.
pub fn parse_f64(v: Option<&JsonValue>) -> (r: Result<Float64, ParseError>)
    ensures
        match r {
            Ok(f) => spec_parse_f64(deref_opt(v)) == Ok::<u64, ParseError>(f.bits),
            Err(e) => spec_parse_f64(deref_opt(v)) == Err::<u64, ParseError>(e),
        },
{
    let r: Result<u64, ParseError> = match v {
        None => Err(ParseError::MissingNumber),
        Some(JsonValue::Str(s)) => match s.float_bits {
            Some(b) => Ok(b),
            None => Err(ParseError::InvalidNumber),
        },
        Some(JsonValue::Number(n)) => match n.as_f64_bits {
            Some(b) => Ok(b),
            None => Err(ParseError::NumberWithoutFloat),
        },
        Some(_) => Err(ParseError::UnexpectedNumericType),
    };
    bits_result(r)
}

fn millis_to_nanos(ms: i64) -> (r: Result<i64, ParseError>)
    ensures
        r == spec_millis_to_nanos(ms),
{
    match ms.checked_mul(1_000_000) {
        Some(ns) => Ok(ns),
        None => Err(ParseError::TimestampOutOfRange),
    }
}

/// Reads a timestamp in nanoseconds from milliseconds or an RFC 3339 instant.
pub fn parse_timestamp(v: Option<&JsonValue>) -> (r: Result<i64, ParseError>)
    ensures
        r == spec_parse_timestamp(deref_opt(v)),
{
    match v {
        None => Err(ParseError::MissingTimestamp),
        Some(JsonValue::Number(n)) => match n.as_i64 {
            Some(ms) => millis_to_nanos(ms),
            None => match n.millis_as_nanos {
                Some(ns) => Ok(ns),
                None => Err(ParseError::UnsupportedTimestampType),
            },
        },
        Some(JsonValue::Str(s)) => match parse_i64(s.text.as_str()) {
            Some(ms) => millis_to_nanos(ms),
            None => rfc3339_timestamp(parse_utc_nanos(s.text.as_str())),
        },
        Some(_) => Err(ParseError::UnsupportedTimestampType),
    }
}

/// The timestamp of a text that is not integer milliseconds, from its RFC 3339
/// reading in nanoseconds: that instant, or `InvalidTimestamp` when there is none.
pub fn rfc3339_timestamp(nanos: Option<i64>) -> (r: Result<i64, ParseError>)
    ensures
        r == match nanos {
            Some(ns) => Ok::<i64, ParseError>(ns),
            None => Err(ParseError::InvalidTimestamp),
        },
{
    match nanos {
        Some(ns) => Ok(ns),
        None => Err(ParseError::InvalidTimestamp),
    }
}

/// The text of a value used as an identifier.
pub fn value_to_string(v: &JsonValue) -> (s: String)
    ensures
        s@ == spec_value_to_string(*v),
{
    match v {
        JsonValue::Str(s) => s.text.clone(),
        JsonValue::Number(n) => n.text.clone(),
        JsonValue::Bool(b) => if *b {
            owned("true")
        } else {
            owned("false")
        },
        JsonValue::Null => owned("null"),
        JsonValue::Array(a) => a.text.clone(),
        JsonValue::Object(o) => o.text.clone(),
    }
}


/// The message for one ticker update.
pub open spec fn ticker_view(
    sym: Seq<char>,
    ts: i64,
    bid: u64,
    ask: u64,
    last: u64,
    volume: u64,
    received: i64,
) -> ParsedView {
    ParsedView {
        channel: ChannelKind::Ticker,
        symbol: sym,
        message: MarketMessageView {
            msg: Some(
                MsgView::Ticker(
                    TickerView {
                        symbol: sym,
                        exchange_ts_ns: ts,
                        best_bid: bid,
                        best_ask: ask,
                        last,
                        volume_24h: volume,
                    },
                ),
            ),
            received_at_ns: received,
        },
    }
}

/// The members a ticker is read from: those of an object `data`, else those
/// of the payload itself.
pub open spec fn spec_ticker_body(value: JsonValue) -> Option<Seq<(String, JsonValue)>> {
    match spec_as_object(spec_get(value, "data"@)) {
        Some(es) => Some(es),
        None => spec_as_object(Some(value)),
    }
}

/// `parse_ticker`: one ticker message, from `bid`/`bestBid`, `ask`/`bestAsk`,
/// `last`/`lastTradedPrice`, `volume`/`volume24h` and `timestamp`.
pub open spec fn spec_parse_ticker(value: JsonValue, received: i64) -> Result<Seq<ParsedView>, ParseError> {
    match spec_ticker_body(value) {
        None => Err(ParseError::TickerBodyNotObject),
        Some(obj) => match spec_as_str(entries_get(obj, "symbol"@)) {
            None => Err(ParseError::TickerMissingSymbol),
            Some(sym) => match spec_parse_f64(or_opt(entries_get(obj, "bid"@), entries_get(obj, "bestBid"@))) {
                Err(e) => Err(e),
                Ok(bid) => match spec_parse_f64(or_opt(entries_get(obj, "ask"@), entries_get(obj, "bestAsk"@))) {
                    Err(e) => Err(e),
                    Ok(ask) => match spec_parse_f64(or_opt(entries_get(obj, "last"@), entries_get(obj, "lastTradedPrice"@))) {
                        Err(e) => Err(e),
                        Ok(last) => match spec_parse_f64(or_opt(entries_get(obj, "volume"@), entries_get(obj, "volume24h"@))) {
                            Err(e) => Err(e),
                            Ok(volume) => match spec_parse_timestamp(entries_get(obj, "timestamp"@)) {
                                Err(e) => Err(e),
                                Ok(ts) => Ok(seq![ticker_view(sym, ts, bid, ask, last, volume, received)]),
                            },
                        },
                    },
                },
            },
        },
    }
}

fn opt_or<'a>(a: Option<&'a JsonValue>, b: Option<&'a JsonValue>) -> (r: Option<&'a JsonValue>)
    ensures
        deref_opt(r) == or_opt(deref_opt(a), deref_opt(b)),
{
    if a.is_some() {
        a
    } else {
        b
    }
}

fn ticker_body<'a>(value: &'a JsonValue) -> (r: Option<&'a Vec<(String, JsonValue)>>)
    ensures
        match r {
            Some(es) => spec_ticker_body(*value) == Some(es@),
            None => spec_ticker_body(*value) is None,
        },
{
    match as_object(get(value, "data")) {
        Some(es) => Some(es),
        None => as_object(Some(value)),
    }
}

fn parse_ticker(value: &JsonValue, received_at_ns: i64) -> (r: Result<Vec<ParsedMessage>, ParseError>)
    ensures
        match r {
            Ok(v) => spec_parse_ticker(*value, received_at_ns) == Ok::<Seq<ParsedView>, ParseError>(parsed_views(v@)),
            Err(e) => spec_parse_ticker(*value, received_at_ns) == Err::<Seq<ParsedView>, ParseError>(e),
        },
{
    let obj = match ticker_body(value) {
        Some(o) => o,
        None => return Err(ParseError::TickerBodyNotObject),
    };
    let symbol = match as_str(entries_lookup(obj, "symbol")) {
        Some(s) => s,
        None => return Err(ParseError::TickerMissingSymbol),
    };
    let best_bid = parse_f64(opt_or(entries_lookup(obj, "bid"), entries_lookup(obj, "bestBid")))?;
    let best_ask = parse_f64(opt_or(entries_lookup(obj, "ask"), entries_lookup(obj, "bestAsk")))?;
    let last = parse_f64(opt_or(entries_lookup(obj, "last"), entries_lookup(obj, "lastTradedPrice")))?;
    let volume = parse_f64(opt_or(entries_lookup(obj, "volume"), entries_lookup(obj, "volume24h")))?;
    let exchange_ts_ns = parse_timestamp(entries_lookup(obj, "timestamp"))?;
    let ticker = Ticker {
        symbol: symbol.clone(),
        exchange_ts_ns,
        best_bid,
        best_ask,
        last,
        volume_24h: volume,
    };
    let message = MarketMessage { msg: Some(Msg::Ticker(ticker)), received_at_ns };
    let mut out: Vec<ParsedMessage> = Vec::new();
    out.push(ParsedMessage { channel: ChannelKind::Ticker, symbol: symbol.clone(), message });
    assert(parsed_views(out@) =~= seq![
        ticker_view(symbol@, exchange_ts_ns, best_bid.bits, best_ask.bits, last.bits, volume.bits, received_at_ns),
    ]);
    Ok(out)
}


/// The identifier given to a trade that carries none:
/// `"{symbol}-{exchange_ts_ns}-{price bits ^ amount bits}"`.
pub open spec fn fallback_event_id(sym: Seq<char>, ts: i64, bits: u64) -> Seq<char> {
    sym + seq!['-'] + dec_int(ts as int) + seq!['-'] + dec_nat(bits as nat)
}

/// The symbol of a trades payload: its own `symbol`, else that of its first trade.
pub open spec fn spec_trade_symbol(value: JsonValue, data: Seq<JsonValue>) -> Option<Seq<char>> {
    match spec_as_str(spec_get(value, "symbol"@)) {
        Some(s) => Some(s),
        None => if data.len() > 0 {
            spec_as_str(spec_get(data[0], "symbol"@))
        } else {
            None
        },
    }
}

/// The message for one trade entry of a trades payload.
pub open spec fn spec_trade_entry(value: JsonValue, entry: JsonValue, sym: Seq<char>, received: i64) -> Result<ParsedView, ParseError> {
    match spec_parse_f64(spec_get(entry, "price"@)) {
        Err(e) => Err(e),
        Ok(price) => match spec_parse_f64(or_opt(spec_get(entry, "size"@), spec_get(entry, "amount"@))) {
            Err(e) => Err(e),
            Ok(amount) => match spec_parse_timestamp(
                or_opt(spec_get(entry, "timestamp"@), or_opt(spec_get(entry, "timestampms"@), spec_get(value, "timestamp"@))),
            ) {
                Err(e) => Err(e),
                Ok(ts) => {
                    let side = match spec_as_str(spec_get(entry, "side"@)) {
                        Some(s) => s,
                        None => "BUY"@,
                    };
                    let id = match or_opt(spec_get(entry, "id"@), or_opt(spec_get(entry, "tradeId"@), spec_get(entry, "transaction_id"@))) {
                        Some(v) => spec_value_to_string(v),
                        None => fallback_event_id(sym, ts, price ^ amount),
                    };
                    Ok(ParsedView {
                        channel: ChannelKind::Trades,
                        symbol: sym,
                        message: MarketMessageView {
                            msg: Some(MsgView::Trade(TradeView {
                                event_id: id,
                                symbol: sym,
                                exchange_ts_ns: ts,
                                price,
                                amount,
                                side,
                            })),
                            received_at_ns: received,
                        },
                    })
                },
            },
        },
    }
}

/// The messages for the first `k` trade entries, or the first error among them.
pub open spec fn spec_trades_upto(value: JsonValue, data: Seq<JsonValue>, sym: Seq<char>, received: i64, k: nat) -> Result<Seq<ParsedView>, ParseError>
    decreases k,
{
    if k == 0 {
        Ok(Seq::empty())
    } else {
        match spec_trades_upto(value, data, sym, received, (k - 1) as nat) {
            Err(e) => Err(e),
            Ok(prev) => match spec_trade_entry(value, data[k - 1], sym, received) {
                Err(e) => Err(e),
                Ok(m) => Ok(prev.push(m)),
            },
        }
    }
}

/// `parse_trades`: one message per entry of the `data` array, in order.
pub open spec fn spec_parse_trades(value: JsonValue, received: i64) -> Result<Seq<ParsedView>, ParseError> {
    match spec_as_array(spec_get(value, "data"@)) {
        None => Err(ParseError::TradeDataNotArray),
        Some(data) => match spec_trade_symbol(value, data) {
            None => Err(ParseError::TradeMissingSymbol),
            Some(sym) => spec_trades_upto(value, data, sym, received, data.len()),
        },
    }
}

proof fn lemma_trades_error_sticks(value: JsonValue, data: Seq<JsonValue>, sym: Seq<char>, received: i64, k: nat, n: nat)
    requires
        k <= n,
        spec_trades_upto(value, data, sym, received, k) is Err,
    ensures
        spec_trades_upto(value, data, sym, received, n) == spec_trades_upto(value, data, sym, received, k),
    decreases n - k,
{
    if k < n {
        lemma_trades_error_sticks(value, data, sym, received, k, (n - 1) as nat);
    }
}

fn trade_symbol<'a>(value: &'a JsonValue, data: &'a Vec<JsonValue>) -> (r: Option<&'a String>)
    ensures
        match r {
            Some(s) => spec_trade_symbol(*value, data@) == Some(s@),
            None => spec_trade_symbol(*value, data@) is None,
        },
{
    match as_str(get(value, "symbol")) {
        Some(s) => Some(s),
        None => if data.len() > 0 {
            as_str(get(&data[0], "symbol"))
        } else {
            None
        },
    }
}

fn fallback_id(symbol: &String, ts: i64, bits: u64) -> (s: String)
    ensures
        s@ == fallback_event_id(symbol@, ts, bits),
{
    let mut s = symbol.clone();
    push_char(&mut s, '-');
    push_i64(&mut s, ts);
    push_char(&mut s, '-');
    push_u64(&mut s, bits);
    assert(s@ =~= fallback_event_id(symbol@, ts, bits));
    s
}

fn parse_trade_entry(value: &JsonValue, entry: &JsonValue, symbol: &String, received_at_ns: i64) -> (r: Result<ParsedMessage, ParseError>)
    ensures
        match r {
            Ok(m) => spec_trade_entry(*value, *entry, symbol@, received_at_ns) == Ok::<ParsedView, ParseError>(m@),
            Err(e) => spec_trade_entry(*value, *entry, symbol@, received_at_ns) == Err::<ParsedView, ParseError>(e),
        },
{
    let price = parse_f64(get(entry, "price"))?;
    let amount = parse_f64(opt_or(get(entry, "size"), get(entry, "amount")))?;
    let exchange_ts_ns = parse_timestamp(
        opt_or(get(entry, "timestamp"), opt_or(get(entry, "timestampms"), get(value, "timestamp"))),
    )?;
    let side = match as_str(get(entry, "side")) {
        Some(s) => s.clone(),
        None => owned("BUY"),
    };
    let event_id = match opt_or(get(entry, "id"), opt_or(get(entry, "tradeId"), get(entry, "transaction_id"))) {
        Some(v) => value_to_string(v),
        None => fallback_id(symbol, exchange_ts_ns, price.bits ^ amount.bits),
    };
    let trade = Trade {
        event_id,
        symbol: symbol.clone(),
        exchange_ts_ns,
        price,
        amount,
        side,
    };
    Ok(ParsedMessage {
        channel: ChannelKind::Trades,
        symbol: symbol.clone(),
        message: MarketMessage { msg: Some(Msg::Trade(trade)), received_at_ns },
    })
}

fn parse_trades(value: &JsonValue, received_at_ns: i64) -> (r: Result<Vec<ParsedMessage>, ParseError>)
    ensures
        match r {
            Ok(v) => spec_parse_trades(*value, received_at_ns) == Ok::<Seq<ParsedView>, ParseError>(parsed_views(v@)),
            Err(e) => spec_parse_trades(*value, received_at_ns) == Err::<Seq<ParsedView>, ParseError>(e),
        },
{
    let data = match as_array(get(value, "data")) {
        Some(d) => d,
        None => return Err(ParseError::TradeDataNotArray),
    };
    let symbol = match trade_symbol(value, data) {
        Some(s) => s,
        None => return Err(ParseError::TradeMissingSymbol),
    };
    let mut out: Vec<ParsedMessage> = Vec::new();
    let mut i: usize = 0;
    assert(parsed_views(out@) =~= Seq::<ParsedView>::empty());
    while i < data.len()
        invariant
            i <= data.len(),
            spec_as_array(spec_get(*value, "data"@)) == Some(data@),
            spec_trade_symbol(*value, data@) == Some(symbol@),
            spec_trades_upto(*value, data@, symbol@, received_at_ns, i as nat) == Ok::<Seq<ParsedView>, ParseError>(parsed_views(out@)),
        decreases data.len() - i,
    {
        let m = match parse_trade_entry(value, &data[i], symbol, received_at_ns) {
            Ok(m) => m,
            Err(e) => {
                proof {
                    assert(data@[i as int] == data[i as int]);
                    assert(spec_trades_upto(*value, data@, symbol@, received_at_ns, (i + 1) as nat)
                        == Err::<Seq<ParsedView>, ParseError>(e));
                    lemma_trades_error_sticks(*value, data@, symbol@, received_at_ns, (i + 1) as nat, data@.len());
                }
                return Err(e);
            },
        };
        let ghost prev = out@;
        out.push(m);
        assert(parsed_views(out@) =~= parsed_views(prev).push(m@));
        i = i + 1;
    }
    Ok(out)
}


/// One order book level: a `[price, size]` pair (two or more items) or an
/// object with `price` and `size`.
pub open spec fn spec_level(entry: JsonValue) -> Result<OrderbookLevel, ParseError> {
    match entry {
        JsonValue::Array(a) => if a.items@.len() >= 2 {
            match spec_parse_f64(Some(a.items@[0])) {
                Err(e) => Err(e),
                Ok(p) => match spec_parse_f64(Some(a.items@[1])) {
                    Err(e) => Err(e),
                    Ok(sz) => Ok(OrderbookLevel { price: Float64 { bits: p }, size: Float64 { bits: sz } }),
                },
            }
        } else {
            Err(ParseError::UnrecognisedLevel)
        },
        JsonValue::Object(o) => match spec_parse_f64(entries_get(o.entries@, "price"@)) {
            Err(e) => Err(e),
            Ok(p) => match spec_parse_f64(entries_get(o.entries@, "size"@)) {
                Err(e) => Err(e),
                Ok(sz) => Ok(OrderbookLevel { price: Float64 { bits: p }, size: Float64 { bits: sz } }),
            },
        },
        _ => Err(ParseError::UnrecognisedLevel),
    }
}

/// The first `k` levels, or the first error among them.
pub open spec fn spec_levels_upto(items: Seq<JsonValue>, k: nat) -> Result<Seq<OrderbookLevel>, ParseError>
    decreases k,
{
    if k == 0 {
        Ok(Seq::empty())
    } else {
        match spec_levels_upto(items, (k - 1) as nat) {
            Err(e) => Err(e),
            Ok(prev) => match spec_level(items[k - 1]) {
                Err(e) => Err(e),
                Ok(l) => Ok(prev.push(l)),
            },
        }
    }
}

/// `parse_levels`: every level of an array, in order.
pub open spec fn spec_parse_levels(v: Option<JsonValue>) -> Result<Seq<OrderbookLevel>, ParseError> {
    match spec_as_array(v) {
        None => Err(ParseError::LevelsMissing),
        Some(items) => spec_levels_upto(items, items.len()),
    }
}

proof fn lemma_levels_error_sticks(items: Seq<JsonValue>, k: nat, n: nat)
    requires
        k <= n,
        spec_levels_upto(items, k) is Err,
    ensures
        spec_levels_upto(items, n) == spec_levels_upto(items, k),
    decreases n - k,
{
    if k < n {
        lemma_levels_error_sticks(items, k, (n - 1) as nat);
    }
}

fn level_of(p: Float64, sz: Float64) -> (l: OrderbookLevel)
    ensures
        l == (OrderbookLevel { price: p, size: sz }),
{
    OrderbookLevel { price: p, size: sz }
}

fn parse_level(entry: &JsonValue) -> (r: Result<OrderbookLevel, ParseError>)
    ensures
        r == spec_level(*entry),
{
    match entry {
        JsonValue::Array(a) => {
            if a.items.len() >= 2 {
                let price = parse_f64(Some(&a.items[0]))?;
                let size = parse_f64(Some(&a.items[1]))?;
                Ok(level_of(price, size))
            } else {
                Err(ParseError::UnrecognisedLevel)
            }
        },
        JsonValue::Object(o) => {
            let price = parse_f64(entries_lookup(&o.entries, "price"))?;
            let size = parse_f64(entries_lookup(&o.entries, "size"))?;
            Ok(level_of(price, size))
        },
        _ => Err(ParseError::UnrecognisedLevel),
    }
}

/// Reads the levels of one order book side.
pub fn parse_levels(v: Option<&JsonValue>) -> (r: Result<Vec<OrderbookLevel>, ParseError>)
    ensures
        match r {
            Ok(ls) => spec_parse_levels(deref_opt(v)) == Ok::<Seq<OrderbookLevel>, ParseError>(ls@),
            Err(e) => spec_parse_levels(deref_opt(v)) == Err::<Seq<OrderbookLevel>, ParseError>(e),
        },
{
    let items = match as_array(v) {
        Some(a) => a,
        None => return Err(ParseError::LevelsMissing),
    };
    let mut out: Vec<OrderbookLevel> = Vec::new();
    let mut i: usize = 0;
    while i < items.len()
        invariant
            i <= items.len(),
            spec_as_array(deref_opt(v)) == Some(items@),
            spec_levels_upto(items@, i as nat) == Ok::<Seq<OrderbookLevel>, ParseError>(out@),
        decreases items.len() - i,
    {
        let l = match parse_level(&items[i]) {
            Ok(l) => l,
            Err(e) => {
                proof {
                    assert(spec_levels_upto(items@, (i + 1) as nat) == Err::<Seq<OrderbookLevel>, ParseError>(e));
                    lemma_levels_error_sticks(items@, (i + 1) as nat, items@.len());
                }
                return Err(e);
            },
        };
        out.push(l);
        i = i + 1;
    }
    Ok(out)
}

/// The members an order book is read from: those of `data` when present,
/// else those of the payload.
pub open spec fn spec_orderbook_payload(value: JsonValue) -> Option<Seq<(String, JsonValue)>> {
    spec_as_object(
        Some(
            match spec_get(value, "data"@) {
                Some(d) => d,
                None => value,
            },
        ),
    )
}

/// `parse_orderbook`: one snapshot message with both sides and a timestamp.
pub open spec fn spec_parse_orderbook(value: JsonValue, received: i64) -> Result<Seq<ParsedView>, ParseError> {
    match spec_orderbook_payload(value) {
        None => Err(ParseError::OrderbookNotObject),
        Some(p) => match or_opt(spec_as_str(entries_get(p, "symbol"@)), spec_as_str(spec_get(value, "symbol"@))) {
            None => Err(ParseError::OrderbookMissingSymbol),
            Some(sym) => match spec_parse_levels(entries_get(p, "bids"@)) {
                Err(e) => Err(e),
                Ok(bids) => match spec_parse_levels(entries_get(p, "asks"@)) {
                    Err(e) => Err(e),
                    Ok(asks) => match spec_parse_timestamp(
                        or_opt(entries_get(p, "timestamp"@), or_opt(spec_get(value, "timestamp"@), entries_get(p, "timestampms"@))),
                    ) {
                        Err(e) => Err(e),
                        Ok(ts) => Ok(seq![ParsedView {
                            channel: ChannelKind::Orderbooks,
                            symbol: sym,
                            message: MarketMessageView {
                                msg: Some(MsgView::ObSnapshot(SnapshotView { symbol: sym, exchange_ts_ns: ts, bids, asks })),
                                received_at_ns: received,
                            },
                        }]),
                    },
                },
            },
        },
    }
}

fn orderbook_symbol<'a>(p: &'a Vec<(String, JsonValue)>, value: &'a JsonValue) -> (r: Option<&'a String>)
    ensures
        match r {
            Some(s) => or_opt(spec_as_str(entries_get(p@, "symbol"@)), spec_as_str(spec_get(*value, "symbol"@))) == Some(s@),
            None => or_opt(spec_as_str(entries_get(p@, "symbol"@)), spec_as_str(spec_get(*value, "symbol"@))) is None,
        },
{
    match as_str(entries_lookup(p, "symbol")) {
        Some(s) => Some(s),
        None => as_str(get(value, "symbol")),
    }
}

fn parse_orderbook(value: &JsonValue, received_at_ns: i64) -> (r: Result<Vec<ParsedMessage>, ParseError>)
    ensures
        match r {
            Ok(v) => spec_parse_orderbook(*value, received_at_ns) == Ok::<Seq<ParsedView>, ParseError>(parsed_views(v@)),
            Err(e) => spec_parse_orderbook(*value, received_at_ns) == Err::<Seq<ParsedView>, ParseError>(e),
        },
{
    let body = match get(value, "data") {
        Some(d) => d,
        None => value,
    };
    let payload = match as_object(Some(body)) {
        Some(p) => p,
        None => return Err(ParseError::OrderbookNotObject),
    };
    let symbol = match orderbook_symbol(payload, value) {
        Some(s) => s,
        None => return Err(ParseError::OrderbookMissingSymbol),
    };
    let bids = parse_levels(entries_lookup(payload, "bids"))?;
    let asks = parse_levels(entries_lookup(payload, "asks"))?;
    let exchange_ts_ns = parse_timestamp(
        opt_or(entries_lookup(payload, "timestamp"), opt_or(get(value, "timestamp"), entries_lookup(payload, "timestampms"))),
    )?;
    let snapshot = OrderbookSnapshot { symbol: symbol.clone(), exchange_ts_ns, bids, asks };
    let mut out: Vec<ParsedMessage> = Vec::new();
    out.push(ParsedMessage {
        channel: ChannelKind::Orderbooks,
        symbol: symbol.clone(),
        message: MarketMessage { msg: Some(Msg::ObSnapshot(snapshot)), received_at_ns },
    });
    assert(parsed_views(out@) =~= seq![out@[0]@]);
    Ok(out)
}

/// `parse_ws_payload`: the messages of one WebSocket payload, dispatched on
/// its `channel`; payloads of other channels give no message.
pub open spec fn spec_parse_ws_payload(value: JsonValue, received: i64) -> Result<Seq<ParsedView>, ParseError> {
    match spec_as_str(spec_get(value, "channel"@)) {
        None => Err(ParseError::MissingChannel),
        Some(ch) => match spec_channel_from_name(ch) {
            None => Ok(Seq::empty()),
            Some(ChannelKind::Trades) => spec_parse_trades(value, received),
            Some(ChannelKind::Ticker) => spec_parse_ticker(value, received),
            Some(ChannelKind::Orderbooks) => spec_parse_orderbook(value, received),
        },
    }
}

/// Parses a WebSocket payload (already read as JSON) into market messages.
pub fn parse_ws_payload(value: &JsonValue, received_at_ns: i64) -> (r: Result<Vec<ParsedMessage>, ParseError>)
    ensures
        match r {
            Ok(v) => spec_parse_ws_payload(*value, received_at_ns) == Ok::<Seq<ParsedView>, ParseError>(parsed_views(v@)),
            Err(e) => spec_parse_ws_payload(*value, received_at_ns) == Err::<Seq<ParsedView>, ParseError>(e),
        },
{
    let channel = match as_str(get(value, "channel")) {
        Some(c) => c,
        None => return Err(ParseError::MissingChannel),
    };
    match ChannelKind::from_name(channel.as_str()) {
        None => {
            let out: Vec<ParsedMessage> = Vec::new();
            assert(parsed_views(out@) =~= Seq::<ParsedView>::empty());
            Ok(out)
        },
        Some(ChannelKind::Trades) => parse_trades(value, received_at_ns),
        Some(ChannelKind::Ticker) => parse_ticker(value, received_at_ns),
        Some(ChannelKind::Orderbooks) => parse_orderbook(value, received_at_ns),
    }
}


#[verifier::external_type_specification]
#[verifier::external_body]
pub struct ExSystemTime(std::time::SystemTime);

/// `SystemTime::now`: a reading of the system wall clock.  Nothing is
/// promised of it.
#[verifier::external_body]
fn system_now() -> (t: std::time::SystemTime) {
    std::time::SystemTime::now()
}

/// `SystemTime::duration_since(UNIX_EPOCH)`: the time elapsed since the Unix
/// epoch, absent when the reading is before the epoch.  A reading is opaque
/// to the library, so nothing is stated of the result.
#[verifier::external_body]
fn since_unix_epoch(t: std::time::SystemTime) -> (d: Option<Duration>) {
    t.duration_since(std::time::UNIX_EPOCH).ok()
}

/// `Duration::as_nanos`: the whole nanoseconds of a duration.  The duration
/// here is a clock reading, opaque to the library, so nothing is stated of
/// the result.
#[verifier::external_body]
fn duration_as_nanos(d: Duration) -> (n: u128) {
    d.as_nanos()
}

/// A clock reading as an `i64` timestamp: the nanoseconds truncated to 64
/// bits (`as i64`), or zero when the clock read before the epoch.
pub fn nanos_to_i64(r: Option<u128>) -> (ns: i64)
    ensures
        ns == match r {
            Some(n) => n as i64,
            None => 0i64,
        },
{
    match r {
        Some(n) => n as i64,
        None => 0,
    }
}

/// The current time in nanoseconds since the Unix epoch (zero when the clock
/// reads before the epoch).  It reads the system wall clock, which can be set
/// back, so two readings are not ordered.
pub fn now_ns() -> i64 {
    let reading = match since_unix_epoch(system_now()) {
        Some(d) => Some(duration_as_nanos(d)),
        None => None,
    };
    nanos_to_i64(reading)
}


/// A parsed message is published under its own symbol and channel: the
/// channel is that of its payload, the symbol is that of its payload, and it
/// carries the reception time it was parsed with.
pub open spec fn well_keyed(m: ParsedView, received: i64) -> bool {
    &&& m.message.received_at_ns == received
    &&& match m.message.msg {
        Some(MsgView::Trade(t)) => m.channel == ChannelKind::Trades && t.symbol == m.symbol,
        Some(MsgView::Ticker(t)) => m.channel == ChannelKind::Ticker && t.symbol == m.symbol,
        Some(MsgView::ObSnapshot(s)) => m.channel == ChannelKind::Orderbooks && s.symbol == m.symbol,
        None => false,
    }
}

proof fn lemma_trades_upto_keyed(value: JsonValue, data: Seq<JsonValue>, sym: Seq<char>, received: i64, k: nat)
    requires
        k <= data.len(),
    ensures
        spec_trades_upto(value, data, sym, received, k) matches Ok(ms) ==> {
            &&& ms.len() == k
            &&& forall|i: int| 0 <= i < ms.len() ==> well_keyed(#[trigger] ms[i], received)
        },
    decreases k,
{
    if k > 0 {
        lemma_trades_upto_keyed(value, data, sym, received, (k - 1) as nat);
    }
}

/// Every message of a payload is keyed by its own symbol and channel (the
/// key and topic it is published under), and a trades payload gives one
/// message per trade entry.
pub proof fn lemma_parsed_messages_keyed(value: JsonValue, received: i64)
    ensures
        spec_parse_ws_payload(value, received) matches Ok(ms) ==> forall|i: int|
            0 <= i < ms.len() ==> well_keyed(#[trigger] ms[i], received),
        spec_parse_trades(value, received) matches Ok(ms) ==> ms.len() == spec_as_array(spec_get(value, "data"@))->0.len(),
{
    match spec_as_array(spec_get(value, "data"@)) {
        Some(data) => match spec_trade_symbol(value, data) {
            Some(sym) => lemma_trades_upto_keyed(value, data, sym, received, data.len()),
            None => {},
        },
        None => {},
    }
}

/// A ticker is read member by member from its body (the object `data`, else
/// the payload itself): the bid from `bid` (else `bestBid`), the ask from
/// `ask` (else `bestAsk`), the last price from `last` (else
/// `lastTradedPrice`), the volume from `volume` (else `volume24h`), the
/// instant from `timestamp` and the symbol from `symbol`.  So an `ask` member
/// holding a float, as a number or a decimal string, is the ticker's ask
/// whatever the bid is.  The message is keyed by the symbol and carries the
/// reception time.
pub proof fn lemma_ticker_fields_from_members(value: JsonValue, received: i64)
    ensures
        spec_parse_ticker(value, received) matches Ok(ms) ==> {
            &&& ms.len() == 1
            &&& spec_ticker_body(value) matches Some(obj)
            &&& ms[0].message.msg matches Some(MsgView::Ticker(t))
            &&& ms[0].channel == ChannelKind::Ticker
            &&& ms[0].symbol == t.symbol
            &&& ms[0].message.received_at_ns == received
            &&& spec_as_str(entries_get(obj, "symbol"@)) == Some(t.symbol)
            &&& spec_parse_f64(or_opt(entries_get(obj, "bid"@), entries_get(obj, "bestBid"@))) == Ok::<u64, ParseError>(t.best_bid)
            &&& spec_parse_f64(or_opt(entries_get(obj, "ask"@), entries_get(obj, "bestAsk"@))) == Ok::<u64, ParseError>(t.best_ask)
            &&& spec_parse_f64(or_opt(entries_get(obj, "last"@), entries_get(obj, "lastTradedPrice"@))) == Ok::<u64, ParseError>(t.last)
            &&& spec_parse_f64(or_opt(entries_get(obj, "volume"@), entries_get(obj, "volume24h"@))) == Ok::<u64, ParseError>(t.volume_24h)
            &&& spec_parse_timestamp(entries_get(obj, "timestamp"@)) == Ok::<i64, ParseError>(t.exchange_ts_ns)
            &&& (entries_get(obj, "ask"@) matches Some(JsonValue::Str(a)) ==> a.float_bits == Some(t.best_ask))
            &&& (entries_get(obj, "ask"@) matches Some(JsonValue::Number(a)) ==> a.as_f64_bits == Some(t.best_ask))
            &&& (entries_get(obj, "bid"@) matches Some(JsonValue::Str(b)) ==> b.float_bits == Some(t.best_bid))
            &&& (entries_get(obj, "bid"@) matches Some(JsonValue::Number(b)) ==> b.as_f64_bits == Some(t.best_bid))
        },
{
}

/// A level is read from its own pair or object: a `[price, size]` pair gives
/// its first item as the price and its second as the size; an object gives its
/// `price` and `size` members.
pub proof fn lemma_level_fields(entry: JsonValue)
    ensures
        spec_level(entry) matches Ok(l) ==> {
            &&& (entry matches JsonValue::Array(a) ==> {
                &&& a.items@.len() >= 2
                &&& spec_parse_f64(Some(a.items@[0])) == Ok::<u64, ParseError>(l.price.bits)
                &&& spec_parse_f64(Some(a.items@[1])) == Ok::<u64, ParseError>(l.size.bits)
            })
            &&& (entry matches JsonValue::Object(o) ==> {
                &&& spec_parse_f64(entries_get(o.entries@, "price"@)) == Ok::<u64, ParseError>(l.price.bits)
                &&& spec_parse_f64(entries_get(o.entries@, "size"@)) == Ok::<u64, ParseError>(l.size.bits)
            })
            &&& (entry is Array || entry is Object)
        },
{
}

proof fn lemma_levels_upto_in_order(items: Seq<JsonValue>, k: nat)
    requires
        k <= items.len(),
    ensures
        spec_levels_upto(items, k) matches Ok(ls) ==> {
            &&& ls.len() == k
            &&& forall|i: int| 0 <= i < k ==> spec_level(#[trigger] items[i]) == Ok::<OrderbookLevel, ParseError>(ls[i])
        },
    decreases k,
{
    if k > 0 {
        lemma_levels_upto_in_order(items, (k - 1) as nat);
    }
}

/// The levels of a side are those of its array, one per item and in order.
pub proof fn lemma_levels_in_order(v: Option<JsonValue>)
    ensures
        spec_parse_levels(v) matches Ok(ls) ==> {
            &&& spec_as_array(v) matches Some(items)
            &&& ls.len() == items.len()
            &&& forall|i: int| 0 <= i < items.len() ==> spec_level(#[trigger] items[i]) == Ok::<OrderbookLevel, ParseError>(ls[i])
        },
{
    if let Some(items) = spec_as_array(v) {
        lemma_levels_upto_in_order(items, items.len());
    }
}

/// An order book snapshot takes its bids from the `bids` member of its body
/// and its asks from the `asks` member, each side's levels one per item in
/// order; it is keyed by its symbol and carries the reception time.
pub proof fn lemma_orderbook_sides_from_members(value: JsonValue, received: i64)
    ensures
        spec_parse_orderbook(value, received) matches Ok(ms) ==> {
            &&& ms.len() == 1
            &&& spec_orderbook_payload(value) matches Some(p)
            &&& ms[0].message.msg matches Some(MsgView::ObSnapshot(sn))
            &&& ms[0].channel == ChannelKind::Orderbooks
            &&& ms[0].symbol == sn.symbol
            &&& ms[0].message.received_at_ns == received
            &&& spec_parse_levels(entries_get(p, "bids"@)) == Ok::<Seq<OrderbookLevel>, ParseError>(sn.bids)
            &&& spec_parse_levels(entries_get(p, "asks"@)) == Ok::<Seq<OrderbookLevel>, ParseError>(sn.asks)
        },
{
}

/// A trade entry is read member by member: the price from `price`, the
/// amount from `size` (else `amount`), the side from `side` (`BUY` when
/// absent); it is keyed by the payload's symbol and carries the reception
/// time.
pub proof fn lemma_trade_entry_fields(value: JsonValue, entry: JsonValue, sym: Seq<char>, received: i64)
    ensures
        spec_trade_entry(value, entry, sym, received) matches Ok(m) ==> {
            &&& m.message.msg matches Some(MsgView::Trade(t))
            &&& m.channel == ChannelKind::Trades
            &&& m.symbol == sym
            &&& t.symbol == sym
            &&& m.message.received_at_ns == received
            &&& spec_parse_f64(spec_get(entry, "price"@)) == Ok::<u64, ParseError>(t.price)
            &&& spec_parse_f64(or_opt(spec_get(entry, "size"@), spec_get(entry, "amount"@))) == Ok::<u64, ParseError>(t.amount)
            &&& (spec_as_str(spec_get(entry, "side"@)) matches Some(sd) ==> t.side == sd)
            &&& (spec_as_str(spec_get(entry, "side"@)) is None ==> t.side == "BUY"@)
        },
{
}

proof fn lemma_trades_upto_in_order(value: JsonValue, data: Seq<JsonValue>, sym: Seq<char>, received: i64, k: nat)
    requires
        k <= data.len(),
    ensures
        spec_trades_upto(value, data, sym, received, k) matches Ok(ms) ==> {
            &&& ms.len() == k
            &&& forall|i: int| 0 <= i < k ==> spec_trade_entry(value, #[trigger] data[i], sym, received) == Ok::<ParsedView, ParseError>(ms[i])
        },
    decreases k,
{
    if k > 0 {
        lemma_trades_upto_in_order(value, data, sym, received, (k - 1) as nat);
    }
}

/// A trades payload gives one message per entry of its `data` array, in
/// order, each the entry's own trade under the payload's symbol.
pub proof fn lemma_trades_follow_entries(value: JsonValue, received: i64)
    ensures
        spec_parse_trades(value, received) matches Ok(ms) ==> {
            &&& spec_as_array(spec_get(value, "data"@)) matches Some(data)
            &&& spec_trade_symbol(value, data) matches Some(sym)
            &&& ms.len() == data.len()
            &&& forall|i: int| 0 <= i < data.len() ==> spec_trade_entry(value, #[trigger] data[i], sym, received) == Ok::<ParsedView, ParseError>(ms[i])
        },
{
    if let Some(data) = spec_as_array(spec_get(value, "data"@)) {
        if let Some(sym) = spec_trade_symbol(value, data) {
            lemma_trades_upto_in_order(value, data, sym, received, data.len());
        }
    }
}

} // verus!
