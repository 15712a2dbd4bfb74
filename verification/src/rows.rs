//! Reading ClickHouse rows (one JSON object per row) into market messages.

use vstd::prelude::*;
use crate::backtest::{Bar, BarView};
use crate::json::{as_array, as_f64_bits, as_i64, as_str, deref_opt, entries_get, entries_lookup, get, spec_as_array, spec_as_f64_bits, spec_as_i64, spec_as_str, spec_get, JsonValue};
use crate::market::{Float64, OrderbookLevel, OrderbookSnapshot, SnapshotView, Ticker, TickerView, Trade, TradeView};
use crate::service::BacktestServiceImpl;
use crate::text::{i64_parse_error, parse_i64, spec_i64_parse_error, spec_parse_i64, FloatParseError, IntParseError};

verus! {

/// Why a row could not be read.
#[derive(Debug, Clone, Copy)]
pub enum RowError {
    /// The string column is absent or not a string.
    MissingField(&'static str),
    /// The integer column is absent, or neither an integer nor a string.
    MissingInteger(&'static str),
    /// The integer column is a string that is not a decimal `i64`, and why.
    InvalidInteger(&'static str, IntParseError),
    /// The float column is absent, or neither a number nor a string.
    MissingFloat(&'static str),
    /// The float column is a string that is not a float literal, and why.
    InvalidFloat(&'static str, FloatParseError),
    /// The array column is absent or not an array.
    MissingArray(&'static str),
    /// A `[price, size]` pair whose price is not a number.
    InvalidPriceArray,
    /// A `[price, size]` pair whose size is not a number.
    InvalidSizeArray,
    /// A level object whose `price` is not a number.
    InvalidPriceObject,
    /// A level object whose `size` is not a number.
    InvalidSizeObject,
    /// A level that is neither a pair nor an object.
    UnexpectedLevel,
}

/// `row_value`: a string column.
pub open spec fn spec_row_value(row: JsonValue, key: &'static str) -> Result<Seq<char>, RowError> {
    match spec_as_str(spec_get(row, key@)) {
        Some(s) => Ok(s),
        None => Err(RowError::MissingField(key)),
    }
}

/// `row_i64`: an integer column, given as a number or a decimal string.
pub open spec fn spec_row_i64(row: JsonValue, key: &'static str) -> Result<i64, RowError> {
    match spec_as_i64(spec_get(row, key@)) {
        Some(n) => Ok(n),
        None => match spec_as_str(spec_get(row, key@)) {
            Some(s) => match spec_parse_i64(s) {
                Some(n) => Ok(n),
                None => Err(RowError::InvalidInteger(key, spec_i64_parse_error(s))),
            },
            None => Err(RowError::MissingInteger(key)),
        },
    }
}

/// `row_f64`: a float column (as bits), given as a number or a float string.
pub open spec fn spec_row_f64(row: JsonValue, key: &'static str) -> Result<u64, RowError> {
    match spec_as_f64_bits(spec_get(row, key@)) {
        Some(b) => Ok(b),
        None => match spec_get(row, key@) {
            Some(JsonValue::Str(s)) => match s.float_bits {
                Some(b) => Ok(b),
                None => Err(RowError::InvalidFloat(key, if s.text@.len() == 0 {
                    FloatParseError::Empty
                } else {
                    FloatParseError::Invalid
                })),
            },
            _ => Err(RowError::MissingFloat(key)),
        },
    }
}

/// Reads a string column.
pub fn row_value(row: &JsonValue, key: &'static str) -> (r: Result<String, RowError>)
    ensures
        match r {
            Ok(s) => spec_row_value(*row, key) == Ok::<Seq<char>, RowError>(s@),
            Err(e) => spec_row_value(*row, key) == Err::<Seq<char>, RowError>(e),
        },
{
    match as_str(get(row, key)) {
        Some(s) => Ok(s.clone()),
        None => Err(RowError::MissingField(key)),
    }
}

/// Reads an integer column.
pub fn row_i64(row: &JsonValue, key: &'static str) -> (r: Result<i64, RowError>)
    ensures
        r == spec_row_i64(*row, key),
{
    let v = get(row, key);
    if let Some(n) = as_i64(v) {
        Ok(n)
    } else if let Some(s) = as_str(v) {
        match parse_i64(s.as_str()) {
            Some(n) => Ok(n),
            None => Err(RowError::InvalidInteger(key, i64_parse_error(s.as_str()))),
        }
    } else {
        Err(RowError::MissingInteger(key))
    }
}

/// Reads a float column.
pub fn row_f64(row: &JsonValue, key: &'static str) -> (r: Result<Float64, RowError>)
    ensures
        match r {
            Ok(f) => spec_row_f64(*row, key) == Ok::<u64, RowError>(f.bits),
            Err(e) => spec_row_f64(*row, key) == Err::<u64, RowError>(e),
        },
{
    let v = get(row, key);
    if let Some(b) = as_f64_bits(v) {
        Ok(Float64 { bits: b })
    } else {
        match v {
            Some(JsonValue::Str(s)) => match s.float_bits {
                Some(b) => Ok(Float64 { bits: b }),
                None => {
                    let why = if s.text.as_str().is_empty() {
                        FloatParseError::Empty
                    } else {
                        FloatParseError::Invalid
                    };
                    Err(RowError::InvalidFloat(key, why))
                },
            },
            _ => Err(RowError::MissingFloat(key)),
        }
    }
}

/// One level of an aggregated order book row: a pair of numbers (two or more
/// items) or an object with numeric `price` and `size`.
pub open spec fn spec_row_level(entry: JsonValue) -> Result<OrderbookLevel, RowError> {
    match entry {
        JsonValue::Array(a) => if a.items@.len() >= 2 {
            match spec_as_f64_bits(Some(a.items@[0])) {
                None => Err(RowError::InvalidPriceArray),
                Some(p) => match spec_as_f64_bits(Some(a.items@[1])) {
                    None => Err(RowError::InvalidSizeArray),
                    Some(sz) => Ok(OrderbookLevel { price: Float64 { bits: p }, size: Float64 { bits: sz } }),
                },
            }
        } else {
            Err(RowError::UnexpectedLevel)
        },
        JsonValue::Object(o) => match spec_as_f64_bits(entries_get(o.entries@, "price"@)) {
            None => Err(RowError::InvalidPriceObject),
            Some(p) => match spec_as_f64_bits(entries_get(o.entries@, "size"@)) {
                None => Err(RowError::InvalidSizeObject),
                Some(sz) => Ok(OrderbookLevel { price: Float64 { bits: p }, size: Float64 { bits: sz } }),
            },
        },
        _ => Err(RowError::UnexpectedLevel),
    }
}

/// The first `k` levels, or the first error among them.
pub open spec fn spec_row_levels_upto(items: Seq<JsonValue>, k: nat) -> Result<Seq<OrderbookLevel>, RowError>
    decreases k,
{
    if k == 0 {
        Ok(Seq::empty())
    } else {
        match spec_row_levels_upto(items, (k - 1) as nat) {
            Err(e) => Err(e),
            Ok(prev) => match spec_row_level(items[k - 1]) {
                Err(e) => Err(e),
                Ok(l) => Ok(prev.push(l)),
            },
        }
    }
}

/// `parse_levels`: every level of an array column, in order.
pub open spec fn spec_row_levels(row: JsonValue, key: &'static str) -> Result<Seq<OrderbookLevel>, RowError> {
    match spec_as_array(spec_get(row, key@)) {
        None => Err(RowError::MissingArray(key)),
        Some(items) => spec_row_levels_upto(items, items.len()),
    }
}

proof fn lemma_row_levels_error_sticks(items: Seq<JsonValue>, k: nat, n: nat)
    requires
        k <= n,
        spec_row_levels_upto(items, k) is Err,
    ensures
        spec_row_levels_upto(items, n) == spec_row_levels_upto(items, k),
    decreases n - k,
{
    if k < n {
        lemma_row_levels_error_sticks(items, k, (n - 1) as nat);
    }
}

fn row_level(entry: &JsonValue) -> (r: Result<OrderbookLevel, RowError>)
    ensures
        r == spec_row_level(*entry),
{
    match entry {
        JsonValue::Array(a) => {
            if a.items.len() >= 2 {
                let price = match as_f64_bits(Some(&a.items[0])) {
                    Some(p) => p,
                    None => return Err(RowError::InvalidPriceArray),
                };
                let size = match as_f64_bits(Some(&a.items[1])) {
                    Some(s) => s,
                    None => return Err(RowError::InvalidSizeArray),
                };
                Ok(OrderbookLevel { price: Float64 { bits: price }, size: Float64 { bits: size } })
            } else {
                Err(RowError::UnexpectedLevel)
            }
        },
        JsonValue::Object(o) => {
            let price = match as_f64_bits(entries_lookup(&o.entries, "price")) {
                Some(p) => p,
                None => return Err(RowError::InvalidPriceObject),
            };
            let size = match as_f64_bits(entries_lookup(&o.entries, "size")) {
                Some(s) => s,
                None => return Err(RowError::InvalidSizeObject),
            };
            Ok(OrderbookLevel { price: Float64 { bits: price }, size: Float64 { bits: size } })
        },
        _ => Err(RowError::UnexpectedLevel),
    }
}

/// Reads the levels of an array column.
pub fn parse_levels(row: &JsonValue, key: &'static str) -> (r: Result<Vec<OrderbookLevel>, RowError>)
    ensures
        match r {
            Ok(ls) => spec_row_levels(*row, key) == Ok::<Seq<OrderbookLevel>, RowError>(ls@),
            Err(e) => spec_row_levels(*row, key) == Err::<Seq<OrderbookLevel>, RowError>(e),
        },
{
    let items = match as_array(get(row, key)) {
        Some(a) => a,
        None => return Err(RowError::MissingArray(key)),
    };
    let mut out: Vec<OrderbookLevel> = Vec::new();
    let mut i: usize = 0;
    while i < items.len()
        invariant
            i <= items.len(),
            spec_as_array(spec_get(*row, key@)) == Some(items@),
            spec_row_levels_upto(items@, i as nat) == Ok::<Seq<OrderbookLevel>, RowError>(out@),
        decreases items.len() - i,
    {
        let l = match row_level(&items[i]) {
            Ok(l) => l,
            Err(e) => {
                proof {
                    assert(spec_row_levels_upto(items@, (i + 1) as nat) == Err::<Seq<OrderbookLevel>, RowError>(e));
                    lemma_row_levels_error_sticks(items@, (i + 1) as nat, items@.len());
                }
                return Err(e);
            },
        };
        out.push(l);
        i = i + 1;
    }
    Ok(out)
}

/// A trade row and the time it was received.
pub open spec fn spec_parse_trade(row: JsonValue) -> Result<(TradeView, i64), RowError> {
    match spec_row_value(row, "event_id") {
        Err(e) => Err(e),
        Ok(id) => match spec_row_value(row, "symbol") {
            Err(e) => Err(e),
            Ok(sym) => match spec_row_i64(row, "exchange_ts_ns") {
                Err(e) => Err(e),
                Ok(ts) => match spec_row_f64(row, "price") {
                    Err(e) => Err(e),
                    Ok(price) => match spec_row_f64(row, "amount") {
                        Err(e) => Err(e),
                        Ok(amount) => match spec_row_value(row, "side") {
                            Err(e) => Err(e),
                            Ok(side) => match spec_row_i64(row, "received_at_ns") {
                                Err(e) => Err(e),
                                Ok(received) => Ok((
                                    TradeView { event_id: id, symbol: sym, exchange_ts_ns: ts, price, amount, side },
                                    received,
                                )),
                            },
                        },
                    },
                },
            },
        },
    }
}

/// A ticker row and the time it was received.
pub open spec fn spec_parse_ticker(row: JsonValue) -> Result<(TickerView, i64), RowError> {
    match spec_row_value(row, "symbol") {
        Err(e) => Err(e),
        Ok(sym) => match spec_row_i64(row, "exchange_ts_ns") {
            Err(e) => Err(e),
            Ok(ts) => match spec_row_f64(row, "best_bid") {
                Err(e) => Err(e),
                Ok(bid) => match spec_row_f64(row, "best_ask") {
                    Err(e) => Err(e),
                    Ok(ask) => match spec_row_f64(row, "last") {
                        Err(e) => Err(e),
                        Ok(last) => match spec_row_f64(row, "volume_24h") {
                            Err(e) => Err(e),
                            Ok(volume) => match spec_row_i64(row, "received_at_ns") {
                                Err(e) => Err(e),
                                Ok(received) => Ok((
                                    TickerView {
                                        symbol: sym,
                                        exchange_ts_ns: ts,
                                        best_bid: bid,
                                        best_ask: ask,
                                        last,
                                        volume_24h: volume,
                                    },
                                    received,
                                )),
                            },
                        },
                    },
                },
            },
        },
    }
}

/// An aggregated order book row and the time it was received.
pub open spec fn spec_parse_orderbook(row: JsonValue) -> Result<(SnapshotView, i64), RowError> {
    match spec_row_levels(row, "bids") {
        Err(e) => Err(e),
        Ok(bids) => match spec_row_levels(row, "asks") {
            Err(e) => Err(e),
            Ok(asks) => match spec_row_value(row, "symbol") {
                Err(e) => Err(e),
                Ok(sym) => match spec_row_i64(row, "exchange_ts_ns") {
                    Err(e) => Err(e),
                    Ok(ts) => match spec_row_i64(row, "received_at_ns") {
                        Err(e) => Err(e),
                        Ok(received) => Ok((SnapshotView { symbol: sym, exchange_ts_ns: ts, bids, asks }, received)),
                    },
                },
            },
        },
    }
}

/// A bar row.
pub open spec fn spec_parse_bar(row: JsonValue) -> Result<BarView, RowError> {
    match spec_row_value(row, "symbol") {
        Err(e) => Err(e),
        Ok(sym) => match spec_row_i64(row, "start_ns") {
            Err(e) => Err(e),
            Ok(start) => match spec_row_i64(row, "end_ns") {
                Err(e) => Err(e),
                Ok(end) => match spec_row_f64(row, "open") {
                    Err(e) => Err(e),
                    Ok(open) => match spec_row_f64(row, "high") {
                        Err(e) => Err(e),
                        Ok(high) => match spec_row_f64(row, "low") {
                            Err(e) => Err(e),
                            Ok(low) => match spec_row_f64(row, "close") {
                                Err(e) => Err(e),
                                Ok(close) => match spec_row_f64(row, "volume") {
                                    Err(e) => Err(e),
                                    Ok(volume) => Ok(BarView {
                                        symbol: sym,
                                        start_ts_ns: start,
                                        end_ts_ns: end,
                                        open,
                                        high,
                                        low,
                                        close,
                                        volume,
                                    }),
                                },
                            },
                        },
                    },
                },
            },
        },
    }
}

/// Reads a bar row.
pub fn parse_bar(row: &JsonValue) -> (r: Result<Bar, RowError>)
    ensures
        match r {
            Ok(b) => spec_parse_bar(*row) == Ok::<BarView, RowError>(b@),
            Err(e) => spec_parse_bar(*row) == Err::<BarView, RowError>(e),
        },
{
    let symbol = row_value(row, "symbol")?;
    let start_ts_ns = row_i64(row, "start_ns")?;
    let end_ts_ns = row_i64(row, "end_ns")?;
    let open = row_f64(row, "open")?;
    let high = row_f64(row, "high")?;
    let low = row_f64(row, "low")?;
    let close = row_f64(row, "close")?;
    let volume = row_f64(row, "volume")?;
    Ok(Bar { symbol, start_ts_ns, end_ts_ns, open, high, low, close, volume })
}

impl BacktestServiceImpl {
    /// Reads a trade row and the time it was received.
    pub fn parse_trade(row: &JsonValue) -> (r: Result<(Trade, i64), RowError>)
        ensures
            match r {
                Ok((t, received)) => spec_parse_trade(*row) == Ok::<(TradeView, i64), RowError>((t@, received)),
                Err(e) => spec_parse_trade(*row) == Err::<(TradeView, i64), RowError>(e),
            },
    {
        let event_id = row_value(row, "event_id")?;
        let symbol = row_value(row, "symbol")?;
        let exchange_ts_ns = row_i64(row, "exchange_ts_ns")?;
        let price = row_f64(row, "price")?;
        let amount = row_f64(row, "amount")?;
        let side = row_value(row, "side")?;
        let received_at_ns = row_i64(row, "received_at_ns")?;
        Ok((Trade { event_id, symbol, exchange_ts_ns, price, amount, side }, received_at_ns))
    }

    /// Reads a ticker row and the time it was received.
    pub fn parse_ticker(row: &JsonValue) -> (r: Result<(Ticker, i64), RowError>)
        ensures
            match r {
                Ok((t, received)) => spec_parse_ticker(*row) == Ok::<(TickerView, i64), RowError>((t@, received)),
                Err(e) => spec_parse_ticker(*row) == Err::<(TickerView, i64), RowError>(e),
            },
    {
        let symbol = row_value(row, "symbol")?;
        let exchange_ts_ns = row_i64(row, "exchange_ts_ns")?;
        let best_bid = row_f64(row, "best_bid")?;
        let best_ask = row_f64(row, "best_ask")?;
        let last = row_f64(row, "last")?;
        let volume_24h = row_f64(row, "volume_24h")?;
        let received_at_ns = row_i64(row, "received_at_ns")?;
        Ok((Ticker { symbol, exchange_ts_ns, best_bid, best_ask, last, volume_24h }, received_at_ns))
    }

    /// Reads an aggregated order book row and the time it was received.
    pub fn parse_orderbook(row: &JsonValue) -> (r: Result<(OrderbookSnapshot, i64), RowError>)
        ensures
            match r {
                Ok((s, received)) => spec_parse_orderbook(*row) == Ok::<(SnapshotView, i64), RowError>((s@, received)),
                Err(e) => spec_parse_orderbook(*row) == Err::<(SnapshotView, i64), RowError>(e),
            },
    {
        let bids = parse_levels(row, "bids")?;
        let asks = parse_levels(row, "asks")?;
        let symbol = row_value(row, "symbol")?;
        let exchange_ts_ns = row_i64(row, "exchange_ts_ns")?;
        let received_at_ns = row_i64(row, "received_at_ns")?;
        Ok((OrderbookSnapshot { symbol, exchange_ts_ns, bids, asks }, received_at_ns))
    }
}

/// A trade row is read column by column: each field of the trade, and the
/// reception time, is the value of the column of the same name; and a row
/// whose columns all read gives exactly that trade.
pub proof fn lemma_trade_row_columns(row: JsonValue)
    ensures
        spec_parse_trade(row) matches Ok((t, received)) ==> {
            &&& spec_row_value(row, "event_id") == Ok::<Seq<char>, RowError>(t.event_id)
            &&& spec_row_value(row, "symbol") == Ok::<Seq<char>, RowError>(t.symbol)
            &&& spec_row_i64(row, "exchange_ts_ns") == Ok::<i64, RowError>(t.exchange_ts_ns)
            &&& spec_row_f64(row, "price") == Ok::<u64, RowError>(t.price)
            &&& spec_row_f64(row, "amount") == Ok::<u64, RowError>(t.amount)
            &&& spec_row_value(row, "side") == Ok::<Seq<char>, RowError>(t.side)
            &&& spec_row_i64(row, "received_at_ns") == Ok::<i64, RowError>(received)
        },
        ({
            &&& spec_row_value(row, "event_id") is Ok
            &&& spec_row_value(row, "symbol") is Ok
            &&& spec_row_i64(row, "exchange_ts_ns") is Ok
            &&& spec_row_f64(row, "price") is Ok
            &&& spec_row_f64(row, "amount") is Ok
            &&& spec_row_value(row, "side") is Ok
            &&& spec_row_i64(row, "received_at_ns") is Ok
        }) ==> spec_parse_trade(row) is Ok,
{
}

/// A ticker row is read column by column: the bid from `best_bid`, the ask
/// from `best_ask`, and every other field from the column of its name; a row
/// whose columns all read gives a ticker.
pub proof fn lemma_ticker_row_columns(row: JsonValue)
    ensures
        spec_parse_ticker(row) matches Ok((t, received)) ==> {
            &&& spec_row_value(row, "symbol") == Ok::<Seq<char>, RowError>(t.symbol)
            &&& spec_row_i64(row, "exchange_ts_ns") == Ok::<i64, RowError>(t.exchange_ts_ns)
            &&& spec_row_f64(row, "best_bid") == Ok::<u64, RowError>(t.best_bid)
            &&& spec_row_f64(row, "best_ask") == Ok::<u64, RowError>(t.best_ask)
            &&& spec_row_f64(row, "last") == Ok::<u64, RowError>(t.last)
            &&& spec_row_f64(row, "volume_24h") == Ok::<u64, RowError>(t.volume_24h)
            &&& spec_row_i64(row, "received_at_ns") == Ok::<i64, RowError>(received)
        },
        ({
            &&& spec_row_value(row, "symbol") is Ok
            &&& spec_row_i64(row, "exchange_ts_ns") is Ok
            &&& spec_row_f64(row, "best_bid") is Ok
            &&& spec_row_f64(row, "best_ask") is Ok
            &&& spec_row_f64(row, "last") is Ok
            &&& spec_row_f64(row, "volume_24h") is Ok
            &&& spec_row_i64(row, "received_at_ns") is Ok
        }) ==> spec_parse_ticker(row) is Ok,
{
}

/// A bar row is read column by column: open, high, low, close and volume
/// each from the column of its name, the bounds from `start_ns` and `end_ns`;
/// a row whose columns all read gives a bar.
pub proof fn lemma_bar_row_columns(row: JsonValue)
    ensures
        spec_parse_bar(row) matches Ok(b) ==> {
            &&& spec_row_value(row, "symbol") == Ok::<Seq<char>, RowError>(b.symbol)
            &&& spec_row_i64(row, "start_ns") == Ok::<i64, RowError>(b.start_ts_ns)
            &&& spec_row_i64(row, "end_ns") == Ok::<i64, RowError>(b.end_ts_ns)
            &&& spec_row_f64(row, "open") == Ok::<u64, RowError>(b.open)
            &&& spec_row_f64(row, "high") == Ok::<u64, RowError>(b.high)
            &&& spec_row_f64(row, "low") == Ok::<u64, RowError>(b.low)
            &&& spec_row_f64(row, "close") == Ok::<u64, RowError>(b.close)
            &&& spec_row_f64(row, "volume") == Ok::<u64, RowError>(b.volume)
        },
        ({
            &&& spec_row_value(row, "symbol") is Ok
            &&& spec_row_i64(row, "start_ns") is Ok
            &&& spec_row_i64(row, "end_ns") is Ok
            &&& spec_row_f64(row, "open") is Ok
            &&& spec_row_f64(row, "high") is Ok
            &&& spec_row_f64(row, "low") is Ok
            &&& spec_row_f64(row, "close") is Ok
            &&& spec_row_f64(row, "volume") is Ok
        }) ==> spec_parse_bar(row) is Ok,
{
}

/// A level of an aggregated order book row is read from its own pair or
/// object: a `[price, size]` pair gives its first number as the price and its
/// second as the size; an object gives its `price` and `size` members.
pub proof fn lemma_row_level_fields(entry: JsonValue)
    ensures
        spec_row_level(entry) matches Ok(l) ==> {
            &&& (entry matches JsonValue::Array(a) ==> {
                &&& a.items@.len() >= 2
                &&& spec_as_f64_bits(Some(a.items@[0])) == Some(l.price.bits)
                &&& spec_as_f64_bits(Some(a.items@[1])) == Some(l.size.bits)
            })
            &&& (entry matches JsonValue::Object(o) ==> {
                &&& spec_as_f64_bits(entries_get(o.entries@, "price"@)) == Some(l.price.bits)
                &&& spec_as_f64_bits(entries_get(o.entries@, "size"@)) == Some(l.size.bits)
            })
            &&& (entry is Array || entry is Object)
        },
{
}

proof fn lemma_row_levels_upto_in_order(items: Seq<JsonValue>, k: nat)
    requires
        k <= items.len(),
    ensures
        spec_row_levels_upto(items, k) matches Ok(ls) ==> {
            &&& ls.len() == k
            &&& forall|i: int| 0 <= i < k ==> spec_row_level(#[trigger] items[i]) == Ok::<OrderbookLevel, RowError>(ls[i])
        },
    decreases k,
{
    if k > 0 {
        lemma_row_levels_upto_in_order(items, (k - 1) as nat);
    }
}

/// The levels of an array column are those of its items, one per item and in
/// order.
pub proof fn lemma_row_levels_in_order(row: JsonValue, key: &'static str)
    ensures
        spec_row_levels(row, key) matches Ok(ls) ==> {
            &&& spec_as_array(spec_get(row, key@)) matches Some(items)
            &&& ls.len() == items.len()
            &&& forall|i: int| 0 <= i < items.len() ==> spec_row_level(#[trigger] items[i]) == Ok::<OrderbookLevel, RowError>(ls[i])
        },
{
    if let Some(items) = spec_as_array(spec_get(row, key@)) {
        lemma_row_levels_upto_in_order(items, items.len());
    }
}

/// An aggregated order book row is read column by column: the bids from the
/// `bids` column, the asks from `asks`, the rest from the column of its name.
pub proof fn lemma_orderbook_row_columns(row: JsonValue)
    ensures
        spec_parse_orderbook(row) matches Ok((sn, received)) ==> {
            &&& spec_row_levels(row, "bids") == Ok::<Seq<OrderbookLevel>, RowError>(sn.bids)
            &&& spec_row_levels(row, "asks") == Ok::<Seq<OrderbookLevel>, RowError>(sn.asks)
            &&& spec_row_value(row, "symbol") == Ok::<Seq<char>, RowError>(sn.symbol)
            &&& spec_row_i64(row, "exchange_ts_ns") == Ok::<i64, RowError>(sn.exchange_ts_ns)
            &&& spec_row_i64(row, "received_at_ns") == Ok::<i64, RowError>(received)
        },
{
}

} // verus!
