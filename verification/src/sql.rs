//! The ClickHouse queries behind the backtesting API.
//!
//! Each query is text with the symbol quoted and the nanosecond bounds in
//! decimal; symbols reaching these builders have passed the symbol check, so
//! they hold only `[A-Z0-9_]`.

use vstd::prelude::*;
use crate::text::{dec_int, dec_nat, push_i64, push_str, push_u64};

verus! {

/// Trades of one symbol within `[start_ns, end_ns]`, in exchange order.
pub open spec fn spec_trades_sql(symbol: Seq<char>, start_ns: i64, end_ns: i64) -> Seq<char> {
    "SELECT symbol, event_id, toUnixTimestamp64Nano(exchange_ts) AS exchange_ts_ns, toUnixTimestamp64Nano(received_at) AS received_at_ns, price, amount, side FROM gmo.trades WHERE symbol = '"@
        + symbol + "' AND exchange_ts >= fromUnixTimestamp64Nano("@ + dec_int(start_ns as int)
        + ") AND exchange_ts <= fromUnixTimestamp64Nano("@ + dec_int(end_ns as int)
        + ") ORDER BY exchange_ts FORMAT JSONEachRow"@
}

/// OHLCV bars of `interval` seconds over the trades of one symbol.
pub open spec fn spec_bars_sql(symbol: Seq<char>, interval: u64, start_ns: i64, end_ns: i64) -> Seq<char> {
    "SELECT symbol, bucket, toUnixTimestamp64Nano(bucket) AS start_ns, toUnixTimestamp64Nano(addSeconds(bucket, "@
        + dec_nat(interval as nat)
        + ")) - 1 AS end_ns, argMin(price, exchange_ts) AS open, max(price) AS high, min(price) AS low, argMax(price, exchange_ts) AS close, sum(amount) AS volume FROM ( SELECT symbol, price, amount, exchange_ts, toStartOfInterval(exchange_ts, INTERVAL "@
        + dec_nat(interval as nat) + " SECOND) AS bucket FROM gmo.trades WHERE symbol = '"@ + symbol
        + "' AND exchange_ts >= fromUnixTimestamp64Nano("@ + dec_int(start_ns as int)
        + ") AND exchange_ts <= fromUnixTimestamp64Nano("@ + dec_int(end_ns as int)
        + ") ) GROUP BY symbol, bucket ORDER BY bucket FORMAT JSONEachRow"@
}

/// The latest order book instant of one symbol at or before `at_ns`.
pub open spec fn spec_snapshot_ts_sql(symbol: Seq<char>, at_ns: i64) -> Seq<char> {
    "SELECT toUnixTimestamp64Nano(max(exchange_ts)) AS ts FROM gmo.orderbooks WHERE symbol = '"@
        + symbol + "' AND exchange_ts <= fromUnixTimestamp64Nano("@ + dec_int(at_ns as int)
        + ") FORMAT JSONEachRow"@
}

/// The order book levels of one symbol at exactly `ts`.
pub open spec fn spec_snapshot_rows_sql(symbol: Seq<char>, ts: i64) -> Seq<char> {
    "SELECT symbol, side, price, size, toUnixTimestamp64Nano(exchange_ts) AS exchange_ts_ns, toUnixTimestamp64Nano(received_at) AS received_at_ns FROM gmo.orderbooks WHERE symbol = '"@
        + symbol + "' AND exchange_ts = fromUnixTimestamp64Nano("@ + dec_int(ts as int)
        + ") FORMAT JSONEachRow"@
}

/// Tickers of one symbol within `[start_ns, end_ns]`, in exchange order.
pub open spec fn spec_tickers_sql(symbol: Seq<char>, start_ns: i64, end_ns: i64) -> Seq<char> {
    "SELECT symbol, toUnixTimestamp64Nano(exchange_ts) AS exchange_ts_ns, toUnixTimestamp64Nano(received_at) AS received_at_ns, best_bid, best_ask, last, volume_24h FROM gmo.tickers WHERE symbol = '"@
        + symbol + "' AND exchange_ts >= fromUnixTimestamp64Nano("@ + dec_int(start_ns as int)
        + ") AND exchange_ts <= fromUnixTimestamp64Nano("@ + dec_int(end_ns as int)
        + ") ORDER BY exchange_ts FORMAT JSONEachRow"@
}

/// Order book snapshots of one symbol within `[start_ns, end_ns]`, one row
/// per instant with both sides as `[price, size]` pairs.
pub open spec fn spec_orderbooks_sql(symbol: Seq<char>, start_ns: i64, end_ns: i64) -> Seq<char> {
    "SELECT symbol, toUnixTimestamp64Nano(exchange_ts) AS exchange_ts_ns, toUnixTimestamp64Nano(received_at) AS received_at_ns, groupArrayIf([price, size], side = 'BID') AS bids, groupArrayIf([price, size], side = 'ASK') AS asks FROM gmo.orderbooks WHERE symbol = '"@
        + symbol + "' AND exchange_ts >= fromUnixTimestamp64Nano("@ + dec_int(start_ns as int)
        + ") AND exchange_ts <= fromUnixTimestamp64Nano("@ + dec_int(end_ns as int)
        + ") GROUP BY symbol, exchange_ts, received_at ORDER BY exchange_ts FORMAT JSONEachRow"@
}

fn push_range(s: &mut String, symbol: &str, start_ns: i64, end_ns: i64)
    ensures
        final(s)@ == old(s)@ + symbol@ + "' AND exchange_ts >= fromUnixTimestamp64Nano("@
            + dec_int(start_ns as int) + ") AND exchange_ts <= fromUnixTimestamp64Nano("@
            + dec_int(end_ns as int),
{
    let ghost s0 = s@;
    push_str(s, symbol);
    push_str(s, "' AND exchange_ts >= fromUnixTimestamp64Nano(");
    push_i64(s, start_ns);
    push_str(s, ") AND exchange_ts <= fromUnixTimestamp64Nano(");
    push_i64(s, end_ns);
    assert(s@ =~= s0 + symbol@ + "' AND exchange_ts >= fromUnixTimestamp64Nano("@
        + dec_int(start_ns as int) + ") AND exchange_ts <= fromUnixTimestamp64Nano("@
        + dec_int(end_ns as int));
}

/// The trades query.
pub fn trades_sql(symbol: &str, start_ns: i64, end_ns: i64) -> (q: String)
    ensures
        q@ == spec_trades_sql(symbol@, start_ns, end_ns),
{
    let mut s = String::new();
    push_str(&mut s, "SELECT symbol, event_id, toUnixTimestamp64Nano(exchange_ts) AS exchange_ts_ns, toUnixTimestamp64Nano(received_at) AS received_at_ns, price, amount, side FROM gmo.trades WHERE symbol = '");
    push_range(&mut s, symbol, start_ns, end_ns);
    push_str(&mut s, ") ORDER BY exchange_ts FORMAT JSONEachRow");
    assert(s@ =~= spec_trades_sql(symbol@, start_ns, end_ns));
    s
}

/// The bars query.
pub fn bars_sql(symbol: &str, interval: u64, start_ns: i64, end_ns: i64) -> (q: String)
    ensures
        q@ == spec_bars_sql(symbol@, interval, start_ns, end_ns),
{
    let mut s = String::new();
    push_str(&mut s, "SELECT symbol, bucket, toUnixTimestamp64Nano(bucket) AS start_ns, toUnixTimestamp64Nano(addSeconds(bucket, ");
    push_u64(&mut s, interval);
    push_str(&mut s, ")) - 1 AS end_ns, argMin(price, exchange_ts) AS open, max(price) AS high, min(price) AS low, argMax(price, exchange_ts) AS close, sum(amount) AS volume FROM ( SELECT symbol, price, amount, exchange_ts, toStartOfInterval(exchange_ts, INTERVAL ");
    push_u64(&mut s, interval);
    push_str(&mut s, " SECOND) AS bucket FROM gmo.trades WHERE symbol = '");
    push_range(&mut s, symbol, start_ns, end_ns);
    push_str(&mut s, ") ) GROUP BY symbol, bucket ORDER BY bucket FORMAT JSONEachRow");
    assert(s@ =~= spec_bars_sql(symbol@, interval, start_ns, end_ns));
    s
}

/// The query for the latest order book instant.
pub fn snapshot_ts_sql(symbol: &str, at_ns: i64) -> (q: String)
    ensures
        q@ == spec_snapshot_ts_sql(symbol@, at_ns),
{
    let mut s = String::new();
    push_str(&mut s, "SELECT toUnixTimestamp64Nano(max(exchange_ts)) AS ts FROM gmo.orderbooks WHERE symbol = '");
    push_str(&mut s, symbol);
    push_str(&mut s, "' AND exchange_ts <= fromUnixTimestamp64Nano(");
    push_i64(&mut s, at_ns);
    push_str(&mut s, ") FORMAT JSONEachRow");
    assert(s@ =~= spec_snapshot_ts_sql(symbol@, at_ns));
    s
}

/// The query for the levels of one order book instant.
pub fn snapshot_rows_sql(symbol: &str, ts: i64) -> (q: String)
    ensures
        q@ == spec_snapshot_rows_sql(symbol@, ts),
{
    let mut s = String::new();
    push_str(&mut s, "SELECT symbol, side, price, size, toUnixTimestamp64Nano(exchange_ts) AS exchange_ts_ns, toUnixTimestamp64Nano(received_at) AS received_at_ns FROM gmo.orderbooks WHERE symbol = '");
    push_str(&mut s, symbol);
    push_str(&mut s, "' AND exchange_ts = fromUnixTimestamp64Nano(");
    push_i64(&mut s, ts);
    push_str(&mut s, ") FORMAT JSONEachRow");
    assert(s@ =~= spec_snapshot_rows_sql(symbol@, ts));
    s
}

/// The tickers query.
pub fn tickers_sql(symbol: &str, start_ns: i64, end_ns: i64) -> (q: String)
    ensures
        q@ == spec_tickers_sql(symbol@, start_ns, end_ns),
{
    let mut s = String::new();
    push_str(&mut s, "SELECT symbol, toUnixTimestamp64Nano(exchange_ts) AS exchange_ts_ns, toUnixTimestamp64Nano(received_at) AS received_at_ns, best_bid, best_ask, last, volume_24h FROM gmo.tickers WHERE symbol = '");
    push_range(&mut s, symbol, start_ns, end_ns);
    push_str(&mut s, ") ORDER BY exchange_ts FORMAT JSONEachRow");
    assert(s@ =~= spec_tickers_sql(symbol@, start_ns, end_ns));
    s
}

/// The order book snapshots query.
pub fn orderbooks_sql(symbol: &str, start_ns: i64, end_ns: i64) -> (q: String)
    ensures
        q@ == spec_orderbooks_sql(symbol@, start_ns, end_ns),
{
    let mut s = String::new();
    push_str(&mut s, "SELECT symbol, toUnixTimestamp64Nano(exchange_ts) AS exchange_ts_ns, toUnixTimestamp64Nano(received_at) AS received_at_ns, groupArrayIf([price, size], side = 'BID') AS bids, groupArrayIf([price, size], side = 'ASK') AS asks FROM gmo.orderbooks WHERE symbol = '");
    push_range(&mut s, symbol, start_ns, end_ns);
    push_str(&mut s, ") GROUP BY symbol, exchange_ts, received_at ORDER BY exchange_ts FORMAT JSONEachRow");
    assert(s@ =~= spec_orderbooks_sql(symbol@, start_ns, end_ns));
    s
}

} // verus!
