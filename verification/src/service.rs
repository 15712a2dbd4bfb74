//! The decisions of the backtesting API: request validation, query text,
//! and the reading of ClickHouse rows into market messages.

use vstd::prelude::*;
use crate::backtest::{
    bar_agg_of, bar_interval_of, Bar, BarAgg, BarInterval, BarView, GetBarsRequest, GetOrderbookSnapshotRequest,
    GetTradesRequest, ReplayRequest,
};
use crate::config::QueryLimits;
use crate::json::{deref_opt, spec_get, JsonValue};
use crate::market::{
    MarketMessage, MarketMessageView, Msg, MsgView, OrderbookLevel, OrderbookSnapshot, SnapshotView,
};
use crate::rows::{
    parse_bar, row_f64, row_i64, row_value, spec_parse_bar, spec_parse_orderbook, spec_parse_ticker,
    spec_parse_trade, spec_row_f64, spec_row_i64, spec_row_value, RowError,
};
use crate::sql::{
    bars_sql, orderbooks_sql, snapshot_rows_sql, snapshot_ts_sql, spec_bars_sql, spec_orderbooks_sql,
    spec_snapshot_rows_sql, spec_snapshot_ts_sql, spec_tickers_sql, spec_trades_sql, tickers_sql, trades_sql,
};
use crate::text::{float_parse_error_message, float_parse_error_text, int_parse_error_message, int_parse_error_text, chars_of, is_upper_or_digit_or_underscore, owned, push_str, str_eq};

verus! {

/// gRPC status codes the API answers with.
#[derive(Debug, Clone, Copy, PartialEq, Eq, Structural)]
pub enum Code {
    InvalidArgument,
    NotFound,
    Internal,
    Unauthenticated,
}

/// A refused or failed request: a status code and its message.
#[derive(Debug)]
pub struct ServiceError {
    pub code: Code,
    pub message: String,
}

pub struct ErrorView {
    pub code: Code,
    pub message: Seq<char>,
}

impl View for ServiceError {
    type V = ErrorView;

    open spec fn view(&self) -> ErrorView {
        ErrorView { code: self.code, message: self.message@ }
    }
}

pub open spec fn err(code: Code, message: Seq<char>) -> ErrorView {
    ErrorView { code, message }
}

/// A service error from a code and a message.
pub fn status(code: Code, message: &str) -> (e: ServiceError)
    ensures
        e@ == err(code, message@),
{
    ServiceError { code, message: owned(message) }
}

/// Symbols are one or more of `A`–`Z`, `0`–`9` and `_`.
pub open spec fn spec_validate_symbol(s: Seq<char>) -> Result<(), ErrorView> {
    if s.len() == 0 {
        Err(err(Code::InvalidArgument, "symbol must not be empty"@))
    } else if !(forall|i: int| 0 <= i < s.len() ==> is_upper_or_digit_or_underscore(#[trigger] s[i])) {
        Err(err(Code::InvalidArgument, "symbol must match [A-Z0-9_]+"@))
    } else {
        Ok(())
    }
}

/// A time range is accepted when both ends are positive and it is not reversed.
pub open spec fn spec_validate_range(start_ns: i64, end_ns: i64) -> Result<(i64, i64), ErrorView> {
    if start_ns <= 0 || end_ns <= 0 {
        Err(err(Code::InvalidArgument, "timestamps must be positive"@))
    } else if end_ns < start_ns {
        Err(err(Code::InvalidArgument, "end_ns must be >= start_ns"@))
    } else {
        Ok((start_ns, end_ns))
    }
}

/// The width in seconds of the bars a request asks for.
pub open spec fn spec_interval_seconds(interval: i32, custom_interval_ns: u64) -> Result<u64, ErrorView> {
    match bar_interval_of(interval) {
        BarInterval::BarInterval1s => Ok(1),
        BarInterval::BarInterval5s => Ok(5),
        BarInterval::BarInterval1m => Ok(60),
        BarInterval::Custom => if custom_interval_ns == 0 {
            Err(err(Code::InvalidArgument, "custom interval must be > 0"@))
        } else if custom_interval_ns / 1_000_000_000 < 1 {
            Ok(1)
        } else {
            Ok(custom_interval_ns / 1_000_000_000)
        },
        BarInterval::Unspecified => Err(err(Code::InvalidArgument, "interval must be specified"@)),
    }
}

/// Holds the query limits of the service; the request checks and row readers
/// are its associated functions.
#[derive(Clone)]
pub struct BacktestServiceImpl {
    pub limits: QueryLimits,
}

impl BacktestServiceImpl {
    /// A service with the given query limits.
    pub fn with_limits(limits: QueryLimits) -> (s: Self)
        ensures
            s.limits == limits,
    {
        BacktestServiceImpl { limits }
    }

    /// Accepts a symbol made of `[A-Z0-9_]+`.
    pub fn validate_symbol<'a>(symbol: &'a str) -> (r: Result<&'a str, ServiceError>)
        ensures
            match r {
                Ok(s) => s@ == symbol@ && spec_validate_symbol(symbol@) is Ok,
                Err(e) => spec_validate_symbol(symbol@) == Err::<(), ErrorView>(e@),
            },
    {
        let cs = chars_of(symbol);
        if cs.len() == 0 {
            return Err(status(Code::InvalidArgument, "symbol must not be empty"));
        }
        let mut i: usize = 0;
        while i < cs.len()
            invariant
                cs@ == symbol@,
                i <= cs.len(),
                forall|j: int| 0 <= j < i ==> is_upper_or_digit_or_underscore(#[trigger] cs@[j]),
            decreases cs.len() - i,
        {
            let c = cs[i];
            if !(('A' <= c && c <= 'Z') || ('0' <= c && c <= '9') || c == '_') {
                assert(!is_upper_or_digit_or_underscore(symbol@[i as int]));
                return Err(status(Code::InvalidArgument, "symbol must match [A-Z0-9_]+"));
            }
            i = i + 1;
        }
        Ok(symbol)
    }

    /// Accepts a range of positive timestamps with `start_ns <= end_ns`.
    pub fn validate_range(start_ns: i64, end_ns: i64) -> (r: Result<(i64, i64), ServiceError>)
        ensures
            match r {
                Ok(p) => spec_validate_range(start_ns, end_ns) == Ok::<(i64, i64), ErrorView>(p),
                Err(e) => spec_validate_range(start_ns, end_ns) == Err::<(i64, i64), ErrorView>(e@),
            },
    {
        if start_ns <= 0 || end_ns <= 0 {
            return Err(status(Code::InvalidArgument, "timestamps must be positive"));
        }
        if end_ns < start_ns {
            return Err(status(Code::InvalidArgument, "end_ns must be >= start_ns"));
        }
        Ok((start_ns, end_ns))
    }

    /// The bar width in seconds: 1, 5 or 60 for the built-in widths, whole
    /// seconds (at least one) of a non-zero custom width.
    pub fn interval_seconds(request: &GetBarsRequest) -> (r: Result<u64, ServiceError>)
        ensures
            match r {
                Ok(s) => spec_interval_seconds(request.interval, request.custom_interval_ns) == Ok::<u64, ErrorView>(s),
                Err(e) => spec_interval_seconds(request.interval, request.custom_interval_ns) == Err::<u64, ErrorView>(e@),
            },
    {
        let seconds: u64 = match request.interval() {
            BarInterval::BarInterval1s => 1,
            BarInterval::BarInterval5s => 5,
            BarInterval::BarInterval1m => 60,
            BarInterval::Custom => {
                if request.custom_interval_ns == 0 {
                    return Err(status(Code::InvalidArgument, "custom interval must be > 0"));
                }
                let s = request.custom_interval_ns / 1_000_000_000;
                if s < 1 {
                    1
                } else {
                    s
                }
            },
            BarInterval::Unspecified => {
                return Err(status(Code::InvalidArgument, "interval must be specified"));
            },
        };
        Ok(seconds)
    }
}


/// The message of a row error; an integer or float text that does not parse
/// gives std's own message for it.
pub open spec fn row_error_message(e: RowError) -> Seq<char> {
    match e {
        RowError::MissingField(k) => "missing field '"@ + k@ + "'"@,
        RowError::MissingInteger(k) => "missing integer field '"@ + k@ + "'"@,
        RowError::InvalidInteger(_, why) => int_parse_error_message(why),
        RowError::MissingFloat(k) => "missing float field '"@ + k@ + "'"@,
        RowError::InvalidFloat(_, why) => float_parse_error_message(why),
        RowError::MissingArray(k) => "missing array '"@ + k@ + "'"@,
        RowError::InvalidPriceArray => "invalid price array"@,
        RowError::InvalidSizeArray => "invalid size array"@,
        RowError::InvalidPriceObject => "invalid price object"@,
        RowError::InvalidSizeObject => "invalid size object"@,
        RowError::UnexpectedLevel => "unexpected orderbook level"@,
    }
}

/// A row that cannot be read fails the request as an internal error.
pub open spec fn row_failure(e: RowError) -> ErrorView {
    err(Code::Internal, row_error_message(e))
}

fn keyed(prefix: &str, key: &str) -> (s: String)
    ensures
        s@ == prefix@ + key@ + "'"@,
{
    let mut s = owned(prefix);
    push_str(&mut s, key);
    push_str(&mut s, "'");
    s
}

/// The internal error for a row that cannot be read.
pub fn internal_error(e: RowError) -> (r: ServiceError)
    ensures
        r@ == row_failure(e),
{
    let message = match e {
        RowError::MissingField(k) => keyed("missing field '", k),
        RowError::MissingInteger(k) => keyed("missing integer field '", k),
        RowError::InvalidInteger(_, why) => owned(int_parse_error_text(why)),
        RowError::MissingFloat(k) => keyed("missing float field '", k),
        RowError::InvalidFloat(_, why) => owned(float_parse_error_text(why)),
        RowError::MissingArray(k) => keyed("missing array '", k),
        RowError::InvalidPriceArray => owned("invalid price array"),
        RowError::InvalidSizeArray => owned("invalid size array"),
        RowError::InvalidPriceObject => owned("invalid price object"),
        RowError::InvalidSizeObject => owned("invalid size object"),
        RowError::UnexpectedLevel => owned("unexpected orderbook level"),
    };
    ServiceError { code: Code::Internal, message }
}

/// `GetTrades`: the query for a valid request.
pub open spec fn spec_trades_query(symbol: Seq<char>, start_ns: i64, end_ns: i64) -> Result<Seq<char>, ErrorView> {
    match spec_validate_symbol(symbol) {
        Err(e) => Err(e),
        Ok(_) => match spec_validate_range(start_ns, end_ns) {
            Err(e) => Err(e),
            Ok((s, e)) => Ok(spec_trades_sql(symbol, s, e)),
        },
    }
}

/// `GetBars`: the query for a valid request (OHLCV only).
pub open spec fn spec_bars_query(req: GetBarsRequest) -> Result<Seq<char>, ErrorView> {
    match spec_validate_symbol(req.symbol@) {
        Err(e) => Err(e),
        Ok(_) => match spec_validate_range(req.start_ns, req.end_ns) {
            Err(e) => Err(e),
            Ok((s, e)) => if bar_agg_of(req.aggregation) != BarAgg::Ohlcv {
                Err(err(Code::InvalidArgument, "unsupported aggregation"@))
            } else {
                match spec_interval_seconds(req.interval, req.custom_interval_ns) {
                    Err(e) => Err(e),
                    Ok(interval) => Ok(spec_bars_sql(req.symbol@, interval, s, e)),
                }
            },
        },
    }
}

/// `GetOrderbookSnapshot`: the query for the latest instant at or before `at_ns`.
pub open spec fn spec_snapshot_query(symbol: Seq<char>, at_ns: i64) -> Result<Seq<char>, ErrorView> {
    match spec_validate_symbol(symbol) {
        Err(e) => Err(e),
        Ok(_) => match spec_validate_range(at_ns, at_ns) {
            Err(e) => Err(e),
            Ok((s, _)) => Ok(spec_snapshot_ts_sql(symbol, s)),
        },
    }
}

impl BacktestServiceImpl {
    /// Checks a `GetTrades` request and gives its query.
    pub fn trades_query(req: &GetTradesRequest) -> (r: Result<String, ServiceError>)
        ensures
            match r {
                Ok(q) => spec_trades_query(req.symbol@, req.start_ns, req.end_ns) == Ok::<Seq<char>, ErrorView>(q@),
                Err(e) => spec_trades_query(req.symbol@, req.start_ns, req.end_ns) == Err::<Seq<char>, ErrorView>(e@),
            },
    {
        let symbol = Self::validate_symbol(req.symbol.as_str())?;
        let (start_ns, end_ns) = Self::validate_range(req.start_ns, req.end_ns)?;
        Ok(trades_sql(symbol, start_ns, end_ns))
    }

    /// Checks a `GetBars` request and gives its query.
    pub fn bars_query(req: &GetBarsRequest) -> (r: Result<String, ServiceError>)
        ensures
            match r {
                Ok(q) => spec_bars_query(*req) == Ok::<Seq<char>, ErrorView>(q@),
                Err(e) => spec_bars_query(*req) == Err::<Seq<char>, ErrorView>(e@),
            },
    {
        let symbol = Self::validate_symbol(req.symbol.as_str())?;
        let (start_ns, end_ns) = Self::validate_range(req.start_ns, req.end_ns)?;
        if req.aggregation() != BarAgg::Ohlcv {
            return Err(status(Code::InvalidArgument, "unsupported aggregation"));
        }
        let interval = Self::interval_seconds(req)?;
        Ok(bars_sql(symbol, interval, start_ns, end_ns))
    }

    /// Checks a `GetOrderbookSnapshot` request and gives the query for the
    /// latest order book instant.
    pub fn snapshot_query(req: &GetOrderbookSnapshotRequest) -> (r: Result<String, ServiceError>)
        ensures
            match r {
                Ok(q) => spec_snapshot_query(req.symbol@, req.at_ns) == Ok::<Seq<char>, ErrorView>(q@),
                Err(e) => spec_snapshot_query(req.symbol@, req.at_ns) == Err::<Seq<char>, ErrorView>(e@),
            },
    {
        let symbol = Self::validate_symbol(req.symbol.as_str())?;
        let (at_ns, _) = Self::validate_range(req.at_ns, req.at_ns)?;
        Ok(snapshot_ts_sql(symbol, at_ns))
    }
}

/// Reads a bar row; a row that cannot be read is an internal error.
pub fn bar_from_row(row: &JsonValue) -> (r: Result<Bar, ServiceError>)
    ensures
        match r {
            Ok(b) => spec_parse_bar(*row) == Ok::<BarView, RowError>(b@),
            Err(e) => match spec_parse_bar(*row) {
                Err(re) => e@ == row_failure(re),
                Ok(_) => false,
            },
        },
{
    match parse_bar(row) {
        Ok(b) => Ok(b),
        Err(e) => Err(internal_error(e)),
    }
}


/// The instant of the latest snapshot, from the row of the lookup query:
/// absent rows and a zero instant mean there is none.
pub open spec fn spec_snapshot_ts(row: Option<JsonValue>) -> Result<i64, ErrorView> {
    match row {
        None => Err(err(Code::NotFound, "no snapshot available before requested time"@)),
        Some(r) => match spec_row_i64(r, "ts") {
            Err(e) => Err(row_failure(e)),
            Ok(ts) => if ts == 0 {
                Err(err(Code::NotFound, "no snapshot available before requested time"@))
            } else {
                Ok(ts)
            },
        },
    }
}

/// One level row of a snapshot: its instant, its level and its side.
pub open spec fn spec_snapshot_row(row: JsonValue) -> Result<(i64, OrderbookLevel, Seq<char>), ErrorView> {
    match spec_row_i64(row, "exchange_ts_ns") {
        Err(e) => Err(row_failure(e)),
        Ok(ts) => match spec_row_f64(row, "price") {
            Err(e) => Err(row_failure(e)),
            Ok(price) => match spec_row_f64(row, "size") {
                Err(e) => Err(row_failure(e)),
                Ok(size) => match spec_row_value(row, "side") {
                    Err(e) => Err(row_failure(e)),
                    Ok(side) => Ok((ts, OrderbookLevel { price: crate::market::Float64 { bits: price }, size: crate::market::Float64 { bits: size } }, side)),
                },
            },
        },
    }
}

/// The first `k` level rows sorted into bids and asks, with the instant of
/// the last one read (`ts` when none is), or the first error among them.
pub open spec fn spec_snapshot_upto(rows: Seq<JsonValue>, ts: i64, k: nat) -> Result<(i64, Seq<OrderbookLevel>, Seq<OrderbookLevel>), ErrorView>
    decreases k,
{
    if k == 0 {
        Ok((ts, Seq::empty(), Seq::empty()))
    } else {
        match spec_snapshot_upto(rows, ts, (k - 1) as nat) {
            Err(e) => Err(e),
            Ok((_, bids, asks)) => match spec_snapshot_row(rows[k - 1]) {
                Err(e) => Err(e),
                Ok((ets, level, side)) => if side == "BID"@ {
                    Ok((ets, bids.push(level), asks))
                } else if side == "ASK"@ {
                    Ok((ets, bids, asks.push(level)))
                } else {
                    Err(err(Code::Internal, "unexpected side "@ + side))
                },
            },
        }
    }
}

/// The snapshot of `symbol` at `ts` from its level rows; a snapshot with no
/// level is not found.
pub open spec fn spec_assemble_snapshot(symbol: Seq<char>, ts: i64, rows: Seq<JsonValue>) -> Result<SnapshotView, ErrorView> {
    match spec_snapshot_upto(rows, ts, rows.len()) {
        Err(e) => Err(e),
        Ok((ets, bids, asks)) => if bids.len() == 0 && asks.len() == 0 {
            Err(err(Code::NotFound, "orderbook snapshot empty"@))
        } else {
            Ok(SnapshotView { symbol, exchange_ts_ns: ets, bids, asks })
        },
    }
}

proof fn lemma_snapshot_error_sticks(rows: Seq<JsonValue>, ts: i64, k: nat, n: nat)
    requires
        k <= n,
        spec_snapshot_upto(rows, ts, k) is Err,
    ensures
        spec_snapshot_upto(rows, ts, n) == spec_snapshot_upto(rows, ts, k),
    decreases n - k,
{
    if k < n {
        lemma_snapshot_error_sticks(rows, ts, k, (n - 1) as nat);
    }
}

/// The instant of the latest snapshot from the lookup row.
pub fn snapshot_ts(row: Option<&JsonValue>) -> (r: Result<i64, ServiceError>)
    ensures
        match r {
            Ok(ts) => spec_snapshot_ts(deref_opt(row)) == Ok::<i64, ErrorView>(ts),
            Err(e) => spec_snapshot_ts(deref_opt(row)) == Err::<i64, ErrorView>(e@),
        },
{
    let row = match row {
        Some(r) => r,
        None => return Err(status(Code::NotFound, "no snapshot available before requested time")),
    };
    let ts = match row_i64(row, "ts") {
        Ok(ts) => ts,
        Err(e) => return Err(internal_error(e)),
    };
    if ts == 0 {
        return Err(status(Code::NotFound, "no snapshot available before requested time"));
    }
    Ok(ts)
}

fn snapshot_row(row: &JsonValue) -> (r: Result<(i64, OrderbookLevel, String), ServiceError>)
    ensures
        match r {
            Ok((ts, level, side)) => spec_snapshot_row(*row) == Ok::<(i64, OrderbookLevel, Seq<char>), ErrorView>((ts, level, side@)),
            Err(e) => spec_snapshot_row(*row) == Err::<(i64, OrderbookLevel, Seq<char>), ErrorView>(e@),
        },
{
    let ts = match row_i64(row, "exchange_ts_ns") {
        Ok(v) => v,
        Err(e) => return Err(internal_error(e)),
    };
    let price = match row_f64(row, "price") {
        Ok(v) => v,
        Err(e) => return Err(internal_error(e)),
    };
    let size = match row_f64(row, "size") {
        Ok(v) => v,
        Err(e) => return Err(internal_error(e)),
    };
    let side = match row_value(row, "side") {
        Ok(v) => v,
        Err(e) => return Err(internal_error(e)),
    };
    Ok((ts, OrderbookLevel { price, size }, side))
}

/// Builds the snapshot of `symbol` at `ts` from its level rows (sides `BID`
/// and `ASK`); the instant of the snapshot is that of the last row.
pub fn assemble_snapshot(symbol: &str, ts: i64, rows: &Vec<JsonValue>) -> (r: Result<OrderbookSnapshot, ServiceError>)
    ensures
        match r {
            Ok(s) => spec_assemble_snapshot(symbol@, ts, rows@) == Ok::<SnapshotView, ErrorView>(s@),
            Err(e) => spec_assemble_snapshot(symbol@, ts, rows@) == Err::<SnapshotView, ErrorView>(e@),
        },
{
    let mut bids: Vec<OrderbookLevel> = Vec::new();
    let mut asks: Vec<OrderbookLevel> = Vec::new();
    let mut exchange_ts_ns = ts;
    let mut i: usize = 0;
    while i < rows.len()
        invariant
            i <= rows.len(),
            spec_snapshot_upto(rows@, ts, i as nat) == Ok::<(i64, Seq<OrderbookLevel>, Seq<OrderbookLevel>), ErrorView>((exchange_ts_ns, bids@, asks@)),
        decreases rows.len() - i,
    {
        let (row_ts, level, side) = match snapshot_row(&rows[i]) {
            Ok(x) => x,
            Err(e) => {
                proof {
                    lemma_snapshot_error_sticks(rows@, ts, (i + 1) as nat, rows@.len());
                }
                return Err(e);
            },
        };
        exchange_ts_ns = row_ts;
        if str_eq(side.as_str(), "BID") {
            bids.push(level);
        } else if str_eq(side.as_str(), "ASK") {
            asks.push(level);
        } else {
            let mut message = owned("unexpected side ");
            push_str(&mut message, side.as_str());
            proof {
                lemma_snapshot_error_sticks(rows@, ts, (i + 1) as nat, rows@.len());
            }
            return Err(ServiceError { code: Code::Internal, message });
        }
        i = i + 1;
    }
    if bids.len() == 0 && asks.len() == 0 {
        return Err(status(Code::NotFound, "orderbook snapshot empty"));
    }
    Ok(OrderbookSnapshot { symbol: owned(symbol), exchange_ts_ns, bids, asks })
}


/// Reads a trade row for `GetTrades` (the reception time is not sent); a
/// row that cannot be read is an internal error.
pub fn trade_from_row(row: &JsonValue) -> (r: Result<crate::market::Trade, ServiceError>)
    ensures
        match r {
            Ok(t) => match spec_parse_trade(*row) {
                Ok((tv, _)) => t@ == tv,
                Err(_) => false,
            },
            Err(e) => match spec_parse_trade(*row) {
                Err(re) => e@ == row_failure(re),
                Ok(_) => false,
            },
        },
{
    match BacktestServiceImpl::parse_trade(row) {
        Ok((t, _)) => Ok(t),
        Err(e) => Err(internal_error(e)),
    }
}

/// A level row is read column by column: the level's price from `price`, its
/// size from `size`, its side from `side` and its instant from
/// `exchange_ts_ns`.
pub proof fn lemma_snapshot_row_columns(row: JsonValue)
    ensures
        spec_snapshot_row(row) matches Ok((ts, level, side)) ==> {
            &&& spec_row_i64(row, "exchange_ts_ns") == Ok::<i64, RowError>(ts)
            &&& spec_row_f64(row, "price") == Ok::<u64, RowError>(level.price.bits)
            &&& spec_row_f64(row, "size") == Ok::<u64, RowError>(level.size.bits)
            &&& spec_row_value(row, "side") == Ok::<Seq<char>, RowError>(side)
        },
{
}

/// The levels of the rows of one side, in row order: each the `price` and
/// `size` columns of a row whose `side` column is `side`.
pub open spec fn side_levels(rows: Seq<JsonValue>, side: Seq<char>) -> Seq<OrderbookLevel>
    decreases rows.len(),
{
    if rows.len() == 0 {
        Seq::empty()
    } else {
        let prev = side_levels(rows.drop_last(), side);
        let row = rows.last();
        if spec_row_value(row, "side") == Ok::<Seq<char>, RowError>(side) {
            prev.push(OrderbookLevel {
                price: crate::market::Float64 { bits: spec_row_f64(row, "price")->Ok_0 },
                size: crate::market::Float64 { bits: spec_row_f64(row, "size")->Ok_0 },
            })
        } else {
            prev
        }
    }
}

proof fn lemma_snapshot_upto_sides(rows: Seq<JsonValue>, ts: i64, k: nat)
    requires
        k <= rows.len(),
    ensures
        spec_snapshot_upto(rows, ts, k) matches Ok((_, bids, asks)) ==> {
            &&& bids == side_levels(rows.take(k as int), "BID"@)
            &&& asks == side_levels(rows.take(k as int), "ASK"@)
        },
    decreases k,
{
    reveal_strlit("BID");
    reveal_strlit("ASK");
    if k > 0 {
        let km = (k - 1) as nat;
        lemma_snapshot_upto_sides(rows, ts, km);
        lemma_snapshot_row_columns(rows[km as int]);
        assert(rows.take(k as int).drop_last() =~= rows.take(km as int));
        assert(rows.take(k as int).last() == rows[km as int]);
        assert("BID"@ != "ASK"@) by {
            assert("BID"@[0] != "ASK"@[0]);
        }
    }
}

/// An assembled snapshot's bids are the levels of its `BID` rows and its asks
/// those of its `ASK` rows, each the row's `price` and `size` columns, in row
/// order.
pub proof fn lemma_snapshot_levels_from_rows(symbol: Seq<char>, ts: i64, rows: Seq<JsonValue>)
    ensures
        spec_assemble_snapshot(symbol, ts, rows) matches Ok(s) ==> {
            &&& s.bids == side_levels(rows, "BID"@)
            &&& s.asks == side_levels(rows, "ASK"@)
        },
{
    lemma_snapshot_upto_sides(rows, ts, rows.len());
    assert(rows.take(rows.len() as int) =~= rows);
}

/// The instant of the latest snapshot is the lookup row's `ts` column, which
/// is never zero; a missing row, or a zero instant, means no snapshot.
pub proof fn lemma_snapshot_ts_column(row: Option<JsonValue>)
    ensures
        spec_snapshot_ts(row) matches Ok(ts) ==> {
            &&& ts != 0
            &&& row matches Some(r)
            &&& spec_row_i64(r, "ts") == Ok::<i64, RowError>(ts)
        },
        row is None ==> (spec_snapshot_ts(row) matches Err(e) && e.code == Code::NotFound),
        (row matches Some(r) && spec_row_i64(r, "ts") == Ok::<i64, RowError>(0)) ==> (spec_snapshot_ts(row) matches Err(e) && e.code == Code::NotFound),
{
}

} // verus!
