//! Market replay: the events of several symbols merged in exchange order,
//! with the gaps that pace them.

use vstd::prelude::*;
use crate::backtest::ReplayRequest;
use crate::json::JsonValue;
use crate::market::{MarketMessage, MarketMessageView, Msg, MsgView};
use crate::rows::{spec_parse_orderbook, spec_parse_ticker, spec_parse_trade, spec_row_i64, RowError};
use crate::service::{
    err, internal_error, row_failure, spec_validate_range, status, BacktestServiceImpl, Code, ErrorView,
    ServiceError,
};

verus! {

/// One replayed market message and the exchange instant it is ordered by.
#[derive(Debug, Clone)]
pub struct ReplayEvent {
    pub ts: i64,
    pub message: MarketMessage,
}

pub struct EventView {
    pub ts: i64,
    pub message: MarketMessageView,
}

impl View for ReplayEvent {
    type V = EventView;

    open spec fn view(&self) -> EventView {
        EventView { ts: self.ts, message: self.message@ }
    }
}

/// The views of a sequence of events.
pub open spec fn event_views(v: Seq<ReplayEvent>) -> Seq<EventView> {
    v.map_values(|e: ReplayEvent| e@)
}

/// Which table a row comes from.
#[derive(Debug, Clone, Copy, PartialEq, Eq, Structural)]
pub enum RowKind {
    Trade,
    Ticker,
    Orderbook,
}

/// `Replay` request checks: at least one symbol, and a valid range.
pub open spec fn spec_validate_replay(n_symbols: nat, start_ns: i64, end_ns: i64) -> Result<(i64, i64), ErrorView> {
    if n_symbols == 0 {
        Err(err(Code::InvalidArgument, "at least one symbol must be provided"@))
    } else {
        spec_validate_range(start_ns, end_ns)
    }
}

/// The event of one row: ordered by the exchange instant of its message.
pub open spec fn spec_row_event(kind: RowKind, row: JsonValue) -> Result<EventView, ErrorView> {
    match kind {
        RowKind::Trade => match spec_parse_trade(row) {
            Err(e) => Err(row_failure(e)),
            Ok((t, received)) => Ok(EventView {
                ts: t.exchange_ts_ns,
                message: MarketMessageView { msg: Some(MsgView::Trade(t)), received_at_ns: received },
            }),
        },
        RowKind::Ticker => match spec_parse_ticker(row) {
            Err(e) => Err(row_failure(e)),
            Ok((t, received)) => Ok(EventView {
                ts: t.exchange_ts_ns,
                message: MarketMessageView { msg: Some(MsgView::Ticker(t)), received_at_ns: received },
            }),
        },
        RowKind::Orderbook => match spec_parse_orderbook(row) {
            Err(e) => Err(row_failure(e)),
            Ok((s, received)) => Ok(EventView {
                ts: s.exchange_ts_ns,
                message: MarketMessageView { msg: Some(MsgView::ObSnapshot(s)), received_at_ns: received },
            }),
        },
    }
}

/// The events of the first `k` rows, or the first error among them.
pub open spec fn spec_row_events_upto(kind: RowKind, rows: Seq<JsonValue>, k: nat) -> Result<Seq<EventView>, ErrorView>
    decreases k,
{
    if k == 0 {
        Ok(Seq::empty())
    } else {
        match spec_row_events_upto(kind, rows, (k - 1) as nat) {
            Err(e) => Err(e),
            Ok(prev) => match spec_row_event(kind, rows[k - 1]) {
                Err(e) => Err(e),
                Ok(ev) => Ok(prev.push(ev)),
            },
        }
    }
}

/// The events of all the rows of one query, in row order.
pub open spec fn spec_row_events(kind: RowKind, rows: Seq<JsonValue>) -> Result<Seq<EventView>, ErrorView> {
    spec_row_events_upto(kind, rows, rows.len())
}

proof fn lemma_events_error_sticks(kind: RowKind, rows: Seq<JsonValue>, k: nat, n: nat)
    requires
        k <= n,
        spec_row_events_upto(kind, rows, k) is Err,
    ensures
        spec_row_events_upto(kind, rows, n) == spec_row_events_upto(kind, rows, k),
    decreases n - k,
{
    if k < n {
        lemma_events_error_sticks(kind, rows, k, (n - 1) as nat);
    }
}

fn row_event(kind: RowKind, row: &JsonValue) -> (r: Result<ReplayEvent, ServiceError>)
    ensures
        match r {
            Ok(ev) => spec_row_event(kind, *row) == Ok::<EventView, ErrorView>(ev@),
            Err(e) => spec_row_event(kind, *row) == Err::<EventView, ErrorView>(e@),
        },
{
    match kind {
        RowKind::Trade => match BacktestServiceImpl::parse_trade(row) {
            Err(e) => Err(internal_error(e)),
            Ok((trade, received)) => Ok(ReplayEvent {
                ts: trade.exchange_ts_ns,
                message: MarketMessage { msg: Some(Msg::Trade(trade)), received_at_ns: received },
            }),
        },
        RowKind::Ticker => match BacktestServiceImpl::parse_ticker(row) {
            Err(e) => Err(internal_error(e)),
            Ok((ticker, received)) => Ok(ReplayEvent {
                ts: ticker.exchange_ts_ns,
                message: MarketMessage { msg: Some(Msg::Ticker(ticker)), received_at_ns: received },
            }),
        },
        RowKind::Orderbook => match BacktestServiceImpl::parse_orderbook(row) {
            Err(e) => Err(internal_error(e)),
            Ok((snapshot, received)) => Ok(ReplayEvent {
                ts: snapshot.exchange_ts_ns,
                message: MarketMessage { msg: Some(Msg::ObSnapshot(snapshot)), received_at_ns: received },
            }),
        },
    }
}

/// Appends the events of the rows of one query.  On error the request
/// fails, so what was appended before it does not matter.
pub fn append_row_events(events: &mut Vec<ReplayEvent>, kind: RowKind, rows: &Vec<JsonValue>) -> (r: Result<(), ServiceError>)
    ensures
        match r {
            Ok(()) => match spec_row_events(kind, rows@) {
                Ok(evs) => event_views(final(events)@) == event_views(old(events)@) + evs,
                Err(_) => false,
            },
            Err(e) => spec_row_events(kind, rows@) == Err::<Seq<EventView>, ErrorView>(e@),
        },
{
    let ghost start = event_views(events@);
    let mut i: usize = 0;
    assert(event_views(events@) =~= start + Seq::<EventView>::empty());
    while i < rows.len()
        invariant
            i <= rows.len(),
            spec_row_events_upto(kind, rows@, i as nat) is Ok,
            event_views(events@) == start + spec_row_events_upto(kind, rows@, i as nat)->Ok_0,
        decreases rows.len() - i,
    {
        let ev = match row_event(kind, &rows[i]) {
            Ok(ev) => ev,
            Err(e) => {
                proof {
                    lemma_events_error_sticks(kind, rows@, (i + 1) as nat, rows@.len());
                }
                return Err(e);
            },
        };
        let ghost before = events@;
        events.push(ev);
        assert(event_views(events@) =~= event_views(before).push(ev@));
        assert(event_views(events@) =~= start + spec_row_events_upto(kind, rows@, (i + 1) as nat)->Ok_0);
        i = i + 1;
    }
    Ok(())
}

impl BacktestServiceImpl {
    /// Checks a `Replay` request: at least one symbol and a valid range.
    pub fn validate_replay(req: &ReplayRequest) -> (r: Result<(i64, i64), ServiceError>)
        ensures
            match r {
                Ok(p) => spec_validate_replay(req.symbols@.len(), req.start_ns, req.end_ns) == Ok::<(i64, i64), ErrorView>(p),
                Err(e) => spec_validate_replay(req.symbols@.len(), req.start_ns, req.end_ns) == Err::<(i64, i64), ErrorView>(e@),
            },
    {
        if req.symbols.len() == 0 {
            return Err(status(Code::InvalidArgument, "at least one symbol must be provided"));
        }
        Self::validate_range(req.start_ns, req.end_ns)
    }
}

/// `i64::saturating_sub`.
pub open spec fn saturating_sub(a: i64, b: i64) -> i64 {
    if a - b > i64::MAX {
        i64::MAX
    } else if a - b < i64::MIN {
        i64::MIN
    } else {
        (a - b) as i64
    }
}

fn sat_sub(a: i64, b: i64) -> (r: i64)
    ensures
        r == saturating_sub(a, b),
{
    let d: i128 = a as i128 - b as i128;
    if d > i64::MAX as i128 {
        i64::MAX
    } else if d < i64::MIN as i128 {
        i64::MIN
    } else {
        d as i64
    }
}

/// The pause before the `i`-th event: the positive part of the (saturating)
/// difference between its instant and the previous one; none before the first.
pub open spec fn spec_gap(ts: Seq<i64>, i: int) -> i64 {
    if i <= 0 {
        0
    } else if saturating_sub(ts[i], ts[i - 1]) > 0 {
        saturating_sub(ts[i], ts[i - 1])
    } else {
        0
    }
}

/// The instants of a sequence of events.
pub open spec fn event_instants(evs: Seq<EventView>) -> Seq<i64> {
    evs.map_values(|e: EventView| e.ts)
}

/// The pause, in exchange nanoseconds, before each event of a replay.
pub fn replay_gaps(events: &Vec<ReplayEvent>) -> (gaps: Vec<i64>)
    ensures
        gaps@.len() == events@.len(),
        forall|i: int| 0 <= i < gaps@.len() ==> #[trigger] gaps@[i] == spec_gap(event_instants(event_views(events@)), i),
        forall|i: int| 0 <= i < gaps@.len() ==> #[trigger] gaps@[i] >= 0,
{
    let ghost ts = event_instants(event_views(events@));
    let mut gaps: Vec<i64> = Vec::new();
    let mut i: usize = 0;
    while i < events.len()
        invariant
            i <= events.len(),
            ts == event_instants(event_views(events@)),
            gaps@.len() == i,
            forall|j: int| 0 <= j < i ==> #[trigger] gaps@[j] == spec_gap(ts, j),
            forall|j: int| 0 <= j < i ==> #[trigger] gaps@[j] >= 0,
        decreases events.len() - i,
    {
        let g: i64 = if i == 0 {
            0
        } else {
            let d = sat_sub(events[i].ts, events[i - 1].ts);
            if d > 0 {
                d
            } else {
                0
            }
        };
        gaps.push(g);
        i = i + 1;
    }
    gaps
}

/// A replay event is placed at the row's `exchange_ts_ns` column and carries
/// the row's `received_at_ns` column as its reception time, whatever the
/// table; its payload is the row read as that table's message.
pub proof fn lemma_row_event_times(kind: RowKind, row: JsonValue)
    ensures
        spec_row_event(kind, row) matches Ok(ev) ==> {
            &&& spec_row_i64(row, "exchange_ts_ns") == Ok::<i64, RowError>(ev.ts)
            &&& spec_row_i64(row, "received_at_ns") == Ok::<i64, RowError>(ev.message.received_at_ns)
            &&& match kind {
                RowKind::Trade => spec_parse_trade(row) matches Ok((t, _)) && ev.message.msg == Some(MsgView::Trade(t)),
                RowKind::Ticker => spec_parse_ticker(row) matches Ok((t, _)) && ev.message.msg == Some(MsgView::Ticker(t)),
                RowKind::Orderbook => spec_parse_orderbook(row) matches Ok((sn, _)) && ev.message.msg == Some(MsgView::ObSnapshot(sn)),
            }
        },
{
}

proof fn lemma_row_events_upto_in_order(kind: RowKind, rows: Seq<JsonValue>, k: nat)
    requires
        k <= rows.len(),
    ensures
        spec_row_events_upto(kind, rows, k) matches Ok(evs) ==> {
            &&& evs.len() == k
            &&& forall|i: int| 0 <= i < k ==> spec_row_event(kind, #[trigger] rows[i]) == Ok::<EventView, ErrorView>(evs[i])
        },
    decreases k,
{
    if k > 0 {
        lemma_row_events_upto_in_order(kind, rows, (k - 1) as nat);
    }
}

/// The events of a query are those of its rows, one per row and in row order.
pub proof fn lemma_row_events_in_order(kind: RowKind, rows: Seq<JsonValue>)
    ensures
        spec_row_events(kind, rows) matches Ok(evs) ==> {
            &&& evs.len() == rows.len()
            &&& forall|i: int| 0 <= i < rows.len() ==> spec_row_event(kind, #[trigger] rows[i]) == Ok::<EventView, ErrorView>(evs[i])
        },
{
    lemma_row_events_upto_in_order(kind, rows, rows.len());
}

} // verus!
