//! Market data messages: trades, tickers and order book snapshots.
//!
//! Prices and sizes are IEEE-754 doubles on the wire; here each one is held
//! as the bit pattern of that double.

use vstd::prelude::*;

verus! {

/// An IEEE-754 double, held as its bit pattern.
#[derive(Clone, Copy, Debug, PartialEq, Eq)]
pub struct Float64 {
    pub bits: u64,
}

/// One trade execution.
#[derive(Debug, Clone)]
pub struct Trade {
    pub event_id: String,
    pub symbol: String,
    pub exchange_ts_ns: i64,
    pub price: Float64,
    pub amount: Float64,
    pub side: String,
}

/// Top-of-book ticker update.
#[derive(Debug, Clone)]
pub struct Ticker {
    pub symbol: String,
    pub exchange_ts_ns: i64,
    pub best_bid: Float64,
    pub best_ask: Float64,
    pub last: Float64,
    pub volume_24h: Float64,
}

/// One price level of an order book side.
#[derive(Clone, Copy, Debug, PartialEq, Eq)]
pub struct OrderbookLevel {
    pub price: Float64,
    pub size: Float64,
}

/// Order book depth at one instant.
#[derive(Debug, Clone)]
pub struct OrderbookSnapshot {
    pub symbol: String,
    pub exchange_ts_ns: i64,
    pub bids: Vec<OrderbookLevel>,
    pub asks: Vec<OrderbookLevel>,
}

/// The payload of a market message.
#[derive(Debug, Clone)]
pub enum Msg {
    Trade(Trade),
    Ticker(Ticker),
    ObSnapshot(OrderbookSnapshot),
}

/// The envelope published for each market event.
#[derive(Debug, Clone)]
pub struct MarketMessage {
    pub msg: Option<Msg>,
    pub received_at_ns: i64,
}

pub struct TradeView {
    pub event_id: Seq<char>,
    pub symbol: Seq<char>,
    pub exchange_ts_ns: i64,
    pub price: u64,
    pub amount: u64,
    pub side: Seq<char>,
}

pub struct TickerView {
    pub symbol: Seq<char>,
    pub exchange_ts_ns: i64,
    pub best_bid: u64,
    pub best_ask: u64,
    pub last: u64,
    pub volume_24h: u64,
}

pub struct SnapshotView {
    pub symbol: Seq<char>,
    pub exchange_ts_ns: i64,
    pub bids: Seq<OrderbookLevel>,
    pub asks: Seq<OrderbookLevel>,
}

pub enum MsgView {
    Trade(TradeView),
    Ticker(TickerView),
    ObSnapshot(SnapshotView),
}

pub struct MarketMessageView {
    pub msg: Option<MsgView>,
    pub received_at_ns: i64,
}

impl View for Trade {
    type V = TradeView;

    open spec fn view(&self) -> TradeView {
        TradeView {
            event_id: self.event_id@,
            symbol: self.symbol@,
            exchange_ts_ns: self.exchange_ts_ns,
            price: self.price.bits,
            amount: self.amount.bits,
            side: self.side@,
        }
    }
}

impl View for Ticker {
    type V = TickerView;

    open spec fn view(&self) -> TickerView {
        TickerView {
            symbol: self.symbol@,
            exchange_ts_ns: self.exchange_ts_ns,
            best_bid: self.best_bid.bits,
            best_ask: self.best_ask.bits,
            last: self.last.bits,
            volume_24h: self.volume_24h.bits,
        }
    }
}

impl View for OrderbookSnapshot {
    type V = SnapshotView;

    open spec fn view(&self) -> SnapshotView {
        SnapshotView {
            symbol: self.symbol@,
            exchange_ts_ns: self.exchange_ts_ns,
            bids: self.bids@,
            asks: self.asks@,
        }
    }
}

impl View for Msg {
    type V = MsgView;

    open spec fn view(&self) -> MsgView {
        match self {
            Msg::Trade(t) => MsgView::Trade(t@),
            Msg::Ticker(t) => MsgView::Ticker(t@),
            Msg::ObSnapshot(s) => MsgView::ObSnapshot(s@),
        }
    }
}

impl View for MarketMessage {
    type V = MarketMessageView;

    open spec fn view(&self) -> MarketMessageView {
        MarketMessageView {
            msg: match self.msg {
                Some(m) => Some(m@),
                None => None,
            },
            received_at_ns: self.received_at_ns,
        }
    }
}

/// The exchange timestamp carried by a message (zero when it has no payload).
pub open spec fn spec_exchange_ts(m: MarketMessageView) -> i64 {
    match m.msg {
        Some(MsgView::Trade(t)) => t.exchange_ts_ns,
        Some(MsgView::Ticker(t)) => t.exchange_ts_ns,
        Some(MsgView::ObSnapshot(s)) => s.exchange_ts_ns,
        None => 0,
    }
}

impl MarketMessage {
    /// The exchange timestamp of the payload, or zero when there is none.
    pub fn exchange_ts_ns(&self) -> (ts: i64)
        ensures
            ts == spec_exchange_ts(self@),
    {
        match &self.msg {
            Some(Msg::Trade(t)) => t.exchange_ts_ns,
            Some(Msg::Ticker(t)) => t.exchange_ts_ns,
            Some(Msg::ObSnapshot(s)) => s.exchange_ts_ns,
            None => 0,
        }
    }
}

} // verus!
