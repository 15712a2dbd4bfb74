//! Requests and responses of the backtesting API.

use vstd::prelude::*;
use crate::market::Float64;

verus! {

/// Bar width selector.
#[derive(Debug, Clone, Copy, PartialEq, Eq, Structural)]
pub enum BarInterval {
    Unspecified,
    BarInterval1s,
    BarInterval5s,
    BarInterval1m,
    Custom,
}

/// Wire number of each bar width.
pub open spec fn bar_interval_number(i: BarInterval) -> i32 {
    match i {
        BarInterval::Unspecified => 0,
        BarInterval::BarInterval1s => 1,
        BarInterval::BarInterval5s => 2,
        BarInterval::BarInterval1m => 3,
        BarInterval::Custom => 4,
    }
}

/// The bar width a wire number stands for; unknown numbers read as unspecified.
pub open spec fn bar_interval_of(n: i32) -> BarInterval {
    if n == 1 {
        BarInterval::BarInterval1s
    } else if n == 2 {
        BarInterval::BarInterval5s
    } else if n == 3 {
        BarInterval::BarInterval1m
    } else if n == 4 {
        BarInterval::Custom
    } else {
        BarInterval::Unspecified
    }
}

impl BarInterval {
    /// The wire number of this width.
    pub fn to_number(self) -> (n: i32)
        ensures
            n == bar_interval_number(self),
    {
        match self {
            BarInterval::Unspecified => 0,
            BarInterval::BarInterval1s => 1,
            BarInterval::BarInterval5s => 2,
            BarInterval::BarInterval1m => 3,
            BarInterval::Custom => 4,
        }
    }
}

impl From<BarInterval> for i32 {
    fn from(i: BarInterval) -> (n: i32) {
        i.to_number()
    }
}

impl vstd::std_specs::convert::FromSpecImpl<BarInterval> for i32 {
    open spec fn obeys_from_spec() -> bool {
        true
    }

    open spec fn from_spec(i: BarInterval) -> i32 {
        bar_interval_number(i)
    }
}

/// Bar aggregation selector.
#[derive(Debug, Clone, Copy, PartialEq, Eq, Structural)]
pub enum BarAgg {
    Unspecified,
    Ohlcv,
}

/// The aggregation a wire number stands for; unknown numbers read as unspecified.
pub open spec fn bar_agg_of(n: i32) -> BarAgg {
    if n == 1 {
        BarAgg::Ohlcv
    } else {
        BarAgg::Unspecified
    }
}

impl BarAgg {
    /// The wire number of this aggregation.
    pub fn to_number(self) -> (n: i32)
        ensures
            n == (match self {
                BarAgg::Unspecified => 0i32,
                BarAgg::Ohlcv => 1i32,
            }),
    {
        match self {
            BarAgg::Unspecified => 0,
            BarAgg::Ohlcv => 1,
        }
    }
}

impl From<BarAgg> for i32 {
    fn from(a: BarAgg) -> (n: i32) {
        a.to_number()
    }
}

impl vstd::std_specs::convert::FromSpecImpl<BarAgg> for i32 {
    open spec fn obeys_from_spec() -> bool {
        true
    }

    open spec fn from_spec(a: BarAgg) -> i32 {
        match a {
            BarAgg::Unspecified => 0i32,
            BarAgg::Ohlcv => 1i32,
        }
    }
}

/// Trades of one symbol over a time range.
#[derive(Debug, Clone)]
pub struct GetTradesRequest {
    pub symbol: String,
    pub start_ns: i64,
    pub end_ns: i64,
}

/// OHLCV bars of one symbol over a time range.
#[derive(Debug, Clone)]
pub struct GetBarsRequest {
    pub symbol: String,
    pub interval: i32,
    pub aggregation: i32,
    pub start_ns: i64,
    pub end_ns: i64,
    pub custom_interval_ns: u64,
}

impl GetBarsRequest {
    /// The requested bar width.
    pub fn interval(&self) -> (i: BarInterval)
        ensures
            i == bar_interval_of(self.interval),
    {
        if self.interval == 1 {
            BarInterval::BarInterval1s
        } else if self.interval == 2 {
            BarInterval::BarInterval5s
        } else if self.interval == 3 {
            BarInterval::BarInterval1m
        } else if self.interval == 4 {
            BarInterval::Custom
        } else {
            BarInterval::Unspecified
        }
    }

    /// The requested aggregation.
    pub fn aggregation(&self) -> (a: BarAgg)
        ensures
            a == bar_agg_of(self.aggregation),
    {
        if self.aggregation == 1 {
            BarAgg::Ohlcv
        } else {
            BarAgg::Unspecified
        }
    }
}

/// The order book of one symbol as of an instant.
#[derive(Debug, Clone)]
pub struct GetOrderbookSnapshotRequest {
    pub symbol: String,
    pub at_ns: i64,
}

/// Replay of several symbols over a time range (the pacing speed is applied
/// where the replay is streamed).
#[derive(Debug, Clone)]
pub struct ReplayRequest {
    pub symbols: Vec<String>,
    pub start_ns: i64,
    pub end_ns: i64,
}

/// One OHLCV bar.
#[derive(Debug, Clone)]
pub struct Bar {
    pub symbol: String,
    pub start_ts_ns: i64,
    pub end_ts_ns: i64,
    pub open: Float64,
    pub high: Float64,
    pub low: Float64,
    pub close: Float64,
    pub volume: Float64,
}

pub struct BarView {
    pub symbol: Seq<char>,
    pub start_ts_ns: i64,
    pub end_ts_ns: i64,
    pub open: u64,
    pub high: u64,
    pub low: u64,
    pub close: u64,
    pub volume: u64,
}

impl View for Bar {
    type V = BarView;

    open spec fn view(&self) -> BarView {
        BarView {
            symbol: self.symbol@,
            start_ts_ns: self.start_ts_ns,
            end_ts_ns: self.end_ts_ns,
            open: self.open.bits,
            high: self.high.bits,
            low: self.low.bits,
            close: self.close.bits,
            volume: self.volume.bits,
        }
    }
}

} // verus!
