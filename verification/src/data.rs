//! The candle type the engine replays: one OHLCV bar with its time bounds.

use crate::rational::{frac, Rat};
use vstd::prelude::*;

verus! {

/// One OHLCV bar: prices and volume over the interval
/// `[start_time, end_time]` (unix timestamps in seconds).
#[derive(Clone, Copy, Debug)]
pub struct BinanceKline {
    pub start_time: i64,
    pub end_time: i64,
    pub open: Rat,
    pub high: Rat,
    pub low: Rat,
    pub close: Rat,
    pub volume: Rat,
}

impl BinanceKline {
    /// A candle covers a non-empty interval and all its numbers are
    /// well-formed rationals.
    pub open spec fn wf(self) -> bool {
        &&& self.start_time < self.end_time
        &&& self.open.wf()
        &&& self.high.wf()
        &&& self.low.wf()
        &&& self.close.wf()
        &&& self.volume.wf()
    }

    /// Builds a candle from its parts.
    pub fn new(
        start_time: i64,
        end_time: i64,
        open: Rat,
        high: Rat,
        low: Rat,
        close: Rat,
        volume: Rat,
    ) -> (r: BinanceKline)
        requires
            start_time < end_time,
            open.wf(),
            high.wf(),
            low.wf(),
            close.wf(),
            volume.wf(),
        ensures
            r.wf(),
            r == (BinanceKline { start_time, end_time, open, high, low, close, volume }),
            frac(r.close) == frac(close),
    {
        BinanceKline { start_time, end_time, open, high, low, close, volume }
    }
}

} // verus!
