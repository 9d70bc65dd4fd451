//! Indicator instances: the stateful per-candle transformers that emit
//! signal vectors.
//!
//! Two strategies live here. The dollar-cost-averaging indicator fires a
//! Buy on the first candle of every new calendar month; the buy-and-hold
//! indicator fires a single Buy on the very first candle and stays silent
//! forever after.

use crate::data::BinanceKline;
use crate::traders::Action;
use vstd::prelude::*;

verus! {

/// The calendar (year, month) of a unix timestamp, in UTC, as the calendar
/// library computes it.
pub uninterp spec fn year_month_of(ts: i64) -> (i32, u32);

/// Relies on chrono's `DateTime::from_timestamp` and the `Datelike`
/// accessors `year()` / `month()`: the (year, month) pair of a unix
/// timestamp in UTC — a pure function of the timestamp alone. chrono
/// documents `month()` to lie in 1..=12.
#[verifier::external_body]
fn year_month(ts: i64) -> (r: (i32, u32))
    ensures
        r == year_month_of(ts),
        1 <= r.1 <= 12,
{
    match chrono::DateTime::from_timestamp(ts, 0) {
        Some(dt) => (chrono::Datelike::year(&dt), chrono::Datelike::month(&dt)),
        None => (0, 1),
    }
}

/// Configuration of the dollar-cost-averaging indicator (it has none).
#[derive(Clone, Copy, Debug)]
pub struct DCA {}

/// Dollar-cost-averaging indicator state: the calendar month last seen,
/// `None` before any candle was processed — so the very first candle
/// always fires a Buy.
#[derive(Clone, Copy, Debug)]
pub struct DCAInstance {
    pub cfg: DCA,
    pub last_period: Option<(i32, u32)>,
}

impl DCA {
    /// Creates the instance. The warm-up candle is not consulted: the state
    /// starts at "no month seen yet".
    pub fn init(self, _candle: &BinanceKline) -> (r: DCAInstance)
        ensures
            r.cfg == self,
            r.last_period is None,
    {
        DCAInstance { cfg: self, last_period: Option::None }
    }
}

impl DCAInstance {
    /// Transition: emit `Buy(1)` when the candle's start time falls in a
    /// calendar month different from the last one seen (or none was seen
    /// yet), else no action; remember the candle's month.
    pub open spec fn next_spec(self, kline: BinanceKline) -> (DCAInstance, Seq<Action>) {
        let ym = year_month_of(kline.start_time);
        let fire = match self.last_period {
            Option::None => true,
            Option::Some(p) => p != ym,
        };
        (
            DCAInstance { cfg: self.cfg, last_period: Option::Some(ym) },
            seq![
                if fire {
                    Action::Buy(1)
                } else {
                    Action::Hold
                },
            ],
        )
    }

    /// Advances the indicator by one candle; the emitted signal vector has
    /// exactly one entry.
    pub fn next_binance_kline(&mut self, candle: &BinanceKline) -> (v: Vec<Action>)
        ensures
            *final(self) == old(self).next_spec(*candle).0,
            v@ == old(self).next_spec(*candle).1,
            v@.len() == 1,
    {
        let ym = year_month(candle.start_time);
        let fire: bool = match self.last_period {
            Option::None => true,
            Some(p) => !(p.0 == ym.0 && p.1 == ym.1),
        };
        self.last_period = Some(ym);
        let act = if fire {
            Action::Buy(1)
        } else {
            Action::Hold
        };
        let mut v: Vec<Action> = Vec::new();
        v.push(act);
        proof {
            assert(v@ =~= old(self).next_spec(*candle).1);
        }
        v
    }
}

/// Configuration of the buy-and-hold indicator (it has none).
#[derive(Clone, Copy, Debug)]
pub struct HODL {}

/// Buy-and-hold indicator state: whether the single Buy has fired.
#[derive(Clone, Copy, Debug)]
pub struct HODLInstance {
    pub fired: bool,
}

impl HODL {
    /// Creates the instance; the single Buy has not fired yet.
    pub fn init(self, _candle: &BinanceKline) -> (r: HODLInstance)
        ensures
            !r.fired,
    {
        HODLInstance { fired: false }
    }
}

impl HODLInstance {
    /// Transition: emit `Buy(1)` on the very first candle, nothing ever
    /// after.
    pub open spec fn next_spec(self, kline: BinanceKline) -> (HODLInstance, Seq<Action>) {
        (
            HODLInstance { fired: true },
            seq![
                if self.fired {
                    Action::Hold
                } else {
                    Action::Buy(1)
                },
            ],
        )
    }

    /// Advances the indicator by one candle; the emitted signal vector has
    /// exactly one entry.
    pub fn next_binance_kline(&mut self, candle: &BinanceKline) -> (v: Vec<Action>)
        ensures
            *final(self) == old(self).next_spec(*candle).0,
            v@ == old(self).next_spec(*candle).1,
            v@.len() == 1,
    {
        let act = if self.fired {
            Action::Hold
        } else {
            Action::Buy(1)
        };
        self.fired = true;
        let mut v: Vec<Action> = Vec::new();
        v.push(act);
        proof {
            assert(v@ =~= old(self).next_spec(*candle).1);
        }
        v
    }
}

} // verus!
