//! The generic trading protocol: signals, fee and stake models, and the
//! verified execution engine that turns a trade signal into an account
//! mutation.
//!
//! A strategy implements [`GenericTrader`]: it advances its indicator state
//! one candle at a time and emits a signal vector; the provided methods
//! `execute_buy`, `execute_sell` and `next_trade_session` are shared by all
//! strategies and carry the full accounting contract.

use crate::account::{close_succeeds, open_succeeds, Account, ArithError};
use crate::data::BinanceKline;
use crate::indicators::{DCAInstance, HODLInstance, DCA, HODL};
use crate::rational::{
    checked_add, checked_div, checked_mul, checked_sub, f_add, f_div, f_eq, f_le, f_lt, f_mul,
    f_nonneg, f_pos, f_sub, f_zero, frac,
    lemma_checked_add_exact, lemma_checked_div_exact, lemma_checked_mul_exact,
    lemma_checked_sub_exact, lemma_f_add_nonneg, lemma_f_div_mul_cancel,
    lemma_f_div_nonneg, lemma_f_eq_add, lemma_f_eq_div, lemma_f_eq_le, lemma_f_eq_mul,
    lemma_f_eq_sign, lemma_f_eq_sub, lemma_f_eq_trans, lemma_f_mul_nonneg, lemma_f_wf_ops, Rat,
};
use vstd::prelude::*;

verus! {

/// One discrete signal: buy, sell, or do nothing. The magnitude carried by
/// `Buy` and `Sell` is an extensibility point; execution currently always
/// commits the full stake or the full position.
#[derive(Clone, Copy, Debug)]
pub enum Action {
    Buy(u8),
    Sell(u8),
    Hold,
}

/// The fee model: a fixed amount per trade, or a percentage rate in [0, 1).
#[derive(Clone, Copy, Debug)]
pub enum TradingFee {
    FixFee(Rat),
    PercentageFee(Rat),
}

/// The stake-sizing policy for buys: a fixed cash amount, or a fixed
/// fraction of the available fund, the rate in [0, 1].
#[derive(Clone, Copy, Debug)]
pub enum StakeSize {
    FixAmount(Rat),
    FixPercentage(Rat),
}

impl TradingFee {
    /// A valid fee model: fixed fees are non-negative; a percentage rate
    /// lies in [0, 1). Rates at or above 1 would drive the buy-side fee
    /// formula to a division by zero or beyond and are rejected at
    /// configuration time.
    pub open spec fn wf(self) -> bool {
        match self {
            TradingFee::FixFee(f) => f.wf() && f_nonneg(frac(f)),
            TradingFee::PercentageFee(p) => p.wf() && f_nonneg(frac(p)) && f_lt(
                frac(p),
                (1int, 1int),
            ),
        }
    }

    /// Checks validity of the configuration.
    pub fn validate(&self) -> (r: bool)
        ensures
            r == self.wf(),
    {
        match self {
            TradingFee::FixFee(f) => f.den >= 1 && f.num >= 0,
            TradingFee::PercentageFee(p) => p.den >= 1 && p.num >= 0 && p.num < p.den,
        }
    }
}

impl StakeSize {
    /// A valid stake policy: a fixed amount is non-negative; a percentage
    /// rate lies in [0, 1].
    pub open spec fn wf(self) -> bool {
        match self {
            StakeSize::FixAmount(a) => a.wf() && f_nonneg(frac(a)),
            StakeSize::FixPercentage(p) => p.wf() && f_nonneg(frac(p)) && f_le(
                frac(p),
                (1int, 1int),
            ),
        }
    }

    /// Checks validity of the configuration.
    pub fn validate(&self) -> (r: bool)
        ensures
            r == self.wf(),
    {
        match self {
            StakeSize::FixAmount(a) => a.den >= 1 && a.num >= 0,
            StakeSize::FixPercentage(p) => p.den >= 1 && p.num >= 0 && p.num <= p.den,
        }
    }
}

/// The notional stake a buy commits, as an exact rational: a fixed amount
/// when it is covered by the fund (otherwise nothing), or the configured
/// fraction of the available fund.
pub open spec fn stake_frac(ss: StakeSize, fund: (int, int)) -> (int, int) {
    match ss {
        StakeSize::FixAmount(a) => if f_le(frac(a), fund) {
            frac(a)
        } else {
            (0int, 1int)
        },
        StakeSize::FixPercentage(p) => f_mul(fund, frac(p)),
    }
}

/// The buy-side fee, as an exact rational: a fixed fee, or
/// `stake * p / (1 - p)` — grossed up so that the fee is exactly the
/// fraction `p` of the total outlay `stake + fee`.
pub open spec fn buy_fee_frac(tf: TradingFee, stake: (int, int)) -> (int, int) {
    match tf {
        TradingFee::FixFee(f) => frac(f),
        TradingFee::PercentageFee(p) => f_div(f_mul(stake, frac(p)), f_sub((1int, 1int), frac(p))),
    }
}

/// The total cash outlay of a buy: stake plus fee.
pub open spec fn buy_outlay_frac(ss: StakeSize, tf: TradingFee, fund: (int, int)) -> (int, int) {
    f_add(stake_frac(ss, fund), buy_fee_frac(tf, stake_frac(ss, fund)))
}

/// The quantity a buy acquires: outlay divided by price.
pub open spec fn buy_quantity_frac(
    ss: StakeSize,
    tf: TradingFee,
    fund: (int, int),
    price: (int, int),
) -> (int, int) {
    f_div(buy_outlay_frac(ss, tf, fund), price)
}

/// A buy actually trades when the price is positive, the computed quantity
/// is positive, and the outlay is covered by the available fund (buys are
/// never allowed to drive the fund negative). Otherwise it is a silent
/// no-op.
pub open spec fn buy_trades(
    ss: StakeSize,
    tf: TradingFee,
    fund: (int, int),
    price: (int, int),
) -> bool {
    &&& f_pos(price)
    &&& f_pos(buy_quantity_frac(ss, tf, fund, price))
    &&& f_le(buy_outlay_frac(ss, tf, fund), fund)
}

/// The sell-side fee, as an exact rational: a fixed fee, or the configured
/// fraction of the gross proceeds `price * quantity` of the whole position.
pub open spec fn sell_fee_frac(tf: TradingFee, price: (int, int), qty: (int, int)) -> (int, int) {
    match tf {
        TradingFee::FixFee(f) => frac(f),
        TradingFee::PercentageFee(p) => f_mul(f_mul(price, qty), frac(p)),
    }
}

/// A sell actually trades when a position is held and the fee neither is
/// negative nor exceeds the gross proceeds (so cash cannot go negative).
/// Otherwise it is a silent no-op.
pub open spec fn sell_trades(tf: TradingFee, price: (int, int), qty: (int, int)) -> bool {
    &&& f_pos(qty)
    &&& f_nonneg(sell_fee_frac(tf, price, qty))
    &&& f_le(sell_fee_frac(tf, price, qty), f_mul(price, qty))
}

/// The stake computation as the engine performs it: exact for a fixed
/// amount, a checked (reduced, range-tested) product for a percentage
/// stake.
pub open spec fn buy_stake_checked(ss: StakeSize, fund: (int, int)) -> Option<(int, int)> {
    match ss {
        StakeSize::FixAmount(a) => if f_le(frac(a), fund) {
            Option::Some(frac(a))
        } else {
            Option::Some((0int, 1int))
        },
        StakeSize::FixPercentage(p) => checked_mul(fund, frac(p)),
    }
}

/// The buy-side fee computation as the engine performs it.
pub open spec fn buy_fee_checked(tf: TradingFee, stake: (int, int)) -> Option<(int, int)> {
    match tf {
        TradingFee::FixFee(f) => Option::Some(frac(f)),
        TradingFee::PercentageFee(p) => match checked_sub((1int, 1int), frac(p)) {
            Option::Some(denom) => match checked_mul(stake, frac(p)) {
                Option::Some(num) => checked_div(num, denom),
                Option::None => Option::None,
            },
            Option::None => Option::None,
        },
    }
}

/// The machine arithmetic of `execute_buy` succeeds: the stake, fee,
/// outlay and quantity computations — and, on the trading path, the account
/// opening — all stay representable. `execute_buy` returns `Ok` exactly
/// when this holds.
pub open spec fn buy_succeeds(
    ss: StakeSize,
    tf: TradingFee,
    fund: (int, int),
    qty: (int, int),
    cost: (int, int),
    price: (int, int),
) -> bool {
    match buy_stake_checked(ss, fund) {
        Option::Some(st) => match buy_fee_checked(tf, st) {
            Option::Some(fe) => match checked_add(st, fe) {
                Option::Some(out) => if !f_pos(price) {
                    true
                } else {
                    match checked_div(out, price) {
                        Option::Some(q) => if f_pos(q) && f_le(out, fund) {
                            open_succeeds(fund, qty, cost, q, price)
                        } else {
                            true
                        },
                        Option::None => false,
                    }
                },
                Option::None => false,
            },
            Option::None => false,
        },
        Option::None => false,
    }
}

/// The sell-side fee computation as the engine performs it, from the
/// already-computed gross proceeds.
pub open spec fn sell_fee_checked(tf: TradingFee, gross: (int, int)) -> Option<(int, int)> {
    match tf {
        TradingFee::FixFee(f) => Option::Some(frac(f)),
        TradingFee::PercentageFee(p) => checked_mul(gross, frac(p)),
    }
}

/// The machine arithmetic of `execute_sell` succeeds: the gross proceeds
/// and fee computations — and, on the trading path, the account closing —
/// all stay representable. `execute_sell` returns `Ok` exactly when this
/// holds.
pub open spec fn sell_succeeds(
    tf: TradingFee,
    fund: (int, int),
    cost: (int, int),
    qty: (int, int),
    price: (int, int),
) -> bool {
    if !f_pos(qty) {
        true
    } else {
        match checked_mul(price, qty) {
            Option::Some(gross) => match sell_fee_checked(tf, gross) {
                Option::Some(fee) => if f_le((0int, 1int), fee) && f_le(fee, gross) {
                    close_succeeds(fund, cost, qty, price, fee)
                } else {
                    true
                },
                Option::None => false,
            },
            Option::None => false,
        }
    }
}

/// The exact account state (fund, quantity, cost pairs as stored) that
/// `execute_buy` leaves behind, or `None` when its arithmetic leaves the
/// machine range; a degenerate buy leaves the state unchanged.
pub open spec fn buy_result(
    ss: StakeSize,
    tf: TradingFee,
    fund: (int, int),
    qty: (int, int),
    cost: (int, int),
    price: (int, int),
) -> Option<((int, int), (int, int), (int, int))> {
    match buy_stake_checked(ss, fund) {
        Option::Some(st) => match buy_fee_checked(tf, st) {
            Option::Some(fe) => match checked_add(st, fe) {
                Option::Some(out) => if !f_pos(price) {
                    Option::Some((fund, qty, cost))
                } else {
                    match checked_div(out, price) {
                        Option::Some(q) => if f_pos(q) && f_le(out, fund) {
                            match checked_mul(q, price) {
                                Option::Some(o) => match checked_sub(fund, o) {
                                    Option::Some(f2) => match checked_add(qty, q) {
                                        Option::Some(q2) => match checked_add(cost, o) {
                                            Option::Some(c2) => Option::Some((f2, q2, c2)),
                                            Option::None => Option::None,
                                        },
                                        Option::None => Option::None,
                                    },
                                    Option::None => Option::None,
                                },
                                Option::None => Option::None,
                            }
                        } else {
                            Option::Some((fund, qty, cost))
                        },
                        Option::None => Option::None,
                    }
                },
                Option::None => Option::None,
            },
            Option::None => Option::None,
        },
        Option::None => Option::None,
    }
}

/// The exact account state that `execute_sell` leaves behind, or `None`
/// when its arithmetic leaves the machine range; a degenerate sell leaves
/// the state unchanged.
pub open spec fn sell_result(
    tf: TradingFee,
    fund: (int, int),
    cost: (int, int),
    qty: (int, int),
    price: (int, int),
) -> Option<((int, int), (int, int), (int, int))> {
    if !f_pos(qty) {
        Option::Some((fund, qty, cost))
    } else {
        match checked_mul(price, qty) {
            Option::Some(gross) => match sell_fee_checked(tf, gross) {
                Option::Some(fee) => if f_le((0int, 1int), fee) && f_le(fee, gross) {
                    match checked_sub(gross, fee) {
                        Option::Some(n) => match checked_add(fund, n) {
                            Option::Some(f2) => if checked_sub(n, cost) is Some {
                                Option::Some((f2, (0int, 1int), (0int, 1int)))
                            } else {
                                Option::None
                            },
                            Option::None => Option::None,
                        },
                        Option::None => Option::None,
                    }
                } else {
                    Option::Some((fund, qty, cost))
                },
                Option::None => Option::None,
            },
            Option::None => Option::None,
        }
    }
}

/// A strategy that can drive the backtest: per-candle signal emission plus
/// its fee and stake configuration. The execution engine is provided: every
/// implementor shares the same verified accounting.
pub trait GenericTrader: Sized {
    /// The configured stake-sizing policy.
    spec fn stake_size_spec(&self) -> StakeSize;

    /// The configured fee model.
    spec fn trading_fee_spec(&self) -> TradingFee;

    /// Which index of the signal vector governs the trade decision.
    spec fn decision_index_spec() -> int;

    /// The strategy's transition function: next indicator state and the
    /// signal vector emitted for this candle.
    spec fn step_spec(&self, kline: BinanceKline) -> (Self, Seq<Action>);

    fn stake_size(&self) -> (r: StakeSize)
        ensures
            r == self.stake_size_spec(),
    ;

    fn trading_fee(&self) -> (r: TradingFee)
        ensures
            r == self.trading_fee_spec(),
    ;

    /// Picks the authoritative action out of a signal vector.
    fn determine_trade(signals: &Vec<Action>) -> (r: Action)
        requires
            0 <= Self::decision_index_spec() < signals@.len(),
        ensures
            r == signals@[Self::decision_index_spec()],
    ;

    /// Advances the indicator by one candle and emits the signal vector.
    /// The configuration never changes over a run.
    fn next_signals(&mut self, kline: &BinanceKline) -> (v: Vec<Action>)
        ensures
            *final(self) == old(self).step_spec(*kline).0,
            v@ == old(self).step_spec(*kline).1,
            0 <= Self::decision_index_spec() < v@.len(),
            final(self).stake_size_spec() == old(self).stake_size_spec(),
            final(self).trading_fee_spec() == old(self).trading_fee_spec(),
    ;

    /// Executes a buy at `price`: sizes the stake from the configured
    /// policy, adds the grossed-up fee, and opens the position — or does
    /// nothing at all when the trade would be degenerate (non-positive
    /// price, zero quantity, or an outlay the fund does not cover). `Err`
    /// reports arithmetic leaving the machine range; the account is then
    /// unchanged.
    fn execute_buy(&self, timestamp: i64, price: Rat, account: &mut Account) -> (r: Result<
        (),
        ArithError,
    >)
        requires
            old(account).wf(),
            price.wf(),
            self.stake_size_spec().wf(),
            self.trading_fee_spec().wf(),
        ensures
            final(account).wf(),
            final(account).profit_and_loss_history == old(account).profit_and_loss_history,
            final(account).last_timestamp == old(account).last_timestamp,
            (r is Ok) == buy_succeeds(
                self.stake_size_spec(),
                self.trading_fee_spec(),
                frac(old(account).available_fund),
                frac(old(account).position.quantity),
                frac(old(account).position.cost),
                frac(price),
            ),
            (r is Ok) == (buy_result(
                self.stake_size_spec(),
                self.trading_fee_spec(),
                frac(old(account).available_fund),
                frac(old(account).position.quantity),
                frac(old(account).position.cost),
                frac(price),
            ) is Some),
            r is Err ==> *final(account) == *old(account),
            r is Ok ==> (buy_result(
                self.stake_size_spec(),
                self.trading_fee_spec(),
                frac(old(account).available_fund),
                frac(old(account).position.quantity),
                frac(old(account).position.cost),
                frac(price),
            ) matches Some(s) && frac(final(account).available_fund) == s.0 && frac(
                final(account).position.quantity,
            ) == s.1 && frac(final(account).position.cost) == s.2),
            r is Ok ==> ({
                let ss = self.stake_size_spec();
                let tf = self.trading_fee_spec();
                let fund = frac(old(account).available_fund);
                if buy_trades(ss, tf, fund, frac(price)) {
                    f_eq(
                        frac(final(account).available_fund),
                        f_sub(fund, buy_outlay_frac(ss, tf, fund)),
                    ) && f_eq(
                        frac(final(account).position.quantity),
                        f_add(
                            frac(old(account).position.quantity),
                            buy_quantity_frac(ss, tf, fund, frac(price)),
                        ),
                    ) && f_eq(
                        frac(final(account).position.cost),
                        f_add(frac(old(account).position.cost), buy_outlay_frac(ss, tf, fund)),
                    )
                } else {
                    *final(account) == *old(account)
                }
            }),
    {
        let ghost ss = self.stake_size_spec();
        let ghost tf = self.trading_fee_spec();
        let ghost fund0 = frac(old(account).available_fund);
        let fund = account.available_fund;
        let stake: Rat = match self.stake_size() {
            StakeSize::FixAmount(amount) => {
                if amount.le(&fund) {
                    amount
                } else {
                    Rat::from_int(0)
                }
            },
            StakeSize::FixPercentage(pct) => {
                match fund.mul(&pct) {
                    Some(v) => {
                        proof {
                            lemma_checked_mul_exact(fund0, frac(pct), frac(v));
                        }
                        v
                    },
                    Option::None => {
                        return Err(ArithError::Overflow);
                    },
                }
            },
        };
        let ghost st_e = stake_frac(ss, fund0);
        proof {
            match ss {
                StakeSize::FixAmount(a) => {
                },
                StakeSize::FixPercentage(p) => {
                    lemma_f_wf_ops(fund0, frac(p));
                    lemma_f_mul_nonneg(fund0, frac(p));
                },
            }
            assert(f_eq(frac(stake), st_e) && f_nonneg(st_e) && crate::rational::f_wf(st_e));
        }
        let fee: Rat = match self.trading_fee() {
            TradingFee::FixFee(f) => f,
            TradingFee::PercentageFee(pct) => {
                let one = Rat::from_int(1);
                let denom = match one.sub(&pct) {
                    Some(v) => v,
                    Option::None => {
                        return Err(ArithError::Overflow);
                    },
                };
                proof {
                    lemma_checked_sub_exact((1int, 1int), frac(pct), frac(denom));
                    lemma_f_eq_sign(frac(denom), f_sub((1int, 1int), frac(pct)));
                }
                let num = match stake.mul(&pct) {
                    Some(v) => v,
                    Option::None => {
                        return Err(ArithError::Overflow);
                    },
                };
                let quot = match num.div(&denom) {
                    Some(v) => v,
                    Option::None => {
                        return Err(ArithError::Overflow);
                    },
                };
                proof {
                    let p = frac(pct);
                    let one_p = f_sub((1int, 1int), p);
                    lemma_checked_mul_exact(frac(stake), p, frac(num));
                    lemma_f_wf_ops(st_e, p);
                    lemma_f_wf_ops(frac(stake), p);
                    lemma_f_eq_mul(frac(stake), st_e, p, p);
                    lemma_f_eq_trans(frac(num), f_mul(frac(stake), p), f_mul(st_e, p));
                    lemma_checked_div_exact(frac(num), frac(denom), frac(quot));
                    lemma_f_wf_ops((1int, 1int), p);
                    lemma_f_eq_div(frac(num), f_mul(st_e, p), frac(denom), one_p);
                    lemma_f_wf_ops(f_mul(st_e, p), one_p);
                    lemma_f_wf_ops(frac(num), frac(denom));
                    lemma_f_eq_trans(
                        frac(quot),
                        f_div(frac(num), frac(denom)),
                        f_div(f_mul(st_e, p), one_p),
                    );
                }
                quot
            },
        };
        let ghost fee_e = buy_fee_frac(tf, st_e);
        proof {
            match tf {
                TradingFee::FixFee(f) => {
                },
                TradingFee::PercentageFee(p) => {
                    lemma_f_wf_ops(st_e, frac(p));
                    lemma_f_wf_ops((1int, 1int), frac(p));
                    lemma_f_mul_nonneg(st_e, frac(p));
                    lemma_f_div_nonneg(f_mul(st_e, frac(p)), f_sub((1int, 1int), frac(p)));
                },
            }
            assert(f_eq(frac(fee), fee_e) && f_nonneg(fee_e) && crate::rational::f_wf(fee_e));
            lemma_f_eq_sign(frac(fee), fee_e);
        }
        let outlay = match stake.add(&fee) {
            Some(v) => v,
            Option::None => {
                return Err(ArithError::Overflow);
            },
        };
        let ghost out_e = buy_outlay_frac(ss, tf, fund0);
        proof {
            lemma_checked_add_exact(frac(stake), frac(fee), frac(outlay));
            lemma_f_wf_ops(frac(stake), frac(fee));
            lemma_f_eq_add(frac(stake), st_e, frac(fee), fee_e);
            lemma_f_wf_ops(st_e, fee_e);
            lemma_f_eq_trans(frac(outlay), f_add(frac(stake), frac(fee)), out_e);
            lemma_f_add_nonneg(st_e, fee_e);
            lemma_f_eq_sign(frac(outlay), out_e);
        }
        if !price.is_positive() {
            return Ok(());
        }
        let quantity = match outlay.div(&price) {
            Some(v) => v,
            Option::None => {
                return Err(ArithError::Overflow);
            },
        };
        let ghost qty_e = buy_quantity_frac(ss, tf, fund0, frac(price));
        proof {
            lemma_checked_div_exact(frac(outlay), frac(price), frac(quantity));
            lemma_f_wf_ops(frac(outlay), frac(price));
            lemma_f_eq_div(frac(outlay), out_e, frac(price), frac(price));
            lemma_f_wf_ops(out_e, frac(price));
            lemma_f_eq_trans(frac(quantity), f_div(frac(outlay), frac(price)), qty_e);
            lemma_f_eq_sign(frac(quantity), qty_e);
            lemma_f_eq_le(frac(outlay), out_e, fund0, fund0);
        }
        if quantity.is_positive() && outlay.le(&fund) {
            proof {
                lemma_f_div_mul_cancel(frac(outlay), frac(price));
                lemma_f_eq_mul(frac(quantity), f_div(frac(outlay), frac(price)), frac(price), frac(price));
                lemma_f_wf_ops(f_div(frac(outlay), frac(price)), frac(price));
                lemma_f_wf_ops(frac(quantity), frac(price));
                lemma_f_eq_trans(
                    f_mul(frac(quantity), frac(price)),
                    f_mul(f_div(frac(outlay), frac(price)), frac(price)),
                    frac(outlay),
                );
                lemma_f_eq_le(f_mul(frac(quantity), frac(price)), frac(outlay), fund0, fund0);
            }
            match account.open(timestamp, quantity, price, fee) {
                Ok(u) => {
                    proof {
                        let oq = frac(old(account).position.quantity);
                        let oc = frac(old(account).position.cost);
                        // outlay congruences from quantity * price back to the exact outlay
                        lemma_f_eq_trans(f_mul(frac(quantity), frac(price)), frac(outlay), out_e);
                        // fund
                        lemma_f_eq_sub(
                            fund0,
                            fund0,
                            f_mul(frac(quantity), frac(price)),
                            out_e,
                        );
                        lemma_f_wf_ops(fund0, out_e);
                        lemma_f_wf_ops(fund0, f_mul(frac(quantity), frac(price)));
                        lemma_f_eq_trans(
                            frac(account.available_fund),
                            f_sub(fund0, f_mul(frac(quantity), frac(price))),
                            f_sub(fund0, out_e),
                        );
                        // quantity
                        lemma_f_eq_add(oq, oq, frac(quantity), qty_e);
                        lemma_f_wf_ops(oq, qty_e);
                        lemma_f_wf_ops(oq, frac(quantity));
                        lemma_f_eq_trans(
                            frac(account.position.quantity),
                            f_add(oq, frac(quantity)),
                            f_add(oq, qty_e),
                        );
                        // cost
                        lemma_f_eq_add(oc, oc, f_mul(frac(quantity), frac(price)), out_e);
                        lemma_f_wf_ops(oc, out_e);
                        lemma_f_wf_ops(oc, f_mul(frac(quantity), frac(price)));
                        lemma_f_eq_trans(
                            frac(account.position.cost),
                            f_add(oc, f_mul(frac(quantity), frac(price))),
                            f_add(oc, out_e),
                        );
                    }
                    Ok(u)
                },
                Err(e) => Err(e),
            }
        } else {
            Ok(())
        }
    }

    /// Executes a sell at `price`: liquidates the whole position, deducting
    /// the configured fee from the proceeds — or does nothing at all when no
    /// position is held or the fee would be negative or exceed the gross
    /// proceeds. `Err` reports arithmetic leaving the machine range; the
    /// account is then unchanged.
    fn execute_sell(&self, timestamp: i64, price: Rat, account: &mut Account) -> (r: Result<
        Option<Rat>,
        ArithError,
    >)
        requires
            old(account).wf(),
            price.wf(),
            self.trading_fee_spec().wf(),
        ensures
            final(account).wf(),
            final(account).profit_and_loss_history == old(account).profit_and_loss_history,
            final(account).last_timestamp == old(account).last_timestamp,
            (r is Ok) == sell_succeeds(
                self.trading_fee_spec(),
                frac(old(account).available_fund),
                frac(old(account).position.cost),
                frac(old(account).position.quantity),
                frac(price),
            ),
            r matches Ok(opt) ==> ((opt is Some) == sell_trades(
                self.trading_fee_spec(),
                frac(price),
                frac(old(account).position.quantity),
            )),
            r matches Ok(Some(pnl)) ==> pnl.wf() && f_eq(
                frac(pnl),
                f_sub(
                    f_sub(
                        f_mul(frac(price), frac(old(account).position.quantity)),
                        sell_fee_frac(
                            self.trading_fee_spec(),
                            frac(price),
                            frac(old(account).position.quantity),
                        ),
                    ),
                    frac(old(account).position.cost),
                ),
            ),
            (r is Ok) == (sell_result(
                self.trading_fee_spec(),
                frac(old(account).available_fund),
                frac(old(account).position.cost),
                frac(old(account).position.quantity),
                frac(price),
            ) is Some),
            r is Err ==> *final(account) == *old(account),
            r is Ok ==> (sell_result(
                self.trading_fee_spec(),
                frac(old(account).available_fund),
                frac(old(account).position.cost),
                frac(old(account).position.quantity),
                frac(price),
            ) matches Some(s) && frac(final(account).available_fund) == s.0 && frac(
                final(account).position.quantity,
            ) == s.1 && frac(final(account).position.cost) == s.2),
            f_zero(frac(old(account).position.quantity)) ==> r is Ok && *final(account) == *old(
                account,
            ),
            r is Ok ==> ({
                let tf = self.trading_fee_spec();
                let p = frac(price);
                let q = frac(old(account).position.quantity);
                if sell_trades(tf, p, q) {
                    f_zero(frac(final(account).position.quantity)) && f_zero(
                        frac(final(account).position.cost),
                    ) && f_eq(
                        frac(final(account).available_fund),
                        f_add(
                            frac(old(account).available_fund),
                            f_sub(f_mul(p, q), sell_fee_frac(tf, p, q)),
                        ),
                    )
                } else {
                    *final(account) == *old(account)
                }
            }),
    {
        let ghost tf = self.trading_fee_spec();
        let ghost p = frac(price);
        let ghost q = frac(old(account).position.quantity);
        let qty = account.position.quantity;
        if !qty.is_positive() {
            return Ok(Option::None);
        }
        let gross = match price.mul(&qty) {
            Some(v) => v,
            Option::None => {
                return Err(ArithError::Overflow);
            },
        };
        proof {
            lemma_checked_mul_exact(p, q, frac(gross));
            lemma_f_wf_ops(p, q);
        }
        let fee: Rat = match self.trading_fee() {
            TradingFee::FixFee(f) => f,
            TradingFee::PercentageFee(pct) => {
                match gross.mul(&pct) {
                    Some(v) => {
                        proof {
                            lemma_checked_mul_exact(frac(gross), frac(pct), frac(v));
                            lemma_f_eq_mul(frac(gross), f_mul(p, q), frac(pct), frac(pct));
                            lemma_f_wf_ops(f_mul(p, q), frac(pct));
                            lemma_f_wf_ops(frac(gross), frac(pct));
                            lemma_f_eq_trans(
                                frac(v),
                                f_mul(frac(gross), frac(pct)),
                                f_mul(f_mul(p, q), frac(pct)),
                            );
                        }
                        v
                    },
                    Option::None => {
                        return Err(ArithError::Overflow);
                    },
                }
            },
        };
        let ghost fee_e = sell_fee_frac(tf, p, q);
        proof {
            assert(f_eq(frac(fee), fee_e));
            lemma_f_eq_sign(frac(fee), fee_e);
            lemma_f_eq_le(frac(fee), fee_e, frac(gross), f_mul(p, q));
        }
        let zero = Rat::from_int(0);
        if zero.le(&fee) && fee.le(&gross) {
            proof {
                assert(f_nonneg(frac(fee))) by (nonlinear_arith)
                    requires
                        f_le((0int, 1int), frac(fee)),
                {}
                lemma_f_eq_le(frac(fee), frac(fee), frac(gross), f_mul(p, q));
            }
            match account.close(timestamp, qty, price, fee) {
                Ok(pnl) => {
                    proof {
                        let fund0 = frac(old(account).available_fund);
                        lemma_f_eq_sub(f_mul(p, q), f_mul(p, q), frac(fee), fee_e);
                        lemma_f_wf_ops(f_mul(p, q), fee_e);
                        lemma_f_wf_ops(f_mul(p, q), frac(fee));
                        lemma_f_eq_add(
                            fund0,
                            fund0,
                            f_sub(f_mul(p, q), frac(fee)),
                            f_sub(f_mul(p, q), fee_e),
                        );
                        lemma_f_wf_ops(fund0, f_sub(f_mul(p, q), fee_e));
                        lemma_f_wf_ops(fund0, f_sub(f_mul(p, q), frac(fee)));
                        lemma_f_eq_trans(
                            frac(account.available_fund),
                            f_add(fund0, f_sub(f_mul(p, q), frac(fee))),
                            f_add(fund0, f_sub(f_mul(p, q), fee_e)),
                        );
                        let oc = frac(old(account).position.cost);
                        lemma_f_eq_sub(
                            f_sub(f_mul(p, q), frac(fee)),
                            f_sub(f_mul(p, q), fee_e),
                            oc,
                            oc,
                        );
                        lemma_f_wf_ops(f_sub(f_mul(p, q), frac(fee)), oc);
                        lemma_f_wf_ops(f_sub(f_mul(p, q), fee_e), oc);
                        lemma_f_eq_trans(
                            frac(pnl),
                            f_sub(f_sub(f_mul(p, q), frac(fee)), oc),
                            f_sub(f_sub(f_mul(p, q), fee_e), oc),
                        );
                    }
                    Ok(Some(pnl))
                },
                Err(e) => Err(e),
            }
        } else {
            Ok(Option::None)
        }
    }

    /// Runs one trade session for one candle: advance the indicator, pick
    /// the authoritative action, and execute it against the account at the
    /// candle's closing price. A completed sell hands back the realized
    /// profit or loss. The equity history is not touched here — the backtest
    /// driver appends the mark-to-market snapshot separately.
    fn next_trade_session(&mut self, kline: &BinanceKline, account: &mut Account) -> (r: Result<
        Option<Rat>,
        ArithError,
    >)
        requires
            old(self).stake_size_spec().wf(),
            old(self).trading_fee_spec().wf(),
            old(account).wf(),
            kline.wf(),
        ensures
            *final(self) == old(self).step_spec(*kline).0,
            final(self).stake_size_spec() == old(self).stake_size_spec(),
            final(self).trading_fee_spec() == old(self).trading_fee_spec(),
            final(account).wf(),
            final(account).profit_and_loss_history == old(account).profit_and_loss_history,
            final(account).last_timestamp == old(account).last_timestamp,
            (r is Ok) == ((match old(self).step_spec(*kline).1[Self::decision_index_spec()] {
                Action::Hold => Option::Some(
                    (
                        frac(old(account).available_fund),
                        frac(old(account).position.quantity),
                        frac(old(account).position.cost),
                    ),
                ),
                Action::Buy(_) => buy_result(
                    old(self).stake_size_spec(),
                    old(self).trading_fee_spec(),
                    frac(old(account).available_fund),
                    frac(old(account).position.quantity),
                    frac(old(account).position.cost),
                    frac(kline.close),
                ),
                Action::Sell(_) => sell_result(
                    old(self).trading_fee_spec(),
                    frac(old(account).available_fund),
                    frac(old(account).position.cost),
                    frac(old(account).position.quantity),
                    frac(kline.close),
                ),
            }) is Some),
            r is Ok ==> ((match old(self).step_spec(*kline).1[Self::decision_index_spec()] {
                Action::Hold => Option::Some(
                    (
                        frac(old(account).available_fund),
                        frac(old(account).position.quantity),
                        frac(old(account).position.cost),
                    ),
                ),
                Action::Buy(_) => buy_result(
                    old(self).stake_size_spec(),
                    old(self).trading_fee_spec(),
                    frac(old(account).available_fund),
                    frac(old(account).position.quantity),
                    frac(old(account).position.cost),
                    frac(kline.close),
                ),
                Action::Sell(_) => sell_result(
                    old(self).trading_fee_spec(),
                    frac(old(account).available_fund),
                    frac(old(account).position.cost),
                    frac(old(account).position.quantity),
                    frac(kline.close),
                ),
            }) matches Some(s) && frac(final(account).available_fund) == s.0 && frac(
                final(account).position.quantity,
            ) == s.1 && frac(final(account).position.cost) == s.2),
            (r is Ok) == (match old(self).step_spec(*kline).1[Self::decision_index_spec()] {
                Action::Hold => true,
                Action::Buy(_) => buy_succeeds(
                    old(self).stake_size_spec(),
                    old(self).trading_fee_spec(),
                    frac(old(account).available_fund),
                    frac(old(account).position.quantity),
                    frac(old(account).position.cost),
                    frac(kline.close),
                ),
                Action::Sell(_) => sell_succeeds(
                    old(self).trading_fee_spec(),
                    frac(old(account).available_fund),
                    frac(old(account).position.cost),
                    frac(old(account).position.quantity),
                    frac(kline.close),
                ),
            }),
            r matches Ok(Some(pnl)) ==> (old(self).step_spec(
                *kline,
            ).1[Self::decision_index_spec()] matches Action::Sell(_)) && pnl.wf() && f_eq(
                frac(pnl),
                f_sub(
                    f_sub(
                        f_mul(frac(kline.close), frac(old(account).position.quantity)),
                        sell_fee_frac(
                            old(self).trading_fee_spec(),
                            frac(kline.close),
                            frac(old(account).position.quantity),
                        ),
                    ),
                    frac(old(account).position.cost),
                ),
            ),
            r is Err ==> *final(account) == *old(account),
            r is Ok ==> ({
                let act = old(self).step_spec(*kline).1[Self::decision_index_spec()];
                let ss = old(self).stake_size_spec();
                let tf = old(self).trading_fee_spec();
                let fund = frac(old(account).available_fund);
                let p = frac(kline.close);
                let q = frac(old(account).position.quantity);
                match act {
                    Action::Hold => *final(account) == *old(account),
                    Action::Buy(_) => if buy_trades(ss, tf, fund, p) {
                        f_eq(
                            frac(final(account).available_fund),
                            f_sub(fund, buy_outlay_frac(ss, tf, fund)),
                        ) && f_eq(
                            frac(final(account).position.quantity),
                            f_add(q, buy_quantity_frac(ss, tf, fund, p)),
                        ) && f_eq(
                            frac(final(account).position.cost),
                            f_add(frac(old(account).position.cost), buy_outlay_frac(ss, tf, fund)),
                        )
                    } else {
                        *final(account) == *old(account)
                    },
                    Action::Sell(_) => if sell_trades(tf, p, q) {
                        f_zero(frac(final(account).position.quantity)) && f_zero(
                            frac(final(account).position.cost),
                        ) && f_eq(
                            frac(final(account).available_fund),
                            f_add(fund, f_sub(f_mul(p, q), sell_fee_frac(tf, p, q))),
                        )
                    } else {
                        *final(account) == *old(account)
                    },
                }
            }),
    {
        let signals = self.next_signals(kline);
        let action = Self::determine_trade(&signals);
        match action {
            Action::Buy(_) => {
                match self.execute_buy(kline.end_time, kline.close, account) {
                    Ok(u) => {
                        let _ = u;
                        Ok(Option::None)
                    },
                    Err(e) => Err(e),
                }
            },
            Action::Sell(_) => self.execute_sell(kline.end_time, kline.close, account),
            Action::Hold => Ok(Option::None),
        }
    }
}

/// The exact account state one trade session leaves behind for a given
/// trader state and candle, or `None` when its arithmetic leaves the
/// machine range.
pub open spec fn session_result<T: GenericTrader>(
    t: T,
    kline: BinanceKline,
    fund: (int, int),
    qty: (int, int),
    cost: (int, int),
) -> Option<((int, int), (int, int), (int, int))> {
    match t.step_spec(kline).1[T::decision_index_spec()] {
        Action::Hold => Option::Some((fund, qty, cost)),
        Action::Buy(_) => buy_result(
            t.stake_size_spec(),
            t.trading_fee_spec(),
            fund,
            qty,
            cost,
            frac(kline.close),
        ),
        Action::Sell(_) => sell_result(t.trading_fee_spec(), fund, cost, qty, frac(kline.close)),
    }
}

/// Dollar-cost-averaging trader: its indicator fires a Buy on every new
/// calendar month; the decision reads signal index 0.
pub struct DCATrader {
    pub trading_fee: TradingFee,
    pub stake_size: StakeSize,
    pub indicator: DCAInstance,
}

impl DCATrader {
    /// Builds the trader. Configuration must already be valid — check with
    /// `validate` before calling.
    pub fn new(first_kline: &BinanceKline, trading_fee: TradingFee, stake_size: StakeSize) -> (r:
        DCATrader)
        requires
            trading_fee.wf(),
            stake_size.wf(),
        ensures
            r.trading_fee == trading_fee,
            r.stake_size == stake_size,
            r.indicator.last_period is None,
    {
        let cfg = DCA {  };
        DCATrader { trading_fee, stake_size, indicator: cfg.init(first_kline) }
    }
}

impl GenericTrader for DCATrader {
    open spec fn stake_size_spec(&self) -> StakeSize {
        self.stake_size
    }

    open spec fn trading_fee_spec(&self) -> TradingFee {
        self.trading_fee
    }

    open spec fn decision_index_spec() -> int {
        0
    }

    open spec fn step_spec(&self, kline: BinanceKline) -> (Self, Seq<Action>) {
        (
            DCATrader {
                trading_fee: self.trading_fee,
                stake_size: self.stake_size,
                indicator: self.indicator.next_spec(kline).0,
            },
            self.indicator.next_spec(kline).1,
        )
    }

    fn stake_size(&self) -> (r: StakeSize) {
        self.stake_size
    }

    fn trading_fee(&self) -> (r: TradingFee) {
        self.trading_fee
    }

    fn determine_trade(signals: &Vec<Action>) -> (r: Action) {
        signals[0]
    }

    fn next_signals(&mut self, kline: &BinanceKline) -> (v: Vec<Action>) {
        self.indicator.next_binance_kline(kline)
    }
}

/// Buy-and-hold trader: its indicator fires a single Buy on the first
/// candle; the whole fund is staked (rate 1); the decision reads signal
/// index 0.
pub struct HODLTrader {
    pub trading_fee: TradingFee,
    pub stake_size: StakeSize,
    pub indicator: HODLInstance,
}

impl HODLTrader {
    /// Builds the trader; the stake is always the full fund. Configuration
    /// must already be valid — check with `validate` before calling.
    pub fn new(first_kline: &BinanceKline, trading_fee: TradingFee) -> (r: HODLTrader)
        requires
            trading_fee.wf(),
        ensures
            r.trading_fee == trading_fee,
            r.stake_size == (StakeSize::FixPercentage(Rat { num: 1, den: 1 })),
            r.stake_size.wf(),
            !r.indicator.fired,
    {
        let cfg = HODL {  };
        HODLTrader {
            trading_fee,
            stake_size: StakeSize::FixPercentage(Rat::from_int(1)),
            indicator: cfg.init(first_kline),
        }
    }
}

impl GenericTrader for HODLTrader {
    open spec fn stake_size_spec(&self) -> StakeSize {
        self.stake_size
    }

    open spec fn trading_fee_spec(&self) -> TradingFee {
        self.trading_fee
    }

    open spec fn decision_index_spec() -> int {
        0
    }

    open spec fn step_spec(&self, kline: BinanceKline) -> (Self, Seq<Action>) {
        (
            HODLTrader {
                trading_fee: self.trading_fee,
                stake_size: self.stake_size,
                indicator: self.indicator.next_spec(kline).0,
            },
            self.indicator.next_spec(kline).1,
        )
    }

    fn stake_size(&self) -> (r: StakeSize) {
        self.stake_size
    }

    fn trading_fee(&self) -> (r: TradingFee) {
        self.trading_fee
    }

    fn determine_trade(signals: &Vec<Action>) -> (r: Action) {
        signals[0]
    }

    fn next_signals(&mut self, kline: &BinanceKline) -> (v: Vec<Action>) {
        self.indicator.next_binance_kline(kline)
    }
}

/// A trader whose per-candle signal is supplied by the caller through
/// `set_next_action`: the seam for strategies whose indicator math lives
/// outside the verified core (for instance floating-point indicator
/// libraries). The caller computes the signal; the verified engine executes
/// it.
pub struct ScriptedTrader {
    pub trading_fee: TradingFee,
    pub stake_size: StakeSize,
    pub pending: Action,
}

impl ScriptedTrader {
    /// Builds the trader with no pending signal. Configuration must already
    /// be valid — check with `validate` before calling.
    pub fn new(trading_fee: TradingFee, stake_size: StakeSize) -> (r: ScriptedTrader)
        requires
            trading_fee.wf(),
            stake_size.wf(),
        ensures
            r.trading_fee == trading_fee,
            r.stake_size == stake_size,
            r.pending == Action::Hold,
    {
        ScriptedTrader { trading_fee, stake_size, pending: Action::Hold }
    }

    /// Supplies the signal that the next trade session will execute.
    pub fn set_next_action(&mut self, action: Action)
        ensures
            *final(self) == (ScriptedTrader { pending: action, ..*old(self) }),
    {
        self.pending = action;
    }
}

impl GenericTrader for ScriptedTrader {
    open spec fn stake_size_spec(&self) -> StakeSize {
        self.stake_size
    }

    open spec fn trading_fee_spec(&self) -> TradingFee {
        self.trading_fee
    }

    open spec fn decision_index_spec() -> int {
        0
    }

    open spec fn step_spec(&self, kline: BinanceKline) -> (Self, Seq<Action>) {
        (*self, seq![self.pending])
    }

    fn stake_size(&self) -> (r: StakeSize) {
        self.stake_size
    }

    fn trading_fee(&self) -> (r: TradingFee) {
        self.trading_fee
    }

    fn determine_trade(signals: &Vec<Action>) -> (r: Action) {
        signals[0]
    }

    fn next_signals(&mut self, kline: &BinanceKline) -> (v: Vec<Action>) {
        let mut v: Vec<Action> = Vec::new();
        v.push(self.pending);
        proof {
            assert(v@ =~= old(self).step_spec(*kline).1);
        }
        v
    }
}

} // verus!
