//! Account bookkeeping: cash, the open position, and the equity history.
//!
//! The account owns the available cash and the currently held position and
//! exposes exactly three mutations: `open` (buy), `close` (full liquidation)
//! and `mark_to_market` (append an equity snapshot). Cash and position
//! quantity never go negative, and the equity history is append-only with
//! strictly increasing timestamps.

use crate::rational::{
    checked_add, checked_mul, checked_sub, f_add, f_eq, f_le, f_mul, f_nonneg, f_pos, f_sub, f_wf,
    f_zero, frac, lemma_checked_add_exact, lemma_checked_mul_exact, lemma_checked_sub_exact,
    lemma_f_eq_add, lemma_f_eq_le, lemma_f_eq_sign, lemma_f_eq_sub, lemma_f_eq_trans,
    lemma_f_wf_ops, Rat,
};
use vstd::prelude::*;

verus! {

/// An arithmetic operation left the range of the machine representation.
/// The failed operation is always a complete no-op on the account.
#[derive(Clone, Copy, Debug)]
pub enum ArithError {
    Overflow,
}

/// The machine arithmetic of `Account::open` succeeds: the outlay product
/// and the three sums and differences built from it all stay representable.
/// `open` returns `Ok` exactly when this holds.
pub open spec fn open_succeeds(
    fund: (int, int),
    qty: (int, int),
    cost: (int, int),
    q: (int, int),
    p: (int, int),
) -> bool {
    match checked_mul(q, p) {
        Option::Some(o) => {
            &&& checked_sub(fund, o) is Some
            &&& checked_add(qty, q) is Some
            &&& checked_add(cost, o) is Some
        },
        Option::None => false,
    }
}

/// The machine arithmetic of `Account::close` succeeds: gross proceeds, net
/// proceeds, the credited fund and the realized profit all stay
/// representable. `close` returns `Ok` exactly when this holds.
pub open spec fn close_succeeds(
    fund: (int, int),
    cost: (int, int),
    q: (int, int),
    p: (int, int),
    fee: (int, int),
) -> bool {
    match checked_mul(p, q) {
        Option::Some(g) => match checked_sub(g, fee) {
            Option::Some(n) => checked_add(fund, n) is Some && checked_sub(n, cost) is Some,
            Option::None => false,
        },
        Option::None => false,
    }
}

/// The machine arithmetic of `Account::mark_to_market` succeeds: the held
/// value and the equity sum stay representable. `mark_to_market` returns
/// `Ok` exactly when this holds.
pub open spec fn mark_to_market_succeeds(fund: (int, int), qty: (int, int), p: (int, int)) -> bool {
    match checked_mul(qty, p) {
        Option::Some(h) => checked_add(fund, h) is Some,
        Option::None => false,
    }
}

/// One equity snapshot: total account value at a point in time.
#[derive(Clone, Copy, Debug)]
pub struct EquityPoint {
    pub timestamp: i64,
    pub equity: Rat,
}

/// The held position: quantity of the asset and its cumulative cash basis.
#[derive(Clone, Copy, Debug)]
pub struct Position {
    pub quantity: Rat,
    pub cost: Rat,
}

impl Position {
    /// Both parts are well formed and non-negative: no short selling,
    /// no negative basis.
    pub open spec fn wf(self) -> bool {
        &&& self.quantity.wf()
        &&& f_nonneg(frac(self.quantity))
        &&& self.cost.wf()
        &&& f_nonneg(frac(self.cost))
    }
}

/// The simulated trading account.
pub struct Account {
    pub available_fund: Rat,
    pub position: Position,
    pub profit_and_loss_history: Vec<EquityPoint>,
    /// The latest timestamp the account has seen; every history entry is at
    /// or before it, so the next snapshot must come strictly after it.
    pub last_timestamp: i64,
}

impl Account {
    /// Account invariant: cash and position are non-negative, and the equity
    /// history is ordered strictly by timestamp, all entries no later than
    /// `last_timestamp`.
    pub open spec fn wf(self) -> bool {
        &&& self.available_fund.wf()
        &&& f_nonneg(frac(self.available_fund))
        &&& self.position.wf()
        &&& forall|i: int|
            0 <= i < self.profit_and_loss_history@.len() ==> (
            #[trigger] self.profit_and_loss_history@[i]).equity.wf()
                && self.profit_and_loss_history@[i].timestamp <= self.last_timestamp
        &&& forall|i: int, j: int|
            0 <= i < j < self.profit_and_loss_history@.len() ==> (
            #[trigger] self.profit_and_loss_history@[i]).timestamp < (
            #[trigger] self.profit_and_loss_history@[j]).timestamp
    }

    /// A fresh account: the initial fund, a starting position, an empty
    /// history, anchored at `start_time`.
    pub fn new(start_fund: Rat, start_position: Position, start_time: i64) -> (r: Account)
        requires
            start_fund.wf(),
            f_nonneg(frac(start_fund)),
            start_position.wf(),
        ensures
            r.wf(),
            r.available_fund == start_fund,
            r.position == start_position,
            r.profit_and_loss_history@.len() == 0,
            r.last_timestamp == start_time,
    {
        Account {
            available_fund: start_fund,
            position: start_position,
            profit_and_loss_history: Vec::new(),
            last_timestamp: start_time,
        }
    }

    /// Opens (adds to) the position: `quantity` units bought at `price`.
    ///
    /// The full cash outlay is `quantity * price` — by construction of the
    /// execution engine this equals stake plus fee, so the position's cost
    /// basis carries the fee. The outlay must not exceed the available fund:
    /// cash never goes negative. `fee` is the part of the outlay charged by
    /// the exchange; it is carried inside the outlay and recorded nowhere
    /// else. On `Err` the account is unchanged.
    pub fn open(&mut self, timestamp: i64, quantity: Rat, price: Rat, fee: Rat) -> (r: Result<
        (),
        ArithError,
    >)
        requires
            old(self).wf(),
            quantity.wf(),
            f_pos(frac(quantity)),
            price.wf(),
            f_pos(frac(price)),
            fee.wf(),
            f_nonneg(frac(fee)),
            f_le(f_mul(frac(quantity), frac(price)), frac(old(self).available_fund)),
        ensures
            final(self).profit_and_loss_history == old(self).profit_and_loss_history,
            final(self).last_timestamp == old(self).last_timestamp,
            (r is Ok) == open_succeeds(
                frac(old(self).available_fund),
                frac(old(self).position.quantity),
                frac(old(self).position.cost),
                frac(quantity),
                frac(price),
            ),
            r is Err ==> *final(self) == *old(self),
            r is Ok ==> ({
                let o = checked_mul(frac(quantity), frac(price)).unwrap();
                &&& frac(final(self).available_fund) == checked_sub(
                    frac(old(self).available_fund),
                    o,
                ).unwrap()
                &&& frac(final(self).position.quantity) == checked_add(
                    frac(old(self).position.quantity),
                    frac(quantity),
                ).unwrap()
                &&& frac(final(self).position.cost) == checked_add(
                    frac(old(self).position.cost),
                    o,
                ).unwrap()
            }),
            r is Ok ==> final(self).wf() && f_eq(
                frac(final(self).available_fund),
                f_sub(frac(old(self).available_fund), f_mul(frac(quantity), frac(price))),
            ) && f_eq(
                frac(final(self).position.quantity),
                f_add(frac(old(self).position.quantity), frac(quantity)),
            ) && f_eq(
                frac(final(self).position.cost),
                f_add(frac(old(self).position.cost), f_mul(frac(quantity), frac(price))),
            ),
    {
        let _ = timestamp;
        let _ = fee;
        let ghost q = frac(quantity);
        let ghost p = frac(price);
        let outlay = match quantity.mul(&price) {
            Some(v) => v,
            Option::None => { return Err(ArithError::Overflow) },
        };
        proof {
            lemma_checked_mul_exact(q, p, frac(outlay));
        }
        let new_fund = match self.available_fund.sub(&outlay) {
            Some(v) => v,
            Option::None => { return Err(ArithError::Overflow) },
        };
        let new_quantity = match self.position.quantity.add(&quantity) {
            Some(v) => v,
            Option::None => { return Err(ArithError::Overflow) },
        };
        let new_cost = match self.position.cost.add(&outlay) {
            Some(v) => v,
            Option::None => { return Err(ArithError::Overflow) },
        };
        proof {
            let fund = frac(old(self).available_fund);
            lemma_f_wf_ops(q, p);
            lemma_f_wf_ops(fund, f_mul(q, p));
            lemma_f_wf_ops(frac(old(self).position.quantity), q);
            lemma_f_wf_ops(frac(old(self).position.cost), f_mul(q, p));
            lemma_f_wf_ops(fund, frac(outlay));
            lemma_f_wf_ops(frac(old(self).position.quantity), frac(quantity));
            lemma_f_wf_ops(frac(old(self).position.cost), frac(outlay));
            lemma_checked_sub_exact(fund, frac(outlay), frac(new_fund));
            lemma_f_eq_sub(fund, fund, frac(outlay), f_mul(q, p));
            lemma_f_eq_trans(frac(new_fund), f_sub(fund, frac(outlay)), f_sub(fund, f_mul(q, p)));
            lemma_f_eq_le(frac(outlay), f_mul(q, p), fund, fund);
            lemma_f_eq_sign(frac(new_fund), f_sub(fund, f_mul(q, p)));
            assert(f_nonneg(f_sub(fund, f_mul(q, p)))) by (nonlinear_arith)
                requires
                    f_le(f_mul(q, p), fund),
                    f_wf(fund),
                    f_wf(f_mul(q, p)),
            {}
            let oq = frac(old(self).position.quantity);
            lemma_checked_add_exact(oq, q, frac(new_quantity));
            lemma_f_eq_sign(frac(new_quantity), f_add(oq, q));
            assert(f_nonneg(f_add(oq, q))) by (nonlinear_arith)
                requires
                    f_wf(oq),
                    f_wf(q),
                    f_nonneg(oq),
                    f_nonneg(q),
            {}
            let oc = frac(old(self).position.cost);
            lemma_checked_add_exact(oc, frac(outlay), frac(new_cost));
            lemma_f_eq_add(oc, oc, frac(outlay), f_mul(q, p));
            lemma_f_eq_trans(frac(new_cost), f_add(oc, frac(outlay)), f_add(oc, f_mul(q, p)));
            lemma_f_eq_sign(frac(new_cost), f_add(oc, f_mul(q, p)));
            assert(f_nonneg(f_add(oc, f_mul(q, p)))) by (nonlinear_arith)
                requires
                    f_wf(oc),
                    f_wf(q),
                    f_wf(p),
                    f_nonneg(oc),
                    f_nonneg(q),
                    f_pos(p),
            {}
        }
        self.available_fund = new_fund;
        self.position = Position { quantity: new_quantity, cost: new_cost };
        Ok(())
    }

    /// Closes the whole position: `quantity` must be the full held quantity.
    ///
    /// Credits the available fund with the net proceeds
    /// `price * quantity - fee` (the fee must not exceed the gross proceeds,
    /// so cash never goes negative), resets the position to zero, and
    /// returns the realized profit or loss: net proceeds minus cost basis.
    /// On `Err` the account is unchanged.
    pub fn close(&mut self, timestamp: i64, quantity: Rat, price: Rat, fee: Rat) -> (r: Result<
        Rat,
        ArithError,
    >)
        requires
            old(self).wf(),
            quantity.wf(),
            f_pos(frac(quantity)),
            quantity == old(self).position.quantity,
            price.wf(),
            fee.wf(),
            f_nonneg(frac(fee)),
            f_le(frac(fee), f_mul(frac(price), frac(quantity))),
        ensures
            final(self).profit_and_loss_history == old(self).profit_and_loss_history,
            final(self).last_timestamp == old(self).last_timestamp,
            (r is Ok) == close_succeeds(
                frac(old(self).available_fund),
                frac(old(self).position.cost),
                frac(quantity),
                frac(price),
                frac(fee),
            ),
            r is Err ==> *final(self) == *old(self),
            r is Ok ==> ({
                let n = checked_sub(checked_mul(frac(price), frac(quantity)).unwrap(), frac(fee)).unwrap();
                &&& frac(final(self).available_fund) == checked_add(
                    frac(old(self).available_fund),
                    n,
                ).unwrap()
                &&& frac(final(self).position.quantity) == (0int, 1int)
                &&& frac(final(self).position.cost) == (0int, 1int)
            }),
            r matches Ok(pnl) ==> final(self).wf() && f_zero(frac(final(self).position.quantity)) && f_zero(
                frac(final(self).position.cost),
            ) && f_eq(
                frac(final(self).available_fund),
                f_add(
                    frac(old(self).available_fund),
                    f_sub(f_mul(frac(price), frac(quantity)), frac(fee)),
                ),
            ) && pnl.wf() && f_eq(
                frac(pnl),
                f_sub(
                    f_sub(f_mul(frac(price), frac(quantity)), frac(fee)),
                    frac(old(self).position.cost),
                ),
            ),
    {
        let _ = timestamp;
        let ghost q = frac(quantity);
        let ghost p = frac(price);
        let gross = match price.mul(&quantity) {
            Some(v) => v,
            Option::None => { return Err(ArithError::Overflow) },
        };
        let net = match gross.sub(&fee) {
            Some(v) => v,
            Option::None => { return Err(ArithError::Overflow) },
        };
        let new_fund = match self.available_fund.add(&net) {
            Some(v) => v,
            Option::None => { return Err(ArithError::Overflow) },
        };
        let pnl = match net.sub(&self.position.cost) {
            Some(v) => v,
            Option::None => { return Err(ArithError::Overflow) },
        };
        proof {
            let fund = frac(old(self).available_fund);
            let oc = frac(old(self).position.cost);
            lemma_f_wf_ops(p, q);
            lemma_f_wf_ops(f_mul(p, q), frac(fee));
            lemma_f_wf_ops(fund, f_sub(f_mul(p, q), frac(fee)));
            lemma_f_wf_ops(f_sub(f_mul(p, q), frac(fee)), oc);
            lemma_f_wf_ops(frac(gross), frac(fee));
            lemma_f_wf_ops(fund, frac(net));
            lemma_f_wf_ops(frac(net), oc);
            lemma_checked_mul_exact(p, q, frac(gross));
            lemma_checked_sub_exact(frac(gross), frac(fee), frac(net));
            lemma_f_eq_sub(frac(gross), f_mul(p, q), frac(fee), frac(fee));
            lemma_f_eq_trans(
                frac(net),
                f_sub(frac(gross), frac(fee)),
                f_sub(f_mul(p, q), frac(fee)),
            );
            lemma_checked_add_exact(fund, frac(net), frac(new_fund));
            lemma_f_eq_add(fund, fund, frac(net), f_sub(f_mul(p, q), frac(fee)));
            lemma_f_eq_trans(
                frac(new_fund),
                f_add(fund, frac(net)),
                f_add(fund, f_sub(f_mul(p, q), frac(fee))),
            );
            lemma_f_eq_sign(frac(new_fund), f_add(fund, f_sub(f_mul(p, q), frac(fee))));
            lemma_f_eq_le(frac(fee), frac(fee), frac(gross), f_mul(p, q));
            assert(f_nonneg(f_add(fund, f_sub(f_mul(p, q), frac(fee))))) by (nonlinear_arith)
                requires
                    f_wf(fund),
                    f_wf(f_mul(p, q)),
                    f_wf(frac(fee)),
                    f_nonneg(fund),
                    f_le(frac(fee), f_mul(p, q)),
            {}
            lemma_checked_sub_exact(frac(net), oc, frac(pnl));
            lemma_f_eq_sub(frac(net), f_sub(f_mul(p, q), frac(fee)), oc, oc);
            lemma_f_eq_trans(
                frac(pnl),
                f_sub(frac(net), oc),
                f_sub(f_sub(f_mul(p, q), frac(fee)), oc),
            );
        }
        self.available_fund = new_fund;
        self.position = Position { quantity: Rat::from_int(0), cost: Rat::from_int(0) };
        Ok(pnl)
    }

    /// Appends a mark-to-market snapshot: total equity
    /// `available_fund + position.quantity * price` at `timestamp`.
    /// Cash and position are untouched. On `Err` the account is unchanged.
    pub fn mark_to_market(&mut self, timestamp: i64, price: Rat) -> (r: Result<(), ArithError>)
        requires
            old(self).wf(),
            price.wf(),
            timestamp > old(self).last_timestamp,
        ensures
            final(self).available_fund == old(self).available_fund,
            final(self).position == old(self).position,
            (r is Ok) == mark_to_market_succeeds(
                frac(old(self).available_fund),
                frac(old(self).position.quantity),
                frac(price),
            ),
            r is Ok ==> frac(final(self).profit_and_loss_history@.last().equity) == checked_add(
                frac(old(self).available_fund),
                checked_mul(frac(old(self).position.quantity), frac(price)).unwrap(),
            ).unwrap(),
            r is Err ==> *final(self) == *old(self),
            r is Ok ==> final(self).wf() && final(self).last_timestamp == timestamp
                && final(self).profit_and_loss_history@.len() == old(
                self,
            ).profit_and_loss_history@.len() + 1 && (forall|i: int|
                0 <= i < old(self).profit_and_loss_history@.len()
                    ==> #[trigger] final(self).profit_and_loss_history@[i] == old(
                    self,
                ).profit_and_loss_history@[i]) && final(self).profit_and_loss_history@.last().timestamp
                == timestamp && f_eq(
                frac(final(self).profit_and_loss_history@.last().equity),
                f_add(
                    frac(old(self).available_fund),
                    f_mul(frac(old(self).position.quantity), frac(price)),
                ),
            ),
    {
        let ghost fund = frac(self.available_fund);
        let ghost q = frac(self.position.quantity);
        let ghost p = frac(price);
        let held = match self.position.quantity.mul(&price) {
            Some(v) => v,
            Option::None => { return Err(ArithError::Overflow) },
        };
        let equity = match self.available_fund.add(&held) {
            Some(v) => v,
            Option::None => { return Err(ArithError::Overflow) },
        };
        proof {
            lemma_f_wf_ops(q, p);
            lemma_f_wf_ops(fund, f_mul(q, p));
            lemma_f_wf_ops(fund, frac(held));
            lemma_checked_mul_exact(q, p, frac(held));
            lemma_checked_add_exact(fund, frac(held), frac(equity));
            lemma_f_eq_add(fund, fund, frac(held), f_mul(q, p));
            lemma_f_eq_trans(frac(equity), f_add(fund, frac(held)), f_add(fund, f_mul(q, p)));
        }
        self.profit_and_loss_history.push(EquityPoint { timestamp, equity });
        self.last_timestamp = timestamp;
        Ok(())
    }
}

} // verus!
