//! The backtest driver: replays an ordered candle sequence through a
//! trader, mutating the account once per candle and appending one
//! mark-to-market snapshot per candle.

use crate::account::{mark_to_market_succeeds, Account, ArithError, Position};
use crate::data::BinanceKline;
use crate::rational::{f_add, f_eq, f_mul, f_zero, frac, Rat};
use crate::traders::{session_result, Action, DCATrader, GenericTrader, StakeSize, TradingFee};
use vstd::prelude::*;

verus! {

/// The trader state after the first `i` candles of a run: the fold of the
/// strategy's transition function.
pub open spec fn trader_state_at<T: GenericTrader>(t0: T, klines: Seq<BinanceKline>, i: int) -> T
    decreases i,
{
    if i <= 0 {
        t0
    } else {
        trader_state_at(t0, klines, i - 1).step_spec(klines[i - 1]).0
    }
}

/// The action the strategy decides on candle `i` of a run.
pub open spec fn action_at<T: GenericTrader>(t0: T, klines: Seq<BinanceKline>, i: int) -> Action {
    trader_state_at(t0, klines, i).step_spec(klines[i]).1[T::decision_index_spec()]
}

/// A run in which the strategy never signals a trade, and every equity
/// snapshot of the (therefore constant) account stays representable.
pub open spec fn silent_run<T: GenericTrader>(
    t0: T,
    a0: Account,
    klines: Seq<BinanceKline>,
) -> bool {
    forall|i: int|
        0 <= i < klines.len() ==> ((#[trigger] action_at(t0, klines, i)) == Action::Hold
            && mark_to_market_succeeds(
            frac(a0.available_fund),
            frac(a0.position.quantity),
            frac(klines[i].close),
        ))
}

/// The exact account state (fund, quantity, cost pairs as stored) after
/// the first `i` candles of a run — one trade session and one
/// fund-preserving equity snapshot per candle — or `None` as soon as any
/// step's arithmetic leaves the machine range.
pub open spec fn run_result<T: GenericTrader>(
    t0: T,
    klines: Seq<BinanceKline>,
    i: int,
    fund: (int, int),
    qty: (int, int),
    cost: (int, int),
) -> Option<((int, int), (int, int), (int, int))>
    decreases i,
{
    if i <= 0 {
        Option::Some((fund, qty, cost))
    } else {
        match run_result(t0, klines, i - 1, fund, qty, cost) {
            Option::Some(s) => match session_result(
                trader_state_at(t0, klines, i - 1),
                klines[i - 1],
                s.0,
                s.1,
                s.2,
            ) {
                Option::Some(s2) => if mark_to_market_succeeds(
                    s2.0,
                    s2.1,
                    frac(klines[i - 1].close),
                ) {
                    Option::Some(s2)
                } else {
                    Option::None
                },
                Option::None => Option::None,
            },
            Option::None => Option::None,
        }
    }
}

/// Once a run's arithmetic has failed, it stays failed.
pub proof fn lemma_run_none_propagates<T: GenericTrader>(
    t0: T,
    klines: Seq<BinanceKline>,
    i: int,
    n: int,
    fund: (int, int),
    qty: (int, int),
    cost: (int, int),
)
    requires
        0 <= i <= n,
        run_result(t0, klines, i, fund, qty, cost) is None,
    ensures
        run_result(t0, klines, n, fund, qty, cost) is None,
    decreases n - i,
{
    if n > i {
        lemma_run_none_propagates(t0, klines, i, n - 1, fund, qty, cost);
    }
}

/// Replays every candle in order: one trade session (indicator → decision
/// → execution) and then one equity snapshot per candle. The realized
/// profit or loss a sell hands back is per-trade information for callers of
/// the engine; the driver itself records only mark-to-market equity. The
/// run stops early only when arithmetic leaves the machine range: every
/// fully completed candle has left its snapshot, but the failing candle
/// itself has not, whether its trade session or its snapshot failed. The
/// account invariant holds in every outcome. A run whose strategy stays
/// silent throughout, and whose constant equity stays representable, is
/// guaranteed to complete, leaving cash and position untouched and
/// appending one constant-formula equity snapshot per candle.
#[verifier::rlimit(100)]
pub fn backtest<T: GenericTrader>(
    trader: &mut T,
    klines: &Vec<BinanceKline>,
    account: &mut Account,
) -> (r: Result<(), ArithError>)
    requires
        old(trader).stake_size_spec().wf(),
        old(trader).trading_fee_spec().wf(),
        old(account).wf(),
        forall|i: int| 0 <= i < klines@.len() ==> (#[trigger] klines@[i]).wf(),
        forall|i: int|
            0 <= i < klines@.len() - 1 ==> (#[trigger] klines@[i]).end_time < klines@[i
                + 1].end_time,
        klines@.len() > 0 ==> klines@[0].end_time > old(account).last_timestamp,
    ensures
        final(account).wf(),
        final(trader).stake_size_spec() == old(trader).stake_size_spec(),
        final(trader).trading_fee_spec() == old(trader).trading_fee_spec(),
        final(account).profit_and_loss_history@.len() >= old(account).profit_and_loss_history@.len(),
        final(account).profit_and_loss_history@.len() <= old(account).profit_and_loss_history@.len() + klines@.len(),
        forall|i: int|
            0 <= i < old(account).profit_and_loss_history@.len() ==> #[trigger] final(account).profit_and_loss_history@[i] == old(account).profit_and_loss_history@[i],
        forall|i: int|
            old(account).profit_and_loss_history@.len() <= i < final(account).profit_and_loss_history@.len() ==> (#[trigger] final(account).profit_and_loss_history@[i]).timestamp == klines@[i - old(account).profit_and_loss_history@.len()].end_time,
        r is Ok ==> final(account).profit_and_loss_history@.len() == old(account).profit_and_loss_history@.len() + klines@.len(),
        (r is Ok) == (run_result(
            *old(trader),
            klines@,
            klines@.len() as int,
            frac(old(account).available_fund),
            frac(old(account).position.quantity),
            frac(old(account).position.cost),
        ) is Some),
        r is Ok ==> (run_result(
            *old(trader),
            klines@,
            klines@.len() as int,
            frac(old(account).available_fund),
            frac(old(account).position.quantity),
            frac(old(account).position.cost),
        ) matches Some(s) && frac(final(account).available_fund) == s.0 && frac(
            final(account).position.quantity,
        ) == s.1 && frac(final(account).position.cost) == s.2),
        silent_run(*old(trader), *old(account), klines@) ==> (r is Ok && final(account).available_fund == old(account).available_fund && final(account).position == old(account).position && (forall|j: int|
            old(account).profit_and_loss_history@.len() <= j < old(account).profit_and_loss_history@.len() + klines@.len() ==> f_eq(
                frac((#[trigger] final(account).profit_and_loss_history@[j]).equity),
                f_add(
                    frac(old(account).available_fund),
                    f_mul(
                        frac(old(account).position.quantity),
                        frac(klines@[j - old(account).profit_and_loss_history@.len()].close),
                    ),
                ),
            ))),
{
    let ghost base = old(account).profit_and_loss_history@.len();
    let ghost f0 = frac(old(account).available_fund);
    let ghost q0 = frac(old(account).position.quantity);
    let ghost c0 = frac(old(account).position.cost);
    let mut i: usize = 0;
    while i < klines.len()
        invariant
            0 <= i <= klines@.len(),
            base == old(account).profit_and_loss_history@.len(),
            trader.stake_size_spec() == old(trader).stake_size_spec(),
            trader.trading_fee_spec() == old(trader).trading_fee_spec(),
            trader.stake_size_spec().wf(),
            trader.trading_fee_spec().wf(),
            account.wf(),
            forall|k: int| 0 <= k < klines@.len() ==> (#[trigger] klines@[k]).wf(),
            forall|k: int|
                0 <= k < klines@.len() - 1 ==> (#[trigger] klines@[k]).end_time < klines@[k
                    + 1].end_time,
            account.profit_and_loss_history@.len() == base + i,
            forall|j: int|
                0 <= j < base ==> #[trigger] account.profit_and_loss_history@[j] == old(account).profit_and_loss_history@[j],
            forall|j: int|
                base <= j < base + i ==> (#[trigger] account.profit_and_loss_history@[j]).timestamp
                    == klines@[j - base].end_time,
            i < klines@.len() ==> klines@[i as int].end_time > account.last_timestamp,
            *trader == trader_state_at(*old(trader), klines@, i as int),
            f0 == frac(old(account).available_fund),
            q0 == frac(old(account).position.quantity),
            c0 == frac(old(account).position.cost),
            run_result(*old(trader), klines@, i as int, f0, q0, c0) matches Some(s) && frac(
                account.available_fund,
            ) == s.0 && frac(account.position.quantity) == s.1 && frac(account.position.cost)
                == s.2,
            silent_run(*old(trader), *old(account), klines@) ==> (account.available_fund == old(account).available_fund && account.position == old(account).position && (forall|j: int|
                base <= j < base + i ==> f_eq(
                    frac((#[trigger] account.profit_and_loss_history@[j]).equity),
                    f_add(
                        frac(old(account).available_fund),
                        f_mul(
                            frac(old(account).position.quantity),
                            frac(klines@[j - base].close),
                        ),
                    ),
                ))),
        decreases klines@.len() - i,
    {
        let kline = klines[i];
        proof {
            if silent_run(*old(trader), *old(account), klines@) {
                assert(action_at(*old(trader), klines@, i as int) == Action::Hold);
            }
        }
        match trader.next_trade_session(&kline, account) {
            Ok(u) => {
                let _ = u;
            },
            Err(e) => {
                proof {
                    if silent_run(*old(trader), *old(account), klines@) {
                        assert(false);
                    }
                    assert(run_result(*old(trader), klines@, i as int + 1, f0, q0, c0) is None);
                    lemma_run_none_propagates(
                        *old(trader),
                        klines@,
                        i as int + 1,
                        klines@.len() as int,
                        f0,
                        q0,
                        c0,
                    );
                }
                return Err(e);
            },
        };
        match account.mark_to_market(kline.end_time, kline.close) {
            Ok(u) => u,
            Err(e) => {
                proof {
                    if silent_run(*old(trader), *old(account), klines@) {
                        assert(false);
                    }
                    assert(run_result(*old(trader), klines@, i as int + 1, f0, q0, c0) is None);
                    lemma_run_none_propagates(
                        *old(trader),
                        klines@,
                        i as int + 1,
                        klines@.len() as int,
                        f0,
                        q0,
                        c0,
                    );
                }
                return Err(e);
            },
        };
        i = i + 1;
    }
    Ok(())
}

/// Sets up the account as a backtest run starts it: an initial fund of
/// 1000, an empty position, anchored at the first candle's start time.
pub fn initialise_acount(klines: &Vec<BinanceKline>) -> (r: Account)
    requires
        klines@.len() > 0,
    ensures
        r.wf(),
        frac(r.available_fund) == (1000int, 1int),
        f_zero(frac(r.position.quantity)),
        f_zero(frac(r.position.cost)),
        r.profit_and_loss_history@.len() == 0,
        r.last_timestamp == klines@[0].start_time,
{
    let first_kline = &klines[0];
    let start_time = first_kline.start_time;
    let start_fund = Rat::from_int(1000);
    let start_position = Position { quantity: Rat::from_int(0), cost: Rat::from_int(0) };
    Account::new(start_fund, start_position, start_time)
}

/// Sets up the dollar-cost-averaging trader: a 0.5% percentage fee and a
/// fixed stake of 100 per monthly buy, warmed up on the first candle.
pub fn initialise_dca_trader(klines: &Vec<BinanceKline>) -> (r: DCATrader)
    requires
        klines@.len() > 0,
    ensures
        r.trading_fee == (TradingFee::PercentageFee(Rat { num: 1, den: 200 })),
        r.stake_size == (StakeSize::FixAmount(Rat { num: 100, den: 1 })),
        r.trading_fee.wf(),
        r.stake_size.wf(),
        r.indicator.last_period is None,
{
    let trading_fee = TradingFee::PercentageFee(Rat::new(1, 200));
    let stake_size = StakeSize::FixAmount(Rat::from_int(100));
    DCATrader::new(&klines[0], trading_fee, stake_size)
}

/// Sets up the buy-and-hold trader: a 0.5% percentage fee, the whole fund
/// staked on its single buy, warmed up on the first candle.
pub fn initialise_hodl_trader(klines: &Vec<BinanceKline>) -> (r: crate::traders::HODLTrader)
    requires
        klines@.len() > 0,
    ensures
        r.trading_fee == (TradingFee::PercentageFee(Rat { num: 1, den: 200 })),
        r.stake_size == (StakeSize::FixPercentage(Rat { num: 1, den: 1 })),
        r.trading_fee.wf(),
        r.stake_size.wf(),
        !r.indicator.fired,
{
    let trading_fee = TradingFee::PercentageFee(Rat::new(1, 200));
    crate::traders::HODLTrader::new(&klines[0], trading_fee)
}

} // verus!
