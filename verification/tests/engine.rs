use backtester::account::{Account, Position};
use backtester::data::BinanceKline;
use backtester::rational::Rat;
use backtester::traders::{Action, GenericTrader, HODLTrader, ScriptedTrader, StakeSize, TradingFee};

fn rat(n: i64, d: i64) -> Rat {
    Rat::new(n, d)
}

fn whole(v: i64) -> Rat {
    Rat::from_int(v)
}

fn candle(start: i64, end: i64, price: i64) -> BinanceKline {
    BinanceKline::new(
        start,
        end,
        whole(price),
        whole(price),
        whole(price),
        whole(price),
        whole(1),
    )
}

fn fresh_account(fund: i64, start_time: i64) -> Account {
    Account::new(
        whole(fund),
        Position { quantity: whole(0), cost: whole(0) },
        start_time,
    )
}

#[test]
fn rational_addition_is_exact() {
    let a = rat(1, 2);
    let b = rat(1, 3);
    let sum = a.add(&b).unwrap();
    assert!(sum.equals(&rat(5, 6)));
}

#[test]
fn rational_equality_ignores_representation() {
    assert!(rat(2, 4).equals(&rat(1, 2)));
    assert!(!rat(2, 4).equals(&rat(2, 3)));
}

#[test]
fn rational_mul_div_round_trip() {
    let a = rat(7, 3);
    let b = rat(5, 2);
    let prod = a.mul(&b).unwrap();
    assert!(prod.equals(&rat(35, 6)));
    let back = prod.div(&b).unwrap();
    assert!(back.equals(&a));
}

#[test]
fn rational_overflow_is_reported() {
    let tiny = rat(1, i64::MAX);
    assert!(tiny.mul(&tiny).is_none());
}

#[test]
fn rational_comparisons() {
    assert!(rat(1, 3).lt(&rat(1, 2)));
    assert!(rat(1, 2).le(&rat(2, 4)));
    assert!(rat(-1, 2).lt(&rat(0, 1)));
}

#[test]
fn fee_round_trip_concrete() {
    // Percentage fee p = 1/2 on a stake of 1000: f = s*p/(1-p) = 1000,
    // and the fee is exactly p of the total outlay: (s+f)*p == f.
    let s = whole(1000);
    let p = rat(1, 2);
    let one_minus_p = whole(1).sub(&p).unwrap();
    let fee = s.mul(&p).unwrap().div(&one_minus_p).unwrap();
    assert!(fee.equals(&whole(1000)));
    let outlay = s.add(&fee).unwrap();
    assert!(outlay.mul(&p).unwrap().equals(&fee));
}

#[test]
fn validate_rejects_fee_rate_of_one_or_more() {
    assert!(!TradingFee::PercentageFee(rat(1, 1)).validate());
    assert!(!TradingFee::PercentageFee(rat(3, 2)).validate());
    assert!(TradingFee::PercentageFee(rat(1, 200)).validate());
    assert!(TradingFee::FixFee(whole(5)).validate());
    assert!(!TradingFee::FixFee(whole(-5)).validate());
}

#[test]
fn validate_stake_sizes() {
    assert!(StakeSize::FixPercentage(rat(1, 1)).validate());
    assert!(!StakeSize::FixPercentage(rat(3, 2)).validate());
    assert!(StakeSize::FixAmount(whole(100)).validate());
    assert!(!StakeSize::FixAmount(whole(-1)).validate());
}

#[test]
fn scenario_full_percentage_stake_zero_fee() {
    // fund 1000, first traded candle at price 100, stake = whole fund,
    // fee rate 0: stake 1000, fee 0, quantity 10, fund afterwards 0.
    let k0 = candle(0, 100, 90);
    let k1 = candle(100, 200, 100);
    let mut trader = HODLTrader::new(&k0, TradingFee::PercentageFee(rat(0, 1)));
    let mut account = fresh_account(1000, 0);
    trader.next_trade_session(&k1, &mut account).unwrap();
    assert!(account.available_fund.equals(&whole(0)));
    assert!(account.position.quantity.equals(&whole(10)));
    assert!(account.position.cost.equals(&whole(1000)));
}

#[test]
fn scenario_fee_formula_exceeding_fund_is_rejected() {
    // fund 1000, price 100, whole fund staked, fee rate 1/2: the grossed-up
    // fee is 1000, so the outlay 2000 exceeds the fund — the policy of this
    // engine is to reject such a buy as an insufficient-fund no-op.
    let k0 = candle(0, 100, 90);
    let k1 = candle(100, 200, 100);
    let mut trader = HODLTrader::new(&k0, TradingFee::PercentageFee(rat(1, 2)));
    let mut account = fresh_account(1000, 0);
    trader.next_trade_session(&k1, &mut account).unwrap();
    assert!(account.available_fund.equals(&whole(1000)));
    assert!(account.position.quantity.equals(&whole(0)));
}

#[test]
fn sell_with_zero_position_is_a_no_op() {
    let trader = ScriptedTrader::new(
        TradingFee::PercentageFee(rat(1, 200)),
        StakeSize::FixPercentage(rat(1, 1)),
    );
    let mut account = fresh_account(1000, 0);
    let pnl = trader.execute_sell(50, whole(100), &mut account).unwrap();
    assert!(pnl.is_none());
    assert!(account.available_fund.equals(&whole(1000)));
    assert!(account.position.quantity.equals(&whole(0)));
    assert!(account.position.cost.equals(&whole(0)));
    assert_eq!(account.profit_and_loss_history.len(), 0);
}

#[test]
fn successful_sell_liquidates_whole_position() {
    // Build a position of 10 units at 100 (cost 1000) and sell everything
    // at 110 with a 10% sell fee: proceeds 1100, fee 110, fund 990.
    let k0 = candle(0, 100, 90);
    let k1 = candle(100, 200, 100);
    let mut trader = HODLTrader::new(&k0, TradingFee::PercentageFee(rat(0, 1)));
    let mut account = fresh_account(1000, 0);
    trader.next_trade_session(&k1, &mut account).unwrap();
    assert!(account.position.quantity.equals(&whole(10)));
    let seller = ScriptedTrader::new(
        TradingFee::PercentageFee(rat(1, 10)),
        StakeSize::FixPercentage(rat(1, 1)),
    );
    let pnl = seller.execute_sell(250, whole(110), &mut account).unwrap().unwrap();
    assert!(account.position.quantity.equals(&whole(0)));
    assert!(account.position.cost.equals(&whole(0)));
    assert!(account.available_fund.equals(&whole(990)));
    // realized profit and loss: net proceeds 990 minus cost basis 1000
    assert!(pnl.equals(&whole(-10)));
}

#[test]
fn arithmetic_overflow_leaves_account_unchanged() {
    let mut account = fresh_account(1000, 0);
    let q = rat(1, 1 << 40);
    let p = rat(1, 1 << 40);
    let r = account.open(10, q, p, whole(0));
    assert!(matches!(r, Err(_)));
    assert!(account.available_fund.equals(&whole(1000)));
    assert!(account.position.quantity.equals(&whole(0)));
}

#[test]
fn mark_to_market_appends_equity() {
    let k0 = candle(0, 100, 90);
    let k1 = candle(100, 200, 100);
    let mut trader = HODLTrader::new(&k0, TradingFee::PercentageFee(rat(0, 1)));
    let mut account = fresh_account(1000, 0);
    trader.next_trade_session(&k1, &mut account).unwrap();
    account.mark_to_market(200, whole(120)).unwrap();
    assert_eq!(account.profit_and_loss_history.len(), 1);
    let point = &account.profit_and_loss_history[0];
    assert_eq!(point.timestamp, 200);
    // equity = fund 0 + 10 * 120
    assert!(point.equity.equals(&whole(1200)));
}

#[test]
fn scripted_hold_changes_nothing() {
    let mut trader = ScriptedTrader::new(
        TradingFee::PercentageFee(rat(1, 200)),
        StakeSize::FixPercentage(rat(1, 1)),
    );
    let mut account = fresh_account(1000, 0);
    let k1 = candle(100, 200, 100);
    trader.set_next_action(Action::Hold);
    trader.next_trade_session(&k1, &mut account).unwrap();
    assert!(account.available_fund.equals(&whole(1000)));
    assert!(account.position.quantity.equals(&whole(0)));
}
