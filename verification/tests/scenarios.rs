use backtester::backtest::{backtest, initialise_acount, initialise_dca_trader, initialise_hodl_trader};
use backtester::data::BinanceKline;
use backtester::rational::Rat;
use backtester::traders::{Action, GenericTrader, TradingFee};

fn day_ts(y: i32, m: u32, d: u32) -> i64 {
    chrono::NaiveDate::from_ymd_opt(y, m, d)
        .unwrap()
        .and_hms_opt(0, 0, 0)
        .unwrap()
        .and_utc()
        .timestamp()
}

fn daily_candles(from_y: i32, from_m: u32, from_d: u32, count: usize, price: i64) -> Vec<BinanceKline> {
    let start = day_ts(from_y, from_m, from_d);
    let day: i64 = 86_400;
    let mut v = Vec::new();
    let mut i: i64 = 0;
    while (i as usize) < count {
        v.push(BinanceKline::new(
            start + i * day,
            start + (i + 1) * day,
            Rat::from_int(price),
            Rat::from_int(price),
            Rat::from_int(price),
            Rat::from_int(price),
            Rat::from_int(1),
        ));
        i += 1;
    }
    v
}

#[test]
fn dca_fires_once_per_calendar_month() {
    // Daily candles from 2020-01-01 through 2021-01-31: 366 + 31 = 397
    // candles spanning exactly 13 calendar months. The DCA indicator fires
    // exactly one Buy per month, on the first-observed day of each month.
    let klines = daily_candles(2020, 1, 1, 397, 100);
    let mut trader = initialise_dca_trader(&klines);
    let mut buys = 0usize;
    let mut others = 0usize;
    for k in &klines {
        let signals = trader.next_signals(k);
        assert_eq!(signals.len(), 1);
        match signals[0] {
            Action::Buy(_) => buys += 1,
            _ => others += 1,
        }
    }
    assert_eq!(buys, 13);
    assert_eq!(others, 397 - 13);
}

#[test]
fn dca_first_candle_always_buys() {
    let klines = daily_candles(2020, 5, 15, 3, 100);
    let mut trader = initialise_dca_trader(&klines);
    let signals = trader.next_signals(&klines[0]);
    assert!(matches!(signals[0], Action::Buy(_)));
    let signals = trader.next_signals(&klines[1]);
    assert!(matches!(signals[0], Action::Hold));
}

#[test]
fn silent_strategy_leaves_account_unchanged() {
    // After its single buy the buy-and-hold strategy emits no action on any
    // further candle: over such a run cash and position stay fixed while the
    // equity history still grows by one entry per candle, at constant equity
    // (prices are constant here).
    let klines = daily_candles(2020, 1, 1, 22, 50);
    let mut account = initialise_acount(&klines);
    let mut trader = backtester::traders::HODLTrader::new(
        &klines[0],
        TradingFee::PercentageFee(Rat::new(0, 1)),
    );
    // first session performs the single buy
    trader.next_trade_session(&klines[1], &mut account).unwrap();
    let fund_after = account.available_fund;
    let qty_after = account.position.quantity;
    assert!(qty_after.is_positive());
    // replay the remaining 20 candles: every signal is a no-op
    let tail: Vec<BinanceKline> = klines[2..].to_vec();
    let mut account2 = account;
    backtest(&mut trader, &tail, &mut account2).unwrap();
    assert!(account2.available_fund.equals(&fund_after));
    assert!(account2.position.quantity.equals(&qty_after));
    assert_eq!(account2.profit_and_loss_history.len(), tail.len());
    let expected_equity = fund_after
        .add(&qty_after.mul(&Rat::from_int(50)).unwrap())
        .unwrap();
    for (i, point) in account2.profit_and_loss_history.iter().enumerate() {
        assert_eq!(point.timestamp, tail[i].end_time);
        assert!(point.equity.equals(&expected_equity));
    }
}

#[test]
fn history_matches_candles_consumed() {
    // One snapshot per candle, timestamps strictly increasing and equal to
    // each candle's end time, and cash/position never negative.
    let klines = daily_candles(2020, 1, 1, 90, 100);
    let mut account = initialise_acount(&klines);
    let mut trader = initialise_dca_trader(&klines);
    let tail: Vec<BinanceKline> = klines[1..].to_vec();
    backtest(&mut trader, &tail, &mut account).unwrap();
    assert_eq!(account.profit_and_loss_history.len(), tail.len());
    let zero = Rat::from_int(0);
    assert!(zero.le(&account.available_fund));
    assert!(zero.le(&account.position.quantity));
    for (i, point) in account.profit_and_loss_history.iter().enumerate() {
        assert_eq!(point.timestamp, tail[i].end_time);
        if i > 0 {
            assert!(account.profit_and_loss_history[i - 1].timestamp < point.timestamp);
        }
    }
}

#[test]
fn dca_backtest_spends_fixed_stake_per_month() {
    // Three months of daily candles at price 100 with a fixed stake of 100
    // and a 0.5% fee: each monthly buy spends 100 + 100/199 of cash.
    let klines = daily_candles(2020, 1, 1, 91, 100);
    let mut account = initialise_acount(&klines);
    let mut trader = initialise_dca_trader(&klines);
    let tail: Vec<BinanceKline> = klines[1..].to_vec();
    backtest(&mut trader, &tail, &mut account).unwrap();
    // months seen by the trader over the tail: Jan, Feb, Mar 2020
    let stake = Rat::from_int(100);
    let fee_per_buy = stake
        .mul(&Rat::new(1, 200))
        .unwrap()
        .div(&Rat::new(199, 200))
        .unwrap();
    let outlay = stake.add(&fee_per_buy).unwrap();
    let spent = outlay.mul(&Rat::from_int(3)).unwrap();
    let expected_fund = Rat::from_int(1000).sub(&spent).unwrap();
    assert!(account.available_fund.equals(&expected_fund));
}

#[test]
fn hodl_buys_once_with_percentage_fee() {
    // fund 1000, fee rate 1/200: stake = 1000 would make the outlay
    // 1000/0.995 > 1000, so under the reject policy nothing happens at
    // price 100 — the whole-fund stake plus a positive fee never fits the
    // fund. The account must be left untouched.
    let klines = daily_candles(2020, 1, 1, 5, 100);
    let mut account = initialise_acount(&klines);
    let mut trader = initialise_hodl_trader(&klines);
    let tail: Vec<BinanceKline> = klines[1..].to_vec();
    backtest(&mut trader, &tail, &mut account).unwrap();
    assert!(account.available_fund.equals(&Rat::from_int(1000)));
    assert!(account.position.quantity.equals(&Rat::from_int(0)));
    assert_eq!(account.profit_and_loss_history.len(), tail.len());
}

#[test]
fn zero_fee_hodl_invests_everything() {
    let klines = daily_candles(2020, 1, 1, 5, 100);
    let mut account = initialise_acount(&klines);
    let mut trader = backtester::traders::HODLTrader::new(
        &klines[0],
        TradingFee::PercentageFee(Rat::new(0, 1)),
    );
    let tail: Vec<BinanceKline> = klines[1..].to_vec();
    backtest(&mut trader, &tail, &mut account).unwrap();
    assert!(account.available_fund.equals(&Rat::from_int(0)));
    assert!(account.position.quantity.equals(&Rat::from_int(10)));
}
