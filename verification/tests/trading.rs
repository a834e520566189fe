use rust_decimal::Decimal;
use threshold_trader::amount::Amount;
use threshold_trader::trade::{buy, checked_buy, checked_sell, sell, TradeError};
use threshold_trader::trader::{
    meets_threshold, seed_holding, sell_fraction, threshold, Action, Mode, Trader,
};

fn amount(mantissa: i64, scale: u32) -> Amount {
    Amount::from_parts(mantissa as i128, scale).unwrap()
}

fn decimal(a: Amount) -> Decimal {
    Decimal::from_i128_with_scale(a.mantissa(), a.scale())
}

fn started(mantissa: i64, scale: u32) -> Trader {
    Trader::start(Some(amount(mantissa, scale))).unwrap()
}

fn after_first_sale() -> Trader {
    let mut trader = started(1000, 2);
    assert_eq!(trader.tick(Some(amount(10002, 3))), Ok(Action::Sold));
    trader
}

#[test]
fn constants_have_their_values() {
    assert_eq!(decimal(threshold()), Decimal::new(2, 3));
    assert_eq!(decimal(sell_fraction()), Decimal::new(5, 2));
    assert_eq!(decimal(seed_holding()), Decimal::new(256, 0));
}

#[test]
fn buy_divides_cash_by_price() {
    assert_eq!(decimal(buy(amount(10, 0), amount(4, 0)).unwrap()), Decimal::new(25, 1));
    assert_eq!(
        decimal(buy(amount(1280256, 4), amount(10000, 3)).unwrap()),
        Decimal::new(1280256, 5)
    );
}

#[test]
fn buy_rounds_to_twenty_eight_places() {
    let third = buy(amount(1, 0), amount(3, 0)).unwrap();
    assert_eq!(third.scale(), 28);
    assert_eq!(third.mantissa(), 3333333333333333333333333333i128);
}

#[test]
fn sell_multiplies_quantity_by_price() {
    let proceeds = sell(amount(128, 1), amount(10002, 3)).unwrap();
    assert_eq!(proceeds.mantissa(), 1280256);
    assert_eq!(proceeds.scale(), 4);
    assert_eq!(decimal(proceeds), Decimal::new(1280256, 4));
}

#[test]
fn sell_of_nothing_is_plain_zero() {
    let proceeds = sell(amount(0, 5), amount(10002, 3)).unwrap();
    assert_eq!(proceeds.mantissa(), 0);
    assert_eq!(proceeds.scale(), 0);
}

#[test]
fn sell_keeps_the_sign_of_the_product() {
    let proceeds = sell(amount(-3, 0), amount(25, 1)).unwrap();
    assert_eq!(proceeds.mantissa(), -75);
    assert_eq!(proceeds.scale(), 1);
}

#[test]
fn buy_at_zero_price_is_degenerate() {
    assert_eq!(buy(amount(100, 0), amount(0, 0)), Err(TradeError::DegenerateOperation));
    assert_eq!(buy(amount(100, 0), amount(0, 3)), Err(TradeError::DegenerateOperation));
    assert_eq!(buy(amount(0, 0), amount(0, 0)), Err(TradeError::DegenerateOperation));
}

#[test]
fn sell_at_zero_price_is_degenerate() {
    assert_eq!(sell(amount(100, 0), amount(0, 0)), Err(TradeError::DegenerateOperation));
    assert_eq!(sell(amount(100, 0), amount(0, 28)), Err(TradeError::DegenerateOperation));
}

#[test]
fn checked_trades_agree_with_the_plain_ones() {
    assert_eq!(
        checked_buy(amount(10, 0), amount(4, 0)),
        Some(buy(amount(10, 0), amount(4, 0)))
    );
    assert_eq!(
        checked_sell(amount(128, 1), amount(10002, 3)),
        Some(sell(amount(128, 1), amount(10002, 3)))
    );
    assert_eq!(
        checked_buy(amount(10, 0), amount(0, 0)),
        Some(Err(TradeError::DegenerateOperation))
    );
    assert_eq!(
        checked_sell(amount(10, 0), amount(0, 0)),
        Some(Err(TradeError::DegenerateOperation))
    );
}

#[test]
fn checked_trades_refuse_what_does_not_fit() {
    let largest = Amount::from_parts((1i128 << 96) - 1, 0).unwrap();
    let smallest = amount(1, 28);
    assert_eq!(checked_sell(largest, largest), None);
    assert_eq!(checked_sell(largest, amount(2, 0)), None);
    assert_eq!(checked_buy(largest, smallest), None);
    assert!(checked_sell(largest, amount(1, 0)).is_some());
}

#[test]
fn first_sale_at_the_threshold() {
    let mut trader = started(1000, 2);
    assert_eq!(decimal(trader.asset_amount()), Decimal::new(256, 0));
    assert_eq!(decimal(trader.cash_amount()), Decimal::ZERO);
    assert_eq!(decimal(trader.bought_for()), Decimal::new(1000, 2));
    assert_eq!(decimal(trader.sold_for()), Decimal::ZERO);
    assert_eq!(trader.mode(), Mode::AwaitingSell);

    let report = trader.tick(Some(amount(10002, 3)));

    assert_eq!(report, Ok(Action::Sold));
    assert_eq!(decimal(trader.cash_amount()), Decimal::new(1280256, 4));
    assert_eq!(decimal(trader.asset_amount()), Decimal::new(2432, 1));
    assert_eq!(decimal(trader.sold_for()), Decimal::new(10002, 3));
    assert_eq!(decimal(trader.bought_for()), Decimal::new(1000, 2));
    assert_eq!(trader.mode(), Mode::AwaitingBuy);
}

#[test]
fn purchase_with_all_cash_after_a_sale() {
    let mut trader = after_first_sale();

    let report = trader.tick(Some(amount(10000, 3)));

    assert_eq!(report, Ok(Action::Bought));
    assert_eq!(
        decimal(trader.asset_amount()),
        Decimal::new(2432, 1) + Decimal::new(1280256, 5)
    );
    assert_eq!(decimal(trader.asset_amount()), Decimal::new(25600256, 5));
    assert_eq!(decimal(trader.cash_amount()), Decimal::ZERO);
    assert_eq!(trader.cash_amount().mantissa(), 0);
    assert_eq!(decimal(trader.bought_for()), Decimal::new(10000, 3));
    assert_eq!(decimal(trader.sold_for()), Decimal::new(10002, 3));
    assert_eq!(trader.mode(), Mode::AwaitingSell);
}

#[test]
fn zero_price_while_waiting_to_buy_is_refused() {
    let mut trader = after_first_sale();
    let before = trader;

    let report = trader.tick(Some(amount(0, 0)));

    assert_eq!(report, Err(TradeError::DegenerateOperation));
    assert_eq!(trader, before);
}

#[test]
fn zero_price_while_waiting_to_sell_is_refused() {
    let mut trader = started(-1, 0);
    let before = trader;

    let report = trader.tick(Some(amount(0, 0)));

    assert_eq!(report, Err(TradeError::DegenerateOperation));
    assert_eq!(trader, before);
}

#[test]
fn zero_price_below_the_threshold_is_an_idle_tick() {
    let mut trader = started(1000, 2);
    let before = trader;

    let report = trader.tick(Some(amount(0, 0)));

    assert_eq!(report, Ok(Action::Hold));
    assert_eq!(trader, before);
}

#[test]
fn start_waits_through_failed_fetches() {
    let answers = [None, None, None, Some(amount(512, 2)), Some(amount(999, 2))];
    let mut asked = 0;
    let mut trader = None;
    while trader.is_none() {
        trader = Trader::start(answers[asked]);
        asked += 1;
    }
    let trader = trader.unwrap();
    assert_eq!(asked, 4);
    assert_eq!(decimal(trader.bought_for()), Decimal::new(512, 2));
    assert_eq!(decimal(trader.asset_amount()), Decimal::new(256, 0));
    assert_eq!(decimal(trader.cash_amount()), Decimal::ZERO);
    assert_eq!(decimal(trader.sold_for()), Decimal::ZERO);
    assert_eq!(trader.mode(), Mode::AwaitingSell);
}

#[test]
fn start_without_a_price_gives_no_state() {
    assert_eq!(Trader::start(None), None);
}

#[test]
fn failed_fetch_is_reported_and_changes_nothing() {
    let mut trader = started(1000, 2);
    let before = trader;
    assert_eq!(trader.tick(None), Err(TradeError::FetchFailed));
    assert_eq!(trader, before);

    let mut trader = after_first_sale();
    let before = trader;
    assert_eq!(trader.checked_tick(None), Some(Err(TradeError::FetchFailed)));
    assert_eq!(trader, before);
}

#[test]
fn threshold_is_met_at_exactly_two_thousandths() {
    assert!(meets_threshold(amount(2, 3)));
    assert!(meets_threshold(amount(20, 4)));
    assert!(meets_threshold(amount(1, 0)));
    assert!(!meets_threshold(amount(19, 4)));
    assert!(!meets_threshold(amount(0, 0)));
    assert!(!meets_threshold(amount(-2, 3)));
}

#[test]
fn movement_just_under_the_threshold_does_not_sell() {
    let mut trader = started(1000, 2);
    let before = trader;
    assert_eq!(trader.tick(Some(amount(100019, 4))), Ok(Action::Hold));
    assert_eq!(trader, before);
    assert_eq!(trader.tick(Some(amount(100020, 4))), Ok(Action::Sold));
}

#[test]
fn movement_just_under_the_threshold_does_not_buy() {
    let mut trader = after_first_sale();
    let before = trader;
    assert_eq!(trader.tick(Some(amount(100001, 4))), Ok(Action::Hold));
    assert_eq!(trader, before);
    assert_eq!(trader.tick(Some(amount(11, 0))), Ok(Action::Hold));
    assert_eq!(trader, before);
    assert_eq!(trader.tick(Some(amount(10, 0))), Ok(Action::Bought));
}

#[test]
fn falling_price_does_not_sell() {
    let mut trader = started(1000, 2);
    let before = trader;
    assert_eq!(trader.tick(Some(amount(5, 0))), Ok(Action::Hold));
    assert_eq!(trader, before);
}

#[test]
fn a_thousand_idle_ticks_change_nothing() {
    let mut trader = started(1000, 2);
    let before = trader;
    assert_eq!(trader.tick(Some(amount(10001, 3))), Ok(Action::Hold));
    assert_eq!(trader, before);
    for _ in 0..1000 {
        assert_eq!(trader.tick(Some(amount(10001, 3))), Ok(Action::Hold));
    }
    assert_eq!(trader, before);

    let mut trader = after_first_sale();
    let before = trader;
    for _ in 0..1000 {
        assert_eq!(trader.checked_tick(Some(amount(10002, 3))), Some(Ok(Action::Hold)));
    }
    assert_eq!(trader, before);
}

#[test]
fn mode_alternates_with_each_trade() {
    let prices = [
        amount(10002, 3),
        amount(10002, 3),
        amount(10000, 3),
        amount(10000, 3),
        amount(10500, 3),
        amount(0, 0),
        amount(9000, 3),
    ];
    let expected = [
        (Ok(Action::Sold), Mode::AwaitingBuy),
        (Ok(Action::Hold), Mode::AwaitingBuy),
        (Ok(Action::Bought), Mode::AwaitingSell),
        (Ok(Action::Hold), Mode::AwaitingSell),
        (Ok(Action::Sold), Mode::AwaitingBuy),
        (Err(TradeError::DegenerateOperation), Mode::AwaitingBuy),
        (Ok(Action::Bought), Mode::AwaitingSell),
    ];
    let mut trader = started(1000, 2);
    for (price, (report, mode)) in prices.iter().zip(expected.iter()) {
        assert_eq!(trader.tick(Some(*price)), *report);
        assert_eq!(trader.mode(), *mode);
    }
}

#[test]
fn balances_never_go_negative() {
    let mut trader = started(1, 28);
    let mut price: i64 = 1;
    for round in 0..400 {
        price = if round % 2 == 0 { price + 7 } else { price - 5 };
        let report = trader.checked_tick(Some(amount(price, 3)));
        assert!(report.is_some());
        assert!(trader.asset_amount().mantissa() >= 0);
        assert!(trader.cash_amount().mantissa() >= 0);
    }
    assert!(trader.asset_amount().mantissa() > 0);
}

#[test]
fn second_sale_adds_to_the_cash() {
    let mut trader = after_first_sale();
    assert_eq!(trader.tick(Some(amount(10000, 3))), Ok(Action::Bought));
    assert_eq!(trader.tick(Some(amount(20, 0))), Ok(Action::Sold));
    let sold = Decimal::new(25600256, 5) * Decimal::new(5, 2);
    assert_eq!(decimal(trader.cash_amount()), sold * Decimal::new(20, 0));
    assert_eq!(decimal(trader.asset_amount()), Decimal::new(25600256, 5) - sold);
    assert_eq!(decimal(trader.asset_amount()), Decimal::new(243202432, 6));
    assert_eq!(decimal(trader.cash_amount()), Decimal::new(256002560, 6));
}

#[test]
fn sale_takes_five_percent_of_the_holding() {
    let trader = after_first_sale();
    let sold = Decimal::new(256, 0) - decimal(trader.asset_amount());
    assert_eq!(sold, Decimal::new(128, 1));
    assert_eq!(decimal(trader.cash_amount()), sold * Decimal::new(10002, 3));
}

#[test]
fn checked_tick_refuses_a_negative_price() {
    let mut trader = after_first_sale();
    let before = trader;
    assert!(!trader.can_tick(Some(amount(-1, 0))));
    assert_eq!(trader.checked_tick(Some(amount(-1, 0))), None);
    assert_eq!(trader, before);
}

#[test]
fn checked_tick_refuses_what_does_not_fit() {
    let largest = Amount::from_parts((1i128 << 96) - 1, 0).unwrap();
    let mut trader = started(-1, 0);
    let before = trader;
    assert!(!trader.can_tick(Some(largest)));
    assert_eq!(trader.checked_tick(Some(largest)), None);
    assert_eq!(trader, before);

    let mut trader = started(1, 0);
    let before = trader;
    assert_eq!(trader.checked_tick(Some(largest)), None);
    assert_eq!(trader, before);
    assert!(trader.can_tick(Some(amount(2, 0))));
}

#[test]
fn with_sale_and_with_purchase_settle_the_state() {
    let trader = started(1000, 2);
    let sold = trader
        .with_sale(amount(10002, 3), amount(12802560, 5), amount(24320, 2))
        .unwrap();
    assert_eq!(sold, after_first_sale());
    assert_eq!(trader.with_sale(amount(10002, 3), amount(-1, 0), amount(2432, 1)), None);
    assert_eq!(trader.with_sale(amount(10002, 3), amount(1, 0), amount(-2432, 1)), None);

    let bought = sold.with_purchase(amount(10000, 3), amount(25600256, 5)).unwrap();
    assert_eq!(bought.mode(), Mode::AwaitingSell);
    assert_eq!(bought.cash_amount().mantissa(), 0);
    assert_eq!(bought.cash_amount().scale(), 0);
    assert_eq!(bought.asset_amount(), amount(25600256, 5));
    assert_eq!(bought.bought_for(), amount(10000, 3));
    assert_eq!(bought.sold_for(), amount(10002, 3));
    assert_eq!(sold.with_purchase(amount(10000, 3), amount(-1, 5)), None);
}
