use defi_trading_platform::{
    create_or_update_holding, create_portfolio, roll_up_portfolio, update_holding_after_trade,
    update_portfolio, Address, DefiTradingError, Holding, Portfolio,
};

fn key(tag: u8) -> Address {
    Address::new([tag; 32])
}

/// Books a first acquisition of instrument 7 for user 1.
fn first(p: &mut Portfolio, amount: u64, price: u64, now: i64) -> Holding {
    create_or_update_holding(None, p, key(1), 7, key(9), amount, price, now).unwrap()
}

/// Books a further acquisition into `h`.
fn more(h: &mut Holding, p: &mut Portfolio, amount: u64, price: u64, now: i64) {
    *h = create_or_update_holding(Some(*h), p, key(1), 7, key(9), amount, price, now).unwrap();
}

fn blank() -> Holding {
    Holding {
        user: key(0),
        company_id: 0,
        token_mint: key(0),
        amount: 0,
        average_price: 0,
        total_invested: 0,
        current_value: 0,
        profit_loss: 0,
        last_updated: 0,
    }
}

#[test]
fn portfolio_starts_empty() {
    assert_eq!(
        create_portfolio(key(1), 500),
        Portfolio {
            user: key(1),
            total_holdings: 0,
            total_value: 0,
            total_invested: 0,
            total_profit_loss: 0,
            holdings_count: 0,
            last_updated: 500,
        }
    );
}

#[test]
fn first_acquisition_sets_the_cost_basis() {
    let mut p = create_portfolio(key(1), 0);
    let h = first(&mut p, 10, 100, 1);
    assert_eq!(
        h,
        Holding {
            user: key(1),
            company_id: 7,
            token_mint: key(9),
            amount: 10,
            average_price: 100,
            total_invested: 1000,
            current_value: 1000,
            profit_loss: 0,
            last_updated: 1,
        }
    );
    assert_eq!(p.holdings_count, 1);
    assert_eq!(p.last_updated, 1);
}

#[test]
fn ten_at_100_then_ten_at_200_averages_150() {
    let mut p = create_portfolio(key(1), 0);
    let mut h = first(&mut p, 10, 100, 1);
    more(&mut h, &mut p, 10, 200, 2);
    assert_eq!(h.amount, 20);
    assert_eq!(h.total_invested, 3000);
    assert_eq!(h.average_price, 150);
    assert_eq!(h.current_value, 4000);
    assert_eq!(h.profit_loss, 1000);
    assert_eq!(h.last_updated, 2);
    // The second acquisition is no new holding.
    assert_eq!(p.holdings_count, 1);
    assert_eq!(p.last_updated, 2);
}

#[test]
fn average_is_rounded_down_but_the_total_is_exact() {
    let mut p = create_portfolio(key(1), 0);
    let mut h = first(&mut p, 1, 10, 1);
    more(&mut h, &mut p, 2, 11, 2);
    // 32 / 3 = 10.67
    assert_eq!((h.amount, h.total_invested, h.average_price), (3, 32, 10));
    more(&mut h, &mut p, 1, 12, 3);
    // 44 / 4 = 11: the earlier truncation has not entered the total.
    assert_eq!((h.amount, h.total_invested, h.average_price), (4, 44, 11));
}

#[test]
fn acquisitions_in_either_order_give_the_same_basis() {
    let mut p = create_portfolio(key(1), 0);
    let mut h = first(&mut p, 5, 40, 1);
    let (mut one, mut other) = (h, h);
    update_holding_after_trade(&mut one, &mut p, 3, 17, true, 2).unwrap();
    update_holding_after_trade(&mut one, &mut p, 9, 101, true, 3).unwrap();
    update_holding_after_trade(&mut other, &mut p, 9, 101, true, 2).unwrap();
    update_holding_after_trade(&mut other, &mut p, 3, 17, true, 3).unwrap();
    assert_eq!(one.amount, 17);
    assert_eq!(one.total_invested, 200 + 51 + 909);
    assert_eq!(one.average_price, 1160 / 17);
    assert_eq!(
        (one.amount, one.total_invested, one.average_price),
        (other.amount, other.total_invested, other.average_price)
    );
}

#[test]
fn purchase_after_a_trade_blends_in() {
    let mut p = create_portfolio(key(1), 0);
    let mut h = first(&mut p, 10, 100, 1);
    let snapshot = update_holding_after_trade(&mut h, &mut p, 30, 60, true, 9).unwrap();
    assert_eq!(snapshot, h);
    assert_eq!(h.amount, 40);
    assert_eq!(h.total_invested, 2800);
    assert_eq!(h.average_price, 70);
    assert_eq!(h.current_value, 2400);
    assert_eq!(h.profit_loss, -400);
    assert_eq!(h.last_updated, 9);
    assert_eq!(p.last_updated, 9);
    assert_eq!(p.holdings_count, 1);
}

#[test]
fn sale_removes_cost_at_the_basis_and_keeps_the_basis() {
    let mut p = create_portfolio(key(1), 0);
    let mut h = first(&mut p, 10, 100, 1);
    more(&mut h, &mut p, 10, 200, 2);
    update_holding_after_trade(&mut h, &mut p, -5, 100, false, 3).unwrap();
    assert_eq!(h.amount, 15);
    assert_eq!(h.average_price, 150);
    assert_eq!(h.total_invested, 3000 - 5 * 150);
    assert_eq!(h.current_value, 1500);
    assert_eq!(h.profit_loss, -750);
    assert_eq!(h.last_updated, 3);
}

#[test]
fn selling_everything_leaves_an_empty_holding() {
    let mut p = create_portfolio(key(1), 0);
    let mut h = first(&mut p, 3, 10, 1);
    more(&mut h, &mut p, 1, 13, 2);
    // 43 / 4 = 10; selling 4 at basis 10 leaves 3 of cost behind.
    update_holding_after_trade(&mut h, &mut p, -4, 20, false, 3).unwrap();
    assert_eq!((h.amount, h.average_price, h.total_invested), (0, 10, 3));
    assert_eq!((h.current_value, h.profit_loss), (0, -3));
    // The holding is kept and filled again: the cost left in it stays, and
    // the portfolio does not count it a second time.
    more(&mut h, &mut p, 2, 50, 4);
    assert_eq!((h.amount, h.average_price, h.total_invested), (2, 51, 103));
    assert_eq!((h.current_value, h.profit_loss), (100, -3));
    assert_eq!(p.holdings_count, 1);
}

#[test]
fn a_holding_sold_out_and_bought_again_is_counted_once() {
    let mut p = create_portfolio(key(1), 0);
    let mut h = first(&mut p, 10, 100, 1);
    assert_eq!(p.holdings_count, 1);
    update_holding_after_trade(&mut h, &mut p, -10, 100, false, 2).unwrap();
    assert_eq!((h.amount, h.total_invested), (0, 0));
    more(&mut h, &mut p, 5, 50, 3);
    assert_eq!((h.amount, h.average_price, h.total_invested), (5, 50, 250));
    assert_eq!(p.holdings_count, 1);
    // A holding of another instrument is a record of its own.
    let other = create_or_update_holding(None, &mut p, key(1), 8, key(10), 1, 1, 4).unwrap();
    assert_eq!((other.company_id, other.token_mint), (8, key(10)));
    assert_eq!(p.holdings_count, 2);
}

#[test]
fn an_existing_holding_keeps_whose_it_is() {
    let mut p = create_portfolio(key(1), 0);
    let h = first(&mut p, 10, 100, 1);
    // Whatever is named with a later acquisition, the record stays that of
    // its user and instrument.
    let after = create_or_update_holding(Some(h), &mut p, key(2), 8, key(10), 1, 100, 2).unwrap();
    assert_eq!((after.user, after.company_id, after.token_mint), (key(1), 7, key(9)));
    assert_eq!(after.amount, 11);
}

#[test]
fn cannot_sell_more_than_is_held() {
    let mut p = create_portfolio(key(1), 0);
    let mut h = first(&mut p, 10, 100, 1);
    let (before, portfolio_before) = (h, p);
    assert_eq!(
        update_holding_after_trade(&mut h, &mut p, -11, 100, false, 3),
        Err(DefiTradingError::InsufficientTokens)
    );
    assert_eq!((h, p), (before, portfolio_before));
}

#[test]
fn quantity_with_the_wrong_sign_is_refused() {
    let mut p = create_portfolio(key(1), 0);
    let mut h = first(&mut p, 10, 100, 1);
    let (before, portfolio_before) = (h, p);
    assert_eq!(
        update_holding_after_trade(&mut h, &mut p, -1, 100, true, 3),
        Err(DefiTradingError::ArithmeticUnderflow)
    );
    assert_eq!(
        update_holding_after_trade(&mut h, &mut p, 1, 100, false, 3),
        Err(DefiTradingError::ArithmeticUnderflow)
    );
    assert_eq!((h, p), (before, portfolio_before));
    // Nothing in either direction is fine.
    assert!(update_holding_after_trade(&mut h, &mut p, 0, 100, false, 4).is_ok());
    assert!(update_holding_after_trade(&mut h, &mut p, 0, 100, true, 5).is_ok());
    assert_eq!(h.amount, 10);
}

#[test]
fn selling_the_largest_negative_quantity_is_just_too_much() {
    let mut p = create_portfolio(key(1), 0);
    let mut h = first(&mut p, 10, 100, 1);
    assert_eq!(
        update_holding_after_trade(&mut h, &mut p, i64::MIN, 100, false, 3),
        Err(DefiTradingError::InsufficientTokens)
    );
}

#[test]
fn acquisition_fails_closed_on_overflow() {
    let mut p = create_portfolio(key(1), 0);
    let empty = p;
    assert_eq!(
        create_or_update_holding(None, &mut p, key(1), 7, key(9), u64::MAX, 2, 1),
        Err(DefiTradingError::ArithmeticOverflow)
    );
    assert_eq!(p, empty);
    let mut h = first(&mut p, 10, 100, 1);
    let (before, portfolio_before) = (h, p);
    // The quantity overflows.
    assert_eq!(
        create_or_update_holding(Some(h), &mut p, key(1), 7, key(9), u64::MAX, 0, 2),
        Err(DefiTradingError::ArithmeticOverflow)
    );
    // The total cost overflows.
    assert_eq!(
        create_or_update_holding(Some(h), &mut p, key(1), 7, key(9), 1, u64::MAX, 2),
        Err(DefiTradingError::ArithmeticOverflow)
    );
    // The value at the new price overflows.
    assert_eq!(
        update_holding_after_trade(&mut h, &mut p, 1, u64::MAX / 4, true, 2),
        Err(DefiTradingError::ArithmeticOverflow)
    );
    assert_eq!((h, p), (before, portfolio_before));
    let mut full = p;
    full.holdings_count = u64::MAX;
    assert_eq!(
        create_or_update_holding(None, &mut full, key(1), 7, key(9), 1, 1, 2),
        Err(DefiTradingError::ArithmeticOverflow)
    );
    assert_eq!(full.holdings_count, u64::MAX);
    // An existing holding needs no room in the count.
    assert!(create_or_update_holding(Some(h), &mut full, key(1), 7, key(9), 1, 1, 2).is_ok());
    assert_eq!(full.holdings_count, u64::MAX);
}

#[test]
fn profit_that_does_not_fit_is_refused() {
    let mut p = create_portfolio(key(1), 0);
    let mut h = blank();
    h.amount = 1;
    h.average_price = 0;
    // One unit held for nothing, another bought for nothing, both now worth 2^63 each.
    assert_eq!(
        update_holding_after_trade(&mut h, &mut p, 1, 1 << 62, true, 2),
        Ok(Holding {
            amount: 2,
            average_price: 1 << 61,
            total_invested: 1 << 62,
            current_value: 1 << 63,
            profit_loss: 1 << 62,
            last_updated: 2,
            ..h
        })
    );
    let mut h = blank();
    h.amount = 3;
    assert_eq!(
        update_holding_after_trade(&mut h, &mut p, 0, 1 << 62, true, 2),
        Err(DefiTradingError::ArithmeticOverflow)
    );
    // A loss too deep to write down.
    let mut h = blank();
    h.amount = 1;
    h.total_invested = u64::MAX;
    assert_eq!(
        update_holding_after_trade(&mut h, &mut p, 0, 5, false, 2),
        Err(DefiTradingError::ArithmeticUnderflow)
    );
}

#[test]
fn sale_of_more_cost_than_is_booked_is_an_underflow() {
    let mut p = create_portfolio(key(1), 0);
    let mut h = blank();
    h.amount = 10;
    h.average_price = 100;
    h.total_invested = 500;
    assert_eq!(
        update_holding_after_trade(&mut h, &mut p, -6, 100, false, 2),
        Err(DefiTradingError::ArithmeticUnderflow)
    );
    h.average_price = u64::MAX;
    assert_eq!(
        update_holding_after_trade(&mut h, &mut p, -6, 100, false, 2),
        Err(DefiTradingError::ArithmeticOverflow)
    );
}

#[test]
fn roll_up_takes_the_holding_it_is_given() {
    let mut p = create_portfolio(key(1), 0);
    p.total_holdings = 3;
    let mut h = first(&mut p, 10, 100, 1);
    more(&mut h, &mut p, 10, 200, 2);
    assert_eq!(update_portfolio(&mut p, Some(h), 10), Ok(()));
    assert_eq!(
        p,
        Portfolio {
            user: key(1),
            total_holdings: 3,
            total_value: 4000,
            total_invested: 3000,
            total_profit_loss: 1000,
            holdings_count: 1,
            last_updated: 10,
        }
    );
}

#[test]
fn roll_up_without_a_holding_is_empty() {
    let mut p = create_portfolio(key(1), 0);
    p.total_value = 5;
    p.total_invested = 6;
    p.total_profit_loss = -1;
    p.holdings_count = 4;
    assert_eq!(update_portfolio(&mut p, None, 10), Ok(()));
    assert_eq!((p.total_value, p.total_invested, p.total_profit_loss), (0, 0, 0));
    assert_eq!((p.holdings_count, p.last_updated), (0, 10));
}

#[test]
fn roll_up_of_a_loss_that_does_not_fit_is_refused() {
    let mut p = create_portfolio(key(1), 0);
    let before = p;
    let mut h = blank();
    h.total_invested = u64::MAX;
    assert_eq!(update_portfolio(&mut p, Some(h), 10), Err(DefiTradingError::ArithmeticUnderflow));
    h.total_invested = 0;
    h.current_value = u64::MAX;
    assert_eq!(update_portfolio(&mut p, Some(h), 10), Err(DefiTradingError::ArithmeticOverflow));
    assert_eq!(p, before);
}

fn position(current_value: u64, total_invested: u64) -> Holding {
    Holding { current_value, total_invested, ..blank() }
}

#[test]
fn roll_up_over_all_holdings_sums_them() {
    let mut p = create_portfolio(key(1), 0);
    p.total_holdings = 3;
    let holdings = vec![position(4000, 3000), position(10, 500), position(7, 7)];
    assert_eq!(roll_up_portfolio(&mut p, &holdings, 10), Ok(()));
    assert_eq!(
        p,
        Portfolio {
            user: key(1),
            total_holdings: 3,
            total_value: 4017,
            total_invested: 3507,
            total_profit_loss: 510,
            holdings_count: 3,
            last_updated: 10,
        }
    );
}

#[test]
fn roll_up_over_one_holding_is_the_narrow_roll_up() {
    let mut wide = create_portfolio(key(1), 0);
    let mut narrow = wide;
    let h = position(10, 500);
    roll_up_portfolio(&mut wide, &vec![h], 10).unwrap();
    update_portfolio(&mut narrow, Some(h), 10).unwrap();
    assert_eq!(wide, narrow);
    assert_eq!(wide.total_profit_loss, -490);
    roll_up_portfolio(&mut wide, &Vec::new(), 11).unwrap();
    update_portfolio(&mut narrow, None, 11).unwrap();
    assert_eq!(wide, narrow);
    assert_eq!(wide.holdings_count, 0);
}

#[test]
fn roll_up_over_all_holdings_fails_closed() {
    let mut p = create_portfolio(key(1), 0);
    let before = p;
    let holdings = vec![position(u64::MAX, 0), position(1, 0)];
    assert_eq!(roll_up_portfolio(&mut p, &holdings, 10), Err(DefiTradingError::ArithmeticOverflow));
    let holdings = vec![position(0, 5), position(0, u64::MAX - 4)];
    assert_eq!(roll_up_portfolio(&mut p, &holdings, 10), Err(DefiTradingError::ArithmeticOverflow));
    let holdings = vec![position(0, 1 << 62), position(0, 1 << 62), position(0, 1)];
    assert_eq!(roll_up_portfolio(&mut p, &holdings, 10), Err(DefiTradingError::ArithmeticUnderflow));
    let holdings = vec![position(1 << 62, 0), position(1 << 62, 0)];
    assert_eq!(roll_up_portfolio(&mut p, &holdings, 10), Err(DefiTradingError::ArithmeticOverflow));
    assert_eq!(p, before);
    let holdings = vec![position(0, 1 << 62), position(0, 1 << 62)];
    assert_eq!(roll_up_portfolio(&mut p, &holdings, 10), Ok(()));
    assert_eq!(p.total_profit_loss, i64::MIN);
}
