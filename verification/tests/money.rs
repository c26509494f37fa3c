use defi_trading_platform::{
    signed_difference, trade_amounts, DefiTradingError, TradeAmounts, BASIS_POINTS,
};

#[test]
fn one_percent_of_five_hundred() {
    assert_eq!(
        trade_amounts(50, 10, 100),
        Ok(TradeAmounts { total_value: 500, platform_fee: 5, seller_proceeds: 495 })
    );
}

#[test]
fn fee_is_rounded_down() {
    // 199 * 100 / 10000 = 1.99
    assert_eq!(
        trade_amounts(199, 1, 100),
        Ok(TradeAmounts { total_value: 199, platform_fee: 1, seller_proceeds: 198 })
    );
    // 99 * 100 / 10000 = 0.99
    assert_eq!(
        trade_amounts(99, 1, 100),
        Ok(TradeAmounts { total_value: 99, platform_fee: 0, seller_proceeds: 99 })
    );
}

#[test]
fn zero_fee_rate_leaves_everything_to_the_seller() {
    assert_eq!(
        trade_amounts(7, 13, 0),
        Ok(TradeAmounts { total_value: 91, platform_fee: 0, seller_proceeds: 91 })
    );
}

#[test]
fn full_fee_rate_leaves_nothing_to_the_seller() {
    assert_eq!(BASIS_POINTS, 10000);
    assert_eq!(
        trade_amounts(7, 13, 10000),
        Ok(TradeAmounts { total_value: 91, platform_fee: 91, seller_proceeds: 0 })
    );
}

#[test]
fn fee_and_proceeds_add_up_to_the_value() {
    for (amount, price, bps) in [(1u64, 1u64, 1u16), (123, 456, 250), (10_000, 3, 9999), (0, 5, 30)] {
        let t = trade_amounts(amount, price, bps).unwrap();
        assert_eq!(t.total_value, amount * price);
        assert_eq!(t.platform_fee + t.seller_proceeds, t.total_value);
        assert_eq!(t.platform_fee, t.total_value * bps as u64 / 10000);
    }
}

#[test]
fn value_that_does_not_fit_is_an_overflow() {
    assert_eq!(trade_amounts(u64::MAX, 2, 100), Err(DefiTradingError::ArithmeticOverflow));
    assert_eq!(trade_amounts(1 << 32, 1 << 32, 0), Err(DefiTradingError::ArithmeticOverflow));
}

#[test]
fn value_times_rate_that_does_not_fit_is_an_overflow() {
    // The value fits, its product with the rate does not.
    assert_eq!(trade_amounts(u64::MAX, 1, 2), Err(DefiTradingError::ArithmeticOverflow));
    assert_eq!(
        trade_amounts(u64::MAX, 1, 1),
        Ok(TradeAmounts {
            total_value: u64::MAX,
            platform_fee: u64::MAX / 10000,
            seller_proceeds: u64::MAX - u64::MAX / 10000,
        })
    );
}

#[test]
fn fee_above_the_value_is_an_underflow() {
    assert_eq!(trade_amounts(10, 10, 20000), Err(DefiTradingError::ArithmeticUnderflow));
}

#[test]
fn signed_difference_of_small_numbers() {
    assert_eq!(signed_difference(4000, 3000), Ok(1000));
    assert_eq!(signed_difference(3000, 4000), Ok(-1000));
    assert_eq!(signed_difference(5, 5), Ok(0));
}

#[test]
fn signed_difference_at_the_edges() {
    assert_eq!(signed_difference(i64::MAX as u64, 0), Ok(i64::MAX));
    assert_eq!(signed_difference(1 << 63, 0), Err(DefiTradingError::ArithmeticOverflow));
    assert_eq!(signed_difference(0, 1 << 63), Ok(i64::MIN));
    assert_eq!(signed_difference(0, (1 << 63) + 1), Err(DefiTradingError::ArithmeticUnderflow));
    assert_eq!(signed_difference(u64::MAX, u64::MAX - 2), Ok(2));
    assert_eq!(signed_difference(u64::MAX, 0), Err(DefiTradingError::ArithmeticOverflow));
}

#[test]
fn every_error_has_its_text() {
    assert_eq!(DefiTradingError::PlatformPaused.message(), "Platform is currently paused");
    assert_eq!(DefiTradingError::SelfTrade.message(), "Cannot trade with yourself");
    assert_eq!(DefiTradingError::InvalidEscrowStatus.message(), "Invalid escrow status");
    assert_eq!(DefiTradingError::ArithmeticOverflow.message(), "Arithmetic overflow");
    assert_eq!(DefiTradingError::NoLiquidity.message(), "No liquidity available");
    assert_eq!(DefiTradingError::OrderAlreadyCancelled.message(), "Order already cancelled");
}
