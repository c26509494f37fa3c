//! Overflow-safe money arithmetic shared by every trade path.
//!
//! All quantities are unsigned 64-bit integers. Every product, sum and
//! difference is checked: a result that does not fit is an error, never a
//! wrapped number.

use crate::errors::DefiTradingError;
use vstd::prelude::*;

verus! {

/// One hundred percent, in basis points.
pub const BASIS_POINTS: u64 = 10000;

/// The value of `amount` units at `price` each.
pub open spec fn trade_value(amount: u64, price: u64) -> int {
    amount as int * price as int
}

/// The platform's cut of `total_value` at `fee_bps` basis points, rounded
/// down.
pub open spec fn fee_of(total_value: int, fee_bps: int) -> int {
    (total_value * fee_bps) / 10000
}

/// The three amounts of a trade.
#[derive(Clone, Copy, Debug, PartialEq, Eq, Structural)]
pub struct TradeAmounts {
    /// Quantity times price: what the buyer pays in all.
    pub total_value: u64,
    /// The platform's cut of `total_value`.
    pub platform_fee: u64,
    /// What is left for the seller.
    pub seller_proceeds: u64,
}

/// Why the amounts of a trade cannot be computed, if they cannot: the value
/// or its product with the fee rate does not fit in 64 bits, or the fee would
/// exceed the value.
pub open spec fn trade_amounts_error(amount: u64, price: u64, fee_bps: u16) -> Option<
    DefiTradingError,
> {
    if trade_value(amount, price) > u64::MAX {
        Some(DefiTradingError::ArithmeticOverflow)
    } else if trade_value(amount, price) * fee_bps > u64::MAX {
        Some(DefiTradingError::ArithmeticOverflow)
    } else if fee_of(trade_value(amount, price), fee_bps as int) > trade_value(amount, price) {
        Some(DefiTradingError::ArithmeticUnderflow)
    } else {
        None
    }
}

/// The amounts of a trade of `amount` units at `price` under a fee rate of
/// `fee_bps` basis points.
pub open spec fn trade_amounts_of(amount: u64, price: u64, fee_bps: u16) -> TradeAmounts {
    let total = trade_value(amount, price);
    let fee = fee_of(total, fee_bps as int);
    TradeAmounts {
        total_value: total as u64,
        platform_fee: fee as u64,
        seller_proceeds: (total - fee) as u64,
    }
}

/// Computes value, fee and seller proceeds of a trade, or says which
/// arithmetic step failed.
pub fn trade_amounts(amount: u64, price: u64, fee_bps: u16) -> (res: Result<
    TradeAmounts,
    DefiTradingError,
>)
    ensures
        match trade_amounts_error(amount, price, fee_bps) {
            Some(e) => res == Err::<TradeAmounts, DefiTradingError>(e),
            None => res == Ok::<TradeAmounts, DefiTradingError>(
                trade_amounts_of(amount, price, fee_bps),
            ),
        },
{
    let total_value: u64 = match amount.checked_mul(price) {
        Some(v) => v,
        None => {
            return Err(DefiTradingError::ArithmeticOverflow);
        },
    };
    let scaled: u64 = match total_value.checked_mul(fee_bps as u64) {
        Some(v) => v,
        None => {
            return Err(DefiTradingError::ArithmeticOverflow);
        },
    };
    let platform_fee: u64 = scaled / BASIS_POINTS;
    let seller_proceeds: u64 = match total_value.checked_sub(platform_fee) {
        Some(v) => v,
        None => {
            return Err(DefiTradingError::ArithmeticUnderflow);
        },
    };
    Ok(TradeAmounts { total_value, platform_fee, seller_proceeds })
}

/// Whenever the amounts of a trade can be computed, fee and proceeds add up
/// to the value, the value is quantity times price, and the fee is the value
/// times the rate over ten thousand, rounded down.
pub proof fn lemma_trade_amounts_split(amount: u64, price: u64, fee_bps: u16)
    requires
        trade_amounts_error(amount, price, fee_bps) is None,
    ensures
        ({
            let t = trade_amounts_of(amount, price, fee_bps);
            &&& t.total_value == amount * price
            &&& t.seller_proceeds + t.platform_fee == t.total_value
            &&& t.platform_fee == (t.total_value * fee_bps) / 10000
            &&& 10000 * t.platform_fee <= t.total_value * fee_bps < 10000 * (t.platform_fee + 1)
        }),
{
}

/// With a fee rate of at most one hundred percent the fee never exceeds the
/// value, so only overflow can stop a trade.
pub proof fn lemma_fee_within_value(amount: u64, price: u64, fee_bps: u16)
    requires
        fee_bps <= BASIS_POINTS,
        trade_value(amount, price) <= u64::MAX,
        trade_value(amount, price) * fee_bps <= u64::MAX,
    ensures
        trade_amounts_error(amount, price, fee_bps) is None,
{
    let total = trade_value(amount, price);
    assert(total * fee_bps <= total * 10000) by (nonlinear_arith)
        requires
            0 <= total,
            0 <= fee_bps <= 10000,
    ;
}

/// Why the signed difference `a - b` cannot be represented in 64 bits, if it
/// cannot.
pub open spec fn signed_difference_error(a: u64, b: u64) -> Option<DefiTradingError> {
    if a - b > i64::MAX {
        Some(DefiTradingError::ArithmeticOverflow)
    } else if a - b < i64::MIN {
        Some(DefiTradingError::ArithmeticUnderflow)
    } else {
        None
    }
}

/// Computes `a - b` as a signed number, refusing a difference that does not
/// fit.
pub fn signed_difference(a: u64, b: u64) -> (res: Result<i64, DefiTradingError>)
    ensures
        match signed_difference_error(a, b) {
            Some(e) => res == Err::<i64, DefiTradingError>(e),
            None => res == Ok::<i64, DefiTradingError>((a - b) as i64),
        },
{
    if a >= b {
        let d: u64 = a - b;
        if d > 0x7fff_ffff_ffff_ffff {
            Err(DefiTradingError::ArithmeticOverflow)
        } else {
            Ok(d as i64)
        }
    } else {
        let d: u64 = b - a;
        if d > 0x8000_0000_0000_0000 {
            Err(DefiTradingError::ArithmeticUnderflow)
        } else if d == 0x8000_0000_0000_0000 {
            Ok(i64::MIN)
        } else {
            Ok(-(d as i64))
        }
    }
}

} // verus!
