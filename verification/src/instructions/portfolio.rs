//! The position ledger: per-user holdings at weighted-average cost, and the
//! portfolio roll-up over them.
//!
//! A holding keeps the total it has cost, updated with every acquisition and
//! disposal, and derives the cost basis per unit from it by integer division.
//! The truncation of that division is accepted: it never enters the running
//! total, so it does not build up over a series of acquisitions.

use crate::errors::DefiTradingError;
use crate::math::{signed_difference, signed_difference_error, trade_value};
use crate::state::{Address, Holding, Portfolio};
use vstd::prelude::*;

verus! {

impl Portfolio {
    /// The empty roll-up of `user` at time `now`.
    pub open spec fn opened(user: Address, now: i64) -> Portfolio {
        Portfolio {
            user,
            total_holdings: 0,
            total_value: 0,
            total_invested: 0,
            total_profit_loss: 0,
            holdings_count: 0,
            last_updated: now,
        }
    }

    /// The roll-up recomputed from the one holding supplied, or from none.
    pub open spec fn rolled_up(self, holding: Option<Holding>, now: i64) -> Portfolio {
        match holding {
            Some(h) => Portfolio {
                total_value: h.current_value,
                total_invested: h.total_invested,
                total_profit_loss: (h.current_value - h.total_invested) as i64,
                holdings_count: 1,
                last_updated: now,
                ..self
            },
            None => Portfolio {
                total_value: 0,
                total_invested: 0,
                total_profit_loss: 0,
                holdings_count: 0,
                last_updated: now,
                ..self
            },
        }
    }
}

/// Creates the empty portfolio of `user`.
pub fn create_portfolio(user: Address, now: i64) -> (portfolio: Portfolio)
    ensures
        portfolio == Portfolio::opened(user, now),
{
    Portfolio {
        user,
        total_holdings: 0,
        total_value: 0,
        total_invested: 0,
        total_profit_loss: 0,
        holdings_count: 0,
        last_updated: now,
    }
}

/// Why a roll-up fails, if it does: the profit or loss of the supplied
/// holding does not fit in a signed 64-bit number.
pub open spec fn update_portfolio_error(holding: Option<Holding>) -> Option<DefiTradingError> {
    match holding {
        Some(h) => signed_difference_error(h.current_value, h.total_invested),
        None => None,
    }
}

/// Recomputes the totals of `portfolio` from the one holding supplied.
///
/// The roll-up covers exactly the holding handed in, not every holding of
/// the user: value, cost and count are those of that holding, or zero when
/// none is given. For totals over a whole position see
/// [`roll_up_portfolio`]. On failure the portfolio is unchanged.
pub fn update_portfolio(portfolio: &mut Portfolio, holding: Option<Holding>, now: i64) -> (res:
    Result<(), DefiTradingError>)
    ensures
        match update_portfolio_error(holding) {
            Some(e) => {
                &&& res == Err::<(), DefiTradingError>(e)
                &&& *final(portfolio) == *old(portfolio)
            },
            None => {
                &&& res == Ok::<(), DefiTradingError>(())
                &&& *final(portfolio) == old(portfolio).rolled_up(holding, now)
            },
        },
{
    let mut total_value: u64 = 0;
    let mut total_invested: u64 = 0;
    let mut holdings_count: u64 = 0;
    match holding {
        Some(h) => {
            total_value = h.current_value;
            total_invested = h.total_invested;
            holdings_count = 1;
        },
        None => {},
    }
    let total_profit_loss: i64 = signed_difference(total_value, total_invested)?;
    portfolio.total_value = total_value;
    portfolio.total_invested = total_invested;
    portfolio.total_profit_loss = total_profit_loss;
    portfolio.holdings_count = holdings_count;
    portfolio.last_updated = now;
    Ok(())
}

/// The current value of all the holdings together.
pub open spec fn total_current_value(holdings: Seq<Holding>) -> int
    decreases holdings.len(),
{
    if holdings.len() == 0 {
        0
    } else {
        total_current_value(holdings.drop_last()) + holdings.last().current_value
    }
}

/// The cost of all the holdings together.
pub open spec fn total_cost(holdings: Seq<Holding>) -> int
    decreases holdings.len(),
{
    if holdings.len() == 0 {
        0
    } else {
        total_cost(holdings.drop_last()) + holdings.last().total_invested
    }
}

/// Why a roll-up over all holdings fails, if it does: their value or their
/// cost does not fit in 64 bits together, or the profit or loss over all of
/// them does not fit in a signed 64-bit number.
pub open spec fn roll_up_portfolio_error(holdings: Seq<Holding>) -> Option<DefiTradingError> {
    if total_current_value(holdings) > u64::MAX || total_cost(holdings) > u64::MAX {
        Some(DefiTradingError::ArithmeticOverflow)
    } else {
        signed_difference_error(
            total_current_value(holdings) as u64,
            total_cost(holdings) as u64,
        )
    }
}

/// The totals of the first holdings are never above the totals of all.
pub proof fn lemma_totals_grow(holdings: Seq<Holding>, count: int)
    requires
        0 <= count <= holdings.len(),
    ensures
        0 <= total_current_value(holdings.take(count)) <= total_current_value(holdings),
        0 <= total_cost(holdings.take(count)) <= total_cost(holdings),
    decreases holdings.len(),
{
    if count == holdings.len() {
        assert(holdings.take(count) =~= holdings);
        if holdings.len() > 0 {
            lemma_totals_grow(holdings.drop_last(), count - 1);
        }
    } else {
        assert(holdings.drop_last().take(count) =~= holdings.take(count));
        lemma_totals_grow(holdings.drop_last(), count);
    }
}

/// Recomputes the totals of `portfolio` over all the holdings supplied.
///
/// This is the roll-up over a user's whole position: value and cost are the
/// sums over `holdings`, profit or loss is their difference, and the count is
/// the number of holdings. On failure the portfolio is unchanged.
pub fn roll_up_portfolio(portfolio: &mut Portfolio, holdings: &Vec<Holding>, now: i64) -> (res:
    Result<(), DefiTradingError>)
    ensures
        match roll_up_portfolio_error(holdings@) {
            Some(e) => {
                &&& res == Err::<(), DefiTradingError>(e)
                &&& *final(portfolio) == *old(portfolio)
            },
            None => {
                &&& res == Ok::<(), DefiTradingError>(())
                &&& *final(portfolio) == (Portfolio {
                    total_value: total_current_value(holdings@) as u64,
                    total_invested: total_cost(holdings@) as u64,
                    total_profit_loss: (total_current_value(holdings@) - total_cost(
                        holdings@,
                    )) as i64,
                    holdings_count: holdings@.len() as u64,
                    last_updated: now,
                    ..*old(portfolio)
                })
            },
        },
{
    let mut total_value: u64 = 0;
    let mut total_invested: u64 = 0;
    let mut i: usize = 0;
    while i < holdings.len()
        invariant
            i <= holdings.len(),
            total_value == total_current_value(holdings@.take(i as int)),
            total_invested == total_cost(holdings@.take(i as int)),
            *portfolio == *old(portfolio),
        decreases holdings.len() - i,
    {
        proof {
            assert(holdings@.take(i + 1).drop_last() =~= holdings@.take(i as int));
            lemma_totals_grow(holdings@, i + 1);
        }
        total_value = match total_value.checked_add(holdings[i].current_value) {
            Some(v) => v,
            None => {
                return Err(DefiTradingError::ArithmeticOverflow);
            },
        };
        total_invested = match total_invested.checked_add(holdings[i].total_invested) {
            Some(v) => v,
            None => {
                return Err(DefiTradingError::ArithmeticOverflow);
            },
        };
        i = i + 1;
    }
    assert(holdings@.take(i as int) =~= holdings@);
    let total_profit_loss: i64 = signed_difference(total_value, total_invested)?;
    portfolio.total_value = total_value;
    portfolio.total_invested = total_invested;
    portfolio.total_profit_loss = total_profit_loss;
    portfolio.holdings_count = holdings.len() as u64;
    portfolio.last_updated = now;
    Ok(())
}

/// Over no holding or a single one, the roll-up over all holdings is the
/// roll-up from the one holding supplied.
pub proof fn lemma_roll_ups_agree(portfolio: Portfolio, holding: Holding, now: i64)
    ensures
        roll_up_portfolio_error(seq![holding]) == update_portfolio_error(Some(holding)),
        roll_up_portfolio_error(Seq::<Holding>::empty()) == update_portfolio_error(None),
        total_current_value(seq![holding]) == holding.current_value,
        total_cost(seq![holding]) == holding.total_invested,
        total_current_value(Seq::<Holding>::empty()) == 0,
        total_cost(Seq::<Holding>::empty()) == 0,
{
    let one = seq![holding];
    assert(one.drop_last() =~= Seq::<Holding>::empty());
    assert(one.last() == holding);
    assert(total_current_value(one) == total_current_value(one.drop_last())
        + one.last().current_value);
    assert(total_cost(one) == total_cost(one.drop_last()) + one.last().total_invested);
}

impl Holding {
    /// What holds of every holding the ledger has produced: the running cost
    /// covers the units held at their average price, and profit or loss is
    /// current value less cost.
    pub open spec fn well_formed(self) -> bool {
        &&& self.amount * self.average_price <= self.total_invested
        &&& self.profit_loss == self.current_value - self.total_invested
    }

    /// A first position of `amount` units bought at `price`: the cost basis
    /// is the price paid, and nothing is won or lost yet.
    pub open spec fn first(
        user: Address,
        company_id: u64,
        token_mint: Address,
        amount: u64,
        price: u64,
        now: i64,
    ) -> Holding {
        Holding {
            user,
            company_id,
            token_mint,
            amount,
            average_price: price,
            total_invested: trade_value(amount, price) as u64,
            current_value: trade_value(amount, price) as u64,
            profit_loss: 0,
            last_updated: now,
        }
    }

    /// The total cost after acquiring `amount` more units at `price`.
    pub open spec fn invested_after_acquiring(self, amount: u64, price: u64) -> int {
        self.total_invested + trade_value(amount, price)
    }

    /// The cost basis per unit of `held` units that cost `invested` in all:
    /// the quotient rounded down, or zero when nothing is held.
    pub open spec fn cost_basis(invested: int, held: int) -> int {
        if held > 0 {
            invested / held
        } else {
            0
        }
    }

    /// Why acquiring `amount` more units at `price` fails, if it does: the
    /// cost of the purchase, the new total cost, the new quantity or its value
    /// at `price` does not fit in 64 bits, or the new profit or loss does not
    /// fit in a signed 64-bit number.
    pub open spec fn acquire_error(self, amount: u64, price: u64) -> Option<DefiTradingError> {
        let invested = self.invested_after_acquiring(amount, price);
        let held = self.amount + amount;
        if trade_value(amount, price) > u64::MAX || invested > u64::MAX || held > u64::MAX || held
            * price > u64::MAX {
            Some(DefiTradingError::ArithmeticOverflow)
        } else {
            signed_difference_error((held * price) as u64, invested as u64)
        }
    }

    /// The holding after acquiring `amount` more units at `price`: cost and
    /// quantity add up, the cost basis is the new total cost over the new
    /// quantity, rounded down, and value and profit are taken at `price`.
    pub open spec fn acquired(self, amount: u64, price: u64, now: i64) -> Holding {
        let invested = self.invested_after_acquiring(amount, price);
        let held = self.amount + amount;
        Holding {
            amount: held as u64,
            average_price: Holding::cost_basis(invested, held) as u64,
            total_invested: invested as u64,
            current_value: (held * price) as u64,
            profit_loss: (held * price - invested) as i64,
            last_updated: now,
            ..self
        }
    }

    /// The cost removed by disposing of `amount` units: their number times
    /// the cost basis, not the sale price.
    pub open spec fn cost_of_disposed(self, amount: u64) -> int {
        amount as int * self.average_price as int
    }

    /// Why disposing of `amount` units at `price` fails, if it does. The
    /// checks come in this order: fewer units are held; the cost of the units
    /// sold does not fit in 64 bits; it exceeds the total cost; the value of
    /// what is left at `price` does not fit; the new profit or loss does not
    /// fit in a signed 64-bit number.
    pub open spec fn dispose_error(self, amount: u64, price: u64) -> Option<DefiTradingError> {
        let held = self.amount - amount;
        let invested = self.total_invested - self.cost_of_disposed(amount);
        if self.amount < amount {
            Some(DefiTradingError::InsufficientTokens)
        } else if self.cost_of_disposed(amount) > u64::MAX {
            Some(DefiTradingError::ArithmeticOverflow)
        } else if invested < 0 {
            Some(DefiTradingError::ArithmeticUnderflow)
        } else if held * price > u64::MAX {
            Some(DefiTradingError::ArithmeticOverflow)
        } else {
            signed_difference_error((held * price) as u64, invested as u64)
        }
    }

    /// The holding after disposing of `amount` units at `price`: the cost of
    /// the units sold leaves the total cost, the cost basis stays, and value
    /// and profit are taken at `price`.
    pub open spec fn disposed(self, amount: u64, price: u64, now: i64) -> Holding {
        let held = self.amount - amount;
        let invested = self.total_invested - self.cost_of_disposed(amount);
        Holding {
            amount: held as u64,
            total_invested: invested as u64,
            current_value: (held * price) as u64,
            profit_loss: (held * price - invested) as i64,
            last_updated: now,
            ..self
        }
    }

    /// Adds `amount` units bought at `price` to the position.
    fn acquire(&mut self, amount: u64, price: u64, now: i64) -> (res: Result<
        (),
        DefiTradingError,
    >)
        ensures
            match old(self).acquire_error(amount, price) {
                Some(e) => {
                    &&& res == Err::<(), DefiTradingError>(e)
                    &&& *final(self) == *old(self)
                },
                None => {
                    &&& res == Ok::<(), DefiTradingError>(())
                    &&& *final(self) == old(self).acquired(amount, price, now)
                },
            },
            res is Ok ==> final(self).well_formed(),
    {
        proof {
            if self.acquire_error(amount, price) is None {
                lemma_acquire_keeps_well_formed(*self, amount, price, now);
            }
        }
        let cost: u64 = match amount.checked_mul(price) {
            Some(v) => v,
            None => {
                return Err(DefiTradingError::ArithmeticOverflow);
            },
        };
        let new_total_invested: u64 = match self.total_invested.checked_add(cost) {
            Some(v) => v,
            None => {
                return Err(DefiTradingError::ArithmeticOverflow);
            },
        };
        let new_amount: u64 = match self.amount.checked_add(amount) {
            Some(v) => v,
            None => {
                return Err(DefiTradingError::ArithmeticOverflow);
            },
        };
        let new_average_price: u64 = if new_amount > 0 {
            new_total_invested / new_amount
        } else {
            0
        };
        let current_value: u64 = match new_amount.checked_mul(price) {
            Some(v) => v,
            None => {
                return Err(DefiTradingError::ArithmeticOverflow);
            },
        };
        let profit_loss: i64 = signed_difference(current_value, new_total_invested)?;
        self.amount = new_amount;
        self.average_price = new_average_price;
        self.total_invested = new_total_invested;
        self.current_value = current_value;
        self.profit_loss = profit_loss;
        self.last_updated = now;
        Ok(())
    }

    /// Takes `amount` units sold at `price` out of the position.
    fn dispose(&mut self, amount: u64, price: u64, now: i64) -> (res: Result<
        (),
        DefiTradingError,
    >)
        ensures
            match old(self).dispose_error(amount, price) {
                Some(e) => {
                    &&& res == Err::<(), DefiTradingError>(e)
                    &&& *final(self) == *old(self)
                },
                None => {
                    &&& res == Ok::<(), DefiTradingError>(())
                    &&& *final(self) == old(self).disposed(amount, price, now)
                },
            },
            res is Ok && old(self).well_formed() ==> final(self).well_formed(),
    {
        proof {
            if self.well_formed() && amount <= self.amount {
                lemma_dispose_keeps_well_formed(*self, amount, price, now);
            }
        }
        if self.amount < amount {
            return Err(DefiTradingError::InsufficientTokens);
        }
        let cost_basis_sold: u64 = match amount.checked_mul(self.average_price) {
            Some(v) => v,
            None => {
                return Err(DefiTradingError::ArithmeticOverflow);
            },
        };
        let new_amount: u64 = self.amount - amount;
        let new_total_invested: u64 = match self.total_invested.checked_sub(cost_basis_sold) {
            Some(v) => v,
            None => {
                return Err(DefiTradingError::ArithmeticUnderflow);
            },
        };
        let current_value: u64 = match new_amount.checked_mul(price) {
            Some(v) => v,
            None => {
                return Err(DefiTradingError::ArithmeticOverflow);
            },
        };
        let profit_loss: i64 = signed_difference(current_value, new_total_invested)?;
        self.amount = new_amount;
        self.total_invested = new_total_invested;
        self.current_value = current_value;
        self.profit_loss = profit_loss;
        self.last_updated = now;
        Ok(())
    }
}

/// The quantity a trade moves: `amount_change` itself for a purchase, its
/// opposite for a sale.
pub open spec fn traded_quantity(amount_change: i64, is_buy: bool) -> int {
    if is_buy {
        amount_change as int
    } else {
        -(amount_change as int)
    }
}

/// Why a holding cannot be updated after a trade, if it cannot: the quantity
/// has the wrong sign for the direction of the trade, or the acquisition or
/// disposal itself fails.
pub open spec fn update_holding_error(
    holding: Holding,
    amount_change: i64,
    price: u64,
    is_buy: bool,
) -> Option<DefiTradingError> {
    let quantity = traded_quantity(amount_change, is_buy);
    if quantity < 0 {
        Some(DefiTradingError::ArithmeticUnderflow)
    } else if is_buy {
        holding.acquire_error(quantity as u64, price)
    } else {
        holding.dispose_error(quantity as u64, price)
    }
}

/// The holding after a trade that is not refused.
pub open spec fn updated_holding(
    holding: Holding,
    amount_change: i64,
    price: u64,
    is_buy: bool,
    now: i64,
) -> Holding {
    let quantity = traded_quantity(amount_change, is_buy);
    if is_buy {
        holding.acquired(quantity as u64, price, now)
    } else {
        holding.disposed(quantity as u64, price, now)
    }
}

/// Books a trade into a holding: `amount_change` is the quantity bought, or
/// the opposite of the quantity sold, and `is_buy` says which.
///
/// Returns the holding as it stands afterwards. The portfolio only has its
/// time of last change moved. On failure neither record has changed.
pub fn update_holding_after_trade(
    holding: &mut Holding,
    portfolio: &mut Portfolio,
    amount_change: i64,
    price: u64,
    is_buy: bool,
    now: i64,
) -> (res: Result<Holding, DefiTradingError>)
    ensures
        match update_holding_error(*old(holding), amount_change, price, is_buy) {
            Some(e) => {
                &&& res == Err::<Holding, DefiTradingError>(e)
                &&& *final(holding) == *old(holding)
                &&& *final(portfolio) == *old(portfolio)
            },
            None => {
                &&& *final(holding) == updated_holding(
                    *old(holding),
                    amount_change,
                    price,
                    is_buy,
                    now,
                )
                &&& res == Ok::<Holding, DefiTradingError>(*final(holding))
                &&& *final(portfolio) == (Portfolio { last_updated: now, ..*old(portfolio) })
            },
        },
        res is Ok && old(holding).well_formed() ==> final(holding).well_formed(),
{
    if is_buy {
        if amount_change < 0 {
            return Err(DefiTradingError::ArithmeticUnderflow);
        }
        let amount_bought: u64 = amount_change as u64;
        holding.acquire(amount_bought, price, now)?;
    } else {
        if amount_change > 0 {
            return Err(DefiTradingError::ArithmeticUnderflow);
        }
        let amount_sold: u64 = if amount_change == i64::MIN {
            0x8000_0000_0000_0000
        } else {
            (-amount_change) as u64
        };
        holding.dispose(amount_sold, price, now)?;
    }
    portfolio.last_updated = now;
    Ok(*holding)
}

/// Why an acquisition cannot be booked, if it cannot: for a new holding,
/// its cost does not fit in 64 bits or the portfolio's count of holdings has
/// run out; for an existing one, the acquisition itself fails.
pub open spec fn create_or_update_holding_error(
    existing: Option<Holding>,
    portfolio: Portfolio,
    amount: u64,
    price: u64,
) -> Option<DefiTradingError> {
    match existing {
        None => if trade_value(amount, price) > u64::MAX || portfolio.holdings_count + 1
            > u64::MAX {
            Some(DefiTradingError::ArithmeticOverflow)
        } else {
            None
        },
        Some(holding) => holding.acquire_error(amount, price),
    }
}

/// The holding after an acquisition is booked: a first position where there
/// was no record, and the units blended into the record where there was one,
/// however little it held.
pub open spec fn booked_holding(
    existing: Option<Holding>,
    user: Address,
    company_id: u64,
    token_mint: Address,
    amount: u64,
    price: u64,
    now: i64,
) -> Holding {
    match existing {
        None => Holding::first(user, company_id, token_mint, amount, price, now),
        Some(holding) => holding.acquired(amount, price, now),
    }
}

/// The portfolio after an acquisition is booked: a new holding is counted,
/// an existing one is not counted again.
pub open spec fn portfolio_after_booking(
    existing: Option<Holding>,
    portfolio: Portfolio,
    now: i64,
) -> Portfolio {
    match existing {
        None => Portfolio {
            holdings_count: (portfolio.holdings_count + 1) as u64,
            last_updated: now,
            ..portfolio
        },
        Some(_) => Portfolio { last_updated: now, ..portfolio },
    }
}

/// Books the acquisition of `amount` units at `price` by `user`.
///
/// `existing` is the user's holding of the instrument, or `None` where the
/// user has never held it. There is one record per user and instrument: it
/// is created here on the first acquisition, at cost basis `price`, and the
/// portfolio counts it once. Every later acquisition is blended into it at
/// weighted-average cost, also after its amount has fallen to zero, and
/// keeps whatever cost was left in it. Returns the holding as it now stands.
/// On failure the portfolio is unchanged.
pub fn create_or_update_holding(
    existing: Option<Holding>,
    portfolio: &mut Portfolio,
    user: Address,
    company_id: u64,
    token_mint: Address,
    amount: u64,
    price: u64,
    now: i64,
) -> (res: Result<Holding, DefiTradingError>)
    ensures
        match create_or_update_holding_error(existing, *old(portfolio), amount, price) {
            Some(e) => {
                &&& res == Err::<Holding, DefiTradingError>(e)
                &&& *final(portfolio) == *old(portfolio)
            },
            None => {
                &&& res == Ok::<Holding, DefiTradingError>(
                    booked_holding(existing, user, company_id, token_mint, amount, price, now),
                )
                &&& *final(portfolio) == portfolio_after_booking(existing, *old(portfolio), now)
            },
        },
        res matches Ok(holding) ==> holding.well_formed(),
{
    match existing {
        None => {
            let cost: u64 = match amount.checked_mul(price) {
                Some(v) => v,
                None => {
                    return Err(DefiTradingError::ArithmeticOverflow);
                },
            };
            let holdings_count: u64 = match portfolio.holdings_count.checked_add(1) {
                Some(v) => v,
                None => {
                    return Err(DefiTradingError::ArithmeticOverflow);
                },
            };
            portfolio.holdings_count = holdings_count;
            portfolio.last_updated = now;
            Ok(
                Holding {
                    user,
                    company_id,
                    token_mint,
                    amount,
                    average_price: price,
                    total_invested: cost,
                    current_value: cost,
                    profit_loss: 0,
                    last_updated: now,
                },
            )
        },
        Some(held) => {
            let mut holding = held;
            holding.acquire(amount, price, now)?;
            portfolio.last_updated = now;
            Ok(holding)
        },
    }
}

/// A holding is counted once: booking an acquisition into an existing record
/// leaves the portfolio's count as it was and adds units and cost to what the
/// record holds, also where its amount had fallen to zero.
pub proof fn lemma_existing_holding_counted_once(
    holding: Holding,
    portfolio: Portfolio,
    user: Address,
    company_id: u64,
    token_mint: Address,
    amount: u64,
    price: u64,
    now: i64,
)
    requires
        create_or_update_holding_error(Some(holding), portfolio, amount, price) is None,
    ensures
        portfolio_after_booking(Some(holding), portfolio, now).holdings_count
            == portfolio.holdings_count,
        ({
            let after = booked_holding(
                Some(holding),
                user,
                company_id,
                token_mint,
                amount,
                price,
                now,
            );
            &&& after.amount == holding.amount + amount
            &&& after.total_invested == holding.total_invested + amount * price
            &&& after.user == holding.user
            &&& after.company_id == holding.company_id
            &&& after.token_mint == holding.token_mint
        }),
{
}

/// A holding that is sold out and bought again is still the one record,
/// counted once: after a first acquisition, the disposal of all its units and
/// another acquisition, the portfolio counts one holding more than before
/// the first, and the record holds the units and the cost of the last
/// purchase.
pub proof fn lemma_returning_holding_counted_once(
    portfolio: Portfolio,
    user: Address,
    company_id: u64,
    token_mint: Address,
    first_amount: u64,
    first_price: u64,
    first_time: i64,
    sale_price: u64,
    sale_time: i64,
    second_amount: u64,
    second_price: u64,
    second_time: i64,
)
    requires
        create_or_update_holding_error(None, portfolio, first_amount, first_price) is None,
        Holding::first(
            user,
            company_id,
            token_mint,
            first_amount,
            first_price,
            first_time,
        ).dispose_error(first_amount, sale_price) is None,
        create_or_update_holding_error(
            Some(
                Holding::first(
                    user,
                    company_id,
                    token_mint,
                    first_amount,
                    first_price,
                    first_time,
                ).disposed(first_amount, sale_price, sale_time),
            ),
            portfolio_after_booking(None, portfolio, first_time),
            second_amount,
            second_price,
        ) is None,
    ensures
        ({
            let sold_out = Holding::first(
                user,
                company_id,
                token_mint,
                first_amount,
                first_price,
                first_time,
            ).disposed(first_amount, sale_price, sale_time);
            let counted = portfolio_after_booking(None, portfolio, first_time);
            let after = booked_holding(
                Some(sold_out),
                user,
                company_id,
                token_mint,
                second_amount,
                second_price,
                second_time,
            );
            &&& sold_out.amount == 0
            &&& portfolio_after_booking(Some(sold_out), counted, second_time).holdings_count
                == portfolio.holdings_count + 1
            &&& after.amount == second_amount
            &&& after.total_invested == second_amount * second_price
        }),
{
}

/// An acquisition into a holding succeeds whenever the new quantity, the new
/// total cost, the new value and the new profit or loss fit their fields, and
/// then it adds units and cost, takes the cost basis as cost over units
/// rounded down, and values the position at the new price.
pub proof fn lemma_acquisition_blends(holding: Holding, amount: u64, price: u64, now: i64)
    requires
        holding.amount + amount <= u64::MAX,
        holding.total_invested + amount * price <= u64::MAX,
        (holding.amount + amount) * price <= u64::MAX,
        i64::MIN <= (holding.amount + amount) * price - (holding.total_invested + amount * price)
            <= i64::MAX,
    ensures
        holding.acquire_error(amount, price) is None,
        ({
            let after = holding.acquired(amount, price, now);
            &&& after.amount == holding.amount + amount
            &&& after.total_invested == holding.total_invested + amount * price
            &&& holding.amount + amount > 0 ==> after.average_price == (holding.total_invested
                + amount * price) / (holding.amount + amount)
            &&& after.current_value == (holding.amount + amount) * price
            &&& after.profit_loss == after.current_value - after.total_invested
        }),
{
    assert(0 <= amount * price) by (nonlinear_arith);
    let invested = holding.total_invested + amount * price;
    let held = holding.amount + amount;
    if held > 0 {
        assert(0 <= invested / held <= invested) by (nonlinear_arith)
            requires
                held > 0,
                invested >= 0,
        ;
    }
}

/// Weighted-average cost does not depend on how acquisitions are grouped:
/// after two acquisitions in a row the quantity is the sum of all units, the
/// total cost is the sum of all purchases, and the cost basis is that total
/// cost over that quantity, rounded down once.
pub proof fn lemma_acquisitions_accumulate(
    holding: Holding,
    first_amount: u64,
    first_price: u64,
    first_time: i64,
    second_amount: u64,
    second_price: u64,
    second_time: i64,
)
    requires
        holding.acquire_error(first_amount, first_price) is None,
        holding.acquired(first_amount, first_price, first_time).acquire_error(
            second_amount,
            second_price,
        ) is None,
    ensures
        ({
            let after = holding.acquired(first_amount, first_price, first_time).acquired(
                second_amount,
                second_price,
                second_time,
            );
            let invested = holding.total_invested + first_amount * first_price + second_amount
                * second_price;
            let held = holding.amount + first_amount + second_amount;
            &&& after.amount == held
            &&& after.total_invested == invested
            &&& after.average_price == Holding::cost_basis(invested, held)
        }),
{
}

/// Two acquisitions leave the same quantity, total cost and cost basis in
/// whichever order they are booked.
pub proof fn lemma_cost_basis_order_independent(
    holding: Holding,
    first_amount: u64,
    first_price: u64,
    first_time: i64,
    second_amount: u64,
    second_price: u64,
    second_time: i64,
)
    requires
        holding.acquire_error(first_amount, first_price) is None,
        holding.acquired(first_amount, first_price, first_time).acquire_error(
            second_amount,
            second_price,
        ) is None,
        holding.acquire_error(second_amount, second_price) is None,
        holding.acquired(second_amount, second_price, second_time).acquire_error(
            first_amount,
            first_price,
        ) is None,
    ensures
        ({
            let one_way = holding.acquired(first_amount, first_price, first_time).acquired(
                second_amount,
                second_price,
                second_time,
            );
            let other_way = holding.acquired(second_amount, second_price, second_time).acquired(
                first_amount,
                first_price,
                first_time,
            );
            &&& one_way.amount == other_way.amount
            &&& one_way.total_invested == other_way.total_invested
            &&& one_way.average_price == other_way.average_price
        }),
{
    lemma_acquisitions_accumulate(
        holding,
        first_amount,
        first_price,
        first_time,
        second_amount,
        second_price,
        second_time,
    );
    lemma_acquisitions_accumulate(
        holding,
        second_amount,
        second_price,
        second_time,
        first_amount,
        first_price,
        first_time,
    );
}

/// A first position followed by one more acquisition has as its cost basis
/// the cost of both purchases over the units of both, rounded down.
pub proof fn lemma_first_then_acquired(
    user: Address,
    company_id: u64,
    token_mint: Address,
    first_amount: u64,
    first_price: u64,
    first_time: i64,
    second_amount: u64,
    second_price: u64,
    second_time: i64,
)
    requires
        first_amount > 0,
        trade_value(first_amount, first_price) <= u64::MAX,
        Holding::first(
            user,
            company_id,
            token_mint,
            first_amount,
            first_price,
            first_time,
        ).acquire_error(second_amount, second_price) is None,
    ensures
        ({
            let after = Holding::first(
                user,
                company_id,
                token_mint,
                first_amount,
                first_price,
                first_time,
            ).acquired(second_amount, second_price, second_time);
            &&& after.amount == first_amount + second_amount
            &&& after.total_invested == first_amount * first_price + second_amount * second_price
            &&& after.average_price == (first_amount * first_price + second_amount * second_price)
                / (first_amount + second_amount)
        }),
{
}

/// Whatever a holding looked like before, it is well formed after an
/// acquisition.
pub proof fn lemma_acquire_keeps_well_formed(holding: Holding, amount: u64, price: u64, now: i64)
    requires
        holding.acquire_error(amount, price) is None,
    ensures
        holding.acquired(amount, price, now).well_formed(),
{
    let invested = holding.invested_after_acquiring(amount, price);
    let held = holding.amount + amount;
    if held > 0 {
        assert(held * (invested / held) <= invested) by (nonlinear_arith)
            requires
                held > 0,
                invested >= 0,
        ;
    } else {
        assert(held * 0 == 0);
    }
}

/// A first position is well formed.
pub proof fn lemma_first_well_formed(
    user: Address,
    company_id: u64,
    token_mint: Address,
    amount: u64,
    price: u64,
    now: i64,
)
    requires
        trade_value(amount, price) <= u64::MAX,
    ensures
        Holding::first(user, company_id, token_mint, amount, price, now).well_formed(),
{
}

/// Disposing of units a well-formed holding has never takes more cost out
/// than is in it, leaves the cost basis per unit as it was, and keeps the
/// holding well formed.
pub proof fn lemma_dispose_keeps_well_formed(holding: Holding, amount: u64, price: u64, now: i64)
    requires
        holding.well_formed(),
        amount <= holding.amount,
    ensures
        holding.cost_of_disposed(amount) <= holding.total_invested,
        holding.disposed(amount, price, now).average_price == holding.average_price,
        holding.dispose_error(amount, price) is None ==> holding.disposed(
            amount,
            price,
            now,
        ).well_formed(),
        holding.dispose_error(amount, price) is None ==> holding.disposed(
            amount,
            price,
            now,
        ).amount + amount == holding.amount,
{
    let average = holding.average_price as int;
    let held = holding.amount as int;
    let sold = amount as int;
    assert(sold * average <= held * average) by (nonlinear_arith)
        requires
            0 <= sold <= held,
            0 <= average,
    ;
    assert((held - sold) * average == held * average - sold * average) by (nonlinear_arith);
}

} // verus!
