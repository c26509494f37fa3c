//! What a trade does to the two orders it consumes, and what the host has to
//! move to settle it.

use crate::math::TradeAmounts;
use crate::state::{Address, MarketOrderType, Order, OrderStatus, OrderType, Trade};
use vstd::prelude::*;

verus! {

/// Where the value or quantity committed by an order is drawn from at
/// settlement.
#[derive(Clone, Copy, Debug, PartialEq, Eq, Hash, Structural)]
pub enum FundsSource {
    /// The custody record owned by the order itself.
    Escrow,
    /// The owner's own account, moved under the owner's authority.
    Wallet,
}

/// A newly placed order and what has to be locked for it.
#[derive(Clone, Copy, Debug, PartialEq, Eq)]
pub struct OrderPlacement {
    /// The order as it now stands in the ledger.
    pub order: Order,
    /// What moves from the owner into the order's custody before the order
    /// counts as active: the quantity for a sell order, quantity times price
    /// for a buy order, nothing for a market order.
    pub escrow_amount: u64,
}

/// An executed trade and the movements that settle it.
///
/// The buyer's side pays `seller_proceeds` to the seller and
/// `trade.platform_fee` to the platform's fee account, both out of
/// `payment_source`. The seller's side hands `trade.amount` units of the
/// instrument to the buyer out of `token_source`.
#[derive(Clone, Copy, Debug, PartialEq, Eq)]
pub struct TradeExecution {
    pub trade: Trade,
    pub seller_proceeds: u64,
    pub payment_source: FundsSource,
    pub token_source: FundsSource,
}

impl MarketOrderType {
    /// A limit order has its commitment in escrow; a market order settles
    /// straight from its owner's account.
    pub open spec fn funds_source(self) -> FundsSource {
        match self {
            MarketOrderType::Limit => FundsSource::Escrow,
            MarketOrderType::Market => FundsSource::Wallet,
        }
    }

    /// Says where an order of this kind settles from.
    pub fn settles_from(&self) -> (source: FundsSource)
        ensures
            source == self.funds_source(),
    {
        match self {
            MarketOrderType::Limit => FundsSource::Escrow,
            MarketOrderType::Market => FundsSource::Wallet,
        }
    }
}

impl Order {
    /// A fresh order for `amount` units at `price`, nothing filled yet.
    pub open spec fn opened(
        id: u64,
        user: Address,
        company_id: u64,
        token_mint: Address,
        order_type: OrderType,
        market_order_type: MarketOrderType,
        amount: u64,
        price: u64,
        now: i64,
    ) -> Order {
        Order {
            id,
            user,
            company_id,
            token_mint,
            order_type,
            market_order_type,
            amount,
            remaining_amount: amount,
            price,
            status: OrderStatus::Active,
            created_at: now,
            filled_at: None,
        }
    }

    /// The order after `amount` more units of it have been filled at time
    /// `now`: that much less remains, and the order is filled, with the time
    /// stamped, once nothing remains.
    pub open spec fn after_fill(self, amount: u64, now: i64) -> Order
        recommends
            amount <= self.remaining_amount,
    {
        if self.remaining_amount - amount == 0 {
            Order {
                remaining_amount: 0,
                status: OrderStatus::Filled,
                filled_at: Some(now),
                ..self
            }
        } else {
            Order {
                remaining_amount: (self.remaining_amount - amount) as u64,
                status: OrderStatus::PartiallyFilled,
                ..self
            }
        }
    }

    /// Takes `amount` units off what remains of the order.
    pub(crate) fn fill(&mut self, amount: u64, now: i64)
        requires
            amount <= old(self).remaining_amount,
        ensures
            *final(self) == old(self).after_fill(amount, now),
    {
        self.remaining_amount = self.remaining_amount - amount;
        if self.remaining_amount == 0 {
            self.status = OrderStatus::Filled;
            self.filled_at = Some(now);
        } else {
            self.status = OrderStatus::PartiallyFilled;
        }
    }

    /// A fresh order with a positive quantity is well formed.
    pub proof fn lemma_opened_well_formed(
        id: u64,
        user: Address,
        company_id: u64,
        token_mint: Address,
        order_type: OrderType,
        market_order_type: MarketOrderType,
        amount: u64,
        price: u64,
        now: i64,
    )
        requires
            amount > 0,
        ensures
            Order::opened(
                id,
                user,
                company_id,
                token_mint,
                order_type,
                market_order_type,
                amount,
                price,
                now,
            ).well_formed(),
    {
    }

    /// Filling an open order by a positive quantity within what remains
    /// strictly lowers the remaining quantity, never moves the status back,
    /// and keeps the order well formed.
    pub proof fn lemma_fill_advances(order: Order, amount: u64, now: i64)
        requires
            order.status.is_open(),
            0 < amount <= order.remaining_amount,
        ensures
            order.after_fill(amount, now).remaining_amount + amount == order.remaining_amount,
            order.may_become(order.after_fill(amount, now)),
            order.after_fill(amount, now).status is Filled <==> amount == order.remaining_amount,
            order.after_fill(amount, now).status is PartiallyFilled <==> amount
                < order.remaining_amount,
            order.well_formed() ==> order.after_fill(amount, now).well_formed(),
    {
    }
}

/// Builds a fresh, active order.
pub(crate) fn open_order(
    id: u64,
    user: Address,
    company_id: u64,
    token_mint: Address,
    order_type: OrderType,
    market_order_type: MarketOrderType,
    amount: u64,
    price: u64,
    now: i64,
) -> (order: Order)
    ensures
        order == Order::opened(
            id,
            user,
            company_id,
            token_mint,
            order_type,
            market_order_type,
            amount,
            price,
            now,
        ),
{
    Order {
        id,
        user,
        company_id,
        token_mint,
        order_type,
        market_order_type,
        amount,
        remaining_amount: amount,
        price,
        status: OrderStatus::Active,
        created_at: now,
        filled_at: None,
    }
}

/// The record of a trade of `amount` units at `price` between the owners of
/// `buy` and `sell`.
pub open spec fn trade_record(
    id: u64,
    buy: Order,
    sell: Order,
    company_id: u64,
    token_mint: Address,
    amount: u64,
    price: u64,
    amounts: TradeAmounts,
    now: i64,
) -> Trade {
    Trade {
        id,
        buyer: buy.user,
        seller: sell.user,
        company_id,
        token_mint,
        amount,
        price,
        total_value: amounts.total_value,
        platform_fee: amounts.platform_fee,
        buy_order_id: buy.id,
        sell_order_id: sell.id,
        executed_at: now,
    }
}

} // verus!
