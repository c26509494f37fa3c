//! The plain order path: resting limit orders numbered off the platform's
//! order counter, traded at the seller's price, and cancelled by their owner.
//!
//! This path knows no market orders. Its prices, fees and fills are those of
//! the matching engine on two limit orders.

use crate::errors::DefiTradingError;
use crate::instructions::enhanced_trading::{
    check_backing, match_orders_error, match_orders_outcome,
};
use crate::math::{trade_amounts, trade_amounts_error, trade_amounts_of, trade_value, TradeAmounts};
use crate::settlement::{
    open_order, trade_record, FundsSource, OrderPlacement, TradeExecution,
};
use crate::state::{
    Address, MarketOrderType, Order, OrderStatus, OrderType, Orderbook, Platform, Trade,
};
use vstd::prelude::*;

verus! {

impl Platform {
    /// The platform with one more order counted.
    pub open spec fn with_order_counted(self) -> Platform {
        Platform { total_orders: (self.total_orders + 1) as u64, ..self }
    }
}

/// Why a sell order is refused, if it is. The checks come in this order: the
/// platform is halted; quantity or price is zero; the owner holds less of
/// the instrument than the order offers; the platform has no order id left.
pub open spec fn create_sell_order_error(
    platform: Platform,
    amount: u64,
    price: u64,
    token_balance: u64,
) -> Option<DefiTradingError> {
    if platform.is_paused {
        Some(DefiTradingError::PlatformPaused)
    } else if amount == 0 || price == 0 {
        Some(DefiTradingError::InvalidOrderParams)
    } else if token_balance < amount {
        Some(DefiTradingError::InsufficientTokens)
    } else if platform.total_orders + 1 > u64::MAX {
        Some(DefiTradingError::ArithmeticOverflow)
    } else {
        None
    }
}

/// Places a sell order of `user` for `amount` units of the instrument
/// `token_mint` of company `company_id` at `price`.
///
/// `token_balance` is what the user holds of the instrument. On success the
/// order is active, numbered one past the platform's order count, the
/// platform counts it, and the whole quantity has to be escrowed. On failure
/// the platform is unchanged.
pub fn create_sell_order(
    platform: &mut Platform,
    company_id: u64,
    token_mint: Address,
    user: Address,
    amount: u64,
    price: u64,
    token_balance: u64,
    now: i64,
) -> (res: Result<OrderPlacement, DefiTradingError>)
    ensures
        match create_sell_order_error(*old(platform), amount, price, token_balance) {
            Some(e) => {
                &&& res == Err::<OrderPlacement, DefiTradingError>(e)
                &&& *final(platform) == *old(platform)
            },
            None => {
                &&& res == Ok::<OrderPlacement, DefiTradingError>(
                    OrderPlacement {
                        order: Order::opened(
                            (old(platform).total_orders + 1) as u64,
                            user,
                            company_id,
                            token_mint,
                            OrderType::Sell,
                            MarketOrderType::Limit,
                            amount,
                            price,
                            now,
                        ),
                        escrow_amount: amount,
                    },
                )
                &&& *final(platform) == old(platform).with_order_counted()
            },
        },
        res matches Ok(placement) ==> placement.order.well_formed(),
{
    if platform.is_paused {
        return Err(DefiTradingError::PlatformPaused);
    }
    if amount == 0 || price == 0 {
        return Err(DefiTradingError::InvalidOrderParams);
    }
    if token_balance < amount {
        return Err(DefiTradingError::InsufficientTokens);
    }
    let order_id: u64 = match platform.total_orders.checked_add(1) {
        Some(id) => id,
        None => {
            return Err(DefiTradingError::ArithmeticOverflow);
        },
    };
    platform.total_orders = order_id;
    let order = open_order(
        order_id,
        user,
        company_id,
        token_mint,
        OrderType::Sell,
        MarketOrderType::Limit,
        amount,
        price,
        now,
    );
    Ok(OrderPlacement { order, escrow_amount: amount })
}

/// Why a buy order is refused, if it is. The checks come in this order: the
/// platform is halted; quantity or price is zero; quantity times price does
/// not fit in 64 bits; the owner holds less of the settlement asset than
/// that; the platform has no order id left.
pub open spec fn create_buy_order_error(
    platform: Platform,
    amount: u64,
    price: u64,
    payment_balance: u64,
) -> Option<DefiTradingError> {
    if platform.is_paused {
        Some(DefiTradingError::PlatformPaused)
    } else if amount == 0 || price == 0 {
        Some(DefiTradingError::InvalidOrderParams)
    } else if trade_value(amount, price) > u64::MAX {
        Some(DefiTradingError::ArithmeticOverflow)
    } else if payment_balance < trade_value(amount, price) {
        Some(DefiTradingError::InsufficientFunds)
    } else if platform.total_orders + 1 > u64::MAX {
        Some(DefiTradingError::ArithmeticOverflow)
    } else {
        None
    }
}

/// Places a buy order of `user` for `amount` units of the instrument
/// `token_mint` of company `company_id` at `price`.
///
/// `payment_balance` is what the user holds of the settlement asset. On
/// success the order is active, numbered one past the platform's order
/// count, the platform counts it, and quantity times price has to be
/// escrowed. On failure the platform is unchanged.
pub fn create_buy_order(
    platform: &mut Platform,
    company_id: u64,
    token_mint: Address,
    user: Address,
    amount: u64,
    price: u64,
    payment_balance: u64,
    now: i64,
) -> (res: Result<OrderPlacement, DefiTradingError>)
    ensures
        match create_buy_order_error(*old(platform), amount, price, payment_balance) {
            Some(e) => {
                &&& res == Err::<OrderPlacement, DefiTradingError>(e)
                &&& *final(platform) == *old(platform)
            },
            None => {
                &&& res == Ok::<OrderPlacement, DefiTradingError>(
                    OrderPlacement {
                        order: Order::opened(
                            (old(platform).total_orders + 1) as u64,
                            user,
                            company_id,
                            token_mint,
                            OrderType::Buy,
                            MarketOrderType::Limit,
                            amount,
                            price,
                            now,
                        ),
                        escrow_amount: trade_value(amount, price) as u64,
                    },
                )
                &&& *final(platform) == old(platform).with_order_counted()
            },
        },
        res matches Ok(placement) ==> placement.order.well_formed(),
{
    if platform.is_paused {
        return Err(DefiTradingError::PlatformPaused);
    }
    if amount == 0 || price == 0 {
        return Err(DefiTradingError::InvalidOrderParams);
    }
    let total_cost: u64 = check_backing(OrderType::Buy, amount, price, 0, payment_balance)?;
    let order_id: u64 = match platform.total_orders.checked_add(1) {
        Some(id) => id,
        None => {
            return Err(DefiTradingError::ArithmeticOverflow);
        },
    };
    platform.total_orders = order_id;
    let order = open_order(
        order_id,
        user,
        company_id,
        token_mint,
        OrderType::Buy,
        MarketOrderType::Limit,
        amount,
        price,
        now,
    );
    Ok(OrderPlacement { order, escrow_amount: total_cost })
}

/// Why a trade between two resting orders is refused, if it is. The checks
/// come in this order: the platform is halted; the quantity is zero; an order
/// is not the one named; an order is no longer open; buyer and seller are the
/// same user; an order is a market order, which has no escrow to settle from;
/// the seller asks more than the buyer bids; the quantity exceeds what
/// remains of an order; the amounts of the trade cannot be computed; the
/// trade counter has run out.
pub open spec fn execute_trade_error(
    platform: Platform,
    sell_order: Order,
    buy_order: Order,
    sell_order_id: u64,
    buy_order_id: u64,
    amount: u64,
) -> Option<DefiTradingError> {
    if platform.is_paused {
        Some(DefiTradingError::PlatformPaused)
    } else if amount == 0 {
        Some(DefiTradingError::InvalidTradeAmount)
    } else if sell_order.id != sell_order_id || buy_order.id != buy_order_id {
        Some(DefiTradingError::OrderNotFound)
    } else if !sell_order.status.is_open() || !buy_order.status.is_open() {
        Some(DefiTradingError::OrderAlreadyFilled)
    } else if sell_order.user == buy_order.user {
        Some(DefiTradingError::SelfTrade)
    } else if sell_order.market_order_type is Market || buy_order.market_order_type is Market {
        Some(DefiTradingError::InvalidOrderParams)
    } else if sell_order.price > buy_order.price {
        Some(DefiTradingError::PriceMismatch)
    } else if amount > sell_order.remaining_amount || amount > buy_order.remaining_amount {
        Some(DefiTradingError::InvalidTradeAmount)
    } else if trade_amounts_error(amount, sell_order.price, platform.platform_fee) is Some {
        trade_amounts_error(amount, sell_order.price, platform.platform_fee)
    } else if platform.total_trades + 1 > u64::MAX {
        Some(DefiTradingError::ArithmeticOverflow)
    } else {
        None
    }
}

/// Everything a successful trade between two resting orders leaves behind.
#[derive(Clone, Copy, Debug, PartialEq, Eq)]
pub struct TradeOutcome {
    pub platform: Platform,
    pub sell_order: Order,
    pub buy_order: Order,
    pub execution: TradeExecution,
}

/// What a trade that is not refused leaves behind: the trade at the seller's
/// price, numbered one past the platform's trade count; both orders filled by
/// `amount`; and the settlement, drawn from both orders' escrow.
pub open spec fn execute_trade_outcome(
    platform: Platform,
    sell_order: Order,
    buy_order: Order,
    amount: u64,
    now: i64,
) -> TradeOutcome {
    let amounts = trade_amounts_of(amount, sell_order.price, platform.platform_fee);
    TradeOutcome {
        platform: Platform { total_trades: (platform.total_trades + 1) as u64, ..platform },
        sell_order: sell_order.after_fill(amount, now),
        buy_order: buy_order.after_fill(amount, now),
        execution: TradeExecution {
            trade: trade_record(
                (platform.total_trades + 1) as u64,
                buy_order,
                sell_order,
                sell_order.company_id,
                sell_order.token_mint,
                amount,
                sell_order.price,
                amounts,
                now,
            ),
            seller_proceeds: amounts.seller_proceeds,
            payment_source: FundsSource::Escrow,
            token_source: FundsSource::Escrow,
        },
    }
}

/// Trades `amount` units between two resting orders at the seller's price.
///
/// On success the trade is recorded, both orders are updated and the result
/// says what has to move out of the two escrows. On failure nothing has
/// changed.
pub fn execute_trade(
    platform: &mut Platform,
    sell_order: &mut Order,
    buy_order: &mut Order,
    sell_order_id: u64,
    buy_order_id: u64,
    amount: u64,
    now: i64,
) -> (res: Result<TradeExecution, DefiTradingError>)
    ensures
        match execute_trade_error(
            *old(platform),
            *old(sell_order),
            *old(buy_order),
            sell_order_id,
            buy_order_id,
            amount,
        ) {
            Some(e) => {
                &&& res == Err::<TradeExecution, DefiTradingError>(e)
                &&& *final(platform) == *old(platform)
                &&& *final(sell_order) == *old(sell_order)
                &&& *final(buy_order) == *old(buy_order)
            },
            None => {
                let outcome = execute_trade_outcome(
                    *old(platform),
                    *old(sell_order),
                    *old(buy_order),
                    amount,
                    now,
                );
                &&& res == Ok::<TradeExecution, DefiTradingError>(outcome.execution)
                &&& *final(platform) == outcome.platform
                &&& *final(sell_order) == outcome.sell_order
                &&& *final(buy_order) == outcome.buy_order
            },
        },
        old(sell_order).may_become(*final(sell_order)),
        old(buy_order).may_become(*final(buy_order)),
        old(sell_order).well_formed() ==> final(sell_order).well_formed(),
        old(buy_order).well_formed() ==> final(buy_order).well_formed(),
{
    if platform.is_paused {
        return Err(DefiTradingError::PlatformPaused);
    }
    if amount == 0 {
        return Err(DefiTradingError::InvalidTradeAmount);
    }
    if sell_order.id != sell_order_id || buy_order.id != buy_order_id {
        return Err(DefiTradingError::OrderNotFound);
    }
    if !sell_order.is_open() || !buy_order.is_open() {
        return Err(DefiTradingError::OrderAlreadyFilled);
    }
    if sell_order.user == buy_order.user {
        return Err(DefiTradingError::SelfTrade);
    }
    if sell_order.market_order_type == MarketOrderType::Market || buy_order.market_order_type
        == MarketOrderType::Market {
        return Err(DefiTradingError::InvalidOrderParams);
    }
    if sell_order.price > buy_order.price {
        return Err(DefiTradingError::PriceMismatch);
    }
    if amount > sell_order.remaining_amount || amount > buy_order.remaining_amount {
        return Err(DefiTradingError::InvalidTradeAmount);
    }
    let trade_price: u64 = sell_order.price;
    let amounts: TradeAmounts = trade_amounts(amount, trade_price, platform.platform_fee)?;
    let trade_id: u64 = match platform.total_trades.checked_add(1) {
        Some(id) => id,
        None => {
            return Err(DefiTradingError::ArithmeticOverflow);
        },
    };
    let trade = Trade {
        id: trade_id,
        buyer: buy_order.user,
        seller: sell_order.user,
        company_id: sell_order.company_id,
        token_mint: sell_order.token_mint,
        amount,
        price: trade_price,
        total_value: amounts.total_value,
        platform_fee: amounts.platform_fee,
        buy_order_id: buy_order.id,
        sell_order_id: sell_order.id,
        executed_at: now,
    };
    let execution = TradeExecution {
        trade,
        seller_proceeds: amounts.seller_proceeds,
        payment_source: FundsSource::Escrow,
        token_source: FundsSource::Escrow,
    };
    proof {
        Order::lemma_fill_advances(*sell_order, amount, now);
        Order::lemma_fill_advances(*buy_order, amount, now);
    }
    sell_order.fill(amount, now);
    buy_order.fill(amount, now);
    platform.total_trades = trade_id;
    Ok(execution)
}

/// Why a cancellation is refused, if it is: the order is already filled or
/// cancelled, or the caller is not its owner.
pub open spec fn cancel_order_error(order: Order, user: Address) -> Option<DefiTradingError> {
    if !order.status.is_open() {
        Some(DefiTradingError::OrderAlreadyCancelled)
    } else if order.user != user {
        Some(DefiTradingError::Unauthorized)
    } else {
        None
    }
}

impl Order {
    /// The order once its owner has cancelled it.
    pub open spec fn cancelled(self) -> Order {
        Order { status: OrderStatus::Cancelled, ..self }
    }
}

/// Cancels an open order on behalf of `user` and returns what is refunded to
/// them.
///
/// `escrow_balance` is what the order's custody still holds; all of it, and
/// so only what earlier fills have left, goes back to the owner. On failure
/// the order is unchanged and nothing is refunded.
pub fn cancel_order(order: &mut Order, user: Address, escrow_balance: u64) -> (res: Result<
    u64,
    DefiTradingError,
>)
    ensures
        match cancel_order_error(*old(order), user) {
            Some(e) => {
                &&& res == Err::<u64, DefiTradingError>(e)
                &&& *final(order) == *old(order)
            },
            None => {
                &&& res == Ok::<u64, DefiTradingError>(escrow_balance)
                &&& *final(order) == old(order).cancelled()
            },
        },
        old(order).may_become(*final(order)),
        old(order).well_formed() ==> final(order).well_formed(),
{
    if !order.is_open() {
        return Err(DefiTradingError::OrderAlreadyCancelled);
    }
    if order.user != user {
        return Err(DefiTradingError::Unauthorized);
    }
    order.status = OrderStatus::Cancelled;
    Ok(escrow_balance)
}

/// Every trade between resting orders conserves value: what the seller
/// receives and what the platform takes add up to what the buyer pays, which
/// is quantity times the seller's price, and the platform's fee is that value
/// times the fee rate over ten thousand, rounded down.
pub proof fn lemma_trade_conserves_value(
    platform: Platform,
    sell_order: Order,
    buy_order: Order,
    sell_order_id: u64,
    buy_order_id: u64,
    amount: u64,
    now: i64,
)
    requires
        execute_trade_error(platform, sell_order, buy_order, sell_order_id, buy_order_id, amount)
            is None,
    ensures
        ({
            let execution = execute_trade_outcome(
                platform,
                sell_order,
                buy_order,
                amount,
                now,
            ).execution;
            let trade = execution.trade;
            &&& trade.amount == amount
            &&& trade.price == sell_order.price
            &&& trade.price <= buy_order.price
            &&& trade.total_value == trade.amount * trade.price
            &&& execution.seller_proceeds + trade.platform_fee == trade.total_value
            &&& trade.platform_fee == (trade.total_value * platform.platform_fee) / 10000
        }),
{
}

/// A trade between two orders of the same user is refused whatever else
/// holds of it, and with the self-trade error once the platform runs, the
/// quantity is positive and both orders are the ones named and still open,
/// whatever their kinds, prices and remaining quantities.
pub proof fn lemma_trade_with_oneself_rejected(
    platform: Platform,
    sell_order: Order,
    buy_order: Order,
    sell_order_id: u64,
    buy_order_id: u64,
    amount: u64,
)
    requires
        sell_order.user == buy_order.user,
    ensures
        execute_trade_error(platform, sell_order, buy_order, sell_order_id, buy_order_id, amount)
            is Some,
        !platform.is_paused && amount > 0 && sell_order.id == sell_order_id && buy_order.id
            == buy_order_id && sell_order.status.is_open() && buy_order.status.is_open()
            ==> execute_trade_error(
            platform,
            sell_order,
            buy_order,
            sell_order_id,
            buy_order_id,
            amount,
        ) == Some(DefiTradingError::SelfTrade),
{
}

/// A trade takes exactly `amount` off what remains of each order, moves
/// neither status back, and keeps well-formed orders well formed.
pub proof fn lemma_trade_advances_orders(
    platform: Platform,
    sell_order: Order,
    buy_order: Order,
    sell_order_id: u64,
    buy_order_id: u64,
    amount: u64,
    now: i64,
)
    requires
        execute_trade_error(platform, sell_order, buy_order, sell_order_id, buy_order_id, amount)
            is None,
    ensures
        ({
            let outcome = execute_trade_outcome(platform, sell_order, buy_order, amount, now);
            &&& outcome.sell_order.remaining_amount + amount == sell_order.remaining_amount
            &&& outcome.buy_order.remaining_amount + amount == buy_order.remaining_amount
            &&& sell_order.may_become(outcome.sell_order)
            &&& buy_order.may_become(outcome.buy_order)
            &&& (sell_order.well_formed() ==> outcome.sell_order.well_formed())
            &&& (buy_order.well_formed() ==> outcome.buy_order.well_formed())
        }),
{
    Order::lemma_fill_advances(sell_order, amount, now);
    Order::lemma_fill_advances(buy_order, amount, now);
}

/// The two trade paths cannot diverge: whenever the matching engine accepts a
/// match of two limit orders, the plain path accepts the same trade, and both
/// arrive at the same trade id, price, value, fee, proceeds and orders.
pub proof fn lemma_trade_paths_agree(
    platform: Platform,
    orderbook: Orderbook,
    sell_order: Order,
    buy_order: Order,
    sell_order_id: u64,
    buy_order_id: u64,
    amount: u64,
    now: i64,
)
    requires
        sell_order.market_order_type is Limit,
        buy_order.market_order_type is Limit,
        match_orders_error(
            platform,
            orderbook,
            buy_order,
            sell_order,
            buy_order_id,
            sell_order_id,
            amount,
        ) is None,
    ensures
        execute_trade_error(platform, sell_order, buy_order, sell_order_id, buy_order_id, amount)
            is None,
        ({
            let matched = match_orders_outcome(
                platform,
                orderbook,
                buy_order,
                sell_order,
                amount,
                now,
            );
            let traded = execute_trade_outcome(platform, sell_order, buy_order, amount, now);
            &&& traded.execution.trade.id == matched.execution.trade.id
            &&& traded.execution.trade.price == matched.execution.trade.price
            &&& traded.execution.trade.total_value == matched.execution.trade.total_value
            &&& traded.execution.trade.platform_fee == matched.execution.trade.platform_fee
            &&& traded.execution.seller_proceeds == matched.execution.seller_proceeds
            &&& traded.execution.payment_source == matched.execution.payment_source
            &&& traded.execution.token_source == matched.execution.token_source
            &&& traded.sell_order == matched.sell_order
            &&& traded.buy_order == matched.buy_order
            &&& traded.platform == matched.platform
        }),
{
}

/// Orders placed off a book get ids of their own: counting an order moves
/// the platform's next order id up by exactly one and leaves the trade
/// counter alone, and counting a trade leaves the order counter alone.
pub proof fn lemma_plain_order_ids_increase(platform: Platform)
    requires
        platform.total_orders + 1 <= u64::MAX,
    ensures
        platform.with_order_counted().total_orders == platform.total_orders + 1,
        platform.with_order_counted().total_trades == platform.total_trades,
        (Platform { total_trades: (platform.total_trades + 1) as u64, ..platform }).total_orders
            == platform.total_orders,
{
}

/// A filled or cancelled order cannot be traded again.
pub proof fn lemma_closed_order_not_traded(
    platform: Platform,
    sell_order: Order,
    buy_order: Order,
    sell_order_id: u64,
    buy_order_id: u64,
    amount: u64,
)
    requires
        sell_order.status.is_terminal() || buy_order.status.is_terminal(),
    ensures
        execute_trade_error(platform, sell_order, buy_order, sell_order_id, buy_order_id, amount)
            is Some,
{
}

/// Cancelling a filled or already cancelled order fails, whoever asks.
pub proof fn lemma_cancel_closed_order_fails(order: Order, user: Address)
    requires
        order.status.is_terminal(),
    ensures
        cancel_order_error(order, user) == Some(DefiTradingError::OrderAlreadyCancelled),
{
}

/// Cancellation is terminal: it changes the status and nothing else, and it
/// cannot be repeated.
pub proof fn lemma_cancel_is_terminal(order: Order, user: Address, other: Address)
    requires
        cancel_order_error(order, user) is None,
    ensures
        order.may_become(order.cancelled()),
        order.cancelled().remaining_amount == order.remaining_amount,
        order.cancelled().status is Cancelled,
        order.well_formed() ==> order.cancelled().well_formed(),
        cancel_order_error(order.cancelled(), other) == Some(
            DefiTradingError::OrderAlreadyCancelled,
        ),
{
}

} // verus!
