//! Limit and market orders against an instrument's order book, and the
//! matching engine that trades two nominated orders against each other.

use crate::errors::DefiTradingError;
use crate::math::{trade_amounts, trade_amounts_error, trade_amounts_of, trade_value, TradeAmounts};
use crate::settlement::{open_order, trade_record, OrderPlacement, TradeExecution};
use crate::state::{
    Address, MarketDepth, MarketOrderType, Order, OrderType, Orderbook, Platform, PriceLevel,
    Trade,
};
use vstd::prelude::*;

verus! {

impl Orderbook {
    /// The id the next order placed on this book gets: one more than the
    /// number of orders placed on it so far.
    pub open spec fn next_order_id(self) -> int {
        self.total_buy_orders + self.total_sell_orders + 1
    }

    /// The price a market order of the given side would take: the best ask
    /// for a buy, the best bid for a sell. Zero means there is none.
    pub open spec fn best_opposing_price(self, order_type: OrderType) -> u64 {
        match order_type {
            OrderType::Buy => self.best_ask,
            OrderType::Sell => self.best_bid,
        }
    }

    /// The book with one more order counted on the given side at time `now`.
    pub open spec fn with_order_counted(self, order_type: OrderType, now: i64) -> Orderbook {
        match order_type {
            OrderType::Buy => Orderbook {
                total_buy_orders: (self.total_buy_orders + 1) as u64,
                last_updated: now,
                ..self
            },
            OrderType::Sell => Orderbook {
                total_sell_orders: (self.total_sell_orders + 1) as u64,
                last_updated: now,
                ..self
            },
        }
    }

    /// The book with its watermark moved by a new limit order at `price`: a
    /// buy raises the best bid, a sell lowers the best ask, and an unset
    /// watermark takes any price.
    pub open spec fn with_watermark(self, order_type: OrderType, price: u64) -> Orderbook {
        match order_type {
            OrderType::Buy => if self.best_bid == 0 || price > self.best_bid {
                Orderbook { best_bid: price, ..self }
            } else {
                self
            },
            OrderType::Sell => if self.best_ask == 0 || price < self.best_ask {
                Orderbook { best_ask: price, ..self }
            } else {
                self
            },
        }
    }

    /// The book after a trade of `amount` units at `price` at time `now`.
    pub open spec fn after_trade(self, amount: u64, price: u64, now: i64) -> Orderbook {
        Orderbook {
            last_trade_price: price,
            total_volume: (self.total_volume + amount) as u64,
            last_updated: now,
            ..self
        }
    }
}

/// What the owner has to lock for a limit order: the quantity itself for a
/// sell, quantity times price for a buy.
pub open spec fn limit_order_commitment(order_type: OrderType, amount: u64, price: u64) -> int {
    match order_type {
        OrderType::Sell => amount as int,
        OrderType::Buy => trade_value(amount, price),
    }
}

/// Why an order of the given side for `amount` units at `price` is not
/// backed by the owner's balances, if it is not.
pub open spec fn backing_error(
    order_type: OrderType,
    amount: u64,
    price: u64,
    token_balance: u64,
    payment_balance: u64,
) -> Option<DefiTradingError> {
    match order_type {
        OrderType::Sell => if token_balance < amount {
            Some(DefiTradingError::InsufficientTokens)
        } else {
            None
        },
        OrderType::Buy => if trade_value(amount, price) > u64::MAX {
            Some(DefiTradingError::ArithmeticOverflow)
        } else if payment_balance < trade_value(amount, price) {
            Some(DefiTradingError::InsufficientFunds)
        } else {
            None
        },
    }
}

/// Checks that the owner's balances back an order, and returns what the order
/// commits: the quantity for a sell, quantity times price for a buy.
pub(crate) fn check_backing(
    order_type: OrderType,
    amount: u64,
    price: u64,
    token_balance: u64,
    payment_balance: u64,
) -> (res: Result<u64, DefiTradingError>)
    ensures
        match backing_error(order_type, amount, price, token_balance, payment_balance) {
            Some(e) => res == Err::<u64, DefiTradingError>(e),
            None => res == Ok::<u64, DefiTradingError>(
                limit_order_commitment(order_type, amount, price) as u64,
            ),
        },
{
    match order_type {
        OrderType::Sell => {
            if token_balance < amount {
                return Err(DefiTradingError::InsufficientTokens);
            }
            Ok(amount)
        },
        OrderType::Buy => {
            let total_cost: u64 = match amount.checked_mul(price) {
                Some(v) => v,
                None => {
                    return Err(DefiTradingError::ArithmeticOverflow);
                },
            };
            if payment_balance < total_cost {
                return Err(DefiTradingError::InsufficientFunds);
            }
            Ok(total_cost)
        },
    }
}

/// Why a limit order is refused, if it is. The checks come in this order:
/// the platform is halted; quantity or price is zero; the book has no id
/// left; the owner's balance does not back the order.
pub open spec fn create_limit_order_error(
    platform: Platform,
    orderbook: Orderbook,
    order_type: OrderType,
    amount: u64,
    price: u64,
    token_balance: u64,
    payment_balance: u64,
) -> Option<DefiTradingError> {
    if platform.is_paused {
        Some(DefiTradingError::PlatformPaused)
    } else if amount == 0 || price == 0 {
        Some(DefiTradingError::InvalidOrderParams)
    } else if orderbook.next_order_id() > u64::MAX {
        Some(DefiTradingError::ArithmeticOverflow)
    } else {
        backing_error(order_type, amount, price, token_balance, payment_balance)
    }
}

/// Places a limit order of `user` on `orderbook`.
///
/// `token_balance` is what the user holds of the instrument and
/// `payment_balance` what they hold of the settlement asset. On success the
/// order is active with the book's next id, the book counts it and moves its
/// watermark if the price improves it, and the result says what has to be
/// escrowed. On failure the book is unchanged.
pub fn create_limit_order(
    platform: &Platform,
    orderbook: &mut Orderbook,
    user: Address,
    order_type: OrderType,
    amount: u64,
    price: u64,
    token_balance: u64,
    payment_balance: u64,
    now: i64,
) -> (res: Result<OrderPlacement, DefiTradingError>)
    ensures
        match create_limit_order_error(
            *platform,
            *old(orderbook),
            order_type,
            amount,
            price,
            token_balance,
            payment_balance,
        ) {
            Some(e) => {
                &&& res == Err::<OrderPlacement, DefiTradingError>(e)
                &&& *final(orderbook) == *old(orderbook)
            },
            None => {
                &&& res == Ok::<OrderPlacement, DefiTradingError>(
                    OrderPlacement {
                        order: Order::opened(
                            old(orderbook).next_order_id() as u64,
                            user,
                            old(orderbook).company_id,
                            old(orderbook).token_mint,
                            order_type,
                            MarketOrderType::Limit,
                            amount,
                            price,
                            now,
                        ),
                        escrow_amount: limit_order_commitment(order_type, amount, price) as u64,
                    },
                )
                &&& *final(orderbook) == old(orderbook).with_order_counted(
                    order_type,
                    now,
                ).with_watermark(order_type, price)
            },
        },
        res matches Ok(placement) ==> placement.order.well_formed(),
{
    if platform.is_paused {
        return Err(DefiTradingError::PlatformPaused);
    }
    if amount == 0 || price == 0 {
        return Err(DefiTradingError::InvalidOrderParams);
    }
    let order_id: u64 = match next_id(orderbook) {
        Some(id) => id,
        None => {
            return Err(DefiTradingError::ArithmeticOverflow);
        },
    };
    let escrow_amount: u64 = check_backing(
        order_type,
        amount,
        price,
        token_balance,
        payment_balance,
    )?;
    match order_type {
        OrderType::Sell => {
            orderbook.total_sell_orders = orderbook.total_sell_orders + 1;
            if orderbook.best_ask == 0 || price < orderbook.best_ask {
                orderbook.best_ask = price;
            }
        },
        OrderType::Buy => {
            orderbook.total_buy_orders = orderbook.total_buy_orders + 1;
            if orderbook.best_bid == 0 || price > orderbook.best_bid {
                orderbook.best_bid = price;
            }
        },
    }
    orderbook.last_updated = now;
    let order = open_order(
        order_id,
        user,
        orderbook.company_id,
        orderbook.token_mint,
        order_type,
        MarketOrderType::Limit,
        amount,
        price,
        now,
    );
    Ok(OrderPlacement { order, escrow_amount })
}

/// Why a market order is refused, if it is. The checks come in this order:
/// the platform is halted; the quantity is zero; there is no opposing price
/// to take; the book has no id left; the owner's balance does not cover the
/// order at that price.
pub open spec fn create_market_order_error(
    platform: Platform,
    orderbook: Orderbook,
    order_type: OrderType,
    amount: u64,
    token_balance: u64,
    payment_balance: u64,
) -> Option<DefiTradingError> {
    if platform.is_paused {
        Some(DefiTradingError::PlatformPaused)
    } else if amount == 0 {
        Some(DefiTradingError::InvalidOrderParams)
    } else if orderbook.best_opposing_price(order_type) == 0 {
        Some(DefiTradingError::NoLiquidity)
    } else if orderbook.next_order_id() > u64::MAX {
        Some(DefiTradingError::ArithmeticOverflow)
    } else {
        backing_error(
            order_type,
            amount,
            orderbook.best_opposing_price(order_type),
            token_balance,
            payment_balance,
        )
    }
}

/// Places a market order of `user` on `orderbook`.
///
/// The order takes the book's current best opposing price as its price. A
/// market order locks nothing and leaves the watermarks alone; it settles
/// from the owner's account when it is matched. On failure the book is
/// unchanged and no order exists.
pub fn create_market_order(
    platform: &Platform,
    orderbook: &mut Orderbook,
    user: Address,
    order_type: OrderType,
    amount: u64,
    token_balance: u64,
    payment_balance: u64,
    now: i64,
) -> (res: Result<OrderPlacement, DefiTradingError>)
    ensures
        match create_market_order_error(
            *platform,
            *old(orderbook),
            order_type,
            amount,
            token_balance,
            payment_balance,
        ) {
            Some(e) => {
                &&& res == Err::<OrderPlacement, DefiTradingError>(e)
                &&& *final(orderbook) == *old(orderbook)
            },
            None => {
                &&& res == Ok::<OrderPlacement, DefiTradingError>(
                    OrderPlacement {
                        order: Order::opened(
                            old(orderbook).next_order_id() as u64,
                            user,
                            old(orderbook).company_id,
                            old(orderbook).token_mint,
                            order_type,
                            MarketOrderType::Market,
                            amount,
                            old(orderbook).best_opposing_price(order_type),
                            now,
                        ),
                        escrow_amount: 0,
                    },
                )
                &&& *final(orderbook) == old(orderbook).with_order_counted(order_type, now)
            },
        },
        res matches Ok(placement) ==> placement.order.well_formed(),
{
    if platform.is_paused {
        return Err(DefiTradingError::PlatformPaused);
    }
    if amount == 0 {
        return Err(DefiTradingError::InvalidOrderParams);
    }
    let execution_price: u64 = match order_type {
        OrderType::Buy => orderbook.best_ask,
        OrderType::Sell => orderbook.best_bid,
    };
    if execution_price == 0 {
        return Err(DefiTradingError::NoLiquidity);
    }
    let order_id: u64 = match next_id(orderbook) {
        Some(id) => id,
        None => {
            return Err(DefiTradingError::ArithmeticOverflow);
        },
    };
    let _covered: u64 = check_backing(
        order_type,
        amount,
        execution_price,
        token_balance,
        payment_balance,
    )?;
    match order_type {
        OrderType::Sell => {
            orderbook.total_sell_orders = orderbook.total_sell_orders + 1;
        },
        OrderType::Buy => {
            orderbook.total_buy_orders = orderbook.total_buy_orders + 1;
        },
    }
    orderbook.last_updated = now;
    let order = open_order(
        order_id,
        user,
        orderbook.company_id,
        orderbook.token_mint,
        order_type,
        MarketOrderType::Market,
        amount,
        execution_price,
        now,
    );
    Ok(OrderPlacement { order, escrow_amount: 0 })
}

/// The book's next order id, unless the counters have run out.
fn next_id(orderbook: &Orderbook) -> (id: Option<u64>)
    ensures
        orderbook.next_order_id() > u64::MAX ==> id is None,
        orderbook.next_order_id() <= u64::MAX ==> id == Some(orderbook.next_order_id() as u64),
{
    match orderbook.total_buy_orders.checked_add(orderbook.total_sell_orders) {
        Some(placed) => placed.checked_add(1),
        None => None,
    }
}

/// The price two orders trade at, by their kinds: a market order takes the
/// other side's limit price; two market orders take the book's last trade
/// price; two limit orders trade at the seller's price, and only if the
/// buyer's limit reaches it.
pub open spec fn execution_price(buy: Order, sell: Order, last_trade_price: u64) -> Option<u64> {
    match (buy.market_order_type, sell.market_order_type) {
        (MarketOrderType::Market, MarketOrderType::Limit) => Some(sell.price),
        (MarketOrderType::Limit, MarketOrderType::Market) => Some(buy.price),
        (MarketOrderType::Market, MarketOrderType::Market) => Some(last_trade_price),
        (MarketOrderType::Limit, MarketOrderType::Limit) => if buy.price >= sell.price {
            Some(sell.price)
        } else {
            None
        },
    }
}

/// Resolves the price two orders trade at.
pub fn resolve_execution_price(buy: &Order, sell: &Order, last_trade_price: u64) -> (price: Option<
    u64,
>)
    ensures
        price == execution_price(*buy, *sell, last_trade_price),
{
    match buy.market_order_type {
        MarketOrderType::Market => match sell.market_order_type {
            MarketOrderType::Limit => Some(sell.price),
            MarketOrderType::Market => Some(last_trade_price),
        },
        MarketOrderType::Limit => match sell.market_order_type {
            MarketOrderType::Market => Some(buy.price),
            MarketOrderType::Limit => {
                if buy.price >= sell.price {
                    Some(sell.price)
                } else {
                    None
                }
            },
        },
    }
}

/// Why a match is refused, if it is. The checks come in this order: the
/// platform is halted; the quantity is zero; an order is not the one named;
/// an order is no longer open; buyer and seller are the same user; the
/// quantity exceeds what remains of an order; the limit prices do not cross;
/// the amounts of the trade cannot be computed; a counter has run out.
pub open spec fn match_orders_error(
    platform: Platform,
    orderbook: Orderbook,
    buy_order: Order,
    sell_order: Order,
    buy_order_id: u64,
    sell_order_id: u64,
    amount: u64,
) -> Option<DefiTradingError> {
    let price = execution_price(buy_order, sell_order, orderbook.last_trade_price);
    if platform.is_paused {
        Some(DefiTradingError::PlatformPaused)
    } else if amount == 0 {
        Some(DefiTradingError::InvalidTradeAmount)
    } else if buy_order.id != buy_order_id || sell_order.id != sell_order_id {
        Some(DefiTradingError::OrderNotFound)
    } else if !buy_order.status.is_open() || !sell_order.status.is_open() {
        Some(DefiTradingError::OrderAlreadyFilled)
    } else if buy_order.user == sell_order.user {
        Some(DefiTradingError::SelfTrade)
    } else if amount > buy_order.remaining_amount || amount > sell_order.remaining_amount {
        Some(DefiTradingError::InvalidTradeAmount)
    } else if price is None {
        Some(DefiTradingError::PriceMismatch)
    } else if trade_amounts_error(amount, price->Some_0, platform.platform_fee) is Some {
        trade_amounts_error(amount, price->Some_0, platform.platform_fee)
    } else if platform.total_trades + 1 > u64::MAX || orderbook.total_volume + amount > u64::MAX {
        Some(DefiTradingError::ArithmeticOverflow)
    } else {
        None
    }
}

/// Everything a successful match leaves behind.
#[derive(Clone, Copy, Debug, PartialEq, Eq)]
pub struct MatchOutcome {
    pub platform: Platform,
    pub orderbook: Orderbook,
    pub buy_order: Order,
    pub sell_order: Order,
    pub execution: TradeExecution,
}

/// What a match that is not refused leaves behind: the trade, numbered one
/// past the platform's trade count; both orders filled by `amount`; the book
/// with the new last price and volume; and the settlement, drawn from each
/// order's escrow if it is a limit order and from its owner's account if it
/// is a market order.
pub open spec fn match_orders_outcome(
    platform: Platform,
    orderbook: Orderbook,
    buy_order: Order,
    sell_order: Order,
    amount: u64,
    now: i64,
) -> MatchOutcome {
    let price = execution_price(buy_order, sell_order, orderbook.last_trade_price)->Some_0;
    let amounts = trade_amounts_of(amount, price, platform.platform_fee);
    MatchOutcome {
        platform: Platform { total_trades: (platform.total_trades + 1) as u64, ..platform },
        orderbook: orderbook.after_trade(amount, price, now),
        buy_order: buy_order.after_fill(amount, now),
        sell_order: sell_order.after_fill(amount, now),
        execution: TradeExecution {
            trade: trade_record(
                (platform.total_trades + 1) as u64,
                buy_order,
                sell_order,
                orderbook.company_id,
                orderbook.token_mint,
                amount,
                price,
                amounts,
                now,
            ),
            seller_proceeds: amounts.seller_proceeds,
            payment_source: buy_order.market_order_type.funds_source(),
            token_source: sell_order.market_order_type.funds_source(),
        },
    }
}

/// Trades `amount` units between the two nominated orders.
///
/// The engine does not search the book: the caller names both orders. On
/// success the trade is recorded, both orders and the book are updated and
/// the result says what has to move. On failure nothing has changed.
pub fn match_orders(
    platform: &mut Platform,
    orderbook: &mut Orderbook,
    buy_order: &mut Order,
    sell_order: &mut Order,
    buy_order_id: u64,
    sell_order_id: u64,
    amount: u64,
    now: i64,
) -> (res: Result<TradeExecution, DefiTradingError>)
    ensures
        match match_orders_error(
            *old(platform),
            *old(orderbook),
            *old(buy_order),
            *old(sell_order),
            buy_order_id,
            sell_order_id,
            amount,
        ) {
            Some(e) => {
                &&& res == Err::<TradeExecution, DefiTradingError>(e)
                &&& *final(platform) == *old(platform)
                &&& *final(orderbook) == *old(orderbook)
                &&& *final(buy_order) == *old(buy_order)
                &&& *final(sell_order) == *old(sell_order)
            },
            None => {
                let outcome = match_orders_outcome(
                    *old(platform),
                    *old(orderbook),
                    *old(buy_order),
                    *old(sell_order),
                    amount,
                    now,
                );
                &&& res == Ok::<TradeExecution, DefiTradingError>(outcome.execution)
                &&& *final(platform) == outcome.platform
                &&& *final(orderbook) == outcome.orderbook
                &&& *final(buy_order) == outcome.buy_order
                &&& *final(sell_order) == outcome.sell_order
            },
        },
        old(buy_order).may_become(*final(buy_order)),
        old(sell_order).may_become(*final(sell_order)),
        old(buy_order).well_formed() ==> final(buy_order).well_formed(),
        old(sell_order).well_formed() ==> final(sell_order).well_formed(),
{
    if platform.is_paused {
        return Err(DefiTradingError::PlatformPaused);
    }
    if amount == 0 {
        return Err(DefiTradingError::InvalidTradeAmount);
    }
    if buy_order.id != buy_order_id || sell_order.id != sell_order_id {
        return Err(DefiTradingError::OrderNotFound);
    }
    if !buy_order.is_open() || !sell_order.is_open() {
        return Err(DefiTradingError::OrderAlreadyFilled);
    }
    if buy_order.user == sell_order.user {
        return Err(DefiTradingError::SelfTrade);
    }
    if amount > buy_order.remaining_amount || amount > sell_order.remaining_amount {
        return Err(DefiTradingError::InvalidTradeAmount);
    }
    let price: u64 = match resolve_execution_price(
        buy_order,
        sell_order,
        orderbook.last_trade_price,
    ) {
        Some(p) => p,
        None => {
            return Err(DefiTradingError::PriceMismatch);
        },
    };
    let amounts: TradeAmounts = trade_amounts(amount, price, platform.platform_fee)?;
    let trade_id: u64 = match platform.total_trades.checked_add(1) {
        Some(id) => id,
        None => {
            return Err(DefiTradingError::ArithmeticOverflow);
        },
    };
    let total_volume: u64 = match orderbook.total_volume.checked_add(amount) {
        Some(v) => v,
        None => {
            return Err(DefiTradingError::ArithmeticOverflow);
        },
    };
    let trade = Trade {
        id: trade_id,
        buyer: buy_order.user,
        seller: sell_order.user,
        company_id: orderbook.company_id,
        token_mint: orderbook.token_mint,
        amount,
        price,
        total_value: amounts.total_value,
        platform_fee: amounts.platform_fee,
        buy_order_id: buy_order.id,
        sell_order_id: sell_order.id,
        executed_at: now,
    };
    let execution = TradeExecution {
        trade,
        seller_proceeds: amounts.seller_proceeds,
        payment_source: buy_order.market_order_type.settles_from(),
        token_source: sell_order.market_order_type.settles_from(),
    };
    proof {
        Order::lemma_fill_advances(*buy_order, amount, now);
        Order::lemma_fill_advances(*sell_order, amount, now);
    }
    buy_order.fill(amount, now);
    sell_order.fill(amount, now);
    orderbook.last_trade_price = price;
    orderbook.total_volume = total_volume;
    orderbook.last_updated = now;
    platform.total_trades = trade_id;
    Ok(execution)
}

/// Why a depth snapshot is refused, if it is: the book is not that of the
/// company named.
pub open spec fn calculate_market_depth_error(orderbook: Orderbook, company_id: u64) -> Option<
    DefiTradingError,
> {
    if orderbook.company_id != company_id {
        Some(DefiTradingError::InvalidCompanyData)
    } else {
        None
    }
}

/// Opens the depth snapshot of the book stored under `orderbook_key`: no
/// price levels yet and no volume on either side.
pub fn calculate_market_depth(
    orderbook: &Orderbook,
    orderbook_key: Address,
    company_id: u64,
    now: i64,
) -> (res: Result<MarketDepth, DefiTradingError>)
    ensures
        match calculate_market_depth_error(*orderbook, company_id) {
            Some(e) => res == Err::<MarketDepth, DefiTradingError>(e),
            None => {
                &&& res matches Ok(depth)
                &&& depth.orderbook == orderbook_key
                &&& depth.price_levels@ == Seq::<PriceLevel>::empty()
                &&& depth.total_buy_volume == 0
                &&& depth.total_sell_volume == 0
                &&& depth.last_updated == now
            },
        },
{
    if orderbook.company_id != company_id {
        return Err(DefiTradingError::InvalidCompanyData);
    }
    Ok(
        MarketDepth {
            orderbook: orderbook_key,
            price_levels: Vec::new(),
            total_buy_volume: 0,
            total_sell_volume: 0,
            last_updated: now,
        },
    )
}

/// Every match conserves value: what the seller receives and what the
/// platform takes add up to what the buyer pays, which is quantity times
/// execution price, and the platform's fee is that value times the fee rate
/// over ten thousand, rounded down.
pub proof fn lemma_match_conserves_value(
    platform: Platform,
    orderbook: Orderbook,
    buy_order: Order,
    sell_order: Order,
    buy_order_id: u64,
    sell_order_id: u64,
    amount: u64,
    now: i64,
)
    requires
        match_orders_error(
            platform,
            orderbook,
            buy_order,
            sell_order,
            buy_order_id,
            sell_order_id,
            amount,
        ) is None,
    ensures
        ({
            let execution = match_orders_outcome(
                platform,
                orderbook,
                buy_order,
                sell_order,
                amount,
                now,
            ).execution;
            let trade = execution.trade;
            &&& trade.amount == amount
            &&& Some(trade.price) == execution_price(
                buy_order,
                sell_order,
                orderbook.last_trade_price,
            )
            &&& trade.total_value == trade.amount * trade.price
            &&& execution.seller_proceeds + trade.platform_fee == trade.total_value
            &&& trade.platform_fee == (trade.total_value * platform.platform_fee) / 10000
        }),
{
}

/// Open orders match, partially filled ones as well as active ones: between
/// two open orders of different users, for a positive quantity within what
/// remains of both, at a price the two kinds agree on, a match is accepted
/// whenever the amounts of the trade can be computed and the counters have
/// room. It takes the quantity off both orders and fills an order exactly
/// when nothing remains of it.
pub proof fn lemma_open_orders_match(
    platform: Platform,
    orderbook: Orderbook,
    buy_order: Order,
    sell_order: Order,
    amount: u64,
    now: i64,
)
    requires
        !platform.is_paused,
        buy_order.status.is_open(),
        sell_order.status.is_open(),
        buy_order.user != sell_order.user,
        0 < amount <= buy_order.remaining_amount,
        amount <= sell_order.remaining_amount,
        execution_price(buy_order, sell_order, orderbook.last_trade_price) is Some,
        trade_amounts_error(
            amount,
            execution_price(buy_order, sell_order, orderbook.last_trade_price)->Some_0,
            platform.platform_fee,
        ) is None,
        platform.total_trades + 1 <= u64::MAX,
        orderbook.total_volume + amount <= u64::MAX,
    ensures
        match_orders_error(
            platform,
            orderbook,
            buy_order,
            sell_order,
            buy_order.id,
            sell_order.id,
            amount,
        ) is None,
        ({
            let outcome = match_orders_outcome(
                platform,
                orderbook,
                buy_order,
                sell_order,
                amount,
                now,
            );
            &&& outcome.buy_order.remaining_amount == buy_order.remaining_amount - amount
            &&& outcome.sell_order.remaining_amount == sell_order.remaining_amount - amount
            &&& (outcome.buy_order.status is Filled <==> outcome.buy_order.remaining_amount == 0)
            &&& (outcome.sell_order.status is Filled <==> outcome.sell_order.remaining_amount == 0)
            &&& (outcome.buy_order.status is PartiallyFilled
                <==> outcome.buy_order.remaining_amount > 0)
            &&& (outcome.sell_order.status is PartiallyFilled
                <==> outcome.sell_order.remaining_amount > 0)
        }),
{
}

/// A match never trades through a limit: a limit buy order pays at most its
/// own price, so the trade draws no more from its escrow than the filled
/// quantity locked there, and a limit sell order is paid at least its own
/// price.
pub proof fn lemma_match_respects_limits(
    platform: Platform,
    orderbook: Orderbook,
    buy_order: Order,
    sell_order: Order,
    buy_order_id: u64,
    sell_order_id: u64,
    amount: u64,
    now: i64,
)
    requires
        match_orders_error(
            platform,
            orderbook,
            buy_order,
            sell_order,
            buy_order_id,
            sell_order_id,
            amount,
        ) is None,
    ensures
        ({
            let trade = match_orders_outcome(
                platform,
                orderbook,
                buy_order,
                sell_order,
                amount,
                now,
            ).execution.trade;
            &&& buy_order.market_order_type is Limit ==> trade.price <= buy_order.price
            &&& buy_order.market_order_type is Limit ==> trade.total_value <= trade_value(
                amount,
                buy_order.price,
            )
            &&& sell_order.market_order_type is Limit ==> trade.price >= sell_order.price
        }),
{
    let price = execution_price(buy_order, sell_order, orderbook.last_trade_price)->Some_0;
    if buy_order.market_order_type is Limit {
        assert(amount as int * price as int <= amount as int * buy_order.price as int)
            by (nonlinear_arith)
            requires
                0 <= amount,
                0 <= price <= buy_order.price,
        ;
    }
}

/// A match between two orders of the same user is refused whatever else
/// holds of it, and with the self-trade error once the platform runs, the
/// quantity is positive and both orders are the ones named and still open.
pub proof fn lemma_self_trade_rejected(
    platform: Platform,
    orderbook: Orderbook,
    buy_order: Order,
    sell_order: Order,
    buy_order_id: u64,
    sell_order_id: u64,
    amount: u64,
)
    requires
        buy_order.user == sell_order.user,
    ensures
        match_orders_error(
            platform,
            orderbook,
            buy_order,
            sell_order,
            buy_order_id,
            sell_order_id,
            amount,
        ) is Some,
        !platform.is_paused && amount > 0 && buy_order.id == buy_order_id && sell_order.id
            == sell_order_id && buy_order.status.is_open() && sell_order.status.is_open()
            ==> match_orders_error(
            platform,
            orderbook,
            buy_order,
            sell_order,
            buy_order_id,
            sell_order_id,
            amount,
        ) == Some(DefiTradingError::SelfTrade),
{
}

/// A match takes exactly `amount` off what remains of each order, moves
/// neither status back, fills an order exactly when nothing remains of it,
/// and keeps well-formed orders well formed.
pub proof fn lemma_match_advances_orders(
    platform: Platform,
    orderbook: Orderbook,
    buy_order: Order,
    sell_order: Order,
    buy_order_id: u64,
    sell_order_id: u64,
    amount: u64,
    now: i64,
)
    requires
        match_orders_error(
            platform,
            orderbook,
            buy_order,
            sell_order,
            buy_order_id,
            sell_order_id,
            amount,
        ) is None,
    ensures
        ({
            let outcome = match_orders_outcome(
                platform,
                orderbook,
                buy_order,
                sell_order,
                amount,
                now,
            );
            &&& outcome.buy_order.remaining_amount + amount == buy_order.remaining_amount
            &&& outcome.sell_order.remaining_amount + amount == sell_order.remaining_amount
            &&& buy_order.may_become(outcome.buy_order)
            &&& sell_order.may_become(outcome.sell_order)
            &&& (outcome.buy_order.status is Filled <==> outcome.buy_order.remaining_amount == 0)
            &&& (outcome.sell_order.status is Filled <==> outcome.sell_order.remaining_amount == 0)
            &&& (buy_order.well_formed() ==> outcome.buy_order.well_formed())
            &&& (sell_order.well_formed() ==> outcome.sell_order.well_formed())
        }),
{
    Order::lemma_fill_advances(buy_order, amount, now);
    Order::lemma_fill_advances(sell_order, amount, now);
}

/// A filled or cancelled order cannot be matched again.
pub proof fn lemma_closed_order_not_matched(
    platform: Platform,
    orderbook: Orderbook,
    buy_order: Order,
    sell_order: Order,
    buy_order_id: u64,
    sell_order_id: u64,
    amount: u64,
)
    requires
        buy_order.status.is_terminal() || sell_order.status.is_terminal(),
    ensures
        match_orders_error(
            platform,
            orderbook,
            buy_order,
            sell_order,
            buy_order_id,
            sell_order_id,
            amount,
        ) is Some,
{
}

/// A market order on a book without an opposing price is refused, a buy with
/// the best ask unset and a sell with the best bid unset: with the
/// no-liquidity error whenever the platform runs and the quantity is
/// positive, whatever the balances and the rest of the book.
pub proof fn lemma_market_order_needs_liquidity(
    platform: Platform,
    orderbook: Orderbook,
    order_type: OrderType,
    amount: u64,
    token_balance: u64,
    payment_balance: u64,
)
    requires
        orderbook.best_opposing_price(order_type) == 0,
    ensures
        create_market_order_error(
            platform,
            orderbook,
            order_type,
            amount,
            token_balance,
            payment_balance,
        ) is Some,
        !platform.is_paused && amount > 0 ==> create_market_order_error(
            platform,
            orderbook,
            order_type,
            amount,
            token_balance,
            payment_balance,
        ) == Some(DefiTradingError::NoLiquidity),
{
}

/// Counting an order moves the book's next id up by exactly one: ids on one
/// book never repeat.
pub proof fn lemma_order_ids_increase(orderbook: Orderbook, order_type: OrderType, now: i64)
    requires
        orderbook.next_order_id() <= u64::MAX,
    ensures
        orderbook.with_order_counted(order_type, now).next_order_id() == orderbook.next_order_id()
            + 1,
{
}

} // verus!
