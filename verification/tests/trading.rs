use defi_trading_platform::{
    cancel_order, create_buy_order, create_sell_order, execute_trade, match_orders, Address,
    DefiTradingError, FundsSource, MarketOrderType, Order, OrderPlacement, OrderStatus, OrderType,
    Orderbook, Platform, Trade, TradeExecution,
};

fn key(tag: u8) -> Address {
    Address::new([tag; 32])
}

fn platform(total_trades: u64) -> Platform {
    Platform {
        authority: key(100),
        total_companies: 1,
        total_offerings: 0,
        total_trades,
        total_orders: 0,
        total_escrows: 0,
        platform_fee: 100,
        is_paused: false,
    }
}

fn resting(id: u64, user: Address, side: OrderType, amount: u64, price: u64) -> Order {
    Order {
        id,
        user,
        company_id: 4,
        token_mint: key(9),
        order_type: side,
        market_order_type: MarketOrderType::Limit,
        amount,
        remaining_amount: amount,
        price,
        status: OrderStatus::Active,
        created_at: 1_000,
        filled_at: None,
    }
}

#[test]
fn sell_order_is_numbered_off_the_order_counter() {
    let mut p = platform(3);
    p.total_orders = 6;
    let before = p;
    assert_eq!(
        create_sell_order(&mut p, 4, key(9), key(1), 100, 10, 100, 2_000),
        Ok(OrderPlacement {
            order: Order {
                id: 7,
                user: key(1),
                company_id: 4,
                token_mint: key(9),
                order_type: OrderType::Sell,
                market_order_type: MarketOrderType::Limit,
                amount: 100,
                remaining_amount: 100,
                price: 10,
                status: OrderStatus::Active,
                created_at: 2_000,
                filled_at: None,
            },
            escrow_amount: 100,
        })
    );
    // The platform counts the order and nothing else moves.
    assert_eq!(p, Platform { total_orders: 7, ..before });
}

#[test]
fn orders_placed_between_trades_get_ids_of_their_own() {
    let mut p = platform(3);
    let a = create_sell_order(&mut p, 4, key(9), key(1), 100, 10, 100, 1).unwrap().order;
    let b = create_buy_order(&mut p, 4, key(9), key(2), 50, 12, 600, 2).unwrap().order;
    let c = create_sell_order(&mut p, 4, key(9), key(1), 1, 1, 100, 3).unwrap().order;
    assert_eq!((a.id, b.id, c.id), (1, 2, 3));
    assert_eq!((p.total_orders, p.total_trades), (3, 3));
    // A trade moves the trade counter and leaves the order counter alone.
    let (mut sell, mut buy) = (a, b);
    let trade = execute_trade(&mut p, &mut sell, &mut buy, 1, 2, 50, 4).unwrap().trade;
    assert_eq!(trade.id, 4);
    assert_eq!((p.total_orders, p.total_trades), (3, 4));
    let d = create_buy_order(&mut p, 4, key(9), key(2), 1, 1, 1, 5).unwrap().order;
    assert_eq!(d.id, 4);
}

#[test]
fn buy_order_escrows_its_cost() {
    let mut p = platform(0);
    let placed = create_buy_order(&mut p, 4, key(9), key(2), 50, 12, 600, 2_000).unwrap();
    assert_eq!(p.total_orders, 1);
    assert_eq!(placed.escrow_amount, 600);
    assert_eq!(placed.order.id, 1);
    assert_eq!(placed.order.order_type, OrderType::Buy);
    assert_eq!(placed.order.market_order_type, MarketOrderType::Limit);
    assert_eq!(placed.order.price, 12);
    assert_eq!(placed.order.status, OrderStatus::Active);
}

#[test]
fn sell_order_refusals() {
    let mut p = platform(0);
    assert_eq!(
        create_sell_order(&mut p, 4, key(9), key(1), 0, 10, 100, 1),
        Err(DefiTradingError::InvalidOrderParams)
    );
    assert_eq!(
        create_sell_order(&mut p, 4, key(9), key(1), 10, 0, 100, 1),
        Err(DefiTradingError::InvalidOrderParams)
    );
    assert_eq!(
        create_sell_order(&mut p, 4, key(9), key(1), 101, 10, 100, 1),
        Err(DefiTradingError::InsufficientTokens)
    );
    assert_eq!(p, platform(0));
    p.total_orders = u64::MAX;
    assert_eq!(
        create_sell_order(&mut p, 4, key(9), key(1), 100, 10, 100, 1),
        Err(DefiTradingError::ArithmeticOverflow)
    );
    assert_eq!(p.total_orders, u64::MAX);
    p.is_paused = true;
    assert_eq!(
        create_sell_order(&mut p, 4, key(9), key(1), 0, 0, 0, 1),
        Err(DefiTradingError::PlatformPaused)
    );
}

#[test]
fn buy_order_refusals() {
    let mut p = platform(0);
    assert_eq!(
        create_buy_order(&mut p, 4, key(9), key(2), 0, 10, 100, 1),
        Err(DefiTradingError::InvalidOrderParams)
    );
    assert_eq!(
        create_buy_order(&mut p, 4, key(9), key(2), 10, 0, 100, 1),
        Err(DefiTradingError::InvalidOrderParams)
    );
    assert_eq!(
        create_buy_order(&mut p, 4, key(9), key(2), 50, 12, 599, 1),
        Err(DefiTradingError::InsufficientFunds)
    );
    assert_eq!(
        create_buy_order(&mut p, 4, key(9), key(2), u64::MAX, 2, u64::MAX, 1),
        Err(DefiTradingError::ArithmeticOverflow)
    );
    assert_eq!(p, platform(0));
    p.total_orders = u64::MAX;
    assert_eq!(
        create_buy_order(&mut p, 4, key(9), key(2), 50, 12, 600, 1),
        Err(DefiTradingError::ArithmeticOverflow)
    );
    p.is_paused = true;
    assert_eq!(
        create_buy_order(&mut p, 4, key(9), key(2), 50, 12, 600, 1),
        Err(DefiTradingError::PlatformPaused)
    );
}

#[test]
fn trade_executes_at_the_sellers_price() {
    let mut p = platform(3);
    let mut sell = resting(1, key(1), OrderType::Sell, 100, 10);
    let mut buy = resting(2, key(2), OrderType::Buy, 50, 12);
    assert_eq!(
        execute_trade(&mut p, &mut sell, &mut buy, 1, 2, 50, 3_000),
        Ok(TradeExecution {
            trade: Trade {
                id: 4,
                buyer: key(2),
                seller: key(1),
                company_id: 4,
                token_mint: key(9),
                amount: 50,
                price: 10,
                total_value: 500,
                platform_fee: 5,
                buy_order_id: 2,
                sell_order_id: 1,
                executed_at: 3_000,
            },
            seller_proceeds: 495,
            payment_source: FundsSource::Escrow,
            token_source: FundsSource::Escrow,
        })
    );
    assert_eq!((sell.status, sell.remaining_amount, sell.filled_at), (OrderStatus::PartiallyFilled, 50, None));
    assert_eq!((buy.status, buy.remaining_amount, buy.filled_at), (OrderStatus::Filled, 0, Some(3_000)));
    assert_eq!(p.total_trades, 4);
}

fn refused(
    p: Platform,
    sell: Order,
    buy: Order,
    sell_id: u64,
    buy_id: u64,
    amount: u64,
) -> DefiTradingError {
    let (mut p2, mut sell2, mut buy2) = (p, sell, buy);
    let err = execute_trade(&mut p2, &mut sell2, &mut buy2, sell_id, buy_id, amount, 99).unwrap_err();
    assert_eq!((p2, sell2, buy2), (p, sell, buy));
    err
}

#[test]
fn trade_refusals_come_in_order() {
    let sell = resting(1, key(1), OrderType::Sell, 100, 10);
    let buy = resting(2, key(2), OrderType::Buy, 50, 12);
    let mut paused = platform(0);
    paused.is_paused = true;
    assert_eq!(refused(paused, sell, buy, 1, 2, 0), DefiTradingError::PlatformPaused);
    assert_eq!(refused(platform(0), sell, buy, 1, 2, 0), DefiTradingError::InvalidTradeAmount);
    assert_eq!(refused(platform(0), sell, buy, 9, 2, 5), DefiTradingError::OrderNotFound);
    assert_eq!(refused(platform(0), sell, buy, 1, 9, 5), DefiTradingError::OrderNotFound);
    let mut done = sell;
    done.status = OrderStatus::Filled;
    done.remaining_amount = 0;
    assert_eq!(refused(platform(0), done, buy, 1, 2, 5), DefiTradingError::OrderAlreadyFilled);
    let own = resting(2, key(1), OrderType::Buy, 50, 12);
    assert_eq!(refused(platform(0), sell, own, 1, 2, 5), DefiTradingError::SelfTrade);
    let low = resting(2, key(2), OrderType::Buy, 50, 9);
    // The price is looked at before the quantity.
    assert_eq!(refused(platform(0), sell, low, 1, 2, 500), DefiTradingError::PriceMismatch);
    assert_eq!(refused(platform(0), sell, buy, 1, 2, 51), DefiTradingError::InvalidTradeAmount);
    assert_eq!(refused(platform(u64::MAX), sell, buy, 1, 2, 50), DefiTradingError::ArithmeticOverflow);
}

#[test]
fn both_trade_paths_agree_on_limit_orders() {
    let book = Orderbook {
        company_id: 4,
        token_mint: key(9),
        total_buy_orders: 1,
        total_sell_orders: 1,
        best_bid: 12,
        best_ask: 10,
        last_trade_price: 0,
        total_volume: 0,
        created_at: 0,
        last_updated: 0,
    };
    for (amount, sell_price, buy_price, bps) in
        [(50u64, 10u64, 12u64, 100u16), (1, 1, 1, 0), (77, 13, 900, 333), (100, 9, 9, 10_000)]
    {
        let mut plain = platform(5);
        plain.platform_fee = bps;
        let mut engine = plain;
        let mut book = book;
        let (mut s1, mut b1) = (
            resting(1, key(1), OrderType::Sell, 100, sell_price),
            resting(2, key(2), OrderType::Buy, 100, buy_price),
        );
        let (mut s2, mut b2) = (s1, b1);
        let traded = execute_trade(&mut plain, &mut s1, &mut b1, 1, 2, amount, 7).unwrap();
        let matched = match_orders(&mut engine, &mut book, &mut b2, &mut s2, 2, 1, amount, 7).unwrap();
        assert_eq!(traded, matched);
        assert_eq!((s1, b1, plain), (s2, b2, engine));
    }
}

#[test]
fn owner_cancels_an_active_order() {
    let mut o = resting(1, key(1), OrderType::Sell, 100, 10);
    assert_eq!(cancel_order(&mut o, key(1), 100), Ok(100));
    assert_eq!(o.status, OrderStatus::Cancelled);
    assert_eq!(o.remaining_amount, 100);
    assert_eq!(o.filled_at, None);
}

#[test]
fn cancelling_a_partially_filled_order_refunds_what_is_left() {
    let mut p = platform(0);
    let mut sell = resting(1, key(1), OrderType::Sell, 100, 10);
    let mut buy = resting(2, key(2), OrderType::Buy, 100, 12);
    execute_trade(&mut p, &mut sell, &mut buy, 1, 2, 40, 5).unwrap();
    // 60 units are left in the seller's escrow; 1200 - 400 in the buyer's.
    assert_eq!(cancel_order(&mut sell, key(1), 60), Ok(60));
    assert_eq!((sell.status, sell.remaining_amount), (OrderStatus::Cancelled, 60));
    assert_eq!(cancel_order(&mut buy, key(2), 800), Ok(800));
    assert_eq!((buy.status, buy.remaining_amount), (OrderStatus::Cancelled, 60));
}

#[test]
fn only_the_owner_cancels() {
    let mut o = resting(1, key(1), OrderType::Sell, 100, 10);
    let before = o;
    assert_eq!(cancel_order(&mut o, key(2), 100), Err(DefiTradingError::Unauthorized));
    assert_eq!(o, before);
}

#[test]
fn closed_orders_cannot_be_cancelled() {
    let mut filled = resting(1, key(1), OrderType::Sell, 100, 10);
    filled.status = OrderStatus::Filled;
    filled.remaining_amount = 0;
    filled.filled_at = Some(8);
    let before = filled;
    assert_eq!(cancel_order(&mut filled, key(1), 0), Err(DefiTradingError::OrderAlreadyCancelled));
    assert_eq!(filled, before);
    // Not even a stranger learns more than that the order is closed.
    assert_eq!(cancel_order(&mut filled, key(2), 0), Err(DefiTradingError::OrderAlreadyCancelled));
    assert_eq!(filled, before);

    let mut o = resting(1, key(1), OrderType::Sell, 100, 10);
    cancel_order(&mut o, key(1), 100).unwrap();
    let before = o;
    assert_eq!(cancel_order(&mut o, key(1), 100), Err(DefiTradingError::OrderAlreadyCancelled));
    assert_eq!(o, before);
}

#[test]
fn a_cancelled_order_cannot_be_traded() {
    let mut p = platform(0);
    let mut sell = resting(1, key(1), OrderType::Sell, 100, 10);
    let mut buy = resting(2, key(2), OrderType::Buy, 100, 12);
    cancel_order(&mut sell, key(1), 100).unwrap();
    assert_eq!(
        execute_trade(&mut p, &mut sell, &mut buy, 1, 2, 40, 5),
        Err(DefiTradingError::OrderAlreadyFilled)
    );
    assert_eq!(buy.remaining_amount, 100);
}

#[test]
fn remaining_quantity_only_goes_down() {
    let mut p = platform(0);
    let mut sell = resting(1, key(1), OrderType::Sell, 10, 10);
    let mut seen = vec![(sell.status, sell.remaining_amount)];
    for (i, take) in [3u64, 3, 3, 1].iter().enumerate() {
        let mut buy = resting(10 + i as u64, key(2), OrderType::Buy, *take, 10);
        execute_trade(&mut p, &mut sell, &mut buy, 1, 10 + i as u64, *take, i as i64).unwrap();
        seen.push((sell.status, sell.remaining_amount));
    }
    assert_eq!(
        seen,
        vec![
            (OrderStatus::Active, 10),
            (OrderStatus::PartiallyFilled, 7),
            (OrderStatus::PartiallyFilled, 4),
            (OrderStatus::PartiallyFilled, 1),
            (OrderStatus::Filled, 0),
        ]
    );
    assert_eq!(sell.filled_at, Some(3));
    assert_eq!(sell.order_type.label(), "Sell");
    assert_eq!(OrderType::Buy.label(), "Buy");
}

#[test]
fn the_plain_path_takes_no_market_orders() {
    let sell = resting(1, key(1), OrderType::Sell, 100, 10);
    let mut buy = resting(2, key(2), OrderType::Buy, 50, 12);
    buy.market_order_type = MarketOrderType::Market;
    assert_eq!(refused(platform(0), sell, buy, 1, 2, 5), DefiTradingError::InvalidOrderParams);
    let mut market_sell = sell;
    market_sell.market_order_type = MarketOrderType::Market;
    let buy = resting(2, key(2), OrderType::Buy, 50, 12);
    assert_eq!(refused(platform(0), market_sell, buy, 1, 2, 5), DefiTradingError::InvalidOrderParams);
}

#[test]
fn a_self_trade_is_refused_as_such_whatever_the_kind_of_the_orders() {
    let mut sell = resting(1, key(1), OrderType::Sell, 100, 10);
    let mut own = resting(2, key(1), OrderType::Buy, 50, 12);
    own.market_order_type = MarketOrderType::Market;
    assert_eq!(refused(platform(0), sell, own, 1, 2, 5), DefiTradingError::SelfTrade);
    sell.market_order_type = MarketOrderType::Market;
    assert_eq!(refused(platform(0), sell, own, 1, 2, 5), DefiTradingError::SelfTrade);
    // Nor do prices or quantities come before it.
    let low = resting(2, key(1), OrderType::Buy, 50, 1);
    let sell = resting(1, key(1), OrderType::Sell, 100, 10);
    assert_eq!(refused(platform(0), sell, low, 1, 2, 5_000), DefiTradingError::SelfTrade);
}
