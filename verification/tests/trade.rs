use engine_rs::policy_maker::PolicyDecision;
use engine_rs::trade::{buy, sell, Buy, Hold, OrderSide, OrderType, Sell, TimeInForce, TradeActor};

#[test]
fn buy_is_a_limit_order_filled_or_killed() {
    let order = buy("BTCUSDT", 1i64, 10_000i64);
    assert_eq!(order.symbol, "BTCUSDT");
    assert_eq!(order.side, OrderSide::Buy);
    assert_eq!(order.order_type, OrderType::Limit);
    assert_eq!(order.time_in_force, Some(TimeInForce::FOK));
    assert_eq!(order.quantity, Some(1));
    assert_eq!(order.price, Some(10_000));
}

#[test]
fn sell_is_a_limit_order_filled_or_killed() {
    let order = sell("BTCUSDT", 2i64, 9_000i64);
    assert_eq!(order.symbol, "BTCUSDT");
    assert_eq!(order.side, OrderSide::Sell);
    assert_eq!(order.order_type, OrderType::Limit);
    assert_eq!(order.time_in_force, Some(TimeInForce::FOK));
    assert_eq!(order.quantity, Some(2));
    assert_eq!(order.price, Some(9_000));
}

#[test]
fn gateway_orders_for_a_buy_intent() {
    let mut gateway = TradeActor::new();
    let intent = Buy { symbol: "ETHUSDT".to_string(), quantity: 3u64, price: 2_000u64, timestamp: 7 };
    let order = gateway.buy(&intent);
    assert_eq!(order.symbol, "ETHUSDT");
    assert_eq!(order.side, OrderSide::Buy);
    assert_eq!(order.quantity, Some(3));
    assert_eq!(order.price, Some(2_000));
}

#[test]
fn gateway_orders_for_a_sell_intent() {
    let mut gateway = TradeActor::new();
    let intent = Sell { symbol: "ETHUSDT".to_string(), quantity: 4u64, price: 1_900u64, timestamp: 8 };
    let order = gateway.sell(&intent);
    assert_eq!(order.symbol, "ETHUSDT");
    assert_eq!(order.side, OrderSide::Sell);
    assert_eq!(order.quantity, Some(4));
    assert_eq!(order.price, Some(1_900));
}

#[test]
fn gateway_dispatches_on_the_decision() {
    let mut gateway = TradeActor::new();

    let bought = gateway
        .handle(&PolicyDecision::BuyAction(Buy {
            symbol: "BTCUSDT".to_string(),
            quantity: 1i64,
            price: 10_000i64,
            timestamp: 1,
        }))
        .unwrap();
    assert_eq!(bought.side, OrderSide::Buy);
    assert_eq!(bought.symbol, "BTCUSDT");
    assert_eq!(bought.price, Some(10_000));
    assert_eq!(bought.time_in_force, Some(TimeInForce::FOK));

    let sold = gateway
        .handle(&PolicyDecision::SellAction(Sell {
            symbol: "BTCUSDT".to_string(),
            quantity: 1i64,
            price: 9_000i64,
            timestamp: 2,
        }))
        .unwrap();
    assert_eq!(sold.side, OrderSide::Sell);
    assert_eq!(sold.price, Some(9_000));
    assert_eq!(sold.order_type, OrderType::Limit);

    let held = gateway.handle(&PolicyDecision::<i64>::HoldAction(Hold {
        symbol: "BTCUSDT".to_string(),
        timestamp: 3,
    }));
    assert!(held.is_none());
}
