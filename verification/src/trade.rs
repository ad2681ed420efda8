//! What a decision carries, and the order that the execution gateway places
//! for it.

use crate::policy_maker::PolicyDecision;
use vstd::prelude::*;

verus! {

/// The intent to buy `quantity` of `symbol` at `price`, taken at `timestamp`
/// (milliseconds since the Unix epoch).
#[derive(Clone, Debug)]
pub struct Buy<T> {
    pub symbol: String,
    pub quantity: T,
    pub price: T,
    pub timestamp: i64,
}

/// The intent to sell `quantity` of `symbol` at `price`, taken at `timestamp`
/// (milliseconds since the Unix epoch).
#[derive(Clone, Debug)]
pub struct Sell<T> {
    pub symbol: String,
    pub quantity: T,
    pub price: T,
    pub timestamp: i64,
}

/// The intent to do nothing about `symbol`, taken at `timestamp`
/// (milliseconds since the Unix epoch).
#[derive(Clone, Debug)]
pub struct Hold {
    pub symbol: String,
    pub timestamp: i64,
}

#[derive(Clone, Copy, Debug, PartialEq, Eq, Structural)]
pub enum OrderSide {
    Buy,
    Sell,
}

#[derive(Clone, Copy, Debug, PartialEq, Eq, Structural)]
pub enum OrderType {
    Limit,
    Market,
}

#[derive(Clone, Copy, Debug, PartialEq, Eq, Structural)]
pub enum TimeInForce {
    /// Good till cancelled.
    GTC,
    /// Immediate or cancel.
    IOC,
    /// Fill or kill.
    FOK,
}

/// An order as the exchange takes it.
#[derive(Clone, Debug)]
pub struct OrderRequest<T> {
    pub symbol: String,
    pub side: OrderSide,
    pub order_type: OrderType,
    pub time_in_force: Option<TimeInForce>,
    pub quantity: Option<T>,
    pub price: Option<T>,
}

/// The order of the given side that the gateway places: a limit order for
/// `quantity` at `price` that is filled at once and in full, or not at all.
pub open spec fn is_limit_fok<T>(
    order: OrderRequest<T>,
    side: OrderSide,
    symbol: Seq<char>,
    quantity: T,
    price: T,
) -> bool {
    &&& order.symbol@ == symbol
    &&& order.side == side
    &&& order.order_type == OrderType::Limit
    &&& order.time_in_force == Some(TimeInForce::FOK)
    &&& order.quantity == Some(quantity)
    &&& order.price == Some(price)
}

/// The order that buys `quantity` of `symbol` at `price`.
pub fn buy<T>(symbol: &str, quantity: T, price: T) -> (r: OrderRequest<T>)
    ensures
        is_limit_fok(r, OrderSide::Buy, symbol@, quantity, price),
{
    OrderRequest {
        symbol: symbol.to_owned(),
        side: OrderSide::Buy,
        order_type: OrderType::Limit,
        time_in_force: Some(TimeInForce::FOK),
        quantity: Some(quantity),
        price: Some(price),
    }
}

/// The order that sells `quantity` of `symbol` at `price`.
pub fn sell<T>(symbol: &str, quantity: T, price: T) -> (r: OrderRequest<T>)
    ensures
        is_limit_fok(r, OrderSide::Sell, symbol@, quantity, price),
{
    OrderRequest {
        symbol: symbol.to_owned(),
        side: OrderSide::Sell,
        order_type: OrderType::Limit,
        time_in_force: Some(TimeInForce::FOK),
        quantity: Some(quantity),
        price: Some(price),
    }
}

/// The execution gateway's side of the pipeline: it turns decisions into
/// orders. It keeps no state.
pub struct TradeActor {}

impl TradeActor {
    pub fn new() -> (r: Self) {
        TradeActor {  }
    }

    /// The order for a buy intent.
    pub fn buy<T: Copy>(&mut self, msg: &Buy<T>) -> (r: OrderRequest<T>)
        ensures
            is_limit_fok(r, OrderSide::Buy, msg.symbol@, msg.quantity, msg.price),
    {
        self::buy(msg.symbol.as_str(), msg.quantity, msg.price)
    }

    /// The order for a sell intent.
    pub fn sell<T: Copy>(&mut self, msg: &Sell<T>) -> (r: OrderRequest<T>)
        ensures
            is_limit_fok(r, OrderSide::Sell, msg.symbol@, msg.quantity, msg.price),
    {
        self::sell(msg.symbol.as_str(), msg.quantity, msg.price)
    }

    /// The order to place for `msg`: one for a buy, one for a sell, none for
    /// a hold.
    pub fn handle<T: Copy>(&mut self, msg: &PolicyDecision<T>) -> (r: Option<OrderRequest<T>>)
        ensures
            match *msg {
                PolicyDecision::BuyAction(buy) => r matches Some(order) && is_limit_fok(
                    order,
                    OrderSide::Buy,
                    buy.symbol@,
                    buy.quantity,
                    buy.price,
                ),
                PolicyDecision::SellAction(sell) => r matches Some(order) && is_limit_fok(
                    order,
                    OrderSide::Sell,
                    sell.symbol@,
                    sell.quantity,
                    sell.price,
                ),
                PolicyDecision::HoldAction(_) => r is None,
            },
    {
        match msg {
            PolicyDecision::BuyAction(buy) => Some(self.buy(buy)),
            PolicyDecision::SellAction(sell) => Some(self.sell(sell)),
            PolicyDecision::HoldAction(_) => None,
        }
    }
}

} // verus!
