//! The mid-price stage: one quote in, one mid-price signal out.

use crate::algos::amount::{quotient, Amount};
use crate::binance_websocket::TickerMessage;
use crate::util::Handled;
use core::ops::{Add, Div};
use vstd::prelude::*;
use vstd::std_specs::convert::FromSpec;
use vstd::std_specs::ops::{AddSpec, DivSpec};

verus! {

/// The mid-price of one symbol.
#[derive(Clone, Debug)]
pub struct MidPrice<T> {
    pub price: T,
    pub symbol: String,
}

/// The reply of a stage that consumes mid-prices.
#[derive(Clone, Copy, Debug)]
pub enum MidPriceResponse<T> {
    MovingAverage(T),
}

/// The stage that turns quotes into mid-prices. It keeps no state.
pub struct MidPriceActor {}

/// `(bid + ask) / 2`, in the arithmetic of `T`.
pub open spec fn mid_price_spec<T>(bid: T, ask: T) -> T where
    T: Add<Output = T> + Div<Output = T> + From<u32>,
 {
    bid.add_spec(ask).div_spec(T::from_spec(2u32))
}

/// Both operations of `mid_price_spec` are within what `T` can compute.
pub open spec fn mid_price_defined<T>(bid: T, ask: T) -> bool where
    T: Add<Output = T> + Div<Output = T> + From<u32>,
 {
    &&& bid.add_req(ask)
    &&& bid.add_spec(ask).div_req(T::from_spec(2u32))
}

/// The price half-way between `bid` and `ask`.
pub fn mid_price<T>(bid: T, ask: T) -> (r: T) where
    T: Add<Output = T> + Div<Output = T> + From<u32>,

    requires
        T::obeys_add_spec(),
        T::obeys_div_spec(),
        T::obeys_from_spec(),
        mid_price_defined(bid, ask),
    ensures
        r == mid_price_spec(bid, ask),
{
    (bid + ask) / T::from(2u32)
}

/// The mid-price is a function of the best bid and the best ask alone: two
/// quotes that agree on these two have the same mid-price, and it is defined
/// for both or for neither, whatever their symbols, quantities and update ids
/// are and whatever was handled before.
pub proof fn lemma_mid_price_depends_on_bid_and_ask_alone<T>(
    one: TickerMessage<T>,
    other: TickerMessage<T>,
) where T: Add<Output = T> + Div<Output = T> + From<u32>
    requires
        one.best_bid_price == other.best_bid_price,
        one.best_ask_price == other.best_ask_price,
    ensures
        mid_price_spec(one.best_bid_price, one.best_ask_price) == mid_price_spec(
            other.best_bid_price,
            other.best_ask_price,
        ),
        mid_price_defined(one.best_bid_price, one.best_ask_price) == mid_price_defined(
            other.best_bid_price,
            other.best_ask_price,
        ),
{
}

/// Over whole amounts the mid-price of a bid and an ask in range is defined:
/// it is half their sum, rounded towards zero, and lies between the two.
pub proof fn lemma_mid_price_of_amounts(bid: Amount, ask: Amount)
    requires
        bid.in_range(),
        ask.in_range(),
    ensures
        mid_price_defined(bid, ask),
        mid_price_spec(bid, ask).0 == quotient(bid.0 + ask.0, 2),
        bid.0 <= ask.0 ==> bid.0 <= mid_price_spec(bid, ask).0 <= ask.0,
        ask.0 <= bid.0 ==> ask.0 <= mid_price_spec(bid, ask).0 <= bid.0,
{
}

impl MidPriceActor {
    pub fn new() -> (r: Self) {
        MidPriceActor {  }
    }

    /// Derives the mid-price of `msg`. The reply is the price; the signal to
    /// forward carries the price and the quote's symbol.
    pub fn handle<T>(&mut self, msg: TickerMessage<T>) -> (out: Handled<T, MidPrice<T>>) where
        T: Add<Output = T> + Div<Output = T> + From<u32> + Copy,

        requires
            T::obeys_add_spec(),
            T::obeys_div_spec(),
            T::obeys_from_spec(),
            mid_price_defined(msg.best_bid_price, msg.best_ask_price),
        ensures
            out.response == mid_price_spec(msg.best_bid_price, msg.best_ask_price),
            out.published == Some(MidPrice { price: out.response, symbol: msg.symbol }),
    {
        let price = mid_price(msg.best_bid_price, msg.best_ask_price);
        Handled { response: price, published: Some(MidPrice { price, symbol: msg.symbol }) }
    }
}

} // verus!
