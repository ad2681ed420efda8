//! The quote event as the pipeline receives it.

use vstd::prelude::*;

verus! {

/// A best-bid / best-ask update for one symbol.
#[derive(Clone, Debug)]
pub struct TickerMessage<T> {
    pub update_id: u64,
    pub symbol: String,
    pub best_bid_price: T,
    pub best_bid_qty: T,
    pub best_ask_price: T,
    pub best_ask_qty: T,
}

} // verus!
