//! The Sharpe stage, under the path of the risk statistics.

pub use crate::actors::risk::sharpe::{ReturnResponse, Sharpe, SharpeView};
