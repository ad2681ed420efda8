//! The signal stages: each owns its state and handles one message at a time.

pub mod mid_price;
pub mod moving_average;
pub mod risk;
