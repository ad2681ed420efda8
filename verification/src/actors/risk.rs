//! Risk statistics over a return series.

pub mod sharpe;
