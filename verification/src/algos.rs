//! Numerical building blocks shared by the stages.

pub mod amount;
pub mod root;
pub mod single_pass;
