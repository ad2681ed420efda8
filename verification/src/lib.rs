//! Streaming market analytics and a trend-following decision engine.
//!
//! Every stage is generic over the number type `T` it computes with. The
//! contracts are stated over what `vstd` says of the operators of `core::ops`
//! and `core::cmp` (`add_spec`, `div_spec`, `is_gt`, ...), so they hold for
//! every `T` whose operators obey it (`T::obeys_add_spec()` and the like).
//! Where an operation can fail on some values of `T`, as a sum that
//! overflows, a stage asks in its `requires` that each operation of the step
//! is defined (`add_req`, `div_req`, ...).
//!
//! The built-in unsigned integers of 64 and 128 bits meet all of this, and so
//! does [`algos::amount::Amount`], the library's own signed number type.
//!
//! A stage only computes. For each message it hands back the reply and the
//! message to publish; sending that to subscribers is left to the caller.

pub mod actors;
pub mod algos;
pub mod binance_websocket;
pub mod policy_maker;
pub mod risk;
pub mod trade;
pub mod util;
