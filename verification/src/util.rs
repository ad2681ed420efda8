//! The scalar messages that travel between the stages, and the shape in which
//! a stage reports one handled message.

use vstd::prelude::*;

verus! {

/// One value of a monitored series.
#[derive(Clone, Copy, Debug)]
pub struct Double<T>(pub T);

/// One realized return.
#[derive(Clone, Copy, Debug)]
pub struct Return<T>(pub T);

/// One published moving average.
#[derive(Clone, Copy, Debug)]
pub struct MovingAverageMessage<T>(pub T);

/// One published Sharpe ratio.
#[derive(Clone, Copy, Debug)]
pub struct SharpeRatio<T>(pub T);

/// What a stage hands back for one message: the reply to the sender, and the
/// message to forward to every subscriber, if this step publishes one.
#[derive(Clone, Debug)]
pub struct Handled<R, M> {
    pub response: R,
    pub published: Option<M>,
}

} // verus!
