//! The Sharpe stage: an online mean and spread of a return series, and their
//! ratio.
//!
//! The stage is cold for its first `N` returns, which it only buffers. The
//! next return makes it warm: mean and squared spread are computed once from
//! the buffer, which is then dropped. From then on each return updates both
//! in constant time.

use crate::algos::single_pass::{
    centered_squares_defined,
    centered_squares_of,
    copied,
    mean_centered_sum_squared,
    mean_defined,
    mean_spec,
    next_mean,
    sum,
    sum_defined,
    sum_of,
    Sqrt,
    Zero,
};
use crate::util::Handled;
pub use crate::util::{Return, SharpeRatio};
use core::ops::{Add, Div, Mul, Sub};
use vstd::prelude::*;
use vstd::std_specs::convert::FromSpec;
use vstd::std_specs::ops::{AddSpec, DivSpec, MulSpec, SubSpec};

verus! {

/// The reply of the Sharpe stage: the ratio, once there is one.
#[derive(Clone, Copy, Debug)]
pub enum ReturnResponse<T> {
    SharpeRatio(Option<T>),
}

/// What a Sharpe stage holds.
pub struct SharpeView<T> {
    /// The running mean; zero while cold.
    pub mean: T,
    /// The running sum of squared distances from the mean; zero while cold.
    pub s_squared: T,
    /// The returns seen, counted up to `window_size + 1`.
    pub cold_count: nat,
    /// The returns buffered while cold, oldest first.
    pub buffer: Seq<T>,
    /// The window size `N`.
    pub window_size: u32,
}

/// `mean / (sqrt(s_squared) / (N - 1))`, in the arithmetic of `T`.
///
/// For a window of one the divisor `N - 1` is zero. Nothing is put in its
/// place: the ratio is then what `T` makes of a division by zero, and
/// `ratio_defined` rules the step out for a `T` that cannot divide by zero.
pub open spec fn ratio_spec<T>(mean: T, s_squared: T, window_size: u32) -> T where
    T: Div<Output = T> + Sqrt + From<u32>,
 {
    mean.div_spec(s_squared.sqrt_spec().div_spec(T::from_spec((window_size - 1) as u32)))
}

/// The root and both divisions of `ratio_spec` are within what `T` can
/// compute.
pub open spec fn ratio_defined<T>(mean: T, s_squared: T, window_size: u32) -> bool where
    T: Div<Output = T> + Sqrt + From<u32>,
 {
    let spread = s_squared.sqrt_spec().div_spec(T::from_spec((window_size - 1) as u32));
    &&& s_squared.sqrt_req()
    &&& s_squared.sqrt_spec().div_req(T::from_spec((window_size - 1) as u32))
    &&& mean.div_req(spread)
}

impl<T> SharpeView<T> where
    T: Add<Output = T> + Sub<Output = T> + Mul<Output = T> + Div<Output = T> + Sqrt + Zero + Copy
        + From<u32>,
 {
    /// Fewer than `N` returns have been seen: the next one is only buffered.
    pub open spec fn is_cold(self) -> bool {
        self.cold_count < self.window_size
    }

    /// Exactly `N` returns have been seen: the next step computes mean and
    /// spread from the buffer.
    pub open spec fn at_boundary(self) -> bool {
        self.cold_count == self.window_size
    }

    /// The mean after the next return `new`.
    pub open spec fn mean_after(self, new: T) -> T {
        if self.is_cold() {
            self.mean
        } else if self.at_boundary() {
            sum_of(self.buffer).div_spec(T::from_spec(self.window_size))
        } else {
            mean_spec(self.mean, new, self.window_size)
        }
    }

    /// The squared spread after the next return `new`.
    pub open spec fn s_squared_after(self, new: T) -> T {
        if self.is_cold() {
            self.s_squared
        } else if self.at_boundary() {
            centered_squares_of(self.buffer, self.mean_after(new))
        } else {
            self.s_squared.add_spec(
                new.sub_spec(self.mean).mul_spec(new.sub_spec(self.mean_after(new))),
            )
        }
    }

    /// The state after the next return `new`.
    pub open spec fn step(self, new: T) -> Self {
        SharpeView {
            mean: self.mean_after(new),
            s_squared: self.s_squared_after(new),
            cold_count: if self.cold_count <= self.window_size {
                self.cold_count + 1
            } else {
                self.cold_count
            },
            buffer: if self.is_cold() {
                self.buffer.push(new)
            } else {
                Seq::empty()
            },
            window_size: self.window_size,
        }
    }

    /// The ratio that the next return `new` yields: none while cold.
    pub open spec fn ratio_after(self, new: T) -> Option<T> {
        if self.is_cold() {
            None
        } else {
            Some(ratio_spec(self.mean_after(new), self.s_squared_after(new), self.window_size))
        }
    }

    /// The state of a stage over `window_size` returns that has seen none.
    pub open spec fn fresh(window_size: u32) -> Self {
        SharpeView {
            mean: T::zero_spec(),
            s_squared: T::zero_spec(),
            cold_count: 0,
            buffer: Seq::empty(),
            window_size,
        }
    }

    /// The state after `returns` have been taken in, first to last.
    pub open spec fn run(self, series: Seq<T>) -> Self
        decreases series.len(),
    {
        if series.len() == 0 {
            self
        } else {
            self.run(series.drop_last()).step(series.last())
        }
    }

    /// A cold stage only buffers. Up to `N` returns into a fresh stage leave
    /// mean and squared spread at zero, the buffer holds exactly these
    /// returns, in order, and none of them yields a ratio.
    pub proof fn lemma_cold_stage_only_buffers(window_size: u32, series: Seq<T>)
        requires
            series.len() <= window_size,
        ensures
            Self::fresh(window_size).run(series) == (SharpeView {
                cold_count: series.len(),
                buffer: series,
                ..Self::fresh(window_size)
            }),
            forall|i: int|
                0 <= i < series.len() ==> Self::fresh(window_size).run(
                    #[trigger] series.take(i),
                ).ratio_after(series[i]) is None,
        decreases series.len(),
    {
        if series.len() > 0 {
            let earlier = series.drop_last();
            Self::lemma_cold_stage_only_buffers(window_size, earlier);
            assert(earlier.push(series.last()) == series);
            assert forall|i: int| 0 <= i < series.len() implies Self::fresh(window_size).run(
                #[trigger] series.take(i),
            ).ratio_after(series[i]) is None by {
                if i < earlier.len() {
                    assert(earlier.take(i) == series.take(i));
                } else {
                    assert(series.take(i) == earlier);
                }
            }
        } else {
            assert(Self::fresh(window_size).buffer == series);
        }
    }

    /// Warming up uses the buffer alone. The return that follows the first
    /// `N` makes a fresh stage warm: the mean is the sum of those `N` over
    /// `N`, the squared spread is their summed squared distance from that
    /// mean, and the ratio of the two is the first one given. The return that
    /// triggers this is itself not counted.
    pub proof fn lemma_warm_up_uses_the_buffer_alone(window_size: u32, series: Seq<T>, next: T)
        requires
            window_size >= 1,
            series.len() == window_size,
        ensures
            ({
                let mean = sum_of(series).div_spec(T::from_spec(window_size));
                let s_squared = centered_squares_of(series, mean);
                &&& Self::fresh(window_size).run(series).step(next) == (SharpeView {
                    mean,
                    s_squared,
                    cold_count: (window_size + 1) as nat,
                    buffer: Seq::empty(),
                    window_size,
                })
                &&& Self::fresh(window_size).run(series).ratio_after(next) == Some(
                    ratio_spec(mean, s_squared, window_size),
                )
            }),
    {
        Self::lemma_cold_stage_only_buffers(window_size, series);
    }

    /// Every operation of the next step is within what `T` can compute.
    pub open spec fn step_defined(self, new: T) -> bool {
        if self.is_cold() {
            true
        } else if self.at_boundary() {
            &&& sum_defined(self.buffer)
            &&& sum_of(self.buffer).div_req(T::from_spec(self.window_size))
            &&& centered_squares_defined(self.buffer, self.mean_after(new))
            &&& ratio_defined(self.mean_after(new), self.s_squared_after(new), self.window_size)
        } else {
            let before = new.sub_spec(self.mean);
            let after = new.sub_spec(self.mean_after(new));
            &&& mean_defined(self.mean, new, self.window_size)
            &&& new.sub_req(self.mean)
            &&& new.sub_req(self.mean_after(new))
            &&& before.mul_req(after)
            &&& self.s_squared.add_req(before.mul_spec(after))
            &&& ratio_defined(self.mean_after(new), self.s_squared_after(new), self.window_size)
        }
    }
}

/// The Sharpe stage.
pub struct Sharpe<T> {
    mean: T,
    s_squared: T,
    cold_count: u64,
    init_buffer: Option<Vec<T>>,
    window_size: u32,
}

impl<T> View for Sharpe<T> {
    type V = SharpeView<T>;

    closed spec fn view(&self) -> SharpeView<T> {
        SharpeView {
            mean: self.mean,
            s_squared: self.s_squared,
            cold_count: self.cold_count as nat,
            buffer: match self.init_buffer {
                Some(buffer) => buffer@,
                None => Seq::empty(),
            },
            window_size: self.window_size,
        }
    }
}

impl<T> Sharpe<T> where
    T: Add<Output = T> + Sub<Output = T> + Mul<Output = T> + Div<Output = T> + Sqrt + Zero + Copy
        + From<u32>,
 {
    /// The window is at least one return wide; while cold the buffer holds
    /// every return seen so far; once warm the buffer is gone and the count
    /// stays at `N + 1`.
    pub open spec fn wf(&self) -> bool {
        &&& self@.window_size >= 1
        &&& self@.cold_count <= self@.window_size + 1
        &&& self@.cold_count <= self@.window_size ==> self@.buffer.len() == self@.cold_count
        &&& self@.cold_count > self@.window_size ==> self@.buffer.len() == 0
    }

    /// `mean / (sqrt(s_squared) / (N - 1))` of the current state.
    fn ratio(&self) -> (r: T)
        requires
            self.window_size >= 1,
            T::obeys_div_spec(),
            T::obeys_from_spec(),
            ratio_defined(self.mean, self.s_squared, self.window_size),
        ensures
            r == ratio_spec(self.mean, self.s_squared, self.window_size),
    {
        self.mean / (self.s_squared.sqrt() / T::from(self.window_size - 1))
    }

    /// The window size `N`.
    pub fn window_size(&self) -> (r: u32)
        ensures
            r == self@.window_size,
    {
        self.window_size
    }

    /// The running mean; zero while cold.
    pub fn mean(&self) -> (r: T)
        ensures
            r == self@.mean,
    {
        self.mean
    }

    /// The running sum of squared distances from the mean; zero while cold.
    pub fn s_squared(&self) -> (r: T)
        ensures
            r == self@.s_squared,
    {
        self.s_squared
    }

    /// A cold stage over a window of `window_size` returns. A window of no
    /// returns is refused.
    pub fn new(window_size: u32) -> (r: Option<Self>)
        ensures
            r is None <==> window_size < 1,
            r matches Some(stage) ==> {
                &&& stage.wf()
                &&& stage@ == SharpeView::<T>::fresh(window_size)
            },
    {
        if window_size < 1 {
            None
        } else {
            Some(
                Sharpe {
                    mean: T::zero(),
                    s_squared: T::zero(),
                    cold_count: 0,
                    init_buffer: None,
                    window_size,
                },
            )
        }
    }

    /// Takes in one return and gives the ratio, once warm.
    ///
    /// While fewer than `N` returns have been seen, `new` is buffered and
    /// there is no ratio. The step after the `N`-th computes mean and squared
    /// spread from the buffer alone. Every later step moves the mean by
    /// `(new - mean) / N` and adds `(new - old mean) * (new - new mean)` to the
    /// squared spread.
    pub fn update(&mut self, new: T) -> (r: Option<T>)
        requires
            old(self).wf(),
            T::obeys_add_spec(),
            T::obeys_sub_spec(),
            T::obeys_mul_spec(),
            T::obeys_div_spec(),
            T::obeys_from_spec(),
            old(self)@.step_defined(new),
        ensures
            final(self).wf(),
            final(self)@ == old(self)@.step(new),
            r == old(self)@.ratio_after(new),
    {
        let count = self.cold_count;
        if count > self.window_size as u64 {
            let mean_1 = self.mean;
            self.mean = next_mean(self.mean, new, self.window_size);
            self.s_squared = self.s_squared + (new - mean_1) * (new - self.mean);
            assert(self@.buffer =~= Seq::empty());
            Some(self.ratio())
        } else if count == self.window_size as u64 {
            let x = self.init_buffer.take().expect("returns");
            self.mean = sum(copied(&x).into_iter()) / T::from(self.window_size);
            self.s_squared = mean_centered_sum_squared(x.into_iter(), self.mean);
            self.cold_count = count + 1;
            Some(self.ratio())
        } else {
            let mut buffer = match self.init_buffer.take() {
                Some(buffer) => buffer,
                None => Vec::with_capacity(self.window_size as usize),
            };
            buffer.push(new);
            self.init_buffer = Some(buffer);
            self.cold_count = count + 1;
            assert(self@.buffer =~= old(self)@.buffer.push(new));
            None
        }
    }

    /// Takes in one return message. The reply carries the ratio, if there is
    /// one; a ratio is also the message to forward.
    pub fn handle(&mut self, msg: Return<T>) -> (out: Handled<ReturnResponse<T>, SharpeRatio<T>>)
        requires
            old(self).wf(),
            T::obeys_add_spec(),
            T::obeys_sub_spec(),
            T::obeys_mul_spec(),
            T::obeys_div_spec(),
            T::obeys_from_spec(),
            old(self)@.step_defined(msg.0),
        ensures
            final(self).wf(),
            final(self)@ == old(self)@.step(msg.0),
            out.response == ReturnResponse::SharpeRatio(old(self)@.ratio_after(msg.0)),
            out.published == match old(self)@.ratio_after(msg.0) {
                Some(ratio) => Some(SharpeRatio(ratio)),
                None => None,
            },
    {
        match self.update(msg.0) {
            Some(ratio) => Handled {
                response: ReturnResponse::SharpeRatio(Some(ratio)),
                published: Some(SharpeRatio(ratio)),
            },
            None => Handled { response: ReturnResponse::SharpeRatio(None), published: None },
        }
    }
}

} // verus!
