//! The moving-average stage: the mean of the last `N` mid-prices.
//!
//! The window is a buffer of exactly `N` slots. The stage counts the prices it
//! takes in: until it has `N` of them it is warming up, the slots not yet
//! filled hold zero, and zero is what it reports. A price of zero is a price
//! like any other.

use crate::actors::mid_price::{MidPrice, MidPriceResponse};
use crate::algos::single_pass::{copied, sum, sum_defined, sum_of, Zero};
use crate::util::{Handled, MovingAverageMessage};
use core::ops::{Add, Div};
use vstd::prelude::*;
use vstd::std_specs::convert::FromSpec;
use vstd::std_specs::ops::{AddSpec, DivSpec};

verus! {

/// A window of `n` slots, none of them filled: every slot holds zero.
pub open spec fn blank_window<T: Zero>(n: nat) -> Seq<T> {
    Seq::new(n, |i: int| T::zero_spec())
}

/// What a moving-average stage holds: the window, oldest slot first, the
/// number of prices taken in so far, counted up to the window size, and the
/// average it published last (zero before the first one).
pub struct MovingAverageView<T> {
    pub window: Seq<T>,
    pub filled: nat,
    pub average: T,
}

impl<T> MovingAverageView<T> where T: Add<Output = T> + Div<Output = T> + Zero + Copy + From<u32> {
    /// The state of a stage over `n` slots that has taken in no price.
    pub open spec fn fresh(n: nat) -> Self {
        MovingAverageView { window: blank_window::<T>(n), filled: 0, average: T::zero_spec() }
    }

    /// The window has at least one slot, no more slots are filled than there
    /// are, and every slot that is not yet filled holds zero.
    pub open spec fn wf(self) -> bool {
        &&& self.window.len() >= 1
        &&& self.filled <= self.window.len()
        &&& forall|i: int| self.filled <= i < self.window.len() ==> self.window[i] == T::zero_spec()
    }

    /// The window size as a value of `T`.
    pub open spec fn divisor(self) -> T {
        T::from_spec(self.window.len() as u32)
    }

    /// The next price is the `N`-th or a later one, so an average is
    /// published. Before that the stage is warming up.
    pub open spec fn publishes(self) -> bool {
        self.filled + 1 >= self.window.len()
    }

    /// The window after `price` has been taken in: `price` fills the first
    /// free slot while there is one; after that the oldest slot leaves and
    /// `price` enters at the end.
    pub open spec fn window_after(self, price: T) -> Seq<T> {
        if self.filled < self.window.len() {
            self.window.update(self.filled as int, price)
        } else {
            self.window.drop_first().push(price)
        }
    }

    /// The number of prices taken in after one more, counted up to the
    /// window size.
    pub open spec fn filled_after(self) -> nat {
        if self.filled < self.window.len() {
            self.filled + 1
        } else {
            self.filled
        }
    }

    /// The average after `price` has been taken in: the sum of all slots over
    /// their number once the stage publishes, unchanged before.
    pub open spec fn average_after(self, price: T) -> T {
        if self.publishes() {
            sum_of(self.window_after(price)).div_spec(self.divisor())
        } else {
            self.average
        }
    }

    /// The sum and the division of `average_after` are within what `T` can
    /// compute.
    pub open spec fn step_defined(self, price: T) -> bool {
        self.publishes() ==> {
            &&& sum_defined(self.window_after(price))
            &&& sum_of(self.window_after(price)).div_req(self.divisor())
        }
    }

    /// The state after `price` has been taken in.
    pub open spec fn step(self, price: T) -> Self {
        MovingAverageView {
            window: self.window_after(price),
            filled: self.filled_after(),
            average: self.average_after(price),
        }
    }

    /// The state after `prices` have been taken in, first to last.
    pub open spec fn run(self, prices: Seq<T>) -> Self
        decreases prices.len(),
    {
        if prices.len() == 0 {
            self
        } else {
            self.run(prices.drop_last()).step(prices.last())
        }
    }

    /// A step keeps a state well-formed and its window at its size.
    pub proof fn lemma_step_keeps_wf(self, price: T)
        requires
            self.wf(),
        ensures
            self.step(price).wf(),
            self.step(price).window.len() == self.window.len(),
    {
    }

    /// The window holds the latest prices and nothing else. Take `prices`,
    /// whatever they are, into a fresh stage of `n` slots: after fewer than
    /// `n` of them the window holds them all, in order, ahead of the slots
    /// still blank, and no average has been published; from the `n`-th on
    /// the window is exactly the last `n` prices, oldest first, and the
    /// average is their sum over `n`.
    pub proof fn lemma_window_holds_latest_prices(n: nat, prices: Seq<T>)
        requires
            n >= 1,
        ensures
            Self::fresh(n).run(prices).wf(),
            Self::fresh(n).run(prices).window.len() == n,
            prices.len() < n ==> Self::fresh(n).run(prices) == (MovingAverageView {
                window: prices + blank_window::<T>((n - prices.len()) as nat),
                filled: prices.len(),
                average: T::zero_spec(),
            }),
            prices.len() >= n ==> {
                let latest = prices.subrange(prices.len() - n, prices.len() as int);
                Self::fresh(n).run(prices) == (MovingAverageView {
                    window: latest,
                    filled: n,
                    average: sum_of(latest).div_spec(T::from_spec(n as u32)),
                })
            },
        decreases prices.len(),
    {
        let k = prices.len();
        if k == 0 {
            assert(blank_window::<T>(n) == prices + blank_window::<T>(n));
        } else {
            let earlier = prices.drop_last();
            let price = prices.last();
            Self::lemma_window_holds_latest_prices(n, earlier);
            let before = Self::fresh(n).run(earlier);
            if k - 1 < n {
                assert(before.window_after(price) == prices + blank_window::<T>((n - k) as nat));
                if k == n {
                    assert(prices + blank_window::<T>(0) == prices.subrange(0, k as int));
                }
            } else {
                assert(before.window_after(price) == prices.subrange(k - n, k as int));
            }
        }
    }

    /// A message is published from the `n`-th price on, and for no price
    /// before it: the price at position `i` of `prices`, counted from zero,
    /// makes a fresh stage of `n` slots publish exactly if `i + 1 >= n`.
    pub proof fn lemma_publishes_from_the_nth_price_on(n: nat, prices: Seq<T>, i: int)
        requires
            n >= 1,
            0 <= i < prices.len(),
        ensures
            Self::fresh(n).run(prices.take(i)).publishes() <==> i + 1 >= n,
    {
        Self::lemma_window_holds_latest_prices(n, prices.take(i));
    }
}

/// The moving-average stage.
pub struct MovingAverageActor<T> {
    moving_average: T,
    ring_buffer: Vec<T>,
    filled: u32,
    interval_length: u32,
}

impl<T> View for MovingAverageActor<T> {
    type V = MovingAverageView<T>;

    closed spec fn view(&self) -> MovingAverageView<T> {
        MovingAverageView {
            window: self.ring_buffer@,
            filled: self.filled as nat,
            average: self.moving_average,
        }
    }
}

impl<T> MovingAverageActor<T> where
    T: Add<Output = T> + Div<Output = T> + Zero + Copy + From<u32>,
 {
    /// The view is well-formed, and the stage knows the size of its window.
    pub closed spec fn wf(&self) -> bool {
        &&& self@.wf()
        &&& self.ring_buffer@.len() == self.interval_length
    }

    /// A well-formed stage has a well-formed view of at most `u32::MAX`
    /// slots.
    pub proof fn lemma_wf(&self)
        requires
            self.wf(),
        ensures
            self@.wf(),
            self@.window.len() <= u32::MAX,
    {
    }

    /// The window size `N`.
    pub fn interval_length(&self) -> (r: u32)
        requires
            self.wf(),
        ensures
            r == self@.window.len(),
    {
        self.interval_length
    }

    /// The average published last; zero before the first one.
    pub fn moving_average(&self) -> (r: T)
        ensures
            r == self@.average,
    {
        self.moving_average
    }

    /// A stage over a window of `interval_length` slots that has taken in no
    /// price. A window of no slots is refused.
    pub fn new(interval_length: u32) -> (r: Option<Self>)
        ensures
            r is None <==> interval_length == 0,
            r matches Some(stage) ==> {
                &&& stage.wf()
                &&& stage@ == MovingAverageView::<T>::fresh(interval_length as nat)
            },
    {
        if interval_length == 0 {
            return None;
        }
        let mut ring_buffer: Vec<T> = Vec::new();
        let mut i: u32 = 0;
        while i < interval_length
            invariant
                i <= interval_length,
                ring_buffer@ == blank_window::<T>(i as nat),
            decreases interval_length - i,
        {
            ring_buffer.push(T::zero());
            i = i + 1;
        }
        Some(
            MovingAverageActor {
                moving_average: T::zero(),
                ring_buffer,
                filled: 0,
                interval_length,
            },
        )
    }

    /// Takes in one mid-price. For the first `N - 1` prices the reply is zero
    /// and nothing is published; from the `N`-th price on, the reply and the
    /// published message are the mean of the window, which then holds the
    /// `N` latest prices.
    pub fn handle(&mut self, msg: MidPrice<T>) -> (out: Handled<
        MidPriceResponse<T>,
        MovingAverageMessage<T>,
    >)
        requires
            old(self).wf(),
            T::obeys_add_spec(),
            T::obeys_div_spec(),
            T::obeys_from_spec(),
            old(self)@.step_defined(msg.price),
        ensures
            final(self).wf(),
            final(self)@ == old(self)@.step(msg.price),
            old(self)@.publishes() ==> {
                &&& out.response == MidPriceResponse::MovingAverage(final(self)@.average)
                &&& out.published == Some(MovingAverageMessage(final(self)@.average))
            },
            !old(self)@.publishes() ==> {
                &&& out.response == MidPriceResponse::MovingAverage(T::zero_spec())
                &&& out.published is None
            },
    {
        if self.filled < self.interval_length {
            self.ring_buffer.set(self.filled as usize, msg.price);
            self.filled = self.filled + 1;
        } else {
            self.ring_buffer.remove(0);
            self.ring_buffer.push(msg.price);
        }
        if self.filled < self.interval_length {
            Handled { response: MidPriceResponse::MovingAverage(T::zero()), published: None }
        } else {
            let total = sum(copied(&self.ring_buffer).into_iter());
            self.moving_average = total / T::from(self.interval_length);
            Handled {
                response: MidPriceResponse::MovingAverage(self.moving_average),
                published: Some(MovingAverageMessage(self.moving_average)),
            }
        }
    }
}

} // verus!
