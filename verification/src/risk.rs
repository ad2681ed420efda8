//! The drawdown stage: the largest fall from a peak seen so far.

pub mod sharpe;

use crate::algos::amount::{fits, Amount};
use crate::algos::single_pass::Zero;
use crate::util::{Double, Handled};
use core::ops::Sub;
use vstd::prelude::*;
use vstd::std_specs::cmp::{PartialOrdIs, PartialOrdSpec};
use vstd::std_specs::ops::SubSpec;

verus! {

/// What a drawdown stage holds. Before the first value there is neither peak
/// nor trough: every value exceeds a missing peak.
pub struct DrawdownView<T> {
    pub peak: Option<T>,
    pub trough: Option<T>,
    pub max_drawdown: T,
}

impl<T> DrawdownView<T> where T: Sub<Output = T> + PartialOrd + Zero + Copy {
    /// `value` is a new high.
    pub open spec fn exceeds_peak(self, value: T) -> bool {
        match self.peak {
            Some(peak) => value.is_gt(&peak),
            None => true,
        }
    }

    /// `value` is no new high, and a new low since the last high.
    pub open spec fn deepens_trough(self, value: T) -> bool {
        &&& !self.exceeds_peak(value)
        &&& self.trough matches Some(trough)
        &&& value.is_lt(&trough)
    }

    /// The fall from the peak down to `value`.
    pub open spec fn drawdown_to(self, value: T) -> T {
        self.peak->0.sub_spec(value)
    }

    /// The subtraction of the next step is within what `T` can compute.
    pub open spec fn step_defined(self, value: T) -> bool {
        self.deepens_trough(value) ==> self.peak->0.sub_req(value)
    }

    /// The state after `value`: a new high resets peak and trough to it; a
    /// new low moves the trough and raises the maximum to the fall from the
    /// peak, if that is greater; any other value changes nothing.
    pub open spec fn step(self, value: T) -> Self {
        if self.exceeds_peak(value) {
            DrawdownView {
                peak: Some(value),
                trough: Some(value),
                max_drawdown: self.max_drawdown,
            }
        } else if self.deepens_trough(value) {
            DrawdownView {
                peak: self.peak,
                trough: Some(value),
                max_drawdown: if self.drawdown_to(value).is_gt(&self.max_drawdown) {
                    self.drawdown_to(value)
                } else {
                    self.max_drawdown
                },
            }
        } else {
            self
        }
    }

    /// The state of a stage that has seen no value.
    pub open spec fn fresh() -> Self {
        DrawdownView { peak: None, trough: None, max_drawdown: T::zero_spec() }
    }

    /// The state after `values`, first to last.
    pub open spec fn run(self, values: Seq<T>) -> Self
        decreases values.len(),
    {
        if values.len() == 0 {
            self
        } else {
            self.run(values.drop_last()).step(values.last())
        }
    }

    /// The maximum drawdown never falls: a step leaves it as it is or puts a
    /// greater value in its place.
    pub proof fn lemma_max_drawdown_never_falls(self, value: T)
        ensures
            self.step(value).max_drawdown == self.max_drawdown || self.step(
                value,
            ).max_drawdown.is_gt(&self.max_drawdown),
    {
    }

    /// A new high leaves no drawdown between peak and trough: both are the
    /// value itself.
    pub proof fn lemma_new_high_resets(self, value: T)
        requires
            self.exceeds_peak(value),
        ensures
            self.step(value).peak == Some(value),
            self.step(value).trough == Some(value),
            self.step(value).max_drawdown == self.max_drawdown,
    {
    }
}

/// The fall from the value at `i` to the value at `j`.
pub open spec fn fall(values: Seq<Amount>, i: int, j: int) -> int {
    values[i].0 - values[j].0
}

/// Every fall from a value of `values` to a later one fits an amount.
pub open spec fn falls_fit(values: Seq<Amount>) -> bool {
    forall|i: int, j: int| 0 <= i <= j < values.len() ==> fits(#[trigger] fall(values, i, j))
}

impl DrawdownView<Amount> {
    /// What holds of a stage after `values`, none of them or more: the peak is
    /// the highest of them, the trough is not above it, and the maximum
    /// drawdown is not below the fall from the one to the other, not below
    /// any fall from a value to a later one, and is itself such a fall.
    pub open spec fn tracks(self, values: Seq<Amount>) -> bool {
        &&& self.max_drawdown.0 >= 0
        &&& forall|i: int, j: int|
            0 <= i <= j < values.len() ==> #[trigger] fall(values, i, j) <= self.max_drawdown.0
        &&& if values.len() == 0 {
            self == Self::fresh()
        } else {
            &&& self.peak matches Some(peak)
            &&& self.trough matches Some(trough)
            &&& trough.0 <= peak.0
            &&& peak.0 - trough.0 <= self.max_drawdown.0
            &&& forall|i: int| 0 <= i < values.len() ==> (#[trigger] values[i]).0 <= peak.0
            &&& exists|i: int| 0 <= i < values.len() && (#[trigger] values[i]).0 == peak.0
            &&& exists|i: int, j: int|
                0 <= i <= j < values.len() && #[trigger] fall(values, i, j) == self.max_drawdown.0
        }
    }

    /// One more value keeps a stage on track.
    proof fn lemma_step_tracks(self, earlier: Seq<Amount>, value: Amount)
        requires
            self.tracks(earlier),
            falls_fit(earlier.push(value)),
        ensures
            self.step(value).tracks(earlier.push(value)),
    {
        let values = earlier.push(value);
        let last = earlier.len() as int;
        let after = self.step(value);
        assert(values[last] == value);
        assert forall|i: int, j: int| 0 <= i <= j < earlier.len() implies fall(values, i, j)
            == fall(earlier, i, j) by {
            assert(values[i] == earlier[i] && values[j] == earlier[j]);
        }
        if earlier.len() == 0 {
            assert(fall(values, 0, 0) == after.max_drawdown.0);
            assert(values[0].0 == value.0);
            assert forall|i: int, j: int| 0 <= i <= j < values.len() implies #[trigger] fall(
                values,
                i,
                j,
            ) <= after.max_drawdown.0 by {
                assert(i == 0 && j == 0);
            }
        } else {
            let peak = self.peak->0;
            let top = choose|i: int| 0 <= i < earlier.len() && (#[trigger] earlier[i]).0 == peak.0;
            let (a, b) = choose|i: int, j: int|
                0 <= i <= j < earlier.len() && #[trigger] fall(earlier, i, j)
                    == self.max_drawdown.0;
            assert(values[top] == earlier[top]);
            assert(fits(fall(values, top, last)));
            assert(fits(fall(values, last, last)));
            assert(fall(values, a, b) == self.max_drawdown.0);
            // the fall that the new maximum is
            if after.max_drawdown.0 == self.max_drawdown.0 {
                assert(fall(values, a, b) == after.max_drawdown.0);
            } else {
                assert(fall(values, top, last) == after.max_drawdown.0);
            }
            // where the new peak stands
            if self.exceeds_peak(value) {
                assert(values[last].0 == value.0);
            } else {
                assert(values[top].0 == peak.0);
            }
            let new_peak = after.peak->0;
            assert forall|i: int| 0 <= i < values.len() implies (#[trigger] values[i]).0
                <= new_peak.0 by {
                if i < last {
                    assert(values[i] == earlier[i]);
                }
            }
            assert forall|i: int, j: int| 0 <= i <= j < values.len() implies #[trigger] fall(
                values,
                i,
                j,
            ) <= after.max_drawdown.0 by {
                if j < last {
                    assert(fall(earlier, i, j) <= self.max_drawdown.0);
                } else if i < last {
                    assert(values[i] == earlier[i]);
                    assert(earlier[i].0 <= peak.0);
                }
            }
        }
    }

    /// Over whole amounts the maximum drawdown is the largest fall of the
    /// series: after `values` no value lies above a later one by more than
    /// the maximum, and, unless the series is empty, some value lies above a
    /// later one, or itself, by exactly that much. The peak is the highest
    /// value of the series.
    pub proof fn lemma_max_drawdown_is_the_largest_fall(values: Seq<Amount>)
        requires
            falls_fit(values),
        ensures
            Self::fresh().run(values).tracks(values),
        decreases values.len(),
    {
        if values.len() > 0 {
            let earlier = values.drop_last();
            assert(earlier.push(values.last()) == values);
            assert(falls_fit(earlier)) by {
                assert forall|i: int, j: int| 0 <= i <= j < earlier.len() implies fits(
                    #[trigger] fall(earlier, i, j),
                ) by {
                    assert(fall(earlier, i, j) == fall(values, i, j));
                }
            }
            Self::lemma_max_drawdown_is_the_largest_fall(earlier);
            Self::fresh().run(earlier).lemma_step_tracks(earlier, values.last());
        }
    }

    /// A series whose falls fit can be handled value by value: the step that
    /// takes in the value at `k` is defined after the values before it.
    pub proof fn lemma_every_step_is_defined(values: Seq<Amount>, k: int)
        requires
            falls_fit(values),
            0 <= k < values.len(),
        ensures
            Self::fresh().run(values.take(k)).step_defined(values[k]),
    {
        let earlier = values.take(k);
        assert(falls_fit(earlier)) by {
            assert forall|i: int, j: int| 0 <= i <= j < earlier.len() implies fits(
                #[trigger] fall(earlier, i, j),
            ) by {
                assert(fall(earlier, i, j) == fall(values, i, j));
            }
        }
        Self::lemma_max_drawdown_is_the_largest_fall(earlier);
        let before = Self::fresh().run(earlier);
        if before.deepens_trough(values[k]) {
            let peak = before.peak->0;
            let top = choose|i: int| 0 <= i < earlier.len() && (#[trigger] earlier[i]).0 == peak.0;
            assert(earlier[top] == values[top]);
            assert(fits(fall(values, top, k)));
        }
    }
}

/// The drawdown stage.
pub struct Drawdown<T> {
    peak: Option<T>,
    trough: Option<T>,
    max_drawdown: T,
}

impl<T> View for Drawdown<T> {
    type V = DrawdownView<T>;

    closed spec fn view(&self) -> DrawdownView<T> {
        DrawdownView { peak: self.peak, trough: self.trough, max_drawdown: self.max_drawdown }
    }
}

impl<T> Drawdown<T> where T: Sub<Output = T> + PartialOrd + Zero + Copy {
    /// Peak and trough are set together.
    pub open spec fn wf(&self) -> bool {
        self@.peak is Some <==> self@.trough is Some
    }

    /// A stage that has seen no value: no peak, no trough, no drawdown.
    pub fn new() -> (r: Self)
        ensures
            r.wf(),
            r@ == DrawdownView::<T>::fresh(),
    {
        Drawdown { peak: None, trough: None, max_drawdown: T::zero() }
    }

    /// The highest value since the stage began, if it has seen one.
    pub fn peak(&self) -> (r: Option<T>)
        ensures
            r == self@.peak,
    {
        self.peak
    }

    /// The lowest value since the last new high, if the stage has seen one.
    pub fn trough(&self) -> (r: Option<T>)
        ensures
            r == self@.trough,
    {
        self.trough
    }

    /// The largest fall from a peak so far.
    pub fn max_drawdown(&self) -> (r: T)
        ensures
            r == self@.max_drawdown,
    {
        self.max_drawdown
    }

    /// Takes in one value. Reply and published message are the maximum
    /// drawdown after it, on every call.
    pub fn handle(&mut self, msg: Double<T>) -> (out: Handled<T, Double<T>>)
        requires
            old(self).wf(),
            T::obeys_partial_cmp_spec(),
            T::obeys_sub_spec(),
            old(self)@.step_defined(msg.0),
        ensures
            final(self).wf(),
            final(self)@ == old(self)@.step(msg.0),
            out.response == final(self)@.max_drawdown,
            out.published == Some(Double(final(self)@.max_drawdown)),
    {
        let value = msg.0;
        let new_high = match self.peak {
            Some(peak) => value > peak,
            None => true,
        };
        if new_high {
            self.peak = Some(value);
            self.trough = Some(value);
        } else {
            match (self.peak, self.trough) {
                (Some(peak), Some(trough)) => {
                    if value < trough {
                        self.trough = Some(value);
                        let drawdown = peak - value;
                        if drawdown > self.max_drawdown {
                            self.max_drawdown = drawdown;
                        }
                    }
                },
                _ => {},
            }
        }
        Handled { response: self.max_drawdown, published: Some(Double(self.max_drawdown)) }
    }
}

} // verus!
