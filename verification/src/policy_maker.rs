//! The policy engine: it keeps the latest price and average with their first
//! differences, and turns them into a decision on every average.
//!
//! A price only updates the price leg of the frame. An average updates the
//! average leg, is decided on, and the decision becomes the frame's previous
//! decision. The same action is never taken twice in a row; holding may
//! repeat.

use crate::actors::mid_price::{MidPrice, MidPriceResponse};
use crate::algos::amount::Amount;
use crate::algos::single_pass::Zero;
use crate::trade::{Buy, Hold, Sell};
use crate::util::{Handled, MovingAverageMessage};
use core::ops::{Div, Sub};
use vstd::prelude::*;
use vstd::std_specs::cmp::{PartialOrdIs, PartialOrdSpec};
use vstd::std_specs::convert::FromSpec;
use vstd::std_specs::ops::{DivSpec, SubSpec};

verus! {

/// A trading decision.
#[derive(Clone, Debug)]
pub enum PolicyDecision<T> {
    BuyAction(Buy<T>),
    SellAction(Sell<T>),
    HoldAction(Hold),
}

/// A snapshot of everything a decision depends on.
#[derive(Clone, Debug)]
pub struct PolicyFrame<T> {
    pub symbol: String,
    pub moving_average_gradient: T,
    pub true_price_gradient: T,
    pub moving_average_price: T,
    pub true_price: T,
    pub prev_decision: Option<PolicyDecision<T>>,
}

impl<T> PolicyDecision<T> {
    /// The time at which the decision was taken.
    pub open spec fn timestamp(self) -> i64 {
        match self {
            PolicyDecision::BuyAction(buy) => buy.timestamp,
            PolicyDecision::SellAction(sell) => sell.timestamp,
            PolicyDecision::HoldAction(hold) => hold.timestamp,
        }
    }

    /// Both decisions buy, or both sell.
    pub open spec fn repeats(self, earlier: Self) -> bool {
        ||| self is BuyAction && earlier is BuyAction
        ||| self is SellAction && earlier is SellAction
    }
}

impl<T: Copy> PolicyDecision<T> {
    /// A second copy of the decision.
    pub fn duplicate(&self) -> (r: Self)
        ensures
            r == *self,
    {
        match self {
            PolicyDecision::BuyAction(buy) => PolicyDecision::BuyAction(
                Buy {
                    symbol: buy.symbol.clone(),
                    quantity: buy.quantity,
                    price: buy.price,
                    timestamp: buy.timestamp,
                },
            ),
            PolicyDecision::SellAction(sell) => PolicyDecision::SellAction(
                Sell {
                    symbol: sell.symbol.clone(),
                    quantity: sell.quantity,
                    price: sell.price,
                    timestamp: sell.timestamp,
                },
            ),
            PolicyDecision::HoldAction(hold) => PolicyDecision::HoldAction(
                Hold { symbol: hold.symbol.clone(), timestamp: hold.timestamp },
            ),
        }
    }
}

/// Average and price both went up.
pub open spec fn is_rising_trend_spec<T: PartialOrd + Zero>(frame: PolicyFrame<T>) -> bool {
    &&& frame.moving_average_gradient.is_gt(&T::zero_spec())
    &&& frame.true_price_gradient.is_gt(&T::zero_spec())
}

/// Average and price both went down.
pub open spec fn is_downward_trend_spec<T: PartialOrd + Zero>(frame: PolicyFrame<T>) -> bool {
    &&& frame.moving_average_gradient.is_lt(&T::zero_spec())
    &&& frame.true_price_gradient.is_lt(&T::zero_spec())
}

/// Buy: a rising trend with the average still below the price, unless the
/// previous decision was a buy.
pub open spec fn should_buy_spec<T: PartialOrd + Zero>(frame: PolicyFrame<T>) -> bool {
    &&& is_rising_trend_spec(frame)
    &&& frame.moving_average_price.is_lt(&frame.true_price)
    &&& !(frame.prev_decision matches Some(PolicyDecision::BuyAction(_)))
}

/// Sell: a downward trend with the average still above the price, unless the
/// previous decision was a sell.
pub open spec fn should_sell_spec<T: PartialOrd + Zero>(frame: PolicyFrame<T>) -> bool {
    &&& is_downward_trend_spec(frame)
    &&& frame.moving_average_price.is_gt(&frame.true_price)
    &&& !(frame.prev_decision matches Some(PolicyDecision::SellAction(_)))
}

/// The decision on `frame`, taken at `timestamp` for the fixed `quantity`:
/// buy first, sell second, hold otherwise.
pub open spec fn decision_spec<T: PartialOrd + Zero>(
    frame: PolicyFrame<T>,
    quantity: T,
    timestamp: i64,
) -> PolicyDecision<T> {
    if should_buy_spec(frame) {
        PolicyDecision::BuyAction(
            Buy { symbol: frame.symbol, quantity, price: frame.true_price, timestamp },
        )
    } else if should_sell_spec(frame) {
        PolicyDecision::SellAction(
            Sell { symbol: frame.symbol, quantity, price: frame.true_price, timestamp },
        )
    } else {
        PolicyDecision::HoldAction(Hold { symbol: frame.symbol, timestamp })
    }
}

pub fn is_rising_trend<T: PartialOrd + Zero>(frame: &PolicyFrame<T>) -> (r: bool)
    ensures
        T::obeys_partial_cmp_spec() ==> r == is_rising_trend_spec(*frame),
{
    frame.moving_average_gradient > T::zero() && frame.true_price_gradient > T::zero()
}

pub fn is_downward_trend<T: PartialOrd + Zero>(frame: &PolicyFrame<T>) -> (r: bool)
    ensures
        T::obeys_partial_cmp_spec() ==> r == is_downward_trend_spec(*frame),
{
    frame.moving_average_gradient < T::zero() && frame.true_price_gradient < T::zero()
}

/// Whether `frame` calls for a buy. Whatever the order on `T` is, it does not
/// straight after a buy.
pub fn should_buy<T: PartialOrd + Zero>(frame: &PolicyFrame<T>) -> (r: bool)
    ensures
        T::obeys_partial_cmp_spec() ==> r == should_buy_spec(*frame),
        frame.prev_decision matches Some(PolicyDecision::BuyAction(_)) ==> !r,
{
    let repeat = match &frame.prev_decision {
        Some(PolicyDecision::BuyAction(_)) => true,
        _ => false,
    };
    is_rising_trend(frame) && frame.moving_average_price < frame.true_price && !repeat
}

/// Whether `frame` calls for a sell. Whatever the order on `T` is, it does
/// not straight after a sell.
pub fn should_sell<T: PartialOrd + Zero>(frame: &PolicyFrame<T>) -> (r: bool)
    ensures
        T::obeys_partial_cmp_spec() ==> r == should_sell_spec(*frame),
        frame.prev_decision matches Some(PolicyDecision::SellAction(_)) ==> !r,
{
    let repeat = match &frame.prev_decision {
        Some(PolicyDecision::SellAction(_)) => true,
        _ => false,
    };
    is_downward_trend(frame) && frame.moving_average_price > frame.true_price && !repeat
}

/// The quantity of every order: one tenth, in the arithmetic of `T`.
pub open spec fn order_quantity_spec<T: Div<Output = T> + From<u32>>() -> T {
    T::from_spec(1u32).div_spec(T::from_spec(10u32))
}

/// What the policy engine holds.
pub struct PolicyMakerView<T> {
    pub current_true_price: T,
    pub prev_true_price: T,
    pub frame: PolicyFrame<T>,
    pub quantity: T,
}

/// One input of the policy engine: a price, or an average together with the
/// time at which it is decided on.
pub enum PolicyEvent<T> {
    Price(MidPrice<T>),
    Average(MovingAverageMessage<T>, i64),
}

impl<T> PolicyMakerView<T> where T: Sub<Output = T> + PartialOrd + Zero + Copy {
    /// The price that the engine keeps is the price of its frame.
    pub open spec fn wf(self) -> bool {
        self.current_true_price == self.frame.true_price
    }

    /// The state after a price: the price leg of the frame is renewed, with
    /// the step from the frame's price to the new one as its gradient; the
    /// average leg and the previous decision stay.
    pub open spec fn after_price(self, msg: MidPrice<T>) -> Self {
        PolicyMakerView {
            current_true_price: msg.price,
            prev_true_price: self.frame.true_price,
            frame: PolicyFrame {
                symbol: msg.symbol,
                true_price_gradient: msg.price.sub_spec(self.frame.true_price),
                true_price: msg.price,
                ..self.frame
            },
            quantity: self.quantity,
        }
    }

    /// The frame that is decided on when `average` arrives: the average leg
    /// is renewed, everything else stays.
    pub open spec fn frame_for(self, average: T) -> PolicyFrame<T> {
        PolicyFrame {
            moving_average_gradient: average.sub_spec(self.frame.moving_average_price),
            moving_average_price: average,
            ..self.frame
        }
    }

    /// The decision that `average` leads to at `timestamp`.
    pub open spec fn decision_on(self, average: T, timestamp: i64) -> PolicyDecision<T> {
        decision_spec(self.frame_for(average), self.quantity, timestamp)
    }

    /// The state after an average: the decided frame, with the decision as
    /// its previous one.
    pub open spec fn after_average(self, average: T, timestamp: i64) -> Self {
        PolicyMakerView {
            frame: PolicyFrame {
                prev_decision: Some(self.decision_on(average, timestamp)),
                ..self.frame_for(average)
            },
            ..self
        }
    }

    /// The state after one event.
    pub open spec fn after(self, event: PolicyEvent<T>) -> Self {
        match event {
            PolicyEvent::Price(msg) => self.after_price(msg),
            PolicyEvent::Average(msg, timestamp) => self.after_average(msg.0, timestamp),
        }
    }

    /// The state after `events`, first to last.
    pub open spec fn run(self, events: Seq<PolicyEvent<T>>) -> Self
        decreases events.len(),
    {
        if events.len() == 0 {
            self
        } else {
            self.run(events.drop_last()).after(events.last())
        }
    }

    /// The decisions that `events` lead to, in order: one for each average.
    pub open spec fn decisions(self, events: Seq<PolicyEvent<T>>) -> Seq<PolicyDecision<T>>
        decreases events.len(),
    {
        if events.len() == 0 {
            Seq::empty()
        } else {
            let earlier = self.decisions(events.drop_last());
            match events.last() {
                PolicyEvent::Price(_) => earlier,
                PolicyEvent::Average(msg, timestamp) => earlier.push(
                    self.run(events.drop_last()).decision_on(msg.0, timestamp),
                ),
            }
        }
    }

    /// At no average of `events` does the frame call for a buy or a sell.
    pub open spec fn nothing_called_for(self, events: Seq<PolicyEvent<T>>) -> bool {
        forall|i: int|
            0 <= i < events.len() ==> (#[trigger] events[i] matches PolicyEvent::Average(msg, _)
                ==> {
                let frame = self.run(events.take(i)).frame_for(msg.0);
                !should_buy_spec(frame) && !should_sell_spec(frame)
            })
    }

    /// The subtraction that taking in `event` makes is within what `T` can
    /// compute.
    pub open spec fn step_defined(self, event: PolicyEvent<T>) -> bool {
        match event {
            PolicyEvent::Price(msg) => msg.price.sub_req(self.frame.true_price),
            PolicyEvent::Average(msg, _) => msg.0.sub_req(self.frame.moving_average_price),
        }
    }

    /// Whatever the events are, the price that the engine keeps stays the
    /// price of its frame.
    pub proof fn lemma_run_keeps_wf(self, events: Seq<PolicyEvent<T>>)
        requires
            self.wf(),
        ensures
            self.run(events).wf(),
        decreases events.len(),
    {
        if events.len() > 0 {
            self.lemma_run_keeps_wf(events.drop_last());
        }
    }

    /// The engine remembers its last decision: after `events` the frame's
    /// previous decision is the last one taken, or the one it started with
    /// if none was taken.
    pub proof fn lemma_last_decision_is_remembered(self, events: Seq<PolicyEvent<T>>)
        ensures
            self.run(events).frame.prev_decision == if self.decisions(events).len() > 0 {
                Some(self.decisions(events).last())
            } else {
                self.frame.prev_decision
            },
        decreases events.len(),
    {
        if events.len() > 0 {
            self.lemma_last_decision_is_remembered(events.drop_last());
        }
    }

    /// No action is repeated: whatever the events are, no two decisions in a
    /// row both buy or both sell, and the first one does not repeat what the
    /// engine started with.
    pub proof fn lemma_never_repeats_an_action(self, events: Seq<PolicyEvent<T>>)
        ensures
            forall|i: int|
                0 <= i && i + 1 < self.decisions(events).len() ==> !(#[trigger] self.decisions(
                    events,
                )[i + 1]).repeats(self.decisions(events)[i]),
            self.decisions(events).len() > 0 && self.frame.prev_decision is Some
                ==> !self.decisions(events)[0].repeats(self.frame.prev_decision->0),
        decreases events.len(),
    {
        if events.len() > 0 {
            let before = events.drop_last();
            self.lemma_never_repeats_an_action(before);
            self.lemma_last_decision_is_remembered(before);
        }
    }

    /// Holding may go on: as long as no frame calls for a buy or a sell, every
    /// decision is a hold, however many there are.
    pub proof fn lemma_holds_while_nothing_is_called_for(self, events: Seq<PolicyEvent<T>>)
        requires
            self.nothing_called_for(events),
        ensures
            forall|i: int|
                0 <= i < self.decisions(events).len() ==> (#[trigger] self.decisions(
                    events,
                )[i]) is HoldAction,
        decreases events.len(),
    {
        if events.len() > 0 {
            let before = events.drop_last();
            assert(self.nothing_called_for(before)) by {
                assert forall|i: int| 0 <= i < before.len() implies (
                #[trigger] before[i] matches PolicyEvent::Average(msg, _) ==> {
                    let frame = self.run(before.take(i)).frame_for(msg.0);
                    !should_buy_spec(frame) && !should_sell_spec(frame)
                }) by {
                    assert(before[i] == events[i]);
                    assert(before.take(i) == events.take(i));
                }
            }
            self.lemma_holds_while_nothing_is_called_for(before);
            let last = events.len() - 1;
            assert(events.last() == events[last]);
            assert(events.take(last) == before);
        }
    }
}

impl PolicyEvent<Amount> {
    /// The price or average of the event is in range.
    pub open spec fn in_range(self) -> bool {
        match self {
            PolicyEvent::Price(msg) => msg.price.in_range(),
            PolicyEvent::Average(msg, _) => msg.0.in_range(),
        }
    }
}

impl PolicyMakerView<Amount> {
    /// Price and average of the frame are in range.
    pub open spec fn in_range(self) -> bool {
        self.frame.true_price.in_range() && self.frame.moving_average_price.in_range()
    }

    /// Events in range keep the frame in range.
    pub proof fn lemma_run_stays_in_range(self, events: Seq<PolicyEvent<Amount>>)
        requires
            self.in_range(),
            forall|i: int| 0 <= i < events.len() ==> (#[trigger] events[i]).in_range(),
        ensures
            self.run(events).in_range(),
        decreases events.len(),
    {
        if events.len() > 0 {
            let earlier = events.drop_last();
            assert forall|i: int| 0 <= i < earlier.len() implies (#[trigger] earlier[i]).in_range() by {
                assert(earlier[i] == events[i]);
            }
            self.lemma_run_stays_in_range(earlier);
            assert(events.last() == events[events.len() - 1]);
        }
    }

    /// Over whole amounts an engine can take in any series of events in
    /// range, one by one: the step for the event at `k` is defined after the
    /// events before it. What holds of every run of events, that no action is
    /// taken twice in a row, so holds of every such series as it is handled.
    pub proof fn lemma_every_step_is_defined(self, events: Seq<PolicyEvent<Amount>>, k: int)
        requires
            self.in_range(),
            forall|i: int| 0 <= i < events.len() ==> (#[trigger] events[i]).in_range(),
            0 <= k < events.len(),
        ensures
            self.run(events.take(k)).step_defined(events[k]),
    {
        let earlier = events.take(k);
        assert forall|i: int| 0 <= i < earlier.len() implies (#[trigger] earlier[i]).in_range() by {
            assert(earlier[i] == events[i]);
        }
        self.lemma_run_stays_in_range(earlier);
        assert(events[k].in_range());
    }
}

/// The wall clock in milliseconds since the Unix epoch: `chrono::Utc::now`,
/// read through `DateTime::timestamp_millis`.
///
/// Nothing is claimed of the value; two calls may return anything. `Utc::now`
/// stops the program if the system clock stands before the epoch.
#[verifier::external_body]
fn now() -> (r: i64) {
    chrono::Utc::now().timestamp_millis()
}

/// The policy engine.
pub struct PolicyMaker<T> {
    current_true_price: T,
    prev_true_price: T,
    frame: PolicyFrame<T>,
    quantity: T,
}

impl<T> View for PolicyMaker<T> {
    type V = PolicyMakerView<T>;

    closed spec fn view(&self) -> PolicyMakerView<T> {
        PolicyMakerView {
            current_true_price: self.current_true_price,
            prev_true_price: self.prev_true_price,
            frame: self.frame,
            quantity: self.quantity,
        }
    }
}

impl<T> PolicyMaker<T> where
    T: Sub<Output = T> + Div<Output = T> + PartialOrd + Zero + Copy + From<u32>,
 {
    /// The price that the engine keeps is the price of its frame.
    pub open spec fn wf(&self) -> bool {
        self@.wf()
    }

    /// An engine that has seen nothing: every price and gradient is zero, the
    /// symbol is empty, and there is no previous decision.
    pub fn new() -> (r: Self)
        requires
            T::obeys_from_spec(),
            T::obeys_div_spec(),
            T::from_spec(1u32).div_req(T::from_spec(10u32)),
        ensures
            r.wf(),
            r@.current_true_price == T::zero_spec(),
            r@.prev_true_price == T::zero_spec(),
            r@.quantity == order_quantity_spec::<T>(),
            r@.frame.symbol@ == Seq::<char>::empty(),
            r@.frame.moving_average_gradient == T::zero_spec(),
            r@.frame.true_price_gradient == T::zero_spec(),
            r@.frame.moving_average_price == T::zero_spec(),
            r@.frame.true_price == T::zero_spec(),
            r@.frame.prev_decision is None,
    {
        PolicyMaker {
            current_true_price: T::zero(),
            prev_true_price: T::zero(),
            frame: PolicyFrame {
                symbol: String::new(),
                moving_average_gradient: T::zero(),
                true_price_gradient: T::zero(),
                moving_average_price: T::zero(),
                true_price: T::zero(),
                prev_decision: None,
            },
            quantity: T::from(1u32) / T::from(10u32),
        }
    }

    /// The frame as it stands.
    pub fn frame(&self) -> (r: &PolicyFrame<T>)
        ensures
            *r == self@.frame,
    {
        &self.frame
    }

    /// The quantity of every order.
    pub fn quantity(&self) -> (r: T)
        ensures
            r == self@.quantity,
    {
        self.quantity
    }

    /// The decision on `frame` at `timestamp`. Whatever the order on `T` is,
    /// it does not repeat the action of the frame's previous decision.
    pub fn decide(&self, frame: &PolicyFrame<T>, timestamp: i64) -> (r: PolicyDecision<T>)
        ensures
            T::obeys_partial_cmp_spec() ==> r == decision_spec(*frame, self@.quantity, timestamp),
            r.timestamp() == timestamp,
            frame.prev_decision matches Some(earlier) ==> !r.repeats(earlier),
    {
        if should_buy(frame) {
            PolicyDecision::BuyAction(
                Buy {
                    symbol: frame.symbol.clone(),
                    quantity: self.quantity,
                    price: frame.true_price,
                    timestamp,
                },
            )
        } else if should_sell(frame) {
            PolicyDecision::SellAction(
                Sell {
                    symbol: frame.symbol.clone(),
                    quantity: self.quantity,
                    price: frame.true_price,
                    timestamp,
                },
            )
        } else {
            PolicyDecision::HoldAction(Hold { symbol: frame.symbol.clone(), timestamp })
        }
    }

    /// The decision on `frame`, stamped with the time of the call.
    pub fn make_policy_decision(&self, frame: &PolicyFrame<T>) -> (r: PolicyDecision<T>)
        ensures
            T::obeys_partial_cmp_spec() ==> r == decision_spec(
                *frame,
                self@.quantity,
                r.timestamp(),
            ),
            frame.prev_decision matches Some(earlier) ==> !r.repeats(earlier),
    {
        let timestamp = now();
        self.decide(frame, timestamp)
    }

    /// Takes in one price. Only the price leg of the frame changes; nothing is
    /// decided and nothing is published. The reply is the zero average.
    pub fn handle_mid_price(&mut self, msg: MidPrice<T>) -> (out: Handled<
        MidPriceResponse<T>,
        PolicyDecision<T>,
    >)
        requires
            old(self).wf(),
            T::obeys_sub_spec(),
            msg.price.sub_req(old(self)@.frame.true_price),
        ensures
            final(self).wf(),
            final(self)@ == old(self)@.after_price(msg),
            out.response == MidPriceResponse::MovingAverage(T::zero_spec()),
            out.published is None,
    {
        let prev_true_price = self.current_true_price;
        self.prev_true_price = prev_true_price;
        self.current_true_price = msg.price;
        self.frame.true_price_gradient = msg.price - prev_true_price;
        self.frame.true_price = msg.price;
        self.frame.symbol = msg.symbol;
        Handled { response: MidPriceResponse::MovingAverage(T::zero()), published: None }
    }

    /// Takes in one average and decides on it at `timestamp`. The decision is
    /// the message to forward and becomes the frame's previous decision; the
    /// reply is the average.
    pub fn handle_moving_average_at(
        &mut self,
        msg: MovingAverageMessage<T>,
        timestamp: i64,
    ) -> (out: Handled<T, PolicyDecision<T>>)
        requires
            old(self).wf(),
            T::obeys_sub_spec(),
            T::obeys_partial_cmp_spec(),
            msg.0.sub_req(old(self)@.frame.moving_average_price),
        ensures
            final(self).wf(),
            final(self)@ == old(self)@.after_average(msg.0, timestamp),
            out.response == msg.0,
            out.published == Some(old(self)@.decision_on(msg.0, timestamp)),
            old(self)@.frame.prev_decision matches Some(earlier) ==> !out.published->0.repeats(
                earlier,
            ),
    {
        self.frame.moving_average_gradient = msg.0 - self.frame.moving_average_price;
        self.frame.moving_average_price = msg.0;
        let decision = self.decide(&self.frame, timestamp);
        self.frame.prev_decision = Some(decision.duplicate());
        Handled { response: msg.0, published: Some(decision) }
    }

    /// Takes in one average and decides on it at the time of the call.
    pub fn handle_moving_average(&mut self, msg: MovingAverageMessage<T>) -> (out: Handled<
        T,
        PolicyDecision<T>,
    >)
        requires
            old(self).wf(),
            T::obeys_sub_spec(),
            T::obeys_partial_cmp_spec(),
            msg.0.sub_req(old(self)@.frame.moving_average_price),
        ensures
            final(self).wf(),
            out.published matches Some(decision) && {
                &&& decision == old(self)@.decision_on(msg.0, decision.timestamp())
                &&& final(self)@ == old(self)@.after_average(msg.0, decision.timestamp())
                &&& old(self)@.frame.prev_decision matches Some(earlier) ==> !decision.repeats(
                    earlier,
                )
            },
            out.response == msg.0,
    {
        let timestamp = now();
        self.handle_moving_average_at(msg, timestamp)
    }
}

} // verus!
