//! The controller's general laws, stated over the transition rules of
//! [`crate::congestion`] and proved once for every controller and every run
//! of events.

use vstd::prelude::*;
use crate::arith::sat_add;
use crate::congestion::{
    spec_fulfill, spec_left_in_window, spec_prepare, spec_reject, CongestionController,
    CongestionState,
};
use crate::packet::{spec_parse_details, RejectSignal};

verus! {

/// One resolved interaction of the sender loop with the controller.
pub enum Event {
    Prepare(u64),
    Fulfill(u64),
    Reject(u64, RejectSignal),
}

/// The controller after one event.
pub open spec fn spec_step(c: CongestionController, e: Event) -> CongestionController {
    match e {
        Event::Prepare(amount) => spec_prepare(c, amount),
        Event::Fulfill(amount) => spec_fulfill(c, amount),
        Event::Reject(amount, signal) => spec_reject(c, amount, signal),
    }
}

/// The controller after a whole run of events, first event first.
pub open spec fn spec_run(c: CongestionController, events: Seq<Event>) -> CongestionController
    decreases events.len(),
{
    if events.len() == 0 {
        c
    } else {
        spec_run(spec_step(c, events[0]), events.drop_first())
    }
}

/// Law: the construction parameters are fixed for the controller's lifetime
/// — no run of events moves `increase_amount` or `decrease_factor`.
pub proof fn lemma_parameters_fixed(c: CongestionController, events: Seq<Event>)
    ensures
        spec_run(c, events).increase_amount == c.increase_amount,
        spec_run(c, events).decrease_factor == c.decrease_factor,
    decreases events.len(),
{
    if events.len() > 0 {
        lemma_parameters_fixed(spec_step(c, events[0]), events.drop_first());
    }
}

/// Law: the move to congestion avoidance is one-way.  Once there, the
/// controller is still there after any further run of events, and every
/// further fulfill grows the window by the additive rule — never the
/// doubling rule of slow start.
pub proof fn lemma_one_way_transition(
    c: CongestionController,
    events: Seq<Event>,
    amount: u64,
)
    requires
        c.state == CongestionState::AvoidCongestion,
    ensures
        spec_run(c, events).state == CongestionState::AvoidCongestion,
        spec_fulfill(spec_run(c, events), amount).max_in_flight == sat_add(
            spec_run(c, events).max_in_flight,
            c.increase_amount,
        ),
    decreases events.len(),
{
    lemma_parameters_fixed(c, events);
    if events.len() > 0 {
        lemma_one_way_transition(spec_step(c, events[0]), events.drop_first(), amount);
    }
}

/// Law: a window of at least one can never collapse to zero — no run of
/// events, rejects included, drops `max_in_flight` below one.
pub proof fn lemma_window_never_below_one(c: CongestionController, events: Seq<Event>)
    requires
        c.max_in_flight >= 1,
    ensures
        spec_run(c, events).max_in_flight >= 1,
    decreases events.len(),
{
    if events.len() > 0 {
        lemma_window_never_below_one(spec_step(c, events[0]), events.drop_first());
    }
}

/// An amount-too-large reject whose payload cannot be read: the one event
/// that divides the learned cap by the decrease factor instead of taking a
/// minimum.
pub open spec fn is_blind_cap_shrink(e: Event) -> bool {
    match e {
        Event::Reject(amount, signal) => signal.code is AmountTooLarge
            && spec_parse_details(signal.data@) is None,
        _ => false,
    }
}

/// Law: the learned per-packet cap, once set, stays set and never increases
/// — every amount-too-large signal with a readable payload retains the
/// smaller of the old cap and the new candidate, and no other event raises
/// the cap.  A factor below one would grow the cap on the one path that
/// divides by it, a payloadless amount-too-large reject, so the law asks
/// that either the factor is at least one or no such reject occurs.
pub proof fn lemma_cap_never_increases(c: CongestionController, events: Seq<Event>)
    requires
        c.max_packet_amount is Some,
        c.decrease_factor.wf(),
        c.decrease_factor.is_at_least_one() || (forall|i: int|
            0 <= i < events.len() ==> !is_blind_cap_shrink(events[i])),
    ensures
        spec_run(c, events).max_packet_amount is Some,
        spec_run(c, events).max_packet_amount.unwrap() <= c.max_packet_amount.unwrap(),
    decreases events.len(),
{
    if events.len() > 0 {
        let stepped = spec_step(c, events[0]);
        let rest = events.drop_first();
        if !c.decrease_factor.is_at_least_one() {
            assert(!is_blind_cap_shrink(events[0]));
            assert forall|i: int| 0 <= i < rest.len() implies !is_blind_cap_shrink(rest[i]) by {
                assert(rest[i] == events[i + 1]);
            }
        }
        if is_blind_cap_shrink(events[0]) {
            let m = c.max_packet_amount.unwrap() as int;
            let num = c.decrease_factor.numerator() as int;
            let den = c.decrease_factor.denominator() as int;
            assert((m * den) / num <= m) by (nonlinear_arith)
                requires
                    1 <= num,
                    0 <= den <= num,
                    0 <= m,
            ;
        }
        lemma_cap_never_increases(stepped, rest);
    }
}

/// Law: preparing within the window consumes exactly that much of it —
/// after `prepare(amount)` with `amount` at most what is left, the amount
/// left in the window has dropped by exactly `amount`.
pub proof fn lemma_prepare_consumes_window(c: CongestionController, amount: u64)
    requires
        amount <= spec_left_in_window(c),
    ensures
        spec_left_in_window(spec_prepare(c, amount)) == spec_left_in_window(c) - amount,
{
}

} // verus!
