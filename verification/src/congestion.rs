//! The congestion controller proper: its state, the exact transition rules
//! for prepare/fulfill/reject, and the executable operations proved against
//! them.

use vstd::prelude::*;
use crate::arith::{at_least_one, mul_div_sat, sat_add, sat_double, spec_mul_div_sat};
use crate::factor::{spec_divide, DecreaseFactor};
use crate::packet::{spec_parse_details, ErrorCode, MaxPacketAmountDetails, RejectSignal};

verus! {

/// The control phase.  A controller starts in slow start and, on the first
/// insufficient-liquidity reject, moves to congestion avoidance for good.
#[derive(Clone, Copy, Debug, PartialEq, Eq, Structural)]
pub enum CongestionState {
    SlowStart,
    AvoidCongestion,
}

/// A caller resolved more than it had booked: the prepare/resolve accounting
/// of the caller is inconsistent.
#[derive(Clone, Copy, Debug, PartialEq, Eq, Structural)]
pub enum AccountingError {
    InconsistentAccounting,
}

/// The congestion controller: an Additive-Increase/Multiplicative-Decrease
/// window over the amount in flight, plus a per-packet cap learned from
/// amount-too-large rejects.
///
/// The controller only advises: `prepare` books whatever the caller sends
/// without holding it against the window, and the caller must resolve every
/// booked amount by exactly one `fulfill` or `reject` of the same value.
pub struct CongestionController {
    /// The current control phase; the move to `AvoidCongestion` is one-way.
    pub state: CongestionState,
    /// Added to `max_in_flight` per fulfill in `AvoidCongestion`; fixed at
    /// construction.
    pub increase_amount: u64,
    /// Divides `max_in_flight` on an insufficient-liquidity reject, and the
    /// learned cap on an amount-too-large reject without a readable payload;
    /// fixed at construction.
    pub decrease_factor: DecreaseFactor,
    /// The learned per-packet cap; absent until the first amount-too-large
    /// signal, and never increasing once present.
    pub max_packet_amount: Option<u64>,
    /// The sum of amounts prepared but not yet resolved.
    pub amount_in_flight: u64,
    /// The window: the ceiling on the amount in flight.
    pub max_in_flight: u64,
}

/// The controller after `prepare(amount)`: the amount is booked, nothing
/// else moves.
pub open spec fn spec_prepare(c: CongestionController, amount: u64) -> CongestionController
    recommends
        c.amount_in_flight + amount <= u64::MAX,
{
    CongestionController { amount_in_flight: (c.amount_in_flight + amount) as u64, ..c }
}

/// The window after a fulfill: doubled in slow start, grown by the fixed
/// step in congestion avoidance, both saturating at `u64::MAX`.
pub open spec fn spec_grown_window(c: CongestionController) -> u64 {
    match c.state {
        CongestionState::SlowStart => sat_double(c.max_in_flight),
        CongestionState::AvoidCongestion => sat_add(c.max_in_flight, c.increase_amount),
    }
}

/// The controller after `fulfill(prepare_amount)`: the amount leaves the
/// in-flight sum and the window grows.
pub open spec fn spec_fulfill(c: CongestionController, prepare_amount: u64) -> CongestionController
    recommends
        prepare_amount <= c.amount_in_flight,
{
    CongestionController {
        amount_in_flight: (c.amount_in_flight - prepare_amount) as u64,
        max_in_flight: spec_grown_window(c),
        ..c
    }
}

/// The per-packet cap a parsed amount-too-large detail teaches us: the
/// receiver took `amount_received` of `prepare_amount` against its own
/// ceiling `max_amount`, so scale the prepared amount down to
/// `floor(prepare_amount * max_amount / amount_received)`, saturating at
/// `u64::MAX`.
pub open spec fn spec_cap_candidate(prepare_amount: u64, d: MaxPacketAmountDetails) -> u64
    recommends
        d.amount_received >= 1,
{
    spec_mul_div_sat(prepare_amount, d.max_amount, d.amount_received)
}

/// The learned cap after an amount-too-large reject whose payload parsed:
/// the candidate, or the smaller of it and the cap already known.
pub open spec fn spec_capped(old_cap: Option<u64>, candidate: u64) -> Option<u64> {
    match old_cap {
        Some(m) => if m <= candidate {
            Some(m)
        } else {
            Some(candidate)
        },
        None => Some(candidate),
    }
}

/// The controller after `reject(prepare_amount, signal)`: the amount leaves
/// the in-flight sum, and then
/// - an insufficient-liquidity code moves the phase to congestion avoidance
///   and divides the window by the decrease factor, floored at one;
/// - an amount-too-large code with a readable payload lowers the per-packet
///   cap to the scaled candidate, keeping the smaller of old and new; with an
///   unreadable payload it divides the cap already known, if any, by the
///   decrease factor;
/// - any other code changes nothing else.
pub open spec fn spec_reject(
    c: CongestionController,
    prepare_amount: u64,
    signal: RejectSignal,
) -> CongestionController
    recommends
        prepare_amount <= c.amount_in_flight,
        spec_signal_divisor_ok(signal),
{
    let booked = CongestionController {
        amount_in_flight: (c.amount_in_flight - prepare_amount) as u64,
        ..c
    };
    match signal.code {
        ErrorCode::InsufficientLiquidity => CongestionController {
            state: CongestionState::AvoidCongestion,
            max_in_flight: at_least_one(spec_divide(c.max_in_flight, c.decrease_factor)),
            ..booked
        },
        ErrorCode::AmountTooLarge => match spec_parse_details(signal.data@) {
            Some(d) => CongestionController {
                max_packet_amount: spec_capped(
                    c.max_packet_amount,
                    spec_cap_candidate(prepare_amount, d),
                ),
                ..booked
            },
            None => match c.max_packet_amount {
                Some(m) => CongestionController {
                    max_packet_amount: Some(spec_divide(m, c.decrease_factor)),
                    ..booked
                },
                None => booked,
            },
        },
        ErrorCode::Other => booked,
    }
}

/// A parsed amount-too-large payload must not report zero received: the cap
/// candidate divides by that field.
pub open spec fn spec_signal_divisor_ok(signal: RejectSignal) -> bool {
    signal.code is AmountTooLarge ==> match spec_parse_details(signal.data@) {
        Some(d) => d.amount_received >= 1,
        None => true,
    }
}

/// The amount still free under the window: `max_in_flight -
/// amount_in_flight`, floored at zero.
pub open spec fn spec_left_in_window(c: CongestionController) -> u64 {
    if c.amount_in_flight >= c.max_in_flight {
        0u64
    } else {
        (c.max_in_flight - c.amount_in_flight) as u64
    }
}

/// The effective per-packet cap: the learned one, or `u64::MAX` ("no cap")
/// while none is known.
pub open spec fn spec_max_packet_amount(c: CongestionController) -> u64 {
    match c.max_packet_amount {
        Some(m) => m,
        None => u64::MAX,
    }
}

impl CongestionController {
    /// Constructs a controller in slow start with an empty in-flight sum, no
    /// learned cap, and the given starting window, step and factor.
    pub fn new(
        start_amount: u64,
        increase_amount: u64,
        decrease_factor: DecreaseFactor,
    ) -> (r: Self)
        ensures
            r.state == CongestionState::SlowStart,
            r.increase_amount == increase_amount,
            r.decrease_factor == decrease_factor,
            r.max_packet_amount is None,
            r.amount_in_flight == 0,
            r.max_in_flight == start_amount,
    {
        CongestionController {
            state: CongestionState::SlowStart,
            increase_amount,
            decrease_factor,
            max_packet_amount: None,
            amount_in_flight: 0,
            max_in_flight: start_amount,
        }
    }

    /// Constructs a controller from its full state.  Meant for tests and
    /// diagnostics; production code should use `new`.
    pub fn from_parts(
        state: CongestionState,
        increase_amount: u64,
        decrease_factor: DecreaseFactor,
        max_packet_amount: Option<u64>,
        amount_in_flight: u64,
        max_in_flight: u64,
    ) -> (r: Self)
        ensures
            r.state == state,
            r.increase_amount == increase_amount,
            r.decrease_factor == decrease_factor,
            r.max_packet_amount == max_packet_amount,
            r.amount_in_flight == amount_in_flight,
            r.max_in_flight == max_in_flight,
    {
        CongestionController {
            state,
            increase_amount,
            decrease_factor,
            max_packet_amount,
            amount_in_flight,
            max_in_flight,
        }
    }

    /// The largest amount allowed in a single packet, `u64::MAX` while no
    /// cap has been learned.  Pure query.
    pub fn get_max_packet_amount(&self) -> (r: u64)
        ensures
            r == spec_max_packet_amount(*self),
    {
        match self.max_packet_amount {
            Some(m) => m,
            None => u64::MAX,
        }
    }

    /// The amount still free under the window, floored at zero.  Pure query.
    pub fn get_amount_left_in_window(&self) -> (r: u64)
        ensures
            r == spec_left_in_window(*self),
    {
        if self.amount_in_flight >= self.max_in_flight {
            0
        } else {
            self.max_in_flight - self.amount_in_flight
        }
    }

    /// Books `amount` as in flight.  The controller does not hold the amount
    /// against the window or the cap: consulting those first is the caller's
    /// job, and the caller must later resolve exactly this amount by one
    /// `fulfill` or `reject`.
    pub fn prepare(&mut self, amount: u64)
        requires
            old(self).amount_in_flight + amount <= u64::MAX,
        ensures
            *final(self) == spec_prepare(*old(self), amount),
            final(self).amount_in_flight == old(self).amount_in_flight + amount,
    {
        if amount > 0 {
            self.amount_in_flight = self.amount_in_flight + amount;
        }
    }

    /// Resolves `prepare_amount` as succeeded: it leaves the in-flight sum
    /// and the window grows — doubling in slow start, by `increase_amount`
    /// in congestion avoidance, both saturating at `u64::MAX`.
    pub fn fulfill(&mut self, prepare_amount: u64)
        requires
            prepare_amount <= old(self).amount_in_flight,
        ensures
            *final(self) == spec_fulfill(*old(self), prepare_amount),
            final(self).amount_in_flight == old(self).amount_in_flight - prepare_amount,
            final(self).max_in_flight >= old(self).max_in_flight,
            final(self).state == old(self).state,
    {
        self.amount_in_flight = self.amount_in_flight - prepare_amount;
        match self.state {
            CongestionState::SlowStart => {
                if self.max_in_flight <= u64::MAX / 2 {
                    self.max_in_flight = self.max_in_flight * 2;
                } else {
                    self.max_in_flight = u64::MAX;
                }
            },
            CongestionState::AvoidCongestion => {
                if self.max_in_flight <= u64::MAX - self.increase_amount {
                    self.max_in_flight = self.max_in_flight + self.increase_amount;
                } else {
                    self.max_in_flight = u64::MAX;
                }
            },
        }
    }

    /// Resolves `prepare_amount` as failed: it leaves the in-flight sum, and
    /// the signal's code decides the rest as [`spec_reject`] states it.
    pub fn reject(&mut self, prepare_amount: u64, signal: &RejectSignal)
        requires
            prepare_amount <= old(self).amount_in_flight,
            spec_signal_divisor_ok(*signal),
        ensures
            *final(self) == spec_reject(*old(self), prepare_amount, *signal),
            final(self).amount_in_flight == old(self).amount_in_flight - prepare_amount,
            final(self).increase_amount == old(self).increase_amount,
            final(self).decrease_factor == old(self).decrease_factor,
            !(signal.code is InsufficientLiquidity) ==> final(self).state == old(self).state
                && final(self).max_in_flight == old(self).max_in_flight,
            !(signal.code is AmountTooLarge) ==> final(self).max_packet_amount == old(
                self,
            ).max_packet_amount,
    {
        self.amount_in_flight = self.amount_in_flight - prepare_amount;
        match signal.code {
            ErrorCode::InsufficientLiquidity => {
                self.state = CongestionState::AvoidCongestion;
                let shrunk: u64 = self.decrease_factor.divide(self.max_in_flight);
                self.max_in_flight = if shrunk >= 1 {
                    shrunk
                } else {
                    1
                };
            },
            ErrorCode::AmountTooLarge => {
                match MaxPacketAmountDetails::from_bytes(signal.data.as_slice()) {
                    Ok(details) => {
                        let candidate: u64 = mul_div_sat(
                            prepare_amount,
                            details.max_amount,
                            details.amount_received,
                        );
                        let new_cap: u64 = match self.max_packet_amount {
                            Some(m) => if m <= candidate {
                                m
                            } else {
                                candidate
                            },
                            None => candidate,
                        };
                        self.max_packet_amount = Some(new_cap);
                    },
                    Err(_) => {
                        if let Some(m) = self.max_packet_amount {
                            self.max_packet_amount = Some(self.decrease_factor.divide(m));
                        }
                    },
                }
            },
            ErrorCode::Other => {},
        }
    }

    /// Resolves as `fulfill` does, but reports a resolution of more than the
    /// booked in-flight sum as an inconsistent-accounting error and leaves
    /// the controller untouched, instead of requiring the caller to rule it
    /// out.
    pub fn try_fulfill(&mut self, prepare_amount: u64) -> (r: Result<(), AccountingError>)
        ensures
            prepare_amount <= old(self).amount_in_flight ==> r is Ok && *final(self)
                == spec_fulfill(*old(self), prepare_amount),
            prepare_amount > old(self).amount_in_flight ==> r == Result::<
                (),
                AccountingError,
            >::Err(AccountingError::InconsistentAccounting) && *final(self) == *old(self),
    {
        if prepare_amount <= self.amount_in_flight {
            self.fulfill(prepare_amount);
            Ok(())
        } else {
            Err(AccountingError::InconsistentAccounting)
        }
    }

    /// Resolves as `reject` does, but reports a resolution of more than the
    /// booked in-flight sum as an inconsistent-accounting error and leaves
    /// the controller untouched.
    pub fn try_reject(&mut self, prepare_amount: u64, signal: &RejectSignal) -> (r: Result<
        (),
        AccountingError,
    >)
        requires
            spec_signal_divisor_ok(*signal),
        ensures
            prepare_amount <= old(self).amount_in_flight ==> r is Ok && *final(self)
                == spec_reject(*old(self), prepare_amount, *signal),
            prepare_amount > old(self).amount_in_flight ==> r == Result::<
                (),
                AccountingError,
            >::Err(AccountingError::InconsistentAccounting) && *final(self) == *old(self),
    {
        if prepare_amount <= self.amount_in_flight {
            self.reject(prepare_amount, signal);
            Ok(())
        } else {
            Err(AccountingError::InconsistentAccounting)
        }
    }

    /// Sets the learned per-packet cap directly.  Meant for tests and
    /// diagnostics; in production the cap is learned from rejects alone.
    pub fn set_max_packet_amount(&mut self, max_packet_amount: u64)
        ensures
            final(self).max_packet_amount == Some(max_packet_amount),
            final(self).state == old(self).state,
            final(self).increase_amount == old(self).increase_amount,
            final(self).decrease_factor == old(self).decrease_factor,
            final(self).amount_in_flight == old(self).amount_in_flight,
            final(self).max_in_flight == old(self).max_in_flight,
    {
        self.max_packet_amount = Some(max_packet_amount);
    }
}

} // verus!
