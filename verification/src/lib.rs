//! A per-connection congestion controller for a packetized,
//! receipt-acknowledged value-transfer stream.
//!
//! Every unit of value sent travels in a "prepare" packet that is later
//! resolved as either a "fulfill" (success) or a "reject" (failure carrying a
//! structured error code and an optional payload).  The controller answers,
//! at any instant, how much additional value may safely be placed in flight,
//! and adapts that limit from the stream of fulfills and rejects: an
//! Additive-Increase/Multiplicative-Decrease (AIMD) loop with an initial
//! exponential slow-start phase, plus a separate per-packet cap learned from
//! explicit "amount too large" feedback.

pub mod arith;
pub mod congestion;
pub mod factor;
pub mod laws;
pub mod packet;
