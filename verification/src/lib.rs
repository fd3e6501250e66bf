//! Driver for serial-in parallel-out (SIPO) shift registers, bit-banged over
//! three digital output lines (clock, latch, data).
//!
//! The driver multiplexes N independently addressable output bits onto the
//! three physical lines. Every contract in this crate speaks about the
//! sequence of logic levels written to each line, so the exact bit-banging
//! protocol (latch low, shift all N bits out highest index first, latch high)
//! is pinned down by the verifier.

pub mod pin;
pub mod sipo;
