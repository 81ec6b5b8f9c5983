//! A minimal bidirectional UDP messaging core.
//!
//! The verified heart of the system is a producer/consumer handoff across two
//! execution contexts with exactly one pending message slot, plus the small
//! protocol state it enables: peer-address tracking, a bounded log of display
//! entries, and the pure reaction of each protocol variant to an arrived
//! datagram. The caller owns the socket and the background receive loop; it
//! hands each receive attempt's outcome to [`inbox::receive_step`] and drives
//! a [`session::Session`] once per foreground tick.

pub mod inbox;
pub mod logbuf;
pub mod session;
pub mod text;
