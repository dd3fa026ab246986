//! Event-loop supervisor core of an embedded power/link controller: the
//! millisecond timing discipline, the watchdog and keyboard-wake interrupt
//! routine, and the command-link protocol engine with its flash-update
//! sub-protocol and update lock.
//!
//! Hardware is never touched here. Every function takes the register values
//! it needs as plain arguments and returns what the caller has to write or
//! send, so the decisions are verified for every value the hardware can give.

pub mod time;
pub mod watchdog;
pub mod verbs;
pub mod session;
pub mod com;
pub mod link;
pub mod debug;
