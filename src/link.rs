//! The bounded read of the link transport, as a decision taken at each poll.

use crate::session::elapsed;
use vstd::prelude::*;

verus! {

/// What a bounded read does at one poll of the link's receive status.
#[derive(Clone, Copy, Debug, PartialEq, Eq, Structural)]
pub enum RxPoll {
    /// Read the word from the receive FIFO.
    Read,
    /// Poll again.
    Wait,
    /// Give up: the read timed out.
    TimedOut,
}

/// One poll of a read with `timeout` milliseconds that began at millisecond
/// timer reading `start`, now at reading `now`, where `rx_avail` is the
/// receive-available status bit. A zero timeout never waits: the FIFO is
/// read at once. Otherwise the read waits for data until more than
/// `timeout` milliseconds have passed, across a wrap of the timer word.
pub fn com_rx(timeout: u32, start: u32, now: u32, rx_avail: bool) -> (r: RxPoll)
    ensures
        r == if rx_avail || timeout == 0 {
            RxPoll::Read
        } else if elapsed(start, now) > timeout {
            RxPoll::TimedOut
        } else {
            RxPoll::Wait
        },
{
    if rx_avail || timeout == 0 {
        RxPoll::Read
    } else if now.wrapping_sub(start) > timeout {
        RxPoll::TimedOut
    } else {
        RxPoll::Wait
    }
}

} // verus!
