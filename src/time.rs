//! Timer discipline: 40-bit millisecond timestamps, the bounded busy-wait
//! delay, and the tick arithmetic used to program the alarm.

use core::cmp::Ordering;
use vstd::prelude::*;

verus! {

/// Number of distinct values of the 40-bit millisecond counter.
pub open spec fn time_modulus() -> int {
    0x100_0000_0000
}

/// Largest delay that `delay_ms` honours, in milliseconds.
pub const MAX_DELAY_MS: u32 = 500;

/// Fail-safe bound on the polls of one `delay_ms`: one CPU cycle per poll at
/// 18 MHz, scaled to the longest delay.
pub const MAX_LOOP_ITERATIONS: usize = 9_000_000;

/// A reading of the 40-bit hardware millisecond timer: the low 32 bits and
/// the high word, of which 8 bits are significant.
#[derive(Clone, Copy, Debug, PartialEq, Eq, Structural)]
pub struct TimeMs {
    pub time0: u32,
    pub time1: u32,
}

impl TimeMs {
    /// The high word holds no more than 8 significant bits.
    pub open spec fn wf(self) -> bool {
        self.time1 < 0x100
    }

    /// Milliseconds since the counter was last at zero.
    pub open spec fn value(self) -> int {
        self.time1 as int * 0x1_0000_0000 + self.time0 as int
    }

    pub open spec fn spec_cmp(self, other: TimeMs) -> Ordering {
        if self.time1 < other.time1 {
            Ordering::Less
        } else if self.time1 > other.time1 {
            Ordering::Greater
        } else if self.time0 < other.time0 {
            Ordering::Less
        } else if self.time0 > other.time0 {
            Ordering::Greater
        } else {
            Ordering::Equal
        }
    }

    pub open spec fn spec_add_ms(self, interval_ms: u32) -> TimeMs {
        if self.time0 as int + interval_ms as int <= u32::MAX as int {
            TimeMs { time0: (self.time0 + interval_ms) as u32, time1: self.time1 }
        } else {
            TimeMs {
                time0: (self.time0 as int + interval_ms as int - 0x1_0000_0000) as u32,
                time1: ((self.time1 as int + 1) % 0x1_0000_0000 % 0x100) as u32,
            }
        }
    }

    /// Builds the timestamp from the two timer words `TIME0` and `TIME1`;
    /// bits of the high word beyond the counter's 40 are dropped.
    pub fn now(time0: u32, time1: u32) -> (r: TimeMs)
        ensures
            r.wf(),
            r.time0 == time0,
            r.time1 == time1 % 0x100,
    {
        TimeMs { time0, time1: time1 % 0x100 }
    }

    /// The timestamp `interval_ms` after this one. A carry out of the low
    /// word increments the high word, which wraps at 8 bits.
    pub fn add_ms(&self, interval_ms: u32) -> (r: TimeMs)
        ensures
            r == self.spec_add_ms(interval_ms),
            self.wf() ==> r.wf(),
            self.wf() ==> r.value() == (self.value() + interval_ms) % time_modulus(),
    {
        let r = if self.time0 <= u32::MAX - interval_ms {
            TimeMs { time0: self.time0 + interval_ms, time1: self.time1 }
        } else {
            TimeMs {
                time0: self.time0.wrapping_add(interval_ms),
                time1: 0xff & self.time1.wrapping_add(1),
            }
        };
        proof {
            let h = self.time1.wrapping_add(1);
            assert(0xff & h == h % 0x100) by (bit_vector);
        }
        r
    }

    /// True when this timestamp is at or after `other`.
    pub fn is_at_or_after(&self, other: &TimeMs) -> (r: bool)
        ensures
            r == (self.spec_cmp(*other) != Ordering::Less),
    {
        match self.partial_cmp(other) {
            Some(Ordering::Less) => false,
            _ => true,
        }
    }
}

impl PartialOrd for TimeMs {
    /// The high word decides; on equal high words the low word does.
    fn partial_cmp(&self, other: &TimeMs) -> (r: Option<Ordering>)
        ensures
            r == Some(self.spec_cmp(*other)),
    {
        if self.time1 < other.time1 {
            Some(Ordering::Less)
        } else if self.time1 > other.time1 {
            Some(Ordering::Greater)
        } else if self.time0 < other.time0 {
            Some(Ordering::Less)
        } else if self.time0 > other.time0 {
            Some(Ordering::Greater)
        } else {
            Some(Ordering::Equal)
        }
    }
}

impl vstd::std_specs::cmp::PartialOrdSpecImpl for TimeMs {
    open spec fn obeys_partial_cmp_spec() -> bool {
        true
    }

    open spec fn partial_cmp_spec(&self, other: &TimeMs) -> Option<Ordering> {
        Some(self.spec_cmp(*other))
    }
}

/// The stop time of a delay of `ms` requested at `start`: the request is
/// clamped to `MAX_DELAY_MS`.
pub open spec fn delay_stop(start: TimeMs, ms: u32) -> TimeMs {
    start.spec_add_ms(if ms < MAX_DELAY_MS { ms } else { MAX_DELAY_MS })
}

/// How one `delay_ms` ended.
#[derive(Clone, Copy)]
pub struct DelayOutcome {
    /// The time the delay waited for.
    pub stop: TimeMs,
    /// Clock readings taken after the first one.
    pub polls: usize,
    /// Whether a reading reached `stop` (otherwise the poll bound ended it).
    pub reached: bool,
    /// The first clock reading, from which `stop` was computed.
    pub start: Ghost<TimeMs>,
    /// The readings taken after the first one, in order.
    pub readings: Ghost<Seq<TimeMs>>,
}

/// A delay of `ms` that began at `start` and then took `readings` ran as
/// the timer discipline asks: it waited for `delay_stop(start, ms)`,
/// returned at the first reading at or after it, and otherwise gave up after
/// exactly `MAX_LOOP_ITERATIONS` readings, all before it.
pub open spec fn delay_ran(
    start: TimeMs,
    ms: u32,
    stop: TimeMs,
    readings: Seq<TimeMs>,
    polls: usize,
    reached: bool,
) -> bool {
    &&& stop == delay_stop(start, ms)
    &&& readings.len() == polls
    &&& polls <= MAX_LOOP_ITERATIONS
    &&& forall|i: int| 0 <= i < polls - 1 ==> (#[trigger] readings[i]).spec_cmp(stop) == Ordering::Less
    &&& reached <==> (polls > 0 && readings[polls - 1].spec_cmp(stop) != Ordering::Less)
    &&& !reached ==> polls == MAX_LOOP_ITERATIONS
}

/// Busy-waits until the clock reaches `ms` milliseconds after its first
/// reading, with `ms` clamped to `MAX_DELAY_MS`. The wait never takes more
/// than `MAX_LOOP_ITERATIONS` further readings: a stuck or misread timer
/// shortens the delay instead of hanging the caller. `clock` reads the
/// hardware timer.
pub fn delay_ms<F: Fn() -> TimeMs>(ms: u32, clock: &F) -> (r: DelayOutcome)
    requires
        clock.requires(()),
    ensures
        clock.ensures((), r.start@),
        forall|i: int| 0 <= i < r.readings@.len() ==> clock.ensures((), #[trigger] r.readings@[i]),
        delay_ran(r.start@, ms, r.stop, r.readings@, r.polls, r.reached),
{
    let capped_ms: u32 = if ms < MAX_DELAY_MS { ms } else { MAX_DELAY_MS };
    let start = clock();
    let stop_time = start.add_ms(capped_ms);
    let ghost mut readings: Seq<TimeMs> = Seq::empty();
    let mut i: usize = 0;
    while i < MAX_LOOP_ITERATIONS
        invariant
            i <= MAX_LOOP_ITERATIONS,
            clock.requires(()),
            clock.ensures((), start),
            stop_time == delay_stop(start, ms),
            readings.len() == i,
            forall|j: int| 0 <= j < i ==> clock.ensures((), #[trigger] readings[j]),
            forall|j: int| 0 <= j < i ==> (#[trigger] readings[j]).spec_cmp(stop_time) == Ordering::Less,
        decreases MAX_LOOP_ITERATIONS - i,
    {
        let t = clock();
        proof {
            readings = readings.push(t);
        }
        i = i + 1;
        if t.is_at_or_after(&stop_time) {
            return DelayOutcome {
                stop: stop_time,
                polls: i,
                reached: true,
                start: Ghost(start),
                readings: Ghost(readings),
            };
        }
    }
    DelayOutcome {
        stop: stop_time,
        polls: i,
        reached: false,
        start: Ghost(start),
        readings: Ghost(readings),
    }
}

/// The 64-bit tick count from the timer words `TIME0` and `TIME1`.
pub fn get_time_ticks(time0: u32, time1: u32) -> (r: u64)
    ensures
        r == time1 as int * 0x1_0000_0000 + time0 as int,
{
    (time1 as u64) * 0x1_0000_0000 + (time0 as u64)
}

/// The alarm target as the two words written to `MSLEEP_TARGET1` (high)
/// and `MSLEEP_TARGET0` (low).
#[derive(Clone, Copy, Debug, PartialEq, Eq, Structural)]
pub struct AlarmTarget {
    pub target1: u32,
    pub target0: u32,
}

impl AlarmTarget {
    pub open spec fn value(self) -> int {
        self.target1 as int * 0x1_0000_0000 + self.target0 as int
    }
}

/// The absolute alarm target `delta_ticks` after the tick count `now_ticks`,
/// wrapping at 64 bits.
pub fn set_msleep_target_ticks(now_ticks: u64, delta_ticks: u32) -> (r: AlarmTarget)
    ensures
        r.value() == (now_ticks as int + delta_ticks as int) % 0x1_0000_0000_0000_0000,
{
    let time: u64 = now_ticks.wrapping_add(delta_ticks as u64);
    AlarmTarget { target1: (time / 0x1_0000_0000) as u32, target0: (time % 0x1_0000_0000) as u32 }
}

/// Whether a tick delay of `ticks` that began at low timer word `start` is
/// over at the reading `cur`: more than `ticks` have elapsed, counted across
/// a wrap of the low word.
pub fn delay_ticks(start: u32, cur: u32, ticks: u32) -> (r: bool)
    ensures
        r == ((cur as int - start as int + 0x1_0000_0000) % 0x1_0000_0000 > ticks),
{
    cur.wrapping_sub(start) > ticks
}

/// Timestamp order is elapsed-time order: for two well-formed timestamps,
/// one compares below the other exactly when it stands for fewer
/// milliseconds, across a wrap of the low word too.
pub proof fn lemma_order_is_time_order(t1: TimeMs, t2: TimeMs)
    requires
        t1.wf(),
        t2.wf(),
    ensures
        (t1.spec_cmp(t2) == Ordering::Less) <==> t1.value() < t2.value(),
        (t1.spec_cmp(t2) == Ordering::Equal) <==> t1.value() == t2.value(),
        (t1.spec_cmp(t2) == Ordering::Greater) <==> t1.value() > t2.value(),
{
}

/// A delay longer than the ceiling runs exactly as one of the ceiling: for
/// the same first reading and the same later readings it waits for the same
/// stop time and returns after the same poll, with the same outcome.
pub proof fn lemma_delay_clamped(
    start: TimeMs,
    ms: u32,
    stop: TimeMs,
    readings: Seq<TimeMs>,
    polls: usize,
    reached: bool,
)
    requires
        ms > MAX_DELAY_MS,
    ensures
        delay_stop(start, ms) == delay_stop(start, MAX_DELAY_MS),
        delay_ran(start, ms, stop, readings, polls, reached) == delay_ran(
            start,
            MAX_DELAY_MS,
            stop,
            readings,
            polls,
            reached,
        ),
{
}

/// What a delay returns is fixed by its first reading and the readings that
/// follow: two runs that see the same readings stop after the same poll
/// with the same outcome.
pub proof fn lemma_delay_determined(
    start: TimeMs,
    ms: u32,
    stop: TimeMs,
    readings1: Seq<TimeMs>,
    polls1: usize,
    reached1: bool,
    readings2: Seq<TimeMs>,
    polls2: usize,
    reached2: bool,
)
    requires
        delay_ran(start, ms, stop, readings1, polls1, reached1),
        delay_ran(start, ms, stop, readings2, polls2, reached2),
        forall|i: int| 0 <= i < polls1 && i < polls2 ==> readings1[i] == readings2[i],
    ensures
        polls1 == polls2,
        reached1 == reached2,
        readings1 == readings2,
{
    if polls1 < polls2 {
        assert(readings2[polls1 - 1] == readings1[polls1 - 1]);
    } else if polls2 < polls1 {
        assert(readings1[polls2 - 1] == readings2[polls2 - 1]);
    }
    assert(readings1 =~= readings2);
}

} // verus!
