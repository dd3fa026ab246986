//! The periodic alarm interrupt: pets the watchdog and, while the SOC is
//! off, watches the two wake keys.
//!
//! The routine reads the wake keys only after it has driven the keyboard
//! sense lines, so it comes in two halves: `ticktimer_int_handler` plans the
//! writes up to the key sample, `IsrPlan::finish` the rest.

use vstd::prelude::*;

verus! {

/// First value of the watchdog reset sequence.
pub const WATCHDOG_CODE_FIRST: u16 = 0x600d;

/// Second value of the watchdog reset sequence.
pub const WATCHDOG_CODE_SECOND: u16 = 0xc0de;

/// Ticks between two alarm interrupts in normal operation.
pub const ALARM_INTERVAL_TICKS: u32 = 50;

/// Value of the wake-key sense field when both keys are held.
pub const BOTH_WAKE_KEYS: u32 = 3;

/// The bit fields of one whole write of the power register.
#[derive(Clone, Copy, Debug, PartialEq, Eq, Structural)]
pub struct PowerBits {
    pub self_hold: bool,
    pub soc_on: bool,
    pub discharge: bool,
    pub kbd_drive: bool,
}

/// Self-hold with the keyboard sense lines driven and discharge engaged.
pub open spec fn drive_keys() -> PowerBits {
    PowerBits { self_hold: true, soc_on: false, discharge: true, kbd_drive: true }
}

/// Self-hold with the SOC rail on.
pub open spec fn soc_power_on() -> PowerBits {
    PowerBits { self_hold: true, soc_on: true, discharge: false, kbd_drive: false }
}

/// Self-hold with discharge engaged and nothing else.
pub open spec fn discharge() -> PowerBits {
    PowerBits { self_hold: true, soc_on: false, discharge: true, kbd_drive: false }
}

/// One hardware write made by the interrupt routine.
#[derive(Clone, Copy, Debug, PartialEq, Eq, Structural)]
pub enum HwOp {
    /// Write the value to the watchdog reset-code register.
    WatchdogResetCode(u16),
    /// Write the whole power register.
    PowerWrite(PowerBits),
    /// Program the alarm this many ticks from now.
    ArmAlarm(u32),
    /// Clear the alarm-pending interrupt flag.
    ClearAlarmPending,
}

/// The first half of one pass of the interrupt routine.
#[derive(Clone, Debug)]
pub struct IsrPlan {
    /// Writes to make, in order, before the wake keys are sampled.
    pub ops: Vec<HwOp>,
    /// Whether the wake keys are to be sampled and acted on.
    pub sample_keys: bool,
}

/// The wake keys are watched only while the SOC rail is off and the power
/// state machine is idle.
pub open spec fn watches_keys(soc_on: bool, stats_state: u32) -> bool {
    !soc_on && stats_state == 0
}

pub open spec fn isr_begin_ops(soc_on: bool, stats_state: u32) -> Seq<HwOp> {
    let pet = seq![HwOp::WatchdogResetCode(WATCHDOG_CODE_FIRST), HwOp::WatchdogResetCode(WATCHDOG_CODE_SECOND)];
    if watches_keys(soc_on, stats_state) {
        pet.push(HwOp::PowerWrite(drive_keys()))
    } else {
        pet
    }
}

pub open spec fn isr_end_ops(sample_keys: bool, keys: u32) -> Seq<HwOp> {
    let tail = seq![HwOp::ArmAlarm(ALARM_INTERVAL_TICKS), HwOp::ClearAlarmPending];
    if !sample_keys {
        tail
    } else if keys == BOTH_WAKE_KEYS {
        seq![HwOp::PowerWrite(soc_power_on())] + tail
    } else {
        seq![HwOp::PowerWrite(discharge())] + tail
    }
}

/// Plans a pass of the alarm interrupt from the SOC-on bit of the power
/// register and the power state machine's state: the two watchdog writes,
/// then, when the keys are watched, driving the keyboard sense lines.
pub fn ticktimer_int_handler(soc_on: bool, stats_state: u32) -> (r: IsrPlan)
    ensures
        r.ops@ == isr_begin_ops(soc_on, stats_state),
        r.sample_keys == watches_keys(soc_on, stats_state),
{
    let mut ops: Vec<HwOp> = Vec::new();
    ops.push(HwOp::WatchdogResetCode(WATCHDOG_CODE_FIRST));
    ops.push(HwOp::WatchdogResetCode(WATCHDOG_CODE_SECOND));
    let sample_keys = !soc_on && stats_state == 0;
    if sample_keys {
        ops.push(HwOp::PowerWrite(PowerBits { self_hold: true, soc_on: false, discharge: true, kbd_drive: true }));
    }
    proof {
        assert(ops@ =~= isr_begin_ops(soc_on, stats_state));
    }
    IsrPlan { ops, sample_keys }
}

impl IsrPlan {
    /// The rest of the pass, given the wake-key sense field read after the
    /// first half's writes: both keys power the SOC on, anything else puts
    /// back discharge; then the alarm is re-armed and, last, its pending
    /// flag cleared.
    pub fn finish(&self, keys: u32) -> (r: Vec<HwOp>)
        ensures
            r@ == isr_end_ops(self.sample_keys, keys),
    {
        let mut ops: Vec<HwOp> = Vec::new();
        if self.sample_keys {
            if keys == BOTH_WAKE_KEYS {
                ops.push(HwOp::PowerWrite(PowerBits { self_hold: true, soc_on: true, discharge: false, kbd_drive: false }));
            } else {
                ops.push(HwOp::PowerWrite(PowerBits { self_hold: true, soc_on: false, discharge: true, kbd_drive: false }));
            }
        }
        ops.push(HwOp::ArmAlarm(ALARM_INTERVAL_TICKS));
        ops.push(HwOp::ClearAlarmPending);
        proof {
            assert(ops@ =~= isr_end_ops(self.sample_keys, keys));
        }
        ops
    }
}

/// Every pass of the interrupt routine, whatever the power state and the
/// keys, begins with both watchdog writes, first value then second, and
/// ends by re-arming the alarm and then clearing its pending flag.
pub proof fn lemma_isr_always_pets_watchdog(soc_on: bool, stats_state: u32, keys: u32)
    ensures
        ({
            let pass = isr_begin_ops(soc_on, stats_state) + isr_end_ops(
                watches_keys(soc_on, stats_state),
                keys,
            );
            &&& pass[0] == HwOp::WatchdogResetCode(WATCHDOG_CODE_FIRST)
            &&& pass[1] == HwOp::WatchdogResetCode(WATCHDOG_CODE_SECOND)
            &&& pass[pass.len() - 2] == HwOp::ArmAlarm(ALARM_INTERVAL_TICKS)
            &&& pass[pass.len() - 1] == HwOp::ClearAlarmPending
        }),
{
}

} // verus!
