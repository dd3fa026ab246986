//! The command-link protocol engine.
//!
//! One transaction is an opcode word, then a number of argument words fixed
//! by the opcode, each read with its own timeout. The engine reads all of
//! them even when one times out, so the link stays word-aligned; the
//! command's effect happens only when every read succeeded. What the
//! command does is returned as a list of actions for the caller to carry
//! out in order; each action sends a number of result words fixed by its
//! kind, so every opcode has one reply shape whatever went wrong.

use crate::session::{elapsed, spec_housekeeping, LinkSession, PowerSession};
use crate::verbs::{
    spec_decode_verb, decode_verb, Verb, ERROR, FLASH_ACK, FLASH_ERASE, FLASH_PP, GG_FACTORY_CAPACITY,
    LOOP_TEST, WF200_RESET, WFX_PDS_LINE_SET,
};
use crate::watchdog::{discharge, PowerBits};
use vstd::prelude::*;

verus! {

/// Words of a flash page and of a PDS line.
pub const PAGE_WORDS: usize = 128;

/// Power-down requests closer than this many milliseconds to the last one
/// that took effect are ignored.
pub const POWER_DOWN_DEBOUNCE_MS: u32 = 1500;

/// Alarm interval, in ticks, armed after a power-down so that discharge can
/// complete before the next watchdog pass.
pub const DISCHARGE_ALARM_TICKS: u32 = 500;

/// Design capacity used when the requested one is implausible.
pub const DEFAULT_CAPACITY: u16 = 1100;

/// First word of the reply to `STAT`.
pub const STAT_HEADER: u16 = 0x8888;

/// One step of a command, for the caller to carry out.
#[derive(Clone, Debug, PartialEq, Eq)]
pub enum ComAction {
    /// Send this word.
    Tx(u16),
    /// Send the low 16 bits of the power register.
    TxPowerRegister,
    /// Send 1 if the SSID list changed, else 0.
    TxSsidUpdated,
    /// Send the SSID list: 96 words.
    TxSsidList,
    /// Call the gas gauge's design-capacity setter (a query when `None`)
    /// and send the capacity it returns.
    GasGaugeCapacity(Option<u16>),
    /// Refresh the charger registers and send the first twelve.
    TxChargerRegisters,
    /// Send 1 if the battery is charging, else 0.
    TxChargingStatus,
    /// Send the state of charge.
    TxGgSoc,
    /// Send the remaining capacity.
    TxGgRemaining,
    /// Send the full capacity.
    TxGgFullCapacity,
    /// Take a new gyro reading.
    GyroUpdate,
    /// Send the gyro's x, y, z and id.
    TxGyro,
    /// Send the three USB-CC status words and the USB-CC chip revision.
    TxUsbCcStatus,
    /// Send the Wi-Fi receive statistics: 188 words.
    TxWfxRxStats,
    /// Send the Wi-Fi firmware major, minor and build numbers.
    TxWfxFwRev,
    /// Send the gateware revision (high, low) and dirty flag.
    TxGitRev,
    /// Set the main and secondary backlight levels.
    SetBacklight(u8, u8),
    ChargerStart,
    ChargerBoostOn,
    ChargerBoostOff,
    ChargerShipmode,
    GasGaugeHibernate,
    /// Write the whole power register.
    PowerWrite(PowerBits),
    /// Program the alarm this many ticks from now.
    ArmAlarm(u32),
    /// Empty both link FIFOs and clear the link error flags.
    LinkReset,
    /// Erase `len` bytes of flash from `address`.
    FlashErase { address: u32, len: u32 },
    /// Program a 256-byte page at `address`.
    FlashProgram { address: u32, page: Vec<u8> },
    /// Hand a PDS line of `len` bytes to the Wi-Fi driver.
    SendPds { data: Vec<u8>, len: u16 },
    /// Enable or mask the Wi-Fi interrupt.
    WifiIrqEnable(bool),
    /// Assert (`true`) or release the Wi-Fi chip's reset line.
    WifiReset(bool),
    /// Wait this many milliseconds.
    Delay(u32),
    /// Restart the Wi-Fi bring-up delay from the timer reading taken now
    /// (through `LinkSession::wifi_reset_done`).
    RestartWifiTimer,
}

/// `ComAction` with its byte buffers seen as sequences.
pub enum ActionView {
    Tx(u16),
    TxPowerRegister,
    TxSsidUpdated,
    TxSsidList,
    GasGaugeCapacity(Option<u16>),
    TxChargerRegisters,
    TxChargingStatus,
    TxGgSoc,
    TxGgRemaining,
    TxGgFullCapacity,
    GyroUpdate,
    TxGyro,
    TxUsbCcStatus,
    TxWfxRxStats,
    TxWfxFwRev,
    TxGitRev,
    SetBacklight(u8, u8),
    ChargerStart,
    ChargerBoostOn,
    ChargerBoostOff,
    ChargerShipmode,
    GasGaugeHibernate,
    PowerWrite(PowerBits),
    ArmAlarm(u32),
    LinkReset,
    FlashErase { address: u32, len: u32 },
    FlashProgram { address: u32, page: Seq<u8> },
    SendPds { data: Seq<u8>, len: u16 },
    WifiIrqEnable(bool),
    WifiReset(bool),
    Delay(u32),
    RestartWifiTimer,
}

impl View for ComAction {
    type V = ActionView;

    open spec fn view(&self) -> ActionView {
        match self {
            ComAction::Tx(w) => ActionView::Tx(*w),
            ComAction::TxPowerRegister => ActionView::TxPowerRegister,
            ComAction::TxSsidUpdated => ActionView::TxSsidUpdated,
            ComAction::TxSsidList => ActionView::TxSsidList,
            ComAction::GasGaugeCapacity(c) => ActionView::GasGaugeCapacity(*c),
            ComAction::TxChargerRegisters => ActionView::TxChargerRegisters,
            ComAction::TxChargingStatus => ActionView::TxChargingStatus,
            ComAction::TxGgSoc => ActionView::TxGgSoc,
            ComAction::TxGgRemaining => ActionView::TxGgRemaining,
            ComAction::TxGgFullCapacity => ActionView::TxGgFullCapacity,
            ComAction::GyroUpdate => ActionView::GyroUpdate,
            ComAction::TxGyro => ActionView::TxGyro,
            ComAction::TxUsbCcStatus => ActionView::TxUsbCcStatus,
            ComAction::TxWfxRxStats => ActionView::TxWfxRxStats,
            ComAction::TxWfxFwRev => ActionView::TxWfxFwRev,
            ComAction::TxGitRev => ActionView::TxGitRev,
            ComAction::SetBacklight(m, s) => ActionView::SetBacklight(*m, *s),
            ComAction::ChargerStart => ActionView::ChargerStart,
            ComAction::ChargerBoostOn => ActionView::ChargerBoostOn,
            ComAction::ChargerBoostOff => ActionView::ChargerBoostOff,
            ComAction::ChargerShipmode => ActionView::ChargerShipmode,
            ComAction::GasGaugeHibernate => ActionView::GasGaugeHibernate,
            ComAction::PowerWrite(b) => ActionView::PowerWrite(*b),
            ComAction::ArmAlarm(t) => ActionView::ArmAlarm(*t),
            ComAction::LinkReset => ActionView::LinkReset,
            ComAction::FlashErase { address, len } => ActionView::FlashErase { address: *address, len: *len },
            ComAction::FlashProgram { address, page } => ActionView::FlashProgram { address: *address, page: page@ },
            ComAction::SendPds { data, len } => ActionView::SendPds { data: data@, len: *len },
            ComAction::WifiIrqEnable(e) => ActionView::WifiIrqEnable(*e),
            ComAction::WifiReset(a) => ActionView::WifiReset(*a),
            ComAction::Delay(ms) => ActionView::Delay(*ms),
            ComAction::RestartWifiTimer => ActionView::RestartWifiTimer,
        }
    }
}

/// The result words that an action sends.
pub open spec fn tx_words(a: ActionView) -> nat {
    match a {
        ActionView::Tx(_) => 1,
        ActionView::TxPowerRegister => 1,
        ActionView::TxSsidUpdated => 1,
        ActionView::TxSsidList => 96,
        ActionView::GasGaugeCapacity(_) => 1,
        ActionView::TxChargerRegisters => 12,
        ActionView::TxChargingStatus => 1,
        ActionView::TxGgSoc => 1,
        ActionView::TxGgRemaining => 1,
        ActionView::TxGgFullCapacity => 1,
        ActionView::TxGyro => 4,
        ActionView::TxUsbCcStatus => 4,
        ActionView::TxWfxRxStats => 188,
        ActionView::TxWfxFwRev => 3,
        ActionView::TxGitRev => 3,
        _ => 0,
    }
}

/// The result words that the first `n` actions send.
pub open spec fn words_upto(s: Seq<ActionView>, n: int) -> nat
    decreases n,
{
    if n <= 0 {
        0
    } else {
        words_upto(s, n - 1) + tx_words(s[n - 1])
    }
}

/// The result words that a list of actions sends.
pub open spec fn reply_words(s: Seq<ActionView>) -> nat {
    words_upto(s, s.len() as int)
}

/// The number of result words of each verb.
pub open spec fn reply_shape(v: Verb) -> nat {
    match v {
        Verb::SsidCheck => 1,
        Verb::SsidFetch => 96,
        Verb::LoopTest => 1,
        Verb::GasGauge => 4,
        Verb::GgFactoryCapacity => 1,
        Verb::GgGetCapacity => 1,
        Verb::GgDebug => 1,
        Verb::Stat => 16,
        Verb::PowerOff => 1,
        Verb::PowerChargerState => 1,
        Verb::GgSoc => 1,
        Verb::GgRemaining => 1,
        Verb::GgFullCapacity => 1,
        Verb::GyroRead => 4,
        Verb::PollUsbCc => 5,
        Verb::FlashWaitack => 1,
        Verb::WfxRxstatGet => 188,
        Verb::WfxFwRevGet => 3,
        Verb::EcGitRev => 3,
        Verb::Unknown => 1,
        _ => 0,
    }
}

pub open spec fn views(s: Seq<ComAction>) -> Seq<ActionView> {
    s.map_values(|a: ComAction| a@)
}

/// The timeout, in milliseconds, of each argument read of a verb, in order.
pub open spec fn arg_timeouts(v: Verb) -> Seq<u32> {
    match v {
        Verb::GgFactoryCapacity => seq![250u32],
        Verb::Wf200Reset => seq![250u32],
        Verb::FlashErase => Seq::new(4, |i: int| 100u32),
        Verb::FlashPp => Seq::new(130, |i: int| if i < 2 { 100u32 } else { 200u32 }),
        Verb::WfxPdsLineSet => Seq::new(129, |i: int| 500u32),
        _ => Seq::empty(),
    }
}

/// Whether every argument read succeeded.
pub open spec fn all_read(args: Seq<Option<u16>>) -> bool {
    forall|i: int| 0 <= i < args.len() ==> (#[trigger] args[i]) is Some
}

/// The value of an argument read, zero where it timed out.
pub open spec fn word(args: Seq<Option<u16>>, i: int) -> u16 {
    match args[i] {
        Some(w) => w,
        None => 0,
    }
}

/// The 32-bit value sent as two words from `first`, high word first.
pub open spec fn long_at(args: Seq<Option<u16>>, first: int) -> u32 {
    (word(args, first) as int * 0x1_0000 + word(args, first + 1) as int) as u32
}

/// The 256 bytes sent as 128 words from `first`, each word low byte first.
pub open spec fn bytes_at(args: Seq<Option<u16>>, first: int) -> Seq<u8> {
    Seq::new(
        256,
        |j: int|
            if j % 2 == 0 {
                (word(args, first + j / 2) % 256) as u8
            } else {
                (word(args, first + j / 2) / 256) as u8
            },
    )
}

/// A requested design capacity outside 601 to 1899 mAh is taken as a
/// protocol error and replaced by the default.
pub open spec fn sane_capacity(c: u16) -> u16 {
    if c >= 1900 || c <= 600 {
        DEFAULT_CAPACITY
    } else {
        c
    }
}

/// The effect of one transaction: the actions, in order, and the states after.
pub struct ComStep {
    pub actions: Seq<ActionView>,
    pub link: LinkSession,
    pub pow: PowerSession,
}

pub open spec fn step(actions: Seq<ActionView>, link: LinkSession, pow: PowerSession) -> ComStep {
    ComStep { actions, link, pow }
}

/// What a verb does, given its argument reads, the states before, and the
/// millisecond timer's low word.
pub open spec fn com_step(
    v: Verb,
    args: Seq<Option<u16>>,
    link: LinkSession,
    pow: PowerSession,
    now: u32,
) -> ComStep {
    match v {
        Verb::SsidCheck => step(seq![ActionView::TxSsidUpdated], link, pow),
        Verb::SsidFetch => step(seq![ActionView::TxSsidList], link, pow),
        Verb::LoopTest => step(
            seq![ActionView::Tx((LOOP_TEST % 256 + (link.com_sentinel % 256) * 256) as u16)],
            LinkSession { com_sentinel: ((link.com_sentinel + 1) % 0x1_0000) as u16, ..link },
            pow,
        ),
        Verb::GasGauge => step(
            seq![
                ActionView::Tx(pow.current as u16),
                ActionView::Tx(pow.stby_current as u16),
                ActionView::Tx(pow.voltage as u16),
                ActionView::TxPowerRegister,
            ],
            link,
            pow,
        ),
        Verb::GgFactoryCapacity => if all_read(args) {
            step(seq![ActionView::GasGaugeCapacity(Some(sane_capacity(word(args, 0))))], link, pow)
        } else {
            step(seq![ActionView::Tx(ERROR)], link, pow)
        },
        Verb::GgGetCapacity => step(seq![ActionView::GasGaugeCapacity(None)], link, pow),
        Verb::GgDebug => step(
            seq![ActionView::Tx(if pow.voltage_glitch { 1u16 } else { 0u16 })],
            link,
            PowerSession { voltage_glitch: false, ..pow },
        ),
        Verb::Stat => step(
            seq![
                ActionView::Tx(STAT_HEADER),
                ActionView::TxChargerRegisters,
                ActionView::Tx(pow.voltage as u16),
                ActionView::Tx(pow.stby_current as u16),
                ActionView::Tx(pow.current as u16),
            ],
            link,
            pow,
        ),
        Verb::PowerOff => if elapsed(link.pd_loop_timer, now) > POWER_DOWN_DEBOUNCE_MS {
            step(
                seq![
                    ActionView::TxPowerRegister,
                    ActionView::SetBacklight(0, 0),
                    ActionView::PowerWrite(discharge()),
                    ActionView::ArmAlarm(DISCHARGE_ALARM_TICKS),
                ],
                LinkSession { pd_loop_timer: now, ..link },
                pow,
            )
        } else {
            step(seq![ActionView::TxPowerRegister, ActionView::SetBacklight(0, 0)], link, pow)
        },
        Verb::PowerShipmode => step(
            seq![
                ActionView::SetBacklight(0, 0),
                ActionView::ChargerShipmode,
                ActionView::GasGaugeHibernate,
                ActionView::PowerWrite(discharge()),
                ActionView::ArmAlarm(DISCHARGE_ALARM_TICKS),
            ],
            LinkSession { pd_loop_timer: now, ..link },
            pow,
        ),
        Verb::PowerChargerState => step(seq![ActionView::TxChargingStatus], link, pow),
        Verb::GgSoc => step(seq![ActionView::TxGgSoc], link, pow),
        Verb::GgRemaining => step(seq![ActionView::TxGgRemaining], link, pow),
        Verb::GgFullCapacity => step(seq![ActionView::TxGgFullCapacity], link, pow),
        Verb::GyroUpdate => step(seq![ActionView::GyroUpdate], link, pow),
        Verb::GyroRead => step(seq![ActionView::TxGyro], link, pow),
        Verb::PollUsbCc => step(
            seq![
                ActionView::Tx(if pow.usb_cc_event { 1u16 } else { 0u16 }),
                ActionView::TxUsbCcStatus,
            ],
            link,
            PowerSession { usb_cc_event: false, ..pow },
        ),
        Verb::ChgStart => step(seq![ActionView::ChargerStart], link, pow),
        Verb::ChgBoostOn => step(seq![ActionView::ChargerBoostOn], link, pow),
        Verb::ChgBoostOff => step(seq![ActionView::ChargerBoostOff], link, pow),
        Verb::Backlight { main, sec } => step(seq![ActionView::SetBacklight(main, sec)], link, pow),
        Verb::LinkRead => step(Seq::empty(), link, pow),
        Verb::LinkSync => step(seq![ActionView::LinkReset], link, pow),
        Verb::FlashErase => if all_read(args) {
            step(
                seq![ActionView::FlashErase { address: long_at(args, 0), len: long_at(args, 2) }],
                link,
                pow,
            )
        } else {
            step(Seq::empty(), link, pow)
        },
        Verb::FlashPp => if all_read(args) {
            step(
                seq![ActionView::FlashProgram { address: long_at(args, 0), page: bytes_at(args, 2) }],
                link,
                pow,
            )
        } else {
            step(Seq::empty(), link, pow)
        },
        Verb::FlashLock => step(
            seq![ActionView::WifiIrqEnable(false)],
            LinkSession { flash_update_lock: true, ..link },
            pow,
        ),
        Verb::FlashUnlock => step(
            seq![ActionView::WifiIrqEnable(true)],
            LinkSession { flash_update_lock: false, ..link },
            pow,
        ),
        Verb::FlashWaitack => step(seq![ActionView::Tx(FLASH_ACK)], link, pow),
        Verb::WfxRxstatGet => step(seq![ActionView::TxWfxRxStats], link, pow),
        Verb::WfxPdsLineSet => if all_read(args) && word(args, 0) < 256 {
            step(
                seq![
                    ActionView::SendPds { data: bytes_at(args, 1), len: word(args, 0) },
                    ActionView::LinkReset,
                ],
                link,
                pow,
            )
        } else {
            step(seq![ActionView::LinkReset], link, pow)
        },
        Verb::WfxFwRevGet => step(seq![ActionView::TxWfxFwRev], link, pow),
        Verb::EcGitRev => step(seq![ActionView::TxGitRev], link, pow),
        Verb::Wf200Reset => if args[0] == Some(0u16) || args[0] is None {
            step(
                seq![
                    ActionView::WifiReset(true),
                    ActionView::Delay(10),
                    ActionView::WifiReset(false),
                    ActionView::Delay(10),
                    ActionView::RestartWifiTimer,
                ],
                LinkSession { wifi_ready: false, use_wifi: true, ..link },
                pow,
            )
        } else {
            step(
                seq![ActionView::WifiReset(true)],
                LinkSession { wifi_ready: false, use_wifi: false, ..link },
                pow,
            )
        },
        Verb::SsidScanOn => step(Seq::empty(), LinkSession { do_scan: true, ..link }, pow),
        Verb::SsidScanOff => step(Seq::empty(), LinkSession { do_scan: false, ..link }, pow),
        Verb::Unknown => step(seq![ActionView::Tx(ERROR)], link, pow),
    }
}

fn acts0() -> (r: Vec<ComAction>)
    ensures
        views(r@) == Seq::<ActionView>::empty(),
{
    let r: Vec<ComAction> = Vec::new();
    proof {
        assert(views(r@) =~= Seq::<ActionView>::empty());
    }
    r
}

fn acts1(a: ComAction) -> (r: Vec<ComAction>)
    ensures
        views(r@) == seq![a@],
{
    let r = vec![a];
    proof {
        assert(views(r@) =~= seq![a@]);
    }
    r
}

fn acts2(a: ComAction, b: ComAction) -> (r: Vec<ComAction>)
    ensures
        views(r@) == seq![a@, b@],
{
    let r = vec![a, b];
    proof {
        assert(views(r@) =~= seq![a@, b@]);
    }
    r
}

fn acts4(a: ComAction, b: ComAction, c: ComAction, d: ComAction) -> (r: Vec<ComAction>)
    ensures
        views(r@) == seq![a@, b@, c@, d@],
{
    let r = vec![a, b, c, d];
    proof {
        assert(views(r@) =~= seq![a@, b@, c@, d@]);
    }
    r
}

fn acts5(a: ComAction, b: ComAction, c: ComAction, d: ComAction, e: ComAction) -> (r: Vec<ComAction>)
    ensures
        views(r@) == seq![a@, b@, c@, d@, e@],
{
    let r = vec![a, b, c, d, e];
    proof {
        assert(views(r@) =~= seq![a@, b@, c@, d@, e@]);
    }
    r
}

/// The number of argument words of a verb.
pub fn arg_count(v: Verb) -> (r: usize)
    ensures
        r == arg_timeouts(v).len(),
{
    match v {
        Verb::GgFactoryCapacity => 1,
        Verb::Wf200Reset => 1,
        Verb::FlashErase => 4,
        Verb::FlashPp => 2 + PAGE_WORDS,
        Verb::WfxPdsLineSet => 1 + PAGE_WORDS,
        _ => 0,
    }
}

/// The timeout, in milliseconds, of argument read `i` of a verb.
pub fn arg_timeout(v: Verb, i: usize) -> (r: u32)
    requires
        i < arg_timeouts(v).len(),
    ensures
        r == arg_timeouts(v)[i as int],
{
    match v {
        Verb::FlashErase => 100,
        Verb::FlashPp => if i < 2 { 100 } else { 200 },
        Verb::WfxPdsLineSet => 500,
        _ => 250,
    }
}

/// Whether every argument read succeeded.
pub fn all_args_read(args: &Vec<Option<u16>>) -> (r: bool)
    ensures
        r == all_read(args@),
{
    let mut i: usize = 0;
    while i < args.len()
        invariant
            i <= args.len(),
            forall|j: int| 0 <= j < i ==> (#[trigger] args@[j]) is Some,
        decreases args.len() - i,
    {
        if args[i].is_none() {
            return false;
        }
        i = i + 1;
    }
    true
}

fn arg_word(args: &Vec<Option<u16>>, i: usize) -> (r: u16)
    requires
        i < args.len(),
    ensures
        r == word(args@, i as int),
{
    match args[i] {
        Some(w) => w,
        None => 0,
    }
}

/// The 32-bit value sent as two words from `first`, high word first.
pub fn long_from(args: &Vec<Option<u16>>, first: usize) -> (r: u32)
    requires
        first + 2 <= args.len(),
    ensures
        r == long_at(args@, first as int),
{
    let hi = arg_word(args, first);
    let lo = arg_word(args, first + 1);
    (hi as u32) * 0x1_0000 + (lo as u32)
}

/// The 256 bytes sent as 128 words from `first`, each word low byte first.
pub fn bytes_from(args: &Vec<Option<u16>>, first: usize) -> (r: Vec<u8>)
    requires
        first + PAGE_WORDS <= args.len(),
    ensures
        r@ == bytes_at(args@, first as int),
{
    let mut page: Vec<u8> = Vec::new();
    let mut i: usize = 0;
    while i < PAGE_WORDS
        invariant
            i <= PAGE_WORDS,
            first + PAGE_WORDS <= args.len(),
            page@.len() == 2 * i,
            forall|j: int| 0 <= j < 2 * i ==> page@[j] == bytes_at(args@, first as int)[j],
        decreases PAGE_WORDS - i,
    {
        let w = arg_word(args, first + i);
        page.push((w % 256) as u8);
        page.push((w / 256) as u8);
        i = i + 1;
    }
    proof {
        assert(page@ =~= bytes_at(args@, first as int));
    }
    page
}

/// Carries out a decoded verb whose argument reads are `args` (`None` for
/// a read that timed out), at millisecond timer reading `now`: updates the
/// states and returns the actions, as `com_step` states.
#[verifier::spinoff_prover]
#[verifier::rlimit(100)]
pub fn handle_verb(
    v: Verb,
    args: &Vec<Option<u16>>,
    link: &mut LinkSession,
    pow: &mut PowerSession,
    now: u32,
) -> (r: Vec<ComAction>)
    requires
        args.len() == arg_timeouts(v).len(),
    ensures
        ({
            let s = com_step(v, args@, *old(link), *old(pow), now);
            &&& views(r@) == s.actions
            &&& *final(link) == s.link
            &&& *final(pow) == s.pow
        }),
{
    match v {
        Verb::SsidCheck => acts1(ComAction::TxSsidUpdated),
        Verb::SsidFetch => acts1(ComAction::TxSsidList),
        Verb::LoopTest => {
            let reply: u16 = LOOP_TEST % 256 + (link.com_sentinel % 256) * 256;
            link.com_sentinel = link.com_sentinel.wrapping_add(1);
            acts1(ComAction::Tx(reply))
        },
        Verb::GasGauge => acts4(
            ComAction::Tx(pow.current as u16),
            ComAction::Tx(pow.stby_current as u16),
            ComAction::Tx(pow.voltage as u16),
            ComAction::TxPowerRegister,
        ),
        Verb::GgFactoryCapacity => {
            if all_args_read(args) {
                let requested = arg_word(args, 0);
                let capacity: u16 = if requested >= 1900 || requested <= 600 {
                    DEFAULT_CAPACITY
                } else {
                    requested
                };
                acts1(ComAction::GasGaugeCapacity(Some(capacity)))
            } else {
                acts1(ComAction::Tx(ERROR))
            }
        },
        Verb::GgGetCapacity => acts1(ComAction::GasGaugeCapacity(None)),
        Verb::GgDebug => {
            let glitch: u16 = if pow.voltage_glitch { 1 } else { 0 };
            pow.voltage_glitch = false;
            acts1(ComAction::Tx(glitch))
        },
        Verb::Stat => acts5(
            ComAction::Tx(STAT_HEADER),
            ComAction::TxChargerRegisters,
            ComAction::Tx(pow.voltage as u16),
            ComAction::Tx(pow.stby_current as u16),
            ComAction::Tx(pow.current as u16),
        ),
        Verb::PowerOff => {
            if now.wrapping_sub(link.pd_loop_timer) > POWER_DOWN_DEBOUNCE_MS {
                link.pd_loop_timer = now;
                acts4(
                    ComAction::TxPowerRegister,
                    ComAction::SetBacklight(0, 0),
                    ComAction::PowerWrite(
                        PowerBits { self_hold: true, soc_on: false, discharge: true, kbd_drive: false },
                    ),
                    ComAction::ArmAlarm(DISCHARGE_ALARM_TICKS),
                )
            } else {
                acts2(ComAction::TxPowerRegister, ComAction::SetBacklight(0, 0))
            }
        },
        Verb::PowerShipmode => {
            link.pd_loop_timer = now;
            acts5(
                ComAction::SetBacklight(0, 0),
                ComAction::ChargerShipmode,
                ComAction::GasGaugeHibernate,
                ComAction::PowerWrite(
                    PowerBits { self_hold: true, soc_on: false, discharge: true, kbd_drive: false },
                ),
                ComAction::ArmAlarm(DISCHARGE_ALARM_TICKS),
            )
        },
        Verb::PowerChargerState => acts1(ComAction::TxChargingStatus),
        Verb::GgSoc => acts1(ComAction::TxGgSoc),
        Verb::GgRemaining => acts1(ComAction::TxGgRemaining),
        Verb::GgFullCapacity => acts1(ComAction::TxGgFullCapacity),
        Verb::GyroUpdate => acts1(ComAction::GyroUpdate),
        Verb::GyroRead => acts1(ComAction::TxGyro),
        Verb::PollUsbCc => {
            let event: u16 = if pow.usb_cc_event { 1 } else { 0 };
            pow.usb_cc_event = false;
            acts2(ComAction::Tx(event), ComAction::TxUsbCcStatus)
        },
        Verb::ChgStart => acts1(ComAction::ChargerStart),
        Verb::ChgBoostOn => acts1(ComAction::ChargerBoostOn),
        Verb::ChgBoostOff => acts1(ComAction::ChargerBoostOff),
        Verb::Backlight { main, sec } => acts1(ComAction::SetBacklight(main, sec)),
        Verb::LinkRead => acts0(),
        Verb::LinkSync => acts1(ComAction::LinkReset),
        Verb::FlashErase => {
            if all_args_read(args) {
                let address = long_from(args, 0);
                let len = long_from(args, 2);
                acts1(ComAction::FlashErase { address, len })
            } else {
                acts0()
            }
        },
        Verb::FlashPp => {
            if all_args_read(args) {
                let address = long_from(args, 0);
                let page = bytes_from(args, 2);
                acts1(ComAction::FlashProgram { address, page })
            } else {
                acts0()
            }
        },
        Verb::FlashLock => {
            link.flash_update_lock = true;
            acts1(ComAction::WifiIrqEnable(false))
        },
        Verb::FlashUnlock => {
            link.flash_update_lock = false;
            acts1(ComAction::WifiIrqEnable(true))
        },
        Verb::FlashWaitack => acts1(ComAction::Tx(FLASH_ACK)),
        Verb::WfxRxstatGet => acts1(ComAction::TxWfxRxStats),
        Verb::WfxPdsLineSet => {
            let len = arg_word(args, 0);
            if all_args_read(args) && len < 256 {
                let data = bytes_from(args, 1);
                acts2(ComAction::SendPds { data, len }, ComAction::LinkReset)
            } else {
                acts1(ComAction::LinkReset)
            }
        },
        Verb::WfxFwRevGet => acts1(ComAction::TxWfxFwRev),
        Verb::EcGitRev => acts1(ComAction::TxGitRev),
        Verb::Wf200Reset => {
            link.wifi_ready = false;
            match args[0] {
                Some(w) if w != 0 => {
                    link.use_wifi = false;
                    acts1(ComAction::WifiReset(true))
                },
                _ => {
                    link.use_wifi = true;
                    acts5(
                        ComAction::WifiReset(true),
                        ComAction::Delay(10),
                        ComAction::WifiReset(false),
                        ComAction::Delay(10),
                        ComAction::RestartWifiTimer,
                    )
                },
            }
        },
        Verb::SsidScanOn => {
            link.do_scan = true;
            acts0()
        },
        Verb::SsidScanOff => {
            link.do_scan = false;
            acts0()
        },
        Verb::Unknown => acts1(ComAction::Tx(ERROR)),
    }
}

/// Reads the argument words of a verb, one `recv` per word with that
/// word's timeout, in order. A read that times out does not end the
/// reading: the number of reads is the verb's argument count whatever
/// `recv` returns.
pub fn read_args<F: Fn(u32) -> Option<u16>>(v: Verb, recv: &F) -> (r: Vec<Option<u16>>)
    requires
        forall|t: u32| recv.requires((t,)),
    ensures
        r@.len() == arg_timeouts(v).len(),
        forall|i: int| 0 <= i < r@.len() ==> recv.ensures((arg_timeouts(v)[i],), #[trigger] r@[i]),
{
    let n = arg_count(v);
    let mut args: Vec<Option<u16>> = Vec::new();
    let mut i: usize = 0;
    while i < n
        invariant
            n == arg_timeouts(v).len(),
            i <= n,
            args@.len() == i,
            forall|t: u32| recv.requires((t,)),
            forall|j: int| 0 <= j < i ==> recv.ensures((arg_timeouts(v)[j],), #[trigger] args@[j]),
        decreases n - i,
    {
        let timeout = arg_timeout(v, i);
        let w = recv(timeout);
        args.push(w);
        i = i + 1;
    }
    args
}

/// One transaction as it went: the decoded opcode, what each argument read
/// returned, and the actions to carry out.
pub struct Transaction {
    pub verb: Verb,
    pub args: Vec<Option<u16>>,
    pub actions: Vec<ComAction>,
}

/// Runs one transaction for the opcode word `rx`: decodes it, reads its
/// argument words through `recv` (the link's bounded read, given a timeout
/// in milliseconds; `None` on timeout), and carries the verb out at
/// millisecond timer reading `now`.
pub fn com_dispatch<F: Fn(u32) -> Option<u16>>(
    rx: u16,
    link: &mut LinkSession,
    pow: &mut PowerSession,
    now: u32,
    recv: &F,
) -> (r: Transaction)
    requires
        forall|t: u32| recv.requires((t,)),
    ensures
        r.verb == spec_decode_verb(rx),
        r.args@.len() == arg_timeouts(spec_decode_verb(rx)).len(),
        forall|i: int|
            0 <= i < r.args@.len() ==> recv.ensures(
                (arg_timeouts(spec_decode_verb(rx))[i],),
                #[trigger] r.args@[i],
            ),
        ({
            let s = com_step(r.verb, r.args@, *old(link), *old(pow), now);
            &&& views(r.actions@) == s.actions
            &&& *final(link) == s.link
            &&& *final(pow) == s.pow
        }),
{
    let verb = decode_verb(rx);
    let args = read_args(verb, recv);
    let actions = handle_verb(verb, &args, link, pow, now);
    Transaction { verb, args, actions }
}

proof fn lemma_reply_words_short(s: Seq<ActionView>)
    requires
        s.len() <= 5,
    ensures
        reply_words(s) == (if s.len() > 0 { tx_words(s[0]) } else { 0 }) + (if s.len() > 1 {
            tx_words(s[1])
        } else {
            0
        }) + (if s.len() > 2 { tx_words(s[2]) } else { 0 }) + (if s.len() > 3 {
            tx_words(s[3])
        } else {
            0
        }) + (if s.len() > 4 { tx_words(s[4]) } else { 0 }),
{
    reveal_with_fuel(words_upto, 6);
}

/// One reply shape per opcode: the number of result words a verb sends is
/// fixed by the verb, whatever its argument reads returned (timeouts
/// included), the session states, and the time.
#[verifier::spinoff_prover]
#[verifier::rlimit(100)]
pub proof fn lemma_reply_shape(
    v: Verb,
    args: Seq<Option<u16>>,
    link: LinkSession,
    pow: PowerSession,
    now: u32,
)
    ensures
        reply_words(com_step(v, args, link, pow, now).actions) == reply_shape(v),
{
    lemma_reply_words_short(com_step(v, args, link, pow, now).actions);
}

/// An unknown opcode sends exactly one word, the generic error, and
/// changes no state.
pub proof fn lemma_unknown_opcode(
    rx: u16,
    args: Seq<Option<u16>>,
    link: LinkSession,
    pow: PowerSession,
    now: u32,
)
    requires
        spec_decode_verb(rx) == Verb::Unknown,
    ensures
        com_step(spec_decode_verb(rx), args, link, pow, now).actions == seq![ActionView::Tx(ERROR)],
        com_step(spec_decode_verb(rx), args, link, pow, now).link == link,
        com_step(spec_decode_verb(rx), args, link, pow, now).pow == pow,
{
}

/// After `FLASH_LOCK` no later pass runs the Wi-Fi block or the charger
/// call; after `FLASH_UNLOCK` the charger call runs again on every pass and
/// the Wi-Fi block decides as it does with no lock.
pub proof fn lemma_flash_lock_suspends(
    args: Seq<Option<u16>>,
    link: LinkSession,
    pow: PowerSession,
    now: u32,
    later: u32,
)
    ensures
        ({
            let h = spec_housekeeping(com_step(Verb::FlashLock, args, link, pow, now).link, later);
            !h.wifi_init && !h.start_scan && !h.poll_wifi_events && !h.run_charger
        }),
        ({
            let s = com_step(Verb::FlashUnlock, args, link, pow, now).link;
            let h = spec_housekeeping(s, later);
            &&& h.run_charger
            &&& h == spec_housekeeping(LinkSession { flash_update_lock: false, ..link }, later)
        }),
{
}

/// Only the two lock verbs change the flash-update lock.
pub proof fn lemma_lock_kept(
    v: Verb,
    args: Seq<Option<u16>>,
    link: LinkSession,
    pow: PowerSession,
    now: u32,
)
    requires
        v != Verb::FlashLock,
        v != Verb::FlashUnlock,
    ensures
        com_step(v, args, link, pow, now).link.flash_update_lock == link.flash_update_lock,
{
}

/// Whether a list of actions starts the discharge sequence.
pub open spec fn discharges(actions: Seq<ActionView>) -> bool {
    actions.contains(ActionView::PowerWrite(discharge()))
}

/// Two `POWER_OFF` requests at most `POWER_DOWN_DEBOUNCE_MS` apart start the
/// discharge sequence at most once; when the first comes after the window
/// of an earlier one, it is the first that starts it (writing the power
/// register and arming the longer alarm), and the second only replies and
/// blanks the backlight.
pub proof fn lemma_power_off_debounce(
    args1: Seq<Option<u16>>,
    args2: Seq<Option<u16>>,
    link: LinkSession,
    pow: PowerSession,
    t1: u32,
    t2: u32,
)
    requires
        elapsed(t1, t2) <= POWER_DOWN_DEBOUNCE_MS,
    ensures
        ({
            let s1 = com_step(Verb::PowerOff, args1, link, pow, t1);
            let s2 = com_step(Verb::PowerOff, args2, s1.link, s1.pow, t2);
            !(discharges(s1.actions) && discharges(s2.actions))
        }),
        elapsed(link.pd_loop_timer, t1) > POWER_DOWN_DEBOUNCE_MS ==> ({
            let s1 = com_step(Verb::PowerOff, args1, link, pow, t1);
            let s2 = com_step(Verb::PowerOff, args2, s1.link, s1.pow, t2);
            &&& s1.actions == seq![
                ActionView::TxPowerRegister,
                ActionView::SetBacklight(0, 0),
                ActionView::PowerWrite(discharge()),
                ActionView::ArmAlarm(DISCHARGE_ALARM_TICKS),
            ]
            &&& s2.actions == seq![ActionView::TxPowerRegister, ActionView::SetBacklight(0, 0)]
        }),
{
    let s1 = com_step(Verb::PowerOff, args1, link, pow, t1);
    let s2 = com_step(Verb::PowerOff, args2, s1.link, s1.pow, t2);
    if discharges(s1.actions) {
        if elapsed(link.pd_loop_timer, t1) <= POWER_DOWN_DEBOUNCE_MS {
            let a = s1.actions;
            let i = choose|i: int| 0 <= i < a.len() && a[i] == ActionView::PowerWrite(discharge());
            assert(a[0] == ActionView::TxPowerRegister);
            assert(a[1] == ActionView::SetBacklight(0, 0));
        }
        assert(s1.link.pd_loop_timer == t1);
        let b = s2.actions;
        assert(b == seq![ActionView::TxPowerRegister, ActionView::SetBacklight(0, 0)]);
        if discharges(b) {
            let j = choose|j: int| 0 <= j < b.len() && b[j] == ActionView::PowerWrite(discharge());
            assert(b[0] == ActionView::TxPowerRegister);
            assert(b[1] == ActionView::SetBacklight(0, 0));
        }
    }
}

/// A flash page program reads exactly 128 data words after the two address
/// words, and when every read succeeded it programs the reassembled page at
/// the reassembled address.
pub proof fn lemma_flash_program(
    args: Seq<Option<u16>>,
    link: LinkSession,
    pow: PowerSession,
    now: u32,
)
    ensures
        arg_timeouts(Verb::FlashPp).len() == 2 + PAGE_WORDS,
        all_read(args) ==> com_step(Verb::FlashPp, args, link, pow, now).actions == seq![
            ActionView::FlashProgram { address: long_at(args, 0), page: bytes_at(args, 2) },
        ],
        !all_read(args) ==> com_step(Verb::FlashPp, args, link, pow, now).actions.len() == 0,
{
}

/// Word alignment of the link: every opcode word fixes how many argument
/// words are read, one `recv` each, whatever any of them returns. The
/// verbs with arguments read 1 (design capacity), 4 (erase: address and
/// length), 130 (page program: address, then 128 data words), 129 (PDS
/// line: length, then 128 data words) and 1 (Wi-Fi reset); every other
/// opcode reads none.
pub proof fn lemma_read_counts(rx: u16)
    ensures
        arg_timeouts(spec_decode_verb(rx)).len() == match spec_decode_verb(rx) {
            Verb::GgFactoryCapacity => 1nat,
            Verb::FlashErase => 4nat,
            Verb::FlashPp => 130nat,
            Verb::WfxPdsLineSet => 129nat,
            Verb::Wf200Reset => 1nat,
            _ => 0nat,
        },
        rx == GG_FACTORY_CAPACITY ==> spec_decode_verb(rx) == Verb::GgFactoryCapacity,
        rx == FLASH_ERASE ==> spec_decode_verb(rx) == Verb::FlashErase,
        rx == FLASH_PP ==> spec_decode_verb(rx) == Verb::FlashPp,
        rx == WFX_PDS_LINE_SET ==> spec_decode_verb(rx) == Verb::WfxPdsLineSet,
        rx == WF200_RESET ==> spec_decode_verb(rx) == Verb::Wf200Reset,
        spec_decode_verb(rx) == Verb::FlashPp ==> (forall|i: int|
            0 <= i < 130 ==> #[trigger] arg_timeouts(Verb::FlashPp)[i] == if i < 2 {
                100u32
            } else {
                200u32
            }),
{
}

} // verus!
