//! The opcodes of the command link and their decoding.
//!
//! A word on the link is either an opcode, one of the constants below, or an
//! argument or result word of the opcode in flight; how many of each an
//! opcode carries is fixed by the opcode (see `com`).

use vstd::prelude::*;

verus! {

/// Whether the Wi-Fi scan list changed since it was last fetched.
pub const SSID_CHECK: u16 = 0x2000;

/// The scanned SSID list.
pub const SSID_FETCH: u16 = 0x2100;

/// Asks for `FLASH_ACK` once earlier flash verbs are done.
pub const FLASH_WAITACK: u16 = 0x3000;

/// Erase a flash region: address and length, two words each.
pub const FLASH_ERASE: u16 = 0x3200;

/// Program one 256-byte flash page: address, then 128 data words.
pub const FLASH_PP: u16 = 0x3300;

/// Take the flash-update lock.
pub const FLASH_LOCK: u16 = 0x3400;

/// Release the flash-update lock.
pub const FLASH_UNLOCK: u16 = 0x3434;

/// Link self-test: echoes the opcode's low byte with a sentinel.
pub const LOOP_TEST: u16 = 0x4000;

/// Current, standby current, voltage and the power register.
pub const GAS_GAUGE: u16 = 0x7000;

/// Battery state of charge.
pub const GG_SOC: u16 = 0x7001;

/// Remaining battery capacity.
pub const GG_REMAINING: u16 = 0x7002;

/// Full battery capacity.
pub const GG_FULL_CAPACITY: u16 = 0x7003;

/// Set the design capacity: one argument word.
pub const GG_FACTORY_CAPACITY: u16 = 0x7004;

/// The design capacity.
pub const GG_GET_CAPACITY: u16 = 0x7005;

/// Whether a voltage glitch was seen since the last query.
pub const GG_DEBUG: u16 = 0x7006;

/// Charger register dump and power readings.
pub const STAT: u16 = 0x8000;

/// Put the charger in charging mode.
pub const CHG_START: u16 = 0x8100;

/// Turn the charger's boost mode on.
pub const CHG_BOOST_ON: u16 = 0x8200;

/// Turn the charger's boost mode off.
pub const CHG_BOOST_OFF: u16 = 0x8201;

/// Power the SOC down.
pub const POWER_OFF: u16 = 0x9000;

/// Whether the battery is charging.
pub const POWER_CHARGER_STATE: u16 = 0x9100;

/// Enter ship mode.
pub const POWER_SHIPMODE: u16 = 0x9200;

/// Take a new gyro reading.
pub const GYRO_UPDATE: u16 = 0xa000;

/// The last gyro reading.
pub const GYRO_READ: u16 = 0xa001;

/// USB-CC event flag and status.
pub const POLL_USB_CC: u16 = 0xb000;

/// Raw Wi-Fi receive statistics.
pub const WFX_RXSTAT_GET: u16 = 0xc000;

/// One Wi-Fi PDS line: a length word, then 128 data words.
pub const WFX_PDS_LINE_SET: u16 = 0xc001;

/// Wi-Fi firmware version.
pub const WFX_FW_REV_GET: u16 = 0xc002;

/// Reset the Wi-Fi chip: one argument word, zero to restart it.
pub const WF200_RESET: u16 = 0xc003;

/// Start periodic SSID scans.
pub const SSID_SCAN_ON: u16 = 0xc004;

/// Stop periodic SSID scans.
pub const SSID_SCAN_OFF: u16 = 0xc005;

/// Gateware revision and dirty flag.
pub const EC_GIT_REV: u16 = 0xd000;

/// Read continuation: emits nothing new.
pub const LINK_READ: u16 = 0xf0f0;

/// Reset the link FIFOs and error flags.
pub const LINK_SYNC: u16 = 0xffff;

/// First opcode of the backlight range; the low ten bits of an opcode in
/// the range hold the main level (bits 0 to 4) and the secondary level
/// (bits 5 to 9).
pub const BL_START: u16 = 0x6000;

/// Last opcode of the backlight range.
pub const BL_END: u16 = 0x63ff;

/// Result word that reports a failed or unknown command.
pub const ERROR: u16 = 0xdead;

/// Result word of `FLASH_WAITACK`.
pub const FLASH_ACK: u16 = 0x3001;

/// A decoded opcode.
#[derive(Clone, Copy, Debug, PartialEq, Eq, Structural)]
pub enum Verb {
    SsidCheck,
    SsidFetch,
    FlashWaitack,
    FlashErase,
    FlashPp,
    FlashLock,
    FlashUnlock,
    LoopTest,
    GasGauge,
    GgSoc,
    GgRemaining,
    GgFullCapacity,
    GgFactoryCapacity,
    GgGetCapacity,
    GgDebug,
    Stat,
    ChgStart,
    ChgBoostOn,
    ChgBoostOff,
    PowerOff,
    PowerChargerState,
    PowerShipmode,
    GyroUpdate,
    GyroRead,
    PollUsbCc,
    WfxRxstatGet,
    WfxPdsLineSet,
    WfxFwRevGet,
    Wf200Reset,
    SsidScanOn,
    SsidScanOff,
    EcGitRev,
    LinkRead,
    LinkSync,
    /// Set the backlight levels, both in 0 to 31.
    Backlight { main: u8, sec: u8 },
    /// Any other word.
    Unknown,
}

pub open spec fn spec_decode_verb(rx: u16) -> Verb {
    if rx == SSID_CHECK {
        Verb::SsidCheck
    } else if rx == SSID_FETCH {
        Verb::SsidFetch
    } else if rx == FLASH_WAITACK {
        Verb::FlashWaitack
    } else if rx == FLASH_ERASE {
        Verb::FlashErase
    } else if rx == FLASH_PP {
        Verb::FlashPp
    } else if rx == FLASH_LOCK {
        Verb::FlashLock
    } else if rx == FLASH_UNLOCK {
        Verb::FlashUnlock
    } else if rx == LOOP_TEST {
        Verb::LoopTest
    } else if rx == GAS_GAUGE {
        Verb::GasGauge
    } else if rx == GG_SOC {
        Verb::GgSoc
    } else if rx == GG_REMAINING {
        Verb::GgRemaining
    } else if rx == GG_FULL_CAPACITY {
        Verb::GgFullCapacity
    } else if rx == GG_FACTORY_CAPACITY {
        Verb::GgFactoryCapacity
    } else if rx == GG_GET_CAPACITY {
        Verb::GgGetCapacity
    } else if rx == GG_DEBUG {
        Verb::GgDebug
    } else if rx == STAT {
        Verb::Stat
    } else if rx == CHG_START {
        Verb::ChgStart
    } else if rx == CHG_BOOST_ON {
        Verb::ChgBoostOn
    } else if rx == CHG_BOOST_OFF {
        Verb::ChgBoostOff
    } else if rx == POWER_OFF {
        Verb::PowerOff
    } else if rx == POWER_CHARGER_STATE {
        Verb::PowerChargerState
    } else if rx == POWER_SHIPMODE {
        Verb::PowerShipmode
    } else if rx == GYRO_UPDATE {
        Verb::GyroUpdate
    } else if rx == GYRO_READ {
        Verb::GyroRead
    } else if rx == POLL_USB_CC {
        Verb::PollUsbCc
    } else if rx == WFX_RXSTAT_GET {
        Verb::WfxRxstatGet
    } else if rx == WFX_PDS_LINE_SET {
        Verb::WfxPdsLineSet
    } else if rx == WFX_FW_REV_GET {
        Verb::WfxFwRevGet
    } else if rx == WF200_RESET {
        Verb::Wf200Reset
    } else if rx == SSID_SCAN_ON {
        Verb::SsidScanOn
    } else if rx == SSID_SCAN_OFF {
        Verb::SsidScanOff
    } else if rx == EC_GIT_REV {
        Verb::EcGitRev
    } else if rx == LINK_READ {
        Verb::LinkRead
    } else if rx == LINK_SYNC {
        Verb::LinkSync
    } else if BL_START <= rx <= BL_END {
        Verb::Backlight { main: (rx % 32) as u8, sec: (rx / 32 % 32) as u8 }
    } else {
        Verb::Unknown
    }
}

/// Decodes an opcode word.
pub fn decode_verb(rx: u16) -> (r: Verb)
    ensures
        r == spec_decode_verb(rx),
{
    if rx == SSID_CHECK {
        Verb::SsidCheck
    } else if rx == SSID_FETCH {
        Verb::SsidFetch
    } else if rx == FLASH_WAITACK {
        Verb::FlashWaitack
    } else if rx == FLASH_ERASE {
        Verb::FlashErase
    } else if rx == FLASH_PP {
        Verb::FlashPp
    } else if rx == FLASH_LOCK {
        Verb::FlashLock
    } else if rx == FLASH_UNLOCK {
        Verb::FlashUnlock
    } else if rx == LOOP_TEST {
        Verb::LoopTest
    } else if rx == GAS_GAUGE {
        Verb::GasGauge
    } else if rx == GG_SOC {
        Verb::GgSoc
    } else if rx == GG_REMAINING {
        Verb::GgRemaining
    } else if rx == GG_FULL_CAPACITY {
        Verb::GgFullCapacity
    } else if rx == GG_FACTORY_CAPACITY {
        Verb::GgFactoryCapacity
    } else if rx == GG_GET_CAPACITY {
        Verb::GgGetCapacity
    } else if rx == GG_DEBUG {
        Verb::GgDebug
    } else if rx == STAT {
        Verb::Stat
    } else if rx == CHG_START {
        Verb::ChgStart
    } else if rx == CHG_BOOST_ON {
        Verb::ChgBoostOn
    } else if rx == CHG_BOOST_OFF {
        Verb::ChgBoostOff
    } else if rx == POWER_OFF {
        Verb::PowerOff
    } else if rx == POWER_CHARGER_STATE {
        Verb::PowerChargerState
    } else if rx == POWER_SHIPMODE {
        Verb::PowerShipmode
    } else if rx == GYRO_UPDATE {
        Verb::GyroUpdate
    } else if rx == GYRO_READ {
        Verb::GyroRead
    } else if rx == POLL_USB_CC {
        Verb::PollUsbCc
    } else if rx == WFX_RXSTAT_GET {
        Verb::WfxRxstatGet
    } else if rx == WFX_PDS_LINE_SET {
        Verb::WfxPdsLineSet
    } else if rx == WFX_FW_REV_GET {
        Verb::WfxFwRevGet
    } else if rx == WF200_RESET {
        Verb::Wf200Reset
    } else if rx == SSID_SCAN_ON {
        Verb::SsidScanOn
    } else if rx == SSID_SCAN_OFF {
        Verb::SsidScanOff
    } else if rx == EC_GIT_REV {
        Verb::EcGitRev
    } else if rx == LINK_READ {
        Verb::LinkRead
    } else if rx == LINK_SYNC {
        Verb::LinkSync
    } else if BL_START <= rx && rx <= BL_END {
        Verb::Backlight { main: (rx % 32) as u8, sec: (rx / 32 % 32) as u8 }
    } else {
        Verb::Unknown
    }
}

} // verus!
