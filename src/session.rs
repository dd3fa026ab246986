//! The state that the main loop owns between passes, and the decisions of
//! the Wi-Fi and charger blocks that run before the link is drained.

use vstd::prelude::*;

verus! {

/// Milliseconds after boot, or after a Wi-Fi reset, before Wi-Fi is brought up.
pub const WIFI_INIT_DELAY_MS: u32 = 1000;

/// Milliseconds between two SSID scans.
pub const SCAN_INTERVAL_MS: u32 = 20_000;

/// Readings and event flags of the power subsystem. The charger call
/// writes them once per pass; link commands read them and clear the flags
/// that they report.
#[derive(Clone, Copy, Debug, PartialEq, Eq, Structural)]
pub struct PowerSession {
    pub voltage: i16,
    pub last_voltage: i16,
    pub current: i16,
    pub stby_current: i16,
    pub soc_was_on: bool,
    pub battery_panic: bool,
    pub voltage_glitch: bool,
    pub usb_cc_event: bool,
}

impl PowerSession {
    /// The state at boot, given whether the power state machine found the
    /// SOC already running.
    pub fn new(soc_was_on: bool) -> (r: PowerSession)
        ensures
            r == (PowerSession {
                voltage: 0,
                last_voltage: 0,
                current: 0,
                stby_current: 0,
                soc_was_on,
                battery_panic: false,
                voltage_glitch: false,
                usb_cc_event: false,
            }),
    {
        PowerSession {
            voltage: 0,
            last_voltage: 0,
            current: 0,
            stby_current: 0,
            soc_was_on,
            battery_panic: false,
            voltage_glitch: false,
            usb_cc_event: false,
        }
    }
}

/// The main loop's own state: the link-test sentinel, the flash-update
/// lock, the Wi-Fi flags, and the times that rate-limit Wi-Fi bring-up,
/// scans and power-down requests (low words of the millisecond timer).
#[derive(Clone, Copy, Debug, PartialEq, Eq, Structural)]
pub struct LinkSession {
    pub com_sentinel: u16,
    pub flash_update_lock: bool,
    pub do_scan: bool,
    pub wifi_ready: bool,
    pub use_wifi: bool,
    pub start_time: u32,
    pub pd_loop_timer: u32,
}

/// What the blocks before the link drain do in one pass of the main loop.
#[derive(Clone, Copy, Debug, PartialEq, Eq, Structural)]
pub struct Housekeeping {
    /// Bring the Wi-Fi chip up (then report through `wifi_init_done`).
    pub wifi_init: bool,
    /// Start an SSID scan (then report through `scan_started`).
    pub start_scan: bool,
    /// Poll the Wi-Fi driver for events.
    pub poll_wifi_events: bool,
    /// Run the power and charger call.
    pub run_charger: bool,
}

/// Milliseconds from `from` to `to` on the 32-bit low word, across a wrap.
pub open spec fn elapsed(from: u32, to: u32) -> int {
    (to as int - from as int + 0x1_0000_0000) % 0x1_0000_0000
}

pub open spec fn spec_housekeeping(s: LinkSession, now: u32) -> Housekeeping {
    if s.flash_update_lock {
        Housekeeping { wifi_init: false, start_scan: false, poll_wifi_events: false, run_charger: false }
    } else {
        Housekeeping {
            wifi_init: elapsed(s.start_time, now) > WIFI_INIT_DELAY_MS && !s.wifi_ready && s.use_wifi,
            start_scan: s.do_scan && s.wifi_ready && s.use_wifi && elapsed(s.start_time, now) > SCAN_INTERVAL_MS,
            poll_wifi_events: s.do_scan && s.use_wifi,
            run_charger: true,
        }
    }
}

impl LinkSession {
    /// The state at boot, at timer reading `now`: unlocked, no scans, Wi-Fi
    /// in use but not yet up.
    pub fn new(now: u32) -> (r: LinkSession)
        ensures
            r == (LinkSession {
                com_sentinel: 0,
                flash_update_lock: false,
                do_scan: false,
                wifi_ready: false,
                use_wifi: true,
                start_time: now,
                pd_loop_timer: 0,
            }),
    {
        LinkSession {
            com_sentinel: 0,
            flash_update_lock: false,
            do_scan: false,
            wifi_ready: false,
            use_wifi: true,
            start_time: now,
            pd_loop_timer: 0,
        }
    }

    /// The Wi-Fi and charger work of a pass at timer reading `now`. While
    /// the flash-update lock is held, none of it runs.
    pub fn housekeeping(&self, now: u32) -> (r: Housekeeping)
        ensures
            r == spec_housekeeping(*self, now),
    {
        if self.flash_update_lock {
            return Housekeeping { wifi_init: false, start_scan: false, poll_wifi_events: false, run_charger: false };
        }
        let since = now.wrapping_sub(self.start_time);
        Housekeeping {
            wifi_init: since > WIFI_INIT_DELAY_MS && !self.wifi_ready && self.use_wifi,
            start_scan: self.do_scan && self.wifi_ready && self.use_wifi && since > SCAN_INTERVAL_MS,
            poll_wifi_events: self.do_scan && self.use_wifi,
            run_charger: true,
        }
    }

    /// Records the outcome of a Wi-Fi bring-up made at `now`.
    pub fn wifi_init_done(&mut self, ok: bool, now: u32)
        ensures
            *final(self) == (LinkSession { wifi_ready: ok, start_time: now, ..*old(self) }),
    {
        self.wifi_ready = ok;
        self.start_time = now;
    }

    /// Records the end of a Wi-Fi reset pulse at `now`: bring-up waits
    /// `WIFI_INIT_DELAY_MS` from here.
    pub fn wifi_reset_done(&mut self, now: u32)
        ensures
            *final(self) == (LinkSession { start_time: now, ..*old(self) }),
    {
        self.start_time = now;
    }

    /// Records an SSID scan started at `now`.
    pub fn scan_started(&mut self, now: u32)
        ensures
            *final(self) == (LinkSession { start_time: now, ..*old(self) }),
    {
        self.start_time = now;
    }
}

} // verus!
