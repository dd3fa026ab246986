use ec_core::com::{arg_count, com_dispatch, handle_verb, ComAction, Transaction};
use ec_core::debug::ll_debug;
use ec_core::link::{com_rx, RxPoll};
use ec_core::session::{LinkSession, PowerSession};
use ec_core::verbs::{self, decode_verb, Verb};
use ec_core::watchdog::PowerBits;
use std::cell::{Cell, RefCell};

/// A link whose reads return the scripted words in turn; `None` stands for a
/// read that timed out. Counts the reads and records their timeouts.
struct MockLink {
    words: RefCell<Vec<Option<u16>>>,
    reads: Cell<usize>,
    timeouts: RefCell<Vec<u32>>,
}

impl MockLink {
    fn new(words: Vec<Option<u16>>) -> MockLink {
        MockLink { words: RefCell::new(words), reads: Cell::new(0), timeouts: RefCell::new(Vec::new()) }
    }

    fn recv(&self, timeout: u32) -> Option<u16> {
        self.reads.set(self.reads.get() + 1);
        self.timeouts.borrow_mut().push(timeout);
        let mut w = self.words.borrow_mut();
        if w.is_empty() {
            None
        } else {
            w.remove(0)
        }
    }
}

fn states() -> (LinkSession, PowerSession) {
    (LinkSession::new(0), PowerSession::new(false))
}

fn run(rx: u16, words: Vec<Option<u16>>, link: &mut LinkSession, pow: &mut PowerSession, now: u32) -> (Transaction, usize) {
    let mock = MockLink::new(words);
    let t = com_dispatch(rx, link, pow, now, &|to: u32| mock.recv(to));
    (t, mock.reads.get())
}

#[test]
fn flash_erase_reassembles_address_and_length() {
    let (mut link, mut pow) = states();
    let words = vec![Some(0x0012), Some(0x3400), Some(0x0000), Some(0x1000)];
    let (t, reads) = run(verbs::FLASH_ERASE, words, &mut link, &mut pow, 0);
    assert_eq!(reads, 4);
    assert_eq!(t.actions, vec![ComAction::FlashErase { address: 0x0012_3400, len: 0x1000 }]);
}

#[test]
fn flash_erase_timeout_keeps_framing_and_skips_erase() {
    let (mut link, mut pow) = states();
    let words = vec![Some(0x0012), None, Some(0x0000), Some(0x1000)];
    let (t, reads) = run(verbs::FLASH_ERASE, words, &mut link, &mut pow, 0);
    assert_eq!(reads, 4);
    assert!(t.actions.is_empty());
}

#[test]
fn flash_program_reads_whole_page() {
    let (mut link, mut pow) = states();
    let mut words = vec![Some(0x0008), Some(0x0100)];
    for i in 0..128u16 {
        words.push(Some((2 * i + 1) << 8 | (2 * i)));
    }
    let mock = MockLink::new(words);
    let t = com_dispatch(verbs::FLASH_PP, &mut link, &mut pow, 0, &|to: u32| mock.recv(to));
    assert_eq!(mock.reads.get(), 130);
    let timeouts = mock.timeouts.borrow();
    assert_eq!(&timeouts[0..2], &[100, 100]);
    assert!(timeouts[2..].iter().all(|&t| t == 200));
    let page: Vec<u8> = (0..=255u8).collect();
    assert_eq!(t.actions, vec![ComAction::FlashProgram { address: 0x0008_0100, page }]);
}

#[test]
fn flash_program_timeout_still_reads_128_words() {
    let (mut link, mut pow) = states();
    let mut words: Vec<Option<u16>> = vec![Some(0), Some(0)];
    for i in 0..128 {
        words.push(if i == 50 { None } else { Some(0xabcd) });
    }
    let (t, reads) = run(verbs::FLASH_PP, words, &mut link, &mut pow, 0);
    assert_eq!(reads, 130);
    assert!(t.actions.is_empty());
}

#[test]
fn timeout_anywhere_keeps_read_count() {
    let multi = [
        verbs::GG_FACTORY_CAPACITY,
        verbs::FLASH_ERASE,
        verbs::FLASH_PP,
        verbs::WFX_PDS_LINE_SET,
        verbs::WF200_RESET,
    ];
    for rx in multi {
        let n = arg_count(decode_verb(rx));
        assert!(n > 0);
        for miss in 0..n {
            let words: Vec<Option<u16>> = (0..n).map(|i| if i == miss { None } else { Some(1) }).collect();
            let (mut link, mut pow) = states();
            let (t, reads) = run(rx, words, &mut link, &mut pow, 0);
            assert_eq!(reads, n);
            assert_eq!(t.args.len(), n);
        }
    }
}

#[test]
fn unknown_opcode_gives_one_error_word() {
    let (mut link, mut pow) = states();
    let (l0, p0) = (link, pow);
    let (t, reads) = run(0x1234, vec![Some(5)], &mut link, &mut pow, 77);
    assert_eq!(t.verb, Verb::Unknown);
    assert_eq!(reads, 0);
    assert_eq!(t.actions, vec![ComAction::Tx(verbs::ERROR)]);
    assert_eq!(link, l0);
    assert_eq!(pow, p0);
}

#[test]
fn lock_suspends_wifi_and_charger_until_unlock() {
    let (mut link, mut pow) = states();
    link.do_scan = true;
    link.wifi_ready = true;
    let (t, _) = run(verbs::FLASH_LOCK, vec![], &mut link, &mut pow, 0);
    assert_eq!(t.actions, vec![ComAction::WifiIrqEnable(false)]);
    let h = link.housekeeping(50_000);
    assert!(!h.run_charger && !h.wifi_init && !h.start_scan && !h.poll_wifi_events);
    run(verbs::LOOP_TEST, vec![], &mut link, &mut pow, 0);
    assert!(!link.housekeeping(60_000).run_charger);
    let (t, _) = run(verbs::FLASH_UNLOCK, vec![], &mut link, &mut pow, 0);
    assert_eq!(t.actions, vec![ComAction::WifiIrqEnable(true)]);
    let h = link.housekeeping(50_000);
    assert!(h.run_charger && h.start_scan && h.poll_wifi_events);
}

fn discharges(t: &Transaction) -> bool {
    let d = PowerBits { self_hold: true, soc_on: false, discharge: true, kbd_drive: false };
    t.actions.contains(&ComAction::PowerWrite(d))
}

#[test]
fn power_off_is_debounced() {
    let (mut link, mut pow) = states();
    let (first, _) = run(verbs::POWER_OFF, vec![], &mut link, &mut pow, 10_000);
    assert!(discharges(&first));
    assert_eq!(first.actions.len(), 4);
    assert_eq!(first.actions[3], ComAction::ArmAlarm(500));
    let (second, _) = run(verbs::POWER_OFF, vec![], &mut link, &mut pow, 11_000);
    assert!(!discharges(&second));
    assert_eq!(second.actions, vec![ComAction::TxPowerRegister, ComAction::SetBacklight(0, 0)]);
    let (third, _) = run(verbs::POWER_OFF, vec![], &mut link, &mut pow, 11_501);
    assert!(discharges(&third));
}

#[test]
fn shipmode_records_power_down_time() {
    let (mut link, mut pow) = states();
    let (t, _) = run(verbs::POWER_SHIPMODE, vec![], &mut link, &mut pow, 4242);
    assert_eq!(t.actions.len(), 5);
    assert_eq!(link.pd_loop_timer, 4242);
    let (t, _) = run(verbs::POWER_OFF, vec![], &mut link, &mut pow, 4300);
    assert!(!discharges(&t));
}

#[test]
fn loop_test_echoes_sentinel() {
    let (mut link, mut pow) = states();
    let (t, _) = run(verbs::LOOP_TEST, vec![], &mut link, &mut pow, 0);
    assert_eq!(t.actions, vec![ComAction::Tx(0x0000)]);
    let (t, _) = run(verbs::LOOP_TEST, vec![], &mut link, &mut pow, 0);
    assert_eq!(t.actions, vec![ComAction::Tx(0x0100)]);
    link.com_sentinel = 0xffff;
    let (t, _) = run(verbs::LOOP_TEST, vec![], &mut link, &mut pow, 0);
    assert_eq!(t.actions, vec![ComAction::Tx(0xff00)]);
    assert_eq!(link.com_sentinel, 0);
}

#[test]
fn backlight_levels_come_from_opcode() {
    let rx = verbs::BL_START + (7 << 5) + 3;
    assert_eq!(decode_verb(rx), Verb::Backlight { main: 3, sec: 7 });
    let (mut link, mut pow) = states();
    let (t, _) = run(rx, vec![], &mut link, &mut pow, 0);
    assert_eq!(t.actions, vec![ComAction::SetBacklight(3, 7)]);
    assert_eq!(decode_verb(verbs::BL_END), Verb::Backlight { main: 31, sec: 31 });
    assert_eq!(decode_verb(verbs::BL_END + 1), Verb::Unknown);
}

#[test]
fn factory_capacity_sanity_rules() {
    let (mut link, mut pow) = states();
    let (t, _) = run(verbs::GG_FACTORY_CAPACITY, vec![Some(1500)], &mut link, &mut pow, 0);
    assert_eq!(t.actions, vec![ComAction::GasGaugeCapacity(Some(1500))]);
    let (t, _) = run(verbs::GG_FACTORY_CAPACITY, vec![Some(1900)], &mut link, &mut pow, 0);
    assert_eq!(t.actions, vec![ComAction::GasGaugeCapacity(Some(1100))]);
    let (t, _) = run(verbs::GG_FACTORY_CAPACITY, vec![Some(600)], &mut link, &mut pow, 0);
    assert_eq!(t.actions, vec![ComAction::GasGaugeCapacity(Some(1100))]);
    let (t, _) = run(verbs::GG_FACTORY_CAPACITY, vec![None], &mut link, &mut pow, 0);
    assert_eq!(t.actions, vec![ComAction::Tx(verbs::ERROR)]);
}

#[test]
fn pds_line_checks_length_and_resets_link() {
    let (mut link, mut pow) = states();
    let mut words = vec![Some(300u16)];
    words.extend(std::iter::repeat(Some(0x0201)).take(128));
    let (t, reads) = run(verbs::WFX_PDS_LINE_SET, words.clone(), &mut link, &mut pow, 0);
    assert_eq!(reads, 129);
    assert_eq!(t.actions, vec![ComAction::LinkReset]);
    words[0] = Some(4);
    let (t, _) = run(verbs::WFX_PDS_LINE_SET, words, &mut link, &mut pow, 0);
    assert_eq!(t.actions.len(), 2);
    match &t.actions[0] {
        ComAction::SendPds { data, len } => {
            assert_eq!(*len, 4);
            assert_eq!(data.len(), 256);
            assert_eq!(&data[0..4], &[1, 2, 1, 2]);
        }
        other => panic!("unexpected action {:?}", other),
    }
    assert_eq!(t.actions[1], ComAction::LinkReset);
}

#[test]
fn wifi_reset_argument_selects_restart_or_hold() {
    let (mut link, mut pow) = states();
    link.wifi_ready = true;
    let (t, _) = run(verbs::WF200_RESET, vec![Some(1)], &mut link, &mut pow, 900);
    assert_eq!(t.actions, vec![ComAction::WifiReset(true)]);
    assert!(!link.use_wifi && !link.wifi_ready);
    let (t, _) = run(verbs::WF200_RESET, vec![Some(0)], &mut link, &mut pow, 900);
    assert_eq!(
        t.actions,
        vec![
            ComAction::WifiReset(true),
            ComAction::Delay(10),
            ComAction::WifiReset(false),
            ComAction::Delay(10),
            ComAction::RestartWifiTimer
        ]
    );
    assert!(link.use_wifi);
    assert_eq!(link.start_time, 0);
    link.wifi_reset_done(920);
    assert_eq!(link.start_time, 920);
    link.use_wifi = false;
    let (t, _) = run(verbs::WF200_RESET, vec![None], &mut link, &mut pow, 950);
    assert_eq!(t.actions[2], ComAction::WifiReset(false));
    assert!(link.use_wifi);
}

#[test]
fn status_verbs_report_and_clear_flags() {
    let (mut link, mut pow) = states();
    pow.voltage = 3900;
    pow.current = -200;
    pow.stby_current = -5;
    pow.voltage_glitch = true;
    pow.usb_cc_event = true;
    let (t, _) = run(verbs::GAS_GAUGE, vec![], &mut link, &mut pow, 0);
    assert_eq!(
        t.actions,
        vec![
            ComAction::Tx(0xff38),
            ComAction::Tx(0xfffb),
            ComAction::Tx(3900),
            ComAction::TxPowerRegister
        ]
    );
    let (t, _) = run(verbs::GG_DEBUG, vec![], &mut link, &mut pow, 0);
    assert_eq!(t.actions, vec![ComAction::Tx(1)]);
    assert!(!pow.voltage_glitch);
    let (t, _) = run(verbs::GG_DEBUG, vec![], &mut link, &mut pow, 0);
    assert_eq!(t.actions, vec![ComAction::Tx(0)]);
    let (t, _) = run(verbs::POLL_USB_CC, vec![], &mut link, &mut pow, 0);
    assert_eq!(t.actions, vec![ComAction::Tx(1), ComAction::TxUsbCcStatus]);
    assert!(!pow.usb_cc_event);
    let (t, _) = run(verbs::STAT, vec![], &mut link, &mut pow, 0);
    assert_eq!(t.actions[0], ComAction::Tx(0x8888));
    assert_eq!(t.actions.len(), 5);
}

#[test]
fn link_and_scan_verbs() {
    let (mut link, mut pow) = states();
    let (t, _) = run(verbs::LINK_READ, vec![], &mut link, &mut pow, 0);
    assert!(t.actions.is_empty());
    let (t, _) = run(verbs::LINK_SYNC, vec![], &mut link, &mut pow, 0);
    assert_eq!(t.actions, vec![ComAction::LinkReset]);
    run(verbs::SSID_SCAN_ON, vec![], &mut link, &mut pow, 0);
    assert!(link.do_scan);
    run(verbs::SSID_SCAN_OFF, vec![], &mut link, &mut pow, 0);
    assert!(!link.do_scan);
    let (t, _) = run(verbs::FLASH_WAITACK, vec![], &mut link, &mut pow, 0);
    assert_eq!(t.actions, vec![ComAction::Tx(verbs::FLASH_ACK)]);
}

#[test]
fn handle_verb_takes_reads_as_given() {
    let (mut link, mut pow) = states();
    let args = vec![Some(0xffff), Some(0xffff), Some(0x0000), Some(0x0001)];
    let a = handle_verb(Verb::FlashErase, &args, &mut link, &mut pow, 0);
    assert_eq!(a, vec![ComAction::FlashErase { address: 0xffff_ffff, len: 1 }]);
}

#[test]
fn wifi_bring_up_and_scan_timing() {
    let mut link = LinkSession::new(1000);
    assert!(!link.housekeeping(2000).wifi_init);
    assert!(link.housekeeping(2001).wifi_init);
    link.wifi_init_done(true, 2001);
    assert!(link.wifi_ready);
    link.do_scan = true;
    assert!(!link.housekeeping(22_001).start_scan);
    assert!(link.housekeeping(22_002).start_scan);
    link.scan_started(22_002);
    assert_eq!(link.start_time, 22_002);
    let wrapped = LinkSession::new(0xffff_ff00);
    assert!(wrapped.housekeeping(0x400).wifi_init);
}

#[test]
fn receive_poll_rules() {
    assert_eq!(com_rx(0, 0, 1000, false), RxPoll::Read);
    assert_eq!(com_rx(100, 0, 1000, true), RxPoll::Read);
    assert_eq!(com_rx(100, 500, 600, false), RxPoll::Wait);
    assert_eq!(com_rx(100, 500, 601, false), RxPoll::TimedOut);
    assert_eq!(com_rx(100, 0xffff_fff0, 0x50, false), RxPoll::Wait);
    assert_eq!(com_rx(100, 0xffff_fff0, 0x60, false), RxPoll::TimedOut);
}

#[test]
fn debug_line_only_when_enabled() {
    assert_eq!(ll_debug("main loop", true), Some("main loop".to_string()));
    assert_eq!(ll_debug("main loop", false), None);
}
