use std::cell::RefCell;
use std::rc::Rc;

use dacxx6x::cmd::{ChAddr, PowerMode, PowerSelector};
use dacxx6x::{BinaryOutput, ByteSender, DACxx6x, DacError};

#[derive(Debug, Clone, Copy, PartialEq, Eq)]
enum Event {
    Low,
    High,
    Byte(u8),
}

type Log = Rc<RefCell<Vec<Event>>>;

struct MockSpi {
    log: Log,
    calls: usize,
    fail_at: Option<usize>,
}

impl ByteSender for MockSpi {
    type Error = &'static str;

    fn send(&mut self, byte: u8) -> Result<(), Self::Error> {
        self.log.borrow_mut().push(Event::Byte(byte));
        let n = self.calls;
        self.calls += 1;
        if self.fail_at == Some(n) {
            Err("bus")
        } else {
            Ok(())
        }
    }
}

struct MockPin {
    log: Log,
    fail_low: bool,
    fail_high: bool,
}

impl BinaryOutput for MockPin {
    type Error = u8;

    fn set_low(&mut self) -> Result<(), Self::Error> {
        self.log.borrow_mut().push(Event::Low);
        if self.fail_low {
            Err(1)
        } else {
            Ok(())
        }
    }

    fn set_high(&mut self) -> Result<(), Self::Error> {
        self.log.borrow_mut().push(Event::High);
        if self.fail_high {
            Err(2)
        } else {
            Ok(())
        }
    }
}

fn device(
    fail_at: Option<usize>,
    fail_low: bool,
    fail_high: bool,
) -> (DACxx6x<MockSpi, MockPin>, Log) {
    let log: Log = Rc::new(RefCell::new(Vec::new()));
    let spi = MockSpi { log: log.clone(), calls: 0, fail_at };
    let cs = MockPin { log: log.clone(), fail_low, fail_high };
    (DACxx6x::new(spi, cs), log)
}

fn events(log: &Log) -> Vec<Event> {
    log.borrow().clone()
}

#[test]
fn exec_frames_the_three_bytes() {
    let (mut dac, log) = device(None, false, false);
    assert!(dac.exec([0x07, 0x12, 0x34]).is_ok());
    assert_eq!(
        events(&log),
        vec![
            Event::Low,
            Event::Byte(0x07),
            Event::Byte(0x12),
            Event::Byte(0x34),
            Event::High
        ]
    );
}

#[test]
fn release_happens_once_whichever_byte_fails() {
    let pkt = [0xA1, 0xB2, 0xC3];
    for k in 0..3usize {
        let (mut dac, log) = device(Some(k), false, false);
        let r = dac.exec(pkt);
        assert!(matches!(r, Err(DacError::Bus("bus"))));
        let ev = events(&log);
        let mut expected = vec![Event::Low];
        for b in &pkt[..=k] {
            expected.push(Event::Byte(*b));
        }
        expected.push(Event::High);
        assert_eq!(ev, expected);
        assert_eq!(ev.iter().filter(|e| **e == Event::High).count(), 1);
    }
}

#[test]
fn failed_select_sends_nothing_and_still_releases() {
    let (mut dac, log) = device(None, true, false);
    assert!(matches!(dac.exec([1, 2, 3]), Err(DacError::Pin(1))));
    assert_eq!(events(&log), vec![Event::Low, Event::High]);
}

#[test]
fn failed_release_is_reported() {
    let (mut dac, log) = device(None, false, true);
    assert!(matches!(dac.exec([1, 2, 3]), Err(DacError::Pin(2))));
    assert_eq!(events(&log).len(), 5);
}

#[test]
fn send_failure_wins_over_release_failure() {
    let (mut dac, log) = device(Some(1), false, true);
    assert!(matches!(dac.exec([1, 2, 3]), Err(DacError::Bus("bus"))));
    assert_eq!(
        events(&log),
        vec![Event::Low, Event::Byte(1), Event::Byte(2), Event::High]
    );
}

#[test]
fn init_sends_reset_all() {
    let (mut dac, log) = device(None, false, false);
    assert!(dac.init().is_ok());
    assert_eq!(
        events(&log),
        vec![
            Event::Low,
            Event::Byte(0x28),
            Event::Byte(0x00),
            Event::Byte(0x01),
            Event::High
        ]
    );
}

#[test]
fn set_power_sends_power_packet() {
    let (mut dac, log) = device(None, false, false);
    assert!(dac.set_power(PowerMode::Down100k, PowerSelector::AB).is_ok());
    assert_eq!(
        events(&log),
        vec![
            Event::Low,
            Event::Byte(0x20),
            Event::Byte(0x00),
            Event::Byte(0x23),
            Event::High
        ]
    );
}

#[test]
fn write_sends_value_to_channel() {
    let (mut dac, log) = device(None, false, false);
    assert!(dac.write(0xBEEF, ChAddr::CHB).is_ok());
    assert_eq!(
        events(&log),
        vec![
            Event::Low,
            Event::Byte(0x01),
            Event::Byte(0xBE),
            Event::Byte(0xEF),
            Event::High
        ]
    );
}

#[test]
fn sw_ldac_sends_software_load() {
    let (mut dac, log) = device(None, false, false);
    assert!(dac.sw_ldac().is_ok());
    assert_eq!(
        events(&log),
        vec![
            Event::Low,
            Event::Byte(0x0F),
            Event::Byte(0x00),
            Event::Byte(0x00),
            Event::High
        ]
    );
}

#[test]
fn operation_error_comes_from_the_failed_byte() {
    let (mut dac, log) = device(Some(2), false, false);
    assert!(matches!(dac.write(0x1234, ChAddr::CHA), Err(DacError::Bus("bus"))));
    assert_eq!(
        events(&log),
        vec![
            Event::Low,
            Event::Byte(0x00),
            Event::Byte(0x12),
            Event::Byte(0x34),
            Event::High
        ]
    );
}
