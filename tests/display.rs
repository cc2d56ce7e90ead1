use device_drivers::bus::{DelayMs, I2cWrite};
use device_drivers::lcd::{Lcd, LcdTrait};
use std::cell::RefCell;
use std::rc::Rc;

#[derive(Clone)]
struct Log(Rc<RefCell<Vec<Vec<u8>>>>);

impl I2cWrite for Log {
    fn write(&mut self, _address: u8, bytes: &[u8]) -> Result<(), ()> {
        self.0.borrow_mut().push(bytes.to_vec());
        Ok(())
    }
}

struct NoDelay;

impl DelayMs for NoDelay {
    fn delay_ms(&mut self, _ms: u16) {}
}

fn lcd(rows: u8) -> (Lcd<Log, NoDelay>, Log) {
    let log = Log(Rc::new(RefCell::new(Vec::new())));
    let l = Lcd::new(log.clone(), 0x27, NoDelay).columns(20).rows(rows).char_size(1).build();
    (l, log)
}

#[test]
fn expander_bytes() {
    let (l, _) = lcd(2);
    assert_eq!(l.expander_byte(0x40, true), 0x49);
    assert_eq!(l.expander_byte(0x40, false), 0x48);
}

#[test]
fn command_is_sent_in_two_nibbles() {
    let (mut l, log) = lcd(2);
    assert_eq!(l.clear(), Ok(()));
    let sent = log.0.borrow().clone();
    assert_eq!(sent, vec![vec![0x08, 0x0C], vec![0x08], vec![0x18, 0x1C], vec![0x18]]);
}

#[test]
fn data_sets_register_select() {
    let (mut l, log) = lcd(2);
    assert_eq!(l.write_char('A'), Ok(()));
    let sent = log.0.borrow().clone();
    assert_eq!(sent, vec![vec![0x49, 0x4D], vec![0x49], vec![0x19, 0x1D], vec![0x19]]);
}

#[test]
fn function_bits_follow_geometry() {
    assert_eq!(lcd(4).0.function_bits(), 0x08);
    assert_eq!(lcd(1).0.function_bits(), 0x04);
    let l = Lcd::new(0u8, 0x27, 0u8).rows(1).char_size(0);
    assert_eq!(l.function_bits(), 0x00);
}

#[test]
fn cursor_addresses() {
    let (l, _) = lcd(4);
    assert_eq!(l.cursor_address(3, 0), Some(0x03));
    assert_eq!(l.cursor_address(3, 1), Some(0x43));
    assert_eq!(l.cursor_address(0, 2), Some(0x14));
    assert_eq!(l.cursor_address(1, 9), Some(0x55));
    assert_eq!(l.cursor_address(0x30, 3), Some(0x84));
    assert_eq!(l.cursor_address(0xB0, 3), None);
    let (l2, _) = lcd(0);
    assert_eq!(l2.cursor_address(0, 0), None);
}

#[test]
fn set_cursor_sends_address() {
    let (mut l, log) = lcd(2);
    assert_eq!(l.set_cursor(1, 1), Ok(()));
    let sent = log.0.borrow().clone();
    assert_eq!(sent[0], vec![0xC8, 0xCC]);
    assert_eq!(sent[2], vec![0x18, 0x1C]);
}

#[test]
fn set_cursor_accepts_wide_columns() {
    let (mut l, log) = lcd(2);
    assert_eq!(l.set_cursor(0x80, 0), Ok(()));
    assert_eq!(log.0.borrow()[0], vec![0x88, 0x8C]);
    assert_eq!(l.set_cursor(0xFF, 1), Err(()));
    assert_eq!(log.0.borrow().len(), 4);
}

#[test]
fn init_sends_the_command_sequence() {
    let (mut l, log) = lcd(2);
    assert_eq!(l.init(), Ok(()));
    let sent = log.0.borrow().clone();
    // each byte goes out as two nibbles, each a pulse and then a settle
    let settles: Vec<u8> = sent.iter().filter(|w| w.len() == 1).map(|w| w[0]).collect();
    let mut bytes = Vec::new();
    for pair in settles.chunks(2) {
        bytes.push((pair[0] & 0xF0) | (pair[1] >> 4));
    }
    assert_eq!(bytes, vec![0x33, 0x32, 0x28, 0x0E, 0x01, 0x80, 0x28, 0x0C, 0x01, 0x06, 0x02]);
}

#[test]
fn init_and_strings() {
    let (mut l, log) = lcd(2);
    assert_eq!(l.init(), Ok(()));
    assert_eq!(l.no_display(), Ok(()));
    assert_eq!(l.no_backlight(), Ok(()));
    assert_eq!(l.backlight(), Ok(()));
    assert_eq!(l.home(), Ok(()));
    assert_eq!(l.reset(), Ok(()));
    let before = log.0.borrow().len();
    assert_eq!(l.write_str("Hi"), Ok(()));
    assert_eq!(log.0.borrow().len(), before + 8);
    assert_eq!(l.create_char(9, &[0x1F; 8]), Ok(()));
    assert_eq!(log.0.borrow()[before + 8], vec![0x48, 0x4C]);
    assert_eq!(l.write_custom_char(1), Ok(()));
    assert_eq!(l.write_bytes(&[1, 2, 3]), Ok(()));
}
