use device_drivers::bus::{I2cRead, I2cWrite};
use device_drivers::datetime::{DateTime, DateTimeErrors, DateTimeTrait};
use device_drivers::ds3231::{Rtc, RtcError, RtcTrait};

struct FakeBus {
    writes: Vec<(u8, Vec<u8>)>,
    registers: Vec<u8>,
    fail: bool,
}

impl FakeBus {
    fn new(registers: Vec<u8>) -> Self {
        FakeBus { writes: Vec::new(), registers, fail: false }
    }
}

impl I2cWrite for FakeBus {
    fn write(&mut self, address: u8, bytes: &[u8]) -> Result<(), ()> {
        if self.fail {
            return Err(());
        }
        self.writes.push((address, bytes.to_vec()));
        Ok(())
    }
}

impl I2cRead for FakeBus {
    fn read(&mut self, _address: u8, buffer: &mut [u8]) -> Result<(), ()> {
        if self.fail {
            return Err(());
        }
        for (i, b) in buffer.iter_mut().enumerate() {
            *b = self.registers[i];
        }
        Ok(())
    }
}

#[test]
fn datetime_defaults_and_builders() {
    let d = DateTime::new();
    assert_eq!(d.get_seconds(), Ok(0));
    assert_eq!(d.get_day(), Ok(1));
    assert_eq!(d.get_month(), Ok(1));
    assert_eq!(d.get_year(), Ok(1970));
    let d = d.seconds(5).minutes(6).hours(7).day(8).month(9).year(2021);
    assert_eq!(d.get_seconds(), Ok(5));
    assert_eq!(d.get_minutes(), Ok(6));
    assert_eq!(d.get_hours(), Ok(7));
    assert_eq!(d.get_day(), Ok(8));
    assert_eq!(d.get_month(), Ok(9));
    assert_eq!(d.get_year(), Ok(2021));
}

#[test]
fn datetime_setters_check_ranges() {
    let mut d = DateTime::new();
    assert_eq!(d.set_seconds(60), Err(DateTimeErrors::WrongValue));
    assert_eq!(d.set_seconds(59), Ok(()));
    assert_eq!(d.set_minutes(60), Err(DateTimeErrors::WrongValue));
    assert_eq!(d.set_minutes(0), Ok(()));
    assert_eq!(d.set_hours(24), Err(DateTimeErrors::WrongValue));
    assert_eq!(d.set_hours(23), Ok(()));
    assert_eq!(d.set_day(0), Err(DateTimeErrors::WrongValue));
    assert_eq!(d.set_day(32), Err(DateTimeErrors::WrongValue));
    assert_eq!(d.set_day(31), Ok(()));
    assert_eq!(d.set_month(0), Err(DateTimeErrors::WrongValue));
    assert_eq!(d.set_month(13), Err(DateTimeErrors::WrongValue));
    assert_eq!(d.set_month(12), Ok(()));
    assert_eq!(d.set_year(1969), Err(DateTimeErrors::WrongValue));
    assert_eq!(d.set_year(1970), Ok(()));
    assert_eq!(d.get_seconds(), Ok(59));
    assert_eq!(d.get_hours(), Ok(23));
    assert_eq!(d.get_day(), Ok(31));
    assert_eq!(d.get_month(), Ok(12));
    assert_eq!(d.get_year(), Ok(1970));
}

#[test]
fn bcd_conversions() {
    assert_eq!(Rtc::<FakeBus>::bcd_to_bin(0x59), 59);
    assert_eq!(Rtc::<FakeBus>::bcd_to_bin(0x00), 0);
    assert_eq!(Rtc::<FakeBus>::bin_to_bcd(59), 0x59);
    assert_eq!(Rtc::<FakeBus>::bin_to_bcd(7), 0x07);
    assert_eq!(Rtc::<FakeBus>::clear_oscillator_stop(0x88), 0x08);
}

#[test]
fn rtc_set_writes_registers() {
    let mut rtc = Rtc::new(FakeBus::new(vec![0x88]), 0x68);
    let d = DateTime::new().seconds(30).minutes(45).hours(12).day(15).month(6).year(2023);
    assert_eq!(rtc.set(&d), Ok(()));
    let expected = [0x00, 0x30, 0x45, 0x12, 0x00, 0x15, 0x06, 0x23];
    assert_eq!(Rtc::<FakeBus>::registers(&d), Ok(expected));
}

#[test]
fn rtc_set_refuses_unstorable() {
    let mut rtc = Rtc::new(FakeBus::new(vec![0]), 0x68);
    let d = DateTime::new();
    assert_eq!(rtc.set(&d), Err(RtcError::WrongValue));
    let d = DateTime::new().year(2020).seconds(61);
    assert_eq!(Rtc::<FakeBus>::registers(&d), Err(RtcError::WrongValue));
}

#[test]
fn rtc_get_decodes_registers() {
    let mut rtc = Rtc::new(FakeBus::new(vec![0x80 | 0x30, 0x45, 0x12, 0x03, 0x15, 0x06, 0x23]), 0x68);
    let d = rtc.get().ok().unwrap();
    assert_eq!(d.get_seconds(), Ok(30));
    assert_eq!(d.get_minutes(), Ok(45));
    assert_eq!(d.get_hours(), Ok(12));
    assert_eq!(d.get_day(), Ok(15));
    assert_eq!(d.get_month(), Ok(6));
    assert_eq!(d.get_year(), Ok(2023));
}

#[test]
fn rtc_bus_failure() {
    let mut bus = FakeBus::new(vec![0; 7]);
    bus.fail = true;
    let mut rtc = Rtc::new(bus, 0x68);
    assert!(matches!(rtc.get(), Err(RtcError::I2cError)));
    let d = DateTime::new().year(2024);
    assert_eq!(rtc.set(&d), Err(RtcError::I2cError));
}
