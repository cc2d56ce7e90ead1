use vstd::prelude::*;
use crate::bus::{I2cOp, I2cRead, I2cWrite};
use crate::datetime::{DateTime, DateTimeErrors, DateTimeModel, DateTimeTrait};

verus! {

/// Register address of the status register.
pub const STATUS_REG: u8 = 0x0F;

/// Oscillator-stop flag of the status register.
pub const OSCILLATOR_STOP_FLAG: u8 = 0x80;

/// A DS3231 real-time clock on an I2C bus.
pub struct Rtc<I2CType> {
    i2c: I2CType,
    address: u8,
    ops: Ghost<Seq<I2cOp>>,
}

/// Errors of the real-time clock.
#[derive(Clone, Copy, Debug, PartialEq, Eq, Structural)]
pub enum RtcError {
    WrongValue,
    I2cError,
}

impl From<DateTimeErrors> for RtcError {
    fn from(e: DateTimeErrors) -> (r: RtcError)
        ensures
            r == RtcError::WrongValue,
    {
        RtcError::WrongValue
    }
}

impl vstd::std_specs::convert::FromSpecImpl<DateTimeErrors> for RtcError {
    open spec fn obeys_from_spec() -> bool {
        true
    }

    open spec fn from_spec(e: DateTimeErrors) -> RtcError {
        RtcError::WrongValue
    }
}

/// The number written in binary-coded decimal by `value`: tens in the high
/// nibble, units in the low one.
pub open spec fn bcd_value(value: u8) -> int {
    (value as int / 16) * 10 + value as int % 16
}

/// The binary-coded decimal form of a number below 100.
pub open spec fn bcd_of(value: u8) -> int {
    (value as int / 10) * 16 + value as int % 10
}

/// A date and time the clock can hold: every field in its calendar range and
/// the year within the clock's century.
pub open spec fn storable(d: DateTimeModel) -> bool {
    &&& d.seconds <= 59
    &&& d.minutes <= 59
    &&& d.hours <= 23
    &&& 1 <= d.day <= 31
    &&& 1 <= d.month <= 12
    &&& 2000 <= d.year <= 2099
}

/// The register block written by `set`: the register address 0, then
/// seconds, minutes, hours, weekday 0, day, month and year, in BCD.
pub open spec fn registers_of(d: DateTimeModel) -> Seq<u8> {
    seq![
        0u8,
        bcd_of(d.seconds) as u8,
        bcd_of(d.minutes) as u8,
        bcd_of(d.hours) as u8,
        0u8,
        bcd_of(d.day) as u8,
        bcd_of(d.month) as u8,
        bcd_of((d.year - 2000) as u8) as u8,
    ]
}

/// The date and time held by the seven time registers, read from register 0.
pub open spec fn datetime_of_registers(regs: Seq<u8>) -> DateTimeModel {
    DateTimeModel {
        seconds: bcd_value(regs[0] & 0x7F) as u8,
        minutes: bcd_value(regs[1]) as u8,
        hours: bcd_value(regs[2]) as u8,
        day: bcd_value(regs[4]) as u8,
        month: bcd_value(regs[5]) as u8,
        year: (2000 + bcd_value(regs[6])) as u16,
    }
}

impl<I2CType> Rtc<I2CType> {
    pub fn new(i2c: I2CType, address: u8) -> (r: Self)
        ensures
            r.address() == address,
            r.ops() == Seq::<I2cOp>::empty(),
    {
        Rtc { i2c, address, ops: Ghost(Seq::empty()) }
    }

    /// Every exchange with the bus so far, in order.
    pub closed spec fn ops(&self) -> Seq<I2cOp> {
        self.ops@
    }

    /// The bus address of the clock.
    pub closed spec fn address(&self) -> u8 {
        self.address
    }

    /// Converts a BCD byte to its value.
    pub fn bcd_to_bin(value: u8) -> (r: u8)
        ensures
            r as int == bcd_value(value),
    {
        assert(value >> 4u8 == value / 16) by (bit_vector);
        value - 6 * (value >> 4)
    }

    /// Converts a value to BCD; the result must fit in a byte.
    pub fn bin_to_bcd(value: u8) -> (r: u8)
        requires
            value as int + 6 * (value as int / 10) <= 255,
        ensures
            r as int == bcd_of(value),
    {
        value + 6 * (value / 10)
    }

    /// The register block that `set` writes for `datetime`, or `WrongValue`
    /// where the clock cannot hold it.
    pub fn registers(datetime: &DateTime) -> (r: Result<[u8; 8], RtcError>)
        ensures
            storable(datetime@) <==> r is Ok,
            r is Ok ==> r->Ok_0@ == registers_of(datetime@),
            r is Err ==> r->Err_0 == RtcError::WrongValue,
    {
        let seconds = match datetime.get_seconds() {
            Ok(v) => v,
            Err(e) => return Err(RtcError::from(e)),
        };
        let minutes = match datetime.get_minutes() {
            Ok(v) => v,
            Err(e) => return Err(RtcError::from(e)),
        };
        let hours = match datetime.get_hours() {
            Ok(v) => v,
            Err(e) => return Err(RtcError::from(e)),
        };
        let day = match datetime.get_day() {
            Ok(v) => v,
            Err(e) => return Err(RtcError::from(e)),
        };
        let month = match datetime.get_month() {
            Ok(v) => v,
            Err(e) => return Err(RtcError::from(e)),
        };
        let year = match datetime.get_year() {
            Ok(v) => v,
            Err(e) => return Err(RtcError::from(e)),
        };
        if seconds > 59 || minutes > 59 || hours > 23 || day == 0 || day > 31 || month == 0
            || month > 12 || year < 2000 || year > 2099 {
            return Err(RtcError::WrongValue);
        }
        let r: [u8; 8] = [
            0u8,
            Self::bin_to_bcd(seconds),
            Self::bin_to_bcd(minutes),
            Self::bin_to_bcd(hours),
            Self::bin_to_bcd(0u8),
            Self::bin_to_bcd(day),
            Self::bin_to_bcd(month),
            Self::bin_to_bcd((year - 2000) as u8),
        ];
        assert(r@ == registers_of(datetime@));
        Ok(r)
    }

    /// The date and time held by the seven time registers.
    pub fn datetime_from_registers(regs: &[u8; 7]) -> (r: DateTime)
        ensures
            r@ == datetime_of_registers(regs@),
    {
        DateTime::new()
            .seconds(Self::bcd_to_bin(regs[0] & 0x7F))
            .minutes(Self::bcd_to_bin(regs[1]))
            .hours(Self::bcd_to_bin(regs[2]))
            .day(Self::bcd_to_bin(regs[4]))
            .month(Self::bcd_to_bin(regs[5]))
            .year(2000u16 + (Self::bcd_to_bin(regs[6]) as u16))
    }

    /// The status register with the oscillator-stop flag cleared.
    pub fn clear_oscillator_stop(status: u8) -> (r: u8)
        ensures
            r == status & !OSCILLATOR_STOP_FLAG,
    {
        status & !OSCILLATOR_STOP_FLAG
    }
}


/// The bus exchanges of `set` at `address` for the register block `regs`,
/// where `status` is what the status register read gave, with result `r`:
/// the time registers are written first; only if that succeeds is the
/// status register read; only if that succeeds is it written back with the
/// oscillator-stop flag cleared.
pub open spec fn set_ops(
    address: u8,
    regs: Seq<u8>,
    status: u8,
    before: Seq<I2cOp>,
    after: Seq<I2cOp>,
    r: Result<(), RtcError>,
) -> bool {
    let time = I2cOp::Write { address, bytes: regs, ok: true };
    let read = I2cOp::Read { address, bytes: seq![status], ok: true };
    let flag = seq![STATUS_REG, status & !OSCILLATOR_STOP_FLAG];
    ||| after == before.push(I2cOp::Write { address, bytes: regs, ok: false }) && r == Err::<
        (),
        RtcError,
    >(RtcError::I2cError)
    ||| after == before.push(time).push(I2cOp::Read { address, bytes: seq![status], ok: false })
        && r == Err::<(), RtcError>(RtcError::I2cError)
    ||| after == before.push(time).push(read).push(I2cOp::Write { address, bytes: flag, ok: true })
        && r is Ok
    ||| after == before.push(time).push(read).push(I2cOp::Write { address, bytes: flag, ok: false })
        && r == Err::<(), RtcError>(RtcError::I2cError)
}

/// The bus exchanges of `get` at `address`, where `regs` is what the read
/// left in the buffer, with result `r`: the register pointer is set to 0,
/// and only if that succeeds are the seven time registers read and decoded.
pub open spec fn get_ops(
    address: u8,
    regs: Seq<u8>,
    before: Seq<I2cOp>,
    after: Seq<I2cOp>,
    r: Result<DateTime, RtcError>,
) -> bool {
    let point = I2cOp::Write { address, bytes: seq![0u8], ok: true };
    ||| after == before.push(I2cOp::Write { address, bytes: seq![0u8], ok: false }) && r is Err
        && r->Err_0 == RtcError::I2cError
    ||| after == before.push(point).push(I2cOp::Read { address, bytes: regs, ok: false }) && r is Err
        && r->Err_0 == RtcError::I2cError
    ||| after == before.push(point).push(I2cOp::Read { address, bytes: regs, ok: true }) && r is Ok
        && r->Ok_0@ == datetime_of_registers(regs)
}

impl<I2CType: I2cRead + I2cWrite> Rtc<I2CType> {
    /// Sends `data` to the clock.
    fn write(&mut self, data: &[u8]) -> (r: Result<(), RtcError>)
        ensures
            final(self).address() == old(self).address(),
            final(self).ops() == old(self).ops().push(
                I2cOp::Write { address: old(self).address(), bytes: data@, ok: r is Ok },
            ),
            r is Err ==> r->Err_0 == RtcError::I2cError,
    {
        let result = self.i2c.write(self.address, data);
        self.ops = Ghost(
            self.ops@.push(I2cOp::Write { address: self.address, bytes: data@, ok: result is Ok }),
        );
        match result {
            Ok(()) => Ok(()),
            Err(()) => Err(RtcError::I2cError),
        }
    }

    /// Fills `data` from the clock.
    fn read<const N: usize>(&mut self, data: &mut [u8; N]) -> (r: Result<(), RtcError>)
        ensures
            final(self).address() == old(self).address(),
            final(self).ops() == old(self).ops().push(
                I2cOp::Read { address: old(self).address(), bytes: final(data)@, ok: r is Ok },
            ),
            r is Err ==> r->Err_0 == RtcError::I2cError,
    {
        let result = self.i2c.read(self.address, data);
        self.ops = Ghost(
            self.ops@.push(I2cOp::Read { address: self.address, bytes: data@, ok: result is Ok }),
        );
        match result {
            Ok(()) => Ok(()),
            Err(()) => Err(RtcError::I2cError),
        }
    }
}

/// A real-time clock that keeps a date and time of type `T`.
pub trait RtcTrait<T: DateTimeTrait> {
    type Error;

    fn set(&mut self, datetime: &T) -> Result<(), Self::Error>;

    fn get(&mut self) -> Result<T, Self::Error>;
}

impl<I2CType: I2cRead + I2cWrite> RtcTrait<DateTime> for Rtc<I2CType> {
    type Error = RtcError;

    /// Writes `datetime` to the time registers, then clears the
    /// oscillator-stop flag. A date and time the clock cannot hold is
    /// refused before anything is sent.
    fn set(&mut self, datetime: &DateTime) -> (r: Result<(), RtcError>)
        ensures
            final(self).address() == old(self).address(),
            !storable(datetime@) ==> r == Err::<(), RtcError>(RtcError::WrongValue)
                && final(self).ops() == old(self).ops(),
            storable(datetime@) ==> exists|status: u8|
                #[trigger] set_ops(
                    old(self).address(),
                    registers_of(datetime@),
                    status,
                    old(self).ops(),
                    final(self).ops(),
                    r,
                ),
    {
        let data_to_send = match Self::registers(datetime) {
            Ok(d) => d,
            Err(e) => return Err(e),
        };
        match self.write(&data_to_send) {
            Ok(()) => {},
            Err(e) => {
                assert(set_ops(
                    old(self).address(),
                    registers_of(datetime@),
                    0u8,
                    old(self).ops(),
                    self.ops(),
                    Err(e),
                ));
                return Err(e);
            },
        }
        let mut status_reg: [u8; 1] = [0u8];
        match self.read(&mut status_reg) {
            Ok(()) => {},
            Err(e) => {
                assert(status_reg@ =~= seq![status_reg[0]]);
                assert(set_ops(
                    old(self).address(),
                    registers_of(datetime@),
                    status_reg[0],
                    old(self).ops(),
                    self.ops(),
                    Err(e),
                ));
                return Err(e);
            },
        }
        assert(status_reg@ =~= seq![status_reg[0]]);
        let output_data: [u8; 2] = [STATUS_REG, Self::clear_oscillator_stop(status_reg[0])];
        assert(output_data@ =~= seq![STATUS_REG, status_reg[0] & !OSCILLATOR_STOP_FLAG]);
        let r = self.write(&output_data);
        assert(set_ops(
            old(self).address(),
            registers_of(datetime@),
            status_reg[0],
            old(self).ops(),
            self.ops(),
            r,
        ));
        r
    }

    /// Reads the seven time registers, starting at register 0.
    fn get(&mut self) -> (r: Result<DateTime, RtcError>)
        ensures
            final(self).address() == old(self).address(),
            exists|regs: Seq<u8>|
                regs.len() == 7 && #[trigger] get_ops(
                    old(self).address(),
                    regs,
                    old(self).ops(),
                    final(self).ops(),
                    r,
                ),
    {
        let mut data_to_read: [u8; 7] = [0u8; 7];
        let start: [u8; 1] = [0u8];
        assert(start@ =~= seq![0u8]);
        match self.write(&start) {
            Ok(()) => {},
            Err(e) => {
                let r: Result<DateTime, RtcError> = Err(e);
                assert(get_ops(self.address, data_to_read@, old(self).ops(), self.ops@, r));
                return r;
            },
        }
        match self.read(&mut data_to_read) {
            Ok(()) => {},
            Err(e) => {
                let r: Result<DateTime, RtcError> = Err(e);
                assert(get_ops(self.address, data_to_read@, old(self).ops(), self.ops@, r));
                return r;
            },
        }
        let r: Result<DateTime, RtcError> = Ok(Self::datetime_from_registers(&data_to_read));
        assert(get_ops(self.address, data_to_read@, old(self).ops(), self.ops@, r));
        r
    }
}

} // verus!
