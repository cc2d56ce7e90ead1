use vstd::prelude::*;
use crate::bus::{DelayMs, I2cWrite};
use vstd::string::StringSliceAdditionalSpecFns;

verus! {

pub const BACKLIGHT: u8 = 0b0000_1000;
pub const NO_BACKLIGHT: u8 = 0b0000_0000;

pub const ENABLE: u8 = 0b0000_0100;
pub const REGISTER_SELECT: u8 = 0b0000_0001;
pub const DISPLAY_CONTROL: u8 = 0b0000_1000;

pub const ONE_LINE: u8 = 0b0000_0000;
pub const TWO_LINE: u8 = 0b0000_1000;
pub const FOUR_BIT_MODE: u8 = 0b0000_0000;
pub const FIVE_X8_DOTS: u8 = 0b0000_0000;
pub const FIVE_X10_DOTS: u8 = 0b0000_0100;

pub const FUNCTION_SET: u8 = 0b0010_0000;

pub const DISPLAY_ON: u8 = 0b0000_0100;
pub const CURSOR_OFF: u8 = 0b0000_0000;
pub const BLINK_OFF: u8 = 0b0000_0000;

pub const ENTRY_LEFT: u8 = 0b0000_0010;
pub const ENTRY_SHIFT_DECREMENT: u8 = 0b0000_0000;
pub const ENTRY_MODE_SET: u8 = 0b0000_0100;

pub const RETURN_HOME: u8 = 0b0000_0010;

pub const SET_DRAM_ADDR: u8 = 0b1000_0000;
pub const SET_CRAM_ADDR: u8 = 0b0100_0000;

pub const INITIALIZE_4BIT: u8 = 0x33;

/// The settings of a character display, as plain values.
pub struct LcdModel {
    pub address: u8,
    pub display_function: u8,
    pub display_control: u8,
    pub display_mode: u8,
    pub cols: u8,
    pub rows: u8,
    pub char_size: u8,
    pub back_light_val: u8,
}

/// One exchange of a display driver with its bus and its delay. What the bus
/// answers to a write is not used.
pub enum LcdOp {
    /// `bytes` were sent to the expander at `address`.
    Write { address: u8, bytes: Seq<u8> },
    /// A pause of `ms` milliseconds.
    Delay { ms: u16 },
}

/// A character display driven through an I2C port expander in four-bit mode.
pub struct Lcd<I2cType, DelayType> {
    i2c: I2cType,
    address: u8,
    delay: DelayType,
    display_function: u8,
    display_control: u8,
    display_mode: u8,
    cols: u8,
    rows: u8,
    char_size: u8,
    back_light_val: u8,
    ops: Ghost<Seq<LcdOp>>,
}

impl<I2cType, DelayType> View for Lcd<I2cType, DelayType> {
    type V = LcdModel;

    closed spec fn view(&self) -> LcdModel {
        LcdModel {
            address: self.address,
            display_function: self.display_function,
            display_control: self.display_control,
            display_mode: self.display_mode,
            cols: self.cols,
            rows: self.rows,
            char_size: self.char_size,
            back_light_val: self.back_light_val,
        }
    }
}

/// The byte put on the expander for the four bits `nibble` (the high half
/// of the byte), for data or a command, with the backlight bit `backlight`.
pub open spec fn expander_byte(nibble: u8, data: bool, backlight: u8) -> u8 {
    nibble | (if data { REGISTER_SELECT } else { 0u8 }) | backlight
}

/// The display-function bits that `init` selects for `rows` rows and
/// character size `char_size`.
pub open spec fn function_bits(rows: u8, char_size: u8) -> u8 {
    if rows > 1 {
        TWO_LINE
    } else if char_size != 0 && rows == 1 {
        FIVE_X10_DOTS
    } else {
        FOUR_BIT_MODE | ONE_LINE | FIVE_X8_DOTS
    }
}

/// Offset of the first character of each row in display memory.
pub open spec fn row_offset(row: u8) -> u8 {
    if row == 0 {
        0x00
    } else if row == 1 {
        0x40
    } else if row == 2 {
        0x14
    } else {
        0x54
    }
}

/// The row that the cursor goes to: the last one where `row` is past it.
pub open spec fn clamped_row(row: u8, rows: u8) -> int {
    if row >= rows {
        rows - 1
    } else {
        row as int
    }
}

/// Whether the cursor can be placed at `(col, row)` on a display of `rows`
/// rows: the display has a row, at most four rows are addressable, and the
/// address fits in a byte.
pub open spec fn cursor_in_range(col: u8, row: u8, rows: u8) -> bool {
    &&& rows > 0
    &&& clamped_row(row, rows) < 4
    &&& col as int + row_offset(clamped_row(row, rows) as u8) as int <= 0xFF
}

/// The exchanges that clock the expander byte `b` into the display.
pub open spec fn pulse_ops(address: u8, b: u8) -> Seq<LcdOp> {
    seq![
        LcdOp::Write { address, bytes: seq![b, b | ENABLE] },
        LcdOp::Delay { ms: 2 },
        LcdOp::Write { address, bytes: seq![b] },
    ]
}

/// The exchanges that send `byte`, high half first, as data or a command.
pub open spec fn byte_ops(m: LcdModel, byte: u8, data: bool) -> Seq<LcdOp> {
    pulse_ops(m.address, expander_byte(byte & 0xF0, data, m.back_light_val)) + pulse_ops(
        m.address,
        expander_byte((byte & 0x0F) << 4u8, data, m.back_light_val),
    )
}

/// The exchanges of the command `cmd`.
pub open spec fn command_ops(m: LcdModel, cmd: u8) -> Seq<LcdOp> {
    byte_ops(m, cmd, false).push(LcdOp::Delay { ms: 1 })
}

/// The exchanges of the data byte `b`.
pub open spec fn data_ops(m: LcdModel, b: u8) -> Seq<LcdOp> {
    byte_ops(m, b, true).push(LcdOp::Delay { ms: 1 })
}

/// The exchanges of the data bytes `s`, in order.
pub open spec fn text_ops(m: LcdModel, s: Seq<u8>) -> Seq<LcdOp>
    decreases s.len(),
{
    if s.len() == 0 {
        Seq::empty()
    } else {
        text_ops(m, s.drop_last()) + data_ops(m, s.last())
    }
}

/// The exchanges of the initialisation sequence.
pub open spec fn init_ops(m: LcdModel) -> Seq<LcdOp> {
    seq![LcdOp::Delay { ms: 15 }] + byte_ops(m, INITIALIZE_4BIT, false) + seq![LcdOp::Delay { ms: 5 }]
        + command_ops(m, 0x32) + command_ops(m, 0x28) + command_ops(m, 0x0E) + command_ops(m, 0x01)
        + command_ops(m, 0x80) + command_ops(m, FUNCTION_SET | function_bits(m.rows, m.char_size))
        + command_ops(m, 0x0C) + command_ops(m, 0x01) + command_ops(m, 0x06) + command_ops(
        m,
        RETURN_HOME,
    )
}

impl<I2cType, DelayType> Lcd<I2cType, DelayType> {
    /// A display at `address`, sixteen columns by two rows, backlight on.
    pub fn new(i2c: I2cType, address: u8, delay: DelayType) -> (r: Self)
        ensures
            r@ == (LcdModel {
                address,
                display_function: 0,
                display_control: 0,
                display_mode: 0,
                cols: 16,
                rows: 2,
                char_size: 1,
                back_light_val: BACKLIGHT,
            }),
            r.ops() == Seq::<LcdOp>::empty(),
    {
        Lcd {
            i2c,
            address,
            delay,
            display_function: 0u8,
            display_control: 0u8,
            display_mode: 0u8,
            cols: 16u8,
            rows: 2u8,
            char_size: 1u8,
            back_light_val: BACKLIGHT,
            ops: Ghost(Seq::empty()),
        }
    }

    /// Every exchange with the bus and the delay so far, in order.
    pub closed spec fn ops(&self) -> Seq<LcdOp> {
        self.ops@
    }

    /// Sets the number of columns.
    pub fn columns(self, cols: u8) -> (r: Self)
        ensures
            r@ == (LcdModel { cols, ..self@ }),
            r.ops() == self.ops(),
    {
        Lcd { cols, ..self }
    }

    /// Sets the number of rows.
    pub fn rows(self, rows: u8) -> (r: Self)
        ensures
            r@ == (LcdModel { rows, ..self@ }),
            r.ops() == self.ops(),
    {
        Lcd { rows, ..self }
    }

    /// Sets the character size.
    pub fn char_size(self, char_size: u8) -> (r: Self)
        ensures
            r@ == (LcdModel { char_size, ..self@ }),
            r.ops() == self.ops(),
    {
        Lcd { char_size, ..self }
    }

    /// Completes the configuration.
    pub fn build(self) -> (r: Self)
        ensures
            r@ == self@,
            r.ops() == self.ops(),
    {
        self
    }

    /// The byte put on the expander for `nibble`.
    pub fn expander_byte(&self, nibble: u8, data: bool) -> (r: u8)
        ensures
            r == expander_byte(nibble, data, self@.back_light_val),
    {
        let rs = if data {
            REGISTER_SELECT
        } else {
            0u8
        };
        nibble | rs | self.back_light_val
    }

    /// The display-function bits for the configured geometry.
    pub fn function_bits(&self) -> (r: u8)
        ensures
            r == function_bits(self@.rows, self@.char_size),
    {
        let mut bits: u8 = FOUR_BIT_MODE | ONE_LINE | FIVE_X8_DOTS;
        assert(0u8 | 0u8 | 0u8 == 0u8 && 0u8 | 8u8 == 8u8 && 0u8 | 4u8 == 4u8) by (bit_vector);
        if self.rows > 1 {
            bits = bits | TWO_LINE;
        }
        if self.char_size != 0 && self.rows == 1 {
            bits = bits | FIVE_X10_DOTS;
        }
        bits
    }

    /// The display-memory address of `(col, row)`, the row clamped to the
    /// last one; `None` where the cursor cannot be placed there.
    pub fn cursor_address(&self, col: u8, row: u8) -> (r: Option<u8>)
        ensures
            r is Some <==> cursor_in_range(col, row, self@.rows),
            r is Some ==> r->Some_0 as int == col as int + row_offset(
                clamped_row(row, self@.rows) as u8,
            ) as int,
    {
        if self.rows == 0 {
            return None;
        }
        let mut row = row;
        if row >= self.rows {
            row = self.rows - 1;
        }
        if row >= 4 {
            return None;
        }
        let offsets: [u8; 4] = [0x00u8, 0x40u8, 0x14u8, 0x54u8];
        let offset = offsets[row as usize];
        if col as u16 + offset as u16 > 0xFF {
            return None;
        }
        Some(col + offset)
    }
}


impl<I2cType: I2cWrite, DelayType: DelayMs> Lcd<I2cType, DelayType> {
    /// Pauses for `ms` milliseconds.
    fn pause(&mut self, ms: u16)
        ensures
            final(self)@ == old(self)@,
            final(self).ops() == old(self).ops().push(LcdOp::Delay { ms }),
    {
        self.delay.delay_ms(ms);
        self.ops = Ghost(self.ops@.push(LcdOp::Delay { ms }));
    }

    /// Clocks the four bits `nibble` into the display: the byte with the
    /// enable bit raised, then with it lowered.
    fn expander_write(&mut self, nibble: u8, data: bool)
        ensures
            final(self)@ == old(self)@,
            final(self).ops() == old(self).ops() + pulse_ops(
                old(self)@.address,
                expander_byte(nibble, data, old(self)@.back_light_val),
            ),
    {
        let byte = self.expander_byte(nibble, data);
        let pulse: [u8; 2] = [byte, byte | ENABLE];
        let _ = self.i2c.write(self.address, &pulse);
        self.ops = Ghost(self.ops@.push(LcdOp::Write { address: self.address, bytes: pulse@ }));
        self.pause(2u16);
        let settle: [u8; 1] = [byte];
        let _ = self.i2c.write(self.address, &settle);
        self.ops = Ghost(self.ops@.push(LcdOp::Write { address: self.address, bytes: settle@ }));
        assert(pulse@ =~= seq![byte, byte | ENABLE]);
        assert(settle@ =~= seq![byte]);
        assert(self.ops@ =~= old(self).ops() + pulse_ops(self.address, byte));
    }

    /// Sends `byte`, high half first, as data or as a command.
    fn write(&mut self, byte: u8, data: bool) -> (r: Result<(), ()>)
        ensures
            final(self)@ == old(self)@,
            final(self).ops() == old(self).ops() + byte_ops(old(self)@, byte, data),
            r is Ok,
    {
        let upper_nibble = byte & 0xF0;
        self.expander_write(upper_nibble, data);
        let lower_nibble = (byte & 0x0F) << 4;
        self.expander_write(lower_nibble, data);
        assert(self.ops@ =~= old(self).ops() + byte_ops(old(self)@, byte, data));
        Ok(())
    }

    /// Sends `byte` as data.
    fn write_byte(&mut self, byte: u8) -> (r: Result<(), ()>)
        ensures
            final(self)@ == old(self)@,
            final(self).ops() == old(self).ops() + data_ops(old(self)@, byte),
            r is Ok,
    {
        let _ = self.write(byte, true);
        self.pause(1u16);
        assert(self.ops@ =~= old(self).ops() + data_ops(old(self)@, byte));
        Ok(())
    }

    /// Sends `cmd` as a command.
    fn command(&mut self, cmd: u8) -> (r: Result<(), ()>)
        ensures
            final(self)@ == old(self)@,
            final(self).ops() == old(self).ops() + command_ops(old(self)@, cmd),
            r is Ok,
    {
        let _ = self.write(cmd, false);
        self.pause(1u16);
        assert(self.ops@ =~= old(self).ops() + command_ops(old(self)@, cmd));
        Ok(())
    }
}

/// The operations of a character display.
pub trait LcdTrait {
    fn init(&mut self) -> Result<(), ()>;

    fn clear(&mut self) -> Result<(), ()>;

    fn reset(&mut self) -> Result<(), ()>;

    fn backlight(&mut self) -> Result<(), ()>;

    fn no_backlight(&mut self) -> Result<(), ()>;

    fn display(&mut self) -> Result<(), ()>;

    fn no_display(&mut self) -> Result<(), ()>;

    fn home(&mut self) -> Result<(), ()>;

    fn set_cursor(&mut self, col: u8, row: u8) -> Result<(), ()>;

    fn write_char(&mut self, data: char) -> Result<(), ()>;

    fn write_bytes(&mut self, data: &[u8]) -> Result<(), ()>;

    fn write_str(&mut self, data: &str) -> Result<(), ()>;

    fn create_char(&mut self, location: u8, char_map: &[u8; 8]) -> Result<(), ()>;

    fn write_custom_char(&mut self, location: u8) -> Result<(), ()>;
}

impl<I2cType: I2cWrite, DelayType: DelayMs> LcdTrait for Lcd<I2cType, DelayType> {
    /// Runs the four-bit initialisation sequence and leaves the display on,
    /// cleared, writing left to right, with the cursor home.
    fn init(&mut self) -> (r: Result<(), ()>)
        ensures
            r is Ok,
            final(self)@ == (LcdModel {
                display_function: function_bits(old(self)@.rows, old(self)@.char_size),
                display_control: DISPLAY_ON,
                display_mode: ENTRY_LEFT,
                ..old(self)@
            }),
            final(self).ops() == old(self).ops() + init_ops(old(self)@),
    {
        let ghost m = self@;
        self.display_function = self.function_bits();
        self.pause(15u16);
        let _ = self.write(INITIALIZE_4BIT, false);
        self.pause(5u16);
        let _ = self.command(0x32);
        let _ = self.command(0x28);
        let _ = self.command(0x0E);
        let _ = self.command(0x01);
        let _ = self.command(0x80);
        let _ = self.command(FUNCTION_SET | self.display_function);
        self.display_control = DISPLAY_ON | CURSOR_OFF | BLINK_OFF;
        let _ = self.display();
        let _ = self.clear();
        self.display_mode = ENTRY_LEFT | ENTRY_SHIFT_DECREMENT;
        let _ = self.command(ENTRY_MODE_SET | self.display_mode);
        let _ = self.home();
        assert(DISPLAY_ON | CURSOR_OFF | BLINK_OFF == 4u8 && (4u8 | 4u8) == 4u8 && (DISPLAY_CONTROL
            | 4u8) == 0x0Cu8 && (ENTRY_LEFT | ENTRY_SHIFT_DECREMENT) == 2u8 && (ENTRY_MODE_SET | 2u8)
            == 6u8) by (bit_vector);
        assert(self.ops@ =~= old(self).ops() + init_ops(m));
        Ok(())
    }

    /// Clears the display.
    fn clear(&mut self) -> (r: Result<(), ()>)
        ensures
            r is Ok,
            final(self)@ == old(self)@,
            final(self).ops() == old(self).ops() + command_ops(old(self)@, 0x01),
    {
        self.command(0b0000_0001)
    }

    /// Returns the cursor home and undoes any shift.
    fn reset(&mut self) -> (r: Result<(), ()>)
        ensures
            r is Ok,
            final(self)@ == old(self)@,
            final(self).ops() == old(self).ops() + command_ops(old(self)@, 0x02),
    {
        self.command(0b0000_0010)
    }

    /// Switches the backlight on.
    fn backlight(&mut self) -> (r: Result<(), ()>)
        ensures
            r is Ok,
            final(self)@ == (LcdModel {
                back_light_val: BACKLIGHT,
                display_control: old(self)@.display_control | DISPLAY_ON,
                ..old(self)@
            }),
            final(self).ops() == old(self).ops() + command_ops(
                final(self)@,
                DISPLAY_CONTROL | final(self)@.display_control,
            ),
    {
        self.back_light_val = BACKLIGHT;
        self.display()
    }

    /// Switches the backlight off.
    fn no_backlight(&mut self) -> (r: Result<(), ()>)
        ensures
            r is Ok,
            final(self)@ == (LcdModel {
                back_light_val: NO_BACKLIGHT,
                display_control: old(self)@.display_control | DISPLAY_ON,
                ..old(self)@
            }),
            final(self).ops() == old(self).ops() + command_ops(
                final(self)@,
                DISPLAY_CONTROL | final(self)@.display_control,
            ),
    {
        self.back_light_val = NO_BACKLIGHT;
        self.display()
    }

    /// Switches the display on.
    fn display(&mut self) -> (r: Result<(), ()>)
        ensures
            r is Ok,
            final(self)@ == (LcdModel {
                display_control: old(self)@.display_control | DISPLAY_ON,
                ..old(self)@
            }),
            final(self).ops() == old(self).ops() + command_ops(
                final(self)@,
                DISPLAY_CONTROL | final(self)@.display_control,
            ),
    {
        self.display_control = self.display_control | DISPLAY_ON;
        self.command(DISPLAY_CONTROL | self.display_control)
    }

    /// Switches the display off.
    fn no_display(&mut self) -> (r: Result<(), ()>)
        ensures
            r is Ok,
            final(self)@ == (LcdModel {
                display_control: old(self)@.display_control & !DISPLAY_ON,
                ..old(self)@
            }),
            final(self).ops() == old(self).ops() + command_ops(
                final(self)@,
                DISPLAY_CONTROL | final(self)@.display_control,
            ),
    {
        self.display_control = self.display_control & !DISPLAY_ON;
        self.command(DISPLAY_CONTROL | self.display_control)
    }

    /// Returns the cursor to the first column of the first row.
    fn home(&mut self) -> (r: Result<(), ()>)
        ensures
            r is Ok,
            final(self)@ == old(self)@,
            final(self).ops() == old(self).ops() + command_ops(old(self)@, RETURN_HOME),
    {
        self.command(RETURN_HOME)
    }

    /// Moves the cursor to `(col, row)`, the row clamped to the last one.
    /// A position that cannot be addressed is refused and nothing is sent.
    fn set_cursor(&mut self, col: u8, row: u8) -> (r: Result<(), ()>)
        ensures
            r is Ok <==> cursor_in_range(col, row, old(self)@.rows),
            final(self)@ == old(self)@,
            r is Ok ==> final(self).ops() == old(self).ops() + command_ops(
                old(self)@,
                SET_DRAM_ADDR | (col as int + row_offset(
                    clamped_row(row, old(self)@.rows) as u8,
                ) as int) as u8,
            ),
            r is Err ==> final(self).ops() == old(self).ops(),
    {
        match self.cursor_address(col, row) {
            Some(address) => self.command(SET_DRAM_ADDR | address),
            None => Err(()),
        }
    }

    /// Writes one character, by the low byte of its code.
    fn write_char(&mut self, data: char) -> (r: Result<(), ()>)
        ensures
            r is Ok,
            final(self)@ == old(self)@,
            final(self).ops() == old(self).ops() + data_ops(old(self)@, data as u8),
    {
        self.write_byte(data as u8)
    }

    /// Writes each of `data` in turn.
    fn write_bytes(&mut self, data: &[u8]) -> (r: Result<(), ()>)
        ensures
            r is Ok,
            final(self)@ == old(self)@,
            final(self).ops() == old(self).ops() + text_ops(old(self)@, data@),
    {
        let mut i: usize = 0;
        while i < data.len()
            invariant
                i <= data@.len(),
                self@ == old(self)@,
                self.ops() == old(self).ops() + text_ops(old(self)@, data@.take(i as int)),
            decreases data@.len() - i,
        {
            let _ = self.write_byte(data[i]);
            assert(data@.take(i as int + 1).drop_last() =~= data@.take(i as int));
            assert(self.ops@ =~= old(self).ops() + text_ops(old(self)@, data@.take(i as int + 1)));
            i += 1;
        }
        assert(data@.take(data@.len() as int) =~= data@);
        Ok(())
    }

    /// Writes the bytes of `data`.
    fn write_str(&mut self, data: &str) -> (r: Result<(), ()>)
        ensures
            r is Ok,
            final(self)@ == old(self)@,
            final(self).ops() == old(self).ops() + text_ops(old(self)@, data.spec_bytes()),
    {
        self.write_bytes(data.as_bytes())
    }

    /// Stores the eight rows of `char_map` as the custom character at
    /// `location` (taken modulo 8).
    fn create_char(&mut self, location: u8, char_map: &[u8; 8]) -> (r: Result<(), ()>)
        ensures
            r is Ok,
            final(self)@ == old(self)@,
            final(self).ops() == old(self).ops() + command_ops(
                old(self)@,
                SET_CRAM_ADDR | ((location & 0x07u8) << 3u8),
            ) + text_ops(old(self)@, char_map@),
    {
        let location = location & 0x07u8;
        let _ = self.command(SET_CRAM_ADDR | (location << 3));
        let ghost mid = self.ops@;
        let mut i: usize = 0;
        while i < 8
            invariant
                i <= 8,
                char_map@.len() == 8,
                self@ == old(self)@,
                self.ops() == mid + text_ops(old(self)@, char_map@.take(i as int)),
            decreases 8 - i,
        {
            let _ = self.write_byte(char_map[i]);
            assert(char_map@.take(i as int + 1).drop_last() =~= char_map@.take(i as int));
            assert(self.ops@ =~= mid + text_ops(old(self)@, char_map@.take(i as int + 1)));
            i += 1;
        }
        assert(char_map@.take(8) =~= char_map@);
        Ok(())
    }

    /// Writes the custom character stored at `location`.
    fn write_custom_char(&mut self, location: u8) -> (r: Result<(), ()>)
        ensures
            r is Ok,
            final(self)@ == old(self)@,
            final(self).ops() == old(self).ops() + data_ops(old(self)@, location),
    {
        self.write_byte(location)
    }
}

} // verus!
