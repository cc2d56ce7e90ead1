use vstd::prelude::*;

verus! {

/// Writing to a device on an I2C bus.
pub trait I2cWrite {
    /// Sends `bytes` to the device at `address`.
    fn write(&mut self, address: u8, bytes: &[u8]) -> Result<(), ()>;
}

/// Reading from a device on an I2C bus.
pub trait I2cRead {
    /// Fills `buffer` with bytes read from the device at `address`.
    fn read(&mut self, address: u8, buffer: &mut [u8]) -> Result<(), ()>;
}

/// A blocking delay.
pub trait DelayMs {
    /// Waits for `ms` milliseconds.
    fn delay_ms(&mut self, ms: u16);
}


/// The sending half of a serial port.
pub trait SerialWrite {
    /// Sends one byte, blocking until the port takes it.
    fn write(&mut self, word: u8) -> Result<(), ()>;
}

/// The receiving half of a serial port.
pub trait SerialRead {
    /// Takes the next received byte, or `None` where none has arrived yet.
    fn read(&mut self) -> Option<u8>;
}

/// A one-shot countdown timer.
pub trait CountDown {
    /// Arms the timer for `ticks` ticks.
    fn start(&mut self, ticks: u32);

    /// Tells whether the armed duration has elapsed.
    fn expired(&mut self) -> bool;
}


/// One exchange with a serial port and its timer, as a driver records it.
pub enum SerialOp {
    /// `word` was handed to the port, which took it (`ok`) or refused it.
    Write { word: u8, ok: bool },
    /// The timer was armed for `ticks` ticks.
    Start { ticks: u32 },
    /// The timer was asked whether it had expired, and answered `expired`.
    Wait { expired: bool },
    /// The port was asked for a byte, and answered `byte`.
    Read { byte: Option<u8> },
}

/// One exchange with a device on an I2C bus, as a driver records it.
pub enum I2cOp {
    /// `bytes` were sent to `address`; `ok` tells whether the bus reported success.
    Write { address: u8, bytes: Seq<u8>, ok: bool },
    /// A read from `address` left `bytes` in the buffer; `ok` tells whether
    /// the bus reported success.
    Read { address: u8, bytes: Seq<u8>, ok: bool },
}

} // verus!
