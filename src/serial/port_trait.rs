//! What the link needs of a serial port, so that any port (a real device,
//! or one that records what it is given) can carry it.

use vstd::prelude::*;

verus! {

/// Writing to a serial port. Errors carry the port's message.
pub trait SerialPortIO {
    /// Writes all of `data`.
    fn write_all(&mut self, data: &[u8]) -> Result<(), String>;

    /// Flushes what was written.
    fn flush(&mut self) -> Result<(), String>;
}

/// Opening a serial port by device path.
pub trait OpenPort: SerialPortIO + Sized {
    /// Opens the device at `path`, 8 data bits, no parity, one stop bit,
    /// no flow control, at `baud_rate`.
    fn open_port(path: &str, baud_rate: u32) -> Result<Self, String>;
}

} // verus!
