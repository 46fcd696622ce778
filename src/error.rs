//! Error types of the library.

use vstd::prelude::*;

verus! {

/// Why a CRSF frame or payload was rejected.
#[derive(Debug, Clone, Copy, PartialEq, Eq, Structural)]
pub enum CrsfError {
    /// Fewer than four bytes: no room for sync, length, type and CRC.
    FrameTooShort,
    /// The first byte is not the sync byte; it holds the byte found.
    InvalidSync(u8),
    /// The length byte is below 2, so type and CRC cannot both fit.
    InvalidLength(u8),
    /// The buffer ends before the frame that the length byte announces.
    Truncated { expected: usize, actual: usize },
    /// The CRC computed over length, type and payload differs from the one received.
    CrcMismatch { computed: u8, received: u8 },
    /// The payload is longer than a frame may carry; it holds that length.
    PayloadTooLarge(usize),
    /// A telemetry payload is shorter than its record.
    PayloadTooShort { required: usize, actual: usize },
}

/// What went wrong on the serial link; each holds the port's own message.
#[derive(Debug, Clone)]
pub enum SerialFailure {
    /// Writing the packet failed.
    Write(String),
    /// Flushing the port failed.
    Flush(String),
}

/// The library's error type.
#[derive(Debug, Clone)]
pub enum FpvBridgeError {
    /// A frame or payload of the wire protocol was malformed.
    CrsfProtocol(CrsfError),
    /// A configuration value is out of its range; the message says which.
    Config(String),
    /// Writing to or flushing the serial link failed.
    Serial(SerialFailure),
    /// None of the serial devices could be opened; it lists those tried,
    /// and is empty when there was none to try.
    SerialPortNotFound(Vec<String>),
    /// The input device failed.
    Controller(String),
    /// No supported input device was found.
    ControllerNotFound,
}

} // verus!
