//! The CRSF wire format: CRC, frame layout, RC channel packing and
//! telemetry decoding.

pub mod crc;
pub mod protocol;
pub mod encoder;
pub mod decoder;
pub mod lemmas;
