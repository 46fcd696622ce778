//! Constants and types of the CRSF protocol.

use vstd::prelude::*;
use crate::error::{CrsfError, FpvBridgeError};

verus! {

/// Sync byte that starts every frame.
pub const CRSF_SYNC_BYTE: u8 = 0xC8;

/// Frame type of packed RC channels.
pub const CRSF_FRAMETYPE_RC_CHANNELS_PACKED: u8 = 0x16;

/// Frame type of link statistics telemetry.
pub const CRSF_FRAMETYPE_LINK_STATISTICS: u8 = 0x14;

/// Frame type of battery sensor telemetry.
pub const CRSF_FRAMETYPE_BATTERY_SENSOR: u8 = 0x08;

/// Frame type of GPS telemetry.
pub const CRSF_FRAMETYPE_GPS: u8 = 0x02;

/// Largest payload: a frame is at most 64 bytes, four of which are
/// sync, length, type and CRC.
pub const CRSF_MAX_PAYLOAD_SIZE: usize = 60;

/// Payload size of an RC channels frame (16 channels of 11 bits).
pub const CRSF_RC_CHANNELS_PAYLOAD_SIZE: usize = 22;

/// Length byte of an RC channels frame (type + payload + CRC).
pub const CRSF_RC_CHANNELS_FRAME_LENGTH: u8 = 0x18;

/// Size in bytes of a whole RC channels frame.
pub const CRSF_RC_CHANNELS_FRAME_SIZE: usize = 26;

/// Number of RC channels.
pub const CRSF_NUM_CHANNELS: usize = 16;

/// Smallest channel value.
pub const CRSF_CHANNEL_VALUE_MIN: u16 = 0;

/// Largest channel value (11 bits).
pub const CRSF_CHANNEL_VALUE_MAX: u16 = 2047;

/// Neutral channel value.
pub const CRSF_CHANNEL_VALUE_CENTER: u16 = 1024;

/// Payload size of a link statistics record.
pub const CRSF_LINK_STATS_PAYLOAD_SIZE: usize = 10;

/// Payload size of a battery sensor record.
pub const CRSF_BATTERY_SENSOR_PAYLOAD_SIZE: usize = 8;

/// Payload size of a GPS record.
pub const CRSF_GPS_PAYLOAD_SIZE: usize = 15;

/// The sixteen channel values of one RC frame.
pub type RcChannels = [u16; 16];

/// Link statistics telemetry.
#[derive(Debug, Clone, Copy, PartialEq, Eq, Structural)]
pub struct LinkStatistics {
    /// Uplink RSSI of antenna 1, in -dBm.
    pub uplink_rssi_1: u8,
    /// Uplink RSSI of antenna 2, in -dBm.
    pub uplink_rssi_2: u8,
    /// Uplink link quality (0-100 %).
    pub uplink_lq: u8,
    /// Uplink SNR in dB.
    pub uplink_snr: i8,
    /// Active antenna (0 or 1).
    pub active_antenna: u8,
    /// RF mode / packet rate.
    pub rf_mode: u8,
    /// Uplink TX power (encoded).
    pub uplink_tx_power: u8,
    /// Downlink RSSI in -dBm.
    pub downlink_rssi: u8,
    /// Downlink link quality (0-100 %).
    pub downlink_lq: u8,
    /// Downlink SNR in dB.
    pub downlink_snr: i8,
}

/// Battery sensor telemetry, in the fixed-point units of the wire.
#[derive(Debug, Clone, Copy, PartialEq, Eq, Structural)]
pub struct BatterySensor {
    /// Voltage in hundredths of a volt.
    pub voltage_centivolts: u16,
    /// Current in tenths of an ampere.
    pub current_deciamps: u16,
    /// Capacity used in mAh (24 bits on the wire).
    pub capacity_used: u32,
    /// Battery remaining (0-100 %).
    pub remaining_percent: u8,
}

/// GPS telemetry, in the fixed-point units of the wire.
#[derive(Debug, Clone, Copy, PartialEq, Eq, Structural)]
pub struct GpsData {
    /// Latitude in 1e-7 degrees.
    pub latitude_e7: i32,
    /// Longitude in 1e-7 degrees.
    pub longitude_e7: i32,
    /// Ground speed in tenths of a km/h.
    pub ground_speed_dkmh: u16,
    /// Heading in hundredths of a degree.
    pub heading_cdeg: u16,
    /// Altitude in meters.
    pub altitude: i32,
    /// Number of satellites.
    pub satellites: u8,
}

/// A frame of the protocol: its type and a payload of at most 60 bytes.
#[derive(Debug, Clone)]
pub struct CrsfFrame {
    /// Frame type byte.
    pub frame_type: u8,
    /// Payload bytes.
    pub payload: Vec<u8>,
}

impl CrsfFrame {
    /// The payload fits in a frame.
    pub open spec fn wf(&self) -> bool {
        self.payload@.len() <= CRSF_MAX_PAYLOAD_SIZE
    }

    /// Builds a frame; a payload over 60 bytes is refused.
    pub fn new(frame_type: u8, payload: Vec<u8>) -> (r: Result<CrsfFrame, FpvBridgeError>)
        ensures
            payload@.len() <= CRSF_MAX_PAYLOAD_SIZE <==> r is Ok,
            r is Ok ==> r->Ok_0.frame_type == frame_type && r->Ok_0.payload@ == payload@,
            r is Err ==> r->Err_0 == FpvBridgeError::CrsfProtocol(
                CrsfError::PayloadTooLarge(payload@.len() as usize),
            ),
    {
        if payload.len() > CRSF_MAX_PAYLOAD_SIZE {
            return Err(FpvBridgeError::CrsfProtocol(CrsfError::PayloadTooLarge(payload.len())));
        }
        Ok(CrsfFrame { frame_type, payload })
    }

    /// The length byte of the frame: type + payload + CRC.
    pub fn length(&self) -> (r: u8)
        requires
            self.wf(),
        ensures
            r == self.payload@.len() + 2,
    {
        (1 + self.payload.len() + 1) as u8
    }
}

} // verus!
