//! Decoding of frames, RC channel payloads and telemetry records.

use vstd::prelude::*;
use super::crc::{crc8_direct, Crc8Table};
use super::encoder::{payload_bit, u16_bit};
use super::protocol::{
    BatterySensor, CrsfFrame, GpsData, LinkStatistics, RcChannels, CRSF_BATTERY_SENSOR_PAYLOAD_SIZE,
    CRSF_FRAMETYPE_BATTERY_SENSOR, CRSF_FRAMETYPE_GPS, CRSF_FRAMETYPE_LINK_STATISTICS,
    CRSF_GPS_PAYLOAD_SIZE, CRSF_LINK_STATS_PAYLOAD_SIZE, CRSF_MAX_PAYLOAD_SIZE,
    CRSF_RC_CHANNELS_PAYLOAD_SIZE, CRSF_SYNC_BYTE,
};
use crate::error::{CrsfError, FpvBridgeError};

verus! {

/// What decoding `b` gives: the frame's type and payload, or the first
/// check that fails, in the order sync, size, length, CRC, payload size.
pub open spec fn decoded_frame(b: Seq<u8>) -> Result<(u8, Seq<u8>), CrsfError> {
    if b.len() < 4 {
        Err(CrsfError::FrameTooShort)
    } else if b[0] != CRSF_SYNC_BYTE {
        Err(CrsfError::InvalidSync(b[0]))
    } else if b[1] < 2 {
        Err(CrsfError::InvalidLength(b[1]))
    } else if b.len() < 2 + b[1] {
        Err(CrsfError::Truncated { expected: (2 + b[1]) as usize, actual: b.len() as usize })
    } else if crc8_direct(b.subrange(1, 1 + b[1])) != b[1 + b[1]] {
        Err(
            CrsfError::CrcMismatch {
                computed: crc8_direct(b.subrange(1, 1 + b[1])),
                received: b[1 + b[1]],
            },
        )
    } else if b[1] - 2 > CRSF_MAX_PAYLOAD_SIZE {
        Err(CrsfError::PayloadTooLarge((b[1] - 2) as usize))
    } else {
        Ok((b[2], b.subrange(3, 1 + b[1])))
    }
}

/// `ch` holds, in its low 11 bits and nothing above, the 16 channels of
/// the 176-bit stream in `p`.
pub open spec fn is_unpacked(p: Seq<u8>, ch: Seq<u16>) -> bool {
    &&& ch.len() == 16
    &&& forall|i: int, b: int|
        0 <= i < 16 && 0 <= b < 16 ==> #[trigger] u16_bit(ch[i], b) == (b < 11 && payload_bit(
            p,
            11 * i + b,
        ))
}

/// A big-endian 16-bit value.
pub open spec fn be_u16(hi: u8, lo: u8) -> int {
    hi * 256 + lo
}

/// A big-endian 32-bit value.
pub open spec fn be_u32(b0: u8, b1: u8, b2: u8, b3: u8) -> int {
    b0 * 0x100_0000 + b1 * 0x1_0000 + b2 * 0x100 + b3
}

/// A byte read as a two's complement value.
pub open spec fn signed8(b: u8) -> int {
    if b >= 0x80 {
        b - 0x100
    } else {
        b as int
    }
}

/// A 32-bit value read as a two's complement value.
pub open spec fn signed32(v: int) -> int {
    if v >= 0x8000_0000 {
        v - 0x1_0000_0000
    } else {
        v
    }
}

fn to_i8(b: u8) -> (r: i8)
    ensures
        r == signed8(b),
{
    if b >= 0x80 {
        (b - 0x80) as i8 - 0x40 - 0x40
    } else {
        b as i8
    }
}

fn to_i32(v: u32) -> (r: i32)
    ensures
        r == signed32(v as int),
{
    if v >= 0x8000_0000 {
        (v - 0x8000_0000) as i32 - 0x4000_0000 - 0x4000_0000
    } else {
        v as i32
    }
}

/// The link statistics record of a payload of at least 10 bytes.
pub open spec fn link_statistics_of(p: Seq<u8>) -> LinkStatistics {
    LinkStatistics {
        uplink_rssi_1: p[0],
        uplink_rssi_2: p[1],
        uplink_lq: p[2],
        uplink_snr: signed8(p[3]) as i8,
        active_antenna: p[4],
        rf_mode: p[5],
        uplink_tx_power: p[6],
        downlink_rssi: p[7],
        downlink_lq: p[8],
        downlink_snr: signed8(p[9]) as i8,
    }
}

/// The battery record of a payload of at least 8 bytes.
pub open spec fn battery_sensor_of(p: Seq<u8>) -> BatterySensor {
    BatterySensor {
        voltage_centivolts: be_u16(p[0], p[1]) as u16,
        current_deciamps: be_u16(p[2], p[3]) as u16,
        capacity_used: be_u32(0, p[4], p[5], p[6]) as u32,
        remaining_percent: p[7],
    }
}

/// The GPS record of a payload of at least 15 bytes.
pub open spec fn gps_data_of(p: Seq<u8>) -> GpsData {
    GpsData {
        latitude_e7: signed32(be_u32(p[0], p[1], p[2], p[3])) as i32,
        longitude_e7: signed32(be_u32(p[4], p[5], p[6], p[7])) as i32,
        ground_speed_dkmh: be_u16(p[8], p[9]) as u16,
        heading_cdeg: be_u16(p[10], p[11]) as u16,
        altitude: (be_u16(p[12], p[13]) - 1000) as i32,
        satellites: p[14],
    }
}

/// The error for a telemetry payload shorter than `required`.
pub open spec fn too_short(required: usize, p: Seq<u8>) -> FpvBridgeError {
    FpvBridgeError::CrsfProtocol(
        CrsfError::PayloadTooShort { required, actual: p.len() as usize },
    )
}

/// Validates and splits a complete frame (sync, length, type, payload, CRC).
pub fn decode_frame(frame: &[u8]) -> (r: Result<CrsfFrame, FpvBridgeError>)
    ensures
        match r {
            Ok(f) => decoded_frame(frame@) == Ok::<(u8, Seq<u8>), CrsfError>(
                (f.frame_type, f.payload@),
            ) && f.wf(),
            Err(e) => decoded_frame(frame@) is Err && e == FpvBridgeError::CrsfProtocol(
                decoded_frame(frame@)->Err_0,
            ),
        },
{
    let table = Crc8Table::new();
    decode_frame_with(&table, frame)
}

/// `decode_frame` with a CRC table built beforehand.
pub fn decode_frame_with(table: &Crc8Table, frame: &[u8]) -> (r: Result<CrsfFrame, FpvBridgeError>)
    ensures
        match r {
            Ok(f) => decoded_frame(frame@) == Ok::<(u8, Seq<u8>), CrsfError>(
                (f.frame_type, f.payload@),
            ) && f.wf(),
            Err(e) => decoded_frame(frame@) is Err && e == FpvBridgeError::CrsfProtocol(
                decoded_frame(frame@)->Err_0,
            ),
        },
{
    if frame.len() < 4 {
        return Err(FpvBridgeError::CrsfProtocol(CrsfError::FrameTooShort));
    }
    if frame[0] != CRSF_SYNC_BYTE {
        return Err(FpvBridgeError::CrsfProtocol(CrsfError::InvalidSync(frame[0])));
    }
    let length = frame[1] as usize;
    if length < 2 {
        return Err(FpvBridgeError::CrsfProtocol(CrsfError::InvalidLength(frame[1])));
    }
    if frame.len() < 2 + length {
        return Err(
            FpvBridgeError::CrsfProtocol(
                CrsfError::Truncated { expected: 2 + length, actual: frame.len() },
            ),
        );
    }
    let received_crc = frame[1 + length];
    let computed_crc = table.checksum(&frame[1..1 + length]);
    if computed_crc != received_crc {
        return Err(
            FpvBridgeError::CrsfProtocol(
                CrsfError::CrcMismatch { computed: computed_crc, received: received_crc },
            ),
        );
    }
    let frame_type = frame[2];
    let mut payload: Vec<u8> = Vec::new();
    payload.extend_from_slice(&frame[3..1 + length]);
    proof {
        assert(payload@ =~= frame@.subrange(3, 1 + length as int));
    }
    CrsfFrame::new(frame_type, payload)
}

/// Unpacks the 16 channels of 11 bits from an RC channels payload.
pub fn decode_rc_channels_payload(payload: &[u8]) -> (r: Result<RcChannels, FpvBridgeError>)
    ensures
        payload@.len() >= CRSF_RC_CHANNELS_PAYLOAD_SIZE <==> r is Ok,
        r is Ok ==> is_unpacked(payload@, r->Ok_0@),
        r is Err ==> r->Err_0 == too_short(CRSF_RC_CHANNELS_PAYLOAD_SIZE, payload@),
{
    if payload.len() < CRSF_RC_CHANNELS_PAYLOAD_SIZE {
        return Err(
            FpvBridgeError::CrsfProtocol(
                CrsfError::PayloadTooShort {
                    required: CRSF_RC_CHANNELS_PAYLOAD_SIZE,
                    actual: payload.len(),
                },
            ),
        );
    }
    let mut channels: RcChannels = [0u16; 16];
    let mut c: usize = 0;
    while c < 16
        invariant
            c <= 16,
            payload@.len() >= 22,
            forall|i: int, b: int|
                0 <= i < c && 0 <= b < 16 ==> #[trigger] u16_bit(channels@[i], b) == (b < 11
                    && payload_bit(payload@, 11 * i + b)),
        decreases 16 - c,
    {
        let mut value: u16 = 0;
        proof {
            assert forall|b: int| 0 <= b < 16 implies !#[trigger] u16_bit(value, b) by {
                lemma_u16_zero_bits(b as u16);
            }
        }
        let mut bit: u16 = 0;
        while bit < 11
            invariant
                c < 16,
                bit <= 11,
                payload@.len() >= 22,
                forall|b: int|
                    0 <= b < 16 ==> #[trigger] u16_bit(value, b) == (b < bit && payload_bit(
                        payload@,
                        11 * c + b,
                    )),
            decreases 11 - bit,
        {
            let s = 11 * c + bit as usize;
            let byte = payload[s / 8];
            let offset = (s % 8) as u8;
            if (byte >> offset) & 1 == 1 {
                let old_value = value;
                value = value | (1u16 << bit);
                proof {
                    assert(payload_bit(payload@, s as int));
                    assert forall|b: int| 0 <= b < 16 implies #[trigger] u16_bit(value, b) == (b
                        < bit + 1 && payload_bit(payload@, 11 * c + b)) by {
                        lemma_u16_set_bit(old_value, bit, b as u16);
                        if b != bit {
                            assert(u16_bit(old_value, b) == (b < bit && payload_bit(
                                payload@,
                                11 * c + b,
                            )));
                        }
                    }
                }
            }
            bit += 1;
        }
        channels[c] = value;
        c += 1;
    }
    Ok(channels)
}

proof fn lemma_u16_zero_bits(b: u16)
    requires
        b < 16,
    ensures
        (0u16 >> b) & 1u16 == 0u16,
{
    assert((0u16 >> b) & 1u16 == 0u16) by (bit_vector);
}

proof fn lemma_u16_set_bit(x: u16, o: u16, b: u16)
    requires
        o < 16,
        b < 16,
    ensures
        ((x | (1u16 << o)) >> b) & 1u16 == if b == o { 1u16 } else { (x >> b) & 1u16 },
{
    assert(((x | (1u16 << o)) >> b) & 1u16 == if b == o { 1u16 } else { (x >> b) & 1u16 })
        by (bit_vector)
        requires
            o < 16,
            b < 16,
    ;
}

/// Decodes a link statistics payload (10 bytes, one field per byte).
pub fn decode_link_statistics(payload: &[u8]) -> (r: Result<LinkStatistics, FpvBridgeError>)
    ensures
        payload@.len() >= CRSF_LINK_STATS_PAYLOAD_SIZE <==> r is Ok,
        r is Ok ==> r->Ok_0 == link_statistics_of(payload@),
        r is Err ==> r->Err_0 == too_short(CRSF_LINK_STATS_PAYLOAD_SIZE, payload@),
{
    if payload.len() < CRSF_LINK_STATS_PAYLOAD_SIZE {
        return Err(
            FpvBridgeError::CrsfProtocol(
                CrsfError::PayloadTooShort {
                    required: CRSF_LINK_STATS_PAYLOAD_SIZE,
                    actual: payload.len(),
                },
            ),
        );
    }
    Ok(
        LinkStatistics {
            uplink_rssi_1: payload[0],
            uplink_rssi_2: payload[1],
            uplink_lq: payload[2],
            uplink_snr: to_i8(payload[3]),
            active_antenna: payload[4],
            rf_mode: payload[5],
            uplink_tx_power: payload[6],
            downlink_rssi: payload[7],
            downlink_lq: payload[8],
            downlink_snr: to_i8(payload[9]),
        },
    )
}

fn read_be_u16(hi: u8, lo: u8) -> (r: u16)
    ensures
        r == be_u16(hi, lo),
{
    (hi as u16) * 256 + (lo as u16)
}

fn read_be_u32(b0: u8, b1: u8, b2: u8, b3: u8) -> (r: u32)
    ensures
        r == be_u32(b0, b1, b2, b3),
{
    (b0 as u32) * 0x100_0000 + (b1 as u32) * 0x1_0000 + (b2 as u32) * 0x100 + (b3 as u32)
}

/// Decodes a battery sensor payload (8 bytes, big-endian): voltage in
/// 0.01 V, current in 0.1 A, 24-bit capacity used in mAh, percent remaining.
pub fn decode_battery_sensor(payload: &[u8]) -> (r: Result<BatterySensor, FpvBridgeError>)
    ensures
        payload@.len() >= CRSF_BATTERY_SENSOR_PAYLOAD_SIZE <==> r is Ok,
        r is Ok ==> r->Ok_0 == battery_sensor_of(payload@),
        r is Err ==> r->Err_0 == too_short(CRSF_BATTERY_SENSOR_PAYLOAD_SIZE, payload@),
{
    if payload.len() < CRSF_BATTERY_SENSOR_PAYLOAD_SIZE {
        return Err(
            FpvBridgeError::CrsfProtocol(
                CrsfError::PayloadTooShort {
                    required: CRSF_BATTERY_SENSOR_PAYLOAD_SIZE,
                    actual: payload.len(),
                },
            ),
        );
    }
    Ok(
        BatterySensor {
            voltage_centivolts: read_be_u16(payload[0], payload[1]),
            current_deciamps: read_be_u16(payload[2], payload[3]),
            capacity_used: read_be_u32(0, payload[4], payload[5], payload[6]),
            remaining_percent: payload[7],
        },
    )
}

/// Decodes a GPS payload (15 bytes, big-endian): latitude and longitude in
/// 1e-7 degrees, ground speed in 0.1 km/h, heading in 0.01 degrees,
/// altitude as meters + 1000, satellites.
pub fn decode_gps(payload: &[u8]) -> (r: Result<GpsData, FpvBridgeError>)
    ensures
        payload@.len() >= CRSF_GPS_PAYLOAD_SIZE <==> r is Ok,
        r is Ok ==> r->Ok_0 == gps_data_of(payload@),
        r is Err ==> r->Err_0 == too_short(CRSF_GPS_PAYLOAD_SIZE, payload@),
{
    if payload.len() < CRSF_GPS_PAYLOAD_SIZE {
        return Err(
            FpvBridgeError::CrsfProtocol(
                CrsfError::PayloadTooShort { required: CRSF_GPS_PAYLOAD_SIZE, actual: payload.len() },
            ),
        );
    }
    let latitude = read_be_u32(payload[0], payload[1], payload[2], payload[3]);
    let longitude = read_be_u32(payload[4], payload[5], payload[6], payload[7]);
    let altitude_raw = read_be_u16(payload[12], payload[13]);
    Ok(
        GpsData {
            latitude_e7: to_i32(latitude),
            longitude_e7: to_i32(longitude),
            ground_speed_dkmh: read_be_u16(payload[8], payload[9]),
            heading_cdeg: read_be_u16(payload[10], payload[11]),
            altitude: altitude_raw as i32 - 1000,
            satellites: payload[14],
        },
    )
}

/// A decoded telemetry frame.
#[derive(Debug, Clone)]
pub enum TelemetryRecord {
    LinkStatistics(LinkStatistics),
    BatterySensor(BatterySensor),
    GpsData(GpsData),
    /// A frame of a type without a decoder, passed through as it came.
    Unknown { frame_type: u8, payload: Vec<u8> },
}

/// Dispatches a validated frame to the decoder of its type; frames of
/// other types pass through as `Unknown`.
pub fn decode_telemetry(frame: &CrsfFrame) -> (r: Result<TelemetryRecord, FpvBridgeError>)
    ensures
        frame.frame_type == CRSF_FRAMETYPE_LINK_STATISTICS ==> (if frame.payload@.len()
            >= CRSF_LINK_STATS_PAYLOAD_SIZE {
            r == Ok::<TelemetryRecord, FpvBridgeError>(
                TelemetryRecord::LinkStatistics(link_statistics_of(frame.payload@)),
            )
        } else {
            r == Err::<TelemetryRecord, FpvBridgeError>(
                too_short(CRSF_LINK_STATS_PAYLOAD_SIZE, frame.payload@),
            )
        }),
        frame.frame_type == CRSF_FRAMETYPE_BATTERY_SENSOR ==> (if frame.payload@.len()
            >= CRSF_BATTERY_SENSOR_PAYLOAD_SIZE {
            r == Ok::<TelemetryRecord, FpvBridgeError>(
                TelemetryRecord::BatterySensor(battery_sensor_of(frame.payload@)),
            )
        } else {
            r == Err::<TelemetryRecord, FpvBridgeError>(
                too_short(CRSF_BATTERY_SENSOR_PAYLOAD_SIZE, frame.payload@),
            )
        }),
        frame.frame_type == CRSF_FRAMETYPE_GPS ==> (if frame.payload@.len()
            >= CRSF_GPS_PAYLOAD_SIZE {
            r == Ok::<TelemetryRecord, FpvBridgeError>(
                TelemetryRecord::GpsData(gps_data_of(frame.payload@)),
            )
        } else {
            r == Err::<TelemetryRecord, FpvBridgeError>(
                too_short(CRSF_GPS_PAYLOAD_SIZE, frame.payload@),
            )
        }),
        frame.frame_type != CRSF_FRAMETYPE_LINK_STATISTICS && frame.frame_type
            != CRSF_FRAMETYPE_BATTERY_SENSOR && frame.frame_type != CRSF_FRAMETYPE_GPS ==> (
        match r {
            Ok(TelemetryRecord::Unknown { frame_type, payload }) => frame_type
                == frame.frame_type && payload@ == frame.payload@,
            _ => false,
        }),
{
    if frame.frame_type == CRSF_FRAMETYPE_LINK_STATISTICS {
        match decode_link_statistics(frame.payload.as_slice()) {
            Ok(stats) => Ok(TelemetryRecord::LinkStatistics(stats)),
            Err(e) => Err(e),
        }
    } else if frame.frame_type == CRSF_FRAMETYPE_BATTERY_SENSOR {
        match decode_battery_sensor(frame.payload.as_slice()) {
            Ok(battery) => Ok(TelemetryRecord::BatterySensor(battery)),
            Err(e) => Err(e),
        }
    } else if frame.frame_type == CRSF_FRAMETYPE_GPS {
        match decode_gps(frame.payload.as_slice()) {
            Ok(gps) => Ok(TelemetryRecord::GpsData(gps)),
            Err(e) => Err(e),
        }
    } else {
        let mut payload: Vec<u8> = Vec::new();
        payload.extend_from_slice(frame.payload.as_slice());
        proof {
            assert(payload@ =~= frame.payload@);
        }
        Ok(TelemetryRecord::Unknown { frame_type: frame.frame_type, payload })
    }
}

} // verus!
