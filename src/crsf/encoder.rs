//! Encoding of RC channels: 16 values of 11 bits, packed LSB first.

use vstd::prelude::*;
use super::crc::{crc8_direct, Crc8Table};
use super::protocol::{
    RcChannels, CRSF_CHANNEL_VALUE_MAX, CRSF_FRAMETYPE_RC_CHANNELS_PACKED, CRSF_NUM_CHANNELS,
    CRSF_RC_CHANNELS_FRAME_LENGTH, CRSF_RC_CHANNELS_FRAME_SIZE, CRSF_RC_CHANNELS_PAYLOAD_SIZE,
    CRSF_SYNC_BYTE,
};

verus! {

/// A channel value limited to the 11-bit range.
pub open spec fn clamp_spec(v: u16) -> u16 {
    if v > CRSF_CHANNEL_VALUE_MAX {
        CRSF_CHANNEL_VALUE_MAX
    } else {
        v
    }
}

/// Bit `b` of a 16-bit value.
pub open spec fn u16_bit(x: u16, b: int) -> bool {
    (x >> (b as u16)) & 1u16 == 1u16
}

/// Bit `j` of a byte.
pub open spec fn u8_bit(x: u8, j: int) -> bool {
    (x >> (j as u8)) & 1u8 == 1u8
}

/// Bit `s` of the channel bitstream: channel `s / 11`, clamped, bit `s % 11`.
pub open spec fn stream_bit(ch: Seq<u16>, s: int) -> bool {
    u16_bit(clamp_spec(ch[s / 11]), s % 11)
}

/// Bit `s` of a payload: byte `s / 8`, bit `s % 8`.
pub open spec fn payload_bit(p: Seq<u8>, s: int) -> bool {
    u8_bit(p[s / 8], s % 8)
}

/// `p` is the 22-byte packing of the clamped channels `ch`.
pub open spec fn is_rc_payload(p: Seq<u8>, ch: Seq<u16>) -> bool {
    &&& p.len() == CRSF_RC_CHANNELS_PAYLOAD_SIZE
    &&& forall|s: int| 0 <= s < 176 ==> #[trigger] payload_bit(p, s) == stream_bit(ch, s)
}

/// `f` is the complete RC channels frame of `ch`:
/// sync, length 24, type 0x16, packed payload, CRC over bytes 1..25.
pub open spec fn is_rc_frame(f: Seq<u8>, ch: Seq<u16>) -> bool {
    &&& f.len() == CRSF_RC_CHANNELS_FRAME_SIZE
    &&& f[0] == CRSF_SYNC_BYTE
    &&& f[1] == CRSF_RC_CHANNELS_FRAME_LENGTH
    &&& f[2] == CRSF_FRAMETYPE_RC_CHANNELS_PACKED
    &&& is_rc_payload(f.subrange(3, 25), ch)
    &&& f[25] == crc8_direct(f.subrange(1, 25))
}

proof fn lemma_u8_set_bit(x: u8, o: u8, j: u8)
    requires
        o < 8,
        j < 8,
    ensures
        ((x | (1u8 << o)) >> j) & 1u8 == if j == o { 1u8 } else { (x >> j) & 1u8 },
{
    assert(((x | (1u8 << o)) >> j) & 1u8 == if j == o { 1u8 } else { (x >> j) & 1u8 })
        by (bit_vector)
        requires
            o < 8,
            j < 8,
    ;
}

proof fn lemma_u8_zero_bits(j: u8)
    requires
        j < 8,
    ensures
        (0u8 >> j) & 1u8 == 0u8,
{
    assert((0u8 >> j) & 1u8 == 0u8) by (bit_vector);
}

/// Clamps a channel value to the 11-bit range 0..=2047.
pub fn clamp_channel_value(value: u16) -> (r: u16)
    ensures
        r == clamp_spec(value),
{
    if value > CRSF_CHANNEL_VALUE_MAX {
        CRSF_CHANNEL_VALUE_MAX
    } else {
        value
    }
}

/// Packs the 16 channels, each clamped to 11 bits, into the 22-byte payload:
/// channel `i` takes stream bits `11i..11i+11`, byte `k` holds bits `8k..8k+8`.
pub fn encode_rc_channels_payload(channels: &RcChannels) -> (payload: Vec<u8>)
    ensures
        is_rc_payload(payload@, channels@),
{
    let mut payload: Vec<u8> = vec![0u8; CRSF_RC_CHANNELS_PAYLOAD_SIZE];
    proof {
        assert forall|s: int| 0 <= s < 176 implies !#[trigger] payload_bit(payload@, s) by {
            lemma_u8_zero_bits((s % 8) as u8);
        }
    }
    let mut bit_index: usize = 0;
    let mut c: usize = 0;
    while c < CRSF_NUM_CHANNELS
        invariant
            c <= 16,
            bit_index == 11 * c,
            payload@.len() == 22,
            forall|s: int|
                0 <= s < 176 ==> #[trigger] payload_bit(payload@, s) == (s < bit_index
                    && stream_bit(channels@, s)),
        decreases 16 - c,
    {
        let value = clamp_channel_value(channels[c]);
        let mut bit: u16 = 0;
        while bit < 11
            invariant
                c < 16,
                bit <= 11,
                bit_index == 11 * c + bit,
                value == clamp_spec(channels@[c as int]),
                payload@.len() == 22,
                forall|s: int|
                    0 <= s < 176 ==> #[trigger] payload_bit(payload@, s) == (s < bit_index
                        && stream_bit(channels@, s)),
            decreases 11 - bit,
        {
            proof {
                assert(bit_index as int / 11 == c as int);
                assert(bit_index as int % 11 == bit as int);
            }
            if (value >> bit) & 1 == 1 {
                let byte_index = bit_index / 8;
                let offset = (bit_index % 8) as u8;
                let old_byte = payload[byte_index];
                let ghost old_payload = payload@;
                payload.set(byte_index, old_byte | (1u8 << offset));
                proof {
                    assert forall|s: int| 0 <= s < 176 implies #[trigger] payload_bit(payload@, s)
                        == (s < bit_index + 1 && stream_bit(channels@, s)) by {
                        if s / 8 == byte_index as int {
                            lemma_u8_set_bit(old_byte, offset, (s % 8) as u8);
                            assert(payload_bit(old_payload, s) == (s < bit_index && stream_bit(
                                channels@,
                                s,
                            )));
                        } else {
                            assert(payload@[s / 8] == old_payload[s / 8]);
                            assert(payload_bit(old_payload, s) == (s < bit_index && stream_bit(
                                channels@,
                                s,
                            )));
                        }
                    }
                }
            }
            bit_index += 1;
            bit += 1;
        }
        c += 1;
    }
    payload
}

/// Encodes the channels into a complete 26-byte frame:
/// `[0xC8][0x18][0x16][22-byte payload][CRC]`, the CRC taken over
/// length, type and payload.
pub fn encode_rc_channels_frame(channels: &RcChannels) -> (frame: Vec<u8>)
    ensures
        is_rc_frame(frame@, channels@),
{
    let table = Crc8Table::new();
    encode_rc_channels_frame_with(&table, channels)
}

/// `encode_rc_channels_frame` with a CRC table built beforehand.
pub fn encode_rc_channels_frame_with(table: &Crc8Table, channels: &RcChannels) -> (frame: Vec<u8>)
    ensures
        is_rc_frame(frame@, channels@),
{
    let payload = encode_rc_channels_payload(channels);
    let mut frame_data: Vec<u8> = Vec::with_capacity(2 + payload.len());
    frame_data.push(CRSF_RC_CHANNELS_FRAME_LENGTH);
    frame_data.push(CRSF_FRAMETYPE_RC_CHANNELS_PACKED);
    frame_data.extend_from_slice(payload.as_slice());
    let crc = table.checksum(frame_data.as_slice());
    let mut complete: Vec<u8> = Vec::with_capacity(CRSF_RC_CHANNELS_FRAME_SIZE);
    complete.push(CRSF_SYNC_BYTE);
    complete.extend_from_slice(frame_data.as_slice());
    complete.push(crc);
    proof {
        assert(frame_data@.subrange(2, 24) =~= payload@);
        assert(complete@.subrange(1, 25) =~= frame_data@);
        assert(complete@.subrange(3, 25) =~= payload@);
    }
    complete
}

} // verus!
