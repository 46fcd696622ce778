//! Laws of the codec: what decoding gives back of an encoded frame.

use vstd::prelude::*;
use super::crc::{crc8_direct, crc8_shift, crc8_shifts};
use super::decoder::{decoded_frame, is_unpacked};
use super::encoder::{clamp_spec, is_rc_frame, payload_bit, stream_bit, u16_bit};
use crate::error::CrsfError;

verus! {

proof fn lemma_u16_eq_by_bits(x: u16, y: u16)
    requires
        forall|b: int| 0 <= b < 16 ==> #[trigger] u16_bit(x, b) == u16_bit(y, b),
    ensures
        x == y,
{
    assert(u16_bit(x, 0) == u16_bit(y, 0));
    assert(u16_bit(x, 1) == u16_bit(y, 1));
    assert(u16_bit(x, 2) == u16_bit(y, 2));
    assert(u16_bit(x, 3) == u16_bit(y, 3));
    assert(u16_bit(x, 4) == u16_bit(y, 4));
    assert(u16_bit(x, 5) == u16_bit(y, 5));
    assert(u16_bit(x, 6) == u16_bit(y, 6));
    assert(u16_bit(x, 7) == u16_bit(y, 7));
    assert(u16_bit(x, 8) == u16_bit(y, 8));
    assert(u16_bit(x, 9) == u16_bit(y, 9));
    assert(u16_bit(x, 10) == u16_bit(y, 10));
    assert(u16_bit(x, 11) == u16_bit(y, 11));
    assert(u16_bit(x, 12) == u16_bit(y, 12));
    assert(u16_bit(x, 13) == u16_bit(y, 13));
    assert(u16_bit(x, 14) == u16_bit(y, 14));
    assert(u16_bit(x, 15) == u16_bit(y, 15));
    assert(x == y) by (bit_vector)
        requires
            ((x >> 0u16) & 1u16 == 1u16) == ((y >> 0u16) & 1u16 == 1u16),
            ((x >> 1u16) & 1u16 == 1u16) == ((y >> 1u16) & 1u16 == 1u16),
            ((x >> 2u16) & 1u16 == 1u16) == ((y >> 2u16) & 1u16 == 1u16),
            ((x >> 3u16) & 1u16 == 1u16) == ((y >> 3u16) & 1u16 == 1u16),
            ((x >> 4u16) & 1u16 == 1u16) == ((y >> 4u16) & 1u16 == 1u16),
            ((x >> 5u16) & 1u16 == 1u16) == ((y >> 5u16) & 1u16 == 1u16),
            ((x >> 6u16) & 1u16 == 1u16) == ((y >> 6u16) & 1u16 == 1u16),
            ((x >> 7u16) & 1u16 == 1u16) == ((y >> 7u16) & 1u16 == 1u16),
            ((x >> 8u16) & 1u16 == 1u16) == ((y >> 8u16) & 1u16 == 1u16),
            ((x >> 9u16) & 1u16 == 1u16) == ((y >> 9u16) & 1u16 == 1u16),
            ((x >> 10u16) & 1u16 == 1u16) == ((y >> 10u16) & 1u16 == 1u16),
            ((x >> 11u16) & 1u16 == 1u16) == ((y >> 11u16) & 1u16 == 1u16),
            ((x >> 12u16) & 1u16 == 1u16) == ((y >> 12u16) & 1u16 == 1u16),
            ((x >> 13u16) & 1u16 == 1u16) == ((y >> 13u16) & 1u16 == 1u16),
            ((x >> 14u16) & 1u16 == 1u16) == ((y >> 14u16) & 1u16 == 1u16),
            ((x >> 15u16) & 1u16 == 1u16) == ((y >> 15u16) & 1u16 == 1u16),
    ;
}

proof fn lemma_u16_high_bits_clear(x: u16, b: u16)
    requires
        x <= 2047,
        11 <= b < 16,
    ensures
        (x >> b) & 1u16 == 0u16,
{
    assert((x >> b) & 1u16 == 0u16) by (bit_vector)
        requires
            x <= 2047,
            11 <= b < 16,
    ;
}

/// Decoding an encoded RC frame succeeds with its type and 22-byte payload,
/// and unpacking that payload gives back every channel in 0..=2047 exactly.
pub proof fn lemma_channels_round_trip(v: Seq<u16>, frame: Seq<u8>, out: Seq<u16>)
    requires
        v.len() == 16,
        forall|i: int| 0 <= i < 16 ==> v[i] <= 2047,
        is_rc_frame(frame, v),
    ensures
        decoded_frame(frame) == Ok::<(u8, Seq<u8>), CrsfError>((0x16u8, frame.subrange(3, 25))),
        is_unpacked(frame.subrange(3, 25), out) ==> out == v,
{
    let p = frame.subrange(3, 25);
    if is_unpacked(p, out) {
        assert forall|i: int| 0 <= i < 16 implies out[i] == v[i] by {
            assert forall|b: int| 0 <= b < 16 implies #[trigger] u16_bit(out[i], b) == u16_bit(
                v[i],
                b,
            ) by {
                if b < 11 {
                    let s = 11 * i + b;
                    assert(s / 11 == i);
                    assert(s % 11 == b);
                    assert(payload_bit(p, s) == stream_bit(v, s));
                    assert(clamp_spec(v[i]) == v[i]);
                } else {
                    lemma_u16_high_bits_clear(v[i], b as u16);
                }
            }
            lemma_u16_eq_by_bits(out[i], v[i]);
        }
        assert(out =~= v);
    }
}

proof fn lemma_shift_injective(a: u8, b: u8)
    requires
        a != b,
    ensures
        crc8_shift(a) != crc8_shift(b),
{
    assert((if a & 0x80u8 != 0 {
        (a << 1u8) ^ 0xD5u8
    } else {
        a << 1u8
    }) != (if b & 0x80u8 != 0 {
        (b << 1u8) ^ 0xD5u8
    } else {
        b << 1u8
    })) by (bit_vector)
        requires
            a != b,
    ;
}

proof fn lemma_shifts_injective(a: u8, b: u8, n: nat)
    requires
        a != b,
    ensures
        crc8_shifts(a, n) != crc8_shifts(b, n),
    decreases n,
{
    if n > 0 {
        lemma_shift_injective(a, b);
        lemma_shifts_injective(crc8_shift(a), crc8_shift(b), (n - 1) as nat);
    }
}

proof fn lemma_xor_left_injective(x: u8, a: u8, b: u8)
    requires
        a != b,
    ensures
        x ^ a != x ^ b,
{
    assert(x ^ a != x ^ b) by (bit_vector)
        requires
            a != b,
    ;
}

proof fn lemma_xor_right_injective(a: u8, b: u8, x: u8)
    requires
        a != b,
    ensures
        a ^ x != b ^ x,
{
    assert(a ^ x != b ^ x) by (bit_vector)
        requires
            a != b,
    ;
}

/// Two buffers of one length that differ in exactly one byte have
/// different CRCs.
pub proof fn lemma_crc_detects_one_byte_change(d1: Seq<u8>, d2: Seq<u8>, m: int)
    requires
        d1.len() == d2.len(),
        0 <= m < d1.len(),
        d1[m] != d2[m],
        d1.subrange(0, m) == d2.subrange(0, m),
        d1.subrange(m + 1, d1.len() as int) == d2.subrange(m + 1, d2.len() as int),
    ensures
        crc8_direct(d1) != crc8_direct(d2),
    decreases d1.len(),
{
    let n = d1.len() as int;
    let c1 = crc8_direct(d1.drop_last());
    let c2 = crc8_direct(d2.drop_last());
    if m == n - 1 {
        assert(d1.drop_last() =~= d1.subrange(0, m));
        assert(d2.drop_last() =~= d2.subrange(0, m));
        lemma_xor_left_injective(c1, d1.last(), d2.last());
        lemma_shifts_injective(c1 ^ d1.last(), c2 ^ d2.last(), 8);
    } else {
        let t1 = d1.subrange(m + 1, n);
        let t2 = d2.subrange(m + 1, n);
        assert(d1.drop_last().subrange(0, m) =~= d1.subrange(0, m));
        assert(d2.drop_last().subrange(0, m) =~= d2.subrange(0, m));
        assert(d1.drop_last().subrange(m + 1, n - 1) =~= t1.drop_last());
        assert(d2.drop_last().subrange(m + 1, n - 1) =~= t2.drop_last());
        lemma_crc_detects_one_byte_change(d1.drop_last(), d2.drop_last(), m);
        assert(d1.last() == t1[n - 1 - (m + 1)]);
        assert(d2.last() == t2[n - 1 - (m + 1)]);
        lemma_xor_right_injective(c1, c2, d1.last());
        lemma_shifts_injective(c1 ^ d1.last(), c2 ^ d2.last(), 8);
    }
}

/// `f` with bit `j` of byte `p` inverted.
pub open spec fn flip_bit(f: Seq<u8>, p: int, j: int) -> Seq<u8> {
    f.update(p, f[p] ^ (1u8 << (j as u8)))
}

proof fn lemma_flip_changes_byte(x: u8, j: u8)
    requires
        j < 8,
    ensures
        x ^ (1u8 << j) != x,
{
    assert(x ^ (1u8 << j) != x) by (bit_vector)
        requires
            j < 8,
    ;
}

/// Inverting any one bit of an encoded RC frame makes decoding fail: in
/// the sync byte with a sync error, and in type, payload or CRC with a
/// CRC mismatch. The length byte is left out: a flip there moves the
/// place where the CRC is read and is caught only when the CRC found
/// there differs.
pub proof fn lemma_single_bit_flip_detected(v: Seq<u16>, frame: Seq<u8>, p: int, j: int)
    requires
        is_rc_frame(frame, v),
        0 <= p < 26,
        p != 1,
        0 <= j < 8,
    ensures
        p == 0 ==> decoded_frame(flip_bit(frame, p, j)) == Err::<(u8, Seq<u8>), CrsfError>(
            CrsfError::InvalidSync(flip_bit(frame, p, j)[0]),
        ),
        p >= 2 ==> decoded_frame(flip_bit(frame, p, j)) == Err::<(u8, Seq<u8>), CrsfError>(
            CrsfError::CrcMismatch {
                computed: crc8_direct(flip_bit(frame, p, j).subrange(1, 25)),
                received: flip_bit(frame, p, j)[25],
            },
        ),
{
    let f = flip_bit(frame, p, j);
    lemma_flip_changes_byte(frame[p], j as u8);
    if p >= 2 {
        assert(f[1] == 24);
        if p == 25 {
            assert(f.subrange(1, 25) =~= frame.subrange(1, 25));
        } else {
            let d1 = f.subrange(1, 25);
            let d2 = frame.subrange(1, 25);
            assert(d1[p - 1] != d2[p - 1]);
            assert(d1.subrange(0, p - 1) =~= d2.subrange(0, p - 1));
            assert(d1.subrange(p, 24) =~= d2.subrange(p, 24));
            lemma_crc_detects_one_byte_change(d1, d2, p - 1);
        }
    }
}

} // verus!
