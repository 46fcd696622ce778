//! CRC-8/DVB-S2: polynomial 0xD5, initial value 0, MSB first, no reflection.

use vstd::prelude::*;

verus! {

/// The CRC-8/DVB-S2 polynomial (x^8 + x^7 + x^6 + x^4 + x^2 + 1).
pub const CRC8_POLY: u8 = 0xD5;

/// One step of the shift register: shift left, folding the polynomial in
/// when the top bit falls out.
pub open spec fn crc8_shift(c: u8) -> u8 {
    if c & 0x80u8 != 0 {
        ((c << 1u8) ^ 0xD5u8) as u8
    } else {
        (c << 1u8) as u8
    }
}

/// `n` steps of the shift register.
pub open spec fn crc8_shifts(c: u8, n: nat) -> u8
    decreases n,
{
    if n == 0 {
        c
    } else {
        crc8_shifts(crc8_shift(c), (n - 1) as nat)
    }
}

/// The table entry for byte `i`: eight register steps from `i`.
pub open spec fn crc8_table_entry(i: u8) -> u8 {
    crc8_shifts(i, 8)
}

/// The CRC as the direct bit-shifting algorithm computes it.
pub open spec fn crc8_direct(data: Seq<u8>) -> u8
    decreases data.len(),
{
    if data.len() == 0 {
        0
    } else {
        crc8_shifts(crc8_direct(data.drop_last()) ^ data.last(), 8)
    }
}

/// The CRC as the table-driven algorithm computes it.
pub open spec fn crc8_by_table(data: Seq<u8>) -> u8
    decreases data.len(),
{
    if data.len() == 0 {
        0
    } else {
        crc8_table_entry(crc8_by_table(data.drop_last()) ^ data.last())
    }
}

/// The table-driven and the direct algorithm agree on every buffer.
pub proof fn lemma_table_matches_direct(data: Seq<u8>)
    ensures
        crc8_by_table(data) == crc8_direct(data),
    decreases data.len(),
{
    if data.len() > 0 {
        lemma_table_matches_direct(data.drop_last());
    }
}

/// Builds the 256-entry lookup table.
pub fn generate_crc8_table() -> (table: [u8; 256])
    ensures
        forall|i: int| 0 <= i < 256 ==> table@[i] == crc8_table_entry(i as u8),
{
    let mut table = [0u8; 256];
    let mut i: usize = 0;
    while i < 256
        invariant
            i <= 256,
            forall|k: int| 0 <= k < i ==> table@[k] == crc8_table_entry(k as u8),
        decreases 256 - i,
    {
        let mut crc: u8 = i as u8;
        let mut j: usize = 0;
        while j < 8
            invariant
                j <= 8,
                i < 256,
                crc8_shifts(crc, (8 - j) as nat) == crc8_table_entry(i as u8),
            decreases 8 - j,
        {
            if (crc & 0x80) != 0 {
                crc = (crc << 1) ^ CRC8_POLY;
            } else {
                crc = crc << 1;
            }
            j += 1;
        }
        table[i] = crc;
        i += 1;
    }
    table
}

/// The lookup table, built once by `generate_crc8_table` and only read
/// afterwards.
#[derive(Debug)]
pub struct Crc8Table {
    table: [u8; 256],
}

impl Crc8Table {
    #[verifier::type_invariant]
    spec fn entries_correct(self) -> bool {
        forall|i: int| 0 <= i < 256 ==> self.table@[i] == crc8_table_entry(i as u8)
    }

    /// Builds the table.
    pub fn new() -> (r: Crc8Table) {
        Crc8Table { table: generate_crc8_table() }
    }

    /// CRC-8/DVB-S2 of `data`, one table lookup per byte.
    pub fn checksum(&self, data: &[u8]) -> (crc: u8)
        ensures
            crc == crc8_by_table(data@),
            crc == crc8_direct(data@),
    {
        proof {
            use_type_invariant(self);
        }
        let mut crc: u8 = 0;
        let mut i: usize = 0;
        while i < data.len()
            invariant
                i <= data.len(),
                crc == crc8_by_table(data@.subrange(0, i as int)),
                forall|k: int| 0 <= k < 256 ==> self.table@[k] == crc8_table_entry(k as u8),
            decreases data.len() - i,
        {
            proof {
                assert(data@.subrange(0, i as int + 1).drop_last() =~= data@.subrange(0, i as int));
            }
            crc = self.table[(crc ^ data[i]) as usize];
            i += 1;
        }
        proof {
            assert(data@.subrange(0, data.len() as int) =~= data@);
            lemma_table_matches_direct(data@);
        }
        crc
    }
}

/// CRC-8/DVB-S2 of `data`, computed through a lookup table built for this
/// call; callers that checksum repeatedly keep a `Crc8Table` instead.
pub fn crc8_dvb_s2(data: &[u8]) -> (crc: u8)
    ensures
        crc == crc8_by_table(data@),
        crc == crc8_direct(data@),
{
    let table = Crc8Table::new();
    table.checksum(data)
}

/// CRC-8/DVB-S2 of `data`, computed bit by bit without the table.
pub fn crc8_dvb_s2_slow(data: &[u8]) -> (crc: u8)
    ensures
        crc == crc8_direct(data@),
{
    let mut crc: u8 = 0;
    let mut i: usize = 0;
    while i < data.len()
        invariant
            i <= data.len(),
            crc == crc8_direct(data@.subrange(0, i as int)),
        decreases data.len() - i,
    {
        proof {
            assert(data@.subrange(0, i as int + 1).drop_last() =~= data@.subrange(0, i as int));
        }
        crc = crc ^ data[i];
        let mut j: usize = 0;
        while j < 8
            invariant
                j <= 8,
                i < data.len(),
                crc8_shifts(crc, (8 - j) as nat) == crc8_direct(data@.subrange(0, i as int + 1)),
            decreases 8 - j,
        {
            if (crc & 0x80) != 0 {
                crc = (crc << 1) ^ CRC8_POLY;
            } else {
                crc = crc << 1;
            }
            j += 1;
        }
        i += 1;
    }
    proof {
        assert(data@.subrange(0, data.len() as int) =~= data@);
    }
    crc
}

} // verus!
