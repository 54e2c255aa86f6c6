use vstd::prelude::*;

use crate::calendar::naive_datetime_from_secs;
use crate::calendar::naive_datetime_of_secs;

verus! {

/// Milliseconds between the Unix epoch and the custom epoch of the
/// identifier scheme (2015-01-01T00:00:00Z).
pub const EPOCH_OFFSET_MS: u64 = 1420070400000;

/// Structure holding a valid Discord snowflake.
#[derive(Debug, Clone, Copy, PartialEq, Eq, PartialOrd, Ord)]
pub struct Dflake {
    /// The raw u64 this Dflake was made from.
    pub raw: u64,
    /// Unix timestamp in milliseconds, represented as a u32.
    pub timestamp: u32,
    /// Internal worker ID.
    pub worker_id: u8,
    /// Internal process ID.
    pub process_id: u8,
    /// The amount of times an ID was created on a process.
    pub increment: u16,
}

/// The timestamp field: the top 42 bits, shifted onto the custom epoch and
/// truncated to 32 bits.
pub open spec fn timestamp_of(x: u64) -> u32 {
    ((((x >> 22) + EPOCH_OFFSET_MS) % 0x1_0000_0000) as u32)
}

/// The worker id field: bits 17 to 21.
pub open spec fn worker_id_of(x: u64) -> u8 {
    (((x & 0x3E0000) >> 17) as u8)
}

/// The process id field: bits 12 to 16.
pub open spec fn process_id_of(x: u64) -> u8 {
    (((x & 0x1F000) >> 12) as u8)
}

/// The increment field: bits 0 to 11.
pub open spec fn increment_of(x: u64) -> u16 {
    ((x & 0xFFF) as u16)
}

/// The full decomposition of a raw snowflake into its fields.
pub open spec fn flake_of(x: u64) -> Dflake {
    Dflake {
        raw: x,
        timestamp: timestamp_of(x),
        worker_id: worker_id_of(x),
        process_id: process_id_of(x),
        increment: increment_of(x),
    }
}

impl Dflake {
    /// Returns the raw u64 this Dflake was made from.
    pub fn raw(&self) -> (r: u64)
        ensures
            r == self.raw,
    {
        self.raw
    }

    /// Returns the timestamp as a chrono::NaiveDateTime. Milliseconds are
    /// truncated to whole seconds, not rounded.
    pub fn datetime(&self) -> (r: chrono::NaiveDateTime)
        ensures
            r == naive_datetime_of_secs(self.timestamp / 1000),
    {
        let seconds: u32 = self.timestamp / 1000;
        naive_datetime_from_secs(seconds)
    }
}

/// Parses a u64 into a [`Dflake`]. Total: every 64-bit value decodes.
pub fn parse(input: u64) -> (r: Dflake)
    ensures
        r == flake_of(input),
{
    proof {
        assert(input >> 22 <= 0x3FF_FFFF_FFFF) by (bit_vector);
        assert((input & 0x3E0000) >> 17 < 32) by (bit_vector);
        assert((input & 0x1F000) >> 12 < 32) by (bit_vector);
        assert(input & 0xFFF < 4096) by (bit_vector);
    }
    let shifted: u64 = input >> 22;
    let sum: u64 = shifted + EPOCH_OFFSET_MS;
    let timestamp: u32 = #[verifier::truncate] (sum as u32);
    proof {
        assert(sum as u32 == sum % 0x1_0000_0000) by (bit_vector);
    }
    Dflake {
        raw: input,
        timestamp,
        worker_id: ((input & 0x3E0000) >> 17) as u8,
        process_id: ((input & 0x1F000) >> 12) as u8,
        increment: (input & 0xFFF) as u16,
    }
}

/// Decoding is deterministic: any two decodings of the same raw value agree
/// field for field.
pub proof fn lemma_decode_deterministic(x: u64, a: Dflake, b: Dflake)
    requires
        a == flake_of(x),
        b == flake_of(x),
    ensures
        a == b,
{
}

/// Decoding preserves the raw input verbatim.
pub proof fn lemma_raw_round_trip(x: u64)
    ensures
        flake_of(x).raw == x,
{
}

/// Every decoded field lies within its bit-field range.
pub proof fn lemma_field_ranges(x: u64)
    ensures
        flake_of(x).worker_id <= 31,
        flake_of(x).process_id <= 31,
        flake_of(x).increment <= 4095,
{
    assert((x & 0x3E0000) >> 17 < 32) by (bit_vector);
    assert((x & 0x1F000) >> 12 < 32) by (bit_vector);
    assert(x & 0xFFF < 4096) by (bit_vector);
}

} // verus!
