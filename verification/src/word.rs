//! Random words from random bytes.
//!
//! A 64-bit word is eight bytes of the generator, read as the machine lays
//! out its integers. A 32-bit word is the low half of a 64-bit word: it
//! costs the same eight bytes, not four.

use vstd::prelude::*;
use crate::fill::{FillProgress, FillStage};
use crate::handle::RandJitterKernel;

verus! {

/// The number of bytes that are read for one word, of either width.
pub const WORD_LEN: usize = 8;

/// The number that eight bytes spell with the lowest byte first.
pub open spec fn little_endian(bytes: Seq<u8>) -> int
    recommends
        bytes.len() == WORD_LEN,
{
    bytes[0] + 0x100 * (bytes[1] + 0x100 * (bytes[2] + 0x100 * (bytes[3] + 0x100 * (bytes[4]
        + 0x100 * (bytes[5] + 0x100 * (bytes[6] + 0x100 * bytes[7]))))))
}

/// The number that eight bytes spell with the highest byte first.
pub open spec fn big_endian(bytes: Seq<u8>) -> int
    recommends
        bytes.len() == WORD_LEN,
{
    bytes[7] + 0x100 * (bytes[6] + 0x100 * (bytes[5] + 0x100 * (bytes[4] + 0x100 * (bytes[3]
        + 0x100 * (bytes[2] + 0x100 * (bytes[1] + 0x100 * bytes[0]))))))
}

/// Whether `word` is what `bytes` spell in one of the two byte orders that
/// a machine can have.
pub open spec fn native_reading(bytes: Seq<u8>, word: u64) -> bool {
    word == little_endian(bytes) || word == big_endian(bytes)
}

/// Calls `u64::from_ne_bytes`, which reads the bytes in the byte order of
/// the machine. That order is little-endian or big-endian, and which of
/// the two is not known here.
#[verifier::external_body]
fn from_native_bytes(bytes: [u8; 8]) -> (word: u64)
    ensures
        native_reading(bytes@, word),
{
    u64::from_ne_bytes(bytes)
}

/// The low 32 bits of `word`.
pub fn low_half(word: u64) -> (half: u32)
    ensures
        half == word % 0x1_0000_0000,
{
    assert(word & 0xFFFF_FFFF == word % 0x1_0000_0000) by (bit_vector);
    (word & 0xFFFF_FFFF) as u32
}

impl RandJitterKernel {
    /// Begins to read the eight bytes of a 64-bit word.
    pub fn try_next_u64(&self) -> (progress: FillProgress<'_>)
        ensures
            progress.stage() == FillStage::at(self.descriptor(), WORD_LEN as nat, 0),
    {
        self.try_fill_bytes(WORD_LEN)
    }

    /// Begins to read the eight bytes of which a 32-bit word is the low
    /// half.
    pub fn try_next_u32(&self) -> (progress: FillProgress<'_>)
        ensures
            progress.stage() == FillStage::at(self.descriptor(), WORD_LEN as nat, 0),
    {
        self.try_next_u64()
    }

    /// The 64-bit word that the eight bytes of a finished fill stand for.
    pub fn u64_from(bytes: [u8; 8]) -> (word: u64)
        ensures
            native_reading(bytes@, word),
    {
        from_native_bytes(bytes)
    }

    /// The 32-bit word that the eight bytes of a finished fill stand for:
    /// the low half of their 64-bit word.
    pub fn u32_from(bytes: [u8; 8]) -> (word: u32)
        ensures
            word == little_endian(bytes@) % 0x1_0000_0000 || word == big_endian(bytes@)
                % 0x1_0000_0000,
    {
        low_half(Self::u64_from(bytes))
    }
}

} // verus!
