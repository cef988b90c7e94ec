//! Words as the device reads them: integers laid out as bytes in the order
//! of the host.
//!
//! Buffers are handed to the device as raw memory, so an integer reaches it
//! in whichever byte order the host stores it. Both orders are written out
//! here; what is known of a buffer is that it follows one of them throughout.

use vstd::prelude::*;

verus! {

/// The order in which the bytes of one integer stand in memory.
pub enum ByteOrder {
    /// Least significant byte first.
    Little,
    /// Most significant byte first.
    Big,
}

/// The four bytes of `x`, least significant first.
pub open spec fn u32_le_bytes(x: u32) -> Seq<u8> {
    seq![
        (x % 0x100) as u8,
        (x / 0x100 % 0x100) as u8,
        (x / 0x1_0000 % 0x100) as u8,
        (x / 0x100_0000 % 0x100) as u8,
    ]
}

/// The two bytes of `x`, least significant first.
pub open spec fn u16_le_bytes(x: u16) -> Seq<u8> {
    seq![(x % 0x100) as u8, (x / 0x100 % 0x100) as u8]
}

/// The four bytes of `x` in the given order.
pub open spec fn u32_bytes(x: u32, order: ByteOrder) -> Seq<u8> {
    match order {
        ByteOrder::Little => u32_le_bytes(x),
        ByteOrder::Big => u32_le_bytes(x).reverse(),
    }
}

/// The two bytes of `x` in the given order.
pub open spec fn u16_bytes(x: u16, order: ByteOrder) -> Seq<u8> {
    match order {
        ByteOrder::Little => u16_le_bytes(x),
        ByteOrder::Big => u16_le_bytes(x).reverse(),
    }
}

/// The bytes of a run of 32-bit words: the words one after another with no
/// gap, each in the given order.
pub open spec fn u32s_bytes(words: Seq<u32>, order: ByteOrder) -> Seq<u8> {
    Seq::new(4 * words.len(), |i: int| u32_bytes(words[i / 4], order)[i % 4])
}

/// The bytes of a run of 16-bit words: the words one after another with no
/// gap, each in the given order.
pub open spec fn u16s_bytes(words: Seq<u16>, order: ByteOrder) -> Seq<u8> {
    Seq::new(2 * words.len(), |i: int| u16_bytes(words[i / 2], order)[i % 2])
}

/// Whether `bytes` is the memory of `words` on some host: one byte order,
/// the same for every word.
pub open spec fn is_memory_of_u32s(bytes: Seq<u8>, words: Seq<u32>) -> bool {
    bytes == u32s_bytes(words, ByteOrder::Little) || bytes == u32s_bytes(words, ByteOrder::Big)
}

/// Whether `bytes` is the memory of `words` on some host: one byte order,
/// the same for every word.
pub open spec fn is_memory_of_u16s(bytes: Seq<u8>, words: Seq<u16>) -> bool {
    bytes == u16s_bytes(words, ByteOrder::Little) || bytes == u16s_bytes(words, ByteOrder::Big)
}

/// The 32-bit word that holds `i` in two's complement.
pub open spec fn twos_complement(i: i32) -> u32 {
    if i >= 0 {
        i as u32
    } else {
        (i + 0x1_0000_0000) as u32
    }
}

/// Reinterprets a signed word as the unsigned word with the same bits.
pub fn to_unsigned(i: i32) -> (u: u32)
    ensures
        u == twos_complement(i),
{
    let u: u32 = i as u32;
    assert(i >= 0 ==> i as u32 == i) by (bit_vector);
    assert(i < 0 ==> i as u32 == i + 0x1_0000_0000) by (bit_vector);
    u
}

/// The memory of five 32-bit words, copied out byte by byte.
///
/// Trusted: calls `bytemuck::bytes_of` on the array. That function hands
/// back the array's own memory as a byte slice. An array stores its elements
/// in order without padding, and each word in the byte order of the host, so
/// the slice has twenty bytes and is the five words in one of the two orders.
#[verifier::external_body]
pub(crate) fn memory_of_five_words(words: &[u32; 5]) -> (bytes: Vec<u8>)
    ensures
        is_memory_of_u32s(bytes@, words@),
{
    bytemuck::bytes_of(words).to_vec()
}

/// The memory of a slice of 16-bit words, copied out byte by byte.
///
/// Trusted: calls `bytemuck::cast_slice` from `u16` to `u8`. A cast to bytes
/// cannot fail on alignment or on length; it hands back the slice's own
/// memory, two bytes for each word, each word in the byte order of the host.
#[verifier::external_body]
pub(crate) fn memory_of_u16s(words: &[u16]) -> (bytes: Vec<u8>)
    ensures
        is_memory_of_u16s(bytes@, words@),
{
    bytemuck::cast_slice::<u16, u8>(words).to_vec()
}

} // verus!
