use vstd::prelude::*;

verus! {

/// The signed 16-bit value held by two bytes in little-endian order.
pub open spec fn spec_le_i16(b0: u8, b1: u8) -> i16 {
    (if b0 + 256 * b1 >= 32768 {
        b0 + 256 * b1 - 65536
    } else {
        b0 + 256 * b1
    }) as i16
}

/// The samples encoded by a byte stream: one signed 16-bit little-endian
/// sample per whole 2-byte group, in order. A trailing odd byte encodes
/// nothing.
pub open spec fn spec_decoded(bytes: Seq<u8>) -> Seq<i16> {
    Seq::new(bytes.len() / 2, |i: int| spec_le_i16(bytes[2 * i], bytes[2 * i + 1]))
}

/// Decodes raw little-endian 16-bit PCM bytes into samples.
///
/// Only whole 2-byte groups are consumed; a trailing odd byte is dropped.
/// Dropping the dangling byte (rather than buffering it for the next read)
/// is a deliberate design choice of this library.
pub fn decode_samples(bytes: &[u8]) -> (samples: Vec<i16>)
    ensures
        samples@ == spec_decoded(bytes@),
{
    let n: usize = bytes.len() / 2;
    let mut samples: Vec<i16> = Vec::new();
    let mut i: usize = 0;
    while i < n
        invariant
            i <= n,
            n == bytes@.len() / 2,
            2 * n <= bytes@.len() <= usize::MAX,
            samples@.len() == i,
            forall|j: int| 0 <= j < i ==> samples@[j] == spec_le_i16(bytes@[2 * j], bytes@[2 * j + 1]),
        decreases n - i,
    {
        let lo: u32 = bytes[2 * i] as u32;
        let hi: u32 = bytes[2 * i + 1] as u32;
        let u: u32 = lo + 256 * hi;
        let s: i32 = if u >= 32768 {
            (u as i32) - 65536
        } else {
            u as i32
        };
        samples.push(s as i16);
        i = i + 1;
    }
    assert(samples@ =~= spec_decoded(bytes@));
    samples
}

} // verus!
