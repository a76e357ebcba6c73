//! Readers for the little-endian binary payloads the decoder consumes,
//! with their exact arithmetic meaning.

use vstd::prelude::*;

verus! {

/// The unsigned value of 4 little-endian bytes.
pub open spec fn le_u32(s: Seq<u8>) -> int {
    s[0] + s[1] * 0x100 + s[2] * 0x10000 + s[3] * 0x1000000
}

/// The unsigned value of 8 little-endian bytes.
pub open spec fn le_u64(s: Seq<u8>) -> int {
    s[0] + s[1] * 0x100 + s[2] * 0x10000 + s[3] * 0x1000000 + s[4] * 0x100000000 + s[5]
        * 0x10000000000 + s[6] * 0x1000000000000 + s[7] * 0x100000000000000
}

/// The two's-complement signed value of 8 little-endian bytes.
pub open spec fn le_i64(s: Seq<u8>) -> int {
    if le_u64(s) < 0x8000000000000000 {
        le_u64(s)
    } else {
        le_u64(s) - 0x10000000000000000
    }
}

/// Reads the 4 bytes at `at` as an unsigned little-endian integer.
pub fn read_u32_le(bytes: &[u8], at: usize) -> (r: u32)
    requires
        at + 4 <= bytes@.len(),
    ensures
        r == le_u32(bytes@.subrange(at as int, at + 4)),
{
    let b0: u32 = bytes[at] as u32;
    let b1: u32 = bytes[at + 1] as u32;
    let b2: u32 = bytes[at + 2] as u32;
    let b3: u32 = bytes[at + 3] as u32;
    b0 + b1 * 0x100 + b2 * 0x10000 + b3 * 0x1000000
}

/// Reads the 8 bytes at `at` as an unsigned little-endian integer.
pub fn read_u64_le(bytes: &[u8], at: usize) -> (r: u64)
    requires
        at + 8 <= bytes@.len(),
    ensures
        r == le_u64(bytes@.subrange(at as int, at + 8)),
{
    let b0: u64 = bytes[at] as u64;
    let b1: u64 = bytes[at + 1] as u64;
    let b2: u64 = bytes[at + 2] as u64;
    let b3: u64 = bytes[at + 3] as u64;
    let b4: u64 = bytes[at + 4] as u64;
    let b5: u64 = bytes[at + 5] as u64;
    let b6: u64 = bytes[at + 6] as u64;
    let b7: u64 = bytes[at + 7] as u64;
    b0 + b1 * 0x100 + b2 * 0x10000 + b3 * 0x1000000 + b4 * 0x100000000 + b5 * 0x10000000000 + b6
        * 0x1000000000000 + b7 * 0x100000000000000
}

/// Reads the 8 bytes at `at` as a signed little-endian integer.
pub fn read_i64_le(bytes: &[u8], at: usize) -> (r: i64)
    requires
        at + 8 <= bytes@.len(),
    ensures
        r == le_i64(bytes@.subrange(at as int, at + 8)),
{
    let u = read_u64_le(bytes, at);
    if u < 0x8000000000000000 {
        u as i64
    } else {
        let distance: u64 = u64::MAX - u;
        -(distance as i64) - 1
    }
}

/// Copies the `n` bytes starting at `at` out of the payload.
pub fn read_bytes(bytes: &[u8], at: usize, n: usize) -> (r: Vec<u8>)
    requires
        at + n <= bytes@.len(),
    ensures
        r@ == bytes@.subrange(at as int, at + n),
{
    let len: usize = bytes.len();
    let mut out: Vec<u8> = Vec::new();
    let mut i: usize = 0;
    while i < n
        invariant
            at + n <= bytes@.len(),
            at + n <= usize::MAX,
            i <= n,
            out@ == bytes@.subrange(at as int, at + i),
        decreases n - i,
    {
        out.push(bytes[at + i]);
        assert(out@ =~= bytes@.subrange(at as int, at + i + 1));
        i = i + 1;
    }
    out
}

} // verus!
