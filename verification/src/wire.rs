//! Big-endian integers, as network formats lay them out.
use vstd::prelude::*;

verus! {

/// The 16-bit number at `at`.
pub open spec fn be16(bytes: Seq<u8>, at: int) -> int {
    bytes[at] * 0x100 + bytes[at + 1]
}

/// The 32-bit number at `at`.
pub open spec fn be32(bytes: Seq<u8>, at: int) -> int {
    be16(bytes, at) * 0x1_0000 + be16(bytes, at + 2)
}

/// The two bytes of the low 16 bits of `x`.
pub open spec fn be16_bytes(x: int) -> Seq<u8> {
    seq![(x / 0x100 % 0x100) as u8, (x % 0x100) as u8]
}

/// The four bytes of the low 32 bits of `x`.
pub open spec fn be32_bytes(x: int) -> Seq<u8> {
    be16_bytes(x / 0x1_0000) + be16_bytes(x)
}

/// Read the 16-bit number at `at`.
pub fn read_be16(bytes: &[u8], at: usize) -> (r: u16)
    requires
        at + 2 <= bytes@.len(),
    ensures
        r == be16(bytes@, at as int),
{
    (bytes[at] as u16) * 0x100 + bytes[at + 1] as u16
}

/// Read the 32-bit number at `at`.
pub fn read_be32(bytes: &[u8], at: usize) -> (r: u32)
    requires
        at + 4 <= bytes@.len(),
    ensures
        r == be32(bytes@, at as int),
{
    assert(bytes.len() <= usize::MAX);
    (read_be16(bytes, at) as u32) * 0x1_0000 + read_be16(bytes, at + 2) as u32
}

/// What is written as 16 bits is read back.
pub proof fn law_be16_reads_back(x: int, before: Seq<u8>, after: Seq<u8>)
    requires
        0 <= x < 0x1_0000,
    ensures
        be16(before + be16_bytes(x) + after, before.len() as int) == x,
{
    let bytes = before + be16_bytes(x) + after;
    assert(bytes[before.len() as int] == be16_bytes(x)[0]);
    assert(bytes[before.len() as int + 1] == be16_bytes(x)[1]);
}

/// What is written as 32 bits is read back.
pub proof fn law_be32_reads_back(x: int, before: Seq<u8>, after: Seq<u8>)
    requires
        0 <= x < 0x1_0000_0000,
    ensures
        be32(before + be32_bytes(x) + after, before.len() as int) == x,
{
    let bytes = before + be32_bytes(x) + after;
    law_be16_reads_back(x / 0x1_0000, before, be16_bytes(x) + after);
    law_be16_reads_back(x % 0x1_0000, before + be16_bytes(x / 0x1_0000), after);
    assert(be16_bytes(x) =~= be16_bytes(x % 0x1_0000));
    assert(bytes =~= before + be16_bytes(x / 0x1_0000) + (be16_bytes(x) + after));
    assert(bytes =~= (before + be16_bytes(x / 0x1_0000)) + be16_bytes(x % 0x1_0000) + after);
}

/// The first byte weighs most: each byte counts 256 times the one behind it.
pub proof fn law_the_big_end_comes_first(bytes: Seq<u8>, at: int, x: int)
    requires
        0 <= x < 0x1_0000_0000,
    ensures
        be16(bytes, at) == 256 * bytes[at] + bytes[at + 1],
        be32(bytes, at) == 16_777_216 * bytes[at] + 65_536 * bytes[at + 1] + 256 * bytes[at + 2]
            + bytes[at + 3],
        be16_bytes(x).len() == 2,
        256 * be16_bytes(x)[0] + be16_bytes(x)[1] == x % 65_536,
        be32_bytes(x).len() == 4,
        16_777_216 * be32_bytes(x)[0] + 65_536 * be32_bytes(x)[1] + 256 * be32_bytes(x)[2]
            + be32_bytes(x)[3] == x,
{
}

} // verus!
