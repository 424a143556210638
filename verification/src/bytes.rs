use vstd::prelude::*;

verus! {

/// The unsigned 32-bit number that four bytes of `s`, from index `at` on,
/// spell in little-endian order.
pub open spec fn le_u32(s: Seq<u8>, at: int) -> int {
    s[at] + s[at + 1] * 0x100 + s[at + 2] * 0x1_0000 + s[at + 3] * 0x100_0000
}

/// The unsigned 64-bit number that eight bytes of `s`, from index `at` on,
/// spell in little-endian order.
pub open spec fn le_u64(s: Seq<u8>, at: int) -> int {
    le_u32(s, at) + le_u32(s, at + 4) * 0x1_0000_0000
}

/// The unsigned 128-bit number that sixteen bytes of `s`, from index `at`
/// on, spell in little-endian order.
pub open spec fn le_u128(s: Seq<u8>, at: int) -> int {
    le_u64(s, at) + le_u64(s, at + 8) * 0x1_0000_0000_0000_0000
}

/// A little-endian number of four bytes fits 32 bits.
pub proof fn lemma_le_u32_bounds(s: Seq<u8>, at: int)
    requires
        0 <= at,
        at + 4 <= s.len(),
    ensures
        0 <= le_u32(s, at) <= u32::MAX,
{
}

/// A little-endian number of eight bytes fits 64 bits.
pub proof fn lemma_le_u64_bounds(s: Seq<u8>, at: int)
    requires
        0 <= at,
        at + 8 <= s.len(),
    ensures
        0 <= le_u64(s, at) <= u64::MAX,
{
    lemma_le_u32_bounds(s, at);
    lemma_le_u32_bounds(s, at + 4);
}

/// A little-endian number of sixteen bytes fits 128 bits.
pub proof fn lemma_le_u128_bounds(s: Seq<u8>, at: int)
    requires
        0 <= at,
        at + 16 <= s.len(),
    ensures
        0 <= le_u128(s, at) <= u128::MAX,
{
    lemma_le_u64_bounds(s, at);
    lemma_le_u64_bounds(s, at + 8);
}

/// Reads four bytes at `at` as a little-endian number.
pub fn read_u32_le(data: &[u8], at: usize) -> (value: u32)
    requires
        at + 4 <= data.len(),
    ensures
        value == le_u32(data@, at as int),
{
    let b0: u32 = data[at] as u32;
    let b1: u32 = data[at + 1] as u32;
    let b2: u32 = data[at + 2] as u32;
    let b3: u32 = data[at + 3] as u32;
    b0 + b1 * 0x100 + b2 * 0x1_0000 + b3 * 0x100_0000
}

/// Reads eight bytes at `at` as a little-endian number.
pub fn read_u64_le(data: &[u8], at: usize) -> (value: u64)
    requires
        at + 8 <= data.len(),
    ensures
        value == le_u64(data@, at as int),
{
    let low: u64 = read_u32_le(data, at) as u64;
    let high: u64 = read_u32_le(data, at + 4) as u64;
    low + high * 0x1_0000_0000
}

/// Reads sixteen bytes at `at` as a little-endian number.
pub fn read_u128_le(data: &[u8], at: usize) -> (value: u128)
    requires
        at + 16 <= data.len(),
    ensures
        value == le_u128(data@, at as int),
{
    let low: u128 = read_u64_le(data, at) as u128;
    let high: u128 = read_u64_le(data, at + 8) as u128;
    low + high * 0x1_0000_0000_0000_0000
}

/// Whether two addresses hold the same 32 bytes.
pub fn same_address(a: &[u8; 32], b: &[u8; 32]) -> (same: bool)
    ensures
        same == (a@ == b@),
{
    let mut i: usize = 0;
    while i < 32
        invariant
            i <= 32,
            forall|j: int| 0 <= j < i ==> a@[j] == b@[j],
        decreases 32 - i,
    {
        if a[i] != b[i] {
            return false;
        }
        i = i + 1;
    }
    assert(a@ =~= b@);
    true
}

} // verus!
