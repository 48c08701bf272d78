use vstd::prelude::*;

verus! {

/// The little-endian value of the eight bytes of `s` starting at `at`.
pub open spec fn le_u64_at(s: Seq<u8>, at: int) -> int {
    s[at] + 256 * (s[at + 1] + 256 * (s[at + 2] + 256 * (s[at + 3] + 256 * (s[at + 4]
        + 256 * (s[at + 5] + 256 * (s[at + 6] + 256 * s[at + 7]))))))
}

/// The eight big-endian bytes of `v`.
pub open spec fn be_bytes_u64(v: u64) -> Seq<u8> {
    seq![
        (v / 0x100_0000_0000_0000) as u8,
        (v / 0x1_0000_0000_0000 % 256) as u8,
        (v / 0x100_0000_0000 % 256) as u8,
        (v / 0x1_0000_0000 % 256) as u8,
        (v / 0x100_0000 % 256) as u8,
        (v / 0x1_0000 % 256) as u8,
        (v / 0x100 % 256) as u8,
        (v % 256) as u8,
    ]
}

/// Reads a little-endian `u64` from the eight bytes of `s` starting at `at`.
pub fn read_le_u64(s: &[u8], at: usize) -> (r: u64)
    requires
        at + 8 <= s@.len(),
    ensures
        r == le_u64_at(s@, at as int),
{
    let b0 = s[at] as u64;
    let b1 = s[at + 1] as u64;
    let b2 = s[at + 2] as u64;
    let b3 = s[at + 3] as u64;
    let b4 = s[at + 4] as u64;
    let b5 = s[at + 5] as u64;
    let b6 = s[at + 6] as u64;
    let b7 = s[at + 7] as u64;
    let v7 = b7;
    let v6 = b6 + 256 * v7;
    let v5 = b5 + 256 * v6;
    let v4 = b4 + 256 * v5;
    let v3 = b3 + 256 * v4;
    let v2 = b2 + 256 * v3;
    let v1 = b1 + 256 * v2;
    b0 + 256 * v1
}

/// The eight big-endian bytes of `v`.
pub fn to_be_bytes_u64(v: u64) -> (r: [u8; 8])
    ensures
        r@ == be_bytes_u64(v),
{
    let r: [u8; 8] = [
        (v / 0x100_0000_0000_0000) as u8,
        (v / 0x1_0000_0000_0000 % 256) as u8,
        (v / 0x100_0000_0000 % 256) as u8,
        (v / 0x1_0000_0000 % 256) as u8,
        (v / 0x100_0000 % 256) as u8,
        (v / 0x1_0000 % 256) as u8,
        (v / 0x100 % 256) as u8,
        (v % 256) as u8,
    ];
    assert(r@ =~= be_bytes_u64(v));
    r
}

/// Whether two 32-byte keys are equal.
pub fn keys_equal(a: &[u8; 32], b: &[u8; 32]) -> (r: bool)
    ensures
        r == (a@ == b@),
{
    let mut i: usize = 0;
    while i < 32
        invariant
            i <= 32,
            a@.len() == 32,
            b@.len() == 32,
            forall|j: int| 0 <= j < i ==> a@[j] == b@[j],
        decreases 32 - i,
    {
        if a[i] != b[i] {
            return false;
        }
        i = i + 1;
    }
    assert(a@ =~= b@);
    true
}

/// The eight little-endian bytes of `v`.
pub open spec fn le_bytes_u64(v: u64) -> Seq<u8> {
    seq![
        (v % 256) as u8,
        (v / 0x100 % 256) as u8,
        (v / 0x1_0000 % 256) as u8,
        (v / 0x100_0000 % 256) as u8,
        (v / 0x1_0000_0000 % 256) as u8,
        (v / 0x100_0000_0000 % 256) as u8,
        (v / 0x1_0000_0000_0000 % 256) as u8,
        (v / 0x100_0000_0000_0000) as u8,
    ]
}

/// The eight little-endian bytes of `v`.
pub fn to_le_bytes_u64(v: u64) -> (r: [u8; 8])
    ensures
        r@ == le_bytes_u64(v),
{
    let r: [u8; 8] = [
        (v % 256) as u8,
        (v / 0x100 % 256) as u8,
        (v / 0x1_0000 % 256) as u8,
        (v / 0x100_0000 % 256) as u8,
        (v / 0x1_0000_0000 % 256) as u8,
        (v / 0x100_0000_0000 % 256) as u8,
        (v / 0x1_0000_0000_0000 % 256) as u8,
        (v / 0x100_0000_0000_0000) as u8,
    ];
    assert(r@ =~= le_bytes_u64(v));
    r
}

} // verus!
