//! How the logical KEY/USER/CNTL values are packed into physical banks, and
//! the per-bank rules that keep a burn monotonic (bits only go from 0 to 1).
use vstd::prelude::*;

verus! {

/// Number of physical fuse banks.
pub const FUSE_BANKS: usize = 13;

/// Number of ECC-coded banks (banks 1 to 12).
pub const ECC_BANKS: usize = 12;

/// Bits of the CNTL readback that carry meaning.
pub const CNTL_MASK: u32 = 0x3F;

/// Distance between the two copies of the CNTL bits in bank 0.
pub const CNTL_COPY_SHIFT: u32 = 14;

/// The raw (pre-ECC) word of ECC bank `b` (1 to 12) for a KEY `k` and a USER
/// word `user`. Bank `b` up to 10 packs `k[3b-1] k[3b-2] k[3b-3]`, most
/// significant first; bank 11 packs the low USER byte over `k[31] k[30]`;
/// bank 12 is the upper 24 bits of USER.
pub open spec fn raw_bank_spec(k: Seq<u8>, user: u32, b: int) -> u32 {
    if b == 11 {
        ((user % 256) * 65536 + k[31] * 256 + k[30]) as u32
    } else if b == 12 {
        user / 256
    } else {
        (k[3 * b - 1] * 65536 + k[3 * b - 2] * 256 + k[3 * b - 3]) as u32
    }
}

/// Bank 0 as burned for CNTL bits `c`: the value and its redundant copy
/// `CNTL_COPY_SHIFT` bits higher, that is `c | (c << 14)`.
pub open spec fn dup_spec(c: u8) -> u32 {
    (c as u32) | ((c as u32) << 14u32)
}

/// A bank with physical value `p` can become `d`: no bit that is 1 in `p` is 0
/// in `d`.
pub open spec fn keeps_ones(p: u32, d: u32) -> bool {
    (p ^ d) & p == 0
}

/// The bits to burn to take physical value `p` to `d`.
pub open spec fn delta_spec(p: u32, d: u32) -> u32 {
    (p ^ d) & d
}

/// The raw word of ECC bank `b` (1 to 12).
pub fn raw_bank(key: &[u8; 32], user: u32, b: usize) -> (r: u32)
    requires
        1 <= b <= 12,
    ensures
        r == raw_bank_spec(key@, user, b as int),
{
    if b == 11 {
        (user % 256) * 65536 + (key[31] as u32) * 256 + key[30] as u32
    } else if b == 12 {
        user / 256
    } else {
        let i: usize = 3 * b;
        (key[i - 1] as u32) * 65536 + (key[i - 2] as u32) * 256 + key[i - 3] as u32
    }
}

/// The raw words of all ECC banks: entry `j` is bank `j + 1`. These are the
/// words that the ECC codec must encode.
pub fn raw_banks(key: &[u8; 32], user: u32) -> (r: [u32; 12])
    ensures
        forall|j: int| 0 <= j < 12 ==> r[j] == raw_bank_spec(key@, user, j + 1),
{
    let mut r: [u32; 12] = [0u32; 12];
    let mut j: usize = 0;
    while j < ECC_BANKS
        invariant
            j <= 12,
            forall|i: int| 0 <= i < j ==> r[i] == raw_bank_spec(key@, user, i + 1),
        decreases 12 - j,
    {
        r[j] = raw_bank(key, user, j + 1);
        j += 1;
    }
    r
}

/// Bank 0 for CNTL bits `c`.
pub fn dup_cntl(c: u8) -> (r: u32)
    ensures
        r == dup_spec(c),
{
    (c as u32) | ((c as u32) << CNTL_COPY_SHIFT)
}

/// Whether physical value `p` can become `d` by burning bits.
pub fn bank_keeps_ones(p: u32, d: u32) -> (r: bool)
    ensures
        r == keeps_ones(p, d),
{
    (p ^ d) & p == 0
}

/// The bits that are 0 in `p` and 1 in `d`.
pub fn bank_delta(p: u32, d: u32) -> (r: u32)
    ensures
        r == delta_spec(p, d),
{
    (p ^ d) & d
}

} // verus!
