//! The physical fuse snapshot: thirteen bank values and the logical KEY,
//! USER and CNTL fields, as read back from the device.
use vstd::prelude::*;
use crate::layout::{dup_cntl, dup_spec, CNTL_MASK, FUSE_BANKS};

verus! {

/// The fuse state read back from the device. Bank 0 holds CNTL with its
/// duplicate; banks 1 to 12 hold ECC-coded words.
pub struct EfusePhy {
    banks: [u32; 13],
    key: [u8; 32],
    user: u32,
    cntl: u8,
}

/// The meaningful CNTL bits of a 14-bit CNTL readback.
pub open spec fn cntl_bits_spec(raw: u32) -> u8 {
    (raw & 0x3F) as u8
}

impl EfusePhy {
    /// The physical bank values.
    pub closed spec fn spec_banks(&self) -> Seq<u32> {
        self.banks@
    }

    /// The KEY as read back.
    pub closed spec fn spec_key(&self) -> Seq<u8> {
        self.key@
    }

    /// The USER word as read back.
    pub closed spec fn spec_user(&self) -> u32 {
        self.user
    }

    /// The CNTL bits as read back.
    pub closed spec fn spec_cntl(&self) -> u8 {
        self.cntl
    }

    /// Thirteen banks and a 32-byte KEY; bank 0 holds the CNTL bits, which
    /// are at most six, and their copy.
    pub open spec fn wf(&self) -> bool {
        &&& self.spec_banks().len() == 13
        &&& self.spec_key().len() == 32
        &&& self.spec_cntl() < 64
        &&& self.spec_banks()[0] == dup_spec(self.spec_cntl())
    }

    /// The state of an unprogrammed device: every fuse 0.
    pub fn new() -> (r: Self)
        ensures
            r.wf(),
            r.spec_banks() == Seq::new(13, |i: int| 0u32),
            r.spec_key() == Seq::new(32, |i: int| 0u8),
            r.spec_user() == 0,
            r.spec_cntl() == 0,
    {
        let r = EfusePhy { banks: [0u32; 13], key: [0u8; 32], user: 0, cntl: 0 };
        assert(r.banks@ =~= Seq::new(13, |i: int| 0u32));
        assert(r.key@ =~= Seq::new(32, |i: int| 0u8));
        assert((0u32 | (0u32 << 14u32)) == 0u32) by (bit_vector);
        r
    }

    pub fn user(&self) -> (r: u32)
        ensures
            r == self.spec_user(),
    {
        self.user
    }

    pub fn cntl(&self) -> (r: u8)
        ensures
            r == self.spec_cntl(),
    {
        self.cntl
    }

    pub fn key(&self) -> (r: [u8; 32])
        ensures
            r@ == self.spec_key(),
    {
        self.key
    }

    /// The value of bank `b`.
    pub fn bank(&self, b: usize) -> (r: u32)
        requires
            b < 13,
        ensures
            r == self.spec_banks()[b as int],
    {
        self.banks[b]
    }

    /// Records a readback. `key` and `user` are the KEY and USER readbacks,
    /// `cntl_raw` the 14-bit CNTL readback, and `coded[j]` the ECC-coded form
    /// of bank `j + 1`'s raw word (see `layout::raw_banks`) for this KEY and
    /// USER. Bank 0 is built from the low six CNTL bits and their copy.
    pub fn fetch(&mut self, key: [u8; 32], user: u32, cntl_raw: u32, coded: &[u32; 12])
        ensures
            final(self).wf(),
            final(self).spec_key() == key@,
            final(self).spec_user() == user,
            final(self).spec_cntl() == cntl_bits_spec(cntl_raw),
            final(self).spec_banks()[0] == dup_spec(cntl_bits_spec(cntl_raw)),
            forall|b: int| 1 <= b < 13 ==> final(self).spec_banks()[b] == coded[b - 1],
    {
        let bits: u32 = cntl_raw & CNTL_MASK;
        assert(cntl_raw & 0x3F <= 0x3F) by (bit_vector);
        let c: u8 = bits as u8;
        self.key = key;
        self.user = user;
        self.cntl = c;
        self.banks[0] = dup_cntl(c);
        let mut b: usize = 1;
        while b < FUSE_BANKS
            invariant
                1 <= b <= 13,
                self.key@ == key@,
                self.user == user,
                self.cntl == c,
                c < 64,
                c == cntl_bits_spec(cntl_raw),
                self.banks[0] == dup_spec(c),
                forall|i: int| 1 <= i < b ==> self.banks[i] == coded[i - 1],
            decreases 13 - b,
        {
            self.banks[b] = coded[b - 1];
            b += 1;
        }
    }
}

} // verus!
