//! The desired fuse configuration, its validation against the physical
//! snapshot, and the command list that burns it.
use vstd::prelude::*;
use crate::jtag_cmd::{
    bank_frame_spec, bank_select, bank_select_spec, bit_burn_spec, commit_spec, push_bank_frame,
    push_bit_burn, push_commit, JtagCmd,
};
use crate::layout::{
    bank_delta, bank_keeps_ones, delta_spec, dup_cntl, dup_spec, keeps_ones, raw_bank_spec,
    raw_banks, CNTL_MASK, FUSE_BANKS,
};
use crate::phy::EfusePhy;

verus! {

/// The value bank `b` is compared with: bank 0 by its six CNTL bits only.
pub open spec fn compared_bits(p: u32, b: int) -> u32 {
    if b == 0 {
        p & 0x3F
    } else {
        p
    }
}

/// The desired value of bank `b`: bank 0 is CNTL `cntl` with its copy, bank
/// `b` from 1 to 12 is the ECC-coded word `coded[b - 1]`.
pub open spec fn desired_bank_spec(cntl: u8, coded: Seq<u32>, b: int) -> u32 {
    if b == 0 {
        dup_spec(cntl)
    } else {
        coded[b - 1]
    }
}

/// Bank `b` of `banks` can be taken to its desired value without a 1 to 0 flip.
pub open spec fn bank_ok(banks: Seq<u32>, cntl: u8, coded: Seq<u32>, b: int) -> bool {
    keeps_ones(compared_bits(banks[b], b), desired_bank_spec(cntl, coded, b))
}

/// Every bank can be taken to its desired value.
pub open spec fn valid_spec(banks: Seq<u32>, cntl: u8, coded: Seq<u32>) -> bool {
    forall|b: int| 0 <= b < 13 ==> bank_ok(banks, cntl, coded, b)
}

/// The bits to burn in each bank.
pub open spec fn masks_spec(banks: Seq<u32>, cntl: u8, coded: Seq<u32>) -> Seq<u32> {
    Seq::new(13, |b: int| delta_spec(banks[b], desired_bank_spec(cntl, coded, b)))
}

/// Whether bit `i` of `x` is 1.
pub open spec fn bit_set(x: u32, i: u32) -> bool {
    (x >> i) & 1u32 == 1u32
}

/// Burn commands for the set bits of `ones` below position `n`, ascending.
pub open spec fn bits_upto(ws: u8, ones: u32, n: int) -> Seq<JtagCmd>
    decreases n,
{
    if n <= 0 {
        Seq::empty()
    } else {
        bits_upto(ws, ones, n - 1) + if bit_set(ones, (n - 1) as u32) {
            bit_burn_spec(ws, (n - 1) as u64)
        } else {
            Seq::empty()
        }
    }
}

/// The commands that burn the bits `ones` of bank `b`: nothing when `ones`
/// is 0, else the bank framing, one burn per set bit in ascending order, and
/// the framing again.
pub open spec fn bank_burn_spec(b: int, ones: u32) -> Seq<JtagCmd> {
    if ones == 0 {
        Seq::empty()
    } else {
        bank_frame_spec(b) + bits_upto(bank_select_spec(b) | 2u8, ones, 32) + bank_frame_spec(b)
    }
}

/// The burns of the first `n` banks in burn order: 12, 11, ..., 1, then 0.
pub open spec fn banks_upto(masks: Seq<u32>, n: int) -> Seq<JtagCmd>
    decreases n,
{
    if n <= 0 {
        Seq::empty()
    } else {
        banks_upto(masks, n - 1) + bank_burn_spec(13 - n, masks[13 - n])
    }
}

/// The whole burn: every bank in burn order, then the commit sequence.
pub open spec fn burn_plan_spec(masks: Seq<u32>) -> Seq<JtagCmd> {
    banks_upto(masks, 13) + commit_spec()
}

/// Appends the commands that burn the bits `ones` of bank `b`.
pub fn push_burn_bank(out: &mut Vec<JtagCmd>, b: usize, ones: u32)
    requires
        b <= 12,
    ensures
        final(out)@ == old(out)@ + bank_burn_spec(b as int, ones),
{
    if ones == 0 {
        assert(old(out)@ + bank_burn_spec(b as int, ones) =~= old(out)@);
        return;
    }
    let ghost start = old(out)@;
    push_bank_frame(out, b);
    let ws: u8 = bank_select(b) | 2u8;
    let mut i: u32 = 0;
    while i < 32
        invariant
            i <= 32,
            b <= 12,
            ws == bank_select_spec(b as int) | 2u8,
            out@ == start + bank_frame_spec(b as int) + bits_upto(ws, ones, i as int),
        decreases 32 - i,
    {
        if (ones >> i) & 1u32 == 1u32 {
            push_bit_burn(out, ws, i as u64);
        }
        assert(out@ =~= start + bank_frame_spec(b as int) + bits_upto(ws, ones, i + 1));
        i += 1;
    }
    push_bank_frame(out, b);
    assert(out@ =~= start + bank_burn_spec(b as int, ones));
}

/// The desired fuse configuration, beside the physical snapshot it is
/// checked against.
pub struct EfuseApi {
    key: [u8; 32],
    user: u32,
    cntl: u8,
    phy: EfusePhy,
}

impl EfuseApi {
    /// The desired KEY.
    pub closed spec fn spec_key(&self) -> Seq<u8> {
        self.key@
    }

    /// The desired USER word.
    pub closed spec fn spec_user(&self) -> u32 {
        self.user
    }

    /// The desired CNTL bits.
    pub closed spec fn spec_cntl(&self) -> u8 {
        self.cntl
    }

    /// The physical snapshot.
    pub closed spec fn spec_phy(&self) -> EfusePhy {
        self.phy
    }

    pub open spec fn wf(&self) -> bool {
        &&& self.spec_key().len() == 32
        &&& self.spec_phy().wf()
    }

    /// The desired configuration is valid against the snapshot, where
    /// `coded[j]` is the ECC-coded form of the desired raw word of bank `j + 1`.
    pub open spec fn valid(&self, coded: Seq<u32>) -> bool {
        valid_spec(self.spec_phy().spec_banks(), self.spec_cntl(), coded)
    }

    /// The bits to burn in each bank for ECC-coded desired words `coded`.
    pub open spec fn masks(&self, coded: Seq<u32>) -> Seq<u32> {
        masks_spec(self.spec_phy().spec_banks(), self.spec_cntl(), coded)
    }

    /// An empty desired configuration beside the snapshot of an unprogrammed
    /// device.
    pub fn new() -> (r: Self)
        ensures
            r.wf(),
            r.spec_key() == Seq::new(32, |i: int| 0u8),
            r.spec_user() == 0,
            r.spec_cntl() == 0,
            r.spec_phy().spec_banks() == Seq::new(13, |i: int| 0u32),
            r.spec_phy().spec_key() == Seq::new(32, |i: int| 0u8),
            r.spec_phy().spec_user() == 0,
            r.spec_phy().spec_cntl() == 0,
    {
        let r = EfuseApi { key: [0u8; 32], user: 0, cntl: 0, phy: EfusePhy::new() };
        assert(r.key@ =~= Seq::new(32, |i: int| 0u8));
        r
    }

    /// The KEY as read back.
    pub fn phy_key(&self) -> (r: [u8; 32])
        ensures
            r@ == self.spec_phy().spec_key(),
    {
        self.phy.key()
    }

    /// The USER word as read back.
    pub fn phy_user(&self) -> (r: u32)
        ensures
            r == self.spec_phy().spec_user(),
    {
        self.phy.user()
    }

    /// The CNTL bits as read back.
    pub fn phy_cntl(&self) -> (r: u8)
        ensures
            r == self.spec_phy().spec_cntl(),
    {
        self.phy.cntl()
    }

    /// The desired KEY.
    pub fn api_key(&self) -> (r: [u8; 32])
        ensures
            r@ == self.spec_key(),
    {
        self.key
    }

    /// The desired USER word.
    pub fn api_user(&self) -> (r: u32)
        ensures
            r == self.spec_user(),
    {
        self.user
    }

    /// The desired CNTL bits.
    pub fn api_cntl(&self) -> (r: u8)
        ensures
            r == self.spec_cntl(),
    {
        self.cntl
    }

    /// The physical value of bank `b`.
    pub fn phy_bank(&self, b: usize) -> (r: u32)
        requires
            b < 13,
        ensures
            r == self.spec_phy().spec_banks()[b as int],
    {
        self.phy.bank(b)
    }

    /// Records a readback in the snapshot (see `EfusePhy::fetch`); the
    /// desired configuration is left as it was.
    pub fn fetch(&mut self, key: [u8; 32], user: u32, cntl_raw: u32, coded: &[u32; 12])
        requires
            old(self).wf(),
        ensures
            final(self).wf(),
            final(self).spec_phy().spec_key() == key@,
            final(self).spec_phy().spec_user() == user,
            final(self).spec_phy().spec_cntl() == crate::phy::cntl_bits_spec(cntl_raw),
            final(self).spec_phy().spec_banks()[0] == dup_spec(
                crate::phy::cntl_bits_spec(cntl_raw),
            ),
            forall|b: int|
                1 <= b < 13 ==> final(self).spec_phy().spec_banks()[b] == coded[b - 1],
            final(self).spec_key() == old(self).spec_key(),
            final(self).spec_user() == old(self).spec_user(),
            final(self).spec_cntl() == old(self).spec_cntl(),
    {
        self.phy.fetch(key, user, cntl_raw, coded);
    }

    pub fn set_key(&mut self, new_key: [u8; 32])
        requires
            old(self).wf(),
        ensures
            final(self).wf(),
            final(self).spec_key() == new_key@,
            final(self).spec_user() == old(self).spec_user(),
            final(self).spec_cntl() == old(self).spec_cntl(),
            final(self).spec_phy() == old(self).spec_phy(),
    {
        self.key = new_key;
    }

    pub fn set_user(&mut self, new_user: u32)
        requires
            old(self).wf(),
        ensures
            final(self).wf(),
            final(self).spec_user() == new_user,
            final(self).spec_key() == old(self).spec_key(),
            final(self).spec_cntl() == old(self).spec_cntl(),
            final(self).spec_phy() == old(self).spec_phy(),
    {
        self.user = new_user;
    }

    pub fn set_cntl(&mut self, new_cntl: u8)
        requires
            old(self).wf(),
        ensures
            final(self).wf(),
            final(self).spec_cntl() == new_cntl,
            final(self).spec_key() == old(self).spec_key(),
            final(self).spec_user() == old(self).spec_user(),
            final(self).spec_phy() == old(self).spec_phy(),
    {
        self.cntl = new_cntl;
    }

    /// The raw words of the desired ECC banks: entry `j` is bank `j + 1`.
    /// The ECC-coded forms of these words are what `is_valid` and `burn` take.
    pub fn desired_raw_banks(&self) -> (r: [u32; 12])
        ensures
            forall|j: int|
                0 <= j < 12 ==> r[j] == raw_bank_spec(self.spec_key(), self.spec_user(), j + 1),
    {
        raw_banks(&self.key, self.user)
    }

    fn desired_bank(&self, coded: &[u32; 12], b: usize) -> (r: u32)
        requires
            b < 13,
        ensures
            r == desired_bank_spec(self.spec_cntl(), coded@, b as int),
    {
        if b == 0 {
            dup_cntl(self.cntl)
        } else {
            coded[b - 1]
        }
    }

    /// Whether every bank can reach its desired value by 0 to 1 flips only:
    /// false exactly when some bank has a 1 where its desired value has a 0.
    /// Bank 0 is compared by its six CNTL bits; `coded[j]` is the ECC-coded
    /// desired word of bank `j + 1`.
    pub fn is_valid(&self, coded: &[u32; 12]) -> (r: bool)
        ensures
            r == self.valid(coded@),
            !r <==> exists|b: int|
                0 <= b < 13 && !bank_ok(self.spec_phy().spec_banks(), self.spec_cntl(), coded@, b),
    {
        let mut valid: bool = true;
        let mut b: usize = 0;
        while b < FUSE_BANKS
            invariant
                b <= 13,
                valid == forall|i: int|
                    0 <= i < b ==> bank_ok(
                        self.spec_phy().spec_banks(),
                        self.spec_cntl(),
                        coded@,
                        i,
                    ),
            decreases 13 - b,
        {
            let p: u32 = self.phy.bank(b);
            let compared: u32 = if b == 0 {
                p & CNTL_MASK
            } else {
                p
            };
            let ok: bool = bank_keeps_ones(compared, self.desired_bank(coded, b));
            assert(ok == bank_ok(self.spec_phy().spec_banks(), self.spec_cntl(), coded@, b as int));
            valid = valid && ok;
            b += 1;
        }
        valid
    }

    /// The bits to burn in each bank: those that are 0 in the physical value
    /// and 1 in the desired one.
    pub fn burn_masks(&self, coded: &[u32; 12]) -> (r: [u32; 13])
        ensures
            r@ == self.masks(coded@),
    {
        let mut r: [u32; 13] = [0u32; 13];
        let mut b: usize = 0;
        while b < FUSE_BANKS
            invariant
                b <= 13,
                forall|i: int| 0 <= i < b ==> r[i] == self.masks(coded@)[i],
            decreases 13 - b,
        {
            r[b] = bank_delta(self.phy.bank(b), self.desired_bank(coded, b));
            b += 1;
        }
        assert(r@ =~= self.masks(coded@));
        r
    }

    /// The command list that burns the desired configuration, to be run after
    /// a TAP reset; `None`, with nothing to run, when the configuration is not
    /// valid. Banks are burned from 12 down to 1, bank 0 last, each with the
    /// bits that are 0 in its physical and 1 in its desired value; the commit
    /// sequence follows.
    pub fn burn(&self, coded: &[u32; 12]) -> (r: Option<Vec<JtagCmd>>)
        ensures
            r is None <==> !self.valid(coded@),
            r matches Some(v) ==> v@ == burn_plan_spec(self.masks(coded@)),
    {
        if !self.is_valid(coded) {
            return None;
        }
        let masks = self.burn_masks(coded);
        let mut out: Vec<JtagCmd> = Vec::new();
        let mut n: usize = 0;
        while n < FUSE_BANKS
            invariant
                n <= 13,
                masks@ == self.masks(coded@),
                out@ == banks_upto(masks@, n as int),
            decreases 13 - n,
        {
            push_burn_bank(&mut out, 12 - n, masks[12 - n]);
            n += 1;
        }
        push_commit(&mut out);
        Some(out)
    }
}

} // verus!
