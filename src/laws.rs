//! Properties of validation and burn planning, proved over the contracts of
//! `api` and `layout`.
use vstd::prelude::*;
use crate::api::{bank_ok, bit_set, desired_bank_spec, valid_spec, EfuseApi};
use crate::layout::{delta_spec, dup_spec, keeps_ones};

verus! {

/// A burn mask holds exactly the bits that are 0 in the physical value `p`
/// and 1 in the desired value `d`: never a bit that is already 1.
pub proof fn lemma_delta_exact(p: u32, d: u32, i: u32)
    requires
        i < 32,
    ensures
        bit_set(delta_spec(p, d), i) <==> (!bit_set(p, i) && bit_set(d, i)),
        delta_spec(p, d) & p == 0,
        delta_spec(p, d) == d & !p,
{
    assert(((((p ^ d) & d) >> i) & 1u32 == 1u32) <==> (!((p >> i) & 1u32 == 1u32) && (d >> i)
        & 1u32 == 1u32)) by (bit_vector)
        requires
            i < 32,
    ;
    assert(((p ^ d) & d) & p == 0) by (bit_vector);
    assert((p ^ d) & d == d & !p) by (bit_vector);
}

/// Where a bank can reach its desired value, burning its mask gives exactly
/// that value.
pub proof fn lemma_burn_reaches(p: u32, d: u32)
    requires
        keeps_ones(p, d),
    ensures
        p | delta_spec(p, d) == d,
{
    assert((p ^ d) & p == 0 ==> p | ((p ^ d) & d) == d) by (bit_vector);
}

/// A desired configuration whose banks, once coded, equal the physical
/// banks is valid.
pub proof fn lemma_unchanged_is_valid(banks: Seq<u32>, cntl: u8, coded: Seq<u32>)
    requires
        forall|b: int| 0 <= b < 13 ==> desired_bank_spec(cntl, coded, b) == banks[b],
    ensures
        valid_spec(banks, cntl, coded),
{
    assert forall|b: int| 0 <= b < 13 implies bank_ok(banks, cntl, coded, b) by {
        let p = banks[b];
        assert(keeps_ones(p, p)) by (bit_vector);
        assert(keeps_ones(p & 0x3F, p)) by (bit_vector);
    }
}

/// A desired configuration equal to what is burned is valid: same CNTL bits,
/// and ECC-coded words equal to the physical banks 1 to 12.
pub proof fn lemma_burned_config_is_valid(api: EfuseApi, coded: Seq<u32>)
    requires
        api.wf(),
        api.spec_cntl() == api.spec_phy().spec_cntl(),
        forall|j: int| 0 <= j < 12 ==> coded[j] == api.spec_phy().spec_banks()[j + 1],
    ensures
        api.valid(coded),
{
    lemma_unchanged_is_valid(api.spec_phy().spec_banks(), api.spec_cntl(), coded);
}

/// With a fetched snapshot, the burn mask of bank 0 is the duplicated form
/// of the CNTL bits that are wanted and not yet burned.
pub proof fn lemma_cntl_mask(api: EfuseApi, coded: Seq<u32>)
    requires
        api.wf(),
    ensures
        api.masks(coded)[0] == dup_spec(api.spec_cntl() & !api.spec_phy().spec_cntl()),
{
    let c: u8 = api.spec_cntl();
    let c0: u8 = api.spec_phy().spec_cntl();
    let cw: u32 = c as u32;
    let c0w: u32 = c0 as u32;
    let nw: u32 = (c & !c0) as u32;
    assert(nw == cw & !c0w) by (bit_vector)
        requires
            nw == (c & !c0) as u32,
            cw == c as u32,
            c0w == c0 as u32,
    ;
    assert(cw < 256 && c0w < 256 ==> (((c0w | (c0w << 14u32)) ^ (cw | (cw << 14u32))) & (cw | (cw
        << 14u32))) == ((cw & !c0w) | ((cw & !c0w) << 14u32))) by (bit_vector);
}

} // verus!
