//! JTAG shift commands as plain values, and the fixed command sequences of
//! the eFuse protocol. A transport outside this library performs them.
use vstd::prelude::*;

verus! {

/// The register chain a shift goes through.
#[derive(Clone, Copy, Debug, PartialEq, Eq, Structural)]
pub enum JtagChain {
    /// Instruction register.
    IR,
    /// Data register.
    DR,
}

/// One shift request: `bits` bits of `value` (zero-extended, least
/// significant bit first) through `chain`.
#[derive(Clone, Copy, Debug, PartialEq, Eq, Structural)]
pub struct JtagCmd {
    pub chain: JtagChain,
    pub bits: usize,
    pub value: u64,
}

/// Instruction that selects the USER fuse readback.
pub const CMD_FUSE_USER: u64 = 0b110011;
/// Instruction that selects the KEY fuse readback.
pub const CMD_FUSE_KEY: u64 = 0b110001;
/// Instruction that selects the CNTL fuse readback.
pub const CMD_FUSE_CNTL: u64 = 0b110100;
/// Instruction that starts the device.
pub const CMD_JSTART: u64 = 0b001100;
/// Instruction that selects eFuse programming.
pub const CMD_EFUSE: u64 = 0b110000;
/// Data word that unlocks bank programming.
pub const KEY_UNLOCK: u64 = 0xa08a28ac00004001;
/// Base data word of the bank-select command.
pub const KEY_BANK: u64 = 0xa08a28ac00000000;
/// Base data word of the single-bit burn command.
pub const KEY_BIT: u64 = 0xa08a28ac00004000;

pub open spec fn cmd(chain: JtagChain, bits: usize, value: u64) -> JtagCmd {
    JtagCmd { chain, bits, value }
}

/// The bank-select byte of bank `b`: `(b - 1) * 8 + 0xA1` modulo 256.
pub open spec fn bank_select_spec(b: int) -> u8 {
    ((b * 8 + 0x99) % 256) as u8
}

/// The word-select byte of bank `b`: the bank-select byte with bit 1 set.
pub open spec fn word_select_spec(b: int) -> u8 {
    bank_select_spec(b) | 2u8
}

/// Data word that burns fuse bit `i` of the bank chosen by word-select byte `ws`.
pub open spec fn bit_word_spec(ws: u8, i: u64) -> u64 {
    (((KEY_BIT | ws as u64) + i) as u64) << 8u64
}

/// The unlock and bank-select framing that opens and closes bank `b`.
pub open spec fn bank_frame_spec(b: int) -> Seq<JtagCmd> {
    seq![
        cmd(JtagChain::IR, 6, CMD_JSTART),
        cmd(JtagChain::IR, 6, CMD_EFUSE),
        cmd(JtagChain::DR, 64, KEY_UNLOCK),
        cmd(JtagChain::DR, 64, KEY_UNLOCK),
        cmd(JtagChain::IR, 6, CMD_EFUSE),
        cmd(JtagChain::DR, 64, KEY_BANK | bank_select_spec(b) as u64),
        cmd(JtagChain::DR, 64, 0),
    ]
}

/// The commands that burn fuse bit `i` under word-select byte `ws`, with the
/// wait for completion.
pub open spec fn bit_burn_spec(ws: u8, i: u64) -> Seq<JtagCmd> {
    seq![
        cmd(JtagChain::IR, 6, CMD_EFUSE),
        cmd(JtagChain::DR, 64, bit_word_spec(ws, i)),
        cmd(JtagChain::DR, 64, 0),
    ]
}

/// The fixed sequence that latches a burned configuration.
pub open spec fn commit_spec() -> Seq<JtagCmd> {
    seq![
        cmd(JtagChain::DR, 64, 0xff000000ff),
        cmd(JtagChain::IR, 6, 0b000010),
        cmd(JtagChain::DR, 32, 0),
        cmd(JtagChain::IR, 6, 0b000010),
        cmd(JtagChain::DR, 17, 0xF000),
        cmd(JtagChain::DR, 75, 0xA9),
        cmd(JtagChain::IR, 6, 0b100010),
        cmd(JtagChain::DR, 17, 0xF000),
        cmd(JtagChain::DR, 75, 0xA9),
        cmd(JtagChain::IR, 6, 0b111111),
        cmd(JtagChain::IR, 6, 0b000011),
        cmd(JtagChain::DR, 32, 0),
        cmd(JtagChain::IR, 6, 0b111111),
        cmd(JtagChain::IR, 6, 0b000011),
        cmd(JtagChain::DR, 42, 0x69),
        cmd(JtagChain::IR, 6, 0b111111),
        cmd(JtagChain::IR, 6, 0b000011),
        cmd(JtagChain::DR, 6, 0xC),
        cmd(JtagChain::DR, 42, 0x69),
        cmd(JtagChain::IR, 6, 0b111111),
        cmd(JtagChain::IR, 6, 0b000011),
        cmd(JtagChain::DR, 36, 0),
    ]
}

/// The readback sequence of the fuses, to be run after a TAP reset: KEY
/// instruction and 256-bit capture, USER instruction and 32-bit capture, CNTL
/// instruction and 14-bit capture.
pub open spec fn fetch_spec() -> Seq<JtagCmd> {
    seq![
        cmd(JtagChain::IR, 6, CMD_FUSE_KEY),
        cmd(JtagChain::DR, 256, 0),
        cmd(JtagChain::IR, 6, CMD_FUSE_USER),
        cmd(JtagChain::DR, 32, 0),
        cmd(JtagChain::IR, 6, CMD_FUSE_CNTL),
        cmd(JtagChain::DR, 14, 0),
    ]
}

/// The value of the last response that was captured, or 0 where none was.
pub open spec fn last_response_spec(rs: Seq<Option<u128>>) -> u128
    decreases rs.len(),
{
    if rs.len() == 0 {
        0
    } else {
        match rs.last() {
            Some(v) => v,
            None => last_response_spec(rs.drop_last()),
        }
    }
}

fn push_cmd(out: &mut Vec<JtagCmd>, chain: JtagChain, bits: usize, value: u64)
    ensures
        final(out)@ == old(out)@.push(cmd(chain, bits, value)),
{
    out.push(JtagCmd { chain, bits, value });
}

/// The bank-select byte of bank `b`.
pub fn bank_select(b: usize) -> (r: u8)
    requires
        b <= 12,
    ensures
        r == bank_select_spec(b as int),
{
    (b * 8 + 0x99) as u8
}

/// Appends the framing that opens or closes bank `b`.
pub fn push_bank_frame(out: &mut Vec<JtagCmd>, b: usize)
    requires
        b <= 12,
    ensures
        final(out)@ == old(out)@ + bank_frame_spec(b as int),
{
    let sel = bank_select(b);
    push_cmd(out, JtagChain::IR, 6, CMD_JSTART);
    push_cmd(out, JtagChain::IR, 6, CMD_EFUSE);
    push_cmd(out, JtagChain::DR, 64, KEY_UNLOCK);
    push_cmd(out, JtagChain::DR, 64, KEY_UNLOCK);
    push_cmd(out, JtagChain::IR, 6, CMD_EFUSE);
    push_cmd(out, JtagChain::DR, 64, KEY_BANK | sel as u64);
    push_cmd(out, JtagChain::DR, 64, 0);
    assert(final(out)@ =~= old(out)@ + bank_frame_spec(b as int));
}

/// Appends the commands that burn bit `i` under word-select byte `ws`.
pub fn push_bit_burn(out: &mut Vec<JtagCmd>, ws: u8, i: u64)
    requires
        i < 32,
    ensures
        final(out)@ == old(out)@ + bit_burn_spec(ws, i),
{
    let w: u64 = ws as u64;
    assert(w <= 255 ==> (0xa08a28ac00004000u64 | w) <= 0xa08a28ac000040ffu64) by (bit_vector);
    let word: u64 = ((KEY_BIT | w) + i) << 8u64;
    push_cmd(out, JtagChain::IR, 6, CMD_EFUSE);
    push_cmd(out, JtagChain::DR, 64, word);
    push_cmd(out, JtagChain::DR, 64, 0);
    assert(final(out)@ =~= old(out)@ + bit_burn_spec(ws, i));
}

/// Appends the commit sequence.
pub fn push_commit(out: &mut Vec<JtagCmd>)
    ensures
        final(out)@ == old(out)@ + commit_spec(),
{
    push_cmd(out, JtagChain::DR, 64, 0xff000000ff);
    push_cmd(out, JtagChain::IR, 6, 0b000010);
    push_cmd(out, JtagChain::DR, 32, 0);
    push_cmd(out, JtagChain::IR, 6, 0b000010);
    push_cmd(out, JtagChain::DR, 17, 0xF000);
    push_cmd(out, JtagChain::DR, 75, 0xA9);
    push_cmd(out, JtagChain::IR, 6, 0b100010);
    push_cmd(out, JtagChain::DR, 17, 0xF000);
    push_cmd(out, JtagChain::DR, 75, 0xA9);
    push_cmd(out, JtagChain::IR, 6, 0b111111);
    push_cmd(out, JtagChain::IR, 6, 0b000011);
    push_cmd(out, JtagChain::DR, 32, 0);
    push_cmd(out, JtagChain::IR, 6, 0b111111);
    push_cmd(out, JtagChain::IR, 6, 0b000011);
    push_cmd(out, JtagChain::DR, 42, 0x69);
    push_cmd(out, JtagChain::IR, 6, 0b111111);
    push_cmd(out, JtagChain::IR, 6, 0b000011);
    push_cmd(out, JtagChain::DR, 6, 0xC);
    push_cmd(out, JtagChain::DR, 42, 0x69);
    push_cmd(out, JtagChain::IR, 6, 0b111111);
    push_cmd(out, JtagChain::IR, 6, 0b000011);
    push_cmd(out, JtagChain::DR, 36, 0);
    assert(final(out)@ =~= old(out)@ + commit_spec());
}

/// The readback commands of the fuses; the transport resets the TAP first.
pub fn fetch_commands() -> (r: Vec<JtagCmd>)
    ensures
        r@ == fetch_spec(),
{
    let mut out: Vec<JtagCmd> = Vec::new();
    push_cmd(&mut out, JtagChain::IR, 6, CMD_FUSE_KEY);
    push_cmd(&mut out, JtagChain::DR, 256, 0);
    push_cmd(&mut out, JtagChain::IR, 6, CMD_FUSE_USER);
    push_cmd(&mut out, JtagChain::DR, 32, 0);
    push_cmd(&mut out, JtagChain::IR, 6, CMD_FUSE_CNTL);
    push_cmd(&mut out, JtagChain::DR, 14, 0);
    assert(out@ =~= fetch_spec());
    out
}

/// Of the responses captured while a command list was drained, in order, the
/// value of the last one present, or 0 where none was.
pub fn last_response(rs: &Vec<Option<u128>>) -> (r: u128)
    ensures
        r == last_response_spec(rs@),
{
    let mut ret: u128 = 0;
    let mut i: usize = 0;
    while i < rs.len()
        invariant
            i <= rs.len(),
            ret == last_response_spec(rs@.subrange(0, i as int)),
        decreases rs.len() - i,
    {
        assert(rs@.subrange(0, i as int) =~= rs@.subrange(0, i as int + 1).drop_last());
        if let Some(v) = rs[i] {
            ret = v;
        }
        i += 1;
    }
    assert(rs@.subrange(0, i as int) =~= rs@);
    ret
}

} // verus!
