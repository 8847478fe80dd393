use efuse_api::api::EfuseApi;
use efuse_api::jtag_cmd::{
    bank_select, fetch_commands, last_response, JtagChain, JtagCmd, CMD_FUSE_CNTL, CMD_FUSE_KEY,
    CMD_FUSE_USER,
};
use efuse_api::layout::{bank_delta, bank_keeps_ones, dup_cntl, raw_bank, raw_banks};

/// A stand-in for the device's ECC codec: the raw word with its bit count
/// in bits 24 and up. Deterministic, which is all the library relies on.
fn sample_code(raw: u32) -> u32 {
    raw | ((raw.count_ones() & 0x3F) << 24)
}

fn code_all(raw: [u32; 12]) -> [u32; 12] {
    let mut out = [0u32; 12];
    for j in 0..12 {
        out[j] = sample_code(raw[j]);
    }
    out
}

fn cmd(chain: JtagChain, bits: usize, value: u64) -> JtagCmd {
    JtagCmd { chain, bits, value }
}

fn sample_key() -> [u8; 32] {
    let mut key = [0u8; 32];
    for i in 0..32 {
        key[i] = (i as u8) * 7 + 1;
    }
    key
}

fn fetched(key: [u8; 32], user: u32, cntl_raw: u32) -> EfuseApi {
    let mut api = EfuseApi::new();
    let coded = code_all(raw_banks(&key, user));
    api.fetch(key, user, cntl_raw, &coded);
    api
}

fn commit_len() -> usize {
    22
}

#[test]
fn jtag_fetch() {
    let mut efuse = EfuseApi::new();
    let key = [0u8; 32];
    let coded = code_all(raw_banks(&key, 0));
    efuse.fetch(key, 0, 0, &coded);
    assert_eq!(efuse.phy_key(), [0u8; 32]);
    assert_eq!(efuse.phy_user(), 0);
    assert_eq!(efuse.phy_cntl(), 0);
    for b in 0..13 {
        assert_eq!(efuse.phy_bank(b), 0);
    }
}

#[test]
fn fetch_round_trip() {
    let key = sample_key();
    let api = fetched(key, 0x1234_5678, 0x3FC5);
    assert_eq!(api.phy_key(), key);
    assert_eq!(api.phy_user(), 0x1234_5678);
    assert_eq!(api.phy_cntl(), 0x05);
    assert_eq!(api.phy_bank(0), 0x05 | (0x05 << 14));
    // bank 1: key[2] key[1] key[0] = 15, 8, 1
    assert_eq!(api.phy_bank(1), sample_code(0x0F_08_01));
    // bank 10: key[29] key[28] key[27] = 204, 197, 190
    assert_eq!(api.phy_bank(10), sample_code(0xCC_C5_BE));
    // bank 11: user low byte, key[31] = 218, key[30] = 211
    assert_eq!(api.phy_bank(11), sample_code(0x78_DA_D3));
    // bank 12: upper 24 bits of user
    assert_eq!(api.phy_bank(12), sample_code(0x12_34_56));
}

#[test]
fn raw_bank_packing() {
    let key = sample_key();
    assert_eq!(raw_bank(&key, 0xAABBCCDD, 1), 0x0F_08_01);
    assert_eq!(raw_bank(&key, 0xAABBCCDD, 5), 0x63_5C_55);
    assert_eq!(raw_bank(&key, 0xAABBCCDD, 11), 0xDD_DA_D3);
    assert_eq!(raw_bank(&key, 0xAABBCCDD, 12), 0xAA_BB_CC);
    let all = raw_banks(&key, 0xAABBCCDD);
    for b in 1..13 {
        assert_eq!(all[b - 1], raw_bank(&key, 0xAABBCCDD, b));
    }
}

#[test]
fn fetch_command_list() {
    let cmds = fetch_commands();
    assert_eq!(
        cmds,
        vec![
            cmd(JtagChain::IR, 6, CMD_FUSE_KEY),
            cmd(JtagChain::DR, 256, 0),
            cmd(JtagChain::IR, 6, CMD_FUSE_USER),
            cmd(JtagChain::DR, 32, 0),
            cmd(JtagChain::IR, 6, CMD_FUSE_CNTL),
            cmd(JtagChain::DR, 14, 0),
        ]
    );
    assert_eq!(CMD_FUSE_USER, 0b110011);
    assert_eq!(CMD_FUSE_KEY, 0b110001);
    assert_eq!(CMD_FUSE_CNTL, 0b110100);
}

#[test]
fn unchanged_configuration_is_valid() {
    let key = sample_key();
    let mut api = fetched(key, 0x1234_5678, 0x15);
    api.set_key(key);
    api.set_user(0x1234_5678);
    api.set_cntl(0x15);
    let coded = code_all(api.desired_raw_banks());
    assert!(api.is_valid(&coded));
    assert_eq!(api.burn_masks(&coded), [0u32; 13]);
    let plan = api.burn(&coded).unwrap();
    assert_eq!(plan.len(), commit_len());
    assert_eq!(plan[0], cmd(JtagChain::DR, 64, 0xff000000ff));
    assert_eq!(plan[21], cmd(JtagChain::DR, 36, 0));
}

#[test]
fn cleared_bit_is_invalid() {
    let key = sample_key();
    let mut api = fetched(key, 0, 0);
    let mut desired = key;
    desired[12] = 0; // bank 5 loses ones that are burned
    api.set_key(desired);
    let coded = code_all(api.desired_raw_banks());
    assert!(!api.is_valid(&coded));
    desired[12] = key[12] | 0x80; // only adds ones in the raw word
    api.set_key(desired);
    let coded = code_all(api.desired_raw_banks());
    let expect = (sample_code(raw_bank(&key, 0, 5)) ^ coded[4]) & sample_code(raw_bank(&key, 0, 5)) == 0;
    assert_eq!(api.is_valid(&coded), expect);
}

#[test]
fn cntl_bits_checked_on_low_six() {
    let mut api = fetched([0u8; 32], 0, 0b000011);
    let coded = code_all(api.desired_raw_banks());
    api.set_cntl(0b000001);
    assert!(!api.is_valid(&coded));
    api.set_cntl(0b000111);
    assert!(api.is_valid(&coded));
}

#[test]
fn invalid_burn_issues_nothing() {
    let mut api = fetched([0u8; 32], 0x100, 0);
    api.set_user(0);
    let coded = code_all(api.desired_raw_banks());
    assert!(!api.is_valid(&coded));
    assert!(api.burn(&coded).is_none());
}

#[test]
fn burn_mask_exact_bits() {
    let mut api = fetched([0u8; 32], 0x0000_0100, 0);
    api.set_user(0x0000_0300);
    let coded = code_all(api.desired_raw_banks());
    // bank 12 goes from code(0x01) = 0x01000001 to code(0x03) = 0x02000003
    assert_eq!(api.phy_bank(12), 0x0100_0001);
    assert_eq!(coded[11], 0x0200_0003);
    assert!(!api.is_valid(&coded));
    api.set_user(0x0000_0700);
    let coded = code_all(api.desired_raw_banks());
    // code(0x07) = 0x03000007: new ones are bits 1, 2 and 25
    assert!(api.is_valid(&coded));
    let masks = api.burn_masks(&coded);
    assert_eq!(masks[12], 0x0200_0006);
    assert_eq!(masks[12] & api.phy_bank(12), 0);
    assert_eq!(bank_delta(0b1010, 0b1110), 0b0100);
    assert!(bank_keeps_ones(0b1010, 0b1110));
    assert!(!bank_keeps_ones(0b1010, 0b0110));
}

#[test]
fn cntl_duplication() {
    let mut api = fetched([0u8; 32], 0, 0b000000);
    api.set_cntl(0b000101);
    let coded = code_all(api.desired_raw_banks());
    assert!(api.is_valid(&coded));
    let masks = api.burn_masks(&coded);
    assert_eq!(masks[0], 0b000101 | (0b000101 << 14));
    assert_eq!(dup_cntl(0b000101), 0b000101 | (0b000101 << 14));
}

#[test]
fn shared_bank_scenario() {
    // physical: key[30] = key[31] = 0, user = 1, so bank 11 is code(0x010000)
    let mut api = fetched([0u8; 32], 0x0000_0001, 0);
    assert_eq!(sample_code(0x01_00_00), 0x0101_0000);
    assert_eq!(api.phy_bank(11), 0x0101_0000);
    let mut key = [0u8; 32];
    key[31] = 0x02;
    api.set_key(key);
    api.set_user(0x0000_0003);
    let coded = code_all(api.desired_raw_banks());
    // desired bank 11 is code(0x030200) = 0x03030200: every physical one kept
    assert_eq!(coded[10], 0x0303_0200);
    assert_eq!((0x0101_0000u32 ^ 0x0303_0200u32) & 0x0101_0000u32, 0);
    assert!(api.is_valid(&coded));
    // desired user 2: code(0x020200) = 0x02020200 drops bits 16 and 24
    api.set_user(0x0000_0002);
    let coded = code_all(api.desired_raw_banks());
    assert_eq!(coded[10], 0x0202_0200);
    assert_ne!((0x0101_0000u32 ^ 0x0202_0200u32) & 0x0101_0000u32, 0);
    assert!(!api.is_valid(&coded));
}

#[test]
fn burn_plan_one_bank() {
    let mut api = fetched([0u8; 32], 0, 0);
    let mut key = [0u8; 32];
    key[0] = 0x01;
    api.set_key(key);
    let coded = code_all(api.desired_raw_banks());
    // bank 1 becomes code(0x000001) = 0x01000001: bits 0 and 24
    assert_eq!(coded[0], 0x0100_0001);
    let plan = api.burn(&coded).unwrap();
    let frame = vec![
        cmd(JtagChain::IR, 6, 0b001100),
        cmd(JtagChain::IR, 6, 0b110000),
        cmd(JtagChain::DR, 64, 0xa08a28ac00004001),
        cmd(JtagChain::DR, 64, 0xa08a28ac00004001),
        cmd(JtagChain::IR, 6, 0b110000),
        cmd(JtagChain::DR, 64, 0xa08a28ac000000a1),
        cmd(JtagChain::DR, 64, 0),
    ];
    let mut expect = frame.clone();
    expect.push(cmd(JtagChain::IR, 6, 0b110000));
    expect.push(cmd(JtagChain::DR, 64, 0x8a28ac000040a300));
    expect.push(cmd(JtagChain::DR, 64, 0));
    expect.push(cmd(JtagChain::IR, 6, 0b110000));
    expect.push(cmd(JtagChain::DR, 64, 0x8a28ac000040bb00));
    expect.push(cmd(JtagChain::DR, 64, 0));
    expect.extend(frame);
    assert_eq!(plan.len(), expect.len() + commit_len());
    assert_eq!(plan[..expect.len()].to_vec(), expect);
    assert_eq!(plan[expect.len()], cmd(JtagChain::DR, 64, 0xff000000ff));
}

#[test]
fn cntl_bank_burned_last() {
    let mut api = fetched([0u8; 32], 0, 0);
    api.set_cntl(0b000001);
    api.set_user(0x0000_0100);
    let coded = code_all(api.desired_raw_banks());
    let plan = api.burn(&coded).unwrap();
    // bank 12 (select 0xF9) comes first, bank 0 (select 0x99) last
    assert_eq!(plan[5], cmd(JtagChain::DR, 64, 0xa08a28ac000000f9));
    let selects: Vec<u64> = plan
        .iter()
        .filter(|c| c.chain == JtagChain::DR && c.bits == 64 && c.value >> 8 == 0xa08a28ac000000)
        .map(|c| c.value & 0xFF)
        .collect();
    assert_eq!(selects, vec![0xF9, 0xF9, 0x99, 0x99]);
}

#[test]
fn bank_select_bytes() {
    assert_eq!(bank_select(1), 0xA1);
    assert_eq!(bank_select(2), 0xA9);
    assert_eq!(bank_select(12), 0xF9);
    assert_eq!(bank_select(0), 0x99);
}

#[test]
fn last_captured_response() {
    assert_eq!(last_response(&vec![]), 0);
    assert_eq!(last_response(&vec![None]), 0);
    assert_eq!(last_response(&vec![Some(1), None, Some(5), None]), 5);
    assert_eq!(last_response(&vec![Some(7)]), 7);
}

#[test]
fn setters_and_getters() {
    let mut api = EfuseApi::new();
    let key = sample_key();
    api.set_key(key);
    api.set_user(0xDEAD_BEEF);
    api.set_cntl(0x2A);
    assert_eq!(api.api_key(), key);
    assert_eq!(api.api_user(), 0xDEAD_BEEF);
    assert_eq!(api.api_cntl(), 0x2A);
    assert_eq!(api.phy_key(), [0u8; 32]);
    assert_eq!(api.phy_user(), 0);
    assert_eq!(api.phy_cntl(), 0);
}
