use felidae_dao::base58::{convert_string_to_accountid, try_convert_string_to_accountid};
use felidae_dao::text::timestamp_text;
use felidae_dao::AccountId;

#[test]
fn timestamps_render_as_decimal() {
    for n in [0u64, 7, 10, 99, 100, 1_700_000_000, u64::MAX] {
        assert_eq!(timestamp_text(n), n.to_string());
    }
}

const ALICE_SS58: &str = "5GrwvaEF5zXb26Fz9rcQpDWS57CtERHpNehXCPcNoHGKutQY";
const ALICE_KEY: [u8; 32] = [
    0xd4, 0x35, 0x93, 0xc7, 0x15, 0xfd, 0xd3, 0x1c, 0x61, 0x14, 0x1a, 0xbd, 0x04, 0xa9, 0x9f, 0xd6,
    0x82, 0x2c, 0x85, 0x58, 0x85, 0x4c, 0xcd, 0xe3, 0x9a, 0x56, 0x84, 0xe7, 0xa5, 0x6d, 0xa2, 0x7d,
];

#[test]
fn ss58_address_gives_the_account_key() {
    assert_eq!(convert_string_to_accountid(ALICE_SS58), AccountId(ALICE_KEY));
    assert_eq!(try_convert_string_to_accountid(ALICE_SS58), Some(AccountId(ALICE_KEY)));
}

#[test]
fn short_text_is_padded_with_ff() {
    // "2" decodes to the single byte 1; "11" to two zero bytes
    assert_eq!(convert_string_to_accountid("2"), AccountId([0xFF; 32]));
    let mut expected = [0xFF; 32];
    expected[0] = 0;
    assert_eq!(convert_string_to_accountid("11"), AccountId(expected));
}

#[test]
fn non_base58_or_too_long_text_is_refused() {
    assert_eq!(try_convert_string_to_accountid("0OIl"), None);
    let long = "z".repeat(60);
    assert_eq!(try_convert_string_to_accountid(&long), None);
}

#[test]
fn accounts_compare_by_bytes() {
    let mut b = [3u8; 32];
    assert_eq!(AccountId(b), AccountId([3; 32]));
    b[31] = 4;
    assert_ne!(AccountId(b), AccountId([3; 32]));
}

#[test]
fn account_is_cut_from_buffer_bytes_one_to_thirty_two() {
    let mut buffer = [0u8; 35];
    for (i, b) in buffer.iter_mut().enumerate() {
        *b = i as u8;
    }
    let mut expected = [0u8; 32];
    for (i, b) in expected.iter_mut().enumerate() {
        *b = (i + 1) as u8;
    }
    assert_eq!(felidae_dao::base58::account_from_buffer(&buffer), AccountId(expected));
}
