use aptos_token_client::encoding::{
    encode_address, encode_bools, encode_str, encode_strings, encode_u64,
};
use aptos_token_client::module_client::ModuleClient;
use aptos_token_client::{get_hex_address_three, Address};

#[test]
fn u64_is_eight_little_endian_bytes() {
    assert_eq!(encode_u64(1), vec![1, 0, 0, 0, 0, 0, 0, 0]);
    assert_eq!(
        encode_u64(0x0102_0304_0506_0708),
        vec![8, 7, 6, 5, 4, 3, 2, 1]
    );
    assert_eq!(encode_u64(u64::MAX), vec![0xff; 8]);
}

#[test]
fn string_is_length_then_utf8() {
    assert_eq!(encode_str("ab"), Some(vec![2, b'a', b'b']));
    assert_eq!(encode_str(""), Some(vec![0]));
    assert_eq!(encode_str("é"), Some(vec![2, 0xc3, 0xa9]));
}

#[test]
fn long_string_length_takes_two_bytes() {
    let s = "x".repeat(200);
    let b = encode_str(&s).unwrap();
    assert_eq!(b.len(), 202);
    assert_eq!(b[0], 0xc8);
    assert_eq!(b[1], 0x01);
    assert_eq!(&b[2..], s.as_bytes());
}

#[test]
fn bools_are_length_then_one_byte_each() {
    assert_eq!(encode_bools(&vec![true, false, true]), Some(vec![3, 1, 0, 1]));
    assert_eq!(encode_bools(&vec![]), Some(vec![0]));
}

#[test]
fn strings_are_length_then_each_string() {
    let v = vec!["a".to_string(), "bc".to_string()];
    assert_eq!(encode_strings(&v), Some(vec![2, 1, b'a', 2, b'b', b'c']));
    assert_eq!(encode_strings(&vec![]), Some(vec![0]));
}

#[test]
fn address_is_its_bytes() {
    let mut bytes = [0u8; 32];
    for (i, b) in bytes.iter_mut().enumerate() {
        *b = i as u8;
    }
    assert_eq!(encode_address(&Address::new(bytes)), bytes.to_vec());
}

#[test]
fn address_three_is_zero_but_last_byte() {
    let a = get_hex_address_three();
    let mut expected = [0u8; 32];
    expected[31] = 3;
    assert_eq!(a.bytes, expected);
}

#[test]
fn module_name_must_be_an_identifier() {
    let a = get_hex_address_three();
    let c = ModuleClient::new(4, a, "token").unwrap();
    assert_eq!(c.module.name, "token");
    assert_eq!(c.chain_id, 4);
    assert!(ModuleClient::new(4, a, "not a name").is_none());
    assert!(ModuleClient::new(4, a, "").is_none());
    assert!(ModuleClient::new(4, a, "9lives").is_none());
    assert!(ModuleClient::new(4, a, "_under_score9").is_some());
}
