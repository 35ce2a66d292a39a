use celo_faucet::num::{parse_dec_u128, parse_dec_u64, parse_hex_u128, parse_hex_u64, quantity_hex};
use celo_faucet::rlp::{be_min_bytes, rlp_append_uint, rlp_wrap_list, trim_leading_zeros};

#[test]
fn parse_hex_simple() {
    assert_eq!(parse_hex_u64("0x5"), Some(5));
    assert_eq!(parse_hex_u64("0x1f"), Some(31));
    assert_eq!(parse_hex_u64("ff"), Some(255));
    assert_eq!(parse_hex_u64("0xDeadBeef"), Some(0xdead_beef));
}

#[test]
fn parse_hex_rejects() {
    assert_eq!(parse_hex_u64("0x"), None);
    assert_eq!(parse_hex_u64(""), None);
    assert_eq!(parse_hex_u64("0xzz"), None);
    assert_eq!(parse_hex_u64("0x 5"), None);
    assert_eq!(parse_hex_u64("0x10000000000000000"), None);
    assert_eq!(parse_hex_u128("0x100000000000000000000000000000000"), None);
}

#[test]
fn parse_hex_strips_repeated_markers() {
    assert_eq!(parse_hex_u64("0x0x10"), Some(16));
    assert_eq!(parse_hex_u128("0x0x0xa"), Some(10));
}

#[test]
fn parse_hex_u64_range_boundary() {
    assert_eq!(parse_hex_u64("0xffffffffffffffff"), Some(u64::MAX));
    assert_eq!(parse_hex_u128("0xffffffffffffffffffffffffffffffff"), Some(u128::MAX));
}

#[test]
fn parse_dec_simple() {
    assert_eq!(parse_dec_u128("1000000000000000000"), Some(1_000_000_000_000_000_000));
    assert_eq!(parse_dec_u64("42220"), Some(42220));
    assert_eq!(parse_dec_u128("0"), Some(0));
}

#[test]
fn parse_dec_rejects() {
    assert_eq!(parse_dec_u128(""), None);
    assert_eq!(parse_dec_u128("12a"), None);
    assert_eq!(parse_dec_u128("-5"), None);
    assert_eq!(parse_dec_u128("340282366920938463463374607431768211456"), None);
    assert_eq!(parse_dec_u64("18446744073709551616"), None);
}

#[test]
fn quantity_hex_renders() {
    assert_eq!(quantity_hex(0).as_str(), "0x0");
    assert_eq!(quantity_hex(31).as_str(), "0x1f");
    assert_eq!(quantity_hex(1_000_000_000_000_000_000).as_str(), "0xde0b6b3a7640000");
    assert_eq!(quantity_hex(20_000_000_000).as_str(), "0x4a817c800");
}

#[test]
fn be_min_bytes_minimal() {
    assert_eq!(be_min_bytes(0), Vec::<u8>::new());
    assert_eq!(be_min_bytes(1), vec![1]);
    assert_eq!(be_min_bytes(256), vec![1, 0]);
    assert_eq!(be_min_bytes(0xdead), vec![0xde, 0xad]);
}

#[test]
fn rlp_uint_exact_values() {
    let mut buf: Vec<u8> = Vec::new();
    rlp_append_uint(&mut buf, 0);
    assert_eq!(buf, vec![0x80]);

    let mut buf: Vec<u8> = Vec::new();
    rlp_append_uint(&mut buf, 15);
    assert_eq!(buf, vec![0x0f]);

    let mut buf: Vec<u8> = Vec::new();
    rlp_append_uint(&mut buf, 0x80);
    assert_eq!(buf, vec![0x81, 0x80]);

    let mut buf: Vec<u8> = Vec::new();
    rlp_append_uint(&mut buf, 1024);
    assert_eq!(buf, vec![0x82, 0x04, 0x00]);
}

#[test]
fn rlp_list_short_and_long() {
    let payload: Vec<u8> = vec![0x01, 0x02, 0x03];
    assert_eq!(rlp_wrap_list(&payload), vec![0xc3, 0x01, 0x02, 0x03]);

    let long_payload: Vec<u8> = vec![0xaa; 60];
    let wrapped = rlp_wrap_list(&long_payload);
    assert_eq!(wrapped[0], 0xf8);
    assert_eq!(wrapped[1], 60);
    assert_eq!(&wrapped[2..], &long_payload[..]);
}

#[test]
fn trim_leading_zeros_minimal() {
    assert_eq!(trim_leading_zeros(&[0, 0, 5, 0]), vec![5, 0]);
    assert_eq!(trim_leading_zeros(&[0, 0, 0]), Vec::<u8>::new());
    assert_eq!(trim_leading_zeros(&[7]), vec![7]);
}
