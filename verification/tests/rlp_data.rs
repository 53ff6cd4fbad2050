use evm_loader::error::RlpError;
use evm_loader::types::rlp_data::{
    decode_address, decode_u256, decode_u64, encode_list_header, encode_number, minimal_be_bytes,
};
use evm_loader::types::{Address, U256};

#[test]
fn decode_u64_reads_canonical_numbers() {
    assert_eq!(decode_u64(&[]), Ok(0));
    assert_eq!(decode_u64(&[9]), Ok(9));
    assert_eq!(decode_u64(&[0x52, 0x08]), Ok(21000));
    assert_eq!(decode_u64(&[0xff; 8]), Ok(u64::MAX));
    assert_eq!(decode_u64(&[0]), Err(RlpError::RlpInvalidIndirection));
    assert_eq!(decode_u64(&[0, 1]), Err(RlpError::RlpInvalidIndirection));
    assert_eq!(decode_u64(&[1; 9]), Err(RlpError::RlpIsTooBig));
}

#[test]
fn decode_u256_reads_canonical_numbers() {
    assert_eq!(decode_u256(&[]), Ok(U256::zero()));
    assert_eq!(decode_u256(&[0x04, 0xa8, 0x17, 0xc8, 0x00]), Ok(U256::new(20_000_000_000)));
    assert_eq!(decode_u256(&[0xff; 32]), Ok(U256::max_value()));
    let mut wide = [0u8; 17];
    wide[0] = 1;
    assert_eq!(decode_u256(&wide), Ok(U256::from_words(1, 0)));
    assert_eq!(decode_u256(&[0, 1]), Err(RlpError::RlpInvalidIndirection));
    assert_eq!(decode_u256(&[1; 33]), Err(RlpError::RlpIsTooBig));
}

#[test]
fn decode_address_wants_twenty_bytes() {
    assert_eq!(decode_address(&[0x35; 20]), Ok(Address([0x35; 20])));
    assert_eq!(decode_address(&[0x35; 19]), Err(RlpError::RlpIsTooShort));
    assert_eq!(decode_address(&[]), Err(RlpError::RlpIsTooShort));
    assert_eq!(decode_address(&[0x35; 21]), Err(RlpError::RlpIsTooBig));
}

#[test]
fn minimal_be_bytes_strips_leading_zeros() {
    assert_eq!(minimal_be_bytes(&U256::zero()), Vec::<u8>::new());
    assert_eq!(minimal_be_bytes(&U256::new(1)), vec![1]);
    assert_eq!(minimal_be_bytes(&U256::new(0x0100)), vec![1, 0]);
    assert_eq!(minimal_be_bytes(&U256::max_value()), vec![0xff; 32]);
    let mut expected = vec![0u8; 17];
    expected[0] = 2;
    assert_eq!(minimal_be_bytes(&U256::from_words(2, 0)), expected);
}

#[test]
fn encode_number_follows_rlp() {
    assert_eq!(encode_number(&U256::zero()), vec![0x80]);
    assert_eq!(encode_number(&U256::new(1)), vec![0x01]);
    assert_eq!(encode_number(&U256::new(0x7f)), vec![0x7f]);
    assert_eq!(encode_number(&U256::new(0x80)), vec![0x81, 0x80]);
    assert_eq!(encode_number(&U256::new(111)), vec![111]);
    assert_eq!(encode_number(&U256::new(245_022_926)), vec![0x84, 0x0e, 0x9a, 0xc0, 0xce]);
    let mut top = vec![0xa0];
    top.extend_from_slice(&[0xff; 32]);
    assert_eq!(encode_number(&U256::max_value()), top);
}

#[test]
fn encode_number_agrees_with_rlp() {
    for value in [0u64, 1, 0x7f, 0x80, 0xff, 0x100, 111, 245_022_926, u64::MAX] {
        assert_eq!(encode_number(&U256::from_u64(value)), rlp::encode(&value).to_vec());
    }
}

#[test]
fn encode_list_header_follows_rlp() {
    assert_eq!(encode_list_header(0), vec![0xc0]);
    assert_eq!(encode_list_header(44), vec![0xec]);
    assert_eq!(encode_list_header(55), vec![0xf7]);
    assert_eq!(encode_list_header(56), vec![0xf8, 56]);
    assert_eq!(encode_list_header(255), vec![0xf8, 255]);
    assert_eq!(encode_list_header(256), vec![0xf9, 1, 0]);
    assert_eq!(encode_list_header(0x01_0000), vec![0xfa, 1, 0, 0]);
}
