use evm_loader::error::{
    build_revert_message, format_revert_error, format_revert_panic, revert_message_line,
};
use evm_loader::types::U256;

fn word(value: u8) -> Vec<u8> {
    let mut w = vec![0u8; 32];
    w[31] = value;
    w
}

#[test]
fn build_revert_message_short_reason() {
    let encoded = build_revert_message("Not enough Ether provided.");
    let mut expected = vec![0x08, 0xc3, 0x79, 0xa0];
    expected.extend_from_slice(&word(0x20));
    expected.extend_from_slice(&word(26));
    expected.extend_from_slice(b"Not enough Ether provided.");
    expected.extend_from_slice(&[0u8; 6]);
    assert_eq!(encoded, expected);
    assert_eq!(encoded.len(), 4 + 32 + 32 + 32);
}

#[test]
fn build_revert_message_empty_reason_keeps_one_data_word() {
    let encoded = build_revert_message("");
    let mut expected = vec![0x08, 0xc3, 0x79, 0xa0];
    expected.extend_from_slice(&word(0x20));
    expected.extend_from_slice(&word(0));
    expected.extend_from_slice(&[0u8; 32]);
    assert_eq!(encoded, expected);
}

#[test]
fn build_revert_message_exact_multiple_has_no_padding() {
    let reason = "0123456789abcdef0123456789abcdef0123456789abcdef0123456789abcdef";
    assert_eq!(reason.len(), 64);
    let encoded = build_revert_message(reason);
    assert_eq!(encoded.len(), 4 + 32 + 32 + 64);
    assert_eq!(&encoded[68..], reason.as_bytes());
}

#[test]
fn build_revert_message_rounds_up_to_next_word() {
    let reason = "0123456789abcdef0123456789abcdef!";
    assert_eq!(reason.len(), 33);
    let encoded = build_revert_message(reason);
    assert_eq!(encoded.len(), 4 + 32 + 32 + 64);
    assert_eq!(&encoded[68..101], reason.as_bytes());
    assert!(encoded[101..].iter().all(|b| *b == 0));
}

#[test]
fn revert_round_trip() {
    for reason in ["", "a", "Not enough Ether provided.", "пример", "0123456789abcdef0123456789abcdef"] {
        let encoded = build_revert_message(reason);
        assert_eq!(format_revert_error(&encoded), Some(reason));
    }
}

#[test]
fn format_revert_error_rejects_short_and_foreign_buffers() {
    assert_eq!(format_revert_error(&[]), None);
    assert_eq!(format_revert_error(&[0x08, 0xc3, 0x79]), None);
    assert_eq!(format_revert_error(&[0x08, 0xc3, 0x79, 0xa0]), None);
    let mut foreign = build_revert_message("reason");
    foreign[0] = 0x09;
    assert_eq!(format_revert_error(&foreign), None);
    assert_eq!(format_revert_panic(&[]), None);
    assert_eq!(format_revert_panic(&[0x4e, 0x48, 0x7b]), None);
    assert_eq!(format_revert_panic(&foreign), None);
}

#[test]
fn format_revert_error_needs_sixty_four_bytes_after_selector() {
    let mut data = vec![0x08, 0xc3, 0x79, 0xa0];
    data.extend_from_slice(&word(0x20));
    data.extend_from_slice(&word(0)[..31]);
    assert_eq!(format_revert_error(&data), None);
    data.push(0);
    assert_eq!(format_revert_error(&data), Some(""));
}

#[test]
fn format_revert_error_needs_offset_of_one_word() {
    let mut data = build_revert_message("reason");
    data[4 + 31] = 0x40;
    assert_eq!(format_revert_error(&data), None);
    let mut data = build_revert_message("reason");
    data[4] = 0x01;
    assert_eq!(format_revert_error(&data), None);
}

#[test]
fn format_revert_error_rejects_length_past_buffer() {
    let mut data = build_revert_message("reason");
    data[4 + 32 + 31] = 33;
    assert_eq!(format_revert_error(&data), None);
    data[4 + 32 + 31] = 32;
    assert!(format_revert_error(&data).is_some());
    let mut huge = build_revert_message("reason");
    for b in huge[36..68].iter_mut() {
        *b = 0xff;
    }
    assert_eq!(format_revert_error(&huge), None);
}

#[test]
fn format_revert_error_rejects_invalid_text() {
    let mut data = build_revert_message("ab");
    data[68] = 0xff;
    assert_eq!(format_revert_error(&data), None);
}

#[test]
fn format_revert_panic_reads_one_word() {
    let mut data = vec![0x4e, 0x48, 0x7b, 0x71];
    data.extend_from_slice(&word(0x11));
    assert_eq!(format_revert_panic(&data), Some(U256::new(0x11)));
    let mut high = vec![0x4e, 0x48, 0x7b, 0x71];
    let mut w = [0u8; 32];
    w[0] = 0x01;
    w[15] = 0x02;
    w[16] = 0x03;
    w[31] = 0x04;
    high.extend_from_slice(&w);
    assert_eq!(
        format_revert_panic(&high),
        Some(U256::from_words(
            0x0100_0000_0000_0000_0000_0000_0000_0002,
            0x0300_0000_0000_0000_0000_0000_0000_0004
        ))
    );
}

#[test]
fn format_revert_panic_needs_exactly_one_word() {
    let mut data = vec![0x4e, 0x48, 0x7b, 0x71];
    data.extend_from_slice(&word(1)[..31]);
    assert_eq!(format_revert_panic(&data), None);
    data.push(1);
    assert!(format_revert_panic(&data).is_some());
    data.push(0);
    assert_eq!(format_revert_panic(&data), None);
}

#[test]
fn revert_message_line_of_each_kind() {
    assert_eq!(revert_message_line(&[]), "Revert");
    assert_eq!(
        revert_message_line(&build_revert_message("out of stock")),
        "Revert: Error(\"out of stock\")"
    );
    let mut panic = vec![0x4e, 0x48, 0x7b, 0x71];
    panic.extend_from_slice(&word(0x11));
    assert_eq!(revert_message_line(&panic), "Revert: Panic(0x11)");
    let mut zero = vec![0x4e, 0x48, 0x7b, 0x71];
    zero.extend_from_slice(&word(0));
    assert_eq!(revert_message_line(&zero), "Revert: Panic(0x0)");
    assert_eq!(revert_message_line(&[0x00, 0x1f, 0xab, 0xff]), "Revert: 001fabff");
}
