use inf1900_usb::{
    bits_from_buffer, encode, find_adapter, init_outcome, init_setup, is_device_corresponding,
    read_setup, transfer_outcome, write_setup, ControlSetup, DisplayingMode, SerialError, MAX_PAYLOAD, PACKET_SIZE, PRODUCT_ID, VENDOR_ID,
};

#[test]
fn decode_returns_declared_bytes_for_every_length() {
    let base: [u8; 8] = [0, 11, 22, 33, 44, 55, 66, 77];
    for len in 0..=7u8 {
        let mut buffer = base;
        buffer[0] = len;
        let payload = bits_from_buffer(&buffer);
        assert_eq!(payload, &base[1..=len as usize]);
    }
}

#[test]
fn decode_scenario_abc() {
    let buffer: [u8; 8] = [3, 65, 66, 67, 0, 0, 0, 0];
    assert_eq!(bits_from_buffer(&buffer), &[65u8, 66, 67][..]);
}

#[test]
fn decode_full_packet() {
    let buffer: [u8; 8] = [7, 1, 2, 3, 4, 5, 6, 7];
    assert_eq!(bits_from_buffer(&buffer), &[1u8, 2, 3, 4, 5, 6, 7][..]);
}

#[test]
fn encode_prefixes_length() {
    assert_eq!(encode(&[]).unwrap(), vec![0u8]);
    assert_eq!(encode(&[9, 8, 7]).unwrap(), vec![3u8, 9, 8, 7]);
    assert_eq!(encode(&[1, 2, 3, 4, 5, 6, 7]).unwrap(), vec![7u8, 1, 2, 3, 4, 5, 6, 7]);
}

#[test]
fn encode_refuses_oversized_payload() {
    assert_eq!(encode(&[0; 8]), Err(SerialError::PayloadTooLarge));
    assert_eq!(encode(&[0; 20]), Err(SerialError::PayloadTooLarge));
}

#[test]
fn packet_constants() {
    assert_eq!(PACKET_SIZE, 8);
    assert_eq!(MAX_PAYLOAD, 7);
    assert_eq!(VENDOR_ID, 0x16c0);
    assert_eq!(PRODUCT_ID, 0x05dc);
}

#[test]
fn init_accepts_exact_echo() {
    assert_eq!(init_outcome(Ok(4), &[0x13, 8, 1, 0]), Ok(()));
}

#[test]
fn init_rejects_any_byte_mismatch() {
    let echo: [u8; 4] = [0x13, 8, 1, 0];
    for k in 0..4 {
        let mut reply = echo;
        reply[k] ^= 0x01;
        assert_eq!(init_outcome(Ok(4), &reply), Err(SerialError::ProtocolMismatch));
    }
}

#[test]
fn init_rejects_wrong_length() {
    assert_eq!(init_outcome(Ok(3), &[0x13, 8, 1, 0]), Err(SerialError::ProtocolMismatch));
    assert_eq!(init_outcome(Ok(0), &[0x13, 8, 1, 0]), Err(SerialError::ProtocolMismatch));
}

#[test]
fn init_reports_transfer_failure() {
    assert_eq!(
        init_outcome(Err(rusb::Error::Timeout), &[0x13, 8, 1, 0]),
        Err(SerialError::Transfer(rusb::Error::Timeout))
    );
    assert_eq!(
        init_outcome(Err(rusb::Error::Io), &[0, 0, 0, 0]),
        Err(SerialError::Transfer(rusb::Error::Io))
    );
}

#[test]
fn device_matching() {
    assert!(is_device_corresponding(Some((0x16c0, 0x05dc))));
    assert!(!is_device_corresponding(Some((0x16c0, 0x05dd))));
    assert!(!is_device_corresponding(Some((0x16c1, 0x05dc))));
    assert!(!is_device_corresponding(None));
}

#[test]
fn enumeration_picks_the_adapter() {
    let ids = [Some((0x1, 0x1)), Some((0x16c0, 0x05dc)), Some((0x2, 0x2))];
    assert_eq!(find_adapter(&ids), Some(1));
}

#[test]
fn enumeration_without_adapter() {
    let ids = [Some((0x1, 0x1)), Some((0x3, 0x3)), Some((0x2, 0x2))];
    assert_eq!(find_adapter(&ids), None);
    assert_eq!(find_adapter(&[]), None);
}

#[test]
fn enumeration_skips_unreadable_and_keeps_first() {
    let ids = [None, Some((0x16c0, 0x05dc)), Some((0x16c0, 0x05dc))];
    assert_eq!(find_adapter(&ids), Some(1));
}

#[test]
fn ascii_rendering_scenario() {
    let mut pos: u32 = 0;
    let text = DisplayingMode::Ascii.print(&[3, 65, 66, 67, 0, 0, 0, 0], None, &mut pos);
    assert_eq!(text, "ABC");
    assert_eq!(pos, 3);
}

#[test]
fn ascii_high_bytes_are_latin1() {
    let mut pos: u32 = 0;
    let text = DisplayingMode::Ascii.print(&[2, 0xc8, 0xff, 0, 0, 0, 0, 0], None, &mut pos);
    assert_eq!(text, "\u{c8}\u{ff}");
}

#[test]
fn hex_rendering_without_padding() {
    let mut pos: u32 = 0;
    assert_eq!(DisplayingMode::Hexadecimal.print(&[1, 255, 0, 0, 0, 0, 0, 0], None, &mut pos), "FF");
    assert_eq!(DisplayingMode::Hexadecimal.print(&[1, 10, 0, 0, 0, 0, 0, 0], None, &mut pos), "A");
    assert_eq!(DisplayingMode::Hexadecimal.print(&[1, 5, 0, 0, 0, 0, 0, 0], None, &mut pos), "5");
    assert_eq!(DisplayingMode::Hexadecimal.print(&[2, 0, 0x1f, 0, 0, 0, 0, 0], None, &mut pos), "01F");
    assert_eq!(pos, 5);
}

#[test]
fn binary_rendering_without_padding() {
    let mut pos: u32 = 0;
    let text = DisplayingMode::Binaire.print(&[4, 0, 1, 5, 255, 0, 0, 0], None, &mut pos);
    assert_eq!(text, "0110111111111");
}

#[test]
fn decimal_rendering() {
    let mut pos: u32 = 0;
    let text = DisplayingMode::Decimal.print(&[4, 0, 9, 42, 200, 0, 0, 0], None, &mut pos);
    assert_eq!(text, "0942200");
}

#[test]
fn empty_payload_prints_nothing() {
    let mut pos: u32 = 2;
    let text = DisplayingMode::Decimal.print(&[0, 1, 2, 3, 4, 5, 6, 7], Some(3), &mut pos);
    assert_eq!(text, "");
    assert_eq!(pos, 2);
}

#[test]
fn wrap_breaks_after_every_width_bytes() {
    let buffer: [u8; 8] = [7, 65, 66, 67, 68, 69, 70, 71];
    let mut pos: u32 = 0;
    let text = DisplayingMode::Ascii.print(&buffer, Some(3), &mut pos);
    assert_eq!(text, "ABC\nDEF\nG");
    assert_eq!(pos, 7 % 3);
}

#[test]
fn wrap_is_the_same_in_every_mode() {
    let buffer: [u8; 8] = [5, 1, 2, 3, 4, 5, 0, 0];
    let modes = [
        DisplayingMode::Binaire,
        DisplayingMode::Decimal,
        DisplayingMode::Hexadecimal,
        DisplayingMode::Ascii,
    ];
    for mode in modes {
        let mut pos: u32 = 0;
        let text = mode.print(&buffer, Some(2), &mut pos);
        assert_eq!(text.matches('\n').count(), 2);
        assert_eq!(pos, 1);
    }
    let mut pos: u32 = 0;
    assert_eq!(DisplayingMode::Decimal.print(&buffer, Some(2), &mut pos), "12\n34\n5");
    let mut pos: u32 = 0;
    assert_eq!(DisplayingMode::Binaire.print(&buffer, Some(2), &mut pos), "110\n11100\n101");
}

#[test]
fn wrap_carries_over_between_calls() {
    let mut pos: u32 = 0;
    let first = DisplayingMode::Decimal.print(&[2, 1, 2, 0, 0, 0, 0, 0], Some(3), &mut pos);
    assert_eq!(first, "12");
    assert_eq!(pos, 2);
    let second = DisplayingMode::Decimal.print(&[2, 3, 4, 0, 0, 0, 0, 0], Some(3), &mut pos);
    assert_eq!(second, "3\n4");
    assert_eq!(pos, 1);
}

#[test]
fn wrap_width_one_breaks_after_each_byte() {
    let mut pos: u32 = 0;
    let text = DisplayingMode::Hexadecimal.print(&[3, 0xab, 1, 2, 0, 0, 0, 0], Some(1), &mut pos);
    assert_eq!(text, "AB\n1\n2\n");
    assert_eq!(pos, 0);
}

#[test]
fn no_wrap_keeps_counting() {
    let mut pos: u32 = 100;
    let text = DisplayingMode::Ascii.print(&[2, 104, 105, 0, 0, 0, 0, 0], None, &mut pos);
    assert_eq!(text, "hi");
    assert_eq!(pos, 102);
}

#[test]
fn transfer_setups_match_the_wire_table() {
    assert_eq!(
        init_setup(),
        ControlSetup { request_type: 0xc0, request: 11, value: 0x0813, index: 1 }
    );
    assert_eq!(read_setup(), ControlSetup { request_type: 0xc0, request: 12, value: 0, index: 0 });
    assert_eq!(write_setup(), ControlSetup { request_type: 0x40, request: 13, value: 0, index: 0 });
}

#[test]
fn transfer_outcome_ignores_byte_count() {
    for n in 0..=8usize {
        assert_eq!(transfer_outcome(Ok(n)), Ok(()));
    }
}

#[test]
fn transfer_outcome_carries_the_error() {
    assert_eq!(transfer_outcome(Err(rusb::Error::Timeout)), Err(SerialError::Transfer(rusb::Error::Timeout)));
    assert_eq!(transfer_outcome(Err(rusb::Error::Pipe)), Err(SerialError::Transfer(rusb::Error::Pipe)));
}
