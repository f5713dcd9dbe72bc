use probe_advertisement::decode_advertising_packet::decode_advertising_packet;
use probe_advertisement::error::DecodeError;
use probe_advertisement::types::{Color, ProbeMode, ProductType, SizedInt, ThreeBit};

const DEFAULT_PACKET: [u8; 22] = [
    0x00, 0x00, 0x00, 0x00, 0x00, 0x00, 0x00, 0x00, 0x00, 0x00, 0x00, 0x00, 0x00, 0x00, 0x00,
    0x00, 0x00, 0x00, 0x00, 0x00, 0x00, 0x00,
];

#[test]
fn should_decode_product_type() {
    let mut packet = DEFAULT_PACKET.to_vec();

    // Predictive probe
    packet[0] = 0x01;
    let probe_advertisement = decode_advertising_packet(&packet).unwrap();
    assert_eq!(
        probe_advertisement.product_type,
        ProductType::PredictiveProbe
    );

    // Kitchen timer
    packet[0] = 0x02;
    let probe_advertisement = decode_advertising_packet(&packet).unwrap();
    assert_eq!(probe_advertisement.product_type, ProductType::KitchenTimer);

    // Unknown
    packet[0] = 0x00;
    let probe_advertisement = decode_advertising_packet(&packet).unwrap();
    assert_eq!(probe_advertisement.product_type, ProductType::Unknown);

    // Invalid product type
    packet[0] = 0x03;
    assert_eq!(
        decode_advertising_packet(&packet).unwrap_err(),
        DecodeError::InvalidProductType(0x03)
    );
}

#[test]
fn should_decode_serial_number() {
    let mut packet = DEFAULT_PACKET.to_vec();
    packet[1..5].copy_from_slice(&[0x05, 0x52, 0x00, 0x10]);
    let probe_advertisement = decode_advertising_packet(&packet).unwrap();
    assert_eq!(probe_advertisement.serial_number, "10005205");
}

#[test]
fn should_decode_mode() {
    let mut packet = DEFAULT_PACKET.to_vec();

    // Normal
    packet[18] = 0x00;
    let probe_advertisement = decode_advertising_packet(&packet).unwrap();
    assert_eq!(probe_advertisement.mode, ProbeMode::Normal);

    // Instant read
    packet[18] = 0x01;
    let probe_advertisement = decode_advertising_packet(&packet).unwrap();
    assert_eq!(probe_advertisement.mode, ProbeMode::InstantRead);

    // Reserved
    packet[18] = 0x02;
    let probe_advertisement = decode_advertising_packet(&packet).unwrap();
    assert_eq!(probe_advertisement.mode, ProbeMode::Reserved);

    // Error
    packet[18] = 0x03;
    let probe_advertisement = decode_advertising_packet(&packet).unwrap();
    assert_eq!(probe_advertisement.mode, ProbeMode::Error);
}

#[test]
fn should_decode_color() {
    let mut packet = DEFAULT_PACKET.to_vec();

    // Yellow
    packet[18] = 0b0000_0000;
    let probe_advertisement = decode_advertising_packet(&packet).unwrap();
    assert_eq!(probe_advertisement.color, Color::Yellow);

    // Grey
    packet[18] = 0b0000_0100;
    let probe_advertisement = decode_advertising_packet(&packet).unwrap();
    assert_eq!(probe_advertisement.color, Color::Grey);

    // Invalid color
    packet[18] = 0b0000_1000;
    assert_eq!(
        decode_advertising_packet(&packet).unwrap_err(),
        DecodeError::InvalidColor(2)
    );
}

#[test]
fn should_decode_id() {
    let mut packet = DEFAULT_PACKET.to_vec();
    packet[18] = 0b0010_0000;
    let probe_advertisement = decode_advertising_packet(&packet).unwrap();
    // Create new ThreeBit
    let id = SizedInt::<ThreeBit>::new(1).expect("Somehow this is invalid");
    assert_eq!(probe_advertisement.id, id);
}

#[test]
fn id_of_one_unwraps_to_one() {
    let mut packet = DEFAULT_PACKET.to_vec();
    packet[18] = 0b0010_0000;
    let probe_advertisement = decode_advertising_packet(&packet).unwrap();
    assert_eq!(probe_advertisement.id.value(), 1);
}

#[test]
fn all_zero_packet_decodes_to_defaults() {
    let lengths: [usize; 4] = [19, 20, 22, 64];
    for length in lengths {
        let packet = vec![0u8; length];
        let probe_advertisement = decode_advertising_packet(&packet).unwrap();
        assert_eq!(probe_advertisement.product_type, ProductType::Unknown);
        assert_eq!(probe_advertisement.serial_number, "00000000");
        assert_eq!(probe_advertisement.mode, ProbeMode::Normal);
        assert_eq!(probe_advertisement.color, Color::Yellow);
        assert_eq!(probe_advertisement.id.value(), 0);
    }
}

#[test]
fn short_buffers_are_refused() {
    for length in 0usize..19 {
        let packet = vec![0u8; length];
        assert_eq!(
            decode_advertising_packet(&packet).unwrap_err(),
            DecodeError::BufferTooShort {
                required: 19,
                actual: length
            }
        );
    }
}

#[test]
fn short_buffer_comes_before_any_field() {
    // Byte 0 stands for no product type, but the buffer ends too early to
    // be a packet at all.
    let packet = vec![0xFFu8; 18];
    assert_eq!(
        decode_advertising_packet(&packet).unwrap_err(),
        DecodeError::BufferTooShort {
            required: 19,
            actual: 18
        }
    );
}

#[test]
fn every_product_type_byte() {
    let mut packet = DEFAULT_PACKET.to_vec();
    for raw in 0u8..=255 {
        packet[0] = raw;
        let result = decode_advertising_packet(&packet);
        match raw {
            0 => assert_eq!(result.unwrap().product_type, ProductType::Unknown),
            1 => assert_eq!(result.unwrap().product_type, ProductType::PredictiveProbe),
            2 => assert_eq!(result.unwrap().product_type, ProductType::KitchenTimer),
            _ => assert_eq!(result.unwrap_err(), DecodeError::InvalidProductType(raw)),
        }
    }
}

#[test]
fn every_value_of_the_shared_byte() {
    let modes = [
        ProbeMode::Normal,
        ProbeMode::InstantRead,
        ProbeMode::Reserved,
        ProbeMode::Error,
    ];
    let mut packet = DEFAULT_PACKET.to_vec();
    for byte in 0u8..=255 {
        packet[18] = byte;
        let mode_bits = byte % 4;
        let color_bits = (byte / 4) % 8;
        let id_bits = byte / 32;
        let result = decode_advertising_packet(&packet);
        if color_bits > 1 {
            assert_eq!(result.unwrap_err(), DecodeError::InvalidColor(color_bits));
        } else {
            let probe_advertisement = result.unwrap();
            assert_eq!(probe_advertisement.mode, modes[mode_bits as usize]);
            let color = if color_bits == 0 {
                Color::Yellow
            } else {
                Color::Grey
            };
            assert_eq!(probe_advertisement.color, color);
            assert_eq!(probe_advertisement.id.value(), id_bits);
            assert!(probe_advertisement.id.value() <= 7);
        }
    }
}

#[test]
fn product_type_is_reported_before_color() {
    let mut packet = DEFAULT_PACKET.to_vec();
    packet[0] = 0x07;
    packet[18] = 0b0001_1100;
    assert_eq!(
        decode_advertising_packet(&packet).unwrap_err(),
        DecodeError::InvalidProductType(0x07)
    );
    packet[0] = 0x02;
    assert_eq!(
        decode_advertising_packet(&packet).unwrap_err(),
        DecodeError::InvalidColor(7)
    );
}

#[test]
fn highest_id_with_grey_and_error_mode() {
    let mut packet = DEFAULT_PACKET.to_vec();
    packet[0] = 0x01;
    packet[18] = 0b1110_0111;
    let probe_advertisement = decode_advertising_packet(&packet).unwrap();
    assert_eq!(probe_advertisement.product_type, ProductType::PredictiveProbe);
    assert_eq!(probe_advertisement.mode, ProbeMode::Error);
    assert_eq!(probe_advertisement.color, Color::Grey);
    assert_eq!(probe_advertisement.id.value(), 7);
}

#[test]
fn bytes_without_a_field_are_ignored() {
    let mut plain = DEFAULT_PACKET.to_vec();
    plain[0] = 0x01;
    plain[1..5].copy_from_slice(&[0xEF, 0xCD, 0xAB, 0x89]);
    plain[18] = 0b0100_0101;
    let mut noisy = plain.clone();
    for offset in 5usize..18 {
        noisy[offset] = 0xFF;
    }
    for offset in 19usize..22 {
        noisy[offset] = 0xFF;
    }
    noisy.push(0x5A);
    let first = decode_advertising_packet(&plain).unwrap();
    let second = decode_advertising_packet(&noisy).unwrap();
    assert_eq!(first.product_type, second.product_type);
    assert_eq!(first.serial_number, second.serial_number);
    assert_eq!(first.mode, second.mode);
    assert_eq!(first.color, second.color);
    assert_eq!(first.id, second.id);
    assert_eq!(second.serial_number, "89ABCDEF");
    assert_eq!(second.mode, ProbeMode::InstantRead);
    assert_eq!(second.color, Color::Grey);
    assert_eq!(second.id.value(), 2);
}

#[test]
fn serial_number_is_eight_upper_case_digits() {
    let mut packet = DEFAULT_PACKET.to_vec();
    let samples: [[u8; 4]; 4] = [
        [0x00, 0x00, 0x00, 0x00],
        [0xFF, 0xFF, 0xFF, 0xFF],
        [0xAB, 0xCD, 0xEF, 0x01],
        [0x0A, 0xB0, 0x9F, 0xF9],
    ];
    let expected = ["00000000", "FFFFFFFF", "01EFCDAB", "F99FB00A"];
    for (bytes, text) in samples.iter().zip(expected.iter()) {
        packet[1..5].copy_from_slice(bytes);
        let probe_advertisement = decode_advertising_packet(&packet).unwrap();
        assert_eq!(probe_advertisement.serial_number, *text);
        assert_eq!(probe_advertisement.serial_number.len(), 8);
        assert!(probe_advertisement
            .serial_number
            .chars()
            .all(|c| c.is_ascii_digit() || ('A'..='F').contains(&c)));
    }
}

#[test]
fn errors_name_field_and_offset() {
    let product_type = DecodeError::InvalidProductType(9);
    assert_eq!(product_type.field(), Some("product_type"));
    assert_eq!(product_type.offset(), Some(0));

    let color = DecodeError::InvalidColor(5);
    assert_eq!(color.field(), Some("color"));
    assert_eq!(color.offset(), Some(18));

    let short = DecodeError::BufferTooShort {
        required: 19,
        actual: 3,
    };
    assert_eq!(short.field(), None);
    assert_eq!(short.offset(), None);

    let range = DecodeError::OutOfRange { value: 8, max: 7 };
    assert_eq!(range.field(), None);
    assert_eq!(range.offset(), None);
}

#[test]
fn refused_packet_points_at_the_byte_read() {
    let mut packet = DEFAULT_PACKET.to_vec();
    packet[0] = 0x2A;
    let error = decode_advertising_packet(&packet).unwrap_err();
    assert_eq!(error, DecodeError::InvalidProductType(0x2A));
    assert_eq!(packet[error.offset().unwrap()], 0x2A);

    packet[0] = 0x00;
    packet[18] = 0b1111_0011;
    let error = decode_advertising_packet(&packet).unwrap_err();
    assert_eq!(error, DecodeError::InvalidColor(4));
    assert_eq!((packet[error.offset().unwrap()] >> 2) & 0b111, 4);
}
