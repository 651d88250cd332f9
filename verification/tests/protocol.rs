use quadbench::protocol::{
    decode_motor_packet, encode_fdm_packet, encode_rc_packet, write_u64_le, FDM_PACKET_SIZE,
    FDM_WORD_COUNT, MOTOR_COUNT, MOTOR_PACKET_SIZE, RC_CHANNEL_COUNT, RC_PACKET_SIZE,
};

#[test]
fn rc_packet_has_expected_layout() {
    let channels: [u16; RC_CHANNEL_COUNT] = std::array::from_fn(|index| 1_000 + index as u16);

    let packet = encode_rc_packet(12.5_f64.to_bits(), &channels);

    assert_eq!(packet.len(), RC_PACKET_SIZE,);

    assert_eq!(f64::from_le_bytes(packet[0..8].try_into().unwrap(),), 12.5,);

    assert_eq!(u16::from_le_bytes([packet[8], packet[9],]), 1_000,);

    assert_eq!(u16::from_le_bytes([packet[38], packet[39],]), 1_015,);
}

#[test]
fn rc_packet_every_channel_reads_back() {
    let channels: [u16; RC_CHANNEL_COUNT] =
        std::array::from_fn(|index| 0xA000 + (index as u16) * 0x0101);
    let timestamp = 0x0102_0304_0506_0708_u64;
    let packet = encode_rc_packet(timestamp, &channels);
    assert_eq!(&packet[0..8], &[8, 7, 6, 5, 4, 3, 2, 1]);
    for (index, value) in channels.iter().enumerate() {
        let offset = 8 + index * 2;
        assert_eq!(u16::from_le_bytes([packet[offset], packet[offset + 1]]), *value);
    }
}

#[test]
fn rc_packet_matches_std_encoding() {
    let channels = [1_500_u16; RC_CHANNEL_COUNT];
    let packet = encode_rc_packet((-3.25_f64).to_bits(), &channels);
    let mut expected = Vec::new();
    expected.extend_from_slice(&(-3.25_f64).to_le_bytes());
    for value in channels {
        expected.extend_from_slice(&value.to_le_bytes());
    }
    assert_eq!(packet.to_vec(), expected);
}

#[test]
fn motor_packet_decodes_four_floats() {
    let expected = [0.1_f32, 0.25, 0.5, 1.0];

    let mut packet = [0_u8; MOTOR_PACKET_SIZE];

    for (index, value) in expected.iter().enumerate() {
        let offset = index * 4;

        packet[offset..offset + 4].copy_from_slice(&value.to_le_bytes());
    }

    assert_eq!(
        decode_motor_packet(&packet).map(|words| words.map(f32::from_bits)),
        Some(expected),
    );
}

#[test]
fn motor_packet_shorter_than_sixteen_bytes_is_rejected() {
    assert_eq!(decode_motor_packet(&[0_u8; MOTOR_PACKET_SIZE - 1]), None);
    assert_eq!(decode_motor_packet(&[]), None);
}

#[test]
fn motor_packet_ignores_trailing_bytes() {
    let mut packet = vec![0_u8; 64];
    packet[0..4].copy_from_slice(&0.75_f32.to_le_bytes());
    packet[60] = 0xFF;
    let motors = decode_motor_packet(&packet).unwrap();
    assert_eq!(f32::from_bits(motors[0]), 0.75);
    assert_eq!(motors.len(), MOTOR_COUNT);
    assert_eq!(&motors[1..], &[0, 0, 0]);
}

#[test]
fn motor_packet_words_are_little_endian() {
    let packet: Vec<u8> = (1..=16).collect();
    let motors = decode_motor_packet(&packet).unwrap();
    assert_eq!(motors, [0x0403_0201, 0x0807_0605, 0x0C0B_0A09, 0x100F_0E0D]);
}

#[test]
fn fdm_packet_is_exactly_144_bytes() {
    let mut words = [0_u64; FDM_WORD_COUNT];
    words[0] = 1.0_f64.to_bits();
    let packet = encode_fdm_packet(&words);
    assert_eq!(packet.len(), FDM_PACKET_SIZE);
    assert_eq!(f64::from_le_bytes(packet[0..8].try_into().unwrap()), 1.0);
}

#[test]
fn fdm_packet_words_follow_each_other() {
    let values: [f64; FDM_WORD_COUNT] = std::array::from_fn(|index| index as f64 * 1.5 - 4.0);
    let words = values.map(f64::to_bits);
    let packet = encode_fdm_packet(&words);
    for (index, value) in values.iter().enumerate() {
        let offset = index * 8;
        let read = f64::from_le_bytes(packet[offset..offset + 8].try_into().unwrap());
        assert_eq!(read, *value);
    }
}

#[test]
fn write_u64_le_advances_and_writes_only_its_slot() {
    let mut buffer = [0xAA_u8; 20];
    let mut offset = 4_usize;
    write_u64_le(&mut buffer, &mut offset, 0x1122_3344_5566_7788);
    assert_eq!(offset, 12);
    assert_eq!(&buffer[0..4], &[0xAA; 4]);
    assert_eq!(&buffer[4..12], &0x1122_3344_5566_7788_u64.to_le_bytes());
    assert_eq!(&buffer[12..20], &[0xAA; 8]);
}
