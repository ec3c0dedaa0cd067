use ararext::crc::{accumulate_word_crc, build_frame, calculate_crc, verify_frame_crc,
    word_from_le_bytes};

#[test]
fn crc_of_empty_input_is_seed() {
    assert_eq!(calculate_crc(&[]), 0xFFFF_FFFF);
}

#[test]
fn crc_of_single_zero_byte() {
    // The value the byte-fed 32-bit update produces for one zero byte; it
    // matches the STM32 hardware CRC unit fed the word 0x00000000.
    assert_eq!(calculate_crc(&[0x00]), 0xC704_DD7B);
}

#[test]
fn crc_of_known_message() {
    // Frame body of a GET_VER request; cross-checked against an
    // independent software model of the hardware CRC.
    assert_eq!(calculate_crc(&[0x05, 0x51]), 0x7CAB_E9E7);
}

#[test]
fn byte_fed_streaming_equals_one_shot() {
    let data: Vec<u8> = (0u8..=40).collect();
    let mut acc: u32 = 0xFFFF_FFFF;
    for &b in &data {
        acc = accumulate_word_crc(acc, b as u32);
    }
    assert_eq!(acc, calculate_crc(&data));
}

#[test]
fn split_streaming_equals_one_shot() {
    let data = [0xDEu8, 0xAD, 0xBE, 0xEF, 0x01, 0x02, 0x03];
    let mut acc = calculate_crc(&data[..3]);
    for &b in &data[3..] {
        acc = accumulate_word_crc(acc, b as u32);
    }
    assert_eq!(acc, calculate_crc(&data));
}

#[test]
fn word_from_le_bytes_assembles_little_endian() {
    assert_eq!(word_from_le_bytes(0x78, 0x56, 0x34, 0x12), 0x1234_5678);
    assert_eq!(word_from_le_bytes(0, 0, 0, 0), 0);
    assert_eq!(word_from_le_bytes(0xFF, 0xFF, 0xFF, 0xFF), 0xFFFF_FFFF);
}

#[test]
fn built_frames_pass_verification() {
    let payloads: [&[u8]; 4] = [&[], &[0x00], &[0x11, 0x22, 0x33], &[0xA5; 194]];
    for payload in payloads {
        let frame = build_frame(0x51, payload);
        assert_eq!(frame.len(), payload.len() + 6);
        assert!(verify_frame_crc(&frame));
    }
}

#[test]
fn flipping_any_byte_fails_verification() {
    let frame = build_frame(0x57, &[0x10, 0x20, 0x30, 0x40, 0x02, 0xAA, 0xBB]);
    assert!(verify_frame_crc(&frame));
    for i in 0..frame.len() {
        for mask in [0x01u8, 0x80, 0xFF] {
            let mut corrupt = frame.clone();
            corrupt[i] ^= mask;
            assert!(!verify_frame_crc(&corrupt), "flip at {i} mask {mask} went unnoticed");
        }
    }
}

#[test]
fn short_frames_fail_verification() {
    assert!(!verify_frame_crc(&[]));
    assert!(!verify_frame_crc(&[0x05, 0x51, 0xE7, 0xE9, 0xAB]));
}
