use ararext::constants::{BL_ACK, BL_NACK};
use ararext::crc::{build_frame, calculate_crc};
use ararext::dispatch::{length_byte_ok, process_frame, FrameOutcome};
use ararext::handlers::{ack_header, dis_rw_protect_response, en_rw_protect_response,
    flash_erase_response, get_bootloader_version, handle_getcid_cmd, handle_gethelp_cmd,
    handle_getrdp_cmd, handle_read_sector_protection_cmd, mem_read_response, mem_write_response,
    nack_response, status_response};
use ararext::packet::CommandPacket;

const HELP_LIST: [u8; 12] = [
    0x51, 0x52, 0x53, 0x54, 0x55, 0x56, 0x57, 0x58, 0x59, 0x5A, 0x5B, 0x5C,
];

#[test]
fn parse_splits_a_frame_into_its_fields() {
    let frame = build_frame(0x55, &[0x00, 0x10, 0x00, 0x20]);
    let packet = CommandPacket::parse(&frame).unwrap();
    assert_eq!(packet.length, 9);
    assert_eq!(packet.command, 0x55);
    assert_eq!(packet.payload, vec![0x00, 0x10, 0x00, 0x20]);
    assert_eq!(packet.crc, calculate_crc(&frame[..frame.len() - 4]));
    // Length/payload law: the length field counts command, payload and CRC.
    assert_eq!(packet.payload.len() + 5, packet.length as usize);
    assert!(packet.payload.len() <= 197);
}

#[test]
fn parse_rejects_inconsistent_frames() {
    assert!(CommandPacket::parse(&[]).is_none());
    assert!(CommandPacket::parse(&[0x05, 0x51, 0x00, 0x00, 0x00]).is_none());
    // Length field does not match the byte count received.
    assert!(CommandPacket::parse(&[0x06, 0x51, 0x00, 0x00, 0x00, 0x00]).is_none());
    // Length field below the minimum of five.
    assert!(CommandPacket::parse(&[0x04, 0x51, 0x00, 0x00, 0x00]).is_none());
}

#[test]
fn length_byte_gate_matches_the_buffer() {
    assert!(!length_byte_ok(0));
    assert!(!length_byte_ok(4));
    assert!(length_byte_ok(5));
    assert!(length_byte_ok(199));
    assert!(!length_byte_ok(200));
    assert!(!length_byte_ok(255));
}

#[test]
fn response_primitives_have_their_wire_shape() {
    assert_eq!(ack_header(0x51, 3), vec![BL_ACK, 0x51, 3]);
    assert_eq!(nack_response(), vec![BL_NACK]);
    assert_eq!(status_response(0x56, 4), vec![BL_ACK, 0x56, 1, 4]);
    assert_eq!(get_bootloader_version(), 0x10);
}

#[test]
fn help_response_lists_all_twelve_commands_in_order() {
    let mut expected = vec![BL_ACK, 0x52, 0x0C];
    expected.extend_from_slice(&HELP_LIST);
    assert_eq!(handle_gethelp_cmd(), expected);
}

#[test]
fn get_ver_round_trip() {
    let frame = build_frame(0x51, &[]);
    assert_eq!(frame[..2], [0x05, 0x51]);
    let outcome = process_frame(&frame);
    assert_eq!(outcome, FrameOutcome::Reply(vec![0xA5, 0x51, 0x01, 0x10]));
}

#[test]
fn get_help_round_trip() {
    let frame = build_frame(0x52, &[]);
    let outcome = process_frame(&frame);
    let mut expected = vec![0xA5, 0x52, 0x0C];
    expected.extend_from_slice(&HELP_LIST);
    assert_eq!(outcome, FrameOutcome::Reply(expected));
}

#[test]
fn go_to_valid_sram_address_acks_then_jumps() {
    let frame = build_frame(0x55, &[0x00, 0x10, 0x00, 0x20]);
    assert_eq!(frame[..6], [0x09, 0x55, 0x00, 0x10, 0x00, 0x20]);
    let outcome = process_frame(&frame);
    assert_eq!(
        outcome,
        FrameOutcome::ReplyThenJump { response: vec![0xA5, 0x55, 0x00], address: 0x2000_1000 }
    );
}

#[test]
fn go_to_null_or_all_ones_is_refused_without_a_jump() {
    for payload in [[0x00u8, 0x00, 0x00, 0x00], [0xFF, 0xFF, 0xFF, 0xFF]] {
        let frame = build_frame(0x55, &payload);
        assert_eq!(process_frame(&frame), FrameOutcome::Reply(vec![0x7F]));
    }
}

#[test]
fn mem_read_of_flash_base_is_dispatched_then_answered() {
    let frame = build_frame(0x59, &[0x00, 0x00, 0x00, 0x08, 0x04]);
    let outcome = process_frame(&frame);
    assert_eq!(outcome, FrameOutcome::ReadMemory { address: 0x0800_0000, length: 4 });
    let first_words = [0xDE, 0xAD, 0xBE, 0xEF];
    assert_eq!(
        mem_read_response(&first_words),
        vec![0xA5, 0x59, 0x04, 0xDE, 0xAD, 0xBE, 0xEF]
    );
}

#[test]
fn mem_read_of_unmapped_address_is_refused() {
    let frame = build_frame(0x59, &[0x00, 0x00, 0x00, 0x00, 0x04]);
    assert_eq!(process_frame(&frame), FrameOutcome::Reply(vec![0x7F]));
}

#[test]
fn corrupted_crc_is_refused() {
    let mut frame = build_frame(0x51, &[]);
    let last = frame.len() - 1;
    frame[last] ^= 0x01;
    assert_eq!(process_frame(&frame), FrameOutcome::Reply(vec![0x7F]));
}

#[test]
fn unknown_command_is_refused() {
    let frame = build_frame(0x40, &[]);
    assert_eq!(process_frame(&frame), FrameOutcome::Reply(vec![0x7F]));
}

#[test]
fn truncated_or_padded_frames_are_refused() {
    let frame = build_frame(0x51, &[]);
    let mut padded = frame.clone();
    padded.push(0x00);
    assert_eq!(process_frame(&padded), FrameOutcome::Reply(vec![0x7F]));
    assert_eq!(process_frame(&frame[..5]), FrameOutcome::Reply(vec![0x7F]));
}

#[test]
fn get_cid_flow() {
    let frame = build_frame(0x53, &[]);
    assert_eq!(process_frame(&frame), FrameOutcome::ReadChipId);
    assert_eq!(handle_getcid_cmd(0x0413), vec![0xA5, 0x53, 0x02, 0x13, 0x04]);
}

#[test]
fn get_rdp_flow() {
    let frame = build_frame(0x54, &[]);
    assert_eq!(process_frame(&frame), FrameOutcome::ReadRdpLevel);
    assert_eq!(handle_getrdp_cmd(0xAA), vec![0xA5, 0x54, 0x01, 0xAA]);
}

#[test]
fn flash_erase_flow() {
    let frame = build_frame(0x56, &[0xFF, 0x00]);
    assert_eq!(process_frame(&frame), FrameOutcome::EraseSectors { start: 0, count: 8 });
    let rejected = build_frame(0x56, &[0x09, 0x01]);
    assert_eq!(
        process_frame(&rejected),
        FrameOutcome::Reply(vec![0xA5, 0x56, 0x01, 0x04])
    );
    assert_eq!(flash_erase_response(0), vec![0xA5, 0x56, 0x01, 0x00]);
}

#[test]
fn mem_write_flow() {
    let frame = build_frame(0x57, &[0x00, 0x80, 0x00, 0x08, 0x02, 0xCA, 0xFE]);
    assert_eq!(
        process_frame(&frame),
        FrameOutcome::ProgramFlash { address: 0x0800_8000, data: vec![0xCA, 0xFE] }
    );
    // A target outside flash is refused outright.
    let sram = build_frame(0x57, &[0x00, 0x10, 0x00, 0x20, 0x01, 0x42]);
    assert_eq!(process_frame(&sram), FrameOutcome::Reply(vec![0x7F]));
    // A count pointing past the received payload is refused.
    let short = build_frame(0x57, &[0x00, 0x80, 0x00, 0x08, 0x09, 0xCA]);
    assert_eq!(process_frame(&short), FrameOutcome::Reply(vec![0x7F]));
    assert_eq!(mem_write_response(0), vec![0xA5, 0x57, 0x01, 0x00]);
}

#[test]
fn protection_flows() {
    let enable = build_frame(0x58, &[0x0F, 0x01]);
    assert_eq!(
        process_frame(&enable),
        FrameOutcome::EnableProtection { sectors: 0x0F, mode: 1 }
    );
    let bad_mode = build_frame(0x58, &[0x0F, 0x03]);
    assert_eq!(process_frame(&bad_mode), FrameOutcome::Reply(vec![0x7F]));
    assert_eq!(en_rw_protect_response(0), vec![0xA5, 0x58, 0x01, 0x00]);

    let disable = build_frame(0x5C, &[]);
    assert_eq!(process_frame(&disable), FrameOutcome::DisableProtection);
    assert_eq!(dis_rw_protect_response(1), vec![0xA5, 0x5C, 0x01, 0x01]);

    let status = build_frame(0x5A, &[]);
    assert_eq!(process_frame(&status), FrameOutcome::ReadProtectionStatus);
    assert_eq!(
        handle_read_sector_protection_cmd(0x1234),
        vec![0xA5, 0x5A, 0x02, 0x34, 0x12]
    );
}

#[test]
fn otp_read_is_answered_with_nack() {
    let frame = build_frame(0x5B, &[]);
    assert_eq!(process_frame(&frame), FrameOutcome::Reply(vec![0x7F]));
}
