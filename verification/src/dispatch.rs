//! One step of the serve loop: from a fully assembled frame to a response
//! and a device action.
//!
//! The firmware reads bytes, hands the frame in, performs the returned
//! action against its peripherals and sends the response bytes.  Every
//! framing, integrity, parse or validation failure collapses into the
//! single NACK byte, and the loop returns to awaiting a length byte.

use vstd::prelude::*;
use crate::constants::{BL_DIS_R_W_PROTECT, BL_EN_RW_PROTECT, BL_FLASH_ERASE, BL_GET_CID,
    BL_GET_HELP, BL_GET_RDP_STATUS, BL_GET_VER, BL_GO_TO_ADDR, BL_MEM_READ, BL_MEM_WRITE,
    BL_OTP_READ, BL_READ_SECTOR_P_STATUS, BL_RX_LEN, INVALID_SECTOR, spec_supported_commands};
use crate::crc::{spec_frame_crc_ok, spec_word_from_le_bytes, verify_frame_crc};
use crate::flash::spec_erase_range;
use crate::handlers::{FlashEraseOutcome, MemReadOutcome, MemWriteOutcome, ProtectOutcome,
    flash_erase_response, handle_en_rw_protect_cmd, handle_flash_erase_cmd, handle_gethelp_cmd,
    handle_getver_cmd, handle_go_cmd, handle_mem_read_cmd, handle_mem_write_cmd,
    handle_read_otp_cmd, nack_response, spec_getver_response, spec_gethelp_response,
    spec_go_ack_response, spec_nack, spec_status_response};
use crate::memory::{spec_in_flash, spec_in_valid_region};
use crate::packet::{CommandPacket, spec_frame_payload, spec_parse_ok};

verus! {

/// A frame is processed at all only when it passes the CRC check and
/// decodes consistently.
pub open spec fn spec_frame_ok(f: Seq<u8>) -> bool {
    spec_frame_crc_ok(f) && spec_parse_ok(f)
}

/// The command byte of a frame.
pub open spec fn spec_frame_command(f: Seq<u8>) -> u8 {
    f[1]
}

/// What one received frame obliges the firmware to do.
#[derive(Debug, PartialEq, Eq)]
pub enum FrameOutcome {
    /// Send these bytes; nothing else happens.
    Reply(Vec<u8>),
    /// Send `response`, let the transmitter drain, then reload the MSP
    /// from `address` and branch through the vector at `address + 4`.
    ReplyThenJump { response: Vec<u8>, address: u32 },
    /// Read the chip identifier and answer with `handle_getcid_cmd`.
    ReadChipId,
    /// Read the RDP level byte and answer with `handle_getrdp_cmd`.
    ReadRdpLevel,
    /// Read `length` bytes from `address` and answer with
    /// `mem_read_response`.
    ReadMemory { address: u32, length: u8 },
    /// Erase `count` flash sectors from `start` and answer with
    /// `flash_erase_response`.
    EraseSectors { start: u8, count: u8 },
    /// Program `data` into flash from `address` and answer with
    /// `mem_write_response`.
    ProgramFlash { address: u32, data: Vec<u8> },
    /// Apply protection `mode` to the `sectors` bitmap and answer with
    /// `en_rw_protect_response`.
    EnableProtection { sectors: u8, mode: u8 },
    /// Lift the option-byte protection and answer with
    /// `dis_rw_protect_response`.
    DisableProtection,
    /// Read the option-byte protection word and answer with
    /// `handle_read_sector_protection_cmd`.
    ReadProtectionStatus,
}

/// Decide from the length byte alone whether a frame may be assembled:
/// it must announce at least command and CRC, and the whole frame must
/// fit the receive buffer.
pub fn length_byte_ok(length: u8) -> (r: bool)
    ensures
        r <==> (length >= 5 && length as int + 1 <= BL_RX_LEN as int),
{
    length >= 5 && (length as usize) + 1 <= BL_RX_LEN
}

/// Process one assembled frame: check its CRC, decode it, and map its
/// command to a response or a device action.
pub fn process_frame(frame: &[u8]) -> (r: FrameOutcome)
    ensures
        !spec_frame_ok(frame@) ==> (r matches FrameOutcome::Reply(v) && v@ == spec_nack()),
        spec_frame_ok(frame@) ==> ({
            let cmd = spec_frame_command(frame@);
            let p = spec_frame_payload(frame@);
            &&& cmd == BL_GET_VER ==> (r matches FrameOutcome::Reply(v) && v@
                == spec_getver_response())
            &&& cmd == BL_GET_HELP ==> (r matches FrameOutcome::Reply(v) && v@
                == spec_gethelp_response())
            &&& cmd == BL_GET_CID ==> r is ReadChipId
            &&& cmd == BL_GET_RDP_STATUS ==> r is ReadRdpLevel
            &&& cmd == BL_GO_TO_ADDR ==> ({
                if p.len() >= 4 && spec_in_valid_region(
                    spec_word_from_le_bytes(p[0], p[1], p[2], p[3]),
                ) {
                    r matches FrameOutcome::ReplyThenJump { response, address }
                        && response@ == spec_go_ack_response()
                        && address == spec_word_from_le_bytes(p[0], p[1], p[2], p[3])
                } else {
                    r matches FrameOutcome::Reply(v) && v@ == spec_nack()
                }
            })
            &&& cmd == BL_FLASH_ERASE ==> ({
                if p.len() < 2 {
                    r matches FrameOutcome::Reply(v) && v@ == spec_nack()
                } else {
                    match spec_erase_range(p[0], p[1]) {
                        None => r matches FrameOutcome::Reply(v) && v@ == spec_status_response(
                            BL_FLASH_ERASE,
                            INVALID_SECTOR,
                        ),
                        Some(range) => r matches FrameOutcome::EraseSectors { start, count }
                            && start == range.0
                            && count == range.1,
                    }
                }
            })
            &&& cmd == BL_MEM_WRITE ==> ({
                if p.len() >= 6 && 5 + p[4] as int <= p.len() && spec_in_flash(
                    spec_word_from_le_bytes(p[0], p[1], p[2], p[3]),
                ) {
                    r matches FrameOutcome::ProgramFlash { address, data }
                        && address == spec_word_from_le_bytes(p[0], p[1], p[2], p[3])
                        && data@ == p.subrange(5, 5 + p[4] as int)
                } else {
                    r matches FrameOutcome::Reply(v) && v@ == spec_nack()
                }
            })
            &&& cmd == BL_EN_RW_PROTECT ==> ({
                if p.len() >= 2 && (p[1] == 1 || p[1] == 2) {
                    r matches FrameOutcome::EnableProtection { sectors, mode }
                        && sectors == p[0]
                        && mode == p[1]
                } else {
                    r matches FrameOutcome::Reply(v) && v@ == spec_nack()
                }
            })
            &&& cmd == BL_MEM_READ ==> ({
                if p.len() >= 5 && spec_in_valid_region(
                    spec_word_from_le_bytes(p[0], p[1], p[2], p[3]),
                ) {
                    r matches FrameOutcome::ReadMemory { address, length }
                        && address == spec_word_from_le_bytes(p[0], p[1], p[2], p[3])
                        && length == p[4]
                } else {
                    r matches FrameOutcome::Reply(v) && v@ == spec_nack()
                }
            })
            &&& cmd == BL_READ_SECTOR_P_STATUS ==> r is ReadProtectionStatus
            &&& cmd == BL_OTP_READ ==> (r matches FrameOutcome::Reply(v) && v@ == spec_nack())
            &&& cmd == BL_DIS_R_W_PROTECT ==> r is DisableProtection
            &&& !spec_supported_commands().contains(cmd) ==> (r matches FrameOutcome::Reply(v)
                && v@ == spec_nack())
        }),
{
    if !verify_frame_crc(frame) {
        return FrameOutcome::Reply(nack_response());
    }
    let packet = match CommandPacket::parse(frame) {
        Some(p) => p,
        None => {
            return FrameOutcome::Reply(nack_response());
        },
    };
    let payload = packet.payload.as_slice();
    if packet.command == BL_GET_VER {
        FrameOutcome::Reply(handle_getver_cmd(payload))
    } else if packet.command == BL_GET_HELP {
        FrameOutcome::Reply(handle_gethelp_cmd())
    } else if packet.command == BL_GET_CID {
        FrameOutcome::ReadChipId
    } else if packet.command == BL_GET_RDP_STATUS {
        FrameOutcome::ReadRdpLevel
    } else if packet.command == BL_GO_TO_ADDR {
        let (response, target) = handle_go_cmd(payload);
        match target {
            Some(address) => FrameOutcome::ReplyThenJump { response, address },
            None => FrameOutcome::Reply(response),
        }
    } else if packet.command == BL_FLASH_ERASE {
        match handle_flash_erase_cmd(payload) {
            FlashEraseOutcome::Nack => FrameOutcome::Reply(nack_response()),
            FlashEraseOutcome::InvalidRange => FrameOutcome::Reply(
                flash_erase_response(INVALID_SECTOR),
            ),
            FlashEraseOutcome::Erase { start, count } => FrameOutcome::EraseSectors {
                start,
                count,
            },
        }
    } else if packet.command == BL_MEM_WRITE {
        match handle_mem_write_cmd(payload) {
            MemWriteOutcome::Nack => FrameOutcome::Reply(nack_response()),
            MemWriteOutcome::Program { address, data } => FrameOutcome::ProgramFlash {
                address,
                data,
            },
        }
    } else if packet.command == BL_EN_RW_PROTECT {
        match handle_en_rw_protect_cmd(payload) {
            ProtectOutcome::Nack => FrameOutcome::Reply(nack_response()),
            ProtectOutcome::Configure { sectors, mode } => FrameOutcome::EnableProtection {
                sectors,
                mode,
            },
        }
    } else if packet.command == BL_MEM_READ {
        match handle_mem_read_cmd(payload) {
            MemReadOutcome::Nack => FrameOutcome::Reply(nack_response()),
            MemReadOutcome::Read { address, length } => FrameOutcome::ReadMemory {
                address,
                length,
            },
        }
    } else if packet.command == BL_READ_SECTOR_P_STATUS {
        FrameOutcome::ReadProtectionStatus
    } else if packet.command == BL_OTP_READ {
        FrameOutcome::Reply(handle_read_otp_cmd())
    } else if packet.command == BL_DIS_R_W_PROTECT {
        FrameOutcome::DisableProtection
    } else {
        FrameOutcome::Reply(nack_response())
    }
}

} // verus!

