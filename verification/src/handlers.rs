//! Per-command decoding, validation and response construction.
//!
//! Each handler turns the payload of one validated frame into either the
//! complete response byte sequence or a device action for the firmware to
//! carry out.  Responses open with the three-byte ACK header
//! `ACK, command, follow_len`, or consist of the single NACK byte.

use vstd::prelude::*;
use crate::constants::{ADDR_VALID, BL_ACK, BL_DIS_R_W_PROTECT, BL_EN_RW_PROTECT, BL_FLASH_ERASE,
    BL_GET_CID, BL_GET_HELP, BL_GET_RDP_STATUS, BL_GET_VER, BL_GO_TO_ADDR, BL_MEM_READ,
    BL_MEM_WRITE, BL_NACK, BL_READ_SECTOR_P_STATUS, BL_VERSION, spec_supported_commands,
    supported_commands};
use crate::crc::{spec_word_from_le_bytes, word_from_le_bytes};
use crate::flash::{plan_flash_erase, spec_erase_range};
use crate::memory::{spec_in_flash, spec_in_valid_region, verify_address};

verus! {

/// The interface the twelve commands expect of a device; firmware
/// implements it against real peripherals.
pub trait CommandHandler {
    fn handle_get_version(&self);

    fn handle_get_help(&self);

    fn handle_get_cid(&self);

    fn handle_get_rdp_status(&self);

    fn handle_go_to_address(&self, address: u32);

    fn handle_flash_erase(&self, sector: u8, count: u8);

    fn handle_mem_write(&self, address: u32, data: &[u8]);

    fn handle_mem_read(&self, address: u32, length: u32);

    fn handle_enable_rw_protect(&self, sectors: u8, mode: u8);

    fn handle_disable_rw_protect(&self);

    fn handle_read_sector_protection(&self);

    fn handle_read_otp(&self);
}

/// The three-byte header every positive response opens with.
pub open spec fn spec_ack_header(command_code: u8, follow_len: u8) -> Seq<u8> {
    seq![BL_ACK, command_code, follow_len]
}

/// The one-byte negative response.
pub open spec fn spec_nack() -> Seq<u8> {
    seq![BL_NACK]
}

/// `ACK, command, 1, status`: the shape of every response that reports a
/// flash or option-byte operation outcome.
pub open spec fn spec_status_response(command_code: u8, status: u8) -> Seq<u8> {
    seq![BL_ACK, command_code, 1u8, status]
}

pub open spec fn spec_getver_response() -> Seq<u8> {
    seq![BL_ACK, BL_GET_VER, 1u8, BL_VERSION]
}

pub open spec fn spec_gethelp_response() -> Seq<u8> {
    seq![BL_ACK, BL_GET_HELP, 12u8] + spec_supported_commands()
}

pub open spec fn spec_getcid_response(chip_id: u16) -> Seq<u8> {
    seq![BL_ACK, BL_GET_CID, 2u8, (chip_id & 0xff) as u8, ((chip_id >> 8) & 0xff) as u8]
}

pub open spec fn spec_getrdp_response(rdp_level: u8) -> Seq<u8> {
    seq![BL_ACK, BL_GET_RDP_STATUS, 1u8, rdp_level]
}

pub open spec fn spec_go_ack_response() -> Seq<u8> {
    seq![BL_ACK, BL_GO_TO_ADDR, 0u8]
}

pub open spec fn spec_mem_read_response(data: Seq<u8>) -> Seq<u8> {
    seq![BL_ACK, BL_MEM_READ, data.len() as u8] + data
}

pub open spec fn spec_sector_status_response(status: u16) -> Seq<u8> {
    seq![
        BL_ACK,
        BL_READ_SECTOR_P_STATUS,
        2u8,
        (status & 0xff) as u8,
        ((status >> 8) & 0xff) as u8,
    ]
}

/// The version byte handed to GET_VER.
pub fn get_bootloader_version() -> (r: u8)
    ensures
        r == BL_VERSION,
{
    BL_VERSION
}

/// Build the ACK header announcing `follow_len` payload bytes.
pub fn ack_header(command_code: u8, follow_len: u8) -> (r: Vec<u8>)
    ensures
        r@ == spec_ack_header(command_code, follow_len),
{
    let mut v: Vec<u8> = Vec::new();
    v.push(BL_ACK);
    v.push(command_code);
    v.push(follow_len);
    proof {
        assert(v@ =~= spec_ack_header(command_code, follow_len));
    }
    v
}

/// Build the single-byte NACK response.
pub fn nack_response() -> (r: Vec<u8>)
    ensures
        r@ == spec_nack(),
{
    let mut v: Vec<u8> = Vec::new();
    v.push(BL_NACK);
    proof {
        assert(v@ =~= spec_nack());
    }
    v
}

/// Build the `ACK, command, 1, status` response reporting an operation
/// outcome.
pub fn status_response(command_code: u8, status: u8) -> (r: Vec<u8>)
    ensures
        r@ == spec_status_response(command_code, status),
{
    let mut v = ack_header(command_code, 1);
    v.push(status);
    proof {
        assert(v@ =~= spec_status_response(command_code, status));
    }
    v
}

/// GET_VER: report the version byte.
pub fn handle_getver_cmd(_payload: &[u8]) -> (r: Vec<u8>)
    ensures
        r@ == spec_getver_response(),
{
    let version = get_bootloader_version();
    let mut v = ack_header(BL_GET_VER, 1);
    v.push(version);
    proof {
        assert(v@ =~= spec_getver_response());
    }
    v
}

/// GET_HELP: report the twelve supported command codes in order.
pub fn handle_gethelp_cmd() -> (r: Vec<u8>)
    ensures
        r@ == spec_gethelp_response(),
{
    let mut v = ack_header(BL_GET_HELP, 12);
    let mut commands = supported_commands();
    v.append(&mut commands);
    proof {
        assert(v@ =~= spec_gethelp_response());
    }
    v
}

/// GET_CID: report the chip identifier little-endian.
pub fn handle_getcid_cmd(chip_id: u16) -> (r: Vec<u8>)
    ensures
        r@ == spec_getcid_response(chip_id),
{
    let mut v = ack_header(BL_GET_CID, 2);
    v.push((chip_id & 0xff) as u8);
    v.push(((chip_id >> 8u16) & 0xff) as u8);
    proof {
        assert(v@ =~= spec_getcid_response(chip_id));
    }
    v
}

/// GET_RDP_STATUS: report the read-protection level byte.
pub fn handle_getrdp_cmd(rdp_level: u8) -> (r: Vec<u8>)
    ensures
        r@ == spec_getrdp_response(rdp_level),
{
    let mut v = ack_header(BL_GET_RDP_STATUS, 1);
    v.push(rdp_level);
    proof {
        assert(v@ =~= spec_getrdp_response(rdp_level));
    }
    v
}

/// READ_SECTOR_P_STATUS: report the option-byte protection word
/// little-endian.
pub fn handle_read_sector_protection_cmd(protection_status: u16) -> (r: Vec<u8>)
    ensures
        r@ == spec_sector_status_response(protection_status),
{
    let mut v = ack_header(BL_READ_SECTOR_P_STATUS, 2);
    v.push((protection_status & 0xff) as u8);
    v.push(((protection_status >> 8u16) & 0xff) as u8);
    proof {
        assert(v@ =~= spec_sector_status_response(protection_status));
    }
    v
}

/// OTP_READ: the wire contract leaves the OTP transfer undefined, so the
/// command is answered with NACK.
pub fn handle_read_otp_cmd() -> (r: Vec<u8>)
    ensures
        r@ == spec_nack(),
{
    nack_response()
}

/// GO_TO_ADDR: decode the little-endian target address and gate it through
/// the address validator.  A valid address is acknowledged and returned for
/// the firmware to jump to; anything else is refused and nothing is
/// returned to jump to.
pub fn handle_go_cmd(payload: &[u8]) -> (r: (Vec<u8>, Option<u32>))
    ensures
        payload@.len() < 4 ==> r.0@ == spec_nack() && r.1 is None,
        payload@.len() >= 4 ==> {
            let address = spec_word_from_le_bytes(
                payload@[0],
                payload@[1],
                payload@[2],
                payload@[3],
            );
            if spec_in_valid_region(address) {
                r.0@ == spec_go_ack_response() && r.1 == Some(address)
            } else {
                r.0@ == spec_nack() && r.1 is None
            }
        },
{
    if payload.len() < 4 {
        return (nack_response(), None);
    }
    let address = word_from_le_bytes(payload[0], payload[1], payload[2], payload[3]);
    if verify_address(address) == ADDR_VALID {
        (ack_header(BL_GO_TO_ADDR, 0), Some(address))
    } else {
        (nack_response(), None)
    }
}

/// What a FLASH_ERASE frame asks the firmware to do.
#[derive(Debug, PartialEq, Eq)]
pub enum FlashEraseOutcome {
    /// Payload too short to carry sector and count: answer NACK.
    Nack,
    /// The range is impossible: acknowledge with the `INVALID_SECTOR`
    /// status and erase nothing.
    InvalidRange,
    /// Erase `count` sectors starting at `start`, then report the driver
    /// status through `flash_erase_response`.
    Erase { start: u8, count: u8 },
}

/// FLASH_ERASE: decode start sector and count, and clamp the range to the
/// sector table.
pub fn handle_flash_erase_cmd(payload: &[u8]) -> (r: FlashEraseOutcome)
    ensures
        payload@.len() < 2 ==> r is Nack,
        payload@.len() >= 2 ==> match spec_erase_range(payload@[0], payload@[1]) {
            None => r is InvalidRange,
            Some(range) => r == (FlashEraseOutcome::Erase { start: range.0, count: range.1 }),
        },
{
    if payload.len() < 2 {
        return FlashEraseOutcome::Nack;
    }
    match plan_flash_erase(payload[0], payload[1]) {
        None => FlashEraseOutcome::InvalidRange,
        Some(range) => FlashEraseOutcome::Erase { start: range.0, count: range.1 },
    }
}

/// The status byte FLASH_ERASE reports once the driver has run.
pub fn flash_erase_response(status: u8) -> (r: Vec<u8>)
    ensures
        r@ == spec_status_response(BL_FLASH_ERASE, status),
{
    status_response(BL_FLASH_ERASE, status)
}

/// What a MEM_WRITE frame asks the firmware to do.
#[derive(Debug, PartialEq, Eq)]
pub enum MemWriteOutcome {
    /// Malformed payload or target outside flash: answer NACK.
    Nack,
    /// Program `data` byte by byte from `address` up, then report the
    /// driver status through `mem_write_response`.
    Program { address: u32, data: Vec<u8> },
}

/// MEM_WRITE: decode the little-endian base address, the byte count and
/// the data to program.  The target must lie in flash.
pub fn handle_mem_write_cmd(payload: &[u8]) -> (r: MemWriteOutcome)
    ensures
        payload@.len() < 6 ==> r is Nack,
        payload@.len() >= 6 ==> {
            let address = spec_word_from_le_bytes(
                payload@[0],
                payload@[1],
                payload@[2],
                payload@[3],
            );
            let count = payload@[4] as int;
            if 5 + count <= payload@.len() && spec_in_flash(address) {
                r matches MemWriteOutcome::Program { address: target, data }
                    && target == address
                    && data@ == payload@.subrange(5, 5 + count)
            } else {
                r is Nack
            }
        },
{
    if payload.len() < 6 {
        return MemWriteOutcome::Nack;
    }
    let address = word_from_le_bytes(payload[0], payload[1], payload[2], payload[3]);
    let write_len: usize = payload[4] as usize;
    if 5 + write_len > payload.len() {
        return MemWriteOutcome::Nack;
    }
    if !(address >= crate::constants::FLASH_BASE && address <= crate::constants::FLASH_END) {
        return MemWriteOutcome::Nack;
    }
    let mut data: Vec<u8> = Vec::new();
    let mut i: usize = 0;
    while i < write_len
        invariant
            i <= write_len,
            write_len <= 255,
            5 + write_len <= payload@.len(),
            data@ == payload@.subrange(5, 5 + i as int),
        decreases write_len - i,
    {
        data.push(payload[5 + i]);
        proof {
            assert(payload@.subrange(5, 5 + i as int + 1) =~= payload@.subrange(
                5,
                5 + i as int,
            ).push(payload@[5 + i as int]));
        }
        i = i + 1;
    }
    MemWriteOutcome::Program { address, data }
}

/// The status byte MEM_WRITE reports once the driver has run.
pub fn mem_write_response(status: u8) -> (r: Vec<u8>)
    ensures
        r@ == spec_status_response(BL_MEM_WRITE, status),
{
    status_response(BL_MEM_WRITE, status)
}

/// What a MEM_READ frame asks the firmware to do.
#[derive(Debug, PartialEq, Eq)]
pub enum MemReadOutcome {
    /// Malformed payload or address outside every region: answer NACK.
    Nack,
    /// Read `length` bytes from `address` up and send them through
    /// `mem_read_response`.
    Read { address: u32, length: u8 },
}

/// MEM_READ: decode the little-endian base address and the byte count, and
/// gate the address through the validator.
pub fn handle_mem_read_cmd(payload: &[u8]) -> (r: MemReadOutcome)
    ensures
        payload@.len() < 5 ==> r is Nack,
        payload@.len() >= 5 ==> {
            let address = spec_word_from_le_bytes(
                payload@[0],
                payload@[1],
                payload@[2],
                payload@[3],
            );
            if spec_in_valid_region(address) {
                r == (MemReadOutcome::Read { address, length: payload@[4] })
            } else {
                r is Nack
            }
        },
{
    if payload.len() < 5 {
        return MemReadOutcome::Nack;
    }
    let address = word_from_le_bytes(payload[0], payload[1], payload[2], payload[3]);
    let read_len = payload[4];
    if verify_address(address) == ADDR_VALID {
        MemReadOutcome::Read { address, length: read_len }
    } else {
        MemReadOutcome::Nack
    }
}

/// The data bytes MEM_READ sends back once the firmware has read them.
pub fn mem_read_response(data: &[u8]) -> (r: Vec<u8>)
    requires
        data@.len() <= 255,
    ensures
        r@ == spec_mem_read_response(data@),
{
    let mut v = ack_header(BL_MEM_READ, data.len() as u8);
    let mut i: usize = 0;
    while i < data.len()
        invariant
            i <= data.len(),
            data@.len() <= 255,
            v@ == spec_ack_header(BL_MEM_READ, data@.len() as u8) + data@.take(i as int),
        decreases data.len() - i,
    {
        v.push(data[i]);
        proof {
            assert(spec_ack_header(BL_MEM_READ, data@.len() as u8) + data@.take(i as int + 1)
                =~= (spec_ack_header(BL_MEM_READ, data@.len() as u8) + data@.take(
                i as int,
            )).push(data@[i as int]));
        }
        i = i + 1;
    }
    proof {
        assert(data@.take(data@.len() as int) =~= data@);
    }
    v
}

/// What an EN_RW_PROTECT frame asks the firmware to do.
#[derive(Debug, PartialEq, Eq)]
pub enum ProtectOutcome {
    /// Payload too short or unknown protection mode: answer NACK.
    Nack,
    /// Apply protection `mode` to the sectors of the `sectors` bitmap,
    /// then report the status through `en_rw_protect_response`.
    Configure { sectors: u8, mode: u8 },
}

/// EN_RW_PROTECT: decode the sector bitmap and the protection mode; only
/// modes 1 (write protect) and 2 (read-and-write protect) exist.
pub fn handle_en_rw_protect_cmd(payload: &[u8]) -> (r: ProtectOutcome)
    ensures
        payload@.len() < 2 ==> r is Nack,
        payload@.len() >= 2 ==> {
            if payload@[1] == 1 || payload@[1] == 2 {
                r == (ProtectOutcome::Configure { sectors: payload@[0], mode: payload@[1] })
            } else {
                r is Nack
            }
        },
{
    if payload.len() < 2 {
        return ProtectOutcome::Nack;
    }
    let sectors = payload[0];
    let mode = payload[1];
    if mode == 1 || mode == 2 {
        ProtectOutcome::Configure { sectors, mode }
    } else {
        ProtectOutcome::Nack
    }
}

/// The status byte EN_RW_PROTECT reports once the option bytes are
/// written.
pub fn en_rw_protect_response(status: u8) -> (r: Vec<u8>)
    ensures
        r@ == spec_status_response(BL_EN_RW_PROTECT, status),
{
    status_response(BL_EN_RW_PROTECT, status)
}

/// The status byte DIS_R_W_PROTECT reports once the option bytes are
/// written.
pub fn dis_rw_protect_response(status: u8) -> (r: Vec<u8>)
    ensures
        r@ == spec_status_response(BL_DIS_R_W_PROTECT, status),
{
    status_response(BL_DIS_R_W_PROTECT, status)
}

} // verus!
