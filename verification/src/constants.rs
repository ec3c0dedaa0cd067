//! Command codes, response codes and the memory map shared with the host tool.

use vstd::prelude::*;

verus! {

/// Bootloader version byte reported by the GET_VER command.
pub const BL_VERSION: u8 = 0x10;

/// Command codes.
pub const BL_GET_VER: u8 = 0x51;
pub const BL_GET_HELP: u8 = 0x52;
pub const BL_GET_CID: u8 = 0x53;
pub const BL_GET_RDP_STATUS: u8 = 0x54;
pub const BL_GO_TO_ADDR: u8 = 0x55;
pub const BL_FLASH_ERASE: u8 = 0x56;
pub const BL_MEM_WRITE: u8 = 0x57;
pub const BL_EN_RW_PROTECT: u8 = 0x58;
pub const BL_MEM_READ: u8 = 0x59;
pub const BL_READ_SECTOR_P_STATUS: u8 = 0x5A;
pub const BL_OTP_READ: u8 = 0x5B;
pub const BL_DIS_R_W_PROTECT: u8 = 0x5C;

/// Response codes.
pub const BL_ACK: u8 = 0xA5;
pub const BL_NACK: u8 = 0x7F;

/// CRC verification results.
pub const VERIFY_CRC_SUCCESS: u8 = 0;
pub const VERIFY_CRC_FAIL: u8 = 1;

/// Address validation results.
pub const ADDR_VALID: u8 = 0x00;
pub const ADDR_INVALID: u8 = 0x01;

/// Status byte reported when an erase request names an impossible range.
pub const INVALID_SECTOR: u8 = 0x04;

/// Memory map of the STM32F407xx.  Each region is a closed interval
/// `[BASE, END]`; the wire protocol treats `END` itself as addressable.
pub const SRAM1_BASE: u32 = 0x2000_0000;
pub const SRAM1_SIZE: u32 = 112 * 1024;
pub const SRAM1_END: u32 = SRAM1_BASE + SRAM1_SIZE;

pub const SRAM2_BASE: u32 = 0x2001_C000;
pub const SRAM2_SIZE: u32 = 16 * 1024;
pub const SRAM2_END: u32 = SRAM2_BASE + SRAM2_SIZE;

pub const FLASH_BASE: u32 = 0x0800_0000;
pub const FLASH_SIZE: u32 = 512 * 1024;
pub const FLASH_END: u32 = FLASH_BASE + FLASH_SIZE;

pub const BKPSRAM_BASE: u32 = 0x4002_4000;
pub const BKPSRAM_SIZE: u32 = 4 * 1024;
pub const BKPSRAM_END: u32 = BKPSRAM_BASE + BKPSRAM_SIZE;

/// Base address of the user application image (flash sector 2).
pub const FLASH_SECTOR2_BASE_ADDRESS: u32 = 0x0800_8000;

/// Largest frame the bootloader accepts, length byte included.
pub const BL_RX_LEN: usize = 200;

/// The twelve command codes, in the order the GET_HELP response lists them.
pub open spec fn spec_supported_commands() -> Seq<u8> {
    seq![
        BL_GET_VER,
        BL_GET_HELP,
        BL_GET_CID,
        BL_GET_RDP_STATUS,
        BL_GO_TO_ADDR,
        BL_FLASH_ERASE,
        BL_MEM_WRITE,
        BL_EN_RW_PROTECT,
        BL_MEM_READ,
        BL_READ_SECTOR_P_STATUS,
        BL_OTP_READ,
        BL_DIS_R_W_PROTECT,
    ]
}

/// The command list as sent on the wire by GET_HELP.
pub fn supported_commands() -> (r: Vec<u8>)
    ensures
        r@ == spec_supported_commands(),
{
    let mut v: Vec<u8> = Vec::new();
    v.push(BL_GET_VER);
    v.push(BL_GET_HELP);
    v.push(BL_GET_CID);
    v.push(BL_GET_RDP_STATUS);
    v.push(BL_GO_TO_ADDR);
    v.push(BL_FLASH_ERASE);
    v.push(BL_MEM_WRITE);
    v.push(BL_EN_RW_PROTECT);
    v.push(BL_MEM_READ);
    v.push(BL_READ_SECTOR_P_STATUS);
    v.push(BL_OTP_READ);
    v.push(BL_DIS_R_W_PROTECT);
    proof {
        assert(v@ =~= spec_supported_commands());
    }
    v
}

} // verus!
