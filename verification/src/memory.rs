//! Address validation against the MCU memory map.
//!
//! This is the sole trust boundary for host-supplied addresses: every
//! command that jumps to, reads from or writes to an arbitrary address must
//! pass through it before the address touches hardware.

use vstd::prelude::*;
use crate::constants::{ADDR_INVALID, ADDR_VALID, BKPSRAM_BASE, BKPSRAM_END, FLASH_BASE, FLASH_END,
    SRAM1_BASE, SRAM1_END, SRAM2_BASE, SRAM2_END};

verus! {

pub open spec fn spec_in_sram1(address: u32) -> bool {
    SRAM1_BASE <= address <= SRAM1_END
}

pub open spec fn spec_in_sram2(address: u32) -> bool {
    SRAM2_BASE <= address <= SRAM2_END
}

pub open spec fn spec_in_flash(address: u32) -> bool {
    FLASH_BASE <= address <= FLASH_END
}

pub open spec fn spec_in_bkpsram(address: u32) -> bool {
    BKPSRAM_BASE <= address <= BKPSRAM_END
}

/// An address is acceptable for jump and read operations exactly when one of
/// the four regions contains it.
pub open spec fn spec_in_valid_region(address: u32) -> bool {
    ||| spec_in_sram1(address)
    ||| spec_in_sram2(address)
    ||| spec_in_flash(address)
    ||| spec_in_bkpsram(address)
}

#[derive(Clone, Copy, Debug, PartialEq, Eq, Structural)]
pub enum MemoryRegion {
    SRAM1,
    SRAM2,
    Flash,
    BackupSram,
    Unknown,
}

/// Region lookup; SRAM1 wins on the single address where the closed
/// intervals of SRAM1 and SRAM2 meet.
pub open spec fn spec_identify_memory_region(address: u32) -> MemoryRegion {
    if spec_in_sram1(address) {
        MemoryRegion::SRAM1
    } else if spec_in_sram2(address) {
        MemoryRegion::SRAM2
    } else if spec_in_flash(address) {
        MemoryRegion::Flash
    } else if spec_in_bkpsram(address) {
        MemoryRegion::BackupSram
    } else {
        MemoryRegion::Unknown
    }
}

/// Classify `address` as valid (`ADDR_VALID`) or invalid (`ADDR_INVALID`)
/// for jump and read operations.
pub fn verify_address(address: u32) -> (r: u8)
    ensures
        r == ADDR_VALID || r == ADDR_INVALID,
        (r == ADDR_VALID) <==> spec_in_valid_region(address),
{
    if (address >= SRAM1_BASE && address <= SRAM1_END)
        || (address >= SRAM2_BASE && address <= SRAM2_END)
        || (address >= FLASH_BASE && address <= FLASH_END)
        || (address >= BKPSRAM_BASE && address <= BKPSRAM_END) {
        ADDR_VALID
    } else {
        ADDR_INVALID
    }
}

/// Name the memory region that contains `address`, or `Unknown`.
pub fn identify_memory_region(address: u32) -> (r: MemoryRegion)
    ensures
        r == spec_identify_memory_region(address),
        (r is Unknown) <==> !spec_in_valid_region(address),
{
    if address >= SRAM1_BASE && address <= SRAM1_END {
        MemoryRegion::SRAM1
    } else if address >= SRAM2_BASE && address <= SRAM2_END {
        MemoryRegion::SRAM2
    } else if address >= FLASH_BASE && address <= FLASH_END {
        MemoryRegion::Flash
    } else if address >= BKPSRAM_BASE && address <= BKPSRAM_END {
        MemoryRegion::BackupSram
    } else {
        MemoryRegion::Unknown
    }
}

/// The chip identifier is the low twelve bits of the DBGMCU IDCODE word.
pub fn chip_id_from_idcode(idcode: u32) -> (r: u16)
    ensures
        r == (idcode & 0xfff) as u16,
{
    (idcode & 0x0FFF) as u16
}

/// The read-protection level sits in bits 15..8 of the first option-byte
/// word.
pub fn rdp_level_from_option_bytes(ob_value: u32) -> (r: u8)
    ensures
        r == ((ob_value >> 8) & 0xff) as u8,
{
    ((ob_value >> 8u32) & 0xFF) as u8
}

/// The four regions are pairwise disjoint, except for the one address
/// `SRAM1_END` (`0x2001C000`), which the closed intervals of SRAM1 and SRAM2
/// share; every other address lies in at most one region.
pub proof fn lemma_region_partition(address: u32)
    requires
        address != SRAM1_END,
    ensures
        !(spec_in_sram1(address) && spec_in_sram2(address)),
        !(spec_in_sram1(address) && spec_in_flash(address)),
        !(spec_in_sram1(address) && spec_in_bkpsram(address)),
        !(spec_in_sram2(address) && spec_in_flash(address)),
        !(spec_in_sram2(address) && spec_in_bkpsram(address)),
        !(spec_in_flash(address) && spec_in_bkpsram(address)),
{
}

} // verus!
