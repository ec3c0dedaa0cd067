//! Flash sector geometry, erase planning and option-byte register values.
//!
//! Everything here is pure computation: the sector table of the STM32F407xx,
//! the clamped erase range a host request maps to, and the option-byte
//! control register value a protection change must program.  The firmware
//! around the library drives the flash controller with these results.

use vstd::prelude::*;
use crate::constants::{FLASH_BASE, FLASH_SECTOR2_BASE_ADDRESS};

verus! {

/// One entry of the fixed sector table.
#[derive(Clone, Copy, Debug, PartialEq, Eq, Structural)]
pub struct FlashSector {
    pub number: u8,
    pub base_address: u32,
    pub size: u32,
}

/// Sector sizes: sectors 0-3 are 16 KiB, sector 4 is 64 KiB, sectors 5-7
/// are 128 KiB.
pub open spec fn spec_sector_size(n: u8) -> u32 {
    if n <= 3 {
        0x4000
    } else if n == 4 {
        0x1_0000
    } else {
        0x2_0000
    }
}

/// Sector base addresses, contiguous from the flash base.
pub open spec fn spec_sector_base(n: u8) -> u32 {
    if n == 0 {
        0x0800_0000
    } else if n == 1 {
        0x0800_4000
    } else if n == 2 {
        0x0800_8000
    } else if n == 3 {
        0x0800_C000
    } else if n == 4 {
        0x0801_0000
    } else if n == 5 {
        0x0802_0000
    } else if n == 6 {
        0x0804_0000
    } else {
        0x0806_0000
    }
}

/// The sector table starts at the flash base, each sector begins where the
/// previous one ends, and the application image sits at the sector 2 base.
pub proof fn lemma_sector_table_contiguous()
    ensures
        spec_sector_base(0) == FLASH_BASE,
        spec_sector_base(2) == FLASH_SECTOR2_BASE_ADDRESS,
        forall|n: u8| n < 7 ==> #[trigger] spec_sector_base((n + 1) as u8) == spec_sector_base(n)
            + spec_sector_size(n),
{
}

impl FlashSector {
    /// Look up the descriptor of sector `sector_num`; sectors 0-7 exist.
    pub fn get_sector_info(sector_num: u8) -> (r: Option<FlashSector>)
        ensures
            sector_num <= 7 ==> r == Some(
                FlashSector {
                    number: sector_num,
                    base_address: spec_sector_base(sector_num),
                    size: spec_sector_size(sector_num),
                },
            ),
            sector_num > 7 ==> r is None,
    {
        match sector_num {
            0 => Some(FlashSector { number: 0, base_address: 0x0800_0000, size: 16 * 1024 }),
            1 => Some(FlashSector { number: 1, base_address: 0x0800_4000, size: 16 * 1024 }),
            2 => Some(FlashSector { number: 2, base_address: 0x0800_8000, size: 16 * 1024 }),
            3 => Some(FlashSector { number: 3, base_address: 0x0800_C000, size: 16 * 1024 }),
            4 => Some(FlashSector { number: 4, base_address: 0x0801_0000, size: 64 * 1024 }),
            5 => Some(FlashSector { number: 5, base_address: 0x0802_0000, size: 128 * 1024 }),
            6 => Some(FlashSector { number: 6, base_address: 0x0804_0000, size: 128 * 1024 }),
            7 => Some(FlashSector { number: 7, base_address: 0x0806_0000, size: 128 * 1024 }),
            _ => None,
        }
    }
}

/// The consecutive sector range `(first, count)` an erase request maps to.
///
/// A request is rejected (`None`) when it asks for more than eight sectors
/// or names a start sector in `8..0xFF`.  `0xFF` requests a mass erase of
/// all eight sectors; otherwise the count is clamped to the sectors that
/// exist from the start sector up.
pub open spec fn spec_erase_range(sector_number: u8, number_of_sectors: u8) -> Option<(u8, u8)> {
    if number_of_sectors > 8 {
        None
    } else if sector_number == 0xFF {
        Some((0u8, 8u8))
    } else if sector_number <= 7 {
        let remaining = (8 - sector_number) as u8;
        if number_of_sectors > remaining {
            Some((sector_number, remaining))
        } else {
            Some((sector_number, number_of_sectors))
        }
    } else {
        None
    }
}

/// Decide which sectors an erase request covers, clamped to the table.
pub fn plan_flash_erase(sector_number: u8, number_of_sectors: u8) -> (r: Option<(u8, u8)>)
    ensures
        r == spec_erase_range(sector_number, number_of_sectors),
        r matches Some(range) ==> range.0 + range.1 <= 8,
{
    if number_of_sectors > 8 {
        None
    } else if sector_number == 0xFF {
        Some((0, 8))
    } else if sector_number <= 7 {
        let remaining: u8 = 8 - sector_number;
        let count: u8 = if number_of_sectors > remaining {
            remaining
        } else {
            number_of_sectors
        };
        Some((sector_number, count))
    } else {
        None
    }
}

/// The option-byte control register value that puts a protection change
/// into effect, derived from the value `optcr` currently read back.
///
/// * `disable` clears the read-protection enable bit 31, marks all eight
///   sectors unprotected (bits 16..23 set), and sets the start bit 1.
/// * mode 1 write-protects the sectors whose bits are set in
///   `sector_details` by clearing their bits 16..23, with bit 31 cleared.
/// * mode 2 read-and-write-protects: bit 31 set, bits 16..23 replaced by
///   `sector_details`.
///
/// Any other mode changes nothing and yields `None`.
pub open spec fn spec_protection_optcr(
    optcr: u32,
    sector_details: u8,
    protection_mode: u8,
    disable: bool,
) -> Option<u32> {
    if disable {
        Some((optcr & !0x8000_0000) | 0x00FF_0000 | 0x2)
    } else if protection_mode == 1 {
        Some((optcr & !0x8000_0000 & !((sector_details as u32) << 16)) | 0x2)
    } else if protection_mode == 2 {
        Some(((optcr | 0x8000_0000) & !0x00FF_0000) | ((sector_details as u32) << 16) | 0x2)
    } else {
        None
    }
}

/// Compute the register value for a protection change, or `None` when the
/// mode is unknown and nothing must be written.
pub fn protection_optcr_value(
    optcr: u32,
    sector_details: u8,
    protection_mode: u8,
    disable: bool,
) -> (r: Option<u32>)
    ensures
        r == spec_protection_optcr(optcr, sector_details, protection_mode, disable),
{
    if disable {
        Some((optcr & !0x8000_0000) | 0x00FF_0000 | 0x2)
    } else if protection_mode == 1 {
        Some((optcr & !0x8000_0000 & !((sector_details as u32) << 16u32)) | 0x2)
    } else if protection_mode == 2 {
        Some(((optcr | 0x8000_0000) & !0x00FF_0000) | ((sector_details as u32) << 16u32) | 0x2)
    } else {
        None
    }
}

} // verus!
