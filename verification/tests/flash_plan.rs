use ararext::flash::{plan_flash_erase, protection_optcr_value, FlashSector};
use ararext::handlers::{handle_flash_erase_cmd, FlashEraseOutcome};

#[test]
fn sector_table_matches_the_part() {
    let s0 = FlashSector::get_sector_info(0).unwrap();
    assert_eq!((s0.number, s0.base_address, s0.size), (0, 0x0800_0000, 16 * 1024));
    let s3 = FlashSector::get_sector_info(3).unwrap();
    assert_eq!((s3.number, s3.base_address, s3.size), (3, 0x0800_C000, 16 * 1024));
    let s4 = FlashSector::get_sector_info(4).unwrap();
    assert_eq!((s4.number, s4.base_address, s4.size), (4, 0x0801_0000, 64 * 1024));
    let s7 = FlashSector::get_sector_info(7).unwrap();
    assert_eq!((s7.number, s7.base_address, s7.size), (7, 0x0806_0000, 128 * 1024));
    assert_eq!(FlashSector::get_sector_info(8), None);
    assert_eq!(FlashSector::get_sector_info(0xFF), None);
}

#[test]
fn sector_bases_are_contiguous() {
    for n in 0..7u8 {
        let a = FlashSector::get_sector_info(n).unwrap();
        let b = FlashSector::get_sector_info(n + 1).unwrap();
        assert_eq!(a.base_address + a.size, b.base_address);
    }
}

#[test]
fn erase_clamps_to_the_table_end() {
    // Starting at sector 6, only sectors 6 and 7 exist.
    assert_eq!(plan_flash_erase(6, 5), Some((6, 2)));
    assert_eq!(plan_flash_erase(6, 2), Some((6, 2)));
    assert_eq!(plan_flash_erase(6, 1), Some((6, 1)));
    assert_eq!(plan_flash_erase(0, 8), Some((0, 8)));
    assert_eq!(plan_flash_erase(2, 3), Some((2, 3)));
}

#[test]
fn mass_erase_covers_all_eight_sectors() {
    assert_eq!(plan_flash_erase(0xFF, 0), Some((0, 8)));
    assert_eq!(plan_flash_erase(0xFF, 8), Some((0, 8)));
}

#[test]
fn impossible_erase_ranges_are_rejected() {
    assert_eq!(plan_flash_erase(0, 9), None);
    assert_eq!(plan_flash_erase(0xFF, 9), None);
    assert_eq!(plan_flash_erase(8, 1), None);
    assert_eq!(plan_flash_erase(0xFE, 1), None);
}

#[test]
fn erase_handler_decodes_and_clamps() {
    assert_eq!(
        handle_flash_erase_cmd(&[6, 5]),
        FlashEraseOutcome::Erase { start: 6, count: 2 }
    );
    assert_eq!(
        handle_flash_erase_cmd(&[0xFF, 0]),
        FlashEraseOutcome::Erase { start: 0, count: 8 }
    );
    assert_eq!(handle_flash_erase_cmd(&[8, 1]), FlashEraseOutcome::InvalidRange);
    assert_eq!(handle_flash_erase_cmd(&[0, 9]), FlashEraseOutcome::InvalidRange);
    assert_eq!(handle_flash_erase_cmd(&[6]), FlashEraseOutcome::Nack);
    assert_eq!(handle_flash_erase_cmd(&[]), FlashEraseOutcome::Nack);
}

#[test]
fn disabling_protection_opens_all_sectors() {
    // Bit 31 cleared, sector bits 16..23 all set, start bit 1 set.
    assert_eq!(protection_optcr_value(0x8000_0000, 0, 0, true), Some(0x00FF_0002));
    assert_eq!(protection_optcr_value(0xFFFF_FFFF, 0x55, 2, true), Some(0x7FFF_FFFF));
}

#[test]
fn write_protection_clears_selected_sector_bits() {
    // Mode 1: the chosen sectors' bits go to zero, bit 31 goes to zero.
    assert_eq!(protection_optcr_value(0xFFFF_FFFF, 0x03, 1, false), Some(0x7FFC_FFFF));
    assert_eq!(protection_optcr_value(0x00FF_0000, 0xFF, 1, false), Some(0x0000_0002));
}

#[test]
fn read_write_protection_sets_bit31_and_sector_field() {
    // Mode 2: bit 31 set, bits 16..23 replaced by the sector bitmap.
    assert_eq!(protection_optcr_value(0x0000_0000, 0xAB, 2, false), Some(0x80AB_0002));
    assert_eq!(protection_optcr_value(0x00FF_0000, 0x01, 2, false), Some(0x8001_0002));
}

#[test]
fn unknown_protection_mode_writes_nothing() {
    assert_eq!(protection_optcr_value(0x1234_5678, 0x0F, 0, false), None);
    assert_eq!(protection_optcr_value(0x1234_5678, 0x0F, 3, false), None);
}
