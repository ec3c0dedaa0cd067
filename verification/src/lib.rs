//! Serial bootloader protocol engine for an STM32F407-class microcontroller.
//!
//! The crate holds the device-independent core of the bootloader: the
//! CRC-32/MPEG-2 integrity check, the frame parser, the memory-map address
//! validator, the flash sector table with the erase planner, and the command
//! dispatcher that turns one received frame into a response and a device
//! action.  Byte I/O on the UART, flash register programming and the final
//! jump into the application are left to the surrounding firmware, which
//! feeds assembled frames in and carries the returned actions out.

pub mod constants;
pub mod crc;
pub mod memory;
pub mod flash;
pub mod packet;
pub mod handlers;
pub mod dispatch;
