//! Register-level driver for the MCP794xx real-time-clock / calendar family.
//!
//! The driver translates high-level time getters and setters into
//! correctly-encoded register reads and writes over a serial bus, validating
//! inputs and converting between decimal and the packed binary-coded-decimal
//! representation mandated by the chip's register map.

use vstd::prelude::*;

pub mod common;
pub mod driver;
pub mod interface;

pub use driver::Mcp794xx;

// Re-exported so that outside transport bindings can implement the bus
// interface traits, whose model functions mention sequences.
pub use vstd::seq::Seq;

verus! {

/// Number of clock/calendar registers covered by the driver
/// (seconds through year, addresses `0x00`..=`0x06`).
pub const NUM_REGS: usize = 7;

/// Address of the seconds register (bit 7 is the oscillator start bit).
pub const REG_SECONDS: u8 = 0x00;

/// Address of the minutes register.
pub const REG_MINUTES: u8 = 0x01;

/// Address of the hours register.
pub const REG_HOURS: u8 = 0x02;

/// Address of the weekday register (also holds the battery-enable and
/// oscillator-running status bits).
pub const REG_WEEKDAY: u8 = 0x03;

/// Address of the day-of-month register.
pub const REG_DATE: u8 = 0x04;

/// Address of the month register (bit 5 is the read-only leap-year flag).
pub const REG_MONTH: u8 = 0x05;

/// Address of the year register (two-digit BCD, offset +2000).
pub const REG_YEAR: u8 = 0x06;

/// Oscillator start bit in the seconds register.
pub const BIT_ST: u8 = 0b1000_0000;

/// 12/24-hour format select bit in the hours register.
pub const BIT_H24_H12: u8 = 0b0100_0000;

/// AM/PM select bit in the hours register (meaningful in 12-hour mode).
pub const BIT_AM_PM: u8 = 0b0010_0000;

/// Battery-enable bit in the weekday register.
pub const BIT_VBATEN: u8 = 0b0000_1000;

/// Oscillator-running status bit in the weekday register.
pub const BIT_OSCRUN: u8 = 0b0010_0000;

/// Weekday sub-field (bits 0-2) of the weekday register.
pub const MASK_WKDAY: u8 = 0b0000_0111;

/// Leap-year flag in the month register.
pub const BIT_LPYR: u8 = 0b0010_0000;

/// All possible errors in this crate.
#[derive(Debug)]
pub enum Error<CommE> {
    /// Bus communication error, passed through from the bus interface.
    Comm(CommE),
    /// Invalid input data provided.
    InvalidInputData,
}

/// Hours in either 12-hour (AM/PM) or 24-hour format.
#[derive(Debug, Clone, Copy, PartialEq, Eq, Structural)]
pub enum Hours {
    /// AM (1-12)
    AM(u8),
    /// PM (1-12)
    PM(u8),
    /// 24-hour format (0-23)
    H24(u8),
}

/// Date and time, one field per clock/calendar register.
#[derive(Debug, Clone, Copy, PartialEq, Eq, Structural)]
pub struct DateTime {
    /// Year (2000-2099)
    pub year: u16,
    /// Month (1-12)
    pub month: u8,
    /// Day of month (1-31)
    pub day: u8,
    /// Day of week (1-7)
    pub weekday: u8,
    /// Hour in 24-hour or 12-hour format
    pub hour: Hours,
    /// Minute (0-59)
    pub minute: u8,
    /// Second (0-59)
    pub second: u8,
}

} // verus!
