//! The MCP794xx driver: owns a bus interface and exposes get/set accessors
//! per clock/calendar field, a combined get/set for the full date-time
//! record, and oscillator and battery-backup control.

use vstd::prelude::*;
use crate::common::{
    decimal_to_packed_bcd, hours_from_register, hours_to_register, lemma_bcd_roundtrip,
    lemma_hours_roundtrip, packed_bcd_to_decimal, spec_bcd_to_decimal, spec_decimal_to_bcd,
    spec_hours_from_register, spec_hours_to_register, spec_hours_valid,
};
use crate::interface::{spec_write_block, ReadData, Sealed, Transaction, WriteData};
use crate::{
    DateTime, Error, Hours, BIT_LPYR, BIT_OSCRUN, BIT_ST, BIT_VBATEN, MASK_WKDAY, NUM_REGS,
    REG_DATE, REG_HOURS, REG_MINUTES, REG_MONTH, REG_SECONDS, REG_WEEKDAY, REG_YEAR,
};

verus! {

/// MCP794xx RTCC driver.
#[derive(Debug, Default)]
pub struct Mcp794xx<DI> {
    iface: DI,
    is_enabled: bool,
}

/// Is every field of a date-time record within the range its register
/// accepts?
pub open spec fn spec_datetime_valid(dt: DateTime) -> bool {
    &&& dt.second < 60
    &&& dt.minute < 60
    &&& spec_hours_valid(dt.hour)
    &&& 1 <= dt.weekday <= 7
    &&& 1 <= dt.day <= 31
    &&& 1 <= dt.month <= 12
    &&& 2000 <= dt.year <= 2099
}

/// Byte written to the seconds register: the BCD seconds, with the
/// oscillator start bit re-asserted when the driver has enabled the clock.
pub open spec fn spec_seconds_byte(seconds: u8, enabled: bool) -> u8 {
    if enabled {
        (spec_decimal_to_bcd(seconds as int) as u8) | BIT_ST
    } else {
        spec_decimal_to_bcd(seconds as int) as u8
    }
}

/// Byte written back to the weekday register by `set_weekday`: the weekday
/// sub-field is replaced, every other bit keeps its current value.
pub open spec fn spec_weekday_byte(data: u8, weekday: u8) -> u8 {
    (data & !MASK_WKDAY) | (spec_decimal_to_bcd(weekday as int) as u8)
}

/// Weekday register byte with the battery-enable bit set or cleared, all
/// other bits kept.
pub open spec fn spec_vbat_byte(data: u8, enable: bool) -> u8 {
    if enable {
        data | BIT_VBATEN
    } else {
        data & !BIT_VBATEN
    }
}

/// The byte staged by `set_weekday` does not disturb the bits outside the
/// weekday sub-field already present in the weekday register (in particular
/// the battery-enable and oscillator-running status bits), and its weekday
/// sub-field holds exactly the new value.
pub proof fn lemma_weekday_byte_preserves_status_bits(data: u8, weekday: u8)
    requires
        1 <= weekday <= 7,
    ensures
        spec_weekday_byte(data, weekday) & !MASK_WKDAY == data & !MASK_WKDAY,
        spec_weekday_byte(data, weekday) & MASK_WKDAY == spec_decimal_to_bcd(weekday as int),
{
    let b = spec_decimal_to_bcd(weekday as int) as u8;
    assert(((data & !MASK_WKDAY) | b) & !MASK_WKDAY == data & !MASK_WKDAY && ((data
        & !MASK_WKDAY) | b) & MASK_WKDAY == b) by (bit_vector)
        requires
            b < 8,
    ;
}

/// The byte staged by `set_vbat_en` changes only the battery-enable bit of
/// the weekday register: every other bit keeps its value, and afterwards
/// the battery-enable bit reflects the request.
pub proof fn lemma_vbat_byte_changes_only_vbaten(data: u8, enable: bool)
    ensures
        spec_vbat_byte(data, enable) & !BIT_VBATEN == data & !BIT_VBATEN,
        (spec_vbat_byte(data, enable) & BIT_VBATEN != 0) == enable,
{
    if enable {
        assert((data | BIT_VBATEN) & !BIT_VBATEN == data & !BIT_VBATEN && (data | BIT_VBATEN)
            & BIT_VBATEN != 0) by (bit_vector);
    } else {
        assert((data & !BIT_VBATEN) & !BIT_VBATEN == data & !BIT_VBATEN && (data & !BIT_VBATEN)
            & BIT_VBATEN == 0) by (bit_vector);
    }
}

/// The date-time record decoded from the seven clock/calendar registers,
/// with the status bits that share those registers (oscillator start,
/// leap-year flag, weekday status bits) masked out.
pub open spec fn spec_datetime_from_regs(regs: Seq<u8>) -> DateTime {
    DateTime {
        year: (2000 + spec_bcd_to_decimal(regs[REG_YEAR as int] as int)) as u16,
        month: spec_bcd_to_decimal((regs[REG_MONTH as int] & !BIT_LPYR) as int) as u8,
        day: spec_bcd_to_decimal(regs[REG_DATE as int] as int) as u8,
        weekday: regs[REG_WEEKDAY as int] & MASK_WKDAY,
        hour: spec_hours_from_register(regs[REG_HOURS as int]),
        minute: spec_bcd_to_decimal(regs[REG_MINUTES as int] as int) as u8,
        second: spec_bcd_to_decimal((regs[REG_SECONDS as int] & !BIT_ST) as int) as u8,
    }
}

/// The register block staged by `set_datetime`: each field of the record
/// encoded into its register, preserving the oscillator start bit read from
/// the device and the status bits sharing the weekday register.
pub open spec fn spec_datetime_block(cur: Seq<u8>, dt: DateTime) -> Seq<u8> {
    seq![
        (cur[REG_SECONDS as int] & BIT_ST) | (spec_decimal_to_bcd(dt.second as int) as u8),
        spec_decimal_to_bcd(dt.minute as int) as u8,
        spec_hours_to_register(dt.hour) as u8,
        spec_weekday_byte(cur[REG_WEEKDAY as int], dt.weekday),
        spec_decimal_to_bcd(dt.day as int) as u8,
        spec_decimal_to_bcd(dt.month as int) as u8,
        spec_decimal_to_bcd(dt.year as int - 2000) as u8,
    ]
}

/// A register block staged from a valid record decodes back to exactly
/// that record: setting a date-time and then getting it returns what was
/// set, whatever status bits the device held beforehand.
pub proof fn lemma_datetime_roundtrip(regs: Seq<u8>, dt: DateTime)
    requires
        regs.len() == NUM_REGS as int,
        spec_datetime_valid(dt),
    ensures
        spec_datetime_from_regs(
            spec_write_block(regs, REG_SECONDS as int, spec_datetime_block(regs, dt)),
        ) == dt,
{
    let staged = spec_write_block(regs, REG_SECONDS as int, spec_datetime_block(regs, dt));
    assert(staged =~= spec_datetime_block(regs, dt));
    lemma_bcd_roundtrip(dt.second as int);
    let c0 = regs[REG_SECONDS as int];
    let sb = spec_decimal_to_bcd(dt.second as int) as u8;
    assert((((c0 & BIT_ST) | sb) & !BIT_ST) == sb) by (bit_vector)
        requires
            sb < 0x80,
    ;
    lemma_bcd_roundtrip(dt.minute as int);
    lemma_hours_roundtrip(dt.hour);
    let c3 = regs[REG_WEEKDAY as int];
    let wb = spec_decimal_to_bcd(dt.weekday as int) as u8;
    assert((((c3 & !MASK_WKDAY) | wb) & MASK_WKDAY) == wb) by (bit_vector)
        requires
            wb < 8,
    ;
    lemma_bcd_roundtrip(dt.day as int);
    lemma_bcd_roundtrip(dt.month as int);
    let mb = spec_decimal_to_bcd(dt.month as int) as u8;
    assert((mb & !BIT_LPYR) == mb) by (bit_vector)
        requires
            mb < 0x20,
    ;
    lemma_bcd_roundtrip(dt.year as int - 2000);
}

impl<DI> Mcp794xx<DI> {
    /// The bus interface the driver owns.
    pub closed spec fn spec_iface(&self) -> DI {
        self.iface
    }

    /// Whether the driver last told the device to run the oscillator.
    pub closed spec fn spec_is_enabled(&self) -> bool {
        self.is_enabled
    }

    /// Create a new instance of the MCP7940N device driver, bound to the
    /// bus interface it will exclusively own. The oscillator starts out
    /// disabled.
    pub fn new_mcp7940n(iface: DI) -> (r: Self)
        ensures
            r.spec_iface() == iface,
            !r.spec_is_enabled(),
    {
        Mcp794xx { iface, is_enabled: false }
    }

    /// Destroy driver instance, returning the bus interface.
    pub fn destroy_mcp7940n(self) -> (r: DI)
        ensures
            r == self.spec_iface(),
    {
        self.iface
    }
}

impl<DI: Sealed> Mcp794xx<DI> {
    /// The device's register block, as modelled by the bus interface.
    pub open spec fn regs(&self) -> Seq<u8> {
        self.spec_iface().regs()
    }

    /// History of bus transactions issued through the driver's interface.
    pub open spec fn history(&self) -> Seq<Transaction> {
        self.spec_iface().history()
    }

    /// The register block model covers the seven clock/calendar registers.
    pub open spec fn inv(&self) -> bool {
        self.regs().len() == NUM_REGS as int
    }
}

impl<DI, E> Mcp794xx<DI> where
    DI: ReadData<CommError = E> + WriteData<CommError = E>,
 {
    /// Validation helper: `Ok` exactly when `value < reference`.
    pub fn check_lt(value: u16, reference: u16) -> (r: Result<(), Error<E>>)
        ensures
            r is Ok <==> value < reference,
            r is Err ==> r->Err_0 is InvalidInputData,
    {
        if value < reference {
            Ok(())
        } else {
            Err(Error::InvalidInputData)
        }
    }

    /// Validation helper: `Ok` exactly when
    /// `lowest_valid <= value <= highest_valid`.
    pub fn check_between(value: u16, lowest_valid: u16, highest_valid: u16) -> (r: Result<
        (),
        Error<E>,
    >)
        ensures
            r is Ok <==> lowest_valid <= value <= highest_valid,
            r is Err ==> r->Err_0 is InvalidInputData,
    {
        if value < lowest_valid || value > highest_valid {
            Err(Error::InvalidInputData)
        } else {
            Ok(())
        }
    }

    /// Enable the oscillator (set the clock running).
    pub fn enable(&mut self) -> (r: Result<(), Error<E>>)
        requires
            old(self).inv(),
        ensures
            final(self).inv(),
            r is Ok ==> final(self).spec_is_enabled() && final(self).regs() == old(self).regs().update(
                REG_SECONDS as int,
                old(self).regs()[REG_SECONDS as int] | BIT_ST,
            ) && final(self).history() == old(self).history().push(
                Transaction::SingleRead { addr: REG_SECONDS },
            ).push(
                Transaction::SingleWrite {
                    addr: REG_SECONDS,
                    value: old(self).regs()[REG_SECONDS as int] | BIT_ST,
                },
            ),
            r is Err ==> r->Err_0 is Comm && final(self).spec_is_enabled() == old(self).spec_is_enabled(),
    {
        let seconds = match self.iface.read_register(REG_SECONDS) {
            Ok(d) => d,
            Err(e) => {
                return Err(Error::Comm(e));
            },
        };
        match self.iface.write_register(REG_SECONDS, seconds | BIT_ST) {
            Ok(()) => {
                self.is_enabled = true;
                Ok(())
            },
            Err(e) => Err(Error::Comm(e)),
        }
    }

    /// Disable the oscillator (stops the clock; the device default).
    pub fn disable(&mut self) -> (r: Result<(), Error<E>>)
        requires
            old(self).inv(),
        ensures
            final(self).inv(),
            r is Ok ==> !final(self).spec_is_enabled() && final(self).regs() == old(self).regs().update(
                REG_SECONDS as int,
                old(self).regs()[REG_SECONDS as int] & !BIT_ST,
            ) && final(self).history() == old(self).history().push(
                Transaction::SingleRead { addr: REG_SECONDS },
            ).push(
                Transaction::SingleWrite {
                    addr: REG_SECONDS,
                    value: old(self).regs()[REG_SECONDS as int] & !BIT_ST,
                },
            ),
            r is Err ==> r->Err_0 is Comm && final(self).spec_is_enabled() == old(self).spec_is_enabled(),
    {
        let seconds = match self.iface.read_register(REG_SECONDS) {
            Ok(d) => d,
            Err(e) => {
                return Err(Error::Comm(e));
            },
        };
        match self.iface.write_register(REG_SECONDS, seconds & !BIT_ST) {
            Ok(()) => {
                self.is_enabled = false;
                Ok(())
            },
            Err(e) => Err(Error::Comm(e)),
        }
    }

    /// Is the oscillator running? Reads the running-status bit of the
    /// weekday register. If it is not, set the time and call `enable`.
    pub fn oscillator_running(&mut self) -> (r: Result<bool, Error<E>>)
        requires
            old(self).inv(),
        ensures
            final(self).inv(),
            final(self).spec_is_enabled() == old(self).spec_is_enabled(),
            final(self).regs() == old(self).regs(),
            final(self).history() == old(self).history().push(
                Transaction::SingleRead { addr: REG_WEEKDAY },
            ),
            r is Ok ==> r->Ok_0 == (old(self).regs()[REG_WEEKDAY as int] & BIT_OSCRUN != 0),
            r is Err ==> r->Err_0 is Comm,
    {
        let data = match self.iface.read_register(REG_WEEKDAY) {
            Ok(d) => d,
            Err(e) => {
                return Err(Error::Comm(e));
            },
        };
        Ok(data & BIT_OSCRUN != 0)
    }

    /// Is the external battery backup enabled?
    pub fn vbat_is_enabled(&mut self) -> (r: Result<bool, Error<E>>)
        requires
            old(self).inv(),
        ensures
            final(self).inv(),
            final(self).spec_is_enabled() == old(self).spec_is_enabled(),
            final(self).regs() == old(self).regs(),
            final(self).history() == old(self).history().push(
                Transaction::SingleRead { addr: REG_WEEKDAY },
            ),
            r is Ok ==> r->Ok_0 == (old(self).regs()[REG_WEEKDAY as int] & BIT_VBATEN != 0),
            r is Err ==> r->Err_0 is Comm,
    {
        let data = match self.iface.read_register(REG_WEEKDAY) {
            Ok(d) => d,
            Err(e) => {
                return Err(Error::Comm(e));
            },
        };
        Ok(data & BIT_VBATEN != 0)
    }

    /// Enable or disable the external battery backup, keeping every other
    /// bit of the weekday register as it currently is on the device.
    pub fn set_vbat_en(&mut self, enable: bool) -> (r: Result<(), Error<E>>)
        requires
            old(self).inv(),
        ensures
            final(self).inv(),
            final(self).spec_is_enabled() == old(self).spec_is_enabled(),
            r is Ok ==> final(self).regs() == old(self).regs().update(
                REG_WEEKDAY as int,
                spec_vbat_byte(old(self).regs()[REG_WEEKDAY as int], enable),
            ) && final(self).history() == old(self).history().push(
                Transaction::SingleRead { addr: REG_WEEKDAY },
            ).push(
                Transaction::SingleWrite {
                    addr: REG_WEEKDAY,
                    value: spec_vbat_byte(old(self).regs()[REG_WEEKDAY as int], enable),
                },
            ),
            r is Err ==> r->Err_0 is Comm,
    {
        let data = match self.iface.read_register(REG_WEEKDAY) {
            Ok(d) => d,
            Err(e) => {
                return Err(Error::Comm(e));
            },
        };
        let value = if enable {
            data | BIT_VBATEN
        } else {
            data & !BIT_VBATEN
        };
        match self.iface.write_register(REG_WEEKDAY, value) {
            Ok(()) => Ok(()),
            Err(e) => Err(Error::Comm(e)),
        }
    }

    /// Read the seconds (0-59), masking out the oscillator start bit that
    /// shares the seconds register.
    pub fn get_seconds(&mut self) -> (r: Result<u8, Error<E>>)
        requires
            old(self).inv(),
        ensures
            final(self).inv(),
            final(self).spec_is_enabled() == old(self).spec_is_enabled(),
            final(self).regs() == old(self).regs(),
            final(self).history() == old(self).history().push(
                Transaction::SingleRead { addr: REG_SECONDS },
            ),
            r is Ok ==> r->Ok_0 == spec_bcd_to_decimal(
                (old(self).regs()[REG_SECONDS as int] & !BIT_ST) as int,
            ),
            r is Err ==> r->Err_0 is Comm,
    {
        let data = match self.iface.read_register(REG_SECONDS) {
            Ok(d) => d,
            Err(e) => {
                return Err(Error::Comm(e));
            },
        };
        Ok(packed_bcd_to_decimal(data & !BIT_ST))
    }

    /// Read the minutes (0-59).
    pub fn get_minutes(&mut self) -> (r: Result<u8, Error<E>>)
        requires
            old(self).inv(),
        ensures
            final(self).inv(),
            final(self).spec_is_enabled() == old(self).spec_is_enabled(),
            final(self).regs() == old(self).regs(),
            final(self).history() == old(self).history().push(
                Transaction::SingleRead { addr: REG_MINUTES },
            ),
            r is Ok ==> r->Ok_0 == spec_bcd_to_decimal(
                old(self).regs()[REG_MINUTES as int] as int,
            ),
            r is Err ==> r->Err_0 is Comm,
    {
        let data = match self.iface.read_register(REG_MINUTES) {
            Ok(d) => d,
            Err(e) => {
                return Err(Error::Comm(e));
            },
        };
        Ok(packed_bcd_to_decimal(data))
    }

    /// Read the hours, in whichever of the 24-hour or 12-hour formats the
    /// device currently uses.
    pub fn get_hours(&mut self) -> (r: Result<Hours, Error<E>>)
        requires
            old(self).inv(),
        ensures
            final(self).inv(),
            final(self).spec_is_enabled() == old(self).spec_is_enabled(),
            final(self).regs() == old(self).regs(),
            final(self).history() == old(self).history().push(
                Transaction::SingleRead { addr: REG_HOURS },
            ),
            r is Ok ==> r->Ok_0 == spec_hours_from_register(
                old(self).regs()[REG_HOURS as int],
            ),
            r is Err ==> r->Err_0 is Comm,
    {
        let data = match self.iface.read_register(REG_HOURS) {
            Ok(d) => d,
            Err(e) => {
                return Err(Error::Comm(e));
            },
        };
        Ok(hours_from_register(data))
    }

    /// Read the day of the week (1-7), masking out the status bits that
    /// share the weekday register.
    pub fn get_weekday(&mut self) -> (r: Result<u8, Error<E>>)
        requires
            old(self).inv(),
        ensures
            final(self).inv(),
            final(self).spec_is_enabled() == old(self).spec_is_enabled(),
            final(self).regs() == old(self).regs(),
            final(self).history() == old(self).history().push(
                Transaction::SingleRead { addr: REG_WEEKDAY },
            ),
            r is Ok ==> r->Ok_0 == old(self).regs()[REG_WEEKDAY as int] & MASK_WKDAY,
            r is Err ==> r->Err_0 is Comm,
    {
        let data = match self.iface.read_register(REG_WEEKDAY) {
            Ok(d) => d,
            Err(e) => {
                return Err(Error::Comm(e));
            },
        };
        Ok(data & MASK_WKDAY)
    }

    /// Read the day of the month (1-31).
    pub fn get_day(&mut self) -> (r: Result<u8, Error<E>>)
        requires
            old(self).inv(),
        ensures
            final(self).inv(),
            final(self).spec_is_enabled() == old(self).spec_is_enabled(),
            final(self).regs() == old(self).regs(),
            final(self).history() == old(self).history().push(
                Transaction::SingleRead { addr: REG_DATE },
            ),
            r is Ok ==> r->Ok_0 == spec_bcd_to_decimal(old(self).regs()[REG_DATE as int] as int),
            r is Err ==> r->Err_0 is Comm,
    {
        let data = match self.iface.read_register(REG_DATE) {
            Ok(d) => d,
            Err(e) => {
                return Err(Error::Comm(e));
            },
        };
        Ok(packed_bcd_to_decimal(data))
    }

    /// Read the month (1-12), masking out the leap-year flag that shares
    /// the month register.
    pub fn get_month(&mut self) -> (r: Result<u8, Error<E>>)
        requires
            old(self).inv(),
        ensures
            final(self).inv(),
            final(self).spec_is_enabled() == old(self).spec_is_enabled(),
            final(self).regs() == old(self).regs(),
            final(self).history() == old(self).history().push(
                Transaction::SingleRead { addr: REG_MONTH },
            ),
            r is Ok ==> r->Ok_0 == spec_bcd_to_decimal(
                (old(self).regs()[REG_MONTH as int] & !BIT_LPYR) as int,
            ),
            r is Err ==> r->Err_0 is Comm,
    {
        let data = match self.iface.read_register(REG_MONTH) {
            Ok(d) => d,
            Err(e) => {
                return Err(Error::Comm(e));
            },
        };
        Ok(packed_bcd_to_decimal(data & !BIT_LPYR))
    }

    /// Read the year (2000-2099); the device stores only the two low
    /// digits.
    pub fn get_year(&mut self) -> (r: Result<u16, Error<E>>)
        requires
            old(self).inv(),
        ensures
            final(self).inv(),
            final(self).spec_is_enabled() == old(self).spec_is_enabled(),
            final(self).regs() == old(self).regs(),
            final(self).history() == old(self).history().push(
                Transaction::SingleRead { addr: REG_YEAR },
            ),
            r is Ok ==> r->Ok_0 == 2000 + spec_bcd_to_decimal(
                old(self).regs()[REG_YEAR as int] as int,
            ),
            r is Err ==> r->Err_0 is Comm,
    {
        let data = match self.iface.read_register(REG_YEAR) {
            Ok(d) => d,
            Err(e) => {
                return Err(Error::Comm(e));
            },
        };
        let two_digit_year = packed_bcd_to_decimal(data);
        Ok(2000 + two_digit_year as u16)
    }

    /// Set the seconds (0-59), re-asserting the oscillator start bit when
    /// the driver has enabled the clock.
    pub fn set_seconds(&mut self, seconds: u8) -> (r: Result<(), Error<E>>)
        requires
            old(self).inv(),
        ensures
            final(self).inv(),
            final(self).spec_is_enabled() == old(self).spec_is_enabled(),
            seconds >= 60 ==> r is Err && r->Err_0 is InvalidInputData && final(self).regs()
                == old(self).regs() && final(self).history() == old(self).history(),
            seconds < 60 ==> final(self).history() == old(self).history().push(
                Transaction::SingleWrite {
                    addr: REG_SECONDS,
                    value: spec_seconds_byte(seconds, old(self).spec_is_enabled()),
                },
            ),
            seconds < 60 && r is Ok ==> final(self).regs() == old(self).regs().update(
                REG_SECONDS as int,
                spec_seconds_byte(seconds, old(self).spec_is_enabled()),
            ),
            seconds < 60 && r is Err ==> r->Err_0 is Comm,
    {
        match Self::check_lt(seconds as u16, 60) {
            Ok(()) => {},
            Err(e) => {
                return Err(e);
            },
        }
        let second = decimal_to_packed_bcd(seconds);
        let value = if self.is_enabled {
            second | BIT_ST
        } else {
            second
        };
        match self.iface.write_register(REG_SECONDS, value) {
            Ok(()) => Ok(()),
            Err(e) => Err(Error::Comm(e)),
        }
    }

    /// Set the minutes (0-59).
    pub fn set_minutes(&mut self, minutes: u8) -> (r: Result<(), Error<E>>)
        requires
            old(self).inv(),
        ensures
            final(self).inv(),
            final(self).spec_is_enabled() == old(self).spec_is_enabled(),
            minutes >= 60 ==> r is Err && r->Err_0 is InvalidInputData && final(self).regs()
                == old(self).regs() && final(self).history() == old(self).history(),
            minutes < 60 ==> final(self).history() == old(self).history().push(
                Transaction::SingleWrite {
                    addr: REG_MINUTES,
                    value: spec_decimal_to_bcd(minutes as int) as u8,
                },
            ),
            minutes < 60 && r is Ok ==> final(self).regs() == old(self).regs().update(
                REG_MINUTES as int,
                spec_decimal_to_bcd(minutes as int) as u8,
            ),
            minutes < 60 && r is Err ==> r->Err_0 is Comm,
    {
        match Self::check_lt(minutes as u16, 60) {
            Ok(()) => {},
            Err(e) => {
                return Err(e);
            },
        }
        let data = decimal_to_packed_bcd(minutes);
        match self.iface.write_register(REG_MINUTES, data) {
            Ok(()) => Ok(()),
            Err(e) => Err(Error::Comm(e)),
        }
    }

    /// Set the hours, switching the device to the 24-hour or 12-hour
    /// operating mode the value carries.
    pub fn set_hours(&mut self, hours: Hours) -> (r: Result<(), Error<E>>)
        requires
            old(self).inv(),
        ensures
            final(self).inv(),
            final(self).spec_is_enabled() == old(self).spec_is_enabled(),
            !spec_hours_valid(hours) ==> r is Err && r->Err_0 is InvalidInputData && final(self).regs() == old(self).regs() && final(self).history() == old(self).history(),
            spec_hours_valid(hours) ==> final(self).history() == old(self).history().push(
                Transaction::SingleWrite {
                    addr: REG_HOURS,
                    value: spec_hours_to_register(hours) as u8,
                },
            ),
            spec_hours_valid(hours) && r is Ok ==> final(self).regs() == old(self).regs().update(REG_HOURS as int, spec_hours_to_register(hours) as u8),
            spec_hours_valid(hours) && r is Err ==> r->Err_0 is Comm,
    {
        let data = match hours_to_register(hours) {
            Ok(d) => d,
            Err(e) => {
                return Err(e);
            },
        };
        match self.iface.write_register(REG_HOURS, data) {
            Ok(()) => Ok(()),
            Err(e) => Err(Error::Comm(e)),
        }
    }

    /// Set the day of the week (1-7), keeping the status bits that share
    /// the weekday register as they currently are on the device.
    pub fn set_weekday(&mut self, weekday: u8) -> (r: Result<(), Error<E>>)
        requires
            old(self).inv(),
        ensures
            final(self).inv(),
            final(self).spec_is_enabled() == old(self).spec_is_enabled(),
            !(1 <= weekday <= 7) ==> r is Err && r->Err_0 is InvalidInputData && final(self).regs() == old(self).regs() && final(self).history() == old(self).history(),
            1 <= weekday <= 7 && r is Ok ==> final(self).regs() == old(self).regs().update(
                REG_WEEKDAY as int,
                spec_weekday_byte(old(self).regs()[REG_WEEKDAY as int], weekday),
            ) && final(self).history() == old(self).history().push(
                Transaction::SingleRead { addr: REG_WEEKDAY },
            ).push(
                Transaction::SingleWrite {
                    addr: REG_WEEKDAY,
                    value: spec_weekday_byte(old(self).regs()[REG_WEEKDAY as int], weekday),
                },
            ),
            1 <= weekday <= 7 && r is Err ==> r->Err_0 is Comm,
    {
        match Self::check_between(weekday as u16, 1, 7) {
            Ok(()) => {},
            Err(e) => {
                return Err(e);
            },
        }
        let data = match self.iface.read_register(REG_WEEKDAY) {
            Ok(d) => d,
            Err(e) => {
                return Err(Error::Comm(e));
            },
        };
        let value = (data & !MASK_WKDAY) | decimal_to_packed_bcd(weekday);
        match self.iface.write_register(REG_WEEKDAY, value) {
            Ok(()) => Ok(()),
            Err(e) => Err(Error::Comm(e)),
        }
    }

    /// Set the day of the month (1-31).
    pub fn set_day(&mut self, day: u8) -> (r: Result<(), Error<E>>)
        requires
            old(self).inv(),
        ensures
            final(self).inv(),
            final(self).spec_is_enabled() == old(self).spec_is_enabled(),
            !(1 <= day <= 31) ==> r is Err && r->Err_0 is InvalidInputData && final(self).regs() == old(self).regs() && final(self).history() == old(self).history(),
            1 <= day <= 31 ==> final(self).history() == old(self).history().push(
                Transaction::SingleWrite {
                    addr: REG_DATE,
                    value: spec_decimal_to_bcd(day as int) as u8,
                },
            ),
            1 <= day <= 31 && r is Ok ==> final(self).regs() == old(self).regs().update(
                REG_DATE as int,
                spec_decimal_to_bcd(day as int) as u8,
            ),
            1 <= day <= 31 && r is Err ==> r->Err_0 is Comm,
    {
        match Self::check_between(day as u16, 1, 31) {
            Ok(()) => {},
            Err(e) => {
                return Err(e);
            },
        }
        let data = decimal_to_packed_bcd(day);
        match self.iface.write_register(REG_DATE, data) {
            Ok(()) => Ok(()),
            Err(e) => Err(Error::Comm(e)),
        }
    }

    /// Set the month (1-12).
    pub fn set_month(&mut self, month: u8) -> (r: Result<(), Error<E>>)
        requires
            old(self).inv(),
        ensures
            final(self).inv(),
            final(self).spec_is_enabled() == old(self).spec_is_enabled(),
            !(1 <= month <= 12) ==> r is Err && r->Err_0 is InvalidInputData && final(self).regs() == old(self).regs() && final(self).history() == old(self).history(),
            1 <= month <= 12 ==> final(self).history() == old(self).history().push(
                Transaction::SingleWrite {
                    addr: REG_MONTH,
                    value: spec_decimal_to_bcd(month as int) as u8,
                },
            ),
            1 <= month <= 12 && r is Ok ==> final(self).regs() == old(self).regs().update(
                REG_MONTH as int,
                spec_decimal_to_bcd(month as int) as u8,
            ),
            1 <= month <= 12 && r is Err ==> r->Err_0 is Comm,
    {
        match Self::check_between(month as u16, 1, 12) {
            Ok(()) => {},
            Err(e) => {
                return Err(e);
            },
        }
        let data = decimal_to_packed_bcd(month);
        match self.iface.write_register(REG_MONTH, data) {
            Ok(()) => Ok(()),
            Err(e) => Err(Error::Comm(e)),
        }
    }

    /// Set the year (2000-2099); the device stores only the two low
    /// digits.
    pub fn set_year(&mut self, year: u16) -> (r: Result<(), Error<E>>)
        requires
            old(self).inv(),
        ensures
            final(self).inv(),
            final(self).spec_is_enabled() == old(self).spec_is_enabled(),
            !(2000 <= year <= 2099) ==> r is Err && r->Err_0 is InvalidInputData && final(self).regs() == old(self).regs() && final(self).history() == old(self).history(),
            2000 <= year <= 2099 ==> final(self).history() == old(self).history().push(
                Transaction::SingleWrite {
                    addr: REG_YEAR,
                    value: spec_decimal_to_bcd(year as int - 2000) as u8,
                },
            ),
            2000 <= year <= 2099 && r is Ok ==> final(self).regs() == old(self).regs().update(
                REG_YEAR as int,
                spec_decimal_to_bcd(year as int - 2000) as u8,
            ),
            2000 <= year <= 2099 && r is Err ==> r->Err_0 is Comm,
    {
        match Self::check_between(year, 2000, 2099) {
            Ok(()) => {},
            Err(e) => {
                return Err(e);
            },
        }
        let data = decimal_to_packed_bcd((year - 2000) as u8);
        match self.iface.write_register(REG_YEAR, data) {
            Ok(()) => Ok(()),
            Err(e) => Err(Error::Comm(e)),
        }
    }

    /// Read the full date-time record in exactly one burst read spanning
    /// the seven clock/calendar registers. The device buffers a snapshot
    /// internally, so a single transaction cannot see a rollover between
    /// fields, where seven single reads could.
    pub fn get_datetime(&mut self) -> (r: Result<DateTime, Error<E>>)
        requires
            old(self).inv(),
        ensures
            final(self).inv(),
            final(self).spec_is_enabled() == old(self).spec_is_enabled(),
            final(self).regs() == old(self).regs(),
            final(self).history() == old(self).history().push(
                Transaction::BurstRead { start: REG_SECONDS, len: NUM_REGS as nat },
            ),
            r is Ok ==> r->Ok_0 == spec_datetime_from_regs(old(self).regs()),
            r is Err ==> r->Err_0 is Comm,
    {
        // One extra leading byte carries the start address, per the
        // bus-interface contract.
        let mut buffer: Vec<u8> = Vec::new();
        buffer.push(REG_SECONDS);
        buffer.push(0);
        buffer.push(0);
        buffer.push(0);
        buffer.push(0);
        buffer.push(0);
        buffer.push(0);
        buffer.push(0);
        match self.iface.read_data(&mut buffer) {
            Ok(()) => {},
            Err(e) => {
                return Err(Error::Comm(e));
            },
        }
        let second = packed_bcd_to_decimal(buffer[1] & !BIT_ST);
        let minute = packed_bcd_to_decimal(buffer[2]);
        let hour = hours_from_register(buffer[3]);
        let weekday = buffer[4] & MASK_WKDAY;
        let day = packed_bcd_to_decimal(buffer[5]);
        let month = packed_bcd_to_decimal(buffer[6] & !BIT_LPYR);
        let two_digit_year = packed_bcd_to_decimal(buffer[7]);
        let year = 2000 + two_digit_year as u16;
        Ok(DateTime { year, month, day, weekday, hour, minute, second })
    }

    /// Set the full date-time record: one burst read of the seven
    /// clock/calendar registers to learn the status bits that must be
    /// preserved, validation of every field, then one burst write of the
    /// whole staged block. A record with any field out of range is rejected
    /// before any write reaches the device.
    pub fn set_datetime(&mut self, datetime: &DateTime) -> (r: Result<(), Error<E>>)
        requires
            old(self).inv(),
        ensures
            final(self).inv(),
            final(self).spec_is_enabled() == old(self).spec_is_enabled(),
            r is Ok ==> spec_datetime_valid(*datetime) && final(self).regs() == spec_write_block(
                old(self).regs(),
                REG_SECONDS as int,
                spec_datetime_block(old(self).regs(), *datetime),
            ) && final(self).history() == old(self).history().push(
                Transaction::BurstRead { start: REG_SECONDS, len: NUM_REGS as nat },
            ).push(
                Transaction::BurstWrite {
                    start: REG_SECONDS,
                    values: spec_datetime_block(old(self).regs(), *datetime),
                },
            ),
            !spec_datetime_valid(*datetime) ==> r is Err && final(self).regs() == old(
                self,
            ).regs() && final(self).history() == old(self).history().push(
                Transaction::BurstRead { start: REG_SECONDS, len: NUM_REGS as nat },
            ),
            r is Err ==> r->Err_0 is Comm || r->Err_0 is InvalidInputData,
            spec_datetime_valid(*datetime) && r is Err ==> r->Err_0 is Comm,
    {
        // One burst read of all seven registers: the oscillator start bit
        // and the weekday status bits must be preserved in the staged block.
        let mut buffer: Vec<u8> = Vec::new();
        buffer.push(REG_SECONDS);
        buffer.push(0);
        buffer.push(0);
        buffer.push(0);
        buffer.push(0);
        buffer.push(0);
        buffer.push(0);
        buffer.push(0);
        match self.iface.read_data(&mut buffer) {
            Ok(()) => {},
            Err(e) => {
                return Err(Error::Comm(e));
            },
        }
        match Self::check_lt(datetime.second as u16, 60) {
            Ok(()) => {},
            Err(e) => {
                return Err(e);
            },
        }
        let second_byte = (buffer[1] & BIT_ST) | decimal_to_packed_bcd(datetime.second);
        buffer[1] = second_byte;
        match Self::check_lt(datetime.minute as u16, 60) {
            Ok(()) => {},
            Err(e) => {
                return Err(e);
            },
        }
        buffer[2] = decimal_to_packed_bcd(datetime.minute);
        let hour_byte = match hours_to_register(datetime.hour) {
            Ok(d) => d,
            Err(e) => {
                return Err(e);
            },
        };
        buffer[3] = hour_byte;
        match Self::check_between(datetime.weekday as u16, 1, 7) {
            Ok(()) => {},
            Err(e) => {
                return Err(e);
            },
        }
        let weekday_byte = (buffer[4] & !MASK_WKDAY) | decimal_to_packed_bcd(datetime.weekday);
        buffer[4] = weekday_byte;
        match Self::check_between(datetime.day as u16, 1, 31) {
            Ok(()) => {},
            Err(e) => {
                return Err(e);
            },
        }
        buffer[5] = decimal_to_packed_bcd(datetime.day);
        match Self::check_between(datetime.month as u16, 1, 12) {
            Ok(()) => {},
            Err(e) => {
                return Err(e);
            },
        }
        buffer[6] = decimal_to_packed_bcd(datetime.month);
        match Self::check_between(datetime.year, 2000, 2099) {
            Ok(()) => {},
            Err(e) => {
                return Err(e);
            },
        }
        buffer[7] = decimal_to_packed_bcd((datetime.year - 2000) as u8);
        proof {
            assert(buffer@.subrange(1, buffer@.len() as int) =~= spec_datetime_block(
                old(self).regs(),
                *datetime,
            ));
        }
        match self.iface.write_data(buffer.as_slice()) {
            Ok(()) => Ok(()),
            Err(e) => Err(Error::Comm(e)),
        }
    }
}

} // verus!
