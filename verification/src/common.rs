//! Codec: pure conversions between decimal values and the packed
//! binary-coded-decimal bytes stored in the device registers, and between
//! [`Hours`] values and the hour register's 12h/24h + AM/PM bit layout.

use vstd::prelude::*;
use crate::{Error, Hours, BIT_AM_PM, BIT_H24_H12};

verus! {

/// Packed BCD encoding of a two-digit decimal number: the high nibble holds
/// the tens digit, the low nibble the ones digit.
pub open spec fn spec_decimal_to_bcd(n: int) -> int {
    16 * (n / 10) + n % 10
}

/// Decimal value of a packed BCD byte: ten times the high nibble plus the
/// low nibble.
pub open spec fn spec_bcd_to_decimal(b: int) -> int {
    10 * (b / 16) + b % 16
}

/// Is an hours value within the range its variant allows?
pub open spec fn spec_hours_valid(h: Hours) -> bool {
    match h {
        Hours::AM(x) => 1 <= x <= 12,
        Hours::PM(x) => 1 <= x <= 12,
        Hours::H24(x) => x <= 23,
    }
}

/// Register encoding of a valid hours value: plain BCD in 24-hour mode; in
/// 12-hour mode the format-select bit is set, and for PM also the AM/PM bit.
pub open spec fn spec_hours_to_register(h: Hours) -> int {
    match h {
        Hours::H24(x) => spec_decimal_to_bcd(x as int),
        Hours::AM(x) => BIT_H24_H12 + spec_decimal_to_bcd(x as int),
        Hours::PM(x) => BIT_H24_H12 + BIT_AM_PM + spec_decimal_to_bcd(x as int),
    }
}

/// Hours value decoded from the hour register: the format-select bit picks
/// 24-hour or 12-hour mode, the AM/PM bit picks the 12-hour variant, and
/// both flag bits are masked out of the BCD value.
pub open spec fn spec_hours_from_register(data: u8) -> Hours {
    if data & BIT_H24_H12 == 0 {
        Hours::H24(spec_bcd_to_decimal((data & !BIT_H24_H12) as int) as u8)
    } else if data & BIT_AM_PM == 0 {
        Hours::AM(spec_bcd_to_decimal((data & !(BIT_H24_H12 | BIT_AM_PM)) as int) as u8)
    } else {
        Hours::PM(spec_bcd_to_decimal((data & !(BIT_H24_H12 | BIT_AM_PM)) as int) as u8)
    }
}

/// Transforms a decimal number to packed BCD format.
pub fn decimal_to_packed_bcd(dec: u8) -> (r: u8)
    requires
        dec < 100,
    ensures
        r == spec_decimal_to_bcd(dec as int),
{
    (dec / 10) * 16 + dec % 10
}

/// Transforms a number in packed BCD format to decimal.
pub fn packed_bcd_to_decimal(bcd: u8) -> (r: u8)
    ensures
        r == spec_bcd_to_decimal(bcd as int),
{
    (bcd / 16) * 10 + bcd % 16
}

/// Does the hour register byte select 24-hour format?
pub fn is_24h_format(hours_data: u8) -> (r: bool)
    ensures
        r == (hours_data & BIT_H24_H12 == 0),
{
    hours_data & BIT_H24_H12 == 0
}

/// Does the hour register byte select AM (meaningful in 12-hour mode only)?
pub fn is_am(hours_data: u8) -> (r: bool)
    ensures
        r == (hours_data & BIT_AM_PM == 0),
{
    hours_data & BIT_AM_PM == 0
}

/// Encode an hours value into the hour register byte; an hours value out of
/// its variant's range is rejected.
pub fn hours_to_register<E>(hours: Hours) -> (r: Result<u8, Error<E>>)
    ensures
        r is Ok <==> spec_hours_valid(hours),
        r is Ok ==> r->Ok_0 == spec_hours_to_register(hours),
        r is Err ==> r->Err_0 is InvalidInputData,
{
    match hours {
        Hours::H24(h) => {
            if h > 23 {
                Err(Error::InvalidInputData)
            } else {
                Ok(decimal_to_packed_bcd(h))
            }
        },
        Hours::AM(h) => {
            if h < 1 || h > 12 {
                Err(Error::InvalidInputData)
            } else {
                let bcd = decimal_to_packed_bcd(h);
                proof {
                    assert(BIT_H24_H12 | bcd == BIT_H24_H12 + bcd) by (bit_vector)
                        requires
                            bcd < 0x20,
                    ;
                }
                Ok(BIT_H24_H12 | bcd)
            }
        },
        Hours::PM(h) => {
            if h < 1 || h > 12 {
                Err(Error::InvalidInputData)
            } else {
                let bcd = decimal_to_packed_bcd(h);
                proof {
                    assert(BIT_H24_H12 | BIT_AM_PM | bcd == BIT_H24_H12 + BIT_AM_PM + bcd)
                        by (bit_vector)
                        requires
                            bcd < 0x20,
                    ;
                }
                Ok(BIT_H24_H12 | BIT_AM_PM | bcd)
            }
        },
    }
}

/// Decode the hour register byte into an hours value.
pub fn hours_from_register(data: u8) -> (r: Hours)
    ensures
        r == spec_hours_from_register(data),
{
    if is_24h_format(data) {
        Hours::H24(packed_bcd_to_decimal(data & !BIT_H24_H12))
    } else if is_am(data) {
        Hours::AM(packed_bcd_to_decimal(data & !(BIT_H24_H12 | BIT_AM_PM)))
    } else {
        Hours::PM(packed_bcd_to_decimal(data & !(BIT_H24_H12 | BIT_AM_PM)))
    }
}

/// Decoding a packed BCD byte recovers the decimal number it was encoded
/// from, for every two-digit decimal number.
pub proof fn lemma_bcd_roundtrip(n: int)
    requires
        0 <= n < 100,
    ensures
        spec_bcd_to_decimal(spec_decimal_to_bcd(n)) == n,
{
    let q = n / 10;
    let r = n % 10;
    vstd::arithmetic::div_mod::lemma_fundamental_div_mod_converse(16 * q + r, 16, q, r);
}

/// Decoding the register encoding of a valid hours value recovers that
/// value exactly.
pub proof fn lemma_hours_roundtrip(h: Hours)
    requires
        spec_hours_valid(h),
    ensures
        spec_hours_from_register(spec_hours_to_register(h) as u8) == h,
{
    match h {
        Hours::H24(x) => {
            lemma_bcd_roundtrip(x as int);
            let b = spec_hours_to_register(h) as u8;
            assert(b & BIT_H24_H12 == 0 && (b & !BIT_H24_H12) == b) by (bit_vector)
                requires
                    b < 0x40,
            ;
        },
        Hours::AM(x) => {
            lemma_bcd_roundtrip(x as int);
            let b = spec_hours_to_register(h) as u8;
            assert(b & BIT_H24_H12 != 0 && b & BIT_AM_PM == 0 && (b & !(BIT_H24_H12
                | BIT_AM_PM)) == b - 0x40) by (bit_vector)
                requires
                    0x40 <= b < 0x60,
            ;
        },
        Hours::PM(x) => {
            lemma_bcd_roundtrip(x as int);
            let b = spec_hours_to_register(h) as u8;
            assert(b & BIT_H24_H12 != 0 && b & BIT_AM_PM != 0 && (b & !(BIT_H24_H12
                | BIT_AM_PM)) == b - 0x60) by (bit_vector)
                requires
                    0x60 <= b < 0x80,
            ;
        },
    }
}

} // verus!
