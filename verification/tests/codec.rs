use mcp794xx::common::{
    decimal_to_packed_bcd, hours_from_register, hours_to_register, is_24h_format, is_am,
    packed_bcd_to_decimal,
};
use mcp794xx::{Error, Hours};

#[test]
fn can_convert_packed_bcd_to_decimal() {
    assert_eq!(0, packed_bcd_to_decimal(0b0000_0000));
    assert_eq!(1, packed_bcd_to_decimal(0b0000_0001));
    assert_eq!(9, packed_bcd_to_decimal(0b0000_1001));
    assert_eq!(10, packed_bcd_to_decimal(0b0001_0000));
    assert_eq!(11, packed_bcd_to_decimal(0b0001_0001));
    assert_eq!(19, packed_bcd_to_decimal(0b0001_1001));
    assert_eq!(20, packed_bcd_to_decimal(0b0010_0000));
    assert_eq!(21, packed_bcd_to_decimal(0b0010_0001));
    assert_eq!(59, packed_bcd_to_decimal(0b0101_1001));
}

#[test]
fn can_convert_decimal_to_packed_bcd() {
    assert_eq!(0b0000_0000, decimal_to_packed_bcd(0));
    assert_eq!(0b0000_0001, decimal_to_packed_bcd(1));
    assert_eq!(0b0000_1001, decimal_to_packed_bcd(9));
    assert_eq!(0b0001_0000, decimal_to_packed_bcd(10));
    assert_eq!(0b0001_0001, decimal_to_packed_bcd(11));
    assert_eq!(0b0001_1001, decimal_to_packed_bcd(19));
    assert_eq!(0b0010_0000, decimal_to_packed_bcd(20));
    assert_eq!(0b0010_0001, decimal_to_packed_bcd(21));
    assert_eq!(0b0101_1001, decimal_to_packed_bcd(59));
}

#[test]
fn bcd_roundtrip_for_every_two_digit_number() {
    for n in 0..100u8 {
        assert_eq!(n, packed_bcd_to_decimal(decimal_to_packed_bcd(n)));
    }
}

#[test]
fn hours_roundtrip_for_every_valid_value() {
    for h in 0..24u8 {
        let reg = hours_to_register::<()>(Hours::H24(h)).unwrap();
        assert_eq!(Hours::H24(h), hours_from_register(reg));
    }
    for h in 1..13u8 {
        let reg = hours_to_register::<()>(Hours::AM(h)).unwrap();
        assert_eq!(Hours::AM(h), hours_from_register(reg));
        let reg = hours_to_register::<()>(Hours::PM(h)).unwrap();
        assert_eq!(Hours::PM(h), hours_from_register(reg));
    }
}

#[test]
fn hours_out_of_range_are_rejected() {
    assert!(matches!(
        hours_to_register::<()>(Hours::H24(24)),
        Err(Error::InvalidInputData)
    ));
    assert!(matches!(
        hours_to_register::<()>(Hours::AM(0)),
        Err(Error::InvalidInputData)
    ));
    assert!(matches!(
        hours_to_register::<()>(Hours::AM(13)),
        Err(Error::InvalidInputData)
    ));
    assert!(matches!(
        hours_to_register::<()>(Hours::PM(0)),
        Err(Error::InvalidInputData)
    ));
    assert!(matches!(
        hours_to_register::<()>(Hours::PM(13)),
        Err(Error::InvalidInputData)
    ));
}

#[test]
fn hours_in_range_encode_with_format_bits() {
    assert_eq!(0x23, hours_to_register::<()>(Hours::H24(23)).unwrap());
    assert_eq!(0x00, hours_to_register::<()>(Hours::H24(0)).unwrap());
    assert_eq!(0x52, hours_to_register::<()>(Hours::AM(12)).unwrap());
    assert_eq!(0x41, hours_to_register::<()>(Hours::AM(1)).unwrap());
    assert_eq!(0x61, hours_to_register::<()>(Hours::PM(1)).unwrap());
    assert_eq!(0x72, hours_to_register::<()>(Hours::PM(12)).unwrap());
}

#[test]
fn format_bits_are_recognised() {
    assert!(is_24h_format(0x23));
    assert!(!is_24h_format(0x52));
    assert!(is_am(0x52));
    assert!(!is_am(0x61));
    assert_eq!(Hours::H24(23), hours_from_register(0x23));
    assert_eq!(Hours::AM(12), hours_from_register(0x52));
    assert_eq!(Hours::PM(1), hours_from_register(0x61));
}
