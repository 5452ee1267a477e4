use mcp794xx::interface::{SimBus, SimBusError};
use mcp794xx::{DateTime, Error, Hours, Mcp794xx};

fn new_driver(regs: [u8; 7]) -> Mcp794xx<SimBus> {
    Mcp794xx::new_mcp7940n(SimBus::new(regs.to_vec()))
}

#[test]
fn destroy_returns_the_bus() {
    let driver = new_driver([1, 2, 3, 4, 5, 6, 7]);
    let bus = driver.destroy_mcp7940n();
    assert_eq!(4, bus.register(3));
}

#[test]
fn enable_and_disable_toggle_the_start_bit_only() {
    let mut driver = new_driver([0x12, 0, 0, 0, 0, 0, 0]);
    driver.enable().unwrap();
    {
        let bus = driver.destroy_mcp7940n();
        assert_eq!(0x92, bus.register(0));
        driver = Mcp794xx::new_mcp7940n(bus);
    }
    driver.disable().unwrap();
    let bus = driver.destroy_mcp7940n();
    assert_eq!(0x12, bus.register(0));
}

#[test]
fn set_seconds_out_of_range_is_rejected_without_a_write() {
    let mut driver = new_driver([0; 7]);
    assert!(matches!(driver.set_seconds(60), Err(Error::InvalidInputData)));
    let bus = driver.destroy_mcp7940n();
    assert_eq!(0, bus.register(0));
    assert_eq!(0, bus.single_write_count());
    assert_eq!(0, bus.burst_write_count());
}

#[test]
fn set_seconds_reasserts_start_bit_when_enabled() {
    let mut driver = new_driver([0; 7]);
    driver.set_seconds(59).unwrap();
    {
        let bus = driver.destroy_mcp7940n();
        assert_eq!(0x59, bus.register(0));
        driver = Mcp794xx::new_mcp7940n(bus);
    }
    driver.enable().unwrap();
    driver.set_seconds(59).unwrap();
    let bus = driver.destroy_mcp7940n();
    assert_eq!(0x59 | 0x80, bus.register(0));
}

#[test]
fn set_year_bounds_and_bcd_encoding() {
    let mut driver = new_driver([0; 7]);
    assert!(matches!(driver.set_year(1999), Err(Error::InvalidInputData)));
    assert!(matches!(driver.set_year(2100), Err(Error::InvalidInputData)));
    driver.set_year(2000).unwrap();
    {
        let bus = driver.destroy_mcp7940n();
        assert_eq!(0x00, bus.register(6));
        assert_eq!(1, bus.single_write_count());
        driver = Mcp794xx::new_mcp7940n(bus);
    }
    driver.set_year(2099).unwrap();
    let bus = driver.destroy_mcp7940n();
    assert_eq!(0x99, bus.register(6));
}

#[test]
fn set_weekday_keeps_status_bits() {
    // VBATEN (bit 3) and OSCRUN (bit 5) already set in the weekday register
    let mut driver = new_driver([0, 0, 0, 0b0010_1000, 0, 0, 0]);
    driver.set_weekday(3).unwrap();
    assert_eq!(3, driver.get_weekday().unwrap());
    assert!(driver.vbat_is_enabled().unwrap());
    assert!(driver.oscillator_running().unwrap());
    let bus = driver.destroy_mcp7940n();
    assert_eq!(0b0010_1011, bus.register(3));
}

#[test]
fn set_weekday_out_of_range_is_rejected() {
    let mut driver = new_driver([0; 7]);
    assert!(matches!(driver.set_weekday(0), Err(Error::InvalidInputData)));
    assert!(matches!(driver.set_weekday(8), Err(Error::InvalidInputData)));
    let bus = driver.destroy_mcp7940n();
    assert_eq!(0, bus.single_write_count());
}

#[test]
fn set_vbat_en_changes_only_the_battery_bit() {
    let mut driver = new_driver([0, 0, 0, 0b0010_0011, 0, 0, 0]);
    driver.set_vbat_en(true).unwrap();
    {
        let bus = driver.destroy_mcp7940n();
        assert_eq!(0b0010_1011, bus.register(3));
        driver = Mcp794xx::new_mcp7940n(bus);
    }
    driver.set_vbat_en(false).unwrap();
    let bus = driver.destroy_mcp7940n();
    assert_eq!(0b0010_0011, bus.register(3));
}

#[test]
fn per_field_getters_mask_status_bits() {
    let mut driver = new_driver([0xD9, 0x58, 0x52, 0x0B, 0x31, 0x32, 0x99]);
    assert_eq!(59, driver.get_seconds().unwrap());
    assert_eq!(58, driver.get_minutes().unwrap());
    assert_eq!(Hours::AM(12), driver.get_hours().unwrap());
    assert_eq!(3, driver.get_weekday().unwrap());
    assert_eq!(31, driver.get_day().unwrap());
    // leap-year flag (bit 5) is masked out of the month
    assert_eq!(12, driver.get_month().unwrap());
    assert_eq!(2099, driver.get_year().unwrap());
}

#[test]
fn per_field_setters_encode_bcd() {
    let mut driver = new_driver([0; 7]);
    driver.set_minutes(58).unwrap();
    driver.set_hours(Hours::PM(11)).unwrap();
    driver.set_day(25).unwrap();
    driver.set_month(12).unwrap();
    let bus = driver.destroy_mcp7940n();
    assert_eq!(0x58, bus.register(1));
    assert_eq!(0x71, bus.register(2));
    assert_eq!(0x25, bus.register(4));
    assert_eq!(0x12, bus.register(5));
    assert_eq!(4, bus.single_write_count());
}

#[test]
fn per_field_setters_reject_out_of_range_values() {
    let mut driver = new_driver([0; 7]);
    assert!(matches!(driver.set_minutes(60), Err(Error::InvalidInputData)));
    assert!(matches!(
        driver.set_hours(Hours::H24(24)),
        Err(Error::InvalidInputData)
    ));
    assert!(matches!(driver.set_day(0), Err(Error::InvalidInputData)));
    assert!(matches!(driver.set_day(32), Err(Error::InvalidInputData)));
    assert!(matches!(driver.set_month(0), Err(Error::InvalidInputData)));
    assert!(matches!(driver.set_month(13), Err(Error::InvalidInputData)));
    let bus = driver.destroy_mcp7940n();
    assert_eq!(0, bus.single_write_count());
    assert_eq!(0, bus.burst_write_count());
}

#[test]
fn get_datetime_decodes_a_snapshot() {
    // seconds with ST set, minutes, hour in 12h AM mode, weekday with
    // VBATEN, date, month, year
    let mut driver = new_driver([0xD9, 0x59, 0x52, 0x0B, 0x31, 0x12, 0x99]);
    let dt = driver.get_datetime().unwrap();
    assert_eq!(
        DateTime {
            year: 2099,
            month: 12,
            day: 31,
            weekday: 3,
            hour: Hours::AM(12),
            minute: 59,
            second: 59,
        },
        dt
    );
}

#[test]
fn get_datetime_is_a_single_burst_read() {
    let mut driver = new_driver([0; 7]);
    driver.get_datetime().unwrap();
    let bus = driver.destroy_mcp7940n();
    assert_eq!(1, bus.burst_read_count());
    assert_eq!(0, bus.single_read_count());
    assert_eq!(0, bus.single_write_count());
    assert_eq!(0, bus.burst_write_count());
}

#[test]
fn set_datetime_stages_the_whole_block_in_one_burst_write() {
    let mut driver = new_driver([0xD9, 0x59, 0x52, 0x0B, 0x31, 0x12, 0x99]);
    let dt = DateTime {
        year: 2018,
        month: 8,
        day: 13,
        weekday: 2,
        hour: Hours::H24(23),
        minute: 59,
        second: 58,
    };
    driver.set_datetime(&dt).unwrap();
    let bus = driver.destroy_mcp7940n();
    // start bit preserved from the device
    assert_eq!(0x80 | 0x58, bus.register(0));
    assert_eq!(0x59, bus.register(1));
    assert_eq!(0x23, bus.register(2));
    // weekday status bits preserved from the device
    assert_eq!(0x08 | 0x02, bus.register(3));
    assert_eq!(0x13, bus.register(4));
    assert_eq!(0x08, bus.register(5));
    assert_eq!(0x18, bus.register(6));
    assert_eq!(1, bus.burst_read_count());
    assert_eq!(1, bus.burst_write_count());
    assert_eq!(0, bus.single_read_count());
    assert_eq!(0, bus.single_write_count());
}

#[test]
fn set_then_get_datetime_returns_the_record() {
    let mut driver = new_driver([0xD9, 0x59, 0x52, 0x0B, 0x31, 0x12, 0x99]);
    let dt = DateTime {
        year: 2024,
        month: 2,
        day: 29,
        weekday: 5,
        hour: Hours::PM(12),
        minute: 0,
        second: 7,
    };
    driver.set_datetime(&dt).unwrap();
    assert_eq!(dt, driver.get_datetime().unwrap());
}

#[test]
fn set_datetime_with_an_invalid_field_writes_nothing() {
    let initial = [0xD9, 0x59, 0x52, 0x0B, 0x31, 0x12, 0x99];
    let mut driver = new_driver(initial);
    let dt = DateTime {
        year: 2018,
        month: 13,
        day: 13,
        weekday: 2,
        hour: Hours::H24(23),
        minute: 59,
        second: 58,
    };
    assert!(matches!(driver.set_datetime(&dt), Err(Error::InvalidInputData)));
    let bus = driver.destroy_mcp7940n();
    for (address, expected) in initial.iter().enumerate() {
        assert_eq!(*expected, bus.register(address as u8));
    }
    assert_eq!(0, bus.burst_write_count());
    assert_eq!(0, bus.single_write_count());
}

#[test]
fn bus_errors_are_passed_through_as_comm() {
    let mut bus = SimBus::new(vec![0; 7]);
    bus.set_fail(true);
    let mut driver = Mcp794xx::new_mcp7940n(bus);
    assert!(matches!(driver.enable(), Err(Error::Comm(SimBusError))));
    assert!(matches!(driver.get_seconds(), Err(Error::Comm(SimBusError))));
    assert!(matches!(driver.set_minutes(5), Err(Error::Comm(SimBusError))));
    assert!(matches!(driver.get_datetime(), Err(Error::Comm(SimBusError))));
    let dt = DateTime {
        year: 2018,
        month: 8,
        day: 13,
        weekday: 2,
        hour: Hours::H24(23),
        minute: 59,
        second: 58,
    };
    assert!(matches!(driver.set_datetime(&dt), Err(Error::Comm(SimBusError))));
    // invalid input is still detected even though the bus fails
    assert!(matches!(driver.set_minutes(60), Err(Error::InvalidInputData)));
}
