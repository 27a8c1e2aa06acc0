use ina3221::{
    AveragingMode, BusErrorKind, BusOp, ConversionTime, Error, Ina3221, OperatingMode, SimBus,
};

/// A driver over a fresh simulated bus whose configuration register holds `value`.
fn driver_with_config(value: u16) -> Ina3221<SimBus> {
    let mut bus = SimBus::new();
    bus.set_register(0x00, value);
    Ina3221::new(bus)
}

#[test]
fn power_mode_decodes_all_raw_values() {
    let expected = [
        OperatingMode::PowerDown,
        OperatingMode::OneshotShunt,
        OperatingMode::OneshotBus,
        OperatingMode::OneshotShuntBus,
        OperatingMode::PowerDown, // reserved raw value 4 falls back to power-down
        OperatingMode::ContinuousShunt,
        OperatingMode::ContinuousBus,
        OperatingMode::ContinuousShuntBus,
    ];
    for raw in 0u16..8u16 {
        let mut drv = driver_with_config(0xAB40 | raw);
        assert_eq!(drv.power_mode().unwrap(), expected[raw as usize]);
    }
}

#[test]
fn set_power_mode_round_trips_for_every_mode() {
    let modes = [
        OperatingMode::PowerDown,
        OperatingMode::OneshotShunt,
        OperatingMode::OneshotBus,
        OperatingMode::OneshotShuntBus,
        OperatingMode::ContinuousShunt,
        OperatingMode::ContinuousBus,
        OperatingMode::ContinuousShuntBus,
    ];
    for &mode in modes.iter() {
        // A pattern in the bits the mode field does not cover, restricted to
        // the bits the write framing can carry (high byte and bit 3).
        let mut drv = driver_with_config(0xAB0F);
        drv.set_power_mode(mode).unwrap();
        assert_eq!(drv.power_mode().unwrap(), mode);
        let bus = drv.destroy();
        assert_eq!(bus.register(0x00) & 0xFFF8, 0xAB08);
    }
}

#[test]
fn averaging_mode_decodes_all_raw_values() {
    let expected = [
        AveragingMode::Samples1,
        AveragingMode::Samples4,
        AveragingMode::Samples16,
        AveragingMode::Samples64,
        AveragingMode::Samples128,
        AveragingMode::Samples256,
        AveragingMode::Samples512,
        AveragingMode::Samples1024,
    ];
    for raw in 0u16..8u16 {
        let mut drv = driver_with_config(0x8011 | (raw << 6));
        assert_eq!(drv.averaging_mode().unwrap(), expected[raw as usize]);
    }
}

#[test]
fn set_averaging_mode_writes_masked_field() {
    let values = [
        AveragingMode::Samples1,
        AveragingMode::Samples4,
        AveragingMode::Samples16,
        AveragingMode::Samples64,
        AveragingMode::Samples128,
        AveragingMode::Samples256,
        AveragingMode::Samples512,
        AveragingMode::Samples1024,
    ];
    for raw in 0u16..8u16 {
        // Bit 9 set beforehand: it lies outside bits[8:6] and must survive.
        let mut drv = driver_with_config(0x0200);
        drv.set_averaging_mode(values[raw as usize]).unwrap();
        let bus = drv.destroy();
        let computed: u16 = 0x0200 | (raw << 6);
        assert_eq!(bus.log.len(), 2);
        assert_eq!(
            bus.log[1],
            BusOp::Write {
                addr: 0x40,
                data: vec![0x00, (computed >> 8) as u8, (computed & 0xF) as u8],
            }
        );
    }
}

#[test]
fn averaging_mode_round_trips_when_field_survives_framing() {
    // Raw values 0 and 4 keep bits 6 and 7 clear, so the write framing (which
    // transmits only the low nibble of the low byte) carries the whole field.
    for &mode in [AveragingMode::Samples1, AveragingMode::Samples128].iter() {
        let mut drv = driver_with_config(0xA001);
        drv.set_averaging_mode(mode).unwrap();
        assert_eq!(drv.averaging_mode().unwrap(), mode);
    }
}

#[test]
fn enable_channel2_sets_bit13_and_preserves_neighbors() {
    for &prior in [0x0000u16, 0x5000, 0x2000, 0x7000, 0x1009, 0x4009].iter() {
        let mut drv = driver_with_config(prior);
        drv.enable_channel2().unwrap();
        let bus = drv.destroy();
        let v = bus.register(0x00);
        assert_eq!(v & 0x2000, 0x2000);
        assert_eq!(v & 0x5000, prior & 0x5000);
        assert_eq!(v & 0x000F, prior & 0x000F);
    }
}

#[test]
fn disable_channel2_clears_only_bit13() {
    let mut drv = driver_with_config(0x7009);
    drv.disable_channel2().unwrap();
    let bus = drv.destroy();
    assert_eq!(bus.register(0x00), 0x5009);
}

#[test]
fn enable_and_disable_channel1() {
    let mut drv = driver_with_config(0x3009);
    drv.enable_channel1().unwrap();
    assert_eq!(drv.destroy().register(0x00), 0x7009);
    let mut drv = driver_with_config(0x7009);
    drv.disable_channel1().unwrap();
    assert_eq!(drv.destroy().register(0x00), 0x3009);
}

#[test]
fn enable_and_disable_channel3() {
    let mut drv = driver_with_config(0x6009);
    drv.enable_channel3().unwrap();
    assert_eq!(drv.destroy().register(0x00), 0x7009);
    let mut drv = driver_with_config(0x7009);
    drv.disable_channel3().unwrap();
    assert_eq!(drv.destroy().register(0x00), 0x6009);
}

#[test]
fn enable_all_channels_sets_bits_12_to_14() {
    let mut drv = driver_with_config(0x8109);
    drv.enable_all_channels().unwrap();
    let bus = drv.destroy();
    assert_eq!(bus.register(0x00), 0xF109);
}

#[test]
fn disable_all_channels_clears_bits_12_to_14_only() {
    let mut drv = driver_with_config(0xFF0F);
    drv.disable_all_channels().unwrap();
    let bus = drv.destroy();
    assert_eq!(bus.register(0x00), 0x8F0F);
}

#[test]
fn shunt_voltage_decodes_positive_reading() {
    // 0x07F8 is signed value 255 after the arithmetic shift: 255 * 40 µV.
    let mut bus = SimBus::new();
    bus.set_register(0x01, 0x07F8);
    let mut drv = Ina3221::new(bus);
    assert_eq!(drv.shunt_channel1().unwrap(), 10200);
}

#[test]
fn shunt_voltage_decodes_negative_reading() {
    // 0xFFF8 is signed value -1 after the arithmetic shift: -40 µV.
    let mut bus = SimBus::new();
    bus.set_register(0x03, 0xFFF8);
    bus.set_register(0x05, 0xFFF8);
    let mut drv = Ina3221::new(bus);
    assert_eq!(drv.shunt_channel2().unwrap(), -40);
    assert_eq!(drv.shunt_channel3().unwrap(), -40);
}

#[test]
fn bus_voltage_decodes_all_channels() {
    // 0x0008 is value 1 after the shift: 8 mV.
    let mut bus = SimBus::new();
    bus.set_register(0x02, 0x0008);
    bus.set_register(0x04, 0x0010);
    bus.set_register(0x06, 0xFFF8);
    let mut drv = Ina3221::new(bus);
    assert_eq!(drv.bus_channel1().unwrap(), 8);
    assert_eq!(drv.bus_channel2().unwrap(), 16);
    assert_eq!(drv.bus_channel3().unwrap(), -8);
}

#[test]
fn current_uses_default_resistor() {
    // 400 µV across the default 10 mΩ: 40 mA.
    let mut bus = SimBus::new();
    bus.set_register(0x01, 10 << 3);
    let mut drv = Ina3221::new(bus);
    assert_eq!(drv.current_channel1().unwrap(), 40);
}

#[test]
fn current_truncates_toward_zero() {
    // 440 µV across 16 mΩ is 27.5 mA and truncates to 27;
    // -40 µV across 16 mΩ is -2.5 mA and truncates to -2, not -3.
    let mut bus = SimBus::new();
    bus.set_register(0x01, 11 << 3);
    bus.set_register(0x03, 0xFFF8);
    let mut drv = Ina3221::new(bus).shunt_r1(16).shunt_r2(16);
    assert_eq!(drv.current_channel1().unwrap(), 27);
    assert_eq!(drv.current_channel2().unwrap(), -2);
}

#[test]
fn current_channel3_uses_its_own_resistor() {
    // 1000 µV across 25 mΩ: 40 mA.
    let mut bus = SimBus::new();
    bus.set_register(0x05, 25 << 3);
    let mut drv = Ina3221::new(bus).shunt_r3(25);
    assert_eq!(drv.current_channel3().unwrap(), 40);
}

#[test]
fn write_register_payload_keeps_only_low_nibble() {
    let mut drv = Ina3221::new(SimBus::new());
    drv.write_u16(0x00, 0x1234).unwrap();
    let bus = drv.destroy();
    assert_eq!(bus.log.len(), 1);
    assert_eq!(bus.log[0], BusOp::Write { addr: 0x40, data: vec![0x00, 0x12, 0x04] });
}

#[test]
fn reset_issues_exactly_one_write_with_reset_payload() {
    let mut drv = Ina3221::new(SimBus::new());
    drv.reset().unwrap();
    let bus = drv.destroy();
    assert_eq!(bus.log.len(), 1);
    assert_eq!(bus.log[0], BusOp::Write { addr: 0x40, data: vec![0x00, 0x80, 0x00] });
}

#[test]
fn custom_device_address_is_used_on_the_wire() {
    let mut drv = Ina3221::new_with_addr(SimBus::new(), 0x41);
    drv.reset().unwrap();
    let bus = drv.destroy();
    assert_eq!(bus.log[0], BusOp::Write { addr: 0x41, data: vec![0x00, 0x80, 0x00] });
}

#[test]
fn read_register_is_big_endian_write_read() {
    let mut bus = SimBus::new();
    bus.set_register(0x02, 0xBEEF);
    let mut drv = Ina3221::new(bus);
    assert_eq!(drv.read_u16(0x02).unwrap(), 0xBEEF);
    let bus = drv.destroy();
    assert_eq!(bus.log.len(), 1);
    assert_eq!(
        bus.log[0],
        BusOp::WriteRead { addr: 0x40, out: vec![0x02], data: vec![0xBE, 0xEF] }
    );
}

#[test]
fn read_modify_write_issues_exactly_two_transactions() {
    let mut drv = driver_with_config(0x0000);
    drv.set_power_mode(OperatingMode::ContinuousShuntBus).unwrap();
    let bus = drv.destroy();
    assert_eq!(bus.log.len(), 2);
    assert!(matches!(bus.log[0], BusOp::WriteRead { .. }));
    assert!(matches!(bus.log[1], BusOp::Write { .. }));
}

#[test]
fn id_registers_read_verbatim() {
    let mut bus = SimBus::new();
    bus.set_register(0xFE, 0x5449);
    bus.set_register(0xFF, 0x3220);
    let mut drv = Ina3221::new(bus);
    assert_eq!(drv.manufacturer_id().unwrap(), 0x5449);
    assert_eq!(drv.die_id().unwrap(), 0x3220);
}

#[test]
fn read_failure_propagates_its_classification() {
    let kinds = [
        BusErrorKind::ArbitrationLoss,
        BusErrorKind::NoAcknowledge,
        BusErrorKind::Bus,
        BusErrorKind::Overrun,
        BusErrorKind::Other,
    ];
    for &kind in kinds.iter() {
        let mut bus = SimBus::new();
        bus.fail_with(kind);
        let mut drv = Ina3221::new(bus);
        assert_eq!(drv.power_mode().unwrap_err(), Error::I2cError(kind));
        assert_eq!(drv.averaging_mode().unwrap_err(), Error::I2cError(kind));
        assert_eq!(drv.shunt_channel1().unwrap_err(), Error::I2cError(kind));
        assert_eq!(drv.bus_channel2().unwrap_err(), Error::I2cError(kind));
        assert_eq!(drv.current_channel3().unwrap_err(), Error::I2cError(kind));
        assert_eq!(drv.manufacturer_id().unwrap_err(), Error::I2cError(kind));
        assert_eq!(drv.die_id().unwrap_err(), Error::I2cError(kind));
    }
}

#[test]
fn write_failure_propagates_its_classification() {
    let mut bus = SimBus::new();
    bus.fail_with(BusErrorKind::NoAcknowledge);
    let mut drv = Ina3221::new(bus);
    assert_eq!(drv.reset().unwrap_err(), Error::I2cError(BusErrorKind::NoAcknowledge));
    assert_eq!(
        drv.set_power_mode(OperatingMode::ContinuousBus).unwrap_err(),
        Error::I2cError(BusErrorKind::NoAcknowledge)
    );
    assert_eq!(
        drv.set_averaging_mode(AveragingMode::Samples64).unwrap_err(),
        Error::I2cError(BusErrorKind::NoAcknowledge)
    );
    assert_eq!(drv.enable_channel1().unwrap_err(), Error::I2cError(BusErrorKind::NoAcknowledge));
    // Failed operations record no transaction: nothing partial reaches the log.
    let bus = drv.destroy();
    assert_eq!(bus.log.len(), 0);
}

#[test]
fn cleared_failure_lets_operations_succeed_again() {
    let mut bus = SimBus::new();
    bus.fail_with(BusErrorKind::Overrun);
    bus.set_register(0x00, 0x0006);
    let mut drv = Ina3221::new(bus);
    assert!(drv.power_mode().is_err());
    let mut bus = drv.destroy();
    bus.clear_failure();
    let mut drv = Ina3221::new(bus);
    assert_eq!(drv.power_mode().unwrap(), OperatingMode::ContinuousBus);
}

#[test]
fn operating_mode_raw_conversions() {
    let pairs = [
        (OperatingMode::PowerDown, 0u8),
        (OperatingMode::OneshotShunt, 1),
        (OperatingMode::OneshotBus, 2),
        (OperatingMode::OneshotShuntBus, 3),
        (OperatingMode::ContinuousShunt, 5),
        (OperatingMode::ContinuousBus, 6),
        (OperatingMode::ContinuousShuntBus, 7),
    ];
    for &(mode, raw) in pairs.iter() {
        assert_eq!(mode.to_raw(), raw);
        assert_eq!(OperatingMode::from_raw(raw), mode);
    }
    assert_eq!(OperatingMode::from_raw(4), OperatingMode::PowerDown);
    assert_eq!(OperatingMode::from_raw(200), OperatingMode::PowerDown);
}

#[test]
fn averaging_mode_raw_conversions() {
    let values = [
        AveragingMode::Samples1,
        AveragingMode::Samples4,
        AveragingMode::Samples16,
        AveragingMode::Samples64,
        AveragingMode::Samples128,
        AveragingMode::Samples256,
        AveragingMode::Samples512,
        AveragingMode::Samples1024,
    ];
    for raw in 0u8..8u8 {
        assert_eq!(values[raw as usize].to_raw(), raw);
        assert_eq!(AveragingMode::from_raw(raw), values[raw as usize]);
    }
    assert_eq!(AveragingMode::from_raw(9), AveragingMode::Samples1);
}

#[test]
fn conversion_time_raw_conversions() {
    let values = [
        ConversionTime::T140us,
        ConversionTime::T204us,
        ConversionTime::T332us,
        ConversionTime::T588us,
        ConversionTime::T1100us,
        ConversionTime::T2116us,
        ConversionTime::T4156us,
        ConversionTime::T8244us,
    ];
    for raw in 0u8..8u8 {
        assert_eq!(values[raw as usize].to_raw(), raw);
        assert_eq!(ConversionTime::from_raw(raw), values[raw as usize]);
    }
    assert_eq!(ConversionTime::from_raw(255), ConversionTime::T140us);
}

#[test]
fn destroy_returns_the_transport() {
    let mut bus = SimBus::new();
    bus.set_register(0x05, 0x1234);
    let drv = Ina3221::new(bus);
    let bus = drv.destroy();
    assert_eq!(bus.register(0x05), 0x1234);
}
