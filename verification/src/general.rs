//! The register model: enumerated configuration values, the bit layout of the
//! configuration and measurement registers, and the driver operations built
//! on the transport layer.

use vstd::prelude::*;

verus! {

use crate::bus::TwoWireBus;
use crate::{read_tx, write_frame, write_tx, Error, Ina3221};

/// Operating mode of the chip, configuration bits[2:0]. The raw value 4 is a
/// reserved alias of power-down and is intentionally not exposed: it decodes
/// to [`OperatingMode::PowerDown`].
#[derive(Debug, Clone, Copy, PartialEq, Eq, Structural)]
pub enum OperatingMode {
    PowerDown,
    OneshotShunt,
    OneshotBus,
    OneshotShuntBus,
    ContinuousShunt,
    ContinuousBus,
    ContinuousShuntBus,
}

impl OperatingMode {
    /// The 3-bit wire value of this mode.
    pub open spec fn raw_value(self) -> u16 {
        match self {
            OperatingMode::PowerDown => 0,
            OperatingMode::OneshotShunt => 1,
            OperatingMode::OneshotBus => 2,
            OperatingMode::OneshotShuntBus => 3,
            OperatingMode::ContinuousShunt => 5,
            OperatingMode::ContinuousBus => 6,
            OperatingMode::ContinuousShuntBus => 7,
        }
    }

    /// The mode a raw field value decodes to: total, with every unmapped
    /// value (the reserved 4, and anything above 7) falling back to
    /// [`OperatingMode::PowerDown`].
    pub open spec fn from_raw_spec(raw: u16) -> OperatingMode {
        if raw == 1 {
            OperatingMode::OneshotShunt
        } else if raw == 2 {
            OperatingMode::OneshotBus
        } else if raw == 3 {
            OperatingMode::OneshotShuntBus
        } else if raw == 5 {
            OperatingMode::ContinuousShunt
        } else if raw == 6 {
            OperatingMode::ContinuousBus
        } else if raw == 7 {
            OperatingMode::ContinuousShuntBus
        } else {
            OperatingMode::PowerDown
        }
    }

    /// The 3-bit wire value of this mode.
    pub fn to_raw(self) -> (r: u8)
        ensures
            r as u16 == self.raw_value(),
            r < 8,
    {
        match self {
            OperatingMode::PowerDown => 0,
            OperatingMode::OneshotShunt => 1,
            OperatingMode::OneshotBus => 2,
            OperatingMode::OneshotShuntBus => 3,
            OperatingMode::ContinuousShunt => 5,
            OperatingMode::ContinuousBus => 6,
            OperatingMode::ContinuousShuntBus => 7,
        }
    }

    /// Decodes a raw value, defaulting every unmapped value to
    /// [`OperatingMode::PowerDown`].
    pub fn from_raw(raw: u8) -> (r: Self)
        ensures
            r == Self::from_raw_spec(raw as u16),
    {
        match raw {
            1 => OperatingMode::OneshotShunt,
            2 => OperatingMode::OneshotBus,
            3 => OperatingMode::OneshotShuntBus,
            5 => OperatingMode::ContinuousShunt,
            6 => OperatingMode::ContinuousBus,
            7 => OperatingMode::ContinuousShuntBus,
            _ => OperatingMode::PowerDown,
        }
    }
}

/// Shunt averaging count, configuration bits[8:6]: how many samples the chip
/// averages into one reading.
#[derive(Debug, Clone, Copy, PartialEq, Eq, Structural)]
pub enum AveragingMode {
    Samples1,
    Samples4,
    Samples16,
    Samples64,
    Samples128,
    Samples256,
    Samples512,
    Samples1024,
}

impl AveragingMode {
    /// The 3-bit wire value of this averaging count.
    pub open spec fn raw_value(self) -> u16 {
        match self {
            AveragingMode::Samples1 => 0,
            AveragingMode::Samples4 => 1,
            AveragingMode::Samples16 => 2,
            AveragingMode::Samples64 => 3,
            AveragingMode::Samples128 => 4,
            AveragingMode::Samples256 => 5,
            AveragingMode::Samples512 => 6,
            AveragingMode::Samples1024 => 7,
        }
    }

    /// The averaging count a raw field value decodes to: total, with every
    /// unmapped value falling back to [`AveragingMode::Samples1`].
    pub open spec fn from_raw_spec(raw: u16) -> AveragingMode {
        if raw == 1 {
            AveragingMode::Samples4
        } else if raw == 2 {
            AveragingMode::Samples16
        } else if raw == 3 {
            AveragingMode::Samples64
        } else if raw == 4 {
            AveragingMode::Samples128
        } else if raw == 5 {
            AveragingMode::Samples256
        } else if raw == 6 {
            AveragingMode::Samples512
        } else if raw == 7 {
            AveragingMode::Samples1024
        } else {
            AveragingMode::Samples1
        }
    }

    /// The 3-bit wire value of this averaging count.
    pub fn to_raw(self) -> (r: u8)
        ensures
            r as u16 == self.raw_value(),
            r < 8,
    {
        match self {
            AveragingMode::Samples1 => 0,
            AveragingMode::Samples4 => 1,
            AveragingMode::Samples16 => 2,
            AveragingMode::Samples64 => 3,
            AveragingMode::Samples128 => 4,
            AveragingMode::Samples256 => 5,
            AveragingMode::Samples512 => 6,
            AveragingMode::Samples1024 => 7,
        }
    }

    /// Decodes a raw value, defaulting every unmapped value to
    /// [`AveragingMode::Samples1`].
    pub fn from_raw(raw: u8) -> (r: Self)
        ensures
            r == Self::from_raw_spec(raw as u16),
    {
        match raw {
            1 => AveragingMode::Samples4,
            2 => AveragingMode::Samples16,
            3 => AveragingMode::Samples64,
            4 => AveragingMode::Samples128,
            5 => AveragingMode::Samples256,
            6 => AveragingMode::Samples512,
            7 => AveragingMode::Samples1024,
            _ => AveragingMode::Samples1,
        }
    }
}

/// Conversion time of a single sample. Exposed as a type for completeness;
/// this driver does not currently wire it to a register accessor.
#[derive(Debug, Clone, Copy, PartialEq, Eq, Structural)]
pub enum ConversionTime {
    T140us,
    T204us,
    T332us,
    T588us,
    T1100us,
    T2116us,
    T4156us,
    T8244us,
}

impl ConversionTime {
    /// The 3-bit wire value of this conversion time.
    pub open spec fn raw_value(self) -> u16 {
        match self {
            ConversionTime::T140us => 0,
            ConversionTime::T204us => 1,
            ConversionTime::T332us => 2,
            ConversionTime::T588us => 3,
            ConversionTime::T1100us => 4,
            ConversionTime::T2116us => 5,
            ConversionTime::T4156us => 6,
            ConversionTime::T8244us => 7,
        }
    }

    /// The conversion time a raw field value decodes to: total, with every
    /// unmapped value falling back to [`ConversionTime::T140us`].
    pub open spec fn from_raw_spec(raw: u16) -> ConversionTime {
        if raw == 1 {
            ConversionTime::T204us
        } else if raw == 2 {
            ConversionTime::T332us
        } else if raw == 3 {
            ConversionTime::T588us
        } else if raw == 4 {
            ConversionTime::T1100us
        } else if raw == 5 {
            ConversionTime::T2116us
        } else if raw == 6 {
            ConversionTime::T4156us
        } else if raw == 7 {
            ConversionTime::T8244us
        } else {
            ConversionTime::T140us
        }
    }

    /// The 3-bit wire value of this conversion time.
    pub fn to_raw(self) -> (r: u8)
        ensures
            r as u16 == self.raw_value(),
            r < 8,
    {
        match self {
            ConversionTime::T140us => 0,
            ConversionTime::T204us => 1,
            ConversionTime::T332us => 2,
            ConversionTime::T588us => 3,
            ConversionTime::T1100us => 4,
            ConversionTime::T2116us => 5,
            ConversionTime::T4156us => 6,
            ConversionTime::T8244us => 7,
        }
    }

    /// Decodes a raw value, defaulting every unmapped value to
    /// [`ConversionTime::T140us`].
    pub fn from_raw(raw: u8) -> (r: Self)
        ensures
            r == Self::from_raw_spec(raw as u16),
    {
        match raw {
            1 => ConversionTime::T204us,
            2 => ConversionTime::T332us,
            3 => ConversionTime::T588us,
            4 => ConversionTime::T1100us,
            5 => ConversionTime::T2116us,
            6 => ConversionTime::T4156us,
            7 => ConversionTime::T8244us,
            _ => ConversionTime::T140us,
        }
    }
}

/// The operating-mode field of a configuration value: bits[2:0].
pub open spec fn mode_field(v: u16) -> u16 {
    v & 0x7
}

/// `v` with the operating-mode field (bits[2:0]) replaced by the 3-bit value
/// `raw`, all other bits unchanged.
pub open spec fn set_mode_field(v: u16, raw: u16) -> u16 {
    (v & 0xFFF8) | raw
}

/// The averaging field of a configuration value: bits[8:6].
pub open spec fn avg_field(v: u16) -> u16 {
    (v >> 6) & 0x7
}

/// `v` with the averaging field (bits[8:6]) replaced by the 3-bit value
/// `raw`, all other bits unchanged.
pub open spec fn set_avg_field(v: u16, raw: u16) -> u16 {
    (v & 0xFE3F) | (raw << 6)
}

/// The signed 13-bit reading held in bits[15:3] of a measurement register:
/// the raw value shifted right by three with the sign preserved, that is, an
/// arithmetic shift of the value reinterpreted as a signed 16-bit integer.
pub open spec fn measurement_value(raw: u16) -> int {
    if raw < 0x8000 {
        (raw >> 3) as int
    } else {
        (raw >> 3) as int - 0x2000
    }
}

/// A shunt-voltage register decoded to microvolts: 40 microvolts per step.
pub open spec fn shunt_microvolts(raw: u16) -> int {
    measurement_value(raw) * 40
}

/// A bus-voltage register decoded to millivolts: 8 millivolts per step.
pub open spec fn bus_millivolts(raw: u16) -> int {
    measurement_value(raw) * 8
}

/// Integer division of `a` by positive `b`, truncating toward zero, as the
/// hardware's integer division does.
pub open spec fn div_toward_zero(a: int, b: int) -> int {
    if a >= 0 {
        a / b
    } else {
        -((-a) / b)
    }
}

impl<B: TwoWireBus> Ina3221<B> {
    /// Resets the chip by writing the reset bit (bit 15) to the configuration
    /// register, in exactly one bus transaction with payload
    /// `[0x00, 0x80, 0x00]`. The chip returns every register to its power-on
    /// default; any delay the hardware needs afterwards is the caller's
    /// responsibility.
    pub fn reset(&mut self) -> (r: Result<(), Error>)
        ensures
            Self::same_config(*old(self), *final(self)),
            r is Ok ==> final(self).history() =~= old(self).history().push(
                write_tx(old(self).device_address(), 0x00, 0x8000),
            ),
            r matches Err(e) ==> e is I2cError,
    {
        self.write_u16(0x00, 0x8000)
    }

    /// Reads the current operating mode from configuration bits[2:0].
    pub fn power_mode(&mut self) -> (r: Result<OperatingMode, Error>)
        ensures
            Self::same_config(*old(self), *final(self)),
            r matches Ok(m) ==> exists|cur: u16|
                final(self).history() =~= old(self).history().push(
                    read_tx(old(self).device_address(), 0x00, cur),
                ) && m == OperatingMode::from_raw_spec(mode_field(cur)),
            r matches Err(e) ==> e is I2cError,
    {
        let cur = match self.read_u16(0x00) {
            Ok(v) => v,
            Err(e) => return Err(e),
        };
        let mode = (cur & 0b111) as u8;
        proof {
            assert(mode as u16 == mode_field(cur)) by (bit_vector)
                requires
                    mode == (cur & 0b111) as u8,
            ;
        }
        Ok(OperatingMode::from_raw(mode))
    }

    /// Sets the operating mode: reads the configuration register, replaces
    /// bits[2:0] with the mode's wire value, and writes the result back, all
    /// other bits of the value read preserved.
    pub fn set_power_mode(&mut self, value: OperatingMode) -> (r: Result<(), Error>)
        ensures
            Self::same_config(*old(self), *final(self)),
            r is Ok ==> exists|cur: u16|
                final(self).history() =~= old(self).history().push(
                    read_tx(old(self).device_address(), 0x00, cur),
                ).push(
                    write_tx(
                        old(self).device_address(),
                        0x00,
                        set_mode_field(cur, value.raw_value()),
                    ),
                ),
            r matches Err(e) ==> e is I2cError,
    {
        let original_state = match self.read_u16(0x00) {
            Ok(v) => v,
            Err(e) => return Err(e),
        };
        let new_value: u16 = value.to_raw() as u16;
        let new_state = (original_state & 0xFFF8) | new_value;
        proof {
            assert((original_state & 0xFFF8) | new_value == set_mode_field(
                original_state,
                new_value,
            )) by (bit_vector);
        }
        self.write_u16(0x00, new_state)
    }

    /// Reads the current averaging mode from configuration bits[8:6].
    pub fn averaging_mode(&mut self) -> (r: Result<AveragingMode, Error>)
        ensures
            Self::same_config(*old(self), *final(self)),
            r matches Ok(m) ==> exists|cur: u16|
                final(self).history() =~= old(self).history().push(
                    read_tx(old(self).device_address(), 0x00, cur),
                ) && m == AveragingMode::from_raw_spec(avg_field(cur)),
            r matches Err(e) ==> e is I2cError,
    {
        let cur = match self.read_u16(0x00) {
            Ok(v) => v,
            Err(e) => return Err(e),
        };
        let mode = ((cur >> 6) & 0b111) as u8;
        proof {
            assert(mode as u16 == avg_field(cur)) by (bit_vector)
                requires
                    mode == ((cur >> 6) & 0b111) as u8,
            ;
        }
        Ok(AveragingMode::from_raw(mode))
    }

    /// Sets the averaging mode: reads the configuration register, replaces
    /// bits[8:6] with the mode's wire value, and writes the result back, all
    /// other bits of the value read preserved.
    pub fn set_averaging_mode(&mut self, value: AveragingMode) -> (r: Result<(), Error>)
        ensures
            Self::same_config(*old(self), *final(self)),
            r is Ok ==> exists|cur: u16|
                final(self).history() =~= old(self).history().push(
                    read_tx(old(self).device_address(), 0x00, cur),
                ).push(
                    write_tx(
                        old(self).device_address(),
                        0x00,
                        set_avg_field(cur, value.raw_value()),
                    ),
                ),
            r matches Err(e) ==> e is I2cError,
    {
        let original_state = match self.read_u16(0x00) {
            Ok(v) => v,
            Err(e) => return Err(e),
        };
        let new_value: u16 = value.to_raw() as u16;
        let new_state = (original_state & 0xFE3F) | (new_value << 6);
        proof {
            assert((original_state & 0xFE3F) | (new_value << 6) == set_avg_field(
                original_state,
                new_value,
            )) by (bit_vector);
        }
        self.write_u16(0x00, new_state)
    }

    /// Enables all three channels: read-modify-write that sets configuration
    /// bits[14:12] to 0b111, leaving every other bit of the value read
    /// unchanged.
    pub fn enable_all_channels(&mut self) -> (r: Result<(), Error>)
        ensures
            Self::same_config(*old(self), *final(self)),
            r is Ok ==> exists|cur: u16|
                final(self).history() =~= old(self).history().push(
                    read_tx(old(self).device_address(), 0x00, cur),
                ).push(write_tx(old(self).device_address(), 0x00, (cur & 0x8FFF) | 0x7000)),
            r matches Err(e) ==> e is I2cError,
    {
        let original_state = match self.read_u16(0x00) {
            Ok(v) => v,
            Err(e) => return Err(e),
        };
        let new_state = (original_state & 0x8FFF) | 0x7000;
        self.write_u16(0x00, new_state)
    }

    /// Disables all three channels: read-modify-write that clears
    /// configuration bits[14:12], leaving every other bit of the value read
    /// unchanged.
    pub fn disable_all_channels(&mut self) -> (r: Result<(), Error>)
        ensures
            Self::same_config(*old(self), *final(self)),
            r is Ok ==> exists|cur: u16|
                final(self).history() =~= old(self).history().push(
                    read_tx(old(self).device_address(), 0x00, cur),
                ).push(write_tx(old(self).device_address(), 0x00, cur & 0x8FFF)),
            r matches Err(e) ==> e is I2cError,
    {
        let original_state = match self.read_u16(0x00) {
            Ok(v) => v,
            Err(e) => return Err(e),
        };
        let new_state = original_state & 0x8FFF;
        self.write_u16(0x00, new_state)
    }

    /// Enables channel 1: read-modify-write that sets configuration bit 14,
    /// leaving every other bit of the value read unchanged.
    pub fn enable_channel1(&mut self) -> (r: Result<(), Error>)
        ensures
            Self::same_config(*old(self), *final(self)),
            r is Ok ==> exists|cur: u16|
                final(self).history() =~= old(self).history().push(
                    read_tx(old(self).device_address(), 0x00, cur),
                ).push(write_tx(old(self).device_address(), 0x00, cur | 0x4000)),
            r matches Err(e) ==> e is I2cError,
    {
        let original_state = match self.read_u16(0x00) {
            Ok(v) => v,
            Err(e) => return Err(e),
        };
        let new_state = original_state | 0x4000;
        self.write_u16(0x00, new_state)
    }

    /// Disables channel 1: read-modify-write that clears configuration bit
    /// 14, leaving every other bit of the value read unchanged.
    pub fn disable_channel1(&mut self) -> (r: Result<(), Error>)
        ensures
            Self::same_config(*old(self), *final(self)),
            r is Ok ==> exists|cur: u16|
                final(self).history() =~= old(self).history().push(
                    read_tx(old(self).device_address(), 0x00, cur),
                ).push(write_tx(old(self).device_address(), 0x00, cur & 0xBFFF)),
            r matches Err(e) ==> e is I2cError,
    {
        let original_state = match self.read_u16(0x00) {
            Ok(v) => v,
            Err(e) => return Err(e),
        };
        let new_state = original_state & 0xBFFF;
        self.write_u16(0x00, new_state)
    }

    /// Enables channel 2: read-modify-write that sets configuration bit 13,
    /// leaving every other bit of the value read unchanged.
    pub fn enable_channel2(&mut self) -> (r: Result<(), Error>)
        ensures
            Self::same_config(*old(self), *final(self)),
            r is Ok ==> exists|cur: u16|
                final(self).history() =~= old(self).history().push(
                    read_tx(old(self).device_address(), 0x00, cur),
                ).push(write_tx(old(self).device_address(), 0x00, cur | 0x2000)),
            r matches Err(e) ==> e is I2cError,
    {
        let original_state = match self.read_u16(0x00) {
            Ok(v) => v,
            Err(e) => return Err(e),
        };
        let new_state = original_state | 0x2000;
        self.write_u16(0x00, new_state)
    }

    /// Disables channel 2: read-modify-write that clears configuration bit
    /// 13, leaving every other bit of the value read unchanged.
    pub fn disable_channel2(&mut self) -> (r: Result<(), Error>)
        ensures
            Self::same_config(*old(self), *final(self)),
            r is Ok ==> exists|cur: u16|
                final(self).history() =~= old(self).history().push(
                    read_tx(old(self).device_address(), 0x00, cur),
                ).push(write_tx(old(self).device_address(), 0x00, cur & 0xDFFF)),
            r matches Err(e) ==> e is I2cError,
    {
        let original_state = match self.read_u16(0x00) {
            Ok(v) => v,
            Err(e) => return Err(e),
        };
        let new_state = original_state & 0xDFFF;
        self.write_u16(0x00, new_state)
    }

    /// Enables channel 3: read-modify-write that sets configuration bit 12,
    /// leaving every other bit of the value read unchanged.
    pub fn enable_channel3(&mut self) -> (r: Result<(), Error>)
        ensures
            Self::same_config(*old(self), *final(self)),
            r is Ok ==> exists|cur: u16|
                final(self).history() =~= old(self).history().push(
                    read_tx(old(self).device_address(), 0x00, cur),
                ).push(write_tx(old(self).device_address(), 0x00, cur | 0x1000)),
            r matches Err(e) ==> e is I2cError,
    {
        let original_state = match self.read_u16(0x00) {
            Ok(v) => v,
            Err(e) => return Err(e),
        };
        let new_state = original_state | 0x1000;
        self.write_u16(0x00, new_state)
    }

    /// Disables channel 3: read-modify-write that clears configuration bit
    /// 12, leaving every other bit of the value read unchanged.
    pub fn disable_channel3(&mut self) -> (r: Result<(), Error>)
        ensures
            Self::same_config(*old(self), *final(self)),
            r is Ok ==> exists|cur: u16|
                final(self).history() =~= old(self).history().push(
                    read_tx(old(self).device_address(), 0x00, cur),
                ).push(write_tx(old(self).device_address(), 0x00, cur & 0xEFFF)),
            r matches Err(e) ==> e is I2cError,
    {
        let original_state = match self.read_u16(0x00) {
            Ok(v) => v,
            Err(e) => return Err(e),
        };
        let new_state = original_state & 0xEFFF;
        self.write_u16(0x00, new_state)
    }

    /// Reads one shunt-voltage register and decodes it to microvolts:
    /// arithmetic shift right by three, then 40 microvolts per step.
    fn read_shunt_volt(&mut self, reg: u8) -> (r: Result<i32, Error>)
        ensures
            Self::same_config(*old(self), *final(self)),
            r matches Ok(uv) ==> exists|raw: u16|
                final(self).history() =~= old(self).history().push(
                    read_tx(old(self).device_address(), reg, raw),
                ) && uv as int == shunt_microvolts(raw),
            r matches Ok(uv) ==> -163840 <= uv <= 163800,
            r matches Err(e) ==> e is I2cError,
    {
        let raw_value = match self.read_u16(reg) {
            Ok(v) => v,
            Err(e) => return Err(e),
        };
        let shifted: u16 = raw_value >> 3;
        proof {
            assert(raw_value >> 3 < 0x2000 && (raw_value < 0x8000 ==> raw_value >> 3 < 0x1000)
                && (raw_value >= 0x8000 ==> raw_value >> 3 >= 0x1000)) by (bit_vector);
        }
        let signed_actual: i32 = if raw_value >= 0x8000 {
            (shifted as i32) - 0x2000
        } else {
            shifted as i32
        };
        proof {
            assert(signed_actual as int == measurement_value(raw_value));
            assert(signed_actual * 40 == shunt_microvolts(raw_value));
        }
        Ok(signed_actual * 40)
    }

    /// Reads one bus-voltage register and decodes it to millivolts:
    /// arithmetic shift right by three, then 8 millivolts per step.
    fn read_bus_volt(&mut self, reg: u8) -> (r: Result<i32, Error>)
        ensures
            Self::same_config(*old(self), *final(self)),
            r matches Ok(mv) ==> exists|raw: u16|
                final(self).history() =~= old(self).history().push(
                    read_tx(old(self).device_address(), reg, raw),
                ) && mv as int == bus_millivolts(raw),
            r matches Err(e) ==> e is I2cError,
    {
        let raw_value = match self.read_u16(reg) {
            Ok(v) => v,
            Err(e) => return Err(e),
        };
        let shifted: u16 = raw_value >> 3;
        proof {
            assert(raw_value >> 3 < 0x2000 && (raw_value < 0x8000 ==> raw_value >> 3 < 0x1000)
                && (raw_value >= 0x8000 ==> raw_value >> 3 >= 0x1000)) by (bit_vector);
        }
        let signed_actual: i32 = if raw_value >= 0x8000 {
            (shifted as i32) - 0x2000
        } else {
            shifted as i32
        };
        proof {
            assert(signed_actual as int == measurement_value(raw_value));
            assert(signed_actual * 8 == bus_millivolts(raw_value));
        }
        Ok(signed_actual * 8)
    }

    /// Shunt voltage of channel 1, in microvolts.
    pub fn shunt_channel1(&mut self) -> (r: Result<i32, Error>)
        ensures
            Self::same_config(*old(self), *final(self)),
            r matches Ok(uv) ==> exists|raw: u16|
                final(self).history() =~= old(self).history().push(
                    read_tx(old(self).device_address(), 0x01, raw),
                ) && uv as int == shunt_microvolts(raw),
            r matches Ok(uv) ==> -163840 <= uv <= 163800,
            r matches Err(e) ==> e is I2cError,
    {
        self.read_shunt_volt(0x01)
    }

    /// Bus voltage of channel 1, in millivolts.
    pub fn bus_channel1(&mut self) -> (r: Result<i32, Error>)
        ensures
            Self::same_config(*old(self), *final(self)),
            r matches Ok(mv) ==> exists|raw: u16|
                final(self).history() =~= old(self).history().push(
                    read_tx(old(self).device_address(), 0x02, raw),
                ) && mv as int == bus_millivolts(raw),
            r matches Err(e) ==> e is I2cError,
    {
        self.read_bus_volt(0x02)
    }

    /// Shunt voltage of channel 2, in microvolts.
    pub fn shunt_channel2(&mut self) -> (r: Result<i32, Error>)
        ensures
            Self::same_config(*old(self), *final(self)),
            r matches Ok(uv) ==> exists|raw: u16|
                final(self).history() =~= old(self).history().push(
                    read_tx(old(self).device_address(), 0x03, raw),
                ) && uv as int == shunt_microvolts(raw),
            r matches Ok(uv) ==> -163840 <= uv <= 163800,
            r matches Err(e) ==> e is I2cError,
    {
        self.read_shunt_volt(0x03)
    }

    /// Bus voltage of channel 2, in millivolts.
    pub fn bus_channel2(&mut self) -> (r: Result<i32, Error>)
        ensures
            Self::same_config(*old(self), *final(self)),
            r matches Ok(mv) ==> exists|raw: u16|
                final(self).history() =~= old(self).history().push(
                    read_tx(old(self).device_address(), 0x04, raw),
                ) && mv as int == bus_millivolts(raw),
            r matches Err(e) ==> e is I2cError,
    {
        self.read_bus_volt(0x04)
    }

    /// Shunt voltage of channel 3, in microvolts.
    pub fn shunt_channel3(&mut self) -> (r: Result<i32, Error>)
        ensures
            Self::same_config(*old(self), *final(self)),
            r matches Ok(uv) ==> exists|raw: u16|
                final(self).history() =~= old(self).history().push(
                    read_tx(old(self).device_address(), 0x05, raw),
                ) && uv as int == shunt_microvolts(raw),
            r matches Ok(uv) ==> -163840 <= uv <= 163800,
            r matches Err(e) ==> e is I2cError,
    {
        self.read_shunt_volt(0x05)
    }

    /// Bus voltage of channel 3, in millivolts.
    pub fn bus_channel3(&mut self) -> (r: Result<i32, Error>)
        ensures
            Self::same_config(*old(self), *final(self)),
            r matches Ok(mv) ==> exists|raw: u16|
                final(self).history() =~= old(self).history().push(
                    read_tx(old(self).device_address(), 0x06, raw),
                ) && mv as int == bus_millivolts(raw),
            r matches Err(e) ==> e is I2cError,
    {
        self.read_bus_volt(0x06)
    }

    /// Current of channel 1 in milliamps: the channel's shunt voltage in
    /// microvolts divided by the configured channel 1 resistor value in
    /// milliohms, truncating toward zero.
    pub fn current_channel1(&mut self) -> (r: Result<i32, Error>)
        requires
            old(self).wf(),
        ensures
            Self::same_config(*old(self), *final(self)),
            final(self).wf(),
            r matches Ok(ma) ==> exists|raw: u16|
                final(self).history() =~= old(self).history().push(
                    read_tx(old(self).device_address(), 0x01, raw),
                ) && ma as int == div_toward_zero(
                    shunt_microvolts(raw),
                    old(self).resistors().0 as int,
                ),
            r matches Err(e) ==> e is I2cError,
    {
        let voltage = match self.shunt_channel1() {
            Ok(v) => v,
            Err(e) => return Err(e),
        };
        let resistor = self.resistor1() as i32;
        if voltage >= 0 {
            Ok(voltage / resistor)
        } else {
            Ok(-((-voltage) / resistor))
        }
    }

    /// Current of channel 2 in milliamps: the channel's shunt voltage in
    /// microvolts divided by the configured channel 2 resistor value in
    /// milliohms, truncating toward zero.
    pub fn current_channel2(&mut self) -> (r: Result<i32, Error>)
        requires
            old(self).wf(),
        ensures
            Self::same_config(*old(self), *final(self)),
            final(self).wf(),
            r matches Ok(ma) ==> exists|raw: u16|
                final(self).history() =~= old(self).history().push(
                    read_tx(old(self).device_address(), 0x03, raw),
                ) && ma as int == div_toward_zero(
                    shunt_microvolts(raw),
                    old(self).resistors().1 as int,
                ),
            r matches Err(e) ==> e is I2cError,
    {
        let voltage = match self.shunt_channel2() {
            Ok(v) => v,
            Err(e) => return Err(e),
        };
        let resistor = self.resistor2() as i32;
        if voltage >= 0 {
            Ok(voltage / resistor)
        } else {
            Ok(-((-voltage) / resistor))
        }
    }

    /// Current of channel 3 in milliamps: the channel's shunt voltage in
    /// microvolts divided by the configured channel 3 resistor value in
    /// milliohms, truncating toward zero.
    pub fn current_channel3(&mut self) -> (r: Result<i32, Error>)
        requires
            old(self).wf(),
        ensures
            Self::same_config(*old(self), *final(self)),
            final(self).wf(),
            r matches Ok(ma) ==> exists|raw: u16|
                final(self).history() =~= old(self).history().push(
                    read_tx(old(self).device_address(), 0x05, raw),
                ) && ma as int == div_toward_zero(
                    shunt_microvolts(raw),
                    old(self).resistors().2 as int,
                ),
            r matches Err(e) ==> e is I2cError,
    {
        let voltage = match self.shunt_channel3() {
            Ok(v) => v,
            Err(e) => return Err(e),
        };
        let resistor = self.resistor3() as i32;
        if voltage >= 0 {
            Ok(voltage / resistor)
        } else {
            Ok(-((-voltage) / resistor))
        }
    }
}

/// Every raw 3-bit value written into the configuration mode field reads
/// back unchanged, and decodes to the operating mode with that wire value,
/// except the reserved value 4, which decodes to
/// [`OperatingMode::PowerDown`].
pub proof fn lemma_mode_field_decode(v: u16, raw: u16)
    requires
        raw < 8,
    ensures
        mode_field(set_mode_field(v, raw)) == raw,
        raw != 4 ==> OperatingMode::from_raw_spec(raw).raw_value() == raw,
        raw == 4 ==> OperatingMode::from_raw_spec(raw) == OperatingMode::PowerDown,
{
    assert(mode_field(set_mode_field(v, raw)) == raw) by (bit_vector)
        requires
            raw < 8,
    ;
}

/// Round trip of the operating mode: setting a mode into any configuration
/// value and decoding the mode field of the result yields the same mode, and
/// every bit outside the mode field (bits[2:0]) is unchanged.
pub proof fn lemma_power_mode_round_trip(v: u16, m: OperatingMode)
    ensures
        OperatingMode::from_raw_spec(mode_field(set_mode_field(v, m.raw_value()))) == m,
        set_mode_field(v, m.raw_value()) & 0xFFF8 == v & 0xFFF8,
{
    let raw = m.raw_value();
    assert(mode_field(set_mode_field(v, raw)) == raw && set_mode_field(v, raw) & 0xFFF8 == v
        & 0xFFF8) by (bit_vector)
        requires
            raw < 8,
    ;
}

/// Round trip of the averaging mode: setting an averaging count into any
/// configuration value and decoding the averaging field of the result yields
/// the same count, and every bit outside the field (bits[8:6]) is unchanged.
pub proof fn lemma_averaging_round_trip(v: u16, m: AveragingMode)
    ensures
        AveragingMode::from_raw_spec(avg_field(set_avg_field(v, m.raw_value()))) == m,
        set_avg_field(v, m.raw_value()) & 0xFE3F == v & 0xFE3F,
{
    let raw = m.raw_value();
    assert(avg_field(set_avg_field(v, raw)) == raw && set_avg_field(v, raw) & 0xFE3F == v
        & 0xFE3F) by (bit_vector)
        requires
            raw < 8,
    ;
}

/// Enabling one channel sets exactly its bit: `bit` (one of bits 14, 13, 12,
/// for channels 1, 2, 3) is set in the result, and every other bit of `v` is
/// unchanged.
pub proof fn lemma_channel_enable(v: u16, bit: u16)
    requires
        bit == 0x4000 || bit == 0x2000 || bit == 0x1000,
    ensures
        (v | bit) & bit == bit,
        (v | bit) & (!bit) == v & (!bit),
{
    assert((v | bit) & bit == bit && (v | bit) & (!bit) == v & (!bit)) by (bit_vector);
}

/// Disabling one channel clears exactly its bit: `bit` (one of bits 14, 13,
/// 12, for channels 1, 2, 3) is clear in the result, and every other bit of
/// `v` is unchanged.
pub proof fn lemma_channel_disable(v: u16, bit: u16)
    requires
        bit == 0x4000 || bit == 0x2000 || bit == 0x1000,
    ensures
        (v & (!bit)) & bit == 0,
        (v & (!bit)) & (!bit) == v & (!bit),
{
    assert((v & (!bit)) & bit == 0 && (v & (!bit)) & (!bit) == v & (!bit)) by (bit_vector);
}

/// Enabling all channels sets bits[14:12] to 0b111 and leaves every other
/// bit of `v` unchanged.
pub proof fn lemma_enable_all_channels(v: u16)
    ensures
        ((v & 0x8FFF) | 0x7000) & 0x7000 == 0x7000,
        ((v & 0x8FFF) | 0x7000) & 0x8FFF == v & 0x8FFF,
{
    assert(((v & 0x8FFF) | 0x7000) & 0x7000 == 0x7000 && ((v & 0x8FFF) | 0x7000) & 0x8FFF == v
        & 0x8FFF) by (bit_vector);
}

/// Disabling all channels clears bits[14:12] and leaves every other bit of
/// `v` unchanged.
pub proof fn lemma_disable_all_channels(v: u16)
    ensures
        (v & 0x8FFF) & 0x7000 == 0,
        (v & 0x8FFF) & 0x8FFF == v & 0x8FFF,
{
    assert((v & 0x8FFF) & 0x7000 == 0 && (v & 0x8FFF) & 0x8FFF == v & 0x8FFF) by (bit_vector);
}


/// What a device stores on receiving the write frame of `v`: reassembling
/// the frame's two data bytes big-endian yields the high byte and the low
/// nibble of `v`. Bits 4..8 of `v` are never transmitted; a field that is to
/// survive a register write whole must lie outside them.
pub proof fn lemma_frame_stored_value(reg: u8, v: u16)
    ensures
        ((write_frame(reg, v)[1] as u16) << 8) | (write_frame(reg, v)[2] as u16) == (
        v & 0xFF0F),
{
    let hi = (v >> 8) as u8;
    let lo = (v & 0xF) as u8;
    assert(((hi as u16) << 8) | (lo as u16) == (v & 0xFF0F)) by (bit_vector)
        requires
            hi == (v >> 8) as u8 && lo == (v & 0xF) as u8,
    ;
}

} // verus!
