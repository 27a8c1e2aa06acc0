//! Register-level driver for the INA3221, a three-channel current/voltage
//! monitor addressed over a two-wire serial bus.
//!
//! The driver is generic over a [`TwoWireBus`] transport. Every bus access is
//! recorded in the transport's ghost transaction history, so each operation's
//! contract states exactly which bytes it puts on the wire and how the value
//! it returns was decoded from the bytes that came back.

mod bus;
mod general;

pub use bus::{BusErrorKind, BusOp, SimBus, Transaction, TwoWireBus};
pub use general::{AveragingMode, ConversionTime, OperatingMode};

use vstd::prelude::*;

verus! {

use crate::bus::Transaction as Tx;

/// The device address the chip answers on when its address pins are grounded.
pub const INA3221_DEFAULT_ADDR: u8 = 0x40;

/// Driver error type.
#[derive(Debug, Clone, Copy, PartialEq, Eq, Structural)]
#[non_exhaustive]
pub enum Error {
    /// A transaction on the two-wire bus failed; carries the transport's
    /// classification of the failure.
    I2cError(BusErrorKind),
    /// Other error, reserved for non-bus failure causes.
    Other,
}

/// The two data bytes of register value `v` as they travel on the bus,
/// big-endian: high byte first.
pub open spec fn be_bytes(v: u16) -> Seq<u8> {
    seq![(v >> 8) as u8, (v & 0xFF) as u8]
}

/// The three-byte payload of a register write: register address, high byte of
/// the value, then only the low nibble of the low byte. Bits 4..8 of the low
/// byte are always transmitted as zero; this is the chip's write-path framing
/// and is kept exactly.
pub open spec fn write_frame(reg: u8, v: u16) -> Seq<u8> {
    seq![reg, (v >> 8) as u8, (v & 0xF) as u8]
}

/// The bus transaction of a register read: the register address is written,
/// then the two value bytes are read back, big-endian.
pub open spec fn read_tx(addr: u8, reg: u8, v: u16) -> Transaction {
    Tx::WriteRead { addr, out: seq![reg], data: be_bytes(v) }
}

/// The bus transaction of a register write: one write of [`write_frame`].
pub open spec fn write_tx(addr: u8, reg: u8, v: u16) -> Transaction {
    Tx::Write { addr, data: write_frame(reg, v) }
}

/// INA3221 driver instance.
///
/// Owns the bus transport exclusively. Shunt resistor values are in milliohms.
#[derive(Debug)]
pub struct Ina3221<B> {
    i2c: B,
    address: u8,
    shunt_r1: u8,
    shunt_r2: u8,
    shunt_r3: u8,
}

impl<B: TwoWireBus> Ina3221<B> {
    /// The 7-bit device address this driver targets.
    pub closed spec fn device_address(self) -> u8 {
        self.address
    }

    /// The configured shunt resistor values for channels 1, 2 and 3,
    /// in milliohms.
    pub closed spec fn resistors(self) -> (u8, u8, u8) {
        (self.shunt_r1, self.shunt_r2, self.shunt_r3)
    }

    /// The transport's transaction history, oldest first.
    pub closed spec fn history(self) -> Seq<Transaction> {
        self.i2c.history()
    }

    /// Well-formed: every shunt resistor is non-zero, so current computation
    /// never divides by zero. Established at construction and kept by every
    /// operation.
    pub open spec fn wf(self) -> bool {
        self.resistors().0 != 0 && self.resistors().1 != 0 && self.resistors().2 != 0
    }

    /// The driver configuration (device address and resistor values) of `b`
    /// is the same as that of `a`.
    pub open spec fn same_config(a: Self, b: Self) -> bool {
        b.device_address() == a.device_address() && b.resistors() == a.resistors()
    }

    /// Creates a driver on the default device address, with all three shunt
    /// resistors at their default 10 milliohms.
    pub fn new(i2c: B) -> (r: Self)
        ensures
            r.device_address() == INA3221_DEFAULT_ADDR,
            r.resistors() == (10u8, 10u8, 10u8),
            r.history() == i2c.history(),
            r.wf(),
    {
        Self { i2c, address: INA3221_DEFAULT_ADDR, shunt_r1: 10, shunt_r2: 10, shunt_r3: 10 }
    }

    /// Creates a driver on the given 7-bit device address, with all three
    /// shunt resistors at their default 10 milliohms.
    pub fn new_with_addr(i2c: B, address: u8) -> (r: Self)
        ensures
            r.device_address() == address,
            r.resistors() == (10u8, 10u8, 10u8),
            r.history() == i2c.history(),
            r.wf(),
    {
        Self { i2c, address, shunt_r1: 10, shunt_r2: 10, shunt_r3: 10 }
    }

    /// Sets the channel 1 shunt resistor value in milliohms. A zero value is
    /// rejected here, at configuration time, because it would make the
    /// channel's current computation divide by zero.
    #[must_use]
    pub fn shunt_r1(self, value: u8) -> (r: Self)
        requires
            value != 0,
        ensures
            r.resistors() == (value, self.resistors().1, self.resistors().2),
            r.device_address() == self.device_address(),
            r.history() == self.history(),
            self.wf() ==> r.wf(),
    {
        let mut s = self;
        s.shunt_r1 = value;
        s
    }

    /// Sets the channel 2 shunt resistor value in milliohms. A zero value is
    /// rejected here, at configuration time, because it would make the
    /// channel's current computation divide by zero.
    #[must_use]
    pub fn shunt_r2(self, value: u8) -> (r: Self)
        requires
            value != 0,
        ensures
            r.resistors() == (self.resistors().0, value, self.resistors().2),
            r.device_address() == self.device_address(),
            r.history() == self.history(),
            self.wf() ==> r.wf(),
    {
        let mut s = self;
        s.shunt_r2 = value;
        s
    }

    /// Sets the channel 3 shunt resistor value in milliohms. A zero value is
    /// rejected here, at configuration time, because it would make the
    /// channel's current computation divide by zero.
    #[must_use]
    pub fn shunt_r3(self, value: u8) -> (r: Self)
        requires
            value != 0,
        ensures
            r.resistors() == (self.resistors().0, self.resistors().1, value),
            r.device_address() == self.device_address(),
            r.history() == self.history(),
            self.wf() ==> r.wf(),
    {
        let mut s = self;
        s.shunt_r3 = value;
        s
    }

    /// The configured channel 1 shunt resistor value in milliohms.
    pub(crate) fn resistor1(&self) -> (r: u8)
        ensures
            r == self.resistors().0,
    {
        self.shunt_r1
    }

    /// The configured channel 2 shunt resistor value in milliohms.
    pub(crate) fn resistor2(&self) -> (r: u8)
        ensures
            r == self.resistors().1,
    {
        self.shunt_r2
    }

    /// The configured channel 3 shunt resistor value in milliohms.
    pub(crate) fn resistor3(&self) -> (r: u8)
        ensures
            r == self.resistors().2,
    {
        self.shunt_r3
    }

    /// Releases the driver, returning ownership of the bus transport.
    pub fn destroy(self) -> (r: B)
        ensures
            r.history() == self.history(),
    {
        self.i2c
    }

    /// Reads the manufacturer identification register, returned verbatim.
    pub fn manufacturer_id(&mut self) -> (r: Result<u16, Error>)
        ensures
            Self::same_config(*old(self), *final(self)),
            r matches Ok(v) ==> final(self).history() =~= old(self).history().push(
                read_tx(old(self).device_address(), 0xFE, v),
            ),
            r matches Err(e) ==> e is I2cError,
    {
        self.read_u16(0xFE)
    }

    /// Reads the die identification register, returned verbatim.
    pub fn die_id(&mut self) -> (r: Result<u16, Error>)
        ensures
            Self::same_config(*old(self), *final(self)),
            r matches Ok(v) ==> final(self).history() =~= old(self).history().push(
                read_tx(old(self).device_address(), 0xFF, v),
            ),
            r matches Err(e) ==> e is I2cError,
    {
        self.read_u16(0xFF)
    }

    /// Reads a 16-bit register: writes the register address, reads two bytes
    /// back, and interprets them big-endian. Exactly one bus transaction.
    pub fn read_u16(&mut self, reg: u8) -> (r: Result<u16, Error>)
        ensures
            Self::same_config(*old(self), *final(self)),
            r matches Ok(v) ==> final(self).history() =~= old(self).history().push(
                read_tx(old(self).device_address(), reg, v),
            ),
            r matches Err(e) ==> e is I2cError,
    {
        let mut out: Vec<u8> = Vec::new();
        out.push(reg);
        match self.i2c.write_read(self.address, out.as_slice(), 2) {
            Ok(buf) => {
                let value: u16 = ((buf[0] as u16) << 8) | (buf[1] as u16);
                proof {
                    let b0 = buf@[0];
                    let b1 = buf@[1];
                    assert((((b0 as u16) << 8 | (b1 as u16)) >> 8) as u8 == b0
                        && (((b0 as u16) << 8 | (b1 as u16)) & 0xFF) as u8 == b1) by (bit_vector);
                    assert(be_bytes(value) =~= buf@);
                }
                Ok(value)
            },
            Err(kind) => Err(Error::I2cError(kind)),
        }
    }

    /// Writes a 16-bit register in exactly one bus transaction, with the
    /// write-path framing of [`write_frame`]: only the low nibble of the low
    /// byte is transmitted.
    pub fn write_u16(&mut self, reg: u8, value: u16) -> (r: Result<(), Error>)
        ensures
            Self::same_config(*old(self), *final(self)),
            r is Ok ==> final(self).history() =~= old(self).history().push(
                write_tx(old(self).device_address(), reg, value),
            ),
            r matches Err(e) ==> e is I2cError,
    {
        let mut buf: Vec<u8> = Vec::new();
        buf.push(reg);
        buf.push((value >> 8) as u8);
        buf.push((value & 0xF) as u8);
        proof {
            assert(buf@ =~= write_frame(reg, value));
        }
        match self.i2c.write(self.address, buf.as_slice()) {
            Ok(()) => Ok(()),
            Err(kind) => Err(Error::I2cError(kind)),
        }
    }
}

} // verus!
