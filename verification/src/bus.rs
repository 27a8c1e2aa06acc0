//! The two-wire bus capability the driver rides on, and a verified in-memory
//! transport that simulates the sensor's register file.

use vstd::prelude::*;

verus! {

/// Classification of a failure reported by the two-wire bus transport.
#[derive(Debug, Clone, Copy, PartialEq, Eq, Structural)]
pub enum BusErrorKind {
    /// Arbitration for the shared bus was lost to another controller.
    ArbitrationLoss,
    /// The device did not acknowledge an address or data byte.
    NoAcknowledge,
    /// A fault was detected on the bus lines.
    Bus,
    /// Data arrived faster than it could be accepted.
    Overrun,
    /// Any other, unspecified failure.
    Other,
}

/// One completed bus transaction, as it appears in a transport's history:
/// either a plain write of a byte string to a device, or a write followed by
/// a read in one combined transaction (`out` sent, `data` received).
pub ghost enum Transaction {
    Write { addr: u8, data: Seq<u8> },
    WriteRead { addr: u8, out: Seq<u8>, data: Seq<u8> },
}

/// A two-wire serial bus transport, addressing devices by 7-bit address.
///
/// `history` is the transport's ghost record of the transactions it has
/// completed, oldest first; each successful call appends exactly one entry.
/// Nothing is promised about the bytes a device returns, and neither method
/// is required to succeed: a transport may fail any call with the matching
/// [`BusErrorKind`].
pub trait TwoWireBus: Sized {
    /// The transactions completed so far, oldest first. The default is the
    /// record of a transport that keeps none; a transport whose callers rely
    /// on the record, as [`SimBus`] does, overrides it.
    open spec fn history(&self) -> Seq<Transaction> {
        Seq::empty()
    }

    /// Writes `bytes` to the device at `address` in one bus transaction.
    fn write(&mut self, address: u8, bytes: &[u8]) -> (r: Result<(), BusErrorKind>)
        ensures
            r is Ok ==> final(self).history() =~= old(self).history().push(
                Transaction::Write { addr: address, data: bytes@ },
            ),
    ;

    /// Writes `out_bytes` to the device at `address`, then reads exactly
    /// `read_len` bytes from it, in one combined bus transaction.
    fn write_read(&mut self, address: u8, out_bytes: &[u8], read_len: usize) -> (r: Result<
        Vec<u8>,
        BusErrorKind,
    >)
        ensures
            r matches Ok(data) ==> data@.len() == read_len && final(self).history() =~= old(
                self,
            ).history().push(
                Transaction::WriteRead { addr: address, out: out_bytes@, data: data@ },
            ),
    ;
}

/// A bus operation as recorded by [`SimBus`]: the concrete counterpart of
/// [`Transaction`], held as plain vectors so that tests can inspect it.
#[derive(Debug, PartialEq, Eq)]
pub enum BusOp {
    Write { addr: u8, data: Vec<u8> },
    WriteRead { addr: u8, out: Vec<u8>, data: Vec<u8> },
}

/// The [`Transaction`] that a recorded [`BusOp`] stands for.
pub open spec fn op_transaction(op: BusOp) -> Transaction {
    match op {
        BusOp::Write { addr, data } => Transaction::Write { addr, data: data@ },
        BusOp::WriteRead { addr, out, data } => Transaction::WriteRead {
            addr,
            out: out@,
            data: data@,
        },
    }
}

/// The history that a sequence of recorded operations stands for.
pub open spec fn ops_history(ops: Seq<BusOp>) -> Seq<Transaction> {
    ops.map_values(|op: BusOp| op_transaction(op))
}

proof fn lemma_ops_history_push(ops: Seq<BusOp>, op: BusOp)
    ensures
        ops_history(ops.push(op)) =~= ops_history(ops).push(op_transaction(op)),
{
}

/// An in-memory two-wire transport: a register file of 256 16-bit registers
/// behind a simulated device. Writes of a three-byte frame store the frame's
/// high and low data bytes into the addressed register; reads of two bytes
/// return the addressed register big-endian, as the sensor does. Every
/// completed operation is recorded in `log`, and a failure of any chosen
/// kind can be injected.
#[derive(Debug)]
pub struct SimBus {
    registers: Vec<u16>,
    /// Every completed operation, oldest first.
    pub log: Vec<BusOp>,
    failure: Option<BusErrorKind>,
}

impl SimBus {
    /// The simulated device's register file, one entry per register address.
    pub closed spec fn reg_file(self) -> Seq<u16> {
        self.registers@
    }

    /// Well-formed: the register file covers every 8-bit register address.
    pub closed spec fn wf(self) -> bool {
        self.registers@.len() == 256
    }

    /// The failure injected for subsequent operations, if any.
    pub closed spec fn injected_failure(self) -> Option<BusErrorKind> {
        self.failure
    }

    /// A fresh transport: all registers zero, empty log, no injected failure.
    pub fn new() -> (r: SimBus)
        ensures
            r.wf(),
            r.history() =~= Seq::<Transaction>::empty(),
            forall|i: int| 0 <= i < 256 ==> r.reg_file()[i] == 0u16,
            r.injected_failure() is None,
    {
        SimBus { registers: vec![0u16; 256], log: Vec::new(), failure: None }
    }

    /// Stores `value` in register `reg` directly, bypassing the bus: the way
    /// a test stages the simulated device's state.
    pub fn set_register(&mut self, reg: u8, value: u16)
        requires
            old(self).wf(),
        ensures
            final(self).wf(),
            final(self).reg_file() =~= old(self).reg_file().update(reg as int, value),
            final(self).history() == old(self).history(),
            final(self).injected_failure() == old(self).injected_failure(),
    {
        self.registers.set(reg as usize, value);
    }

    /// The current content of register `reg`, read directly.
    pub fn register(&self, reg: u8) -> (r: u16)
        requires
            self.wf(),
        ensures
            r == self.reg_file()[reg as int],
    {
        self.registers[reg as usize]
    }

    /// Makes every subsequent bus operation fail with `kind`, until
    /// [`SimBus::clear_failure`] is called.
    pub fn fail_with(&mut self, kind: BusErrorKind)
        ensures
            final(self).injected_failure() == Some(kind),
            final(self).reg_file() == old(self).reg_file(),
            final(self).wf() == old(self).wf(),
            final(self).history() == old(self).history(),
    {
        self.failure = Some(kind);
    }

    /// Lets bus operations succeed again.
    pub fn clear_failure(&mut self)
        ensures
            final(self).injected_failure() is None,
            final(self).reg_file() == old(self).reg_file(),
            final(self).wf() == old(self).wf(),
            final(self).history() == old(self).history(),
    {
        self.failure = None;
    }
}

impl TwoWireBus for SimBus {
    closed spec fn history(&self) -> Seq<Transaction> {
        ops_history(self.log@)
    }

    fn write(&mut self, address: u8, bytes: &[u8]) -> (r: Result<(), BusErrorKind>)
        ensures
            final(self).wf() == old(self).wf(),
            final(self).injected_failure() == old(self).injected_failure(),
            old(self).injected_failure() matches Some(k) ==> (r matches Err(e) && e == k
                && *final(self) == *old(self)),
            old(self).injected_failure() is None ==> r is Ok,
            old(self).injected_failure() is None && old(self).wf() && bytes@.len() == 3
                ==> final(self).reg_file() =~= old(self).reg_file().update(
                bytes@[0] as int,
                ((bytes@[1] as u16) << 8) | (bytes@[2] as u16),
            ),
            old(self).injected_failure() is None && bytes@.len() != 3 ==> final(self).reg_file()
                == old(self).reg_file(),
    {
        match self.failure {
            Some(kind) => Err(kind),
            None => {
                if bytes.len() == 3 {
                    let reg = bytes[0];
                    if (reg as usize) < self.registers.len() {
                        let value: u16 = ((bytes[1] as u16) << 8) | (bytes[2] as u16);
                        self.registers.set(reg as usize, value);
                    }
                }
                let data = vstd::slice::slice_to_vec(bytes);
                let op = BusOp::Write { addr: address, data };
                let ghost pre_log = self.log@;
                self.log.push(op);
                proof {
                    lemma_ops_history_push(pre_log, op);
                }
                Ok(())
            },
        }
    }

    fn write_read(&mut self, address: u8, out_bytes: &[u8], read_len: usize) -> (r: Result<
        Vec<u8>,
        BusErrorKind,
    >)
        ensures
            final(self).wf() == old(self).wf(),
            final(self).injected_failure() == old(self).injected_failure(),
            final(self).reg_file() == old(self).reg_file(),
            old(self).injected_failure() matches Some(k) ==> (r matches Err(e) && e == k
                && *final(self) == *old(self)),
            old(self).injected_failure() is None && old(self).wf() && out_bytes@.len() == 1
                && read_len == 2 ==> (r matches Ok(data) && data@ == crate::be_bytes(
                old(self).reg_file()[out_bytes@[0] as int],
            )),
    {
        match self.failure {
            Some(kind) => Err(kind),
            None => {
                if out_bytes.len() != 1 || read_len != 2 {
                    return Err(BusErrorKind::Other);
                }
                let reg = out_bytes[0];
                if (reg as usize) >= self.registers.len() {
                    return Err(BusErrorKind::Other);
                }
                let value = self.registers[reg as usize];
                let hi: u8 = (value >> 8) as u8;
                let lo: u8 = (value & 0xFF) as u8;
                let mut data: Vec<u8> = Vec::new();
                data.push(hi);
                data.push(lo);
                let mut recorded: Vec<u8> = Vec::new();
                recorded.push(hi);
                recorded.push(lo);
                let out = vstd::slice::slice_to_vec(out_bytes);
                let op = BusOp::WriteRead { addr: address, out, data: recorded };
                let ghost pre_log = self.log@;
                self.log.push(op);
                proof {
                    lemma_ops_history_push(pre_log, op);
                    assert(op_transaction(op) == Transaction::WriteRead {
                        addr: address,
                        out: out_bytes@,
                        data: data@,
                    });
                }
                Ok(data)
            },
        }
    }
}

} // verus!
