//! Bus interface: the two capabilities the driver needs from a transport
//! (single-register and burst register access), stated over a model of the
//! device's register block, plus an in-memory simulated bus that implements
//! them and is used by the test suite.

use vstd::prelude::*;
use crate::NUM_REGS;

verus! {

/// One bus transaction, as recorded in a bus interface's ghost history.
pub enum Transaction {
    /// A read of a single register.
    SingleRead {
        /// Register address read.
        addr: u8,
    },
    /// A write of a single register.
    SingleWrite {
        /// Register address written.
        addr: u8,
        /// Byte written to the register.
        value: u8,
    },
    /// One burst read of consecutive registers.
    BurstRead {
        /// First register address of the block.
        start: u8,
        /// Number of registers read.
        len: nat,
    },
    /// One burst write of consecutive registers.
    BurstWrite {
        /// First register address of the block.
        start: u8,
        /// Bytes written to consecutive registers from `start` on.
        values: Seq<u8>,
    },
}

/// The register block after a burst write of `values` starting at address
/// `start`: registers in the written span take the new bytes, all others
/// keep their old contents.
pub open spec fn spec_write_block(regs: Seq<u8>, start: int, values: Seq<u8>) -> Seq<u8> {
    Seq::new(
        regs.len(),
        |i: int|
            if start <= i < start + values.len() {
                values[i - start]
            } else {
                regs[i]
            },
    )
}

/// Base trait of the bus interface family. It binds an interface to the
/// model the driver's contracts are stated over: the device's register
/// block and the history of bus transactions issued so far.
pub trait Sealed {
    /// The device's register block, one byte per register address.
    spec fn regs(&self) -> Seq<u8>;

    /// All bus transactions issued through this interface, oldest first.
    /// A transaction is recorded whether or not it succeeded.
    spec fn history(&self) -> Seq<Transaction>;
}

/// Read capability of a bus interface.
pub trait ReadData: Sealed {
    /// Error type reported by the transport.
    type CommError;

    /// Read one register in a single bus transaction.
    fn read_register(&mut self, address: u8) -> (r: Result<u8, Self::CommError>)
        requires
            old(self).regs().len() == NUM_REGS as int,
            address < NUM_REGS as u8,
        ensures
            final(self).regs() == old(self).regs(),
            final(self).history() == old(self).history().push(
                Transaction::SingleRead { addr: address },
            ),
            r is Ok ==> r->Ok_0 == old(self).regs()[address as int],
    ;

    /// Burst-read consecutive registers in a single bus transaction.
    /// On input `buffer[0]` holds the start address; on success
    /// `buffer[1..]` holds the contents of the registers from that
    /// address on.
    fn read_data(&mut self, buffer: &mut Vec<u8>) -> (r: Result<(), Self::CommError>)
        requires
            old(self).regs().len() == NUM_REGS as int,
            old(buffer)@.len() >= 2,
            old(buffer)@[0] as int + old(buffer)@.len() - 1 <= NUM_REGS as int,
        ensures
            final(self).regs() == old(self).regs(),
            final(self).history() == old(self).history().push(
                Transaction::BurstRead {
                    start: old(buffer)@[0],
                    len: (old(buffer)@.len() - 1) as nat,
                },
            ),
            final(buffer)@.len() == old(buffer)@.len(),
            final(buffer)@[0] == old(buffer)@[0],
            r is Ok ==> forall|i: int|
                1 <= i < old(buffer)@.len() ==> final(buffer)@[i] == old(self).regs()[old(
                    buffer,
                )@[0] + i - 1],
    ;
}

/// Write capability of a bus interface.
pub trait WriteData: Sealed {
    /// Error type reported by the transport.
    type CommError;

    /// Write one register in a single bus transaction.
    fn write_register(&mut self, address: u8, value: u8) -> (r: Result<
        (),
        Self::CommError,
    >)
        requires
            old(self).regs().len() == NUM_REGS as int,
            address < NUM_REGS as u8,
        ensures
            final(self).regs().len() == old(self).regs().len(),
            final(self).history() == old(self).history().push(
                Transaction::SingleWrite { addr: address, value },
            ),
            r is Ok ==> final(self).regs() == old(self).regs().update(address as int, value),
    ;

    /// Burst-write consecutive registers in a single bus transaction.
    /// `payload[0]` holds the start address and `payload[1..]` the bytes to
    /// write to the registers from that address on.
    fn write_data(&mut self, payload: &[u8]) -> (r: Result<(), Self::CommError>)
        requires
            old(self).regs().len() == NUM_REGS as int,
            payload@.len() >= 2,
            payload@[0] as int + payload@.len() - 1 <= NUM_REGS as int,
        ensures
            final(self).regs().len() == old(self).regs().len(),
            final(self).history() == old(self).history().push(
                Transaction::BurstWrite {
                    start: payload@[0],
                    values: payload@.subrange(1, payload@.len() as int),
                },
            ),
            r is Ok ==> final(self).regs() == spec_write_block(
                old(self).regs(),
                payload@[0] as int,
                payload@.subrange(1, payload@.len() as int),
            ),
    ;
}

/// Error reported by [`SimBus`] for a transaction issued while it is told
/// to fail.
#[derive(Debug)]
pub struct SimBusError;

/// An in-memory bus interface: a register block held in a vector, with
/// counters of the transactions issued, one per transaction kind, and a
/// switch that makes every transaction fail. It backs the test suite in
/// place of a hardware transport.
pub struct SimBus {
    mem: Vec<u8>,
    fail: bool,
    single_reads: u64,
    burst_reads: u64,
    single_writes: u64,
    burst_writes: u64,
    past: Ghost<Seq<Transaction>>,
}

impl SimBus {
    /// Create a simulated bus whose register block initially holds
    /// `initial`, with an empty transaction history.
    pub fn new(initial: Vec<u8>) -> (r: SimBus)
        requires
            initial@.len() == NUM_REGS as int,
        ensures
            r.regs() == initial@,
            r.history() == Seq::<Transaction>::empty(),
    {
        SimBus {
            mem: initial,
            fail: false,
            single_reads: 0,
            burst_reads: 0,
            single_writes: 0,
            burst_writes: 0,
            past: Ghost(Seq::empty()),
        }
    }

    /// Make every following transaction fail (or succeed again). The
    /// register block and the recorded history are not touched.
    pub fn set_fail(&mut self, fail: bool)
        ensures
            final(self).regs() == old(self).regs(),
            final(self).history() == old(self).history(),
    {
        self.fail = fail;
    }

    /// Current contents of the register at `address`.
    pub fn register(&self, address: u8) -> (r: u8)
        requires
            self.regs().len() == NUM_REGS as int,
            address < NUM_REGS as u8,
        ensures
            r == self.regs()[address as int],
    {
        self.mem[address as usize]
    }

    /// How many single-register reads were issued.
    pub fn single_read_count(&self) -> u64 {
        self.single_reads
    }

    /// How many burst reads were issued.
    pub fn burst_read_count(&self) -> u64 {
        self.burst_reads
    }

    /// How many single-register writes were issued.
    pub fn single_write_count(&self) -> u64 {
        self.single_writes
    }

    /// How many burst writes were issued.
    pub fn burst_write_count(&self) -> u64 {
        self.burst_writes
    }
}

impl Sealed for SimBus {
    closed spec fn regs(&self) -> Seq<u8> {
        self.mem@
    }

    closed spec fn history(&self) -> Seq<Transaction> {
        self.past@
    }
}

impl ReadData for SimBus {
    type CommError = SimBusError;

    fn read_register(&mut self, address: u8) -> (r: Result<u8, SimBusError>) {
        if self.single_reads < u64::MAX {
            self.single_reads = self.single_reads + 1;
        }
        self.past = Ghost(self.past@.push(Transaction::SingleRead { addr: address }));
        if self.fail {
            return Err(SimBusError);
        }
        Ok(self.mem[address as usize])
    }

    fn read_data(&mut self, buffer: &mut Vec<u8>) -> (r: Result<(), SimBusError>) {
        if self.burst_reads < u64::MAX {
            self.burst_reads = self.burst_reads + 1;
        }
        self.past = Ghost(
            self.past@.push(
                Transaction::BurstRead { start: buffer[0], len: (buffer@.len() - 1) as nat },
            ),
        );
        if self.fail {
            return Err(SimBusError);
        }
        let start = buffer[0] as usize;
        let len = buffer.len();
        let mut i: usize = 1;
        while i < len
            invariant
                1 <= i <= len,
                len == buffer@.len(),
                self.mem@ == old(self).mem@,
                self.past@ == old(self).past@.push(
                    Transaction::BurstRead {
                        start: old(buffer)@[0],
                        len: (old(buffer)@.len() - 1) as nat,
                    },
                ),
                start == old(buffer)@[0] as int,
                start + len - 1 <= NUM_REGS as int,
                self.mem@.len() == NUM_REGS as int,
                buffer@[0] == old(buffer)@[0],
                forall|j: int| 1 <= j < i ==> buffer@[j] == self.mem@[start + j - 1],
            decreases len - i,
        {
            let v = self.mem[start + i - 1];
            buffer[i] = v;
            i = i + 1;
        }
        Ok(())
    }
}

impl WriteData for SimBus {
    type CommError = SimBusError;

    fn write_register(&mut self, address: u8, value: u8) -> (r: Result<(), SimBusError>) {
        if self.single_writes < u64::MAX {
            self.single_writes = self.single_writes + 1;
        }
        self.past = Ghost(
            self.past@.push(Transaction::SingleWrite { addr: address, value }),
        );
        if self.fail {
            return Err(SimBusError);
        }
        self.mem[address as usize] = value;
        Ok(())
    }

    fn write_data(&mut self, payload: &[u8]) -> (r: Result<(), SimBusError>) {
        if self.burst_writes < u64::MAX {
            self.burst_writes = self.burst_writes + 1;
        }
        self.past = Ghost(
            self.past@.push(
                Transaction::BurstWrite {
                    start: payload@[0],
                    values: payload@.subrange(1, payload@.len() as int),
                },
            ),
        );
        if self.fail {
            return Err(SimBusError);
        }
        let start = payload[0] as usize;
        let len = payload.len();
        let mut i: usize = 1;
        while i < len
            invariant
                1 <= i <= len,
                len == payload@.len(),
                self.past@ == old(self).past@.push(
                    Transaction::BurstWrite {
                        start: payload@[0],
                        values: payload@.subrange(1, payload@.len() as int),
                    },
                ),
                start == payload@[0] as int,
                start + len - 1 <= NUM_REGS as int,
                self.mem@.len() == NUM_REGS as int,
                forall|j: int|
                    0 <= j < self.mem@.len() ==> self.mem@[j] == (if start <= j
                        < start + i - 1 {
                        payload@[j - start + 1]
                    } else {
                        old(self).mem@[j]
                    }),
            decreases len - i,
        {
            let v = payload[i];
            self.mem[start + i - 1] = v;
            i = i + 1;
        }
        proof {
            assert(self.mem@ =~= spec_write_block(
                old(self).mem@,
                payload@[0] as int,
                payload@.subrange(1, payload@.len() as int),
            ));
        }
        Ok(())
    }
}

} // verus!
