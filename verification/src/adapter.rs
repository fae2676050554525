//! The target adapter: the capability set the protocol engine drives,
//! phrased over plain values.
//!
//! The adapter is bound to one execution instance of the simulator and is
//! stateless between calls.  The simulator itself is an external
//! collaborator: the surrounding process enumerates resources, reads
//! register values and issues memory-bus reads, and hands the raw results
//! to the functions here, which do all the mapping, flattening and
//! assignment.

use vstd::prelude::*;
use crate::registers::GuestState;
use crate::regmap::{slot_for_name, spec_slot_for_name};

verus! {

broadcast use vstd::array::group_array_axioms;

/// The adapter's binding to one execution instance.
pub struct IrisGdbStub {
    pub instance_id: u32,
}

/// One entry of the simulator's resource directory together with the data
/// words a read of it returned.
pub struct ResourceReading {
    pub name: String,
    pub data: Vec<u64>,
}

/// A single memory-bus read request: one fixed address space, byte-sized
/// access units, a 64-bit start address and a byte count.
#[derive(Debug, Clone, PartialEq)]
pub struct MemoryRequest {
    pub instance_id: u32,
    pub space_id: u64,
    pub address: u64,
    pub access_width: u64,
    pub byte_count: u64,
}

/// Why an adapter call failed.
#[derive(Debug, Clone, PartialEq)]
pub enum AdapterError {
    /// The capability is accepted by the protocol but not implemented
    /// against this simulator.
    NotSupported,
}

/// Why execution stopped, as reported to the protocol engine.
#[derive(Debug, Clone, PartialEq)]
pub enum StopReason {
    Trap,
    Breakpoint,
    Signal(u8),
    Exited(u8),
}

/// How the protocol engine asks execution to proceed.
#[derive(Debug, Clone, PartialEq)]
pub enum ResumeAction {
    Continue,
    Step,
    ContinueWithSignal(u8),
    StepWithSignal(u8),
}

/// The register file after one resource reading has been applied: a
/// recognized register name with at least one data word assigns its first
/// word, truncated to 32 bits, to the mapped slot; anything else leaves
/// the file unchanged.
pub open spec fn apply_reading(regs: Seq<u32>, reading: &ResourceReading) -> Seq<u32> {
    match spec_slot_for_name(reading.name@) {
        Some(slot) => if reading.data@.len() > 0 {
            regs.update(slot as int, reading.data@[0] as u32)
        } else {
            regs
        },
        None => regs,
    }
}

/// The register file after the first `n` readings have been applied in
/// order.
pub open spec fn apply_readings(regs: Seq<u32>, readings: Seq<ResourceReading>, n: int) -> Seq<u32>
    decreases n,
{
    if n <= 0 {
        regs
    } else {
        apply_reading(apply_readings(regs, readings, n - 1), &readings[n - 1])
    }
}

/// The byte at flat position `i` when each 64-bit word of `words` is laid
/// out in little-endian order.
pub open spec fn flat_byte(words: Seq<u64>, i: int) -> u8 {
    ((words[i / 8] >> ((8 * (i % 8)) as u64)) & 0xff) as u8
}

impl IrisGdbStub {
    /// Binds an adapter to the execution instance with the given id.
    pub fn from_instance(instance_id: u32) -> (r: Self)
        ensures
            r.instance_id == instance_id,
    {
        IrisGdbStub { instance_id }
    }

    /// Populates a register file from the simulator's resource directory:
    /// each reading whose name maps to a register slot and whose data is
    /// non-empty assigns its first word to that slot; unmapped names and
    /// empty reads are skipped.
    pub fn read_registers(&self, regs: &mut GuestState, readings: &Vec<ResourceReading>)
        ensures
            final(regs).regs@ == apply_readings(
                old(regs).regs@,
                readings@,
                readings@.len() as int,
            ),
    {
        let ghost orig = regs.regs@;
        let mut idx: usize = 0;
        while idx < readings.len()
            invariant
                idx <= readings@.len(),
                orig == old(regs).regs@,
                regs.regs@ == apply_readings(orig, readings@, idx as int),
            decreases readings@.len() - idx,
        {
            let reading = &readings[idx];
            match slot_for_name(reading.name.as_str()) {
                Some(slot) => {
                    if reading.data.len() > 0 {
                        regs.regs[slot] = #[verifier::truncate] (reading.data[0] as u32);
                    }
                },
                None => {},
            }
            idx += 1;
        }
    }

    /// The memory-bus request for reading `byte_count` bytes starting at
    /// `start_addr`: address space 0, access unit 1, within the bound
    /// instance.
    pub fn memory_request(&self, start_addr: u32, byte_count: u64) -> (r: MemoryRequest)
        ensures
            r.instance_id == self.instance_id,
            r.space_id == 0,
            r.address == start_addr as u64,
            r.access_width == 1,
            r.byte_count == byte_count,
    {
        MemoryRequest {
            instance_id: self.instance_id,
            space_id: 0,
            address: start_addr as u64,
            access_width: 1,
            byte_count,
        }
    }

    /// Copies the words a memory-bus read returned into the destination
    /// buffer, flattened in little-endian order.  As many bytes are
    /// copied as fit: excess source bytes are discarded, and bytes of the
    /// destination past the flattened data are left as they were.
    pub fn read_addrs(&self, dest: &mut Vec<u8>, words: &Vec<u64>)
        ensures
            final(dest)@.len() == old(dest)@.len(),
            forall|i: int|
                0 <= i < old(dest)@.len() && i < 8 * words@.len() ==> final(dest)@[i] == flat_byte(
                    words@,
                    i,
                ),
            forall|i: int|
                8 * words@.len() <= i < old(dest)@.len() ==> final(dest)@[i] == old(dest)@[i],
    {
        let ghost orig = dest@;
        let mut offset: usize = 0;
        while offset < dest.len() && offset / 8 < words.len()
            invariant
                orig == old(dest)@,
                dest@.len() == orig.len(),
                offset <= dest@.len(),
                offset <= 8 * words@.len(),
                forall|i: int| 0 <= i < offset ==> dest@[i] == flat_byte(words@, i),
                forall|i: int| offset <= i < dest@.len() ==> dest@[i] == orig[i],
            decreases dest@.len() - offset,
        {
            let wi = offset / 8;
            let k = offset % 8;
            let w = words[wi];
            let shift: u64 = 8 * (k as u64);
            proof {
                assert((w >> shift) & 0xff < 0x100) by (bit_vector);
            }
            let b = ((w >> shift) & 0xff) as u8;
            proof {
                assert(offset as int / 8 == wi as int && offset as int % 8 == k as int);
                assert(b == flat_byte(words@, offset as int));
                assert(offset / 8 < words@.len() ==> offset < 8 * words@.len());
            }
            dest[offset] = b;
            offset += 1;
        }
        proof {
            if offset < dest@.len() {
                assert(offset as int / 8 >= words@.len());
                assert(offset >= 8 * words@.len());
            }
        }
    }

    /// Accepts a memory write and performs no mutation against the
    /// simulator: always reports success.  A documented limitation of
    /// this target, not an oversight.
    pub fn write_addrs(&self, _start_addr: u32, _data: &Vec<u8>) -> (r: Result<(), AdapterError>)
        ensures
            r == Ok::<(), AdapterError>(()),
    {
        Ok(())
    }

    /// Accepts a register-file write and performs no mutation against the
    /// simulator: always reports success.  A documented limitation of
    /// this target, not an oversight.
    pub fn write_registers(&self, _regs: &GuestState) -> (r: Result<(), AdapterError>)
        ensures
            r == Ok::<(), AdapterError>(()),
    {
        Ok(())
    }

    /// Execution control is not implemented against this simulator: every
    /// resume request is answered with a recoverable `NotSupported` error
    /// rather than a stop reason.
    pub fn resume(&self, _action: ResumeAction) -> (r: Result<StopReason, AdapterError>)
        ensures
            r == Err::<StopReason, AdapterError>(AdapterError::NotSupported),
    {
        Err(AdapterError::NotSupported)
    }
}

} // verus!
