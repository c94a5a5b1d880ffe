//! The bus that carries memory traffic from the processor to the backing
//! store. It owns the store and forwards loads and stores unchanged.

use vstd::prelude::*;

use crate::dram::Dram;
use crate::dram::le_load;
use crate::dram::le_store;
use crate::dram::width_of;
use crate::dram::MEM_SIZE;

verus! {

/// The memory bus: today it reaches one device, the backing store.
pub struct Bus {
    /// The backing store behind the bus.
    pub dram: Dram,
}

impl Bus {
    /// Builds a bus over a fresh backing store holding `code` at address 0.
    pub fn New(code: Vec<u8>) -> (r: Bus)
        requires
            code@.len() <= MEM_SIZE,
        ensures
            r.dram.dram@.len() == MEM_SIZE,
            forall|i: int| 0 <= i < code@.len() ==> r.dram.dram@[i] == code@[i],
            forall|i: int| code@.len() <= i < MEM_SIZE ==> r.dram.dram@[i] == 0,
    {
        Bus { dram: Dram::New(code) }
    }

    /// Reads the little-endian value of the `size`-byte window at `addr`.
    pub fn load(&self, addr: u64, size: u8) -> (r: u64)
        requires
            addr + width_of(size) <= self.dram.dram@.len(),
        ensures
            r == le_load(self.dram.dram@, addr as int, width_of(size)),
    {
        self.dram.load(addr, size)
    }

    /// Writes the low `size` bytes of `data` little-endian at `addr`.
    pub fn store(&mut self, addr: u64, data: u64, size: u8)
        requires
            addr + width_of(size) <= old(self).dram.dram@.len(),
        ensures
            final(self).dram.dram@ == le_store(
                old(self).dram.dram@,
                addr as int,
                data,
                width_of(size),
            ),
    {
        self.dram.store(addr, data, size);
    }
}

} // verus!
