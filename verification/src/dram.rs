//! The byte-addressable backing store.
//!
//! A flat little-endian buffer: `load` reads the unsigned value of a window
//! of one to eight bytes, `store` writes the low bytes of a value into such a
//! window. Accesses must stay inside the buffer; the processor core checks
//! bounds before every access and reports a memory fault instead of reaching
//! past the end.

use vstd::prelude::*;

verus! {

/// Size of the backing store in bytes.
pub const MEM_SIZE: usize = 1024 * 1024;

/// How many bytes a `load` or `store` call touches: the given width, capped
/// at the eight bytes a 64-bit value can hold.
pub open spec fn width_of(size: u8) -> int {
    if size > 8 {
        8
    } else {
        size as int
    }
}

/// The little-endian unsigned value of the `n`-byte window of `mem` starting
/// at `addr`: byte `addr + k` lands at bits `[8k+7 : 8k]`.
pub open spec fn le_load(mem: Seq<u8>, addr: int, n: int) -> u64
    decreases n,
{
    if n <= 0 {
        0
    } else {
        le_load(mem, addr, n - 1) | ((mem[addr + n - 1] as u64) << (8 * (n - 1)))
    }
}

/// Byte `k` of the little-endian encoding of `data`.
pub open spec fn le_byte(data: u64, k: int) -> u8 {
    ((data >> (8 * k)) & 0xff) as u8
}

/// `mem` after the low `n` bytes of `data` are written little-endian at
/// `addr`; every byte outside the window keeps its value.
pub open spec fn le_store(mem: Seq<u8>, addr: int, data: u64, n: int) -> Seq<u8> {
    Seq::new(
        mem.len(),
        |i: int|
            if addr <= i < addr + n {
                le_byte(data, i - addr)
            } else {
                mem[i]
            },
    )
}

/// The backing store itself.
pub struct Dram {
    /// The bytes, low addresses first.
    pub dram: Vec<u8>,
}

impl Dram {
    /// Builds a `MEM_SIZE`-byte store holding `code` at address 0 and zeroes
    /// everywhere above it.
    pub fn New(code: Vec<u8>) -> (r: Dram)
        requires
            code@.len() <= MEM_SIZE,
        ensures
            r.dram@.len() == MEM_SIZE,
            forall|i: int| 0 <= i < code@.len() ==> r.dram@[i] == code@[i],
            forall|i: int| code@.len() <= i < MEM_SIZE ==> r.dram@[i] == 0,
    {
        let mut buf: Vec<u8> = Vec::new();
        let mut i: usize = 0;
        while i < MEM_SIZE
            invariant
                i <= MEM_SIZE,
                buf@.len() == i,
                forall|j: int| 0 <= j < i ==> buf@[j] == 0,
            decreases MEM_SIZE - i,
        {
            buf.push(0);
            i = i + 1;
        }
        let mut k: usize = 0;
        while k < code.len()
            invariant
                k <= code@.len(),
                code@.len() <= MEM_SIZE,
                buf@.len() == MEM_SIZE,
                forall|j: int| 0 <= j < k ==> buf@[j] == code@[j],
                forall|j: int| k <= j < MEM_SIZE ==> buf@[j] == 0,
            decreases code@.len() - k,
        {
            buf.set(k, code[k]);
            k = k + 1;
        }
        Dram { dram: buf }
    }

    /// Reads the little-endian value of the `size`-byte window at `addr`
    /// (widths above eight are capped at eight).
    pub fn load(&self, addr: u64, size: u8) -> (r: u64)
        requires
            addr + width_of(size) <= self.dram@.len(),
        ensures
            r == le_load(self.dram@, addr as int, width_of(size)),
    {
        let len = self.dram.len();
        let addrInd = addr as usize;
        let mut sizeBound: usize = size as usize;
        if size > 8 {
            sizeBound = 8;
        }
        let mut val: u64 = 0;
        let mut i: usize = 0;
        while i < sizeBound
            invariant
                i <= sizeBound,
                sizeBound == width_of(size),
                addrInd == addr,
                len == self.dram@.len(),
                addr + sizeBound <= len,
                val == le_load(self.dram@, addr as int, i as int),
            decreases sizeBound - i,
        {
            val = val | ((self.dram[addrInd + i] as u64) << (8 * (i as u64)));
            i = i + 1;
        }
        val
    }

    /// Writes the low `size` bytes of `data` little-endian at `addr` (widths
    /// above eight are capped at eight). No byte outside the window changes.
    pub fn store(&mut self, addr: u64, data: u64, size: u8)
        requires
            addr + width_of(size) <= old(self).dram@.len(),
        ensures
            final(self).dram@ == le_store(old(self).dram@, addr as int, data, width_of(size)),
    {
        let len = self.dram.len();
        let addrInd = addr as usize;
        let mut tmpSize: usize = size as usize;
        if size > 8 {
            tmpSize = 8;
        }
        let mut i: usize = 0;
        while i < tmpSize
            invariant
                i <= tmpSize,
                tmpSize == width_of(size),
                addrInd == addr,
                len == self.dram@.len(),
                addr + tmpSize <= len,
                self.dram@.len() == old(self).dram@.len(),
                forall|j: int|
                    0 <= j < self.dram@.len() ==> self.dram@[j] == (if addr <= j < addr + i {
                        le_byte(data, j - addr)
                    } else {
                        old(self).dram@[j]
                    }),
            decreases tmpSize - i,
        {
            self.dram.set(addrInd + i, ((data >> (8 * (i as u64))) & 0xff) as u8);
            i = i + 1;
        }
        assert(self.dram@ =~= le_store(old(self).dram@, addr as int, data, width_of(size)));
    }
}

} // verus!
