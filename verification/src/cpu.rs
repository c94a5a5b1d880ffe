//! The processor state and the top-level decoder.
//!
//! A `Cpu` owns the 32 general-purpose registers, the 32 floating-point
//! registers (held as raw 64-bit NaN-boxed bit patterns), the floating-point
//! control word, the 4096-entry control/status register bank, the program
//! counter, the memory bus and the privilege level. `decode` classifies one
//! 32-bit word by its primary opcode and hands it to the matching format
//! decoder.

use vstd::prelude::*;

use crate::bus::Bus;
use crate::dram::le_load;
use crate::dram::MEM_SIZE;
use crate::regs::BranchInst;
use crate::regs::DecodeError;
use crate::regs::InstructionFormat;
use crate::regs::JumpInst;
use crate::regs::R3Inst;
use crate::regs::RegImmInst;
use crate::regs::RegRegInst;
use crate::regs::StoreInst;
use crate::regs::UpperImmInst;

verus! {

/// The privilege level the processor runs at.
#[derive(Debug, Copy, Clone, PartialEq, Eq, Structural)]
pub enum privilege_level {
    /// User mode.
    U,
    /// Supervisor mode.
    S,
    /// Machine mode.
    M,
}

/// The mathematical value of a whole processor: every register file as a
/// sequence, the program counter, and the memory contents.
pub struct CpuState {
    /// The 32 general-purpose registers.
    pub regs: Seq<u64>,
    /// The 32 floating-point registers, as raw 64-bit bit patterns.
    pub fregs: Seq<u64>,
    /// The floating-point control/status word.
    pub fcsr: u32,
    /// The 4096 control/status registers.
    pub csrs: Seq<u64>,
    /// The program counter.
    pub pc: u64,
    /// The bytes of memory.
    pub mem: Seq<u8>,
    /// The privilege level.
    pub prv: privilege_level,
}

impl CpuState {
    /// The register files have their architectural sizes and memory its full
    /// extent.
    pub open spec fn wf(&self) -> bool {
        &&& self.regs.len() == 32
        &&& self.fregs.len() == 32
        &&& self.csrs.len() == 4096
        &&& self.mem.len() == MEM_SIZE
    }
}

/// The processor.
pub struct Cpu {
    /// The 32 general-purpose 64-bit registers. Register 0 is the hardwired
    /// zero register: the engine discards every write aimed at it at the
    /// point of write, and the cycle re-zeroes it once more as a defensive
    /// clamp, so it always observes as zero.
    pub regs: Vec<u64>,
    /// The 32 floating-point registers as raw 64-bit bit patterns; a
    /// single-precision value lives NaN-boxed in the low word.
    pub fregs: Vec<u64>,
    /// The floating-point control/status word (rounding mode and flags).
    pub fcsr: u32,
    /// The control/status register bank, indexed by a 12-bit address.
    pub csrs: Vec<u64>,
    /// The program counter.
    pub pc: u64,
    /// The memory bus.
    pub bus: Bus,
    /// The privilege level.
    pub prv: privilege_level,
}

impl View for Cpu {
    type V = CpuState;

    open spec fn view(&self) -> CpuState {
        CpuState {
            regs: self.regs@,
            fregs: self.fregs@,
            fcsr: self.fcsr,
            csrs: self.csrs@,
            pc: self.pc,
            mem: self.bus.dram.dram@,
            prv: self.prv,
        }
    }
}

impl Cpu {
    /// The register files have their architectural sizes and memory its full
    /// extent.
    pub open spec fn wf(&self) -> bool {
        self@.wf()
    }

    /// Builds a processor over a fresh memory holding `code` at address 0:
    /// every register and control/status register starts at zero but the
    /// stack register (register 2), which starts at the top of memory; the
    /// program counter starts at zero and the privilege level at machine
    /// mode.
    pub fn new(code: Vec<u8>) -> (r: Cpu)
        requires
            code@.len() <= MEM_SIZE,
        ensures
            r.wf(),
            forall|i: int| 0 <= i < 32 && i != 2 ==> r@.regs[i] == 0,
            r@.regs[2] == MEM_SIZE,
            forall|i: int| 0 <= i < 32 ==> r@.fregs[i] == 0,
            r@.fcsr == 0,
            forall|i: int| 0 <= i < 4096 ==> r@.csrs[i] == 0,
            r@.pc == 0,
            r@.prv == privilege_level::M,
            forall|i: int| 0 <= i < code@.len() ==> r@.mem[i] == code@[i],
            forall|i: int| code@.len() <= i < MEM_SIZE ==> r@.mem[i] == 0,
    {
        let mut regs: Vec<u64> = zero_words(32);
        let fregs: Vec<u64> = zero_words(32);
        let csrs: Vec<u64> = zero_words(4096);
        // Register 2 is the stack register; the stack grows downwards from
        // the top of memory.
        regs.set(2, (1024 * 1024) as u64);
        Cpu {
            regs: regs,
            fregs: fregs,
            fcsr: 0,
            csrs: csrs,
            pc: 0,
            bus: Bus::New(code),
            prv: privilege_level::M,
        }
    }

    /// Reads the 32-bit instruction word at the program counter.
    pub fn fetch(&self) -> (r: u32)
        requires
            self.wf(),
            self.pc + 4 <= MEM_SIZE,
        ensures
            r == le_load(self@.mem, self.pc as int, 4) as u32,
    {
        self.bus.load(self.pc, 4) as u32
    }

    /// The low 32 bits of a floating-point register: where a boxed
    /// single-precision value lives.
    pub open spec fn spec_unbox_float(num: u64) -> u32 {
        (num & 0xffff_ffff) as u32
    }

    /// A 32-bit value boxed into a 64-bit register with the high word forced
    /// to all ones, the architecture's NaN box.
    pub open spec fn spec_box_float(num: u32) -> u64 {
        (num as u64) | 0xffff_ffff_0000_0000
    }

    /// Takes the 32-bit bit pattern out of a NaN-boxed register value.
    pub fn unbox_float(num: u64) -> (r: u32)
        ensures
            r == Self::spec_unbox_float(num),
    {
        (num & 0xffff_ffff) as u32
    }

    /// Boxes a 32-bit bit pattern into a 64-bit register value.
    pub fn box_float(num: u32) -> (r: u64)
        ensures
            r == Self::spec_box_float(num),
    {
        (num as u64) | 0xffff_ffff_0000_0000
    }

    /// Boxing a 32-bit pattern and unboxing it again gives the pattern back,
    /// bit for bit, whatever value it encodes.
    pub proof fn lemma_box_unbox(num: u32)
        ensures
            Self::spec_unbox_float(Self::spec_box_float(num)) == num,
    {
        assert((((num as u64) | 0xffff_ffff_0000_0000) & 0xffff_ffff) as u32 == num)
            by (bit_vector);
    }

    /// Reads one control/status register. Access is not gated on the
    /// privilege level: checking that a mode may touch a register is left to
    /// a surrounding privilege collaborator, which sees the level in `prv`.
    pub fn load_csr(&self, addr: usize) -> (r: u64)
        requires
            self.wf(),
            addr < 4096,
        ensures
            r == self@.csrs[addr as int],
    {
        self.csrs[addr]
    }

    /// Writes one control/status register; nothing else changes.
    pub fn store_csr(&mut self, addr: usize, val: u64)
        requires
            old(self).wf(),
            addr < 4096,
        ensures
            final(self).wf(),
            final(self)@ == (CpuState { csrs: old(self)@.csrs.update(addr as int, val), ..old(self)@ }),
    {
        self.csrs.set(addr, val);
    }

    /// What decoding one instruction word yields: the primary opcode selects
    /// the format family, whose own decoder resolves the exact instruction.
    pub open spec fn spec_decode(fetchVal: u32) -> Result<InstructionFormat, DecodeError> {
        let opcode = fetchVal & 0x7f;
        if opcode == 103 || opcode == 19 || opcode == 3 || opcode == 27 || opcode == 15
            || opcode == 115 {
            match RegImmInst::spec_new(fetchVal) {
                Ok(i) => Ok(InstructionFormat::I(i)),
                Err(e) => Err(e),
            }
        } else if opcode == 51 || opcode == 59 || opcode == 47 {
            match RegRegInst::spec_new(fetchVal) {
                Ok(i) => Ok(InstructionFormat::R(i)),
                Err(e) => Err(e),
            }
        } else if opcode == 35 {
            match StoreInst::spec_new(fetchVal) {
                Ok(i) => Ok(InstructionFormat::S(i)),
                Err(e) => Err(e),
            }
        } else if opcode == 99 {
            match BranchInst::spec_new(fetchVal) {
                Ok(i) => Ok(InstructionFormat::B(i)),
                Err(e) => Err(e),
            }
        } else if opcode == 55 || opcode == 23 {
            match UpperImmInst::spec_new(fetchVal) {
                Ok(i) => Ok(InstructionFormat::U(i)),
                Err(e) => Err(e),
            }
        } else if opcode == 67 || opcode == 71 || opcode == 75 || opcode == 79 {
            match R3Inst::spec_new(fetchVal) {
                Ok(i) => Ok(InstructionFormat::R4(i)),
                Err(e) => Err(e),
            }
        } else if opcode == 111 {
            Ok(InstructionFormat::J(JumpInst::spec_new(fetchVal)))
        } else {
            Err(DecodeError { word: fetchVal })
        }
    }

    /// Decodes one instruction word into its typed form, or reports the word
    /// and its opcode as undecodable.
    pub fn decode(fetchVal: u32) -> (r: Result<InstructionFormat, DecodeError>)
        ensures
            r == Self::spec_decode(fetchVal),
            r matches Ok(i) ==> i.wf(),
    {
        let opcode = fetchVal & 0x7f;
        if opcode == 103 || opcode == 19 || opcode == 3 || opcode == 27 || opcode == 15
            || opcode == 115 {
            match RegImmInst::New(fetchVal) {
                Ok(i) => Ok(InstructionFormat::I(i)),
                Err(e) => Err(e),
            }
        } else if opcode == 51 || opcode == 59 || opcode == 47 {
            match RegRegInst::New(fetchVal) {
                Ok(i) => Ok(InstructionFormat::R(i)),
                Err(e) => Err(e),
            }
        } else if opcode == 35 {
            match StoreInst::New(fetchVal) {
                Ok(i) => Ok(InstructionFormat::S(i)),
                Err(e) => Err(e),
            }
        } else if opcode == 99 {
            match BranchInst::New(fetchVal) {
                Ok(i) => Ok(InstructionFormat::B(i)),
                Err(e) => Err(e),
            }
        } else if opcode == 55 || opcode == 23 {
            match UpperImmInst::New(fetchVal) {
                Ok(i) => Ok(InstructionFormat::U(i)),
                Err(e) => Err(e),
            }
        } else if opcode == 67 || opcode == 71 || opcode == 75 || opcode == 79 {
            match R3Inst::New(fetchVal) {
                Ok(i) => Ok(InstructionFormat::R4(i)),
                Err(e) => Err(e),
            }
        } else if opcode == 111 {
            Ok(InstructionFormat::J(JumpInst::New(fetchVal)))
        } else {
            Err(DecodeError { word: fetchVal })
        }
    }
}

/// Builds a vector of `n` zeroed 64-bit words.
fn zero_words(n: usize) -> (r: Vec<u64>)
    ensures
        r@.len() == n,
        forall|i: int| 0 <= i < n ==> r@[i] == 0,
{
    let mut buf: Vec<u64> = Vec::new();
    let mut i: usize = 0;
    while i < n
        invariant
            i <= n,
            buf@.len() == i,
            forall|j: int| 0 <= j < i ==> buf@[j] == 0,
        decreases n - i,
    {
        buf.push(0);
        i = i + 1;
    }
    buf
}

} // verus!
