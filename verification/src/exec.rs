//! The execution engine: what each decoded instruction does to the
//! processor state.
//!
//! `spec_execute` is the mathematical semantics: a function from a processor
//! state and a decoded instruction to the next state, or to the error that
//! stops the run. `Cpu::execute` is proved to implement it exactly, and to
//! leave the state untouched whenever it reports an error.
//!
//! Numeric conventions, chosen where the architecture leaves the host a
//! choice and documented here once:
//! - Integer arithmetic wraps modulo 2^64 (2^32 for word variants); there is
//!   no overflow trap.
//! - Division by zero yields an all-ones quotient and returns the dividend as
//!   remainder; dividing the most negative value by minus one yields the
//!   dividend as quotient and zero as remainder. This is the architectural
//!   convention for the divide instructions, which never trap.
//! - Instructions whose result needs IEEE-754 arithmetic (float add family,
//!   square root, the conversions, the fused operations) are not computed
//!   here: `execute` reports `ExecError::FloatUnit` and changes nothing, and
//!   the caller owns the float unit. All bit-level floating-point work
//!   (NaN boxing, comparisons, min/max selection, sign injection, moves,
//!   loads and stores) is executed and verified here.
//! - The engine runs one hart: an atomic operation is a plain sequential
//!   read-modify-write at its width, and load-reserved and store-conditional
//!   are a plain load and a plain store, with no reservation tracked.
//! - Register 0 is hardwired to zero: a write whose destination is
//!   register 0 is discarded at the point of write (`with_reg`), never
//!   performed and reset afterwards, so the zero register holds within an
//!   instruction as well as between instructions (`lemma_x0_never_written`).

use vstd::prelude::*;

use crate::cpu::Cpu;
use crate::cpu::CpuState;
use crate::dram::le_load;
use crate::dram::le_store;
use crate::dram::MEM_SIZE;
use crate::regs::BranchInst;
use crate::regs::Instruction;
use crate::regs::InstructionFormat;
use crate::regs::JumpInst;
use crate::regs::R3Inst;
use crate::regs::RegImmInst;
use crate::regs::RegRegInst;
use crate::regs::StoreInst;
use crate::regs::UpperImmInst;

verus! {

/// Why the engine refused to execute an instruction. The state is unchanged
/// whenever one of these is reported.
#[derive(Debug, Copy, Clone, PartialEq, Eq, Structural)]
pub enum ExecError {
    /// The format matched but the engine has no execution rule for this
    /// mnemonic.
    NotImplemented,
    /// The instruction's result needs IEEE-754 arithmetic; the caller's
    /// float unit must perform it.
    FloatUnit,
    /// A memory access reached beyond the end of the backing store.
    MemoryFault,
}

/// The canonical quiet NaN bit pattern of a single-precision value: the
/// result of min/max when both operands are NaN.
pub const F32_QNAN: u32 = 0x7fc0_0000;

// State builders: each returns the given state with one component replaced.

/// `s` with general register `rd` holding `v`. Register 0 is the hardwired
/// zero register: a write aimed at it is discarded here, at the point of
/// write, so no instruction can make it observe as nonzero — not even within
/// its own cycle.
pub open spec fn with_reg(s: CpuState, rd: u8, v: u64) -> CpuState {
    if rd == 0 {
        s
    } else {
        CpuState { regs: s.regs.update(rd as int, v), ..s }
    }
}

/// `s` with floating-point register `rd` holding `v`.
pub open spec fn with_freg(s: CpuState, rd: u8, v: u64) -> CpuState {
    CpuState { fregs: s.fregs.update(rd as int, v), ..s }
}

/// `s` with the program counter at `pc`.
pub open spec fn with_pc(s: CpuState, pc: u64) -> CpuState {
    CpuState { pc: pc, ..s }
}

/// `s` with control/status register `idx` holding `v`.
pub open spec fn with_csr(s: CpuState, idx: int, v: u64) -> CpuState {
    CpuState { csrs: s.csrs.update(idx, v), ..s }
}

/// `s` with memory contents `mem`.
pub open spec fn with_mem(s: CpuState, mem: Seq<u8>) -> CpuState {
    CpuState { mem: mem, ..s }
}

/// The value of general register `r`.
pub open spec fn rval(s: CpuState, r: u8) -> u64 {
    s.regs[r as int]
}

/// The raw value of floating-point register `r`.
pub open spec fn fval(s: CpuState, r: u8) -> u64 {
    s.fregs[r as int]
}

/// Whether an access of `size` bytes at `addr` stays inside memory.
pub open spec fn mem_ok(s: CpuState, addr: u64, size: u8) -> bool {
    addr + size <= s.mem.len()
}

/// The control/status register index named by a 12-bit immediate: the index
/// space is exactly twelve bits, so the immediate is masked down to them.
pub open spec fn csr_index(imm: i16) -> int {
    ((imm as u16) & 0xfff) as int
}

// Relations between the bit patterns of signed and unsigned views of one
// register, stated once and proved by the bit-vector solver.

/// The signed reading of a 64-bit register value.
proof fn lemma_cast_u64_i64(x: u64)
    ensures
        x < 0x8000_0000_0000_0000 ==> x as i64 == x as int,
        x >= 0x8000_0000_0000_0000 ==> x as i64 == x - 0x1_0000_0000_0000_0000,
{
    assert(x < 0x8000_0000_0000_0000 ==> x as i64 == x as int) by (bit_vector);
    assert(x >= 0x8000_0000_0000_0000 ==> x as i64 == x - 0x1_0000_0000_0000_0000)
        by (bit_vector);
}

/// The unsigned reading of a signed 64-bit value.
proof fn lemma_cast_i64_u64(x: i64)
    ensures
        x >= 0 ==> x as u64 == x as int,
        x < 0 ==> x as u64 == x + 0x1_0000_0000_0000_0000,
{
    assert(x >= 0 ==> x as u64 == x as int) by (bit_vector);
    assert(x < 0 ==> x as u64 == x + 0x1_0000_0000_0000_0000) by (bit_vector);
}

/// The signed reading of a 32-bit value.
proof fn lemma_cast_u32_i32(x: u32)
    ensures
        x < 0x8000_0000 ==> x as i32 == x as int,
        x >= 0x8000_0000 ==> x as i32 == x - 0x1_0000_0000,
{
    assert(x < 0x8000_0000 ==> x as i32 == x as int) by (bit_vector);
    assert(x >= 0x8000_0000 ==> x as i32 == x - 0x1_0000_0000) by (bit_vector);
}

/// The unsigned reading of a signed 32-bit value.
proof fn lemma_cast_i32_u32(x: i32)
    ensures
        x >= 0 ==> x as u32 == x as int,
        x < 0 ==> x as u32 == x + 0x1_0000_0000,
{
    assert(x >= 0 ==> x as u32 == x as int) by (bit_vector);
    assert(x < 0 ==> x as u32 == x + 0x1_0000_0000) by (bit_vector);
}

/// Truncating a 64-bit register to 32 bits and reading the result signed is
/// the same as reading the register signed at 32 bits directly.
proof fn lemma_trunc_u64_i32(x: u64)
    ensures
        x as i32 == (x as u32) as i32,
{
    assert(x as i32 == (x as u32) as i32) by (bit_vector);
}

/// A six-bit mask keeps a value below 64: a legal 64-bit shift amount.
proof fn lemma_mask6(x: u64)
    ensures
        x & 0x3f < 64,
{
    assert(x & 0x3f < 64) by (bit_vector);
}

/// A five-bit mask keeps a value below 32: a legal 32-bit shift amount.
proof fn lemma_mask5_u64(x: u64)
    ensures
        x & 0x1f < 32,
{
    assert(x & 0x1f < 32) by (bit_vector);
}

/// A twelve-bit mask keeps a value below 4096: a legal control/status
/// register index.
proof fn lemma_mask12(x: u16)
    ensures
        x & 0xfff < 4096,
{
    assert(x & 0xfff < 4096) by (bit_vector);
}

// Truncating signed division and remainder, the convention the divide
// instructions use: the quotient is rounded toward zero and the remainder
// takes the dividend's sign.

/// The magnitude of an integer.
pub open spec fn mag(x: int) -> int {
    if x < 0 {
        -x
    } else {
        x
    }
}

/// The quotient of truncating division: the magnitude quotient, negated when
/// the operands' signs differ.
pub open spec fn tdiv(x: int, y: int) -> int {
    if (x < 0) == (y < 0) {
        mag(x) / mag(y)
    } else {
        -(mag(x) / mag(y))
    }
}

/// The remainder of truncating division: the magnitude remainder carrying
/// the dividend's sign.
pub open spec fn tmod(x: int, y: int) -> int {
    if x < 0 {
        -(mag(x) % mag(y))
    } else {
        mag(x) % mag(y)
    }
}

/// The 64-bit signed quotient of two register values: all ones on division
/// by zero, the dividend on the one overflowing pair, the truncating
/// quotient otherwise.
pub open spec fn spec_div_signed(a: u64, b: u64) -> u64 {
    let x = a as i64;
    let y = b as i64;
    if y == 0 {
        u64::MAX
    } else if x == i64::MIN && y == -1 {
        a
    } else {
        (tdiv(x as int, y as int) as i64) as u64
    }
}

/// The 64-bit signed remainder: the dividend on division by zero, zero on
/// the overflowing pair, the truncating remainder otherwise.
pub open spec fn spec_rem_signed(a: u64, b: u64) -> u64 {
    let x = a as i64;
    let y = b as i64;
    if y == 0 {
        a
    } else if x == i64::MIN && y == -1 {
        0
    } else {
        (tmod(x as int, y as int) as i64) as u64
    }
}

/// The 32-bit signed quotient of the low words, sign-extended to 64 bits.
pub open spec fn spec_div_w(a: u64, b: u64) -> u64 {
    let x = a as i32;
    let y = b as i32;
    if y == 0 {
        u64::MAX
    } else if x == i32::MIN && y == -1 {
        (x as i64) as u64
    } else {
        ((tdiv(x as int, y as int) as i32) as i64) as u64
    }
}

/// The 32-bit signed remainder of the low words, sign-extended to 64 bits.
pub open spec fn spec_rem_w(a: u64, b: u64) -> u64 {
    let x = a as i32;
    let y = b as i32;
    if y == 0 {
        (x as i64) as u64
    } else if x == i32::MIN && y == -1 {
        0
    } else {
        ((tmod(x as int, y as int) as i32) as i64) as u64
    }
}

/// The 32-bit unsigned quotient of the low words, sign-extended (as a 32-bit
/// result) to 64 bits; all ones on division by zero.
pub open spec fn spec_divu_w(a: u64, b: u64) -> u64 {
    let x = a as u32;
    let y = b as u32;
    if y == 0 {
        u64::MAX
    } else {
        (((x as int / y as int) as u32 as i32) as i64) as u64
    }
}

/// The 32-bit unsigned remainder of the low words, sign-extended (as a
/// 32-bit result) to 64 bits; the dividend on division by zero.
pub open spec fn spec_remu_w(a: u64, b: u64) -> u64 {
    let x = a as u32;
    let y = b as u32;
    if y == 0 {
        ((x as i32) as i64) as u64
    } else {
        (((x as int % y as int) as u32 as i32) as i64) as u64
    }
}

/// Computes the 64-bit signed quotient without host signed division: the
/// magnitudes divide as unsigned values and the sign is fixed up afterwards.
fn div_signed(a: u64, b: u64) -> (r: u64)
    ensures
        r == spec_div_signed(a, b),
{
    proof {
        lemma_cast_u64_i64(a);
        lemma_cast_u64_i64(b);
    }
    let x = a as i64;
    let y = b as i64;
    if y == 0 {
        u64::MAX
    } else if x == i64::MIN && y == -1 {
        a
    } else {
        let neg = (x < 0) != (y < 0);
        let ma: u64 = if x < 0 {
            0u64.wrapping_sub(a)
        } else {
            a
        };
        let mb: u64 = if y < 0 {
            0u64.wrapping_sub(b)
        } else {
            b
        };
        let q = ma / mb;
        proof {
            assert(mb == mag(y as int));
            assert(ma == mag(x as int));
            assert(q == mag(x as int) / mag(y as int));
            lemma_cast_i64_u64((tdiv(x as int, y as int) as i64));
        }
        if neg {
            0u64.wrapping_sub(q)
        } else {
            q
        }
    }
}

/// Computes the 64-bit signed remainder the same way; the remainder carries
/// the dividend's sign.
fn rem_signed(a: u64, b: u64) -> (r: u64)
    ensures
        r == spec_rem_signed(a, b),
{
    proof {
        lemma_cast_u64_i64(a);
        lemma_cast_u64_i64(b);
    }
    let x = a as i64;
    let y = b as i64;
    if y == 0 {
        a
    } else if x == i64::MIN && y == -1 {
        0
    } else {
        let ma: u64 = if x < 0 {
            0u64.wrapping_sub(a)
        } else {
            a
        };
        let mb: u64 = if y < 0 {
            0u64.wrapping_sub(b)
        } else {
            b
        };
        let m = ma % mb;
        proof {
            assert(mb == mag(y as int));
            assert(ma == mag(x as int));
            assert(m == mag(x as int) % mag(y as int));
            lemma_cast_i64_u64((tmod(x as int, y as int) as i64));
        }
        if x < 0 {
            0u64.wrapping_sub(m)
        } else {
            m
        }
    }
}

/// Computes the sign-extended 32-bit signed quotient of the low words.
fn div_w(a: u64, b: u64) -> (r: u64)
    ensures
        r == spec_div_w(a, b),
{
    let aw = a as u32;
    let bw = b as u32;
    proof {
        lemma_trunc_u64_i32(a);
        lemma_trunc_u64_i32(b);
        lemma_cast_u32_i32(aw);
        lemma_cast_u32_i32(bw);
    }
    let x = a as i32;
    let y = b as i32;
    if y == 0 {
        u64::MAX
    } else if x == i32::MIN && y == -1 {
        (x as i64) as u64
    } else {
        let neg = (x < 0) != (y < 0);
        let ma: u32 = if x < 0 {
            0u32.wrapping_sub(aw)
        } else {
            aw
        };
        let mb: u32 = if y < 0 {
            0u32.wrapping_sub(bw)
        } else {
            bw
        };
        let q = ma / mb;
        proof {
            assert(mb == mag(y as int));
            assert(ma == mag(x as int));
            assert(q == mag(x as int) / mag(y as int));
            lemma_cast_i32_u32((tdiv(x as int, y as int) as i32));
        }
        let qs: i32 = if neg {
            0u32.wrapping_sub(q) as i32
        } else {
            q as i32
        };
        proof {
            lemma_cast_u32_i32(0u32.wrapping_sub(q));
        }
        (qs as i64) as u64
    }
}

/// Computes the sign-extended 32-bit signed remainder of the low words.
fn rem_w(a: u64, b: u64) -> (r: u64)
    ensures
        r == spec_rem_w(a, b),
{
    let aw = a as u32;
    let bw = b as u32;
    proof {
        lemma_trunc_u64_i32(a);
        lemma_trunc_u64_i32(b);
        lemma_cast_u32_i32(aw);
        lemma_cast_u32_i32(bw);
    }
    let x = a as i32;
    let y = b as i32;
    if y == 0 {
        (x as i64) as u64
    } else if x == i32::MIN && y == -1 {
        0
    } else {
        let ma: u32 = if x < 0 {
            0u32.wrapping_sub(aw)
        } else {
            aw
        };
        let mb: u32 = if y < 0 {
            0u32.wrapping_sub(bw)
        } else {
            bw
        };
        let m = ma % mb;
        proof {
            assert(mb == mag(y as int));
            assert(ma == mag(x as int));
            assert(m == mag(x as int) % mag(y as int));
            lemma_cast_i32_u32((tmod(x as int, y as int) as i32));
        }
        let ms: i32 = if x < 0 {
            0u32.wrapping_sub(m) as i32
        } else {
            m as i32
        };
        proof {
            lemma_cast_u32_i32(0u32.wrapping_sub(m));
        }
        (ms as i64) as u64
    }
}

/// Computes the sign-extended 32-bit unsigned quotient of the low words.
fn divu_w(a: u64, b: u64) -> (r: u64)
    ensures
        r == spec_divu_w(a, b),
{
    let x = a as u32;
    let y = b as u32;
    if y == 0 {
        u64::MAX
    } else {
        (((x / y) as i32) as i64) as u64
    }
}

/// Computes the sign-extended 32-bit unsigned remainder of the low words.
fn remu_w(a: u64, b: u64) -> (r: u64)
    ensures
        r == spec_remu_w(a, b),
{
    let x = a as u32;
    let y = b as u32;
    if y == 0 {
        ((x as i32) as i64) as u64
    } else {
        (((x % y) as i32) as i64) as u64
    }
}

// Bit-level single-precision comparison: IEEE-754 compares are computed on
// the bit patterns directly, so no host floating point is involved.

/// Whether a 32-bit pattern encodes a NaN: exponent all ones with a nonzero
/// mantissa.
pub open spec fn f32_is_nan(x: u32) -> bool {
    x & 0x7f80_0000 == 0x7f80_0000 && x & 0x007f_ffff != 0
}

/// A total order key for non-NaN patterns: the magnitude bits, negated for
/// negative values, so that both zeroes share the key zero and the numeric
/// order of the encoded values is the order of the keys.
pub open spec fn f32_key(x: u32) -> int {
    if x >= 0x8000_0000 {
        -((x & 0x7fff_ffff) as int)
    } else {
        (x & 0x7fff_ffff) as int
    }
}

/// IEEE equality on single-precision bit patterns: false when either side is
/// NaN, and both zeroes are equal.
pub open spec fn f32_eq(x: u32, y: u32) -> bool {
    !f32_is_nan(x) && !f32_is_nan(y) && f32_key(x) == f32_key(y)
}

/// IEEE less-than on single-precision bit patterns: false when either side
/// is NaN.
pub open spec fn f32_lt(x: u32, y: u32) -> bool {
    !f32_is_nan(x) && !f32_is_nan(y) && f32_key(x) < f32_key(y)
}

/// IEEE less-or-equal on single-precision bit patterns: false when either
/// side is NaN.
pub open spec fn f32_le(x: u32, y: u32) -> bool {
    !f32_is_nan(x) && !f32_is_nan(y) && f32_key(x) <= f32_key(y)
}

/// Tests the NaN shape of a pattern.
fn f32_is_nan_exec(x: u32) -> (r: bool)
    ensures
        r == f32_is_nan(x),
{
    x & 0x7f80_0000 == 0x7f80_0000 && x & 0x007f_ffff != 0
}

/// Compares two non-NaN patterns for IEEE equality.
fn f32_eq_exec(x: u32, y: u32) -> (r: bool)
    ensures
        r == f32_eq(x, y),
{
    if f32_is_nan_exec(x) || f32_is_nan_exec(y) {
        false
    } else {
        let mx = x & 0x7fff_ffff;
        let my = y & 0x7fff_ffff;
        mx == my && (mx == 0 || (x >= 0x8000_0000) == (y >= 0x8000_0000))
    }
}

/// Compares two non-NaN patterns for IEEE less-than.
fn f32_lt_exec(x: u32, y: u32) -> (r: bool)
    ensures
        r == f32_lt(x, y),
{
    if f32_is_nan_exec(x) || f32_is_nan_exec(y) {
        false
    } else {
        let mx = x & 0x7fff_ffff;
        let my = y & 0x7fff_ffff;
        let sx = x >= 0x8000_0000;
        let sy = y >= 0x8000_0000;
        if sx && sy {
            my < mx
        } else if sx {
            mx != 0 || my != 0
        } else if sy {
            false
        } else {
            mx < my
        }
    }
}

/// Compares two non-NaN patterns for IEEE less-or-equal.
fn f32_le_exec(x: u32, y: u32) -> (r: bool)
    ensures
        r == f32_le(x, y),
{
    if f32_is_nan_exec(x) || f32_is_nan_exec(y) {
        false
    } else {
        !f32_lt_exec(y, x)
    }
}

// The multiply-high family: the upper 64 bits of the 128-bit product.

/// The high 64 bits of the unsigned 128-bit product.
pub open spec fn spec_mulhu(a: u64, b: u64) -> u64 {
    (((a as int * b as int) as u128) >> 64) as u64
}

/// The high 64 bits of the signed 128-bit product.
pub open spec fn spec_mulh(a: u64, b: u64) -> u64 {
    ((((a as i64) as int * (b as i64) as int) as i128) >> 64) as u64
}

/// The high 64 bits of the signed-times-unsigned 128-bit product.
pub open spec fn spec_mulhsu(a: u64, b: u64) -> u64 {
    ((((a as i64) as int * b as int) as i128) >> 64) as u64
}

/// Computes the high half of the unsigned product in 128-bit arithmetic.
fn mulhu(a: u64, b: u64) -> (r: u64)
    ensures
        r == spec_mulhu(a, b),
{
    proof {
        assert(a as int * b as int <= u128::MAX) by (nonlinear_arith)
            requires
                a <= u64::MAX,
                b <= u64::MAX,
        ;
    }
    let p: u128 = (a as u128) * (b as u128);
    (p >> 64) as u64
}

/// Computes the high half of the signed product in 128-bit arithmetic.
fn mulh(a: u64, b: u64) -> (r: u64)
    ensures
        r == spec_mulh(a, b),
{
    let x = a as i64;
    let y = b as i64;
    proof {
        assert(i128::MIN <= x as int * y as int <= i128::MAX) by (nonlinear_arith)
            requires
                i64::MIN <= x <= i64::MAX,
                i64::MIN <= y <= i64::MAX,
        ;
    }
    let p: i128 = (x as i128) * (y as i128);
    (p >> 64) as u64
}

/// Computes the high half of the signed-times-unsigned product in 128-bit
/// arithmetic.
fn mulhsu(a: u64, b: u64) -> (r: u64)
    ensures
        r == spec_mulhsu(a, b),
{
    let x = a as i64;
    proof {
        assert(i128::MIN <= x as int * b as int <= i128::MAX) by (nonlinear_arith)
            requires
                i64::MIN <= x <= i64::MAX,
                b <= u64::MAX,
        ;
    }
    let p: i128 = (x as i128) * (b as i128);
    (p >> 64) as u64
}

// The semantics of each format, one spec function per format.

/// What a register-register instruction does to the state: the arithmetic
/// and logic of the base set, the multiply/divide extension, the bit-level
/// single-precision operations, and the atomic read-modify-write operations.
pub open spec fn spec_exec_r(s: CpuState, inst: RegRegInst) -> Result<CpuState, ExecError> {
    let a = rval(s, inst.rs1);
    let b = rval(s, inst.rs2);
    let fa = Cpu::spec_unbox_float(fval(s, inst.rs1));
    let fb = Cpu::spec_unbox_float(fval(s, inst.rs2));
    match inst.instName {
        Instruction::ADD => Ok(with_reg(s, inst.rd, a.wrapping_add(b))),
        Instruction::ADDW => Ok(
            with_reg(s, inst.rd, ((a.wrapping_add(b) as i32) as i64) as u64),
        ),
        Instruction::SUB => Ok(with_reg(s, inst.rd, a.wrapping_sub(b))),
        Instruction::SUBW => Ok(
            with_reg(s, inst.rd, ((a.wrapping_sub(b) as i32) as i64) as u64),
        ),
        Instruction::SLL => Ok(with_reg(s, inst.rd, a << (b & 0x3f))),
        Instruction::SLLW => Ok(
            with_reg(s, inst.rd, ((((a as u32) << ((b & 0x1f) as u32)) as i32) as i64) as u64),
        ),
        Instruction::SLT => Ok(
            with_reg(
                s,
                inst.rd,
                if (a as i64) < (b as i64) {
                    1
                } else {
                    0
                },
            ),
        ),
        Instruction::SLTU => Ok(
            with_reg(
                s,
                inst.rd,
                if a < b {
                    1
                } else {
                    0
                },
            ),
        ),
        Instruction::XOR => Ok(with_reg(s, inst.rd, a ^ b)),
        Instruction::OR => Ok(with_reg(s, inst.rd, a | b)),
        Instruction::AND => Ok(with_reg(s, inst.rd, a & b)),
        Instruction::SRL => Ok(with_reg(s, inst.rd, a >> (b & 0x3f))),
        Instruction::SRLW => Ok(
            with_reg(s, inst.rd, ((((a as u32) >> ((b & 0x1f) as u32)) as i32) as i64) as u64),
        ),
        Instruction::SRA => Ok(with_reg(s, inst.rd, ((a as i64) >> (b & 0x3f)) as u64)),
        Instruction::SRAW => Ok(
            with_reg(s, inst.rd, (((a as i32) >> ((b & 0x1f) as u32)) as i64) as u64),
        ),
        Instruction::MUL => Ok(with_reg(s, inst.rd, a.wrapping_mul(b))),
        Instruction::MULH => Ok(with_reg(s, inst.rd, spec_mulh(a, b))),
        Instruction::MULHSU => Ok(with_reg(s, inst.rd, spec_mulhsu(a, b))),
        Instruction::MULHU => Ok(with_reg(s, inst.rd, spec_mulhu(a, b))),
        Instruction::DIV => Ok(with_reg(s, inst.rd, spec_div_signed(a, b))),
        Instruction::DIVU => Ok(
            with_reg(
                s,
                inst.rd,
                if b == 0 {
                    u64::MAX
                } else {
                    (a as int / b as int) as u64
                },
            ),
        ),
        Instruction::REM => Ok(with_reg(s, inst.rd, spec_rem_signed(a, b))),
        Instruction::REMU => Ok(
            with_reg(
                s,
                inst.rd,
                if b == 0 {
                    a
                } else {
                    (a as int % b as int) as u64
                },
            ),
        ),
        Instruction::MULW => Ok(
            with_reg(s, inst.rd, ((((a as u32).wrapping_mul(b as u32)) as i32) as i64) as u64),
        ),
        Instruction::DIVW => Ok(with_reg(s, inst.rd, spec_div_w(a, b))),
        Instruction::DIVUW => Ok(with_reg(s, inst.rd, spec_divu_w(a, b))),
        Instruction::REMW => Ok(with_reg(s, inst.rd, spec_rem_w(a, b))),
        Instruction::REMUW => Ok(with_reg(s, inst.rd, spec_remu_w(a, b))),
        Instruction::FMINS => {
            let rbits = if f32_is_nan(fa) && f32_is_nan(fb) {
                F32_QNAN
            } else if f32_is_nan(fa) {
                fb
            } else if f32_is_nan(fb) {
                fa
            } else if f32_lt(fa, fb) {
                fa
            } else {
                fb
            };
            Ok(with_freg(s, inst.rd, Cpu::spec_box_float(rbits)))
        },
        Instruction::FMAXS => {
            let rbits = if f32_is_nan(fa) && f32_is_nan(fb) {
                F32_QNAN
            } else if f32_is_nan(fa) {
                fb
            } else if f32_is_nan(fb) {
                fa
            } else if f32_lt(fb, fa) {
                fa
            } else {
                fb
            };
            Ok(with_freg(s, inst.rd, Cpu::spec_box_float(rbits)))
        },
        Instruction::FEQS => Ok(
            with_reg(
                s,
                inst.rd,
                if f32_eq(fa, fb) {
                    1
                } else {
                    0
                },
            ),
        ),
        Instruction::FLTS => Ok(
            with_reg(
                s,
                inst.rd,
                if f32_lt(fa, fb) {
                    1
                } else {
                    0
                },
            ),
        ),
        Instruction::FLES => Ok(
            with_reg(
                s,
                inst.rd,
                if f32_le(fa, fb) {
                    1
                } else {
                    0
                },
            ),
        ),
        Instruction::FSGNJS => Ok(
            with_freg(
                s,
                inst.rd,
                Cpu::spec_box_float((fa & 0x7fff_ffff) | (fb & 0x8000_0000)),
            ),
        ),
        Instruction::FSGNJNS => Ok(
            with_freg(
                s,
                inst.rd,
                Cpu::spec_box_float((fa & 0x7fff_ffff) | (!fb & 0x8000_0000)),
            ),
        ),
        Instruction::FSGNJXS => Ok(
            with_freg(
                s,
                inst.rd,
                Cpu::spec_box_float((fa & 0x7fff_ffff) | ((fb ^ fa) & 0x8000_0000)),
            ),
        ),
        Instruction::FMVXW => Ok(with_reg(s, inst.rd, ((fa as i32) as i64) as u64)),
        Instruction::FMVWX => Ok(with_freg(s, inst.rd, Cpu::spec_box_float(a as u32))),
        Instruction::FADDS => Err(ExecError::FloatUnit),
        Instruction::FSUBS => Err(ExecError::FloatUnit),
        Instruction::FMULS => Err(ExecError::FloatUnit),
        Instruction::FDIVS => Err(ExecError::FloatUnit),
        Instruction::FSQRTS => Err(ExecError::FloatUnit),
        Instruction::FCVTWS => Err(ExecError::FloatUnit),
        Instruction::FCVTWUS => Err(ExecError::FloatUnit),
        Instruction::FCVTSW => Err(ExecError::FloatUnit),
        Instruction::FCVTSWU => Err(ExecError::FloatUnit),
        Instruction::FCVTLS => Err(ExecError::FloatUnit),
        Instruction::FCVTLUS => Err(ExecError::FloatUnit),
        Instruction::FCVTSL => Err(ExecError::FloatUnit),
        Instruction::FCVTSLU => Err(ExecError::FloatUnit),
        Instruction::AMOADDW => {
            if !mem_ok(s, a, 4) {
                Err(ExecError::MemoryFault)
            } else {
                let data = (le_load(s.mem, a as int, 4) as u32) as i32;
                let nv = data.wrapping_add(b as i32);
                Ok(
                    with_reg(
                        with_mem(s, le_store(s.mem, a as int, nv as u64, 4)),
                        inst.rd,
                        data as u64,
                    ),
                )
            }
        },
        Instruction::AMOADDD => {
            if !mem_ok(s, a, 8) {
                Err(ExecError::MemoryFault)
            } else {
                let data = le_load(s.mem, a as int, 8);
                let nv = data.wrapping_add(b);
                Ok(
                    with_reg(
                        with_mem(s, le_store(s.mem, a as int, nv, 8)),
                        inst.rd,
                        data,
                    ),
                )
            }
        },
        Instruction::AMOSWAPW => {
            if !mem_ok(s, a, 4) {
                Err(ExecError::MemoryFault)
            } else {
                let data = (le_load(s.mem, a as int, 4) as u32) as i32;
                Ok(
                    with_reg(
                        with_mem(s, le_store(s.mem, a as int, b, 4)),
                        inst.rd,
                        data as u64,
                    ),
                )
            }
        },
        Instruction::AMOSWAPD => {
            if !mem_ok(s, a, 8) {
                Err(ExecError::MemoryFault)
            } else {
                let data = le_load(s.mem, a as int, 8);
                Ok(
                    with_reg(
                        with_mem(s, le_store(s.mem, a as int, b, 8)),
                        inst.rd,
                        data,
                    ),
                )
            }
        },
        Instruction::AMOORW => {
            if !mem_ok(s, a, 4) {
                Err(ExecError::MemoryFault)
            } else {
                let data = (le_load(s.mem, a as int, 4) as u32) as i32;
                let nv = data | (b as i32);
                Ok(
                    with_reg(
                        with_mem(s, le_store(s.mem, a as int, nv as u64, 4)),
                        inst.rd,
                        data as u64,
                    ),
                )
            }
        },
        Instruction::AMOORD => {
            if !mem_ok(s, a, 8) {
                Err(ExecError::MemoryFault)
            } else {
                let data = le_load(s.mem, a as int, 8);
                Ok(
                    with_reg(
                        with_mem(s, le_store(s.mem, a as int, data | b, 8)),
                        inst.rd,
                        data,
                    ),
                )
            }
        },
        Instruction::AMOXORW => {
            if !mem_ok(s, a, 4) {
                Err(ExecError::MemoryFault)
            } else {
                let data = (le_load(s.mem, a as int, 4) as u32) as i32;
                let nv = data ^ (b as i32);
                Ok(
                    with_reg(
                        with_mem(s, le_store(s.mem, a as int, nv as u64, 4)),
                        inst.rd,
                        data as u64,
                    ),
                )
            }
        },
        Instruction::AMOXORD => {
            if !mem_ok(s, a, 8) {
                Err(ExecError::MemoryFault)
            } else {
                let data = le_load(s.mem, a as int, 8);
                Ok(
                    with_reg(
                        with_mem(s, le_store(s.mem, a as int, data ^ b, 8)),
                        inst.rd,
                        data,
                    ),
                )
            }
        },
        Instruction::AMOANDW => {
            if !mem_ok(s, a, 4) {
                Err(ExecError::MemoryFault)
            } else {
                let data = (le_load(s.mem, a as int, 4) as u32) as i32;
                let nv = data & (b as i32);
                Ok(
                    with_reg(
                        with_mem(s, le_store(s.mem, a as int, nv as u64, 4)),
                        inst.rd,
                        data as u64,
                    ),
                )
            }
        },
        Instruction::AMOANDD => {
            if !mem_ok(s, a, 8) {
                Err(ExecError::MemoryFault)
            } else {
                let data = le_load(s.mem, a as int, 8);
                Ok(
                    with_reg(
                        with_mem(s, le_store(s.mem, a as int, data & b, 8)),
                        inst.rd,
                        data,
                    ),
                )
            }
        },
        Instruction::AMOMAXW => {
            if !mem_ok(s, a, 4) {
                Err(ExecError::MemoryFault)
            } else {
                let data = (le_load(s.mem, a as int, 4) as u32) as i32;
                let bw = b as i32;
                let nv = if data < bw {
                    bw
                } else {
                    data
                };
                Ok(
                    with_reg(
                        with_mem(s, le_store(s.mem, a as int, nv as u64, 4)),
                        inst.rd,
                        data as u64,
                    ),
                )
            }
        },
        Instruction::AMOMAXD => {
            if !mem_ok(s, a, 8) {
                Err(ExecError::MemoryFault)
            } else {
                let data = le_load(s.mem, a as int, 8);
                let nv = if (data as i64) < (b as i64) {
                    b
                } else {
                    data
                };
                Ok(
                    with_reg(
                        with_mem(s, le_store(s.mem, a as int, nv, 8)),
                        inst.rd,
                        data,
                    ),
                )
            }
        },
        Instruction::AMOMAXUW => {
            if !mem_ok(s, a, 4) {
                Err(ExecError::MemoryFault)
            } else {
                let data = le_load(s.mem, a as int, 4) as u32;
                let bw = b as u32;
                let nv = if data < bw {
                    bw
                } else {
                    data
                };
                Ok(
                    with_reg(
                        with_mem(s, le_store(s.mem, a as int, nv as u64, 4)),
                        inst.rd,
                        data as u64,
                    ),
                )
            }
        },
        Instruction::AMOMAXUD => {
            if !mem_ok(s, a, 8) {
                Err(ExecError::MemoryFault)
            } else {
                let data = le_load(s.mem, a as int, 8);
                let nv = if data < b {
                    b
                } else {
                    data
                };
                Ok(
                    with_reg(
                        with_mem(s, le_store(s.mem, a as int, nv, 8)),
                        inst.rd,
                        data,
                    ),
                )
            }
        },
        Instruction::AMOMINW => {
            if !mem_ok(s, a, 4) {
                Err(ExecError::MemoryFault)
            } else {
                let data = (le_load(s.mem, a as int, 4) as u32) as i32;
                let bw = b as i32;
                let nv = if data < bw {
                    data
                } else {
                    bw
                };
                Ok(
                    with_reg(
                        with_mem(s, le_store(s.mem, a as int, nv as u64, 4)),
                        inst.rd,
                        data as u64,
                    ),
                )
            }
        },
        Instruction::AMOMIND => {
            if !mem_ok(s, a, 8) {
                Err(ExecError::MemoryFault)
            } else {
                let data = le_load(s.mem, a as int, 8);
                let nv = if (data as i64) < (b as i64) {
                    data
                } else {
                    b
                };
                Ok(
                    with_reg(
                        with_mem(s, le_store(s.mem, a as int, nv, 8)),
                        inst.rd,
                        data,
                    ),
                )
            }
        },
        Instruction::AMOMINUW => {
            if !mem_ok(s, a, 4) {
                Err(ExecError::MemoryFault)
            } else {
                let data = le_load(s.mem, a as int, 4) as u32;
                let bw = b as u32;
                let nv = if data < bw {
                    data
                } else {
                    bw
                };
                Ok(
                    with_reg(
                        with_mem(s, le_store(s.mem, a as int, nv as u64, 4)),
                        inst.rd,
                        data as u64,
                    ),
                )
            }
        },
        Instruction::AMOMINUD => {
            if !mem_ok(s, a, 8) {
                Err(ExecError::MemoryFault)
            } else {
                let data = le_load(s.mem, a as int, 8);
                let nv = if data < b {
                    data
                } else {
                    b
                };
                Ok(
                    with_reg(
                        with_mem(s, le_store(s.mem, a as int, nv, 8)),
                        inst.rd,
                        data,
                    ),
                )
            }
        },
        Instruction::LRW => {
            if !mem_ok(s, a, 4) {
                Err(ExecError::MemoryFault)
            } else {
                Ok(
                    with_reg(
                        s,
                        inst.rd,
                        (((le_load(s.mem, a as int, 4) as u32) as i32) as i64) as u64,
                    ),
                )
            }
        },
        Instruction::LRD => {
            if !mem_ok(s, a, 8) {
                Err(ExecError::MemoryFault)
            } else {
                Ok(with_reg(s, inst.rd, le_load(s.mem, a as int, 8)))
            }
        },
        Instruction::SCW => {
            if !mem_ok(s, a, 4) {
                Err(ExecError::MemoryFault)
            } else {
                Ok(with_mem(s, le_store(s.mem, a as int, b, 4)))
            }
        },
        Instruction::SCD => {
            if !mem_ok(s, a, 8) {
                Err(ExecError::MemoryFault)
            } else {
                Ok(with_mem(s, le_store(s.mem, a as int, b, 8)))
            }
        },
        _ => Err(ExecError::NotImplemented),
    }
}

/// What a fused multiply-add instruction does: every single-precision fused
/// operation needs IEEE-754 arithmetic, so all of them go to the caller's
/// float unit; the double-precision ones have no execution rule.
pub open spec fn spec_exec_r4(s: CpuState, inst: R3Inst) -> Result<CpuState, ExecError> {
    match inst.instName {
        Instruction::FMADDS => Err(ExecError::FloatUnit),
        Instruction::FMSUBS => Err(ExecError::FloatUnit),
        Instruction::FNMADDS => Err(ExecError::FloatUnit),
        Instruction::FNMSUBS => Err(ExecError::FloatUnit),
        _ => Err(ExecError::NotImplemented),
    }
}

/// What a register-immediate instruction does: immediate arithmetic and
/// shifts, the loads, `JALR`, the fence, and the control/status register
/// accesses. Control-transfer targets are set four bytes short, so that the
/// cycle's unconditional advance lands the counter on the architectural
/// target.
pub open spec fn spec_exec_i(s: CpuState, inst: RegImmInst) -> Result<CpuState, ExecError> {
    let a = rval(s, inst.rs1);
    let addr = a.wrapping_add(inst.imm as u64);
    match inst.instName {
        Instruction::ADDI => Ok(with_reg(s, inst.rd, a.wrapping_add(inst.imm as u64))),
        Instruction::ADDIW => Ok(
            with_reg(s, inst.rd, ((a.wrapping_add(inst.imm as u64) as i32) as i64) as u64),
        ),
        Instruction::SLTI => Ok(
            with_reg(
                s,
                inst.rd,
                if (a as i64) < (inst.imm as i64) {
                    1
                } else {
                    0
                },
            ),
        ),
        Instruction::SLTIU => Ok(
            with_reg(
                s,
                inst.rd,
                if a < (inst.imm as u64) {
                    1
                } else {
                    0
                },
            ),
        ),
        Instruction::XORI => Ok(with_reg(s, inst.rd, a ^ (inst.imm as u64))),
        Instruction::ORI => Ok(with_reg(s, inst.rd, a | (inst.imm as u64))),
        Instruction::ANDI => Ok(with_reg(s, inst.rd, a & (inst.imm as u64))),
        Instruction::SLLI => Ok(with_reg(s, inst.rd, a << ((inst.imm as u64) & 0x3f))),
        Instruction::SRLI => Ok(with_reg(s, inst.rd, a >> ((inst.imm as u64) & 0x3f))),
        Instruction::SRAI => Ok(
            with_reg(s, inst.rd, ((a as i64) >> ((inst.imm as u64) & 0x3f)) as u64),
        ),
        Instruction::SLLIW => Ok(
            with_reg(
                s,
                inst.rd,
                ((((a as u32) << (((inst.imm as u64) & 0x1f) as u32)) as i32) as i64) as u64,
            ),
        ),
        Instruction::SRLIW => Ok(
            with_reg(
                s,
                inst.rd,
                ((((a as u32) >> (((inst.imm as u64) & 0x1f) as u32)) as i32) as i64) as u64,
            ),
        ),
        Instruction::SRAIW => Ok(
            with_reg(
                s,
                inst.rd,
                (((a as i32) >> (((inst.imm as u64) & 0x1f) as u32)) as i64) as u64,
            ),
        ),
        Instruction::LB => {
            if !mem_ok(s, addr, 1) {
                Err(ExecError::MemoryFault)
            } else {
                Ok(
                    with_reg(
                        s,
                        inst.rd,
                        (((le_load(s.mem, addr as int, 1) as i8) as i64)) as u64,
                    ),
                )
            }
        },
        Instruction::LH => {
            if !mem_ok(s, addr, 2) {
                Err(ExecError::MemoryFault)
            } else {
                Ok(
                    with_reg(
                        s,
                        inst.rd,
                        (((le_load(s.mem, addr as int, 2) as i16) as i64)) as u64,
                    ),
                )
            }
        },
        Instruction::LW => {
            if !mem_ok(s, addr, 4) {
                Err(ExecError::MemoryFault)
            } else {
                Ok(
                    with_reg(
                        s,
                        inst.rd,
                        (((le_load(s.mem, addr as int, 4) as i32) as i64)) as u64,
                    ),
                )
            }
        },
        Instruction::LD => {
            if !mem_ok(s, addr, 8) {
                Err(ExecError::MemoryFault)
            } else {
                Ok(with_reg(s, inst.rd, le_load(s.mem, addr as int, 8)))
            }
        },
        Instruction::LBU => {
            if !mem_ok(s, addr, 1) {
                Err(ExecError::MemoryFault)
            } else {
                Ok(with_reg(s, inst.rd, le_load(s.mem, addr as int, 1)))
            }
        },
        Instruction::LHU => {
            if !mem_ok(s, addr, 2) {
                Err(ExecError::MemoryFault)
            } else {
                Ok(with_reg(s, inst.rd, le_load(s.mem, addr as int, 2)))
            }
        },
        Instruction::LWU => {
            if !mem_ok(s, addr, 4) {
                Err(ExecError::MemoryFault)
            } else {
                Ok(with_reg(s, inst.rd, le_load(s.mem, addr as int, 4)))
            }
        },
        Instruction::JALR => {
            // The return address is written first, so a jump through a
            // nonzero destination register targets the fresh link value; a
            // link aimed at the zero register is discarded, so register 0
            // still reads as zero when it is the jump base. The low bit of
            // the target is cleared; the compensating subtraction of four
            // keeps parity, so clearing it after subtracting is the same as
            // before.
            let s1 = with_reg(s, inst.rd, s.pc.wrapping_add(4));
            Ok(
                with_pc(
                    s1,
                    (rval(s1, inst.rs1).wrapping_add(inst.imm as u64).wrapping_sub(4))
                        & 0xffff_ffff_ffff_fffe,
                ),
            )
        },
        Instruction::FENCE => Ok(s),
        Instruction::FLW => {
            if !mem_ok(s, addr, 4) {
                Err(ExecError::MemoryFault)
            } else {
                Ok(
                    with_freg(
                        s,
                        inst.rd,
                        Cpu::spec_box_float(le_load(s.mem, addr as int, 4) as u32),
                    ),
                )
            }
        },
        Instruction::CSRRW => {
            let idx = csr_index(inst.imm);
            let t = s.csrs[idx];
            let s1 = if inst.rd != 0 {
                with_reg(s, inst.rd, t)
            } else {
                s
            };
            Ok(with_csr(s1, idx, rval(s1, inst.rs1)))
        },
        Instruction::CSRRS => {
            let idx = csr_index(inst.imm);
            let t = s.csrs[idx];
            let s1 = with_reg(s, inst.rd, t);
            if inst.rs1 != 0 {
                Ok(with_csr(s1, idx, t | rval(s1, inst.rs1)))
            } else {
                Ok(s1)
            }
        },
        Instruction::CSRRC => {
            let idx = csr_index(inst.imm);
            let t = s.csrs[idx];
            let s1 = with_reg(s, inst.rd, t);
            if inst.rs1 != 0 {
                Ok(with_csr(s1, idx, t & !rval(s1, inst.rs1)))
            } else {
                Ok(s1)
            }
        },
        Instruction::CSRRWI => {
            let idx = csr_index(inst.imm);
            let t = s.csrs[idx];
            let s1 = if inst.rd != 0 {
                with_reg(s, inst.rd, t)
            } else {
                s
            };
            Ok(with_csr(s1, idx, inst.rs1 as u64))
        },
        Instruction::CSRRSI => {
            let idx = csr_index(inst.imm);
            let t = s.csrs[idx];
            let s1 = with_reg(s, inst.rd, t);
            if inst.rs1 != 0 {
                Ok(with_csr(s1, idx, t | (inst.rs1 as u64)))
            } else {
                Ok(s1)
            }
        },
        Instruction::CSRRCI => {
            let idx = csr_index(inst.imm);
            let t = s.csrs[idx];
            let s1 = with_reg(s, inst.rd, t);
            if inst.rs1 != 0 {
                Ok(with_csr(s1, idx, t & !(inst.rs1 as u64)))
            } else {
                Ok(s1)
            }
        },
        _ => Err(ExecError::NotImplemented),
    }
}

/// What a branch instruction does: when the named comparison holds, the
/// counter moves by the doubled immediate less the four that the cycle's
/// unconditional advance adds back.
pub open spec fn spec_exec_b(s: CpuState, inst: BranchInst) -> Result<CpuState, ExecError> {
    let a = rval(s, inst.rs1);
    let b = rval(s, inst.rs2);
    let target = s.pc.wrapping_add((inst.imm << 1) as u64).wrapping_sub(4);
    match inst.instName {
        Instruction::BEQ => Ok(
            if a == b {
                with_pc(s, target)
            } else {
                s
            },
        ),
        Instruction::BNE => Ok(
            if a != b {
                with_pc(s, target)
            } else {
                s
            },
        ),
        Instruction::BLT => Ok(
            if (a as i64) < (b as i64) {
                with_pc(s, target)
            } else {
                s
            },
        ),
        Instruction::BGE => Ok(
            if (a as i64) >= (b as i64) {
                with_pc(s, target)
            } else {
                s
            },
        ),
        Instruction::BLTU => Ok(
            if a < b {
                with_pc(s, target)
            } else {
                s
            },
        ),
        Instruction::BGEU => Ok(
            if a >= b {
                with_pc(s, target)
            } else {
                s
            },
        ),
        _ => Err(ExecError::NotImplemented),
    }
}

/// Whether a mnemonic is one of the six conditional branches.
pub open spec fn is_branch(name: Instruction) -> bool {
    match name {
        Instruction::BEQ | Instruction::BNE | Instruction::BLT | Instruction::BGE
            | Instruction::BLTU | Instruction::BGEU => true,
        _ => false,
    }
}

/// Whether a branch instruction's comparison holds in state `s`.
pub open spec fn branch_taken(s: CpuState, inst: BranchInst) -> bool {
    let a = rval(s, inst.rs1);
    let b = rval(s, inst.rs2);
    match inst.instName {
        Instruction::BEQ => a == b,
        Instruction::BNE => a != b,
        Instruction::BLT => (a as i64) < (b as i64),
        Instruction::BGE => (a as i64) >= (b as i64),
        Instruction::BLTU => a < b,
        Instruction::BGEU => a >= b,
        _ => false,
    }
}

/// Branch offset law. Every branch executes without error, and once the
/// cycle's unconditional advance of four is added to the counter the branch
/// left behind, a taken branch with immediate `k` lands the counter exactly
/// `k << 1` bytes past where it started, and a branch not taken lands it
/// four bytes past, wrapping modulo 2^64.
pub proof fn lemma_branch_offset(s: CpuState, inst: BranchInst)
    requires
        is_branch(inst.instName),
    ensures
        spec_exec_b(s, inst) is Ok,
        ({
            let post = spec_exec_b(s, inst).unwrap();
            &&& (branch_taken(s, inst) ==> post.pc.wrapping_add(4) == s.pc.wrapping_add(
                (inst.imm << 1) as u64,
            ))
            &&& (!branch_taken(s, inst) ==> post.pc.wrapping_add(4) == s.pc.wrapping_add(4))
        }),
{
}

/// Control/status read law. A `CSRRS` whose source is register 0 reads the
/// named control/status register into the destination register (unless that
/// is the hardwired zero register, which discards the value) and modifies no
/// control/status register, no other register, no memory and not the
/// counter.
pub proof fn lemma_csrrs_x0(s: CpuState, inst: RegImmInst)
    requires
        inst.instName == Instruction::CSRRS,
        inst.rs1 == 0,
    ensures
        spec_exec_i(s, inst) is Ok,
        ({
            let post = spec_exec_i(s, inst).unwrap();
            &&& post.csrs == s.csrs
            &&& inst.rd != 0 ==> post.regs == s.regs.update(
                inst.rd as int,
                s.csrs[csr_index(inst.imm)],
            )
            &&& inst.rd == 0 ==> post.regs == s.regs
            &&& post.fregs == s.fregs
            &&& post.mem == s.mem
            &&& post.pc == s.pc
        }),
{
}

/// Zero-register law. No instruction changes what register 0 holds: a write
/// aimed at it is discarded at the point of write. A processor built by
/// `new` starts with register 0 at zero, so it observes as zero before and
/// after every executed instruction.
pub proof fn lemma_x0_never_written(s: CpuState, inst: InstructionFormat)
    requires
        s.wf(),
        inst.wf(),
    ensures
        (match spec_execute(s, inst) {
            Ok(post) => post.regs[0] == s.regs[0],
            Err(_) => true,
        }),
{
}

/// What a store instruction does: the low bytes of the source register go to
/// memory at the base register plus the offset; `FSW` stores the low word of
/// the floating-point register, which holds the boxed single-precision bits.
pub open spec fn spec_exec_s(s: CpuState, inst: StoreInst) -> Result<CpuState, ExecError> {
    let addr = rval(s, inst.rs1).wrapping_add(inst.imm as u64);
    let b = rval(s, inst.rs2);
    match inst.instName {
        Instruction::SB => {
            if !mem_ok(s, addr, 1) {
                Err(ExecError::MemoryFault)
            } else {
                Ok(with_mem(s, le_store(s.mem, addr as int, b, 1)))
            }
        },
        Instruction::SH => {
            if !mem_ok(s, addr, 2) {
                Err(ExecError::MemoryFault)
            } else {
                Ok(with_mem(s, le_store(s.mem, addr as int, b, 2)))
            }
        },
        Instruction::SW => {
            if !mem_ok(s, addr, 4) {
                Err(ExecError::MemoryFault)
            } else {
                Ok(with_mem(s, le_store(s.mem, addr as int, b, 4)))
            }
        },
        Instruction::SD => {
            if !mem_ok(s, addr, 8) {
                Err(ExecError::MemoryFault)
            } else {
                Ok(with_mem(s, le_store(s.mem, addr as int, b, 8)))
            }
        },
        Instruction::FSW => {
            if !mem_ok(s, addr, 4) {
                Err(ExecError::MemoryFault)
            } else {
                Ok(with_mem(s, le_store(s.mem, addr as int, fval(s, inst.rs2), 4)))
            }
        },
        _ => Err(ExecError::NotImplemented),
    }
}

/// What an upper-immediate instruction does: `LUI` writes the shifted
/// immediate, `AUIPC` adds it to the program counter.
pub open spec fn spec_exec_u(s: CpuState, inst: UpperImmInst) -> Result<CpuState, ExecError> {
    match inst.instName {
        Instruction::AUIPC => Ok(
            with_reg(s, inst.rd, s.pc.wrapping_add(((inst.imm << 12) as i64) as u64)),
        ),
        Instruction::LUI => Ok(with_reg(s, inst.rd, ((inst.imm << 12) as i64) as u64)),
        _ => Err(ExecError::NotImplemented),
    }
}

/// What a jump instruction does: the return address goes to the destination
/// register and the counter moves by the doubled immediate, four short of
/// the target for the cycle's unconditional advance.
pub open spec fn spec_exec_j(s: CpuState, inst: JumpInst) -> Result<CpuState, ExecError> {
    match inst.instName {
        Instruction::JAL => {
            let s1 = with_reg(s, inst.rd, s.pc.wrapping_add(4));
            Ok(with_pc(s1, s.pc.wrapping_add((inst.imm << 1) as u64).wrapping_sub(4)))
        },
        _ => Err(ExecError::NotImplemented),
    }
}

/// The execution semantics of any decoded instruction: dispatch on the
/// format. `Ok` carries the next state; every error leaves the state as it
/// was.
pub open spec fn spec_execute(s: CpuState, inst: InstructionFormat) -> Result<
    CpuState,
    ExecError,
> {
    match inst {
        InstructionFormat::R(i) => spec_exec_r(s, i),
        InstructionFormat::R4(i) => spec_exec_r4(s, i),
        InstructionFormat::I(i) => spec_exec_i(s, i),
        InstructionFormat::S(i) => spec_exec_s(s, i),
        InstructionFormat::B(i) => spec_exec_b(s, i),
        InstructionFormat::U(i) => spec_exec_u(s, i),
        InstructionFormat::J(i) => spec_exec_j(s, i),
    }
}

impl Cpu {
    /// Reads a general register.
    fn read_reg(&self, r: u8) -> (v: u64)
        requires
            self.wf(),
            r < 32,
        ensures
            v == rval(self@, r),
    {
        self.regs[r as usize]
    }

    /// Reads a floating-point register.
    fn read_freg(&self, r: u8) -> (v: u64)
        requires
            self.wf(),
            r < 32,
        ensures
            v == fval(self@, r),
    {
        self.fregs[r as usize]
    }

    /// Writes a general register; a write aimed at the hardwired zero
    /// register is discarded.
    fn write_reg(&mut self, rd: u8, v: u64)
        requires
            old(self).wf(),
            rd < 32,
        ensures
            final(self).wf(),
            final(self)@ == with_reg(old(self)@, rd, v),
    {
        if rd != 0 {
            self.regs.set(rd as usize, v);
        }
    }

    /// Writes a floating-point register.
    fn write_freg(&mut self, rd: u8, v: u64)
        requires
            old(self).wf(),
            rd < 32,
        ensures
            final(self).wf(),
            final(self)@ == with_freg(old(self)@, rd, v),
    {
        self.fregs.set(rd as usize, v);
    }

    /// Forces register 0 back to zero: the cycle's defensive clamp. The
    /// write path already discards writes aimed at register 0, so this only
    /// matters when a caller changed the register file between cycles.
    fn clamp_reg_zero(&mut self)
        requires
            old(self).wf(),
        ensures
            final(self).wf(),
            final(self)@ == (CpuState { regs: old(self)@.regs.update(0, 0), ..old(self)@ }),
    {
        self.regs.set(0, 0);
    }

    /// Moves the program counter.
    fn set_pc(&mut self, v: u64)
        requires
            old(self).wf(),
        ensures
            final(self).wf(),
            final(self)@ == with_pc(old(self)@, v),
    {
        self.pc = v;
    }

    /// Reads a memory window after checking that it lies inside memory;
    /// `None` reports an access past the end.
    fn mem_read(&self, addr: u64, size: u8) -> (r: Option<u64>)
        requires
            self.wf(),
            1 <= size <= 8,
        ensures
            r matches Some(v) ==> mem_ok(self@, addr, size) && v == le_load(
                self@.mem,
                addr as int,
                size as int,
            ),
            r is None ==> !mem_ok(self@, addr, size),
    {
        if addr <= (MEM_SIZE as u64) - (size as u64) {
            Some(self.bus.load(addr, size))
        } else {
            None
        }
    }

    /// Writes a memory window after checking that it lies inside memory;
    /// `false` reports an access past the end, and then nothing changed.
    fn mem_write(&mut self, addr: u64, data: u64, size: u8) -> (r: bool)
        requires
            old(self).wf(),
            1 <= size <= 8,
        ensures
            final(self).wf(),
            r ==> mem_ok(old(self)@, addr, size) && final(self)@ == with_mem(
                old(self)@,
                le_store(old(self)@.mem, addr as int, data, size as int),
            ),
            !r ==> !mem_ok(old(self)@, addr, size) && final(self)@ == old(self)@,
    {
        if addr <= (MEM_SIZE as u64) - (size as u64) {
            self.bus.store(addr, data, size);
            true
        } else {
            false
        }
    }

    /// Executes a fused multiply-add instruction: all of its single-precision
    /// forms need the caller's float unit, and its double-precision forms
    /// have no execution rule here.
    fn exec_r4(&mut self, inst: R3Inst) -> (r: Result<(), ExecError>)
        requires
            old(self).wf(),
            inst.wf(),
        ensures
            final(self).wf(),
            (match spec_exec_r4(old(self)@, inst) {
                Ok(post) => r == Ok::<(), ExecError>(()) && final(self)@ == post,
                Err(e) => r == Err::<(), ExecError>(e) && final(self)@ == old(self)@,
            }),
    {
        match inst.instName {
            Instruction::FMADDS => Err(ExecError::FloatUnit),
            Instruction::FMSUBS => Err(ExecError::FloatUnit),
            Instruction::FNMADDS => Err(ExecError::FloatUnit),
            Instruction::FNMSUBS => Err(ExecError::FloatUnit),
            _ => Err(ExecError::NotImplemented),
        }
    }

    /// Executes a branch instruction.
    fn exec_b(&mut self, inst: BranchInst) -> (r: Result<(), ExecError>)
        requires
            old(self).wf(),
            inst.wf(),
        ensures
            final(self).wf(),
            (match spec_exec_b(old(self)@, inst) {
                Ok(post) => r == Ok::<(), ExecError>(()) && final(self)@ == post,
                Err(e) => r == Err::<(), ExecError>(e) && final(self)@ == old(self)@,
            }),
    {
        let a = self.read_reg(inst.rs1);
        let b = self.read_reg(inst.rs2);
        // The target sits four bytes short: the cycle's unconditional
        // advance adds them back, landing on the architectural target.
        let target = self.pc.wrapping_add((inst.imm << 1) as u64).wrapping_sub(4);
        match inst.instName {
            Instruction::BEQ => {
                if a == b {
                    self.set_pc(target);
                }
                Ok(())
            },
            Instruction::BNE => {
                if a != b {
                    self.set_pc(target);
                }
                Ok(())
            },
            Instruction::BLT => {
                if (a as i64) < (b as i64) {
                    self.set_pc(target);
                }
                Ok(())
            },
            Instruction::BGE => {
                if (a as i64) >= (b as i64) {
                    self.set_pc(target);
                }
                Ok(())
            },
            Instruction::BLTU => {
                if a < b {
                    self.set_pc(target);
                }
                Ok(())
            },
            Instruction::BGEU => {
                if a >= b {
                    self.set_pc(target);
                }
                Ok(())
            },
            _ => Err(ExecError::NotImplemented),
        }
    }

    /// Executes a store instruction.
    fn exec_s(&mut self, inst: StoreInst) -> (r: Result<(), ExecError>)
        requires
            old(self).wf(),
            inst.wf(),
        ensures
            final(self).wf(),
            (match spec_exec_s(old(self)@, inst) {
                Ok(post) => r == Ok::<(), ExecError>(()) && final(self)@ == post,
                Err(e) => r == Err::<(), ExecError>(e) && final(self)@ == old(self)@,
            }),
    {
        let addr = self.read_reg(inst.rs1).wrapping_add(inst.imm as u64);
        let b = self.read_reg(inst.rs2);
        match inst.instName {
            Instruction::SB => {
                if self.mem_write(addr, b, 1) {
                    Ok(())
                } else {
                    Err(ExecError::MemoryFault)
                }
            },
            Instruction::SH => {
                if self.mem_write(addr, b, 2) {
                    Ok(())
                } else {
                    Err(ExecError::MemoryFault)
                }
            },
            Instruction::SW => {
                if self.mem_write(addr, b, 4) {
                    Ok(())
                } else {
                    Err(ExecError::MemoryFault)
                }
            },
            Instruction::SD => {
                if self.mem_write(addr, b, 8) {
                    Ok(())
                } else {
                    Err(ExecError::MemoryFault)
                }
            },
            Instruction::FSW => {
                let f = self.read_freg(inst.rs2);
                if self.mem_write(addr, f, 4) {
                    Ok(())
                } else {
                    Err(ExecError::MemoryFault)
                }
            },
            _ => Err(ExecError::NotImplemented),
        }
    }

    /// Executes an upper-immediate instruction.
    fn exec_u(&mut self, inst: UpperImmInst) -> (r: Result<(), ExecError>)
        requires
            old(self).wf(),
            inst.wf(),
        ensures
            final(self).wf(),
            (match spec_exec_u(old(self)@, inst) {
                Ok(post) => r == Ok::<(), ExecError>(()) && final(self)@ == post,
                Err(e) => r == Err::<(), ExecError>(e) && final(self)@ == old(self)@,
            }),
    {
        match inst.instName {
            Instruction::AUIPC => {
                let v = self.pc.wrapping_add(((inst.imm << 12) as i64) as u64);
                self.write_reg(inst.rd, v);
                Ok(())
            },
            Instruction::LUI => {
                self.write_reg(inst.rd, ((inst.imm << 12) as i64) as u64);
                Ok(())
            },
            _ => Err(ExecError::NotImplemented),
        }
    }

    /// Executes a register-register instruction.
    #[verifier::rlimit(40)]
    fn exec_r(&mut self, inst: RegRegInst) -> (r: Result<(), ExecError>)
        requires
            old(self).wf(),
            inst.wf(),
        ensures
            final(self).wf(),
            (match spec_exec_r(old(self)@, inst) {
                Ok(post) => r == Ok::<(), ExecError>(()) && final(self)@ == post,
                Err(e) => r == Err::<(), ExecError>(e) && final(self)@ == old(self)@,
            }),
    {
        let a = self.read_reg(inst.rs1);
        let b = self.read_reg(inst.rs2);
        let fa = Cpu::unbox_float(self.read_freg(inst.rs1));
        let fb = Cpu::unbox_float(self.read_freg(inst.rs2));
        match inst.instName {
            Instruction::ADD => {
                self.write_reg(inst.rd, a.wrapping_add(b));
                Ok(())
            },
            Instruction::ADDW => {
                self.write_reg(inst.rd, ((a.wrapping_add(b) as i32) as i64) as u64);
                Ok(())
            },
            Instruction::SUB => {
                self.write_reg(inst.rd, a.wrapping_sub(b));
                Ok(())
            },
            Instruction::SUBW => {
                self.write_reg(inst.rd, ((a.wrapping_sub(b) as i32) as i64) as u64);
                Ok(())
            },
            Instruction::SLL => {
                proof {
                    lemma_mask6(b);
                }
                self.write_reg(inst.rd, a << (b & 0x3f));
                Ok(())
            },
            Instruction::SLLW => {
                proof {
                    lemma_mask5_u64(b);
                }
                self.write_reg(
                    inst.rd,
                    ((((a as u32) << ((b & 0x1f) as u32)) as i32) as i64) as u64,
                );
                Ok(())
            },
            Instruction::SLT => {
                self.write_reg(
                    inst.rd,
                    if (a as i64) < (b as i64) {
                        1
                    } else {
                        0
                    },
                );
                Ok(())
            },
            Instruction::SLTU => {
                self.write_reg(
                    inst.rd,
                    if a < b {
                        1
                    } else {
                        0
                    },
                );
                Ok(())
            },
            Instruction::XOR => {
                self.write_reg(inst.rd, a ^ b);
                Ok(())
            },
            Instruction::OR => {
                self.write_reg(inst.rd, a | b);
                Ok(())
            },
            Instruction::AND => {
                self.write_reg(inst.rd, a & b);
                Ok(())
            },
            Instruction::SRL => {
                proof {
                    lemma_mask6(b);
                }
                self.write_reg(inst.rd, a >> (b & 0x3f));
                Ok(())
            },
            Instruction::SRLW => {
                proof {
                    lemma_mask5_u64(b);
                }
                self.write_reg(
                    inst.rd,
                    ((((a as u32) >> ((b & 0x1f) as u32)) as i32) as i64) as u64,
                );
                Ok(())
            },
            Instruction::SRA => {
                proof {
                    lemma_mask6(b);
                }
                self.write_reg(inst.rd, ((a as i64) >> (b & 0x3f)) as u64);
                Ok(())
            },
            Instruction::SRAW => {
                proof {
                    lemma_mask5_u64(b);
                }
                self.write_reg(inst.rd, (((a as i32) >> ((b & 0x1f) as u32)) as i64) as u64);
                Ok(())
            },
            Instruction::MUL => {
                self.write_reg(inst.rd, a.wrapping_mul(b));
                Ok(())
            },
            Instruction::MULH => {
                let v = mulh(a, b);
                self.write_reg(inst.rd, v);
                Ok(())
            },
            Instruction::MULHSU => {
                let v = mulhsu(a, b);
                self.write_reg(inst.rd, v);
                Ok(())
            },
            Instruction::MULHU => {
                let v = mulhu(a, b);
                self.write_reg(inst.rd, v);
                Ok(())
            },
            Instruction::DIV => {
                let v = div_signed(a, b);
                self.write_reg(inst.rd, v);
                Ok(())
            },
            Instruction::DIVU => {
                self.write_reg(
                    inst.rd,
                    if b == 0 {
                        u64::MAX
                    } else {
                        a / b
                    },
                );
                Ok(())
            },
            Instruction::REM => {
                let v = rem_signed(a, b);
                self.write_reg(inst.rd, v);
                Ok(())
            },
            Instruction::REMU => {
                self.write_reg(
                    inst.rd,
                    if b == 0 {
                        a
                    } else {
                        a % b
                    },
                );
                Ok(())
            },
            Instruction::MULW => {
                self.write_reg(
                    inst.rd,
                    ((((a as u32).wrapping_mul(b as u32)) as i32) as i64) as u64,
                );
                Ok(())
            },
            Instruction::DIVW => {
                let v = div_w(a, b);
                self.write_reg(inst.rd, v);
                Ok(())
            },
            Instruction::DIVUW => {
                let v = divu_w(a, b);
                self.write_reg(inst.rd, v);
                Ok(())
            },
            Instruction::REMW => {
                let v = rem_w(a, b);
                self.write_reg(inst.rd, v);
                Ok(())
            },
            Instruction::REMUW => {
                let v = remu_w(a, b);
                self.write_reg(inst.rd, v);
                Ok(())
            },
            Instruction::FMINS => {
                let rbits = if f32_is_nan_exec(fa) && f32_is_nan_exec(fb) {
                    F32_QNAN
                } else if f32_is_nan_exec(fa) {
                    fb
                } else if f32_is_nan_exec(fb) {
                    fa
                } else if f32_lt_exec(fa, fb) {
                    fa
                } else {
                    fb
                };
                self.write_freg(inst.rd, Cpu::box_float(rbits));
                Ok(())
            },
            Instruction::FMAXS => {
                let rbits = if f32_is_nan_exec(fa) && f32_is_nan_exec(fb) {
                    F32_QNAN
                } else if f32_is_nan_exec(fa) {
                    fb
                } else if f32_is_nan_exec(fb) {
                    fa
                } else if f32_lt_exec(fb, fa) {
                    fa
                } else {
                    fb
                };
                self.write_freg(inst.rd, Cpu::box_float(rbits));
                Ok(())
            },
            Instruction::FEQS => {
                self.write_reg(
                    inst.rd,
                    if f32_eq_exec(fa, fb) {
                        1
                    } else {
                        0
                    },
                );
                Ok(())
            },
            Instruction::FLTS => {
                self.write_reg(
                    inst.rd,
                    if f32_lt_exec(fa, fb) {
                        1
                    } else {
                        0
                    },
                );
                Ok(())
            },
            Instruction::FLES => {
                self.write_reg(
                    inst.rd,
                    if f32_le_exec(fa, fb) {
                        1
                    } else {
                        0
                    },
                );
                Ok(())
            },
            Instruction::FSGNJS => {
                self.write_freg(
                    inst.rd,
                    Cpu::box_float((fa & 0x7fff_ffff) | (fb & 0x8000_0000)),
                );
                Ok(())
            },
            Instruction::FSGNJNS => {
                self.write_freg(
                    inst.rd,
                    Cpu::box_float((fa & 0x7fff_ffff) | (!fb & 0x8000_0000)),
                );
                Ok(())
            },
            Instruction::FSGNJXS => {
                self.write_freg(
                    inst.rd,
                    Cpu::box_float((fa & 0x7fff_ffff) | ((fb ^ fa) & 0x8000_0000)),
                );
                Ok(())
            },
            Instruction::FMVXW => {
                self.write_reg(inst.rd, ((fa as i32) as i64) as u64);
                Ok(())
            },
            Instruction::FMVWX => {
                self.write_freg(inst.rd, Cpu::box_float(a as u32));
                Ok(())
            },
            Instruction::FADDS => Err(ExecError::FloatUnit),
            Instruction::FSUBS => Err(ExecError::FloatUnit),
            Instruction::FMULS => Err(ExecError::FloatUnit),
            Instruction::FDIVS => Err(ExecError::FloatUnit),
            Instruction::FSQRTS => Err(ExecError::FloatUnit),
            Instruction::FCVTWS => Err(ExecError::FloatUnit),
            Instruction::FCVTWUS => Err(ExecError::FloatUnit),
            Instruction::FCVTSW => Err(ExecError::FloatUnit),
            Instruction::FCVTSWU => Err(ExecError::FloatUnit),
            Instruction::FCVTLS => Err(ExecError::FloatUnit),
            Instruction::FCVTLUS => Err(ExecError::FloatUnit),
            Instruction::FCVTSL => Err(ExecError::FloatUnit),
            Instruction::FCVTSLU => Err(ExecError::FloatUnit),
            Instruction::AMOADDW => {
                match self.mem_read(a, 4) {
                    Some(v) => {
                        let data = (v as u32) as i32;
                        let nv = data.wrapping_add(b as i32);
                        let _done = self.mem_write(a, nv as u64, 4);
                        self.write_reg(inst.rd, data as u64);
                        Ok(())
                    },
                    None => Err(ExecError::MemoryFault),
                }
            },
            Instruction::AMOADDD => {
                match self.mem_read(a, 8) {
                    Some(data) => {
                        let nv = data.wrapping_add(b);
                        let _done = self.mem_write(a, nv, 8);
                        self.write_reg(inst.rd, data);
                        Ok(())
                    },
                    None => Err(ExecError::MemoryFault),
                }
            },
            Instruction::AMOSWAPW => {
                match self.mem_read(a, 4) {
                    Some(v) => {
                        let data = (v as u32) as i32;
                        let _done = self.mem_write(a, b, 4);
                        self.write_reg(inst.rd, data as u64);
                        Ok(())
                    },
                    None => Err(ExecError::MemoryFault),
                }
            },
            Instruction::AMOSWAPD => {
                match self.mem_read(a, 8) {
                    Some(data) => {
                        let _done = self.mem_write(a, b, 8);
                        self.write_reg(inst.rd, data);
                        Ok(())
                    },
                    None => Err(ExecError::MemoryFault),
                }
            },
            Instruction::AMOORW => {
                match self.mem_read(a, 4) {
                    Some(v) => {
                        let data = (v as u32) as i32;
                        let nv = data | (b as i32);
                        let _done = self.mem_write(a, nv as u64, 4);
                        self.write_reg(inst.rd, data as u64);
                        Ok(())
                    },
                    None => Err(ExecError::MemoryFault),
                }
            },
            Instruction::AMOORD => {
                match self.mem_read(a, 8) {
                    Some(data) => {
                        let _done = self.mem_write(a, data | b, 8);
                        self.write_reg(inst.rd, data);
                        Ok(())
                    },
                    None => Err(ExecError::MemoryFault),
                }
            },
            Instruction::AMOXORW => {
                match self.mem_read(a, 4) {
                    Some(v) => {
                        let data = (v as u32) as i32;
                        let nv = data ^ (b as i32);
                        let _done = self.mem_write(a, nv as u64, 4);
                        self.write_reg(inst.rd, data as u64);
                        Ok(())
                    },
                    None => Err(ExecError::MemoryFault),
                }
            },
            Instruction::AMOXORD => {
                match self.mem_read(a, 8) {
                    Some(data) => {
                        let _done = self.mem_write(a, data ^ b, 8);
                        self.write_reg(inst.rd, data);
                        Ok(())
                    },
                    None => Err(ExecError::MemoryFault),
                }
            },
            Instruction::AMOANDW => {
                match self.mem_read(a, 4) {
                    Some(v) => {
                        let data = (v as u32) as i32;
                        let nv = data & (b as i32);
                        let _done = self.mem_write(a, nv as u64, 4);
                        self.write_reg(inst.rd, data as u64);
                        Ok(())
                    },
                    None => Err(ExecError::MemoryFault),
                }
            },
            Instruction::AMOANDD => {
                match self.mem_read(a, 8) {
                    Some(data) => {
                        let _done = self.mem_write(a, data & b, 8);
                        self.write_reg(inst.rd, data);
                        Ok(())
                    },
                    None => Err(ExecError::MemoryFault),
                }
            },
            Instruction::AMOMAXW => {
                match self.mem_read(a, 4) {
                    Some(v) => {
                        let data = (v as u32) as i32;
                        let bw = b as i32;
                        let nv = if data < bw {
                            bw
                        } else {
                            data
                        };
                        let _done = self.mem_write(a, nv as u64, 4);
                        self.write_reg(inst.rd, data as u64);
                        Ok(())
                    },
                    None => Err(ExecError::MemoryFault),
                }
            },
            Instruction::AMOMAXD => {
                match self.mem_read(a, 8) {
                    Some(data) => {
                        let nv = if (data as i64) < (b as i64) {
                            b
                        } else {
                            data
                        };
                        let _done = self.mem_write(a, nv, 8);
                        self.write_reg(inst.rd, data);
                        Ok(())
                    },
                    None => Err(ExecError::MemoryFault),
                }
            },
            Instruction::AMOMAXUW => {
                match self.mem_read(a, 4) {
                    Some(v) => {
                        let data = v as u32;
                        let bw = b as u32;
                        let nv = if data < bw {
                            bw
                        } else {
                            data
                        };
                        let _done = self.mem_write(a, nv as u64, 4);
                        self.write_reg(inst.rd, data as u64);
                        Ok(())
                    },
                    None => Err(ExecError::MemoryFault),
                }
            },
            Instruction::AMOMAXUD => {
                match self.mem_read(a, 8) {
                    Some(data) => {
                        let nv = if data < b {
                            b
                        } else {
                            data
                        };
                        let _done = self.mem_write(a, nv, 8);
                        self.write_reg(inst.rd, data);
                        Ok(())
                    },
                    None => Err(ExecError::MemoryFault),
                }
            },
            Instruction::AMOMINW => {
                match self.mem_read(a, 4) {
                    Some(v) => {
                        let data = (v as u32) as i32;
                        let bw = b as i32;
                        let nv = if data < bw {
                            data
                        } else {
                            bw
                        };
                        let _done = self.mem_write(a, nv as u64, 4);
                        self.write_reg(inst.rd, data as u64);
                        Ok(())
                    },
                    None => Err(ExecError::MemoryFault),
                }
            },
            Instruction::AMOMIND => {
                match self.mem_read(a, 8) {
                    Some(data) => {
                        let nv = if (data as i64) < (b as i64) {
                            data
                        } else {
                            b
                        };
                        let _done = self.mem_write(a, nv, 8);
                        self.write_reg(inst.rd, data);
                        Ok(())
                    },
                    None => Err(ExecError::MemoryFault),
                }
            },
            Instruction::AMOMINUW => {
                match self.mem_read(a, 4) {
                    Some(v) => {
                        let data = v as u32;
                        let bw = b as u32;
                        let nv = if data < bw {
                            data
                        } else {
                            bw
                        };
                        let _done = self.mem_write(a, nv as u64, 4);
                        self.write_reg(inst.rd, data as u64);
                        Ok(())
                    },
                    None => Err(ExecError::MemoryFault),
                }
            },
            Instruction::AMOMINUD => {
                match self.mem_read(a, 8) {
                    Some(data) => {
                        let nv = if data < b {
                            data
                        } else {
                            b
                        };
                        let _done = self.mem_write(a, nv, 8);
                        self.write_reg(inst.rd, data);
                        Ok(())
                    },
                    None => Err(ExecError::MemoryFault),
                }
            },
            Instruction::LRW => {
                match self.mem_read(a, 4) {
                    Some(v) => {
                        self.write_reg(inst.rd, (((v as u32) as i32) as i64) as u64);
                        Ok(())
                    },
                    None => Err(ExecError::MemoryFault),
                }
            },
            Instruction::LRD => {
                match self.mem_read(a, 8) {
                    Some(v) => {
                        self.write_reg(inst.rd, v);
                        Ok(())
                    },
                    None => Err(ExecError::MemoryFault),
                }
            },
            Instruction::SCW => {
                if self.mem_write(a, b, 4) {
                    Ok(())
                } else {
                    Err(ExecError::MemoryFault)
                }
            },
            Instruction::SCD => {
                if self.mem_write(a, b, 8) {
                    Ok(())
                } else {
                    Err(ExecError::MemoryFault)
                }
            },
            _ => Err(ExecError::NotImplemented),
        }
    }

    /// Executes a register-immediate instruction.
    fn exec_i(&mut self, inst: RegImmInst) -> (r: Result<(), ExecError>)
        requires
            old(self).wf(),
            inst.wf(),
        ensures
            final(self).wf(),
            (match spec_exec_i(old(self)@, inst) {
                Ok(post) => r == Ok::<(), ExecError>(()) && final(self)@ == post,
                Err(e) => r == Err::<(), ExecError>(e) && final(self)@ == old(self)@,
            }),
    {
        let a = self.read_reg(inst.rs1);
        let addr = a.wrapping_add(inst.imm as u64);
        match inst.instName {
            Instruction::ADDI => {
                self.write_reg(inst.rd, a.wrapping_add(inst.imm as u64));
                Ok(())
            },
            Instruction::ADDIW => {
                self.write_reg(
                    inst.rd,
                    ((a.wrapping_add(inst.imm as u64) as i32) as i64) as u64,
                );
                Ok(())
            },
            Instruction::SLTI => {
                self.write_reg(
                    inst.rd,
                    if (a as i64) < (inst.imm as i64) {
                        1
                    } else {
                        0
                    },
                );
                Ok(())
            },
            Instruction::SLTIU => {
                self.write_reg(
                    inst.rd,
                    if a < (inst.imm as u64) {
                        1
                    } else {
                        0
                    },
                );
                Ok(())
            },
            Instruction::XORI => {
                self.write_reg(inst.rd, a ^ (inst.imm as u64));
                Ok(())
            },
            Instruction::ORI => {
                self.write_reg(inst.rd, a | (inst.imm as u64));
                Ok(())
            },
            Instruction::ANDI => {
                self.write_reg(inst.rd, a & (inst.imm as u64));
                Ok(())
            },
            Instruction::SLLI => {
                proof {
                    lemma_mask6(inst.imm as u64);
                }
                self.write_reg(inst.rd, a << ((inst.imm as u64) & 0x3f));
                Ok(())
            },
            Instruction::SRLI => {
                proof {
                    lemma_mask6(inst.imm as u64);
                }
                self.write_reg(inst.rd, a >> ((inst.imm as u64) & 0x3f));
                Ok(())
            },
            Instruction::SRAI => {
                proof {
                    lemma_mask6(inst.imm as u64);
                }
                self.write_reg(inst.rd, ((a as i64) >> ((inst.imm as u64) & 0x3f)) as u64);
                Ok(())
            },
            Instruction::SLLIW => {
                proof {
                    lemma_mask5_u64(inst.imm as u64);
                }
                self.write_reg(
                    inst.rd,
                    ((((a as u32) << (((inst.imm as u64) & 0x1f) as u32)) as i32) as i64) as u64,
                );
                Ok(())
            },
            Instruction::SRLIW => {
                proof {
                    lemma_mask5_u64(inst.imm as u64);
                }
                self.write_reg(
                    inst.rd,
                    ((((a as u32) >> (((inst.imm as u64) & 0x1f) as u32)) as i32) as i64) as u64,
                );
                Ok(())
            },
            Instruction::SRAIW => {
                proof {
                    lemma_mask5_u64(inst.imm as u64);
                }
                self.write_reg(
                    inst.rd,
                    (((a as i32) >> (((inst.imm as u64) & 0x1f) as u32)) as i64) as u64,
                );
                Ok(())
            },
            Instruction::LB => {
                match self.mem_read(addr, 1) {
                    Some(v) => {
                        self.write_reg(inst.rd, ((v as i8) as i64) as u64);
                        Ok(())
                    },
                    None => Err(ExecError::MemoryFault),
                }
            },
            Instruction::LH => {
                match self.mem_read(addr, 2) {
                    Some(v) => {
                        self.write_reg(inst.rd, ((v as i16) as i64) as u64);
                        Ok(())
                    },
                    None => Err(ExecError::MemoryFault),
                }
            },
            Instruction::LW => {
                match self.mem_read(addr, 4) {
                    Some(v) => {
                        self.write_reg(inst.rd, ((v as i32) as i64) as u64);
                        Ok(())
                    },
                    None => Err(ExecError::MemoryFault),
                }
            },
            Instruction::LD => {
                match self.mem_read(addr, 8) {
                    Some(v) => {
                        self.write_reg(inst.rd, v);
                        Ok(())
                    },
                    None => Err(ExecError::MemoryFault),
                }
            },
            Instruction::LBU => {
                match self.mem_read(addr, 1) {
                    Some(v) => {
                        self.write_reg(inst.rd, v);
                        Ok(())
                    },
                    None => Err(ExecError::MemoryFault),
                }
            },
            Instruction::LHU => {
                match self.mem_read(addr, 2) {
                    Some(v) => {
                        self.write_reg(inst.rd, v);
                        Ok(())
                    },
                    None => Err(ExecError::MemoryFault),
                }
            },
            Instruction::LWU => {
                match self.mem_read(addr, 4) {
                    Some(v) => {
                        self.write_reg(inst.rd, v);
                        Ok(())
                    },
                    None => Err(ExecError::MemoryFault),
                }
            },
            Instruction::JALR => {
                let t = self.pc.wrapping_add(4);
                self.write_reg(inst.rd, t);
                let r1 = self.read_reg(inst.rs1);
                self.set_pc(
                    (r1.wrapping_add(inst.imm as u64).wrapping_sub(4)) & 0xffff_ffff_ffff_fffe,
                );
                Ok(())
            },
            Instruction::FENCE => {
                // A single-context engine has no other agent to order memory
                // against: the fence is complete at once.
                Ok(())
            },
            Instruction::FLW => {
                match self.mem_read(addr, 4) {
                    Some(v) => {
                        self.write_freg(inst.rd, Cpu::box_float(v as u32));
                        Ok(())
                    },
                    None => Err(ExecError::MemoryFault),
                }
            },
            Instruction::CSRRW => {
                proof {
                    lemma_mask12(inst.imm as u16);
                }
                let idx = ((inst.imm as u16) & 0xfff) as usize;
                let t = self.load_csr(idx);
                if inst.rd != 0 {
                    self.write_reg(inst.rd, t);
                }
                let v = self.read_reg(inst.rs1);
                self.store_csr(idx, v);
                Ok(())
            },
            Instruction::CSRRS => {
                proof {
                    lemma_mask12(inst.imm as u16);
                }
                let idx = ((inst.imm as u16) & 0xfff) as usize;
                let t = self.load_csr(idx);
                self.write_reg(inst.rd, t);
                if inst.rs1 != 0 {
                    let v = self.read_reg(inst.rs1);
                    self.store_csr(idx, t | v);
                }
                Ok(())
            },
            Instruction::CSRRC => {
                proof {
                    lemma_mask12(inst.imm as u16);
                }
                let idx = ((inst.imm as u16) & 0xfff) as usize;
                let t = self.load_csr(idx);
                self.write_reg(inst.rd, t);
                if inst.rs1 != 0 {
                    let v = self.read_reg(inst.rs1);
                    self.store_csr(idx, t & !v);
                }
                Ok(())
            },
            Instruction::CSRRWI => {
                proof {
                    lemma_mask12(inst.imm as u16);
                }
                let idx = ((inst.imm as u16) & 0xfff) as usize;
                let t = self.load_csr(idx);
                if inst.rd != 0 {
                    self.write_reg(inst.rd, t);
                }
                self.store_csr(idx, inst.rs1 as u64);
                Ok(())
            },
            Instruction::CSRRSI => {
                proof {
                    lemma_mask12(inst.imm as u16);
                }
                let idx = ((inst.imm as u16) & 0xfff) as usize;
                let t = self.load_csr(idx);
                self.write_reg(inst.rd, t);
                if inst.rs1 != 0 {
                    self.store_csr(idx, t | (inst.rs1 as u64));
                }
                Ok(())
            },
            Instruction::CSRRCI => {
                proof {
                    lemma_mask12(inst.imm as u16);
                }
                let idx = ((inst.imm as u16) & 0xfff) as usize;
                let t = self.load_csr(idx);
                self.write_reg(inst.rd, t);
                if inst.rs1 != 0 {
                    self.store_csr(idx, t & !(inst.rs1 as u64));
                }
                Ok(())
            },
            _ => Err(ExecError::NotImplemented),
        }
    }

    /// Executes a jump instruction.
    fn exec_j(&mut self, inst: JumpInst) -> (r: Result<(), ExecError>)
        requires
            old(self).wf(),
            inst.wf(),
        ensures
            final(self).wf(),
            (match spec_exec_j(old(self)@, inst) {
                Ok(post) => r == Ok::<(), ExecError>(()) && final(self)@ == post,
                Err(e) => r == Err::<(), ExecError>(e) && final(self)@ == old(self)@,
            }),
    {
        match inst.instName {
            Instruction::JAL => {
                let here = self.pc;
                self.write_reg(inst.rd, here.wrapping_add(4));
                self.set_pc(here.wrapping_add((inst.imm << 1) as u64).wrapping_sub(4));
                Ok(())
            },
            _ => Err(ExecError::NotImplemented),
        }
    }

    /// Applies one decoded instruction to the state: exactly the effect that
    /// `spec_execute` gives it. On any error the state is untouched, so the
    /// caller can see which instruction was refused and why — an unknown
    /// mnemonic and a memory fault stop the run, and a `FloatUnit` report
    /// asks the caller to perform the IEEE-754 arithmetic itself.
    pub fn execute(&mut self, toExecute: InstructionFormat) -> (r: Result<(), ExecError>)
        requires
            old(self).wf(),
            toExecute.wf(),
        ensures
            final(self).wf(),
            (match spec_execute(old(self)@, toExecute) {
                Ok(post) => r == Ok::<(), ExecError>(()) && final(self)@ == post,
                Err(e) => r == Err::<(), ExecError>(e) && final(self)@ == old(self)@,
            }),
    {
        match toExecute {
            InstructionFormat::R(inst) => self.exec_r(inst),
            InstructionFormat::R4(inst) => self.exec_r4(inst),
            InstructionFormat::I(inst) => self.exec_i(inst),
            InstructionFormat::S(inst) => self.exec_s(inst),
            InstructionFormat::B(inst) => self.exec_b(inst),
            InstructionFormat::U(inst) => self.exec_u(inst),
            InstructionFormat::J(inst) => self.exec_j(inst),
        }
    }
}

/// Why a whole cycle stopped: the fetched word did not decode, or the
/// decoded instruction was refused.
#[derive(Debug, Copy, Clone, PartialEq, Eq, Structural)]
pub enum CpuError {
    /// The fetched word decodes to no known instruction.
    Decode(crate::regs::DecodeError),
    /// The instruction decoded but was refused; see `ExecError`.
    Exec(ExecError),
}

/// What one full cycle does: fetch the word at the counter, decode it,
/// execute it, advance the counter by the unconditional four, and re-zero
/// register 0. The engine already discards writes aimed at register 0 at the
/// point of write, so the trailing clamp is pure defense: it keeps the zero
/// register's invariant at every cycle boundary even for a caller that
/// scribbled on the register file between cycles.
pub open spec fn spec_step(s: CpuState) -> Result<CpuState, CpuError> {
    if s.pc + 4 > s.mem.len() {
        Err(CpuError::Exec(ExecError::MemoryFault))
    } else {
        let word = le_load(s.mem, s.pc as int, 4) as u32;
        match Cpu::spec_decode(word) {
            Err(e) => Err(CpuError::Decode(e)),
            Ok(inst) => match spec_execute(s, inst) {
                Err(e) => Err(CpuError::Exec(e)),
                Ok(s1) => {
                    let s2 = with_pc(s1, s1.pc.wrapping_add(4));
                    Ok(CpuState { regs: s2.regs.update(0, 0), ..s2 })
                },
            },
        }
    }
}

impl Cpu {
    /// Runs one cycle: fetch, decode, execute, advance the counter by four,
    /// re-zero register 0. On any error the state is untouched and the error
    /// says what stopped the cycle.
    pub fn step(&mut self) -> (r: Result<(), CpuError>)
        requires
            old(self).wf(),
        ensures
            final(self).wf(),
            (match spec_step(old(self)@) {
                Ok(post) => r == Ok::<(), CpuError>(()) && final(self)@ == post,
                Err(e) => r == Err::<(), CpuError>(e) && final(self)@ == old(self)@,
            }),
    {
        if self.pc > (MEM_SIZE as u64) - 4 {
            return Err(CpuError::Exec(ExecError::MemoryFault));
        }
        let word = self.fetch();
        match Cpu::decode(word) {
            Err(e) => Err(CpuError::Decode(e)),
            Ok(inst) => match self.execute(inst) {
                Err(e) => Err(CpuError::Exec(e)),
                Ok(()) => {
                    let npc = self.pc.wrapping_add(4);
                    self.set_pc(npc);
                    self.clamp_reg_zero();
                    Ok(())
                },
            },
        }
    }
}

} // verus!


