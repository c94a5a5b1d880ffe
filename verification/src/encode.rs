//! The encoders: each format can turn a decoded instruction back into its
//! 32-bit word, and decoding that word is proved to give the instruction
//! back, mnemonic and operand fields alike, for every encodable combination.
//!
//! An instruction is encodable when its mnemonic belongs to the format and
//! its immediate lies in the range the field layout can carry; atomic
//! instructions encode with clear acquire/release hint bits, which the
//! decoder ignores.

use vstd::prelude::*;

use crate::cpu::Cpu;
use crate::regs::BranchInst;
use crate::regs::Instruction;
use crate::regs::InstructionFormat;
use crate::regs::JumpInst;
use crate::regs::R3Inst;
use crate::regs::RegImmInst;
use crate::regs::RegRegInst;
use crate::regs::StoreInst;
use crate::regs::UpperImmInst;

verus! {

/// The word of a register-register layout: registers, funct fields and
/// opcode in their places.
pub open spec fn rr_word(rd: u8, rs1: u8, rs2: u8, funct3: u32, funct7: u32, opcode: u32) -> u32 {
    ((rd as u32) << 7) | (funct3 << 12) | ((rs1 as u32) << 15) | ((rs2 as u32) << 20) | (funct7
        << 25) | opcode
}

/// Builds a register-register word.
fn rr_word_exec(rd: u8, rs1: u8, rs2: u8, funct3: u32, funct7: u32, opcode: u32) -> (r: u32)
    ensures
        r == rr_word(rd, rs1, rs2, funct3, funct7, opcode),
{
    ((rd as u32) << 7) | (funct3 << 12) | ((rs1 as u32) << 15) | ((rs2 as u32) << 20) | (funct7
        << 25) | opcode
}

/// Every field of a register-register word reads back as it was written.
proof fn lemma_rr_fields(rd: u8, rs1: u8, rs2: u8, funct3: u32, funct7: u32, opcode: u32)
    requires
        rd < 32,
        rs1 < 32,
        rs2 < 32,
        funct3 < 8,
        funct7 < 128,
        opcode < 128,
    ensures
        ({
            let w = rr_word(rd, rs1, rs2, funct3, funct7, opcode);
            &&& w & 0x7f == opcode
            &&& (w >> 12) & 0x7 == funct3
            &&& (w >> 25) & 0x7f == funct7
            &&& ((w >> 7) as u8) & 0x1f == rd
            &&& ((w >> 15) as u8) & 0x1f == rs1
            &&& ((w >> 20) as u8) & 0x1f == rs2
        }),
{
    assert({
        let w = ((rd as u32) << 7) | (funct3 << 12) | ((rs1 as u32) << 15) | ((rs2 as u32) << 20)
            | (funct7 << 25) | opcode;
        &&& w & 0x7f == opcode
        &&& (w >> 12) & 0x7 == funct3
        &&& (w >> 25) & 0x7f == funct7
        &&& ((w >> 7) as u8) & 0x1f == rd
        &&& ((w >> 15) as u8) & 0x1f == rs1
        &&& ((w >> 20) as u8) & 0x1f == rs2
    }) by (bit_vector)
        requires
            rd < 32,
            rs1 < 32,
            rs2 < 32,
            funct3 < 8,
            funct7 < 128,
            opcode < 128,
    ;
}

/// The shifted atomic funct7 values read back as their five-bit operation
/// numbers once the two hint bits are stripped.
proof fn lemma_amo_funct5()
    ensures
        0u32 >> 2 == 0,
        4u32 >> 2 == 1,
        8u32 >> 2 == 2,
        12u32 >> 2 == 3,
        16u32 >> 2 == 4,
        32u32 >> 2 == 8,
        48u32 >> 2 == 12,
        64u32 >> 2 == 16,
        80u32 >> 2 == 20,
        96u32 >> 2 == 24,
        112u32 >> 2 == 28,
{
    assert(0u32 >> 2 == 0 && 4u32 >> 2 == 1 && 8u32 >> 2 == 2 && 12u32 >> 2 == 3 && 16u32 >> 2
        == 4 && 32u32 >> 2 == 8 && 48u32 >> 2 == 12 && 64u32 >> 2 == 16 && 80u32 >> 2 == 20
        && 96u32 >> 2 == 24 && 112u32 >> 2 == 28) by (bit_vector);
}

impl RegRegInst {
    /// The funct3, funct7 and opcode of each register-register mnemonic.
    pub open spec fn spec_fields(name: Instruction) -> (u32, u32, u32) {
        match name {
            Instruction::ADD => (0, 0, 51),
            Instruction::SUB => (0, 32, 51),
            Instruction::SLL => (1, 0, 51),
            Instruction::SLT => (2, 0, 51),
            Instruction::SLTU => (3, 0, 51),
            Instruction::XOR => (4, 0, 51),
            Instruction::SRL => (5, 0, 51),
            Instruction::SRA => (5, 32, 51),
            Instruction::OR => (6, 0, 51),
            Instruction::AND => (7, 0, 51),
            Instruction::MUL => (0, 1, 51),
            Instruction::MULH => (1, 1, 51),
            Instruction::MULHSU => (2, 1, 51),
            Instruction::MULHU => (3, 1, 51),
            Instruction::DIV => (4, 1, 51),
            Instruction::DIVU => (5, 1, 51),
            Instruction::REM => (6, 1, 51),
            Instruction::REMU => (7, 1, 51),
            Instruction::ADDW => (0, 0, 59),
            Instruction::SUBW => (0, 32, 59),
            Instruction::SLLW => (1, 0, 59),
            Instruction::SRLW => (5, 0, 59),
            Instruction::SRAW => (5, 32, 59),
            Instruction::MULW => (0, 1, 59),
            Instruction::DIVW => (4, 1, 59),
            Instruction::DIVUW => (5, 1, 59),
            Instruction::REMW => (6, 1, 59),
            Instruction::REMUW => (7, 1, 59),
            Instruction::AMOADDW => (2, 0, 47),
            Instruction::AMOSWAPW => (2, 4, 47),
            Instruction::LRW => (2, 8, 47),
            Instruction::SCW => (2, 12, 47),
            Instruction::AMOXORW => (2, 16, 47),
            Instruction::AMOORW => (2, 32, 47),
            Instruction::AMOANDW => (2, 48, 47),
            Instruction::AMOMINW => (2, 64, 47),
            Instruction::AMOMAXW => (2, 80, 47),
            Instruction::AMOMINUW => (2, 96, 47),
            Instruction::AMOMAXUW => (2, 112, 47),
            Instruction::AMOADDD => (3, 0, 47),
            Instruction::AMOSWAPD => (3, 4, 47),
            Instruction::LRD => (3, 8, 47),
            Instruction::SCD => (3, 12, 47),
            Instruction::AMOXORD => (3, 16, 47),
            Instruction::AMOORD => (3, 32, 47),
            Instruction::AMOANDD => (3, 48, 47),
            Instruction::AMOMIND => (3, 64, 47),
            Instruction::AMOMAXD => (3, 80, 47),
            Instruction::AMOMINUD => (3, 96, 47),
            Instruction::AMOMAXUD => (3, 112, 47),
            _ => (0, 0, 0),
        }
    }

    /// Whether the mnemonic belongs to the register-register format.
    pub open spec fn encodable(&self) -> bool {
        Self::spec_fields(self.instName).2 != 0
    }

    /// The word this instruction encodes to.
    pub open spec fn spec_encode(&self) -> u32 {
        let (funct3, funct7, opcode) = Self::spec_fields(self.instName);
        rr_word(self.rd, self.rs1, self.rs2, funct3, funct7, opcode)
    }

    /// Encodes the instruction; decoding the word gives it back.
    pub fn encode(&self) -> (r: u32)
        requires
            self.wf(),
            self.encodable(),
        ensures
            r == self.spec_encode(),
            Self::spec_new(r) == Ok::<RegRegInst, crate::regs::DecodeError>(*self),
    {
        proof {
            Self::lemma_encode_round_trip(*self);
        }
        let (funct3, funct7, opcode): (u32, u32, u32) = match self.instName {
            Instruction::ADD => (0, 0, 51),
            Instruction::SUB => (0, 32, 51),
            Instruction::SLL => (1, 0, 51),
            Instruction::SLT => (2, 0, 51),
            Instruction::SLTU => (3, 0, 51),
            Instruction::XOR => (4, 0, 51),
            Instruction::SRL => (5, 0, 51),
            Instruction::SRA => (5, 32, 51),
            Instruction::OR => (6, 0, 51),
            Instruction::AND => (7, 0, 51),
            Instruction::MUL => (0, 1, 51),
            Instruction::MULH => (1, 1, 51),
            Instruction::MULHSU => (2, 1, 51),
            Instruction::MULHU => (3, 1, 51),
            Instruction::DIV => (4, 1, 51),
            Instruction::DIVU => (5, 1, 51),
            Instruction::REM => (6, 1, 51),
            Instruction::REMU => (7, 1, 51),
            Instruction::ADDW => (0, 0, 59),
            Instruction::SUBW => (0, 32, 59),
            Instruction::SLLW => (1, 0, 59),
            Instruction::SRLW => (5, 0, 59),
            Instruction::SRAW => (5, 32, 59),
            Instruction::MULW => (0, 1, 59),
            Instruction::DIVW => (4, 1, 59),
            Instruction::DIVUW => (5, 1, 59),
            Instruction::REMW => (6, 1, 59),
            Instruction::REMUW => (7, 1, 59),
            Instruction::AMOADDW => (2, 0, 47),
            Instruction::AMOSWAPW => (2, 4, 47),
            Instruction::LRW => (2, 8, 47),
            Instruction::SCW => (2, 12, 47),
            Instruction::AMOXORW => (2, 16, 47),
            Instruction::AMOORW => (2, 32, 47),
            Instruction::AMOANDW => (2, 48, 47),
            Instruction::AMOMINW => (2, 64, 47),
            Instruction::AMOMAXW => (2, 80, 47),
            Instruction::AMOMINUW => (2, 96, 47),
            Instruction::AMOMAXUW => (2, 112, 47),
            Instruction::AMOADDD => (3, 0, 47),
            Instruction::AMOSWAPD => (3, 4, 47),
            Instruction::LRD => (3, 8, 47),
            Instruction::SCD => (3, 12, 47),
            Instruction::AMOXORD => (3, 16, 47),
            Instruction::AMOORD => (3, 32, 47),
            Instruction::AMOANDD => (3, 48, 47),
            Instruction::AMOMIND => (3, 64, 47),
            Instruction::AMOMAXD => (3, 80, 47),
            Instruction::AMOMINUD => (3, 96, 47),
            Instruction::AMOMAXUD => (3, 112, 47),
            _ => (0, 0, 0),
        };
        rr_word_exec(self.rd, self.rs1, self.rs2, funct3, funct7, opcode)
    }

    /// Round trip: decoding the encoding of any well-formed register-register
    /// instruction reproduces its mnemonic and all of its operand fields.
    pub proof fn lemma_encode_round_trip(inst: RegRegInst)
        requires
            inst.wf(),
            inst.encodable(),
        ensures
            Self::spec_new(inst.spec_encode()) == Ok::<RegRegInst, crate::regs::DecodeError>(
                inst,
            ),
    {
        let (funct3, funct7, opcode) = Self::spec_fields(inst.instName);
        lemma_rr_fields(inst.rd, inst.rs1, inst.rs2, funct3, funct7, opcode);
        lemma_amo_funct5();
    }
}

/// The word of a fused multiply-add layout.
pub open spec fn r4_word(rd: u8, rs1: u8, rs2: u8, rs3: u8, funct2: u32, opcode: u32) -> u32 {
    ((rd as u32) << 7) | ((rs1 as u32) << 15) | ((rs2 as u32) << 20) | (funct2 << 25) | ((
    rs3 as u32) << 27) | opcode
}

/// Every field of a fused multiply-add word reads back as it was written.
proof fn lemma_r4_fields(rd: u8, rs1: u8, rs2: u8, rs3: u8, funct2: u32, opcode: u32)
    requires
        rd < 32,
        rs1 < 32,
        rs2 < 32,
        rs3 < 32,
        funct2 < 4,
        opcode < 128,
    ensures
        ({
            let w = r4_word(rd, rs1, rs2, rs3, funct2, opcode);
            &&& w & 0x7f == opcode
            &&& (w >> 25) & 0x3 == funct2
            &&& ((w >> 7) as u8) & 0x1f == rd
            &&& ((w >> 15) as u8) & 0x1f == rs1
            &&& ((w >> 20) as u8) & 0x1f == rs2
            &&& ((w >> 27) as u8) & 0x1f == rs3
        }),
{
    assert({
        let w = ((rd as u32) << 7) | ((rs1 as u32) << 15) | ((rs2 as u32) << 20) | (funct2 << 25)
            | ((rs3 as u32) << 27) | opcode;
        &&& w & 0x7f == opcode
        &&& (w >> 25) & 0x3 == funct2
        &&& ((w >> 7) as u8) & 0x1f == rd
        &&& ((w >> 15) as u8) & 0x1f == rs1
        &&& ((w >> 20) as u8) & 0x1f == rs2
        &&& ((w >> 27) as u8) & 0x1f == rs3
    }) by (bit_vector)
        requires
            rd < 32,
            rs1 < 32,
            rs2 < 32,
            rs3 < 32,
            funct2 < 4,
            opcode < 128,
    ;
}

impl R3Inst {
    /// The funct2 and opcode of each fused multiply-add mnemonic.
    pub open spec fn spec_fields(name: Instruction) -> (u32, u32) {
        match name {
            Instruction::FMADDS => (0, 67),
            Instruction::FMADDD => (1, 67),
            Instruction::FMSUBS => (0, 71),
            Instruction::FMSUBD => (1, 71),
            Instruction::FNMSUBS => (0, 75),
            Instruction::FNMSUBD => (1, 75),
            Instruction::FNMADDS => (0, 79),
            Instruction::FNMADDD => (1, 79),
            _ => (0, 0),
        }
    }

    /// Whether the mnemonic belongs to the fused multiply-add format.
    pub open spec fn encodable(&self) -> bool {
        Self::spec_fields(self.instName).1 != 0
    }

    /// The word this instruction encodes to.
    pub open spec fn spec_encode(&self) -> u32 {
        let (funct2, opcode) = Self::spec_fields(self.instName);
        r4_word(self.rd, self.rs1, self.rs2, self.rs3, funct2, opcode)
    }

    /// Encodes the instruction; decoding the word gives it back.
    pub fn encode(&self) -> (r: u32)
        requires
            self.wf(),
            self.encodable(),
        ensures
            r == self.spec_encode(),
            Self::spec_new(r) == Ok::<R3Inst, crate::regs::DecodeError>(*self),
    {
        proof {
            Self::lemma_encode_round_trip(*self);
        }
        let (funct2, opcode): (u32, u32) = match self.instName {
            Instruction::FMADDS => (0, 67),
            Instruction::FMADDD => (1, 67),
            Instruction::FMSUBS => (0, 71),
            Instruction::FMSUBD => (1, 71),
            Instruction::FNMSUBS => (0, 75),
            Instruction::FNMSUBD => (1, 75),
            Instruction::FNMADDS => (0, 79),
            Instruction::FNMADDD => (1, 79),
            _ => (0, 0),
        };
        ((self.rd as u32) << 7) | ((self.rs1 as u32) << 15) | ((self.rs2 as u32) << 20) | (funct2
            << 25) | ((self.rs3 as u32) << 27) | opcode
    }

    /// Round trip: decoding the encoding of any well-formed fused
    /// multiply-add instruction reproduces it.
    pub proof fn lemma_encode_round_trip(inst: R3Inst)
        requires
            inst.wf(),
            inst.encodable(),
        ensures
            Self::spec_new(inst.spec_encode()) == Ok::<R3Inst, crate::regs::DecodeError>(inst),
    {
        let (funct2, opcode) = Self::spec_fields(inst.instName);
        lemma_r4_fields(inst.rd, inst.rs1, inst.rs2, inst.rs3, funct2, opcode);
    }
}

/// The word of a register-immediate layout; `field` is the raw 12-bit
/// immediate field.
pub open spec fn iw_word(rd: u8, rs1: u8, funct3: u32, field: u32, opcode: u32) -> u32 {
    ((rd as u32) << 7) | (funct3 << 12) | ((rs1 as u32) << 15) | (field << 20) | opcode
}

/// Every field of a register-immediate word reads back as written, and the
/// decoder's sign-extended reading of the immediate field is the field less
/// 4096 exactly when its sign bit is set.
proof fn lemma_iw_fields(rd: u8, rs1: u8, funct3: u32, field: u32, opcode: u32)
    requires
        rd < 32,
        rs1 < 32,
        funct3 < 8,
        field < 4096,
        opcode < 128,
    ensures
        ({
            let w = iw_word(rd, rs1, funct3, field, opcode);
            &&& w & 0x7f == opcode
            &&& (w >> 12) & 0x7 == funct3
            &&& ((w >> 7) as u8) & 0x1f == rd
            &&& ((w >> 15) as u8) & 0x1f == rs1
            &&& w >> 20 == field
            &&& w >> 30 == field >> 10
            &&& (field < 0x800 ==> ((w as i32) >> 20) as i16 == field)
            &&& (field >= 0x800 ==> ((w as i32) >> 20) as i16 == field - 0x1000)
        }),
{
    assert({
        let w = ((rd as u32) << 7) | (funct3 << 12) | ((rs1 as u32) << 15) | (field << 20)
            | opcode;
        &&& w & 0x7f == opcode
        &&& (w >> 12) & 0x7 == funct3
        &&& ((w >> 7) as u8) & 0x1f == rd
        &&& ((w >> 15) as u8) & 0x1f == rs1
        &&& w >> 20 == field
        &&& w >> 30 == field >> 10
        &&& (field < 0x800 ==> ((w as i32) >> 20) as i16 == field)
        &&& (field >= 0x800 ==> ((w as i32) >> 20) as i16 == field - 0x1000)
    }) by (bit_vector)
        requires
            rd < 32,
            rs1 < 32,
            funct3 < 8,
            field < 4096,
            opcode < 128,
    ;
}

/// How a sign-extended 12-bit immediate sits in its field.
proof fn lemma_imm12(imm: i16)
    requires
        -2048 <= imm <= 2047,
    ensures
        (imm as u32) & 0xfff < 4096,
        imm >= 0 ==> (imm as u32) & 0xfff == imm && (imm as u32) & 0xfff < 0x800,
        imm < 0 ==> (imm as u32) & 0xfff == imm + 0x1000 && (imm as u32) & 0xfff >= 0x800,
{
    assert((imm as u32) & 0xfff < 4096 && (imm >= 0 ==> (imm as u32) & 0xfff == imm && (imm
        as u32) & 0xfff < 0x800) && (imm < 0 ==> (imm as u32) & 0xfff == imm + 0x1000 && (imm
        as u32) & 0xfff >= 0x800)) by (bit_vector)
        requires
            -2048 <= imm <= 2047,
    ;
}

/// How a six-bit shift amount sits in its field, bare for the logical shifts
/// and under a set bit 30 for the arithmetic right shift.
proof fn lemma_shamt6(imm: i16)
    requires
        0 <= imm <= 63,
    ensures
        (imm as u32) < 4096 && (imm as u32) >> 10 == 0,
        ((imm as u32) | 0x400) < 4096 && ((imm as u32) | 0x400) >> 10 == 1 && ((imm as u32)
            | 0x400) < 0x800,
        ((imm as u32) | 0x400) == imm + 0x400,
        imm & 0x3f == imm,
        ((imm + 0x400) as i16) & 0x3f == imm,
{
    assert((imm as u32) < 4096 && (imm as u32) >> 10 == 0 && ((imm as u32) | 0x400) < 4096 && ((
    imm as u32) | 0x400) >> 10 == 1 && ((imm as u32) | 0x400) < 0x800 && ((imm as u32) | 0x400)
        == imm + 0x400 && imm & 0x3f == imm && ((imm + 0x400) as i16) & 0x3f == imm)
        by (bit_vector)
        requires
            0 <= imm <= 63,
    ;
}

/// How a five-bit shift amount sits in its field.
proof fn lemma_shamt5(imm: i16)
    requires
        0 <= imm <= 31,
    ensures
        (imm as u32) < 4096 && (imm as u32) >> 10 == 0,
        ((imm as u32) | 0x400) < 4096 && ((imm as u32) | 0x400) >> 10 == 1 && ((imm as u32)
            | 0x400) < 0x800,
        ((imm as u32) | 0x400) == imm + 0x400,
        imm & 0x1f == imm,
        ((imm + 0x400) as i16) & 0x1f == imm,
{
    assert((imm as u32) < 4096 && (imm as u32) >> 10 == 0 && ((imm as u32) | 0x400) < 4096 && ((
    imm as u32) | 0x400) >> 10 == 1 && ((imm as u32) | 0x400) < 0x800 && ((imm as u32) | 0x400)
        == imm + 0x400 && imm & 0x1f == imm && ((imm + 0x400) as i16) & 0x1f == imm)
        by (bit_vector)
        requires
            0 <= imm <= 31,
    ;
}

impl RegImmInst {
    /// The funct3 and opcode of each register-immediate mnemonic.
    pub open spec fn spec_fields(name: Instruction) -> (u32, u32) {
        match name {
            Instruction::ADDI => (0, 19),
            Instruction::SLLI => (1, 19),
            Instruction::SLTI => (2, 19),
            Instruction::SLTIU => (3, 19),
            Instruction::XORI => (4, 19),
            Instruction::SRLI => (5, 19),
            Instruction::SRAI => (5, 19),
            Instruction::ORI => (6, 19),
            Instruction::ANDI => (7, 19),
            Instruction::ADDIW => (0, 27),
            Instruction::SLLIW => (1, 27),
            Instruction::SRLIW => (5, 27),
            Instruction::SRAIW => (5, 27),
            Instruction::LB => (0, 3),
            Instruction::LH => (1, 3),
            Instruction::LW => (2, 3),
            Instruction::LD => (3, 3),
            Instruction::LBU => (4, 3),
            Instruction::LHU => (5, 3),
            Instruction::LWU => (6, 3),
            Instruction::JALR => (0, 103),
            Instruction::FENCE => (0, 15),
            Instruction::CSRRW => (1, 115),
            Instruction::CSRRS => (2, 115),
            Instruction::CSRRC => (3, 115),
            Instruction::CSRRWI => (5, 115),
            Instruction::CSRRSI => (6, 115),
            Instruction::CSRRCI => (7, 115),
            _ => (0, 0),
        }
    }

    /// The raw immediate field a mnemonic's immediate encodes to: the low
    /// twelve bits for the sign-extended immediates and the register indexes,
    /// and the shift amount (under a set bit 30 for the arithmetic right
    /// shifts) for the shift instructions.
    pub open spec fn spec_field(&self) -> u32 {
        match self.instName {
            Instruction::SLLI | Instruction::SRLI | Instruction::SLLIW | Instruction::SRLIW => (
            self.imm as u32),
            Instruction::SRAI | Instruction::SRAIW => (self.imm as u32) | 0x400,
            _ => (self.imm as u32) & 0xfff,
        }
    }

    /// Whether the mnemonic belongs to the format and the immediate lies in
    /// the range its field can carry: twelve signed bits in general, the
    /// shift-amount range for shifts, and the 12-bit register index space
    /// for the control/status instructions.
    pub open spec fn encodable(&self) -> bool {
        &&& Self::spec_fields(self.instName).1 != 0
        &&& match self.instName {
            Instruction::SLLI | Instruction::SRLI | Instruction::SRAI => 0 <= self.imm <= 63,
            Instruction::SLLIW | Instruction::SRLIW | Instruction::SRAIW => 0 <= self.imm <= 31,
            Instruction::CSRRW | Instruction::CSRRS | Instruction::CSRRC | Instruction::CSRRWI
                | Instruction::CSRRSI | Instruction::CSRRCI => 0 <= self.imm <= 4095,
            _ => -2048 <= self.imm <= 2047,
        }
    }

    /// The word this instruction encodes to.
    pub open spec fn spec_encode(&self) -> u32 {
        let (funct3, opcode) = Self::spec_fields(self.instName);
        iw_word(self.rd, self.rs1, funct3, self.spec_field(), opcode)
    }

    /// Encodes the instruction; decoding the word gives it back.
    pub fn encode(&self) -> (r: u32)
        requires
            self.wf(),
            self.encodable(),
        ensures
            r == self.spec_encode(),
            Self::spec_new(r) == Ok::<RegImmInst, crate::regs::DecodeError>(*self),
    {
        proof {
            Self::lemma_encode_round_trip(*self);
        }
        let (funct3, opcode): (u32, u32) = match self.instName {
            Instruction::ADDI => (0, 19),
            Instruction::SLLI => (1, 19),
            Instruction::SLTI => (2, 19),
            Instruction::SLTIU => (3, 19),
            Instruction::XORI => (4, 19),
            Instruction::SRLI => (5, 19),
            Instruction::SRAI => (5, 19),
            Instruction::ORI => (6, 19),
            Instruction::ANDI => (7, 19),
            Instruction::ADDIW => (0, 27),
            Instruction::SLLIW => (1, 27),
            Instruction::SRLIW => (5, 27),
            Instruction::SRAIW => (5, 27),
            Instruction::LB => (0, 3),
            Instruction::LH => (1, 3),
            Instruction::LW => (2, 3),
            Instruction::LD => (3, 3),
            Instruction::LBU => (4, 3),
            Instruction::LHU => (5, 3),
            Instruction::LWU => (6, 3),
            Instruction::JALR => (0, 103),
            Instruction::FENCE => (0, 15),
            Instruction::CSRRW => (1, 115),
            Instruction::CSRRS => (2, 115),
            Instruction::CSRRC => (3, 115),
            Instruction::CSRRWI => (5, 115),
            Instruction::CSRRSI => (6, 115),
            Instruction::CSRRCI => (7, 115),
            _ => (0, 0),
        };
        let field: u32 = match self.instName {
            Instruction::SLLI | Instruction::SRLI | Instruction::SLLIW | Instruction::SRLIW => (
            self.imm as u32),
            Instruction::SRAI | Instruction::SRAIW => (self.imm as u32) | 0x400,
            _ => (self.imm as u32) & 0xfff,
        };
        ((self.rd as u32) << 7) | (funct3 << 12) | ((self.rs1 as u32) << 15) | (field << 20)
            | opcode
    }

    /// Round trip: decoding the encoding of any well-formed, encodable
    /// register-immediate instruction reproduces its mnemonic, registers and
    /// immediate.
    pub proof fn lemma_encode_round_trip(inst: RegImmInst)
        requires
            inst.wf(),
            inst.encodable(),
        ensures
            Self::spec_new(inst.spec_encode()) == Ok::<RegImmInst, crate::regs::DecodeError>(
                inst,
            ),
    {
        let (funct3, opcode) = Self::spec_fields(inst.instName);
        let field = inst.spec_field();
        match inst.instName {
            Instruction::SLLI | Instruction::SRLI | Instruction::SLLIW | Instruction::SRLIW => {
                if opcode == 19 {
                    lemma_shamt6(inst.imm);
                } else {
                    lemma_shamt5(inst.imm);
                }
            },
            Instruction::SRAI => lemma_shamt6(inst.imm),
            Instruction::SRAIW => lemma_shamt5(inst.imm),
            Instruction::CSRRW | Instruction::CSRRS | Instruction::CSRRC | Instruction::CSRRWI
                | Instruction::CSRRSI | Instruction::CSRRCI => {
                lemma_imm12_csr(inst.imm);
            },
            _ => {
                lemma_imm12(inst.imm);
            },
        }
        lemma_iw_fields(inst.rd, inst.rs1, funct3, field, opcode);
    }
}

/// How a 12-bit register index sits bare in its field.
proof fn lemma_imm12_csr(imm: i16)
    requires
        0 <= imm <= 4095,
    ensures
        (imm as u32) & 0xfff == imm,
        (imm as u32) & 0xfff < 4096,
{
    assert((imm as u32) & 0xfff == imm && (imm as u32) & 0xfff < 4096) by (bit_vector)
        requires
            0 <= imm <= 4095,
    ;
}

/// The word of a store layout: the immediate split into its low five bits at
/// [11:7] and its sign-carrying high seven bits at [31:25].
pub open spec fn st_word(rs1: u8, rs2: u8, funct3: u32, imm: i16) -> u32 {
    (((imm as u32) & 0x1f) << 7) | (funct3 << 12) | ((rs1 as u32) << 15) | ((rs2 as u32) << 20)
        | ((((imm as u32) >> 5) & 0x7f) << 25) | 35
}

/// Every field of a store word reads back as written, the reassembled
/// immediate included.
proof fn lemma_st_fields(rs1: u8, rs2: u8, funct3: u32, imm: i16)
    requires
        rs1 < 32,
        rs2 < 32,
        funct3 < 8,
        -2048 <= imm <= 2047,
    ensures
        ({
            let w = st_word(rs1, rs2, funct3, imm);
            &&& w & 0x7f == 35
            &&& (w >> 12) & 0x7 == funct3
            &&& ((w >> 15) as u8) & 0x1f == rs1
            &&& ((w >> 20) as u8) & 0x1f == rs2
            &&& (((w >> 7) & 0x1f) as i16) | ((((w as i32) >> 25) << 5) as i16) == imm
        }),
{
    assert({
        let w = (((imm as u32) & 0x1f) << 7) | (funct3 << 12) | ((rs1 as u32) << 15) | ((
        rs2 as u32) << 20) | ((((imm as u32) >> 5) & 0x7f) << 25) | 35;
        &&& w & 0x7f == 35
        &&& (w >> 12) & 0x7 == funct3
        &&& ((w >> 15) as u8) & 0x1f == rs1
        &&& ((w >> 20) as u8) & 0x1f == rs2
        &&& (((w >> 7) & 0x1f) as i16) | ((((w as i32) >> 25) << 5) as i16) == imm
    }) by (bit_vector)
        requires
            rs1 < 32,
            rs2 < 32,
            funct3 < 8,
            -2048 <= imm <= 2047,
    ;
}

impl StoreInst {
    /// The funct3 of each store mnemonic (the store opcode is always 0x23).
    pub open spec fn spec_fields(name: Instruction) -> (u32, bool) {
        match name {
            Instruction::SB => (0, true),
            Instruction::SH => (1, true),
            Instruction::SW => (2, true),
            Instruction::SD => (3, true),
            _ => (0, false),
        }
    }

    /// Whether the mnemonic belongs to the store format and the immediate
    /// fits its twelve signed bits.
    pub open spec fn encodable(&self) -> bool {
        Self::spec_fields(self.instName).1 && -2048 <= self.imm <= 2047
    }

    /// The word this instruction encodes to.
    pub open spec fn spec_encode(&self) -> u32 {
        st_word(self.rs1, self.rs2, Self::spec_fields(self.instName).0, self.imm)
    }

    /// Encodes the instruction; decoding the word gives it back.
    pub fn encode(&self) -> (r: u32)
        requires
            self.wf(),
            self.encodable(),
        ensures
            r == self.spec_encode(),
            Self::spec_new(r) == Ok::<StoreInst, crate::regs::DecodeError>(*self),
    {
        proof {
            Self::lemma_encode_round_trip(*self);
        }
        let funct3: u32 = match self.instName {
            Instruction::SB => 0,
            Instruction::SH => 1,
            Instruction::SW => 2,
            Instruction::SD => 3,
            _ => 0,
        };
        (((self.imm as u32) & 0x1f) << 7) | (funct3 << 12) | ((self.rs1 as u32) << 15) | ((
        self.rs2 as u32) << 20) | ((((self.imm as u32) >> 5) & 0x7f) << 25) | 35
    }

    /// Round trip: decoding the encoding of any well-formed, encodable store
    /// instruction reproduces it.
    pub proof fn lemma_encode_round_trip(inst: StoreInst)
        requires
            inst.wf(),
            inst.encodable(),
        ensures
            Self::spec_new(inst.spec_encode()) == Ok::<StoreInst, crate::regs::DecodeError>(
                inst,
            ),
    {
        lemma_st_fields(inst.rs1, inst.rs2, Self::spec_fields(inst.instName).0, inst.imm);
    }
}

/// The word of a branch layout: the pre-halved immediate scattered over bits
/// 7, [11:8], [30:25] and 31.
pub open spec fn br_word(rs1: u8, rs2: u8, funct3: u32, imm: i16) -> u32 {
    ((((imm as u32) >> 10) & 0x1) << 7) | (((imm as u32) & 0xf) << 8) | (funct3 << 12) | ((
    rs1 as u32) << 15) | ((rs2 as u32) << 20) | ((((imm as u32) >> 4) & 0x3f) << 25) | ((((
    imm as u32) >> 11) & 0x1) << 31) | 99
}

/// Every field of a branch word reads back as written, the scattered
/// immediate included.
proof fn lemma_br_fields(rs1: u8, rs2: u8, funct3: u32, imm: i16)
    requires
        rs1 < 32,
        rs2 < 32,
        funct3 < 8,
        -2048 <= imm <= 2047,
    ensures
        ({
            let w = br_word(rs1, rs2, funct3, imm);
            &&& w & 0x7f == 99
            &&& (w >> 12) & 0x7 == funct3
            &&& ((w >> 15) as u8) & 0x1f == rs1
            &&& ((w >> 20) as u8) & 0x1f == rs2
            &&& BranchInst::spec_imm(w) == imm
        }),
{
    let w = br_word(rs1, rs2, funct3, imm);
    assert({
        let w = ((((imm as u32) >> 10) & 0x1) << 7) | (((imm as u32) & 0xf) << 8) | (funct3
            << 12) | ((rs1 as u32) << 15) | ((rs2 as u32) << 20) | ((((imm as u32) >> 4) & 0x3f)
            << 25) | ((((imm as u32) >> 11) & 0x1) << 31) | 99;
        let bit11 = ((w >> 7) & 0x1) as i16;
        let bit1to4 = ((w >> 8) & 0xf) as i16;
        let bit5to10 = ((w >> 25) & 0x3f) as i16;
        let bit12 = ((w >> 31) & 0x1) as i16;
        let total = bit1to4 | (bit5to10 << 4) | (bit11 << 10) | (bit12 << 15);
        &&& w & 0x7f == 99
        &&& (w >> 12) & 0x7 == funct3
        &&& ((w >> 15) as u8) & 0x1f == rs1
        &&& ((w >> 20) as u8) & 0x1f == rs2
        &&& (if bit12 == 1 {
            total | (0xfi16 << 11)
        } else {
            total
        }) == imm
    }) by (bit_vector)
        requires
            rs1 < 32,
            rs2 < 32,
            funct3 < 8,
            -2048 <= imm <= 2047,
    ;
    assert(BranchInst::spec_imm(w) == imm);
}

impl BranchInst {
    /// The funct3 of each branch mnemonic (the branch opcode is always 0x63).
    pub open spec fn spec_fields(name: Instruction) -> (u32, bool) {
        match name {
            Instruction::BEQ => (0, true),
            Instruction::BNE => (1, true),
            Instruction::BLT => (4, true),
            Instruction::BGE => (5, true),
            Instruction::BLTU => (6, true),
            Instruction::BGEU => (7, true),
            _ => (0, false),
        }
    }

    /// Whether the mnemonic belongs to the branch format and the pre-halved
    /// offset fits its twelve signed bits.
    pub open spec fn encodable(&self) -> bool {
        Self::spec_fields(self.instName).1 && -2048 <= self.imm <= 2047
    }

    /// The word this instruction encodes to.
    pub open spec fn spec_encode(&self) -> u32 {
        br_word(self.rs1, self.rs2, Self::spec_fields(self.instName).0, self.imm)
    }

    /// Encodes the instruction; decoding the word gives it back.
    pub fn encode(&self) -> (r: u32)
        requires
            self.wf(),
            self.encodable(),
        ensures
            r == self.spec_encode(),
            Self::spec_new(r) == Ok::<BranchInst, crate::regs::DecodeError>(*self),
    {
        proof {
            Self::lemma_encode_round_trip(*self);
        }
        let funct3: u32 = match self.instName {
            Instruction::BEQ => 0,
            Instruction::BNE => 1,
            Instruction::BLT => 4,
            Instruction::BGE => 5,
            Instruction::BLTU => 6,
            Instruction::BGEU => 7,
            _ => 0,
        };
        ((((self.imm as u32) >> 10) & 0x1) << 7) | (((self.imm as u32) & 0xf) << 8) | (funct3
            << 12) | ((self.rs1 as u32) << 15) | ((self.rs2 as u32) << 20) | ((((self.imm as u32)
            >> 4) & 0x3f) << 25) | ((((self.imm as u32) >> 11) & 0x1) << 31) | 99
    }

    /// Round trip: decoding the encoding of any well-formed, encodable branch
    /// instruction reproduces it.
    pub proof fn lemma_encode_round_trip(inst: BranchInst)
        requires
            inst.wf(),
            inst.encodable(),
        ensures
            Self::spec_new(inst.spec_encode()) == Ok::<BranchInst, crate::regs::DecodeError>(
                inst,
            ),
    {
        lemma_br_fields(inst.rs1, inst.rs2, Self::spec_fields(inst.instName).0, inst.imm);
    }
}

/// The word of an upper-immediate layout.
pub open spec fn up_word(rd: u8, imm: i32, opcode: u32) -> u32 {
    (((imm as u32) & 0xf_ffff) << 12) | ((rd as u32) << 7) | opcode
}

/// Every field of an upper-immediate word reads back as written.
proof fn lemma_up_fields(rd: u8, imm: i32, opcode: u32)
    requires
        rd < 32,
        -0x8_0000 <= imm <= 0x7_ffff,
        opcode < 128,
    ensures
        ({
            let w = up_word(rd, imm, opcode);
            &&& w & 0x7f == opcode
            &&& ((w >> 7) as u8) & 0x1f == rd
            &&& (w as i32) >> 12 == imm
        }),
{
    assert({
        let w = (((imm as u32) & 0xf_ffff) << 12) | ((rd as u32) << 7) | opcode;
        &&& w & 0x7f == opcode
        &&& ((w >> 7) as u8) & 0x1f == rd
        &&& (w as i32) >> 12 == imm
    }) by (bit_vector)
        requires
            rd < 32,
            -0x8_0000 <= imm <= 0x7_ffff,
            opcode < 128,
    ;
}

impl UpperImmInst {
    /// Whether the mnemonic belongs to the upper-immediate format and the
    /// immediate fits its twenty signed bits.
    pub open spec fn encodable(&self) -> bool {
        (self.instName == Instruction::LUI || self.instName == Instruction::AUIPC) && -0x8_0000
            <= self.imm <= 0x7_ffff
    }

    /// The word this instruction encodes to.
    pub open spec fn spec_encode(&self) -> u32 {
        up_word(
            self.rd,
            self.imm,
            if self.instName == Instruction::LUI {
                55
            } else {
                23
            },
        )
    }

    /// Encodes the instruction; decoding the word gives it back.
    pub fn encode(&self) -> (r: u32)
        requires
            self.wf(),
            self.encodable(),
        ensures
            r == self.spec_encode(),
            Self::spec_new(r) == Ok::<UpperImmInst, crate::regs::DecodeError>(*self),
    {
        proof {
            Self::lemma_encode_round_trip(*self);
        }
        let opcode: u32 = if matches!(self.instName, Instruction::LUI) {
            55
        } else {
            23
        };
        (((self.imm as u32) & 0xf_ffff) << 12) | ((self.rd as u32) << 7) | opcode
    }

    /// Round trip: decoding the encoding of any well-formed, encodable
    /// upper-immediate instruction reproduces it.
    pub proof fn lemma_encode_round_trip(inst: UpperImmInst)
        requires
            inst.wf(),
            inst.encodable(),
        ensures
            Self::spec_new(inst.spec_encode()) == Ok::<UpperImmInst, crate::regs::DecodeError>(
                inst,
            ),
    {
        lemma_up_fields(
            inst.rd,
            inst.imm,
            if inst.instName == Instruction::LUI {
                55
            } else {
                23
            },
        );
    }
}

/// The word of a jump layout: the pre-halved offset scattered over bits
/// [30:21], 20, [19:12] and 31.
pub open spec fn jp_word(rd: u8, imm: i32) -> u32 {
    (((imm as u32) & 0x3ff) << 21) | ((((imm as u32) >> 10) & 0x1) << 20) | ((((imm as u32) >> 11)
        & 0xff) << 12) | ((((imm as u32) >> 19) & 0x1) << 31) | ((rd as u32) << 7) | 111
}

/// Every field of a jump word reads back as written, the scattered immediate
/// included.
proof fn lemma_jp_fields(rd: u8, imm: i32)
    requires
        rd < 32,
        -0x8_0000 <= imm <= 0x7_ffff,
    ensures
        ({
            let w = jp_word(rd, imm);
            &&& w & 0x7f == 111
            &&& ((w >> 7) as u8) & 0x1f == rd
            &&& JumpInst::spec_imm(w) == imm
        }),
{
    let w = jp_word(rd, imm);
    assert({
        let w = (((imm as u32) & 0x3ff) << 21) | ((((imm as u32) >> 10) & 0x1) << 20) | ((((
        imm as u32) >> 11) & 0xff) << 12) | ((((imm as u32) >> 19) & 0x1) << 31) | ((rd as u32)
            << 7) | 111;
        let bit12to19 = ((w >> 12) & 0xff) as i32;
        let bit11 = ((w >> 20) & 0x1) as i32;
        let bit1to10 = ((w >> 21) & 0x3ff) as i32;
        let bit20 = ((w >> 31) & 0x1) as i32;
        let total = bit1to10 | (bit11 << 10) | (bit12to19 << 11) | (bit20 << 31);
        &&& w & 0x7f == 111
        &&& ((w >> 7) as u8) & 0x1f == rd
        &&& (if bit20 == 1 {
            total | (0xfff << 19)
        } else {
            total
        }) == imm
    }) by (bit_vector)
        requires
            rd < 32,
            -0x8_0000 <= imm <= 0x7_ffff,
    ;
    assert(JumpInst::spec_imm(w) == imm);
}

impl JumpInst {
    /// Whether the mnemonic is the jump and the pre-halved offset fits its
    /// twenty signed bits.
    pub open spec fn encodable(&self) -> bool {
        self.instName == Instruction::JAL && -0x8_0000 <= self.imm <= 0x7_ffff
    }

    /// The word this instruction encodes to.
    pub open spec fn spec_encode(&self) -> u32 {
        jp_word(self.rd, self.imm)
    }

    /// Encodes the instruction; decoding the word gives it back.
    pub fn encode(&self) -> (r: u32)
        requires
            self.wf(),
            self.encodable(),
        ensures
            r == self.spec_encode(),
            Self::spec_new(r) == *self,
    {
        proof {
            Self::lemma_encode_round_trip(*self);
        }
        (((self.imm as u32) & 0x3ff) << 21) | ((((self.imm as u32) >> 10) & 0x1) << 20) | ((((
        self.imm as u32) >> 11) & 0xff) << 12) | ((((self.imm as u32) >> 19) & 0x1) << 31) | ((
        self.rd as u32) << 7) | 111
    }

    /// Round trip: decoding the encoding of any well-formed, encodable jump
    /// instruction reproduces it.
    pub proof fn lemma_encode_round_trip(inst: JumpInst)
        requires
            inst.wf(),
            inst.encodable(),
        ensures
            Self::spec_new(inst.spec_encode()) == inst,
    {
        lemma_jp_fields(inst.rd, inst.imm);
    }
}

impl InstructionFormat {
    /// Whether the carried instruction can be put back into a word.
    pub open spec fn encodable(&self) -> bool {
        match *self {
            InstructionFormat::R(i) => i.encodable(),
            InstructionFormat::R4(i) => i.encodable(),
            InstructionFormat::I(i) => i.encodable(),
            InstructionFormat::S(i) => i.encodable(),
            InstructionFormat::B(i) => i.encodable(),
            InstructionFormat::U(i) => i.encodable(),
            InstructionFormat::J(i) => i.encodable(),
        }
    }

    /// The word the carried instruction encodes to.
    pub open spec fn spec_encode(&self) -> u32 {
        match *self {
            InstructionFormat::R(i) => i.spec_encode(),
            InstructionFormat::R4(i) => i.spec_encode(),
            InstructionFormat::I(i) => i.spec_encode(),
            InstructionFormat::S(i) => i.spec_encode(),
            InstructionFormat::B(i) => i.spec_encode(),
            InstructionFormat::U(i) => i.spec_encode(),
            InstructionFormat::J(i) => i.spec_encode(),
        }
    }

    /// Encodes the carried instruction; the top-level decoder gives it back.
    pub fn encode(&self) -> (r: u32)
        requires
            self.wf(),
            self.encodable(),
        ensures
            r == self.spec_encode(),
            Cpu::spec_decode(r) == Ok::<InstructionFormat, crate::regs::DecodeError>(*self),
    {
        proof {
            Self::lemma_encode_round_trip(*self);
        }
        match *self {
            InstructionFormat::R(i) => i.encode(),
            InstructionFormat::R4(i) => i.encode(),
            InstructionFormat::I(i) => i.encode(),
            InstructionFormat::S(i) => i.encode(),
            InstructionFormat::B(i) => i.encode(),
            InstructionFormat::U(i) => i.encode(),
            InstructionFormat::J(i) => i.encode(),
        }
    }

    /// Round trip: decoding the encoding of any well-formed, encodable
    /// instruction reproduces its mnemonic and every operand field, for every
    /// opcode and funct combination the decoder documents.
    pub proof fn lemma_encode_round_trip(inst: InstructionFormat)
        requires
            inst.wf(),
            inst.encodable(),
        ensures
            Cpu::spec_decode(inst.spec_encode()) == Ok::<
                InstructionFormat,
                crate::regs::DecodeError,
            >(inst),
    {
        match inst {
            InstructionFormat::R(i) => {
                RegRegInst::lemma_encode_round_trip(i);
                let (funct3, funct7, opcode) = RegRegInst::spec_fields(i.instName);
                lemma_rr_fields(i.rd, i.rs1, i.rs2, funct3, funct7, opcode);
            },
            InstructionFormat::R4(i) => {
                R3Inst::lemma_encode_round_trip(i);
                let (funct2, opcode) = R3Inst::spec_fields(i.instName);
                lemma_r4_fields(i.rd, i.rs1, i.rs2, i.rs3, funct2, opcode);
            },
            InstructionFormat::I(i) => {
                RegImmInst::lemma_encode_round_trip(i);
                let (funct3, opcode) = RegImmInst::spec_fields(i.instName);
                match i.instName {
                    Instruction::SLLI | Instruction::SRLI | Instruction::SRAI => lemma_shamt6(
                        i.imm,
                    ),
                    Instruction::SLLIW | Instruction::SRLIW | Instruction::SRAIW => lemma_shamt5(
                        i.imm,
                    ),
                    Instruction::CSRRW | Instruction::CSRRS | Instruction::CSRRC
                        | Instruction::CSRRWI | Instruction::CSRRSI | Instruction::CSRRCI => {
                        lemma_imm12_csr(i.imm);
                    },
                    _ => lemma_imm12(i.imm),
                }
                lemma_iw_fields(i.rd, i.rs1, funct3, i.spec_field(), opcode);
            },
            InstructionFormat::S(i) => {
                StoreInst::lemma_encode_round_trip(i);
                lemma_st_fields(i.rs1, i.rs2, StoreInst::spec_fields(i.instName).0, i.imm);
            },
            InstructionFormat::B(i) => {
                BranchInst::lemma_encode_round_trip(i);
                lemma_br_fields(i.rs1, i.rs2, BranchInst::spec_fields(i.instName).0, i.imm);
            },
            InstructionFormat::U(i) => {
                UpperImmInst::lemma_encode_round_trip(i);
                lemma_up_fields(
                    i.rd,
                    i.imm,
                    if i.instName == Instruction::LUI {
                        55
                    } else {
                        23
                    },
                );
            },
            InstructionFormat::J(i) => {
                JumpInst::lemma_encode_round_trip(i);
                lemma_jp_fields(i.rd, i.imm);
            },
        }
    }
}

} // verus!
