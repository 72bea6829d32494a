use vstd::prelude::*;
use crate::bus::{BusModel, SystemBus};
use crate::cpu::{add_wrap, asr32, negative, sub_wrap, wrap32};
use crate::decoder::{pow2, sign_extend};
use crate::{SimResult, SimulationError};

verus! {

broadcast use vstd::array::group_array_axioms;

/// A decoded RV32I instruction. Immediates are already sign-extended and scaled.
#[derive(Debug, Clone, Copy, PartialEq, Eq, Structural)]
pub enum Instruction {
    Lui { rd: u8, imm: u32 },
    Auipc { rd: u8, imm: u32 },
    Jal { rd: u8, imm: i32 },
    Jalr { rd: u8, rs1: u8, imm: i32 },
    Beq { rs1: u8, rs2: u8, imm: i32 },
    Bne { rs1: u8, rs2: u8, imm: i32 },
    Blt { rs1: u8, rs2: u8, imm: i32 },
    Bge { rs1: u8, rs2: u8, imm: i32 },
    Bltu { rs1: u8, rs2: u8, imm: i32 },
    Bgeu { rs1: u8, rs2: u8, imm: i32 },
    Lb { rd: u8, rs1: u8, imm: i32 },
    Lh { rd: u8, rs1: u8, imm: i32 },
    Lw { rd: u8, rs1: u8, imm: i32 },
    Lbu { rd: u8, rs1: u8, imm: i32 },
    Lhu { rd: u8, rs1: u8, imm: i32 },
    Sb { rs1: u8, rs2: u8, imm: i32 },
    Sh { rs1: u8, rs2: u8, imm: i32 },
    Sw { rs1: u8, rs2: u8, imm: i32 },
    Addi { rd: u8, rs1: u8, imm: i32 },
    Slti { rd: u8, rs1: u8, imm: i32 },
    Sltiu { rd: u8, rs1: u8, imm: i32 },
    Xori { rd: u8, rs1: u8, imm: i32 },
    Ori { rd: u8, rs1: u8, imm: i32 },
    Andi { rd: u8, rs1: u8, imm: i32 },
    Slli { rd: u8, rs1: u8, shamt: u32 },
    Srli { rd: u8, rs1: u8, shamt: u32 },
    Srai { rd: u8, rs1: u8, shamt: u32 },
    Add { rd: u8, rs1: u8, rs2: u8 },
    Sub { rd: u8, rs1: u8, rs2: u8 },
    Sll { rd: u8, rs1: u8, rs2: u8 },
    Slt { rd: u8, rs1: u8, rs2: u8 },
    Sltu { rd: u8, rs1: u8, rs2: u8 },
    Xor { rd: u8, rs1: u8, rs2: u8 },
    Srl { rd: u8, rs1: u8, rs2: u8 },
    Sra { rd: u8, rs1: u8, rs2: u8 },
    Or { rd: u8, rs1: u8, rs2: u8 },
    And { rd: u8, rs1: u8, rs2: u8 },
    Fence,
    Ecall,
    Ebreak,
    Unknown(u32),
}

pub open spec fn imm_i(inst: u32) -> i32 {
    sign_extend((inst >> 20u32) as int, 12) as i32
}

pub open spec fn imm_s(inst: u32) -> i32 {
    sign_extend((((inst >> 25u32) << 5u32) | ((inst >> 7u32) & 0x1F)) as int, 12) as i32
}

pub open spec fn imm_b_bits(inst: u32) -> u32 {
    (((inst >> 31u32) & 1) << 12u32) | (((inst >> 7u32) & 1) << 11u32) | (((inst >> 25u32) & 0x3F) << 5u32) | (((inst
        >> 8u32) & 0xF) << 1u32)
}

pub open spec fn imm_j_bits(inst: u32) -> u32 {
    (((inst >> 31u32) & 1) << 20u32) | (((inst >> 12u32) & 0xFF) << 12u32) | (((inst >> 20u32) & 1) << 11u32) | (((inst
        >> 21u32) & 0x3FF) << 1u32)
}

/// The RV32I base encodings.
pub open spec fn decode_rv32_spec(inst: u32) -> Instruction {
    let opcode = inst & 0x7F;
    let rd = ((inst >> 7u32) & 0x1F) as u8;
    let f3 = (inst >> 12u32) & 0x7;
    let rs1 = ((inst >> 15u32) & 0x1F) as u8;
    let rs2 = ((inst >> 20u32) & 0x1F) as u8;
    let f7 = inst >> 25u32;
    if opcode == 0x37 {
        Instruction::Lui { rd, imm: inst & 0xFFFF_F000 }
    } else if opcode == 0x17 {
        Instruction::Auipc { rd, imm: inst & 0xFFFF_F000 }
    } else if opcode == 0x6F {
        Instruction::Jal { rd, imm: sign_extend(imm_j_bits(inst) as int, 21) as i32 }
    } else if opcode == 0x67 && f3 == 0 {
        Instruction::Jalr { rd, rs1, imm: imm_i(inst) }
    } else if opcode == 0x63 {
        let imm = sign_extend(imm_b_bits(inst) as int, 13) as i32;
        if f3 == 0 {
            Instruction::Beq { rs1, rs2, imm }
        } else if f3 == 1 {
            Instruction::Bne { rs1, rs2, imm }
        } else if f3 == 4 {
            Instruction::Blt { rs1, rs2, imm }
        } else if f3 == 5 {
            Instruction::Bge { rs1, rs2, imm }
        } else if f3 == 6 {
            Instruction::Bltu { rs1, rs2, imm }
        } else if f3 == 7 {
            Instruction::Bgeu { rs1, rs2, imm }
        } else {
            Instruction::Unknown(inst)
        }
    } else if opcode == 0x03 {
        let imm = imm_i(inst);
        if f3 == 0 {
            Instruction::Lb { rd, rs1, imm }
        } else if f3 == 1 {
            Instruction::Lh { rd, rs1, imm }
        } else if f3 == 2 {
            Instruction::Lw { rd, rs1, imm }
        } else if f3 == 4 {
            Instruction::Lbu { rd, rs1, imm }
        } else if f3 == 5 {
            Instruction::Lhu { rd, rs1, imm }
        } else {
            Instruction::Unknown(inst)
        }
    } else if opcode == 0x23 {
        let imm = imm_s(inst);
        if f3 == 0 {
            Instruction::Sb { rs1, rs2, imm }
        } else if f3 == 1 {
            Instruction::Sh { rs1, rs2, imm }
        } else if f3 == 2 {
            Instruction::Sw { rs1, rs2, imm }
        } else {
            Instruction::Unknown(inst)
        }
    } else if opcode == 0x13 {
        let imm = imm_i(inst);
        let shamt = (inst >> 20u32) & 0x1F;
        if f3 == 0 {
            Instruction::Addi { rd, rs1, imm }
        } else if f3 == 2 {
            Instruction::Slti { rd, rs1, imm }
        } else if f3 == 3 {
            Instruction::Sltiu { rd, rs1, imm }
        } else if f3 == 4 {
            Instruction::Xori { rd, rs1, imm }
        } else if f3 == 6 {
            Instruction::Ori { rd, rs1, imm }
        } else if f3 == 7 {
            Instruction::Andi { rd, rs1, imm }
        } else if f3 == 1 && f7 == 0 {
            Instruction::Slli { rd, rs1, shamt }
        } else if f3 == 5 && f7 == 0 {
            Instruction::Srli { rd, rs1, shamt }
        } else if f3 == 5 && f7 == 0x20 {
            Instruction::Srai { rd, rs1, shamt }
        } else {
            Instruction::Unknown(inst)
        }
    } else if opcode == 0x33 {
        if f3 == 0 && f7 == 0 {
            Instruction::Add { rd, rs1, rs2 }
        } else if f3 == 0 && f7 == 0x20 {
            Instruction::Sub { rd, rs1, rs2 }
        } else if f3 == 1 && f7 == 0 {
            Instruction::Sll { rd, rs1, rs2 }
        } else if f3 == 2 && f7 == 0 {
            Instruction::Slt { rd, rs1, rs2 }
        } else if f3 == 3 && f7 == 0 {
            Instruction::Sltu { rd, rs1, rs2 }
        } else if f3 == 4 && f7 == 0 {
            Instruction::Xor { rd, rs1, rs2 }
        } else if f3 == 5 && f7 == 0 {
            Instruction::Srl { rd, rs1, rs2 }
        } else if f3 == 5 && f7 == 0x20 {
            Instruction::Sra { rd, rs1, rs2 }
        } else if f3 == 6 && f7 == 0 {
            Instruction::Or { rd, rs1, rs2 }
        } else if f3 == 7 && f7 == 0 {
            Instruction::And { rd, rs1, rs2 }
        } else {
            Instruction::Unknown(inst)
        }
    } else if opcode == 0x0F {
        Instruction::Fence
    } else if inst == 0x0000_0073 {
        Instruction::Ecall
    } else if inst == 0x0010_0073 {
        Instruction::Ebreak
    } else {
        Instruction::Unknown(inst)
    }
}


fn sext(v: u32, bits: u32) -> (r: i32)
    requires
        bits == 12 || bits == 13 || bits == 21,
        v < pow2(bits as nat),
    ensures
        r == sign_extend(v as int, bits as nat) as i32,
{
    proof {
        reveal_with_fuel(pow2, 22);
    }
    if bits == 12 {
        if v >= 0x800 {
            v as i32 - 0x1000
        } else {
            v as i32
        }
    } else if bits == 13 {
        if v >= 0x1000 {
            v as i32 - 0x2000
        } else {
            v as i32
        }
    } else {
        if v >= 0x10_0000 {
            v as i32 - 0x20_0000
        } else {
            v as i32
        }
    }
}

fn imm_b_bits_exec(inst: u32) -> (r: u32)
    ensures
        r == imm_b_bits(inst),
{
    (((inst >> 31u32) & 1) << 12u32) | (((inst >> 7u32) & 1) << 11u32) | (((inst >> 25u32) & 0x3F) << 5u32) | (((inst
        >> 8u32) & 0xF) << 1u32)
}

fn imm_j_bits_exec(inst: u32) -> (r: u32)
    ensures
        r == imm_j_bits(inst),
{
    (((inst >> 31u32) & 1) << 20u32) | (((inst >> 12u32) & 0xFF) << 12u32) | (((inst >> 20u32) & 1) << 11u32) | (((inst
        >> 21u32) & 0x3FF) << 1u32)
}

/// Decodes one RV32I instruction word.
pub fn decode_rv32(inst: u32) -> (r: Instruction)
    ensures
        r == decode_rv32_spec(inst),
{
    proof {
        reveal_with_fuel(pow2, 22);
    }
    assert(inst >> 20u32 < 4096) by (bit_vector);
    assert((((inst >> 25u32) << 5u32) | ((inst >> 7u32) & 0x1F)) < 4096) by (bit_vector);
    assert(imm_b_bits(inst) < 8192) by (bit_vector);
    assert(imm_j_bits(inst) < 0x20_0000) by (bit_vector);
    let opcode = inst & 0x7F;
    let rd = ((inst >> 7u32) & 0x1F) as u8;
    let f3 = (inst >> 12u32) & 0x7;
    let rs1 = ((inst >> 15u32) & 0x1F) as u8;
    let rs2 = ((inst >> 20u32) & 0x1F) as u8;
    let f7 = inst >> 25u32;
    if opcode == 0x37 {
        Instruction::Lui { rd, imm: inst & 0xFFFF_F000 }
    } else if opcode == 0x17 {
        Instruction::Auipc { rd, imm: inst & 0xFFFF_F000 }
    } else if opcode == 0x6F {
        Instruction::Jal { rd, imm: sext(imm_j_bits_exec(inst), 21) }
    } else if opcode == 0x67 && f3 == 0 {
        Instruction::Jalr { rd, rs1, imm: sext(inst >> 20u32, 12) }
    } else if opcode == 0x63 {
        let imm = sext(imm_b_bits_exec(inst), 13);
        if f3 == 0 {
            Instruction::Beq { rs1, rs2, imm }
        } else if f3 == 1 {
            Instruction::Bne { rs1, rs2, imm }
        } else if f3 == 4 {
            Instruction::Blt { rs1, rs2, imm }
        } else if f3 == 5 {
            Instruction::Bge { rs1, rs2, imm }
        } else if f3 == 6 {
            Instruction::Bltu { rs1, rs2, imm }
        } else if f3 == 7 {
            Instruction::Bgeu { rs1, rs2, imm }
        } else {
            Instruction::Unknown(inst)
        }
    } else if opcode == 0x03 {
        let imm = sext(inst >> 20u32, 12);
        if f3 == 0 {
            Instruction::Lb { rd, rs1, imm }
        } else if f3 == 1 {
            Instruction::Lh { rd, rs1, imm }
        } else if f3 == 2 {
            Instruction::Lw { rd, rs1, imm }
        } else if f3 == 4 {
            Instruction::Lbu { rd, rs1, imm }
        } else if f3 == 5 {
            Instruction::Lhu { rd, rs1, imm }
        } else {
            Instruction::Unknown(inst)
        }
    } else if opcode == 0x23 {
        let imm = sext(((inst >> 25u32) << 5u32) | ((inst >> 7u32) & 0x1F), 12);
        if f3 == 0 {
            Instruction::Sb { rs1, rs2, imm }
        } else if f3 == 1 {
            Instruction::Sh { rs1, rs2, imm }
        } else if f3 == 2 {
            Instruction::Sw { rs1, rs2, imm }
        } else {
            Instruction::Unknown(inst)
        }
    } else if opcode == 0x13 {
        let imm = sext(inst >> 20u32, 12);
        let shamt = (inst >> 20u32) & 0x1F;
        if f3 == 0 {
            Instruction::Addi { rd, rs1, imm }
        } else if f3 == 2 {
            Instruction::Slti { rd, rs1, imm }
        } else if f3 == 3 {
            Instruction::Sltiu { rd, rs1, imm }
        } else if f3 == 4 {
            Instruction::Xori { rd, rs1, imm }
        } else if f3 == 6 {
            Instruction::Ori { rd, rs1, imm }
        } else if f3 == 7 {
            Instruction::Andi { rd, rs1, imm }
        } else if f3 == 1 && f7 == 0 {
            Instruction::Slli { rd, rs1, shamt }
        } else if f3 == 5 && f7 == 0 {
            Instruction::Srli { rd, rs1, shamt }
        } else if f3 == 5 && f7 == 0x20 {
            Instruction::Srai { rd, rs1, shamt }
        } else {
            Instruction::Unknown(inst)
        }
    } else if opcode == 0x33 {
        if f3 == 0 && f7 == 0 {
            Instruction::Add { rd, rs1, rs2 }
        } else if f3 == 0 && f7 == 0x20 {
            Instruction::Sub { rd, rs1, rs2 }
        } else if f3 == 1 && f7 == 0 {
            Instruction::Sll { rd, rs1, rs2 }
        } else if f3 == 2 && f7 == 0 {
            Instruction::Slt { rd, rs1, rs2 }
        } else if f3 == 3 && f7 == 0 {
            Instruction::Sltu { rd, rs1, rs2 }
        } else if f3 == 4 && f7 == 0 {
            Instruction::Xor { rd, rs1, rs2 }
        } else if f3 == 5 && f7 == 0 {
            Instruction::Srl { rd, rs1, rs2 }
        } else if f3 == 5 && f7 == 0x20 {
            Instruction::Sra { rd, rs1, rs2 }
        } else if f3 == 6 && f7 == 0 {
            Instruction::Or { rd, rs1, rs2 }
        } else if f3 == 7 && f7 == 0 {
            Instruction::And { rd, rs1, rs2 }
        } else {
            Instruction::Unknown(inst)
        }
    } else if opcode == 0x0F {
        Instruction::Fence
    } else if inst == 0x0000_0073 {
        Instruction::Ecall
    } else if inst == 0x0010_0073 {
        Instruction::Ebreak
    } else {
        Instruction::Unknown(inst)
    }
}

/// Signed less-than on two's-complement words.
pub open spec fn slt(a: u32, b: u32) -> bool {
    if negative(a) != negative(b) {
        negative(a)
    } else {
        a < b
    }
}

/// A byte sign-extended to a word.
pub open spec fn sext_byte(b: u8) -> u32 {
    if b >= 0x80 {
        (b as u32 + 0xFFFF_FF00) as u32
    } else {
        b as u32
    }
}

/// A halfword sign-extended to a word.
pub open spec fn sext_half(h: u16) -> u32 {
    if h >= 0x8000 {
        (h as u32 + 0xFFFF_0000) as u32
    } else {
        h as u32
    }
}

fn signed_lt(a: u32, b: u32) -> (r: bool)
    ensures
        r == slt(a, b),
{
    if (a >= 0x8000_0000) != (b >= 0x8000_0000) {
        a >= 0x8000_0000
    } else {
        a < b
    }
}

fn sext_byte_exec(b: u8) -> (r: u32)
    ensures
        r == sext_byte(b),
{
    if b >= 0x80 {
        b as u32 + 0xFFFF_FF00
    } else {
        b as u32
    }
}

fn sext_half_exec(h: u16) -> (r: u32)
    ensures
        r == sext_half(h),
{
    if h >= 0x8000 {
        h as u32 + 0xFFFF_0000
    } else {
        h as u32
    }
}

/// A signed value as a word, modulo 2^32.
fn to_u32(v: i32) -> (r: u32)
    ensures
        r == wrap32(v as int),
{
    proof {
        reveal(wrap32);
    }
    if v >= 0 {
        v as u32
    } else {
        (v as i64 + 0x1_0000_0000i64) as u32
    }
}

/// `a + v` modulo 2^32.
fn add_signed(a: u32, v: i32) -> (r: u32)
    ensures
        r == wrap32(a + v),
{
    proof {
        reveal(wrap32);
    }
    a.wrapping_add_signed(v)
}

/// The shift amount in the low five bits of `v`.
fn shamt_of(v: u32) -> (r: u32)
    ensures
        r == v & 0x1F,
        r < 32,
{
    let r = v & 0x1F;
    assert(r < 32) by (bit_vector)
        requires
            r == v & 0x1F,
    ;
    r
}

fn asr_exec(v: u32, k: u32) -> (r: u32)
    requires
        k < 32,
    ensures
        r == asr32(v, k),
{
    if v >= 0x8000_0000 {
        !((!v) >> k)
    } else {
        v >> k
    }
}

/// The RV32I core: 32 registers, x0 reading as zero, and the PC.
#[derive(Debug, Clone, Copy)]
pub struct RiscV {
    pub x: [u32; 32],
    pub pc: u32,
}

pub struct RvModel {
    pub x: Seq<u32>,
    pub pc: u32,
}

impl View for RiscV {
    type V = RvModel;

    open spec fn view(&self) -> RvModel {
        RvModel { x: self.x@, pc: self.pc }
    }
}

impl RvModel {
    pub open spec fn reg(self, n: u8) -> u32 {
        if n == 0 || n >= 32 {
            0
        } else {
            self.x[n as int]
        }
    }

    pub open spec fn with_reg(self, n: u8, v: u32) -> RvModel {
        if n == 0 || n >= 32 {
            self
        } else {
            RvModel { x: self.x.update(n as int, v), ..self }
        }
    }

    pub open spec fn next(self) -> RvModel {
        RvModel { pc: wrap32(self.pc + 4), ..self }
    }

    pub open spec fn exec_control_spec(self, bus: BusModel, ins: Instruction) -> (RvModel, BusModel, SimResult<()>) {
        match ins {
            Instruction::Lui { rd, imm } => (self.with_reg(rd, imm).next(), bus, Ok(())),
            Instruction::Auipc { rd, imm } => (self.with_reg(rd, wrap32(self.pc + imm)).next(), bus, Ok(())),
            Instruction::Jal { rd, imm } => (RvModel { pc: wrap32(self.pc + imm), ..self.with_reg(rd, wrap32(self.pc + 4)) }, bus, Ok(())),
            Instruction::Jalr { rd, rs1, imm } => (RvModel { pc: wrap32(self.reg(rs1) + imm) & !1u32, ..self.with_reg(rd, wrap32(self.pc + 4)) }, bus, Ok(())),
            Instruction::Beq { rs1, rs2, imm } => (if self.reg(rs1) == self.reg(rs2) { RvModel { pc: wrap32(self.pc + imm), ..self } } else { self.next() }, bus, Ok(())),
            Instruction::Bne { rs1, rs2, imm } => (if self.reg(rs1) != self.reg(rs2) { RvModel { pc: wrap32(self.pc + imm), ..self } } else { self.next() }, bus, Ok(())),
            Instruction::Blt { rs1, rs2, imm } => (if slt(self.reg(rs1), self.reg(rs2)) { RvModel { pc: wrap32(self.pc + imm), ..self } } else { self.next() }, bus, Ok(())),
            Instruction::Bge { rs1, rs2, imm } => (if !slt(self.reg(rs1), self.reg(rs2)) { RvModel { pc: wrap32(self.pc + imm), ..self } } else { self.next() }, bus, Ok(())),
            Instruction::Bltu { rs1, rs2, imm } => (if self.reg(rs1) < self.reg(rs2) { RvModel { pc: wrap32(self.pc + imm), ..self } } else { self.next() }, bus, Ok(())),
            Instruction::Bgeu { rs1, rs2, imm } => (if self.reg(rs1) >= self.reg(rs2) { RvModel { pc: wrap32(self.pc + imm), ..self } } else { self.next() }, bus, Ok(())),
            _ => (self, bus, Ok(())),
        }
    }

    pub open spec fn exec_load_spec(self, bus: BusModel, ins: Instruction) -> (RvModel, BusModel, SimResult<()>) {
        match ins {
            Instruction::Lb { rd, rs1, imm } => {
                let a = wrap32(self.reg(rs1) + imm) as u64;
                match bus.read_u8(a) {
                    Err(e) => (self, bus, Err(e)),
                    Ok(v) => (self.with_reg(rd, sext_byte(v)).next(), bus, Ok(())),
                }
            },
            Instruction::Lh { rd, rs1, imm } => {
                let a = wrap32(self.reg(rs1) + imm) as u64;
                match bus.read_u16(a) {
                    Err(e) => (self, bus, Err(e)),
                    Ok(v) => (self.with_reg(rd, sext_half(v)).next(), bus, Ok(())),
                }
            },
            Instruction::Lw { rd, rs1, imm } => {
                let a = wrap32(self.reg(rs1) + imm) as u64;
                match bus.read_u32(a) {
                    Err(e) => (self, bus, Err(e)),
                    Ok(v) => (self.with_reg(rd, v).next(), bus, Ok(())),
                }
            },
            Instruction::Lbu { rd, rs1, imm } => {
                let a = wrap32(self.reg(rs1) + imm) as u64;
                match bus.read_u8(a) {
                    Err(e) => (self, bus, Err(e)),
                    Ok(v) => (self.with_reg(rd, v as u32).next(), bus, Ok(())),
                }
            },
            Instruction::Lhu { rd, rs1, imm } => {
                let a = wrap32(self.reg(rs1) + imm) as u64;
                match bus.read_u16(a) {
                    Err(e) => (self, bus, Err(e)),
                    Ok(v) => (self.with_reg(rd, v as u32).next(), bus, Ok(())),
                }
            },
            _ => (self, bus, Ok(())),
        }
    }

    pub open spec fn exec_store_spec(self, bus: BusModel, ins: Instruction) -> (RvModel, BusModel, SimResult<()>) {
        match ins {
            Instruction::Sb { rs1, rs2, imm } => {
                let a = wrap32(self.reg(rs1) + imm) as u64;
                let (r, b) = bus.write_u8(a, (self.reg(rs2) & 0xFF) as u8);
                match r {
                    Err(e) => (self, b, Err(e)),
                    Ok(_) => (self.next(), b, Ok(())),
                }
            },
            Instruction::Sh { rs1, rs2, imm } => {
                let a = wrap32(self.reg(rs1) + imm) as u64;
                let (r, b) = bus.write_u16(a, (self.reg(rs2) & 0xFFFF) as u16);
                match r {
                    Err(e) => (self, b, Err(e)),
                    Ok(_) => (self.next(), b, Ok(())),
                }
            },
            Instruction::Sw { rs1, rs2, imm } => {
                let a = wrap32(self.reg(rs1) + imm) as u64;
                let (r, b) = bus.write_u32(a, self.reg(rs2));
                match r {
                    Err(e) => (self, b, Err(e)),
                    Ok(_) => (self.next(), b, Ok(())),
                }
            },
            _ => (self, bus, Ok(())),
        }
    }

    pub open spec fn exec_imm_spec(self, bus: BusModel, ins: Instruction) -> (RvModel, BusModel, SimResult<()>) {
        match ins {
            Instruction::Addi { rd, rs1, imm } => (self.with_reg(rd, wrap32(self.reg(rs1) + imm)).next(), bus, Ok(())),
            Instruction::Slti { rd, rs1, imm } => (self.with_reg(rd, if slt(self.reg(rs1), wrap32(imm as int)) { 1u32 } else { 0u32 }).next(), bus, Ok(())),
            Instruction::Sltiu { rd, rs1, imm } => (self.with_reg(rd, if self.reg(rs1) < wrap32(imm as int) { 1u32 } else { 0u32 }).next(), bus, Ok(())),
            Instruction::Xori { rd, rs1, imm } => (self.with_reg(rd, self.reg(rs1) ^ wrap32(imm as int)).next(), bus, Ok(())),
            Instruction::Ori { rd, rs1, imm } => (self.with_reg(rd, self.reg(rs1) | wrap32(imm as int)).next(), bus, Ok(())),
            Instruction::Andi { rd, rs1, imm } => (self.with_reg(rd, self.reg(rs1) & wrap32(imm as int)).next(), bus, Ok(())),
            Instruction::Slli { rd, rs1, shamt } => (self.with_reg(rd, if shamt < 32 { self.reg(rs1) << shamt } else { 0 }).next(), bus, Ok(())),
            Instruction::Srli { rd, rs1, shamt } => (self.with_reg(rd, if shamt < 32 { self.reg(rs1) >> shamt } else { 0 }).next(), bus, Ok(())),
            Instruction::Srai { rd, rs1, shamt } => (self.with_reg(rd, if shamt < 32 { asr32(self.reg(rs1), shamt) } else { 0 }).next(), bus, Ok(())),
            _ => (self, bus, Ok(())),
        }
    }

    pub open spec fn exec_reg_spec(self, bus: BusModel, ins: Instruction) -> (RvModel, BusModel, SimResult<()>) {
        match ins {
            Instruction::Add { rd, rs1, rs2 } => (self.with_reg(rd, wrap32(self.reg(rs1) + self.reg(rs2))).next(), bus, Ok(())),
            Instruction::Sub { rd, rs1, rs2 } => (self.with_reg(rd, wrap32(self.reg(rs1) - self.reg(rs2))).next(), bus, Ok(())),
            Instruction::Sll { rd, rs1, rs2 } => (self.with_reg(rd, self.reg(rs1) << (self.reg(rs2) & 0x1F)).next(), bus, Ok(())),
            Instruction::Slt { rd, rs1, rs2 } => (self.with_reg(rd, if slt(self.reg(rs1), self.reg(rs2)) { 1u32 } else { 0u32 }).next(), bus, Ok(())),
            Instruction::Sltu { rd, rs1, rs2 } => (self.with_reg(rd, if self.reg(rs1) < self.reg(rs2) { 1u32 } else { 0u32 }).next(), bus, Ok(())),
            Instruction::Xor { rd, rs1, rs2 } => (self.with_reg(rd, self.reg(rs1) ^ self.reg(rs2)).next(), bus, Ok(())),
            Instruction::Srl { rd, rs1, rs2 } => (self.with_reg(rd, self.reg(rs1) >> (self.reg(rs2) & 0x1F)).next(), bus, Ok(())),
            Instruction::Sra { rd, rs1, rs2 } => (self.with_reg(rd, asr32(self.reg(rs1), self.reg(rs2) & 0x1F)).next(), bus, Ok(())),
            Instruction::Or { rd, rs1, rs2 } => (self.with_reg(rd, self.reg(rs1) | self.reg(rs2)).next(), bus, Ok(())),
            Instruction::And { rd, rs1, rs2 } => (self.with_reg(rd, self.reg(rs1) & self.reg(rs2)).next(), bus, Ok(())),
            _ => (self, bus, Ok(())),
        }
    }

    /// Executes one instruction; an unknown one is a decode error at the PC and changes nothing.
    pub open spec fn exec_spec(self, bus: BusModel, ins: Instruction) -> (RvModel, BusModel, SimResult<()>) {
        match ins {
            Instruction::Lui { .. } | Instruction::Auipc { .. } | Instruction::Jal { .. } | Instruction::Jalr { .. } | Instruction::Beq { .. } | Instruction::Bne { .. } | Instruction::Blt { .. } | Instruction::Bge { .. } | Instruction::Bltu { .. } | Instruction::Bgeu { .. } => self.exec_control_spec(bus, ins),
            Instruction::Lb { .. } | Instruction::Lh { .. } | Instruction::Lw { .. } | Instruction::Lbu { .. } | Instruction::Lhu { .. } => self.exec_load_spec(bus, ins),
            Instruction::Sb { .. } | Instruction::Sh { .. } | Instruction::Sw { .. } => self.exec_store_spec(bus, ins),
            Instruction::Addi { .. } | Instruction::Slti { .. } | Instruction::Sltiu { .. } | Instruction::Xori { .. } | Instruction::Ori { .. } | Instruction::Andi { .. } | Instruction::Slli { .. } | Instruction::Srli { .. } | Instruction::Srai { .. } => self.exec_imm_spec(bus, ins),
            Instruction::Add { .. } | Instruction::Sub { .. } | Instruction::Sll { .. } | Instruction::Slt { .. } | Instruction::Sltu { .. } | Instruction::Xor { .. } | Instruction::Srl { .. } | Instruction::Sra { .. } | Instruction::Or { .. } | Instruction::And { .. } => self.exec_reg_spec(bus, ins),
            Instruction::Fence | Instruction::Ecall | Instruction::Ebreak => (self.next(), bus, Ok(())),
            Instruction::Unknown(_) => (self, bus, Err(SimulationError::DecodeError(self.pc as u64))),
        }
    }

    /// One step: fetch the word at PC, decode, execute.
    pub open spec fn step_spec(self, bus: BusModel) -> (RvModel, BusModel, SimResult<()>) {
        match bus.read_u32(self.pc as u64) {
            Err(e) => (self, bus, Err(e)),
            Ok(op) => self.exec_spec(bus, decode_rv32_spec(op)),
        }
    }
}

impl RiscV {
    pub fn new() -> (r: Self)
        ensures
            r@.pc == 0,
            forall|i: int| 0 <= i < 32 ==> r@.x[i] == 0,
    {
        RiscV { x: [0u32; 32], pc: 0 }
    }

    /// The usual RISC-V reset vector.
    pub fn reset(&mut self)
        ensures
            final(self)@ == (RvModel { pc: 0x8000_0000, ..old(self)@ }),
    {
        self.pc = 0x8000_0000;
    }

    pub fn read_reg(&self, n: u8) -> (r: u32)
        ensures
            r == self@.reg(n),
    {
        if n == 0 || n >= 32 {
            0
        } else {
            self.x[n as usize]
        }
    }

    pub fn write_reg(&mut self, n: u8, v: u32)
        ensures
            final(self)@ == old(self)@.with_reg(n, v),
    {
        if n != 0 && n < 32 {
            self.x[n as usize] = v;
        }
        assert(final(self)@.x =~= old(self)@.with_reg(n, v).x);
    }

    pub fn get_pc(&self) -> (r: u32)
        ensures
            r == self.pc,
    {
        self.pc
    }

    pub fn set_pc(&mut self, v: u32)
        ensures
            final(self)@ == (RvModel { pc: v, ..old(self)@ }),
    {
        self.pc = v;
    }

    /// SP is x2.
    pub fn set_sp(&mut self, v: u32)
        ensures
            final(self)@ == old(self)@.with_reg(2, v),
    {
        self.write_reg(2, v);
    }

    fn execute_control(&mut self, bus: &mut SystemBus, ins: Instruction) -> (r: SimResult<()>)
        requires
            ins is Lui || ins is Auipc || ins is Jal || ins is Jalr || ins is Beq || ins is Bne || ins is Blt || ins is Bge || ins is Bltu || ins is Bgeu,
        ensures
            (final(self)@, final(bus)@, r) == old(self)@.exec_control_spec(old(bus)@, ins),
    {
        match ins {
            Instruction::Lui { rd, imm } => {
                self.write_reg(rd, imm);
                self.pc = add_wrap(self.pc, 4);
            },
            Instruction::Auipc { rd, imm } => {
                let v = add_wrap(self.pc, imm);
                self.write_reg(rd, v);
                self.pc = add_wrap(self.pc, 4);
            },
            Instruction::Jal { rd, imm } => {
                let target = add_signed(self.pc, imm);
                let link = add_wrap(self.pc, 4);
                self.write_reg(rd, link);
                self.pc = target;
            },
            Instruction::Jalr { rd, rs1, imm } => {
                let target = add_signed(self.read_reg(rs1), imm) & !1u32;
                let link = add_wrap(self.pc, 4);
                self.write_reg(rd, link);
                self.pc = target;
            },
            Instruction::Beq { rs1, rs2, imm } => {
                if self.read_reg(rs1) == self.read_reg(rs2) {
                    self.pc = add_signed(self.pc, imm);
                } else {
                    self.pc = add_wrap(self.pc, 4);
                }
            },
            Instruction::Bne { rs1, rs2, imm } => {
                if self.read_reg(rs1) != self.read_reg(rs2) {
                    self.pc = add_signed(self.pc, imm);
                } else {
                    self.pc = add_wrap(self.pc, 4);
                }
            },
            Instruction::Blt { rs1, rs2, imm } => {
                if signed_lt(self.read_reg(rs1), self.read_reg(rs2)) {
                    self.pc = add_signed(self.pc, imm);
                } else {
                    self.pc = add_wrap(self.pc, 4);
                }
            },
            Instruction::Bge { rs1, rs2, imm } => {
                if !signed_lt(self.read_reg(rs1), self.read_reg(rs2)) {
                    self.pc = add_signed(self.pc, imm);
                } else {
                    self.pc = add_wrap(self.pc, 4);
                }
            },
            Instruction::Bltu { rs1, rs2, imm } => {
                if self.read_reg(rs1) < self.read_reg(rs2) {
                    self.pc = add_signed(self.pc, imm);
                } else {
                    self.pc = add_wrap(self.pc, 4);
                }
            },
            Instruction::Bgeu { rs1, rs2, imm } => {
                if self.read_reg(rs1) >= self.read_reg(rs2) {
                    self.pc = add_signed(self.pc, imm);
                } else {
                    self.pc = add_wrap(self.pc, 4);
                }
            },
            _ => {},
        }
        Ok(())
    }

    fn execute_load(&mut self, bus: &mut SystemBus, ins: Instruction) -> (r: SimResult<()>)
        requires
            ins is Lb || ins is Lh || ins is Lw || ins is Lbu || ins is Lhu,
        ensures
            (final(self)@, final(bus)@, r) == old(self)@.exec_load_spec(old(bus)@, ins),
    {
        match ins {
            Instruction::Lb { rd, rs1, imm } => {
                let a = add_signed(self.read_reg(rs1), imm) as u64;
                let v = bus.read_u8(a)?;
                self.write_reg(rd, sext_byte_exec(v));
                self.pc = add_wrap(self.pc, 4);
            },
            Instruction::Lh { rd, rs1, imm } => {
                let a = add_signed(self.read_reg(rs1), imm) as u64;
                let v = bus.read_u16(a)?;
                self.write_reg(rd, sext_half_exec(v));
                self.pc = add_wrap(self.pc, 4);
            },
            Instruction::Lw { rd, rs1, imm } => {
                let a = add_signed(self.read_reg(rs1), imm) as u64;
                let v = bus.read_u32(a)?;
                self.write_reg(rd, v);
                self.pc = add_wrap(self.pc, 4);
            },
            Instruction::Lbu { rd, rs1, imm } => {
                let a = add_signed(self.read_reg(rs1), imm) as u64;
                let v = bus.read_u8(a)?;
                self.write_reg(rd, v as u32);
                self.pc = add_wrap(self.pc, 4);
            },
            Instruction::Lhu { rd, rs1, imm } => {
                let a = add_signed(self.read_reg(rs1), imm) as u64;
                let v = bus.read_u16(a)?;
                self.write_reg(rd, v as u32);
                self.pc = add_wrap(self.pc, 4);
            },
            _ => {},
        }
        Ok(())
    }

    fn execute_store(&mut self, bus: &mut SystemBus, ins: Instruction) -> (r: SimResult<()>)
        requires
            ins is Sb || ins is Sh || ins is Sw,
        ensures
            (final(self)@, final(bus)@, r) == old(self)@.exec_store_spec(old(bus)@, ins),
    {
        match ins {
            Instruction::Sb { rs1, rs2, imm } => {
                let a = add_signed(self.read_reg(rs1), imm) as u64;
                bus.write_u8(a, (self.read_reg(rs2) & 0xFF) as u8)?;
                self.pc = add_wrap(self.pc, 4);
            },
            Instruction::Sh { rs1, rs2, imm } => {
                let a = add_signed(self.read_reg(rs1), imm) as u64;
                bus.write_u16(a, (self.read_reg(rs2) & 0xFFFF) as u16)?;
                self.pc = add_wrap(self.pc, 4);
            },
            Instruction::Sw { rs1, rs2, imm } => {
                let a = add_signed(self.read_reg(rs1), imm) as u64;
                bus.write_u32(a, self.read_reg(rs2))?;
                self.pc = add_wrap(self.pc, 4);
            },
            _ => {},
        }
        Ok(())
    }

    fn execute_imm(&mut self, bus: &mut SystemBus, ins: Instruction) -> (r: SimResult<()>)
        requires
            ins is Addi || ins is Slti || ins is Sltiu || ins is Xori || ins is Ori || ins is Andi || ins is Slli || ins is Srli || ins is Srai,
        ensures
            (final(self)@, final(bus)@, r) == old(self)@.exec_imm_spec(old(bus)@, ins),
    {
        match ins {
            Instruction::Addi { rd, rs1, imm } => {
                let v = add_signed(self.read_reg(rs1), imm);
                self.write_reg(rd, v);
                self.pc = add_wrap(self.pc, 4);
            },
            Instruction::Slti { rd, rs1, imm } => {
                let v = if signed_lt(self.read_reg(rs1), to_u32(imm)) { 1u32 } else { 0u32 };
                self.write_reg(rd, v);
                self.pc = add_wrap(self.pc, 4);
            },
            Instruction::Sltiu { rd, rs1, imm } => {
                let v = if self.read_reg(rs1) < to_u32(imm) { 1u32 } else { 0u32 };
                self.write_reg(rd, v);
                self.pc = add_wrap(self.pc, 4);
            },
            Instruction::Xori { rd, rs1, imm } => {
                let v = self.read_reg(rs1) ^ to_u32(imm);
                self.write_reg(rd, v);
                self.pc = add_wrap(self.pc, 4);
            },
            Instruction::Ori { rd, rs1, imm } => {
                let v = self.read_reg(rs1) | to_u32(imm);
                self.write_reg(rd, v);
                self.pc = add_wrap(self.pc, 4);
            },
            Instruction::Andi { rd, rs1, imm } => {
                let v = self.read_reg(rs1) & to_u32(imm);
                self.write_reg(rd, v);
                self.pc = add_wrap(self.pc, 4);
            },
            Instruction::Slli { rd, rs1, shamt } => {
                let v = if shamt < 32 { self.read_reg(rs1) << shamt } else { 0 };
                self.write_reg(rd, v);
                self.pc = add_wrap(self.pc, 4);
            },
            Instruction::Srli { rd, rs1, shamt } => {
                let v = if shamt < 32 { self.read_reg(rs1) >> shamt } else { 0 };
                self.write_reg(rd, v);
                self.pc = add_wrap(self.pc, 4);
            },
            Instruction::Srai { rd, rs1, shamt } => {
                let v = if shamt < 32 { asr_exec(self.read_reg(rs1), shamt) } else { 0 };
                self.write_reg(rd, v);
                self.pc = add_wrap(self.pc, 4);
            },
            _ => {},
        }
        Ok(())
    }

    fn execute_reg(&mut self, bus: &mut SystemBus, ins: Instruction) -> (r: SimResult<()>)
        requires
            ins is Add || ins is Sub || ins is Sll || ins is Slt || ins is Sltu || ins is Xor || ins is Srl || ins is Sra || ins is Or || ins is And,
        ensures
            (final(self)@, final(bus)@, r) == old(self)@.exec_reg_spec(old(bus)@, ins),
    {
        match ins {
            Instruction::Add { rd, rs1, rs2 } => {
                let v = add_wrap(self.read_reg(rs1), self.read_reg(rs2));
                self.write_reg(rd, v);
                self.pc = add_wrap(self.pc, 4);
            },
            Instruction::Sub { rd, rs1, rs2 } => {
                let v = sub_wrap(self.read_reg(rs1), self.read_reg(rs2));
                self.write_reg(rd, v);
                self.pc = add_wrap(self.pc, 4);
            },
            Instruction::Sll { rd, rs1, rs2 } => {
                let v = self.read_reg(rs1) << shamt_of(self.read_reg(rs2));
                self.write_reg(rd, v);
                self.pc = add_wrap(self.pc, 4);
            },
            Instruction::Slt { rd, rs1, rs2 } => {
                let v = if signed_lt(self.read_reg(rs1), self.read_reg(rs2)) { 1u32 } else { 0u32 };
                self.write_reg(rd, v);
                self.pc = add_wrap(self.pc, 4);
            },
            Instruction::Sltu { rd, rs1, rs2 } => {
                let v = if self.read_reg(rs1) < self.read_reg(rs2) { 1u32 } else { 0u32 };
                self.write_reg(rd, v);
                self.pc = add_wrap(self.pc, 4);
            },
            Instruction::Xor { rd, rs1, rs2 } => {
                let v = self.read_reg(rs1) ^ self.read_reg(rs2);
                self.write_reg(rd, v);
                self.pc = add_wrap(self.pc, 4);
            },
            Instruction::Srl { rd, rs1, rs2 } => {
                let v = self.read_reg(rs1) >> shamt_of(self.read_reg(rs2));
                self.write_reg(rd, v);
                self.pc = add_wrap(self.pc, 4);
            },
            Instruction::Sra { rd, rs1, rs2 } => {
                let v = asr_exec(self.read_reg(rs1), shamt_of(self.read_reg(rs2)));
                self.write_reg(rd, v);
                self.pc = add_wrap(self.pc, 4);
            },
            Instruction::Or { rd, rs1, rs2 } => {
                let v = self.read_reg(rs1) | self.read_reg(rs2);
                self.write_reg(rd, v);
                self.pc = add_wrap(self.pc, 4);
            },
            Instruction::And { rd, rs1, rs2 } => {
                let v = self.read_reg(rs1) & self.read_reg(rs2);
                self.write_reg(rd, v);
                self.pc = add_wrap(self.pc, 4);
            },
            _ => {},
        }
        Ok(())
    }

    /// Executes one decoded instruction.
    pub fn execute(&mut self, bus: &mut SystemBus, ins: Instruction) -> (r: SimResult<()>)
        ensures
            (final(self)@, final(bus)@, r) == old(self)@.exec_spec(old(bus)@, ins),
    {
        match ins {
            Instruction::Lui { .. } | Instruction::Auipc { .. } | Instruction::Jal { .. } | Instruction::Jalr { .. } | Instruction::Beq { .. } | Instruction::Bne { .. } | Instruction::Blt { .. } | Instruction::Bge { .. } | Instruction::Bltu { .. } | Instruction::Bgeu { .. } => self.execute_control(bus, ins),
            Instruction::Lb { .. } | Instruction::Lh { .. } | Instruction::Lw { .. } | Instruction::Lbu { .. } | Instruction::Lhu { .. } => self.execute_load(bus, ins),
            Instruction::Sb { .. } | Instruction::Sh { .. } | Instruction::Sw { .. } => self.execute_store(bus, ins),
            Instruction::Addi { .. } | Instruction::Slti { .. } | Instruction::Sltiu { .. } | Instruction::Xori { .. } | Instruction::Ori { .. } | Instruction::Andi { .. } | Instruction::Slli { .. } | Instruction::Srli { .. } | Instruction::Srai { .. } => self.execute_imm(bus, ins),
            Instruction::Add { .. } | Instruction::Sub { .. } | Instruction::Sll { .. } | Instruction::Slt { .. } | Instruction::Sltu { .. } | Instruction::Xor { .. } | Instruction::Srl { .. } | Instruction::Sra { .. } | Instruction::Or { .. } | Instruction::And { .. } => self.execute_reg(bus, ins),
            Instruction::Fence | Instruction::Ecall | Instruction::Ebreak => {
                self.pc = add_wrap(self.pc, 4);
                Ok(())
            },
            Instruction::Unknown(_) => Err(SimulationError::DecodeError(self.pc as u64)),
        }
    }

    /// Fetches, decodes and executes one instruction.
    pub fn step(&mut self, bus: &mut SystemBus) -> (r: SimResult<()>)
        ensures
            (final(self)@, final(bus)@, r) == old(self)@.step_spec(old(bus)@),
    {
        let op = bus.read_u32(self.pc as u64)?;
        let ins = decode_rv32(op);
        self.execute(bus, ins)
    }
}

} // verus!
