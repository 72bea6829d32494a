use vstd::prelude::*;

verus! {

/// A decoded Thumb instruction. Register fields hold register numbers; `imm` fields
/// hold the immediate already scaled as the instruction uses it; branch offsets are
/// signed byte offsets relative to the instruction address plus 4.
#[derive(Debug, Clone, Copy, PartialEq, Eq, Structural)]
pub enum Instruction {
    Nop,
    MovImm { rd: u8, imm: u8 },
    CmpImm { rn: u8, imm: u8 },
    AddImm8 { rd: u8, imm: u8 },
    SubImm8 { rd: u8, imm: u8 },
    AddReg { rd: u8, rn: u8, rm: u8 },
    SubReg { rd: u8, rn: u8, rm: u8 },
    AddImm3 { rd: u8, rn: u8, imm: u8 },
    SubImm3 { rd: u8, rn: u8, imm: u8 },
    And { rd: u8, rm: u8 },
    Orr { rd: u8, rm: u8 },
    Eor { rd: u8, rm: u8 },
    Mvn { rd: u8, rm: u8 },
    CmpReg { rn: u8, rm: u8 },
    Lsl { rd: u8, rm: u8, imm: u8 },
    Lsr { rd: u8, rm: u8, imm: u8 },
    Asr { rd: u8, rm: u8, imm: u8 },
    LdrImm { rt: u8, rn: u8, imm: u8 },
    StrImm { rt: u8, rn: u8, imm: u8 },
    LdrbImm { rt: u8, rn: u8, imm: u8 },
    StrbImm { rt: u8, rn: u8, imm: u8 },
    LdrLit { rt: u8, imm: u16 },
    LdrSp { rt: u8, imm: u16 },
    StrSp { rt: u8, imm: u16 },
    Push { registers: u8, m: bool },
    Pop { registers: u8, p: bool },
    Branch { offset: i32 },
    BranchCond { cond: u8, offset: i32 },
    Bx { rm: u8 },
    CpsId,
    CpsIe,
    AddSpImm { imm: u16 },
    SubSpImm { imm: u16 },
    MovRegHi { rd: u8, rm: u8 },
    AddRegHi { rd: u8, rm: u8 },
    /// The first halfword of a 32-bit instruction; the second must be fetched.
    Prefix32(u16),
    Bl { offset: i32 },
    Movw { rd: u8, imm: u16 },
    Movt { rd: u8, imm: u16 },
    Unknown(u16),
}

/// `v` read as a signed `bits`-bit number.
pub open spec fn sign_extend(v: int, bits: nat) -> int {
    if v >= pow2((bits - 1) as nat) {
        v - pow2(bits)
    } else {
        v
    }
}

pub open spec fn pow2(n: nat) -> int
    decreases n,
{
    if n == 0 {
        1
    } else {
        2 * pow2((n - 1) as nat)
    }
}

/// The 16-bit Thumb encodings this core understands.
pub open spec fn decode16(op: u16) -> Instruction {
    let lo3 = (op & 0x7) as u8;
    let mid3 = ((op >> 3u16) & 0x7) as u8;
    let hi3 = ((op >> 8u16) & 0x7) as u8;
    let imm5 = ((op >> 6u16) & 0x1F) as u8;
    if op & 0xE000 == 0x0000 && op & 0x1800 != 0x1800 {
        let kind = (op >> 11u16) & 0x3;
        if kind == 0 {
            Instruction::Lsl { rd: lo3, rm: mid3, imm: imm5 }
        } else if kind == 1 {
            Instruction::Lsr { rd: lo3, rm: mid3, imm: imm5 }
        } else {
            Instruction::Asr { rd: lo3, rm: mid3, imm: imm5 }
        }
    } else if op & 0xF800 == 0x1800 {
        let kind = (op >> 9u16) & 0x3;
        let rm = ((op >> 6u16) & 0x7) as u8;
        if kind == 0 {
            Instruction::AddReg { rd: lo3, rn: mid3, rm }
        } else if kind == 1 {
            Instruction::SubReg { rd: lo3, rn: mid3, rm }
        } else if kind == 2 {
            Instruction::AddImm3 { rd: lo3, rn: mid3, imm: rm }
        } else {
            Instruction::SubImm3 { rd: lo3, rn: mid3, imm: rm }
        }
    } else if op & 0xE000 == 0x2000 {
        let kind = (op >> 11u16) & 0x3;
        let imm = (op & 0xFF) as u8;
        if kind == 0 {
            Instruction::MovImm { rd: hi3, imm }
        } else if kind == 1 {
            Instruction::CmpImm { rn: hi3, imm }
        } else if kind == 2 {
            Instruction::AddImm8 { rd: hi3, imm }
        } else {
            Instruction::SubImm8 { rd: hi3, imm }
        }
    } else if op & 0xFC00 == 0x4000 {
        let kind = (op >> 6u16) & 0xF;
        if kind == 0x0 {
            Instruction::And { rd: lo3, rm: mid3 }
        } else if kind == 0x1 {
            Instruction::Eor { rd: lo3, rm: mid3 }
        } else if kind == 0xA {
            Instruction::CmpReg { rn: lo3, rm: mid3 }
        } else if kind == 0xC {
            Instruction::Orr { rd: lo3, rm: mid3 }
        } else if kind == 0xF {
            Instruction::Mvn { rd: lo3, rm: mid3 }
        } else {
            Instruction::Unknown(op)
        }
    } else if op & 0xFC00 == 0x4400 {
        let kind = (op >> 8u16) & 0x3;
        let rd = (((op >> 4u16) & 0x8) | (op & 0x7)) as u8;
        let rm = ((op >> 3u16) & 0xF) as u8;
        if kind == 0 {
            Instruction::AddRegHi { rd, rm }
        } else if kind == 2 {
            Instruction::MovRegHi { rd, rm }
        } else if kind == 3 && op & 0x0087 == 0 {
            Instruction::Bx { rm }
        } else {
            Instruction::Unknown(op)
        }
    } else if op & 0xF800 == 0x4800 {
        Instruction::LdrLit { rt: hi3, imm: ((op & 0xFF) << 2u16) as u16 }
    } else if op & 0xF000 == 0x6000 {
        if op & 0x0800 != 0 {
            Instruction::LdrImm { rt: lo3, rn: mid3, imm: (imm5 * 4) as u8 }
        } else {
            Instruction::StrImm { rt: lo3, rn: mid3, imm: (imm5 * 4) as u8 }
        }
    } else if op & 0xF000 == 0x7000 {
        if op & 0x0800 != 0 {
            Instruction::LdrbImm { rt: lo3, rn: mid3, imm: imm5 }
        } else {
            Instruction::StrbImm { rt: lo3, rn: mid3, imm: imm5 }
        }
    } else if op & 0xF000 == 0x9000 {
        if op & 0x0800 != 0 {
            Instruction::LdrSp { rt: hi3, imm: ((op & 0xFF) << 2u16) as u16 }
        } else {
            Instruction::StrSp { rt: hi3, imm: ((op & 0xFF) << 2u16) as u16 }
        }
    } else if op & 0xFF80 == 0xB000 {
        Instruction::AddSpImm { imm: ((op & 0x7F) << 2u16) as u16 }
    } else if op & 0xFF80 == 0xB080 {
        Instruction::SubSpImm { imm: ((op & 0x7F) << 2u16) as u16 }
    } else if op & 0xFE00 == 0xB400 {
        Instruction::Push { registers: (op & 0xFF) as u8, m: op & 0x0100 != 0 }
    } else if op & 0xFE00 == 0xBC00 {
        Instruction::Pop { registers: (op & 0xFF) as u8, p: op & 0x0100 != 0 }
    } else if op == 0xB672 {
        Instruction::CpsId
    } else if op == 0xB662 {
        Instruction::CpsIe
    } else if op == 0xBF00 {
        Instruction::Nop
    } else if op & 0xF000 == 0xD000 && op & 0x0F00 < 0x0E00 {
        Instruction::BranchCond {
            cond: ((op >> 8u16) & 0xF) as u8,
            offset: (2 * sign_extend((op & 0xFF) as int, 8)) as i32,
        }
    } else if op & 0xF800 == 0xE000 {
        Instruction::Branch { offset: (2 * sign_extend((op & 0x7FF) as int, 11)) as i32 }
    } else if op & 0xE000 == 0xE000 {
        Instruction::Prefix32(op)
    } else {
        Instruction::Unknown(op)
    }
}

/// Decodes one 16-bit Thumb halfword. The first halfword of a 32-bit instruction
/// comes back as `Prefix32`; `decode_thumb_32` then takes both halves.
pub fn decode_thumb_16(op: u16) -> (r: Instruction)
    ensures
        r == decode16(op),
{
    proof {
        reveal_with_fuel(pow2, 12);
    }
    let lo3 = (op & 0x7) as u8;
    let mid3 = ((op >> 3u16) & 0x7) as u8;
    let hi3 = ((op >> 8u16) & 0x7) as u8;
    let imm5 = ((op >> 6u16) & 0x1F) as u8;
    assert((op >> 6u16) & 0x1F <= 31) by (bit_vector);
    assert(op & 0xFF < 256 && op & 0x7FF < 2048) by (bit_vector);
    if op & 0xE000 == 0x0000 && op & 0x1800 != 0x1800 {
        let kind = (op >> 11u16) & 0x3;
        if kind == 0 {
            Instruction::Lsl { rd: lo3, rm: mid3, imm: imm5 }
        } else if kind == 1 {
            Instruction::Lsr { rd: lo3, rm: mid3, imm: imm5 }
        } else {
            Instruction::Asr { rd: lo3, rm: mid3, imm: imm5 }
        }
    } else if op & 0xF800 == 0x1800 {
        let kind = (op >> 9u16) & 0x3;
        let rm = ((op >> 6u16) & 0x7) as u8;
        if kind == 0 {
            Instruction::AddReg { rd: lo3, rn: mid3, rm }
        } else if kind == 1 {
            Instruction::SubReg { rd: lo3, rn: mid3, rm }
        } else if kind == 2 {
            Instruction::AddImm3 { rd: lo3, rn: mid3, imm: rm }
        } else {
            Instruction::SubImm3 { rd: lo3, rn: mid3, imm: rm }
        }
    } else if op & 0xE000 == 0x2000 {
        let kind = (op >> 11u16) & 0x3;
        let imm = (op & 0xFF) as u8;
        if kind == 0 {
            Instruction::MovImm { rd: hi3, imm }
        } else if kind == 1 {
            Instruction::CmpImm { rn: hi3, imm }
        } else if kind == 2 {
            Instruction::AddImm8 { rd: hi3, imm }
        } else {
            Instruction::SubImm8 { rd: hi3, imm }
        }
    } else if op & 0xFC00 == 0x4000 {
        let kind = (op >> 6u16) & 0xF;
        if kind == 0x0 {
            Instruction::And { rd: lo3, rm: mid3 }
        } else if kind == 0x1 {
            Instruction::Eor { rd: lo3, rm: mid3 }
        } else if kind == 0xA {
            Instruction::CmpReg { rn: lo3, rm: mid3 }
        } else if kind == 0xC {
            Instruction::Orr { rd: lo3, rm: mid3 }
        } else if kind == 0xF {
            Instruction::Mvn { rd: lo3, rm: mid3 }
        } else {
            Instruction::Unknown(op)
        }
    } else if op & 0xFC00 == 0x4400 {
        let kind = (op >> 8u16) & 0x3;
        let rd = (((op >> 4u16) & 0x8) | (op & 0x7)) as u8;
        let rm = ((op >> 3u16) & 0xF) as u8;
        if kind == 0 {
            Instruction::AddRegHi { rd, rm }
        } else if kind == 2 {
            Instruction::MovRegHi { rd, rm }
        } else if kind == 3 && op & 0x0087 == 0 {
            Instruction::Bx { rm }
        } else {
            Instruction::Unknown(op)
        }
    } else if op & 0xF800 == 0x4800 {
        Instruction::LdrLit { rt: hi3, imm: ((op & 0xFF) << 2u16) as u16 }
    } else if op & 0xF000 == 0x6000 {
        if op & 0x0800 != 0 {
            Instruction::LdrImm { rt: lo3, rn: mid3, imm: imm5 * 4 }
        } else {
            Instruction::StrImm { rt: lo3, rn: mid3, imm: imm5 * 4 }
        }
    } else if op & 0xF000 == 0x7000 {
        if op & 0x0800 != 0 {
            Instruction::LdrbImm { rt: lo3, rn: mid3, imm: imm5 }
        } else {
            Instruction::StrbImm { rt: lo3, rn: mid3, imm: imm5 }
        }
    } else if op & 0xF000 == 0x9000 {
        if op & 0x0800 != 0 {
            Instruction::LdrSp { rt: hi3, imm: ((op & 0xFF) << 2u16) as u16 }
        } else {
            Instruction::StrSp { rt: hi3, imm: ((op & 0xFF) << 2u16) as u16 }
        }
    } else if op & 0xFF80 == 0xB000 {
        Instruction::AddSpImm { imm: ((op & 0x7F) << 2u16) as u16 }
    } else if op & 0xFF80 == 0xB080 {
        Instruction::SubSpImm { imm: ((op & 0x7F) << 2u16) as u16 }
    } else if op & 0xFE00 == 0xB400 {
        Instruction::Push { registers: (op & 0xFF) as u8, m: op & 0x0100 != 0 }
    } else if op & 0xFE00 == 0xBC00 {
        Instruction::Pop { registers: (op & 0xFF) as u8, p: op & 0x0100 != 0 }
    } else if op == 0xB672 {
        Instruction::CpsId
    } else if op == 0xB662 {
        Instruction::CpsIe
    } else if op == 0xBF00 {
        Instruction::Nop
    } else if op & 0xF000 == 0xD000 && op & 0x0F00 < 0x0E00 {
        Instruction::BranchCond {
            cond: ((op >> 8u16) & 0xF) as u8,
            offset: 2 * sext8((op & 0xFF) as i32),
        }
    } else if op & 0xF800 == 0xE000 {
        Instruction::Branch { offset: 2 * sext11((op & 0x7FF) as i32) }
    } else if op & 0xE000 == 0xE000 {
        Instruction::Prefix32(op)
    } else {
        Instruction::Unknown(op)
    }
}

fn sext8(v: i32) -> (r: i32)
    requires
        0 <= v < 256,
    ensures
        r == sign_extend(v as int, 8),
        -128 <= r < 128,
{
    proof {
        reveal_with_fuel(pow2, 9);
    }
    if v >= 128 {
        v - 256
    } else {
        v
    }
}

fn sext11(v: i32) -> (r: i32)
    requires
        0 <= v < 2048,
    ensures
        r == sign_extend(v as int, 11),
        -1024 <= r < 1024,
{
    proof {
        reveal_with_fuel(pow2, 12);
    }
    if v >= 1024 {
        v - 2048
    } else {
        v
    }
}

/// The BL offset `S:I1:I2:imm10:imm11:0`, with `I1 = !(J1 ^ S)` and `I2 = !(J2 ^ S)`, as unsigned bits.
pub open spec fn bl_offset_bits(h1: u16, h2: u16) -> u32 {
    let s = ((h1 >> 10u16) & 1) as u32;
    let j1 = ((h2 >> 13u16) & 1) as u32;
    let j2 = ((h2 >> 11u16) & 1) as u32;
    let i1 = 1 - (j1 ^ s);
    let i2 = 1 - (j2 ^ s);
    (s << 24u32) | ((i1 as u32) << 23u32) | ((i2 as u32) << 22u32) | (((h1 & 0x3FF) as u32) << 12u32)
        | (((h2 & 0x7FF) as u32) << 1u32)
}

/// `imm4:i:imm3:imm8` of a MOVW or MOVT.
pub open spec fn mov_imm16(h1: u16, h2: u16) -> u16 {
    ((h1 & 0xF) << 12u16) | (((h1 >> 10u16) & 1) << 11u16) | (((h2 >> 12u16) & 0x7) << 8u16) | (h2 & 0xFF)
}

/// The 32-bit forms this core understands; anything else is `Unknown(h1)`.
pub open spec fn decode32(h1: u16, h2: u16) -> Instruction {
    if h1 & 0xF800 == 0xF000 && h2 & 0xD000 == 0xD000 {
        Instruction::Bl { offset: sign_extend(bl_offset_bits(h1, h2) as int, 25) as i32 }
    } else if h1 & 0xFBF0 == 0xF240 && h2 & 0x8000 == 0 {
        Instruction::Movw { rd: ((h2 >> 8u16) & 0xF) as u8, imm: mov_imm16(h1, h2) }
    } else if h1 & 0xFBF0 == 0xF2C0 && h2 & 0x8000 == 0 {
        Instruction::Movt { rd: ((h2 >> 8u16) & 0xF) as u8, imm: mov_imm16(h1, h2) }
    } else {
        Instruction::Unknown(h1)
    }
}

/// Decodes a 32-bit Thumb instruction from its two halfwords.
pub fn decode_thumb_32(h1: u16, h2: u16) -> (r: Instruction)
    ensures
        r == decode32(h1, h2),
{
    proof {
        reveal_with_fuel(pow2, 26);
    }
    if h1 & 0xF800 == 0xF000 && h2 & 0xD000 == 0xD000 {
        let s = ((h1 >> 10u16) & 1) as u32;
        let j1 = ((h2 >> 13u16) & 1) as u32;
        let j2 = ((h2 >> 11u16) & 1) as u32;
        assert(s <= 1 && j1 <= 1 && j2 <= 1) by (bit_vector)
            requires
                s == ((h1 >> 10u16) & 1) as u32,
                j1 == ((h2 >> 13u16) & 1) as u32,
                j2 == ((h2 >> 11u16) & 1) as u32,
        ;
        assert((j1 ^ s) <= 1 && (j2 ^ s) <= 1) by (bit_vector)
            requires
                s <= 1 && j1 <= 1 && j2 <= 1,
        ;
        let i1 = 1 - (j1 ^ s);
        let i2 = 1 - (j2 ^ s);
        let bits = (s << 24u32) | (i1 << 23u32) | (i2 << 22u32) | (((h1 & 0x3FF) as u32) << 12u32)
            | (((h2 & 0x7FF) as u32) << 1u32);
        assert(bits < 0x200_0000) by (bit_vector)
            requires
                s <= 1 && i1 <= 1 && i2 <= 1,
                bits == (s << 24u32) | (i1 << 23u32) | (i2 << 22u32) | (((h1 & 0x3FF) as u32) << 12u32)
                    | (((h2 & 0x7FF) as u32) << 1u32),
        ;
        let offset = if bits >= 0x100_0000 {
            (bits as i32) - 0x200_0000
        } else {
            bits as i32
        };
        Instruction::Bl { offset }
    } else if h1 & 0xFBF0 == 0xF240 && h2 & 0x8000 == 0 {
        let imm = ((h1 & 0xF) << 12u16) | (((h1 >> 10u16) & 1) << 11u16) | (((h2 >> 12u16) & 0x7) << 8u16)
            | (h2 & 0xFF);
        Instruction::Movw { rd: ((h2 >> 8u16) & 0xF) as u8, imm }
    } else if h1 & 0xFBF0 == 0xF2C0 && h2 & 0x8000 == 0 {
        let imm = ((h1 & 0xF) << 12u16) | (((h1 >> 10u16) & 1) << 11u16) | (((h2 >> 12u16) & 0x7) << 8u16)
            | (h2 & 0xFF);
        Instruction::Movt { rd: ((h2 >> 8u16) & 0xF) as u8, imm }
    } else {
        Instruction::Unknown(h1)
    }
}

} // verus!
