use labwired::decoder::{decode_thumb_16, decode_thumb_32, Instruction};

#[test]
fn test_decode_mov_cmp_add_sub_imm8() {
    assert_eq!(decode_thumb_16(0x202A), Instruction::MovImm { rd: 0, imm: 42 });
    assert_eq!(decode_thumb_16(0x290A), Instruction::CmpImm { rn: 1, imm: 10 });
    assert_eq!(decode_thumb_16(0x3205), Instruction::AddImm8 { rd: 2, imm: 5 });
    assert_eq!(decode_thumb_16(0x3B01), Instruction::SubImm8 { rd: 3, imm: 1 });
}

#[test]
fn test_decode_add_sub_reg_imm3() {
    assert_eq!(decode_thumb_16(0x1888), Instruction::AddReg { rd: 0, rn: 1, rm: 2 });
    assert_eq!(decode_thumb_16(0x1B63), Instruction::SubReg { rd: 3, rn: 4, rm: 5 });
    assert_eq!(decode_thumb_16(0x1DD1), Instruction::AddImm3 { rd: 1, rn: 2, imm: 7 });
    assert_eq!(decode_thumb_16(0x1E40), Instruction::SubImm3 { rd: 0, rn: 0, imm: 1 });
}

#[test]
fn test_decode_ldr_str() {
    assert_eq!(decode_thumb_16(0x6048), Instruction::StrImm { rt: 0, rn: 1, imm: 4 });
    assert_eq!(decode_thumb_16(0x681A), Instruction::LdrImm { rt: 2, rn: 3, imm: 0 });
}

#[test]
fn test_decode_alu() {
    assert_eq!(decode_thumb_16(0x4008), Instruction::And { rd: 0, rm: 1 });
    assert_eq!(decode_thumb_16(0x431A), Instruction::Orr { rd: 2, rm: 3 });
    assert_eq!(decode_thumb_16(0x406C), Instruction::Eor { rd: 4, rm: 5 });
    assert_eq!(decode_thumb_16(0x43FE), Instruction::Mvn { rd: 6, rm: 7 });
}

#[test]
fn test_decode_stack_control() {
    assert_eq!(decode_thumb_16(0xB501), Instruction::Push { registers: 1, m: true });
    assert_eq!(decode_thumb_16(0xBD02), Instruction::Pop { registers: 2, p: true });
    assert_eq!(decode_thumb_16(0x4770), Instruction::Bx { rm: 14 });
    assert_eq!(decode_thumb_16(0x4801), Instruction::LdrLit { rt: 0, imm: 4 });
}

#[test]
fn test_decode_nop() {
    assert_eq!(decode_thumb_16(0xBF00), Instruction::Nop);
}

#[test]
fn test_decode_branch() {
    assert_eq!(decode_thumb_16(0xE002), Instruction::Branch { offset: 4 });
}

#[test]
fn test_decoder_mov() {
    let instr = decode_thumb_16(0x202A);
    assert_eq!(instr, Instruction::MovImm { rd: 0, imm: 42 });
}

#[test]
fn decode_backward_branches_sign_extend() {
    // B with imm11 = 0x7FE is -2 halfwords.
    assert_eq!(decode_thumb_16(0xE7FE), Instruction::Branch { offset: -4 });
    // BNE with imm8 = 0xFC is -4 halfwords.
    assert_eq!(decode_thumb_16(0xD1FC), Instruction::BranchCond { cond: 1, offset: -8 });
}

#[test]
fn decode_sixteen_bit_forms_beyond_the_basics() {
    assert_eq!(decode_thumb_16(0x0108), Instruction::Lsl { rd: 0, rm: 1, imm: 4 });
    assert_eq!(decode_thumb_16(0x089A), Instruction::Lsr { rd: 2, rm: 3, imm: 2 });
    assert_eq!(decode_thumb_16(0x4281), Instruction::CmpReg { rn: 1, rm: 0 });
    assert_eq!(decode_thumb_16(0x466F), Instruction::MovRegHi { rd: 7, rm: 13 });
    assert_eq!(decode_thumb_16(0x4440), Instruction::AddRegHi { rd: 0, rm: 8 });
    assert_eq!(decode_thumb_16(0x9001), Instruction::StrSp { rt: 0, imm: 4 });
    assert_eq!(decode_thumb_16(0x9901), Instruction::LdrSp { rt: 1, imm: 4 });
    assert_eq!(decode_thumb_16(0x7001), Instruction::StrbImm { rt: 1, rn: 0, imm: 0 });
    assert_eq!(decode_thumb_16(0xB003), Instruction::AddSpImm { imm: 12 });
    assert_eq!(decode_thumb_16(0xB084), Instruction::SubSpImm { imm: 16 });
    assert_eq!(decode_thumb_16(0xB672), Instruction::CpsId);
    assert_eq!(decode_thumb_16(0xB662), Instruction::CpsIe);
    assert_eq!(decode_thumb_16(0xF000), Instruction::Prefix32(0xF000));
    assert_eq!(decode_thumb_16(0xDE00), Instruction::Unknown(0xDE00));
}

#[test]
fn decode_thirty_two_bit_forms() {
    // BL +0: F000 F800.
    assert_eq!(decode_thumb_32(0xF000, 0xF800), Instruction::Bl { offset: 0 });
    // BL -4: F7FF FFFE.
    assert_eq!(decode_thumb_32(0xF7FF, 0xFFFE), Instruction::Bl { offset: -4 });
    // MOVW R1, #0x1234: F241 2134.
    assert_eq!(decode_thumb_32(0xF241, 0x2134), Instruction::Movw { rd: 1, imm: 0x1234 });
    // MOVT R1, #0xABCD: F6CA 31CD.
    assert_eq!(decode_thumb_32(0xF6CA, 0x31CD), Instruction::Movt { rd: 1, imm: 0xABCD });
    assert_eq!(decode_thumb_32(0xE92D, 0x4000), Instruction::Unknown(0xE92D));
}
