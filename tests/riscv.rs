use labwired::bus::SystemBus;
use labwired::riscv::{decode_rv32, Instruction, RiscV};
use labwired::SimulationError;

#[test]
fn test_riscv_addi() {
    let mut bus = SystemBus::new();
    let mut cpu = RiscV::new();
    // ADDI x1, x0, 5
    bus.flash.data = vec![0x93, 0x00, 0x50, 0x00];
    cpu.pc = 0x0000_0000;
    cpu.step(&mut bus).unwrap();
    assert_eq!(cpu.read_reg(1), 5);
    assert_eq!(cpu.pc, 4);
}

#[test]
fn test_riscv_beq_taken() {
    let mut bus = SystemBus::new();
    let mut cpu = RiscV::new();
    bus.flash.data = vec![
        0x93, 0x00, 0xA0, 0x00, // ADDI x1, x0, 10
        0x13, 0x01, 0xA0, 0x00, // ADDI x2, x0, 10
        0x63, 0x84, 0x20, 0x00, // BEQ x1, x2, +8
        0x13, 0x01, 0x10, 0x00, // skipped
        0x13, 0x02, 0x10, 0x00, // ADDI x4, x0, 1
    ];
    cpu.pc = 0x0000_0000;
    cpu.step(&mut bus).unwrap();
    assert_eq!(cpu.read_reg(1), 10);
    cpu.step(&mut bus).unwrap();
    assert_eq!(cpu.read_reg(2), 10);
    assert_eq!(cpu.pc, 8);
    cpu.step(&mut bus).unwrap();
    assert_eq!(cpu.pc, 16);
    cpu.step(&mut bus).unwrap();
    assert_eq!(cpu.read_reg(4), 1);
    assert_eq!(cpu.read_reg(3), 0);
}

#[test]
fn riscv_decodes_signed_immediates() {
    // ADDI x5, x6, -1
    assert_eq!(decode_rv32(0xFFF3_0293), Instruction::Addi { rd: 5, rs1: 6, imm: -1 });
    // SW x7, -4(x2)
    assert_eq!(decode_rv32(0xFE71_2E23), Instruction::Sw { rs1: 2, rs2: 7, imm: -4 });
    // JAL x1, -8
    assert_eq!(decode_rv32(0xFF9F_F0EF), Instruction::Jal { rd: 1, imm: -8 });
    // LUI x10, 0x12345
    assert_eq!(decode_rv32(0x1234_5537), Instruction::Lui { rd: 10, imm: 0x1234_5000 });
    assert_eq!(decode_rv32(0xFFFF_FFFF), Instruction::Unknown(0xFFFF_FFFF));
}

#[test]
fn riscv_loads_stores_and_x0() {
    let mut bus = SystemBus::new();
    let mut cpu = RiscV::new();
    // LUI x1, 0x20000 ; ADDI x2, x0, -128 ; SB x2, 0(x1) ; LB x3, 0(x1) ; LBU x4, 0(x1) ; ADDI x0, x0, 5
    let words: [u32; 6] = [0x2000_00B7, 0xF800_0113, 0x0020_8023, 0x0000_8183, 0x0000_C203, 0x0050_0013];
    for (i, w) in words.iter().enumerate() {
        bus.write_u32(4 * i as u64, *w).unwrap();
    }
    for _ in 0..6 {
        cpu.step(&mut bus).unwrap();
    }
    assert_eq!(cpu.read_reg(1), 0x2000_0000);
    assert_eq!(cpu.read_reg(3), 0xFFFF_FF80);
    assert_eq!(cpu.read_reg(4), 0x80);
    assert_eq!(cpu.read_reg(0), 0);
    assert_eq!(bus.read_u8(0x2000_0000).unwrap(), 0x80);
    // An all-zero word is not an RV32I instruction.
    cpu.pc = 0x100;
    assert_eq!(cpu.step(&mut bus), Err(SimulationError::DecodeError(0x100)));
}
