use labwired::bus::SystemBus;
use labwired::machine::{Machine, StopReason};
use labwired::memory::ProgramImage;
use labwired::SimulationError;
use labwired::config::{
    check_assertions, exit_code, run_status, StopReason as Stop, TestAssertion, UartContainsAssertion,
};
use labwired::report::uart_text;

#[test]
fn test_cpu_execute_mov() {
    let mut machine = Machine::new();
    let base_addr: u64 = 0x2000_0000;
    machine.cpu.pc = base_addr as u32;
    machine.bus.write_u8(base_addr, 0x2A).unwrap();
    machine.bus.write_u8(base_addr + 1, 0x20).unwrap();
    machine.step().unwrap();
    assert_eq!(machine.cpu.r0, 42);
    assert_eq!(machine.cpu.pc, (base_addr + 2) as u32);
}

#[test]
fn test_cpu_execute_branch() {
    let mut machine = Machine::new();
    let base_addr: u64 = 0x2000_0000;
    machine.cpu.pc = base_addr as u32;
    machine.bus.write_u8(base_addr, 0x02).unwrap();
    machine.bus.write_u8(base_addr + 1, 0xE0).unwrap();
    machine.step().unwrap();
    assert_eq!(machine.cpu.pc, (base_addr + 8) as u32);
}

#[test]
fn test_cpu_execute_ldr_str() {
    let mut machine = Machine::new();
    let base_addr: u64 = 0x2000_0000;
    machine.cpu.pc = base_addr as u32;
    machine.cpu.r0 = 0xDEADBEEF;
    machine.cpu.r1 = 0x2000_0010;
    machine.bus.write_u8(base_addr, 0x08).unwrap();
    machine.bus.write_u8(base_addr + 1, 0x60).unwrap();
    machine.step().unwrap();
    let val = machine.bus.read_u32(0x2000_0010).unwrap();
    assert_eq!(val, 0xDEADBEEF);
    machine.bus.write_u8(base_addr + 2, 0x0A).unwrap();
    machine.bus.write_u8(base_addr + 3, 0x68).unwrap();
    machine.step().unwrap();
    assert_eq!(machine.cpu.r2, 0xDEADBEEF);
}

#[test]
fn test_uart_write() {
    let mut machine = Machine::new();
    let base_addr: u64 = 0x2000_0000;
    machine.cpu.pc = base_addr as u32;
    machine.cpu.r0 = 72;
    machine.cpu.r1 = 0x4000_C000;
    machine.bus.write_u8(base_addr, 0x08).unwrap();
    machine.bus.write_u8(base_addr + 1, 0x60).unwrap();
    machine.step().unwrap();
}

#[test]
fn test_cpu_execute_sp_rel() {
    let mut machine = Machine::new();
    let base_addr: u64 = 0x2000_0000;
    machine.cpu.pc = base_addr as u32;
    let stack_top = 0x2000_1000;
    machine.cpu.sp = stack_top;
    machine.cpu.r0 = 0xCAFEBABE;
    machine.bus.write_u8(base_addr, 0x01).unwrap();
    machine.bus.write_u8(base_addr + 1, 0x90).unwrap();
    machine.step().unwrap();
    let val = machine.bus.read_u32((stack_top + 4) as u64).unwrap();
    assert_eq!(val, 0xCAFEBABE);
    machine.bus.write_u8(base_addr + 2, 0x01).unwrap();
    machine.bus.write_u8(base_addr + 3, 0x99).unwrap();
    machine.step().unwrap();
    assert_eq!(machine.cpu.r1, 0xCAFEBABE);
}

#[test]
fn test_cpu_execute_cond_branch() {
    let mut machine = Machine::new();
    let base_addr: u64 = 0x2000_0000;
    machine.cpu.pc = base_addr as u32;
    machine.cpu.r0 = 0;
    machine.bus.write_u8(base_addr, 0x00).unwrap();
    machine.bus.write_u8(base_addr + 1, 0x28).unwrap();
    machine.step().unwrap();
    assert_eq!(machine.cpu.xpsr & (1 << 30), 1 << 30);
    machine.bus.write_u8(base_addr + 2, 0x02).unwrap();
    machine.bus.write_u8(base_addr + 3, 0xD0).unwrap();
    machine.step().unwrap();
    assert_eq!(machine.cpu.pc, 0x2000_000A);
}

#[test]
fn test_cpu_execute_shifts() {
    let mut machine = Machine::new();
    let base_addr: u64 = 0x2000_0000;
    machine.cpu.pc = base_addr as u32;
    machine.cpu.r1 = 0x0000_0001;
    machine.bus.write_u8(base_addr, 0x08).unwrap();
    machine.bus.write_u8(base_addr + 1, 0x01).unwrap();
    machine.step().unwrap();
    assert_eq!(machine.cpu.r0, 0x10);
    machine.cpu.r3 = 0x10;
    machine.bus.write_u8(base_addr + 2, 0x9A).unwrap();
    machine.bus.write_u8(base_addr + 3, 0x08).unwrap();
    machine.step().unwrap();
    assert_eq!(machine.cpu.r2, 0x04);
}

#[test]
fn test_cpu_execute_cmp_reg() {
    let mut machine = Machine::new();
    let base_addr: u64 = 0x2000_0000;
    machine.cpu.pc = base_addr as u32;
    machine.cpu.r1 = 10;
    machine.cpu.r0 = 5;
    machine.bus.write_u8(base_addr, 0x81).unwrap();
    machine.bus.write_u8(base_addr + 1, 0x42).unwrap();
    machine.step().unwrap();
    let xpsr = machine.cpu.xpsr >> 28;
    assert_eq!(xpsr & 0b1000, 0);
    assert_eq!(xpsr & 0b0100, 0);
    assert_eq!(xpsr & 0b0010, 0b0010);
}

#[test]
fn test_cpu_execute_mov_reg() {
    let mut machine = Machine::new();
    let base_addr: u64 = 0x2000_0000;
    machine.cpu.pc = base_addr as u32;
    machine.cpu.sp = 0x2002_0000;
    machine.bus.write_u8(base_addr, 0x6F).unwrap();
    machine.bus.write_u8(base_addr + 1, 0x46).unwrap();
    machine.step().unwrap();
    assert_eq!(machine.cpu.r7, 0x2002_0000);
}

#[test]
fn test_cpu_execute_strb_imm() {
    let mut machine = Machine::new();
    let base_addr: u64 = 0x2000_0000;
    machine.cpu.pc = base_addr as u32;
    machine.cpu.r1 = 0xAB;
    machine.cpu.r0 = 0x2000_1000;
    machine.bus.write_u8(base_addr, 0x01).unwrap();
    machine.bus.write_u8(base_addr + 1, 0x70).unwrap();
    machine.step().unwrap();
    assert_eq!(machine.bus.read_u8(0x2000_1000).unwrap(), 0xAB);
}

#[test]
fn test_systick_timer() {
    let mut machine = Machine::new();
    machine.bus.write_u32(0xE000_E014, 10).unwrap();
    machine.bus.write_u32(0xE000_E010, 1).unwrap();
    let _ = machine.step();
    let cvr = machine.bus.read_u32(0xE000_E018).unwrap();
    assert_eq!(cvr, 10);
    for _ in 0..10 {
        let _ = machine.step();
    }
    let cvr_final = machine.bus.read_u32(0xE000_E018).unwrap();
    assert_eq!(cvr_final, 0);
    let csr = machine.bus.read_u32(0xE000_E010).unwrap();
    assert_eq!(csr & 0x10000, 0x10000);
}

#[test]
fn test_exception_stacking() {
    let mut machine = Machine::new();
    let isr_addr: u32 = 0x0000_1000;
    machine.bus.write_u32(0x3C, isr_addr | 1).unwrap();
    machine.cpu.pc = 0x2000_0000;
    machine.cpu.sp = 0x2002_0000;
    machine.cpu.r0 = 0x12345678;
    machine.bus.write_u32(0xE000_E014, 1).unwrap();
    machine.bus.write_u32(0xE000_E010, 3).unwrap();
    let _ = machine.step();
    let _ = machine.step();
    assert_eq!(machine.cpu.pc, 0x1000);
    assert_eq!(machine.cpu.sp, 0x2002_0000 - 32);
    assert_eq!(machine.cpu.lr, 0xFFFF_FFF9);
    let stacked_r0 = machine.bus.read_u32(machine.cpu.sp as u64).unwrap();
    assert_eq!(stacked_r0, 0x12345678);
}

#[test]
fn test_exception_lifecycle() {
    let mut machine = Machine::new();
    let isr_addr: u32 = 0x0000_1000;
    machine.bus.write_u32(0x3C, isr_addr | 1).unwrap();
    machine.cpu.pc = 0x2000_0000;
    machine.cpu.sp = 0x2002_0000;
    machine.cpu.r0 = 10;
    machine.cpu.r7 = 20;
    machine.bus.write_u32(0xE000_E014, 100).unwrap();
    machine.bus.write_u32(0xE000_E010, 3).unwrap();
    machine.step().unwrap();
    machine.step().unwrap();
    assert_eq!(machine.cpu.pc, 0x1000);
    assert_eq!(machine.cpu.lr, 0xFFFF_FFF9);
    machine.bus.write_u8(0x1000, 0x2A).unwrap();
    machine.bus.write_u8(0x1001, 0x20).unwrap();
    machine.bus.write_u8(0x1002, 0x70).unwrap();
    machine.bus.write_u8(0x1003, 0x47).unwrap();
    machine.step().unwrap();
    assert_eq!(machine.cpu.r0, 42);
    machine.step().unwrap();
    assert_eq!(machine.cpu.pc, 0x2000_0002);
    assert_eq!(machine.cpu.r0, 10);
    assert_eq!(machine.cpu.sp, 0x2002_0000);
    assert_eq!(machine.cpu.r7, 20);
}

#[test]
fn test_iteration_7_instructions() {
    let mut machine = Machine::new();
    machine.cpu.sp = 0x2000_1000;
    machine.bus.write_u16(0, 0xB003).unwrap();
    machine.step().unwrap();
    assert_eq!(machine.cpu.sp, 0x2000_100C);
    machine.cpu.pc = 2;
    machine.bus.write_u16(2, 0xB084).unwrap();
    machine.step().unwrap();
    assert_eq!(machine.cpu.sp, 0x2000_0FFC);
    machine.cpu.r0 = 10;
    machine.cpu.r8 = 20;
    machine.cpu.pc = 4;
    machine.bus.write_u16(4, 0x4440).unwrap();
    machine.step().unwrap();
    assert_eq!(machine.cpu.r0, 30);
    machine.cpu.primask = false;
    machine.cpu.pc = 6;
    machine.bus.write_u16(6, 0xB672).unwrap();
    machine.step().unwrap();
    assert!(machine.cpu.primask);
    machine.cpu.pc = 8;
    machine.bus.write_u16(8, 0xB662).unwrap();
    machine.step().unwrap();
    assert!(!machine.cpu.primask);
}

fn machine_with_code(at: u64, code: &[u8]) -> Machine {
    let mut machine = Machine::new();
    machine.cpu.pc = at as u32;
    for (i, b) in code.iter().enumerate() {
        machine.bus.write_u8(at + i as u64, *b).unwrap();
    }
    machine
}

#[test]
fn mov_immediate_sets_r0() {
    let mut m = machine_with_code(0x2000_0000, &[0x2A, 0x20]);
    m.step().unwrap();
    assert_eq!(m.cpu.r0, 42);
    assert_eq!(m.cpu.pc, 0x2000_0002);
}

#[test]
fn unconditional_branch_to_pc_plus_eight() {
    let mut m = machine_with_code(0x2000_0000, &[0x02, 0xE0]);
    m.step().unwrap();
    assert_eq!(m.cpu.pc, 0x2000_0008);
}

#[test]
fn compare_then_beq_taken() {
    let mut m = machine_with_code(0x2000_0000, &[0x00, 0x28, 0x02, 0xD0]);
    m.cpu.r0 = 0;
    m.step().unwrap();
    assert_eq!((m.cpu.xpsr >> 30) & 1, 1);
    m.step().unwrap();
    assert_eq!(m.cpu.pc, 0x2000_000A);
}

#[test]
fn systick_exception_entry_and_return() {
    let mut m = Machine::new();
    m.bus.write_u32(0x3C, 0x0000_1001).unwrap();
    m.cpu.pc = 0x2000_0000;
    m.cpu.sp = 0x2002_0000;
    m.cpu.r0 = 0x1234_5678;
    m.bus.write_u32(0xE000_E014, 1).unwrap();
    m.bus.write_u32(0xE000_E010, 3).unwrap();
    m.step().unwrap();
    m.step().unwrap();
    assert_eq!(m.cpu.pc, 0x0000_1000);
    assert_eq!(m.cpu.sp, 0x2001_FFE0);
    assert_eq!(m.cpu.lr, 0xFFFF_FFF9);
    assert_eq!(m.bus.read_u32(m.cpu.sp as u64).unwrap(), 0x1234_5678);
    // The handler: MOV R0,#42 then BX LR. With a reload value of 1 the timer wraps
    // again while the handler runs; mask it so the return is taken.
    m.bus.write_u32(0xE000_E010, 0).unwrap();
    m.bus.write_u8(0x1000, 0x2A).unwrap();
    m.bus.write_u8(0x1001, 0x20).unwrap();
    m.bus.write_u8(0x1002, 0x70).unwrap();
    m.bus.write_u8(0x1003, 0x47).unwrap();
    m.step().unwrap();
    assert_eq!(m.cpu.r0, 42);
    m.step().unwrap();
    assert_eq!(m.cpu.r0, 0x1234_5678);
    assert_eq!(m.cpu.sp, 0x2002_0000);
    assert_eq!(m.cpu.pc, 0x2000_0002);
}

#[test]
fn push_then_pop_restores_registers() {
    // PUSH {R0, R1, LR}; MOV R0,#0; MOV R1,#0; POP {R0, R1, PC}
    let mut m = machine_with_code(0x2000_0000, &[0x03, 0xB5, 0x00, 0x20, 0x00, 0x21, 0x03, 0xBD]);
    m.cpu.sp = 0x2000_8000;
    m.cpu.r0 = 0x1111_1111;
    m.cpu.r1 = 0x2222_2222;
    m.cpu.lr = 0x2000_0101;
    for _ in 0..4 {
        m.step().unwrap();
    }
    assert_eq!(m.cpu.r0, 0x1111_1111);
    assert_eq!(m.cpu.r1, 0x2222_2222);
    assert_eq!(m.cpu.sp, 0x2000_8000);
    assert_eq!(m.cpu.pc, 0x2000_0100);
}

#[test]
fn bl_and_movw_movt() {
    // BL +4 at 0x2000_0000: F000 F802. Then MOVW R2,#0x1234; MOVT R2,#0xABCD at 0x2000_0008.
    let mut m = machine_with_code(
        0x2000_0000,
        &[0x00, 0xF0, 0x02, 0xF8, 0x00, 0xBF, 0x00, 0xBF, 0x41, 0xF2, 0x34, 0x22, 0xCA, 0xF6, 0xCD, 0x32],
    );
    m.step().unwrap();
    assert_eq!(m.cpu.pc, 0x2000_0008);
    assert_eq!(m.cpu.lr, 0x2000_0005);
    m.step().unwrap();
    assert_eq!(m.cpu.r2, 0x1234);
    assert_eq!(m.cpu.pc, 0x2000_000C);
    m.step().unwrap();
    assert_eq!(m.cpu.r2, 0xABCD_1234);
}

#[test]
fn fetch_from_unmapped_address_is_a_memory_violation() {
    let mut m = Machine::new();
    m.cpu.pc = 0x9000_0000;
    assert_eq!(m.step(), Err(SimulationError::MemoryViolation(0x9000_0000)));
    assert_eq!(m.bus.read_u8(0x9000_0000), Err(SimulationError::MemoryViolation(0x9000_0000)));
}

#[test]
fn load_firmware_resets_from_vector_table() {
    let mut m = Machine::new();
    let mut image = ProgramImage::new(0x123);
    image.add_segment(0, vec![0x00, 0x00, 0x01, 0x20, 0x41, 0x00, 0x00, 0x00]);
    m.load_firmware(&image).unwrap();
    assert_eq!(m.cpu.sp, 0x2001_0000);
    assert_eq!(m.cpu.pc, 0x40);
}

#[test]
fn load_firmware_falls_back_to_entry_point() {
    let mut m = Machine::new();
    let mut image = ProgramImage::new(0x2000_0400);
    image.add_segment(0x2000_0400, vec![0x00, 0xBF]);
    image.add_segment(0x9000_0000, vec![1, 2, 3]);
    m.load_firmware(&image).unwrap();
    assert_eq!(m.cpu.pc, 0x2000_0400);
    assert_eq!(m.bus.read_u8(0x2000_0401).unwrap(), 0xBF);
}

#[test]
fn run_stops_at_breakpoints_and_budget() {
    let mut m = machine_with_code(0x2000_0000, &[0x00, 0xBF, 0x00, 0xBF, 0x00, 0xBF]);
    m.add_breakpoint(0x2000_0004);
    assert_eq!(m.run(100), Ok(StopReason::Breakpoint(0x2000_0004)));
    m.remove_breakpoint(0x2000_0004);
    assert!(!m.has_breakpoint(0x2000_0004));
    assert_eq!(m.run(1), Ok(StopReason::MaxStepsReached));
    assert_eq!(m.cpu.pc, 0x2000_0006);
    assert_eq!(m.step_single(), Ok(StopReason::StepDone));
    m.clear_breakpoints();
    assert_eq!(m.metrics.get_instructions(), 4);
}

#[test]
fn memory_and_register_debug_access() {
    let mut m = Machine::new();
    m.write_memory(0x2000_0000, &[1, 2, 3]).unwrap();
    assert_eq!(m.read_memory(0x2000_0000, 3).unwrap(), vec![1, 2, 3]);
    assert_eq!(m.read_memory(0x1FFF_FFFF, 2), Err(SimulationError::MemoryViolation(0x1FFF_FFFF)));
    assert_eq!(m.write_memory(0x2010_0000 - 1, &[9, 9]), Err(SimulationError::MemoryViolation(0x2010_0000)));
    m.write_core_reg(3, 77);
    m.write_core_reg(16, 0x8000_0000);
    assert_eq!(m.read_core_reg(3), 77);
    assert_eq!(m.read_core_reg(16), 0x8000_0000);
    assert_eq!(m.read_core_reg(17), 0);
}

#[test]
fn with_bus_replaces_scb_and_nvic_entries() {
    let m = Machine::with_bus(SystemBus::new());
    let names: Vec<&str> = m.bus.peripherals.iter().map(|p| p.name.as_str()).collect();
    assert_eq!(names.iter().filter(|n| **n == "scb").count(), 1);
    assert_eq!(names.iter().filter(|n| **n == "nvic").count(), 1);
    let again = Machine::with_bus(m.bus);
    assert_eq!(again.bus.peripherals.len(), 14);
}

#[test]
fn uart_capture_for_a_test_script() {
    let code: Vec<u8> = vec![
        0x4C, 0xF2, 0x00, 0x01, // MOVW R1, #0xC000
        0xC4, 0xF2, 0x00, 0x01, // MOVT R1, #0x4000
        0x4F, 0x20, 0x08, 0x70, // MOV R0, #'O'; STRB R0, [R1]
        0x4B, 0x20, 0x08, 0x70, // MOV R0, #'K'; STRB R0, [R1]
        0x0A, 0x20, 0x08, 0x70, // MOV R0, #'\n'; STRB R0, [R1]
        0xFE, 0xE7, // B .
    ];
    let mut image = ProgramImage::new(0x100);
    image.add_segment(0, vec![0x00, 0x80, 0x00, 0x20, 0x01, 0x01, 0x00, 0x00]);
    image.add_segment(0x100, code);
    let mut bus = SystemBus::new();
    bus.attach_uart_tx_sink(true, false);
    let mut m = Machine::with_bus(bus);
    m.load_firmware(&image).unwrap();
    assert_eq!(m.cpu.pc, 0x100);
    assert_eq!(m.cpu.sp, 0x2000_8000);
    assert_eq!(m.run(50), Ok(StopReason::MaxStepsReached));
    assert_eq!(m.bus.uart_tx, b"OK\n".to_vec());
    let assertions = vec![TestAssertion::UartContains(UartContainsAssertion { uart_contains: "OK".to_string() })];
    let text = uart_text(&m.bus.uart_tx);
    let passed = check_assertions(&assertions, &text, Stop::MaxSteps);
    assert_eq!(passed, vec![true]);
    let status = run_status(&assertions, &passed, Stop::MaxSteps, false);
    assert_eq!(exit_code(status), 0);
}
