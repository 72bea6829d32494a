use labwired::bus::SystemBus;
use labwired::machine::Machine;
use labwired::memory::{LinearMemory, Segment};
use labwired::peripherals::gpio::GpioPort;
use labwired::peripherals::systick::Systick;

#[test]
fn linear_memory_bounds() {
    let mut m = LinearMemory::new(4, 0x100);
    assert_eq!(m.read_u8(0x100), Some(0));
    assert!(m.write_u8(0x103, 7));
    assert_eq!(m.read_u8(0x103), Some(7));
    assert!(!m.write_u8(0x104, 1));
    assert_eq!(m.read_u8(0xFF), None);
    assert!(m.load_from_segment(&Segment { start_addr: 0x101, data: vec![1, 2] }));
    assert_eq!(m.data, vec![0, 1, 2, 7]);
    assert!(!m.load_from_segment(&Segment { start_addr: 0x103, data: vec![1, 2] }));
}

#[test]
fn systick_counts_down_and_reloads() {
    let mut s = Systick::new();
    s.write(0x04, 2);
    s.write(0x00, 3);
    let mut seen = vec![];
    for _ in 0..7 {
        let irq = s.tick();
        seen.push((s.read(0x08), irq));
    }
    assert_eq!(
        seen,
        vec![(2, true), (1, false), (0, false), (2, true), (1, false), (0, false), (2, true)]
    );
    assert_eq!(s.read(0x00) & 0x10000, 0x10000);
    s.write(0x08, 5);
    assert_eq!(s.read(0x08), 0);
    assert_eq!(s.read(0x00) & 0x10000, 0);
    assert_eq!(s.read(0x0C), 0x4000_0000);
}

#[test]
fn gpio_bsrr_and_brr() {
    let mut bus = SystemBus::new();
    let gpioa: u64 = 0x4001_0800;
    assert_eq!(bus.read_u32(gpioa).unwrap(), 0x4444_4444);
    bus.write_u32(gpioa + 0x0C, 0x00F0).unwrap();
    bus.write_u32(gpioa + 0x10, 0x0010_0003).unwrap();
    assert_eq!(bus.read_u32(gpioa + 0x0C).unwrap(), 0x00E3);
    bus.write_u32(gpioa + 0x14, 0x0002).unwrap();
    assert_eq!(bus.read_u32(gpioa + 0x0C).unwrap(), 0x00E1);
    let mut g = GpioPort::new();
    g.write_reg(0x10, 0xFFFF_0001);
    assert_eq!(g.read_reg(0x0C), 0);
}

#[test]
fn nvic_set_and_clear_words() {
    let mut m = Machine::new();
    let iser1: u64 = 0xE000_E104;
    m.bus.write_u32(iser1, 0x0000_00F0).unwrap();
    m.bus.write_u32(iser1, 0x8000_0001).unwrap();
    assert_eq!(m.bus.read_u32(iser1).unwrap(), 0x8000_00F1);
    m.bus.write_u32(0xE000_E184, 0x0000_0031).unwrap();
    assert_eq!(m.bus.read_u32(iser1).unwrap(), 0x8000_00C0);
    m.bus.write_u32(0xE000_E200, 0x0000_0006).unwrap();
    assert_eq!(m.bus.read_u32(0xE000_E200).unwrap(), 0x0000_0006);
    m.bus.write_u32(0xE000_E280, 0x0000_0002).unwrap();
    assert_eq!(m.bus.read_u32(0xE000_E200).unwrap(), 0x0000_0004);
}

#[test]
fn nvic_pending_and_enabled_irqs_reach_the_core() {
    let mut m = Machine::new();
    // Enable IRQ 16 + 3 = exception 19 and make it pending.
    m.bus.write_u32(0xE000_E100, 1 << 3).unwrap();
    m.bus.write_u32(0xE000_E200, 1 << 3).unwrap();
    let irqs = m.bus.tick_peripherals();
    assert_eq!(irqs, vec![19]);
    m.cpu.pc = 0x2000_0000;
    m.step().unwrap();
    assert_eq!(m.cpu.pending_exceptions & (1 << 19), 1 << 19);
}

#[test]
fn scb_relocates_the_vector_table() {
    let mut m = Machine::new();
    m.bus.write_u32(0xE000_ED08, 0x2000_0000).unwrap();
    assert_eq!(m.bus.read_u32(0xE000_ED08).unwrap(), 0x2000_0000);
    assert_eq!(m.bus.vtor, 0x2000_0000);
    m.bus.write_u32(0x2000_0000, 0x2000_4000).unwrap();
    m.bus.write_u32(0x2000_0004, 0x0000_0201).unwrap();
    m.reset().unwrap();
    assert_eq!(m.cpu.sp, 0x2000_4000);
    assert_eq!(m.cpu.pc, 0x200);
}

#[test]
fn uart_capture_and_echo() {
    let mut bus = SystemBus::new();
    bus.attach_uart_tx_sink(true, false);
    for b in b"OK\n" {
        bus.write_u8(0x4000_C000, *b).unwrap();
    }
    assert_eq!(bus.uart_tx, b"OK\n".to_vec());
    assert_eq!(bus.read_u8(0x4000_C004).unwrap(), 1);
    assert!(bus.take_uart_echo().is_empty());
    bus.attach_uart_tx_sink(false, true);
    bus.write_u8(0x4000_C000, b'!').unwrap();
    assert_eq!(bus.take_uart_echo(), b"!".to_vec());
    assert_eq!(bus.uart_tx, b"OK\n".to_vec());
}

#[test]
fn bus_from_a_chip_layout() {
    use_layout();
}

fn use_layout() {
    let specs = vec![
        labwired::bus::PeripheralSpec { id: "uart1".to_string(), kind: "uart".to_string(), base: 0x4001_3800, stubbed: false },
        labwired::bus::PeripheralSpec { id: "systick".to_string(), kind: "systick".to_string(), base: 0xE000_E010, stubbed: false },
        labwired::bus::PeripheralSpec { id: "dac".to_string(), kind: "dac".to_string(), base: 0x4000_7400, stubbed: false },
        labwired::bus::PeripheralSpec { id: "i2c1".to_string(), kind: "i2c".to_string(), base: 0x4000_5400, stubbed: true },
    ];
    let mut bus = SystemBus::from_layout(0x0800_0000, 64, 0x2000_0000, 32, &specs);
    assert_eq!(bus.peripherals.len(), 3);
    assert_eq!(bus.peripherals[1].irq, Some(15));
    assert_eq!(bus.read_u8(0x4000_5400).unwrap(), 0x42);
    assert_eq!(bus.read_u8(0x4001_3804).unwrap(), 1);
    assert!(bus.write_u8(0x0800_003F, 1).is_ok());
    assert!(bus.write_u8(0x0800_0040, 1).is_err());
    assert!(bus.read_u8(0x2000_0020).is_err());
}

#[test]
fn cpu_snapshot_and_xml_escape() {
    let mut m = Machine::new();
    m.cpu.r5 = 5;
    m.cpu.pc = 0x100;
    m.bus.vtor = 0x800;
    let s = m.snapshot();
    assert_eq!(s.registers.len(), 16);
    assert_eq!(s.registers[5], 5);
    assert_eq!(s.registers[15], 0x100);
    assert_eq!(s.vtor, 0x800);
    assert_eq!(labwired::text::xml_escape("a<b & 'c' \"d\">"), "a&lt;b &amp; &apos;c&apos; &quot;d&quot;&gt;");
}
