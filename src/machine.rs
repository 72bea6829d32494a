use vstd::prelude::*;
use crate::bus::{BusModel, Device, EntryModel, PeripheralEntry, SystemBus};
use crate::cpu::CortexM;
use crate::memory::{MemModel, ProgramImage, Segment};
use crate::metrics::{PerformanceMetrics, sat_add};
use crate::peripherals::nvic::{Nvic, NvicState};
use crate::peripherals::scb::Scb;
use crate::{SimResult, SimulationError};

verus! {

pub const SCB_BASE: u64 = 0xE000_ED00;
pub const SCB_SIZE: u64 = 0x40;
pub const NVIC_BASE: u64 = 0xE000_E100;
pub const NVIC_SIZE: u64 = 0x400;

/// Why a run stopped without an error.
#[derive(Debug, Clone, Copy, PartialEq, Eq, Structural)]
pub enum StopReason {
    Breakpoint(u32),
    StepDone,
    MaxStepsReached,
    ManualStop,
}

/// The abstract state of a machine.
pub struct MachineModel {
    pub cpu: CortexM,
    pub bus: BusModel,
    pub breakpoints: Seq<u32>,
    pub metrics: PerformanceMetrics,
}

/// `p` with the bit of every exception number below 32 in `irqs` set.
pub open spec fn pend_all(p: u32, irqs: Seq<u32>) -> u32
    decreases irqs.len(),
{
    if irqs.len() == 0 {
        p
    } else {
        let n = irqs[0];
        pend_all(if n < 32 { p | (1u32 << n) } else { p }, irqs.drop_first())
    }
}

/// The first entry from `j` on with this name or base address.
pub open spec fn find_slot(es: Seq<EntryModel>, name: Seq<char>, base: u64, j: int) -> Option<int>
    decreases es.len() - j,
{
    if j < 0 || j >= es.len() {
        None
    } else if es[j].name == name || es[j].base == base {
        Some(j)
    } else {
        find_slot(es, name, base, j + 1)
    }
}

/// The entries with `e` in place of the first one of its name or base, or appended.
pub open spec fn install(es: Seq<EntryModel>, e: EntryModel) -> Seq<EntryModel> {
    match find_slot(es, e.name, e.base, 0) {
        Some(j) => es.update(j, e),
        None => es.push(e),
    }
}

pub open spec fn scb_entry() -> EntryModel {
    EntryModel { name: "scb"@, base: SCB_BASE, size: SCB_SIZE, irq: None, dev: Device::Scb(Scb {}) }
}

pub open spec fn nvic_entry() -> EntryModel {
    EntryModel { name: "nvic"@, base: NVIC_BASE, size: NVIC_SIZE, irq: None, dev: Device::Nvic(Nvic {}) }
}

/// The NVIC state after reset: nothing enabled, nothing pending.
pub open spec fn nvic_clear() -> crate::peripherals::nvic::NvicModel {
    crate::peripherals::nvic::NvicModel { iser: Seq::new(8, |i: int| 0u32), ispr: Seq::new(8, |i: int| 0u32) }
}

/// Copies each segment into flash when it fits there, else into RAM when it fits there,
/// else nowhere. Gives flash and RAM after the segments from `i` on.
pub open spec fn load_segments(flash: MemModel, ram: MemModel, segs: Seq<Segment>, i: nat) -> (MemModel, MemModel)
    decreases segs.len() - i,
{
    if i >= segs.len() {
        (flash, ram)
    } else {
        let s = segs[i as int];
        if flash.fits(s.start_addr, s.data@.len()) {
            load_segments(flash.load(s.start_addr, s.data@), ram, segs, i + 1)
        } else {
            load_segments(flash, ram.load(s.start_addr, s.data@), segs, i + 1)
        }
    }
}

/// The bytes at `a, a + 1, ...`, `n` of them, or the first read error.
pub open spec fn read_bytes(bus: BusModel, a: u64, n: nat) -> SimResult<Seq<u8>>
    decreases n,
{
    if n == 0 {
        Ok(Seq::empty())
    } else {
        match read_bytes(bus, a, (n - 1) as nat) {
            Err(e) => Err(e),
            Ok(bs) => match bus.read_u8((a + n - 1) as u64) {
                Err(e) => Err(e),
                Ok(b) => Ok(bs.push(b)),
            },
        }
    }
}

proof fn lemma_read_bytes_err(bus: BusModel, a: u64, j: nat, k: nat)
    requires
        j <= k,
        read_bytes(bus, a, j) is Err,
    ensures
        read_bytes(bus, a, k) == read_bytes(bus, a, j),
    decreases k - j,
{
    if j < k {
        lemma_read_bytes_err(bus, a, j, (k - 1) as nat);
    }
}

/// The debugger's view of register `id`: R0-R15, then xPSR as 16, then zero.
pub open spec fn core_reg(c: CortexM, id: u8) -> u32 {
    if id < 16 {
        c.reg(id)
    } else if id == 16 {
        c.xpsr
    } else {
        0
    }
}

pub open spec fn with_core_reg(c: CortexM, id: u8, v: u32) -> CortexM {
    if id < 16 {
        c.with_reg(id, v)
    } else if id == 16 {
        CortexM { xpsr: v, ..c }
    } else {
        c
    }
}

impl MachineModel {
    /// A core step, then a bus tick whose exceptions become pending, then the counters.
    pub open spec fn step_spec(self) -> (MachineModel, SimResult<()>) {
        let (c1, b1, r) = self.cpu.step_spec(self.bus);
        let (irqs, b2) = b1.tick();
        (
            MachineModel {
                cpu: CortexM { pending_exceptions: pend_all(c1.pending_exceptions, irqs), ..c1 },
                bus: b2,
                metrics: PerformanceMetrics {
                    instruction_count: sat_add(self.metrics.instruction_count, 1),
                    cycle_count: sat_add(self.metrics.cycle_count, 1),
                },
                ..self
            },
            r,
        )
    }

    /// Reset: clear the pending set, then load SP from VTOR+0 and PC (bit 0 cleared)
    /// from VTOR+4 where those reads succeed; otherwise PC 0 and SP 0x2000_0000.
    pub open spec fn reset_spec(self) -> MachineModel {
        let c0 = CortexM { pc: 0, sp: 0x2000_0000, pending_exceptions: 0, ..self.cpu };
        let vtor = self.bus.vtor as u64;
        let c1 = match self.bus.read_u32(vtor) {
            Ok(sp) => CortexM { sp, ..c0 },
            Err(_) => c0,
        };
        let c2 = match self.bus.read_u32((vtor + 4) as u64) {
            Ok(pc) => CortexM { pc: pc & !1u32, ..c1 },
            Err(_) => c1,
        };
        MachineModel { cpu: c2, ..self }
    }

    /// Runs from step `done` of at most `max`: stop before a step at a breakpoint, after
    /// a failing step, or once `max` steps (at least one) have run.
    pub open spec fn run_spec(self, max: nat, done: nat) -> (MachineModel, SimResult<StopReason>)
        decreases max - done,
    {
        if self.breakpoints.contains(self.cpu.pc & !1u32) {
            (self, Ok(StopReason::Breakpoint(self.cpu.pc)))
        } else {
            let (m2, r) = self.step_spec();
            match r {
                Err(e) => (m2, Err(e)),
                Ok(_) => if done + 1 >= max {
                    (m2, Ok(StopReason::MaxStepsReached))
                } else {
                    m2.run_spec(max, done + 1)
                },
            }
        }
    }
}

/// The architectural state of the core at one moment: R0-R15, xPSR, PRIMASK, the
/// pending set and VTOR.
#[derive(Debug, Clone)]
pub struct CpuSnapshot {
    pub registers: Vec<u32>,
    pub xpsr: u32,
    pub primask: bool,
    pub pending_exceptions: u32,
    pub vtor: u32,
}

/// A core, its bus, the breakpoints of a debugger and the performance counters.
pub struct Machine {
    pub cpu: CortexM,
    pub bus: SystemBus,
    pub breakpoints: Vec<u32>,
    pub metrics: PerformanceMetrics,
}

impl View for Machine {
    type V = MachineModel;

    open spec fn view(&self) -> MachineModel {
        MachineModel { cpu: self.cpu, bus: self.bus@, breakpoints: self.breakpoints@, metrics: self.metrics }
    }
}

fn install_entry(bus: &mut SystemBus, name: &str, base: u64, size: u64, dev: Device)
    ensures
        final(bus)@ == (BusModel {
            entries: install(old(bus)@.entries, EntryModel { name: name@, base, size, irq: None, dev }),
            ..old(bus)@
        }),
{
    let n = bus.peripherals.len();
    let key = name.to_owned();
    let mut i: usize = 0;
    while i < n
        invariant
            i <= n,
            n == bus.peripherals@.len(),
            key@ == name@,
            *bus == *old(bus),
            find_slot(bus@.entries, name@, base, 0) == find_slot(bus@.entries, name@, base, i as int),
        decreases n - i,
    {
        if bus.peripherals[i].name == key || bus.peripherals[i].base == base {
            let e = PeripheralEntry { name: key, base, size, irq: None, dev };
            bus.peripherals.set(i, e);
            assert(bus@.entries =~= install(old(bus)@.entries, EntryModel { name: name@, base, size, irq: None, dev }));
            return;
        }
        i = i + 1;
    }
    bus.peripherals.push(PeripheralEntry { name: key, base, size, irq: None, dev });
    assert(bus@.entries =~= install(old(bus)@.entries, EntryModel { name: name@, base, size, irq: None, dev }));
}

impl Machine {
    /// A machine with the standard memory map.
    pub fn new() -> (r: Machine)
        ensures
            r.cpu == CortexM::zeroed(),
            r.bus@.nvic == Some(nvic_clear()),
            r.bus@.vtor == 0,
            exists|es: Seq<EntryModel>|
                crate::bus::standard_entries(es) && r.bus@.entries == install(install(es, scb_entry()), nvic_entry()),
    {
        Machine::with_bus(SystemBus::new())
    }

    /// A machine around `bus`, with the SCB (VTOR) at 0xE000_ED00 and the NVIC at
    /// 0xE000_E100 installed in place of any entry of the same name or base, a fresh
    /// core, VTOR 0 and the NVIC state cleared.
    pub fn with_bus(bus: SystemBus) -> (r: Machine)
        ensures
            r.cpu == CortexM::zeroed(),
            r.bus@ == (BusModel {
                entries: install(install(bus@.entries, scb_entry()), nvic_entry()),
                nvic: Some(nvic_clear()),
                vtor: 0,
                ..bus@
            }),
            r.breakpoints@.len() == 0,
            r.metrics.instruction_count == 0 && r.metrics.cycle_count == 0,
    {
        let mut bus = bus;
        bus.vtor = 0;
        let st = NvicState::new();
        assert(st@.iser =~= nvic_clear().iser);
        assert(st@.ispr =~= nvic_clear().ispr);
        bus.nvic = Some(st);
        install_entry(&mut bus, "scb", SCB_BASE, SCB_SIZE, Device::Scb(Scb::new()));
        install_entry(&mut bus, "nvic", NVIC_BASE, NVIC_SIZE, Device::Nvic(Nvic::new()));
        Machine { cpu: CortexM::new(), bus, breakpoints: Vec::new(), metrics: PerformanceMetrics::new() }
    }

    /// Resets the core from the vector table at VTOR.
    pub fn reset(&mut self) -> (r: SimResult<()>)
        ensures
            final(self)@ == old(self)@.reset_spec(),
            r is Ok,
    {
        self.cpu.pc = 0;
        self.cpu.sp = 0x2000_0000;
        self.cpu.pending_exceptions = 0;
        let vtor = self.bus.vtor as u64;
        if let Ok(sp) = self.bus.read_u32(vtor) {
            self.cpu.sp = sp;
        }
        if let Ok(pc) = self.bus.read_u32(vtor + 4) {
            self.cpu.pc = pc & !1u32;
        }
        Ok(())
    }

    /// Copies the image's segments into memory (flash first, then RAM; a segment that
    /// fits neither is skipped), resets, and falls back to the image's entry point when
    /// the vector table gives PC 0.
    pub fn load_firmware(&mut self, image: &ProgramImage) -> (r: SimResult<()>)
        ensures
            r is Ok,
            ({
                let (f, ram) = load_segments(old(self)@.bus.flash, old(self)@.bus.ram, image.segments@, 0);
                let loaded = MachineModel { bus: BusModel { flash: f, ram, ..old(self)@.bus }, ..old(self)@ };
                let m = loaded.reset_spec();
                final(self)@ == if m.cpu.pc == 0 {
                    MachineModel { cpu: CortexM { pc: image.entry_point as u32, ..m.cpu }, ..m }
                } else {
                    m
                }
            }),
    {
        let n = image.segments.len();
        let mut i: usize = 0;
        while i < n
            invariant
                i <= n,
                n == image.segments@.len(),
                load_segments(old(self)@.bus.flash, old(self)@.bus.ram, image.segments@, 0) == load_segments(
                    self.bus.flash@,
                    self.bus.ram@,
                    image.segments@,
                    i as nat,
                ),
                self@ == (MachineModel { bus: BusModel { flash: self.bus.flash@, ram: self.bus.ram@, ..old(self)@.bus }, ..old(self)@ }),
            decreases n - i,
        {
            let seg = &image.segments[i];
            if !self.bus.flash.load_from_segment(seg) {
                let _ = self.bus.ram.load_from_segment(seg);
            }
            i = i + 1;
        }
        let _ = self.reset();
        if self.cpu.pc == 0 {
            self.cpu.pc = image.entry_point as u32;
        }
        Ok(())
    }

    /// One step of the machine: the core steps, the bus ticks, and every exception the
    /// tick reports becomes pending. The tick happens even when the core step fails;
    /// the core's result is returned.
    pub fn step(&mut self) -> (r: SimResult<()>)
        ensures
            (final(self)@, r) == old(self)@.step_spec(),
    {
        self.metrics.on_step_start();
        let res = self.cpu.step(&mut self.bus);
        let irqs = self.bus.tick_peripherals();
        let n = irqs.len();
        let mut i: usize = 0;
        let ghost p0 = self.cpu.pending_exceptions;
        let ghost c1 = self.cpu;
        let ghost b2 = self.bus@;
        let ghost m1 = self.metrics;
        assert(irqs@.subrange(0, n as int) =~= irqs@);
        while i < n
            invariant
                i <= n,
                n == irqs@.len(),
                pend_all(p0, irqs@) == pend_all(self.cpu.pending_exceptions, irqs@.subrange(i as int, n as int)),
                self.cpu == (CortexM { pending_exceptions: self.cpu.pending_exceptions, ..c1 }),
                self.bus@ == b2,
                self.metrics == m1,
                self.breakpoints == old(self).breakpoints,
            decreases n - i,
        {
            assert(irqs@.subrange(i as int, n as int).drop_first() =~= irqs@.subrange(i + 1, n as int));
            self.cpu.set_exception_pending(irqs[i]);
            i = i + 1;
        }
        assert(irqs@.subrange(n as int, n as int) =~= Seq::<u32>::empty());
        self.metrics.on_step_end(1);
        res
    }

    pub fn has_breakpoint(&self, addr: u32) -> (r: bool)
        ensures
            r == self.breakpoints@.contains(addr),
    {
        let mut i: usize = 0;
        while i < self.breakpoints.len()
            invariant
                i <= self.breakpoints@.len(),
                forall|k: int| 0 <= k < i ==> self.breakpoints@[k] != addr,
            decreases self.breakpoints@.len() - i,
        {
            if self.breakpoints[i] == addr {
                return true;
            }
            i = i + 1;
        }
        false
    }

    pub fn add_breakpoint(&mut self, addr: u32)
        ensures
            forall|x: u32| final(self).breakpoints@.contains(x) <==> (old(self).breakpoints@.contains(x) || x == addr),
            final(self).cpu == old(self).cpu && final(self).bus == old(self).bus,
            final(self).metrics == old(self).metrics,
    {
        if !self.has_breakpoint(addr) {
            self.breakpoints.push(addr);
            assert forall|x: u32| self.breakpoints@.contains(x) <==> (old(self).breakpoints@.contains(x) || x == addr) by {
                if old(self).breakpoints@.contains(x) {
                    let k = choose|k: int| 0 <= k < old(self).breakpoints@.len() && old(self).breakpoints@[k] == x;
                    assert(self.breakpoints@[k] == x);
                }
                if x == addr {
                    assert(self.breakpoints@[self.breakpoints@.len() - 1] == x);
                }
            }
        }
    }

    pub fn remove_breakpoint(&mut self, addr: u32)
        ensures
            forall|x: u32| final(self).breakpoints@.contains(x) <==> (old(self).breakpoints@.contains(x) && x != addr),
            final(self).cpu == old(self).cpu && final(self).bus == old(self).bus,
            final(self).metrics == old(self).metrics,
    {
        let mut kept: Vec<u32> = Vec::new();
        let mut i: usize = 0;
        while i < self.breakpoints.len()
            invariant
                i <= self.breakpoints@.len(),
                *self == *old(self),
                forall|x: u32| kept@.contains(x) <==> (exists|k: int| 0 <= k < i && self.breakpoints@[k] == x && x != addr),
            decreases self.breakpoints@.len() - i,
        {
            let b = self.breakpoints[i];
            let ghost prev = kept@;
            if b != addr {
                kept.push(b);
            }
            assert forall|x: u32| kept@.contains(x) <==> (exists|k: int| 0 <= k < i + 1 && self.breakpoints@[k] == x && x != addr) by {
                if kept@.contains(x) {
                    let j = choose|j: int| 0 <= j < kept@.len() && kept@[j] == x;
                    if j < kept@.len() - 1 || b == addr {
                        assert(prev.contains(x) || b == x);
                    }
                }
                if exists|k: int| 0 <= k < i + 1 && self.breakpoints@[k] == x && x != addr {
                    let k = choose|k: int| 0 <= k < i + 1 && self.breakpoints@[k] == x && x != addr;
                    if k < i {
                        assert(prev.contains(x));
                        let j = choose|j: int| 0 <= j < prev.len() && prev[j] == x;
                        assert(kept@[j] == x);
                    } else {
                        assert(kept@[kept@.len() - 1] == x);
                    }
                }
            }
            i = i + 1;
        }
        self.breakpoints = kept;
    }

    pub fn clear_breakpoints(&mut self)
        ensures
            final(self).breakpoints@.len() == 0,
            final(self).cpu == old(self).cpu && final(self).bus == old(self).bus,
            final(self).metrics == old(self).metrics,
    {
        self.breakpoints.clear();
    }

    /// Steps until the PC (bit 0 cleared) is a breakpoint before a step, a step fails,
    /// or `max_steps` steps have run (at least one).
    pub fn run(&mut self, max_steps: u32) -> (r: SimResult<StopReason>)
        ensures
            (final(self)@, r) == old(self)@.run_spec(max_steps as nat, 0),
    {
        let mut steps: u32 = 0;
        loop
            invariant
                steps == 0 || steps < max_steps,
                old(self)@.run_spec(max_steps as nat, 0) == self@.run_spec(max_steps as nat, steps as nat),
            decreases max_steps - steps,
        {
            let pc = self.cpu.pc;
            if self.has_breakpoint(pc & !1u32) {
                return Ok(StopReason::Breakpoint(pc));
            }
            self.step()?;
            steps = steps + 1;
            if steps >= max_steps {
                return Ok(StopReason::MaxStepsReached);
            }
        }
    }

    pub fn step_single(&mut self) -> (r: SimResult<StopReason>)
        ensures
            final(self)@ == old(self)@.step_spec().0,
            r == match old(self)@.step_spec().1 {
                Ok(_) => Ok(StopReason::StepDone),
                Err(e) => Err::<StopReason, SimulationError>(e),
            },
    {
        self.step()?;
        Ok(StopReason::StepDone)
    }

    pub fn read_core_reg(&self, id: u8) -> (r: u32)
        ensures
            r == core_reg(self.cpu, id),
    {
        if id < 16 {
            self.cpu.read_reg(id)
        } else if id == 16 {
            self.cpu.xpsr
        } else {
            0
        }
    }

    pub fn write_core_reg(&mut self, id: u8, val: u32)
        ensures
            final(self)@ == (MachineModel { cpu: with_core_reg(old(self).cpu, id, val), ..old(self)@ }),
    {
        if id < 16 {
            self.cpu.write_reg(id, val);
        } else if id == 16 {
            self.cpu.xpsr = val;
        }
    }

    /// `len` bytes from `addr` through the bus; the first unmapped byte fails the read.
    pub fn read_memory(&self, addr: u32, len: usize) -> (r: SimResult<Vec<u8>>)
        requires
            addr + len <= u64::MAX,
        ensures
            match r {
                Ok(v) => read_bytes(self.bus@, addr as u64, len as nat) == Ok::<Seq<u8>, SimulationError>(v@),
                Err(e) => read_bytes(self.bus@, addr as u64, len as nat) == Err::<Seq<u8>, SimulationError>(e),
            },
    {
        let mut data: Vec<u8> = Vec::new();
        let mut i: usize = 0;
        while i < len
            invariant
                i <= len,
                addr + len <= u64::MAX,
                read_bytes(self.bus@, addr as u64, i as nat) == Ok::<Seq<u8>, SimulationError>(data@),
            decreases len - i,
        {
            match self.bus.read_u8(addr as u64 + i as u64) {
                Ok(b) => data.push(b),
                Err(e) => {
                    proof {
                        lemma_read_bytes_err(self.bus@, addr as u64, (i + 1) as nat, len as nat);
                    }
                    return Err(e);
                },
            }
            i = i + 1;
        }
        Ok(data)
    }

    /// Writes `data` from `addr` byte by byte; the first unmapped byte fails the write,
    /// and the bytes before it stay written.
    pub fn write_memory(&mut self, addr: u32, data: &[u8]) -> (r: SimResult<()>)
        requires
            addr + data@.len() <= u64::MAX,
        ensures
            (r, final(self)@.bus) == old(self)@.bus.write_bytes(addr as u64, data@),
            final(self)@ == (MachineModel { bus: final(self)@.bus, ..old(self)@ }),
    {
        self.bus.write_bytes(addr as u64, data)
    }

    /// The core's registers and status as they stand.
    pub fn snapshot(&self) -> (r: CpuSnapshot)
        ensures
            r.registers@.len() == 16,
            forall|i: int| 0 <= i < 16 ==> #[trigger] r.registers@[i] == self.cpu.reg(i as u8),
            r.xpsr == self.cpu.xpsr,
            r.primask == self.cpu.primask,
            r.pending_exceptions == self.cpu.pending_exceptions,
            r.vtor == self.bus.vtor,
    {
        let mut registers: Vec<u32> = Vec::new();
        let mut i: u8 = 0;
        while i < 16
            invariant
                i <= 16,
                registers@.len() == i,
                forall|k: int| 0 <= k < i ==> #[trigger] registers@[k] == self.cpu.reg(k as u8),
            decreases 16 - i,
        {
            registers.push(self.cpu.read_reg(i));
            i = i + 1;
        }
        CpuSnapshot {
            registers,
            xpsr: self.cpu.xpsr,
            primask: self.cpu.primask,
            pending_exceptions: self.cpu.pending_exceptions,
            vtor: self.bus.vtor,
        }
    }
}

} // verus!
