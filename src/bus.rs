use vstd::prelude::*;
use crate::bits::{word_of, half_of};
use crate::memory::{LinearMemory, MemModel};
use crate::peripherals::gpio::GpioPort;
use crate::peripherals::nvic::{Nvic, NvicModel, NvicState, lemma_nvic_word_writes};
use crate::peripherals::scb::{Scb, scb_read_spec, scb_write_spec};
use crate::peripherals::systick::Systick;
use crate::peripherals::uart::{Stub, Uart};
use crate::{PeripheralTickResult, SimResult, SimulationError};

verus! {

broadcast use vstd::array::group_array_axioms;

/// The devices a bus can hold.
#[derive(Debug, Clone, Copy)]
pub enum Device {
    Uart(Uart),
    Systick(Systick),
    Gpio(GpioPort),
    Nvic(Nvic),
    Scb(Scb),
    Stub(Stub),
}

/// A device mapped at `[base, base + size)`, raising exception `irq` when it ticks an interrupt.
pub struct PeripheralEntry {
    pub name: String,
    pub base: u64,
    pub size: u64,
    pub irq: Option<u32>,
    pub dev: Device,
}

pub struct EntryModel {
    pub name: Seq<char>,
    pub base: u64,
    pub size: u64,
    pub irq: Option<u32>,
    pub dev: Device,
}

impl EntryModel {
    pub open spec fn claims(self, a: u64) -> bool {
        self.base <= a && a - self.base < self.size
    }
}

impl View for PeripheralEntry {
    type V = EntryModel;

    open spec fn view(&self) -> EntryModel {
        EntryModel { name: self.name@, base: self.base, size: self.size, irq: self.irq, dev: self.dev }
    }
}

/// The abstract state of the bus.
pub struct BusModel {
    pub flash: MemModel,
    pub ram: MemModel,
    pub entries: Seq<EntryModel>,
    pub nvic: Option<NvicModel>,
    pub vtor: u32,
    /// Whether UART transmissions are captured into `tx`.
    pub capture: bool,
    /// The captured UART bytes.
    pub tx: Seq<u8>,
    /// UART bytes waiting to be echoed to standard output.
    pub echo: Seq<u8>,
}

impl BusModel {
    /// The first peripheral at or after `j` that claims `a`.
    pub open spec fn find_from(self, a: u64, j: int) -> Option<int>
        decreases self.entries.len() - j,
    {
        if j < 0 || j >= self.entries.len() {
            None
        } else if self.entries[j].claims(a) {
            Some(j)
        } else {
            self.find_from(a, j + 1)
        }
    }

    pub open spec fn find(self, a: u64) -> Option<int> {
        self.find_from(a, 0)
    }

    pub open spec fn dev_read(self, dev: Device, off: u64) -> u8 {
        match dev {
            Device::Uart(u) => u.read_spec(off),
            Device::Systick(s) => s.read_byte_spec(off),
            Device::Gpio(g) => g.read_byte_spec(off),
            Device::Nvic(_) => match self.nvic {
                Some(n) => n.read_byte(off),
                None => 0,
            },
            Device::Scb(_) => scb_read_spec(self.vtor, off),
            Device::Stub(s) => s.value,
        }
    }

    /// RAM first, then flash, then the first peripheral that claims the address.
    #[verifier::opaque]
    pub open spec fn read_u8(self, a: u64) -> SimResult<u8> {
        if self.ram.contains(a) {
            Ok(self.ram.read_u8(a).unwrap())
        } else if self.flash.contains(a) {
            Ok(self.flash.read_u8(a).unwrap())
        } else {
            match self.find(a) {
                Some(j) => Ok(self.dev_read(self.entries[j].dev, (a - self.entries[j].base) as u64)),
                None => Err(SimulationError::MemoryViolation(a)),
            }
        }
    }

    pub open spec fn set_dev(self, j: int, dev: Device) -> BusModel {
        BusModel { entries: self.entries.update(j, EntryModel { dev, ..self.entries[j] }), ..self }
    }

    pub open spec fn dev_write(self, j: int, off: u64, v: u8) -> BusModel {
        match self.entries[j].dev {
            Device::Uart(u) => match u.write_spec(off, v) {
                Some(b) => BusModel {
                    tx: if self.capture { self.tx.push(b) } else { self.tx },
                    echo: if u.echo_stdout { self.echo.push(b) } else { self.echo },
                    ..self
                },
                None => self,
            },
            Device::Systick(s) => self.set_dev(j, Device::Systick(s.write_byte_spec(off, v))),
            Device::Gpio(g) => self.set_dev(j, Device::Gpio(g.write_byte_spec(off, v))),
            Device::Nvic(_) => match self.nvic {
                Some(n) => BusModel { nvic: Some(n.write_byte(off, v)), ..self },
                None => self,
            },
            Device::Scb(_) => BusModel { vtor: scb_write_spec(self.vtor, off, v), ..self },
            Device::Stub(_) => self,
        }
    }

    /// The outcome of a byte write and the bus after it.
    #[verifier::opaque]
    pub open spec fn write_u8(self, a: u64, v: u8) -> (SimResult<()>, BusModel) {
        if self.ram.contains(a) {
            (Ok(()), BusModel { ram: self.ram.write_u8(a, v), ..self })
        } else if self.flash.contains(a) {
            (Ok(()), BusModel { flash: self.flash.write_u8(a, v), ..self })
        } else {
            match self.find(a) {
                Some(j) => (Ok(()), self.dev_write(j, (a - self.entries[j].base) as u64, v)),
                None => (Err(SimulationError::MemoryViolation(a)), self),
            }
        }
    }

    /// Little-endian, the lowest address first; the first failing byte decides the error.
    #[verifier::opaque]
    pub open spec fn read_u16(self, a: u64) -> SimResult<u16> {
        match self.read_u8(a) {
            Err(e) => Err(e),
            Ok(b0) => match self.read_u8((a + 1) as u64) {
                Err(e) => Err(e),
                Ok(b1) => Ok(half_of(b0, b1)),
            },
        }
    }

    #[verifier::opaque]
    pub open spec fn read_u32(self, a: u64) -> SimResult<u32> {
        match self.read_u8(a) {
            Err(e) => Err(e),
            Ok(b0) => match self.read_u8((a + 1) as u64) {
                Err(e) => Err(e),
                Ok(b1) => match self.read_u8((a + 2) as u64) {
                    Err(e) => Err(e),
                    Ok(b2) => match self.read_u8((a + 3) as u64) {
                        Err(e) => Err(e),
                        Ok(b3) => Ok(word_of(b0, b1, b2, b3)),
                    },
                },
            },
        }
    }

    /// Byte writes in ascending address order; bytes written before a failure stay written.
    pub open spec fn write_bytes(self, a: u64, bs: Seq<u8>) -> (SimResult<()>, BusModel)
        decreases bs.len(),
    {
        if bs.len() == 0 {
            (Ok(()), self)
        } else {
            let (r, b) = self.write_u8(a, bs[0]);
            match r {
                Err(e) => (Err(e), b),
                Ok(_) => b.write_bytes((a + 1) as u64, bs.drop_first()),
            }
        }
    }

    #[verifier::opaque]
    pub open spec fn write_u16(self, a: u64, v: u16) -> (SimResult<()>, BusModel) {
        self.write_bytes(a, seq![(v & 0xFF) as u8, ((v >> 8u16) & 0xFF) as u8])
    }

    #[verifier::opaque]
    pub open spec fn write_u32(self, a: u64, v: u32) -> (SimResult<()>, BusModel) {
        self.write_bytes(
            a,
            seq![
                (v & 0xFF) as u8,
                ((v >> 8u32) & 0xFF) as u8,
                ((v >> 16u32) & 0xFF) as u8,
                ((v >> 24u32) & 0xFF) as u8,
            ],
        )
    }

    /// Routes an interrupt raised by a peripheral: external interrupts become NVIC
    /// pending bits when an NVIC is installed; anything else is reported directly.
    pub open spec fn route_irq(self, n: u32) -> (BusModel, Option<u32>) {
        if n >= 16 && self.nvic.is_some() {
            let nv = self.nvic.unwrap();
            let idx = (n - 16) / 32;
            let bit = (n - 16) % 32;
            if idx < 8 {
                (
                    BusModel {
                        nvic: Some(NvicModel { ispr: nv.ispr.update(idx as int, nv.ispr[idx as int] | (1u32 << bit as u32)), ..nv }),
                        ..self
                    },
                    None,
                )
            } else {
                (self, None)
            }
        } else {
            (self, Some(n))
        }
    }

    /// Ticks entry `j`: the bus after it and the exception number it reports directly.
    pub open spec fn tick_entry(self, j: int) -> (BusModel, Option<u32>) {
        match self.entries[j].dev {
            Device::Systick(s) => {
                let (s2, raised) = s.tick_spec();
                let b = self.set_dev(j, Device::Systick(s2));
                if raised && self.entries[j].irq.is_some() {
                    b.route_irq(self.entries[j].irq.unwrap())
                } else {
                    (b, None)
                }
            },
            _ => (self, None),
        }
    }

    /// The first `j` peripherals ticked in order: the exceptions reported and the bus after.
    pub open spec fn tick_upto(self, j: nat) -> (Seq<u32>, BusModel)
        decreases j,
    {
        if j == 0 {
            (Seq::empty(), self)
        } else {
            let (irqs, b) = self.tick_upto((j - 1) as nat);
            let (b2, direct) = b.tick_entry(j - 1);
            match direct {
                Some(n) => (irqs.push(n), b2),
                None => (irqs, b2),
            }
        }
    }

    /// The enabled and pending external interrupts among the first `k`, in ascending order.
    pub open spec fn scan_upto(self, k: nat) -> Seq<u32>
        decreases k,
    {
        if k == 0 {
            Seq::empty()
        } else {
            let prev = self.scan_upto((k - 1) as nat);
            let i = ((k - 1) / 32) as int;
            let bit = ((k - 1) % 32) as u32;
            let nv = self.nvic.unwrap();
            if nv.iser[i] & nv.ispr[i] & (1u32 << bit) != 0 {
                prev.push((16 + k - 1) as u32)
            } else {
                prev
            }
        }
    }

    pub open spec fn nvic_signals(self) -> Seq<u32> {
        if self.nvic.is_some() {
            self.scan_upto(256)
        } else {
            Seq::empty()
        }
    }

    /// Ticks every peripheral, then reports the enabled and pending NVIC interrupts.
    pub open spec fn tick(self) -> (Seq<u32>, BusModel) {
        let (irqs, b) = self.tick_upto(self.entries.len());
        (irqs + b.nvic_signals(), b)
    }
}

/// RAM, flash, and the memory-mapped peripherals, with the state that the NVIC
/// and SCB windows share with the core.
pub struct SystemBus {
    pub flash: LinearMemory,
    pub ram: LinearMemory,
    pub peripherals: Vec<PeripheralEntry>,
    pub nvic: Option<NvicState>,
    pub vtor: u32,
    pub uart_capture: bool,
    pub uart_tx: Vec<u8>,
    pub uart_echo: Vec<u8>,
}

impl View for SystemBus {
    type V = BusModel;

    open spec fn view(&self) -> BusModel {
        BusModel {
            flash: self.flash@,
            ram: self.ram@,
            entries: self.peripherals@.map_values(|e: PeripheralEntry| e@),
            nvic: match self.nvic {
                Some(n) => Some(n@),
                None => None,
            },
            vtor: self.vtor,
            capture: self.uart_capture,
            tx: self.uart_tx@,
            echo: self.uart_echo@,
        }
    }
}

impl Device {
    /// The tick behaviour of each device: only SysTick counts and raises interrupts.
    pub fn tick(&mut self) -> (r: PeripheralTickResult)
        ensures
            match *old(self) {
                Device::Systick(s) => *final(self) == Device::Systick(s.tick_spec().0) && r.irq
                    == s.tick_spec().1,
                _ => *final(self) == *old(self) && !r.irq,
            },
            r.cycles == 0,
    {
        match self {
            Device::Systick(s) => {
                let irq = s.tick();
                PeripheralTickResult { irq, cycles: 0 }
            },
            _ => PeripheralTickResult { irq: false, cycles: 0 },
        }
    }
}

impl SystemBus {
    fn dev_read(&self, dev: Device, off: u64) -> (r: u8)
        ensures
            r == self@.dev_read(dev, off),
    {
        match dev {
            Device::Uart(u) => u.read(off),
            Device::Systick(s) => s.read_byte(off),
            Device::Gpio(g) => g.read_byte(off),
            Device::Nvic(_) => match &self.nvic {
                Some(n) => n.read_byte(off),
                None => 0,
            },
            Device::Scb(sc) => sc.read_byte(self.vtor, off),
            Device::Stub(s) => s.value,
        }
    }

    /// Index of the first peripheral whose window holds `addr`.
    fn find_peripheral(&self, addr: u64) -> (r: Option<usize>)
        ensures
            r matches Some(j) ==> self@.find(addr) == Some(j as int) && j < self.peripherals@.len()
                && self.peripherals@[j as int].base <= addr && addr - self.peripherals@[j as int].base
                < self.peripherals@[j as int].size,
            r is None ==> self@.find(addr) is None,
    {
        let mut i: usize = 0;
        while i < self.peripherals.len()
            invariant
                i <= self.peripherals@.len(),
                self@.find(addr) == self@.find_from(addr, i as int),
            decreases self.peripherals@.len() - i,
        {
            let p = &self.peripherals[i];
            if addr >= p.base && addr - p.base < p.size {
                return Some(i);
            }
            i = i + 1;
        }
        None
    }

    pub fn read_u8(&self, addr: u64) -> (r: SimResult<u8>)
        ensures
            r == self@.read_u8(addr),
    {
        proof {
            reveal(BusModel::read_u8);
        }
        if let Some(v) = self.ram.read_u8(addr) {
            return Ok(v);
        }
        if let Some(v) = self.flash.read_u8(addr) {
            return Ok(v);
        }
        match self.find_peripheral(addr) {
            Some(j) => {
                let p = &self.peripherals[j];
                Ok(self.dev_read(p.dev, addr - p.base))
            },
            None => Err(SimulationError::MemoryViolation(addr)),
        }
    }

    fn set_dev(&mut self, j: usize, dev: Device)
        requires
            j < old(self).peripherals@.len(),
        ensures
            final(self)@ == old(self)@.set_dev(j as int, dev),
            final(self).peripherals@.len() == old(self).peripherals@.len(),
            final(self).peripherals@[j as int].irq == old(self).peripherals@[j as int].irq,
    {
        self.peripherals[j].dev = dev;
        assert(final(self)@.entries =~= old(self)@.set_dev(j as int, dev).entries);
    }

    fn dev_write(&mut self, j: usize, off: u64, v: u8)
        requires
            j < old(self).peripherals@.len(),
        ensures
            final(self)@ == old(self)@.dev_write(j as int, off, v),
    {
        let dev = self.peripherals[j].dev;
        match dev {
            Device::Uart(u) => {
                if let Some(b) = u.write(off, v) {
                    if self.uart_capture {
                        self.uart_tx.push(b);
                    }
                    if u.echo_stdout {
                        self.uart_echo.push(b);
                    }
                }
            },
            Device::Systick(s) => {
                let mut s2 = s;
                s2.write_byte(off, v);
                self.set_dev(j, Device::Systick(s2));
            },
            Device::Gpio(g) => {
                let mut g2 = g;
                g2.write_byte(off, v);
                self.set_dev(j, Device::Gpio(g2));
            },
            Device::Nvic(_) => {
                if let Some(n) = self.nvic {
                    let mut n2 = n;
                    n2.write_byte(off, v);
                    self.nvic = Some(n2);
                }
            },
            Device::Scb(sc) => {
                let mut vt = self.vtor;
                sc.write_byte(&mut vt, off, v);
                self.vtor = vt;
            },
            Device::Stub(_) => {},
        }
    }

    pub fn write_u8(&mut self, addr: u64, value: u8) -> (r: SimResult<()>)
        ensures
            (r, final(self)@) == old(self)@.write_u8(addr, value),
    {
        proof {
            reveal(BusModel::write_u8);
        }
        if self.ram.write_u8(addr, value) {
            return Ok(());
        }
        if self.flash.write_u8(addr, value) {
            return Ok(());
        }
        match self.find_peripheral(addr) {
            Some(j) => {
                let off = addr - self.peripherals[j].base;
                self.dev_write(j, off, value);
                Ok(())
            },
            None => Err(SimulationError::MemoryViolation(addr)),
        }
    }

    /// Writes `bytes` at ascending addresses from `addr`, stopping at the first failure.
    pub fn write_bytes(&mut self, addr: u64, bytes: &[u8]) -> (r: SimResult<()>)
        requires
            addr + bytes@.len() <= u64::MAX + 1,
        ensures
            (r, final(self)@) == old(self)@.write_bytes(addr, bytes@),
    {
        let mut i: usize = 0;
        assert(bytes@.subrange(0, bytes@.len() as int) =~= bytes@);
        while i < bytes.len()
            invariant
                i <= bytes@.len(),
                addr + bytes@.len() <= u64::MAX + 1,
                old(self)@.write_bytes(addr, bytes@) == self@.write_bytes(
                    (addr + i) as u64,
                    bytes@.subrange(i as int, bytes@.len() as int),
                ),
            decreases bytes@.len() - i,
        {
            let ghost rest = bytes@.subrange(i as int, bytes@.len() as int);
            assert(rest.drop_first() =~= bytes@.subrange(i + 1, bytes@.len() as int));
            let r = self.write_u8(addr + i as u64, bytes[i]);
            if r.is_err() {
                return r;
            }
            i = i + 1;
        }
        assert(bytes@.subrange(i as int, bytes@.len() as int) =~= Seq::<u8>::empty());
        Ok(())
    }

    pub fn read_u16(&self, addr: u64) -> (r: SimResult<u16>)
        requires
            addr + 1 <= u64::MAX,
        ensures
            r == self@.read_u16(addr),
    {
        proof {
            reveal(BusModel::read_u16);
        }
        let b0 = self.read_u8(addr)?;
        let b1 = self.read_u8(addr + 1)?;
        Ok(b0 as u16 | ((b1 as u16) << 8u16))
    }

    pub fn read_u32(&self, addr: u64) -> (r: SimResult<u32>)
        requires
            addr + 3 <= u64::MAX,
        ensures
            r == self@.read_u32(addr),
    {
        proof {
            reveal(BusModel::read_u32);
        }
        let b0 = self.read_u8(addr)?;
        let b1 = self.read_u8(addr + 1)?;
        let b2 = self.read_u8(addr + 2)?;
        let b3 = self.read_u8(addr + 3)?;
        Ok((b0 as u32) | ((b1 as u32) << 8u32) | ((b2 as u32) << 16u32) | ((b3 as u32) << 24u32))
    }

    pub fn write_u16(&mut self, addr: u64, value: u16) -> (r: SimResult<()>)
        requires
            addr + 1 <= u64::MAX,
        ensures
            (r, final(self)@) == old(self)@.write_u16(addr, value),
    {
        proof {
            reveal(BusModel::write_u16);
        }
        let bytes: [u8; 2] = [(value & 0xFF) as u8, ((value >> 8u16) & 0xFF) as u8];
        assert(bytes@.len() == 2);
        assert(bytes@ =~= seq![(value & 0xFF) as u8, ((value >> 8u16) & 0xFF) as u8]);
        let sl: &[u8] = &bytes;
        self.write_bytes(addr, sl)
    }

    pub fn write_u32(&mut self, addr: u64, value: u32) -> (r: SimResult<()>)
        requires
            addr + 3 <= u64::MAX,
        ensures
            (r, final(self)@) == old(self)@.write_u32(addr, value),
    {
        proof {
            reveal(BusModel::write_u32);
        }
        let bytes: [u8; 4] = [
            (value & 0xFF) as u8,
            ((value >> 8u32) & 0xFF) as u8,
            ((value >> 16u32) & 0xFF) as u8,
            ((value >> 24u32) & 0xFF) as u8,
        ];
        assert(bytes@.len() == 4);
        assert(bytes@ =~= seq![
            (value & 0xFF) as u8,
            ((value >> 8u32) & 0xFF) as u8,
            ((value >> 16u32) & 0xFF) as u8,
            ((value >> 24u32) & 0xFF) as u8,
        ]);
        let sl: &[u8] = &bytes;
        self.write_bytes(addr, sl)
    }

    fn route_irq(&mut self, n: u32) -> (r: Option<u32>)
        ensures
            (final(self)@, r) == old(self)@.route_irq(n),
            final(self).peripherals == old(self).peripherals,
    {
        if n >= 16 && self.nvic.is_some() {
            let mut nv = self.nvic.unwrap();
            let idx = ((n - 16) / 32) as usize;
            let bit = (n - 16) % 32;
            if idx < 8 {
                nv.ispr[idx] = nv.ispr[idx] | (1u32 << bit);
                self.nvic = Some(nv);
                assert(final(self)@.nvic =~= old(self)@.route_irq(n).0.nvic);
            }
            None
        } else {
            Some(n)
        }
    }

    proof fn lemma_tick_upto_len(m: BusModel, j: nat)
        requires
            j <= m.entries.len(),
        ensures
            m.tick_upto(j).1.entries.len() == m.entries.len(),
        decreases j,
    {
        if j > 0 {
            Self::lemma_tick_upto_len(m, (j - 1) as nat);
            let b = m.tick_upto((j - 1) as nat).1;
            match b.entries[j - 1].dev {
                Device::Systick(s) => {
                    let b2 = b.set_dev(j - 1, Device::Systick(s.tick_spec().0));
                    assert(b2.entries.len() == b.entries.len());
                    if s.tick_spec().1 && b.entries[j - 1].irq.is_some() {
                        assert(b2.route_irq(b.entries[j - 1].irq.unwrap()).0.entries == b2.entries);
                    }
                },
                _ => {},
            }
        }
    }

    /// Ticks every peripheral in insertion order, routes the interrupts they raise,
    /// and returns the exception numbers to make pending: the ones reported directly,
    /// then every enabled and pending NVIC interrupt in ascending order.
    pub fn tick_peripherals(&mut self) -> (r: Vec<u32>)
        ensures
            (r@, final(self)@) == old(self)@.tick(),
    {
        let mut irqs: Vec<u32> = Vec::new();
        let n = self.peripherals.len();
        let mut i: usize = 0;
        while i < n
            invariant
                i <= n,
                n == self.peripherals@.len(),
                n == old(self)@.entries.len(),
                (irqs@, self@) == old(self)@.tick_upto(i as nat),
            decreases n - i,
        {
            let ghost before = self@;
            let mut dev = self.peripherals[i].dev;
            assert(before.entries[i as int].dev == dev);
            if let Device::Systick(_) = dev {
                let res = dev.tick();
                self.set_dev(i, dev);
                if res.irq {
                    if let Some(line) = self.peripherals[i].irq {
                        if let Some(d) = self.route_irq(line) {
                            irqs.push(d);
                        }
                    }
                }
            }
            assert((irqs@, self@) == old(self)@.tick_upto((i + 1) as nat));
            i = i + 1;
        }
        proof {
            Self::lemma_tick_upto_len(old(self)@, n as nat);
        }
        let ghost direct = irqs@;
        if let Some(nv) = self.nvic {
            let mut idx: usize = 0;
            while idx < 8
                invariant
                    idx <= 8,
                    self.nvic == Some(nv),
                    irqs@ == direct + self@.scan_upto((32 * idx) as nat),
                decreases 8 - idx,
            {
                let mask = nv.iser[idx] & nv.ispr[idx];
                let mut bit: u32 = 0;
                while bit < 32
                    invariant
                        idx < 8,
                        bit <= 32,
                        self.nvic == Some(nv),
                        mask == nv.iser@[idx as int] & nv.ispr@[idx as int],
                        irqs@ == direct + self@.scan_upto((32 * idx + bit) as nat),
                    decreases 32 - bit,
                {
                    let ghost k = (32 * idx + bit) as nat;
                    assert((k + 1 - 1) / 32 == idx && (k + 1 - 1) % 32 == bit) by (nonlinear_arith)
                        requires
                            k == 32 * idx + bit,
                            bit < 32,
                    ;
                    if mask & (1u32 << bit) != 0 {
                        irqs.push(16 + 32 * (idx as u32) + bit);
                    }
                    assert(irqs@ =~= direct + self@.scan_upto(k + 1));
                    bit = bit + 1;
                }
                idx = idx + 1;
            }
        }
        assert(irqs@ =~= direct + self@.nvic_signals());
        irqs
    }

    /// The standard memory map: 1 MiB of flash at 0, 1 MiB of RAM at 0x2000_0000,
    /// SysTick, UART1, GPIOA..C, RCC, TIM2/3, I2C1/2 and SPI1/2; no NVIC state yet.
    pub fn new() -> (r: Self)
        ensures
            r@.flash == (MemModel { base: 0, bytes: Seq::new(0x10_0000, |i: int| 0u8) }),
            r@.ram == (MemModel { base: 0x2000_0000, bytes: Seq::new(0x10_0000, |i: int| 0u8) }),
            standard_entries(r@.entries),
            r@.nvic is None,
            r@.vtor == 0,
            !r@.capture,
            r@.tx.len() == 0,
            r@.echo.len() == 0,
    {
        let mut v: Vec<PeripheralEntry> = Vec::new();
        v.push(entry("systick", 0xe000e010, 0x10, Some(15), Device::Systick(Systick::new())));
        v.push(entry("uart1", 0x4000c000, 0x1000, None, Device::Uart(Uart::new())));
        v.push(entry("gpioa", 0x40010800, 0x400, None, Device::Gpio(GpioPort::new())));
        v.push(entry("gpiob", 0x40010c00, 0x400, None, Device::Gpio(GpioPort::new())));
        v.push(entry("gpioc", 0x40011000, 0x400, None, Device::Gpio(GpioPort::new())));
        v.push(entry("rcc", 0x40021000, 0x400, None, Device::Stub(Stub::new(0))));
        v.push(entry("tim2", 0x40000000, 0x400, Some(28), Device::Stub(Stub::new(0))));
        v.push(entry("tim3", 0x40000400, 0x400, Some(29), Device::Stub(Stub::new(0))));
        v.push(entry("i2c1", 0x40005400, 0x400, Some(31), Device::Stub(Stub::new(0))));
        v.push(entry("i2c2", 0x40005800, 0x400, Some(33), Device::Stub(Stub::new(0))));
        v.push(entry("spi1", 0x40013000, 0x400, Some(35), Device::Stub(Stub::new(0))));
        v.push(entry("spi2", 0x40003800, 0x400, Some(36), Device::Stub(Stub::new(0))));
        let r = SystemBus {
            flash: LinearMemory::new(0x10_0000, 0),
            ram: LinearMemory::new(0x10_0000, 0x2000_0000),
            peripherals: v,
            nvic: None,
            vtor: 0,
            uart_capture: false,
            uart_tx: Vec::new(),
            uart_echo: Vec::new(),
        };
        assert(r@.entries =~= r.peripherals@.map_values(|e: PeripheralEntry| e@));
        r
    }

    /// Turns capture of transmitted UART bytes on or off and sets every UART's echo flag.
    pub fn attach_uart_tx_sink(&mut self, capture: bool, echo_stdout: bool)
        ensures
            final(self)@ == (BusModel {
                capture,
                entries: uart_echo_set(old(self)@.entries, echo_stdout, old(self)@.entries.len() as int),
                ..old(self)@
            }),
    {
        self.uart_capture = capture;
        let n = self.peripherals.len();
        let mut i: usize = 0;
        assert(self@.entries =~= uart_echo_set(old(self)@.entries, echo_stdout, 0));
        while i < n
            invariant
                i <= n,
                n == old(self)@.entries.len(),
                n == self.peripherals@.len(),
                self@ == (BusModel {
                    capture,
                    entries: uart_echo_set(old(self)@.entries, echo_stdout, i as int),
                    ..old(self)@
                }),
            decreases n - i,
        {
            let dev = self.peripherals[i].dev;
            if let Device::Uart(_) = dev {
                self.set_dev(i, Device::Uart(Uart { echo_stdout }));
            }
            assert(self@.entries =~= uart_echo_set(old(self)@.entries, echo_stdout, i + 1));
            i = i + 1;
        }
    }

    /// Hands over the UART bytes waiting to be echoed to standard output.
    pub fn take_uart_echo(&mut self) -> (r: Vec<u8>)
        ensures
            r@ == old(self)@.echo,
            final(self)@ == (BusModel { echo: Seq::empty(), ..old(self)@ }),
    {
        let mut out: Vec<u8> = Vec::new();
        std::mem::swap(&mut out, &mut self.uart_echo);
        out
    }
}

/// The entries with the echo flag of every UART among the first `i` set to `echo`.
pub open spec fn uart_echo_set(es: Seq<EntryModel>, echo: bool, i: int) -> Seq<EntryModel> {
    Seq::new(
        es.len(),
        |k: int|
            if k < i && es[k].dev is Uart {
                EntryModel { dev: Device::Uart(Uart { echo_stdout: echo }), ..es[k] }
            } else {
                es[k]
            },
    )
}

/// A GPIO port in its reset state.
pub open spec fn gpio_reset() -> GpioPort {
    GpioPort { crl: 0x4444_4444, crh: 0x4444_4444, idr: 0, odr: 0, lckr: 0 }
}

/// The peripherals of the standard memory map, in bus order.
pub open spec fn standard_entries(seq: Seq<EntryModel>) -> bool {
    &&& seq.len() == 12
    &&& seq[0] == (EntryModel { name: "systick"@, base: 0xe000e010, size: 0x10, irq: Some(15), dev: Device::Systick(Systick { csr: 0, rvr: 0, cvr: 0, calib: 0x4000_0000 }) })
    &&& seq[1] == (EntryModel { name: "uart1"@, base: 0x4000c000, size: 0x1000, irq: None, dev: Device::Uart(Uart { echo_stdout: true }) })
    &&& seq[2] == (EntryModel { name: "gpioa"@, base: 0x40010800, size: 0x400, irq: None, dev: Device::Gpio(gpio_reset()) })
    &&& seq[3] == (EntryModel { name: "gpiob"@, base: 0x40010c00, size: 0x400, irq: None, dev: Device::Gpio(gpio_reset()) })
    &&& seq[4] == (EntryModel { name: "gpioc"@, base: 0x40011000, size: 0x400, irq: None, dev: Device::Gpio(gpio_reset()) })
    &&& seq[5] == (EntryModel { name: "rcc"@, base: 0x40021000, size: 0x400, irq: None, dev: Device::Stub(Stub { value: 0 }) })
    &&& seq[6] == (EntryModel { name: "tim2"@, base: 0x40000000, size: 0x400, irq: Some(28), dev: Device::Stub(Stub { value: 0 }) })
    &&& seq[7] == (EntryModel { name: "tim3"@, base: 0x40000400, size: 0x400, irq: Some(29), dev: Device::Stub(Stub { value: 0 }) })
    &&& seq[8] == (EntryModel { name: "i2c1"@, base: 0x40005400, size: 0x400, irq: Some(31), dev: Device::Stub(Stub { value: 0 }) })
    &&& seq[9] == (EntryModel { name: "i2c2"@, base: 0x40005800, size: 0x400, irq: Some(33), dev: Device::Stub(Stub { value: 0 }) })
    &&& seq[10] == (EntryModel { name: "spi1"@, base: 0x40013000, size: 0x400, irq: Some(35), dev: Device::Stub(Stub { value: 0 }) })
    &&& seq[11] == (EntryModel { name: "spi2"@, base: 0x40003800, size: 0x400, irq: Some(36), dev: Device::Stub(Stub { value: 0 }) })
}

fn entry(name: &str, base: u64, size: u64, irq: Option<u32>, dev: Device) -> (r: PeripheralEntry)
    ensures
        r@ == (EntryModel { name: name@, base, size, irq, dev }),
{
    PeripheralEntry { name: name.to_owned(), base, size, irq, dev }
}

/// A byte written through the bus to an address that RAM or flash holds reads back,
/// through the bus, as that byte.
pub proof fn lemma_bus_write_then_read(b: BusModel, a: u64, v: u8)
    requires
        b.ram.contains(a) || b.flash.contains(a),
    ensures
        b.write_u8(a, v).0 is Ok,
        b.write_u8(a, v).1.read_u8(a) == Ok::<u8, SimulationError>(v),
{
    reveal(BusModel::write_u8);
    reveal(BusModel::read_u8);
}

/// One peripheral of a chip description: its id, its kind ("uart", "systick", "gpio",
/// "rcc", "timer", "i2c", "spi"), its base address, and whether an external device
/// description replaces it with a stub.
pub struct PeripheralSpec {
    pub id: String,
    pub kind: String,
    pub base: u64,
    pub stubbed: bool,
}

/// The value a stubbed external device reads as.
pub const EXTERNAL_STUB_VALUE: u8 = 0x42;

/// The size of every window of a described peripheral.
pub const DESCRIBED_WINDOW: u64 = 0x1000;

/// The device for a peripheral kind, or `None` for a kind this simulator does not know.
pub open spec fn device_for(kind: Seq<char>) -> Option<Device> {
    if kind == "uart"@ {
        Some(Device::Uart(Uart { echo_stdout: true }))
    } else if kind == "systick"@ {
        Some(Device::Systick(Systick { csr: 0, rvr: 0, cvr: 0, calib: 0x4000_0000 }))
    } else if kind == "gpio"@ {
        Some(Device::Gpio(gpio_reset()))
    } else if kind == "rcc"@ || kind == "timer"@ || kind == "i2c"@ || kind == "spi"@ {
        Some(Device::Stub(Stub { value: 0 }))
    } else {
        None
    }
}

/// The entry a described peripheral becomes, if its kind is known.
pub open spec fn described_entry(id: Seq<char>, kind: Seq<char>, base: u64, stubbed: bool) -> Option<EntryModel> {
    match device_for(kind) {
        None => None,
        Some(d) => Some(
            EntryModel {
                name: id,
                base,
                size: DESCRIBED_WINDOW,
                irq: if id == "systick"@ { Some(15u32) } else { None },
                dev: if stubbed { Device::Stub(Stub { value: EXTERNAL_STUB_VALUE }) } else { d },
            },
        ),
    }
}

/// The entries of the first `k` described peripherals, unknown kinds skipped.
pub open spec fn described_entries(specs: Seq<PeripheralSpec>, k: nat) -> Seq<EntryModel>
    decreases k,
{
    if k == 0 {
        Seq::empty()
    } else {
        let prev = described_entries(specs, (k - 1) as nat);
        let p = specs[k - 1];
        match described_entry(p.id@, p.kind@, p.base, p.stubbed) {
            Some(e) => prev.push(e),
            None => prev,
        }
    }
}

fn device_for_kind(kind: &String) -> (r: Option<Device>)
    ensures
        r == device_for(kind@),
{
    if *kind == "uart".to_owned() {
        Some(Device::Uart(Uart::new()))
    } else if *kind == "systick".to_owned() {
        Some(Device::Systick(Systick::new()))
    } else if *kind == "gpio".to_owned() {
        Some(Device::Gpio(GpioPort::new()))
    } else if *kind == "rcc".to_owned() || *kind == "timer".to_owned() || *kind == "i2c".to_owned() || *kind
        == "spi".to_owned() {
        Some(Device::Stub(Stub::new(0)))
    } else {
        None
    }
}

impl SystemBus {
    /// A bus from a chip description: zeroed flash and RAM of the given bases and
    /// sizes, and the described peripherals in order, each with a 4 KiB window.
    pub fn from_layout(flash_base: u64, flash_size: usize, ram_base: u64, ram_size: usize, specs: &Vec<PeripheralSpec>) -> (r: SystemBus)
        ensures
            r@.flash == (MemModel { base: flash_base, bytes: Seq::new(flash_size as nat, |i: int| 0u8) }),
            r@.ram == (MemModel { base: ram_base, bytes: Seq::new(ram_size as nat, |i: int| 0u8) }),
            r@.entries == described_entries(specs@, specs@.len()),
            r@.nvic is None,
            r@.vtor == 0,
            !r@.capture,
            r@.tx.len() == 0,
            r@.echo.len() == 0,
    {
        let mut v: Vec<PeripheralEntry> = Vec::new();
        let mut i: usize = 0;
        while i < specs.len()
            invariant
                i <= specs@.len(),
                v@.map_values(|e: PeripheralEntry| e@) == described_entries(specs@, i as nat),
            decreases specs@.len() - i,
        {
            let p = &specs[i];
            if let Some(d) = device_for_kind(&p.kind) {
                let irq = if p.id == "systick".to_owned() { Some(15u32) } else { None };
                let dev = if p.stubbed { Device::Stub(Stub::new(EXTERNAL_STUB_VALUE)) } else { d };
                v.push(PeripheralEntry { name: p.id.clone(), base: p.base, size: DESCRIBED_WINDOW, irq, dev });
            }
            assert(v@.map_values(|e: PeripheralEntry| e@) =~= described_entries(specs@, (i + 1) as nat));
            i = i + 1;
        }
        SystemBus {
            flash: LinearMemory::new(flash_size, flash_base),
            ram: LinearMemory::new(ram_size, ram_base),
            peripherals: v,
            nvic: None,
            vtor: 0,
            uart_capture: false,
            uart_tx: Vec::new(),
            uart_echo: Vec::new(),
        }
    }
}

/// The NVIC window answers at the four addresses of a word: RAM and flash do not hold
/// them, and the first peripheral that claims each is entry `j`, an NVIC.
pub open spec fn nvic_word_at(b: BusModel, j: int, a: u64) -> bool {
    &&& b.nvic is Some
    &&& 0 <= j < b.entries.len()
    &&& b.entries[j].dev is Nvic
    &&& b.entries[j].base <= a
    &&& a + 3 <= u64::MAX
    &&& forall|k: int|
        0 <= k < 4 ==> !b.ram.contains(#[trigger] ((a + k) as u64)) && !b.flash.contains((a + k) as u64)
            && b.find((a + k) as u64) == Some(j)
}

proof fn lemma_nvic_byte(b: BusModel, j: int, a: u64, k: int, v: u8)
    requires
        nvic_word_at(b, j, a),
        0 <= k < 4,
    ensures
        b.write_u8((a + k) as u64, v) == (Ok::<(), SimulationError>(()), BusModel {
            nvic: Some(b.nvic.unwrap().write_byte((a + k - b.entries[j].base) as u64, v)),
            ..b
        }),
        b.read_u8((a + k) as u64) == Ok::<u8, SimulationError>(b.nvic.unwrap().read_byte((a + k - b.entries[j].base) as u64)),
        nvic_word_at(BusModel { nvic: Some(b.nvic.unwrap().write_byte((a + k - b.entries[j].base) as u64, v)), ..b }, j, a),
{
    reveal(BusModel::write_u8);
    reveal(BusModel::read_u8);
    assert(!b.ram.contains((a + k) as u64));
    let b2 = BusModel { nvic: Some(b.nvic.unwrap().write_byte((a + k - b.entries[j].base) as u64, v)), ..b };
    assert forall|q: int, x: u64| #[trigger] b2.find_from(x, q) == b.find_from(x, q) by {
        lemma_find_same(b, b2, x, q);
    }
    assert forall|q: int|
        0 <= q < 4 implies !b2.ram.contains(#[trigger] ((a + q) as u64)) && !b2.flash.contains((a + q) as u64)
        && b2.find((a + q) as u64) == Some(j) by {
        assert(!b.ram.contains((a + q) as u64));
    }
}

proof fn lemma_find_same(b: BusModel, b2: BusModel, x: u64, q: int)
    requires
        b2.entries == b.entries,
    ensures
        b2.find_from(x, q) == b.find_from(x, q),
    decreases b.entries.len() - q,
{
    if 0 <= q < b.entries.len() {
        lemma_find_same(b, b2, x, q + 1);
    }
}

/// A 32-bit bus write to a word of the NVIC window acts on the NVIC state as four byte
/// writes in ascending order, and a 32-bit bus read returns the word the NVIC reads as.
pub proof fn lemma_bus_nvic_word(b: BusModel, j: int, a: u64, m: u32)
    requires
        nvic_word_at(b, j, a),
    ensures
        b.write_u32(a, m) == (Ok::<(), SimulationError>(()), BusModel {
            nvic: Some(b.nvic.unwrap().write_word((a - b.entries[j].base) as u64, m)),
            ..b
        }),
        b.read_u32(a) == Ok::<u32, SimulationError>(b.nvic.unwrap().read_word((a - b.entries[j].base) as u64)),
{
    reveal(BusModel::write_u32);
    reveal(BusModel::read_u32);
    reveal(NvicModel::write_word);
    reveal(NvicModel::read_word);
    reveal_with_fuel(BusModel::write_bytes, 5);
    let off = (a - b.entries[j].base) as u64;
    let bs = seq![
        (m & 0xFF) as u8,
        ((m >> 8u32) & 0xFF) as u8,
        ((m >> 16u32) & 0xFF) as u8,
        ((m >> 24u32) & 0xFF) as u8,
    ];
    assert(bs.drop_first() =~= seq![bs[1], bs[2], bs[3]]);
    assert(bs.drop_first().drop_first() =~= seq![bs[2], bs[3]]);
    assert(bs.drop_first().drop_first().drop_first() =~= seq![bs[3]]);
    assert(bs.drop_first().drop_first().drop_first().drop_first() =~= Seq::<u8>::empty());
    assert((m & 0xFF) as u8 == crate::bits::byte_of(m, 0)) by (bit_vector);
    lemma_nvic_byte(b, j, a, 0, bs[0]);
    let b1 = BusModel { nvic: Some(b.nvic.unwrap().write_byte(off, bs[0])), ..b };
    lemma_nvic_byte(b1, j, a, 1, bs[1]);
    let b2 = BusModel { nvic: Some(b1.nvic.unwrap().write_byte((off + 1) as u64, bs[1])), ..b1 };
    lemma_nvic_byte(b2, j, a, 2, bs[2]);
    let b3 = BusModel { nvic: Some(b2.nvic.unwrap().write_byte((off + 2) as u64, bs[2])), ..b2 };
    lemma_nvic_byte(b3, j, a, 3, bs[3]);
    assert((a + 0) as u64 == a);
    lemma_nvic_byte(b, j, a, 1, 0);
    lemma_nvic_byte(b, j, a, 2, 0);
    lemma_nvic_byte(b, j, a, 3, 0);
}

proof fn lemma_nvic_word_at_keeps(b: BusModel, n: NvicModel, j: int, a: u64)
    requires
        nvic_word_at(b, j, a),
    ensures
        nvic_word_at(BusModel { nvic: Some(n), ..b }, j, a),
{
    let b2 = BusModel { nvic: Some(n), ..b };
    assert forall|q: int, x: u64| #[trigger] b2.find_from(x, q) == b.find_from(x, q) by {
        lemma_find_same(b, b2, x, q);
    }
}

proof fn lemma_write_then_read_word(b: BusModel, j: int, wa: u64, ra: u64, m: u32)
    requires
        nvic_word_at(b, j, wa),
        nvic_word_at(b, j, ra),
    ensures
        b.write_u32(wa, m).1.read_u32(ra) == Ok::<u32, SimulationError>(
            b.nvic.unwrap().write_word((wa - b.entries[j].base) as u64, m).read_word((ra - b.entries[j].base) as u64),
        ),
{
    let n1 = b.nvic.unwrap().write_word((wa - b.entries[j].base) as u64, m);
    lemma_bus_nvic_word(b, j, wa, m);
    lemma_nvic_word_at_keeps(b, n1, j, ra);
    lemma_bus_nvic_word(BusModel { nvic: Some(n1), ..b }, j, ra, 0);
}

/// Through the bus, with the NVIC window at `base`: after a 32-bit write of mask `m` to
/// ISER[i], a 32-bit read of ISER[i] returns the previous value OR `m`; a write of `m` to
/// ICER[i] clears exactly the bits of `m` in it; ISPR[i] and ICPR[i] do the same to the
/// pending word.
pub proof fn lemma_nvic_set_clear_through_bus(b: BusModel, j: int, i: u64, m: u32)
    requires
        b.nvic matches Some(n) && n.wf(),
        i < 8,
        0 <= j < b.entries.len(),
        b.entries[j].base + 0x180 + 4 * i + 3 <= u64::MAX,
        nvic_word_at(b, j, (b.entries[j].base + 4 * i) as u64),
        nvic_word_at(b, j, (b.entries[j].base + 0x80 + 4 * i) as u64),
        nvic_word_at(b, j, (b.entries[j].base + 0x100 + 4 * i) as u64),
        nvic_word_at(b, j, (b.entries[j].base + 0x180 + 4 * i) as u64),
    ensures
        ({
            let base = b.entries[j].base;
            let n = b.nvic.unwrap();
            let iser = (base + 4 * i) as u64;
            let ispr = (base + 0x100 + 4 * i) as u64;
            &&& b.write_u32(iser, m).1.read_u32(iser) == Ok::<u32, SimulationError>(n.iser[i as int] | m)
            &&& b.write_u32((base + 0x80 + 4 * i) as u64, m).1.read_u32(iser) == Ok::<u32, SimulationError>(
                n.iser[i as int] & !m,
            )
            &&& b.write_u32(ispr, m).1.read_u32(ispr) == Ok::<u32, SimulationError>(n.ispr[i as int] | m)
            &&& b.write_u32((base + 0x180 + 4 * i) as u64, m).1.read_u32(ispr) == Ok::<u32, SimulationError>(
                n.ispr[i as int] & !m,
            )
        }),
{
    let base = b.entries[j].base;
    let n = b.nvic.unwrap();
    let iser = (base + 4 * i) as u64;
    let icer = (base + 0x80 + 4 * i) as u64;
    let ispr = (base + 0x100 + 4 * i) as u64;
    let icpr = (base + 0x180 + 4 * i) as u64;
    assert((iser - base) as u64 == (4 * i) as u64);
    assert((icer - base) as u64 == (0x80 + 4 * i) as u64);
    assert((ispr - base) as u64 == (0x100 + 4 * i) as u64);
    assert((icpr - base) as u64 == (0x180 + 4 * i) as u64);
    lemma_nvic_word_writes(n, i, m);
    lemma_write_then_read_word(b, j, iser, iser, m);
    lemma_write_then_read_word(b, j, icer, iser, m);
    lemma_write_then_read_word(b, j, ispr, ispr, m);
    lemma_write_then_read_word(b, j, icpr, ispr, m);
    let n1 = n.write_word((4 * i) as u64, m);
    let n2 = n.write_word((0x80 + 4 * i) as u64, m);
    let n3 = n.write_word((0x100 + 4 * i) as u64, m);
    let n4 = n.write_word((0x180 + 4 * i) as u64, m);
    lemma_nvic_word_writes(n1, i, 0);
    lemma_nvic_word_writes(n2, i, 0);
    lemma_nvic_word_writes(n3, i, 0);
    lemma_nvic_word_writes(n4, i, 0);
}

} // verus!
