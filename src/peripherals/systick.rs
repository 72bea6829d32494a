use vstd::prelude::*;
use crate::bits::{byte_of, with_byte, get_byte, set_byte};

verus! {

pub const SYST_CSR: u64 = 0x00;
pub const SYST_RVR: u64 = 0x04;
pub const SYST_CVR: u64 = 0x08;
pub const SYST_CALIB: u64 = 0x0C;
pub const CSR_ENABLE: u32 = 0x1;
pub const CSR_TICKINT: u32 = 0x2;
pub const CSR_COUNTFLAG: u32 = 0x10000;

/// The SysTick timer: a 24-bit down-counter with reload, raising exception 15
/// when it wraps with TICKINT set.
#[derive(Debug, Clone, Copy)]
pub struct Systick {
    pub csr: u32,
    pub rvr: u32,
    pub cvr: u32,
    pub calib: u32,
}

impl Systick {
    pub open spec fn read_spec(self, offset: u64) -> u32 {
        if offset == SYST_CSR {
            self.csr
        } else if offset == SYST_RVR {
            self.rvr
        } else if offset == SYST_CVR {
            self.cvr
        } else if offset == SYST_CALIB {
            self.calib
        } else {
            0
        }
    }

    pub open spec fn write_spec(self, offset: u64, value: u32) -> Systick {
        if offset == SYST_CSR {
            Systick { csr: value & 0x7, ..self }
        } else if offset == SYST_RVR {
            Systick { rvr: value & 0x00FF_FFFF, ..self }
        } else if offset == SYST_CVR {
            Systick { cvr: 0, csr: self.csr & !CSR_COUNTFLAG, ..self }
        } else {
            self
        }
    }

    /// One tick: the new state and whether the interrupt is raised.
    pub open spec fn tick_spec(self) -> (Systick, bool) {
        if self.csr & CSR_ENABLE == 0 {
            (self, false)
        } else if self.cvr == 0 {
            (Systick { cvr: self.rvr, csr: self.csr | CSR_COUNTFLAG, ..self }, self.csr & CSR_TICKINT != 0)
        } else {
            (Systick { cvr: (self.cvr - 1) as u32, ..self }, false)
        }
    }

    pub open spec fn read_byte_spec(self, offset: u64) -> u8 {
        byte_of(self.read_spec((offset - offset % 4) as u64), offset % 4)
    }

    /// A byte write updates one byte of the addressed register and keeps the other three.
    pub open spec fn write_byte_spec(self, offset: u64, value: u8) -> Systick {
        let reg = (offset - offset % 4) as u64;
        self.write_spec(reg, with_byte(self.read_spec(reg), offset % 4, value))
    }

    pub fn new() -> (r: Self)
        ensures
            r.csr == 0 && r.rvr == 0 && r.cvr == 0 && r.calib == 0x4000_0000,
    {
        Systick { csr: 0, rvr: 0, cvr: 0, calib: 0x4000_0000 }
    }

    pub fn read(&self, offset: u64) -> (r: u32)
        ensures
            r == self.read_spec(offset),
    {
        if offset == SYST_CSR {
            self.csr
        } else if offset == SYST_RVR {
            self.rvr
        } else if offset == SYST_CVR {
            self.cvr
        } else if offset == SYST_CALIB {
            self.calib
        } else {
            0
        }
    }

    pub fn write(&mut self, offset: u64, value: u32)
        ensures
            *final(self) == old(self).write_spec(offset, value),
    {
        if offset == SYST_CSR {
            self.csr = value & 0x7;
        } else if offset == SYST_RVR {
            self.rvr = value & 0x00FF_FFFF;
        } else if offset == SYST_CVR {
            self.cvr = 0;
            self.csr = self.csr & !CSR_COUNTFLAG;
        }
    }

    /// Advances the counter by one; returns whether the interrupt is raised.
    pub fn tick(&mut self) -> (irq: bool)
        ensures
            (*final(self), irq) == old(self).tick_spec(),
    {
        if self.csr & CSR_ENABLE == 0 {
            false
        } else if self.cvr == 0 {
            let irq = self.csr & CSR_TICKINT != 0;
            self.cvr = self.rvr;
            self.csr = self.csr | CSR_COUNTFLAG;
            irq
        } else {
            self.cvr = self.cvr - 1;
            false
        }
    }

    pub fn read_byte(&self, offset: u64) -> (r: u8)
        ensures
            r == self.read_byte_spec(offset),
    {
        get_byte(self.read(offset - offset % 4), offset % 4)
    }

    pub fn write_byte(&mut self, offset: u64, value: u8)
        ensures
            *final(self) == old(self).write_byte_spec(offset, value),
    {
        let reg = offset - offset % 4;
        let w = set_byte(self.read(reg), offset % 4, value);
        self.write(reg, w);
    }
}

/// The timer after `k` ticks.
pub open spec fn ticks(s: Systick, k: nat) -> Systick
    decreases k,
{
    if k == 0 {
        s
    } else {
        ticks(s, (k - 1) as nat).tick_spec().0
    }
}

/// Whether tick number `k` (counting from 1) raises the interrupt.
pub open spec fn tick_raises(s: Systick, k: nat) -> bool {
    k >= 1 && ticks(s, (k - 1) as nat).tick_spec().1
}

/// Started with CVR 0, reload value `n` and ENABLE and TICKINT set, tick `k` leaves
/// CVR at `n - ((k - 1) mod (n + 1))` (so n, n-1, ..., 0, n, ...), and raises the
/// interrupt exactly on the ticks that found CVR at 0.
pub proof fn lemma_systick_sequence(s: Systick, k: nat)
    requires
        s.cvr == 0,
        s.csr & CSR_ENABLE != 0,
        s.csr & CSR_TICKINT != 0,
        k >= 1,
    ensures
        ticks(s, k).cvr == s.rvr - ((k - 1) % (s.rvr + 1)),
        tick_raises(s, k) == (ticks(s, (k - 1) as nat).cvr == 0),
        tick_raises(s, k) == ((k - 1) % (s.rvr + 1) == 0),
        ticks(s, k).rvr == s.rvr,
        ticks(s, k).csr & CSR_ENABLE != 0,
        ticks(s, k).csr & CSR_TICKINT != 0,
    decreases k,
{
    let n = s.rvr as int;
    assert forall|c: u32| c & CSR_ENABLE != 0 && c & CSR_TICKINT != 0 implies (c | CSR_COUNTFLAG) & CSR_ENABLE
        != 0 && (c | CSR_COUNTFLAG) & CSR_TICKINT != 0 by {
        assert(c & 1u32 != 0 && c & 2u32 != 0 ==> (c | 0x10000u32) & 1u32 != 0 && (c | 0x10000u32) & 2u32 != 0)
            by (bit_vector);
    }
    if k == 1 {
        assert(ticks(s, 0) == s);
        assert(0int % (n + 1) == 0) by (nonlinear_arith)
            requires
                n >= 0,
        ;
    } else {
        lemma_systick_sequence(s, (k - 1) as nat);
        let prev = ticks(s, (k - 1) as nat);
        let r = (k - 2) % (n + 1);
        let q = (k - 2) / (n + 1);
        vstd::arithmetic::div_mod::lemma_fundamental_div_mod((k - 2) as int, n + 1);
        vstd::arithmetic::div_mod::lemma_mod_bound((k - 2) as int, n + 1);
        assert(prev.cvr == n - r);
        assert(k - 2 == (n + 1) * q + r);
        if r == n {
            assert((k - 1) as int == (q + 1) * (n + 1) + 0) by (nonlinear_arith)
                requires
                    k - 2 == (n + 1) * q + r,
                    r == n,
            ;
            vstd::arithmetic::div_mod::lemma_fundamental_div_mod_converse((k - 1) as int, n + 1, q + 1, 0);
        } else {
            assert((k - 1) as int == q * (n + 1) + (r + 1)) by (nonlinear_arith)
                requires
                    k - 2 == (n + 1) * q + r,
            ;
            vstd::arithmetic::div_mod::lemma_fundamental_div_mod_converse((k - 1) as int, n + 1, q, r + 1);
        }
    }
}

} // verus!
