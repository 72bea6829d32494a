use vstd::prelude::*;
use crate::bits::{byte_of, get_byte};

verus! {

pub const GPIO_CRL: u64 = 0x00;
pub const GPIO_CRH: u64 = 0x04;
pub const GPIO_IDR: u64 = 0x08;
pub const GPIO_ODR: u64 = 0x0C;
pub const GPIO_BSRR: u64 = 0x10;
pub const GPIO_BRR: u64 = 0x14;
pub const GPIO_LCKR: u64 = 0x18;

/// An STM32F1-style GPIO port.
#[derive(Debug, Clone, Copy)]
pub struct GpioPort {
    pub crl: u32,
    pub crh: u32,
    pub idr: u32,
    pub odr: u32,
    pub lckr: u32,
}

/// Output data after a BSRR write of `v`: low half sets bits, high half clears them.
pub open spec fn bsrr_apply(odr: u32, v: u32) -> u32 {
    (odr | (v & 0xFFFF)) & !((v >> 16u32) & 0xFFFF)
}

impl GpioPort {
    /// The value a register reads as; BSRR and BRR are write-only and read as zero.
    pub open spec fn reg_spec(self, offset: u64) -> u32 {
        if offset == GPIO_CRL {
            self.crl
        } else if offset == GPIO_CRH {
            self.crh
        } else if offset == GPIO_IDR {
            self.idr
        } else if offset == GPIO_ODR {
            self.odr
        } else if offset == GPIO_LCKR {
            self.lckr
        } else {
            0
        }
    }

    pub open spec fn write_reg_spec(self, offset: u64, value: u32) -> GpioPort {
        if offset == GPIO_CRL {
            GpioPort { crl: value, ..self }
        } else if offset == GPIO_CRH {
            GpioPort { crh: value, ..self }
        } else if offset == GPIO_ODR {
            GpioPort { odr: value & 0xFFFF, ..self }
        } else if offset == GPIO_BSRR {
            GpioPort { odr: bsrr_apply(self.odr, value), ..self }
        } else if offset == GPIO_BRR {
            GpioPort { odr: self.odr & !(value & 0xFFFF), ..self }
        } else if offset == GPIO_LCKR {
            GpioPort { lckr: value, ..self }
        } else {
            self
        }
    }

    pub open spec fn read_byte_spec(self, offset: u64) -> u8 {
        byte_of(self.reg_spec((offset - offset % 4) as u64), offset % 4)
    }

    /// A byte write acts on the register as a word write of the old register
    /// value with that byte replaced. For the write-only BSRR and BRR the other
    /// bytes read as zero, so each byte of a wide write acts on its own bits.
    pub open spec fn write_byte_spec(self, offset: u64, value: u8) -> GpioPort {
        let reg = (offset - offset % 4) as u64;
        let k = offset % 4;
        let old = self.reg_spec(reg);
        let merged = (old & !((0xFFu32) << (8 * k) as u32)) | ((value as u32) << (8 * k) as u32);
        self.write_reg_spec(reg, merged)
    }

    pub fn new() -> (r: Self)
        ensures
            r.crl == 0x4444_4444 && r.crh == 0x4444_4444,
            r.idr == 0 && r.odr == 0 && r.lckr == 0,
    {
        GpioPort { crl: 0x4444_4444, crh: 0x4444_4444, idr: 0, odr: 0, lckr: 0 }
    }

    pub fn read_reg(&self, offset: u64) -> (r: u32)
        ensures
            r == self.reg_spec(offset),
    {
        if offset == GPIO_CRL {
            self.crl
        } else if offset == GPIO_CRH {
            self.crh
        } else if offset == GPIO_IDR {
            self.idr
        } else if offset == GPIO_ODR {
            self.odr
        } else if offset == GPIO_LCKR {
            self.lckr
        } else {
            0
        }
    }

    pub fn write_reg(&mut self, offset: u64, value: u32)
        ensures
            *final(self) == old(self).write_reg_spec(offset, value),
    {
        if offset == GPIO_CRL {
            self.crl = value;
        } else if offset == GPIO_CRH {
            self.crh = value;
        } else if offset == GPIO_ODR {
            self.odr = value & 0xFFFF;
        } else if offset == GPIO_BSRR {
            let set = value & 0xFFFF;
            let reset = (value >> 16u32) & 0xFFFF;
            self.odr = (self.odr | set) & !reset;
        } else if offset == GPIO_BRR {
            self.odr = self.odr & !(value & 0xFFFF);
        } else if offset == GPIO_LCKR {
            self.lckr = value;
        }
    }

    pub fn read_byte(&self, offset: u64) -> (r: u8)
        ensures
            r == self.read_byte_spec(offset),
    {
        get_byte(self.read_reg(offset - offset % 4), offset % 4)
    }

    pub fn write_byte(&mut self, offset: u64, value: u8)
        ensures
            *final(self) == old(self).write_byte_spec(offset, value),
    {
        let reg = offset - offset % 4;
        let k = offset % 4;
        let old = self.read_reg(reg);
        let merged = (old & !((0xFFu32) << (8 * k) as u32)) | ((value as u32) << (8 * k) as u32);
        self.write_reg(reg, merged);
    }
}

} // verus!
