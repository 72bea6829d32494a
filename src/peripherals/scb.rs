use vstd::prelude::*;
use crate::bits::{byte_of, with_byte, get_byte, set_byte};

verus! {

pub const SCB_VTOR: u64 = 0x08;

/// The System Control Block window. Its one modelled register, VTOR, lives in the
/// bus, where the core reads it at reset and at exception entry.
#[derive(Debug, Clone, Copy)]
pub struct Scb {}

pub open spec fn scb_read_spec(vtor: u32, offset: u64) -> u8 {
    if SCB_VTOR <= offset < SCB_VTOR + 4 {
        byte_of(vtor, (offset - SCB_VTOR) as u64)
    } else {
        0
    }
}

pub open spec fn scb_write_spec(vtor: u32, offset: u64, value: u8) -> u32 {
    if SCB_VTOR <= offset < SCB_VTOR + 4 {
        with_byte(vtor, (offset - SCB_VTOR) as u64, value)
    } else {
        vtor
    }
}

impl Scb {
    pub fn new() -> Scb {
        Scb {}
    }

    pub fn read_byte(&self, vtor: u32, offset: u64) -> (r: u8)
        ensures
            r == scb_read_spec(vtor, offset),
    {
        if SCB_VTOR <= offset && offset < SCB_VTOR + 4 {
            get_byte(vtor, offset - SCB_VTOR)
        } else {
            0
        }
    }

    pub fn write_byte(&self, vtor: &mut u32, offset: u64, value: u8)
        ensures
            *final(vtor) == scb_write_spec(*old(vtor), offset, value),
    {
        if SCB_VTOR <= offset && offset < SCB_VTOR + 4 {
            *vtor = set_byte(*vtor, offset - SCB_VTOR, value);
        }
    }
}

} // verus!
