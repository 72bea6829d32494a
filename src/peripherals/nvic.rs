use vstd::prelude::*;
use crate::bits::{byte_of, get_byte, word_of, lemma_word_bytes};

verus! {

/// Enable and pending bits of the 256 external interrupts (exceptions 16..271),
/// eight 32-bit words each.
#[derive(Debug, Clone, Copy)]
pub struct NvicState {
    pub iser: [u32; 8],
    pub ispr: [u32; 8],
}

/// The abstract NVIC state: the ISER and ISPR words.
pub struct NvicModel {
    pub iser: Seq<u32>,
    pub ispr: Seq<u32>,
}

/// The NVIC register window; its state lives in the bus's `NvicState`.
#[derive(Debug, Clone, Copy)]
pub struct Nvic {}

impl Nvic {
    pub fn new() -> Nvic {
        Nvic {}
    }
}

/// The mask that a byte write of `b` at byte `k` of a word stands for.
pub open spec fn byte_mask(b: u8, k: u64) -> u32 {
    (b as u32) << (8 * k) as u32
}

pub const ISER_END: u64 = 0x20;
pub const ICER_START: u64 = 0x80;
pub const ICER_END: u64 = 0xA0;
pub const ISPR_START: u64 = 0x100;
pub const ISPR_END: u64 = 0x120;
pub const ICPR_START: u64 = 0x180;
pub const ICPR_END: u64 = 0x1A0;

impl NvicModel {
    pub open spec fn wf(self) -> bool {
        self.iser.len() == 8 && self.ispr.len() == 8
    }

    pub open spec fn read_byte(self, offset: u64) -> u8 {
        let val = if offset < ISER_END {
            self.iser[(offset / 4) as int]
        } else if ISPR_START <= offset < ISPR_END {
            self.ispr[((offset - ISPR_START) / 4) as int]
        } else {
            0
        };
        byte_of(val, offset % 4)
    }

    /// ISER and ISPR writes OR bits in; ICER and ICPR writes clear the bits written.
    pub open spec fn write_byte(self, offset: u64, value: u8) -> NvicModel {
        let mask = byte_mask(value, offset % 4);
        if offset < ISER_END {
            let i = (offset / 4) as int;
            NvicModel { iser: self.iser.update(i, self.iser[i] | mask), ..self }
        } else if ICER_START <= offset < ICER_END {
            let i = ((offset - ICER_START) / 4) as int;
            NvicModel { iser: self.iser.update(i, self.iser[i] & !mask), ..self }
        } else if ISPR_START <= offset < ISPR_END {
            let i = ((offset - ISPR_START) / 4) as int;
            NvicModel { ispr: self.ispr.update(i, self.ispr[i] | mask), ..self }
        } else if ICPR_START <= offset < ICPR_END {
            let i = ((offset - ICPR_START) / 4) as int;
            NvicModel { ispr: self.ispr.update(i, self.ispr[i] & !mask), ..self }
        } else {
            self
        }
    }

    /// Four byte writes of `w`, in ascending address order, as a 32-bit bus write makes them.
    #[verifier::opaque]
    pub open spec fn write_word(self, offset: u64, w: u32) -> NvicModel {
        self.write_byte(offset, byte_of(w, 0)).write_byte((offset + 1) as u64, byte_of(w, 1)).write_byte(
            (offset + 2) as u64,
            byte_of(w, 2),
        ).write_byte((offset + 3) as u64, byte_of(w, 3))
    }

    /// Whether external interrupt `irq` (an exception number of 16 or more) is enabled;
    /// core exceptions always are.
    pub open spec fn is_enabled(self, irq: u32) -> bool {
        if irq < 16 {
            true
        } else if (irq - 16) / 32 < 8 {
            self.iser[((irq - 16) / 32) as int] & (1u32 << ((irq - 16) % 32) as u32) != 0
        } else {
            false
        }
    }
}

impl View for NvicState {
    type V = NvicModel;

    open spec fn view(&self) -> NvicModel {
        NvicModel { iser: self.iser@, ispr: self.ispr@ }
    }
}

impl NvicState {
    pub fn new() -> (r: Self)
        ensures
            r@.wf(),
            forall|i: int| 0 <= i < 8 ==> r.iser@[i] == 0 && r.ispr@[i] == 0,
    {
        NvicState { iser: [0u32; 8], ispr: [0u32; 8] }
    }

    pub fn read_byte(&self, offset: u64) -> (r: u8)
        ensures
            r == self@.read_byte(offset),
    {
        let val = if offset < ISER_END {
            self.iser[(offset / 4) as usize]
        } else if ISPR_START <= offset && offset < ISPR_END {
            self.ispr[((offset - ISPR_START) / 4) as usize]
        } else {
            0
        };
        get_byte(val, offset % 4)
    }

    pub fn write_byte(&mut self, offset: u64, value: u8)
        ensures
            final(self)@ == old(self)@.write_byte(offset, value),
    {
        let k = offset % 4;
        let mask = (value as u32) << (8 * k) as u32;
        if offset < ISER_END {
            let i = (offset / 4) as usize;
            let w = self.iser[i] | mask;
            self.iser[i] = w;
        } else if ICER_START <= offset && offset < ICER_END {
            let i = ((offset - ICER_START) / 4) as usize;
            let w = self.iser[i] & !mask;
            self.iser[i] = w;
        } else if ISPR_START <= offset && offset < ISPR_END {
            let i = ((offset - ISPR_START) / 4) as usize;
            let w = self.ispr[i] | mask;
            self.ispr[i] = w;
        } else if ICPR_START <= offset && offset < ICPR_END {
            let i = ((offset - ICPR_START) / 4) as usize;
            let w = self.ispr[i] & !mask;
            self.ispr[i] = w;
        }
        assert(final(self)@ =~= old(self)@.write_byte(offset, value));
    }

    pub fn is_enabled(&self, irq: u32) -> (r: bool)
        ensures
            r == self@.is_enabled(irq),
    {
        if irq < 16 {
            return true;
        }
        let idx = ((irq - 16) / 32) as usize;
        let bit = (irq - 16) % 32;
        if idx < 8 {
            self.iser[idx] & (1u32 << bit) != 0
        } else {
            false
        }
    }
}

impl NvicModel {
    /// A 32-bit read as four byte reads, lowest address first.
    #[verifier::opaque]
    pub open spec fn read_word(self, offset: u64) -> u32 {
        word_of(
            self.read_byte(offset),
            self.read_byte((offset + 1) as u64),
            self.read_byte((offset + 2) as u64),
            self.read_byte((offset + 3) as u64),
        )
    }
}

proof fn lemma_or_bytes(x: u32, m: u32)
    ensures
        x | byte_mask(byte_of(m, 0), 0) | byte_mask(byte_of(m, 1), 1) | byte_mask(byte_of(m, 2), 2) | byte_mask(
            byte_of(m, 3),
            3,
        ) == x | m,
        x & !byte_mask(byte_of(m, 0), 0) & !byte_mask(byte_of(m, 1), 1) & !byte_mask(byte_of(m, 2), 2)
            & !byte_mask(byte_of(m, 3), 3) == x & !m,
{
    let b0 = ((m >> 0u32) & 0xFF) as u8;
    let b1 = ((m >> 8u32) & 0xFF) as u8;
    let b2 = ((m >> 16u32) & 0xFF) as u8;
    let b3 = ((m >> 24u32) & 0xFF) as u8;
    assert(byte_mask(byte_of(m, 0), 0) == (b0 as u32) << 0u32);
    assert(byte_mask(byte_of(m, 1), 1) == (b1 as u32) << 8u32);
    assert(byte_mask(byte_of(m, 2), 2) == (b2 as u32) << 16u32);
    assert(byte_mask(byte_of(m, 3), 3) == (b3 as u32) << 24u32);
    assert(x | ((b0 as u32) << 0u32) | ((b1 as u32) << 8u32) | ((b2 as u32) << 16u32) | ((b3 as u32) << 24u32)
        == x | m) by (bit_vector)
        requires
            b0 == ((m >> 0u32) & 0xFF) as u8,
            b1 == ((m >> 8u32) & 0xFF) as u8,
            b2 == ((m >> 16u32) & 0xFF) as u8,
            b3 == ((m >> 24u32) & 0xFF) as u8,
    ;
    assert(x & !((b0 as u32) << 0u32) & !((b1 as u32) << 8u32) & !((b2 as u32) << 16u32) & !((b3 as u32)
        << 24u32) == x & !m) by (bit_vector)
        requires
            b0 == ((m >> 0u32) & 0xFF) as u8,
            b1 == ((m >> 8u32) & 0xFF) as u8,
            b2 == ((m >> 16u32) & 0xFF) as u8,
            b3 == ((m >> 24u32) & 0xFF) as u8,
    ;
}

/// A 32-bit write of mask `m` to ISER[i] leaves ISER[i] as its old value OR `m`, to
/// ICER[i] clears exactly the bits of `m` in ISER[i]; ISPR[i] and ICPR[i] do the same
/// to the pending word. Nothing else changes, and a 32-bit read of ISER[i] or ISPR[i]
/// returns the word.
pub proof fn lemma_nvic_word_writes(s: NvicModel, i: u64, m: u32)
    requires
        s.wf(),
        i < 8,
    ensures
        s.write_word((4 * i) as u64, m) == (NvicModel { iser: s.iser.update(i as int, s.iser[i as int] | m), ..s }),
        s.write_word((0x80 + 4 * i) as u64, m) == (NvicModel { iser: s.iser.update(i as int, s.iser[i as int] & !m), ..s }),
        s.write_word((0x100 + 4 * i) as u64, m) == (NvicModel { ispr: s.ispr.update(i as int, s.ispr[i as int] | m), ..s }),
        s.write_word((0x180 + 4 * i) as u64, m) == (NvicModel { ispr: s.ispr.update(i as int, s.ispr[i as int] & !m), ..s }),
        s.read_word((4 * i) as u64) == s.iser[i as int],
        s.read_word((0x100 + 4 * i) as u64) == s.ispr[i as int],
{
    reveal(NvicModel::write_word);
    reveal(NvicModel::read_word);
    lemma_or_bytes(s.iser[i as int], m);
    lemma_or_bytes(s.ispr[i as int], m);
    lemma_word_bytes(s.iser[i as int]);
    lemma_word_bytes(s.ispr[i as int]);
    let bases: Seq<u64> = seq![(4 * i) as u64, (0x80 + 4 * i) as u64, (0x100 + 4 * i) as u64, (0x180 + 4 * i) as u64];
    assert forall|j: int, k: u64| 0 <= j < 4 && k < 4 implies #[trigger] ((bases[j] + k) / 4) == bases[j] / 4 + k / 4
        && (bases[j] + k) % 4 == k by {}
    assert(s.write_word((4 * i) as u64, m).iser =~= s.iser.update(i as int, s.iser[i as int] | m));
    assert(s.write_word((0x80 + 4 * i) as u64, m).iser =~= s.iser.update(i as int, s.iser[i as int] & !m));
    assert(s.write_word((0x100 + 4 * i) as u64, m).ispr =~= s.ispr.update(i as int, s.ispr[i as int] | m));
    assert(s.write_word((0x180 + 4 * i) as u64, m).ispr =~= s.ispr.update(i as int, s.ispr[i as int] & !m));
}

} // verus!
