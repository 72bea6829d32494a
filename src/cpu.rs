use vstd::prelude::*;
use crate::bus::{BusModel, SystemBus};
use crate::decoder::{decode16, decode32, decode_thumb_16, decode_thumb_32, Instruction};
use crate::{SimResult, SimulationError};

verus! {

broadcast use vstd::array::group_array_axioms;

/// The EXC_RETURN value for a return to thread mode on the main stack.
pub const EXC_RETURN_THREAD_MSP: u32 = 0xFFFF_FFF9;

/// `x` reduced modulo 2^32.
#[verifier::opaque]
pub open spec fn wrap32(x: int) -> u32 {
    (x % 0x1_0000_0000) as u32
}

/// Whether bit 31 of `x` is set.
pub open spec fn negative(x: u32) -> bool {
    x >= 0x8000_0000
}

/// The sum modulo 2^32, the carry out (unsigned overflow) and the signed overflow.
pub open spec fn add_flags(a: u32, b: u32) -> (u32, bool, bool) {
    let res = wrap32(a + b);
    (res, a + b > u32::MAX, negative(a) == negative(b) && negative(res) != negative(a))
}

/// The difference modulo 2^32, the carry (no borrow) and the signed overflow.
pub open spec fn sub_flags(a: u32, b: u32) -> (u32, bool, bool) {
    let res = wrap32(a - b);
    (res, a >= b, negative(a) != negative(b) && negative(res) != negative(a))
}

pub fn add_with_flags(a: u32, b: u32) -> (r: (u32, bool, bool))
    ensures
        r == add_flags(a, b),
{
    proof {
        reveal(wrap32);
    }
    let res = a.wrapping_add(b);
    let carry = res < a;
    let overflow = (a >= 0x8000_0000) == (b >= 0x8000_0000) && (res >= 0x8000_0000) != (a
        >= 0x8000_0000);
    (res, carry, overflow)
}

pub fn sub_with_flags(a: u32, b: u32) -> (r: (u32, bool, bool))
    ensures
        r == sub_flags(a, b),
{
    proof {
        reveal(wrap32);
    }
    let res = a.wrapping_sub(b);
    let carry = a >= b;
    let overflow = (a >= 0x8000_0000) != (b >= 0x8000_0000) && (res >= 0x8000_0000) != (a
        >= 0x8000_0000);
    (res, carry, overflow)
}

/// xPSR with N and Z set from `res` and every other bit kept.
pub open spec fn nz_bits(xpsr: u32, res: u32) -> u32 {
    (xpsr & !0xC000_0000u32) | (if negative(res) { 0x8000_0000u32 } else { 0 }) | (if res == 0 {
        0x4000_0000u32
    } else {
        0
    })
}

/// After N and Z are set from a result, bit 31 of xPSR is bit 31 of the result,
/// bit 30 says whether the result is zero, and bits 29..0 (C, V and below) are unchanged.
pub proof fn lemma_nz_bits(xpsr: u32, res: u32)
    ensures
        nz_bits(xpsr, res) >> 31u32 == res >> 31u32,
        (nz_bits(xpsr, res) >> 30u32) & 1 == (if res == 0 { 1u32 } else { 0u32 }),
        nz_bits(xpsr, res) & 0x3FFF_FFFF == xpsr & 0x3FFF_FFFF,
{
    let n: u32 = if negative(res) { 0x8000_0000u32 } else { 0 };
    let z: u32 = if res == 0 { 0x4000_0000u32 } else { 0 };
    assert(nz_bits(xpsr, res) == (xpsr & !0xC000_0000u32) | n | z);
    assert(n >> 31u32 == res >> 31u32) by (bit_vector)
        requires
            n == (if res >= 0x8000_0000u32 { 0x8000_0000u32 } else { 0u32 }),
    ;
    assert(z >> 30u32 == (if res == 0 { 1u32 } else { 0u32 })) by (bit_vector)
        requires
            z == (if res == 0 { 0x4000_0000u32 } else { 0u32 }),
    ;
    assert((((xpsr & !0xC000_0000u32) | n | z) >> 31u32) == n >> 31u32) by (bit_vector)
        requires
            n == 0x8000_0000u32 || n == 0,
            z == 0x4000_0000u32 || z == 0,
    ;
    assert(((((xpsr & !0xC000_0000u32) | n | z) >> 30u32) & 1) == z >> 30u32) by (bit_vector)
        requires
            n == 0x8000_0000u32 || n == 0,
            z == 0x4000_0000u32 || z == 0,
    ;
    assert((((xpsr & !0xC000_0000u32) | n | z) & 0x3FFF_FFFF) == xpsr & 0x3FFF_FFFF) by (bit_vector)
        requires
            n == 0x8000_0000u32 || n == 0,
            z == 0x4000_0000u32 || z == 0,
    ;
}

/// xPSR with N, Z, C and V set from the arguments and every other bit kept.
pub open spec fn nzcv_bits(xpsr: u32, res: u32, c: bool, v: bool) -> u32 {
    nz_bits(xpsr & !0xF000_0000u32, res) | (if c { 0x2000_0000u32 } else { 0 }) | (if v {
        0x1000_0000u32
    } else {
        0
    })
}

/// Arithmetic shift right by `k` (less than 32).
pub open spec fn asr32(v: u32, k: u32) -> u32 {
    if negative(v) {
        !((!v) >> k)
    } else {
        v >> k
    }
}

/// The number of the highest set bit among bits `0..=k` of `p`, or 0.
pub open spec fn top_bit(p: u32, k: u32) -> u32
    decreases k,
{
    if p & (1u32 << k) != 0 || k == 0 {
        k
    } else {
        top_bit(p, (k - 1) as u32)
    }
}

/// The ARMv7-M core: sixteen registers, xPSR, PRIMASK and the pending-exception set.
/// Bit `n` of `pending_exceptions` means exception `n` is pending.
#[derive(Debug, Clone, Copy)]
pub struct CortexM {
    pub r0: u32,
    pub r1: u32,
    pub r2: u32,
    pub r3: u32,
    pub r4: u32,
    pub r5: u32,
    pub r6: u32,
    pub r7: u32,
    pub r8: u32,
    pub r9: u32,
    pub r10: u32,
    pub r11: u32,
    pub r12: u32,
    pub sp: u32,
    pub lr: u32,
    pub pc: u32,
    pub xpsr: u32,
    pub primask: bool,
    pub pending_exceptions: u32,
}

impl CortexM {
    pub open spec fn reg(self, n: u8) -> u32 {
        if n == 0 {
            self.r0
        } else if n == 1 {
            self.r1
        } else if n == 2 {
            self.r2
        } else if n == 3 {
            self.r3
        } else if n == 4 {
            self.r4
        } else if n == 5 {
            self.r5
        } else if n == 6 {
            self.r6
        } else if n == 7 {
            self.r7
        } else if n == 8 {
            self.r8
        } else if n == 9 {
            self.r9
        } else if n == 10 {
            self.r10
        } else if n == 11 {
            self.r11
        } else if n == 12 {
            self.r12
        } else if n == 13 {
            self.sp
        } else if n == 14 {
            self.lr
        } else if n == 15 {
            self.pc
        } else {
            0
        }
    }

    pub open spec fn with_reg(self, n: u8, v: u32) -> CortexM {
        if n == 0 {
            CortexM { r0: v, ..self }
        } else if n == 1 {
            CortexM { r1: v, ..self }
        } else if n == 2 {
            CortexM { r2: v, ..self }
        } else if n == 3 {
            CortexM { r3: v, ..self }
        } else if n == 4 {
            CortexM { r4: v, ..self }
        } else if n == 5 {
            CortexM { r5: v, ..self }
        } else if n == 6 {
            CortexM { r6: v, ..self }
        } else if n == 7 {
            CortexM { r7: v, ..self }
        } else if n == 8 {
            CortexM { r8: v, ..self }
        } else if n == 9 {
            CortexM { r9: v, ..self }
        } else if n == 10 {
            CortexM { r10: v, ..self }
        } else if n == 11 {
            CortexM { r11: v, ..self }
        } else if n == 12 {
            CortexM { r12: v, ..self }
        } else if n == 13 {
            CortexM { sp: v, ..self }
        } else if n == 14 {
            CortexM { lr: v, ..self }
        } else if n == 15 {
            CortexM { pc: v, ..self }
        } else {
            self
        }
    }

    pub open spec fn n_flag(self) -> bool {
        self.xpsr & 0x8000_0000 != 0
    }

    pub open spec fn z_flag(self) -> bool {
        self.xpsr & 0x4000_0000 != 0
    }

    pub open spec fn c_flag(self) -> bool {
        self.xpsr & 0x2000_0000 != 0
    }

    pub open spec fn v_flag(self) -> bool {
        self.xpsr & 0x1000_0000 != 0
    }

    /// The condition codes EQ..AL (0..14); 15 is undefined and never holds.
    pub open spec fn condition_holds(self, cond: u8) -> bool {
        let (n, z, c, v) = (self.n_flag(), self.z_flag(), self.c_flag(), self.v_flag());
        if cond == 0x0 {
            z
        } else if cond == 0x1 {
            !z
        } else if cond == 0x2 {
            c
        } else if cond == 0x3 {
            !c
        } else if cond == 0x4 {
            n
        } else if cond == 0x5 {
            !n
        } else if cond == 0x6 {
            v
        } else if cond == 0x7 {
            !v
        } else if cond == 0x8 {
            c && !z
        } else if cond == 0x9 {
            !c || z
        } else if cond == 0xA {
            n == v
        } else if cond == 0xB {
            n != v
        } else if cond == 0xC {
            !z && n == v
        } else if cond == 0xD {
            z || n != v
        } else {
            cond == 0xE
        }
    }

    pub fn new() -> (r: Self)
        ensures
            r == CortexM::zeroed(),
    {
        CortexM {
            r0: 0,
            r1: 0,
            r2: 0,
            r3: 0,
            r4: 0,
            r5: 0,
            r6: 0,
            r7: 0,
            r8: 0,
            r9: 0,
            r10: 0,
            r11: 0,
            r12: 0,
            sp: 0,
            lr: 0,
            pc: 0,
            xpsr: 0,
            primask: false,
            pending_exceptions: 0,
        }
    }

    /// Every register, flag and pending bit clear.
    pub open spec fn zeroed() -> CortexM {
        CortexM {
            r0: 0,
            r1: 0,
            r2: 0,
            r3: 0,
            r4: 0,
            r5: 0,
            r6: 0,
            r7: 0,
            r8: 0,
            r9: 0,
            r10: 0,
            r11: 0,
            r12: 0,
            sp: 0,
            lr: 0,
            pc: 0,
            xpsr: 0,
            primask: false,
            pending_exceptions: 0,
        }
    }

    pub fn read_reg(&self, n: u8) -> (r: u32)
        ensures
            r == self.reg(n),
    {
        match n {
            0 => self.r0,
            1 => self.r1,
            2 => self.r2,
            3 => self.r3,
            4 => self.r4,
            5 => self.r5,
            6 => self.r6,
            7 => self.r7,
            8 => self.r8,
            9 => self.r9,
            10 => self.r10,
            11 => self.r11,
            12 => self.r12,
            13 => self.sp,
            14 => self.lr,
            15 => self.pc,
            _ => 0,
        }
    }

    pub fn write_reg(&mut self, n: u8, v: u32)
        ensures
            *final(self) == old(self).with_reg(n, v),
    {
        match n {
            0 => self.r0 = v,
            1 => self.r1 = v,
            2 => self.r2 = v,
            3 => self.r3 = v,
            4 => self.r4 = v,
            5 => self.r5 = v,
            6 => self.r6 = v,
            7 => self.r7 = v,
            8 => self.r8 = v,
            9 => self.r9 = v,
            10 => self.r10 = v,
            11 => self.r11 = v,
            12 => self.r12 = v,
            13 => self.sp = v,
            14 => self.lr = v,
            15 => self.pc = v,
            _ => {},
        }
    }

    /// Sets N and Z from `res`; C, V and the other bits stay.
    pub fn update_nz(&mut self, res: u32)
        ensures
            *final(self) == (CortexM { xpsr: nz_bits(old(self).xpsr, res), ..*old(self) }),
            final(self).xpsr >> 31u32 == res >> 31u32,
            (final(self).xpsr >> 30u32) & 1 == (if res == 0 { 1u32 } else { 0u32 }),
            final(self).xpsr & 0x3FFF_FFFF == old(self).xpsr & 0x3FFF_FFFF,
    {
        proof {
            lemma_nz_bits(old(self).xpsr, res);
        }
        let n: u32 = if res >= 0x8000_0000 { 0x8000_0000 } else { 0 };
        let z: u32 = if res == 0 { 0x4000_0000 } else { 0 };
        self.xpsr = (self.xpsr & !0xC000_0000u32) | n | z;
    }

    /// Sets N, Z, C and V.
    pub fn update_nzcv(&mut self, res: u32, carry: bool, overflow: bool)
        ensures
            *final(self) == (CortexM { xpsr: nzcv_bits(old(self).xpsr, res, carry, overflow), ..*old(self) }),
    {
        let n: u32 = if res >= 0x8000_0000 { 0x8000_0000 } else { 0 };
        let z: u32 = if res == 0 { 0x4000_0000 } else { 0 };
        let c: u32 = if carry { 0x2000_0000 } else { 0 };
        let v: u32 = if overflow { 0x1000_0000 } else { 0 };
        self.xpsr = (((self.xpsr & !0xF000_0000u32) & !0xC000_0000u32) | n | z) | c | v;
    }

    pub fn check_condition(&self, cond: u8) -> (r: bool)
        ensures
            r == self.condition_holds(cond),
    {
        let n = self.xpsr & 0x8000_0000 != 0;
        let z = self.xpsr & 0x4000_0000 != 0;
        let c = self.xpsr & 0x2000_0000 != 0;
        let v = self.xpsr & 0x1000_0000 != 0;
        match cond {
            0x0 => z,
            0x1 => !z,
            0x2 => c,
            0x3 => !c,
            0x4 => n,
            0x5 => !n,
            0x6 => v,
            0x7 => !v,
            0x8 => c && !z,
            0x9 => !c || z,
            0xA => n == v,
            0xB => n != v,
            0xC => !z && n == v,
            0xD => z || n != v,
            0xE => true,
            _ => false,
        }
    }

    /// Makes exception `n` pending; numbers of 32 and above are not representable and are dropped.
    pub fn set_exception_pending(&mut self, n: u32)
        ensures
            *final(self) == (CortexM {
                pending_exceptions: if n < 32 {
                    old(self).pending_exceptions | (1u32 << n)
                } else {
                    old(self).pending_exceptions
                },
                ..*old(self)
            }),
    {
        if n < 32 {
            self.pending_exceptions = self.pending_exceptions | (1u32 << n);
        }
    }
}

/// The address `4 * k` bytes above `base`, modulo 2^32.
pub open spec fn word_addr(base: u32, k: int) -> u64 {
    wrap32(base + 4 * k) as u64
}

/// Writes `ws[k..]` as words at `base + 4k, ...`, stopping at the first failure.
#[verifier::opaque]
pub open spec fn write_words(bus: BusModel, base: u32, ws: Seq<u32>, k: nat) -> (SimResult<()>, BusModel)
    decreases ws.len() - k,
{
    if k >= ws.len() {
        (Ok(()), bus)
    } else {
        let (r, b) = bus.write_u32(word_addr(base, k as int), ws[k as int]);
        match r {
            Err(e) => (Err(e), b),
            Ok(_) => write_words(b, base, ws, k + 1),
        }
    }
}

/// The first `k` words at `base`, or the first read error.
#[verifier::opaque]
pub open spec fn read_words(bus: BusModel, base: u32, k: nat) -> SimResult<Seq<u32>>
    decreases k,
{
    if k == 0 {
        Ok(Seq::empty())
    } else {
        match read_words(bus, base, (k - 1) as nat) {
            Err(e) => Err(e),
            Ok(ws) => match bus.read_u32(word_addr(base, k - 1)) {
                Err(e) => Err(e),
                Ok(w) => Ok(ws.push(w)),
            },
        }
    }
}

proof fn lemma_read_words_err(bus: BusModel, base: u32, j: nat, k: nat)
    requires
        j <= k,
        read_words(bus, base, j) is Err,
    ensures
        read_words(bus, base, k) == read_words(bus, base, j),
    decreases k - j,
{
    reveal(read_words);
    if j < k {
        lemma_read_words_err(bus, base, j, (k - 1) as nat);
    }
}

/// PUSH of the low registers `i` down to 0 whose bits are set in `regs`, each below the last;
/// bus errors are ignored. Gives the bus after and the final stack pointer.
#[verifier::opaque]
pub open spec fn push_from(c: CortexM, bus: BusModel, sp: u32, regs: u8, i: int) -> (BusModel, u32)
    decreases i + 1,
{
    if i < 0 {
        (bus, sp)
    } else if regs & (1u8 << i as u8) != 0 {
        let sp2 = wrap32(sp - 4);
        push_from(c, bus.write_u32(sp2 as u64, c.reg(i as u8)).1, sp2, regs, i - 1)
    } else {
        push_from(c, bus, sp, regs, i - 1)
    }
}

/// POP of the low registers `i` up to 7 whose bits are set in `regs`, lowest address first;
/// a failed read leaves the register as it was. Gives the core after and the final stack pointer.
#[verifier::opaque]
pub open spec fn pop_from(c: CortexM, bus: BusModel, sp: u32, regs: u8, i: nat) -> (CortexM, u32)
    decreases 8 - i,
{
    if i >= 8 {
        (c, sp)
    } else if regs & (1u8 << i as u8) != 0 {
        let c2 = match bus.read_u32(sp as u64) {
            Ok(v) => c.with_reg(i as u8, v),
            Err(_) => c,
        };
        pop_from(c2, bus, wrap32(sp + 4), regs, i + 1)
    } else {
        pop_from(c, bus, sp, regs, i + 1)
    }
}

impl CortexM {
    pub open spec fn with_nz(self, res: u32) -> CortexM {
        CortexM { xpsr: nz_bits(self.xpsr, res), ..self }
    }

    pub open spec fn with_nzcv(self, f: (u32, bool, bool)) -> CortexM {
        CortexM { xpsr: nzcv_bits(self.xpsr, f.0, f.1, f.2), ..self }
    }

    /// The core with PC advanced past an instruction of `width` bytes.
    pub open spec fn advanced(self, width: u32) -> CortexM {
        CortexM { pc: wrap32(self.pc + width), ..self }
    }

    /// The eight words of an exception frame, lowest address first.
    pub open spec fn frame_words(self) -> Seq<u32> {
        seq![self.r0, self.r1, self.r2, self.r3, self.r12, self.lr, self.pc, self.xpsr]
    }

    /// EXC_RETURN: unstack R0-R3, R12, LR, PC and xPSR from SP and pop the frame.
    #[verifier::opaque]
    pub open spec fn exception_return_spec(self, bus: BusModel) -> (CortexM, SimResult<()>) {
        match read_words(bus, self.sp, 8) {
            Err(e) => (self, Err(e)),
            Ok(f) => (
                CortexM {
                    r0: f[0],
                    r1: f[1],
                    r2: f[2],
                    r3: f[3],
                    r12: f[4],
                    lr: f[5],
                    pc: f[6],
                    xpsr: f[7],
                    sp: wrap32(self.sp + 32),
                    ..self
                },
                Ok(()),
            ),
        }
    }

    /// A branch to `addr`: a value with top nibble 0xF returns from an exception;
    /// anything else becomes PC with bit 0 cleared.
    pub open spec fn branch_spec(self, bus: BusModel, addr: u32) -> (CortexM, SimResult<()>) {
        if addr & 0xF000_0000 == 0xF000_0000 {
            self.exception_return_spec(bus)
        } else {
            (CortexM { pc: addr & !1u32, ..self }, Ok(()))
        }
    }

    /// Exception entry for the highest pending exception: clear its bit, stack the
    /// frame below SP, set LR to EXC_RETURN and jump through the vector table at VTOR.
    #[verifier::opaque]
    pub open spec fn exception_entry_spec(self, bus: BusModel) -> (CortexM, BusModel, SimResult<()>) {
        let exc = top_bit(self.pending_exceptions, 31);
        let c1 = CortexM { pending_exceptions: self.pending_exceptions & !(1u32 << exc), ..self };
        let frame = wrap32(self.sp - 32);
        let (r, b) = write_words(bus, frame, self.frame_words(), 0);
        match r {
            Err(e) => (c1, b, Err(e)),
            Ok(_) => {
                let c2 = CortexM { sp: frame, lr: EXC_RETURN_THREAD_MSP, ..c1 };
                match b.read_u32((b.vtor as u64 + 4 * exc as u64) as u64) {
                    Err(e) => (c2, b, Err(e)),
                    Ok(h) => (CortexM { pc: h & !1u32, ..c2 }, b, Ok(())),
                }
            },
        }
    }

    /// A register write that branches when it targets PC.
    pub open spec fn write_hi_spec(self, rd: u8, v: u32, width: u32) -> CortexM {
        if rd == 15 {
            CortexM { pc: v & !1u32, ..self }
        } else {
            self.with_reg(rd, v).advanced(width)
        }
    }

    pub open spec fn load_word_spec(self, bus: BusModel, rt: u8, addr: u32) -> CortexM {
        match bus.read_u32(addr as u64) {
            Ok(v) => self.with_reg(rt, v),
            Err(_) => self,
        }
    }

    pub open spec fn exec_arith_spec(self, bus: BusModel, ins: Instruction, width: u32) -> (CortexM, BusModel, SimResult<()>) {
        match ins {
            Instruction::MovImm { rd, imm } => (self.with_reg(rd, imm as u32).with_nz(imm as u32).advanced(width), bus, Ok(())),
            Instruction::CmpImm { rn, imm } => (self.with_nzcv(sub_flags(self.reg(rn), imm as u32)).advanced(width), bus, Ok(())),
            Instruction::CmpReg { rn, rm } => (self.with_nzcv(sub_flags(self.reg(rn), self.reg(rm))).advanced(width), bus, Ok(())),
            Instruction::AddImm8 { rd, imm } => {
                let f = add_flags(self.reg(rd), imm as u32);
                (self.with_reg(rd, f.0).with_nzcv(f).advanced(width), bus, Ok(()))
            },
            Instruction::SubImm8 { rd, imm } => {
                let f = sub_flags(self.reg(rd), imm as u32);
                (self.with_reg(rd, f.0).with_nzcv(f).advanced(width), bus, Ok(()))
            },
            Instruction::AddReg { rd, rn, rm } => {
                let f = add_flags(self.reg(rn), self.reg(rm));
                (self.with_reg(rd, f.0).with_nzcv(f).advanced(width), bus, Ok(()))
            },
            Instruction::SubReg { rd, rn, rm } => {
                let f = sub_flags(self.reg(rn), self.reg(rm));
                (self.with_reg(rd, f.0).with_nzcv(f).advanced(width), bus, Ok(()))
            },
            Instruction::AddImm3 { rd, rn, imm } => {
                let f = add_flags(self.reg(rn), imm as u32);
                (self.with_reg(rd, f.0).with_nzcv(f).advanced(width), bus, Ok(()))
            },
            Instruction::SubImm3 { rd, rn, imm } => {
                let f = sub_flags(self.reg(rn), imm as u32);
                (self.with_reg(rd, f.0).with_nzcv(f).advanced(width), bus, Ok(()))
            },
            _ => (self, bus, Ok(())),
        }
    }

    pub open spec fn exec_logic_spec(self, bus: BusModel, ins: Instruction, width: u32) -> (CortexM, BusModel, SimResult<()>) {
        match ins {
            Instruction::And { rd, rm } => {
                let v = self.reg(rd) & self.reg(rm);
                (self.with_reg(rd, v).with_nz(v).advanced(width), bus, Ok(()))
            },
            Instruction::Orr { rd, rm } => {
                let v = self.reg(rd) | self.reg(rm);
                (self.with_reg(rd, v).with_nz(v).advanced(width), bus, Ok(()))
            },
            Instruction::Eor { rd, rm } => {
                let v = self.reg(rd) ^ self.reg(rm);
                (self.with_reg(rd, v).with_nz(v).advanced(width), bus, Ok(()))
            },
            Instruction::Mvn { rd, rm } => {
                let v = !self.reg(rm);
                (self.with_reg(rd, v).with_nz(v).advanced(width), bus, Ok(()))
            },
            Instruction::Lsl { rd, rm, imm } => {
                let v = if imm < 32 { self.reg(rm) << imm as u32 } else { 0 };
                (self.with_reg(rd, v).with_nz(v).advanced(width), bus, Ok(()))
            },
            Instruction::Lsr { rd, rm, imm } => {
                let v = if imm == 0 || imm >= 32 { 0 } else { self.reg(rm) >> imm as u32 };
                (self.with_reg(rd, v).with_nz(v).advanced(width), bus, Ok(()))
            },
            Instruction::Asr { rd, rm, imm } => {
                let v = if imm == 0 || imm >= 32 { asr32(self.reg(rm), 31) } else { asr32(self.reg(rm), imm as u32) };
                (self.with_reg(rd, v).with_nz(v).advanced(width), bus, Ok(()))
            },
            _ => (self, bus, Ok(())),
        }
    }

    pub open spec fn exec_misc_spec(self, bus: BusModel, ins: Instruction, width: u32) -> (CortexM, BusModel, SimResult<()>) {
        match ins {
            Instruction::AddSpImm { imm } => (CortexM { sp: wrap32(self.sp + imm), ..self }.advanced(width), bus, Ok(())),
            Instruction::SubSpImm { imm } => (CortexM { sp: wrap32(self.sp - imm), ..self }.advanced(width), bus, Ok(())),
            Instruction::MovRegHi { rd, rm } => (self.write_hi_spec(rd, self.reg(rm), width), bus, Ok(())),
            Instruction::AddRegHi { rd, rm } => (self.write_hi_spec(rd, wrap32(self.reg(rd) + self.reg(rm)), width), bus, Ok(())),
            Instruction::Movw { rd, imm } => (self.with_reg(rd, imm as u32).advanced(width), bus, Ok(())),
            Instruction::Movt { rd, imm } =>
                (self.with_reg(rd, (self.reg(rd) & 0xFFFF) | ((imm as u32) << 16u32)).advanced(width), bus, Ok(())),
            Instruction::CpsId => (CortexM { primask: true, ..self }.advanced(width), bus, Ok(())),
            Instruction::CpsIe => (CortexM { primask: false, ..self }.advanced(width), bus, Ok(())),
            _ => (self, bus, Ok(())),
        }
    }

    pub open spec fn exec_memory_spec(self, bus: BusModel, ins: Instruction, width: u32) -> (CortexM, BusModel, SimResult<()>) {
        match ins {
            Instruction::LdrImm { rt, rn, imm } =>
                (self.load_word_spec(bus, rt, wrap32(self.reg(rn) + imm)).advanced(width), bus, Ok(())),
            Instruction::StrImm { rt, rn, imm } =>
                (self.advanced(width), bus.write_u32(wrap32(self.reg(rn) + imm) as u64, self.reg(rt)).1, Ok(())),
            Instruction::LdrbImm { rt, rn, imm } => {
                let c = match bus.read_u8(wrap32(self.reg(rn) + imm) as u64) {
                    Ok(b) => self.with_reg(rt, b as u32),
                    Err(_) => self,
                };
                (c.advanced(width), bus, Ok(()))
            },
            Instruction::StrbImm { rt, rn, imm } =>
                (self.advanced(width), bus.write_u8(wrap32(self.reg(rn) + imm) as u64, (self.reg(rt) & 0xFF) as u8).1, Ok(())),
            Instruction::LdrLit { rt, imm } =>
                (self.load_word_spec(bus, rt, wrap32(wrap32((self.pc & !3u32) + 4) + imm)).advanced(width), bus, Ok(())),
            Instruction::LdrSp { rt, imm } =>
                (self.load_word_spec(bus, rt, wrap32(self.sp + imm)).advanced(width), bus, Ok(())),
            Instruction::StrSp { rt, imm } =>
                (self.advanced(width), bus.write_u32(wrap32(self.sp + imm) as u64, self.reg(rt)).1, Ok(())),
            Instruction::Push { registers, m } => {
                let (b0, sp0) = if m {
                    let s = wrap32(self.sp - 4);
                    (bus.write_u32(s as u64, self.lr).1, s)
                } else {
                    (bus, self.sp)
                };
                let (b1, sp1) = push_from(self, b0, sp0, registers, 7);
                (CortexM { sp: sp1, ..self }.advanced(width), b1, Ok(()))
            },
            Instruction::Pop { registers, p } => {
                let (c1, sp1) = pop_from(self, bus, self.sp, registers, 0);
                if p {
                    match bus.read_u32(sp1 as u64) {
                        Ok(v) => {
                            let (c3, r) = CortexM { sp: wrap32(sp1 + 4), ..c1 }.branch_spec(bus, v);
                            (c3, bus, r)
                        },
                        Err(_) => (CortexM { sp: wrap32(sp1 + 4), ..c1 }.advanced(width), bus, Ok(())),
                    }
                } else {
                    (CortexM { sp: sp1, ..c1 }.advanced(width), bus, Ok(()))
                }
            },
            _ => (self, bus, Ok(())),
        }
    }

    pub open spec fn exec_control_spec(self, bus: BusModel, ins: Instruction, width: u32) -> (CortexM, BusModel, SimResult<()>) {
        match ins {
            Instruction::Branch { offset } => (CortexM { pc: wrap32(self.pc + 4 + offset), ..self }, bus, Ok(())),
            Instruction::BranchCond { cond, offset } => if self.condition_holds(cond) {
                (CortexM { pc: wrap32(self.pc + 4 + offset), ..self }, bus, Ok(()))
            } else {
                (self.advanced(width), bus, Ok(()))
            },
            Instruction::Bx { rm } => {
                let (c, r) = self.branch_spec(bus, self.reg(rm));
                (c, bus, r)
            },
            Instruction::Bl { offset } => (
                CortexM { lr: wrap32(self.pc + 4) | 1, pc: wrap32(self.pc + 4 + offset), ..self },
                bus,
                Ok(()),
            ),
            _ => (self, bus, Ok(())),
        }
    }

    /// Executes one decoded instruction of `width` bytes; anything unrecognised is skipped.
    pub open spec fn exec_spec(self, bus: BusModel, ins: Instruction, width: u32) -> (CortexM, BusModel, SimResult<()>) {
        match ins {
            Instruction::MovImm { .. } | Instruction::CmpImm { .. } | Instruction::CmpReg { .. } | Instruction::AddImm8 { .. } | Instruction::SubImm8 { .. } | Instruction::AddReg { .. } | Instruction::SubReg { .. } | Instruction::AddImm3 { .. } | Instruction::SubImm3 { .. } => self.exec_arith_spec(bus, ins, width),
            Instruction::And { .. } | Instruction::Orr { .. } | Instruction::Eor { .. } | Instruction::Mvn { .. } | Instruction::Lsl { .. } | Instruction::Lsr { .. } | Instruction::Asr { .. } => self.exec_logic_spec(bus, ins, width),
            Instruction::AddSpImm { .. } | Instruction::SubSpImm { .. } | Instruction::MovRegHi { .. } | Instruction::AddRegHi { .. } | Instruction::Movw { .. } | Instruction::Movt { .. } | Instruction::CpsId | Instruction::CpsIe => self.exec_misc_spec(bus, ins, width),
            Instruction::LdrImm { .. } | Instruction::StrImm { .. } | Instruction::LdrbImm { .. } | Instruction::StrbImm { .. } | Instruction::LdrLit { .. } | Instruction::LdrSp { .. } | Instruction::StrSp { .. } | Instruction::Push { .. } | Instruction::Pop { .. } => self.exec_memory_spec(bus, ins, width),
            Instruction::Branch { .. } | Instruction::BranchCond { .. } | Instruction::Bx { .. } | Instruction::Bl { .. } => self.exec_control_spec(bus, ins, width),
            _ => (self.advanced(width), bus, Ok(())),
        }
    }

    /// One step: take the highest pending exception when PRIMASK allows it, otherwise
    /// fetch at PC with bit 0 cleared, decode (fetching a second halfword for 32-bit
    /// forms) and execute.
    pub open spec fn step_spec(self, bus: BusModel) -> (CortexM, BusModel, SimResult<()>) {
        if self.pending_exceptions != 0 && !self.primask {
            self.exception_entry_spec(bus)
        } else {
            let fetch = self.pc & !1u32;
            match bus.read_u16(fetch as u64) {
                Err(e) => (self, bus, Err(e)),
                Ok(op) => match decode16(op) {
                    Instruction::Prefix32(h1) => match bus.read_u16((fetch as u64 + 2) as u64) {
                        Err(e) => (self, bus, Err(e)),
                        Ok(h2) => self.exec_spec(bus, decode32(h1, h2), 4),
                    },
                    ins => self.exec_spec(bus, ins, 2),
                },
            }
        }
    }
}

/// `a + b` modulo 2^32.
pub fn add_wrap(a: u32, b: u32) -> (r: u32)
    ensures
        r == wrap32(a + b),
{
    proof {
        reveal(wrap32);
    }
    a.wrapping_add(b)
}

/// `a - b` modulo 2^32.
pub fn sub_wrap(a: u32, b: u32) -> (r: u32)
    ensures
        r == wrap32(a - b),
{
    proof {
        reveal(wrap32);
    }
    a.wrapping_sub(b)
}

/// The target of a PC-relative branch: `pc + 4 + offset` modulo 2^32.
pub fn branch_target(pc: u32, offset: i32) -> (r: u32)
    ensures
        r == wrap32(pc + 4 + offset),
{
    proof {
        reveal(wrap32);
    }
    pc.wrapping_add(4).wrapping_add_signed(offset)
}

fn top_pending(p: u32) -> (r: u32)
    ensures
        r == top_bit(p, 31),
        r < 32,
{
    let mut k: u32 = 31;
    loop
        invariant
            k <= 31,
            top_bit(p, 31) == top_bit(p, k),
        decreases k,
    {
        if p & (1u32 << k) != 0 || k == 0 {
            return k;
        }
        k = k - 1;
    }
}

/// Writes `ws` as consecutive words from `base`, stopping at the first failure.
fn write_words_exec(bus: &mut SystemBus, base: u32, ws: &[u32]) -> (r: SimResult<()>)
    requires
        ws@.len() <= 8,
    ensures
        (r, final(bus)@) == write_words(old(bus)@, base, ws@, 0),
{
    proof {
        reveal(write_words);
    }
    let mut k: usize = 0;
    while k < ws.len()
        invariant
            k <= ws@.len(),
            ws@.len() <= 8,
            write_words(old(bus)@, base, ws@, 0) == write_words(bus@, base, ws@, k as nat),
        decreases ws@.len() - k,
    {
        proof {
            reveal(write_words);
        }
        let a = add_wrap(base, 4 * (k as u32));
        assert(a as u64 == word_addr(base, k as int));
        let r = bus.write_u32(a as u64, ws[k]);
        if r.is_err() {
            return r;
        }
        k = k + 1;
    }
    Ok(())
}

fn asr(v: u32, k: u32) -> (r: u32)
    requires
        k < 32,
    ensures
        r == asr32(v, k),
{
    if v >= 0x8000_0000 {
        !((!v) >> k)
    } else {
        v >> k
    }
}

impl CortexM {
    fn exception_return(&mut self, bus: &SystemBus) -> (r: SimResult<()>)
        ensures
            (*final(self), r) == old(self).exception_return_spec(bus@),
    {
        proof {
            reveal(read_words);
            reveal(CortexM::exception_return_spec);
        }
        let sp = self.sp;
        let mut f: Vec<u32> = Vec::new();
        let mut k: u32 = 0;
        while k < 8
            invariant
                k <= 8,
                f@.len() == k,
                *self == *old(self),
                sp == self.sp,
                read_words(bus@, sp, k as nat) == Ok::<Seq<u32>, SimulationError>(f@),
            decreases 8 - k,
        {
            proof {
                reveal(read_words);
                reveal(CortexM::exception_return_spec);
            }
            let a = add_wrap(sp, 4 * k);
            match bus.read_u32(a as u64) {
                Err(e) => {
                    proof {
                        lemma_read_words_err(bus@, sp, (k + 1) as nat, 8);
                    }
                    return Err(e);
                },
                Ok(w) => f.push(w),
            }
            k = k + 1;
        }
        self.r0 = f[0];
        self.r1 = f[1];
        self.r2 = f[2];
        self.r3 = f[3];
        self.r12 = f[4];
        self.lr = f[5];
        self.pc = f[6];
        self.xpsr = f[7];
        self.sp = add_wrap(sp, 32);
        Ok(())
    }

    fn branch_to(&mut self, bus: &SystemBus, addr: u32) -> (r: SimResult<()>)
        ensures
            (*final(self), r) == old(self).branch_spec(bus@, addr),
    {
        if addr & 0xF000_0000 == 0xF000_0000 {
            self.exception_return(bus)
        } else {
            self.pc = addr & !1u32;
            Ok(())
        }
    }

    fn exception_entry(&mut self, bus: &mut SystemBus) -> (r: SimResult<()>)
        ensures
            (*final(self), final(bus)@, r) == old(self).exception_entry_spec(old(bus)@),
    {
        proof {
            reveal(CortexM::exception_entry_spec);
        }
        let exc = top_pending(self.pending_exceptions);
        let words: [u32; 8] = [self.r0, self.r1, self.r2, self.r3, self.r12, self.lr, self.pc, self.xpsr];
        assert(words@ =~= old(self).frame_words());
        self.pending_exceptions = self.pending_exceptions & !(1u32 << exc);
        let frame = sub_wrap(self.sp, 32);
        let ws: &[u32] = &words;
        write_words_exec(bus, frame, ws)?;
        self.sp = frame;
        self.lr = EXC_RETURN_THREAD_MSP;
        let h = bus.read_u32(bus.vtor as u64 + 4 * exc as u64)?;
        self.pc = h & !1u32;
        Ok(())
    }

    fn advance(&mut self, width: u32)
        ensures
            *final(self) == old(self).advanced(width),
    {
        self.pc = add_wrap(self.pc, width);
    }

    fn write_hi(&mut self, rd: u8, v: u32, width: u32)
        ensures
            *final(self) == old(self).write_hi_spec(rd, v, width),
    {
        if rd == 15 {
            self.pc = v & !1u32;
        } else {
            self.write_reg(rd, v);
            self.advance(width);
        }
    }

    fn load_word(&mut self, bus: &SystemBus, rt: u8, addr: u32)
        ensures
            *final(self) == old(self).load_word_spec(bus@, rt, addr),
    {
        if let Ok(v) = bus.read_u32(addr as u64) {
            self.write_reg(rt, v);
        }
    }

    fn push(&mut self, bus: &mut SystemBus, registers: u8, m: bool)
        ensures
            ({
                let (b0, sp0) = if m {
                    let s = wrap32(old(self).sp - 4);
                    (old(bus)@.write_u32(s as u64, old(self).lr).1, s)
                } else {
                    (old(bus)@, old(self).sp)
                };
                let (b1, sp1) = push_from(*old(self), b0, sp0, registers, 7);
                *final(self) == (CortexM { sp: sp1, ..*old(self) }) && final(bus)@ == b1
            }),
    {
        proof {
            reveal(push_from);
        }
        let mut sp = self.sp;
        if m {
            sp = sub_wrap(sp, 4);
            let _ = bus.write_u32(sp as u64, self.lr);
        }
        let ghost b0 = bus@;
        let ghost sp0 = sp;
        let mut i: i32 = 7;
        while i >= 0
            invariant
                -1 <= i <= 7,
                *self == *old(self),
                push_from(*old(self), b0, sp0, registers, 7) == push_from(*old(self), bus@, sp, registers, i as int),
            decreases i + 1,
        {
            proof {
                reveal(push_from);
            }
            if registers & (1u8 << i as u8) != 0 {
                sp = sub_wrap(sp, 4);
                let v = self.read_reg(i as u8);
                let _ = bus.write_u32(sp as u64, v);
            }
            i = i - 1;
        }
        self.sp = sp;
    }

    fn pop(&mut self, bus: &SystemBus, registers: u8) -> (sp: u32)
        ensures
            (*final(self), sp) == pop_from(*old(self), bus@, old(self).sp, registers, 0),
    {
        proof {
            reveal(pop_from);
        }
        let mut sp = self.sp;
        let mut i: u32 = 0;
        while i < 8
            invariant
                i <= 8,
                pop_from(*old(self), bus@, old(self).sp, registers, 0) == pop_from(*self, bus@, sp, registers, i as nat),
            decreases 8 - i,
        {
            proof {
                reveal(pop_from);
            }
            if registers & (1u8 << i as u8) != 0 {
                if let Ok(v) = bus.read_u32(sp as u64) {
                    self.write_reg(i as u8, v);
                }
                sp = add_wrap(sp, 4);
            }
            i = i + 1;
        }
        sp
    }

    /// Moves, compares, additions and subtractions with flags.
    fn execute_arith(&mut self, bus: &mut SystemBus, ins: Instruction, width: u32) -> (r: SimResult<()>)
        requires
            ins is MovImm || ins is CmpImm || ins is CmpReg || ins is AddImm8 || ins is SubImm8 || ins is AddReg || ins is SubReg || ins is AddImm3 || ins is SubImm3,
        ensures
            (*final(self), final(bus)@, r) == old(self).exec_arith_spec(old(bus)@, ins, width),
    {
        match ins {
            Instruction::MovImm { rd, imm } => {
                self.write_reg(rd, imm as u32);
                self.update_nz(imm as u32);
                self.advance(width);
            },
            Instruction::CmpImm { rn, imm } => {
                let (res, c, v) = sub_with_flags(self.read_reg(rn), imm as u32);
                self.update_nzcv(res, c, v);
                self.advance(width);
            },
            Instruction::CmpReg { rn, rm } => {
                let (res, c, v) = sub_with_flags(self.read_reg(rn), self.read_reg(rm));
                self.update_nzcv(res, c, v);
                self.advance(width);
            },
            Instruction::AddImm8 { rd, imm } => {
                let (res, c, v) = add_with_flags(self.read_reg(rd), imm as u32);
                self.write_reg(rd, res);
                self.update_nzcv(res, c, v);
                self.advance(width);
            },
            Instruction::SubImm8 { rd, imm } => {
                let (res, c, v) = sub_with_flags(self.read_reg(rd), imm as u32);
                self.write_reg(rd, res);
                self.update_nzcv(res, c, v);
                self.advance(width);
            },
            Instruction::AddReg { rd, rn, rm } => {
                let (res, c, v) = add_with_flags(self.read_reg(rn), self.read_reg(rm));
                self.write_reg(rd, res);
                self.update_nzcv(res, c, v);
                self.advance(width);
            },
            Instruction::SubReg { rd, rn, rm } => {
                let (res, c, v) = sub_with_flags(self.read_reg(rn), self.read_reg(rm));
                self.write_reg(rd, res);
                self.update_nzcv(res, c, v);
                self.advance(width);
            },
            Instruction::AddImm3 { rd, rn, imm } => {
                let (res, c, v) = add_with_flags(self.read_reg(rn), imm as u32);
                self.write_reg(rd, res);
                self.update_nzcv(res, c, v);
                self.advance(width);
            },
            Instruction::SubImm3 { rd, rn, imm } => {
                let (res, c, v) = sub_with_flags(self.read_reg(rn), imm as u32);
                self.write_reg(rd, res);
                self.update_nzcv(res, c, v);
                self.advance(width);
            },
            _ => {},
        }
        Ok(())
    }

    /// Bitwise operations and shifts.
    fn execute_logic(&mut self, bus: &mut SystemBus, ins: Instruction, width: u32) -> (r: SimResult<()>)
        requires
            ins is And || ins is Orr || ins is Eor || ins is Mvn || ins is Lsl || ins is Lsr || ins is Asr,
        ensures
            (*final(self), final(bus)@, r) == old(self).exec_logic_spec(old(bus)@, ins, width),
    {
        match ins {
            Instruction::And { rd, rm } => {
                let v = self.read_reg(rd) & self.read_reg(rm);
                self.write_reg(rd, v);
                self.update_nz(v);
                self.advance(width);
            },
            Instruction::Orr { rd, rm } => {
                let v = self.read_reg(rd) | self.read_reg(rm);
                self.write_reg(rd, v);
                self.update_nz(v);
                self.advance(width);
            },
            Instruction::Eor { rd, rm } => {
                let v = self.read_reg(rd) ^ self.read_reg(rm);
                self.write_reg(rd, v);
                self.update_nz(v);
                self.advance(width);
            },
            Instruction::Mvn { rd, rm } => {
                let v = !self.read_reg(rm);
                self.write_reg(rd, v);
                self.update_nz(v);
                self.advance(width);
            },
            Instruction::Lsl { rd, rm, imm } => {
                let v = if imm < 32 { self.read_reg(rm) << imm as u32 } else { 0 };
                self.write_reg(rd, v);
                self.update_nz(v);
                self.advance(width);
            },
            Instruction::Lsr { rd, rm, imm } => {
                let v = if imm == 0 || imm >= 32 { 0 } else { self.read_reg(rm) >> imm as u32 };
                self.write_reg(rd, v);
                self.update_nz(v);
                self.advance(width);
            },
            Instruction::Asr { rd, rm, imm } => {
                let v = if imm == 0 || imm >= 32 { asr(self.read_reg(rm), 31) } else { asr(self.read_reg(rm), imm as u32) };
                self.write_reg(rd, v);
                self.update_nz(v);
                self.advance(width);
            },
            _ => {},
        }
        Ok(())
    }

    /// Stack-pointer arithmetic, high-register moves and adds, MOVW/MOVT and CPS.
    fn execute_misc(&mut self, bus: &mut SystemBus, ins: Instruction, width: u32) -> (r: SimResult<()>)
        requires
            ins is AddSpImm || ins is SubSpImm || ins is MovRegHi || ins is AddRegHi || ins is Movw || ins is Movt || ins is CpsId || ins is CpsIe,
        ensures
            (*final(self), final(bus)@, r) == old(self).exec_misc_spec(old(bus)@, ins, width),
    {
        match ins {
            Instruction::AddSpImm { imm } => {
                self.sp = add_wrap(self.sp, imm as u32);
                self.advance(width);
            },
            Instruction::SubSpImm { imm } => {
                self.sp = sub_wrap(self.sp, imm as u32);
                self.advance(width);
            },
            Instruction::MovRegHi { rd, rm } => {
                let v = self.read_reg(rm);
                self.write_hi(rd, v, width);
            },
            Instruction::AddRegHi { rd, rm } => {
                let v = add_wrap(self.read_reg(rd), self.read_reg(rm));
                self.write_hi(rd, v, width);
            },
            Instruction::Movw { rd, imm } => {
                self.write_reg(rd, imm as u32);
                self.advance(width);
            },
            Instruction::Movt { rd, imm } => {
                let v = (self.read_reg(rd) & 0xFFFF) | ((imm as u32) << 16u32);
                self.write_reg(rd, v);
                self.advance(width);
            },
            Instruction::CpsId => {
                self.primask = true;
                self.advance(width);
            },
            Instruction::CpsIe => {
                self.primask = false;
                self.advance(width);
            },
            _ => {},
        }
        Ok(())
    }

    /// Loads, stores, PUSH and POP.
    fn execute_memory(&mut self, bus: &mut SystemBus, ins: Instruction, width: u32) -> (r: SimResult<()>)
        requires
            ins is LdrImm || ins is StrImm || ins is LdrbImm || ins is StrbImm || ins is LdrLit || ins is LdrSp || ins is StrSp || ins is Push || ins is Pop,
        ensures
            (*final(self), final(bus)@, r) == old(self).exec_memory_spec(old(bus)@, ins, width),
    {
        match ins {
            Instruction::LdrImm { rt, rn, imm } => {
                let addr = add_wrap(self.read_reg(rn), imm as u32);
                self.load_word(bus, rt, addr);
                self.advance(width);
            },
            Instruction::StrImm { rt, rn, imm } => {
                let addr = add_wrap(self.read_reg(rn), imm as u32);
                let _ = bus.write_u32(addr as u64, self.read_reg(rt));
                self.advance(width);
            },
            Instruction::LdrbImm { rt, rn, imm } => {
                let addr = add_wrap(self.read_reg(rn), imm as u32);
                if let Ok(b) = bus.read_u8(addr as u64) {
                    self.write_reg(rt, b as u32);
                }
                self.advance(width);
            },
            Instruction::StrbImm { rt, rn, imm } => {
                let addr = add_wrap(self.read_reg(rn), imm as u32);
                let _ = bus.write_u8(addr as u64, (self.read_reg(rt) & 0xFF) as u8);
                self.advance(width);
            },
            Instruction::LdrLit { rt, imm } => {
                let addr = add_wrap(add_wrap(self.pc & !3u32, 4), imm as u32);
                self.load_word(bus, rt, addr);
                self.advance(width);
            },
            Instruction::LdrSp { rt, imm } => {
                let addr = add_wrap(self.sp, imm as u32);
                self.load_word(bus, rt, addr);
                self.advance(width);
            },
            Instruction::StrSp { rt, imm } => {
                let addr = add_wrap(self.sp, imm as u32);
                let _ = bus.write_u32(addr as u64, self.read_reg(rt));
                self.advance(width);
            },
            Instruction::Push { registers, m } => {
                self.push(bus, registers, m);
                self.advance(width);
            },
            Instruction::Pop { registers, p } => {
                let sp1 = self.pop(bus, registers);
                if p {
                    match bus.read_u32(sp1 as u64) {
                        Ok(v) => {
                            self.sp = add_wrap(sp1, 4);
                            return self.branch_to(bus, v);
                        },
                        Err(_) => {
                            self.sp = add_wrap(sp1, 4);
                            self.advance(width);
                        },
                    }
                } else {
                    self.sp = sp1;
                    self.advance(width);
                }
            },
            _ => {},
        }
        Ok(())
    }

    /// Branches.
    fn execute_control(&mut self, bus: &mut SystemBus, ins: Instruction, width: u32) -> (r: SimResult<()>)
        requires
            ins is Branch || ins is BranchCond || ins is Bx || ins is Bl,
        ensures
            (*final(self), final(bus)@, r) == old(self).exec_control_spec(old(bus)@, ins, width),
    {
        match ins {
            Instruction::Branch { offset } => {
                self.pc = branch_target(self.pc, offset);
            },
            Instruction::BranchCond { cond, offset } => {
                if self.check_condition(cond) {
                    self.pc = branch_target(self.pc, offset);
                } else {
                    self.advance(width);
                }
            },
            Instruction::Bx { rm } => {
                let target = self.read_reg(rm);
                return self.branch_to(bus, target);
            },
            Instruction::Bl { offset } => {
                self.lr = add_wrap(self.pc, 4) | 1;
                self.pc = branch_target(self.pc, offset);
            },
            _ => {},
        }
        Ok(())
    }

    /// Executes one decoded instruction of `width` bytes.
    pub fn execute(&mut self, bus: &mut SystemBus, ins: Instruction, width: u32) -> (r: SimResult<()>)
        ensures
            (*final(self), final(bus)@, r) == old(self).exec_spec(old(bus)@, ins, width),
    {
        match ins {
            Instruction::MovImm { .. } | Instruction::CmpImm { .. } | Instruction::CmpReg { .. } | Instruction::AddImm8 { .. } | Instruction::SubImm8 { .. } | Instruction::AddReg { .. } | Instruction::SubReg { .. } | Instruction::AddImm3 { .. } | Instruction::SubImm3 { .. } => self.execute_arith(bus, ins, width),
            Instruction::And { .. } | Instruction::Orr { .. } | Instruction::Eor { .. } | Instruction::Mvn { .. } | Instruction::Lsl { .. } | Instruction::Lsr { .. } | Instruction::Asr { .. } => self.execute_logic(bus, ins, width),
            Instruction::AddSpImm { .. } | Instruction::SubSpImm { .. } | Instruction::MovRegHi { .. } | Instruction::AddRegHi { .. } | Instruction::Movw { .. } | Instruction::Movt { .. } | Instruction::CpsId | Instruction::CpsIe => self.execute_misc(bus, ins, width),
            Instruction::LdrImm { .. } | Instruction::StrImm { .. } | Instruction::LdrbImm { .. } | Instruction::StrbImm { .. } | Instruction::LdrLit { .. } | Instruction::LdrSp { .. } | Instruction::StrSp { .. } | Instruction::Push { .. } | Instruction::Pop { .. } => self.execute_memory(bus, ins, width),
            Instruction::Branch { .. } | Instruction::BranchCond { .. } | Instruction::Bx { .. } | Instruction::Bl { .. } => self.execute_control(bus, ins, width),
            _ => {
                self.advance(width);
                Ok(())
            },
        }
    }

    /// Runs one step of the core against the bus: exception entry when an exception is
    /// pending and PRIMASK is clear, otherwise fetch, decode and execute one instruction.
    /// Only instruction fetch, exception stacking and vector reads, and exception
    /// return unstacking report bus errors; a failing data access leaves its target unchanged.
    pub fn step(&mut self, bus: &mut SystemBus) -> (r: SimResult<()>)
        ensures
            (*final(self), final(bus)@, r) == old(self).step_spec(old(bus)@),
    {
        if self.pending_exceptions != 0 && !self.primask {
            return self.exception_entry(bus);
        }
        let fetch = self.pc & !1u32;
        let op = bus.read_u16(fetch as u64)?;
        match decode_thumb_16(op) {
            Instruction::Prefix32(h1) => {
                let h2 = bus.read_u16(fetch as u64 + 2)?;
                let ins = decode_thumb_32(h1, h2);
                self.execute(bus, ins, 4)
            },
            ins => self.execute(bus, ins, 2),
        }
    }
}

} // verus!
