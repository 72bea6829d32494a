//! PUSH and POP as inverses on a stack that lies in RAM.
use vstd::prelude::*;
use crate::bits::{byte_of, word_of, lemma_word_bytes};
use crate::bus::BusModel;
use crate::cpu::{CortexM, pop_from, push_from, wrap32};
use crate::decoder::Instruction;
use crate::memory::MemModel;
use crate::SimulationError;

verus! {

/// Whether bit `i` of a register list is set.
pub open spec fn bit_set(r: u8, i: int) -> bool {
    r & (1u8 << (i as u8)) != 0
}

/// The number of set bits of `r` with index in `[lo, hi)`.
pub open spec fn count_bits(r: u8, lo: int, hi: int) -> nat
    decreases hi - lo,
{
    if hi <= lo {
        0
    } else {
        count_bits(r, lo, hi - 1) + if bit_set(r, hi - 1) { 1nat } else { 0nat }
    }
}

proof fn lemma_count_front(r: u8, lo: int, hi: int)
    requires
        lo < hi,
    ensures
        count_bits(r, lo, hi) == count_bits(r, lo + 1, hi) + if bit_set(r, lo) { 1nat } else { 0nat },
    decreases hi - lo,
{
    assert(count_bits(r, lo, hi) == count_bits(r, lo, hi - 1) + if bit_set(r, hi - 1) { 1nat } else { 0nat });
    if hi - 1 > lo {
        lemma_count_front(r, lo, hi - 1);
        assert(count_bits(r, lo + 1, hi) == count_bits(r, lo + 1, hi - 1) + if bit_set(r, hi - 1) { 1nat } else { 0nat });
    } else {
        assert(count_bits(r, lo, lo) == 0);
        assert(count_bits(r, lo + 1, hi) == 0);
    }
}

proof fn lemma_count_bound(r: u8, lo: int, hi: int)
    ensures
        count_bits(r, lo, hi) <= if hi > lo { hi - lo } else { 0 },
    decreases hi - lo,
{
    if hi > lo {
        lemma_count_bound(r, lo, hi - 1);
    }
}

proof fn lemma_count_split(r: u8, lo: int, mid: int, hi: int)
    requires
        lo <= mid <= hi,
    ensures
        count_bits(r, lo, hi) == count_bits(r, lo, mid) + count_bits(r, mid, hi),
    decreases hi - mid,
{
    if hi > mid {
        lemma_count_split(r, lo, mid, hi - 1);
    }
}

proof fn lemma_wrap_id(x: int)
    requires
        0 <= x <= u32::MAX,
    ensures
        wrap32(x) == x,
{
    reveal(wrap32);
}

/// Every byte of the word at `a` is RAM.
pub open spec fn ram_word(b: BusModel, a: int) -> bool {
    forall|k: int| 0 <= k < 4 ==> #[trigger] b.ram.contains((a + k) as u64)
}

proof fn lemma_read_ram_word(b: BusModel, a: u64)
    requires
        ram_word(b, a as int),
        a + 3 <= u64::MAX,
    ensures
        b.read_u32(a) == Ok::<u32, SimulationError>(word_of(
            b.ram.bytes[a - b.ram.base],
            b.ram.bytes[a + 1 - b.ram.base],
            b.ram.bytes[a + 2 - b.ram.base],
            b.ram.bytes[a + 3 - b.ram.base],
        )),
{
    reveal(BusModel::read_u32);
    reveal(BusModel::read_u8);
    assert(b.ram.contains((a + 0) as u64));
    assert(b.ram.contains((a + 1) as u64));
    assert(b.ram.contains((a + 2) as u64));
    assert(b.ram.contains((a + 3) as u64));
}

/// The RAM bytes after a word write at `a`.
pub open spec fn ram_after(m: MemModel, a: u64, v: u32) -> MemModel {
    MemModel {
        base: m.base,
        bytes: m.bytes.update(a - m.base, byte_of(v, 0)).update(a + 1 - m.base, byte_of(v, 1)).update(
            a + 2 - m.base,
            byte_of(v, 2),
        ).update(a + 3 - m.base, byte_of(v, 3)),
    }
}

proof fn lemma_write_ram_word(b: BusModel, a: u64, v: u32)
    requires
        ram_word(b, a as int),
        a + 3 <= u64::MAX,
    ensures
        b.write_u32(a, v) == (Ok::<(), SimulationError>(()), BusModel { ram: ram_after(b.ram, a, v), ..b }),
        ram_after(b.ram, a, v).base == b.ram.base,
        ram_after(b.ram, a, v).bytes.len() == b.ram.bytes.len(),
        forall|y: u64| #[trigger] b.ram.contains(y) ==> ram_after(b.ram, a, v).contains(y),
{
    assert(b.ram.contains((a + 0) as u64));
    assert(b.ram.contains((a + 1) as u64));
    assert(b.ram.contains((a + 2) as u64));
    assert(b.ram.contains((a + 3) as u64));
    reveal(BusModel::write_u32);
    reveal(BusModel::write_u8);
    reveal_with_fuel(BusModel::write_bytes, 5);
    assert(b.ram.contains((a + 0) as u64));
    assert(b.ram.contains((a + 1) as u64));
    assert(b.ram.contains((a + 2) as u64));
    assert(b.ram.contains((a + 3) as u64));
    let bs = seq![
        (v & 0xFF) as u8,
        ((v >> 8u32) & 0xFF) as u8,
        ((v >> 16u32) & 0xFF) as u8,
        ((v >> 24u32) & 0xFF) as u8,
    ];
    assert(bs.drop_first() =~= seq![bs[1], bs[2], bs[3]]);
    assert(bs.drop_first().drop_first() =~= seq![bs[2], bs[3]]);
    assert(bs.drop_first().drop_first().drop_first() =~= seq![bs[3]]);
    assert(bs.drop_first().drop_first().drop_first().drop_first() =~= Seq::<u8>::empty());
    assert((v & 0xFF) as u8 == byte_of(v, 0)) by (bit_vector);
    assert(b.write_u32(a, v).1.ram.bytes =~= ram_after(b.ram, a, v).bytes);
}

/// A word written to RAM reads back; words of RAM that do not overlap it keep their value.
proof fn lemma_ram_word_write_read(b: BusModel, a: u64, v: u32, x: u64)
    requires
        ram_word(b, a as int),
        ram_word(b, x as int),
        a + 3 <= u64::MAX,
        x + 3 <= u64::MAX,
    ensures
        b.write_u32(a, v).0 is Ok,
        ram_word(b.write_u32(a, v).1, x as int),
        x == a ==> b.write_u32(a, v).1.read_u32(x) == Ok::<u32, SimulationError>(v),
        (x + 4 <= a || a + 4 <= x) ==> b.write_u32(a, v).1.read_u32(x) == b.read_u32(x),
        forall|y: u64| #[trigger] b.ram.contains(y) ==> b.write_u32(a, v).1.ram.contains(y),
{
    lemma_write_ram_word(b, a, v);
    assert(b.ram.contains((a + 0) as u64));
    assert(b.ram.contains((a + 3) as u64));
    let b2 = b.write_u32(a, v).1;
    assert(b2.ram.base == b.ram.base && b2.ram.bytes.len() == b.ram.bytes.len());
    assert forall|k: int| 0 <= k < 4 implies #[trigger] b2.ram.contains((x + k) as u64) by {
        assert(b.ram.contains((x + k) as u64));
    }
    lemma_read_ram_word(b, x);
    lemma_read_ram_word(b2, x);
    if x == a {
        lemma_word_bytes(v);
    }
    if x + 4 <= a || a + 4 <= x {
        let base = b.ram.base;
        assert forall|k: int| 0 <= k < 4 implies #[trigger] b2.ram.bytes[x + k - base] == b.ram.bytes[x + k - base] by {
            assert(b.ram.contains((x + k) as u64));
        }
        assert(b2.ram.bytes[x + 0 - base] == b.ram.bytes[x + 0 - base]);
        assert(b2.ram.bytes[x + 1 - base] == b.ram.bytes[x + 1 - base]);
        assert(b2.ram.bytes[x + 2 - base] == b.ram.bytes[x + 2 - base]);
        assert(b2.ram.bytes[x + 3 - base] == b.ram.bytes[x + 3 - base]);
    }
}

/// After pushing registers `i` down to 0 of `r` from `sp`, SP has dropped by four per
/// register, register `j` sits below the `count_bits(r, j, i + 1)` words above it, RAM is
/// still RAM, and no word at or above `sp` changed.
proof fn lemma_push_from(c: CortexM, b: BusModel, sp: u32, r: u8, i: int)
    requires
        -1 <= i <= 7,
        sp >= 4 * count_bits(r, 0, i + 1),
        forall|x: int| sp - 4 * count_bits(r, 0, i + 1) <= x < sp ==> #[trigger] b.ram.contains(x as u64),
    ensures
        push_from(c, b, sp, r, i).1 == sp - 4 * count_bits(r, 0, i + 1),
        forall|j: int|
            0 <= j <= i && bit_set(r, j) ==> #[trigger] push_from(c, b, sp, r, i).0.read_u32(
                (sp - 4 * count_bits(r, j, i + 1)) as u64,
            ) == Ok::<u32, SimulationError>(c.reg(j as u8)),
        forall|x: u64| #[trigger] b.ram.contains(x) ==> push_from(c, b, sp, r, i).0.ram.contains(x),
        forall|x: u64|
            x >= sp && ram_word(b, x as int) && x + 3 <= u64::MAX ==> #[trigger] push_from(c, b, sp, r, i).0.read_u32(x)
                == b.read_u32(x),
    decreases i + 1,
{
    reveal(push_from);
    if i >= 0 {
        if bit_set(r, i) {
            let sp2 = wrap32(sp - 4);
            lemma_count_bound(r, 0, i + 1);
            assert(count_bits(r, 0, i + 1) == count_bits(r, 0, i) + 1);
            lemma_wrap_id(sp - 4);
            assert(ram_word(b, sp2 as int)) by {
                assert forall|k: int| 0 <= k < 4 implies #[trigger] b.ram.contains((sp2 + k) as u64) by {
                    assert(b.ram.contains((sp2 + k) as u64));
                }
            }
            let b2 = b.write_u32(sp2 as u64, c.reg(i as u8)).1;
            lemma_ram_word_write_read(b, sp2 as u64, c.reg(i as u8), sp2 as u64);
            lemma_write_ram_word(b, sp2 as u64, c.reg(i as u8));
            assert forall|x: int| sp2 - 4 * count_bits(r, 0, i) <= x < sp2 implies #[trigger] b2.ram.contains(x as u64) by {
                assert(b.ram.contains(x as u64));
            }
            lemma_push_from(c, b2, sp2, r, i - 1);
            let res = push_from(c, b2, sp2, r, i - 1);
            assert(push_from(c, b, sp, r, i) == res);
            assert forall|j: int|
                0 <= j <= i && bit_set(r, j) implies #[trigger] res.0.read_u32((sp - 4 * count_bits(r, j, i + 1)) as u64)
                == Ok::<u32, SimulationError>(c.reg(j as u8)) by {
                if j < i {
                    assert(count_bits(r, j, i + 1) == count_bits(r, j, i) + 1);
                    assert(res.0.read_u32((sp2 - 4 * count_bits(r, j, (i - 1) + 1)) as u64) == Ok::<u32, SimulationError>(
                        c.reg(j as u8),
                    ));
                    assert((i - 1) + 1 == i);
                    assert((sp - 4 * count_bits(r, j, i + 1)) as u64 == (sp2 - 4 * count_bits(r, j, i)) as u64);
                } else {
                    assert(count_bits(r, i, i + 1) == 1) by {
                        assert(count_bits(r, i, i) == 0);
                    }
                    assert(ram_word(b2, sp2 as int)) by {
                        assert forall|k: int| 0 <= k < 4 implies #[trigger] b2.ram.contains((sp2 + k) as u64) by {
                            assert(b.ram.contains((sp2 + k) as u64));
                        }
                    }
                    assert(res.0.read_u32(sp2 as u64) == b2.read_u32(sp2 as u64));
                    assert((sp - 4 * count_bits(r, j, i + 1)) as u64 == sp2 as u64);
                }
            }
            assert forall|x: u64| x >= sp && ram_word(b, x as int) && x + 3 <= u64::MAX implies #[trigger] res.0.read_u32(x)
                == b.read_u32(x) by {
                lemma_ram_word_write_read(b, sp2 as u64, c.reg(i as u8), x);
            }
        } else {
            assert(count_bits(r, 0, i + 1) == count_bits(r, 0, i));
            lemma_push_from(c, b, sp, r, i - 1);
            assert forall|j: int|
                0 <= j <= i && bit_set(r, j) implies #[trigger] push_from(c, b, sp, r, i).0.read_u32(
                (sp - 4 * count_bits(r, j, i + 1)) as u64,
            ) == Ok::<u32, SimulationError>(c.reg(j as u8)) by {
                assert(count_bits(r, j, i + 1) == count_bits(r, j, i));
            }
        }
    }
}

proof fn lemma_with_reg(c: CortexM, i: u8, v: u32, j: u8)
    requires
        i < 8,
    ensures
        c.with_reg(i, v).reg(j) == if j == i { v } else { c.reg(j) },
        c.with_reg(i, v).sp == c.sp,
{
}

/// Popping registers `i` up to 7 of `r` from `sp`: SP rises by four per register,
/// register `j` gets the word `count_bits(r, i, j)` words above `sp`, and the
/// registers below `i` and SP keep their values.
proof fn lemma_pop_from(d: CortexM, b: BusModel, sp: u32, r: u8, i: int)
    requires
        0 <= i <= 8,
        sp + 4 * count_bits(r, i, 8) <= u32::MAX,
        forall|j: int|
            i <= j < 8 && bit_set(r, j) ==> (#[trigger] b.read_u32((sp + 4 * count_bits(r, i, j)) as u64)) is Ok,
    ensures
        pop_from(d, b, sp, r, i as nat).1 == sp + 4 * count_bits(r, i, 8),
        forall|j: int|
            i <= j < 8 && bit_set(r, j) ==> Ok::<u32, SimulationError>(#[trigger] pop_from(d, b, sp, r, i as nat).0.reg(j as u8))
                == b.read_u32((sp + 4 * count_bits(r, i, j)) as u64),
        forall|j: int| 0 <= j < i ==> #[trigger] pop_from(d, b, sp, r, i as nat).0.reg(j as u8) == d.reg(j as u8),
        pop_from(d, b, sp, r, i as nat).0.sp == d.sp,
    decreases 8 - i,
{
    reveal(pop_from);
    if i < 8 {
        lemma_count_front(r, i, 8);
        if bit_set(r, i) {
            assert(count_bits(r, i, i) == 0);
            assert(b.read_u32((sp + 4 * count_bits(r, i, i)) as u64) is Ok);
            assert((sp + 4 * count_bits(r, i, i)) as u64 == sp as u64);
            let v = b.read_u32(sp as u64);
            assert(v is Ok);
            let d2 = d.with_reg(i as u8, v->Ok_0);
            lemma_wrap_id(sp + 4);
            let sp2 = wrap32(sp + 4);
            assert forall|j: int| i + 1 <= j < 8 && bit_set(r, j) implies (#[trigger] b.read_u32(
                (sp2 + 4 * count_bits(r, i + 1, j)) as u64,
            )) is Ok by {
                lemma_count_front(r, i, j);
                assert(b.read_u32((sp + 4 * count_bits(r, i, j)) as u64) is Ok);
            }
            lemma_pop_from(d2, b, sp2, r, i + 1);
            let res = pop_from(d2, b, sp2, r, (i + 1) as nat);
            assert(pop_from(d, b, sp, r, i as nat) == res);
            assert forall|j: int|
                i <= j < 8 && bit_set(r, j) implies Ok::<u32, SimulationError>(#[trigger] res.0.reg(j as u8))
                == b.read_u32((sp + 4 * count_bits(r, i, j)) as u64) by {
                if j > i {
                    lemma_count_front(r, i, j);
                } else {
                    assert(res.0.reg(i as u8) == d2.reg(i as u8));
                    lemma_with_reg(d, i as u8, v->Ok_0, i as u8);
                }
            }
            assert forall|j: int| 0 <= j < i implies #[trigger] res.0.reg(j as u8) == d.reg(j as u8) by {
                assert(res.0.reg(j as u8) == d2.reg(j as u8));
                lemma_with_reg(d, i as u8, v->Ok_0, j as u8);
            }
            lemma_with_reg(d, i as u8, v->Ok_0, 0);
        } else {
            assert forall|j: int| i + 1 <= j < 8 && bit_set(r, j) implies (#[trigger] b.read_u32(
                (sp + 4 * count_bits(r, i + 1, j)) as u64,
            )) is Ok by {
                lemma_count_front(r, i, j);
                assert(b.read_u32((sp + 4 * count_bits(r, i, j)) as u64) is Ok);
            }
            lemma_pop_from(d, b, sp, r, i + 1);
            assert forall|j: int|
                i <= j < 8 && bit_set(r, j) implies Ok::<u32, SimulationError>(#[trigger] pop_from(d, b, sp, r, i as nat).0.reg(j as u8))
                == b.read_u32((sp + 4 * count_bits(r, i, j)) as u64) by {
                lemma_count_front(r, i, j);
            }
        }
    } else {
        assert(count_bits(r, 8, 8) == 0);
    }
}

/// The number of words a PUSH of list `regs`, with LR when `m`, stores.
pub open spec fn push_words(regs: u8, m: bool) -> nat {
    count_bits(regs, 0, 8) + if m { 1nat } else { 0nat }
}

/// PUSH then POP of the same register list undo each other: every listed register gets
/// back the value it had when pushed (even if it changed in between), and SP returns to
/// its value before the push. With LR included, the word that POP's PC slot would load is
/// the pushed LR, and SP is back once that word is popped as well. The words pushed must
/// lie in RAM.
pub proof fn lemma_push_pop(c: CortexM, b: BusModel, regs: u8, m: bool, d: CortexM)
    requires
        c.sp >= 4 * push_words(regs, m),
        forall|x: int| c.sp - 4 * push_words(regs, m) <= x < c.sp ==> #[trigger] b.ram.contains(x as u64),
        d.sp == c.exec_spec(b, Instruction::Push { registers: regs, m }, 2).0.sp,
    ensures
        ({
            let (c1, b1, r1) = c.exec_spec(b, Instruction::Push { registers: regs, m }, 2);
            let (d1, b2, r2) = d.exec_spec(b1, Instruction::Pop { registers: regs, p: false }, 2);
            &&& r1 is Ok
            &&& r2 is Ok
            &&& b2 == b1
            &&& forall|j: int| 0 <= j < 8 && bit_set(regs, j) ==> #[trigger] d1.reg(j as u8) == c.reg(j as u8)
            &&& !m ==> d1.sp == c.sp
            &&& m ==> b1.read_u32(d1.sp as u64) == Ok::<u32, SimulationError>(c.lr) && d1.sp + 4 == c.sp
        }),
{
    let n = count_bits(regs, 0, 8);
    lemma_count_bound(regs, 0, 8);
    let (b0, sp0) = if m {
        let s = wrap32(c.sp - 4);
        (b.write_u32(s as u64, c.lr).1, s)
    } else {
        (b, c.sp)
    };
    if m {
        lemma_wrap_id(c.sp - 4);
        assert(ram_word(b, sp0 as int)) by {
            assert forall|k: int| 0 <= k < 4 implies #[trigger] b.ram.contains((sp0 + k) as u64) by {
                assert(b.ram.contains((sp0 + k) as u64));
            }
        }
        lemma_ram_word_write_read(b, sp0 as u64, c.lr, sp0 as u64);
    }
    assert forall|x: int| sp0 - 4 * count_bits(regs, 0, 7int + 1) <= x < sp0 implies #[trigger] b0.ram.contains(x as u64) by {
        assert(b.ram.contains(x as u64));
    }
    lemma_push_from(c, b0, sp0, regs, 7);
    let (b1, sp1) = push_from(c, b0, sp0, regs, 7);
    assert(sp1 == sp0 - 4 * n);
    assert forall|j: int| 0 <= j < 8 && bit_set(regs, j) implies (#[trigger] b1.read_u32(
        (sp1 + 4 * count_bits(regs, 0, j)) as u64,
    )) is Ok by {
        lemma_count_split(regs, 0, j, 8);
        assert(b1.read_u32((sp0 - 4 * count_bits(regs, j, 7int + 1)) as u64) == Ok::<u32, SimulationError>(c.reg(j as u8)));
    }
    lemma_pop_from(d, b1, sp1, regs, 0);
    let (e1, s1) = pop_from(d, b1, sp1, regs, 0);
    assert(s1 == sp0);
    assert forall|j: int| 0 <= j < 8 && bit_set(regs, j) implies #[trigger] e1.reg(j as u8) == c.reg(j as u8) by {
        lemma_count_split(regs, 0, j, 8);
        assert(b1.read_u32((sp0 - 4 * count_bits(regs, j, 7int + 1)) as u64) == Ok::<u32, SimulationError>(c.reg(j as u8)));
        assert(Ok::<u32, SimulationError>(e1.reg(j as u8)) == b1.read_u32((sp1 + 4 * count_bits(regs, 0, j)) as u64));
    }
    let d1 = d.exec_spec(b1, Instruction::Pop { registers: regs, p: false }, 2).0;
    assert forall|j: int| 0 <= j < 8 && bit_set(regs, j) implies #[trigger] d1.reg(j as u8) == c.reg(j as u8) by {
        assert(e1.reg(j as u8) == c.reg(j as u8));
    }
    if m {
        assert(ram_word(b, sp0 as int));
        assert(ram_word(b0, sp0 as int)) by {
            assert forall|k: int| 0 <= k < 4 implies #[trigger] b0.ram.contains((sp0 + k) as u64) by {
                assert(b.ram.contains((sp0 + k) as u64));
            }
        }
        assert(b1.read_u32(sp0 as u64) == b0.read_u32(sp0 as u64));
    }
}

} // verus!
