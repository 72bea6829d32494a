use vstd::prelude::*;

verus! {

/// One loadable piece of a firmware image.
#[derive(Debug, Clone)]
pub struct Segment {
    pub start_addr: u64,
    pub data: Vec<u8>,
}

/// A firmware image: an entry point and the segments to copy into memory.
#[derive(Debug, Clone)]
pub struct ProgramImage {
    pub entry_point: u64,
    pub segments: Vec<Segment>,
}

impl ProgramImage {
    pub fn new(entry_point: u64) -> (r: Self)
        ensures
            r.entry_point == entry_point,
            r.segments@.len() == 0,
    {
        ProgramImage { entry_point, segments: Vec::new() }
    }

    pub fn add_segment(&mut self, start_addr: u64, data: Vec<u8>)
        ensures
            final(self).entry_point == old(self).entry_point,
            final(self).segments@ == old(self).segments@.push(Segment { start_addr, data }),
    {
        self.segments.push(Segment { start_addr, data });
    }
}

/// The abstract content of a linear memory region: a base address and its bytes.
pub struct MemModel {
    pub base: u64,
    pub bytes: Seq<u8>,
}

impl MemModel {
    /// `base <= a < base + len`.
    pub open spec fn contains(self, a: u64) -> bool {
        self.base <= a && (a - self.base) < self.bytes.len()
    }

    pub open spec fn read_u8(self, a: u64) -> Option<u8> {
        if self.contains(a) {
            Some(self.bytes[a - self.base])
        } else {
            None
        }
    }

    pub open spec fn write_u8(self, a: u64, v: u8) -> MemModel {
        if self.contains(a) {
            MemModel { base: self.base, bytes: self.bytes.update(a - self.base, v) }
        } else {
            self
        }
    }

    /// The whole segment `[start, start + len)` lies inside the region.
    pub open spec fn fits(self, start: u64, len: nat) -> bool {
        self.base <= start && (start - self.base) + len <= self.bytes.len()
    }

    pub open spec fn load(self, start: u64, data: Seq<u8>) -> MemModel {
        if self.fits(start, data.len()) {
            let off = start - self.base;
            MemModel {
                base: self.base,
                bytes: Seq::new(
                    self.bytes.len(),
                    |i: int|
                        if off <= i < off + data.len() {
                            data[i - off]
                        } else {
                            self.bytes[i]
                        },
                ),
            }
        } else {
            self
        }
    }
}

/// A byte written to an address that the region holds reads back as that byte.
pub proof fn lemma_write_then_read(m: MemModel, a: u64, v: u8)
    requires
        m.contains(a),
    ensures
        m.write_u8(a, v).read_u8(a) == Some(v),
        m.write_u8(a, v).bytes.len() == m.bytes.len(),
{
}

/// A flat byte buffer mapped at a base address.
pub struct LinearMemory {
    pub data: Vec<u8>,
    pub base_addr: u64,
}

impl View for LinearMemory {
    type V = MemModel;

    open spec fn view(&self) -> MemModel {
        MemModel { base: self.base_addr, bytes: self.data@ }
    }
}

impl LinearMemory {
    /// A zero-filled region of `size` bytes at `base_addr`.
    pub fn new(size: usize, base_addr: u64) -> (r: Self)
        ensures
            r@.base == base_addr,
            r@.bytes == Seq::new(size as nat, |i: int| 0u8),
    {
        let mut data: Vec<u8> = Vec::with_capacity(size);
        let mut i: usize = 0;
        while i < size
            invariant
                i <= size,
                data@ == Seq::new(i as nat, |j: int| 0u8),
            decreases size - i,
        {
            data.push(0u8);
            i = i + 1;
        }
        LinearMemory { data, base_addr }
    }

    pub open spec fn contains(&self, addr: u64) -> bool {
        self@.contains(addr)
    }

    pub fn read_u8(&self, addr: u64) -> (r: Option<u8>)
        ensures
            r == self@.read_u8(addr),
    {
        if addr >= self.base_addr && addr - self.base_addr < self.data.len() as u64 {
            Some(self.data[(addr - self.base_addr) as usize])
        } else {
            None
        }
    }

    /// Stores `value` when the region holds `addr`; `false` means out of range.
    pub fn write_u8(&mut self, addr: u64, value: u8) -> (r: bool)
        ensures
            r == old(self)@.contains(addr),
            final(self)@ == old(self)@.write_u8(addr, value),
    {
        if addr >= self.base_addr && addr - self.base_addr < self.data.len() as u64 {
            let idx = (addr - self.base_addr) as usize;
            self.data.set(idx, value);
            true
        } else {
            false
        }
    }

    /// Copies the segment in when it fits entirely; `true` iff it did.
    pub fn load_from_segment(&mut self, segment: &Segment) -> (r: bool)
        ensures
            r == old(self)@.fits(segment.start_addr, segment.data@.len()),
            final(self)@ == old(self)@.load(segment.start_addr, segment.data@),
    {
        let start = segment.start_addr;
        let n = segment.data.len();
        if start >= self.base_addr && (start - self.base_addr) as u128 + n as u128
            <= self.data.len() as u128 {
            let off = (start - self.base_addr) as usize;
            let ghost before = self.data@;
            let mut i: usize = 0;
            while i < n
                invariant
                    n == segment.data@.len(),
                    off + n <= self.data.len(),
                    self.data@.len() == before.len(),
                    self.base_addr == old(self).base_addr,
                    before == old(self).data@,
                    i <= n,
                    forall|k: int|
                        0 <= k < self.data@.len() ==> #[trigger] self.data@[k] == if off <= k < off
                            + i {
                            segment.data@[k - off]
                        } else {
                            before[k]
                        },
                decreases n - i,
            {
                self.data.set(off + i, segment.data[i]);
                i = i + 1;
            }
            assert(self.data@ =~= old(self)@.load(start, segment.data@).bytes);
            true
        } else {
            false
        }
    }
}

} // verus!
