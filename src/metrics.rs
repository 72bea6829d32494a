use vstd::prelude::*;

verus! {

/// Counts executed instructions and elapsed cycles; both counters saturate.
#[derive(Debug, Clone, Copy)]
pub struct PerformanceMetrics {
    pub instruction_count: u64,
    pub cycle_count: u64,
}

pub open spec fn sat_add(a: u64, b: u64) -> u64 {
    if a + b > u64::MAX {
        u64::MAX
    } else {
        (a + b) as u64
    }
}

impl PerformanceMetrics {
    pub fn new() -> (r: Self)
        ensures
            r.instruction_count == 0 && r.cycle_count == 0,
    {
        PerformanceMetrics { instruction_count: 0, cycle_count: 0 }
    }

    pub fn reset(&mut self)
        ensures
            final(self).instruction_count == 0 && final(self).cycle_count == 0,
    {
        self.instruction_count = 0;
        self.cycle_count = 0;
    }

    pub fn get_instructions(&self) -> (r: u64)
        ensures
            r == self.instruction_count,
    {
        self.instruction_count
    }

    pub fn get_cycles(&self) -> (r: u64)
        ensures
            r == self.cycle_count,
    {
        self.cycle_count
    }

    /// Called as a step begins: one more instruction.
    pub fn on_step_start(&mut self)
        ensures
            *final(self) == (PerformanceMetrics {
                instruction_count: sat_add(old(self).instruction_count, 1),
                ..*old(self)
            }),
    {
        self.instruction_count = self.instruction_count.saturating_add(1);
    }

    /// Called as a step ends, with the cycles it took.
    pub fn on_step_end(&mut self, cycles: u32)
        ensures
            *final(self) == (PerformanceMetrics {
                cycle_count: sat_add(old(self).cycle_count, cycles as u64),
                ..*old(self)
            }),
    {
        self.cycle_count = self.cycle_count.saturating_add(cycles as u64);
    }
}

} // verus!
