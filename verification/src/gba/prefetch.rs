//! The gamepak prefetch buffer.
//!
//! While the CPU is not using the cartridge bus, the prefetcher reads ahead of the
//! program counter into a buffer of eight halfwords. A sequential opcode fetch that
//! finds its halfword buffered costs a single cycle; one that finds the buffer empty
//! waits for the halfword in progress. A branch empties the buffer and restarts the
//! prefetcher at the new address.

use vstd::prelude::*;

verus! {

/// Halfwords the buffer holds.
pub const CAPACITY: u32 = 8;

/// The prefetcher.
#[derive(Clone, Copy, Debug, PartialEq, Eq, Structural)]
pub struct Prefetch {
    pub enabled: bool,
    /// Halfwords waiting in the buffer.
    pub buffered: u32,
    /// Cycles to read one halfword.
    pub halfword_cost: u32,
    /// Cycles already spent on the halfword in progress.
    pub progress: u32,
}

impl Default for Prefetch {
    fn default() -> (prefetch: Self)
        ensures
            prefetch == Prefetch::off(),
    {
        Prefetch { enabled: false, buffered: 0, halfword_cost: 1, progress: 0 }
    }
}

impl Prefetch {
    /// A disabled prefetcher with an empty buffer.
    pub open spec fn off() -> Prefetch {
        Prefetch { enabled: false, buffered: 0, halfword_cost: 1, progress: 0 }
    }

    /// The halfword in progress is not complete, and the buffer not overfull.
    pub open spec fn valid(self) -> bool {
        self.buffered <= CAPACITY && self.progress < self.halfword_cost
    }

    /// A disabled prefetcher with an empty buffer.
    pub fn new() -> (prefetch: Self)
        ensures
            prefetch == Prefetch::off(),
            prefetch.valid(),
    {
        Self::default()
    }

    /// Whether prefetching is on.
    pub fn enabled(&self) -> (on: bool)
        ensures
            on == self.enabled,
    {
        self.enabled
    }

    /// The prefetcher switched on or off; switching it off empties the buffer.
    pub open spec fn switched(self, on: bool) -> Prefetch {
        if on {
            Prefetch { enabled: true, ..self }
        } else {
            Prefetch { enabled: false, buffered: 0, progress: 0, ..self }
        }
    }

    /// Switch prefetching on or off.
    pub fn set_enabled(&mut self, on: bool)
        requires
            old(self).valid(),
        ensures
            *final(self) == old(self).switched(on),
            final(self).valid(),
    {
        self.enabled = on;
        if !on {
            self.buffered = 0;
            self.progress = 0;
        }
    }

    /// The prefetcher restarted by a branch.
    pub open spec fn restarted(self, halfword_cost: u32) -> Prefetch {
        Prefetch { buffered: 0, halfword_cost, progress: 0, ..self }
    }

    /// Empty the buffer and start over, at a given cost per halfword.
    pub fn restart(&mut self, halfword_cost: u32)
        requires
            halfword_cost > 0,
        ensures
            *final(self) == old(self).restarted(halfword_cost),
            final(self).valid(),
    {
        self.buffered = 0;
        self.halfword_cost = halfword_cost;
        self.progress = 0;
    }

    /// The cost of a sequential fetch, and the prefetcher after it.
    pub open spec fn fetched(self) -> (u32, Prefetch) {
        if self.buffered > 0 {
            (1u32, Prefetch { buffered: (self.buffered - 1) as u32, ..self })
        } else {
            ((self.halfword_cost - self.progress) as u32, Prefetch { progress: 0, ..self })
        }
    }

    /// Fetch the next halfword in sequence: one cycle from the buffer, or what is
    /// left of the halfword in progress.
    pub fn fetch_sequential(&mut self) -> (cycles: u32)
        requires
            old(self).valid(),
        ensures
            (cycles, *final(self)) == old(self).fetched(),
            final(self).valid(),
            cycles > 0,
            cycles <= old(self).halfword_cost,
    {
        if self.buffered > 0 {
            self.buffered = self.buffered - 1;
            1
        } else {
            let wait: u32 = self.halfword_cost - self.progress;
            self.progress = 0;
            wait
        }
    }

    /// The prefetcher after `idle` cycles of free cartridge bus. It stops once the
    /// buffer is full.
    pub open spec fn stepped(self, idle: u32) -> Prefetch {
        let total = self.progress + idle;
        let read = total / (self.halfword_cost as int);
        if !self.enabled {
            self
        } else if self.buffered + read >= CAPACITY {
            Prefetch { buffered: CAPACITY, progress: 0, ..self }
        } else {
            Prefetch {
                buffered: (self.buffered + read) as u32,
                progress: (total % (self.halfword_cost as int)) as u32,
                ..self
            }
        }
    }

    /// Read ahead during `idle` cycles in which the CPU leaves the cartridge bus
    /// free.
    pub fn step(&mut self, idle: u32)
        requires
            old(self).valid(),
        ensures
            *final(self) == old(self).stepped(idle),
            final(self).valid(),
    {
        if self.enabled {
            let total: u64 = self.progress as u64 + idle as u64;
            let cost: u64 = self.halfword_cost as u64;
            let read: u64 = total / cost;
            if self.buffered as u64 >= CAPACITY as u64 || read >= CAPACITY as u64
                - self.buffered as u64 {
                self.buffered = CAPACITY;
                self.progress = 0;
            } else {
                self.buffered = self.buffered + read as u32;
                self.progress = (total % cost) as u32;
            }
        }
    }
}

/// Enough idle cycles fill the buffer, and then a sequential fetch costs one cycle.
pub proof fn idle_cycles_speed_up_fetches(prefetch: Prefetch, idle: u32)
    requires
        prefetch.valid(),
        prefetch.enabled,
        idle >= prefetch.halfword_cost,
    ensures
        prefetch.stepped(idle).buffered > 0,
        prefetch.stepped(idle).fetched().0 == 1,
{
    let total = prefetch.progress + idle;
    let cost = prefetch.halfword_cost as int;
    assert(total / cost >= 1) by (nonlinear_arith)
        requires
            total >= cost,
            cost > 0,
    ;
}

} // verus!
