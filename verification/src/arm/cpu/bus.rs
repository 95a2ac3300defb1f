//! The memory interface the interpreter executes against.
//!
//! The interpreter knows nothing about any particular machine, so the CPU talks
//! to memory through this trait. A machine implements it, translating to its
//! real bus, wait states, and scheduler. Every access reports the guest cycles it
//! consumed so the CPU can track time; instruction fetches are distinguished from
//! data accesses (they may be prefetched) and each access says whether it is
//! sequential (cheaper on wait-stated regions).
//!
//! Each access is specified by a transition of the bus's model: what the access
//! answers, and the model that is left behind. An implementor says what the
//! transitions are; the interpreter says which of them an instruction makes, in
//! which order.

use vstd::prelude::*;

verus! {

/// A value read from the bus together with the cycles the access took.
#[derive(Clone, Copy, Debug, PartialEq, Eq)]
pub struct Timed<T> {
    pub value: T,
    pub cycles: u32,
}

/// What a bus stands for: how it answers each access, and what the access makes of
/// it.
pub trait BusModel: Sized {
    /// What every access may rely on and leaves standing.
    spec fn valid(self) -> bool;

    /// The answer to an ARM opcode fetch, and the bus after it.
    spec fn fetched32(self, address: u32, sequential: bool) -> (Timed<u32>, Self);

    /// The answer to a Thumb opcode fetch, and the bus after it.
    spec fn fetched16(self, address: u32, sequential: bool) -> (Timed<u16>, Self);

    /// The answer to a word load, and the bus after it.
    spec fn loaded32(self, address: u32, sequential: bool) -> (Timed<u32>, Self);

    /// The answer to a halfword load, and the bus after it.
    spec fn loaded16(self, address: u32, sequential: bool) -> (Timed<u16>, Self);

    /// The answer to a byte load, and the bus after it.
    spec fn loaded8(self, address: u32, sequential: bool) -> (Timed<u8>, Self);

    /// The cycles of a word store, and the bus after it.
    spec fn stored32(self, address: u32, value: u32, sequential: bool) -> (u32, Self);

    /// The cycles of a halfword store, and the bus after it.
    spec fn stored16(self, address: u32, value: u16, sequential: bool) -> (u32, Self);

    /// The cycles of a byte store, and the bus after it.
    spec fn stored8(self, address: u32, value: u8, sequential: bool) -> (u32, Self);

    /// The bus after internal cycles.
    spec fn idled(self, cycles: u32) -> Self;

    /// Whether a coprocessor takes a register write, and the bus after it.
    spec fn coprocessor_written(
        self,
        cp: u8,
        opcode1: u8,
        crn: u8,
        crm: u8,
        opcode2: u8,
        value: u32,
    ) -> (bool, Self);

    /// What a coprocessor register read answers, and the bus after it.
    spec fn coprocessor_got(
        self,
        cp: u8,
        opcode1: u8,
        crn: u8,
        crm: u8,
        opcode2: u8,
    ) -> (Option<u32>, Self);
}

/// The memory the CPU executes against.
pub trait Bus {
    /// What the bus stands for.
    type Model: BusModel;

    /// The current state of the bus.
    spec fn model(&self) -> Self::Model;

    /// Fetch a 32-bit ARM opcode.
    fn fetch32(&mut self, address: u32, sequential: bool) -> (fetched: Timed<u32>)
        requires
            old(self).model().valid(),
        ensures
            final(self).model().valid(),
            (fetched, final(self).model()) == old(self).model().fetched32(address, sequential),
    ;

    /// Fetch a 16-bit Thumb opcode.
    fn fetch16(&mut self, address: u32, sequential: bool) -> (fetched: Timed<u16>)
        requires
            old(self).model().valid(),
        ensures
            final(self).model().valid(),
            (fetched, final(self).model()) == old(self).model().fetched16(address, sequential),
    ;

    /// Load a word.
    fn load32(&mut self, address: u32, sequential: bool) -> (read: Timed<u32>)
        requires
            old(self).model().valid(),
        ensures
            final(self).model().valid(),
            (read, final(self).model()) == old(self).model().loaded32(address, sequential),
    ;

    /// Load a halfword.
    fn load16(&mut self, address: u32, sequential: bool) -> (read: Timed<u16>)
        requires
            old(self).model().valid(),
        ensures
            final(self).model().valid(),
            (read, final(self).model()) == old(self).model().loaded16(address, sequential),
    ;

    /// Load a byte.
    fn load8(&mut self, address: u32, sequential: bool) -> (read: Timed<u8>)
        requires
            old(self).model().valid(),
        ensures
            final(self).model().valid(),
            (read, final(self).model()) == old(self).model().loaded8(address, sequential),
    ;

    /// Store a word; returns the cycles the access took.
    fn store32(&mut self, address: u32, value: u32, sequential: bool) -> (cycles: u32)
        requires
            old(self).model().valid(),
        ensures
            final(self).model().valid(),
            (cycles, final(self).model()) == old(self).model().stored32(address, value, sequential),
    ;

    /// Store a halfword; returns the cycles the access took.
    fn store16(&mut self, address: u32, value: u16, sequential: bool) -> (cycles: u32)
        requires
            old(self).model().valid(),
        ensures
            final(self).model().valid(),
            (cycles, final(self).model()) == old(self).model().stored16(address, value, sequential),
    ;

    /// Store a byte; returns the cycles the access took.
    fn store8(&mut self, address: u32, value: u8, sequential: bool) -> (cycles: u32)
        requires
            old(self).model().valid(),
        ensures
            final(self).model().valid(),
            (cycles, final(self).model()) == old(self).model().stored8(address, value, sequential),
    ;

    /// Consume `cycles` internal (non-bus) cycles - the CPU's I-cycles, during
    /// which a machine may advance a ROM prefetcher.
    fn internal(&mut self, cycles: u32)
        requires
            old(self).model().valid(),
        ensures
            final(self).model().valid(),
            final(self).model() == old(self).model().idled(cycles),
    ;

    /// `MCR` - move `value` from an ARM register into the coprocessor register
    /// named by `cp`/`opcode1`/`crn`/`crm`/`opcode2`. Returns `true` if a
    /// coprocessor accepted the write; `false` raises the Undefined Instruction
    /// trap, as on hardware with no such coprocessor.
    fn coprocessor_write(
        &mut self,
        cp: u8,
        opcode1: u8,
        crn: u8,
        crm: u8,
        opcode2: u8,
        value: u32,
    ) -> (accepted: bool)
        requires
            old(self).model().valid(),
        ensures
            final(self).model().valid(),
            (accepted, final(self).model()) == old(self).model().coprocessor_written(
                cp,
                opcode1,
                crn,
                crm,
                opcode2,
                value,
            ),
    ;

    /// `MRC` - read the coprocessor register named by the selectors into an ARM
    /// register. `None` raises the Undefined Instruction trap.
    fn coprocessor_read(&mut self, cp: u8, opcode1: u8, crn: u8, crm: u8, opcode2: u8) -> (value:
        Option<u32>)
        requires
            old(self).model().valid(),
        ensures
            final(self).model().valid(),
            (value, final(self).model()) == old(self).model().coprocessor_got(cp, opcode1, crn, crm, opcode2),
    ;
}

} // verus!
