//! The GBA interrupt controller (`IE` / `IF` / `IME`).
//!
//! Devices don't call interrupt handlers. They request an interrupt *source*
//! here; the controller records it in `IF`, and the CPU samples the resulting
//! IRQ line at an architecturally legal instruction boundary. Whether the line
//! is asserted depends on `IE` (per-source enable) and `IME` (master enable);
//! the CPSR I-bit is a further gate owned by the CPU core, not modeled here.

use vstd::prelude::*;

verus! {

/// A hardware interrupt source, in the order of the bits of `IE`/`IF`.
#[derive(Clone, Copy, Debug, PartialEq, Eq, Hash, Structural)]
pub enum IrqSource {
    VBlank,
    HBlank,
    VCounterMatch,
    Timer0,
    Timer1,
    Timer2,
    Timer3,
    Serial,
    Dma0,
    Dma1,
    Dma2,
    Dma3,
    Keypad,
    GamePak,
}

impl IrqSource {
    /// The single-bit mask this source occupies in `IE`/`IF`.
    #[verifier::allow_in_spec]
    pub fn mask(self) -> u16
        returns
            (match self {
                IrqSource::VBlank => 0x0001u16,
                IrqSource::HBlank => 0x0002u16,
                IrqSource::VCounterMatch => 0x0004u16,
                IrqSource::Timer0 => 0x0008u16,
                IrqSource::Timer1 => 0x0010u16,
                IrqSource::Timer2 => 0x0020u16,
                IrqSource::Timer3 => 0x0040u16,
                IrqSource::Serial => 0x0080u16,
                IrqSource::Dma0 => 0x0100u16,
                IrqSource::Dma1 => 0x0200u16,
                IrqSource::Dma2 => 0x0400u16,
                IrqSource::Dma3 => 0x0800u16,
                IrqSource::Keypad => 0x1000u16,
                IrqSource::GamePak => 0x2000u16,
            }),
    {
        match self {
            IrqSource::VBlank => 0x0001,
            IrqSource::HBlank => 0x0002,
            IrqSource::VCounterMatch => 0x0004,
            IrqSource::Timer0 => 0x0008,
            IrqSource::Timer1 => 0x0010,
            IrqSource::Timer2 => 0x0020,
            IrqSource::Timer3 => 0x0040,
            IrqSource::Serial => 0x0080,
            IrqSource::Dma0 => 0x0100,
            IrqSource::Dma1 => 0x0200,
            IrqSource::Dma2 => 0x0400,
            IrqSource::Dma3 => 0x0800,
            IrqSource::Keypad => 0x1000,
            IrqSource::GamePak => 0x2000,
        }
    }
}

/// The `IE`/`IF`/`IME` interrupt controller.
#[derive(Clone, Copy, Debug, PartialEq, Eq, Structural)]
pub struct InterruptController {
    /// `IE` - per-source enable bits (`4000200h`).
    pub ie: u16,
    /// `IF` - pending request flags (`4000202h`).
    pub iflags: u16,
    /// `IME` - master enable (`4000208h`, bit 0).
    pub ime: bool,
}

impl Default for InterruptController {
    fn default() -> (controller: Self)
        ensures
            controller == InterruptController::off(),
    {
        InterruptController { ie: 0, iflags: 0, ime: false }
    }
}

impl InterruptController {
    /// Nothing enabled, nothing requested.
    pub open spec fn off() -> InterruptController {
        InterruptController { ie: 0, iflags: 0, ime: false }
    }

    /// A controller with nothing enabled and nothing requested.
    pub fn new() -> (controller: Self)
        ensures
            controller == InterruptController::off(),
    {
        Self::default()
    }

    /// The controller after a request from `source`.
    pub open spec fn requested(self, source: IrqSource) -> InterruptController {
        InterruptController { iflags: self.iflags | source.mask(), ..self }
    }

    /// Record an interrupt request from `source` by setting its `IF` bit. This
    /// is what devices call; it is independent of `IE`/`IME`, which only gate
    /// whether the request reaches or is accepted by the CPU.
    pub fn request(&mut self, source: IrqSource)
        ensures
            *final(self) == old(self).requested(source),
    {
        self.iflags = self.iflags | source.mask();
    }

    /// Write `IE`.
    pub fn set_ie(&mut self, ie: u16)
        ensures
            *final(self) == (InterruptController { ie, ..*old(self) }),
    {
        self.ie = ie;
    }

    /// Read `IE`.
    pub fn ie(&self) -> (ie: u16)
        ensures
            ie == self.ie,
    {
        self.ie
    }

    /// Write `IME` (only bit 0 is meaningful).
    pub fn set_ime(&mut self, enabled: bool)
        ensures
            *final(self) == (InterruptController { ime: enabled, ..*old(self) }),
    {
        self.ime = enabled;
    }

    /// Read `IME`.
    pub fn ime(&self) -> (enabled: bool)
        ensures
            enabled == self.ime,
    {
        self.ime
    }

    /// Read `IF`.
    pub fn iflags(&self) -> (flags: u16)
        ensures
            flags == self.iflags,
    {
        self.iflags
    }

    /// The controller after `IF` bits were acknowledged.
    pub open spec fn acknowledged(self, mask: u16) -> InterruptController {
        InterruptController { iflags: self.iflags & !mask, ..self }
    }

    /// Acknowledge interrupts: a CPU write to `IF` clears every bit set in
    /// `mask` (write-1-to-clear).
    pub fn acknowledge(&mut self, mask: u16)
        ensures
            *final(self) == old(self).acknowledged(mask),
    {
        self.iflags = self.iflags & !mask;
    }

    /// Whether any enabled interrupt is pending, `IME` aside. This is the
    /// condition that wakes a halted CPU.
    #[verifier::allow_in_spec]
    pub fn pending(&self) -> bool
        returns
            self.ie & self.iflags != 0,
    {
        self.ie & self.iflags != 0
    }

    /// Whether an enabled interrupt within `mask` is pending. Used for Stop
    /// mode, which only wakes on a subset of sources.
    #[verifier::allow_in_spec]
    pub fn pending_within(&self, mask: u16) -> bool
        returns
            self.ie & self.iflags & mask != 0,
    {
        self.ie & self.iflags & mask != 0
    }

    /// Whether the CPU IRQ input line is asserted: an enabled request is pending
    /// and the master enable is set. The CPU still applies the CPSR I-bit before
    /// taking the exception.
    #[verifier::allow_in_spec]
    pub fn line_asserted(&self) -> bool
        returns
            self.ime && self.pending(),
    {
        self.ime && self.pending()
    }
}

proof fn lemma_flag_words(flags: u16, enabled: u16, bit: u16, mask: u16)
    by (bit_vector)
    ensures
        bit != 0 ==> (flags | bit) & bit != 0,
        (flags & !mask) & mask == 0,
        mask & bit == 0 ==> (flags & !mask) & bit == flags & bit,
        enabled & bit != 0 ==> enabled & (flags | bit) != 0,
        mask & bit == 0 ==> (flags | bit) & mask == flags & mask,
        enabled & flags & mask != 0 ==> enabled & flags != 0,
        enabled == 0 || flags == 0 ==> enabled & flags == 0,
{
}

/// A requested source is pending as soon as it is enabled, and reaches the CPU
/// with the master enable.
pub proof fn enabled_request_asserts_line(controller: InterruptController, source: IrqSource)
    requires
        controller.ie & source.mask() != 0,
    ensures
        controller.requested(source).pending(),
        controller.requested(source).line_asserted() == controller.ime,
{
    lemma_flag_words(controller.iflags, controller.ie, source.mask(), 0);
}

/// Acknowledging clears the written bits and leaves every other request alone.
pub proof fn acknowledge_clears_only_written_bits(
    controller: InterruptController,
    mask: u16,
    source: IrqSource,
)
    ensures
        controller.acknowledged(mask).iflags & mask == 0,
        mask & source.mask() == 0 ==> controller.acknowledged(mask).iflags & source.mask()
            == controller.iflags & source.mask(),
{
    lemma_flag_words(controller.iflags, controller.ie, source.mask(), mask);
}

/// What wakes a stopped CPU wakes a halted one.
pub proof fn stop_wakes_less_than_halt(controller: InterruptController, mask: u16)
    ensures
        controller.pending_within(mask) ==> controller.pending(),
{
    lemma_flag_words(controller.iflags, controller.ie, 0, mask);
}

/// The sources hold the bits of `IE` and `IF` from the lowest up: the three display
/// events, the four timers, serial, the four DMA channels, the keypad and the cartridge.
pub proof fn source_bits()
    ensures
        IrqSource::VBlank.mask() == 0x0001 && IrqSource::HBlank.mask() == 0x0002,
        IrqSource::VCounterMatch.mask() == 0x0004,
        IrqSource::Timer0.mask() == 0x0008 && IrqSource::Timer1.mask() == 0x0010,
        IrqSource::Timer2.mask() == 0x0020 && IrqSource::Timer3.mask() == 0x0040,
        IrqSource::Serial.mask() == 0x0080,
        IrqSource::Dma0.mask() == 0x0100 && IrqSource::Dma1.mask() == 0x0200,
        IrqSource::Dma2.mask() == 0x0400 && IrqSource::Dma3.mask() == 0x0800,
        IrqSource::Keypad.mask() == 0x1000 && IrqSource::GamePak.mask() == 0x2000,
{
}

/// The line to the CPU is asserted exactly where interrupts are on at all and some
/// source is both enabled and requested; a source that is not enabled asserts nothing.
pub proof fn line_needs_enable_and_request(controller: InterruptController)
    ensures
        controller.line_asserted() ==> controller.ime,
        controller.ie == 0 ==> !controller.line_asserted(),
        controller.iflags == 0 ==> !controller.line_asserted(),
        controller.ime && controller.ie & controller.iflags != 0 ==> controller.line_asserted(),
{
    lemma_no_common_flag(controller.ie, controller.iflags);
}

proof fn lemma_no_common_flag(a: u16, b: u16)
    ensures
        a == 0 ==> a & b == 0,
        b == 0 ==> a & b == 0,
{
    lemma_flag_words(b, a, 0, 0);
}

} // verus!
