//! The audio processing unit - DirectSound (FIFO) mixing.
//!
//! The GBA mixes six channels: four Game Boy PSG channels and two 8-bit PCM
//! "DirectSound" channels (A and B) fed from a 32-byte FIFO. Commercial games do all
//! their mixing in software and stream the result through the DirectSound FIFOs,
//! so those are modeled first; the PSG channels are stubbed for readback.
//!
//! Each DirectSound FIFO is clocked by Timer 0 or 1 (selected in `SOUNDCNT_H`):
//! on the selected timer's overflow one byte is popped and latched as the
//! channel's current output, and when the FIFO runs low a DMA refills it. The
//! mixer samples the latched values at the output rate (a scheduler event),
//! appending interleaved stereo frames to an output buffer the host drains. The
//! frames are the mixer's raw levels; the host applies the output filters and
//! clamps to its sample format.

use vstd::prelude::*;

use super::psg::Psg;
use crate::emu_core::Timestamp;

verus! {

/// Emitted output sample rate. The CPU runs at 2^24 Hz, so one sample every 512
/// cycles is 32768 Hz - the GBA's typical `SOUNDBIAS` output rate.
pub const SAMPLE_RATE: u32 = 32_768;

/// PSG base cycles spanned by one output sample (2^22 Hz / 32768).
pub const PSG_CYCLES_PER_SAMPLE: i32 = 128;

/// Mix gains, chosen to bring DirectSound and the PSG to comparable per-channel
/// loudness (matching hardware, where a full DirectSound channel and a full PSG
/// channel are similar) at the natural register levels.
pub const DS_GAIN: i32 = 48;

pub const PSG_GAIN: i32 = 96;

/// The largest PSG level the mixer takes.
pub const PSG_LIMIT: i32 = 0x1_0000;

/// CPU cycles between emitted samples: 2^24 / `SAMPLE_RATE`.
pub const CYCLES_PER_SAMPLE: Timestamp = 512;

/// FIFO capacity in bytes.
pub const FIFO_SIZE: usize = 32;

/// A DMA refill is requested once the FIFO has this many bytes or fewer.
pub const FIFO_REFILL_THRESHOLD: usize = 16;

// SOUNDCNT_H (0x082) bits.
/// 0 = 50%, 1 = 100%.
pub const H_DSA_VOLUME_FULL: u16 = 0x0004;

pub const H_DSB_VOLUME_FULL: u16 = 0x0008;

pub const H_DSA_ENABLE_RIGHT: u16 = 0x0100;

pub const H_DSA_ENABLE_LEFT: u16 = 0x0200;

/// 0 = Timer 0, 1 = Timer 1.
pub const H_DSA_TIMER: u16 = 0x0400;

pub const H_DSA_RESET: u16 = 0x0800;

pub const H_DSB_ENABLE_RIGHT: u16 = 0x1000;

pub const H_DSB_ENABLE_LEFT: u16 = 0x2000;

pub const H_DSB_TIMER: u16 = 0x4000;

pub const H_DSB_RESET: u16 = 0x8000;

/// SOUNDCNT_X (0x084) bit 7: master enable.
pub const X_MASTER_ENABLE: u16 = 0x0080;

/// A DirectSound FIFO: a 32-byte ring of signed 8-bit samples.
#[derive(Debug)]
pub struct Fifo {
    data: [i8; 32],
    read: usize,
    len: usize,
}

/// One of the four little-endian samples of a word.
pub open spec fn sample_of(word: u32, i: int) -> i8 {
    ((word >> ((8 * i) as u32)) as u8) as i8
}

/// A FIFO's contents after pushing the samples of a word from the `i`th on; those
/// that do not fit are dropped.
pub open spec fn pushed(contents: Seq<i8>, word: u32, i: int) -> Seq<i8>
    decreases 4 - i,
{
    if i >= 4 || contents.len() >= FIFO_SIZE {
        contents
    } else {
        pushed(contents.push(sample_of(word, i)), word, i + 1)
    }
}

/// What popping yields: the oldest sample, or silence when starved.
pub open spec fn popped(contents: Seq<i8>) -> i8 {
    if contents.len() == 0 {
        0
    } else {
        contents[0]
    }
}

/// A FIFO's contents after popping.
pub open spec fn rest(contents: Seq<i8>) -> Seq<i8> {
    if contents.len() == 0 {
        contents
    } else {
        contents.skip(1)
    }
}

impl View for Fifo {
    type V = Seq<i8>;

    /// The samples waiting, oldest first.
    closed spec fn view(&self) -> Seq<i8> {
        Seq::new(self.len as nat, |k: int| self.data[(self.read + k) % 32])
    }
}

impl Clone for Fifo {
    fn clone(&self) -> (copy: Self)
        ensures
            copy == *self,
    {
        proof {
            use_type_invariant(self);
        }
        Fifo { data: self.data, read: self.read, len: self.len }
    }
}

impl Fifo {
    /// The ring's indices are in range.
    #[verifier::type_invariant]
    spec fn in_range(self) -> bool {
        self.read < 32 && self.len <= 32
    }

    /// An empty FIFO.
    fn new() -> (fifo: Self)
        ensures
            fifo@ == Seq::<i8>::empty(),
    {
        let fifo = Fifo { data: [0; 32], read: 0, len: 0 };
        assert(fifo@ =~= Seq::<i8>::empty());
        fifo
    }

    /// The number of samples waiting.
    pub fn len(&self) -> (len: usize)
        ensures
            len == self@.len(),
    {
        self.len
    }

    fn clear(&mut self)
        ensures
            final(self)@ == Seq::<i8>::empty(),
    {
        proof {
            use_type_invariant(&*self);
        }
        self.read = 0;
        self.len = 0;
        assert(self@ =~= Seq::<i8>::empty());
    }

    /// Push a 32-bit word (four little-endian samples) from a FIFO write.
    fn push_word(&mut self, word: u32)
        ensures
            final(self)@ == pushed(old(self)@, word, 0),
    {
        proof {
            use_type_invariant(&*self);
        }
        let mut i: u32 = 0;
        while i < 4 && self.len < FIFO_SIZE
            invariant
                i <= 4,
                self.in_range(),
                pushed(old(self)@, word, 0) == pushed(self@, word, i as int),
            decreases 4 - i,
        {
            let ghost before = self@;
            let idx: usize = (self.read + self.len) % FIFO_SIZE;
            let sample: i8 = ((word >> (8 * i)) as u8) as i8;
            self.data[idx] = sample;
            self.len = self.len + 1;
            assert(self@ =~= before.push(sample)) by {
                assert forall|k: int| 0 <= k < before.len() implies self@[k] == before[k] by {
                    assert((self.read + k) % 32 != idx);
                }
            }
            i = i + 1;
        }
    }

    /// Pop one sample, or return 0 (and stay empty) when starved.
    fn pop(&mut self) -> (sample: i8)
        ensures
            sample == popped(old(self)@),
            final(self)@ == rest(old(self)@),
    {
        proof {
            use_type_invariant(&*self);
        }
        if self.len == 0 {
            return 0;
        }
        let sample: i8 = self.data[self.read];
        self.read = (self.read + 1) % FIFO_SIZE;
        self.len = self.len - 1;
        assert(self@ =~= old(self)@.skip(1));
        sample
    }
}

/// The audio processing unit.
#[derive(Clone, Debug)]
pub struct Apu {
    /// DirectSound/bias control registers `0x082..0x090` (readback + synth source).
    pub regs: [u8; 48],
    /// The four Game Boy PSG channels (registers `0x060..0x082` + wave RAM).
    pub psg: Psg,
    pub fifo: [Fifo; 2],
    /// The latched current output of each DirectSound channel (updated on the
    /// channel's timer overflow, held between overflows).
    pub latch: [i8; 2],
    /// Whether the host's output low-pass filter is engaged.
    pub low_pass_on: bool,
    /// Debug mutes for isolating the mix; the channels still advance so
    /// unmuting doesn't glitch.
    pub mute_directsound: bool,
    pub mute_psg: bool,
    /// Interleaved stereo output frames awaiting the host.
    pub buffer: Vec<i32>,
}

/// What the audio unit stands for.
#[verifier::ext_equal]
pub struct ApuState {
    pub regs: [u8; 48],
    pub psg: Psg,
    pub fifo: Seq<Seq<i8>>,
    pub latch: [i8; 2],
    pub low_pass_on: bool,
    pub mute_directsound: bool,
    pub mute_psg: bool,
    pub buffer: Seq<i32>,
}

impl View for Apu {
    type V = ApuState;

    open spec fn view(&self) -> ApuState {
        ApuState {
            regs: self.regs,
            psg: self.psg,
            fifo: seq![self.fifo@[0]@, self.fifo@[1]@],
            latch: self.latch,
            low_pass_on: self.low_pass_on,
            mute_directsound: self.mute_directsound,
            mute_psg: self.mute_psg,
            buffer: self.buffer@,
        }
    }
}

impl Default for Apu {
    fn default() -> (apu: Self)
        ensures
            apu@.is_initial(),
    {
        let apu = Apu {
            regs: [0; 48],
            psg: Psg::new(),
            fifo: [Fifo::new(), Fifo::new()],
            latch: [0, 0],
            low_pass_on: true,
            mute_directsound: false,
            mute_psg: false,
            buffer: Vec::new(),
        };
        assert(apu.regs@ =~= Seq::new(48, |i: int| 0u8));
        assert(apu@.fifo =~= seq![Seq::<i8>::empty(), Seq::<i8>::empty()]);
        apu
    }
}

impl ApuState {
    /// Silence: every register zero, both FIFOs empty, the filter engaged.
    pub open spec fn is_initial(self) -> bool {
        &&& self.regs@ == Seq::new(48, |i: int| 0u8)
        &&& self.psg.is_cleared()
        &&& self.fifo == seq![Seq::<i8>::empty(), Seq::<i8>::empty()]
        &&& self.latch@ == seq![0i8, 0i8]
        &&& self.low_pass_on && !self.mute_directsound && !self.mute_psg
        &&& self.buffer == Seq::<i32>::empty()
    }

    /// The control register halfword whose low byte is at `i`.
    pub open spec fn halfword(self, i: int) -> u16 {
        (self.regs[i] + self.regs[i + 1] * 256) as u16
    }

    /// `SOUNDCNT_H` (0x082).
    pub open spec fn soundcnt_h(self) -> u16 {
        self.halfword(0x22)
    }

    /// `SOUNDCNT_X` (0x084).
    pub open spec fn soundcnt_x(self) -> u16 {
        self.halfword(0x24)
    }

    /// Whether sound is on at all.
    pub open spec fn master_enabled(self) -> bool {
        self.soundcnt_x() & X_MASTER_ENABLE != 0
    }

    /// What the sound register at `offset` reads as.
    pub open spec fn register(self, offset: u32) -> u16 {
        if 0x060 <= offset <= 0x081 || 0x090 <= offset <= 0x09F {
            self.psg.register(offset)
        } else if offset == 0x084 {
            (self.soundcnt_x() & X_MASTER_ENABLE) | self.psg.status_bits()
        } else if 0x082 <= offset <= 0x08F {
            self.halfword(offset - 0x060)
        } else {
            0
        }
    }

    /// The unit with a control register halfword stored.
    pub open spec fn stored(self, i: int, value: u16) -> ApuState {
        ApuState {
            regs: vstd::array::spec_array_update(
                vstd::array::spec_array_update(self.regs, i, (value % 256) as u8),
                i + 1,
                (value / 256) as u8,
            ),
            ..self
        }
    }

    /// The unit with a FIFO reset: emptied, and the reset bit (in the high byte of
    /// `SOUNDCNT_H`) cleared.
    pub open spec fn fifo_reset(self, index: int, bit: u8) -> ApuState {
        ApuState {
            fifo: self.fifo.update(index, Seq::empty()),
            regs: vstd::array::spec_array_update(self.regs, 0x23, self.regs[0x23] & !bit),
            ..self
        }
    }

    /// The unit after a masked write to the sound register at `offset`.
    pub open spec fn written(self, offset: u32, value: u16, mask: u16) -> ApuState {
        if 0x060 <= offset <= 0x081 || 0x090 <= offset <= 0x09F {
            ApuState { psg: self.psg.written(offset, value, mask), ..self }
        } else if 0x082 <= offset <= 0x08F {
            let i = offset - 0x060;
            let merged = super::dma::merge16(self.halfword(i), value, mask);
            let s = self.stored(i, merged);
            let s = if offset == 0x082 && merged & H_DSA_RESET != 0 {
                s.fifo_reset(0, 0x08)
            } else {
                s
            };
            if offset == 0x082 && merged & H_DSB_RESET != 0 {
                s.fifo_reset(1, 0x80)
            } else {
                s
            }
        } else {
            self
        }
    }

    /// The timer that clocks a DirectSound channel.
    pub open spec fn timer_of(self, channel: int) -> usize {
        let select = if channel == 0 {
            H_DSA_TIMER
        } else {
            H_DSB_TIMER
        };
        if self.soundcnt_h() & select != 0 {
            1usize
        } else {
            0usize
        }
    }

    /// The unit after a channel was clocked: the oldest sample is latched.
    pub open spec fn clocked(self, channel: int, timer_id: usize) -> ApuState {
        if self.timer_of(channel) == timer_id {
            ApuState {
                latch: vstd::array::spec_array_update(
                    self.latch,
                    channel,
                    popped(self.fifo[channel]),
                ),
                fifo: self.fifo.update(channel, rest(self.fifo[channel])),
                ..self
            }
        } else {
            self
        }
    }

    /// Whether clocking a channel leaves its FIFO in need of a refill.
    pub open spec fn needs_refill(self, channel: int, timer_id: usize) -> bool {
        self.timer_of(channel) == timer_id && rest(self.fifo[channel]).len()
            <= FIFO_REFILL_THRESHOLD
    }

    /// A DirectSound channel's level: its latched sample, doubled at full volume.
    pub open spec fn level(self, channel: int) -> int {
        let full = if channel == 0 {
            H_DSA_VOLUME_FULL
        } else {
            H_DSB_VOLUME_FULL
        };
        if self.soundcnt_h() & full != 0 {
            self.latch[channel] * 2
        } else {
            self.latch[channel] as int
        }
    }

    /// What a channel contributes to a speaker that its control bit enables.
    pub open spec fn panned(self, channel: int, enable: u16) -> int {
        if self.soundcnt_h() & enable != 0 {
            self.level(channel)
        } else {
            0
        }
    }

    /// The DirectSound channels' contribution to the left and right speaker.
    pub open spec fn directsound(self) -> (int, int) {
        (
            self.panned(0, H_DSA_ENABLE_LEFT) + self.panned(1, H_DSB_ENABLE_LEFT),
            self.panned(0, H_DSA_ENABLE_RIGHT) + self.panned(1, H_DSB_ENABLE_RIGHT),
        )
    }

    /// The divisor by which `SOUNDCNT_H` bits 0-1 attenuate the PSG (25% / 50% /
    /// 100%).
    pub open spec fn psg_divisor(self) -> int {
        if self.soundcnt_h() % 4 == 0 {
            4
        } else if self.soundcnt_h() % 4 == 1 {
            2
        } else {
            1
        }
    }

    /// One stereo frame at the mixer's output: both sources at their gains, or
    /// silence when sound is off.
    pub open spec fn mixed(self, psg: (i32, i32)) -> (int, int) {
        let (left, right) = if self.mute_directsound {
            (0int, 0int)
        } else {
            self.directsound()
        };
        let (psg_left, psg_right) = if self.mute_psg {
            (0int, 0int)
        } else {
            (psg.0 as int, psg.1 as int)
        };
        if self.master_enabled() {
            (
                left * DS_GAIN + psg_left / self.psg_divisor() * PSG_GAIN,
                right * DS_GAIN + psg_right / self.psg_divisor() * PSG_GAIN,
            )
        } else {
            (0, 0)
        }
    }

    /// The unit after one output sample.
    pub open spec fn sampled(self) -> ApuState {
        let (left, right) = self.mixed(self.psg.step_sample(PSG_CYCLES_PER_SAMPLE));
        ApuState { buffer: self.buffer.push(left as i32).push(right as i32), ..self }
    }
}

/// Rounds towards negative infinity, as an arithmetic shift does.
fn floor_div(x: i32, divisor: i32) -> (q: i32)
    requires
        divisor == 1 || divisor == 2 || divisor == 4,
    ensures
        q == x as int / divisor as int,
{
    if x >= 0 {
        x / divisor
    } else {
        -1 - (-(x + 1)) / divisor
    }
}

impl Apu {
    /// A silent audio unit.
    pub fn new() -> (apu: Self)
        ensures
            apu@.is_initial(),
    {
        Self::default()
    }

    fn halfword(&self, i: usize) -> (value: u16)
        requires
            i < 47,
        ensures
            value == self@.halfword(i as int),
    {
        self.regs[i] as u16 + self.regs[i + 1] as u16 * 256
    }

    /// `SOUNDCNT_H` (0x082).
    pub fn soundcnt_h(&self) -> (value: u16)
        ensures
            value == self@.soundcnt_h(),
    {
        self.halfword(0x22)
    }

    /// `SOUNDCNT_X` (0x084).
    fn soundcnt_x(&self) -> (value: u16)
        ensures
            value == self@.soundcnt_x(),
    {
        self.halfword(0x24)
    }

    fn master_enabled(&self) -> (on: bool)
        ensures
            on == self@.master_enabled(),
    {
        self.soundcnt_x() & X_MASTER_ENABLE != 0
    }

    /// Read a 16-bit sound register (`offset` relative to `0x4000000`). FIFOs are
    /// write-only.
    pub fn read16(&self, offset: u32) -> (value: u16)
        requires
            offset != 0x08F,
        ensures
            value == self@.register(offset),
    {
        if 0x060 <= offset && offset <= 0x081 || 0x090 <= offset && offset <= 0x09F {
            self.psg.read16(offset)
        } else if offset == 0x084 {
            // NR52: our master-enable bit plus the PSG channel-on status bits.
            (self.soundcnt_x() & X_MASTER_ENABLE) | self.psg.status_bits()
        } else if 0x082 <= offset && offset <= 0x08F {
            self.halfword((offset - 0x060) as usize)
        } else {
            0
        }
    }

    /// Write a 16-bit sound register (masked). FIFO writes go through
    /// [`Apu::write_fifo`]; this handles the control/PSG block and wave RAM.
    pub fn write16(&mut self, offset: u32, value: u16, mask: u16)
        requires
            offset != 0x08F,
        ensures
            final(self)@ == old(self)@.written(offset, value, mask),
    {
        if 0x060 <= offset && offset <= 0x081 || 0x090 <= offset && offset <= 0x09F {
            self.psg.write16(offset, value, mask);
        } else if 0x082 <= offset && offset <= 0x08F {
            let i: usize = (offset - 0x060) as usize;
            let merged: u16 = super::dma::merge16(self.halfword(i), value, mask);
            self.regs[i] = (merged % 256) as u8;
            self.regs[i + 1] = (merged / 256) as u8;
            // A FIFO-reset bit clears the corresponding FIFO, then reads 0.
            if offset == 0x082 {
                if merged & H_DSA_RESET != 0 {
                    self.fifo[0].clear();
                    self.regs[0x23] = self.regs[0x23] & !0x08;
                }
                if merged & H_DSB_RESET != 0 {
                    self.fifo[1].clear();
                    self.regs[0x23] = self.regs[0x23] & !0x80;
                }
            }
        }
        assert(self@ =~~= old(self)@.written(offset, value, mask));
    }

    /// Push a 32-bit word into FIFO A (`index` 0, `0x0A0`) or B (`index` 1,
    /// `0x0A4`). Called for CPU and (mainly) DMA writes.
    pub fn write_fifo(&mut self, index: usize, word: u32)
        requires
            index < 2,
        ensures
            final(self)@ == (ApuState {
                fifo: old(self)@.fifo.update(
                    index as int,
                    pushed(old(self)@.fifo[index as int], word, 0),
                ),
                ..old(self)@
            }),
    {
        if index == 0 {
            self.fifo[0].push_word(word);
        } else {
            self.fifo[1].push_word(word);
        }
        assert(self@.fifo =~= old(self)@.fifo.update(
            index as int,
            pushed(old(self)@.fifo[index as int], word, 0),
        ));
    }

    /// Clock the DirectSound channels whose selected timer (`timer_id`, 0 or 1)
    /// just overflowed: pop a sample into the latch. Returns which FIFOs (A, B)
    /// dropped to the refill threshold and need a DMA top-up.
    pub fn on_timer_overflow(&mut self, timer_id: usize) -> (refill: [bool; 2])
        ensures
            final(self)@ == old(self)@.clocked(0, timer_id).clocked(1, timer_id),
            refill@ == seq![
                old(self)@.needs_refill(0, timer_id),
                old(self)@.needs_refill(1, timer_id),
            ],
    {
        let h: u16 = self.soundcnt_h();
        let mut refill = [false, false];
        let select_a: usize = if h & H_DSA_TIMER != 0 {
            1
        } else {
            0
        };
        let select_b: usize = if h & H_DSB_TIMER != 0 {
            1
        } else {
            0
        };
        if select_a == timer_id {
            let sample: i8 = self.fifo[0].pop();
            self.latch[0] = sample;
            refill[0] = self.fifo[0].len() <= FIFO_REFILL_THRESHOLD;
        }
        assert(self@ =~~= old(self)@.clocked(0, timer_id));
        let ghost between = self@;
        if select_b == timer_id {
            let sample: i8 = self.fifo[1].pop();
            self.latch[1] = sample;
            refill[1] = self.fifo[1].len() <= FIFO_REFILL_THRESHOLD;
        }
        assert(self@ =~~= between.clocked(1, timer_id));
        refill
    }

    /// Emit one interleaved stereo frame: advance the PSG one output sample and
    /// mix it with the DirectSound channels.
    pub fn generate_sample(&mut self)
        ensures
            final(self)@ == old(self)@.sampled(),
    {
        let psg = self.psg.step_sample(PSG_CYCLES_PER_SAMPLE);
        let (left, right) = self.mix_with(psg);
        self.buffer.push(left);
        self.buffer.push(right);
        assert(self@ =~~= old(self)@.sampled());
    }

    /// One stereo frame at the mixer's output, given the PSG's level.
    pub fn mix_with(&self, psg: (i32, i32)) -> (frame: (i32, i32))
        requires
            -PSG_LIMIT <= psg.0 <= PSG_LIMIT,
            -PSG_LIMIT <= psg.1 <= PSG_LIMIT,
        ensures
            (frame.0 as int, frame.1 as int) == self@.mixed(psg),
    {
        if !self.master_enabled() {
            return (0, 0);
        }
        let (left, right) = if self.mute_directsound {
            (0, 0)
        } else {
            self.directsound()
        };
        let (psg_left, psg_right) = if self.mute_psg {
            (0, 0)
        } else {
            psg
        };
        // SOUNDCNT_H bits 0-1 attenuate the PSG (25% / 50% / 100%).
        let divisor: i32 = match self.soundcnt_h() % 4 {
            0 => 4,
            1 => 2,
            _ => 1,
        };
        (
            left * DS_GAIN + floor_div(psg_left, divisor) * PSG_GAIN,
            right * DS_GAIN + floor_div(psg_right, divisor) * PSG_GAIN,
        )
    }

    /// Toggle the output low-pass filter; returns whether it is now engaged.
    pub fn toggle_low_pass(&mut self) -> (on: bool)
        ensures
            final(self)@ == (ApuState { low_pass_on: on, ..old(self)@ }),
            on == !old(self)@.low_pass_on,
    {
        self.low_pass_on = !self.low_pass_on;
        self.low_pass_on
    }

    /// The DirectSound channels' contribution in natural units: each 8-bit sample
    /// scaled x2 at full volume or x1 at half, then panned. (`DS_GAIN` is applied
    /// by the caller.)
    fn directsound(&self) -> (pair: (i32, i32))
        ensures
            (pair.0 as int, pair.1 as int) == self@.directsound(),
            -512 <= pair.0 <= 512,
            -512 <= pair.1 <= 512,
    {
        let h: u16 = self.soundcnt_h();
        let a: i32 = if h & H_DSA_VOLUME_FULL != 0 {
            self.latch[0] as i32 * 2
        } else {
            self.latch[0] as i32
        };
        let b: i32 = if h & H_DSB_VOLUME_FULL != 0 {
            self.latch[1] as i32 * 2
        } else {
            self.latch[1] as i32
        };
        let mut left: i32 = 0;
        let mut right: i32 = 0;
        if h & H_DSA_ENABLE_LEFT != 0 {
            left = left + a;
        }
        if h & H_DSA_ENABLE_RIGHT != 0 {
            right = right + a;
        }
        if h & H_DSB_ENABLE_LEFT != 0 {
            left = left + b;
        }
        if h & H_DSB_ENABLE_RIGHT != 0 {
            right = right + b;
        }
        (left, right)
    }

    /// The DirectSound stereo pair at output scale. It always fits an output
    /// sample.
    pub fn mix(&self) -> (pair: (i16, i16))
        ensures
            (pair.0 as int, pair.1 as int) == (if self@.master_enabled() {
                (self@.directsound().0 * DS_GAIN, self@.directsound().1 * DS_GAIN)
            } else {
                (0, 0)
            }),
    {
        if !self.master_enabled() {
            return (0, 0);
        }
        let (left, right) = self.directsound();
        ((left * DS_GAIN) as i16, (right * DS_GAIN) as i16)
    }

    /// Toggle the DirectSound mute (a debug aid for judging the mix); returns the
    /// new muted state.
    pub fn toggle_mute_directsound(&mut self) -> (muted: bool)
        ensures
            final(self)@ == (ApuState { mute_directsound: muted, ..old(self)@ }),
            muted == !old(self)@.mute_directsound,
    {
        self.mute_directsound = !self.mute_directsound;
        self.mute_directsound
    }

    /// Toggle the PSG mute; returns the new muted state.
    pub fn toggle_mute_psg(&mut self) -> (muted: bool)
        ensures
            final(self)@ == (ApuState { mute_psg: muted, ..old(self)@ }),
            muted == !old(self)@.mute_psg,
    {
        self.mute_psg = !self.mute_psg;
        self.mute_psg
    }

    /// Move the generated samples out for the host to play, leaving the buffer
    /// empty. Interleaved stereo (`[l, r, l, r, ..]`).
    pub fn take_samples(&mut self) -> (samples: Vec<i32>)
        ensures
            samples@ == old(self)@.buffer,
            final(self)@ == (ApuState { buffer: Seq::empty(), ..old(self)@ }),
    {
        let mut samples: Vec<i32> = Vec::new();
        std::mem::swap(&mut samples, &mut self.buffer);
        samples
    }

    /// Number of interleaved samples buffered (2 per stereo frame).
    pub fn buffered_samples(&self) -> (count: usize)
        ensures
            count == self@.buffer.len(),
    {
        self.buffer.len()
    }
}

/// A FIFO hands its samples out in the order in which they were pushed: pushing a
/// word only adds behind what is waiting.
pub proof fn fifo_keeps_order(contents: Seq<i8>, word: u32, i: int)
    requires
        contents.len() <= 32,
        0 <= i <= 4,
    ensures
        pushed(contents, word, i).len() == (if contents.len() + 4 - i <= 32 {
            contents.len() + 4 - i
        } else {
            32
        }),
        pushed(contents, word, i).take(contents.len() as int) == contents,
        forall|k: int|
            contents.len() <= k < pushed(contents, word, i).len() ==> #[trigger] pushed(
                contents,
                word,
                i,
            )[k] == sample_of(word, i + k - contents.len()),
    decreases 4 - i,
{
    if i >= 4 || contents.len() >= FIFO_SIZE {
        assert(contents.take(contents.len() as int) =~= contents);
    } else {
        let more = contents.push(sample_of(word, i));
        fifo_keeps_order(more, word, i + 1);
        let after = pushed(contents, word, i);
        assert(after.take(contents.len() as int) =~= contents) by {
            assert forall|k: int| 0 <= k < contents.len() implies after[k] == contents[k] by {
                assert(after.take(more.len() as int)[k] == more[k]);
            }
        }
        assert(after.take(more.len() as int)[contents.len() as int] == more[contents.len() as int]);
    }
}

/// With the master enable off, the mixer is silent.
pub proof fn master_disable_silences(apu: ApuState, psg: (i32, i32))
    requires
        !apu.master_enabled(),
    ensures
        apu.mixed(psg) == (0int, 0int),
{
}

/// A channel is clocked by its own timer only.
pub proof fn other_timer_leaves_channel(apu: ApuState, channel: int, timer_id: usize)
    requires
        apu.timer_of(channel) != timer_id,
    ensures
        apu.clocked(channel, timer_id) == apu,
        !apu.needs_refill(channel, timer_id),
{
}

} // verus!
