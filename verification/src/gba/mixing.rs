//! Laws of the audio unit: what the mixer makes of the latched samples, how the FIFOs
//! are clocked and refilled, and what the control registers do.

use vstd::prelude::*;

use super::apu::{pushed, sample_of, ApuState};

verus! {

/// `SOUNDCNT_H`: the halfword at 0x082.
pub open spec fn control(apu: ApuState) -> u16 {
    (apu.regs[0x22] + 256 * apu.regs[0x23]) as u16
}

/// What a DirectSound sample contributes to a speaker: nothing unless the enable bit
/// is set; twice the sample where the volume bit is set, else the sample.
pub open spec fn contribution(apu: ApuState, channel: int, enable: u16, full: u16) -> int {
    if control(apu) & enable == 0 {
        0
    } else if control(apu) & full != 0 {
        2 * apu.latch[channel]
    } else {
        apu.latch[channel] as int
    }
}

/// Each speaker gets the sum of the two DirectSound channels that are enabled on it:
/// bits 8 and 9 of `SOUNDCNT_H` put channel A on the right and the left, bits 12 and 13
/// channel B, and bits 2 and 3 double A and B.
pub proof fn speakers_get_both_channels(apu: ApuState)
    ensures
        apu.directsound() == (
            contribution(apu, 0, 0x0200, 0x0004) + contribution(apu, 1, 0x2000, 0x0008),
            contribution(apu, 0, 0x0100, 0x0004) + contribution(apu, 1, 0x1000, 0x0008),
        ),
{
}

/// A channel that is alone on a speaker is heard there at its own level: its latched
/// sample, doubled at full volume. With both channels the levels add up, and with
/// neither there is silence.
pub proof fn a_lone_channel_is_heard(apu: ApuState)
    ensures
        control(apu) & 0x0200 == 0 && control(apu) & 0x2000 != 0 ==> apu.directsound().0 == (
        if control(apu) & 0x0008 != 0 {
            2int
        } else {
            1
        }) * apu.latch[1],
        control(apu) & 0x0100 == 0 && control(apu) & 0x1000 != 0 ==> apu.directsound().1 == (
        if control(apu) & 0x0008 != 0 {
            2int
        } else {
            1
        }) * apu.latch[1],
        control(apu) & 0x0200 != 0 && control(apu) & 0x2000 == 0 ==> apu.directsound().0 == (
        if control(apu) & 0x0004 != 0 {
            2int
        } else {
            1
        }) * apu.latch[0],
        control(apu) & 0x0100 != 0 && control(apu) & 0x1000 == 0 ==> apu.directsound().1 == (
        if control(apu) & 0x0004 != 0 {
            2int
        } else {
            1
        }) * apu.latch[0],
        control(apu) & 0x0200 != 0 && control(apu) & 0x2000 != 0 && control(apu) & 0x0004 != 0
            && control(apu) & 0x0008 != 0 ==> apu.directsound().0 == 2 * (apu.latch[0]
            + apu.latch[1]),
        control(apu) & 0x0100 != 0 && control(apu) & 0x1000 != 0 && control(apu) & 0x0004 != 0
            && control(apu) & 0x0008 != 0 ==> apu.directsound().1 == 2 * (apu.latch[0]
            + apu.latch[1]),
        control(apu) & 0x0200 == 0 && control(apu) & 0x2000 == 0 ==> apu.directsound().0 == 0,
        control(apu) & 0x0100 == 0 && control(apu) & 0x1000 == 0 ==> apu.directsound().1 == 0,
{
}

/// One frame: 48 times the DirectSound level and 96 times the PSG level, the latter
/// first cut to a quarter, a half or the whole by `SOUNDCNT_H` bits 0 and 1; a muted
/// source counts as silent, and with `SOUNDCNT_X` bit 7 clear all is silent.
pub proof fn frame_is_the_weighted_sum(apu: ApuState, psg: (i32, i32))
    ensures
        ({
            let divisor = if control(apu) as int % 4 == 0 {
                4int
            } else if control(apu) as int % 4 == 1 {
                2
            } else {
                1
            };
            let sound = |level: int|
                if apu.mute_directsound {
                    0
                } else {
                    48 * level
                };
            let tone = |level: int|
                if apu.mute_psg {
                    0
                } else {
                    96 * (level / divisor)
                };
            let on = (apu.regs[0x24] + 256 * apu.regs[0x25]) as u16 & 0x0080 != 0;
            let (left, right) = apu.mixed(psg);
            &&& on ==> left == sound(apu.directsound().0) + tone(psg.0 as int)
            &&& on ==> right == sound(apu.directsound().1) + tone(psg.1 as int)
            &&& !on ==> left == 0 && right == 0
        }),
{
}

/// An output sample appends one frame, left before right, and changes nothing else.
pub proof fn sample_appends_a_frame(apu: ApuState)
    ensures
        ({
            let after = apu.sampled();
            let (left, right) = apu.mixed(apu.psg.step_sample(128));
            &&& after.buffer == apu.buffer + seq![left as i32, right as i32]
            &&& after == (ApuState { buffer: after.buffer, ..apu })
        }),
{
}

/// Whether a timer clocks a channel: `SOUNDCNT_H` bit 10 gives channel A, and bit 14
/// channel B, to timer 1 rather than timer 0.
pub open spec fn clocks(apu: ApuState, channel: int, timer: usize) -> bool {
    let second = if channel == 0 {
        control(apu) & 0x0400 != 0
    } else {
        control(apu) & 0x4000 != 0
    };
    timer == (if second {
        1usize
    } else {
        0usize
    })
}

/// An overflow of the timer that clocks a channel latches the oldest sample of the
/// channel's FIFO and takes it out, or latches silence where the FIFO is empty; a
/// refill is asked for exactly where sixteen samples or fewer are left. Any other
/// overflow leaves the channel alone.
pub proof fn overflow_latches_the_oldest(apu: ApuState, channel: int, timer: usize)
    requires
        channel == 0 || channel == 1,
        apu.fifo.len() == 2,
    ensures
        ({
            let after = apu.clocked(channel, timer);
            let waiting = apu.fifo[channel];
            &&& clocks(apu, channel, timer) && waiting.len() > 0 ==> {
                &&& after.latch[channel] == waiting[0]
                &&& after.fifo[channel] == waiting.subrange(1, waiting.len() as int)
                &&& apu.needs_refill(channel, timer) == (waiting.len() - 1 <= 16)
            }
            &&& clocks(apu, channel, timer) && waiting.len() == 0 ==> {
                &&& after.latch[channel] == 0
                &&& after.fifo[channel].len() == 0
                &&& apu.needs_refill(channel, timer)
            }
            &&& !clocks(apu, channel, timer) ==> after == apu && !apu.needs_refill(channel, timer)
            &&& after.latch[1 - channel] == apu.latch[1 - channel]
            &&& after.fifo[1 - channel] == apu.fifo[1 - channel]
            &&& after.regs == apu.regs
            &&& after.buffer == apu.buffer
        }),
{
}

/// A signed byte as its unsigned bit pattern.
pub open spec fn pattern(sample: i8) -> int {
    if sample < 0 {
        sample + 256
    } else {
        sample as int
    }
}

proof fn lemma_samples(word: u32, a: u8, b: u8, c: u8, d: u8)
    by (bit_vector)
    requires
        a == (word >> 0u32) as u8,
        b == (word >> 8u32) as u8,
        c == (word >> 16u32) as u8,
        d == (word >> 24u32) as u8,
    ensures
        word == a + b * 0x100 + c * 0x1_0000 + d * 0x100_0000,
        a as i8 == (if a >= 0x80 {
            a - 0x100
        } else {
            a as int
        }),
        b as i8 == (if b >= 0x80 {
            b - 0x100
        } else {
            b as int
        }),
        c as i8 == (if c >= 0x80 {
            c - 0x100
        } else {
            c as int
        }),
        d as i8 == (if d >= 0x80 {
            d - 0x100
        } else {
            d as int
        }),
{
}

/// The four samples of a FIFO word are its bytes, the lowest first.
pub proof fn word_holds_four_samples(word: u32)
    ensures
        word == pattern(sample_of(word, 0)) + 0x100 * pattern(sample_of(word, 1)) + 0x1_0000
            * pattern(sample_of(word, 2)) + 0x100_0000 * pattern(sample_of(word, 3)),
{
    lemma_samples(
        word,
        (word >> 0u32) as u8,
        (word >> 8u32) as u8,
        (word >> 16u32) as u8,
        (word >> 24u32) as u8,
    );
}

/// Writing `SOUNDCNT_H` stores the halfword; bits 11 and 15 of what is stored empty
/// FIFO A and FIFO B, and only they do.
pub proof fn reset_bits_empty_the_fifos(apu: ApuState, value: u16)
    requires
        apu.fifo.len() == 2,
    ensures
        ({
            let after = apu.written(0x082, value, 0xFFFF);
            &&& after.fifo[0] == (if value & 0x0800 != 0 {
                Seq::<i8>::empty()
            } else {
                apu.fifo[0]
            })
            &&& after.fifo[1] == (if value & 0x8000 != 0 {
                Seq::<i8>::empty()
            } else {
                apu.fifo[1]
            })
            &&& after.regs[0x22] == value as int % 256
            &&& value & 0x0800 == 0 && value & 0x8000 == 0 ==> after.register(0x082) == value
            &&& after.latch == apu.latch
            &&& after.buffer == apu.buffer
        }),
{
    super::dma::lemma_merged_halfword(apu.halfword(0x22), value);
}

/// Reading `SOUNDCNT_X` gives the master enable in bit 7 beside the PSG's status.
pub proof fn master_enable_reads_back(apu: ApuState)
    ensures
        apu.register(0x084) == ((apu.regs[0x24] + 256 * apu.regs[0x25]) as u16 & 0x0080)
            | apu.psg.status_bits(),
{
}

/// A queue holds 32 samples: a word is appended whole where it fits, from its lowest byte
/// up, and what does not fit is dropped.
pub proof fn queue_takes_what_fits(waiting: Seq<i8>, word: u32)
    requires
        waiting.len() <= 32,
    ensures
        ({
            let word_of_samples = seq![
                sample_of(word, 0),
                sample_of(word, 1),
                sample_of(word, 2),
                sample_of(word, 3),
            ];
            let fits = if waiting.len() <= 28 {
                4int
            } else {
                32 - waiting.len()
            };
            pushed(waiting, word, 0) == waiting + word_of_samples.take(fits)
        }),
{
    reveal_with_fuel(pushed, 5);
    let word_of_samples = seq![
        sample_of(word, 0),
        sample_of(word, 1),
        sample_of(word, 2),
        sample_of(word, 3),
    ];
    let fits = if waiting.len() <= 28 {
        4int
    } else {
        32 - waiting.len()
    };
    assert(pushed(waiting, word, 0) =~= waiting + word_of_samples.take(fits));
}

} // verus!
