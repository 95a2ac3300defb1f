//! The GBA's four DMA channels.
//!
//! DMA is a bus master, not a memcpy shortcut: a transfer moves data through the
//! same bus the CPU uses, tagged with `AccessMaster::Dma`, so region rules,
//! wait states, and access restrictions all apply. This module holds each
//! channel's register state and configuration decode; the transfer loop itself
//! lives on the [`Bus`](crate::gba::bus::Bus), which owns both the memory and this
//! state and so can read config here while driving bus accesses.
//!
//! A transfer runs in full at the instant it is triggered (the scheduler design
//! permits that), and its read+write+internal cycle cost is charged to the CPU
//! timeline as a stall (see `take_dma_stall_cycles` on the bus). All four start
//! timings are handled: immediate, V-blank, H-blank, and the per-channel
//! "special" modes (DMA1/2 sound FIFO, DMA3 video capture).

use vstd::prelude::*;

verus! {

/// When a channel's transfer is (re)started.
#[derive(Clone, Copy, Debug, PartialEq, Eq, Structural)]
pub enum DmaTiming {
    Immediate,
    VBlank,
    HBlank,
    /// DMA1/2 sound FIFO, or DMA3 video capture.
    Special,
}

/// One DMA channel's registers and internal transfer pointers.
#[derive(Clone, Copy, Debug, PartialEq, Eq, Structural)]
pub struct DmaChannel {
    pub id: u8,
    /// `DMAxSAD` source address (write-only register).
    pub source: u32,
    /// `DMAxDAD` destination address (write-only register).
    pub dest: u32,
    /// `DMAxCNT_L` word count (write-only register).
    pub count_reg: u16,
    /// `DMAxCNT_H` control.
    pub control: u16,
    // Internal pointers/counter used during a transfer; the visible registers
    // above are never modified by the hardware.
    pub internal_source: u32,
    pub internal_dest: u32,
    pub internal_count: u32,
    pub enabled: bool,
    /// Armed for an immediate-timing start by an enable edge.
    pub start_pending: bool,
}

impl DmaChannel {
    /// An idle channel with cleared registers.
    #[verifier::allow_in_spec]
    pub fn new(id: u8) -> Self
        returns
            (DmaChannel {
                id,
                source: 0,
                dest: 0,
                count_reg: 0,
                control: 0,
                internal_source: 0,
                internal_dest: 0,
                internal_count: 0,
                enabled: false,
                start_pending: false,
            }),
    {
        DmaChannel {
            id,
            source: 0,
            dest: 0,
            count_reg: 0,
            control: 0,
            internal_source: 0,
            internal_dest: 0,
            internal_count: 0,
            enabled: false,
            start_pending: false,
        }
    }

    /// When the transfer starts (control bits 12-13).
    #[verifier::allow_in_spec]
    pub fn timing(&self) -> DmaTiming
        returns
            (if (self.control >> 12) & 3 == 0 {
                DmaTiming::Immediate
            } else if (self.control >> 12) & 3 == 1 {
                DmaTiming::VBlank
            } else if (self.control >> 12) & 3 == 2 {
                DmaTiming::HBlank
            } else {
                DmaTiming::Special
            }),
    {
        match (self.control >> 12) & 3 {
            0 => DmaTiming::Immediate,
            1 => DmaTiming::VBlank,
            2 => DmaTiming::HBlank,
            _ => DmaTiming::Special,
        }
    }

    /// Whether units are words rather than halfwords (control bit 10).
    #[verifier::allow_in_spec]
    pub fn is_32bit(&self) -> bool
        returns
            self.control & 0x0400 != 0,
    {
        self.control & 0x0400 != 0
    }

    /// The size of one transfer unit.
    #[verifier::allow_in_spec]
    pub fn unit_bytes(&self) -> u32
        returns
            (if self.is_32bit() {
                4u32
            } else {
                2u32
            }),
    {
        if self.is_32bit() {
            4
        } else {
            2
        }
    }

    /// Whether the channel stays enabled after a transfer (control bit 9).
    #[verifier::allow_in_spec]
    pub fn repeat(&self) -> bool
        returns
            self.control & 0x0200 != 0,
    {
        self.control & 0x0200 != 0
    }

    /// Whether the end of a transfer requests an interrupt (control bit 14).
    #[verifier::allow_in_spec]
    pub fn irq_on_end(&self) -> bool
        returns
            self.control & 0x4000 != 0,
    {
        self.control & 0x4000 != 0
    }

    /// The signed step (as a wrapping addend) applied to the source after each
    /// unit: increment, decrement, or fixed (source control 3 is prohibited and
    /// treated as fixed).
    #[verifier::allow_in_spec]
    pub fn source_step(&self) -> u32
        returns
            (if (self.control >> 7) & 3 == 0 {
                self.unit_bytes()
            } else if (self.control >> 7) & 3 == 1 {
                0u32.wrapping_sub(self.unit_bytes())
            } else {
                0u32
            }),
    {
        match (self.control >> 7) & 3 {
            0 => self.unit_bytes(),
            1 => 0u32.wrapping_sub(self.unit_bytes()),
            _ => 0,
        }
    }

    /// The destination step: increment (including increment/reload), decrement,
    /// or fixed.
    #[verifier::allow_in_spec]
    pub fn dest_step(&self) -> u32
        returns
            (if (self.control >> 5) & 3 == 1 {
                0u32.wrapping_sub(self.unit_bytes())
            } else if (self.control >> 5) & 3 == 2 {
                0u32
            } else {
                self.unit_bytes()
            }),
    {
        let mode: u16 = (self.control >> 5) & 3;
        if mode == 1 {
            0u32.wrapping_sub(self.unit_bytes())
        } else if mode == 2 {
            0
        } else {
            self.unit_bytes()
        }
    }

    /// Whether the destination reloads on repeat (destination control 3).
    #[verifier::allow_in_spec]
    pub fn dest_reloads(&self) -> bool
        returns
            (self.control >> 5) & 3 == 3,
    {
        (self.control >> 5) & 3 == 3
    }

    /// DMA0's source is internal memory only; the others reach any memory.
    #[verifier::allow_in_spec]
    pub fn source_mask(&self) -> u32
        returns
            (if self.id == 0 {
                0x07FF_FFFFu32
            } else {
                0x0FFF_FFFFu32
            }),
    {
        if self.id == 0 {
            0x07FF_FFFF
        } else {
            0x0FFF_FFFF
        }
    }

    /// Only DMA3's destination reaches any memory.
    #[verifier::allow_in_spec]
    pub fn dest_mask(&self) -> u32
        returns
            (if self.id == 3 {
                0x0FFF_FFFFu32
            } else {
                0x07FF_FFFFu32
            }),
    {
        if self.id == 3 {
            0x0FFF_FFFF
        } else {
            0x07FF_FFFF
        }
    }

    /// The source address within the channel's reach, aligned to a unit.
    #[verifier::allow_in_spec]
    pub fn masked_source(&self) -> u32
        returns
            (self.source & self.source_mask()) & !((self.unit_bytes() - 1) as u32),
    {
        (self.source & self.source_mask()) & !(self.unit_bytes() - 1)
    }

    /// The destination address within the channel's reach, aligned to a unit.
    #[verifier::allow_in_spec]
    pub fn masked_dest(&self) -> u32
        returns
            (self.dest & self.dest_mask()) & !((self.unit_bytes() - 1) as u32),
    {
        (self.dest & self.dest_mask()) & !(self.unit_bytes() - 1)
    }

    /// The transfer length, applying the per-channel maximum (a zero count means
    /// the maximum).
    #[verifier::allow_in_spec]
    pub fn latched_count(&self) -> u32
        returns
            (if self.id == 3 {
                if self.count_reg == 0 {
                    0x1_0000u32
                } else {
                    self.count_reg as u32
                }
            } else if self.count_reg & 0x3FFF == 0 {
                0x4000u32
            } else {
                (self.count_reg & 0x3FFF) as u32
            }),
    {
        if self.id == 3 {
            if self.count_reg == 0 {
                0x1_0000
            } else {
                self.count_reg as u32
            }
        } else {
            let count: u32 = (self.count_reg & 0x3FFF) as u32;
            if count == 0 {
                0x4000
            } else {
                count
            }
        }
    }

    /// The channel after a write to `DMAxCNT_H`.
    pub open spec fn controlled(self, control: u16) -> DmaChannel {
        let c = DmaChannel { control, enabled: control & 0x8000 != 0, ..self };
        if c.enabled && !self.enabled {
            DmaChannel {
                internal_source: c.masked_source(),
                internal_dest: c.masked_dest(),
                internal_count: c.latched_count(),
                start_pending: self.start_pending || c.timing() == DmaTiming::Immediate,
                ..c
            }
        } else {
            c
        }
    }

    /// Apply a write to `DMAxCNT_H`. An enable edge (0 to 1) latches the internal
    /// pointers and, for immediate timing, arms the transfer.
    pub fn write_control(&mut self, new_control: u16)
        ensures
            *final(self) == old(self).controlled(new_control),
    {
        let was_enabled = self.enabled;
        self.control = new_control;
        let now_enabled = new_control & 0x8000 != 0;
        if now_enabled && !was_enabled {
            self.internal_source = self.masked_source();
            self.internal_dest = self.masked_dest();
            self.internal_count = self.latched_count();
            if self.timing() == DmaTiming::Immediate {
                self.start_pending = true;
            }
        }
        self.enabled = now_enabled;
    }

    /// The channel at the end of a transfer that left the pointers at `source` and
    /// `dest`: a repeating channel is reloaded for its next trigger, any other is
    /// disabled. An immediate transfer never repeats.
    pub open spec fn finished(self, source: u32, dest: u32) -> DmaChannel {
        if self.repeat() && self.timing() != DmaTiming::Immediate {
            DmaChannel {
                internal_source: source,
                internal_count: self.latched_count(),
                internal_dest: if self.dest_reloads() {
                    self.masked_dest()
                } else {
                    dest
                },
                ..self
            }
        } else {
            DmaChannel {
                internal_source: source,
                internal_dest: dest,
                enabled: false,
                control: self.control & !0x8000,
                ..self
            }
        }
    }

    /// Update the internal pointers at the end of a transfer and handle repeat and
    /// auto-disable.
    pub fn finish(&mut self, source: u32, dest: u32)
        ensures
            *final(self) == old(self).finished(source, dest),
    {
        self.internal_source = source;
        if self.repeat() && self.timing() != DmaTiming::Immediate {
            self.internal_count = self.latched_count();
            self.internal_dest = if self.dest_reloads() {
                self.masked_dest()
            } else {
                dest
            };
        } else {
            self.internal_dest = dest;
            self.enabled = false;
            self.control = self.control & !0x8000;
        }
    }
}

/// The four DMA channels.
#[derive(Clone, Copy, Debug)]
pub struct Dma {
    pub channels: [DmaChannel; 4],
}

/// Decode a DMA I/O offset into `(channel, sub-offset)`. Channel blocks are 12
/// bytes apart starting at `0xB0`; the sub-offset selects SAD/DAD/CNT_L/CNT_H.
#[verifier::allow_in_spec]
pub fn decode(offset: u32) -> (u32, u32)
    returns
        (
            offset.wrapping_sub(0xB0) / 0x0C,
            offset.wrapping_sub(0xB0) % 0x0C,
        ),
{
    let rel: u32 = offset.wrapping_sub(0xB0);
    (rel / 0x0C, rel % 0x0C)
}

/// Merge a masked write into a register's current value.
#[verifier::allow_in_spec]
pub fn merge16(current: u16, value: u16, mask: u16) -> u16
    returns
        (current & !mask) | (value & mask),
{
    (current & !mask) | (value & mask)
}

/// Merge a masked write into one half of a 32-bit register.
#[verifier::allow_in_spec]
pub fn merge32(current: u32, value: u16, mask: u16, high: bool) -> u32
    returns
        (if high {
            (current & !((mask as u32) << 16)) | (((value as u32) << 16) & ((mask as u32) << 16))
        } else {
            (current & !(mask as u32)) | ((value as u32) & (mask as u32))
        }),
{
    if high {
        let m: u32 = (mask as u32) << 16;
        (current & !m) | (((value as u32) << 16) & m)
    } else {
        let m: u32 = mask as u32;
        (current & !m) | ((value as u32) & m)
    }
}

impl Dma {
    /// Four channels, each of which knows its number.
    pub open spec fn numbered(channels: Seq<DmaChannel>) -> bool {
        channels.len() == 4 && forall|i: int| 0 <= i < 4 ==> (#[trigger] channels[i]).id == i
    }

    /// What a DMA register halfword reads as.
    pub open spec fn register(channels: Seq<DmaChannel>, offset: u32) -> u16 {
        let (channel, sub) = decode(offset);
        if channel < 4 && sub == 10 {
            channels[channel as int].control
        } else {
            0
        }
    }

    /// The channels after a masked halfword write.
    pub open spec fn written(
        channels: Seq<DmaChannel>,
        offset: u32,
        value: u16,
        mask: u16,
    ) -> Seq<DmaChannel> {
        let (channel, sub) = decode(offset);
        if channel >= 4 {
            channels
        } else {
            let ch = channels[channel as int];
            channels.update(
                channel as int,
                if sub == 0 {
                    DmaChannel { source: merge32(ch.source, value, mask, false), ..ch }
                } else if sub == 2 {
                    DmaChannel { source: merge32(ch.source, value, mask, true), ..ch }
                } else if sub == 4 {
                    DmaChannel { dest: merge32(ch.dest, value, mask, false), ..ch }
                } else if sub == 6 {
                    DmaChannel { dest: merge32(ch.dest, value, mask, true), ..ch }
                } else if sub == 8 {
                    DmaChannel { count_reg: merge16(ch.count_reg, value, mask), ..ch }
                } else if sub == 10 {
                    ch.controlled(merge16(ch.control, value, mask))
                } else {
                    ch
                },
            )
        }
    }

    /// Four idle channels.
    pub open spec fn idle() -> Seq<DmaChannel> {
        seq![DmaChannel::new(0), DmaChannel::new(1), DmaChannel::new(2), DmaChannel::new(3)]
    }

    /// Four idle channels.
    pub fn new() -> (dma: Self)
        ensures
            dma.channels@ == Dma::idle(),
            Dma::numbered(dma.channels@),
    {
        Self::default()
    }

    /// Read a DMA register halfword. Only `DMAxCNT_H` is readable; the address
    /// and count registers are write-only.
    pub fn read_register(&self, offset: u32) -> (value: u16)
        ensures
            value == Dma::register(self.channels@, offset),
    {
        let (channel, sub) = decode(offset);
        if channel < 4 && sub == 10 {
            self.channels[channel as usize].control
        } else {
            0
        }
    }

    /// Apply a masked halfword write to a DMA register.
    pub fn write_register(&mut self, offset: u32, value: u16, mask: u16)
        requires
            Dma::numbered(old(self).channels@),
        ensures
            final(self).channels@ == Dma::written(old(self).channels@, offset, value, mask),
            Dma::numbered(final(self).channels@),
    {
        let (channel, sub) = decode(offset);
        if channel >= 4 {
            return ;
        }
        let mut ch = self.channels[channel as usize];
        match sub {
            0 => ch.source = merge32(ch.source, value, mask, false),
            2 => ch.source = merge32(ch.source, value, mask, true),
            4 => ch.dest = merge32(ch.dest, value, mask, false),
            6 => ch.dest = merge32(ch.dest, value, mask, true),
            8 => ch.count_reg = merge16(ch.count_reg, value, mask),
            10 => ch.write_control(merge16(ch.control, value, mask)),
            _ => {},
        }
        self.channels[channel as usize] = ch;
    }
}

impl Default for Dma {
    fn default() -> (dma: Self)
        ensures
            dma.channels@ == Dma::idle(),
            Dma::numbered(dma.channels@),
    {
        let dma = Dma {
            channels: [
                DmaChannel::new(0),
                DmaChannel::new(1),
                DmaChannel::new(2),
                DmaChannel::new(3),
            ],
        };
        assert(dma.channels@ =~= Dma::idle());
        dma
    }
}

/// The control's fields as quotients and remainders.
pub proof fn lemma_control_fields(control: u16)
    by (bit_vector)
    ensures
        (control & !0x8000u16) & 0x8000 == 0,
        control & !0x8000u16 == control % 0x8000,
        (control & 0x8000 != 0) == (control >= 0x8000),
        (control & 0x4000 != 0) == ((control >> 14) % 2 == 1),
        (control & 0x0400 != 0) == ((control >> 10) % 2 == 1),
        (control & 0x0200 != 0) == ((control >> 9) % 2 == 1),
        (control >> 12) & 3 == (control >> 12) % 4,
        (control >> 7) & 3 == (control >> 7) % 4,
        (control >> 5) & 3 == (control >> 5) % 4,
        control >> 14 == control / 0x4000,
        control >> 12 == control / 0x1000,
        control >> 10 == control / 0x0400,
        control >> 9 == control / 0x0200,
        control >> 7 == control / 0x80,
        control >> 5 == control / 0x20,
        control & 0x3FFF == control % 0x4000,
        (control & 1 != 0) == (control % 2 == 1),
{
}

/// A transfer that does not repeat disables its channel, both internally and in
/// the control register that the CPU reads; an immediate transfer always does.
pub proof fn single_transfer_disables(channel: DmaChannel, source: u32, dest: u32)
    requires
        !channel.repeat() || channel.timing() == DmaTiming::Immediate,
    ensures
        !channel.finished(source, dest).enabled,
        channel.finished(source, dest).control & 0x8000 == 0,
{
    lemma_control_fields(channel.control);
}

/// The visible address and count registers are never modified by a transfer.
pub proof fn transfer_keeps_registers(channel: DmaChannel, source: u32, dest: u32)
    ensures
        ({
            let after = channel.finished(source, dest);
            after.source == channel.source && after.dest == channel.dest && after.count_reg
                == channel.count_reg
        }),
{
}

/// Rewriting the control of a running channel does not disturb the transfer in
/// progress: only an enable edge latches the pointers.
pub proof fn only_an_enable_edge_latches(channel: DmaChannel, control: u16)
    requires
        channel.enabled || control & 0x8000 == 0,
    ensures
        ({
            let after = channel.controlled(control);
            &&& after.internal_source == channel.internal_source
            &&& after.internal_dest == channel.internal_dest
            &&& after.internal_count == channel.internal_count
            &&& after.start_pending == channel.start_pending
        }),
{
}

/// The bytes of one unit: a word where control bit 10 is set, else a halfword.
pub open spec fn unit(channel: DmaChannel) -> int {
    if channel.control / 0x400 % 2 == 1 {
        4
    } else {
        2
    }
}

/// How far a pointer moves with each unit under a two-bit address control: forward,
/// back, not at all, and by the last setting forward for a destination and not at
/// all for a source.
pub open spec fn stride(channel: DmaChannel, control: u16, last: int) -> int {
    if control == 0 {
        unit(channel)
    } else if control == 1 {
        -unit(channel)
    } else if control == 2 {
        0
    } else {
        last
    }
}

/// The address controls: bits 7-8 move the source and bits 5-6 the destination by
/// one unit, in the direction that they name, modulo 2^32.
pub proof fn pointers_step_by_a_unit(channel: DmaChannel, address: u32)
    ensures
        address.wrapping_add(channel.source_step()) == (address + stride(
            channel,
            channel.control / 0x80 % 4,
            0,
        )) % 0x1_0000_0000,
        address.wrapping_add(channel.dest_step()) == (address + stride(
            channel,
            channel.control / 0x20 % 4,
            unit(channel),
        )) % 0x1_0000_0000,
{
    lemma_control_fields(channel.control);
}

/// Whether a channel goes on after a transfer: control bit 9 asks for it, and the
/// start timing (bits 12-13) is not the immediate one.
pub open spec fn goes_on(channel: DmaChannel) -> bool {
    channel.control / 0x200 % 2 == 1 && channel.control / 0x1000 % 4 != 0
}

/// At the end of a transfer, repeating or not, the source pointer stands just past
/// the last unit read, so the next trigger goes on from there. The destination
/// pointer stands past the last unit written, but is taken back to the register
/// where the channel goes on with destination control 3; then too the count is
/// taken from its register again. A channel that does not go on is disabled, its
/// enable bit cleared and the rest of its control kept.
pub proof fn transfer_end(channel: DmaChannel, source: u32, dest: u32)
    ensures
        ({
            let after = channel.finished(source, dest);
            &&& after.internal_source == source
            &&& after.internal_dest == (if goes_on(channel) && channel.control / 0x20 % 4 == 3 {
                channel.masked_dest()
            } else {
                dest
            })
            &&& after.internal_count == (if goes_on(channel) {
                channel.latched_count()
            } else {
                channel.internal_count
            })
            &&& after.enabled == (goes_on(channel) && channel.enabled)
            &&& after.control == (if goes_on(channel) {
                channel.control
            } else {
                channel.control % 0x8000
            })
            &&& after.start_pending == channel.start_pending
            &&& after.id == channel.id
        }),
{
    lemma_control_fields(channel.control);
}

/// Enabling a channel that was off takes its pointers and its count from the
/// registers. Addresses are cut to 28 bits (27 for the source of channel 0 and for
/// the destination of every channel but 3) and down to a whole unit; the count to
/// 14 bits (16 for channel 3), where none stands for one more than the greatest. An
/// immediate start timing arms the transfer.
pub proof fn enabling_latches_the_registers(channel: DmaChannel, control: u16)
    requires
        !channel.enabled,
        control >= 0x8000,
    ensures
        ({
            let after = channel.controlled(control);
            let reach = |full: bool|
                if full {
                    0x1000_0000int
                } else {
                    0x0800_0000int
                };
            let greatest = if channel.id == 3 {
                0x1_0000int
            } else {
                0x4000int
            };
            &&& after.enabled
            &&& after.control == control
            &&& after.internal_source == channel.source as int % reach(channel.id != 0)
                - channel.source as int % unit(after)
            &&& after.internal_dest == channel.dest as int % reach(channel.id == 3)
                - channel.dest as int % unit(after)
            &&& 0 < after.internal_count <= greatest
            &&& (after.internal_count - channel.count_reg) % greatest == 0
            &&& after.start_pending == (channel.start_pending || control / 0x1000 % 4 == 0)
        }),
{
    let after = channel.controlled(control);
    lemma_control_fields(control);
    lemma_cut(channel.source);
    lemma_cut(channel.dest);
    assert(after.internal_source == (channel.source & after.source_mask()) & !((after.unit_bytes()
        - 1) as u32));
    assert(after.internal_dest == (channel.dest & after.dest_mask()) & !((after.unit_bytes() - 1)
        as u32));
    assert(after.internal_count == after.latched_count());
    lemma_count(after);
}

/// The start timings in the order of control bits 12-13, and the interrupt request
/// at bit 14.
pub proof fn control_names_the_timing(channel: DmaChannel)
    ensures
        channel.control / 0x1000 % 4 == 0 <==> channel.timing() == DmaTiming::Immediate,
        channel.control / 0x1000 % 4 == 1 <==> channel.timing() == DmaTiming::VBlank,
        channel.control / 0x1000 % 4 == 2 <==> channel.timing() == DmaTiming::HBlank,
        channel.control / 0x1000 % 4 == 3 <==> channel.timing() == DmaTiming::Special,
        channel.irq_on_end() == (channel.control / 0x4000 % 2 == 1),
        channel.unit_bytes() == unit(channel),
{
    lemma_control_fields(channel.control);
}

/// The registers of channel `i` are the twelve bytes from 0xB0 + 12 `i` on: two
/// halfwords of source, two of destination, the count and the control. A whole
/// halfword written to one replaces that halfword and no other, and only the control
/// reads back.
pub proof fn register_block(channels: Seq<DmaChannel>, i: int, value: u16)
    requires
        Dma::numbered(channels),
        0 <= i < 4,
    ensures
        ({
            let base = 0xB0 + 12 * i;
            let put = |at: int| Dma::written(channels, (base + at) as u32, value, 0xFFFF)[i];
            let was = channels[i];
            &&& put(0) == (DmaChannel {
                source: (was.source / 0x1_0000 * 0x1_0000 + value) as u32,
                ..was
            })
            &&& put(2) == (DmaChannel {
                source: (value * 0x1_0000 + was.source % 0x1_0000) as u32,
                ..was
            })
            &&& put(4) == (DmaChannel {
                dest: (was.dest / 0x1_0000 * 0x1_0000 + value) as u32,
                ..was
            })
            &&& put(6) == (DmaChannel {
                dest: (value * 0x1_0000 + was.dest % 0x1_0000) as u32,
                ..was
            })
            &&& put(8) == (DmaChannel { count_reg: value, ..was })
            &&& put(10) == was.controlled(value)
            &&& Dma::register(channels, (base + 10) as u32) == was.control
            &&& forall|at: int|
                0 <= at < 10 ==> Dma::register(channels, #[trigger] ((base + at) as u32)) == 0
            &&& forall|at: int, j: int|
                0 <= at < 12 && 0 <= j < 4 && j != i ==> #[trigger] Dma::written(
                    channels,
                    (base + at) as u32,
                    value,
                    0xFFFF,
                )[j] == channels[j]
        }),
{
    lemma_whole_halfword(channels[i].source, value);
    lemma_whole_halfword(channels[i].dest, value);
    lemma_merged_halfword(channels[i].count_reg, value);
    lemma_merged_halfword(channels[i].control, value);
}

proof fn lemma_cut(address: u32)
    ensures
        (address & 0x07FF_FFFF) & !1u32 == address as int % 0x0800_0000 - address as int % 2,
        (address & 0x07FF_FFFF) & !3u32 == address as int % 0x0800_0000 - address as int % 4,
        (address & 0x0FFF_FFFF) & !1u32 == address as int % 0x1000_0000 - address as int % 2,
        (address & 0x0FFF_FFFF) & !3u32 == address as int % 0x1000_0000 - address as int % 4,
{
    lemma_words(address, 0, 0, 0);
    lemma_words(address & 0x07FF_FFFF, 0, 0, 0);
    lemma_words(address & 0x0FFF_FFFF, 0, 0, 0);
}

proof fn lemma_count(channel: DmaChannel)
    ensures
        ({
            let greatest = if channel.id == 3 {
                0x1_0000int
            } else {
                0x4000int
            };
            &&& 0 < channel.latched_count() <= greatest
            &&& (channel.latched_count() - channel.count_reg) % greatest == 0
        }),
{
    lemma_control_fields(channel.count_reg);
}

/// A whole mask passes every bit.
pub proof fn lemma_whole_mask(value: u16)
    ensures
        value & 0xFFFFu16 == value,
        0xFFFFu16 & 1 != 0,
        0xFFFFu16 & 0x00FF != 0,
        0xFFFFu16 & 0xFF00 != 0,
        (value & 1 != 0) == (value % 2 == 1),
        0x1000u16 | 0x2000u16 | 0x0080u16 == 0x3080,
{
    lemma_words(0, value, 0, 0);
    lemma_control_fields(value);
}

/// The top bit of a byte.
pub proof fn lemma_top_bit(byte: u8)
    ensures
        (byte & 0x80 != 0) == (byte >= 0x80),
{
    lemma_words(0, 0, 0, byte);
}

proof fn lemma_whole_halfword(current: u32, value: u16)
    ensures
        merge32(current, value, 0xFFFF, false) == current / 0x1_0000 * 0x1_0000 + value,
        merge32(current, value, 0xFFFF, true) == value * 0x1_0000 + current % 0x1_0000,
{
    lemma_words(current, value, 0, 0);
}

/// A whole halfword written replaces what was there.
pub proof fn lemma_merged_halfword(current: u16, value: u16)
    ensures
        merge16(current, value, 0xFFFF) == value,
{
    lemma_words(0, value, current, 0);
}

proof fn lemma_words(current: u32, value: u16, half: u16, byte: u8)
    by (bit_vector)
    ensures
        (current & !((0xFFFFu16 as u32) << 16)) | (((value as u32) << 16) & ((0xFFFFu16 as u32)
            << 16)) == value * 0x1_0000 + current % 0x1_0000,
        (current & !(0xFFFFu16 as u32)) | ((value as u32) & (0xFFFFu16 as u32)) == current - current
            % 0x1_0000 + value,
        (half & !0xFFFFu16) | (value & 0xFFFFu16) == value,
        value & 0xFFFFu16 == value,
        0xFFFFu16 & 1 != 0,
        0xFFFFu16 & 0x00FF != 0,
        0xFFFFu16 & 0xFF00 != 0,
        0x1000u16 | 0x2000u16 | 0x0080u16 == 0x3080,
        (byte & 0x80 != 0) == (byte >= 0x80),
        current & 0x07FF_FFFF == current % 0x0800_0000,
        current & 0x0FFF_FFFF == current % 0x1000_0000,
        (current & !1u32) + (current & 1u32) == current,
        (current & !3u32) + (current & 3u32) == current,
        current & 1u32 == current % 2,
        current & 3u32 == current % 4,
{
}

} // verus!
