//! The APU's registers on the I/O page: NR50/NR51/NR52 with power gating, channel
//! register writes, wave RAM, and the divider-driven frame sequencer.
use vstd::prelude::*;
use crate::apu::{ApuState, DIV_APU_BIT, NR10_INDEX, NR11_INDEX, NR12_INDEX, NR13_INDEX, NR14_INDEX, NR21_INDEX, NR22_INDEX, NR23_INDEX, NR24_INDEX, NR30_INDEX, NR31_INDEX, NR32_INDEX, NR33_INDEX, NR34_INDEX, NR41_INDEX, NR42_INDEX, NR43_INDEX, NR44_INDEX, NR50_INDEX, NR51_INDEX, NR52_INDEX, WAVE_RAM_END_INDEX};
use crate::apu_channels::{NoiseChannel, SquareChannel, WaveChannel, WAVE_RAM_START_INDEX};
use crate::bus::Bus;

verus! {

/// The I/O page with NR10..NR51 (indices 0x10..0x25) cleared from index `i` on.
pub open spec fn cleared_from(io: [u8; 0x80], i: int) -> [u8; 0x80]
    decreases 0x26 - i,
{
    if i >= 0x26 || i < 0 {
        io
    } else {
        cleared_from(vstd::array::spec_array_update(io, i, 0), i + 1)
    }
}

pub open spec fn apu_registers_cleared(io: [u8; 0x80]) -> [u8; 0x80] {
    cleared_from(io, NR10_INDEX as int)
}

/// Clearing the APU registers zeroes NR10..NR51 and keeps every other register.
pub proof fn lemma_registers_cleared(io: [u8; 0x80])
    ensures
        forall|j: int|
            0 <= j < 0x80 ==> (#[trigger] apu_registers_cleared(io)@[j]) == if NR10_INDEX <= j
                <= NR51_INDEX {
                0
            } else {
                io@[j]
            },
{
    lemma_cleared_from(io, NR10_INDEX as int);
}

proof fn lemma_cleared_from(io: [u8; 0x80], i: int)
    requires
        NR10_INDEX <= i <= 0x26,
    ensures
        forall|j: int|
            0 <= j < 0x80 ==> (#[trigger] cleared_from(io, i)@[j]) == if i <= j <= NR51_INDEX {
                0
            } else {
                io@[j]
            },
    decreases 0x26 - i,
{
    broadcast use vstd::array::group_array_axioms;
    if i < 0x26 {
        let io2 = vstd::array::spec_array_update(io, i, 0);
        lemma_cleared_from(io2, i + 1);
        assert(io2@ == io@.update(i, 0));
        assert forall|j: int| 0 <= j < 0x80 implies (#[trigger] cleared_from(io, i)@[j]) == if i
            <= j <= NR51_INDEX {
            0
        } else {
            io@[j]
        } by {
            assert(cleared_from(io, i) == cleared_from(io2, i + 1));
        }
    }
}

/// A square channel after an NRx1 write.
pub open spec fn duty_length_written(c: SquareChannel, value: u8) -> SquareChannel {
    SquareChannel { duty: value / 64, length_counter: (64 - value % 64) as u8, ..c }
}

/// A square channel after an NRx2 write.
pub open spec fn envelope_written(c: SquareChannel, value: u8) -> SquareChannel {
    SquareChannel {
        envelope: c.envelope.after_register_write(value),
        dac_enabled: value >= 8,
        enabled: c.enabled && value >= 8,
        ..c
    }
}

/// A square channel after a write to its register `reg` (0 = NRx0 sweep .. 4 = NRx4).
pub open spec fn square_after_write(c: SquareChannel, reg: int, value: u8, lcn: bool, ecn: bool) -> SquareChannel {
    if reg == 0 {
        SquareChannel {
            sweep: c.sweep.after_register_write(value),
            enabled: c.enabled && !c.sweep.write_disables(value),
            ..c
        }
    } else if reg == 1 {
        duty_length_written(c, value)
    } else if reg == 2 {
        envelope_written(c, value)
    } else if reg == 3 {
        SquareChannel { frequency: ((c.frequency / 256) * 256 + value) as u16, ..c }
    } else {
        c.after_frequency_high_write(value, lcn, ecn)
    }
}

/// The wave channel after a write to NR3x (`reg` 0..4).
pub open spec fn wave_after_write(c: WaveChannel, reg: int, value: u8, lcn: bool) -> WaveChannel {
    if reg == 0 {
        WaveChannel { dac_enabled: value >= 0x80, enabled: c.enabled && value >= 0x80, ..c }
    } else if reg == 1 {
        WaveChannel { length_counter: (256 - value) as u16, ..c }
    } else if reg == 2 {
        WaveChannel { output_level: (value / 32) % 4, ..c }
    } else if reg == 3 {
        WaveChannel { frequency: ((c.frequency / 256) * 256 + value) as u16, ..c }
    } else {
        c.after_frequency_high_write(value, lcn)
    }
}

/// The noise channel after a write to NR4x (`reg` 1..4).
pub open spec fn noise_after_write(c: NoiseChannel, reg: int, value: u8, lcn: bool, ecn: bool) -> NoiseChannel {
    if reg == 1 {
        NoiseChannel { length_counter: (64 - value % 64) as u8, ..c }
    } else if reg == 2 {
        NoiseChannel {
            envelope: c.envelope.after_register_write(value),
            dac_enabled: value >= 8,
            enabled: c.enabled && value >= 8,
            ..c
        }
    } else if reg == 3 {
        NoiseChannel {
            clock_shift: value / 16,
            width_mode_7bit: (value / 8) % 2 == 1,
            divisor_code: value % 8,
            ..c
        }
    } else {
        c.after_control_write(value, lcn, ecn)
    }
}

fn write_square_register(c: &mut SquareChannel, reg: usize, value: u8, lcn: bool, ecn: bool)
    requires
        old(c).wf(),
        reg <= 4,
    ensures
        *final(c) == square_after_write(*old(c), reg as int, value, lcn, ecn),
        final(c).wf(),
{
    match reg {
        0 => {
            if c.sweep.write_register(value) {
                c.enabled = false;
            }
        },
        1 => c.write_duty_length(value),
        2 => c.write_envelope(value),
        3 => c.write_frequency_low(value),
        _ => c.write_frequency_high(value, lcn, ecn),
    }
}

fn write_wave_register(c: &mut WaveChannel, reg: usize, value: u8, lcn: bool)
    requires
        old(c).wf(),
        reg <= 4,
    ensures
        *final(c) == wave_after_write(*old(c), reg as int, value, lcn),
        final(c).wf(),
{
    match reg {
        0 => c.write_dac_enable(value),
        1 => c.write_length(value),
        2 => c.write_output_level(value),
        3 => c.write_frequency_low(value),
        _ => c.write_frequency_high(value, lcn),
    }
}

fn write_noise_register(c: &mut NoiseChannel, reg: usize, value: u8, lcn: bool, ecn: bool)
    requires
        old(c).wf(),
        1 <= reg <= 4,
    ensures
        *final(c) == noise_after_write(*old(c), reg as int, value, lcn, ecn),
        final(c).wf(),
{
    match reg {
        1 => c.write_length(value),
        2 => c.write_envelope(value),
        3 => c.write_polynomial(value),
        _ => c.write_control(value, lcn, ecn),
    }
}

impl ApuState {
    /// The channels after a write of `value` to channel register `index` (0x10..0x23)
    /// of a powered APU; the next frame-sequencer step decides the length and envelope
    /// quirks.
    pub open spec fn after_channel_write(self, index: int, value: u8) -> ApuState {
        let lcn = self.frame_sequencer_step % 2 == 0;
        let ecn = self.frame_sequencer_step == 7;
        if NR10_INDEX <= index <= NR14_INDEX {
            ApuState { square1: square_after_write(self.square1, index - 0x10, value, lcn, ecn), ..self }
        } else if NR21_INDEX <= index <= NR24_INDEX {
            ApuState { square2: square_after_write(self.square2, index - 0x15, value, lcn, ecn), ..self }
        } else if NR30_INDEX <= index <= NR34_INDEX {
            ApuState { wave: wave_after_write(self.wave, index - 0x1A, value, lcn), ..self }
        } else if NR41_INDEX <= index <= NR44_INDEX {
            ApuState { noise: noise_after_write(self.noise, index - 0x1F, value, lcn, ecn), ..self }
        } else {
            self
        }
    }

    /// Applies a channel register write (NR10..NR44) of a powered APU.
    pub fn write_channel_register(&mut self, index: usize, value: u8)
        requires
            old(self).wf(),
        ensures
            *final(self) == old(self).after_channel_write(index as int, value),
            final(self).wf(),
    {
        let lcn = self.length_clocks_on_next_frame_step();
        let ecn = self.envelope_clocks_on_next_frame_step();
        if NR10_INDEX <= index && index <= NR14_INDEX {
            write_square_register(&mut self.square1, index - 0x10, value, lcn, ecn);
        } else if NR21_INDEX <= index && index <= NR24_INDEX {
            write_square_register(&mut self.square2, index - 0x15, value, lcn, ecn);
        } else if NR30_INDEX <= index && index <= NR34_INDEX {
            write_wave_register(&mut self.wave, index - 0x1A, value, lcn);
        } else if NR41_INDEX <= index && index <= NR44_INDEX {
            write_noise_register(&mut self.noise, index - 0x1F, value, lcn, ecn);
        }
    }
}

impl Bus {
    /// NR52 as read: power in bit 7, channel status in bits 0..3.
    pub open spec fn nr52_value(self) -> u8 {
        ((if self.apu.enabled {
            128int
        } else {
            0int
        }) + self.apu.channel_on_mask % 16) as u8
    }

    pub fn read_nr52(&self) -> (r: u8)
        ensures
            r == self.nr52_value(),
    {
        let e: u8 = if self.apu.enabled {
            1
        } else {
            0
        };
        let m = self.apu.channel_on_mask;
        assert((e << 7) | (m & 0x0F) == ((if e == 1 {
            128int
        } else {
            0int
        }) + m % 16) as u8) by {
            crate::bits::lemma_nr52_bits(e, m);
        }
        (e << 7) | (self.apu.channel_on_mask & 0x0F)
    }

    /// NR50/NR51 write: ignored while the APU is off.
    pub open spec fn after_apu_control_write(self, index: int, value: u8) -> Bus {
        if !self.apu.enabled {
            self
        } else {
            Bus { io: self.io_with(index, value), ..self }
        }
    }

    pub fn write_nr50(&mut self, value: u8)
        requires
            old(self).wf(),
        ensures
            *final(self) == old(self).after_apu_control_write(NR50_INDEX as int, value),
            final(self).wf(),
    {
        if !self.apu.enabled {
            return;
        }
        self.io[NR50_INDEX] = value;
    }

    pub fn write_nr51(&mut self, value: u8)
        requires
            old(self).wf(),
        ensures
            *final(self) == old(self).after_apu_control_write(NR51_INDEX as int, value),
            final(self).wf(),
    {
        if !self.apu.enabled {
            return;
        }
        self.io[NR51_INDEX] = value;
    }

    /// Zeroes NR10..NR51.
    pub fn clear_apu_registers(&mut self)
        requires
            old(self).wf(),
        ensures
            *final(self) == (Bus { io: apu_registers_cleared(old(self).io), ..*old(self) }),
            final(self).wf(),
    {
        let ghost start = *self;
        let mut index: usize = NR10_INDEX;
        while index <= NR51_INDEX
            invariant
                NR10_INDEX <= index <= NR51_INDEX + 1,
                start.wf(),
                cleared_from(self.io, index as int) == apu_registers_cleared(start.io),
                *self == (Bus { io: self.io, ..start }),
                self.io@[0x44] == start.io@[0x44],
            decreases NR51_INDEX + 1 - index,
        {
            self.io[index] = 0x00;
            index = index + 1;
        }
    }

    /// NR52 write: switching the APU off clears NR10..NR51 and resets every channel;
    /// switching it on resets them too; the status bits cannot be written.
    pub open spec fn after_nr52_write(self, value: u8) -> Bus {
        let request_enabled = value >= 128;
        if self.apu.enabled != request_enabled {
            let cleared = Bus { io: apu_registers_cleared(self.io), ..self };
            Bus {
                io: vstd::array::spec_array_update(
                    cleared.io,
                    NR52_INDEX as int,
                    if request_enabled {
                        0x80u8
                    } else {
                        0u8
                    },
                ),
                apu: ApuState {
                    enabled: request_enabled,
                    capture_tcycle_stream: self.apu.capture_tcycle_stream,
                    ..ApuState::fresh()
                },
                ..cleared
            }
        } else if self.apu.enabled {
            Bus { io: self.io_with(NR52_INDEX as int, (0x80 + self.apu.channel_on_mask % 16) as u8), ..self }
        } else {
            Bus { io: self.io_with(NR52_INDEX as int, 0), ..self }
        }
    }

    pub fn write_nr52(&mut self, value: u8)
        requires
            old(self).wf(),
        ensures
            *final(self) == old(self).after_nr52_write(value),
            final(self).wf(),
    {
        assert((value & 0x80) != 0 <==> value >= 128) by {
            crate::bits::lemma_bits();
        }
        let request_enabled = (value & 0x80) != 0;
        if self.apu.enabled && !request_enabled {
            self.clear_apu_registers();
            self.apu.reset_after_power_toggle(false);
            self.io[NR52_INDEX] = 0x00;
            return;
        }
        if !self.apu.enabled && request_enabled {
            self.clear_apu_registers();
            self.apu.reset_after_power_toggle(true);
            self.io[NR52_INDEX] = 0x80;
            return;
        }
        let m = self.apu.channel_on_mask;
        assert(0x80 | (m & 0x0F) == (0x80 + m % 16) as u8) by {
            crate::bits::lemma_nr52_bits(0, m);
        }
        if self.apu.enabled {
            self.io[NR52_INDEX] = 0x80 | (self.apu.channel_on_mask & 0x0F);
        } else {
            self.io[NR52_INDEX] = 0x00;
        }
    }

    /// A write to a sound register (FF10..FF3F): wave RAM always takes it; the other
    /// registers only while the APU is powered, and then a channel register's channel
    /// reacts and the status mask is refreshed.
    pub open spec fn after_apu_register_write(self, addr: u16, value: u8) -> Bus {
        let index = addr - 0xFF00;
        if WAVE_RAM_START_INDEX <= index <= WAVE_RAM_END_INDEX {
            Bus { io: self.io_with(index, value), ..self }
        } else if !self.apu.enabled {
            self
        } else {
            let a = self.apu.after_channel_write(index as int, value);
            Bus {
                io: self.io_with(index, value),
                apu: ApuState { channel_on_mask: a.live_mask(), ..a },
                ..self
            }
        }
    }

    pub fn write_apu_register(&mut self, addr: u16, value: u8)
        requires
            old(self).wf(),
            0xFF10 <= addr <= 0xFF3F,
        ensures
            *final(self) == old(self).after_apu_register_write(addr, value),
            final(self).wf(),
    {
        let index = (addr - 0xFF00) as usize;
        if WAVE_RAM_START_INDEX <= index && index <= WAVE_RAM_END_INDEX {
            self.io[index] = value;
            return;
        }
        if !self.apu.enabled {
            return;
        }
        self.io[index] = value;
        self.apu.write_channel_register(index, value);
        self.apu.refresh_channel_on_mask();
    }

    /// A falling edge of divider bit 12 clocks the frame sequencer of a powered APU.
    pub open spec fn after_divider_apu_edge(self, old_div: u16, new_div: u16) -> Bus {
        if self.apu.enabled && (old_div / 4096) % 2 == 1 && (new_div / 4096) % 2 == 0 {
            Bus { apu: self.apu.after_frame_clock(), ..self }
        } else {
            self
        }
    }

    pub fn step_apu_frame_sequencer_from_divider(&mut self, old_div: u16, new_div: u16)
        requires
            old(self).wf(),
        ensures
            *final(self) == old(self).after_divider_apu_edge(old_div, new_div),
            final(self).wf(),
    {
        if !self.apu.enabled {
            return;
        }
        assert((old_div & DIV_APU_BIT) != 0 <==> (old_div / 4096) % 2 == 1) by {
            crate::bits::lemma_bits();
        }
        assert((new_div & DIV_APU_BIT) != 0 <==> (new_div / 4096) % 2 == 1) by {
            crate::bits::lemma_bits();
        }
        let old_high = (old_div & DIV_APU_BIT) != 0;
        let new_high = (new_div & DIV_APU_BIT) != 0;
        if old_high && !new_high {
            self.apu.clock_frame_sequencer();
        }
    }

    pub fn step_apu_tcycle(&mut self)
        requires
            old(self).wf(),
        ensures
            *final(self) == (Bus { apu: old(self).apu.after_tcycle(old(self).io@), ..*old(self) }),
            final(self).wf(),
    {
        self.apu.step_tcycle(&self.io);
    }

    /// The APU state the boot ROM leaves, read from NR52.
    pub fn sync_apu_boot_state(&mut self)
        requires
            old(self).wf(),
        ensures
            final(self).wf(),
            final(self).apu.enabled == (old(self).io@[NR52_INDEX as int] >= 128),
            final(self).apu.channel_on_mask == old(self).io@[NR52_INDEX as int] % 16,
            *final(self) == (Bus { apu: final(self).apu, ..*old(self) }),
    {
        self.apu = ApuState::from_boot_registers(&self.io);
    }

    /// Turns the per-t-cycle audio capture on or off.
    pub fn set_audio_tcycle_stream_enabled(&mut self, enabled: bool)
        requires
            old(self).wf(),
        ensures
            *final(self) == (Bus {
                apu: ApuState { capture_tcycle_stream: enabled, ..old(self).apu },
                ..*old(self)
            }),
            final(self).wf(),
    {
        self.apu.capture_tcycle_stream = enabled;
    }

    pub fn audio_tcycle_stream_enabled(&self) -> (r: bool)
        ensures
            r == self.apu.capture_tcycle_stream,
    {
        self.apu.capture_tcycle_stream
    }

    pub fn apu_frame_sequencer_step(&self) -> (r: u8)
        ensures
            r == self.apu.frame_sequencer_step,
    {
        self.apu.frame_sequencer_step
    }

    pub fn apu_frame_sequencer_ticks(&self) -> (r: u64)
        ensures
            r == self.apu.frame_sequencer_ticks,
    {
        self.apu.frame_sequencer_ticks
    }

    pub fn apu_length_tick_count(&self) -> (r: u64)
        ensures
            r == self.apu.length_tick_count,
    {
        self.apu.length_tick_count
    }

    pub fn apu_sweep_tick_count(&self) -> (r: u64)
        ensures
            r == self.apu.sweep_tick_count,
    {
        self.apu.sweep_tick_count
    }

    pub fn apu_envelope_tick_count(&self) -> (r: u64)
        ensures
            r == self.apu.envelope_tick_count,
    {
        self.apu.envelope_tick_count
    }

    pub fn apu_square2_envelope_volume(&self) -> (r: u8)
        ensures
            r == self.apu.square2.envelope.volume,
    {
        self.apu.square2.envelope.volume
    }

    pub fn apu_square2_envelope_timer(&self) -> (r: u8)
        ensures
            r == self.apu.square2.envelope.timer,
    {
        self.apu.square2.envelope.timer
    }

    pub fn apu_square2_length_counter(&self) -> (r: u8)
        ensures
            r == self.apu.square2.length_counter,
    {
        self.apu.square2.length_counter
    }

    pub fn apu_square1_frequency(&self) -> (r: u16)
        ensures
            r == self.apu.square1.frequency,
    {
        self.apu.square1.frequency
    }

    pub fn apu_square1_enabled(&self) -> (r: bool)
        ensures
            r == self.apu.square1.enabled,
    {
        self.apu.square1.enabled
    }

    pub fn apu_square2_enabled(&self) -> (r: bool)
        ensures
            r == self.apu.square2.enabled,
    {
        self.apu.square2.enabled
    }

    pub fn apu_wave_position(&self) -> (r: u8)
        ensures
            r == self.apu.wave.wave_position,
    {
        self.apu.wave.wave_position
    }

    pub fn apu_wave_sample_buffer(&self) -> (r: u8)
        ensures
            r == self.apu.wave.sample_buffer,
    {
        self.apu.wave.sample_buffer
    }

    pub fn apu_noise_lfsr(&self) -> (r: u16)
        ensures
            r == self.apu.noise.lfsr,
    {
        self.apu.noise.lfsr
    }
}

} // verus!
