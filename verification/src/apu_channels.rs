//! The four sound channels of the APU as integer state machines: two square channels
//! (the first with a frequency sweep), the wave channel and the noise channel, with
//! their length counters and volume envelopes.
use vstd::prelude::*;

verus! {

pub const MAX_SQUARE_LENGTH: u8 = 64;
pub const MAX_NOISE_LENGTH: u8 = 64;
pub const MAX_WAVE_LENGTH: u16 = 256;
pub const MAX_FREQUENCY: u16 = 2_047;
pub const WAVE_RAM_START_INDEX: usize = 0x30;

pub const DUTY_PATTERNS: [[u8; 8]; 4] = [
    [0, 0, 0, 0, 0, 0, 0, 1],
    [1, 0, 0, 0, 0, 0, 0, 1],
    [1, 0, 0, 0, 0, 1, 1, 1],
    [0, 1, 1, 1, 1, 1, 1, 0],
];

pub const NOISE_DIVISORS: [u16; 8] = [8, 16, 32, 48, 64, 80, 96, 112];

/// The duty waveform bit for `duty` (0..=3) at step `pos` (0..=7): 12.5%, 25%, 50%, 75%.
pub open spec fn duty_bit(duty: int, pos: int) -> u8 {
    DUTY_PATTERNS@[duty]@[pos]
}

#[derive(Clone, Copy, Default)]
pub struct EnvelopeState {
    pub initial_volume: u8,
    pub volume: u8,
    pub period: u8,
    pub increase: bool,
    pub timer: u8,
}

impl EnvelopeState {
    pub open spec fn wf(&self) -> bool {
        &&& self.initial_volume <= 15
        &&& self.volume <= 15
        &&& self.period <= 7
        &&& self.timer <= 9
    }

    /// The envelope after an NRx2 write while its channel plays ("zombie mode"): one step
    /// up when a period-0 envelope had a running timer, two when it was decreasing, then
    /// mirrored (16 - v) when the direction flips; kept to the low nibble.
    pub open spec fn zombie_volume(self, new_value: u8) -> u8 {
        let bump = if self.period == 0 && self.timer != 0 {
            1int
        } else if !self.increase {
            2int
        } else {
            0int
        };
        let v1 = (self.volume + bump) % 256;
        let new_increase = (new_value / 8) % 2 == 1;
        let v2 = if self.increase != new_increase {
            (16 - v1) % 256
        } else {
            v1
        };
        (v2 % 16) as u8
    }

    #[verifier::spinoff_prover]
    pub fn apply_zombie_mode_on_write(&mut self, new_value: u8)
        ensures
            *final(self) == (EnvelopeState { volume: old(self).zombie_volume(new_value), ..*old(self) }),
    {
        let old_period_was_zero = self.period == 0;
        let old_increase = self.increase;
        let new_increase = (new_value & 0x08) != 0;
        assert((new_value & 0x08) != 0 <==> (new_value / 8) % 2 == 1) by {
            crate::bits::lemma_bits();
        }
        let mut volume = self.volume;
        let ghost bump: int = if old_period_was_zero && self.timer != 0 {
            1int
        } else if !old_increase {
            2int
        } else {
            0int
        };
        if old_period_was_zero && self.timer != 0 {
            volume = volume.wrapping_add(1);
        } else if !old_increase {
            volume = volume.wrapping_add(2);
        }
        let ghost v1: int = (self.volume + bump) % 256;
        assert(volume == v1);
        if old_increase != new_increase {
            volume = 16u8.wrapping_sub(volume);
            assert(volume == (16 - v1) % 256);
        }
        let v = volume;
        assert(v & 0x0F == v % 16) by {
            crate::bits::lemma_bits();
        }
        self.volume = volume & 0x0F;
    }

    /// NRx2: initial volume (bits 4..7), direction (bit 3), period (bits 0..2).
    pub open spec fn after_register_write(self, value: u8) -> EnvelopeState {
        EnvelopeState {
            initial_volume: value / 16,
            period: value % 8,
            increase: (value / 8) % 2 == 1,
            ..self
        }
    }

    pub fn write_register(&mut self, value: u8)
        ensures
            *final(self) == old(self).after_register_write(value),
    {
        assert((value >> 4) & 0x0F == value / 16) by {
            crate::bits::lemma_bits();
        }
        assert(value & 0x07 == value % 8) by {
            crate::bits::lemma_bits();
        }
        assert((value & 0x08) != 0 <==> (value / 8) % 2 == 1) by {
            crate::bits::lemma_bits();
        }
        self.initial_volume = (value >> 4) & 0x0F;
        self.period = value & 0x07;
        self.increase = (value & 0x08) != 0;
    }

    /// Trigger: volume reloads; the timer reloads from the period (8 for period 0), one
    /// more when the next frame-sequencer step clocks envelopes.
    pub open spec fn after_trigger(self, envelope_clocks_next: bool) -> EnvelopeState {
        let base = if self.period == 0 {
            8
        } else {
            self.period
        };
        EnvelopeState {
            volume: self.initial_volume,
            timer: (if envelope_clocks_next {
                base + 1
            } else {
                base as int
            }) as u8,
            ..self
        }
    }

    pub fn trigger(&mut self, envelope_clocks_next: bool)
        requires
            old(self).wf(),
        ensures
            *final(self) == old(self).after_trigger(envelope_clocks_next),
            final(self).wf(),
    {
        self.volume = self.initial_volume;
        let base_timer: u8 = if self.period == 0 {
            8
        } else {
            self.period
        };
        self.timer = if envelope_clocks_next {
            base_timer.saturating_add(1)
        } else {
            base_timer
        };
    }

    /// One envelope clock: period 0 is frozen; otherwise the timer counts down and on
    /// expiry reloads and moves the volume one step within 0..=15.
    pub open spec fn after_clock(self) -> EnvelopeState {
        if self.period == 0 {
            self
        } else {
            let t = if self.timer > 0 {
                self.timer - 1
            } else {
                0
            };
            if t > 0 {
                EnvelopeState { timer: t as u8, ..self }
            } else {
                EnvelopeState {
                    timer: self.period,
                    volume: if self.increase {
                        if self.volume < 15 {
                            (self.volume + 1) as u8
                        } else {
                            self.volume
                        }
                    } else if self.volume > 0 {
                        (self.volume - 1) as u8
                    } else {
                        self.volume
                    },
                    ..self
                }
            }
        }
    }

    pub fn clock(&mut self)
        requires
            old(self).wf(),
        ensures
            *final(self) == old(self).after_clock(),
            final(self).wf(),
    {
        if self.period == 0 {
            return;
        }
        if self.timer > 0 {
            self.timer -= 1;
        }
        if self.timer > 0 {
            return;
        }
        self.timer = self.period;
        if self.increase {
            if self.volume < 15 {
                self.volume += 1;
            }
        } else if self.volume > 0 {
            self.volume -= 1;
        }
    }
}

#[derive(Clone, Copy, Default)]
pub struct SweepState {
    pub period: u8,
    pub negate: bool,
    pub shift: u8,
    pub timer: u8,
    pub enabled: bool,
    pub shadow_frequency: u16,
    pub subtraction_since_trigger: bool,
}

impl SweepState {
    pub open spec fn wf(&self) -> bool {
        &&& self.period <= 7
        &&& self.shift <= 7
        &&& self.timer <= 8
        &&& self.shadow_frequency <= MAX_FREQUENCY
    }

    /// NR10: period (bits 4..6), negate (bit 3), shift (bits 0..2).
    pub open spec fn after_register_write(self, value: u8) -> SweepState {
        SweepState {
            period: (value / 16) % 8,
            negate: (value / 8) % 2 == 1,
            shift: value % 8,
            ..self
        }
    }

    /// Whether an NR10 write clears negate after a subtraction since the last trigger,
    /// which disables the channel.
    pub open spec fn write_disables(self, value: u8) -> bool {
        self.negate && !((value / 8) % 2 == 1) && self.subtraction_since_trigger
    }

    pub fn write_register(&mut self, value: u8) -> (disable: bool)
        ensures
            *final(self) == old(self).after_register_write(value),
            disable == old(self).write_disables(value),
    {
        let old_negate = self.negate;
        assert((value >> 4) & 0x07 == (value / 16) % 8) by {
            crate::bits::lemma_bits();
        }
        assert(value & 0x07 == value % 8) by {
            crate::bits::lemma_bits();
        }
        assert((value & 0x08) != 0 <==> (value / 8) % 2 == 1) by {
            crate::bits::lemma_bits();
        }
        self.period = (value >> 4) & 0x07;
        self.negate = (value & 0x08) != 0;
        self.shift = value & 0x07;
        old_negate && !self.negate && self.subtraction_since_trigger
    }

    pub open spec fn after_trigger(self, frequency: u16) -> SweepState {
        SweepState {
            shadow_frequency: if frequency < MAX_FREQUENCY {
                frequency
            } else {
                MAX_FREQUENCY
            },
            timer: if self.period == 0 {
                8
            } else {
                self.period
            },
            enabled: self.period != 0 || self.shift != 0,
            subtraction_since_trigger: false,
            ..self
        }
    }

    pub fn trigger(&mut self, frequency: u16)
        requires
            old(self).wf(),
        ensures
            *final(self) == old(self).after_trigger(frequency),
            final(self).wf(),
    {
        self.shadow_frequency = if frequency < MAX_FREQUENCY {
            frequency
        } else {
            MAX_FREQUENCY
        };
        self.timer = if self.period == 0 {
            8
        } else {
            self.period
        };
        self.enabled = self.period != 0 || self.shift != 0;
        self.subtraction_since_trigger = false;
    }

    /// The sweep timer after one sweep clock, and whether a frequency step is due.
    pub open spec fn after_timer_clock(self) -> (SweepState, bool) {
        let t = if self.timer > 0 {
            self.timer - 1
        } else {
            0
        };
        if t > 0 {
            (SweepState { timer: t as u8, ..self }, false)
        } else {
            (
                SweepState {
                    timer: if self.period == 0 {
                        8
                    } else {
                        self.period
                    },
                    ..self
                },
                self.enabled && self.shift > 0,
            )
        }
    }

    pub fn clock_timer_and_should_step(&mut self) -> (step: bool)
        requires
            old(self).wf(),
        ensures
            (*final(self), step) == old(self).after_timer_clock(),
            final(self).wf(),
    {
        if self.timer > 0 {
            self.timer -= 1;
        }
        if self.timer > 0 {
            return false;
        }
        self.timer = if self.period == 0 {
            8
        } else {
            self.period
        };
        self.enabled && self.shift > 0
    }

    /// The next sweep frequency `shadow +/- (shadow >> shift)`, `None` when the
    /// subtraction would go below zero or the sum leaves 16 bits.
    pub open spec fn next_frequency(self) -> Option<u16> {
        let delta = self.shadow_frequency as int / vstd::arithmetic::power2::pow2(self.shift as nat) as int;
        if self.negate {
            if self.shadow_frequency - delta < 0 {
                None
            } else {
                Some((self.shadow_frequency - delta) as u16)
            }
        } else if self.shadow_frequency + delta > u16::MAX {
            None
        } else {
            Some((self.shadow_frequency + delta) as u16)
        }
    }

    pub fn calculate_next_frequency(&self) -> (r: Option<u16>)
        requires
            self.wf(),
        ensures
            r == self.next_frequency(),
    {
        let delta = self.shadow_frequency >> self.shift;
        proof {
            let f = self.shadow_frequency;
            let s = self.shift;
            vstd::arithmetic::power2::lemma2_to64();
            assert(f >> s == f / (1u16 << s)) by {
            crate::bits::lemma_shift_div(f, s);
        }
            assert(1u16 << s == vstd::arithmetic::power2::pow2(s as nat)) by {
                assert(s <= 7);
                assert(1u16 << 0u8 == 1) by {
            crate::bits::lemma_shift_div(0, 0);
        }
                assert(1u16 << 1u8 == 2) by {
            crate::bits::lemma_shift_div(0, 1);
        }
                assert(1u16 << 2u8 == 4) by {
            crate::bits::lemma_shift_div(0, 2);
        }
                assert(1u16 << 3u8 == 8) by {
            crate::bits::lemma_shift_div(0, 3);
        }
                assert(1u16 << 4u8 == 16) by {
            crate::bits::lemma_shift_div(0, 4);
        }
                assert(1u16 << 5u8 == 32) by {
            crate::bits::lemma_shift_div(0, 5);
        }
                assert(1u16 << 6u8 == 64) by {
            crate::bits::lemma_shift_div(0, 6);
        }
                assert(1u16 << 7u8 == 128) by {
            crate::bits::lemma_shift_div(0, 7);
        }
            }
        }
        if self.negate {
            self.shadow_frequency.checked_sub(delta)
        } else {
            self.shadow_frequency.checked_add(delta)
        }
    }

    /// Computing a step in negate mode records that a subtraction happened.
    pub open spec fn after_tracking(self) -> SweepState {
        if self.negate {
            SweepState { subtraction_since_trigger: true, ..self }
        } else {
            self
        }
    }

    pub fn calculate_next_frequency_tracking(&mut self) -> (r: Option<u16>)
        requires
            old(self).wf(),
        ensures
            *final(self) == old(self).after_tracking(),
            r == old(self).next_frequency(),
            final(self).wf(),
    {
        if self.negate {
            self.subtraction_since_trigger = true;
        }
        self.calculate_next_frequency()
    }
}

/// The frequency step overflows (or underflows): the channel is silenced.
pub open spec fn frequency_fails(next: Option<u16>) -> bool {
    match next {
        None => true,
        Some(f) => f > MAX_FREQUENCY,
    }
}

#[derive(Clone, Copy, Default)]
pub struct SquareChannel {
    pub enabled: bool,
    pub dac_enabled: bool,
    pub duty: u8,
    pub duty_position: u8,
    pub length_counter: u8,
    pub length_enabled: bool,
    pub frequency: u16,
    pub frequency_timer: u16,
    pub envelope: EnvelopeState,
    pub sweep: SweepState,
    pub has_sweep: bool,
}

/// The channel period in t-cycles for an 11-bit frequency: `(2048 - f) * unit`.
pub open spec fn period_for(frequency: u16, unit: int) -> u16 {
    let f = if frequency < MAX_FREQUENCY {
        frequency as int
    } else {
        MAX_FREQUENCY as int
    };
    ((MAX_FREQUENCY + 1 - f) * unit) as u16
}

impl SquareChannel {
    pub open spec fn wf(&self) -> bool {
        &&& self.envelope.wf()
        &&& self.sweep.wf()
        &&& self.duty <= 3
        &&& self.duty_position <= 7
        &&& self.length_counter <= MAX_SQUARE_LENGTH
        &&& self.frequency <= MAX_FREQUENCY
    }

    pub open spec fn fresh(has_sweep: bool) -> SquareChannel {
        SquareChannel {
            enabled: false,
            dac_enabled: false,
            duty: 0,
            duty_position: 0,
            length_counter: 0,
            length_enabled: false,
            frequency: 0,
            frequency_timer: 0,
            envelope: EnvelopeState {
                initial_volume: 0,
                volume: 0,
                period: 0,
                increase: false,
                timer: 0,
            },
            sweep: SweepState {
                period: 0,
                negate: false,
                shift: 0,
                timer: 0,
                enabled: false,
                shadow_frequency: 0,
                subtraction_since_trigger: false,
            },
            has_sweep,
        }
    }

    pub fn new(has_sweep: bool) -> (r: Self)
        ensures
            r == SquareChannel::fresh(has_sweep),
            r.wf(),
    {
        SquareChannel {
            enabled: false,
            dac_enabled: false,
            duty: 0,
            duty_position: 0,
            length_counter: 0,
            length_enabled: false,
            frequency: 0,
            frequency_timer: 0,
            envelope: EnvelopeState {
                initial_volume: 0,
                volume: 0,
                period: 0,
                increase: false,
                timer: 0,
            },
            sweep: SweepState {
                period: 0,
                negate: false,
                shift: 0,
                timer: 0,
                enabled: false,
                shadow_frequency: 0,
                subtraction_since_trigger: false,
            },
            has_sweep,
        }
    }

    pub fn with_sweep() -> (r: Self)
        ensures
            r == SquareChannel::fresh(true),
            r.wf(),
    {
        Self::new(true)
    }

    pub fn reset(&mut self, has_sweep: bool)
        ensures
            *final(self) == SquareChannel::fresh(has_sweep),
            final(self).wf(),
    {
        *self = Self::new(has_sweep);
    }

    /// NRx1: duty (bits 6..7) and length load (64 - bits 0..5).
    pub fn write_duty_length(&mut self, value: u8)
        requires
            old(self).wf(),
        ensures
            *final(self) == (SquareChannel {
                duty: value / 64,
                length_counter: (MAX_SQUARE_LENGTH - value % 64) as u8,
                ..*old(self)
            }),
            final(self).wf(),
    {
        assert((value >> 6) & 0x03 == value / 64) by {
            crate::bits::lemma_bits();
        }
        assert(value & 0x3F == value % 64) by {
            crate::bits::lemma_bits();
        }
        self.duty = (value >> 6) & 0x03;
        self.length_counter = MAX_SQUARE_LENGTH - (value & 0x3F);
    }

    /// NRx2: envelope setup; the DAC is on when any of bits 3..7 is set, and turning it
    /// off silences the channel.
    pub fn write_envelope(&mut self, value: u8)
        requires
            old(self).wf(),
        ensures
            *final(self) == (SquareChannel {
                envelope: old(self).envelope.after_register_write(value),
                dac_enabled: value >= 8,
                enabled: old(self).enabled && value >= 8,
                ..*old(self)
            }),
            final(self).wf(),
    {
        self.envelope.write_register(value);
        assert((value & 0xF8) != 0 <==> value >= 8) by {
            crate::bits::lemma_bits();
        }
        self.dac_enabled = (value & 0xF8) != 0;
        if !self.dac_enabled {
            self.enabled = false;
        }
    }

    pub fn write_frequency_low(&mut self, value: u8)
        requires
            old(self).wf(),
        ensures
            *final(self) == (SquareChannel {
                frequency: ((old(self).frequency / 256) * 256 + value) as u16,
                ..*old(self)
            }),
            final(self).wf(),
    {
        let f = self.frequency;
        assert((f & 0x0700) | (value as u16) == (f / 256) * 256 + value) by {
            crate::bits::lemma_bits();
        }
        self.frequency = (self.frequency & 0x0700) | (value as u16);
    }

    /// NRx4: frequency bits 8..10, length enable (bit 6) with its enable edge, and a
    /// trigger when bit 7 is set.
    pub open spec fn after_frequency_high_write(
        self,
        value: u8,
        length_clocks_next: bool,
        envelope_clocks_next: bool,
    ) -> SquareChannel {
        let written = SquareChannel {
            frequency: (self.frequency % 256 + (value % 8) * 256) as u16,
            length_enabled: (value / 64) % 2 == 1,
            ..self
        };
        let trigger_requested = value >= 128;
        let edged = written.after_length_enable_edge(
            self.length_enabled,
            length_clocks_next,
            trigger_requested,
        );
        if trigger_requested {
            edged.after_trigger(length_clocks_next, envelope_clocks_next)
        } else {
            edged
        }
    }

    pub fn write_frequency_high(
        &mut self,
        value: u8,
        length_clocks_next: bool,
        envelope_clocks_next: bool,
    )
        requires
            old(self).wf(),
        ensures
            *final(self) == old(self).after_frequency_high_write(
                value,
                length_clocks_next,
                envelope_clocks_next,
            ),
            final(self).wf(),
    {
        let f = self.frequency;
        assert((f & 0x00FF) | (((value & 0x07) as u16) << 8) == f % 256 + (value % 8) * 256)
            by {
            crate::bits::lemma_bits();
        }
        assert((value & 0x40) != 0 <==> (value / 64) % 2 == 1) by {
            crate::bits::lemma_bits();
        }
        assert((value & 0x80) != 0 <==> value >= 128) by {
            crate::bits::lemma_bits();
        }
        self.frequency = (self.frequency & 0x00FF) | (((value & 0x07) as u16) << 8);
        let old_length_enabled = self.length_enabled;
        self.length_enabled = (value & 0x40) != 0;
        let trigger_requested = (value & 0x80) != 0;
        self.apply_length_enable_edge(old_length_enabled, length_clocks_next, trigger_requested);
        if trigger_requested {
            self.trigger(length_clocks_next, envelope_clocks_next);
        }
    }

    /// Enabling length on a step that will not clock length clocks it once now; reaching
    /// zero disables the channel unless a trigger follows.
    pub open spec fn after_length_enable_edge(
        self,
        old_length_enabled: bool,
        length_clocks_next: bool,
        trigger_requested: bool,
    ) -> SquareChannel {
        if old_length_enabled || !self.length_enabled || length_clocks_next || self.length_counter
            == 0 {
            self
        } else {
            SquareChannel {
                length_counter: (self.length_counter - 1) as u8,
                enabled: if self.length_counter - 1 == 0 && !trigger_requested {
                    false
                } else {
                    self.enabled
                },
                ..self
            }
        }
    }

    pub fn apply_length_enable_edge(
        &mut self,
        old_length_enabled: bool,
        length_clocks_next: bool,
        trigger_requested: bool,
    )
        requires
            old(self).wf(),
        ensures
            *final(self) == old(self).after_length_enable_edge(
                old_length_enabled,
                length_clocks_next,
                trigger_requested,
            ),
            final(self).wf(),
    {
        if old_length_enabled || !self.length_enabled || length_clocks_next || self.length_counter
            == 0 {
            return;
        }
        self.length_counter -= 1;
        if self.length_counter == 0 && !trigger_requested {
            self.enabled = false;
        }
    }

    /// Trigger: a channel with its DAC off stays silent; otherwise it starts, a zero
    /// length reloads to 64 (63 when length is enabled and the next step will not clock
    /// it), timer, duty step and envelope restart, and the sweep reloads and checks for
    /// overflow right away.
    pub open spec fn after_trigger(self, length_clocks_next: bool, envelope_clocks_next: bool) -> SquareChannel {
        if !self.dac_enabled {
            SquareChannel { enabled: false, ..self }
        } else {
            let length = if self.length_counter == 0 {
                if self.length_enabled && !length_clocks_next {
                    63u8
                } else {
                    64u8
                }
            } else {
                self.length_counter
            };
            let base = SquareChannel {
                enabled: true,
                length_counter: length,
                frequency_timer: period_for(self.frequency, 4),
                duty_position: 0,
                envelope: self.envelope.after_trigger(envelope_clocks_next),
                ..self
            };
            if self.has_sweep {
                let swept = self.sweep.after_trigger(self.frequency);
                if swept.shift > 0 {
                    SquareChannel {
                        sweep: swept.after_tracking(),
                        enabled: !frequency_fails(swept.next_frequency()),
                        ..base
                    }
                } else {
                    SquareChannel { sweep: swept, ..base }
                }
            } else {
                base
            }
        }
    }

    pub fn trigger(&mut self, length_clocks_next: bool, envelope_clocks_next: bool)
        requires
            old(self).wf(),
        ensures
            *final(self) == old(self).after_trigger(length_clocks_next, envelope_clocks_next),
            final(self).wf(),
    {
        if !self.dac_enabled {
            self.enabled = false;
            return;
        }
        self.enabled = true;
        if self.length_counter == 0 {
            self.length_counter = MAX_SQUARE_LENGTH;
            if self.length_enabled && !length_clocks_next {
                self.length_counter = self.length_counter.saturating_sub(1);
            }
        }
        self.frequency_timer = self.period_from_frequency();
        self.duty_position = 0;
        self.envelope.trigger(envelope_clocks_next);
        if self.has_sweep {
            self.sweep.trigger(self.frequency);
            if self.sweep.shift > 0 {
                let next = self.sweep.calculate_next_frequency_tracking();
                let fails = match next {
                    Some(f) => f > MAX_FREQUENCY,
                    None => true,
                };
                if fails {
                    self.enabled = false;
                }
            }
        }
    }

    pub fn period_from_frequency(&self) -> (r: u16)
        ensures
            r == period_for(self.frequency, 4),
            r >= 4,
    {
        let freq = if self.frequency < MAX_FREQUENCY {
            self.frequency
        } else {
            MAX_FREQUENCY
        };
        let period = (MAX_FREQUENCY + 1 - freq) * 4;
        if period < 4 {
            4
        } else {
            period
        }
    }

    /// One t-cycle of the frequency timer: on expiry it reloads and the duty step advances.
    pub open spec fn after_tcycle(self) -> SquareChannel {
        if self.frequency_timer <= 1 {
            SquareChannel {
                frequency_timer: period_for(self.frequency, 4),
                duty_position: ((self.duty_position + 1) % 8) as u8,
                ..self
            }
        } else {
            SquareChannel { frequency_timer: (self.frequency_timer - 1) as u16, ..self }
        }
    }

    pub fn step_tcycle(&mut self)
        requires
            old(self).wf(),
        ensures
            *final(self) == old(self).after_tcycle(),
            final(self).wf(),
    {
        if self.frequency_timer <= 1 {
            self.frequency_timer = self.period_from_frequency();
            let q = self.duty_position + 1;
            assert(q & 0x07 == q % 8) by {
            crate::bits::lemma_bits();
        }
            self.duty_position = q & 0x07;
        } else {
            self.frequency_timer -= 1;
        }
    }

    /// One length clock: an enabled, non-zero counter counts down; reaching zero silences.
    pub open spec fn after_length_clock(self) -> SquareChannel {
        if !self.length_enabled || self.length_counter == 0 {
            self
        } else {
            SquareChannel {
                length_counter: (self.length_counter - 1) as u8,
                enabled: if self.length_counter == 1 {
                    false
                } else {
                    self.enabled
                },
                ..self
            }
        }
    }

    pub fn clock_length(&mut self)
        requires
            old(self).wf(),
        ensures
            *final(self) == old(self).after_length_clock(),
            final(self).wf(),
    {
        if !self.length_enabled || self.length_counter == 0 {
            return;
        }
        self.length_counter -= 1;
        if self.length_counter == 0 {
            self.enabled = false;
        }
    }

    pub fn clock_envelope(&mut self)
        requires
            old(self).wf(),
        ensures
            *final(self) == (SquareChannel { envelope: old(self).envelope.after_clock(), ..*old(self) }),
            final(self).wf(),
    {
        self.envelope.clock();
    }

    /// One sweep clock on the first square channel: when a step is due, the computed
    /// frequency replaces the current one unless it overflows (which silences), and the
    /// following step is checked for overflow too.
    pub open spec fn after_sweep_clock(self) -> SquareChannel {
        if !self.has_sweep {
            self
        } else {
            let (s1, due) = self.sweep.after_timer_clock();
            if !due {
                SquareChannel { sweep: s1, ..self }
            } else {
                let s2 = s1.after_tracking();
                let next = s1.next_frequency();
                if frequency_fails(next) {
                    SquareChannel { sweep: s2, enabled: false, ..self }
                } else {
                    let s3 = SweepState { shadow_frequency: next->0, ..s2 };
                    let s4 = s3.after_tracking();
                    SquareChannel {
                        sweep: s4,
                        frequency: next->0,
                        enabled: if frequency_fails(s3.next_frequency()) {
                            false
                        } else {
                            self.enabled
                        },
                        ..self
                    }
                }
            }
        }
    }

    pub fn clock_sweep(&mut self)
        requires
            old(self).wf(),
        ensures
            *final(self) == old(self).after_sweep_clock(),
            final(self).wf(),
    {
        if !self.has_sweep {
            return;
        }
        if !self.sweep.clock_timer_and_should_step() {
            return;
        }
        let next_frequency = match self.sweep.calculate_next_frequency_tracking() {
            Some(f) => f,
            None => {
                self.enabled = false;
                return;
            },
        };
        if next_frequency > MAX_FREQUENCY {
            self.enabled = false;
            return;
        }
        self.sweep.shadow_frequency = next_frequency;
        self.frequency = next_frequency;
        let future = self.sweep.calculate_next_frequency_tracking();
        let fails = match future {
            Some(f) => f > MAX_FREQUENCY,
            None => true,
        };
        if fails {
            self.enabled = false;
        }
    }

    /// The channel's signed output: the envelope volume, negative on a low duty step;
    /// silent when disabled or the DAC is off.
    pub open spec fn amplitude(self) -> i16 {
        if !self.enabled || !self.dac_enabled {
            0
        } else if duty_bit(self.duty as int, self.duty_position as int) == 0 {
            (-(self.envelope.volume as int)) as i16
        } else {
            self.envelope.volume as i16
        }
    }

    pub fn output_amplitude(&self) -> (r: i16)
        requires
            self.wf(),
        ensures
            r == self.amplitude(),
            -15 <= r <= 15,
    {
        if !self.enabled || !self.dac_enabled {
            return 0;
        }
        let bit = DUTY_PATTERNS[self.duty as usize][self.duty_position as usize];
        let volume = self.envelope.volume as i16;
        if bit == 0 {
            -volume
        } else {
            volume
        }
    }
}

#[derive(Clone, Copy, Default)]
pub struct WaveChannel {
    pub enabled: bool,
    pub dac_enabled: bool,
    pub length_counter: u16,
    pub length_enabled: bool,
    pub output_level: u8,
    pub frequency: u16,
    pub frequency_timer: u16,
    pub wave_position: u8,
    pub sample_buffer: u8,
}

impl WaveChannel {
    pub open spec fn wf(&self) -> bool {
        &&& self.length_counter <= MAX_WAVE_LENGTH
        &&& self.output_level <= 3
        &&& self.frequency <= MAX_FREQUENCY
        &&& self.wave_position <= 31
    }

    pub open spec fn fresh() -> WaveChannel {
        WaveChannel {
            enabled: false,
            dac_enabled: false,
            length_counter: 0,
            length_enabled: false,
            output_level: 0,
            frequency: 0,
            frequency_timer: 0,
            wave_position: 0,
            sample_buffer: 0,
        }
    }

    pub fn new() -> (r: Self)
        ensures
            r == WaveChannel::fresh(),
            r.wf(),
    {
        WaveChannel {
            enabled: false,
            dac_enabled: false,
            length_counter: 0,
            length_enabled: false,
            output_level: 0,
            frequency: 0,
            frequency_timer: 0,
            wave_position: 0,
            sample_buffer: 0,
        }
    }

    /// NR30: DAC on iff bit 7; turning it off silences the channel.
    pub fn write_dac_enable(&mut self, value: u8)
        requires
            old(self).wf(),
        ensures
            *final(self) == (WaveChannel {
                dac_enabled: value >= 0x80,
                enabled: old(self).enabled && value >= 0x80,
                ..*old(self)
            }),
            final(self).wf(),
    {
        assert((value & 0x80) != 0 <==> value >= 0x80) by {
            crate::bits::lemma_bits();
        }
        self.dac_enabled = (value & 0x80) != 0;
        if !self.dac_enabled {
            self.enabled = false;
        }
    }

    /// NR31: length load `256 - value`.
    pub fn write_length(&mut self, value: u8)
        requires
            old(self).wf(),
        ensures
            *final(self) == (WaveChannel {
                length_counter: (MAX_WAVE_LENGTH - value) as u16,
                ..*old(self)
            }),
            final(self).wf(),
    {
        self.length_counter = MAX_WAVE_LENGTH - (value as u16);
    }

    /// NR32: output level in bits 5..6.
    pub fn write_output_level(&mut self, value: u8)
        requires
            old(self).wf(),
        ensures
            *final(self) == (WaveChannel { output_level: (value / 32) % 4, ..*old(self) }),
            final(self).wf(),
    {
        assert((value >> 5) & 0x03 == (value / 32) % 4) by {
            crate::bits::lemma_bits();
        }
        self.output_level = (value >> 5) & 0x03;
    }

    pub fn write_frequency_low(&mut self, value: u8)
        requires
            old(self).wf(),
        ensures
            *final(self) == (WaveChannel {
                frequency: ((old(self).frequency / 256) * 256 + value) as u16,
                ..*old(self)
            }),
            final(self).wf(),
    {
        let f = self.frequency;
        assert((f & 0x0700) | (value as u16) == (f / 256) * 256 + value) by {
            crate::bits::lemma_bits();
        }
        self.frequency = (self.frequency & 0x0700) | (value as u16);
    }

    /// NR34: frequency bits 8..10, length enable (bit 6) with its enable edge, and a
    /// trigger when bit 7 is set.
    pub open spec fn after_frequency_high_write(self, value: u8, length_clocks_next: bool) -> WaveChannel {
        let written = WaveChannel {
            frequency: (self.frequency % 256 + (value % 8) * 256) as u16,
            length_enabled: (value / 64) % 2 == 1,
            ..self
        };
        let trigger_requested = value >= 128;
        let edged = written.after_length_enable_edge(
            self.length_enabled,
            length_clocks_next,
            trigger_requested,
        );
        if trigger_requested {
            edged.after_trigger(length_clocks_next)
        } else {
            edged
        }
    }

    pub fn write_frequency_high(&mut self, value: u8, length_clocks_next: bool)
        requires
            old(self).wf(),
        ensures
            *final(self) == old(self).after_frequency_high_write(value, length_clocks_next),
            final(self).wf(),
    {
        let f = self.frequency;
        assert((f & 0x00FF) | (((value & 0x07) as u16) << 8) == f % 256 + (value % 8) * 256)
            by {
            crate::bits::lemma_bits();
        }
        assert((value & 0x40) != 0 <==> (value / 64) % 2 == 1) by {
            crate::bits::lemma_bits();
        }
        assert((value & 0x80) != 0 <==> value >= 128) by {
            crate::bits::lemma_bits();
        }
        self.frequency = (self.frequency & 0x00FF) | (((value & 0x07) as u16) << 8);
        let old_length_enabled = self.length_enabled;
        self.length_enabled = (value & 0x40) != 0;
        let trigger_requested = (value & 0x80) != 0;
        self.apply_length_enable_edge(old_length_enabled, length_clocks_next, trigger_requested);
        if trigger_requested {
            self.trigger(length_clocks_next);
        }
    }

    pub open spec fn after_length_enable_edge(
        self,
        old_length_enabled: bool,
        length_clocks_next: bool,
        trigger_requested: bool,
    ) -> WaveChannel {
        if old_length_enabled || !self.length_enabled || length_clocks_next || self.length_counter
            == 0 {
            self
        } else {
            WaveChannel {
                length_counter: (self.length_counter - 1) as u16,
                enabled: if self.length_counter - 1 == 0 && !trigger_requested {
                    false
                } else {
                    self.enabled
                },
                ..self
            }
        }
    }

    pub fn apply_length_enable_edge(
        &mut self,
        old_length_enabled: bool,
        length_clocks_next: bool,
        trigger_requested: bool,
    )
        requires
            old(self).wf(),
        ensures
            *final(self) == old(self).after_length_enable_edge(
                old_length_enabled,
                length_clocks_next,
                trigger_requested,
            ),
            final(self).wf(),
    {
        if old_length_enabled || !self.length_enabled || length_clocks_next || self.length_counter
            == 0 {
            return;
        }
        self.length_counter -= 1;
        if self.length_counter == 0 && !trigger_requested {
            self.enabled = false;
        }
    }

    /// Trigger: silent with the DAC off; otherwise starts, reloads a zero length (256, or
    /// 255 as for the square channels), restarts the timer and the position. The sample
    /// buffer keeps its byte until the next fetch.
    pub open spec fn after_trigger(self, length_clocks_next: bool) -> WaveChannel {
        if !self.dac_enabled {
            WaveChannel { enabled: false, ..self }
        } else {
            WaveChannel {
                enabled: true,
                length_counter: if self.length_counter == 0 {
                    if self.length_enabled && !length_clocks_next {
                        255u16
                    } else {
                        256u16
                    }
                } else {
                    self.length_counter
                },
                frequency_timer: period_for(self.frequency, 2),
                wave_position: 0,
                ..self
            }
        }
    }

    pub fn trigger(&mut self, length_clocks_next: bool)
        requires
            old(self).wf(),
        ensures
            *final(self) == old(self).after_trigger(length_clocks_next),
            final(self).wf(),
    {
        if !self.dac_enabled {
            self.enabled = false;
            return;
        }
        self.enabled = true;
        if self.length_counter == 0 {
            self.length_counter = MAX_WAVE_LENGTH;
            if self.length_enabled && !length_clocks_next {
                self.length_counter = self.length_counter.saturating_sub(1);
            }
        }
        self.frequency_timer = self.period_from_frequency();
        self.wave_position = 0;
    }

    pub fn period_from_frequency(&self) -> (r: u16)
        ensures
            r == period_for(self.frequency, 2),
            r >= 2,
    {
        let freq = if self.frequency < MAX_FREQUENCY {
            self.frequency
        } else {
            MAX_FREQUENCY
        };
        let period = (MAX_FREQUENCY + 1 - freq) * 2;
        if period < 2 {
            2
        } else {
            period
        }
    }

    /// One t-cycle: on timer expiry the position advances (32 nibbles) and the byte
    /// holding the new nibble is fetched from wave RAM.
    pub open spec fn after_tcycle(self, wave_ram: Seq<u8>) -> WaveChannel {
        if self.frequency_timer <= 1 {
            let pos = (self.wave_position + 1) % 32;
            WaveChannel {
                frequency_timer: period_for(self.frequency, 2),
                wave_position: pos as u8,
                sample_buffer: wave_ram[WAVE_RAM_START_INDEX + pos / 2],
                ..self
            }
        } else {
            WaveChannel { frequency_timer: (self.frequency_timer - 1) as u16, ..self }
        }
    }

    pub fn step_tcycle(&mut self, io: &[u8; 0x80])
        requires
            old(self).wf(),
        ensures
            *final(self) == old(self).after_tcycle(io@),
            final(self).wf(),
    {
        if self.frequency_timer <= 1 {
            self.frequency_timer = self.period_from_frequency();
            let q = self.wave_position + 1;
            assert(q & 0x1F == q % 32) by {
            crate::bits::lemma_bits();
        }
            self.wave_position = q & 0x1F;
            self.sample_buffer = io[WAVE_RAM_START_INDEX + (self.wave_position as usize / 2)];
        } else {
            self.frequency_timer -= 1;
        }
    }

    pub open spec fn after_length_clock(self) -> WaveChannel {
        if !self.length_enabled || self.length_counter == 0 {
            self
        } else {
            WaveChannel {
                length_counter: (self.length_counter - 1) as u16,
                enabled: if self.length_counter == 1 {
                    false
                } else {
                    self.enabled
                },
                ..self
            }
        }
    }

    pub fn clock_length(&mut self)
        requires
            old(self).wf(),
        ensures
            *final(self) == old(self).after_length_clock(),
            final(self).wf(),
    {
        if !self.length_enabled || self.length_counter == 0 {
            return;
        }
        self.length_counter -= 1;
        if self.length_counter == 0 {
            self.enabled = false;
        }
    }

    /// The current 4-bit sample (high nibble first), shifted by the output level (1: as
    /// is, 2: half, 3: quarter), mapped to `2s - 15`; 0 when muted or silent.
    pub open spec fn amplitude(self) -> i16 {
        if !self.enabled || !self.dac_enabled || self.output_level == 0 {
            0
        } else {
            let nibble = if self.wave_position % 2 == 0 {
                self.sample_buffer / 16
            } else {
                self.sample_buffer % 16
            };
            let sample: int = if self.output_level == 1 {
                nibble as int
            } else if self.output_level == 2 {
                nibble as int / 2
            } else {
                nibble as int / 4
            };
            (sample * 2 - 15) as i16
        }
    }

    pub fn output_amplitude(&self, _io: &[u8; 0x80]) -> (r: i16)
        requires
            self.wf(),
        ensures
            r == self.amplitude(),
            -15 <= r <= 15,
    {
        if !self.enabled || !self.dac_enabled {
            return 0;
        }
        let byte = self.sample_buffer;
        let p = self.wave_position;
        assert((p & 1) == 0 <==> p % 2 == 0) by {
            crate::bits::lemma_bits();
        }
        assert(byte >> 4 == byte / 16) by {
            crate::bits::lemma_bits();
        }
        assert(byte & 0x0F == byte % 16) by {
            crate::bits::lemma_bits();
        }
        let nibble = if (self.wave_position & 1) == 0 {
            byte >> 4
        } else {
            byte & 0x0F
        };
        assert(nibble >> 1 == nibble / 2) by {
            crate::bits::lemma_bits();
        }
        assert(nibble >> 2 == nibble / 4) by {
            crate::bits::lemma_bits();
        }
        proof {
            vstd::arithmetic::power2::lemma2_to64();
        }
        let sample = match self.output_level {
            0 => 0,
            1 => nibble,
            2 => nibble >> 1,
            3 => nibble >> 2,
            _ => 0,
        };
        if self.output_level == 0 {
            0
        } else {
            (sample as i16) * 2 - 15
        }
    }
}

#[derive(Clone, Copy, Default)]
pub struct NoiseChannel {
    pub enabled: bool,
    pub dac_enabled: bool,
    pub length_counter: u8,
    pub length_enabled: bool,
    pub envelope: EnvelopeState,
    pub clock_shift: u8,
    pub width_mode_7bit: bool,
    pub divisor_code: u8,
    pub frequency_timer: u16,
    pub lfsr: u16,
}

/// The LFSR after one shift: bit 0 XOR bit 1 is shifted in at bit 14 (and copied into
/// bit 6 in 7-bit width mode).
pub open spec fn lfsr_step(lfsr: u16, width_mode_7bit: bool) -> u16 {
    let xor_bit = (lfsr & 1) ^ ((lfsr >> 1u16) & 1);
    let shifted = (lfsr >> 1u16) | (xor_bit << 14u16);
    if width_mode_7bit {
        (shifted & !(1u16 << 6u16)) | (xor_bit << 6u16)
    } else {
        shifted
    }
}

impl NoiseChannel {
    pub open spec fn wf(&self) -> bool {
        &&& self.envelope.wf()
        &&& self.length_counter <= MAX_NOISE_LENGTH
        &&& self.clock_shift <= 15
        &&& self.divisor_code <= 7
        &&& self.lfsr <= 0x7FFF
    }

    pub open spec fn fresh() -> NoiseChannel {
        NoiseChannel {
            enabled: false,
            dac_enabled: false,
            length_counter: 0,
            length_enabled: false,
            envelope: EnvelopeState {
                initial_volume: 0,
                volume: 0,
                period: 0,
                increase: false,
                timer: 0,
            },
            clock_shift: 0,
            width_mode_7bit: false,
            divisor_code: 0,
            frequency_timer: 0,
            lfsr: 0,
        }
    }

    pub fn new() -> (r: Self)
        ensures
            r == NoiseChannel::fresh(),
            r.wf(),
    {
        NoiseChannel {
            enabled: false,
            dac_enabled: false,
            length_counter: 0,
            length_enabled: false,
            envelope: EnvelopeState {
                initial_volume: 0,
                volume: 0,
                period: 0,
                increase: false,
                timer: 0,
            },
            clock_shift: 0,
            width_mode_7bit: false,
            divisor_code: 0,
            frequency_timer: 0,
            lfsr: 0,
        }
    }

    /// NR41: length load `64 - bits 0..5`.
    pub fn write_length(&mut self, value: u8)
        requires
            old(self).wf(),
        ensures
            *final(self) == (NoiseChannel {
                length_counter: (MAX_NOISE_LENGTH - value % 64) as u8,
                ..*old(self)
            }),
            final(self).wf(),
    {
        assert(value & 0x3F == value % 64) by {
            crate::bits::lemma_bits();
        }
        self.length_counter = MAX_NOISE_LENGTH - (value & 0x3F);
    }

    pub fn write_envelope(&mut self, value: u8)
        requires
            old(self).wf(),
        ensures
            *final(self) == (NoiseChannel {
                envelope: old(self).envelope.after_register_write(value),
                dac_enabled: value >= 8,
                enabled: old(self).enabled && value >= 8,
                ..*old(self)
            }),
            final(self).wf(),
    {
        self.envelope.write_register(value);
        assert((value & 0xF8) != 0 <==> value >= 8) by {
            crate::bits::lemma_bits();
        }
        self.dac_enabled = (value & 0xF8) != 0;
        if !self.dac_enabled {
            self.enabled = false;
        }
    }

    /// NR43: clock shift (bits 4..7), width mode (bit 3), divisor code (bits 0..2).
    pub fn write_polynomial(&mut self, value: u8)
        requires
            old(self).wf(),
        ensures
            *final(self) == (NoiseChannel {
                clock_shift: value / 16,
                width_mode_7bit: (value / 8) % 2 == 1,
                divisor_code: value % 8,
                ..*old(self)
            }),
            final(self).wf(),
    {
        assert((value >> 4) & 0x0F == value / 16) by {
            crate::bits::lemma_bits();
        }
        assert((value & 0x08) != 0 <==> (value / 8) % 2 == 1) by {
            crate::bits::lemma_bits();
        }
        assert(value & 0x07 == value % 8) by {
            crate::bits::lemma_bits();
        }
        self.clock_shift = (value >> 4) & 0x0F;
        self.width_mode_7bit = (value & 0x08) != 0;
        self.divisor_code = value & 0x07;
    }

    /// NR44: length enable (bit 6) with its enable edge, and a trigger when bit 7 is set.
    pub open spec fn after_control_write(
        self,
        value: u8,
        length_clocks_next: bool,
        envelope_clocks_next: bool,
    ) -> NoiseChannel {
        let written = NoiseChannel { length_enabled: (value / 64) % 2 == 1, ..self };
        let trigger_requested = value >= 128;
        let edged = written.after_length_enable_edge(
            self.length_enabled,
            length_clocks_next,
            trigger_requested,
        );
        if trigger_requested {
            edged.after_trigger(length_clocks_next, envelope_clocks_next)
        } else {
            edged
        }
    }

    pub fn write_control(&mut self, value: u8, length_clocks_next: bool, envelope_clocks_next: bool)
        requires
            old(self).wf(),
        ensures
            *final(self) == old(self).after_control_write(
                value,
                length_clocks_next,
                envelope_clocks_next,
            ),
            final(self).wf(),
    {
        assert((value & 0x40) != 0 <==> (value / 64) % 2 == 1) by {
            crate::bits::lemma_bits();
        }
        assert((value & 0x80) != 0 <==> value >= 128) by {
            crate::bits::lemma_bits();
        }
        let old_length_enabled = self.length_enabled;
        self.length_enabled = (value & 0x40) != 0;
        let trigger_requested = (value & 0x80) != 0;
        self.apply_length_enable_edge(old_length_enabled, length_clocks_next, trigger_requested);
        if trigger_requested {
            self.trigger(length_clocks_next, envelope_clocks_next);
        }
    }

    pub open spec fn after_length_enable_edge(
        self,
        old_length_enabled: bool,
        length_clocks_next: bool,
        trigger_requested: bool,
    ) -> NoiseChannel {
        if old_length_enabled || !self.length_enabled || length_clocks_next || self.length_counter
            == 0 {
            self
        } else {
            NoiseChannel {
                length_counter: (self.length_counter - 1) as u8,
                enabled: if self.length_counter - 1 == 0 && !trigger_requested {
                    false
                } else {
                    self.enabled
                },
                ..self
            }
        }
    }

    pub fn apply_length_enable_edge(
        &mut self,
        old_length_enabled: bool,
        length_clocks_next: bool,
        trigger_requested: bool,
    )
        requires
            old(self).wf(),
        ensures
            *final(self) == old(self).after_length_enable_edge(
                old_length_enabled,
                length_clocks_next,
                trigger_requested,
            ),
            final(self).wf(),
    {
        if old_length_enabled || !self.length_enabled || length_clocks_next || self.length_counter
            == 0 {
            return;
        }
        self.length_counter -= 1;
        if self.length_counter == 0 && !trigger_requested {
            self.enabled = false;
        }
    }

    /// Trigger: silent with the DAC off; otherwise starts, reloads a zero length, restarts
    /// the timer, sets all 15 LFSR bits and restarts the envelope.
    pub open spec fn after_trigger(self, length_clocks_next: bool, envelope_clocks_next: bool) -> NoiseChannel {
        if !self.dac_enabled {
            NoiseChannel { enabled: false, ..self }
        } else {
            NoiseChannel {
                enabled: true,
                length_counter: if self.length_counter == 0 {
                    if self.length_enabled && !length_clocks_next {
                        63u8
                    } else {
                        64u8
                    }
                } else {
                    self.length_counter
                },
                frequency_timer: self.period(),
                lfsr: 0x7FFF,
                envelope: self.envelope.after_trigger(envelope_clocks_next),
                ..self
            }
        }
    }

    pub fn trigger(&mut self, length_clocks_next: bool, envelope_clocks_next: bool)
        requires
            old(self).wf(),
        ensures
            *final(self) == old(self).after_trigger(length_clocks_next, envelope_clocks_next),
            final(self).wf(),
    {
        if !self.dac_enabled {
            self.enabled = false;
            return;
        }
        self.enabled = true;
        if self.length_counter == 0 {
            self.length_counter = MAX_NOISE_LENGTH;
            if self.length_enabled && !length_clocks_next {
                self.length_counter = self.length_counter.saturating_sub(1);
            }
        }
        self.frequency_timer = self.period_from_registers();
        self.lfsr = 0x7FFF;
        self.envelope.trigger(envelope_clocks_next);
    }

    /// The LFSR clock period `divisor << shift`, capped at 65535.
    pub open spec fn period(self) -> u16 {
        let p = NOISE_DIVISORS@[self.divisor_code as int] as int * vstd::arithmetic::power2::pow2(
            self.clock_shift as nat,
        ) as int;
        if p > u16::MAX {
            u16::MAX
        } else {
            p as u16
        }
    }

    pub fn period_from_registers(&self) -> (r: u16)
        requires
            self.wf(),
        ensures
            r == self.period(),
    {
        let divisor = NOISE_DIVISORS[self.divisor_code as usize] as u32;
        let shift = self.clock_shift as u32;
        proof {
            vstd::arithmetic::power2::lemma_pow2(shift as nat);
            vstd::arithmetic::power2::lemma2_to64();
            assert(divisor <= 112);
            if shift < 15 {
                vstd::arithmetic::power2::lemma_pow2_strictly_increases(shift as nat, 15);
            }
            assert(vstd::arithmetic::power2::pow2(shift as nat) <= 32768);
            assert(divisor * vstd::arithmetic::power2::pow2(shift as nat) <= 112 * 32768) by (nonlinear_arith)
                requires
                    divisor <= 112,
                    vstd::arithmetic::power2::pow2(shift as nat) <= 32768,
            ;
            vstd::bits::lemma_u32_shl_is_mul(divisor, shift);
        }
        let period = divisor << shift;
        if period > (u16::MAX as u32) {
            u16::MAX
        } else {
            period as u16
        }
    }

    /// One t-cycle: on timer expiry the timer reloads and, unless the shift is 14 or 15,
    /// the LFSR steps.
    pub open spec fn after_tcycle(self) -> NoiseChannel {
        if self.frequency_timer <= 1 {
            if self.clock_shift >= 14 {
                NoiseChannel { frequency_timer: self.period(), ..self }
            } else {
                NoiseChannel {
                    frequency_timer: self.period(),
                    lfsr: lfsr_step(self.lfsr, self.width_mode_7bit),
                    ..self
                }
            }
        } else {
            NoiseChannel { frequency_timer: (self.frequency_timer - 1) as u16, ..self }
        }
    }

    pub fn step_tcycle(&mut self)
        requires
            old(self).wf(),
        ensures
            *final(self) == old(self).after_tcycle(),
            final(self).wf(),
    {
        if self.frequency_timer <= 1 {
            self.frequency_timer = self.period_from_registers();
            if self.clock_shift >= 14 {
                return;
            }
            let l = self.lfsr;
            let xor_bit = ((l & 0x0001) ^ ((l >> 1) & 0x0001)) & 0x0001;
            assert(((l & 1) ^ ((l >> 1u16) & 1)) & 1 == (l & 1) ^ ((l >> 1u16) & 1)) by {
            crate::bits::lemma_lfsr_bits(l);
        }
            self.lfsr = (l >> 1) | (xor_bit << 14);
            if self.width_mode_7bit {
                self.lfsr = (self.lfsr & !(1 << 6)) | (xor_bit << 6);
            }
            proof {
                lemma_lfsr_width_mode_mirrors(l);
            }
        } else {
            self.frequency_timer -= 1;
        }
    }

    pub open spec fn after_length_clock(self) -> NoiseChannel {
        if !self.length_enabled || self.length_counter == 0 {
            self
        } else {
            NoiseChannel {
                length_counter: (self.length_counter - 1) as u8,
                enabled: if self.length_counter == 1 {
                    false
                } else {
                    self.enabled
                },
                ..self
            }
        }
    }

    pub fn clock_length(&mut self)
        requires
            old(self).wf(),
        ensures
            *final(self) == old(self).after_length_clock(),
            final(self).wf(),
    {
        if !self.length_enabled || self.length_counter == 0 {
            return;
        }
        self.length_counter -= 1;
        if self.length_counter == 0 {
            self.enabled = false;
        }
    }

    pub fn clock_envelope(&mut self)
        requires
            old(self).wf(),
        ensures
            *final(self) == (NoiseChannel { envelope: old(self).envelope.after_clock(), ..*old(self) }),
            final(self).wf(),
    {
        self.envelope.clock();
    }

    /// The channel's signed output: the envelope volume, negative when LFSR bit 0 is set.
    pub open spec fn amplitude(self) -> i16 {
        if !self.enabled || !self.dac_enabled {
            0
        } else if self.lfsr % 2 == 0 {
            self.envelope.volume as i16
        } else {
            (-(self.envelope.volume as int)) as i16
        }
    }

    pub fn output_amplitude(&self) -> (r: i16)
        requires
            self.wf(),
        ensures
            r == self.amplitude(),
            -15 <= r <= 15,
    {
        if !self.enabled || !self.dac_enabled {
            return 0;
        }
        let volume = self.envelope.volume as i16;
        let l = self.lfsr;
        assert((l & 0x0001) == 0 <==> l % 2 == 0) by {
            crate::bits::lemma_lfsr_bits(l);
        }
        if (self.lfsr & 0x0001) == 0 {
            volume
        } else {
            -volume
        }
    }
}

/// Law: the envelope volume stays within 0..=15 whatever sequence of writes, triggers and
/// clocks it sees.
pub proof fn lemma_envelope_volume_bounded(e: EnvelopeState, value: u8, next: bool)
    requires
        e.wf(),
    ensures
        e.after_register_write(value).wf(),
        e.after_trigger(next).wf(),
        e.after_clock().wf(),
        e.zombie_volume(value) <= 15,
{
}

/// Law: an enabled-length channel whose counter is 1 is silenced by the next length clock.
pub proof fn lemma_length_expiry_silences(c: SquareChannel)
    requires
        c.length_enabled,
        c.length_counter == 1,
    ensures
        !c.after_length_clock().enabled,
        c.after_length_clock().length_counter == 0,
{
}

/// Law: in 7-bit width mode every LFSR step leaves bit 6 equal to bit 14.
pub proof fn lemma_lfsr_width_mode_mirrors(lfsr: u16)
    by (bit_vector)
    requires
        lfsr <= 0x7FFF,
    ensures
        ((lfsr_step(lfsr, true) >> 6u16) & 1) == ((lfsr_step(lfsr, true) >> 14u16) & 1),
        lfsr_step(lfsr, true) <= 0x7FFF,
        lfsr_step(lfsr, false) <= 0x7FFF,
{
}


/// Law: NR32's output level scales the wave sample. For a playing channel whose current
/// 4-bit sample is `n` (the high nibble of the sample buffer on even positions, the low
/// one on odd), level 1 plays 2n − 15, level 2 plays the sample with one bit shifted out
/// (50%), level 3 with two bits shifted out (25%), and level 0 is silent.
pub proof fn lemma_wave_output_level(w: WaveChannel)
    requires
        w.enabled,
        w.dac_enabled,
    ensures
        ({
            let n: int = if w.wave_position % 2 == 0 {
                (w.sample_buffer / 16) as int
            } else {
                (w.sample_buffer % 16) as int
            };
            &&& WaveChannel { output_level: 0, ..w }.amplitude() == 0
            &&& WaveChannel { output_level: 1, ..w }.amplitude() == 2 * n - 15
            &&& WaveChannel { output_level: 2, ..w }.amplitude() == 2 * (n / 2) - 15
            &&& WaveChannel { output_level: 3, ..w }.amplitude() == 2 * (n / 4) - 15
            &&& WaveChannel { output_level: 2, ..w }.amplitude() + 15 == 2 * ((
            WaveChannel { output_level: 1, ..w }.amplitude() + 15) / 4)
            &&& WaveChannel { output_level: 3, ..w }.amplitude() + 15 == 2 * ((
            WaveChannel { output_level: 1, ..w }.amplitude() + 15) / 8)
        }),
{
}

} // verus!
