//! The APU's control state: power, the frame sequencer that clocks length counters,
//! the sweep and the envelopes from the divider, and the channel-status mask that NR52
//! reports.
use vstd::prelude::*;
use crate::apu_channels::{NoiseChannel, SquareChannel, WaveChannel};

verus! {

pub const NR10_INDEX: usize = 0x10;
pub const NR11_INDEX: usize = 0x11;
pub const NR12_INDEX: usize = 0x12;
pub const NR13_INDEX: usize = 0x13;
pub const NR14_INDEX: usize = 0x14;
pub const NR21_INDEX: usize = 0x16;
pub const NR22_INDEX: usize = 0x17;
pub const NR23_INDEX: usize = 0x18;
pub const NR24_INDEX: usize = 0x19;
pub const NR30_INDEX: usize = 0x1A;
pub const NR31_INDEX: usize = 0x1B;
pub const NR32_INDEX: usize = 0x1C;
pub const NR33_INDEX: usize = 0x1D;
pub const NR34_INDEX: usize = 0x1E;
pub const NR41_INDEX: usize = 0x20;
pub const NR42_INDEX: usize = 0x21;
pub const NR43_INDEX: usize = 0x22;
pub const NR44_INDEX: usize = 0x23;
pub const NR50_INDEX: usize = 0x24;
pub const NR51_INDEX: usize = 0x25;
pub const NR52_INDEX: usize = 0x26;
pub const WAVE_RAM_END_INDEX: usize = 0x3F;
/// The divider bit whose falling edge clocks the frame sequencer (512 Hz).
pub const DIV_APU_BIT: u16 = 0x1000;

pub struct ApuState {
    pub enabled: bool,
    pub channel_on_mask: u8,
    pub frame_sequencer_step: u8,
    pub frame_sequencer_ticks: u64,
    pub length_tick_count: u64,
    pub sweep_tick_count: u64,
    pub envelope_tick_count: u64,
    pub square1: SquareChannel,
    pub square2: SquareChannel,
    pub wave: WaveChannel,
    pub noise: NoiseChannel,
    pub capture_tcycle_stream: bool,
}

/// The NR52 channel-status nibble for four channel enable flags.
pub open spec fn status_mask(ch1: bool, ch2: bool, ch3: bool, ch4: bool) -> u8 {
    ((if ch1 { 1int } else { 0int }) + (if ch2 { 2int } else { 0int }) + (if ch3 {
        4int
    } else {
        0int
    }) + (if ch4 { 8int } else { 0int })) as u8
}

pub open spec fn sat_inc(v: u64) -> u64 {
    if v == u64::MAX {
        v
    } else {
        (v + 1) as u64
    }
}

impl ApuState {
    pub open spec fn wf(&self) -> bool {
        &&& self.square1.wf()
        &&& self.square2.wf()
        &&& self.wave.wf()
        &&& self.noise.wf()
        &&& self.square1.has_sweep
        &&& !self.square2.has_sweep
        &&& self.frame_sequencer_step <= 7
        &&& self.channel_on_mask <= 15
    }

    /// The status nibble that the channels' enable flags give.
    pub open spec fn live_mask(self) -> u8 {
        status_mask(self.square1.enabled, self.square2.enabled, self.wave.enabled, self.noise.enabled)
    }

    pub open spec fn fresh() -> ApuState {
        ApuState {
            enabled: false,
            channel_on_mask: 0,
            frame_sequencer_step: 0,
            frame_sequencer_ticks: 0,
            length_tick_count: 0,
            sweep_tick_count: 0,
            envelope_tick_count: 0,
            square1: SquareChannel::fresh(true),
            square2: SquareChannel::fresh(false),
            wave: WaveChannel::fresh(),
            noise: NoiseChannel::fresh(),
            capture_tcycle_stream: false,
        }
    }

    /// A powered-off APU with every channel silent.
    pub fn new() -> (r: Self)
        ensures
            r == ApuState::fresh(),
            r.wf(),
    {
        ApuState {
            enabled: false,
            channel_on_mask: 0,
            frame_sequencer_step: 0,
            frame_sequencer_ticks: 0,
            length_tick_count: 0,
            sweep_tick_count: 0,
            envelope_tick_count: 0,
            square1: SquareChannel::with_sweep(),
            square2: SquareChannel::new(false),
            wave: WaveChannel::new(),
            noise: NoiseChannel::new(),
            capture_tcycle_stream: false,
        }
    }

    /// The APU as the boot ROM leaves it: power and channel flags from NR52 (bit 7 and
    /// bits 0..3); channel flags only count when the APU is powered.
    pub fn from_boot_registers(io: &[u8; 0x80]) -> (r: Self)
        ensures
            r.wf(),
            r.enabled == (io@[NR52_INDEX as int] >= 128),
            r.channel_on_mask == io@[NR52_INDEX as int] % 16,
            r.square1.enabled == (r.enabled && r.channel_on_mask % 2 == 1),
            r.square2.enabled == (r.enabled && (r.channel_on_mask / 2) % 2 == 1),
            r.wave.enabled == (r.enabled && (r.channel_on_mask / 4) % 2 == 1),
            r.noise.enabled == (r.enabled && (r.channel_on_mask / 8) % 2 == 1),
            r.frame_sequencer_step == 0,
            r.frame_sequencer_ticks == 0,
            !r.capture_tcycle_stream,
    {
        let nr52 = io[NR52_INDEX];
        assert((nr52 & 0x80) != 0 <==> nr52 >= 128) by {
            crate::bits::lemma_bits();
        }
        assert(nr52 & 0x0F == nr52 % 16) by {
            crate::bits::lemma_bits();
        }
        let mut state = Self::new();
        state.enabled = (nr52 & 0x80) != 0;
        state.channel_on_mask = nr52 & 0x0F;
        if state.enabled {
            let mask = state.channel_on_mask;
            assert((mask & 0x01) != 0 <==> mask % 2 == 1) by {
            crate::bits::lemma_bits();
        }
            assert((mask & 0x02) != 0 <==> (mask / 2) % 2 == 1) by {
            crate::bits::lemma_bits();
        }
            assert((mask & 0x04) != 0 <==> (mask / 4) % 2 == 1) by {
            crate::bits::lemma_bits();
        }
            assert((mask & 0x08) != 0 <==> (mask / 8) % 2 == 1) by {
            crate::bits::lemma_bits();
        }
            state.square1.enabled = (mask & 0x01) != 0;
            state.square2.enabled = (mask & 0x02) != 0;
            state.wave.enabled = (mask & 0x04) != 0;
            state.noise.enabled = (mask & 0x08) != 0;
        }
        state
    }

    /// Length stage of a frame-sequencer step: every channel's length counter is clocked.
    #[verifier::opaque]
    pub open spec fn after_length_stage(self) -> ApuState {
        ApuState {
            length_tick_count: sat_inc(self.length_tick_count),
            square1: self.square1.after_length_clock(),
            square2: self.square2.after_length_clock(),
            wave: self.wave.after_length_clock(),
            noise: self.noise.after_length_clock(),
            ..self
        }
    }

    /// Sweep stage of a frame-sequencer step: the first square channel's sweep is clocked.
    #[verifier::opaque]
    pub open spec fn after_sweep_stage(self) -> ApuState {
        ApuState {
            sweep_tick_count: sat_inc(self.sweep_tick_count),
            square1: self.square1.after_sweep_clock(),
            ..self
        }
    }

    /// Envelope stage of a frame-sequencer step: the three enveloped channels are clocked.
    #[verifier::opaque]
    pub open spec fn after_envelope_stage(self) -> ApuState {
        ApuState {
            envelope_tick_count: sat_inc(self.envelope_tick_count),
            square1: SquareChannel {
                envelope: self.square1.envelope.after_clock(),
                ..self.square1
            },
            square2: SquareChannel {
                envelope: self.square2.envelope.after_clock(),
                ..self.square2
            },
            noise: NoiseChannel { envelope: self.noise.envelope.after_clock(), ..self.noise },
            ..self
        }
    }

    /// One frame-sequencer clock while powered: even steps clock the length counters,
    /// steps 2 and 6 the sweep, step 7 the envelopes; the step then advances modulo 8
    /// and the status mask is refreshed. A powered-off APU is left as it is.
    #[verifier::opaque]
    pub open spec fn after_frame_clock(self) -> ApuState {
        if !self.enabled {
            self
        } else {
            let step = self.frame_sequencer_step;
            let a = ApuState { frame_sequencer_ticks: sat_inc(self.frame_sequencer_ticks), ..self };
            let b = if step % 2 == 0 { a.after_length_stage() } else { a };
            let c = if step == 2 || step == 6 { b.after_sweep_stage() } else { b };
            let d = if step == 7 { c.after_envelope_stage() } else { c };
            ApuState {
                frame_sequencer_step: ((step + 1) % 8) as u8,
                channel_on_mask: d.live_mask(),
                ..d
            }
        }
    }

    fn clock_length_stage(&mut self)
        requires
            old(self).wf(),
        ensures
            *final(self) == old(self).after_length_stage(),
            final(self).wf(),
    {
        reveal(ApuState::after_length_stage);
        self.length_tick_count = self.length_tick_count.saturating_add(1);
        self.square1.clock_length();
        self.square2.clock_length();
        self.wave.clock_length();
        self.noise.clock_length();
    }

    fn clock_sweep_stage(&mut self)
        requires
            old(self).wf(),
        ensures
            *final(self) == old(self).after_sweep_stage(),
            final(self).wf(),
    {
        reveal(ApuState::after_sweep_stage);
        self.sweep_tick_count = self.sweep_tick_count.saturating_add(1);
        self.square1.clock_sweep();
    }

    fn clock_envelope_stage(&mut self)
        requires
            old(self).wf(),
        ensures
            *final(self) == old(self).after_envelope_stage(),
            final(self).wf(),
    {
        reveal(ApuState::after_envelope_stage);
        self.envelope_tick_count = self.envelope_tick_count.saturating_add(1);
        self.square1.clock_envelope();
        self.square2.clock_envelope();
        self.noise.clock_envelope();
    }

    pub fn clock_frame_sequencer(&mut self)
        requires
            old(self).wf(),
        ensures
            *final(self) == old(self).after_frame_clock(),
            final(self).wf(),
    {
        reveal(ApuState::after_frame_clock);
        if !self.enabled {
            return;
        }
        self.frame_sequencer_ticks = self.frame_sequencer_ticks.saturating_add(1);
        let step = self.frame_sequencer_step;
        assert((step & 0x01) == 0 <==> step % 2 == 0) by {
            crate::bits::lemma_bits();
        }
        if (step & 0x01) == 0 {
            self.clock_length_stage();
        }
        if step == 2 || step == 6 {
            self.clock_sweep_stage();
        }
        if step == 7 {
            self.clock_envelope_stage();
        }
        let next: u8 = step + 1;
        assert(next & 0x07 == next % 8) by {
            crate::bits::lemma_bits();
        }
        self.frame_sequencer_step = next & 0x07;
        self.refresh_channel_on_mask();
    }

    /// True when the next frame-sequencer step clocks the length counters.
    pub fn length_clocks_on_next_frame_step(&self) -> (r: bool)
        ensures
            r == (self.frame_sequencer_step % 2 == 0),
    {
        let step = self.frame_sequencer_step;
        assert((step & 0x01) == 0 <==> step % 2 == 0) by {
            crate::bits::lemma_bits();
        }
        (self.frame_sequencer_step & 0x01) == 0
    }

    /// True when the next frame-sequencer step clocks the envelopes.
    pub fn envelope_clocks_on_next_frame_step(&self) -> (r: bool)
        ensures
            r == (self.frame_sequencer_step == 7),
    {
        self.frame_sequencer_step == 7
    }

    /// Power toggle: every channel and counter returns to its power-on value; only the
    /// stream-capture setting survives.
    pub fn reset_after_power_toggle(&mut self, enabled: bool)
        requires
            old(self).wf(),
        ensures
            *final(self) == (ApuState {
                enabled,
                capture_tcycle_stream: old(self).capture_tcycle_stream,
                ..ApuState::fresh()
            }),
            final(self).wf(),
    {
        self.enabled = enabled;
        self.channel_on_mask = 0;
        self.frame_sequencer_step = 0;
        self.frame_sequencer_ticks = 0;
        self.length_tick_count = 0;
        self.sweep_tick_count = 0;
        self.envelope_tick_count = 0;
        self.square1.reset(true);
        self.square2.reset(false);
        self.wave = WaveChannel::new();
        self.noise = NoiseChannel::new();
    }

    /// One t-cycle of the channel timers while powered (the wave channel fetching from
    /// wave RAM in `io`), then the status mask is refreshed; nothing runs while off.
    pub open spec fn after_tcycle(self, io: Seq<u8>) -> ApuState {
        if !self.enabled {
            self
        } else {
            let s1 = self.square1.after_tcycle();
            let s2 = self.square2.after_tcycle();
            let w = self.wave.after_tcycle(io);
            let n = self.noise.after_tcycle();
            ApuState {
                square1: s1,
                square2: s2,
                wave: w,
                noise: n,
                channel_on_mask: status_mask(s1.enabled, s2.enabled, w.enabled, n.enabled),
                ..self
            }
        }
    }

    pub fn step_tcycle(&mut self, io: &[u8; 0x80])
        requires
            old(self).wf(),
        ensures
            *final(self) == old(self).after_tcycle(io@),
            final(self).wf(),
    {
        if !self.enabled {
            return;
        }
        self.square1.step_tcycle();
        self.square2.step_tcycle();
        self.wave.step_tcycle(io);
        self.noise.step_tcycle();
        self.refresh_channel_on_mask();
    }

    /// Recomputes the NR52 status nibble from the channels' enable flags.
    pub fn refresh_channel_on_mask(&mut self)
        ensures
            *final(self) == (ApuState { channel_on_mask: old(self).live_mask(), ..*old(self) }),
    {
        let mut mask = 0u8;
        if self.square1.enabled {
            mask = mask + 1;
        }
        if self.square2.enabled {
            mask = mask + 2;
        }
        if self.wave.enabled {
            mask = mask + 4;
        }
        if self.noise.enabled {
            mask = mask + 8;
        }
        self.channel_on_mask = mask;
    }

    /// The state after `n` frame-sequencer clocks.
    pub open spec fn clocked(self, n: nat) -> ApuState
        decreases n,
    {
        if n == 0 {
            self
        } else {
            self.after_frame_clock().clocked((n - 1) as nat)
        }
    }
}

/// What one clock of a powered APU does to its step and counters.
proof fn lemma_frame_clock_counts(s: ApuState)
    requires
        s.enabled,
    ensures
        s.after_frame_clock().enabled,
        s.after_frame_clock().frame_sequencer_step == (s.frame_sequencer_step + 1) % 8,
        s.after_frame_clock().frame_sequencer_ticks == sat_inc(s.frame_sequencer_ticks),
        s.after_frame_clock().length_tick_count == if s.frame_sequencer_step % 2 == 0 {
            sat_inc(s.length_tick_count)
        } else {
            s.length_tick_count
        },
        s.after_frame_clock().sweep_tick_count == if s.frame_sequencer_step == 2
            || s.frame_sequencer_step == 6 {
            sat_inc(s.sweep_tick_count)
        } else {
            s.sweep_tick_count
        },
        s.after_frame_clock().envelope_tick_count == if s.frame_sequencer_step == 7 {
            sat_inc(s.envelope_tick_count)
        } else {
            s.envelope_tick_count
        },
{
    reveal(ApuState::after_frame_clock);
    reveal(ApuState::after_length_stage);
    reveal(ApuState::after_sweep_stage);
    reveal(ApuState::after_envelope_stage);
}

/// Eight frame-sequencer clocks of a powered APU are one full sequence: the step
/// returns to where it was, and the lengths are clocked four times, the sweep twice and
/// the envelopes once.
#[verifier::rlimit(50)]
pub proof fn lemma_frame_sequence_period(s: ApuState)
    requires
        s.wf(),
        s.enabled,
        s.frame_sequencer_ticks <= u64::MAX - 8,
        s.length_tick_count <= u64::MAX - 8,
        s.sweep_tick_count <= u64::MAX - 8,
        s.envelope_tick_count <= u64::MAX - 8,
    ensures
        s.clocked(8).enabled,
        s.clocked(8).frame_sequencer_step == s.frame_sequencer_step,
        s.clocked(8).frame_sequencer_ticks == s.frame_sequencer_ticks + 8,
        s.clocked(8).length_tick_count == s.length_tick_count + 4,
        s.clocked(8).sweep_tick_count == s.sweep_tick_count + 2,
        s.clocked(8).envelope_tick_count == s.envelope_tick_count + 1,
{
    let s1 = s.after_frame_clock();
    lemma_frame_clock_counts(s);
    let s2 = s1.after_frame_clock();
    lemma_frame_clock_counts(s1);
    let s3 = s2.after_frame_clock();
    lemma_frame_clock_counts(s2);
    let s4 = s3.after_frame_clock();
    lemma_frame_clock_counts(s3);
    let s5 = s4.after_frame_clock();
    lemma_frame_clock_counts(s4);
    let s6 = s5.after_frame_clock();
    lemma_frame_clock_counts(s5);
    let s7 = s6.after_frame_clock();
    lemma_frame_clock_counts(s6);
    let s8 = s7.after_frame_clock();
    lemma_frame_clock_counts(s7);
    let st = s.frame_sequencer_step;
    assert(s8.frame_sequencer_step == st);
    assert(s8.frame_sequencer_ticks == s.frame_sequencer_ticks + 8);
    assert(s8.length_tick_count == s.length_tick_count + 4);
    assert(s8.sweep_tick_count == s.sweep_tick_count + 2);
    assert(s8.envelope_tick_count == s.envelope_tick_count + 1);
    assert(s8.clocked(0) == s8);
    assert(s7.clocked(1) == s8);
    assert(s6.clocked(2) == s8);
    assert(s5.clocked(3) == s8);
    assert(s4.clocked(4) == s8);
    assert(s3.clocked(5) == s8);
    assert(s2.clocked(6) == s8);
    assert(s1.clocked(7) == s8);
    assert(s.clocked(8) == s8);
}

/// A powered-off APU ignores frame-sequencer clocks.
pub proof fn lemma_powered_off_sequencer_stands_still(s: ApuState, n: nat)
    requires
        !s.enabled,
    ensures
        s.clocked(n) == s,
    decreases n,
{
    reveal(ApuState::after_frame_clock);
    if n > 0 {
        lemma_powered_off_sequencer_stands_still(s, (n - 1) as nat);
    }
}

} // verus!
