//! The t-cycle scheduler: every component advances in a fixed order each t-cycle.
use vstd::prelude::*;
use crate::bus::Bus;
use crate::timer::TimerState;
use crate::ppu::next_line;

verus! {

/// The next value of a 16-bit counter.
pub open spec fn wrap_inc16(v: u16) -> u16 {
    if v == u16::MAX {
        0
    } else {
        (v + 1) as u16
    }
}

/// The next value of a 64-bit counter.
pub open spec fn wrap_inc64(v: u64) -> u64 {
    if v == u64::MAX {
        0
    } else {
        (v + 1) as u64
    }
}

/// `v` advanced by `n` modulo 2^16.
pub open spec fn wrap_add16(v: u16, n: int) -> u16 {
    ((v + n) % 0x10000) as u16
}

impl Bus {
    /// What a t-cycle leaves alone: the cartridge, work, video and high RAM, IE, the
    /// joypad and the model.
    pub open spec fn memory_kept(self, other: Bus) -> bool {
        &&& self.cartridge == other.cartridge
        &&& self.vram == other.vram
        &&& self.wram == other.wram
        &&& self.hram == other.hram
        &&& self.ie == other.ie
        &&& self.joypad == other.joypad
        &&& self.model == other.model
    }
}

impl Bus {
    /// The divider one t-cycle on.
    pub open spec fn after_divider_tick(self) -> Bus {
        Bus {
            timer: TimerState { div_counter: wrap_inc16(self.timer.div_counter), ..self.timer },
            ..self
        }
    }

    /// The fixed t-cycle order, with the PPU dot's result `ppu`, the DMA step's result
    /// `dma` and the serial step's result `serial` named: TIMA reload, PPU dot, DMA step,
    /// divider tick, frame sequencer edge, APU channel timers, serial clock, TIMA edge,
    /// and the TIMA write-block countdown, ending in `next`.
    #[verifier::opaque]
    pub open spec fn tick_order(self, ppu: Bus, dma: Bus, serial: Bus, next: Bus) -> bool {
        let reloaded = self.after_tima_reload_step();
        let old_div = dma.timer.div_counter;
        let new_div = wrap_inc16(old_div);
        let sequenced = dma.after_divider_tick().after_divider_apu_edge(old_div, new_div);
        let clocked = Bus { apu: sequenced.apu.after_tcycle(sequenced.io@), ..sequenced };
        &&& reloaded.ppu_dot(ppu)
        &&& ppu.dma_step(dma)
        &&& clocked.serial_step(serial, old_div, new_div)
        &&& next == serial.after_timer_edge(old_div, new_div).after_reload_block_step()
    }

    /// `next` is this bus one t-cycle later.
    pub open spec fn ticked_once(self, next: Bus) -> bool {
        exists|ppu: Bus, dma: Bus, serial: Bus| #[trigger] self.tick_order(ppu, dma, serial, next)
    }

    /// `next` is this bus `n` t-cycles later.
    pub open spec fn ticked(self, next: Bus, n: nat) -> bool
        decreases n,
    {
        if n == 0 {
            next == self
        } else {
            exists|mid: Bus| #[trigger] self.ticked_once(mid) && mid.ticked(next, (n - 1) as nat)
        }
    }
}

/// Running `n` t-cycles and then one more is running `n + 1`.
pub proof fn lemma_ticked_append(a: Bus, b: Bus, c: Bus, n: nat)
    requires
        a.ticked(b, n),
        b.ticked_once(c),
    ensures
        a.ticked(c, n + 1),
    decreases n,
{
    if n == 0 {
        assert(c.ticked(c, 0));
        assert(a.ticked_once(c) && c.ticked(c, 0));
    } else {
        let mid = choose|mid: Bus| #[trigger] a.ticked_once(mid) && mid.ticked(b, (n - 1) as nat);
        lemma_ticked_append(mid, b, c, (n - 1) as nat);
        assert(a.ticked_once(mid) && mid.ticked(c, n));
    }
}

/// With the LCD on and its enable delay over, a t-cycle moves the PPU one dot: the dot
/// counter goes up, or at the line's last dot goes to 0 with LY on the next line (and a
/// frame counted on entering line 144); the LCD stays on and the startup-line flag
/// clears when line 0 ends.
pub proof fn lemma_tick_moves_dot(a: Bus, b: Bus)
    requires
        a.ticked_once(b),
        a.lcd_on(),
        a.ppu.enable_delay == 0,
    ensures
        b.lcd_on(),
        b.ppu.enable_delay == 0,
        b.ppu.ly_counter == if a.line_ends() {
            0
        } else {
            a.ppu.ly_counter + 1
        },
        b.io@[0x44] == if a.line_ends() {
            next_line(a.io@[0x44])
        } else {
            a.io@[0x44]
        },
        b.ppu.startup_line == (a.ppu.startup_line && !(a.line_ends() && a.io@[0x44] == 0)),
        b.ppu.frame_counter == if a.line_ends() && next_line(a.io@[0x44]) == 144 {
            wrap_inc64(a.ppu.frame_counter)
        } else {
            a.ppu.frame_counter
        },
{
    broadcast use vstd::array::group_array_axioms;

    reveal(Bus::tick_order);
    let (ppu, dma, serial) = choose|ppu: Bus, dma: Bus, serial: Bus| #[trigger] a.tick_order(
        ppu,
        dma,
        serial,
        b,
    );
    let reloaded = a.after_tima_reload_step();
    assert(reloaded.ppu == a.ppu && reloaded.io@[0x40] == a.io@[0x40] && reloaded.io@[0x44]
        == a.io@[0x44]);
    assert(reloaded.line_ends() == a.line_ends());
    assert(ppu.io@[0x40] == reloaded.io@[0x40]);
    let byte = choose|byte: u8|
        ppu.raw_read_ok(ppu.dma_fetch_addr(), byte) && dma == ppu.after_dma_step(byte);
    assert(dma.ppu == ppu.ppu && dma.io == ppu.io);
    let old_div = dma.timer.div_counter;
    let new_div = wrap_inc16(old_div);
    let sequenced = dma.after_divider_tick().after_divider_apu_edge(old_div, new_div);
    let clocked = Bus { apu: sequenced.apu.after_tcycle(sequenced.io@), ..sequenced };
    assert(clocked.ppu == dma.ppu && clocked.io == dma.io);
    assert(serial.ppu == clocked.ppu && serial.io@[0x40] == clocked.io@[0x40]
        && serial.io@[0x44] == clocked.io@[0x44]);
    let edged = serial.after_timer_edge(old_div, new_div);
    assert(edged.ppu == serial.ppu && edged.io@[0x40] == serial.io@[0x40] && edged.io@[0x44]
        == serial.io@[0x44]);
}

/// `n + m` t-cycles are `n` t-cycles and then `m` more.
pub proof fn lemma_ticked_split(a: Bus, b: Bus, n: nat, m: nat)
    requires
        a.ticked(b, n + m),
    ensures
        exists|mid: Bus| #[trigger] a.ticked(mid, n) && mid.ticked(b, m),
    decreases n,
{
    if n == 0 {
        assert(a.ticked(a, 0) && a.ticked(b, m));
    } else {
        let first = choose|first: Bus| #[trigger] a.ticked_once(first) && first.ticked(
            b,
            (n + m - 1) as nat,
        );
        lemma_ticked_split(first, b, (n - 1) as nat, m);
        let mid = choose|mid: Bus| #[trigger] first.ticked(mid, (n - 1) as nat) && mid.ticked(b, m);
        assert(a.ticked_once(first) && first.ticked(mid, (n - 1) as nat));
        assert(a.ticked(mid, n));
    }
}

pub struct HardwareScheduler;

impl HardwareScheduler {
    /// Runs `cycles` t-cycles.
    pub fn tick(bus: &mut Bus, cycles: u8)
        requires
            old(bus).wf(),
        ensures
            final(bus).wf(),
            final(bus).timer.div_counter == wrap_add16(old(bus).timer.div_counter, cycles as int),
            final(bus).memory_kept(*old(bus)),
            old(bus).ticked(*final(bus), cycles as nat),
    {
        let mut i: u8 = 0;
        while i < cycles
            invariant
                i <= cycles,
                bus.wf(),
                bus.timer.div_counter == wrap_add16(old(bus).timer.div_counter, i as int),
                bus.memory_kept(*old(bus)),
                old(bus).ticked(*bus, i as nat),
            decreases cycles - i,
        {
            let ghost before = *bus;
            Self::tick_once(bus);
            proof {
                lemma_ticked_append(*old(bus), before, *bus, i as nat);
            }
            i = i + 1;
        }
    }

    /// One t-cycle, in DMG order: TIMA reload, PPU, OAM DMA, then the divider step and
    /// what its falling edges clock (frame sequencer, the APU channels, serial, TIMA),
    /// and last the TIMA write-block countdown.
    pub fn tick_once(bus: &mut Bus)
        requires
            old(bus).wf(),
        ensures
            final(bus).wf(),
            final(bus).timer.div_counter == wrap_inc16(old(bus).timer.div_counter),
            final(bus).memory_kept(*old(bus)),
            old(bus).ticked_once(*final(bus)),
    {
        bus.step_tima_reload();
        bus.step_ppu();
        let ghost ppu = *bus;
        bus.step_oam_dma();
        let ghost dma = *bus;
        let (old_div, new_div) = bus.step_timer_divider();
        bus.step_apu_frame_sequencer_from_divider(old_div, new_div);
        bus.step_apu_tcycle();
        bus.step_serial(old_div, new_div);
        let ghost serial = *bus;
        bus.step_timer_falling_edge(old_div, new_div);
        bus.step_tima_reload_block();
        assert(old(bus).tick_order(ppu, dma, serial, *bus)) by {
            reveal(Bus::tick_order);
        }
    }
}

impl Bus {
    pub fn tick(&mut self, cycles: u8)
        requires
            old(self).wf(),
        ensures
            final(self).wf(),
            final(self).timer.div_counter == wrap_add16(old(self).timer.div_counter, cycles as int),
            final(self).memory_kept(*old(self)),
            old(self).ticked(*final(self), cycles as nat),
    {
        HardwareScheduler::tick(self, cycles);
    }
}

} // verus!
