//! The divider and the TIMA timer: DIV is the high byte of a free-running 16-bit
//! counter, TIMA counts falling edges of the divider bit that TAC selects, and an
//! overflow reloads TMA four t-cycles later with a timer interrupt.
use vstd::prelude::*;
use crate::bus::Bus;

verus! {

pub const TIMA_RELOAD_DELAY: u8 = 4;

pub struct TimerState {
    pub div_counter: u16,
    pub tima_reload_delay: u8,
    pub tima_reload_block: u8,
}

impl TimerState {
    pub open spec fn wf(&self) -> bool {
        &&& self.tima_reload_delay <= TIMA_RELOAD_DELAY
        &&& self.tima_reload_block <= TIMA_RELOAD_DELAY
    }
}

/// The divider bit that TAC's clock select (bits 0..1) feeds to TIMA: 9, 3, 5 or 7
/// (4096, 262144, 65536 and 16384 Hz).
pub open spec fn tac_bit(tac: u8) -> u16 {
    let sel = tac % 4;
    if sel == 0 {
        9
    } else if sel == 1 {
        3
    } else if sel == 2 {
        5
    } else {
        7
    }
}

/// The timer's input signal: TAC enabled (bit 2) and the selected divider bit set.
pub open spec fn timer_input(tac: u8, div: u16) -> bool {
    (tac / 4) % 2 == 1 && ((div >> tac_bit(tac)) & 1) != 0
}

/// The TIMA period in t-cycles that TAC's clock select names: 1024, 16, 64 or 256
/// (4096, 262144, 65536 and 16384 Hz).
pub open spec fn tac_period(tac: u8) -> int {
    let sel = tac % 4;
    if sel == 0 {
        1024
    } else if sel == 1 {
        16
    } else if sel == 2 {
        64
    } else {
        256
    }
}

/// Law: TAC's clock select sets TIMA's rate. With the timer enabled, its input is high
/// exactly in the second half of each period of 1024, 16, 64 or 256 t-cycles (select 0,
/// 1, 2, 3), so it falls, and TIMA counts, exactly when the divider reaches a multiple
/// of that period; with the timer disabled the input stays low.
pub proof fn lemma_timer_rate(tac: u8, div: u16)
    ensures
        (tac / 4) % 2 == 0 ==> !timer_input(tac, div),
        (tac / 4) % 2 == 1 ==> (timer_input(tac, div) <==> (div as int) % tac_period(tac)
            >= tac_period(tac) / 2),
        (tac / 4) % 2 == 1 && div < 0xFFFF ==> (timer_input(tac, div) && !timer_input(
            tac,
            (div + 1) as u16,
        ) <==> (div as int + 1) % tac_period(tac) == 0),
{
    assert(forall|d: u16| #[trigger] ((d >> 9u16) & 1) != 0 <==> d % 1024 >= 512) by (bit_vector);
    assert(forall|d: u16| #[trigger] ((d >> 3u16) & 1) != 0 <==> d % 16 >= 8) by (bit_vector);
    assert(forall|d: u16| #[trigger] ((d >> 5u16) & 1) != 0 <==> d % 64 >= 32) by (bit_vector);
    assert(forall|d: u16| #[trigger] ((d >> 7u16) & 1) != 0 <==> d % 256 >= 128) by (bit_vector);
    if div < 0xFFFF {
        let e = (div + 1) as u16;
        assert(e == div + 1);
    }
}

/// The value DIV reads: the counter's high byte.
pub open spec fn div_value(div: u16) -> u8 {
    (div / 256) as u8
}

impl Bus {
    pub fn timer_input_high(&self) -> (r: bool)
        ensures
            r == timer_input(self.io@[0x07], self.timer.div_counter),
    {
        let tac = self.io[0x07];
        let div = self.timer.div_counter;
        assert((tac & 0x04) == 0 <==> (tac / 4) % 2 == 0) by {
            crate::bits::lemma_bits();
        }
        if (tac & 0x04) == 0 {
            return false;
        }
        assert(tac & 0x03 == tac % 4) by {
            crate::bits::lemma_bits();
        }
        let bit: u16 = match tac & 0x03 {
            0x00 => 9,
            0x01 => 3,
            0x02 => 5,
            _ => 7,
        };
        ((div >> bit) & 1) != 0
    }

    /// TIMA + 1; an overflow leaves 0 and starts the four-cycle reload. Nothing happens
    /// while a reload is pending.
    pub open spec fn after_tima_increment(self) -> Bus {
        if self.timer.tima_reload_delay != 0 {
            self
        } else if self.io@[0x05] == 0xFF {
            Bus {
                io: self.io_with(0x05, 0),
                timer: TimerState { tima_reload_delay: TIMA_RELOAD_DELAY, ..self.timer },
                ..self
            }
        } else {
            Bus { io: self.io_with(0x05, (self.io@[0x05] + 1) as u8), ..self }
        }
    }

    pub fn increment_tima(&mut self)
        requires
            old(self).wf(),
        ensures
            *final(self) == old(self).after_tima_increment(),
            final(self).wf(),
    {
        if self.timer.tima_reload_delay != 0 {
            return;
        }
        if self.io[0x05] == 0xFF {
            self.io[0x05] = 0x00;
            self.timer.tima_reload_delay = TIMA_RELOAD_DELAY;
        } else {
            self.io[0x05] = self.io[0x05] + 1;
        }
    }

    /// The pending reload counts down; on reaching zero TIMA takes TMA, the timer
    /// interrupt is requested and writes to TIMA are blocked for four t-cycles.
    pub open spec fn after_tima_reload_step(self) -> Bus {
        if self.timer.tima_reload_delay == 0 {
            self
        } else if self.timer.tima_reload_delay == 1 {
            Bus {
                io: vstd::array::spec_array_update(
                    self.io_with(0x05, self.io@[0x06]),
                    0x0F,
                    self.flags_with(2),
                ),
                timer: TimerState {
                    tima_reload_delay: 0,
                    tima_reload_block: TIMA_RELOAD_DELAY,
                    ..self.timer
                },
                ..self
            }
        } else {
            Bus {
                timer: TimerState {
                    tima_reload_delay: (self.timer.tima_reload_delay - 1) as u8,
                    ..self.timer
                },
                ..self
            }
        }
    }

    pub fn step_tima_reload(&mut self)
        requires
            old(self).wf(),
        ensures
            *final(self) == old(self).after_tima_reload_step(),
            final(self).wf(),
    {
        if self.timer.tima_reload_delay == 0 {
            return;
        }
        self.timer.tima_reload_delay -= 1;
        if self.timer.tima_reload_delay == 0 {
            self.io[0x05] = self.io[0x06];
            self.request_interrupt(2);
            self.timer.tima_reload_block = TIMA_RELOAD_DELAY;
        }
    }

    /// The TIMA write-block countdown one t-cycle on.
    pub open spec fn after_reload_block_step(self) -> Bus {
        Bus {
            timer: TimerState {
                tima_reload_block: if self.timer.tima_reload_block > 0 {
                    (self.timer.tima_reload_block - 1) as u8
                } else {
                    0
                },
                ..self.timer
            },
            ..self
        }
    }

    pub fn step_tima_reload_block(&mut self)
        requires
            old(self).wf(),
        ensures
            *final(self) == old(self).after_reload_block_step(),
            final(self).wf(),
    {
        if self.timer.tima_reload_block > 0 {
            self.timer.tima_reload_block -= 1;
        }
    }

    /// TIMA counts a falling edge of its input between two divider values.
    pub open spec fn after_timer_edge(self, old_div: u16, new_div: u16) -> Bus {
        let tac = self.io@[0x07];
        if timer_input(tac, old_div) && !timer_input(tac, new_div) {
            self.after_tima_increment()
        } else {
            self
        }
    }

    pub fn step_timer_falling_edge(&mut self, old_div: u16, new_div: u16)
        requires
            old(self).wf(),
        ensures
            *final(self) == old(self).after_timer_edge(old_div, new_div),
            final(self).wf(),
    {
        let tac = self.io[0x07];
        let old_high = timer_input_for(tac, old_div);
        let new_high = timer_input_for(tac, new_div);
        if old_high && !new_high {
            self.increment_tima();
        }
    }

    /// DIV advances by one t-cycle; returns the counter before and after.
    pub fn step_timer_divider(&mut self) -> (r: (u16, u16))
        requires
            old(self).wf(),
        ensures
            r.0 == old(self).timer.div_counter,
            r.1 == (if r.0 == u16::MAX { 0 } else { r.0 + 1 }),
            *final(self) == (Bus {
                timer: TimerState { div_counter: r.1, ..old(self).timer },
                ..*old(self)
            }),
            final(self).wf(),
    {
        let old_div = self.timer.div_counter;
        self.timer.div_counter = self.timer.div_counter.wrapping_add(1);
        (old_div, self.timer.div_counter)
    }

    pub fn read_div(&self) -> (r: u8)
        ensures
            r == div_value(self.timer.div_counter),
    {
        let d = self.timer.div_counter;
        assert((d >> 8) as u8 == (d / 256) as u8) by {
            crate::bits::lemma_bits();
        }
        (self.timer.div_counter >> 8) as u8
    }

    /// TAC write: a change of the selected input from high to low counts as a TIMA edge.
    pub open spec fn after_tac_write(self, value: u8) -> Bus {
        let written = Bus { io: self.io_with(0x07, value), ..self };
        if timer_input(self.io@[0x07], self.timer.div_counter) && !timer_input(
            value,
            self.timer.div_counter,
        ) {
            written.after_tima_increment()
        } else {
            written
        }
    }

    pub fn write_tac(&mut self, value: u8)
        requires
            old(self).wf(),
        ensures
            *final(self) == old(self).after_tac_write(value),
            final(self).wf(),
    {
        let old_input = self.timer_input_high();
        self.io[0x07] = value;
        let new_input = self.timer_input_high();
        if old_input && !new_input {
            self.increment_tima();
        }
    }

    /// TIMA write: ignored in the four t-cycles after a reload; otherwise it sets TIMA
    /// and cancels a pending reload.
    pub open spec fn after_tima_write(self, value: u8) -> Bus {
        if self.timer.tima_reload_block > 0 {
            self
        } else {
            Bus {
                io: self.io_with(0x05, value),
                timer: TimerState { tima_reload_delay: 0, ..self.timer },
                ..self
            }
        }
    }

    pub fn write_tima(&mut self, value: u8)
        requires
            old(self).wf(),
        ensures
            *final(self) == old(self).after_tima_write(value),
            final(self).wf(),
    {
        if self.timer.tima_reload_block > 0 {
            return;
        }
        self.io[0x05] = value;
        self.timer.tima_reload_delay = 0;
    }

    /// TMA write; in the t-cycles right after a reload TIMA takes the new value too.
    pub open spec fn after_tma_write(self, value: u8) -> Bus {
        if self.timer.tima_reload_block > 0 {
            Bus {
                io: vstd::array::spec_array_update(self.io_with(0x06, value), 0x05, value),
                ..self
            }
        } else {
            Bus { io: self.io_with(0x06, value), ..self }
        }
    }

    pub fn write_tma(&mut self, value: u8)
        requires
            old(self).wf(),
        ensures
            *final(self) == old(self).after_tma_write(value),
            final(self).wf(),
    {
        self.io[0x06] = value;
        if self.timer.tima_reload_block > 0 {
            self.io[0x05] = value;
        }
    }
}

/// The timer input for a given TAC and divider value.
pub fn timer_input_for(tac: u8, div: u16) -> (r: bool)
    ensures
        r == timer_input(tac, div),
{
    assert((tac & 0x04) == 0 <==> (tac / 4) % 2 == 0) by {
            crate::bits::lemma_bits();
        }
    if (tac & 0x04) == 0 {
        return false;
    }
    assert(tac & 0x03 == tac % 4) by {
            crate::bits::lemma_bits();
        }
    let bit: u16 = match tac & 0x03 {
        0x00 => 9,
        0x01 => 3,
        0x02 => 5,
        _ => 7,
    };
    ((div >> bit) & 1) != 0
}

impl Bus {
    /// The divider cleared, and the frame sequencer clocked if that makes its divider bit
    /// fall.
    pub open spec fn after_div_reset(self) -> Bus {
        Bus { timer: TimerState { div_counter: 0, ..self.timer }, ..self }.after_divider_apu_edge(
            self.timer.div_counter,
            0,
        )
    }

    /// `next` is this bus after a DIV write: the divider cleared and the frame sequencer
    /// clocked if its divider bit falls, then the serial clock and TIMA seeing the same
    /// divider step.
    pub open spec fn div_written(self, next: Bus) -> bool {
        exists|serial: Bus|
            #[trigger] self.after_div_reset().serial_step(serial, self.timer.div_counter, 0)
                && next == serial.after_timer_edge(self.timer.div_counter, 0)
    }

    /// DIV write: the whole divider restarts from 0, and every consumer of a divider
    /// bit that falls on the way (frame sequencer, serial clock, TIMA) sees the edge.
    pub fn write_div(&mut self, value: u8)
        requires
            old(self).wf(),
        ensures
            final(self).wf(),
            final(self).timer.div_counter == 0,
            old(self).div_written(*final(self)),
            exists|serial: Bus|
                #[trigger] old(self).after_div_reset().serial_step(
                    serial,
                    old(self).timer.div_counter,
                    0,
                ) && *final(self) == serial.after_timer_edge(old(self).timer.div_counter, 0),
            final(self).apu == old(self).after_divider_apu_edge(old(self).timer.div_counter, 0).apu,
            !old(self).serial_shifts(old(self).timer.div_counter, 0) ==> final(self).serial == old(self).serial,
            !old(self).serial_shifts(old(self).timer.div_counter, 0) ==> final(self).io@
                == old(self).after_timer_edge(old(self).timer.div_counter, 0).io@,
            old(self).serial_shifts(old(self).timer.div_counter, 0) ==> {
                &&& final(self).serial.bits_remaining == old(self).serial.bits_remaining - 1
                &&& final(self).io@[0x01] == (old(self).io@[0x01] as int * 2) % 256 + 1
            },
            final(self).io@[0x05] == old(self).after_timer_edge(old(self).timer.div_counter, 0).io@[0x05],
            final(self).timer.tima_reload_delay == old(self).after_timer_edge(old(self).timer.div_counter, 0).timer.tima_reload_delay,
            *final(self) == (Bus {
                io: final(self).io,
                timer: final(self).timer,
                serial: final(self).serial,
                apu: final(self).apu,
                ..*old(self)
            }),
    {
        let old_div = self.timer.div_counter;
        self.timer.div_counter = 0;
        self.step_apu_frame_sequencer_from_divider(old_div, 0);
        self.step_serial(old_div, 0);
        let ghost serial = *self;
        self.step_timer_falling_edge(old_div, 0);
        assert(old(self).after_div_reset().serial_step(serial, old_div, 0));
    }
}

} // verus!
