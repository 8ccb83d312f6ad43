//! Writes to the I/O page, routed to the register that owns the address.
use vstd::prelude::*;
use crate::bus::Bus;
use crate::io_map::{is_unmapped_io, unmapped_io};

verus! {

impl Bus {
    /// A write to I/O register `addr` other than DIV: missing registers ignore it, the
    /// rest react as their owner specifies, plain registers just store it.
    #[verifier::opaque]
    pub open spec fn after_io_write(self, addr: u16, value: u8) -> Bus {
        if unmapped_io(addr) {
            self
        } else if addr == 0xFF00 {
            self.after_p1_write(value)
        } else if addr == 0xFF0F {
            Bus { io: self.io_with(0x0F, value & 0x1F), ..self }
        } else if addr == 0xFF40 {
            self.after_lcdc_write(value)
        } else if addr == 0xFF41 {
            self.after_stat_write(value)
        } else if addr == 0xFF24 {
            self.after_apu_control_write(0x24, value)
        } else if addr == 0xFF25 {
            self.after_apu_control_write(0x25, value)
        } else if addr == 0xFF26 {
            self.after_nr52_write(value)
        } else if 0xFF10 <= addr <= 0xFF3F {
            self.after_apu_register_write(addr, value)
        } else if addr == 0xFF46 {
            self.after_dma_write(value)
        } else if addr == 0xFF02 {
            self.after_sc_write(value)
        } else if addr == 0xFF07 {
            self.after_tac_write(value)
        } else if addr == 0xFF44 {
            self.after_ly_write()
        } else if addr == 0xFF45 {
            self.after_lyc_write(value)
        } else if addr == 0xFF05 {
            self.after_tima_write(value)
        } else if addr == 0xFF06 {
            self.after_tma_write(value)
        } else {
            Bus { io: self.io_with(addr - 0xFF00, value), ..self }
        }
    }

    pub fn write_io_register(&mut self, addr: u16, value: u8)
        requires
            old(self).wf(),
            0xFF00 <= addr <= 0xFF7F,
        ensures
            final(self).wf(),
            addr != 0xFF04 ==> *final(self) == old(self).after_io_write(addr, value),
            addr == 0xFF04 ==> final(self).timer.div_counter == 0 && final(self).apu == old(
                self,
            ).after_divider_apu_edge(old(self).timer.div_counter, 0).apu,
            addr == 0xFF04 ==> old(self).div_written(*final(self)),
    {
        reveal(Bus::after_io_write);
        if is_unmapped_io(addr) {
            return;
        }
        match addr {
            0xFF00 => self.write_p1(value),
            0xFF0F => self.write_if(value),
            0xFF40 => self.write_lcdc(value),
            0xFF41 => self.write_stat(value),
            0xFF24 => self.write_nr50(value),
            0xFF25 => self.write_nr51(value),
            0xFF26 => self.write_nr52(value),
            0xFF04 => self.write_div(value),
            0xFF46 => self.write_dma(value),
            0xFF02 => self.write_sc(value),
            0xFF07 => self.write_tac(value),
            0xFF44 => self.write_ly(value),
            0xFF45 => self.write_lyc(value),
            0xFF05 => self.write_tima(value),
            0xFF06 => self.write_tma(value),
            _ => {
                if 0xFF10 <= addr && addr <= 0xFF3F {
                    self.write_apu_register(addr, value);
                } else {
                    self.io[(addr - 0xFF00) as usize] = value;
                }
            },
        }
    }
}

} // verus!
