//! The CPU's view of the 64 KiB address space: which region an address falls in, what
//! a read returns, and what a write changes.
use vstd::prelude::*;
use crate::bus::Bus;
use crate::io_map::{io_unused_bits_mask, is_unmapped_io, unmapped_io, unused_bits};

verus! {

#[derive(Clone, Copy, PartialEq, Eq, Structural)]
pub enum MainRegion {
    Rom,
    Vram,
    Eram,
    Wram,
    Echo,
    Oam,
    NotUsable,
    Io,
    Hram,
    Ie,
}

pub open spec fn region_of(addr: u16) -> MainRegion {
    if addr <= 0x7FFF {
        MainRegion::Rom
    } else if addr <= 0x9FFF {
        MainRegion::Vram
    } else if addr <= 0xBFFF {
        MainRegion::Eram
    } else if addr <= 0xDFFF {
        MainRegion::Wram
    } else if addr <= 0xFDFF {
        MainRegion::Echo
    } else if addr <= 0xFE9F {
        MainRegion::Oam
    } else if addr <= 0xFEFF {
        MainRegion::NotUsable
    } else if addr <= 0xFF7F {
        MainRegion::Io
    } else if addr <= 0xFFFE {
        MainRegion::Hram
    } else {
        MainRegion::Ie
    }
}

pub fn main_region(addr: u16) -> (r: MainRegion)
    ensures
        r == region_of(addr),
{
    if addr <= 0x7FFF {
        MainRegion::Rom
    } else if addr <= 0x9FFF {
        MainRegion::Vram
    } else if addr <= 0xBFFF {
        MainRegion::Eram
    } else if addr <= 0xDFFF {
        MainRegion::Wram
    } else if addr <= 0xFDFF {
        MainRegion::Echo
    } else if addr <= 0xFE9F {
        MainRegion::Oam
    } else if addr <= 0xFEFF {
        MainRegion::NotUsable
    } else if addr <= 0xFF7F {
        MainRegion::Io
    } else if addr <= 0xFFFE {
        MainRegion::Hram
    } else {
        MainRegion::Ie
    }
}

impl Bus {
    /// The value a mapped I/O register reads before its unused bits are added.
    pub open spec fn io_base_value(self, addr: u16) -> u8 {
        if addr == 0xFF00 {
            self.p1_value()
        } else if addr == 0xFF04 {
            crate::timer::div_value(self.timer.div_counter)
        } else if addr == 0xFF41 {
            self.stat_read()
        } else if addr == 0xFF26 {
            self.nr52_value()
        } else {
            self.io@[addr - 0xFF00]
        }
    }

    /// What an I/O read returns: 0xFF for a missing register, else its value with the
    /// unused bits set.
    pub open spec fn io_read(self, addr: u16) -> u8 {
        if unmapped_io(addr) {
            0xFF
        } else {
            self.io_base_value(addr) | unused_bits(addr)
        }
    }

    pub fn read_io_register(&self, addr: u16) -> (r: u8)
        requires
            0xFF00 <= addr <= 0xFF7F,
        ensures
            r == self.io_read(addr),
    {
        if is_unmapped_io(addr) {
            return 0xFF;
        }
        let value = match addr {
            0xFF00 => self.read_p1(),
            0xFF04 => self.read_div(),
            0xFF41 => self.stat_read_value(),
            0xFF26 => self.read_nr52(),
            _ => self.io[(addr - 0xFF00) as usize],
        };
        value | io_unused_bits_mask(addr)
    }

    /// `b` is a value that reading `addr` with no PPU/DMA blocking can return: the
    /// external RAM window goes to the cartridge, whose RTC registers depend on the time
    /// it reads.
    pub open spec fn raw_read_ok(self, addr: u16, b: u8) -> bool {
        match region_of(addr) {
            MainRegion::Rom => b == self.cartridge.rom_byte(addr),
            MainRegion::Vram => b == self.vram@[addr - 0x8000],
            MainRegion::Eram => exists|now: u64|
                self.cartridge.may_read_time(now) && b == self.cartridge.ram_byte(addr, now),
            MainRegion::Wram => b == self.wram@[addr - 0xC000],
            MainRegion::Echo => b == self.wram@[addr - 0xE000],
            MainRegion::Oam => b == self.oam@[addr - 0xFE00],
            MainRegion::NotUsable => b == 0xFF,
            MainRegion::Io => b == self.io_read(addr),
            MainRegion::Hram => b == self.hram@[addr - 0xFF80],
            MainRegion::Ie => b == self.ie,
        }
    }

    pub proof fn lemma_raw_read_possible(self, addr: u16)
        requires
            self.wf(),
        ensures
            exists|b: u8| self.raw_read_ok(addr, b),
    {
        if region_of(addr) == MainRegion::Eram {
            let now = self.cartridge.a_readable_time();
            assert(self.cartridge.may_read_time(now));
            assert(self.raw_read_ok(addr, self.cartridge.ram_byte(addr, now)));
        } else if region_of(addr) == MainRegion::Rom {
            assert(self.raw_read_ok(addr, self.cartridge.rom_byte(addr)));
        } else if region_of(addr) == MainRegion::Vram {
            assert(self.raw_read_ok(addr, self.vram@[addr - 0x8000]));
        } else if region_of(addr) == MainRegion::Wram {
            assert(self.raw_read_ok(addr, self.wram@[addr - 0xC000]));
        } else if region_of(addr) == MainRegion::Echo {
            assert(self.raw_read_ok(addr, self.wram@[addr - 0xE000]));
        } else if region_of(addr) == MainRegion::Oam {
            assert(self.raw_read_ok(addr, self.oam@[addr - 0xFE00]));
        } else if region_of(addr) == MainRegion::NotUsable {
            assert(self.raw_read_ok(addr, 0xFF));
        } else if region_of(addr) == MainRegion::Io {
            assert(self.raw_read_ok(addr, self.io_read(addr)));
        } else if region_of(addr) == MainRegion::Hram {
            assert(self.raw_read_ok(addr, self.hram@[addr - 0xFF80]));
        } else {
            assert(self.raw_read_ok(addr, self.ie));
        }
    }

    /// A read that ignores PPU and DMA blocking.
    pub fn read_byte_raw(&self, addr: u16) -> (r: u8)
        requires
            self.wf(),
        ensures
            self.raw_read_ok(addr, r),
    {
        match main_region(addr) {
            MainRegion::Rom => self.cartridge.read_rom_byte(addr),
            MainRegion::Vram => self.vram[(addr - 0x8000) as usize],
            MainRegion::Eram => self.cartridge.read_ram_byte(addr),
            MainRegion::Wram => self.wram[(addr - 0xC000) as usize],
            MainRegion::Echo => self.wram[(addr - 0xE000) as usize],
            MainRegion::Oam => self.oam[(addr - 0xFE00) as usize],
            MainRegion::NotUsable => 0xFF,
            MainRegion::Io => self.read_io_register(addr),
            MainRegion::Hram => self.hram[(addr - 0xFF80) as usize],
            MainRegion::Ie => self.ie,
        }
    }

    /// The CPU reads 0xFF from OAM and VRAM while the PPU or DMA holds them.
    pub open spec fn read_blocked(self, addr: u16) -> bool {
        (region_of(addr) == MainRegion::Oam && self.oam_read_blocked()) || (region_of(addr)
            == MainRegion::Vram && self.vram_read_blocked())
    }

    pub fn blocked_read_value(&self, addr: u16) -> (r: Option<u8>)
        ensures
            r == if self.read_blocked(addr) {
                Some(0xFFu8)
            } else {
                None::<u8>
            },
    {
        let region = main_region(addr);
        if region == MainRegion::Oam && self.ppu_blocks_oam_read() {
            return Some(0xFF);
        }
        if region == MainRegion::Vram && self.ppu_blocks_vram_read() {
            return Some(0xFF);
        }
        None
    }

    /// A CPU read.
    pub fn read_byte(&self, addr: u16) -> (r: u8)
        requires
            self.wf(),
        ensures
            self.read_blocked(addr) ==> r == 0xFF,
            !self.read_blocked(addr) ==> self.raw_read_ok(addr, r),
    {
        if let Some(value) = self.blocked_read_value(addr) {
            return value;
        }
        self.read_byte_raw(addr)
    }
}

/// `addr` is a plain memory cell: VRAM, work RAM or its echo, OAM, HRAM or IE.
pub open spec fn is_plain_ram(addr: u16) -> bool {
    let r = region_of(addr);
    r == MainRegion::Vram || r == MainRegion::Wram || r == MainRegion::Echo || r
        == MainRegion::Oam || r == MainRegion::Hram || r == MainRegion::Ie
}

/// The storage cell behind a plain memory address, as (memory, index); work RAM and echo
/// RAM share their cells.
pub open spec fn ram_cell(addr: u16) -> (int, int) {
    match region_of(addr) {
        MainRegion::Vram => (0, addr - 0x8000),
        MainRegion::Wram => (1, addr - 0xC000),
        MainRegion::Echo => (1, addr - 0xE000),
        MainRegion::Oam => (2, addr - 0xFE00),
        MainRegion::Hram => (3, addr - 0xFF80),
        _ => (4, 0),
    }
}

impl Bus {
    /// The bus after `value` is stored at a plain memory address.
    pub open spec fn after_ram_write(self, addr: u16, value: u8) -> Bus {
        match region_of(addr) {
            MainRegion::Vram => Bus {
                vram: vstd::array::spec_array_update(self.vram, addr - 0x8000, value),
                ..self
            },
            MainRegion::Wram => Bus {
                wram: vstd::array::spec_array_update(self.wram, addr - 0xC000, value),
                ..self
            },
            MainRegion::Echo => Bus {
                wram: vstd::array::spec_array_update(self.wram, addr - 0xE000, value),
                ..self
            },
            MainRegion::Oam => Bus {
                oam: vstd::array::spec_array_update(self.oam, addr - 0xFE00, value),
                ..self
            },
            MainRegion::Hram => Bus {
                hram: vstd::array::spec_array_update(self.hram, addr - 0xFF80, value),
                ..self
            },
            MainRegion::Ie => Bus { ie: value, ..self },
            _ => self,
        }
    }

    /// A CPU write. OAM and VRAM writes are dropped while the PPU or DMA holds them;
    /// ROM addresses go to the cartridge's bank registers, the external RAM window to the
    /// cartridge, echo RAM to work RAM, the I/O page to its registers.
    #[verifier::spinoff_prover]
    pub fn write_byte(&mut self, addr: u16, value: u8)
        requires
            old(self).wf(),
        ensures
            final(self).wf(),
            region_of(addr) == MainRegion::Rom ==> {
                &&& *final(self) == (Bus { cartridge: final(self).cartridge, ..*old(self) })
                &&& final(self).cartridge.regs == crate::cartridge::regs_after_control_write(
                    old(self).cartridge.info,
                    old(self).cartridge.regs,
                    addr,
                    value,
                )
                &&& final(self).cartridge.same_except_regs_rtc(&old(self).cartridge)
            },
            region_of(addr) == MainRegion::Vram ==> *final(self) == if old(self).vram_write_blocked() {
                *old(self)
            } else {
                old(self).after_ram_write(addr, value)
            },
            region_of(addr) == MainRegion::Eram ==> {
                &&& *final(self) == (Bus { cartridge: final(self).cartridge, ..*old(self) })
                &&& final(self).cartridge.ram@ == old(self).cartridge.ram_after_write(addr, value)
                &&& final(self).cartridge.same_except_ram_rtc(&old(self).cartridge)
            },
            region_of(addr) == MainRegion::Wram || region_of(addr) == MainRegion::Echo
                || region_of(addr) == MainRegion::Hram || region_of(addr) == MainRegion::Ie
                ==> *final(self) == old(self).after_ram_write(addr, value),
            region_of(addr) == MainRegion::Oam ==> *final(self) == if old(self).oam_write_blocked() {
                *old(self)
            } else {
                old(self).after_ram_write(addr, value)
            },
            region_of(addr) == MainRegion::NotUsable ==> *final(self) == *old(self),
            region_of(addr) == MainRegion::Io && addr != 0xFF04 ==> *final(self) == old(
                self,
            ).after_io_write(addr, value),
            region_of(addr) == MainRegion::Io && addr == 0xFF04 ==> final(self).timer.div_counter
                == 0,
            region_of(addr) == MainRegion::Io && addr == 0xFF04 ==> old(self).div_written(
                *final(self),
            ),
            region_of(addr) == MainRegion::Io && addr == 0xFF04 ==> final(self).apu == old(
                self,
            ).after_divider_apu_edge(old(self).timer.div_counter, 0).apu,
    {
        let region = main_region(addr);
        if region == MainRegion::Oam && self.ppu_blocks_oam_write() {
            return;
        }
        if region == MainRegion::Vram && self.ppu_blocks_vram_write() {
            return;
        }
        match region {
            MainRegion::Rom => self.cartridge.write_rom_control(addr, value),
            MainRegion::Vram => self.vram[(addr - 0x8000) as usize] = value,
            MainRegion::Eram => self.cartridge.write_ram_byte(addr, value),
            MainRegion::Wram => self.wram[(addr - 0xC000) as usize] = value,
            MainRegion::Echo => self.wram[(addr - 0xE000) as usize] = value,
            MainRegion::Oam => self.oam[(addr - 0xFE00) as usize] = value,
            MainRegion::NotUsable => {},
            MainRegion::Io => self.write_io_register(addr, value),
            MainRegion::Hram => self.hram[(addr - 0xFF80) as usize] = value,
            MainRegion::Ie => self.ie = value,
        }
    }
}

} // verus!
