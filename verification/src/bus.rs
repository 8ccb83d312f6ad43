//! The DMG memory bus: the cartridge, video and work RAM, OAM, the I/O page, high RAM
//! and the interrupt registers, with the timer, serial port, OAM DMA, joypad, PPU and
//! APU that live behind the I/O page.
use vstd::prelude::*;
use crate::apu::ApuState;
use crate::cartridge::Cartridge;
use crate::dma::DmaState;
use crate::hardware::HardwareModel;
use crate::joypad::JoypadState;
use crate::ppu::PpuState;
use crate::serial::SerialState;
use crate::timer::TimerState;

verus! {

pub const LCD_WIDTH: usize = 160;
pub const LCD_HEIGHT: usize = 144;
pub const LCD_FRAME_PIXELS: usize = 23040;

/// Interrupt request bits in IF and IE.
pub const INT_VBLANK: u8 = 0;
pub const INT_STAT: u8 = 1;
pub const INT_TIMER: u8 = 2;
pub const INT_SERIAL: u8 = 3;
pub const INT_JOYPAD: u8 = 4;

pub struct Bus {
    pub cartridge: Cartridge,
    pub model: HardwareModel,
    pub vram: [u8; 0x2000],
    pub wram: [u8; 0x2000],
    pub oam: [u8; 0xA0],
    pub io: [u8; 0x80],
    pub hram: [u8; 0x7F],
    pub ie: u8,
    pub timer: TimerState,
    pub ppu: PpuState,
    pub dma: DmaState,
    pub serial: SerialState,
    pub joypad: JoypadState,
    pub apu: ApuState,
    pub framebuffer: [u8; 23040],
}

/// IF with one more request bit set; IF keeps only its five interrupt bits.
pub open spec fn flags_with_bit(flags: u8, bit: u8) -> u8 {
    ((flags & 0x1F) | (1u8 << bit)) & 0x1F
}

impl Bus {
    /// The bus invariant: each component's own invariant, plus the FIFO's fetch position
    /// bounded by the dot within the line (and at 0 outside the visible lines).
    pub open spec fn wf(&self) -> bool {
        &&& self.wf_core()
        &&& self.ppu.mode3_fifo.fetch_screen_x <= 8 * self.ppu.ly_counter
        &&& self.io@[0x44] >= 144 ==> self.ppu.mode3_fifo.fetch_screen_x <= 0
    }

    pub open spec fn wf_core(&self) -> bool {
        &&& self.cartridge.wf()
        &&& self.timer.wf()
        &&& self.ppu.wf()
        &&& self.dma.wf()
        &&& self.serial.wf()
        &&& self.apu.wf()
        &&& self.io@[0x44] <= 153
    }

    /// The I/O page with register `i` replaced.
    pub open spec fn io_with(self, i: int, v: u8) -> [u8; 0x80] {
        vstd::array::spec_array_update(self.io, i, v)
    }

    /// IF after requesting interrupt `bit`.
    pub open spec fn flags_with(self, bit: u8) -> u8 {
        flags_with_bit(self.io@[0x0F], bit)
    }

    /// The interrupt requests (IF bits 0..4).
    pub open spec fn flags(self) -> u8 {
        self.io@[0x0F] & 0x1F
    }

    pub fn interrupt_flags(&self) -> (r: u8)
        ensures
            r == self.flags(),
    {
        self.io[0x0F] & 0x1F
    }

    pub fn set_interrupt_flags(&mut self, value: u8)
        requires
            old(self).wf(),
        ensures
            *final(self) == (Bus { io: old(self).io_with(0x0F, value & 0x1F), ..*old(self) }),
            final(self).wf(),
    {
        self.io[0x0F] = value & 0x1F;
    }

    /// IF write from the CPU.
    pub fn write_if(&mut self, value: u8)
        requires
            old(self).wf(),
        ensures
            *final(self) == (Bus { io: old(self).io_with(0x0F, value & 0x1F), ..*old(self) }),
            final(self).wf(),
    {
        self.set_interrupt_flags(value);
    }

    /// Sets one interrupt request bit (0 VBlank, 1 STAT, 2 timer, 3 serial, 4 joypad).
    pub fn request_interrupt(&mut self, bit: u8)
        requires
            old(self).wf(),
            bit < 5,
        ensures
            *final(self) == (Bus { io: old(self).io_with(0x0F, old(self).flags_with(bit)), ..*old(self) }),
            final(self).wf(),
    {
        let flags = self.interrupt_flags() | (1u8 << bit);
        self.set_interrupt_flags(flags);
        proof {
            let f = old(self).io@[0x0F];
            assert(((f & 0x1F) | (1u8 << bit)) & 0x1F == flags_with_bit(f, bit)) by {
            crate::bits::lemma_bits();
        }
        }
    }
}

} // verus!
