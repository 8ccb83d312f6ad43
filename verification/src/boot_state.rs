//! The machine state the boot ROM hands over to the cartridge: registers, divider
//! phase and LCD position for each hardware model.
use vstd::prelude::*;
use crate::apu::ApuState;
use crate::bus::Bus;
use crate::cartridge::Cartridge;
use crate::dma::DmaState;
use crate::hardware::HardwareModel;
use crate::joypad::JoypadState;
use crate::ppu::PpuState;
use crate::serial::SerialState;
use crate::timer::TimerState;

verus! {

/// The number of set bits of `b`.
pub open spec fn ones(b: u8) -> int
    decreases b,
{
    if b == 0 {
        0
    } else {
        b % 2 + ones(b / 2)
    }
}

proof fn lemma_ones_bound(b: u8)
    ensures
        0 <= ones(b) <= b,
    decreases b,
{
    if b > 0 {
        lemma_ones_bound(b / 2);
    }
}

/// The divider counter at hand-over: 0x1830 on the first DMG revision, 0xABCC on the
/// other DMG models; on the Super Game Boy models the boot ROM sends the cartridge
/// header to the SNES, and each set bit of the global checksum (`checksum_hi`,
/// `checksum_lo`) shortens that transfer by one m-cycle, from 0xD874.
pub open spec fn boot_div(model: HardwareModel, checksum_hi: u8, checksum_lo: u8) -> u16 {
    if model == HardwareModel::Dmg0 {
        0x1830
    } else if model == HardwareModel::Sgb || model == HardwareModel::Sgb2 {
        (0xD874 - 4 * (ones(checksum_hi) + ones(checksum_lo))) as u16
    } else {
        0xABCC
    }
}

/// The number of set bits of a byte.
fn count_ones(b: u8) -> (r: u16)
    ensures
        r == ones(b),
{
    let mut x = b;
    let mut count: u16 = 0;
    proof {
        lemma_ones_bound(b);
    }
    while x > 0
        invariant
            count + ones(x) == ones(b),
            ones(b) <= 255,
        decreases x,
    {
        proof {
            lemma_ones_bound(x / 2);
        }
        count = count + (x % 2) as u16;
        x = x / 2;
    }
    count
}

/// The divider at hand-over for `model` with `cartridge` inserted.
fn boot_div_for(model: HardwareModel, cartridge: &Cartridge) -> (r: u16)
    requires
        cartridge.wf(),
    ensures
        r == boot_div(model, cartridge.rom@[0x14E], cartridge.rom@[0x14F]),
{
    match model {
        HardwareModel::Dmg0 => 0x1830,
        HardwareModel::Sgb | HardwareModel::Sgb2 => {
            let hi = count_ones(cartridge.rom[0x14E]);
            let lo = count_ones(cartridge.rom[0x14F]);
            proof {
                lemma_ones_bound(cartridge.rom@[0x14E]);
                lemma_ones_bound(cartridge.rom@[0x14F]);
            }
            0xD874 - 4 * (hi + lo)
        },
        _ => 0xABCC,
    }
}

/// LY at hand-over: line 145 on the first DMG revision, else 0.
pub open spec fn boot_ly(model: HardwareModel) -> u8 {
    if model == HardwareModel::Dmg0 {
        0x91
    } else {
        0
    }
}

/// The dot within that line.
pub open spec fn boot_line_dot(model: HardwareModel) -> u16 {
    if model == HardwareModel::Dmg0 {
        96
    } else {
        0
    }
}

/// The I/O page at hand-over (the stored values; reads add the unused bits).
pub open spec fn boot_io_value(model: HardwareModel, i: int) -> u8 {
    if i == 0x0F {
        0x01
    } else if i == 0x10 {
        0x80
    } else if i == 0x11 {
        0xBF
    } else if i == 0x12 {
        0xF3
    } else if i == 0x13 {
        0xFF
    } else if i == 0x14 {
        0xBF
    } else if i == 0x16 {
        0x3F
    } else if i == 0x18 {
        0xFF
    } else if i == 0x19 {
        0xBF
    } else if i == 0x1A {
        0x7F
    } else if i == 0x1B {
        0xFF
    } else if i == 0x1C {
        0x9F
    } else if i == 0x1D {
        0xFF
    } else if i == 0x1E {
        0xBF
    } else if i == 0x20 {
        0xFF
    } else if i == 0x23 {
        0xBF
    } else if i == 0x24 {
        0x77
    } else if i == 0x25 {
        0xF3
    } else if i == 0x26 {
        0xF1
    } else if i == 0x40 {
        0x91
    } else if i == 0x41 {
        if model == HardwareModel::Dmg0 {
            0x81
        } else {
            0x85
        }
    } else if i == 0x44 {
        boot_ly(model)
    } else if i == 0x46 {
        0xFF
    } else if i == 0x47 {
        0xFC
    } else if i == 0x48 || i == 0x49 {
        0xFF
    } else {
        0x00
    }
}

pub fn boot_io_registers(model: HardwareModel) -> (r: [u8; 0x80])
    ensures
        forall|i: int| 0 <= i < 0x80 ==> #[trigger] r@[i] == boot_io_value(model, i),
{
    let mut io = [0u8; 0x80];
    io[0x0F] = 0x01;
    io[0x10] = 0x80;
    io[0x11] = 0xBF;
    io[0x12] = 0xF3;
    io[0x13] = 0xFF;
    io[0x14] = 0xBF;
    io[0x16] = 0x3F;
    io[0x18] = 0xFF;
    io[0x19] = 0xBF;
    io[0x1A] = 0x7F;
    io[0x1B] = 0xFF;
    io[0x1C] = 0x9F;
    io[0x1D] = 0xFF;
    io[0x1E] = 0xBF;
    io[0x20] = 0xFF;
    io[0x23] = 0xBF;
    io[0x24] = 0x77;
    io[0x25] = 0xF3;
    io[0x26] = 0xF1;
    io[0x40] = 0x91;
    io[0x41] = if model == HardwareModel::Dmg0 {
        0x81
    } else {
        0x85
    };
    io[0x44] = if model == HardwareModel::Dmg0 {
        0x91
    } else {
        0x00
    };
    io[0x46] = 0xFF;
    io[0x47] = 0xFC;
    io[0x48] = 0xFF;
    io[0x49] = 0xFF;
    io
}

impl Bus {
    /// A bus in the state the boot ROM leaves for `model`, with `cartridge` inserted.
    pub fn new_with_model(cartridge: Cartridge, model: HardwareModel) -> (r: Bus)
        requires
            cartridge.wf(),
        ensures
            r.wf(),
            r.cartridge == cartridge,
            r.model == model,
            r.timer.div_counter == boot_div(model, cartridge.rom@[0x14E], cartridge.rom@[0x14F]),
            r.ppu.ly_counter == boot_line_dot(model),
            forall|i: int| 0 <= i < 0x80 ==> #[trigger] r.io@[i] == boot_io_value(model, i),
            r.ie == 0,
            r.joypad.pressed == 0,
            r.serial.output@ == Seq::<char>::empty(),
            r.apu.enabled,
            r.apu.channel_on_mask == 1,
            r.ppu.frame_counter == 0,
    {
        let is_dmg0 = model == HardwareModel::Dmg0;
        let div_counter = boot_div_for(model, &cartridge);
        let mut ppu = PpuState::new();
        if is_dmg0 {
            ppu.ly_counter = 96;
        }
        let mut bus = Bus {
            cartridge,
            model,
            vram: [0u8; 0x2000],
            wram: [0u8; 0x2000],
            oam: [0u8; 0xA0],
            io: boot_io_registers(model),
            hram: [0u8; 0x7F],
            ie: 0,
            timer: TimerState {
                div_counter,
                tima_reload_delay: 0,
                tima_reload_block: 0,
            },
            ppu,
            dma: DmaState::new(),
            serial: SerialState::new(),
            joypad: JoypadState { pressed: 0 },
            apu: ApuState::new(),
            framebuffer: [0u8; 23040],
        };
        assert(bus.io@[0x44] == boot_io_value(model, 0x44));
        assert(bus.io@[0x26] == boot_io_value(model, 0x26));
        bus.sync_apu_boot_state();
        bus
    }

    /// A bus for the default model.
    pub fn new(cartridge: Cartridge) -> (r: Bus)
        requires
            cartridge.wf(),
        ensures
            r.wf(),
            r.cartridge == cartridge,
            r.model == HardwareModel::Dmg,
            r.timer.div_counter == boot_div(
                HardwareModel::Dmg,
                cartridge.rom@[0x14E],
                cartridge.rom@[0x14F],
            ),
            forall|i: int| 0 <= i < 0x80 ==> #[trigger] r.io@[i] == boot_io_value(HardwareModel::Dmg, i),
    {
        Self::new_with_model(cartridge, HardwareModel::default_model())
    }

    pub fn rom_title(&self) -> (r: &str)
        ensures
            r@ == self.cartridge.title@,
    {
        self.cartridge.title()
    }

    pub fn serial_output(&self) -> (r: &str)
        ensures
            r@ == self.serial.output@,
    {
        self.serial.output.as_str()
    }
}

} // verus!
