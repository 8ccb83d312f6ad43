pub mod cartridge_spec;
pub mod cartridge_types;
pub mod header;
pub mod text;
pub mod bits;
pub mod rtc;
pub mod cartridge;
pub mod hardware;
pub mod apu_channels;
pub mod apu;
pub mod io_map;
pub mod input;
pub mod bus;
pub mod timer;
pub mod joypad;
pub mod dma;
pub mod serial;
pub mod oam_scan;
pub mod ppu;
pub mod memory_map;
pub mod apu_bus;
pub mod io_router;
pub mod scheduler;
pub mod boot_state;
pub mod bootrom;
pub mod cpu;
pub mod bus_laws;
