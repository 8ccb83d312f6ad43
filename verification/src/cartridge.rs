//! The cartridge: loading and validating a ROM image, the memory bank controllers
//! (ROM-only, MBC1, MBC2, MBC3 with RTC, MBC5 with rumble), external RAM and the
//! persistence of battery RAM and RTC state.
use crate::cartridge_spec::{
    cartridge_spec, is_mbc5_rumble_type, is_rumble_type, mapper_uses_ram_gate, public_mapper,
    public_mapper_of, ram_size_bytes_from_code, ram_size_for_code, rom_size_bytes_from_code,
    rom_size_for_code, spec_for_type, CartridgeSpec, MapperType, MBC2_RAM_BYTES, RAM_BANK_BYTES,
    ROM_BANK_BYTES, ROM_ONLY_ROM_BANK_COUNT,
};
use crate::cartridge_types::{
    CartridgeError, CartridgeHeaderWarning, CartridgeMapper, CartridgeMetadata, HEADER_MIN_LEN,
};
use crate::hardware::HardwareModel;
use crate::header::{
    diagnose_header, header_warnings_of, mode_flags_of, parse_header_mode_flags, parse_title,
    title_of, CartridgeCgbSupport, CartridgeSgbSupport,
};
use crate::rtc::Mbc3Rtc;
use vstd::prelude::*;

verus! {

#[verifier::external_type_specification]
#[verifier::external_body]
pub struct ExSystemTime(std::time::SystemTime);

#[verifier::external_type_specification]
#[verifier::external_body]
pub struct ExSystemTimeError(std::time::SystemTimeError);

/// The host wall clock now (std `SystemTime::now`). Nothing is claimed about the value:
/// it depends on the machine's clock.
#[verifier::external_body]
fn host_time_now() -> std::time::SystemTime {
    std::time::SystemTime::now()
}

/// How long after the Unix epoch `t` lies (std `SystemTime::duration_since` against
/// `UNIX_EPOCH`); an error for a time before the epoch. Nothing is claimed about the
/// value.
#[verifier::external_body]
fn time_since_epoch(t: std::time::SystemTime) -> Result<
    std::time::Duration,
    std::time::SystemTimeError,
> {
    t.duration_since(std::time::UNIX_EPOCH)
}

/// The whole seconds of a duration (std `Duration::as_secs`). Nothing is claimed about
/// the value: the duration is opaque here.
#[verifier::external_body]
fn whole_seconds(d: std::time::Duration) -> u64 {
    d.as_secs()
}

/// Whole seconds since the Unix epoch by the host clock, 0 for a clock set before it.
fn system_epoch_secs() -> u64 {
    match time_since_epoch(host_time_now()) {
        Ok(d) => whole_seconds(d),
        Err(_) => 0,
    }
}

/// The host wall clock.
#[derive(Clone, Copy, Debug)]
pub struct SystemRtcClock;

impl SystemRtcClock {
    /// Whole seconds since the Unix epoch, as the host reports them.
    pub fn now_epoch_secs(&self) -> u64 {
        system_epoch_secs()
    }
}

/// A clock frozen at a given epoch second.
#[derive(Clone, Copy, Debug)]
pub struct FixedRtcClock {
    pub now_epoch_secs: u64,
}

impl FixedRtcClock {
    pub fn new(now_epoch_secs: u64) -> (r: Self)
        ensures
            r.now_epoch_secs == now_epoch_secs,
    {
        FixedRtcClock { now_epoch_secs }
    }

    pub fn now_epoch_secs(&self) -> (r: u64)
        ensures
            r == self.now_epoch_secs,
    {
        self.now_epoch_secs
    }
}

/// Where a cartridge reads the current time from.
#[derive(Clone, Copy, Debug)]
pub enum RtcClockSource {
    System(SystemRtcClock),
    Fixed(FixedRtcClock),
}

impl RtcClockSource {
    /// `now` is a value this clock can report.
    pub open spec fn may_read(self, now: u64) -> bool {
        match self {
            RtcClockSource::System(_) => true,
            RtcClockSource::Fixed(f) => now == f.now_epoch_secs,
        }
    }

    pub fn now_epoch_secs(&self) -> (r: u64)
        ensures
            self.may_read(r),
    {
        match self {
            RtcClockSource::System(c) => c.now_epoch_secs(),
            RtcClockSource::Fixed(c) => c.now_epoch_secs(),
        }
    }
}

/// What the header announced and what loading derived from it; fixed after loading.
#[derive(Clone, Copy, Debug, PartialEq, Eq, Structural)]
pub struct CartridgeInfo {
    pub cart_type_code: u8,
    pub rom_size_code: u8,
    pub ram_size_code: u8,
    pub declared_ram_size_bytes: usize,
    pub compatibility_ram_mode: bool,
    pub mapper: MapperType,
    pub rom_bank_count: usize,
    pub ram_bank_count: usize,
    pub has_battery: bool,
    pub has_timer: bool,
    pub has_rumble: bool,
    pub ram_enable_required: bool,
}

/// The bank controller's writable registers.
#[derive(Clone, Copy, Debug, PartialEq, Eq, Structural)]
pub struct MbcRegisters {
    pub ram_enabled: bool,
    pub rumble_active: bool,
    pub mbc1_rom_bank_low5: u8,
    pub mbc1_bank_high2: u8,
    pub mbc1_mode: u8,
    pub mbc2_rom_bank_low4: u8,
    pub mbc3_rom_bank_low7: u8,
    pub mbc3_ram_bank_or_rtc: u8,
    pub mbc5_rom_bank: u16,
    pub mbc5_ram_bank: u8,
}

pub struct Cartridge {
    pub rom: Vec<u8>,
    pub title: String,
    pub info: CartridgeInfo,
    pub header_warnings: Vec<CartridgeHeaderWarning>,
    pub ram: Vec<u8>,
    pub clock: RtcClockSource,
    pub host_rtc_epoch_secs: Option<u64>,
    pub save_dirty: bool,
    pub regs: MbcRegisters,
    pub rtc: Option<Mbc3Rtc>,
}

/// The first check that a ROM image fails, or `None` when it loads.
pub open spec fn load_error(rom: Seq<u8>) -> Option<CartridgeError> {
    if rom.len() < HEADER_MIN_LEN {
        Some(CartridgeError::RomTooSmall { actual: rom.len() as usize })
    } else if spec_for_type(rom[0x147]) is None {
        Some(CartridgeError::UnsupportedCartridgeType(rom[0x147]))
    } else if rom_size_for_code(rom[0x148]) is None {
        Some(CartridgeError::UnsupportedRomSizeCode(rom[0x148]))
    } else if rom.len() != rom_size_for_code(rom[0x148])->0 {
        Some(
            CartridgeError::UnsupportedRomLength {
                expected: rom_size_for_code(rom[0x148])->0,
                actual: rom.len() as usize,
            },
        )
    } else if spec_for_type(rom[0x147])->0.mapper == MapperType::RomOnly && rom.len() as int
        / ROM_BANK_BYTES as int != ROM_ONLY_ROM_BANK_COUNT {
        Some(
            CartridgeError::UnsupportedRomSizeForCartridge {
                cart_type: rom[0x147],
                rom_size_code: rom[0x148],
            },
        )
    } else if ram_size_for_code(rom[0x149]) is None {
        Some(CartridgeError::UnsupportedRamSizeCode(rom[0x149]))
    } else if (spec_for_type(rom[0x147])->0.mapper == MapperType::Mbc2 && rom[0x149] != 0) || (
    !spec_for_type(rom[0x147])->0.has_ram && ram_size_for_code(rom[0x149])->0 != 0) {
        Some(
            CartridgeError::UnsupportedRamSizeForCartridge {
                cart_type: rom[0x147],
                ram_size_code: rom[0x149],
            },
        )
    } else {
        None
    }
}

/// RAM backing the A000..=BFFF window: MBC2's built-in 512 cells, the declared size, or
/// an 8 KiB window for RAM-capable and ROM-only carts that declare none.
pub open spec fn effective_ram_size(spec: CartridgeSpec, declared: usize) -> int {
    if spec.mapper == MapperType::Mbc2 {
        MBC2_RAM_BYTES as int
    } else if spec.has_ram || spec.mapper == MapperType::RomOnly {
        if declared > 0 {
            declared as int
        } else {
            RAM_BANK_BYTES as int
        }
    } else {
        0
    }
}

/// The header-derived facts of a ROM image that loads.
pub open spec fn info_for(rom: Seq<u8>) -> CartridgeInfo {
    let spec = spec_for_type(rom[0x147])->0;
    let declared = ram_size_for_code(rom[0x149])->0;
    let eff = effective_ram_size(spec, declared);
    let compat = eff > 0 && declared == 0 && spec.mapper != MapperType::Mbc2;
    CartridgeInfo {
        cart_type_code: rom[0x147],
        rom_size_code: rom[0x148],
        ram_size_code: rom[0x149],
        declared_ram_size_bytes: declared,
        compatibility_ram_mode: compat,
        mapper: spec.mapper,
        rom_bank_count: (rom.len() as int / ROM_BANK_BYTES as int) as usize,
        ram_bank_count: (if eff == 0 {
            0
        } else {
            (eff + RAM_BANK_BYTES - 1) / RAM_BANK_BYTES as int
        }) as usize,
        has_battery: spec.has_battery,
        has_timer: spec.has_timer,
        has_rumble: is_rumble_type(rom[0x147]),
        ram_enable_required: spec.mapper != MapperType::RomOnly && !compat,
    }
}

/// The external RAM size that the header facts fix: MBC2's 512 cells, the declared
/// size, the 8 KiB compatibility window, or none.
pub open spec fn ram_len_for(info: CartridgeInfo) -> int {
    if info.mapper == MapperType::Mbc2 {
        MBC2_RAM_BYTES as int
    } else if info.declared_ram_size_bytes > 0 {
        info.declared_ram_size_bytes as int
    } else if info.compatibility_ram_mode {
        RAM_BANK_BYTES as int
    } else {
        0
    }
}

pub open spec fn initial_regs(info: CartridgeInfo) -> MbcRegisters {
    MbcRegisters {
        ram_enabled: info.mapper == MapperType::RomOnly || info.compatibility_ram_mode,
        rumble_active: false,
        mbc1_rom_bank_low5: 1,
        mbc1_bank_high2: 0,
        mbc1_mode: 0,
        mbc2_rom_bank_low4: 1,
        mbc3_rom_bank_low7: 1,
        mbc3_ram_bank_or_rtc: 0,
        mbc5_rom_bank: 1,
        mbc5_ram_bank: 0,
    }
}

/// Whether `v` is an allowed result of enabling RAM with a write of `value`.
pub open spec fn ram_enable_write(value: u8) -> bool {
    value % 16 == 0x0A
}

/// The registers after a write of `value` to `addr` in the 0000..=7FFF control window.
pub open spec fn regs_after_control_write(info: CartridgeInfo, regs: MbcRegisters, addr: u16, value: u8) -> MbcRegisters {
    match info.mapper {
        MapperType::RomOnly => regs,
        MapperType::Mbc1 => if addr <= 0x1FFF {
            MbcRegisters { ram_enabled: ram_enable_write(value), ..regs }
        } else if addr <= 0x3FFF {
            MbcRegisters { mbc1_rom_bank_low5: value % 32, ..regs }
        } else if addr <= 0x5FFF {
            MbcRegisters { mbc1_bank_high2: value % 4, ..regs }
        } else if addr <= 0x7FFF {
            MbcRegisters { mbc1_mode: value % 2, ..regs }
        } else {
            regs
        },
        MapperType::Mbc2 => if addr <= 0x3FFF {
            if (addr / 256) % 2 == 0 {
                MbcRegisters { ram_enabled: ram_enable_write(value), ..regs }
            } else {
                MbcRegisters { mbc2_rom_bank_low4: value % 16, ..regs }
            }
        } else {
            regs
        },
        MapperType::Mbc3 => if addr <= 0x1FFF {
            MbcRegisters { ram_enabled: ram_enable_write(value), ..regs }
        } else if addr <= 0x3FFF {
            MbcRegisters { mbc3_rom_bank_low7: value % 128, ..regs }
        } else if addr <= 0x5FFF {
            MbcRegisters { mbc3_ram_bank_or_rtc: value, ..regs }
        } else {
            regs
        },
        MapperType::Mbc5 => if addr <= 0x1FFF {
            MbcRegisters { ram_enabled: ram_enable_write(value), ..regs }
        } else if addr <= 0x2FFF {
            MbcRegisters {
                mbc5_rom_bank: ((regs.mbc5_rom_bank / 256) % 2 * 256 + value) as u16,
                ..regs
            }
        } else if addr <= 0x3FFF {
            MbcRegisters {
                mbc5_rom_bank: ((regs.mbc5_rom_bank % 256) + 256 * (value % 2)) as u16,
                ..regs
            }
        } else if addr <= 0x5FFF {
            if info.has_rumble {
                MbcRegisters {
                    rumble_active: (value / 8) % 2 == 1,
                    mbc5_ram_bank: value % 8,
                    ..regs
                }
            } else {
                MbcRegisters { mbc5_ram_bank: value % 16, ..regs }
            }
        } else {
            regs
        },
    }
}

/// Whether a control write goes to the MBC3 RTC latch register.
pub open spec fn is_latch_write(info: CartridgeInfo, addr: u16) -> bool {
    info.mapper == MapperType::Mbc3 && 0x6000 <= addr <= 0x7FFF
}

pub open spec fn rtc_after_latch_write(rtc: Option<Mbc3Rtc>, value: u8, now: u64) -> Option<Mbc3Rtc> {
    match rtc {
        Some(r) => Some(r.ticked_to(now).latched_after(value)),
        None => None,
    }
}

pub open spec fn in_ram_window(addr: u16) -> bool {
    0xA000 <= addr <= 0xBFFF
}

impl Cartridge {
    /// The cartridge is consistent with what loading established.
    pub open spec fn wf(&self) -> bool {
        &&& 1 <= self.info.rom_bank_count <= 512
        &&& self.rom@.len() == self.info.rom_bank_count * ROM_BANK_BYTES
        &&& self.ram@.len() <= 0x20000
        &&& self.info.ram_bank_count == (if self.ram@.len() == 0 {
            0
        } else {
            (self.ram@.len() + RAM_BANK_BYTES - 1) / RAM_BANK_BYTES as int
        })
        &&& self.rtc matches Some(r) ==> r.wf()
        &&& self.info.mapper == MapperType::RomOnly ==> self.info.rom_bank_count
            == ROM_ONLY_ROM_BANK_COUNT
        &&& self.info.mapper == MapperType::Mbc2 ==> self.ram@.len() == MBC2_RAM_BYTES
        &&& self.info.ram_enable_required == (self.info.mapper != MapperType::RomOnly
            && !self.info.compatibility_ram_mode)
        &&& self.info.has_timer ==> self.rtc is Some
        &&& self.ram@.len() == ram_len_for(self.info)
    }

    /// `now` is a time the cartridge can read for its RTC: the host-provided time when
    /// one is set, else what its clock reports.
    pub open spec fn may_read_time(&self, now: u64) -> bool {
        match self.host_rtc_epoch_secs {
            Some(t) => now == t,
            None => self.clock.may_read(now),
        }
    }

    /// A time the cartridge can read (any one, for the system clock).
    pub open spec fn a_readable_time(&self) -> u64 {
        match self.host_rtc_epoch_secs {
            Some(t) => t,
            None => match self.clock {
                RtcClockSource::Fixed(f) => f.now_epoch_secs,
                RtcClockSource::System(_) => 0,
            },
        }
    }

    /// The ROM bank mapped at 0000..=3FFF.
    pub open spec fn bank_zero(&self) -> int {
        if self.info.mapper == MapperType::Mbc1 && self.regs.mbc1_mode != 0 {
            (self.regs.mbc1_bank_high2 * 32) % (self.info.rom_bank_count as int)
        } else {
            0
        }
    }

    /// The ROM bank mapped at 4000..=7FFF; MBC1/2/3 map a bank number of zero to one.
    pub open spec fn bank_switchable(&self) -> int {
        let count = self.info.rom_bank_count as int;
        match self.info.mapper {
            MapperType::RomOnly => 1int % count,
            MapperType::Mbc1 => {
                let low = self.regs.mbc1_rom_bank_low5 % 32;
                let nz = if low == 0 {
                    1
                } else {
                    low
                };
                (self.regs.mbc1_bank_high2 * 32 + nz) % count
            },
            MapperType::Mbc2 => {
                let low = self.regs.mbc2_rom_bank_low4 % 16;
                let nz = if low == 0 {
                    1
                } else {
                    low
                };
                nz as int % count
            },
            MapperType::Mbc3 => {
                let low = self.regs.mbc3_rom_bank_low7 % 128;
                let nz = if low == 0 {
                    1
                } else {
                    low
                };
                nz as int % count
            },
            MapperType::Mbc5 => self.regs.mbc5_rom_bank as int % count,
        }
    }

    /// The byte the CPU reads at `addr` in the ROM window.
    pub open spec fn rom_byte(&self, addr: u16) -> u8 {
        if addr <= 0x3FFF {
            self.rom@[self.bank_zero() * ROM_BANK_BYTES + addr]
        } else if addr <= 0x7FFF {
            self.rom@[self.bank_switchable() * ROM_BANK_BYTES + (addr - 0x4000)]
        } else {
            0xFF
        }
    }

    /// The external RAM bank mapped at A000..=BFFF.
    pub open spec fn ram_bank(&self) -> int {
        let count = self.info.ram_bank_count as int;
        if count <= 1 {
            0
        } else {
            match self.info.mapper {
                MapperType::RomOnly => 0,
                MapperType::Mbc1 => if self.regs.mbc1_mode == 0 {
                    0
                } else {
                    self.regs.mbc1_bank_high2 as int % count
                },
                MapperType::Mbc2 => 0,
                MapperType::Mbc3 => if self.regs.mbc3_ram_bank_or_rtc <= 3 {
                    self.regs.mbc3_ram_bank_or_rtc as int % count
                } else {
                    0
                },
                MapperType::Mbc5 => self.regs.mbc5_ram_bank as int % count,
            }
        }
    }

    /// Index into `ram` of the byte at `addr` (RAM must not be empty).
    pub open spec fn ram_offset(&self, addr: u16) -> int {
        (self.ram_bank() * RAM_BANK_BYTES + (addr - 0xA000) % (RAM_BANK_BYTES as int)) % (
        self.ram@.len() as int)
    }

    /// Index into the 512-cell MBC2 RAM of the byte at `addr`.
    pub open spec fn mbc2_offset(addr: u16) -> int {
        (addr - 0xA000) % 512int
    }

    /// External RAM access is allowed (no enable needed, or RAM is enabled).
    pub open spec fn ram_open(&self) -> bool {
        !self.info.ram_enable_required || self.regs.ram_enabled
    }

    /// MBC3 maps an RTC register in place of RAM.
    pub open spec fn rtc_selected(&self) -> bool {
        self.info.mapper == MapperType::Mbc3 && self.regs.mbc3_ram_bank_or_rtc >= 0x08
    }

    /// The byte the CPU reads at `addr` of the RAM window when the RTC would be read at
    /// time `now`.
    pub open spec fn ram_byte(&self, addr: u16, now: u64) -> u8 {
        if !in_ram_window(addr) || !self.ram_open() {
            0xFF
        } else if self.info.mapper == MapperType::Mbc2 {
            if self.ram@.len() == 0 {
                0xFF
            } else {
                let off = Self::mbc2_offset(addr);
                let v = if off < self.ram@.len() {
                    self.ram@[off]
                } else {
                    0x0F
                };
                (v % 16 + 0xF0) as u8
            }
        } else if self.rtc_selected() {
            match self.rtc {
                Some(r) => if r.has_latched_snapshot {
                    r.register_value(self.regs.mbc3_ram_bank_or_rtc, true)
                } else {
                    r.ticked_to(now).register_value(self.regs.mbc3_ram_bank_or_rtc, false)
                },
                None => 0xFF,
            }
        } else if self.ram@.len() == 0 {
            0xFF
        } else {
            self.ram@[self.ram_offset(addr)]
        }
    }

    /// The RAM contents after the CPU writes `value` at `addr` (RTC registers aside).
    pub open spec fn ram_after_write(&self, addr: u16, value: u8) -> Seq<u8> {
        if !in_ram_window(addr) || !self.ram_open() || self.ram@.len() == 0 {
            self.ram@
        } else if self.info.mapper == MapperType::Mbc2 {
            if Self::mbc2_offset(addr) < self.ram@.len() {
                self.ram@.update(Self::mbc2_offset(addr), value % 16)
            } else {
                self.ram@
            }
        } else if self.rtc_selected() {
            self.ram@
        } else {
            self.ram@.update(self.ram_offset(addr), value)
        }
    }

    /// The RTC after the CPU writes `value` at `addr` at time `now`.
    pub open spec fn rtc_after_write(&self, addr: u16, value: u8, now: u64) -> Option<Mbc3Rtc> {
        if in_ram_window(addr) && self.ram_open() && self.rtc_selected() && self.rtc is Some {
            Some(self.rtc->0.written(self.regs.mbc3_ram_bank_or_rtc, value, now))
        } else {
            self.rtc
        }
    }

    /// Whether a RAM-window write marks battery data dirty.
    pub open spec fn write_dirties(&self, addr: u16, value: u8) -> bool {
        if !in_ram_window(addr) || !self.ram_open() {
            false
        } else if self.rtc_selected() && self.info.mapper != MapperType::Mbc2 {
            self.rtc is Some
        } else {
            self.ram_after_write(addr, value) != self.ram@
        }
    }

    /// Everything but RAM, RTC and the dirty flag is equal.
    pub open spec fn same_except_ram_rtc(&self, other: &Cartridge) -> bool {
        &&& self.rom@ == other.rom@
        &&& self.title@ == other.title@
        &&& self.info == other.info
        &&& self.header_warnings@ == other.header_warnings@
        &&& self.clock == other.clock
        &&& self.host_rtc_epoch_secs == other.host_rtc_epoch_secs
        &&& self.regs == other.regs
    }

    pub fn from_bytes(rom: Vec<u8>) -> (r: Result<Self, CartridgeError>)
        ensures
            Self::loaded(rom@, r),
    {
        Self::from_bytes_with_clock(rom, RtcClockSource::System(SystemRtcClock))
    }

    pub fn from_bytes_with_initial_rtc_epoch(rom: Vec<u8>, rtc_epoch_secs: u64) -> (r: Result<
        Self,
        CartridgeError,
    >)
        ensures
            Self::loaded(rom@, r),
            r matches Ok(c) ==> (c.rtc matches Some(rtc) ==> rtc.last_update_epoch_secs
                == rtc_epoch_secs),
    {
        Self::from_bytes_with_clock(
            rom,
            RtcClockSource::Fixed(FixedRtcClock::new(rtc_epoch_secs)),
        )
    }

    /// `r` is the outcome of loading `rom`: the first failed check's error, or a
    /// cartridge with the header's facts, zeroed RAM of the effective size, initial bank
    /// registers, a fresh RTC for timer carts, and the header's title and warnings.
    pub open spec fn loaded(rom: Seq<u8>, r: Result<Cartridge, CartridgeError>) -> bool {
        match load_error(rom) {
            Some(e) => r == Err::<Cartridge, CartridgeError>(e),
            None => r matches Ok(c) && {
                let info = info_for(rom);
                &&& c.wf()
                &&& c.rom@ == rom
                &&& c.info == info
                &&& c.ram@ == Seq::new(
                    effective_ram_size(
                        spec_for_type(rom[0x147])->0,
                        ram_size_for_code(rom[0x149])->0,
                    ) as nat,
                    |i: int| 0u8,
                )
                &&& c.regs == initial_regs(info)
                &&& c.host_rtc_epoch_secs is None
                &&& !c.save_dirty
                &&& title_of(rom, c.title@)
                &&& c.header_warnings@ == header_warnings_of(rom)
                &&& (info.has_timer <==> c.rtc is Some)
                &&& (c.rtc matches Some(rtc) ==> rtc == Mbc3Rtc::new_spec(
                    rtc.last_update_epoch_secs,
                ) && c.clock.may_read(rtc.last_update_epoch_secs))
            }
        }
    }

    pub fn from_bytes_with_clock(rom: Vec<u8>, clock: RtcClockSource) -> (r: Result<
        Self,
        CartridgeError,
    >)
        ensures
            Self::loaded(rom@, r),
            r matches Ok(c) ==> c.clock == clock,
    {
        if rom.len() < HEADER_MIN_LEN {
            return Err(CartridgeError::RomTooSmall { actual: rom.len() });
        }
        let cart_type = rom[0x0147];
        let spec = match cartridge_spec(cart_type) {
            Some(spec) => spec,
            None => {
                return Err(CartridgeError::UnsupportedCartridgeType(cart_type));
            },
        };
        let has_rumble = is_mbc5_rumble_type(cart_type);
        let rom_size_code = rom[0x0148];
        let expected_len = match rom_size_bytes_from_code(rom_size_code) {
            Some(len) => len,
            None => {
                return Err(CartridgeError::UnsupportedRomSizeCode(rom_size_code));
            },
        };
        if rom.len() != expected_len {
            return Err(
                CartridgeError::UnsupportedRomLength { expected: expected_len, actual: rom.len() },
            );
        }
        let rom_bank_count = rom.len() / ROM_BANK_BYTES;
        if spec.mapper == MapperType::RomOnly && rom_bank_count != ROM_ONLY_ROM_BANK_COUNT {
            return Err(
                CartridgeError::UnsupportedRomSizeForCartridge { cart_type, rom_size_code },
            );
        }
        let ram_size_code = rom[0x0149];
        let ram_size_bytes = match ram_size_bytes_from_code(ram_size_code) {
            Some(n) => n,
            None => {
                return Err(CartridgeError::UnsupportedRamSizeCode(ram_size_code));
            },
        };
        if spec.mapper == MapperType::Mbc2 && ram_size_code != 0x00 {
            return Err(
                CartridgeError::UnsupportedRamSizeForCartridge { cart_type, ram_size_code },
            );
        }
        if !spec.has_ram && ram_size_bytes != 0 {
            return Err(
                CartridgeError::UnsupportedRamSizeForCartridge { cart_type, ram_size_code },
            );
        }
        let title = parse_title(rom.as_slice());
        let header_warnings = diagnose_header(rom.as_slice());
        // A transient 8 KiB RAM window is kept for ROM-only homebrew and test ROMs that
        // write pass/fail signatures into A000..=BFFF without declaring cartridge RAM.
        let effective_ram_size: usize = if spec.mapper == MapperType::Mbc2 {
            MBC2_RAM_BYTES
        } else if spec.has_ram || spec.mapper == MapperType::RomOnly {
            if ram_size_bytes > 0 {
                ram_size_bytes
            } else {
                RAM_BANK_BYTES
            }
        } else {
            0
        };
        let compatibility_ram = effective_ram_size > 0 && ram_size_bytes == 0 && spec.mapper
            != MapperType::Mbc2;
        let mut ram: Vec<u8> = Vec::new();
        let mut i: usize = 0;
        while i < effective_ram_size
            invariant
                i <= effective_ram_size,
                ram@ == Seq::new(i as nat, |k: int| 0u8),
            decreases effective_ram_size - i,
        {
            ram.push(0);
            assert(ram@ =~= Seq::new((i + 1) as nat, |k: int| 0u8));
            i += 1;
        }
        let ram_bank_count = if ram.len() == 0 {
            0
        } else {
            (ram.len() + RAM_BANK_BYTES - 1) / RAM_BANK_BYTES
        };
        let rtc = if spec.has_timer {
            Some(Mbc3Rtc::new(clock.now_epoch_secs()))
        } else {
            None
        };
        let gate = mapper_uses_ram_gate(spec.mapper);
        let info = CartridgeInfo {
            cart_type_code: cart_type,
            rom_size_code,
            ram_size_code,
            declared_ram_size_bytes: ram_size_bytes,
            compatibility_ram_mode: compatibility_ram,
            mapper: spec.mapper,
            rom_bank_count,
            ram_bank_count,
            has_battery: spec.has_battery,
            has_timer: spec.has_timer,
            has_rumble,
            ram_enable_required: gate && !compatibility_ram,
        };
        let regs = MbcRegisters {
            ram_enabled: !gate || compatibility_ram,
            rumble_active: false,
            mbc1_rom_bank_low5: 1,
            mbc1_bank_high2: 0,
            mbc1_mode: 0,
            mbc2_rom_bank_low4: 1,
            mbc3_rom_bank_low7: 1,
            mbc3_ram_bank_or_rtc: 0,
            mbc5_rom_bank: 1,
            mbc5_ram_bank: 0,
        };
        let cart = Cartridge {
            rom,
            title,
            info,
            header_warnings,
            ram,
            clock,
            host_rtc_epoch_secs: None,
            save_dirty: false,
            regs,
            rtc,
        };
        proof {
            vstd::arithmetic::power2::lemma2_to64();
            assert(cart.info == info_for(cart.rom@));
        }
        Ok(cart)
    }

    pub fn set_host_rtc_epoch_secs(&mut self, epoch_secs: Option<u64>)
        ensures
            final(self).host_rtc_epoch_secs == epoch_secs,
            final(self).rom@ == old(self).rom@,
            final(self).title@ == old(self).title@,
            final(self).info == old(self).info,
            final(self).header_warnings@ == old(self).header_warnings@,
            final(self).ram@ == old(self).ram@,
            final(self).clock == old(self).clock,
            final(self).save_dirty == old(self).save_dirty,
            final(self).regs == old(self).regs,
            final(self).rtc == old(self).rtc,
    {
        self.host_rtc_epoch_secs = epoch_secs;
    }

    pub fn current_rtc_epoch_secs(&self) -> (r: u64)
        ensures
            self.may_read_time(r),
    {
        match self.host_rtc_epoch_secs {
            Some(t) => t,
            None => self.clock.now_epoch_secs(),
        }
    }

    pub fn read_from_rom_bank(&self, bank_index: usize, bank_offset: usize) -> (r: u8)
        requires
            self.wf(),
        ensures
            r == self.rom@[(bank_index as int % self.info.rom_bank_count as int) * ROM_BANK_BYTES + (
            bank_offset as int % ROM_BANK_BYTES as int)],
    {
        let bank = bank_index % self.info.rom_bank_count;
        proof {
            assert(bank * ROM_BANK_BYTES + ROM_BANK_BYTES <= self.rom@.len()) by (nonlinear_arith)
                requires
                    bank < self.info.rom_bank_count,
                    self.rom@.len() == self.info.rom_bank_count * ROM_BANK_BYTES,
            ;
        }
        let offset = bank * ROM_BANK_BYTES + bank_offset % ROM_BANK_BYTES;
        self.rom[offset]
    }

    pub fn rom_bank_zero_index(&self) -> (r: usize)
        requires
            self.wf(),
        ensures
            r == self.bank_zero(),
    {
        match self.info.mapper {
            MapperType::Mbc1 => {
                if self.regs.mbc1_mode == 0 {
                    0
                } else {
                    ((self.regs.mbc1_bank_high2 as usize) * 32) % self.info.rom_bank_count
                }
            },
            _ => 0,
        }
    }

    pub fn rom_bank_switchable_index(&self) -> (r: usize)
        requires
            self.wf(),
        ensures
            r == self.bank_switchable(),
    {
        let count = self.info.rom_bank_count;
        match self.info.mapper {
            MapperType::RomOnly => 1 % count,
            MapperType::Mbc1 => {
                let low = self.regs.mbc1_rom_bank_low5 & 0x1F;
                let low_nonzero = if low == 0 {
                    1
                } else {
                    low
                };
                let high = self.regs.mbc1_bank_high2 as usize;
                let l = low_nonzero as usize;
                proof { lemma_low_masks(self.regs.mbc1_rom_bank_low5); }
                assert((high << 5usize) | l == high * 32 + l) by {
            crate::bits::lemma_mbc1_bank(high, l);
        }
                ((high << 5) | l) % count
            },
            MapperType::Mbc2 => {
                let low = self.regs.mbc2_rom_bank_low4 & 0x0F;
                proof { lemma_low_masks(self.regs.mbc2_rom_bank_low4); }
                let low_nonzero = if low == 0 {
                    1
                } else {
                    low
                };
                (low_nonzero as usize) % count
            },
            MapperType::Mbc3 => {
                let low = self.regs.mbc3_rom_bank_low7 & 0x7F;
                proof { lemma_low_masks(self.regs.mbc3_rom_bank_low7); }
                let low_nonzero = if low == 0 {
                    1
                } else {
                    low
                };
                (low_nonzero as usize) % count
            },
            MapperType::Mbc5 => (self.regs.mbc5_rom_bank as usize) % count,
        }
    }

    pub fn ram_bank_index(&self) -> (r: usize)
        requires
            self.wf(),
        ensures
            r == self.ram_bank(),
            self.info.ram_bank_count > 0 ==> r < self.info.ram_bank_count,
    {
        let count = self.info.ram_bank_count;
        if count <= 1 {
            return 0;
        }
        match self.info.mapper {
            MapperType::RomOnly => 0,
            MapperType::Mbc1 => {
                if self.regs.mbc1_mode == 0 {
                    0
                } else {
                    (self.regs.mbc1_bank_high2 as usize) % count
                }
            },
            MapperType::Mbc2 => 0,
            MapperType::Mbc3 => {
                if self.regs.mbc3_ram_bank_or_rtc <= 0x03 {
                    (self.regs.mbc3_ram_bank_or_rtc as usize) % count
                } else {
                    0
                }
            },
            MapperType::Mbc5 => (self.regs.mbc5_ram_bank as usize) % count,
        }
    }

    pub fn ram_index(&self, addr: u16) -> (r: Option<usize>)
        requires
            self.wf(),
            0xA000 <= addr,
        ensures
            self.ram@.len() == 0 ==> r is None,
            self.ram@.len() > 0 ==> r == Some(self.ram_offset(addr) as usize),
            r matches Some(i) ==> i < self.ram@.len(),
    {
        if self.ram.len() == 0 {
            return None;
        }
        let bank_offset = ((addr - 0xA000) as usize) % RAM_BANK_BYTES;
        let bank = self.ram_bank_index();
        proof {
            assert(bank * RAM_BANK_BYTES <= 0x20000) by (nonlinear_arith)
                requires
                    bank < self.info.ram_bank_count,
                    self.info.ram_bank_count == (self.ram@.len() + RAM_BANK_BYTES - 1)
                        / RAM_BANK_BYTES as int,
                    self.ram@.len() <= 0x20000,
            ;
        }
        let index = (bank * RAM_BANK_BYTES + bank_offset) % self.ram.len();
        Some(index)
    }

    pub fn read_rom_byte(&self, addr: u16) -> (r: u8)
        requires
            self.wf(),
        ensures
            r == self.rom_byte(addr),
    {
        let ghost count = self.info.rom_bank_count as int;
        if addr <= 0x3FFF {
            let bank = self.rom_bank_zero_index();
            proof {
                vstd::arithmetic::div_mod::lemma_mod_bound(self.regs.mbc1_bank_high2 * 32, count);
                vstd::arithmetic::div_mod::lemma_small_mod(bank as nat, count as nat);
            }
            self.read_from_rom_bank(bank, addr as usize)
        } else if addr <= 0x7FFF {
            let bank = self.rom_bank_switchable_index();
            proof {
                assert(0 <= bank < count) by {
                    let b = self.bank_switchable();
                    match self.info.mapper {
                        MapperType::RomOnly => vstd::arithmetic::div_mod::lemma_mod_bound(1, count),
                        MapperType::Mbc1 => {
                            let low = self.regs.mbc1_rom_bank_low5 % 32;
                            let nz = if low == 0 { 1 } else { low };
                            vstd::arithmetic::div_mod::lemma_mod_bound(self.regs.mbc1_bank_high2 * 32 + nz, count);
                        },
                        MapperType::Mbc2 => {
                            let low = self.regs.mbc2_rom_bank_low4 % 16;
                            let nz: int = if low == 0 { 1 } else { low as int };
                            vstd::arithmetic::div_mod::lemma_mod_bound(nz, count);
                        },
                        MapperType::Mbc3 => {
                            let low = self.regs.mbc3_rom_bank_low7 % 128;
                            let nz: int = if low == 0 { 1 } else { low as int };
                            vstd::arithmetic::div_mod::lemma_mod_bound(nz, count);
                        },
                        MapperType::Mbc5 => vstd::arithmetic::div_mod::lemma_mod_bound(self.regs.mbc5_rom_bank as int, count),
                    }
                }
                vstd::arithmetic::div_mod::lemma_small_mod(bank as nat, count as nat);
            }
            self.read_from_rom_bank(bank, (addr - 0x4000) as usize)
        } else {
            0xFF
        }
    }

    pub fn write_rom_only_control(&mut self, _addr: u16, _value: u8)
        ensures
            *final(self) == *old(self),
    {
        // ROM-only cartridges ignore writes in the 0x0000..=0x7FFF control window.
    }

    pub fn write_mbc1_rom_control(&mut self, addr: u16, value: u8)
        requires
            old(self).info.mapper == MapperType::Mbc1,
        ensures
            final(self).regs == regs_after_control_write(old(self).info, old(self).regs, addr, value),
            final(self).same_except_regs(old(self)),
    {
        if addr <= 0x1FFF {
            self.regs.ram_enabled = (value & 0x0F) == 0x0A;
        } else if addr <= 0x3FFF {
            self.regs.mbc1_rom_bank_low5 = value & 0x1F;
        } else if addr <= 0x5FFF {
            self.regs.mbc1_bank_high2 = value & 0x03;
        } else if addr <= 0x7FFF {
            self.regs.mbc1_mode = value & 0x01;
        }
        proof { lemma_low_masks(value); }
    }

    pub fn write_mbc2_rom_control(&mut self, addr: u16, value: u8)
        requires
            old(self).info.mapper == MapperType::Mbc2,
        ensures
            final(self).regs == regs_after_control_write(old(self).info, old(self).regs, addr, value),
            final(self).same_except_regs(old(self)),
    {
        if addr > 0x3FFF {
            return;
        }
        assert((addr & 0x0100) == 0 <==> (addr / 256) % 2 == 0) by {
            crate::bits::lemma_mbc2_select(addr);
        }
        if (addr & 0x0100) == 0 {
            self.regs.ram_enabled = (value & 0x0F) == 0x0A;
        } else {
            self.regs.mbc2_rom_bank_low4 = value & 0x0F;
        }
        proof { lemma_low_masks(value); }
    }

    pub fn write_mbc3_rom_control(&mut self, addr: u16, value: u8)
        requires
            old(self).info.mapper == MapperType::Mbc3,
            old(self).wf(),
        ensures
            final(self).regs == regs_after_control_write(old(self).info, old(self).regs, addr, value),
            final(self).same_except_regs_rtc(old(self)),
            final(self).wf(),
            !is_latch_write(old(self).info, addr) ==> final(self).rtc == old(self).rtc,
            is_latch_write(old(self).info, addr) ==> exists|now: u64|
                old(self).may_read_time(now) && final(self).rtc == rtc_after_latch_write(
                    old(self).rtc,
                    value,
                    now,
                ),
    {
        if addr <= 0x1FFF {
            self.regs.ram_enabled = (value & 0x0F) == 0x0A;
        } else if addr <= 0x3FFF {
            self.regs.mbc3_rom_bank_low7 = value & 0x7F;
        } else if addr <= 0x5FFF {
            self.regs.mbc3_ram_bank_or_rtc = value;
        } else if addr <= 0x7FFF {
            let now_epoch_secs = self.current_rtc_epoch_secs();
            match self.rtc {
                Some(mut rtc) => {
                    rtc.tick_to_epoch(now_epoch_secs);
                    rtc.latch_command(value);
                    self.rtc = Some(rtc);
                },
                None => {},
            }
            assert(self.rtc == rtc_after_latch_write(old(self).rtc, value, now_epoch_secs));
        }
        proof { lemma_low_masks(value); }
    }

    pub fn write_mbc5_rom_control(&mut self, addr: u16, value: u8)
        requires
            old(self).info.mapper == MapperType::Mbc5,
        ensures
            final(self).regs == regs_after_control_write(old(self).info, old(self).regs, addr, value),
            final(self).same_except_regs(old(self)),
    {
        let bank = self.regs.mbc5_rom_bank;
        if addr <= 0x1FFF {
            self.regs.ram_enabled = (value & 0x0F) == 0x0A;
        } else if addr <= 0x2FFF {
            assert((bank & 0x100) | (value as u16) == ((bank / 256) % 2) * 256 + value) by {
            crate::bits::lemma_mbc5_bank(bank, value);
        }
            self.regs.mbc5_rom_bank = (bank & 0x100) | value as u16;
        } else if addr <= 0x3FFF {
            assert((bank & 0x00FF) | (((value & 0x01) as u16) << 8u16) == (bank % 256) + 256 * (value
                % 2)) by {
            crate::bits::lemma_mbc5_bank_high(bank, value);
        }
            self.regs.mbc5_rom_bank = (bank & 0x00FF) | (((value & 0x01) as u16) << 8);
        } else if addr <= 0x5FFF {
            if self.info.has_rumble {
                assert(((value & 0x08) != 0) == ((value / 8) % 2 == 1)) by {
            crate::bits::lemma_bits();
        }
                self.regs.rumble_active = (value & 0x08) != 0;
                self.regs.mbc5_ram_bank = value & 0x07;
            } else {
                self.regs.mbc5_ram_bank = value & 0x0F;
            }
        }
        proof { lemma_low_masks(value); }
    }

    /// Everything but the bank registers is equal.
    pub open spec fn same_except_regs(&self, other: &Cartridge) -> bool {
        &&& self.same_except_regs_rtc(other)
        &&& self.rtc == other.rtc
    }

    /// Everything but the bank registers and the RTC is equal.
    pub open spec fn same_except_regs_rtc(&self, other: &Cartridge) -> bool {
        &&& self.rom@ == other.rom@
        &&& self.title@ == other.title@
        &&& self.info == other.info
        &&& self.header_warnings@ == other.header_warnings@
        &&& self.ram@ == other.ram@
        &&& self.clock == other.clock
        &&& self.host_rtc_epoch_secs == other.host_rtc_epoch_secs
        &&& self.save_dirty == other.save_dirty
    }

    /// A CPU write to the 0000..=7FFF control window: updates the mapper's registers, and
    /// on MBC3 the RTC latch (brought forward to the current time first).
    pub fn write_rom_control(&mut self, addr: u16, value: u8)
        requires
            old(self).wf(),
        ensures
            final(self).regs == regs_after_control_write(old(self).info, old(self).regs, addr, value),
            final(self).same_except_regs_rtc(old(self)),
            final(self).wf(),
            !is_latch_write(old(self).info, addr) ==> final(self).rtc == old(self).rtc,
            is_latch_write(old(self).info, addr) ==> exists|now: u64|
                old(self).may_read_time(now) && final(self).rtc == rtc_after_latch_write(
                    old(self).rtc,
                    value,
                    now,
                ),
    {
        match self.info.mapper {
            MapperType::RomOnly => self.write_rom_only_control(addr, value),
            MapperType::Mbc1 => self.write_mbc1_rom_control(addr, value),
            MapperType::Mbc2 => self.write_mbc2_rom_control(addr, value),
            MapperType::Mbc3 => self.write_mbc3_rom_control(addr, value),
            MapperType::Mbc5 => self.write_mbc5_rom_control(addr, value),
        }
    }

    pub fn read_external_ram_byte(&self, addr: u16) -> (r: u8)
        requires
            self.wf(),
            in_ram_window(addr),
        ensures
            r == (if self.ram@.len() == 0 {
                0xFF
            } else {
                self.ram@[self.ram_offset(addr)]
            }),
    {
        match self.ram_index(addr) {
            Some(index) => self.ram[index],
            None => 0xFF,
        }
    }

    pub fn write_external_ram_byte(&mut self, addr: u16, value: u8)
        requires
            old(self).wf(),
            in_ram_window(addr),
        ensures
            final(self).ram@ == (if old(self).ram@.len() == 0 {
                old(self).ram@
            } else {
                old(self).ram@.update(old(self).ram_offset(addr), value)
            }),
            final(self).save_dirty == (old(self).save_dirty || final(self).ram@ != old(self).ram@),
            final(self).same_except_ram_rtc(old(self)),
            final(self).rtc == old(self).rtc,
            final(self).wf(),
    {
        match self.ram_index(addr) {
            Some(index) => {
                if self.ram[index] != value {
                    self.ram.set(index, value);
                    self.save_dirty = true;
                } else {
                    assert(self.ram@.update(index as int, value) =~= self.ram@);
                }
            },
            None => {},
        }
    }

    pub fn read_mbc2_ram_byte(&self, addr: u16) -> (r: u8)
        requires
            self.wf(),
            self.info.mapper == MapperType::Mbc2,
            in_ram_window(addr),
            self.ram_open(),
        ensures
            r == self.ram_byte(addr, 0),
    {
        if self.ram.len() == 0 {
            return 0xFF;
        }
        let index = ((addr - 0xA000) as usize) & 0x01FF;
        let a = (addr - 0xA000) as usize;
        assert(a & 0x01FF == a % 512) by {
            crate::bits::lemma_mbc2_index(a);
        }
        let value = if index < self.ram.len() {
            self.ram[index] & 0x0F
        } else {
            0x0F
        };
        let raw = if index < self.ram.len() { self.ram[index] } else { 0x0F };
        assert(raw & 0x0F == raw % 16) by {
            crate::bits::lemma_bits();
        }
        assert(value | 0xF0 == value + 0xF0) by {
            crate::bits::lemma_bits();
        }
        value | 0xF0
    }

    pub fn write_mbc2_ram_byte(&mut self, addr: u16, value: u8)
        requires
            old(self).wf(),
            old(self).info.mapper == MapperType::Mbc2,
            in_ram_window(addr),
            old(self).ram_open(),
        ensures
            final(self).ram@ == old(self).ram_after_write(addr, value),
            final(self).save_dirty == (old(self).save_dirty || final(self).ram@ != old(self).ram@),
            final(self).same_except_ram_rtc(old(self)),
            final(self).rtc == old(self).rtc,
            final(self).wf(),
    {
        if self.ram.len() == 0 {
            return;
        }
        let a = (addr - 0xA000) as usize;
        assert(a & 0x01FF == a % 512) by {
            crate::bits::lemma_mbc2_index(a);
        }
        let index = a & 0x01FF;
        if index < self.ram.len() {
            let next = value & 0x0F;
            assert(value & 0x0F == value % 16) by {
            crate::bits::lemma_bits();
        }
            if self.ram[index] != next {
                self.ram.set(index, next);
                self.save_dirty = true;
            } else {
                assert(self.ram@.update(index as int, next) =~= self.ram@);
            }
        }
    }

    pub fn read_mbc3_ram_byte(&self, addr: u16) -> (r: u8)
        requires
            self.wf(),
            self.info.mapper == MapperType::Mbc3,
            in_ram_window(addr),
            self.ram_open(),
        ensures
            exists|now: u64| self.may_read_time(now) && r == self.ram_byte(addr, now),
    {
        let now_epoch_secs = self.current_rtc_epoch_secs();
        if self.regs.mbc3_ram_bank_or_rtc >= 0x08 {
            let r = match self.rtc {
                Some(rtc) => {
                    if rtc.has_latched_snapshot {
                        rtc.read_register(self.regs.mbc3_ram_bank_or_rtc, true)
                    } else {
                        let live = rtc.live_registers_at_epoch(now_epoch_secs);
                        let index = (self.regs.mbc3_ram_bank_or_rtc - 0x08) as usize;
                        if index < 5 {
                            live[index]
                        } else {
                            0xFF
                        }
                    }
                },
                None => 0xFF,
            };
            assert(r == self.ram_byte(addr, now_epoch_secs));
            return r;
        }
        self.read_external_ram_byte(addr)
    }

    pub fn write_mbc3_ram_byte(&mut self, addr: u16, value: u8)
        requires
            old(self).wf(),
            old(self).info.mapper == MapperType::Mbc3,
            in_ram_window(addr),
            old(self).ram_open(),
        ensures
            final(self).ram@ == old(self).ram_after_write(addr, value),
            final(self).save_dirty == (old(self).save_dirty || old(self).write_dirties(addr, value)),
            exists|now: u64|
                old(self).may_read_time(now) && final(self).rtc == old(self).rtc_after_write(
                    addr,
                    value,
                    now,
                ),
            final(self).same_except_ram_rtc(old(self)),
            final(self).wf(),
    {
        if self.regs.mbc3_ram_bank_or_rtc >= 0x08 {
            let now_epoch_secs = self.current_rtc_epoch_secs();
            match self.rtc {
                Some(mut rtc) => {
                    rtc.write_register(self.regs.mbc3_ram_bank_or_rtc, value, now_epoch_secs);
                    self.rtc = Some(rtc);
                    self.save_dirty = true;
                },
                None => {},
            }
            assert(self.rtc == old(self).rtc_after_write(addr, value, now_epoch_secs));
            return;
        }
        self.write_external_ram_byte(addr, value);
        assert(old(self).may_read_time(old(self).a_readable_time()));
        assert(self.rtc == old(self).rtc_after_write(addr, value, old(self).a_readable_time()));
    }

    /// A CPU read of the A000..=BFFF window. RTC reads depend on the current time when
    /// no snapshot is latched.
    pub fn read_ram_byte(&self, addr: u16) -> (r: u8)
        requires
            self.wf(),
        ensures
            exists|now: u64| self.may_read_time(now) && r == self.ram_byte(addr, now),
            !self.rtc_selected() ==> r == self.ram_byte(addr, 0),
    {
        let now_witness = self.current_rtc_epoch_secs();
        if addr < 0xA000 || addr > 0xBFFF {
            assert(0xFFu8 == self.ram_byte(addr, now_witness));
            return 0xFF;
        }
        if self.info.ram_enable_required && !self.regs.ram_enabled {
            assert(0xFFu8 == self.ram_byte(addr, now_witness));
            return 0xFF;
        }
        match self.info.mapper {
            MapperType::Mbc2 => {
                let r = self.read_mbc2_ram_byte(addr);
                assert(r == self.ram_byte(addr, now_witness));
                r
            },
            MapperType::Mbc3 => self.read_mbc3_ram_byte(addr),
            _ => {
                let r = self.read_external_ram_byte(addr);
                assert(r == self.ram_byte(addr, now_witness));
                r
            },
        }
    }

    /// A CPU write of the A000..=BFFF window: stores into banked RAM (4-bit cells on MBC2)
    /// or into the selected MBC3 RTC register; marks battery data dirty when it changes.
    pub fn write_ram_byte(&mut self, addr: u16, value: u8)
        requires
            old(self).wf(),
        ensures
            final(self).ram@ == old(self).ram_after_write(addr, value),
            final(self).save_dirty == (old(self).save_dirty || old(self).write_dirties(addr, value)),
            exists|now: u64|
                old(self).may_read_time(now) && final(self).rtc == old(self).rtc_after_write(
                    addr,
                    value,
                    now,
                ),
            final(self).same_except_ram_rtc(old(self)),
            final(self).wf(),
    {
        let ghost now_witness = self.a_readable_time();
        assert(self.may_read_time(now_witness));
        if addr < 0xA000 || addr > 0xBFFF {
            assert(self.rtc == old(self).rtc_after_write(addr, value, now_witness));
            return;
        }
        if self.info.ram_enable_required && !self.regs.ram_enabled {
            assert(self.rtc == old(self).rtc_after_write(addr, value, now_witness));
            return;
        }
        match self.info.mapper {
            MapperType::Mbc2 => {
                self.write_mbc2_ram_byte(addr, value);
                assert(self.rtc == old(self).rtc_after_write(addr, value, now_witness));
            },
            MapperType::Mbc3 => self.write_mbc3_ram_byte(addr, value),
            _ => {
                self.write_external_ram_byte(addr, value);
                assert(self.rtc == old(self).rtc_after_write(addr, value, now_witness));
            },
        }
    }

    pub open spec fn battery_save_capable(&self) -> bool {
        self.info.has_battery && (self.ram@.len() > 0 || self.info.has_timer)
    }

    pub fn has_battery_save(&self) -> (r: bool)
        ensures
            r == self.battery_save_capable(),
    {
        self.info.has_battery && (self.ram.len() != 0 || self.info.has_timer)
    }

    pub fn header_warnings(&self) -> (r: &[CartridgeHeaderWarning])
        ensures
            r@ == self.header_warnings@,
    {
        self.header_warnings.as_slice()
    }

    pub fn has_rumble(&self) -> (r: bool)
        ensures
            r == self.info.has_rumble,
    {
        self.info.has_rumble
    }

    pub fn rumble_active(&self) -> (r: bool)
        ensures
            r == (self.info.has_rumble && self.regs.rumble_active),
    {
        self.info.has_rumble && self.regs.rumble_active
    }

    pub fn title(&self) -> (r: &str)
        ensures
            r@ == self.title@,
    {
        self.title.as_str()
    }

    /// What the cartridge offers, with the CGB/SGB header flags decoded.
    pub open spec fn capabilities_spec(&self) -> CartridgeCapabilities {
        let flags = mode_flags_of(self.rom@);
        CartridgeCapabilities {
            mapper: public_mapper_of(self.info.mapper),
            has_declared_ram: self.info.declared_ram_size_bytes > 0,
            has_effective_ram: self.ram@.len() > 0,
            compatibility_ram_mode: self.info.compatibility_ram_mode,
            has_battery: self.info.has_battery,
            has_timer: self.info.has_timer,
            has_rumble: self.info.has_rumble,
            has_battery_save: self.battery_save_capable(),
            cgb_header_flag_raw: flags.cgb_header_flag_raw,
            cgb_support: flags.cgb_support,
            supports_cgb: flags.supports_cgb,
            cgb_only: flags.cgb_only,
            sgb_header_flag_raw: flags.sgb_header_flag_raw,
            sgb_support: flags.sgb_support,
            supports_sgb: flags.supports_sgb,
        }
    }

    pub fn capabilities(&self) -> (r: CartridgeCapabilities)
        ensures
            r == self.capabilities_spec(),
    {
        let header_flags = parse_header_mode_flags(self.rom.as_slice());
        CartridgeCapabilities {
            mapper: public_mapper(self.info.mapper),
            has_declared_ram: self.info.declared_ram_size_bytes > 0,
            has_effective_ram: self.ram.len() != 0,
            compatibility_ram_mode: self.info.compatibility_ram_mode,
            has_battery: self.info.has_battery,
            has_timer: self.info.has_timer,
            has_rumble: self.info.has_rumble,
            has_battery_save: self.has_battery_save(),
            cgb_header_flag_raw: header_flags.cgb_header_flag_raw,
            cgb_support: header_flags.cgb_support,
            supports_cgb: header_flags.supports_cgb,
            cgb_only: header_flags.cgb_only,
            sgb_header_flag_raw: header_flags.sgb_header_flag_raw,
            sgb_support: header_flags.sgb_support,
            supports_sgb: header_flags.supports_sgb,
        }
    }

    pub fn compatibility_for_model(&self, model: HardwareModel) -> (r: CartridgeModelCompatibility)
        ensures
            r == compatibility_spec(self.capabilities_spec(), model),
    {
        self.capabilities().compatibility_for_model(model)
    }

    /// The public summary of the cartridge.
    pub fn metadata(&self) -> (r: CartridgeMetadata)
        requires
            self.wf(),
        ensures
            r.title@ == self.title@,
            r.cart_type_code == self.info.cart_type_code,
            r.mapper == public_mapper_of(self.info.mapper),
            r.rom_size_code == self.info.rom_size_code,
            r.ram_size_code == self.info.ram_size_code,
            r.rom_size_bytes == self.rom@.len(),
            r.rom_bank_count == self.info.rom_bank_count,
            r.declared_ram_size_bytes == self.info.declared_ram_size_bytes,
            r.effective_ram_size_bytes == self.ram@.len(),
            r.ram_bank_count == self.info.ram_bank_count,
            r.compatibility_ram_mode == self.info.compatibility_ram_mode,
            r.has_battery == self.info.has_battery,
            r.has_timer == self.info.has_timer,
            r.has_rumble == self.info.has_rumble,
            r.has_battery_save == self.battery_save_capable(),
            r.rumble_active == (self.info.has_rumble && self.regs.rumble_active),
            r.header_warnings@ == self.header_warnings@,
    {
        let capabilities = self.capabilities();
        let warnings = copy_warnings(&self.header_warnings);
        CartridgeMetadata {
            title: self.title.clone(),
            cart_type_code: self.info.cart_type_code,
            mapper: capabilities.mapper,
            rom_size_code: self.info.rom_size_code,
            ram_size_code: self.info.ram_size_code,
            rom_size_bytes: self.rom.len(),
            rom_bank_count: self.info.rom_bank_count,
            declared_ram_size_bytes: self.info.declared_ram_size_bytes,
            effective_ram_size_bytes: self.ram.len(),
            ram_bank_count: self.info.ram_bank_count,
            compatibility_ram_mode: capabilities.compatibility_ram_mode,
            has_battery: capabilities.has_battery,
            has_timer: capabilities.has_timer,
            has_rumble: capabilities.has_rumble,
            has_battery_save: capabilities.has_battery_save,
            rumble_active: self.rumble_active(),
            header_warnings: warnings,
        }
    }

    /// The battery-backed RAM contents, for carts with a battery and RAM.
    pub fn export_save_ram_bytes(&self) -> (r: Option<Vec<u8>>)
        ensures
            (self.ram@.len() == 0 || !self.info.has_battery) ==> r is None,
            (self.ram@.len() > 0 && self.info.has_battery) ==> (r matches Some(v) && v@
                == self.ram@),
    {
        if self.ram.len() == 0 || !self.info.has_battery {
            return None;
        }
        Some(copy_bytes(&self.ram))
    }

    /// Restores RAM from saved bytes: as many bytes as both hold are copied, the rest of
    /// RAM keeps its contents.
    pub fn import_save_ram_bytes(&mut self, data: &[u8])
        requires
            old(self).wf(),
        ensures
            final(self).ram@ == ram_after_import(old(self).ram@, data@),
            final(self).same_except_ram_rtc(old(self)),
            final(self).rtc == old(self).rtc,
            final(self).save_dirty == old(self).save_dirty,
            final(self).wf(),
    {
        let copy_len = if self.ram.len() < data.len() {
            self.ram.len()
        } else {
            data.len()
        };
        let mut i: usize = 0;
        while i < copy_len
            invariant
                copy_len <= data@.len(),
                copy_len <= old(self).ram@.len(),
                i <= copy_len,
                self.ram@.len() == old(self).ram@.len(),
                forall|k: int| 0 <= k < i ==> self.ram@[k] == data@[k],
                forall|k: int| i <= k < self.ram@.len() ==> self.ram@[k] == old(self).ram@[k],
                self.same_except_ram_rtc(old(self)),
                self.rtc == old(self).rtc,
                self.save_dirty == old(self).save_dirty,
            decreases copy_len - i,
        {
            self.ram.set(i, data[i]);
            i += 1;
        }
        proof {
            if data@.len() < old(self).ram@.len() {
                assert(self.ram@ =~= data@ + old(self).ram@.subrange(
                    data@.len() as int,
                    old(self).ram@.len() as int,
                ));
            } else {
                assert(self.ram@ =~= data@.take(old(self).ram@.len() as int));
            }
        }
    }

    /// The RTC persistence record (13 bytes), with the RTC first brought forward to the
    /// current time (the host-provided epoch when one is set, else the clock's reading);
    /// `None` for carts without a timer or RTC.
    pub fn export_rtc_persistence_bytes(&mut self) -> (r: Option<Vec<u8>>)
        requires
            old(self).wf(),
        ensures
            (!old(self).info.has_timer || old(self).rtc is None) ==> r is None && *final(self)
                == *old(self),
            (old(self).info.has_timer && old(self).rtc is Some) ==> exists|now: u64|
                old(self).may_read_time(now) && final(self).rtc == Some(
                    old(self).rtc->0.ticked_to(now),
                ) && (r matches Some(v) && v@ == old(self).rtc->0.ticked_to(now).record()),
            final(self).same_except_ram_rtc(old(self)),
            final(self).ram@ == old(self).ram@,
            final(self).save_dirty == old(self).save_dirty,
            final(self).wf(),
    {
        if !self.info.has_timer {
            return None;
        }
        match self.rtc {
            Some(mut rtc) => {
                let now_epoch_secs = self.current_rtc_epoch_secs();
                let bytes = rtc.serialize(now_epoch_secs);
                self.rtc = Some(rtc);
                let mut out: Vec<u8> = Vec::new();
                let mut i: usize = 0;
                while i < 13
                    invariant
                        i <= 13,
                        out@ == bytes@.take(i as int),
                    decreases 13 - i,
                {
                    out.push(bytes[i]);
                    assert(out@ =~= bytes@.take(i + 1));
                    i += 1;
                }
                assert(bytes@.take(13) =~= bytes@);
                Some(out)
            },
            None => None,
        }
    }

    /// Restores the RTC from a persistence record; `false` (and no change) if the
    /// record is shorter than 13 bytes.
    pub fn import_rtc_persistence_bytes(&mut self, data: &[u8]) -> (r: bool)
        requires
            old(self).wf(),
        ensures
            r == (data@.len() >= 13),
            r ==> final(self).rtc == Some(Mbc3Rtc::from_record(data@)),
            !r ==> final(self).rtc == old(self).rtc,
            final(self).same_except_ram_rtc(old(self)),
            final(self).ram@ == old(self).ram@,
            final(self).save_dirty == old(self).save_dirty,
            final(self).wf(),
    {
        match Mbc3Rtc::deserialize(data) {
            Some(rtc) => {
                self.rtc = Some(rtc);
                true
            },
            None => false,
        }
    }

    pub fn battery_save_dirty(&self) -> (r: bool)
        ensures
            r == self.save_dirty,
    {
        self.save_dirty
    }

    pub fn mark_persistence_clean(&mut self)
        ensures
            !final(self).save_dirty,
            final(self).same_except_ram_rtc(old(self)),
            final(self).ram@ == old(self).ram@,
            final(self).rtc == old(self).rtc,
    {
        self.save_dirty = false;
    }
}

/// RAM after importing saved bytes: the overlapping prefix comes from `data`, the rest
/// is kept.
pub open spec fn ram_after_import(ram: Seq<u8>, data: Seq<u8>) -> Seq<u8> {
    if data.len() < ram.len() {
        data + ram.subrange(data.len() as int, ram.len() as int)
    } else {
        data.take(ram.len() as int)
    }
}

/// Law: reading back a RAM byte just written returns the written value (its low nibble
/// over set high bits on MBC2's 4-bit cells), whenever RAM is present and enabled and no
/// RTC register is mapped.
pub proof fn lemma_ram_write_then_read(before: Cartridge, after: Cartridge, addr: u16, value: u8, now: u64)
    requires
        before.wf(),
        in_ram_window(addr),
        before.ram_open(),
        before.ram@.len() > 0,
        !before.rtc_selected(),
        after.same_except_ram_rtc(&before),
        after.ram@ == before.ram_after_write(addr, value),
    ensures
        after.ram_byte(addr, now) == (if before.info.mapper == MapperType::Mbc2 {
            (value % 16 + 0xF0) as u8
        } else {
            value
        }),
{
    assert(after.ram_bank() == before.ram_bank());
    if before.info.mapper != MapperType::Mbc2 {
        vstd::arithmetic::div_mod::lemma_mod_bound(
            before.ram_bank() * RAM_BANK_BYTES + (addr - 0xA000) % (RAM_BANK_BYTES as int),
            before.ram@.len() as int,
        );
    }
}

/// Law: ROM reads never leave the ROM image. Above 7FFF they give 0xFF; on a ROM-only
/// cart they give the image byte at the address; in 0000..=3FFF, unless MBC1 runs in
/// its second banking mode, they give the image byte at the address; and every read
/// below 8000 gives the byte at the same in-bank offset of some bank of the image.
pub proof fn lemma_rom_read_in_image(c: Cartridge, addr: u16)
    requires
        c.wf(),
    ensures
        addr >= 0x8000 ==> c.rom_byte(addr) == 0xFF,
        addr < 0x8000 && c.info.mapper == MapperType::RomOnly ==> c.rom_byte(addr)
            == c.rom@[addr as int],
        addr < 0x4000 && !(c.info.mapper == MapperType::Mbc1 && c.regs.mbc1_mode != 0)
            ==> c.rom_byte(addr) == c.rom@[addr as int],
        addr < 0x8000 ==> exists|b: int|
            0 <= b < c.info.rom_bank_count && c.rom_byte(addr) == #[trigger] c.rom@[b
                * (ROM_BANK_BYTES as int) + (addr as int) % (ROM_BANK_BYTES as int)],
{
    let count = c.info.rom_bank_count as int;
    if addr < 0x8000 {
        let b = if addr <= 0x3FFF {
            c.bank_zero()
        } else {
            c.bank_switchable()
        };
        assert(0 <= b < count) by {
            vstd::arithmetic::div_mod::lemma_mod_bound(c.regs.mbc1_bank_high2 * 32, count);
            vstd::arithmetic::div_mod::lemma_mod_bound(
                c.regs.mbc1_bank_high2 * 32 + (if c.regs.mbc1_rom_bank_low5 % 32 == 0 {
                    1
                } else {
                    c.regs.mbc1_rom_bank_low5 % 32
                }),
                count,
            );
        }
        assert(c.rom@[b * (ROM_BANK_BYTES as int) + (addr as int) % (ROM_BANK_BYTES as int)]
            == c.rom_byte(addr));
    }
}

/// The byte positions of the header signature: the logo (0104..=0133), the header
/// checksum (014D) and the global checksum (014E..=014F).
pub open spec fn signature_byte(i: int) -> bool {
    (0x104 <= i <= 0x133) || (0x14D <= i <= 0x14F)
}

/// Law: loading does not depend on the header signature. Two images that differ only in
/// the logo and checksum bytes load with the same outcome: the same error, or the same
/// header facts, RAM size and title (only the diagnostic warnings may differ).
pub proof fn lemma_load_ignores_signature(rom: Seq<u8>, rom2: Seq<u8>)
    requires
        rom.len() == rom2.len(),
        forall|i: int| 0 <= i < rom.len() && !signature_byte(i) ==> #[trigger] rom[i] == rom2[i],
    ensures
        load_error(rom) == load_error(rom2),
        load_error(rom) is None ==> {
            &&& info_for(rom) == info_for(rom2)
            &&& forall|t: Seq<char>| title_of(rom, t) <==> title_of(rom2, t)
        },
{
    if rom.len() >= HEADER_MIN_LEN {
        assert(rom[0x147] == rom2[0x147]);
        assert(rom[0x148] == rom2[0x148]);
        assert(rom[0x149] == rom2[0x149]);
        assert(crate::header::title_raw(rom) =~= crate::header::title_raw(rom2));
    }
}

/// Law: battery RAM moves between cartridges of the same header. The bytes one
/// cartridge exports, imported into another with the same header facts, give the second
/// exactly the first one's RAM.
pub proof fn lemma_save_ram_transfer(c1: Cartridge, c2: Cartridge)
    requires
        c1.wf(),
        c2.wf(),
        c1.info == c2.info,
    ensures
        ram_after_import(c2.ram@, c1.ram@) == c1.ram@,
{
    lemma_save_ram_roundtrip(c2.ram@, c1.ram@);
}

/// Law: on MBC1, MBC2 and MBC3 a ROM bank number of zero selects bank 1. Writing 0 to
/// the ROM bank register maps the same bank into 4000..=7FFF as writing 1, so the
/// window reads the same bytes; with the upper bank bits clear and at least two banks,
/// that is bank 1, never bank 0.
pub proof fn lemma_rom_bank_zero_selects_one(c: Cartridge, addr: u16)
    requires
        c.wf(),
        0x4000 <= addr <= 0x7FFF,
        c.info.mapper == MapperType::Mbc1 || c.info.mapper == MapperType::Mbc2
            || c.info.mapper == MapperType::Mbc3,
    ensures
        ({
            let bank_reg: u16 = if c.info.mapper == MapperType::Mbc2 {
                0x2100
            } else {
                0x2000
            };
            let wrote0 = Cartridge {
                regs: regs_after_control_write(c.info, c.regs, bank_reg, 0),
                ..c
            };
            let wrote1 = Cartridge {
                regs: regs_after_control_write(c.info, c.regs, bank_reg, 1),
                ..c
            };
            &&& wrote0.bank_switchable() == wrote1.bank_switchable()
            &&& wrote0.rom_byte(addr) == wrote1.rom_byte(addr)
            &&& (c.info.mapper != MapperType::Mbc1 || c.regs.mbc1_bank_high2 == 0)
                && c.info.rom_bank_count >= 2 ==> (
            wrote0.bank_switchable() == 1 && wrote0.rom_byte(addr) == c.rom@[0x4000 + (addr
                - 0x4000)])
        }),
{
    let bank_reg: u16 = if c.info.mapper == MapperType::Mbc2 {
        0x2100
    } else {
        0x2000
    };
    let r0 = regs_after_control_write(c.info, c.regs, bank_reg, 0);
    let r1 = regs_after_control_write(c.info, c.regs, bank_reg, 1);
    assert((bank_reg / 256) % 2 == (if c.info.mapper == MapperType::Mbc2 { 1int } else { 0 }));
    let wrote0 = Cartridge { regs: r0, ..c };
    let wrote1 = Cartridge { regs: r1, ..c };
    assert(wrote0.bank_switchable() == wrote1.bank_switchable());
    if (c.info.mapper != MapperType::Mbc1 || c.regs.mbc1_bank_high2 == 0)
        && c.info.rom_bank_count >= 2 {
        let count = c.info.rom_bank_count as int;
        vstd::arithmetic::div_mod::lemma_small_mod(1, count as nat);
        assert((0int * 32 + 1) % count == 1);
        assert(wrote0.bank_switchable() == 1);
        assert(1 * ROM_BANK_BYTES == 0x4000);
    }
}

/// Law: importing exactly the bytes a cartridge exported restores its RAM.
pub proof fn lemma_save_ram_roundtrip(ram: Seq<u8>, saved: Seq<u8>)
    requires
        saved.len() == ram.len(),
    ensures
        ram_after_import(ram, saved) == saved,
{
    assert(saved.take(ram.len() as int) =~= saved);
}

/// Law: while an RTC snapshot is latched, RTC reads do not depend on the time.
pub proof fn lemma_latched_reads_ignore_time(c: Cartridge, addr: u16, now1: u64, now2: u64)
    requires
        c.rtc_selected(),
        c.rtc matches Some(r) && r.has_latched_snapshot,
    ensures
        c.ram_byte(addr, now1) == c.ram_byte(addr, now2),
{
}

/// Law: a ROM whose logo and both checksums are right loads without header warnings.
pub proof fn lemma_valid_header_has_no_warnings(rom: Seq<u8>)
    requires
        crate::header::logo_matches(rom),
        crate::header::byte_or(rom, crate::header::HEADER_CHECKSUM_OFFSET as int, 0)
            == crate::header::header_checksum_of(rom),
        crate::header::global_checksum_in_header(rom) == crate::header::global_checksum_of(rom),
    ensures
        header_warnings_of(rom).len() == 0,
{
}

fn copy_bytes(v: &Vec<u8>) -> (r: Vec<u8>)
    ensures
        r@ == v@,
{
    let mut out: Vec<u8> = Vec::new();
    let mut i: usize = 0;
    while i < v.len()
        invariant
            i <= v@.len(),
            out@ == v@.take(i as int),
        decreases v@.len() - i,
    {
        out.push(v[i]);
        assert(out@ =~= v@.take(i + 1));
        i += 1;
    }
    assert(v@.take(v@.len() as int) =~= v@);
    out
}

fn copy_warnings(v: &Vec<CartridgeHeaderWarning>) -> (r: Vec<CartridgeHeaderWarning>)
    ensures
        r@ == v@,
{
    let mut out: Vec<CartridgeHeaderWarning> = Vec::new();
    let mut i: usize = 0;
    while i < v.len()
        invariant
            i <= v@.len(),
            out@ == v@.take(i as int),
        decreases v@.len() - i,
    {
        out.push(v[i]);
        assert(out@ =~= v@.take(i + 1));
        i += 1;
    }
    assert(v@.take(v@.len() as int) =~= v@);
    out
}

proof fn lemma_low_masks(value: u8)
    ensures
        (value & 0x0F) == value % 16,
        (value & 0x1F) == value % 32,
        (value & 0x03) == value % 4,
        (value & 0x01) == value % 2,
        (value & 0x7F) == value % 128,
        (value & 0x07) == value % 8,
{
    assert((value & 0x0F) == value % 16) by {
            crate::bits::lemma_bits();
        }
    assert((value & 0x1F) == value % 32) by {
            crate::bits::lemma_bits();
        }
    assert((value & 0x03) == value % 4) by {
            crate::bits::lemma_bits();
        }
    assert((value & 0x01) == value % 2) by {
            crate::bits::lemma_bits();
        }
    assert((value & 0x7F) == value % 128) by {
            crate::bits::lemma_bits();
        }
    assert((value & 0x07) == value % 8) by {
            crate::bits::lemma_bits();
        }
}

#[derive(Clone, Copy, Debug, PartialEq, Eq, Structural)]
pub struct CartridgeModelModeRequest {
    pub cgb_support: CartridgeCgbSupport,
}

impl CartridgeModelModeRequest {
    pub fn prefers_cgb(self) -> (r: bool)
        ensures
            r == (self.cgb_support != CartridgeCgbSupport::NotSupported),
    {
        matches!(self.cgb_support, CartridgeCgbSupport::Supported | CartridgeCgbSupport::Required)
    }

    pub fn requires_cgb(self) -> (r: bool)
        ensures
            r == (self.cgb_support == CartridgeCgbSupport::Required),
    {
        matches!(self.cgb_support, CartridgeCgbSupport::Required)
    }
}

#[derive(Clone, Copy, Debug, PartialEq, Eq, Structural)]
pub struct CartridgeModelCompatibility {
    pub model: HardwareModel,
    pub mode_request: CartridgeModelModeRequest,
    pub dmg_mode_allowed: bool,
    pub cgb_mode_supported_by_model: bool,
    pub cgb_mode_possible: bool,
    pub cgb_only_header_on_non_cgb_model: bool,
    pub sgb_support: CartridgeSgbSupport,
    pub sgb_features_requested: bool,
    pub sgb_features_supported_by_model: bool,
    pub sgb_features_possible: bool,
}

#[derive(Clone, Copy, Debug, PartialEq, Eq, Structural)]
pub struct CartridgeCapabilities {
    pub mapper: CartridgeMapper,
    pub has_declared_ram: bool,
    pub has_effective_ram: bool,
    pub compatibility_ram_mode: bool,
    pub has_battery: bool,
    pub has_timer: bool,
    pub has_rumble: bool,
    pub has_battery_save: bool,
    pub cgb_header_flag_raw: u8,
    pub cgb_support: CartridgeCgbSupport,
    pub supports_cgb: bool,
    pub cgb_only: bool,
    pub sgb_header_flag_raw: u8,
    pub sgb_support: CartridgeSgbSupport,
    pub supports_sgb: bool,
}

/// How a cartridge's header requests combine with a hardware model: DMG mode is
/// allowed unless the header is CGB-only; CGB mode needs a CGB request and a
/// CGB-capable model; SGB features need an SGB header and an SGB model.
pub open spec fn compatibility_spec(caps: CartridgeCapabilities, model: HardwareModel) -> CartridgeModelCompatibility {
    let request = CartridgeModelModeRequest { cgb_support: caps.cgb_support };
    let sgb_model = model == HardwareModel::Sgb || model == HardwareModel::Sgb2;
    CartridgeModelCompatibility {
        model,
        mode_request: request,
        dmg_mode_allowed: !caps.cgb_only,
        cgb_mode_supported_by_model: false,
        cgb_mode_possible: false,
        cgb_only_header_on_non_cgb_model: caps.cgb_only,
        sgb_support: caps.sgb_support,
        sgb_features_requested: caps.supports_sgb,
        sgb_features_supported_by_model: caps.supports_sgb && sgb_model,
        sgb_features_possible: caps.supports_sgb && sgb_model,
    }
}

impl CartridgeCapabilities {
    pub fn compatibility_for_model(self, model: HardwareModel) -> (r: CartridgeModelCompatibility)
        ensures
            r == compatibility_spec(self, model),
    {
        let mode_request = CartridgeModelModeRequest { cgb_support: self.cgb_support };
        let cgb_mode_supported_by_model = model.supports_cgb_mode();
        let cgb_mode_possible = mode_request.prefers_cgb() && cgb_mode_supported_by_model;
        let dmg_mode_allowed = !self.cgb_only;
        let sgb_features_requested = self.supports_sgb;
        let sgb_features_supported_by_model = sgb_features_requested
            && model.supports_sgb_features();
        CartridgeModelCompatibility {
            model,
            mode_request,
            dmg_mode_allowed,
            cgb_mode_supported_by_model,
            cgb_mode_possible,
            cgb_only_header_on_non_cgb_model: self.cgb_only && !cgb_mode_supported_by_model,
            sgb_support: self.sgb_support,
            sgb_features_requested,
            sgb_features_supported_by_model,
            sgb_features_possible: sgb_features_supported_by_model,
        }
    }
}

} // verus!
