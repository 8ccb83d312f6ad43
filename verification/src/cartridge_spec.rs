//! The cartridge type table of the header (byte 0x0147) and the ROM/RAM size codes
//! (bytes 0x0148 and 0x0149).
use crate::cartridge_types::CartridgeMapper;
use vstd::prelude::*;

verus! {

pub const ROM_ONLY: u8 = 0x00;
pub const ROM_RAM: u8 = 0x08;
pub const ROM_RAM_BATTERY: u8 = 0x09;
pub const MBC1: u8 = 0x01;
pub const MBC1_RAM: u8 = 0x02;
pub const MBC1_RAM_BATTERY: u8 = 0x03;
pub const MBC2: u8 = 0x05;
pub const MBC2_BATTERY: u8 = 0x06;
pub const MBC3_TIMER_BATTERY: u8 = 0x0F;
pub const MBC3_TIMER_RAM_BATTERY: u8 = 0x10;
pub const MBC3: u8 = 0x11;
pub const MBC3_RAM: u8 = 0x12;
pub const MBC3_RAM_BATTERY: u8 = 0x13;
pub const MBC5: u8 = 0x19;
pub const MBC5_RAM: u8 = 0x1A;
pub const MBC5_RAM_BATTERY: u8 = 0x1B;
pub const MBC5_RUMBLE: u8 = 0x1C;
pub const MBC5_RUMBLE_RAM: u8 = 0x1D;
pub const MBC5_RUMBLE_RAM_BATTERY: u8 = 0x1E;
pub const ROM_BANK_BYTES: usize = 0x4000;
pub const RAM_BANK_BYTES: usize = 0x2000;
pub const MBC2_RAM_BYTES: usize = 512;
pub const ROM_ONLY_ROM_BANK_COUNT: usize = 2;

#[derive(Clone, Copy, Debug, PartialEq, Eq, Structural)]
pub enum MapperType {
    RomOnly,
    Mbc1,
    Mbc2,
    Mbc3,
    Mbc5,
}

#[derive(Clone, Copy, Debug, PartialEq, Eq, Structural)]
pub struct CartridgeSpec {
    pub mapper: MapperType,
    pub has_ram: bool,
    pub has_battery: bool,
    pub has_timer: bool,
}

pub open spec fn mk_spec(mapper: MapperType, has_ram: bool, has_battery: bool, has_timer: bool) -> CartridgeSpec {
    CartridgeSpec { mapper, has_ram, has_battery, has_timer }
}

/// The supported cartridge types and what each provides.
pub open spec fn spec_for_type(cart_type: u8) -> Option<CartridgeSpec> {
    if cart_type == ROM_ONLY {
        Some(mk_spec(MapperType::RomOnly, false, false, false))
    } else if cart_type == ROM_RAM {
        Some(mk_spec(MapperType::RomOnly, true, false, false))
    } else if cart_type == ROM_RAM_BATTERY {
        Some(mk_spec(MapperType::RomOnly, true, true, false))
    } else if cart_type == MBC1 {
        Some(mk_spec(MapperType::Mbc1, false, false, false))
    } else if cart_type == MBC1_RAM {
        Some(mk_spec(MapperType::Mbc1, true, false, false))
    } else if cart_type == MBC1_RAM_BATTERY {
        Some(mk_spec(MapperType::Mbc1, true, true, false))
    } else if cart_type == MBC2 {
        Some(mk_spec(MapperType::Mbc2, true, false, false))
    } else if cart_type == MBC2_BATTERY {
        Some(mk_spec(MapperType::Mbc2, true, true, false))
    } else if cart_type == MBC3 {
        Some(mk_spec(MapperType::Mbc3, false, false, false))
    } else if cart_type == MBC3_RAM {
        Some(mk_spec(MapperType::Mbc3, true, false, false))
    } else if cart_type == MBC3_RAM_BATTERY {
        Some(mk_spec(MapperType::Mbc3, true, true, false))
    } else if cart_type == MBC3_TIMER_BATTERY {
        Some(mk_spec(MapperType::Mbc3, false, true, true))
    } else if cart_type == MBC3_TIMER_RAM_BATTERY {
        Some(mk_spec(MapperType::Mbc3, true, true, true))
    } else if cart_type == MBC5 || cart_type == MBC5_RUMBLE {
        Some(mk_spec(MapperType::Mbc5, false, false, false))
    } else if cart_type == MBC5_RAM || cart_type == MBC5_RUMBLE_RAM {
        Some(mk_spec(MapperType::Mbc5, true, false, false))
    } else if cart_type == MBC5_RAM_BATTERY || cart_type == MBC5_RUMBLE_RAM_BATTERY {
        Some(mk_spec(MapperType::Mbc5, true, true, false))
    } else {
        None
    }
}

pub fn cartridge_spec(cart_type: u8) -> (r: Option<CartridgeSpec>)
    ensures
        r == spec_for_type(cart_type),
{
    let spec = match cart_type {
        ROM_ONLY => CartridgeSpec {
            mapper: MapperType::RomOnly,
            has_ram: false,
            has_battery: false,
            has_timer: false,
        },
        ROM_RAM => CartridgeSpec {
            mapper: MapperType::RomOnly,
            has_ram: true,
            has_battery: false,
            has_timer: false,
        },
        ROM_RAM_BATTERY => CartridgeSpec {
            mapper: MapperType::RomOnly,
            has_ram: true,
            has_battery: true,
            has_timer: false,
        },
        MBC1 => CartridgeSpec {
            mapper: MapperType::Mbc1,
            has_ram: false,
            has_battery: false,
            has_timer: false,
        },
        MBC1_RAM => CartridgeSpec {
            mapper: MapperType::Mbc1,
            has_ram: true,
            has_battery: false,
            has_timer: false,
        },
        MBC1_RAM_BATTERY => CartridgeSpec {
            mapper: MapperType::Mbc1,
            has_ram: true,
            has_battery: true,
            has_timer: false,
        },
        MBC2 => CartridgeSpec {
            mapper: MapperType::Mbc2,
            has_ram: true,
            has_battery: false,
            has_timer: false,
        },
        MBC2_BATTERY => CartridgeSpec {
            mapper: MapperType::Mbc2,
            has_ram: true,
            has_battery: true,
            has_timer: false,
        },
        MBC3 => CartridgeSpec {
            mapper: MapperType::Mbc3,
            has_ram: false,
            has_battery: false,
            has_timer: false,
        },
        MBC3_RAM => CartridgeSpec {
            mapper: MapperType::Mbc3,
            has_ram: true,
            has_battery: false,
            has_timer: false,
        },
        MBC3_RAM_BATTERY => CartridgeSpec {
            mapper: MapperType::Mbc3,
            has_ram: true,
            has_battery: true,
            has_timer: false,
        },
        MBC3_TIMER_BATTERY => CartridgeSpec {
            mapper: MapperType::Mbc3,
            has_ram: false,
            has_battery: true,
            has_timer: true,
        },
        MBC3_TIMER_RAM_BATTERY => CartridgeSpec {
            mapper: MapperType::Mbc3,
            has_ram: true,
            has_battery: true,
            has_timer: true,
        },
        MBC5 | MBC5_RUMBLE => CartridgeSpec {
            mapper: MapperType::Mbc5,
            has_ram: false,
            has_battery: false,
            has_timer: false,
        },
        MBC5_RAM | MBC5_RUMBLE_RAM => CartridgeSpec {
            mapper: MapperType::Mbc5,
            has_ram: true,
            has_battery: false,
            has_timer: false,
        },
        MBC5_RAM_BATTERY | MBC5_RUMBLE_RAM_BATTERY => CartridgeSpec {
            mapper: MapperType::Mbc5,
            has_ram: true,
            has_battery: true,
            has_timer: false,
        },
        _ => return None,
    };
    Some(spec)
}

/// Every mapper chip except the plain ROM gates its external RAM behind an enable write.
pub fn mapper_uses_ram_gate(mapper: MapperType) -> (r: bool)
    ensures
        r == (mapper != MapperType::RomOnly),
{
    match mapper {
        MapperType::Mbc1 | MapperType::Mbc2 | MapperType::Mbc3 | MapperType::Mbc5 => true,
        MapperType::RomOnly => false,
    }
}

pub open spec fn public_mapper_of(mapper: MapperType) -> CartridgeMapper {
    match mapper {
        MapperType::RomOnly => CartridgeMapper::RomOnly,
        MapperType::Mbc1 => CartridgeMapper::Mbc1,
        MapperType::Mbc2 => CartridgeMapper::Mbc2,
        MapperType::Mbc3 => CartridgeMapper::Mbc3,
        MapperType::Mbc5 => CartridgeMapper::Mbc5,
    }
}

pub fn public_mapper(mapper: MapperType) -> (r: CartridgeMapper)
    ensures
        r == public_mapper_of(mapper),
{
    match mapper {
        MapperType::RomOnly => CartridgeMapper::RomOnly,
        MapperType::Mbc1 => CartridgeMapper::Mbc1,
        MapperType::Mbc2 => CartridgeMapper::Mbc2,
        MapperType::Mbc3 => CartridgeMapper::Mbc3,
        MapperType::Mbc5 => CartridgeMapper::Mbc5,
    }
}

pub open spec fn is_rumble_type(cart_type: u8) -> bool {
    cart_type == MBC5_RUMBLE || cart_type == MBC5_RUMBLE_RAM || cart_type
        == MBC5_RUMBLE_RAM_BATTERY
}

pub fn is_mbc5_rumble_type(cart_type: u8) -> (r: bool)
    ensures
        r == is_rumble_type(cart_type),
{
    matches!(cart_type, MBC5_RUMBLE | MBC5_RUMBLE_RAM | MBC5_RUMBLE_RAM_BATTERY)
}

/// Number of 16 KiB ROM banks announced by a ROM size code.
pub open spec fn rom_banks_for_code(code: u8) -> Option<nat> {
    if code <= 0x08 {
        Some(vstd::arithmetic::power2::pow2((code + 1) as nat))
    } else if code == 0x52 {
        Some(72)
    } else if code == 0x53 {
        Some(80)
    } else if code == 0x54 {
        Some(96)
    } else {
        None
    }
}

pub open spec fn rom_size_for_code(code: u8) -> Option<usize> {
    match rom_banks_for_code(code) {
        Some(banks) => Some((banks * ROM_BANK_BYTES) as usize),
        None => None,
    }
}

pub fn rom_size_bytes_from_code(code: u8) -> (r: Option<usize>)
    ensures
        r == rom_size_for_code(code),
        r matches Some(n) ==> n % ROM_BANK_BYTES == 0 && 2 * ROM_BANK_BYTES <= n <= 512 * ROM_BANK_BYTES,
{
    proof {
        vstd::arithmetic::power2::lemma2_to64();
    }
    let bytes = match code {
        0x00 => 2 * ROM_BANK_BYTES,
        0x01 => 4 * ROM_BANK_BYTES,
        0x02 => 8 * ROM_BANK_BYTES,
        0x03 => 16 * ROM_BANK_BYTES,
        0x04 => 32 * ROM_BANK_BYTES,
        0x05 => 64 * ROM_BANK_BYTES,
        0x06 => 128 * ROM_BANK_BYTES,
        0x07 => 256 * ROM_BANK_BYTES,
        0x08 => 512 * ROM_BANK_BYTES,
        0x52 => 72 * ROM_BANK_BYTES,
        0x53 => 80 * ROM_BANK_BYTES,
        0x54 => 96 * ROM_BANK_BYTES,
        _ => return None,
    };
    Some(bytes)
}

/// External RAM size announced by a RAM size code.
pub open spec fn ram_size_for_code(code: u8) -> Option<usize> {
    if code == 0x00 {
        Some(0usize)
    } else if code == 0x01 {
        Some(2048usize)
    } else if code == 0x02 {
        Some(8192usize)
    } else if code == 0x03 {
        Some(32768usize)
    } else if code == 0x04 {
        Some(131072usize)
    } else if code == 0x05 {
        Some(65536usize)
    } else {
        None
    }
}

pub fn ram_size_bytes_from_code(code: u8) -> (r: Option<usize>)
    ensures
        r == ram_size_for_code(code),
{
    let bytes = match code {
        0x00 => 0,
        0x01 => 2 * 1024,
        0x02 => 8 * 1024,
        0x03 => 32 * 1024,
        0x04 => 128 * 1024,
        0x05 => 64 * 1024,
        _ => return None,
    };
    Some(bytes)
}

} // verus!
