use gb_emu::cartridge::{Cartridge, FixedRtcClock, RtcClockSource};
use gb_emu::cartridge_spec::{
    rom_size_bytes_from_code, MapperType, MBC1, MBC1_RAM, MBC1_RAM_BATTERY, MBC2, MBC2_BATTERY,
    MBC2_RAM_BYTES, MBC3, MBC3_RAM, MBC3_RAM_BATTERY, MBC3_TIMER_BATTERY, MBC3_TIMER_RAM_BATTERY,
    MBC5, MBC5_RAM, MBC5_RAM_BATTERY, MBC5_RUMBLE, MBC5_RUMBLE_RAM, MBC5_RUMBLE_RAM_BATTERY,
    RAM_BANK_BYTES, ROM_BANK_BYTES, ROM_ONLY, ROM_RAM, ROM_RAM_BATTERY,
};
use gb_emu::cartridge_types::{CartridgeError, CartridgeHeaderWarning, CartridgeMapper, CartridgeMetadata};
use gb_emu::header::{
    compute_global_checksum, compute_header_checksum, CartridgeCgbSupport,
    GLOBAL_CHECKSUM_HIGH_OFFSET, GLOBAL_CHECKSUM_LOW_OFFSET, HEADER_CHECKSUM_OFFSET,
    HEADER_LOGO_END, HEADER_LOGO_START, NINTENDO_LOGO_BYTES,
};

fn make_rom(size: usize, cart_type: u8, rom_size_code: u8, ram_size_code: u8) -> Vec<u8> {
    let mut rom = vec![0; size];
    rom[0x0147] = cart_type;
    rom[0x0148] = rom_size_code;
    rom[0x0149] = ram_size_code;
    rom
}

fn fill_each_rom_bank_first_byte(rom: &mut [u8]) {
    let bank_count = rom.len() / ROM_BANK_BYTES;
    for bank in 0..bank_count {
        rom[bank * ROM_BANK_BYTES] = bank as u8;
    }
}

fn apply_valid_header_signature(rom: &mut [u8]) {
    rom[HEADER_LOGO_START..=HEADER_LOGO_END].copy_from_slice(&NINTENDO_LOGO_BYTES);
    let header_checksum = compute_header_checksum(rom);
    rom[HEADER_CHECKSUM_OFFSET] = header_checksum;
    let global_checksum = compute_global_checksum(rom);
    rom[GLOBAL_CHECKSUM_HIGH_OFFSET] = (global_checksum >> 8) as u8;
    rom[GLOBAL_CHECKSUM_LOW_OFFSET] = global_checksum as u8;
}

/// A cartridge whose RTC reads the given time (the host time, which tests move on).
fn load_with_clock(rom: Vec<u8>, now_epoch_secs: u64) -> Result<Cartridge, CartridgeError> {
    Cartridge::from_bytes_with_clock(rom, RtcClockSource::Fixed(FixedRtcClock::new(now_epoch_secs)))
}

#[derive(Clone, Copy)]
struct MapperConformanceCase {
    name: &'static str,
    cart_type: u8,
    rom_size_code: u8,
    ram_size_code: u8,
    expected_mapper: MapperType,
    expected_ram_bytes: usize,
    has_battery: bool,
    has_timer: bool,
    has_rumble: bool,
}

fn case(
    name: &'static str,
    cart_type: u8,
    rom_size_code: u8,
    ram_size_code: u8,
    expected_mapper: MapperType,
    expected_ram_bytes: usize,
    has_battery: bool,
    has_timer: bool,
    has_rumble: bool,
) -> MapperConformanceCase {
    MapperConformanceCase {
        name,
        cart_type,
        rom_size_code,
        ram_size_code,
        expected_mapper,
        expected_ram_bytes,
        has_battery,
        has_timer,
        has_rumble,
    }
}

fn mapper_conformance_cases() -> [MapperConformanceCase; 19] {
    [
        case("ROM_ONLY", ROM_ONLY, 0x00, 0x00, MapperType::RomOnly, RAM_BANK_BYTES, false, false, false),
        case("ROM_RAM", ROM_RAM, 0x00, 0x02, MapperType::RomOnly, 8 * 1024, false, false, false),
        case("ROM_RAM_BATTERY", ROM_RAM_BATTERY, 0x00, 0x03, MapperType::RomOnly, 32 * 1024, true, false, false),
        case("MBC1", MBC1, 0x01, 0x00, MapperType::Mbc1, 0, false, false, false),
        case("MBC1_RAM", MBC1_RAM, 0x01, 0x02, MapperType::Mbc1, 8 * 1024, false, false, false),
        case("MBC1_RAM_BATTERY", MBC1_RAM_BATTERY, 0x01, 0x03, MapperType::Mbc1, 32 * 1024, true, false, false),
        case("MBC2", MBC2, 0x01, 0x00, MapperType::Mbc2, MBC2_RAM_BYTES, false, false, false),
        case("MBC2_BATTERY", MBC2_BATTERY, 0x01, 0x00, MapperType::Mbc2, MBC2_RAM_BYTES, true, false, false),
        case("MBC3", MBC3, 0x01, 0x00, MapperType::Mbc3, 0, false, false, false),
        case("MBC3_RAM", MBC3_RAM, 0x01, 0x02, MapperType::Mbc3, 8 * 1024, false, false, false),
        case("MBC3_RAM_BATTERY", MBC3_RAM_BATTERY, 0x01, 0x03, MapperType::Mbc3, 32 * 1024, true, false, false),
        case("MBC3_TIMER_BATTERY", MBC3_TIMER_BATTERY, 0x01, 0x00, MapperType::Mbc3, 0, true, true, false),
        case("MBC3_TIMER_RAM_BATTERY", MBC3_TIMER_RAM_BATTERY, 0x01, 0x03, MapperType::Mbc3, 32 * 1024, true, true, false),
        case("MBC5", MBC5, 0x01, 0x00, MapperType::Mbc5, 0, false, false, false),
        case("MBC5_RAM", MBC5_RAM, 0x01, 0x02, MapperType::Mbc5, 8 * 1024, false, false, false),
        case("MBC5_RAM_BATTERY", MBC5_RAM_BATTERY, 0x01, 0x04, MapperType::Mbc5, 128 * 1024, true, false, false),
        case("MBC5_RUMBLE", MBC5_RUMBLE, 0x01, 0x00, MapperType::Mbc5, 0, false, false, true),
        case("MBC5_RUMBLE_RAM", MBC5_RUMBLE_RAM, 0x01, 0x02, MapperType::Mbc5, 8 * 1024, false, false, true),
        case("MBC5_RUMBLE_RAM_BATTERY", MBC5_RUMBLE_RAM_BATTERY, 0x01, 0x03, MapperType::Mbc5, 32 * 1024, true, false, true),
    ]
}

#[test]
fn loading_validation_rejects_invalid_rom_length_for_header_code() {
    let rom = make_rom(32 * 1024 - 1, ROM_ONLY, 0x00, 0x00);
    match Cartridge::from_bytes(rom) {
        Err(CartridgeError::UnsupportedRomLength { .. }) => {}
        Err(other) => panic!("unexpected error: {}", other.message()),
        Ok(_) => panic!("expected ROM loading to fail"),
    }
}

#[test]
fn loading_validation_rejects_unsupported_rom_size_code() {
    let rom = make_rom(32 * 1024, ROM_ONLY, 0x7E, 0x00);
    match Cartridge::from_bytes(rom) {
        Err(CartridgeError::UnsupportedRomSizeCode(0x7E)) => {}
        Err(other) => panic!("unexpected error: {}", other.message()),
        Ok(_) => panic!("expected ROM loading to fail"),
    }
}

#[test]
fn loading_validation_rejects_unsupported_ram_size_code() {
    let rom = make_rom(64 * 1024, MBC1_RAM, 0x01, 0x7E);
    match Cartridge::from_bytes(rom) {
        Err(CartridgeError::UnsupportedRamSizeCode(0x7E)) => {}
        Err(other) => panic!("unexpected error: {}", other.message()),
        Ok(_) => panic!("expected ROM loading to fail"),
    }
}

#[test]
fn loading_validation_rejects_rom_only_with_64kb_size_code() {
    let rom = make_rom(64 * 1024, ROM_ONLY, 0x01, 0x00);
    match Cartridge::from_bytes(rom) {
        Err(CartridgeError::UnsupportedRomSizeForCartridge {
            cart_type,
            rom_size_code,
        }) => {
            assert_eq!(cart_type, ROM_ONLY);
            assert_eq!(rom_size_code, 0x01);
        }
        Err(other) => panic!("unexpected error: {}", other.message()),
        Ok(_) => panic!("expected ROM loading to fail"),
    }
}

