use gb_emu::cartridge::{Cartridge, FixedRtcClock, RtcClockSource};
use gb_emu::cartridge_spec::{
    rom_size_bytes_from_code, MapperType, MBC1, MBC1_RAM, MBC1_RAM_BATTERY, MBC2, MBC2_BATTERY,
    MBC2_RAM_BYTES, MBC3, MBC3_RAM, MBC3_RAM_BATTERY, MBC3_TIMER_BATTERY, MBC3_TIMER_RAM_BATTERY,
    MBC5, MBC5_RAM, MBC5_RAM_BATTERY, MBC5_RUMBLE, MBC5_RUMBLE_RAM, MBC5_RUMBLE_RAM_BATTERY,
    RAM_BANK_BYTES, ROM_BANK_BYTES, ROM_ONLY, ROM_RAM, ROM_RAM_BATTERY,
};
use gb_emu::cartridge_types::{CartridgeError, CartridgeHeaderWarning, CartridgeMapper, CartridgeMetadata};
use gb_emu::header::{
    compute_global_checksum, compute_header_checksum, CartridgeCgbSupport,
    GLOBAL_CHECKSUM_HIGH_OFFSET, GLOBAL_CHECKSUM_LOW_OFFSET, HEADER_CHECKSUM_OFFSET,
    HEADER_LOGO_END, HEADER_LOGO_START, NINTENDO_LOGO_BYTES,
};

fn make_rom(size: usize, cart_type: u8, rom_size_code: u8, ram_size_code: u8) -> Vec<u8> {
    let mut rom = vec![0; size];
    rom[0x0147] = cart_type;
    rom[0x0148] = rom_size_code;
    rom[0x0149] = ram_size_code;
    rom
}

fn fill_each_rom_bank_first_byte(rom: &mut [u8]) {
    let bank_count = rom.len() / ROM_BANK_BYTES;
    for bank in 0..bank_count {
        rom[bank * ROM_BANK_BYTES] = bank as u8;
    }
}

fn apply_valid_header_signature(rom: &mut [u8]) {
    rom[HEADER_LOGO_START..=HEADER_LOGO_END].copy_from_slice(&NINTENDO_LOGO_BYTES);
    let header_checksum = compute_header_checksum(rom);
    rom[HEADER_CHECKSUM_OFFSET] = header_checksum;
    let global_checksum = compute_global_checksum(rom);
    rom[GLOBAL_CHECKSUM_HIGH_OFFSET] = (global_checksum >> 8) as u8;
    rom[GLOBAL_CHECKSUM_LOW_OFFSET] = global_checksum as u8;
}

/// A cartridge whose RTC reads the given time (the host time, which tests move on).
fn load_with_clock(rom: Vec<u8>, now_epoch_secs: u64) -> Result<Cartridge, CartridgeError> {
    Cartridge::from_bytes_with_clock(rom, RtcClockSource::Fixed(FixedRtcClock::new(now_epoch_secs)))
}

#[derive(Clone, Copy)]
struct MapperConformanceCase {
    name: &'static str,
    cart_type: u8,
    rom_size_code: u8,
    ram_size_code: u8,
    expected_mapper: MapperType,
    expected_ram_bytes: usize,
    has_battery: bool,
    has_timer: bool,
    has_rumble: bool,
}

fn case(
    name: &'static str,
    cart_type: u8,
    rom_size_code: u8,
    ram_size_code: u8,
    expected_mapper: MapperType,
    expected_ram_bytes: usize,
    has_battery: bool,
    has_timer: bool,
    has_rumble: bool,
) -> MapperConformanceCase {
    MapperConformanceCase {
        name,
        cart_type,
        rom_size_code,
        ram_size_code,
        expected_mapper,
        expected_ram_bytes,
        has_battery,
        has_timer,
        has_rumble,
    }
}

fn mapper_conformance_cases() -> [MapperConformanceCase; 19] {
    [
        case("ROM_ONLY", ROM_ONLY, 0x00, 0x00, MapperType::RomOnly, RAM_BANK_BYTES, false, false, false),
        case("ROM_RAM", ROM_RAM, 0x00, 0x02, MapperType::RomOnly, 8 * 1024, false, false, false),
        case("ROM_RAM_BATTERY", ROM_RAM_BATTERY, 0x00, 0x03, MapperType::RomOnly, 32 * 1024, true, false, false),
        case("MBC1", MBC1, 0x01, 0x00, MapperType::Mbc1, 0, false, false, false),
        case("MBC1_RAM", MBC1_RAM, 0x01, 0x02, MapperType::Mbc1, 8 * 1024, false, false, false),
        case("MBC1_RAM_BATTERY", MBC1_RAM_BATTERY, 0x01, 0x03, MapperType::Mbc1, 32 * 1024, true, false, false),
        case("MBC2", MBC2, 0x01, 0x00, MapperType::Mbc2, MBC2_RAM_BYTES, false, false, false),
        case("MBC2_BATTERY", MBC2_BATTERY, 0x01, 0x00, MapperType::Mbc2, MBC2_RAM_BYTES, true, false, false),
        case("MBC3", MBC3, 0x01, 0x00, MapperType::Mbc3, 0, false, false, false),
        case("MBC3_RAM", MBC3_RAM, 0x01, 0x02, MapperType::Mbc3, 8 * 1024, false, false, false),
        case("MBC3_RAM_BATTERY", MBC3_RAM_BATTERY, 0x01, 0x03, MapperType::Mbc3, 32 * 1024, true, false, false),
        case("MBC3_TIMER_BATTERY", MBC3_TIMER_BATTERY, 0x01, 0x00, MapperType::Mbc3, 0, true, true, false),
        case("MBC3_TIMER_RAM_BATTERY", MBC3_TIMER_RAM_BATTERY, 0x01, 0x03, MapperType::Mbc3, 32 * 1024, true, true, false),
        case("MBC5", MBC5, 0x01, 0x00, MapperType::Mbc5, 0, false, false, false),
        case("MBC5_RAM", MBC5_RAM, 0x01, 0x02, MapperType::Mbc5, 8 * 1024, false, false, false),
        case("MBC5_RAM_BATTERY", MBC5_RAM_BATTERY, 0x01, 0x04, MapperType::Mbc5, 128 * 1024, true, false, false),
        case("MBC5_RUMBLE", MBC5_RUMBLE, 0x01, 0x00, MapperType::Mbc5, 0, false, false, true),
        case("MBC5_RUMBLE_RAM", MBC5_RUMBLE_RAM, 0x01, 0x02, MapperType::Mbc5, 8 * 1024, false, false, true),
        case("MBC5_RUMBLE_RAM_BATTERY", MBC5_RUMBLE_RAM_BATTERY, 0x01, 0x03, MapperType::Mbc5, 32 * 1024, true, false, true),
    ]
}

#[test]
fn rtc_and_persistence_mbc3_rtc_halt_stops_elapsed_time_with_test_clock() {
    let rom = make_rom(32 * 1024, MBC3_TIMER_BATTERY, 0x00, 0x00);
    let mut cart = load_with_clock(rom, 100).expect("valid MBC3 ROM should load");

    cart.write_rom_control(0x0000, 0x0A);
    cart.write_rom_control(0x4000, 0x08);
    cart.write_ram_byte(0xA000, 10);

    cart.write_rom_control(0x4000, 0x0C);
    cart.write_ram_byte(0xA000, 0x40);

    cart.set_host_rtc_epoch_secs(Some(160));
    cart.write_rom_control(0x4000, 0x08);
    assert_eq!(cart.read_ram_byte(0xA000), 10);

    cart.write_rom_control(0x4000, 0x0C);
    cart.write_ram_byte(0xA000, 0x00);

    cart.set_host_rtc_epoch_secs(Some(165));
    cart.write_rom_control(0x4000, 0x08);
    assert_eq!(cart.read_ram_byte(0xA000), 15);
}

#[test]
fn rtc_and_persistence_mbc3_rtc_latch_snapshot_is_stable_until_next_latch_with_test_clock() {
    let rom = make_rom(32 * 1024, MBC3_TIMER_BATTERY, 0x00, 0x00);
    let mut cart = load_with_clock(rom, 10).expect("valid MBC3 ROM should load");

    cart.write_rom_control(0x0000, 0x0A);
    cart.write_rom_control(0x4000, 0x08);
    cart.write_ram_byte(0xA000, 0);

    cart.set_host_rtc_epoch_secs(Some(15));
    cart.write_rom_control(0x6000, 0x00);
    cart.write_rom_control(0x6000, 0x01);

    cart.set_host_rtc_epoch_secs(Some(20));
    cart.write_rom_control(0x4000, 0x08);
    assert_eq!(cart.read_ram_byte(0xA000), 5);

    cart.write_rom_control(0x6000, 0x00);
    cart.write_rom_control(0x6000, 0x01);
    assert_eq!(cart.read_ram_byte(0xA000), 10);
}

#[test]
fn rtc_and_persistence_mbc3_rtc_day_counter_sets_carry_after_overflow_with_test_clock() {
    let rom = make_rom(32 * 1024, MBC3_TIMER_BATTERY, 0x00, 0x00);
    let mut cart = load_with_clock(rom, 0).expect("valid MBC3 ROM should load");

    cart.write_rom_control(0x0000, 0x0A);
    cart.write_rom_control(0x4000, 0x0B);
    cart.write_ram_byte(0xA000, 0xFF);
    cart.write_rom_control(0x4000, 0x0C);
    cart.write_ram_byte(0xA000, 0x01);

    cart.set_host_rtc_epoch_secs(Some(86_400));
    cart.write_rom_control(0x4000, 0x0B);
    assert_eq!(cart.read_ram_byte(0xA000), 0x00);
    cart.write_rom_control(0x4000, 0x0C);
    let day_high = cart.read_ram_byte(0xA000);
    assert_eq!(day_high & 0x01, 0x00);
    assert_eq!(day_high & 0x80, 0x80);
}

#[test]
fn rtc_and_persistence_save_ram_persistence_bytes_roundtrip_restores_battery_ram() {
    let rom = make_rom(64 * 1024, MBC1_RAM_BATTERY, 0x01, 0x02);
    let mut first = Cartridge::from_bytes(rom.clone()).expect("cartridge should load");
    first.write_rom_control(0x0000, 0x0A);
    first.write_ram_byte(0xA000, 0x5A);
    first.write_ram_byte(0xA123, 0xC3);

    let persisted = first
        .export_save_ram_bytes()
        .expect("battery-backed RAM should export persistence bytes");

    let mut second = Cartridge::from_bytes(rom).expect("cartridge should load");
    second.import_save_ram_bytes(&persisted);
    second.write_rom_control(0x0000, 0x0A);
    assert_eq!(second.read_ram_byte(0xA000), 0x5A);
    assert_eq!(second.read_ram_byte(0xA123), 0xC3);
}

#[test]
fn rtc_and_persistence_rtc_persistence_bytes_roundtrip_restores_mbc3_rtc_state() {
    let rom = make_rom(32 * 1024, MBC3_TIMER_BATTERY, 0x00, 0x00);
    let mut first = load_with_clock(rom.clone(), 100).expect("cartridge should load");
    first.write_rom_control(0x0000, 0x0A);
    first.write_rom_control(0x4000, 0x0C);
    first.write_ram_byte(0xA000, 0x40);
    first.write_rom_control(0x4000, 0x08);
    first.write_ram_byte(0xA000, 33);

    let rtc_bytes = first
        .export_rtc_persistence_bytes()
        .expect("MBC3 timer cartridge should export RTC persistence bytes");

    let mut second = load_with_clock(rom, 100).expect("cartridge should load");
    assert!(second.import_rtc_persistence_bytes(&rtc_bytes));

    second.write_rom_control(0x0000, 0x0A);
    second.write_rom_control(0x4000, 0x0C);
    assert_eq!(second.read_ram_byte(0xA000) & 0x40, 0x40);
    second.write_rom_control(0x4000, 0x08);
    assert_eq!(second.read_ram_byte(0xA000), 33);
}

