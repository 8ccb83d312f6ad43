use gb_emu::cartridge::{Cartridge, FixedRtcClock, RtcClockSource};
use gb_emu::cartridge_spec::{
    rom_size_bytes_from_code, MapperType, MBC1, MBC1_RAM, MBC1_RAM_BATTERY, MBC2, MBC2_BATTERY,
    MBC2_RAM_BYTES, MBC3, MBC3_RAM, MBC3_RAM_BATTERY, MBC3_TIMER_BATTERY, MBC3_TIMER_RAM_BATTERY,
    MBC5, MBC5_RAM, MBC5_RAM_BATTERY, MBC5_RUMBLE, MBC5_RUMBLE_RAM, MBC5_RUMBLE_RAM_BATTERY,
    RAM_BANK_BYTES, ROM_BANK_BYTES, ROM_ONLY, ROM_RAM, ROM_RAM_BATTERY,
};
use gb_emu::cartridge_types::{CartridgeError, CartridgeHeaderWarning, CartridgeMapper, CartridgeMetadata};
use gb_emu::header::{
    compute_global_checksum, compute_header_checksum, CartridgeCgbSupport,
    GLOBAL_CHECKSUM_HIGH_OFFSET, GLOBAL_CHECKSUM_LOW_OFFSET, HEADER_CHECKSUM_OFFSET,
    HEADER_LOGO_END, HEADER_LOGO_START, NINTENDO_LOGO_BYTES,
};

fn make_rom(size: usize, cart_type: u8, rom_size_code: u8, ram_size_code: u8) -> Vec<u8> {
    let mut rom = vec![0; size];
    rom[0x0147] = cart_type;
    rom[0x0148] = rom_size_code;
    rom[0x0149] = ram_size_code;
    rom
}

fn fill_each_rom_bank_first_byte(rom: &mut [u8]) {
    let bank_count = rom.len() / ROM_BANK_BYTES;
    for bank in 0..bank_count {
        rom[bank * ROM_BANK_BYTES] = bank as u8;
    }
}

fn apply_valid_header_signature(rom: &mut [u8]) {
    rom[HEADER_LOGO_START..=HEADER_LOGO_END].copy_from_slice(&NINTENDO_LOGO_BYTES);
    let header_checksum = compute_header_checksum(rom);
    rom[HEADER_CHECKSUM_OFFSET] = header_checksum;
    let global_checksum = compute_global_checksum(rom);
    rom[GLOBAL_CHECKSUM_HIGH_OFFSET] = (global_checksum >> 8) as u8;
    rom[GLOBAL_CHECKSUM_LOW_OFFSET] = global_checksum as u8;
}

/// A cartridge whose RTC reads the given time (the host time, which tests move on).
fn load_with_clock(rom: Vec<u8>, now_epoch_secs: u64) -> Result<Cartridge, CartridgeError> {
    Cartridge::from_bytes_with_clock(rom, RtcClockSource::Fixed(FixedRtcClock::new(now_epoch_secs)))
}

#[derive(Clone, Copy)]
struct MapperConformanceCase {
    name: &'static str,
    cart_type: u8,
    rom_size_code: u8,
    ram_size_code: u8,
    expected_mapper: MapperType,
    expected_ram_bytes: usize,
    has_battery: bool,
    has_timer: bool,
    has_rumble: bool,
}

fn case(
    name: &'static str,
    cart_type: u8,
    rom_size_code: u8,
    ram_size_code: u8,
    expected_mapper: MapperType,
    expected_ram_bytes: usize,
    has_battery: bool,
    has_timer: bool,
    has_rumble: bool,
) -> MapperConformanceCase {
    MapperConformanceCase {
        name,
        cart_type,
        rom_size_code,
        ram_size_code,
        expected_mapper,
        expected_ram_bytes,
        has_battery,
        has_timer,
        has_rumble,
    }
}

fn mapper_conformance_cases() -> [MapperConformanceCase; 19] {
    [
        case("ROM_ONLY", ROM_ONLY, 0x00, 0x00, MapperType::RomOnly, RAM_BANK_BYTES, false, false, false),
        case("ROM_RAM", ROM_RAM, 0x00, 0x02, MapperType::RomOnly, 8 * 1024, false, false, false),
        case("ROM_RAM_BATTERY", ROM_RAM_BATTERY, 0x00, 0x03, MapperType::RomOnly, 32 * 1024, true, false, false),
        case("MBC1", MBC1, 0x01, 0x00, MapperType::Mbc1, 0, false, false, false),
        case("MBC1_RAM", MBC1_RAM, 0x01, 0x02, MapperType::Mbc1, 8 * 1024, false, false, false),
        case("MBC1_RAM_BATTERY", MBC1_RAM_BATTERY, 0x01, 0x03, MapperType::Mbc1, 32 * 1024, true, false, false),
        case("MBC2", MBC2, 0x01, 0x00, MapperType::Mbc2, MBC2_RAM_BYTES, false, false, false),
        case("MBC2_BATTERY", MBC2_BATTERY, 0x01, 0x00, MapperType::Mbc2, MBC2_RAM_BYTES, true, false, false),
        case("MBC3", MBC3, 0x01, 0x00, MapperType::Mbc3, 0, false, false, false),
        case("MBC3_RAM", MBC3_RAM, 0x01, 0x02, MapperType::Mbc3, 8 * 1024, false, false, false),
        case("MBC3_RAM_BATTERY", MBC3_RAM_BATTERY, 0x01, 0x03, MapperType::Mbc3, 32 * 1024, true, false, false),
        case("MBC3_TIMER_BATTERY", MBC3_TIMER_BATTERY, 0x01, 0x00, MapperType::Mbc3, 0, true, true, false),
        case("MBC3_TIMER_RAM_BATTERY", MBC3_TIMER_RAM_BATTERY, 0x01, 0x03, MapperType::Mbc3, 32 * 1024, true, true, false),
        case("MBC5", MBC5, 0x01, 0x00, MapperType::Mbc5, 0, false, false, false),
        case("MBC5_RAM", MBC5_RAM, 0x01, 0x02, MapperType::Mbc5, 8 * 1024, false, false, false),
        case("MBC5_RAM_BATTERY", MBC5_RAM_BATTERY, 0x01, 0x04, MapperType::Mbc5, 128 * 1024, true, false, false),
        case("MBC5_RUMBLE", MBC5_RUMBLE, 0x01, 0x00, MapperType::Mbc5, 0, false, false, true),
        case("MBC5_RUMBLE_RAM", MBC5_RUMBLE_RAM, 0x01, 0x02, MapperType::Mbc5, 8 * 1024, false, false, true),
        case("MBC5_RUMBLE_RAM_BATTERY", MBC5_RUMBLE_RAM_BATTERY, 0x01, 0x03, MapperType::Mbc5, 32 * 1024, true, false, true),
    ]
}

#[test]
fn mod_rom_only_loading_does_not_query_rtc_clock() {
    let rom = make_rom(32 * 1024, ROM_ONLY, 0x00, 0x00);

    let cart = load_with_clock(rom, 0)
        .expect("ROM-only cartridge should load without consulting RTC clock");

    assert_eq!(cart.info.mapper, MapperType::RomOnly);
    assert!(!cart.info.has_timer);
    assert!(cart.rtc.is_none());
}

#[test]
fn mod_supported_cartridge_type_matrix_matches_expected_capabilities() {
    for case in mapper_conformance_cases() {
        let rom_len = rom_size_bytes_from_code(case.rom_size_code)
            .expect("all test cases use valid ROM size codes");
        let rom = make_rom(rom_len, case.cart_type, case.rom_size_code, case.ram_size_code);
        let cart = Cartridge::from_bytes(rom)
            .unwrap_or_else(|err| panic!("{} should load successfully: {}", case.name, err.message()));

        assert_eq!(cart.info.mapper, case.expected_mapper, "{} mapper", case.name);
        assert_eq!(cart.ram.len(), case.expected_ram_bytes, "{} RAM bytes", case.name);
        assert_eq!(cart.info.has_battery, case.has_battery, "{} battery", case.name);
        assert_eq!(cart.info.has_timer, case.has_timer, "{} timer", case.name);
        assert_eq!(cart.has_rumble(), case.has_rumble, "{} rumble flag", case.name);
        assert!(!cart.rumble_active(), "{} rumble starts disabled", case.name);

        let expected_battery_save =
            case.has_battery && (case.expected_ram_bytes > 0 || case.has_timer);
        assert_eq!(
            cart.has_battery_save(),
            expected_battery_save,
            "{} battery save capability",
            case.name
        );
    }
}

#[test]
fn mod_mapper_matrix_rejects_invalid_ram_size_combinations() {
    let invalid_cases = [
        ("ROM_ONLY", ROM_ONLY, 0x00),
        ("MBC1", MBC1, 0x01),
        ("MBC2", MBC2, 0x01),
        ("MBC3", MBC3, 0x01),
        ("MBC3_TIMER_BATTERY", MBC3_TIMER_BATTERY, 0x01),
        ("MBC5", MBC5, 0x01),
        ("MBC5_RUMBLE", MBC5_RUMBLE, 0x01),
    ];

    for (name, cart_type, rom_size_code) in invalid_cases {
        let rom_len = rom_size_bytes_from_code(rom_size_code)
            .expect("invalid matrix cases use valid ROM size codes");
        let rom = make_rom(rom_len, cart_type, rom_size_code, 0x02);
        match Cartridge::from_bytes(rom) {
            Err(CartridgeError::UnsupportedRamSizeForCartridge {
                cart_type: actual_type,
                ram_size_code,
            }) => {
                assert_eq!(actual_type, cart_type, "{name} cart type mismatch");
                assert_eq!(ram_size_code, 0x02, "{name} RAM code mismatch");
            }
            Err(other) => {
                panic!("{name} should reject with RAM-size compatibility error: {}", other.message())
            }
            Ok(_) => panic!("{name} should reject non-zero RAM size code"),
        }
    }
}

#[test]
fn mod_metadata_reports_capabilities_for_mbc3_timer_ram_battery() {
    let rom = make_rom(64 * 1024, MBC3_TIMER_RAM_BATTERY, 0x01, 0x03);
    let cart = Cartridge::from_bytes(rom).expect("valid MBC3 timer+RAM ROM should load");
    let metadata = cart.metadata();

    assert_eq!(metadata.cart_type_code, MBC3_TIMER_RAM_BATTERY);
    assert_eq!(metadata.mapper, CartridgeMapper::Mbc3);
    assert_eq!(metadata.rom_size_code, 0x01);
    assert_eq!(metadata.ram_size_code, 0x03);
    assert_eq!(metadata.rom_size_bytes, 64 * 1024);
    assert_eq!(metadata.rom_bank_count, 4);
    assert_eq!(metadata.declared_ram_size_bytes, 32 * 1024);
    assert_eq!(metadata.effective_ram_size_bytes, 32 * 1024);
    assert_eq!(metadata.ram_bank_count, 4);
    assert!(!metadata.compatibility_ram_mode);
    assert!(metadata.has_battery);
    assert!(metadata.has_timer);
    assert!(!metadata.has_rumble);
    assert!(metadata.has_battery_save);
    assert!(!metadata.rumble_active);
}

#[test]
fn mod_metadata_marks_rom_only_compatibility_ram_mode() {
    let rom = make_rom(32 * 1024, ROM_ONLY, 0x00, 0x00);
    let cart = Cartridge::from_bytes(rom).expect("valid ROM-only ROM should load");
    let metadata = cart.metadata();

    assert_eq!(metadata.cart_type_code, ROM_ONLY);
    assert_eq!(metadata.mapper, CartridgeMapper::RomOnly);
    assert_eq!(metadata.declared_ram_size_bytes, 0);
    assert_eq!(metadata.effective_ram_size_bytes, RAM_BANK_BYTES);
    assert_eq!(metadata.ram_bank_count, 1);
    assert!(metadata.compatibility_ram_mode);
    assert!(!metadata.has_battery);
    assert!(!metadata.has_timer);
    assert!(!metadata.has_rumble);
    assert!(!metadata.has_battery_save);
    assert!(!metadata.rumble_active);
}

#[test]
fn mod_capabilities_report_mapper_flags_and_cgb_header_support() {
    let mut rom = make_rom(64 * 1024, MBC3_TIMER_RAM_BATTERY, 0x01, 0x03);
    rom[0x0143] = 0x80;
    let cart = Cartridge::from_bytes(rom).expect("valid MBC3 timer+RAM ROM should load");
    let capabilities = cart.capabilities();

    assert_eq!(capabilities.mapper, CartridgeMapper::Mbc3);
    assert!(capabilities.has_declared_ram);
    assert!(capabilities.has_effective_ram);
    assert!(!capabilities.compatibility_ram_mode);
    assert!(capabilities.has_battery);
    assert!(capabilities.has_timer);
    assert!(!capabilities.has_rumble);
    assert!(capabilities.has_battery_save);
    assert_eq!(capabilities.cgb_header_flag_raw, 0x80);
    assert_eq!(capabilities.cgb_support, CartridgeCgbSupport::Supported);
    assert!(capabilities.supports_cgb);
    assert!(!capabilities.cgb_only);
}

#[test]
fn mod_capabilities_distinguish_declared_vs_effective_ram_and_cgb_only_header() {
    let mut rom = make_rom(32 * 1024, ROM_ONLY, 0x00, 0x00);
    rom[0x0143] = 0xC0;
    let cart = Cartridge::from_bytes(rom).expect("valid ROM-only ROM should load");
    let capabilities = cart.capabilities();

    assert_eq!(capabilities.mapper, CartridgeMapper::RomOnly);
    assert!(!capabilities.has_declared_ram);
    assert!(capabilities.has_effective_ram);
    assert!(capabilities.compatibility_ram_mode);
    assert!(!capabilities.has_battery);
    assert!(!capabilities.has_timer);
    assert!(!capabilities.has_rumble);
    assert!(!capabilities.has_battery_save);
    assert_eq!(capabilities.cgb_header_flag_raw, 0xC0);
    assert_eq!(capabilities.cgb_support, CartridgeCgbSupport::Required);
    assert!(capabilities.supports_cgb);
    assert!(capabilities.cgb_only);
}

#[test]
fn mod_capabilities_treat_unknown_cgb_header_flags_as_none() {
    let mut rom = make_rom(32 * 1024, ROM_ONLY, 0x00, 0x00);
    rom[0x0143] = 0x42;
    let cart = Cartridge::from_bytes(rom).expect("valid ROM-only ROM should load");
    let capabilities = cart.capabilities();

    assert_eq!(capabilities.cgb_header_flag_raw, 0x42);
    assert_eq!(capabilities.cgb_support, CartridgeCgbSupport::NotSupported);
    assert!(!capabilities.supports_cgb);
    assert!(!capabilities.cgb_only);
}

#[test]
fn metadata_debug_report_formats_core_fields_and_warnings() {
    let metadata = CartridgeMetadata {
        title: "TESTROM".to_string(),
        cart_type_code: 0x03,
        mapper: CartridgeMapper::Mbc1,
        rom_size_code: 0x01,
        ram_size_code: 0x03,
        rom_size_bytes: 64 * 1024,
        rom_bank_count: 4,
        declared_ram_size_bytes: 32 * 1024,
        effective_ram_size_bytes: 32 * 1024,
        ram_bank_count: 4,
        compatibility_ram_mode: false,
        has_battery: true,
        has_timer: false,
        has_rumble: false,
        has_battery_save: true,
        rumble_active: false,
        header_warnings: vec![
            CartridgeHeaderWarning::NintendoLogoMismatch,
            CartridgeHeaderWarning::HeaderChecksumMismatch {
                header_value: 0xAA,
                computed_value: 0xBB,
            },
        ],
    };

    let report = metadata.debug_report();
    assert!(report.contains("Cartridge Metadata"));
    assert!(report.contains("Title: TESTROM"));
    assert!(report.contains("Type: 0x03 (MBC1)"));
    assert!(report.contains("Header warnings (2):"));
    assert!(report.contains("- Nintendo logo mismatch"));
    assert!(report.contains("- Header checksum mismatch (header 0xAA, computed 0xBB)"));
}

#[test]
fn metadata_debug_report_marks_empty_warning_list() {
    let metadata = CartridgeMetadata {
        title: String::new(),
        cart_type_code: ROM_ONLY,
        mapper: CartridgeMapper::RomOnly,
        rom_size_code: 0x00,
        ram_size_code: 0x00,
        rom_size_bytes: 32 * 1024,
        rom_bank_count: 2,
        declared_ram_size_bytes: 0,
        effective_ram_size_bytes: RAM_BANK_BYTES,
        ram_bank_count: 1,
        compatibility_ram_mode: true,
        has_battery: false,
        has_timer: false,
        has_rumble: false,
        has_battery_save: false,
        rumble_active: false,
        header_warnings: Vec::new(),
    };

    let report = metadata.debug_report();
    assert!(report.contains("Title: <empty title>"));
    assert!(report.contains("Header warnings (0):"));
    assert!(report.contains("- none"));
}

#[test]
fn mod_header_diagnostics_warn_but_do_not_block_loading() {
    let rom = make_rom(64 * 1024, MBC1, 0x01, 0x00);
    let cart = Cartridge::from_bytes(rom).expect("invalid header should still load");
    let warnings = cart.header_warnings();

    assert!(warnings
        .iter()
        .any(|warning| matches!(warning, CartridgeHeaderWarning::NintendoLogoMismatch)));
    assert!(warnings.iter().any(|warning| matches!(
        warning,
        CartridgeHeaderWarning::HeaderChecksumMismatch { .. }
    )));
    assert!(warnings.iter().any(|warning| matches!(
        warning,
        CartridgeHeaderWarning::GlobalChecksumMismatch { .. }
    )));
}

#[test]
fn mod_header_diagnostics_accept_valid_logo_and_checksums() {
    let mut rom = make_rom(64 * 1024, MBC1, 0x01, 0x00);
    apply_valid_header_signature(&mut rom);

    let cart = Cartridge::from_bytes(rom).expect("valid header should load");
    assert!(cart.header_warnings().is_empty());
    assert!(cart.metadata().header_warnings.is_empty());
}

#[test]
fn mod_accepts_rom_only_32kb() {
    let rom = make_rom(32 * 1024, ROM_ONLY, 0x00, 0x00);
    let cart = Cartridge::from_bytes(rom).expect("valid ROM should load");
    assert_eq!(cart.read_rom_byte(0x1234), 0x00);
}

#[test]
fn mod_supports_extended_rom_size_codes() {
    assert_eq!(rom_size_bytes_from_code(0x00), Some(32 * 1024));
    assert_eq!(rom_size_bytes_from_code(0x06), Some(2 * 1024 * 1024));
    assert_eq!(rom_size_bytes_from_code(0x08), Some(8 * 1024 * 1024));
    assert_eq!(rom_size_bytes_from_code(0x52), Some(72 * ROM_BANK_BYTES));
    assert_eq!(rom_size_bytes_from_code(0x53), Some(80 * ROM_BANK_BYTES));
    assert_eq!(rom_size_bytes_from_code(0x54), Some(96 * ROM_BANK_BYTES));
}

#[test]
fn mod_mbc1_switches_rom_bank_low_bits() {
    let mut rom = make_rom(64 * 1024, MBC1, 0x01, 0x00);
    rom[0x4000] = 0x11;
    rom[0x4000 + 0x4000] = 0x22;

    let mut cart = Cartridge::from_bytes(rom).expect("valid MBC1 ROM should load");
    assert_eq!(cart.read_rom_byte(0x4000), 0x11);

    cart.write_rom_control(0x2000, 0x02);
    assert_eq!(cart.read_rom_byte(0x4000), 0x22);
}

#[test]
fn mod_mbc1_modes_and_banks_external_ram() {
    let rom = make_rom(256 * 1024, MBC1_RAM_BATTERY, 0x03, 0x03);
    let mut cart = Cartridge::from_bytes(rom).expect("valid MBC1+RAM+BATTERY ROM should load");

    cart.write_ram_byte(0xA000, 0x66);
    assert_eq!(cart.read_ram_byte(0xA000), 0xFF);

    cart.write_rom_control(0x0000, 0x0A);
    cart.write_ram_byte(0xA000, 0x11);
    assert_eq!(cart.read_ram_byte(0xA000), 0x11);

    cart.write_rom_control(0x6000, 0x01);
    cart.write_rom_control(0x4000, 0x01);
    cart.write_ram_byte(0xA000, 0x22);
    assert_eq!(cart.read_ram_byte(0xA000), 0x22);

    cart.write_rom_control(0x4000, 0x00);
    assert_eq!(cart.read_ram_byte(0xA000), 0x11);

    cart.write_rom_control(0x4000, 0x01);
    assert_eq!(cart.read_ram_byte(0xA000), 0x22);

    cart.write_rom_control(0x0000, 0x00);
    assert_eq!(cart.read_ram_byte(0xA000), 0xFF);
}

#[test]
fn mod_mbc1_mode_switch_changes_fixed_rom_region() {
    let mut rom = make_rom(2 * 1024 * 1024, MBC1, 0x06, 0x00);
    fill_each_rom_bank_first_byte(&mut rom);
    let mut cart = Cartridge::from_bytes(rom).expect("valid MBC1 ROM should load");

    cart.write_rom_control(0x2000, 0x01);
    cart.write_rom_control(0x4000, 0x02);
    assert_eq!(cart.read_rom_byte(0x0000), 0x00);
    assert_eq!(cart.read_rom_byte(0x4000), 0x41);

    cart.write_rom_control(0x6000, 0x01);
    assert_eq!(cart.read_rom_byte(0x0000), 0x40);
    assert_eq!(cart.read_rom_byte(0x4000), 0x41);
}

#[test]
fn mod_mbc1_ram_battery_switches_rom_bank() {
    let mut rom = make_rom(64 * 1024, MBC1_RAM_BATTERY, 0x01, 0x02);
    rom[0x4000] = 0x11;
    rom[0x4000 + 0x4000] = 0x22;

    let mut cart = Cartridge::from_bytes(rom).expect("valid MBC1+RAM+BATTERY ROM should load");
    cart.write_rom_control(0x2000, 0x02);
    assert_eq!(cart.read_rom_byte(0x4000), 0x22);
}

#[test]
fn mod_mbc5_switches_rom_bank_and_allows_bank_zero() {
    let mut rom = make_rom(64 * 1024, MBC5_RAM_BATTERY, 0x01, 0x02);
    rom[0x0000] = 0x10;
    rom[0x4000] = 0x11;
    rom[0x8000] = 0x22;

    let mut cart = Cartridge::from_bytes(rom).expect("valid MBC5 ROM should load");
    assert_eq!(cart.read_rom_byte(0x4000), 0x11);

    cart.write_rom_control(0x2000, 0x02);
    assert_eq!(cart.read_rom_byte(0x4000), 0x22);

    cart.write_rom_control(0x2000, 0x00);
    assert_eq!(cart.read_rom_byte(0x4000), 0x10);
}

#[test]
fn mod_mbc5_supports_rom_high_bit_and_ram_banks() {
    let mut rom = make_rom(8 * 1024 * 1024, MBC5_RAM_BATTERY, 0x08, 0x03);
    fill_each_rom_bank_first_byte(&mut rom);

    let mut cart = Cartridge::from_bytes(rom).expect("valid MBC5 ROM should load");
    assert_eq!(cart.read_rom_byte(0x4000), 0x01);

    cart.write_rom_control(0x2000, 0x01);
    cart.write_rom_control(0x3000, 0x01);
    assert_eq!(cart.read_rom_byte(0x4000), 0x01);

    cart.write_rom_control(0x0000, 0x0A);
    cart.write_ram_byte(0xA000, 0x11);
    cart.write_rom_control(0x4000, 0x01);
    cart.write_ram_byte(0xA000, 0x22);
    cart.write_rom_control(0x4000, 0x00);
    assert_eq!(cart.read_ram_byte(0xA000), 0x11);
    cart.write_rom_control(0x4000, 0x01);
    assert_eq!(cart.read_ram_byte(0xA000), 0x22);
}

#[test]
fn mod_mbc5_non_rumble_uses_full_4bit_ram_bank_register() {
    let rom = make_rom(64 * 1024, MBC5_RAM, 0x01, 0x04);
    let mut cart = Cartridge::from_bytes(rom).expect("valid MBC5 ROM should load");
    cart.write_rom_control(0x0000, 0x0A);

    cart.write_rom_control(0x4000, 0x00);
    cart.write_ram_byte(0xA000, 0x11);

    cart.write_rom_control(0x4000, 0x08);
    cart.write_ram_byte(0xA000, 0x88);

    cart.write_rom_control(0x4000, 0x00);
    assert_eq!(cart.read_ram_byte(0xA000), 0x11);
    cart.write_rom_control(0x4000, 0x08);
    assert_eq!(cart.read_ram_byte(0xA000), 0x88);
    assert!(!cart.has_rumble());
    assert!(!cart.rumble_active());
}

#[test]
fn mod_mbc5_rumble_masks_ram_bank_bit3_and_tracks_motor_state() {
    let rom = make_rom(64 * 1024, MBC5_RUMBLE_RAM_BATTERY, 0x01, 0x04);
    let mut cart = Cartridge::from_bytes(rom).expect("valid MBC5 RUMBLE ROM should load");
    cart.write_rom_control(0x0000, 0x0A);

    cart.write_rom_control(0x4000, 0x00);
    cart.write_ram_byte(0xA000, 0x11);

    cart.write_rom_control(0x4000, 0x08);
    assert!(cart.rumble_active());
    cart.write_ram_byte(0xA000, 0x22);

    cart.write_rom_control(0x4000, 0x00);
    assert!(!cart.rumble_active());
    assert_eq!(cart.read_ram_byte(0xA000), 0x22);

    cart.write_rom_control(0x4000, 0x01);
    cart.write_ram_byte(0xA000, 0x33);

    cart.write_rom_control(0x4000, 0x09);
    assert!(cart.rumble_active());
    assert_eq!(cart.read_ram_byte(0xA000), 0x33);

    cart.write_rom_control(0x4000, 0x00);
    assert_eq!(cart.read_ram_byte(0xA000), 0x22);
    assert!(cart.has_rumble());
}

#[test]
fn mod_mbc2_switches_rom_bank_and_uses_4bit_ram_cells() {
    let mut rom = make_rom(64 * 1024, MBC2_BATTERY, 0x01, 0x00);
    rom[0x4000] = 0x11;
    rom[0x8000] = 0x22;

    let mut cart = Cartridge::from_bytes(rom).expect("valid MBC2 ROM should load");
    assert_eq!(cart.read_rom_byte(0x4000), 0x11);

    cart.write_rom_control(0x2100, 0x02);
    assert_eq!(cart.read_rom_byte(0x4000), 0x22);

    cart.write_ram_byte(0xA000, 0xAB);
    assert_eq!(cart.read_ram_byte(0xA000), 0xFF);

    cart.write_rom_control(0x0000, 0x0A);
    cart.write_ram_byte(0xA000, 0xAB);
    assert_eq!(cart.read_ram_byte(0xA000), 0xFB);

    assert_eq!(cart.read_ram_byte(0xA200), 0xFB);
}

#[test]
fn mod_mbc3_switches_rom_bank_and_maps_zero_to_one() {
    let mut rom = make_rom(64 * 1024, MBC3, 0x01, 0x00);
    rom[0x0000] = 0x10;
    rom[0x4000] = 0x11;
    rom[0x8000] = 0x22;

    let mut cart = Cartridge::from_bytes(rom).expect("valid MBC3 ROM should load");
    assert_eq!(cart.read_rom_byte(0x4000), 0x11);

    cart.write_rom_control(0x2000, 0x02);
    assert_eq!(cart.read_rom_byte(0x4000), 0x22);

    cart.write_rom_control(0x2000, 0x00);
    assert_eq!(cart.read_rom_byte(0x4000), 0x11);
}

#[test]
fn mod_mbc3_banks_ram_and_latches_rtc_registers() {
    let rom = make_rom(256 * 1024, MBC3_TIMER_RAM_BATTERY, 0x03, 0x03);
    let mut cart = Cartridge::from_bytes(rom).expect("valid MBC3 ROM should load");

    cart.write_rom_control(0x0000, 0x0A);

    cart.write_rom_control(0x4000, 0x00);
    cart.write_ram_byte(0xA000, 0x11);
    cart.write_rom_control(0x4000, 0x01);
    cart.write_ram_byte(0xA000, 0x22);
    cart.write_rom_control(0x4000, 0x00);
    assert_eq!(cart.read_ram_byte(0xA000), 0x11);
    cart.write_rom_control(0x4000, 0x01);
    assert_eq!(cart.read_ram_byte(0xA000), 0x22);

    cart.write_rom_control(0x4000, 0x08);
    cart.write_ram_byte(0xA000, 10);

    cart.write_rom_control(0x6000, 0x00);
    cart.write_rom_control(0x6000, 0x01);
    cart.write_ram_byte(0xA000, 20);

    assert_eq!(cart.read_ram_byte(0xA000), 10);
}

#[test]
fn mod_mbc3_rtc_halt_stops_elapsed_time_with_test_clock() {
    let rom = make_rom(32 * 1024, MBC3_TIMER_BATTERY, 0x00, 0x00);
    let mut cart = load_with_clock(rom, 100).expect("valid MBC3 ROM should load");

    cart.write_rom_control(0x0000, 0x0A);
    cart.write_rom_control(0x4000, 0x08);
    cart.write_ram_byte(0xA000, 10);

    cart.write_rom_control(0x4000, 0x0C);
    cart.write_ram_byte(0xA000, 0x40);

    cart.set_host_rtc_epoch_secs(Some(160));
    cart.write_rom_control(0x4000, 0x08);
    assert_eq!(cart.read_ram_byte(0xA000), 10);

    cart.write_rom_control(0x4000, 0x0C);
    cart.write_ram_byte(0xA000, 0x00);

    cart.set_host_rtc_epoch_secs(Some(165));
    cart.write_rom_control(0x4000, 0x08);
    assert_eq!(cart.read_ram_byte(0xA000), 15);
}

#[test]
fn mod_mbc3_rtc_latch_snapshot_is_stable_until_next_latch_with_test_clock() {
    let rom = make_rom(32 * 1024, MBC3_TIMER_BATTERY, 0x00, 0x00);
    let mut cart = load_with_clock(rom, 10).expect("valid MBC3 ROM should load");

    cart.write_rom_control(0x0000, 0x0A);
    cart.write_rom_control(0x4000, 0x08);
    cart.write_ram_byte(0xA000, 0);

    cart.set_host_rtc_epoch_secs(Some(15));
    cart.write_rom_control(0x6000, 0x00);
    cart.write_rom_control(0x6000, 0x01);

    cart.set_host_rtc_epoch_secs(Some(20));
    cart.write_rom_control(0x4000, 0x08);
    assert_eq!(cart.read_ram_byte(0xA000), 5);

    cart.write_rom_control(0x6000, 0x00);
    cart.write_rom_control(0x6000, 0x01);
    assert_eq!(cart.read_ram_byte(0xA000), 10);
}

#[test]
fn mod_mbc3_rtc_day_counter_sets_carry_after_overflow_with_test_clock() {
    let rom = make_rom(32 * 1024, MBC3_TIMER_BATTERY, 0x00, 0x00);
    let mut cart = load_with_clock(rom, 0).expect("valid MBC3 ROM should load");

    cart.write_rom_control(0x0000, 0x0A);
    cart.write_rom_control(0x4000, 0x0B);
    cart.write_ram_byte(0xA000, 0xFF);
    cart.write_rom_control(0x4000, 0x0C);
    cart.write_ram_byte(0xA000, 0x01);

    cart.set_host_rtc_epoch_secs(Some(86_400));
    cart.write_rom_control(0x4000, 0x0B);
    assert_eq!(cart.read_ram_byte(0xA000), 0x00);
    cart.write_rom_control(0x4000, 0x0C);
    let day_high = cart.read_ram_byte(0xA000);
    assert_eq!(day_high & 0x01, 0x00);
    assert_eq!(day_high & 0x80, 0x80);
}

#[test]
fn mod_save_ram_persistence_bytes_roundtrip_restores_battery_ram() {
    let rom = make_rom(64 * 1024, MBC1_RAM_BATTERY, 0x01, 0x02);
    let mut first = Cartridge::from_bytes(rom.clone()).expect("cartridge should load");
    first.write_rom_control(0x0000, 0x0A);
    first.write_ram_byte(0xA000, 0x5A);
    first.write_ram_byte(0xA123, 0xC3);

    let persisted = first
        .export_save_ram_bytes()
        .expect("battery-backed RAM should export persistence bytes");

    let mut second = Cartridge::from_bytes(rom).expect("cartridge should load");
    second.import_save_ram_bytes(&persisted);
    second.write_rom_control(0x0000, 0x0A);
    assert_eq!(second.read_ram_byte(0xA000), 0x5A);
    assert_eq!(second.read_ram_byte(0xA123), 0xC3);
}

#[test]
fn mod_rtc_persistence_bytes_roundtrip_restores_mbc3_rtc_state() {
    let rom = make_rom(32 * 1024, MBC3_TIMER_BATTERY, 0x00, 0x00);
    let mut first = load_with_clock(rom.clone(), 100).expect("cartridge should load");
    first.write_rom_control(0x0000, 0x0A);
    first.write_rom_control(0x4000, 0x0C);
    first.write_ram_byte(0xA000, 0x40);
    first.write_rom_control(0x4000, 0x08);
    first.write_ram_byte(0xA000, 33);

    let rtc_bytes = first
        .export_rtc_persistence_bytes()
        .expect("MBC3 timer cartridge should export RTC persistence bytes");

    let mut second = load_with_clock(rom, 100).expect("cartridge should load");
    assert!(second.import_rtc_persistence_bytes(&rtc_bytes));

    second.write_rom_control(0x0000, 0x0A);
    second.write_rom_control(0x4000, 0x0C);
    assert_eq!(second.read_ram_byte(0xA000) & 0x40, 0x40);
    second.write_rom_control(0x4000, 0x08);
    assert_eq!(second.read_ram_byte(0xA000), 33);
}

#[test]
fn mod_rejects_invalid_rom_length_for_header_code() {
    let rom = make_rom(32 * 1024 - 1, ROM_ONLY, 0x00, 0x00);
    match Cartridge::from_bytes(rom) {
        Err(CartridgeError::UnsupportedRomLength { .. }) => {}
        Err(other) => panic!("unexpected error: {}", other.message()),
        Ok(_) => panic!("expected ROM loading to fail"),
    }
}

#[test]
fn mod_rejects_unsupported_rom_size_code() {
    let rom = make_rom(32 * 1024, ROM_ONLY, 0x7E, 0x00);
    match Cartridge::from_bytes(rom) {
        Err(CartridgeError::UnsupportedRomSizeCode(0x7E)) => {}
        Err(other) => panic!("unexpected error: {}", other.message()),
        Ok(_) => panic!("expected ROM loading to fail"),
    }
}

#[test]
fn mod_rejects_unsupported_ram_size_code() {
    let rom = make_rom(64 * 1024, MBC1_RAM, 0x01, 0x7E);
    match Cartridge::from_bytes(rom) {
        Err(CartridgeError::UnsupportedRamSizeCode(0x7E)) => {}
        Err(other) => panic!("unexpected error: {}", other.message()),
        Ok(_) => panic!("expected ROM loading to fail"),
    }
}

#[test]
fn mod_rejects_rom_only_with_64kb_size_code() {
    let rom = make_rom(64 * 1024, ROM_ONLY, 0x01, 0x00);
    match Cartridge::from_bytes(rom) {
        Err(CartridgeError::UnsupportedRomSizeForCartridge {
            cart_type,
            rom_size_code,
        }) => {
            assert_eq!(cart_type, ROM_ONLY);
            assert_eq!(rom_size_code, 0x01);
        }
        Err(other) => panic!("unexpected error: {}", other.message()),
        Ok(_) => panic!("expected ROM loading to fail"),
    }
}

