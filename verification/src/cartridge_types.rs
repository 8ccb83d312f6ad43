//! Public cartridge descriptions: mapper kind, header warnings, load errors and
//! the metadata summary with its text report.
use crate::text::{
    all_whitespace, dec, hex2, hex4, push_dec, push_hex2, push_hex4, push_str, str_is_blank,
};
use vstd::prelude::*;
use vstd::string::StringExecFns;

verus! {

/// Minimal ROM length holding a complete cartridge header (0x0000..=0x014F).
pub const HEADER_MIN_LEN: usize = 0x150;

#[derive(Clone, Copy, Debug, PartialEq, Eq, Structural)]
pub enum CartridgeMapper {
    RomOnly,
    Mbc1,
    Mbc2,
    Mbc3,
    Mbc5,
}

pub open spec fn mapper_label(m: CartridgeMapper) -> Seq<char> {
    match m {
        CartridgeMapper::RomOnly => "ROM-only"@,
        CartridgeMapper::Mbc1 => "MBC1"@,
        CartridgeMapper::Mbc2 => "MBC2"@,
        CartridgeMapper::Mbc3 => "MBC3"@,
        CartridgeMapper::Mbc5 => "MBC5"@,
    }
}

impl CartridgeMapper {
    /// The display label of the mapper (what `Display` prints).
    pub fn label(&self) -> (r: &'static str)
        ensures
            r@ == mapper_label(*self),
    {
        match self {
            CartridgeMapper::RomOnly => "ROM-only",
            CartridgeMapper::Mbc1 => "MBC1",
            CartridgeMapper::Mbc2 => "MBC2",
            CartridgeMapper::Mbc3 => "MBC3",
            CartridgeMapper::Mbc5 => "MBC5",
        }
    }
}

#[allow(inconsistent_fields)]
#[derive(Clone, Copy, Debug, PartialEq, Eq, Structural)]
pub enum CartridgeHeaderWarning {
    NintendoLogoMismatch,
    HeaderChecksumMismatch { header_value: u8, computed_value: u8 },
    GlobalChecksumMismatch { header_value: u16, computed_value: u16 },
}

pub open spec fn warning_text(w: CartridgeHeaderWarning) -> Seq<char> {
    match w {
        CartridgeHeaderWarning::NintendoLogoMismatch => "Nintendo logo mismatch"@,
        CartridgeHeaderWarning::HeaderChecksumMismatch { header_value, computed_value } =>
            "Header checksum mismatch (header 0x"@ + hex2(header_value) + ", computed 0x"@ + hex2(
                computed_value,
            ) + ")"@,
        CartridgeHeaderWarning::GlobalChecksumMismatch { header_value, computed_value } =>
            "Global checksum mismatch (header 0x"@ + hex4(header_value) + ", computed 0x"@ + hex4(
                computed_value,
            ) + ")"@,
    }
}

impl CartridgeHeaderWarning {
    /// Appends the warning's description (what `Display` prints).
    pub fn write_description(&self, s: &mut String)
        ensures
            final(s)@ == old(s)@ + warning_text(*self),
    {
        match self {
            CartridgeHeaderWarning::NintendoLogoMismatch => {
                push_str(s, "Nintendo logo mismatch");
            },
            CartridgeHeaderWarning::HeaderChecksumMismatch { header_value, computed_value } => {
                let ghost s0 = s@;
                push_str(s, "Header checksum mismatch (header 0x");
                push_hex2(s, *header_value);
                push_str(s, ", computed 0x");
                push_hex2(s, *computed_value);
                push_str(s, ")");
                assert(s@ =~= s0 + warning_text(*self));
            },
            CartridgeHeaderWarning::GlobalChecksumMismatch { header_value, computed_value } => {
                let ghost s0 = s@;
                push_str(s, "Global checksum mismatch (header 0x");
                push_hex4(s, *header_value);
                push_str(s, ", computed 0x");
                push_hex4(s, *computed_value);
                push_str(s, ")");
                assert(s@ =~= s0 + warning_text(*self));
            },
        }
    }

    /// The warning's description (what `Display` prints).
    pub fn describe(&self) -> (r: String)
        ensures
            r@ == warning_text(*self),
    {
        let mut s = String::new();
        self.write_description(&mut s);
        assert(s@ =~= warning_text(*self));
        s
    }
}

/// Why a ROM image could not be turned into a cartridge, or why save data could not
/// be moved. The I/O variants carry the operating system's message text.
#[derive(Clone, Debug, PartialEq, Eq)]
pub enum CartridgeError {
    Io(String),
    SaveIo(String),
    RomTooSmall { actual: usize },
    UnsupportedCartridgeType(u8),
    UnsupportedRomSizeCode(u8),
    UnsupportedRamSizeCode(u8),
    UnsupportedRomSizeForCartridge { cart_type: u8, rom_size_code: u8 },
    UnsupportedRamSizeForCartridge { cart_type: u8, ram_size_code: u8 },
    UnsupportedRomLength { expected: usize, actual: usize },
}

pub open spec fn error_text(e: CartridgeError) -> Seq<char> {
    match e {
        CartridgeError::Io(msg) => "I/O error loading ROM: "@ + msg@,
        CartridgeError::SaveIo(msg) => "I/O error loading/saving SRAM: "@ + msg@,
        CartridgeError::RomTooSmall { actual } => "ROM too small ("@ + dec(actual as nat)
            + " bytes), expected at least "@ + dec(HEADER_MIN_LEN as nat) + " bytes"@,
        CartridgeError::UnsupportedCartridgeType(code) => "Unsupported cartridge type 0x"@ + hex2(
            code,
        ) + SUPPORTED_TYPES_NOTE@,
        CartridgeError::UnsupportedRomSizeCode(code) => "Unsupported ROM size code 0x"@ + hex2(
            code,
        ),
        CartridgeError::UnsupportedRamSizeCode(code) => "Unsupported RAM size code 0x"@ + hex2(
            code,
        ),
        CartridgeError::UnsupportedRomSizeForCartridge { cart_type, rom_size_code } =>
            "Unsupported ROM size code 0x"@ + hex2(rom_size_code) + " for cartridge type 0x"@
                + hex2(cart_type),
        CartridgeError::UnsupportedRamSizeForCartridge { cart_type, ram_size_code } =>
            "Unsupported RAM size code 0x"@ + hex2(ram_size_code) + " for cartridge type 0x"@
                + hex2(cart_type),
        CartridgeError::UnsupportedRomLength { expected, actual } =>
            "Unsupported ROM file length "@ + dec(actual as nat) + "; expected "@ + dec(
                expected as nat,
            ) + " bytes for header ROM size code"@,
    }
}

pub const SUPPORTED_TYPES_NOTE: &'static str = "; supported: ROM-only/RAM (0x00/0x08/0x09), MBC1 family (0x01/0x02/0x03), MBC2 (0x05/0x06), MBC3 family (0x0F/0x10/0x11/0x12/0x13), MBC5 family (0x19..0x1E)";

impl CartridgeError {
    /// The error's message (what `Display` prints).
    pub fn message(&self) -> (r: String)
        ensures
            r@ == error_text(*self),
    {
        match self {
            CartridgeError::Io(msg) => {
                let mut s = String::from_str("I/O error loading ROM: ");
                push_str(&mut s, msg.as_str());
                s
            },
            CartridgeError::SaveIo(msg) => {
                let mut s = String::from_str("I/O error loading/saving SRAM: ");
                push_str(&mut s, msg.as_str());
                s
            },
            CartridgeError::RomTooSmall { actual } => {
                let mut s = String::from_str("ROM too small (");
                push_dec(&mut s, *actual as u64);
                push_str(&mut s, " bytes), expected at least ");
                push_dec(&mut s, HEADER_MIN_LEN as u64);
                push_str(&mut s, " bytes");
                s
            },
            CartridgeError::UnsupportedCartridgeType(code) => {
                let mut s = String::from_str("Unsupported cartridge type 0x");
                push_hex2(&mut s, *code);
                push_str(&mut s, SUPPORTED_TYPES_NOTE);
                s
            },
            CartridgeError::UnsupportedRomSizeCode(code) => {
                let mut s = String::from_str("Unsupported ROM size code 0x");
                push_hex2(&mut s, *code);
                s
            },
            CartridgeError::UnsupportedRamSizeCode(code) => {
                let mut s = String::from_str("Unsupported RAM size code 0x");
                push_hex2(&mut s, *code);
                s
            },
            CartridgeError::UnsupportedRomSizeForCartridge { cart_type, rom_size_code } => {
                let mut s = String::from_str("Unsupported ROM size code 0x");
                push_hex2(&mut s, *rom_size_code);
                push_str(&mut s, " for cartridge type 0x");
                push_hex2(&mut s, *cart_type);
                s
            },
            CartridgeError::UnsupportedRamSizeForCartridge { cart_type, ram_size_code } => {
                let mut s = String::from_str("Unsupported RAM size code 0x");
                push_hex2(&mut s, *ram_size_code);
                push_str(&mut s, " for cartridge type 0x");
                push_hex2(&mut s, *cart_type);
                s
            },
            CartridgeError::UnsupportedRomLength { expected, actual } => {
                let mut s = String::from_str("Unsupported ROM file length ");
                push_dec(&mut s, *actual as u64);
                push_str(&mut s, "; expected ");
                push_dec(&mut s, *expected as u64);
                push_str(&mut s, " bytes for header ROM size code");
                s
            },
        }
    }
}

#[derive(Clone, Debug, PartialEq, Eq)]
pub struct CartridgeMetadata {
    pub title: String,
    pub cart_type_code: u8,
    pub mapper: CartridgeMapper,
    pub rom_size_code: u8,
    pub ram_size_code: u8,
    pub rom_size_bytes: usize,
    pub rom_bank_count: usize,
    pub declared_ram_size_bytes: usize,
    pub effective_ram_size_bytes: usize,
    pub ram_bank_count: usize,
    pub compatibility_ram_mode: bool,
    pub has_battery: bool,
    pub has_timer: bool,
    pub has_rumble: bool,
    pub has_battery_save: bool,
    pub rumble_active: bool,
    pub header_warnings: Vec<CartridgeHeaderWarning>,
}

pub open spec fn yes_no_text(b: bool) -> Seq<char> {
    if b {
        "yes"@
    } else {
        "no"@
    }
}

pub fn yes_no(value: bool) -> (r: &'static str)
    ensures
        r@ == yes_no_text(value),
{
    if value {
        "yes"
    } else {
        "no"
    }
}

/// The warning lines of a report: `"\n- <warning>"` for each warning, in order.
pub open spec fn warning_lines(ws: Seq<CartridgeHeaderWarning>) -> Seq<char>
    decreases ws.len(),
{
    if ws.len() == 0 {
        Seq::empty()
    } else {
        warning_lines(ws.drop_last()) + "\n- "@ + warning_text(ws.last())
    }
}

pub open spec fn report_title(title: Seq<char>) -> Seq<char> {
    if all_whitespace(title) {
        "<empty title>"@
    } else {
        title
    }
}

/// The full text of `debug_report`: one line per field group, then the header
/// warnings (or `- none`), joined by newlines.
pub open spec fn metadata_report(m: CartridgeMetadata) -> Seq<char> {
    "Cartridge Metadata\nTitle: "@ + report_title(m.title@) + "\nType: 0x"@ + hex2(
        m.cart_type_code,
    ) + " ("@ + mapper_label(m.mapper) + ")\nROM: code 0x"@ + hex2(m.rom_size_code) + ", "@ + dec(
        m.rom_size_bytes as nat,
    ) + " bytes, "@ + dec(m.rom_bank_count as nat) + " banks\nRAM: code 0x"@ + hex2(
        m.ram_size_code,
    ) + ", declared "@ + dec(m.declared_ram_size_bytes as nat) + " bytes, effective "@ + dec(
        m.effective_ram_size_bytes as nat,
    ) + " bytes, "@ + dec(m.ram_bank_count as nat) + " banks\nCompatibility RAM mode: "@
        + yes_no_text(m.compatibility_ram_mode) + "\nCapabilities: battery="@ + yes_no_text(
        m.has_battery,
    ) + ", timer="@ + yes_no_text(m.has_timer) + ", rumble="@ + yes_no_text(m.has_rumble)
        + " (active="@ + yes_no_text(m.rumble_active) + "), battery-save="@ + yes_no_text(
        m.has_battery_save,
    ) + "\nHeader warnings ("@ + dec(m.header_warnings@.len()) + "):"@ + (if m.header_warnings@.len()
        == 0 {
        "\n- none"@
    } else {
        warning_lines(m.header_warnings@)
    })
}

impl CartridgeMetadata {
    /// A multi-line human-readable summary of the metadata.
    pub fn debug_report(&self) -> (r: String)
        ensures
            r@ == metadata_report(*self),
    {
        let mut s = String::from_str("Cartridge Metadata\nTitle: ");
        if str_is_blank(self.title.as_str()) {
            push_str(&mut s, "<empty title>");
        } else {
            push_str(&mut s, self.title.as_str());
        }
        push_str(&mut s, "\nType: 0x");
        push_hex2(&mut s, self.cart_type_code);
        push_str(&mut s, " (");
        push_str(&mut s, self.mapper.label());
        push_str(&mut s, ")\nROM: code 0x");
        push_hex2(&mut s, self.rom_size_code);
        push_str(&mut s, ", ");
        push_dec(&mut s, self.rom_size_bytes as u64);
        push_str(&mut s, " bytes, ");
        push_dec(&mut s, self.rom_bank_count as u64);
        push_str(&mut s, " banks\nRAM: code 0x");
        push_hex2(&mut s, self.ram_size_code);
        push_str(&mut s, ", declared ");
        push_dec(&mut s, self.declared_ram_size_bytes as u64);
        push_str(&mut s, " bytes, effective ");
        push_dec(&mut s, self.effective_ram_size_bytes as u64);
        push_str(&mut s, " bytes, ");
        push_dec(&mut s, self.ram_bank_count as u64);
        push_str(&mut s, " banks\nCompatibility RAM mode: ");
        push_str(&mut s, yes_no(self.compatibility_ram_mode));
        push_str(&mut s, "\nCapabilities: battery=");
        push_str(&mut s, yes_no(self.has_battery));
        push_str(&mut s, ", timer=");
        push_str(&mut s, yes_no(self.has_timer));
        push_str(&mut s, ", rumble=");
        push_str(&mut s, yes_no(self.has_rumble));
        push_str(&mut s, " (active=");
        push_str(&mut s, yes_no(self.rumble_active));
        push_str(&mut s, "), battery-save=");
        push_str(&mut s, yes_no(self.has_battery_save));
        push_str(&mut s, "\nHeader warnings (");
        push_dec(&mut s, self.header_warnings.len() as u64);
        push_str(&mut s, "):");
        let ghost head = s@;
        let n = self.header_warnings.len();
        if n == 0 {
            push_str(&mut s, "\n- none");
        } else {
            let mut i: usize = 0;
            while i < n
                invariant
                    n == self.header_warnings@.len(),
                    i <= n,
                    s@ == head + warning_lines(self.header_warnings@.take(i as int)),
                decreases n - i,
            {
                let ghost before = s@;
                push_str(&mut s, "\n- ");
                self.header_warnings[i].write_description(&mut s);
                proof {
                    let ws = self.header_warnings@;
                    assert(ws.take(i + 1).drop_last() =~= ws.take(i as int));
                    assert(ws.take(i + 1).last() == ws[i as int]);
                    assert(s@ =~= head + warning_lines(ws.take(i + 1)));
                }
                i += 1;
            }
            assert(self.header_warnings@.take(n as int) =~= self.header_warnings@);
        }
        s
    }
}

} // verus!
