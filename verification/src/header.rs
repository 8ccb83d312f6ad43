//! Cartridge header inspection: Nintendo logo, header and global checksums, CRC-32
//! of the header, the title field and the CGB/SGB mode flags.
use crate::cartridge_types::CartridgeHeaderWarning;
use crate::text::{is_whitespace, push_char};
use vstd::prelude::*;

verus! {

pub const HEADER_LOGO_START: usize = 0x0104;
pub const HEADER_LOGO_END: usize = 0x0133;
pub const HEADER_CHECKSUM_START: usize = 0x0134;
pub const HEADER_CHECKSUM_END: usize = 0x014C;
pub const HEADER_CHECKSUM_OFFSET: usize = 0x014D;
pub const GLOBAL_CHECKSUM_HIGH_OFFSET: usize = 0x014E;
pub const GLOBAL_CHECKSUM_LOW_OFFSET: usize = 0x014F;
pub const HEADER_CGB_FLAG_OFFSET: usize = 0x0143;
pub const HEADER_SGB_FLAG_OFFSET: usize = 0x0146;
pub const TITLE_START: usize = 0x0134;
pub const TITLE_END: usize = 0x0144;

pub const NINTENDO_LOGO_BYTES: [u8; 48] = [
    0xCE, 0xED, 0x66, 0x66, 0xCC, 0x0D, 0x00, 0x0B, 0x03, 0x73, 0x00, 0x83, 0x00, 0x0C, 0x00, 0x0D,
    0x00, 0x08, 0x11, 0x1F, 0x88, 0x89, 0x00, 0x0E, 0xDC, 0xCC, 0x6E, 0xE6, 0xDD, 0xDD, 0xD9, 0x99,
    0xBB, 0xBB, 0x67, 0x63, 0x6E, 0x0E, 0xEC, 0xCC, 0xDD, 0xDC, 0x99, 0x9F, 0xBB, 0xB9, 0x33, 0x3E,
];

/// Whether the logo area 0x0104..=0x0133 holds the Nintendo logo bitmap.
pub open spec fn logo_matches(rom: Seq<u8>) -> bool {
    &&& rom.len() > HEADER_LOGO_END
    &&& forall|i: int| 0 <= i < 48 ==> rom[HEADER_LOGO_START + i] == #[trigger] NINTENDO_LOGO_BYTES@[i]
}

pub fn has_valid_nintendo_logo(rom: &[u8]) -> (r: bool)
    ensures
        r == logo_matches(rom@),
{
    if rom.len() <= HEADER_LOGO_END {
        return false;
    }
    let mut i: usize = 0;
    while i < 48
        invariant
            rom@.len() > HEADER_LOGO_END,
            i <= 48,
            forall|j: int| 0 <= j < i ==> rom@[HEADER_LOGO_START + j] == #[trigger] NINTENDO_LOGO_BYTES@[j],
        decreases 48 - i,
    {
        if rom[HEADER_LOGO_START + i] != NINTENDO_LOGO_BYTES[i] {
            return false;
        }
        i += 1;
    }
    true
}

/// The byte stored at `offset`, or `default` past the end.
pub open spec fn byte_or(rom: Seq<u8>, offset: int, default: u8) -> u8 {
    if offset < rom.len() {
        rom[offset]
    } else {
        default
    }
}

pub fn read_header_checksum(rom: &[u8]) -> (r: u8)
    ensures
        r == byte_or(rom@, HEADER_CHECKSUM_OFFSET as int, 0),
{
    if HEADER_CHECKSUM_OFFSET < rom.len() {
        rom[HEADER_CHECKSUM_OFFSET]
    } else {
        0
    }
}

/// The header checksum recurrence `x = x - byte - 1` over `bytes`, as an integer.
pub open spec fn header_checksum_fold(bytes: Seq<u8>) -> int
    decreases bytes.len(),
{
    if bytes.len() == 0 {
        0
    } else {
        header_checksum_fold(bytes.drop_last()) - bytes.last() - 1
    }
}

/// The header checksum over 0x0134..=0x014C, modulo 256 (0 when the range is missing).
pub open spec fn header_checksum_of(rom: Seq<u8>) -> u8 {
    if rom.len() <= HEADER_CHECKSUM_END {
        0
    } else {
        (header_checksum_fold(
            rom.subrange(HEADER_CHECKSUM_START as int, HEADER_CHECKSUM_END + 1),
        ) % 256) as u8
    }
}

pub fn compute_header_checksum(rom: &[u8]) -> (r: u8)
    ensures
        r == header_checksum_of(rom@),
{
    if rom.len() <= HEADER_CHECKSUM_END {
        return 0;
    }
    let ghost range = rom@.subrange(HEADER_CHECKSUM_START as int, HEADER_CHECKSUM_END + 1);
    let mut acc: u8 = 0;
    let mut i: usize = HEADER_CHECKSUM_START;
    while i <= HEADER_CHECKSUM_END
        invariant
            rom@.len() > HEADER_CHECKSUM_END,
            HEADER_CHECKSUM_START <= i <= HEADER_CHECKSUM_END + 1,
            range == rom@.subrange(HEADER_CHECKSUM_START as int, HEADER_CHECKSUM_END + 1),
            acc as int == header_checksum_fold(range.take(i - HEADER_CHECKSUM_START)) % 256,
        decreases HEADER_CHECKSUM_END + 1 - i,
    {
        let b = rom[i];
        let ghost k = (i - HEADER_CHECKSUM_START) as int;
        let ghost prev = header_checksum_fold(range.take(k));
        acc = acc.wrapping_sub(b).wrapping_sub(1);
        proof {
            assert(range.take(k + 1).drop_last() =~= range.take(k));
            assert(range.take(k + 1).last() == b);
            assert(header_checksum_fold(range.take(k + 1)) == prev - b - 1);
            assert(acc as int == (prev - b - 1) % 256) by (nonlinear_arith)
                requires
                    0 <= acc < 256,
                    acc as int == ((((prev % 256) - b) + 256) % 256 - 1 + 256) % 256,
            {
            }
        }
        i += 1;
    }
    assert(range.take(range.len() as int) =~= range);
    acc
}

pub open spec fn global_checksum_in_header(rom: Seq<u8>) -> u16 {
    (byte_or(rom, GLOBAL_CHECKSUM_HIGH_OFFSET as int, 0) as int * 256 + byte_or(
        rom,
        GLOBAL_CHECKSUM_LOW_OFFSET as int,
        0,
    ) as int) as u16
}

pub fn read_global_checksum(rom: &[u8]) -> (r: u16)
    ensures
        r == global_checksum_in_header(rom@),
{
    let high: u16 = if GLOBAL_CHECKSUM_HIGH_OFFSET < rom.len() {
        rom[GLOBAL_CHECKSUM_HIGH_OFFSET] as u16
    } else {
        0
    };
    let low: u16 = if GLOBAL_CHECKSUM_LOW_OFFSET < rom.len() {
        rom[GLOBAL_CHECKSUM_LOW_OFFSET] as u16
    } else {
        0
    };
    assert((high << 8u16) | low == high * 256 + low) by {
            crate::bits::lemma_word(high, low);
        }
    (high << 8) | low
}

/// Sum of the first `n` bytes, leaving out the two global checksum bytes.
pub open spec fn global_sum(rom: Seq<u8>, n: int) -> int
    decreases n,
{
    if n <= 0 {
        0
    } else {
        global_sum(rom, n - 1) + (if n - 1 == GLOBAL_CHECKSUM_HIGH_OFFSET || n - 1
            == GLOBAL_CHECKSUM_LOW_OFFSET {
            0
        } else {
            rom[n - 1] as int
        })
    }
}

/// The global checksum: every byte but the two checksum bytes, summed modulo 65536.
pub open spec fn global_checksum_of(rom: Seq<u8>) -> u16 {
    (global_sum(rom, rom.len() as int) % 65536) as u16
}

pub fn compute_global_checksum(rom: &[u8]) -> (r: u16)
    ensures
        r == global_checksum_of(rom@),
{
    let mut acc: u16 = 0;
    let mut i: usize = 0;
    while i < rom.len()
        invariant
            i <= rom@.len(),
            acc as int == global_sum(rom@, i as int) % 65536,
        decreases rom@.len() - i,
    {
        let ghost prev = global_sum(rom@, i as int);
        if i != GLOBAL_CHECKSUM_HIGH_OFFSET && i != GLOBAL_CHECKSUM_LOW_OFFSET {
            let b = rom[i] as u16;
            acc = acc.wrapping_add(b);
            assert(acc as int == (prev + b) % 65536) by (nonlinear_arith)
                requires
                    0 <= acc < 65536,
                    acc as int == ((prev % 65536) + b) % 65536,
            {
            }
        }
        i += 1;
    }
    acc
}

/// One bit step of the reflected CRC-32 (polynomial 0xEDB88320).
pub open spec fn crc32_bit_step(crc: u32) -> u32 {
    if crc & 1 == 1 {
        (crc >> 1u32) ^ 0xEDB8_8320u32
    } else {
        crc >> 1u32
    }
}

pub open spec fn crc32_bit_steps(crc: u32, n: nat) -> u32
    decreases n,
{
    if n == 0 {
        crc
    } else {
        crc32_bit_steps(crc32_bit_step(crc), (n - 1) as nat)
    }
}

/// The CRC register after feeding `bytes` (starting from all ones).
pub open spec fn crc32_register(bytes: Seq<u8>) -> u32
    decreases bytes.len(),
{
    if bytes.len() == 0 {
        0xFFFF_FFFFu32
    } else {
        crc32_bit_steps(crc32_register(bytes.drop_last()) ^ (bytes.last() as u32), 8)
    }
}

/// Standard CRC-32 (IEEE) of the header bytes 0x0100..0x0150, or 0 if the ROM is shorter.
pub open spec fn header_crc32_of(rom: Seq<u8>) -> u32 {
    if rom.len() < 0x150 {
        0
    } else {
        !crc32_register(rom.subrange(0x100, 0x150))
    }
}

pub fn compute_header_crc32(rom: &[u8]) -> (r: u32)
    ensures
        r == header_crc32_of(rom@),
{
    if rom.len() < 0x150 {
        return 0;
    }
    let ghost header = rom@.subrange(0x100, 0x150);
    let mut crc: u32 = !0u32;
    assert(!0u32 == 0xFFFF_FFFFu32) by {
            crate::bits::lemma_crc_step(0);
        }
    assert(header.take(0) =~= Seq::<u8>::empty());
    let mut i: usize = 0x100;
    while i < 0x150
        invariant
            rom@.len() >= 0x150,
            0x100 <= i <= 0x150,
            header == rom@.subrange(0x100, 0x150),
            crc == crc32_register(header.take(i - 0x100)),
        decreases 0x150 - i,
    {
        let ghost k = (i - 0x100) as int;
        let byte = rom[i];
        crc ^= byte as u32;
        let ghost start = crc;
        let mut bit: u32 = 0;
        while bit < 8
            invariant
                bit <= 8,
                crc32_bit_steps(crc, (8 - bit) as nat) == crc32_bit_steps(start, 8),
            decreases 8 - bit,
        {
            let low = crc & 1;
            let mask = 0u32.wrapping_sub(low) & 0xEDB8_8320;
            let c = crc;
            assert(low == 0 || low == 1) by {
            crate::bits::lemma_crc_step(c);
        }
            assert(0xFFFF_FFFFu32 & 0xEDB8_8320u32 == 0xEDB8_8320u32) by {
            crate::bits::lemma_crc_step(c);
        }
            assert(0u32 & 0xEDB8_8320u32 == 0u32) by {
            crate::bits::lemma_crc_step(c);
        }
            assert(mask == (if c & 1 == 1 {
                0xEDB8_8320u32
            } else {
                0u32
            }));
            assert((c >> 1u32) ^ 0u32 == c >> 1u32) by {
            crate::bits::lemma_crc_step(c);
        }
            crc = (crc >> 1) ^ mask;
            assert(crc == crc32_bit_step(c));
            bit += 1;
        }
        proof {
            assert(header.take(k + 1).drop_last() =~= header.take(k));
            assert(header.take(k + 1).last() == byte);
        }
        i += 1;
    }
    assert(header.take(0x50) =~= header);
    !crc
}

/// The raw title bytes 0x0134..=0x0143.
pub open spec fn title_raw(rom: Seq<u8>) -> Seq<u8> {
    rom.subrange(TITLE_START as int, TITLE_END as int)
}

/// `end` is the position of the first zero byte of the raw title (16 when there is none).
pub open spec fn is_title_end(raw: Seq<u8>, end: int) -> bool {
    &&& 0 <= end <= 16
    &&& forall|j: int| 0 <= j < end ==> raw[j] != 0
    &&& end < 16 ==> raw[end] == 0
}

pub open spec fn byte_is_whitespace(b: u8) -> bool {
    is_whitespace(b as char)
}

/// The characters of `bytes` (each byte read as the code point of the same value),
/// with leading and trailing whitespace removed.
pub open spec fn trimmed_title(bytes: Seq<u8>, lo: int, hi: int) -> Seq<char> {
    bytes.subrange(lo, hi).map_values(|b: u8| b as char)
}

/// `lo..hi` is the whitespace-trimmed range of `bytes`.
pub open spec fn is_trim_range(bytes: Seq<u8>, lo: int, hi: int) -> bool {
    &&& 0 <= lo <= hi <= bytes.len()
    &&& forall|i: int| 0 <= i < lo ==> byte_is_whitespace(#[trigger] bytes[i])
    &&& forall|i: int| hi <= i < bytes.len() ==> byte_is_whitespace(#[trigger] bytes[i])
    &&& lo < hi ==> !byte_is_whitespace(bytes[lo]) && !byte_is_whitespace(bytes[hi - 1])
}

/// The title as `String`: the characters of the title field up to the first zero,
/// trimmed of surrounding whitespace.
pub open spec fn title_of(rom: Seq<u8>, title: Seq<char>) -> bool {
    exists|end: int, lo: int, hi: int|
        is_title_end(title_raw(rom), end) && is_trim_range(title_raw(rom).take(end), lo, hi)
            && title == trimmed_title(title_raw(rom).take(end), lo, hi)
}

fn byte_whitespace(b: u8) -> (r: bool)
    ensures
        r == byte_is_whitespace(b),
{
    (0x09 <= b && b <= 0x0D) || b == 0x20 || b == 0x85 || b == 0xA0
}

pub fn parse_title(rom: &[u8]) -> (r: String)
    requires
        rom@.len() >= TITLE_END,
    ensures
        title_of(rom@, r@),
{
    let ghost raw = rom@.subrange(TITLE_START as int, TITLE_END as int);
    let mut end: usize = 0;
    while end < 16 && rom[TITLE_START + end] != 0
        invariant
            rom@.len() >= TITLE_END,
            end <= 16,
            raw == rom@.subrange(TITLE_START as int, TITLE_END as int),
            forall|j: int| 0 <= j < end ==> raw[j] != 0,
        decreases 16 - end,
    {
        end += 1;
    }
    let ghost field = raw.take(end as int);
    assert(is_title_end(raw, end as int));
    let mut lo: usize = 0;
    while lo < end && byte_whitespace(rom[TITLE_START + lo])
        invariant
            rom@.len() >= TITLE_END,
            end <= 16,
            lo <= end,
            raw == rom@.subrange(TITLE_START as int, TITLE_END as int),
            field == raw.take(end as int),
            forall|j: int| 0 <= j < lo ==> byte_is_whitespace(#[trigger] field[j]),
        decreases end - lo,
    {
        lo += 1;
    }
    let mut hi: usize = end;
    while hi > lo && byte_whitespace(rom[TITLE_START + hi - 1])
        invariant
            rom@.len() >= TITLE_END,
            end <= 16,
            lo <= hi <= end,
            raw == rom@.subrange(TITLE_START as int, TITLE_END as int),
            field == raw.take(end as int),
            forall|j: int| hi <= j < end ==> byte_is_whitespace(#[trigger] field[j]),
        decreases hi - lo,
    {
        hi -= 1;
    }
    let mut title = String::new();
    let mut k: usize = lo;
    while k < hi
        invariant
            rom@.len() >= TITLE_END,
            lo <= k <= hi <= end <= 16,
            raw == rom@.subrange(TITLE_START as int, TITLE_END as int),
            field == raw.take(end as int),
            title@ == trimmed_title(field, lo as int, k as int),
        decreases hi - k,
    {
        let c = rom[TITLE_START + k] as char;
        push_char(&mut title, c);
        assert(title@ =~= trimmed_title(field, lo as int, k + 1));
        k += 1;
    }
    proof {
        if lo < hi {
            assert(!byte_is_whitespace(field[lo as int]));
        } else if lo == end {
        }
        assert(is_trim_range(field, lo as int, hi as int));
        assert(raw == title_raw(rom@));
    }
    title
}

pub open spec fn header_warnings_of(rom: Seq<u8>) -> Seq<CartridgeHeaderWarning> {
    let logo = if logo_matches(rom) {
        Seq::empty()
    } else {
        seq![CartridgeHeaderWarning::NintendoLogoMismatch]
    };
    let hc = byte_or(rom, HEADER_CHECKSUM_OFFSET as int, 0);
    let hc_computed = header_checksum_of(rom);
    let header = if hc == hc_computed {
        Seq::empty()
    } else {
        seq![
            CartridgeHeaderWarning::HeaderChecksumMismatch {
                header_value: hc,
                computed_value: hc_computed,
            },
        ]
    };
    let gc = global_checksum_in_header(rom);
    let gc_computed = global_checksum_of(rom);
    let global = if gc == gc_computed {
        Seq::empty()
    } else {
        seq![
            CartridgeHeaderWarning::GlobalChecksumMismatch {
                header_value: gc,
                computed_value: gc_computed,
            },
        ]
    };
    logo + header + global
}

/// Checks the logo and both checksums; each mismatch yields one warning, in that order.
pub fn diagnose_header(rom: &[u8]) -> (r: Vec<CartridgeHeaderWarning>)
    ensures
        r@ == header_warnings_of(rom@),
{
    let mut warnings: Vec<CartridgeHeaderWarning> = Vec::new();
    if !has_valid_nintendo_logo(rom) {
        warnings.push(CartridgeHeaderWarning::NintendoLogoMismatch);
    }
    let ghost after_logo = warnings@;
    let header_checksum = read_header_checksum(rom);
    let computed_header_checksum = compute_header_checksum(rom);
    if header_checksum != computed_header_checksum {
        warnings.push(
            CartridgeHeaderWarning::HeaderChecksumMismatch {
                header_value: header_checksum,
                computed_value: computed_header_checksum,
            },
        );
    }
    let ghost after_header = warnings@;
    let global_checksum = read_global_checksum(rom);
    let computed_global_checksum = compute_global_checksum(rom);
    if global_checksum != computed_global_checksum {
        warnings.push(
            CartridgeHeaderWarning::GlobalChecksumMismatch {
                header_value: global_checksum,
                computed_value: computed_global_checksum,
            },
        );
    }
    assert(warnings@ =~= header_warnings_of(rom@));
    warnings
}

#[derive(Clone, Copy, Debug, PartialEq, Eq, Structural)]
pub enum CartridgeCgbSupport {
    NotSupported,
    Supported,
    Required,
}

pub open spec fn cgb_support_of(flag: u8) -> CartridgeCgbSupport {
    if flag == 0x80 {
        CartridgeCgbSupport::Supported
    } else if flag == 0xC0 {
        CartridgeCgbSupport::Required
    } else {
        CartridgeCgbSupport::NotSupported
    }
}

impl CartridgeCgbSupport {
    pub fn from_header_flag_raw(flag: u8) -> (r: Self)
        ensures
            r == cgb_support_of(flag),
    {
        match flag {
            0x80 => CartridgeCgbSupport::Supported,
            0xC0 => CartridgeCgbSupport::Required,
            _ => CartridgeCgbSupport::NotSupported,
        }
    }
}

#[derive(Clone, Copy, Debug, PartialEq, Eq, Structural)]
pub enum CartridgeSgbSupport {
    NotSupported,
    Supported,
}

pub open spec fn sgb_support_of(flag: u8) -> CartridgeSgbSupport {
    if flag == 0x03 {
        CartridgeSgbSupport::Supported
    } else {
        CartridgeSgbSupport::NotSupported
    }
}

impl CartridgeSgbSupport {
    pub fn from_header_flag_raw(flag: u8) -> (r: Self)
        ensures
            r == sgb_support_of(flag),
    {
        if flag == 0x03 {
            CartridgeSgbSupport::Supported
        } else {
            CartridgeSgbSupport::NotSupported
        }
    }
}

#[derive(Clone, Copy, Debug, PartialEq, Eq, Structural)]
pub struct CartridgeHeaderModeFlags {
    pub cgb_header_flag_raw: u8,
    pub cgb_support: CartridgeCgbSupport,
    pub supports_cgb: bool,
    pub cgb_only: bool,
    pub sgb_header_flag_raw: u8,
    pub sgb_support: CartridgeSgbSupport,
    pub supports_sgb: bool,
}

pub open spec fn mode_flags_of(rom: Seq<u8>) -> CartridgeHeaderModeFlags {
    let cgb = byte_or(rom, HEADER_CGB_FLAG_OFFSET as int, 0);
    let sgb = byte_or(rom, HEADER_SGB_FLAG_OFFSET as int, 0);
    CartridgeHeaderModeFlags {
        cgb_header_flag_raw: cgb,
        cgb_support: cgb_support_of(cgb),
        supports_cgb: cgb_support_of(cgb) != CartridgeCgbSupport::NotSupported,
        cgb_only: cgb_support_of(cgb) == CartridgeCgbSupport::Required,
        sgb_header_flag_raw: sgb,
        sgb_support: sgb_support_of(sgb),
        supports_sgb: sgb_support_of(sgb) == CartridgeSgbSupport::Supported,
    }
}

pub fn parse_header_mode_flags(rom: &[u8]) -> (r: CartridgeHeaderModeFlags)
    ensures
        r == mode_flags_of(rom@),
{
    let cgb_header_flag_raw = if HEADER_CGB_FLAG_OFFSET < rom.len() {
        rom[HEADER_CGB_FLAG_OFFSET]
    } else {
        0x00
    };
    let cgb_support = CartridgeCgbSupport::from_header_flag_raw(cgb_header_flag_raw);
    let sgb_header_flag_raw = if HEADER_SGB_FLAG_OFFSET < rom.len() {
        rom[HEADER_SGB_FLAG_OFFSET]
    } else {
        0x00
    };
    let sgb_support = CartridgeSgbSupport::from_header_flag_raw(sgb_header_flag_raw);
    CartridgeHeaderModeFlags {
        cgb_header_flag_raw,
        cgb_support,
        supports_cgb: matches!(cgb_support, CartridgeCgbSupport::Supported | CartridgeCgbSupport::Required),
        cgb_only: matches!(cgb_support, CartridgeCgbSupport::Required),
        sgb_header_flag_raw,
        sgb_support,
        supports_sgb: matches!(sgb_support, CartridgeSgbSupport::Supported),
    }
}

} // verus!
