//! Facts about masks, bit tests and shifts on bytes and 16-bit words, proved once by
//! bit-blasting and used throughout the register decoding.
use vstd::prelude::*;

verus! {

/// Low masks keep the remainder.
pub proof fn lemma_u8_masks()
    by (bit_vector)
    ensures
        forall|x: u8| #[trigger] (x & 0x01) == x % 2,
        forall|x: u8| #[trigger] (x & 0x03) == x % 4,
        forall|x: u8| #[trigger] (x & 0x07) == x % 8,
        forall|x: u8| #[trigger] (x & 0x0F) == x % 16,
        forall|x: u8| #[trigger] (x & 0x1F) == x % 32,
        forall|x: u8| #[trigger] (x & 0x3F) == x % 64,
        forall|x: u8| #[trigger] (x & 0x7F) == x % 128,
{
}

/// A single-bit mask tests that bit.
pub proof fn lemma_u8_bit_tests()
    by (bit_vector)
    ensures
        forall|x: u8| (#[trigger] (x & 0x01) != 0) == (x % 2 == 1),
        forall|x: u8| (#[trigger] (x & 0x02) != 0) == ((x / 2) % 2 == 1),
        forall|x: u8| (#[trigger] (x & 0x04) != 0) == ((x / 4) % 2 == 1),
        forall|x: u8| (#[trigger] (x & 0x08) != 0) == ((x / 8) % 2 == 1),
        forall|x: u8| (#[trigger] (x & 0x10) != 0) == ((x / 16) % 2 == 1),
        forall|x: u8| (#[trigger] (x & 0x20) != 0) == ((x / 32) % 2 == 1),
        forall|x: u8| (#[trigger] (x & 0x40) != 0) == ((x / 64) % 2 == 1),
        forall|x: u8| (#[trigger] (x & 0x80) != 0) == (x >= 128),
        forall|x: u8| (#[trigger] (x & 0xF8) != 0) == (x >= 8),
{
}

/// Right shifts divide, and a shifted field is a digit in base 2^k.
pub proof fn lemma_u8_shifts()
    by (bit_vector)
    ensures
        forall|x: u8| #[trigger] (x >> 1u8) == x / 2,
        forall|x: u8| #[trigger] (x >> 2u8) == x / 4,
        forall|x: u8| #[trigger] (x >> 4u8) == x / 16,
        forall|x: u8| #[trigger] ((x >> 4u8) & 0x0F) == x / 16,
        forall|x: u8| #[trigger] ((x >> 4u8) & 0x07) == (x / 16) % 8,
        forall|x: u8| #[trigger] ((x >> 5u8) & 0x03) == (x / 32) % 4,
        forall|x: u8| #[trigger] ((x >> 6u8) & 0x03) == x / 64,
{
}

/// STAT/SC style bit edits.
pub proof fn lemma_u8_edits()
    by (bit_vector)
    ensures
        forall|x: u8| #[trigger] (x | 0x04) % 4 == x % 4,
        forall|x: u8| #[trigger] (x & 0xFB) % 4 == x % 4,
        forall|x: u8| ((#[trigger] (x | 0x04)) / 4) % 2 == 1,
        forall|x: u8| ((#[trigger] (x & 0xFB)) / 4) % 2 == 0,
        forall|x: u8| #[trigger] ((x & 0x81) & 0x80) == x & 0x80,
        forall|x: u8| #[trigger] (x & !0x80u8) == x & 0x7F,
        forall|x: u8| x < 16 ==> #[trigger] (x | 0xF0) == x + 0xF0,
{
}

/// 16-bit word facts: byte fields, 11-bit frequencies and 9-bit day counters.
pub proof fn lemma_u16_fields()
    by (bit_vector)
    ensures
        forall|d: u16| #[trigger] (d & 0xFF) == d % 256,
        forall|d: u16| #[trigger] (d & 0x00FF) == d % 256,
        forall|d: u16| #[trigger] (d & 0x01FF) == d % 512,
        forall|d: u16| (#[trigger] ((d >> 8u16) & 1) != 0) == ((d / 256) % 2 == 1),
        forall|d: u16| (#[trigger] (d & 0x1000) != 0) == ((d / 4096) % 2 == 1),
        forall|f: u16, v: u8|
            f <= 2047 ==> #[trigger] ((f & 0x0700) | (v as u16)) == (f / 256) * 256 + v,
        forall|d: u16, v: u8|
            d <= 0x1FF ==> #[trigger] ((d & 0x0100) | (v as u16)) == (d / 256) * 256 + v,
{
}

/// Frequency bits 8..10 from the low three bits of a byte.
pub proof fn lemma_u16_high_bits()
    by (bit_vector)
    ensures
        forall|f: u16, v: u8|
            #[trigger] ((f & 0x00FF) | (((v & 0x07) as u16) << 8u16)) == f % 256 + (v % 8) * 256,
{
}

/// The high byte of a word.
pub proof fn lemma_u16_high_byte()
    by (bit_vector)
    ensures
        forall|d: u16| #[trigger] ((d >> 8u16) as u8) == (d / 256) as u8,
{
}

/// Every byte and word fact above.
pub proof fn lemma_bits()
    ensures
        forall|x: u8| #[trigger] (x & 0x01) == x % 2,
        forall|x: u8| #[trigger] (x & 0x03) == x % 4,
        forall|x: u8| #[trigger] (x & 0x07) == x % 8,
        forall|x: u8| #[trigger] (x & 0x0F) == x % 16,
        forall|x: u8| #[trigger] (x & 0x1F) == x % 32,
        forall|x: u8| #[trigger] (x & 0x3F) == x % 64,
        forall|x: u8| #[trigger] (x & 0x7F) == x % 128,
        forall|x: u8| (#[trigger] (x & 0x01) != 0) == (x % 2 == 1),
        forall|x: u8| (#[trigger] (x & 0x02) != 0) == ((x / 2) % 2 == 1),
        forall|x: u8| (#[trigger] (x & 0x04) != 0) == ((x / 4) % 2 == 1),
        forall|x: u8| (#[trigger] (x & 0x08) != 0) == ((x / 8) % 2 == 1),
        forall|x: u8| (#[trigger] (x & 0x10) != 0) == ((x / 16) % 2 == 1),
        forall|x: u8| (#[trigger] (x & 0x20) != 0) == ((x / 32) % 2 == 1),
        forall|x: u8| (#[trigger] (x & 0x40) != 0) == ((x / 64) % 2 == 1),
        forall|x: u8| (#[trigger] (x & 0x80) != 0) == (x >= 128),
        forall|x: u8| (#[trigger] (x & 0xF8) != 0) == (x >= 8),
        forall|x: u8| #[trigger] (x >> 1u8) == x / 2,
        forall|x: u8| #[trigger] (x >> 2u8) == x / 4,
        forall|x: u8| #[trigger] (x >> 4u8) == x / 16,
        forall|x: u8| #[trigger] ((x >> 4u8) & 0x0F) == x / 16,
        forall|x: u8| #[trigger] ((x >> 4u8) & 0x07) == (x / 16) % 8,
        forall|x: u8| #[trigger] ((x >> 5u8) & 0x03) == (x / 32) % 4,
        forall|x: u8| #[trigger] ((x >> 6u8) & 0x03) == x / 64,
        forall|x: u8| #[trigger] (x | 0x04) % 4 == x % 4,
        forall|x: u8| #[trigger] (x & 0xFB) % 4 == x % 4,
        forall|x: u8| ((#[trigger] (x | 0x04)) / 4) % 2 == 1,
        forall|x: u8| ((#[trigger] (x & 0xFB)) / 4) % 2 == 0,
        forall|x: u8| #[trigger] ((x & 0x81) & 0x80) == x & 0x80,
        forall|x: u8| #[trigger] (x & !0x80u8) == x & 0x7F,
        forall|x: u8| x < 16 ==> #[trigger] (x | 0xF0) == x + 0xF0,
        forall|d: u16| #[trigger] (d & 0xFF) == d % 256,
        forall|d: u16| #[trigger] (d & 0x00FF) == d % 256,
        forall|d: u16| #[trigger] (d & 0x01FF) == d % 512,
        forall|d: u16| #[trigger] ((d >> 8u16) as u8) == (d / 256) as u8,
        forall|d: u16| (#[trigger] ((d >> 8u16) & 1) != 0) == ((d / 256) % 2 == 1),
        forall|d: u16| (#[trigger] (d & 0x1000) != 0) == ((d / 4096) % 2 == 1),
        forall|f: u16, v: u8|
            f <= 2047 ==> #[trigger] ((f & 0x0700) | (v as u16)) == (f / 256) * 256 + v,
        forall|f: u16, v: u8|
            #[trigger] ((f & 0x00FF) | (((v & 0x07) as u16) << 8u16)) == f % 256 + (v % 8) * 256,
        forall|d: u16, v: u8|
            d <= 0x1FF ==> #[trigger] ((d & 0x0100) | (v as u16)) == (d / 256) * 256 + v,
{
    lemma_u8_masks();
    lemma_u8_bit_tests();
    lemma_u8_shifts();
    lemma_u8_edits();
    lemma_u16_fields();
    lemma_u16_high_byte();
    lemma_u16_high_bits();
}

/// A right shift by `s` (at most 7) divides by 2^s.
pub proof fn lemma_shift_div(f: u16, s: u8)
    by (bit_vector)
    requires
        s <= 7,
    ensures
        f >> s == f / (1u16 << s),
        s == 0 ==> 1u16 << s == 1,
        s == 1 ==> 1u16 << s == 2,
        s == 2 ==> 1u16 << s == 4,
        s == 3 ==> 1u16 << s == 8,
        s == 4 ==> 1u16 << s == 16,
        s == 5 ==> 1u16 << s == 32,
        s == 6 ==> 1u16 << s == 64,
        s == 7 ==> 1u16 << s == 128,
{
}

/// The noise LFSR's feedback bit and output bit.
pub proof fn lemma_lfsr_bits(l: u16)
    by (bit_vector)
    ensures
        ((l & 1) ^ ((l >> 1u16) & 1)) & 1 == (l & 1) ^ ((l >> 1u16) & 1),
        ((l & 0x0001) == 0) == (l % 2 == 0),
{
}

/// A two-plane tile pixel is a colour id 0..3.
pub proof fn lemma_tile_color_bound(low: u8, high: u8, bit: u8)
    by (bit_vector)
    ensures
        (((high >> bit) & 1) << 1) | ((low >> bit) & 1) <= 3,
{
}

/// Requesting an interrupt (`flags_with_bit` spelled out) sets its bit and keeps the
/// other requests.
pub proof fn lemma_flag_bits(f: u8, b: u8)
    by (bit_vector)
    ensures
        ((((f & 0x1F) | (1u8 << 0u8)) & 0x1F) & 0x1F) & 1 == 1,
        (f & 0x1F) & 1 == 1 ==> ((((f & 0x1F) | (1u8 << b)) & 0x1F) & 0x1F) & 1 == 1,
{
}

/// STAT with its mode bits replaced.
pub proof fn lemma_stat_mode_bits(v: u8, mode: u8)
    by (bit_vector)
    ensures
        (v & !0x03u8) | (mode & 0x03) == ((v / 4) * 4 + mode % 4) as u8,
{
}

/// The RTC day-high register assembled from its three fields.
pub proof fn lemma_day_high_parts(day_high: u8, halt_bit: u8, carry_bit: u8)
    by (bit_vector)
    requires
        day_high < 2,
        halt_bit == 0 || halt_bit == 0x40,
        carry_bit == 0 || carry_bit == 0x80,
    ensures
        day_high | halt_bit | carry_bit == day_high + halt_bit + carry_bit,
{
}

/// The nine-bit day counter of a day total.
pub proof fn lemma_day_low9(n: u64)
    by (bit_vector)
    ensures
        n & 0x01FF == n % 512,
{
}

/// Day-counter bit 8 from bit 0 of a byte, over the low eight bits of `d`.
pub proof fn lemma_day_bit8(d: u16, value: u8)
    by (bit_vector)
    ensures
        (d & 0x00FF) | (((value & 0x01) as u16) << 8u16) == (d % 256) + 256 * (value % 2),
{
}

/// The day counter read back from the record's two day bytes.
pub proof fn lemma_record_day_bits(b4: u8, b3: u8)
    by (bit_vector)
    ensures
        (((b4 as u16) & 0x01) << 8u16) | (b3 as u16) == (b4 % 2) * 256 + b3,
{
}

/// The little-endian bytes of a 64-bit value, and the value rebuilt from them.
pub proof fn lemma_u64_bytes(x: u64)
    by (bit_vector)
    ensures
        x & 0xFF == x % 0x100,
        (x >> 8) & 0xFF == (x / 0x100) % 256,
        (x >> 16) & 0xFF == (x / 0x1_0000) % 256,
        (x >> 24) & 0xFF == (x / 0x100_0000) % 256,
        (x >> 32) & 0xFF == (x / 0x1_0000_0000) % 256,
        (x >> 40) & 0xFF == (x / 0x100_0000_0000) % 256,
        (x >> 48) & 0xFF == (x / 0x1_0000_0000_0000) % 256,
        (x >> 56) & 0xFF == (x / 0x100_0000_0000_0000) % 256,
        x == (x & 0xFF) + 0x100 * ((x >> 8) & 0xFF) + 0x1_0000 * ((x >> 16) & 0xFF) + 0x100_0000
            * ((x >> 24) & 0xFF) + 0x1_0000_0000 * ((x >> 32) & 0xFF) + 0x100_0000_0000 * ((x
            >> 40) & 0xFF) + 0x1_0000_0000_0000 * ((x >> 48) & 0xFF) + 0x100_0000_0000_0000 * ((
        x >> 56) & 0xFF),
        x == (x % 0x100) + 0x100 * ((x / 0x100) % 256) + 0x1_0000 * ((x / 0x1_0000) % 256)
            + 0x100_0000 * ((x / 0x100_0000) % 256) + 0x1_0000_0000 * ((x / 0x1_0000_0000) % 256)
            + 0x100_0000_0000 * ((x / 0x100_0000_0000) % 256) + 0x1_0000_0000_0000 * ((x
            / 0x1_0000_0000_0000) % 256) + 0x100_0000_0000_0000 * ((x / 0x100_0000_0000_0000)
            % 256),
{
}

/// Eight bytes combined little-endian by shifts and ors.
pub proof fn lemma_u64_from_bytes(b0: u64, b1: u64, b2: u64, b3: u64, b4: u64, b5: u64, b6: u64, b7: u64)
    by (bit_vector)
    requires
        b0 < 256,
        b1 < 256,
        b2 < 256,
        b3 < 256,
        b4 < 256,
        b5 < 256,
        b6 < 256,
        b7 < 256,
    ensures
        b0 | (b1 << 8) | (b2 << 16) | (b3 << 24) | (b4 << 32) | (b5 << 40) | (b6 << 48) | (b7
            << 56) == b0 + 0x100 * b1 + 0x1_0000 * b2 + 0x100_0000 * b3 + 0x1_0000_0000 * b4
            + 0x100_0000_0000 * b5 + 0x1_0000_0000_0000 * b6 + 0x100_0000_0000_0000 * b7,
{
}

/// MBC1's ROM bank number: the two high bits above the five low ones.
pub proof fn lemma_mbc1_bank(high: usize, l: usize)
    by (bit_vector)
    requires
        high < 256,
        l < 32,
    ensures
        (high << 5usize) | l == high * 32 + l,
{
}

/// MBC2 RAM cell index.
pub proof fn lemma_mbc2_index(a: usize)
    by (bit_vector)
    ensures
        a & 0x01FF == a % 512,
{
}

/// MBC2 register select bit (address bit 8).
pub proof fn lemma_mbc2_select(addr: u16)
    by (bit_vector)
    ensures
        ((addr & 0x0100) == 0) == ((addr / 256) % 2 == 0),
{
}

/// MBC5's nine-bit ROM bank register: low byte and bit 8 written separately.
pub proof fn lemma_mbc5_bank(bank: u16, value: u8)
    by (bit_vector)
    ensures
        (bank & 0x100) | (value as u16) == ((bank / 256) % 2) * 256 + value,
{
}

pub proof fn lemma_mbc5_bank_high(bank: u16, value: u8)
    by (bit_vector)
    ensures
        (bank & 0x00FF) | (((value & 0x01) as u16) << 8u16) == (bank % 256) + 256 * (value % 2),
{
}

/// A big-endian word from two bytes.
pub proof fn lemma_word(high: u16, low: u16)
    by (bit_vector)
    requires
        high < 256,
        low < 256,
    ensures
        (high << 8u16) | low == high * 256 + low,
{
}

/// One step of the reflected CRC-32 register.
pub proof fn lemma_crc_step(c: u32)
    by (bit_vector)
    ensures
        !0u32 == 0xFFFF_FFFFu32,
        (c & 1) == 0 || (c & 1) == 1,
        0xFFFF_FFFFu32 & 0xEDB8_8320u32 == 0xEDB8_8320u32,
        0u32 & 0xEDB8_8320u32 == 0u32,
        (c >> 1u32) ^ 0u32 == c >> 1u32,
{
}

/// NR52 as read: the power bit over the status nibble.
pub proof fn lemma_nr52_bits(e: u8, m: u8)
    by (bit_vector)
    requires
        e <= 1,
    ensures
        (e << 7) | (m & 0x0F) == ((if e == 1 {
            128int
        } else {
            0int
        }) + m % 16) as u8,
        0x80 | (m & 0x0F) == (0x80 + m % 16) as u8,
{
}

/// A DMA source page as an address, and a serial shift-in of a 1 bit.
pub proof fn lemma_byte_shifts(p: u8, sb: u8)
    by (bit_vector)
    ensures
        (p as u16) << 8 == (p as u16 * 256) as u16,
        (sb << 1) | 0x01 == ((sb as int * 2) % 256 + 1) as u8,
{
}

/// Or-ing a mask in sets the mask's bits.
pub proof fn lemma_or_mask(x: u8, m: u8)
    by (bit_vector)
    ensures
        (x | m) & m == m,
{
}

} // verus!
