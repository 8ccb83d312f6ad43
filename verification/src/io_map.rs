//! The DMG I/O page: which registers exist, and which bits of each read back as 1.
use vstd::prelude::*;

verus! {

/// Addresses in the I/O page with no register on a DMG: FF03, FF08..FF0E, FF15, FF1F,
/// FF27..FF2F and FF4C..FF7F.
pub open spec fn unmapped_io(addr: u16) -> bool {
    addr == 0xFF03 || (0xFF08 <= addr <= 0xFF0E) || addr == 0xFF15 || addr == 0xFF1F || (0xFF27
        <= addr <= 0xFF2F) || (0xFF4C <= addr <= 0xFF7F)
}

pub fn is_unmapped_io(addr: u16) -> (r: bool)
    ensures
        r == unmapped_io(addr),
{
    addr == 0xFF03 || (0xFF08 <= addr && addr <= 0xFF0E) || addr == 0xFF15 || addr == 0xFF1F
        || (0xFF27 <= addr && addr <= 0xFF2F) || (0xFF4C <= addr && addr <= 0xFF7F)
}

/// The bits of a mapped register that always read as 1 (unused or write-only bits).
pub open spec fn unused_bits(addr: u16) -> u8 {
    if addr == 0xFF00 {
        0xC0
    } else if addr == 0xFF02 {
        0x7E
    } else if addr == 0xFF07 {
        0xF8
    } else if addr == 0xFF0F {
        0xE0
    } else if addr == 0xFF10 {
        0x80
    } else if addr == 0xFF11 || addr == 0xFF16 {
        0x3F
    } else if addr == 0xFF13 || addr == 0xFF18 || addr == 0xFF1B || addr == 0xFF1D || addr
        == 0xFF20 {
        0xFF
    } else if addr == 0xFF14 || addr == 0xFF19 || addr == 0xFF1E || addr == 0xFF23 {
        0xBF
    } else if addr == 0xFF1A {
        0x7F
    } else if addr == 0xFF1C {
        0x9F
    } else if addr == 0xFF26 {
        0x70
    } else if addr == 0xFF41 {
        0x80
    } else {
        0x00
    }
}

pub fn io_unused_bits_mask(addr: u16) -> (r: u8)
    ensures
        r == unused_bits(addr),
{
    match addr {
        0xFF00 => 0xC0,
        0xFF02 => 0x7E,
        0xFF07 => 0xF8,
        0xFF0F => 0xE0,
        0xFF10 => 0x80,
        0xFF11 | 0xFF16 => 0x3F,
        0xFF13 | 0xFF18 | 0xFF1B | 0xFF1D | 0xFF20 => 0xFF,
        0xFF14 | 0xFF19 | 0xFF1E | 0xFF23 => 0xBF,
        0xFF1A => 0x7F,
        0xFF1C => 0x9F,
        0xFF26 => 0x70,
        0xFF41 => 0x80,
        _ => 0x00,
    }
}

} // verus!
