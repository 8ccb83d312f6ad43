//! Properties of the bus that hold across its operations.
use vstd::prelude::*;
use crate::bus::Bus;
use crate::io_map::{unmapped_io, unused_bits};
use crate::memory_map::{is_plain_ram, ram_cell, region_of, MainRegion};
use crate::ppu::next_line;
use crate::scheduler::{lemma_tick_moves_dot, lemma_ticked_split, wrap_add16, wrap_inc64};
use crate::timer::div_value;

verus! {

/// Law: work RAM and echo RAM are one memory. After a byte is written at C000 + `offset`
/// (or at E000 + `offset`, which `write_byte` stores in the same cell), reading either
/// address gives that byte.
pub proof fn lemma_echo_ram_mirrors_work_ram(bus: Bus, offset: u16, value: u8)
    requires
        offset < 0x1E00,
    ensures
        region_of((0xC000 + offset) as u16) == MainRegion::Wram,
        region_of((0xE000 + offset) as u16) == MainRegion::Echo,
        bus.after_ram_write((0xC000 + offset) as u16, value) == bus.after_ram_write(
            (0xE000 + offset) as u16,
            value,
        ),
        ({
            let after = bus.after_ram_write((0xC000 + offset) as u16, value);
            &&& forall|b: u8| #[trigger] after.raw_read_ok((0xC000 + offset) as u16, b) <==> b == value
            &&& forall|b: u8| #[trigger] after.raw_read_ok((0xE000 + offset) as u16, b) <==> b == value
        }),
{
    broadcast use vstd::array::group_array_axioms;

}

/// Law: plain memory gives back what was stored. After `value` is stored at a plain
/// memory address (VRAM, work RAM or echo RAM, OAM, HRAM, IE), reading that address, or
/// any address of the same cell, gives `value`; every other plain memory address reads as
/// before.
pub proof fn lemma_ram_write_read_back(bus: Bus, addr: u16, value: u8, other: u16)
    requires
        is_plain_ram(addr),
        is_plain_ram(other),
    ensures
        ram_cell(other) == ram_cell(addr) ==> forall|b: u8| #[trigger] bus.after_ram_write(
            addr,
            value,
        ).raw_read_ok(other, b) <==> b == value,
        ram_cell(other) != ram_cell(addr) ==> forall|b: u8| #[trigger] bus.after_ram_write(
            addr,
            value,
        ).raw_read_ok(other, b) <==> bus.raw_read_ok(other, b),
{
    broadcast use vstd::array::group_array_axioms;

}

/// Law: a missing I/O register reads 0xFF and ignores writes.
pub proof fn lemma_unmapped_io_is_open_bus(bus: Bus, addr: u16, value: u8)
    requires
        unmapped_io(addr),
    ensures
        bus.io_read(addr) == 0xFF,
        bus.after_io_write(addr, value) == bus,
{
    reveal(Bus::after_io_write);
}

/// Law: the unused bits of a mapped I/O register always read as 1.
pub proof fn lemma_unused_io_bits_read_high(bus: Bus, addr: u16)
    requires
        0xFF00 <= addr <= 0xFF7F,
        !unmapped_io(addr),
    ensures
        bus.io_read(addr) & unused_bits(addr) == unused_bits(addr),
{
    crate::bits::lemma_or_mask(bus.io_base_value(addr), unused_bits(addr));
}

/// Law: the divider counts t-cycles modulo 2^16: running `a` then `b` t-cycles equals
/// running `a + b`, and DIV (its high byte) goes up by one every 256 t-cycles.
pub proof fn lemma_divider_counts_tcycles(d: u16, a: int, b: int)
    requires
        a >= 0,
        b >= 0,
    ensures
        wrap_add16(wrap_add16(d, a), b) == wrap_add16(d, a + b),
        div_value(wrap_add16(d, 256)) == (div_value(d) + 1) % 256,
{
    assert(((d + a) % 0x10000 + b) % 0x10000 == (d + a + b) % 0x10000) by (nonlinear_arith)
        requires
            a >= 0,
            b >= 0,
    ;
}

/// Law: switching the APU off clears NR10..NR51, reports the APU as off, and while it
/// stays off NR50 and NR51 ignore writes.
pub proof fn lemma_apu_power_off(bus: Bus, v50: u8, v51: u8)
    requires
        bus.apu.enabled,
    ensures
        ({
            let off = bus.after_nr52_write(0x00);
            &&& !off.apu.enabled
            &&& off.nr52_value() < 128
            &&& forall|i: int| 0x10 <= i <= 0x25 ==> #[trigger] off.io@[i] == 0
            &&& off.after_apu_control_write(0x24, v50) == off
            &&& off.after_apu_control_write(0x25, v51) == off
        }),
{
    crate::apu_bus::lemma_registers_cleared(bus.io);
    broadcast use vstd::array::group_array_axioms;

}

/// Law: NR52's channel-status bits cannot be written: only bit 7 of the value matters.
pub proof fn lemma_nr52_status_bits_read_only(bus: Bus, value: u8)
    ensures
        bus.after_nr52_write(value) == bus.after_nr52_write(if value >= 128 {
            0x80u8
        } else {
            0x00u8
        }),
{
}

/// Law: the STAT interrupt is edge-triggered: while the STAT line is already high,
/// updating it requests nothing.
pub proof fn lemma_stat_irq_edge_triggered(bus: Bus)
    requires
        bus.ppu.stat_irq_line,
    ensures
        bus.after_stat_line_update().io == bus.io,
{
}

/// Law: with the LCD off, writing LYC leaves STAT's LY=LYC flag as it was.
pub proof fn lemma_lyc_flag_kept_while_lcd_off(bus: Bus, value: u8)
    requires
        !bus.lcd_on(),
    ensures
        bus.after_lyc_write(value).io@[0x41] == bus.io@[0x41],
{
    broadcast use vstd::array::group_array_axioms;

}

/// Law: in the four t-cycles after a TIMA reload, writes to TIMA are ignored; a write
/// while the reload is pending cancels it.
pub proof fn lemma_tima_write_around_reload(bus: Bus, value: u8)
    ensures
        bus.timer.tima_reload_block > 0 ==> bus.after_tima_write(value) == bus,
        bus.timer.tima_reload_block == 0 ==> bus.after_tima_write(value).timer.tima_reload_delay
            == 0 && bus.after_tima_write(value).io@[0x05] == value,
{
    broadcast use vstd::array::group_array_axioms;

}

/// Law: while OAM DMA runs, the CPU reads 0xFF from OAM and its OAM writes are dropped.
pub proof fn lemma_dma_blocks_oam(bus: Bus, addr: u16)
    requires
        bus.dma.active,
        region_of(addr) == MainRegion::Oam,
    ensures
        bus.read_blocked(addr),
        bus.oam_write_blocked(),
{
}

/// Law: a scanline lasts its length in dots (456, or 452 for the first line after the LCD
/// is switched on). With the LCD on and its enable delay over, each t-cycle advances the
/// line's dot counter by one, LY and the frame count staying put, and the t-cycle that
/// reaches the line's length starts the next line (153 is followed by 0), counting a
/// frame when that line is 144. The LCD stays on throughout.
pub proof fn lemma_scanline_period(a: Bus, b: Bus, n: nat)
    requires
        a.ticked(b, n),
        a.lcd_on(),
        a.ppu.enable_delay == 0,
        a.ppu.ly_counter + n <= a.line_length(a.io@[0x44]),
    ensures
        b.lcd_on(),
        b.ppu.enable_delay == 0,
        a.ppu.ly_counter + n < a.line_length(a.io@[0x44]) ==> {
            &&& b.ppu.ly_counter == a.ppu.ly_counter + n
            &&& b.io@[0x44] == a.io@[0x44]
            &&& b.ppu.frame_counter == a.ppu.frame_counter
            &&& b.ppu.startup_line == a.ppu.startup_line
        },
        a.ppu.ly_counter + n == a.line_length(a.io@[0x44]) && n > 0 ==> {
            &&& b.ppu.ly_counter == 0
            &&& b.io@[0x44] == next_line(a.io@[0x44])
            &&& b.ppu.frame_counter == if next_line(a.io@[0x44]) == 144 {
                wrap_inc64(a.ppu.frame_counter)
            } else {
                a.ppu.frame_counter
            }
            &&& b.ppu.startup_line == (a.ppu.startup_line && a.io@[0x44] != 0)
        },
    decreases n,
{
    if n > 0 {
        let mid = choose|mid: Bus| #[trigger] a.ticked_once(mid) && mid.ticked(b, (n - 1) as nat);
        lemma_tick_moves_dot(a, mid);
        if a.line_ends() {
            assert(mid.ticked(b, 0));
            assert(b == mid);
        } else {
            assert(mid.line_length(mid.io@[0x44]) == a.line_length(a.io@[0x44]));
            lemma_scanline_period(mid, b, (n - 1) as nat);
        }
    }
}

/// `k` whole lines from the first dot of line 0, the startup line being over.
proof fn lemma_whole_lines(a: Bus, b: Bus, k: nat)
    requires
        a.ticked(b, k * 456),
        k <= 154,
        a.lcd_on(),
        a.ppu.enable_delay == 0,
        !a.ppu.startup_line,
        a.ppu.ly_counter == 0,
        a.io@[0x44] == 0,
    ensures
        b.lcd_on(),
        b.ppu.enable_delay == 0,
        !b.ppu.startup_line,
        b.ppu.ly_counter == 0,
        b.io@[0x44] == if k == 154 {
            0
        } else {
            k
        },
        b.ppu.frame_counter == if k >= 144 {
            wrap_inc64(a.ppu.frame_counter)
        } else {
            a.ppu.frame_counter
        },
    decreases k,
{
    if k > 0 {
        let j = (k - 1) as nat;
        assert(k * 456 == j * 456 + 456) by (nonlinear_arith)
            requires
                j == k - 1,
        ;
        lemma_ticked_split(a, b, j * 456, 456);
        let mid = choose|mid: Bus| #[trigger] a.ticked(mid, j * 456) && mid.ticked(b, 456);
        lemma_whole_lines(a, mid, j);
        assert(mid.line_length(mid.io@[0x44]) == 456);
        lemma_scanline_period(mid, b, 456);
    }
}

/// Law: a frame is 154 scanlines of 456 dots. With the LCD on, its enable delay over and
/// the startup line behind it, 70224 t-cycles from the first dot of line 0 bring the PPU
/// back to the first dot of line 0, having counted exactly one frame.
pub proof fn lemma_frame_period(a: Bus, b: Bus)
    requires
        a.ticked(b, 70224),
        a.lcd_on(),
        a.ppu.enable_delay == 0,
        !a.ppu.startup_line,
        a.ppu.ly_counter == 0,
        a.io@[0x44] == 0,
    ensures
        b.ppu.ly_counter == 0,
        b.io@[0x44] == 0,
        b.ppu.frame_counter == wrap_inc64(a.ppu.frame_counter),
{
    assert(154 * 456 == 70224nat);
    lemma_whole_lines(a, b, 154);
}

/// Law: t-cycles may be run in chunks: running `n` t-cycles and then `m` more is a run of
/// `n + m` t-cycles (so `tick(a)` then `tick(b)` is described exactly as `tick(a + b)`),
/// and a run of zero t-cycles changes nothing.
pub proof fn lemma_tick_chunking(a: Bus, b: Bus, c: Bus, n: nat, m: nat)
    requires
        a.ticked(b, n),
        b.ticked(c, m),
    ensures
        a.ticked(c, n + m),
        n == 0 ==> b == a,
    decreases n,
{
    if n > 0 {
        let mid = choose|mid: Bus| #[trigger] a.ticked_once(mid) && mid.ticked(b, (n - 1) as nat);
        lemma_tick_chunking(mid, b, c, (n - 1) as nat, m);
        assert(((n - 1) as nat + m) as nat == (n + m - 1) as nat);
        assert(a.ticked_once(mid) && mid.ticked(c, (n + m - 1) as nat));
    }
}

} // verus!
