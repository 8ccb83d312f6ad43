//! The DMG PPU: scanline timing with its STAT modes, the LCD-enable startup quirks,
//! VRAM/OAM access blocking, the STAT interrupt line, a background/window pixel FIFO
//! for mode 3 and the object pass that finishes each visible line.
use vstd::prelude::*;
use crate::bus::{flags_with_bit, Bus, LCD_WIDTH};
use crate::oam_scan::{
    is_drawn, lemma_line_objects_full, lemma_line_objects_len, lemma_obj_penalty_bound, lemma_penalty_bound, lemma_session_end_bounds,
    lemma_sorted_pairs_len, line_objects, obj_height, obj_penalty, penalty_from, session_end,
    shutdown_cost, sort_pairs, sorted_pairs,
};

verus! {

pub const STAT_MODE_HBLANK: u8 = 0;
pub const STAT_MODE_VBLANK: u8 = 1;
pub const STAT_MODE_OAM: u8 = 2;
pub const STAT_MODE_TRANSFER: u8 = 3;
pub const STARTUP_MODE0_DOTS: u16 = 80;
pub const STARTUP_LINE_DOTS: u16 = 452;
pub const LINE_DOTS: u16 = 456;
pub const DMG_SHADE_TO_LUMA: [u8; 4] = [0xFF, 0xAA, 0x55, 0x00];
pub const MAX_SPRITES_PER_LINE: usize = 10;
pub const MODE3_BG_WARMUP_DOTS: u8 = 12;
pub const BG_FIFO_CAPACITY: usize = 16;

/// The grey level of DMG shade 0..3 (white to black).
pub open spec fn luma(shade: u8) -> u8 {
    if shade == 0 {
        0xFF
    } else if shade == 1 {
        0xAA
    } else if shade == 2 {
        0x55
    } else {
        0x00
    }
}

/// The shade a palette register gives colour id `color` (two bits per id).
pub open spec fn palette_shade(palette: u8, color: u8) -> u8 {
    (palette >> (color * 2)) & 0x03
}

/// The colour id of pixel `bit` (7 = leftmost) of a tile row given its two planes.
pub open spec fn tile_color(low: u8, high: u8, bit: u8) -> u8 {
    (((high >> bit) & 1) << 1) | ((low >> bit) & 1)
}

/// The grey level of a shade, read from the DMG shade table.
fn shade_to_luma(shade: u8) -> (r: u8)
    requires
        shade < 4,
    ensures
        r == luma(shade),
{
    DMG_SHADE_TO_LUMA[shade as usize]
}

#[derive(Clone, Copy)]
pub struct ObjCandidate {
    pub x_raw: u8,
    pub y_raw: u8,
    pub tile: u8,
    pub attr: u8,
    pub oam_index: u8,
}

/// What `sprite` draws at column `x` of line `y` (objects `height` rows tall, tile data
/// in `vram`, palettes `obp0`/`obp1`, background colour ids `bg`): `None` off the object,
/// for colour 0, or where the object stays behind a non-zero background colour.
pub open spec fn obj_pixel(
    sprite: ObjCandidate,
    vram: Seq<u8>,
    y: int,
    height: int,
    obp0: u8,
    obp1: u8,
    bg: Seq<u8>,
    x: int,
) -> Option<u8> {
    let top = sprite.y_raw - 16;
    let left = sprite.x_raw - 8;
    if !(top <= y < top + height && left <= x < left + 8) {
        None
    } else {
        let row0 = y - top;
        let row = if sprite.attr & 0x40 != 0 {
            height - 1 - row0
        } else {
            row0
        };
        let tile_line = if height == 16 {
            (sprite.tile & 0xFE) + row / 8
        } else {
            sprite.tile as int
        };
        let addr = tile_line * 16 + (row % 8) * 2;
        let col = x - left;
        let bit = if sprite.attr & 0x20 != 0 {
            col
        } else {
            7 - col
        };
        let color = tile_color(vram[addr], vram[addr + 1], bit as u8);
        let palette = if sprite.attr & 0x10 != 0 {
            obp1
        } else {
            obp0
        };
        if color == 0 || (sprite.attr & 0x80 != 0 && bg[x] != 0) {
            None
        } else {
            Some(luma(palette_shade(palette, color)))
        }
    }
}

/// The memory the object pass of a line reads.
pub struct ObjSource {
    pub oam: Seq<u8>,
    pub vram: Seq<u8>,
    pub obp0: u8,
    pub obp1: u8,
}

impl ObjSource {
    /// OAM entry `k` as an object.
    pub open spec fn entry(self, k: int) -> ObjCandidate {
        ObjCandidate {
            y_raw: self.oam[4 * k],
            x_raw: self.oam[4 * k + 1],
            tile: self.oam[4 * k + 2],
            attr: self.oam[4 * k + 3],
            oam_index: k as u8,
        }
    }

    /// The objects that line `y` draws, ranked: the first ten OAM entries with X in
    /// 1..167 that cover the line, by X, then OAM index.
    pub open spec fn drawn_objects(self, lcdc: u8, y: int) -> Seq<(u8, u8)> {
        sorted_pairs(line_objects(self.oam, y as u8, obj_height(lcdc), 1, 40))
    }

    /// Column `x` of line `y` once objects `objs[lo..]` are drawn over `base`, the later
    /// ones first, so the earliest object that draws there wins.
    pub open spec fn obj_layers(
        self,
        objs: Seq<(u8, u8)>,
        lo: int,
        y: int,
        height: int,
        bg: Seq<u8>,
        x: int,
        base: u8,
    ) -> u8
        decreases objs.len() - lo,
    {
        if lo < 0 || lo >= objs.len() {
            base
        } else {
            over(
                obj_pixel(
                    self.entry(objs[lo].1 as int),
                    self.vram,
                    y,
                    height,
                    self.obp0,
                    self.obp1,
                    bg,
                    x,
                ),
                self.obj_layers(objs, lo + 1, y, height, bg, x, base),
            )
        }
    }

    /// Column `x` of line `y` over `base` once the line's objects are drawn (nothing is
    /// drawn with objects off).
    pub open spec fn objects_over(self, lcdc: u8, y: int, bg: Seq<u8>, x: int, base: u8) -> u8 {
        if lcdc & 0x02 == 0 {
            base
        } else {
            self.obj_layers(self.drawn_objects(lcdc, y), 0, y, obj_height(lcdc), bg, x, base)
        }
    }
}

/// `old` with what `px` gives drawn over it.
pub open spec fn over(px: Option<u8>, old: u8) -> u8 {
    match px {
        Some(c) => c,
        None => old,
    }
}

/// The background/window pixel FIFO of mode 3: a ring buffer of colour ids.
pub struct Mode3FifoState {
    pub active: bool,
    pub warmup_dots: u8,
    pub discard_pixels: u8,
    pub output_x: u8,
    pub fetch_screen_x: i16,
    pub head: usize,
    pub len: usize,
    pub pixels: [u8; 16],
}

/// What the mode-3 FIFO holds, without its ring-buffer layout.
#[verifier::ext_equal]
pub struct FifoModel {
    pub active: bool,
    pub warmup_dots: u8,
    pub discard_pixels: u8,
    pub output_x: u8,
    pub fetch_screen_x: int,
    pub queue: Seq<u8>,
}

/// One visible line while mode 3 draws it: the FIFO, the background colour ids written
/// so far, and the line's framebuffer row.
#[verifier::ext_equal]
pub struct LinePixels {
    pub fifo: FifoModel,
    pub bg: Seq<u8>,
    pub row: Seq<u8>,
}

impl FifoModel {
    /// A stopped, empty FIFO at the start of its line.
    pub open spec fn idle() -> FifoModel {
        FifoModel {
            active: false,
            warmup_dots: 0,
            discard_pixels: 0,
            output_x: 0,
            fetch_screen_x: 0,
            queue: Seq::empty(),
        }
    }
}

impl LinePixels {
    /// The first dot of mode 3: a white row, no background colours, and the FIFO
    /// started empty, warming up, with `discard` pixels to drop for fine scroll.
    pub open spec fn started(self, discard: u8) -> LinePixels {
        LinePixels {
            fifo: FifoModel {
                active: true,
                warmup_dots: MODE3_BG_WARMUP_DOTS,
                discard_pixels: discard,
                output_x: 0,
                fetch_screen_x: -discard,
                queue: Seq::empty(),
            },
            bg: Seq::new(160, |i: int| 0u8),
            row: Seq::new(160, |i: int| 0xFFu8),
        }
    }

    /// Eight more pixels of `bus`'s line `y` queued, from the fetch position on.
    pub open spec fn fetched(self, bus: Bus, lcdc: u8, y: int) -> LinePixels {
        LinePixels {
            fifo: FifoModel {
                queue: self.fifo.queue + Seq::new(
                    8,
                    |i: int| bus.bg_color_id(lcdc, y, self.fifo.fetch_screen_x + i),
                ),
                fetch_screen_x: self.fifo.fetch_screen_x + 8,
                ..self.fifo
            },
            ..self
        }
    }

    /// One dot of output: a warm-up dot outputs nothing; otherwise the oldest pixel
    /// leaves the FIFO and is dropped for fine scroll, or written (through BGP, white
    /// with the background off) to the next column while the row has room.
    pub open spec fn shifted(self, lcdc: u8, bgp: u8) -> LinePixels {
        let f = self.fifo;
        if f.warmup_dots > 0 {
            LinePixels { fifo: FifoModel { warmup_dots: (f.warmup_dots - 1) as u8, ..f }, ..self }
        } else if f.queue.len() == 0 {
            self
        } else {
            let c = f.queue[0];
            let rest = FifoModel { queue: f.queue.drop_first(), ..f };
            if f.discard_pixels > 0 {
                LinePixels {
                    fifo: FifoModel { discard_pixels: (f.discard_pixels - 1) as u8, ..rest },
                    ..self
                }
            } else if f.output_x < 160 {
                let shade = if lcdc & 0x01 == 0 {
                    0
                } else {
                    palette_shade(bgp, c)
                };
                LinePixels {
                    fifo: FifoModel { output_x: (f.output_x + 1) as u8, ..rest },
                    bg: self.bg.update(f.output_x as int, c),
                    row: self.row.update(f.output_x as int, luma(shade)),
                }
            } else {
                LinePixels { fifo: rest, ..self }
            }
        }
    }
}

impl Mode3FifoState {
    /// The FIFO's contents and counters.
    pub open spec fn model(&self) -> FifoModel {
        FifoModel {
            active: self.active,
            warmup_dots: self.warmup_dots,
            discard_pixels: self.discard_pixels,
            output_x: self.output_x,
            fetch_screen_x: self.fetch_screen_x as int,
            queue: self.queue(),
        }
    }

    pub open spec fn wf(&self) -> bool {
        &&& self.head < BG_FIFO_CAPACITY
        &&& self.len <= BG_FIFO_CAPACITY
        &&& self.output_x <= 160
        &&& -8 <= self.fetch_screen_x <= 3656
        &&& self.discard_pixels <= 7
        &&& self.warmup_dots <= MODE3_BG_WARMUP_DOTS
        &&& forall|i: int| 0 <= i < BG_FIFO_CAPACITY ==> self.pixels@[i] <= 3
    }

    /// The queued colour ids, oldest first.
    pub open spec fn queue(&self) -> Seq<u8> {
        Seq::new(
            self.len as nat,
            |i: int| self.pixels@[(self.head + i) % BG_FIFO_CAPACITY as int],
        )
    }

    pub fn new() -> (r: Self)
        ensures
            r.wf(),
            !r.active,
            r.fetch_screen_x == 0,
            r.output_x == 0,
            r.queue() == Seq::<u8>::empty(),
    {
        Mode3FifoState {
            active: false,
            warmup_dots: 0,
            discard_pixels: 0,
            output_x: 0,
            fetch_screen_x: 0,
            head: 0,
            len: 0,
            pixels: [0u8; 16],
        }
    }

    /// Starts a line: warm-up dots first, then `discard_pixels` pixels are dropped for
    /// the fine scroll.
    pub fn start(&mut self, discard_pixels: u8)
        requires
            old(self).wf(),
            discard_pixels <= 7,
        ensures
            final(self).wf(),
            final(self).active,
            final(self).warmup_dots == MODE3_BG_WARMUP_DOTS,
            final(self).discard_pixels == discard_pixels,
            final(self).output_x == 0,
            final(self).fetch_screen_x == -(discard_pixels as int),
            final(self).queue() == Seq::<u8>::empty(),
    {
        self.active = true;
        self.warmup_dots = MODE3_BG_WARMUP_DOTS;
        self.discard_pixels = discard_pixels;
        self.output_x = 0;
        self.fetch_screen_x = -(discard_pixels as i16);
        self.head = 0;
        self.len = 0;
    }

    pub open spec fn after_reset(self) -> Mode3FifoState {
        Mode3FifoState {
            active: false,
            warmup_dots: 0,
            discard_pixels: 0,
            output_x: 0,
            fetch_screen_x: 0,
            head: 0,
            len: 0,
            ..self
        }
    }

    pub fn reset(&mut self)
        requires
            old(self).wf(),
        ensures
            *final(self) == old(self).after_reset(),
            final(self).wf(),
            final(self).queue() == Seq::<u8>::empty(),
    {
        self.active = false;
        self.warmup_dots = 0;
        self.discard_pixels = 0;
        self.output_x = 0;
        self.fetch_screen_x = 0;
        self.head = 0;
        self.len = 0;
    }

    /// Room for another eight-pixel fetch.
    pub fn can_push_8(&self) -> (r: bool)
        ensures
            r == (self.len <= 8),
    {
        self.len <= 8
    }

    /// Appends a colour id; a full FIFO drops it.
    pub fn push(&mut self, color_id: u8)
        requires
            old(self).wf(),
            color_id <= 3,
        ensures
            final(self).wf(),
            final(self).queue() == if old(self).len == BG_FIFO_CAPACITY {
                old(self).queue()
            } else {
                old(self).queue().push(color_id)
            },
            final(self).len == if old(self).len == BG_FIFO_CAPACITY {
                old(self).len
            } else {
                (old(self).len + 1) as usize
            },
            final(self).active == old(self).active,
            final(self).warmup_dots == old(self).warmup_dots,
            final(self).discard_pixels == old(self).discard_pixels,
            final(self).output_x == old(self).output_x,
            final(self).fetch_screen_x == old(self).fetch_screen_x,
    {
        if self.len == BG_FIFO_CAPACITY {
            return;
        }
        let tail = (self.head + self.len) % BG_FIFO_CAPACITY;
        self.pixels[tail] = color_id;
        self.len = self.len + 1;
        assert(self.queue() =~= old(self).queue().push(color_id));
    }

    /// Takes the oldest colour id, if any.
    pub fn pop(&mut self) -> (r: Option<u8>)
        requires
            old(self).wf(),
        ensures
            final(self).wf(),
            old(self).len == 0 ==> r is None && *final(self) == *old(self),
            old(self).len > 0 ==> r == Some(old(self).queue()[0]) && final(self).queue()
                == old(self).queue().drop_first(),
            r matches Some(c) ==> c <= 3,
            final(self).active == old(self).active,
            final(self).warmup_dots == old(self).warmup_dots,
            final(self).discard_pixels == old(self).discard_pixels,
            final(self).output_x == old(self).output_x,
            final(self).fetch_screen_x == old(self).fetch_screen_x,
    {
        if self.len == 0 {
            return None;
        }
        let color_id = self.pixels[self.head];
        self.head = (self.head + 1) % BG_FIFO_CAPACITY;
        self.len = self.len - 1;
        assert(self.queue() =~= old(self).queue().drop_first());
        Some(color_id)
    }
}

pub struct PpuState {
    pub ly_counter: u16,
    pub startup_line: bool,
    pub post_enable_phase: u8,
    pub enable_delay: u8,
    pub stat_irq_line: bool,
    pub stat_mode0_enabled_this_line: bool,
    pub frame_counter: u64,
    pub mode3_dots_latched: u16,
    pub mode3_fifo: Mode3FifoState,
    pub bg_color_ids_line: [u8; 160],
}

impl PpuState {
    pub open spec fn wf(&self) -> bool {
        &&& self.ly_counter < LINE_DOTS
        &&& self.post_enable_phase <= 2
        &&& self.mode3_dots_latched <= LINE_DOTS - STARTUP_MODE0_DOTS
        &&& self.mode3_fifo.wf()
        &&& forall|i: int| 0 <= i < 160 ==> self.bg_color_ids_line@[i] <= 3
    }

    pub fn new() -> (r: Self)
        ensures
            r.wf(),
            r.ly_counter == 0,
            !r.startup_line,
            r.post_enable_phase == 0,
            r.enable_delay == 0,
            !r.stat_irq_line,
            r.frame_counter == 0,
            r.mode3_fifo.fetch_screen_x == 0,
    {
        broadcast use vstd::array::group_array_axioms;
        let line = vstd::array::array_fill_for_copy_types::<u8, 160>(0u8);
        assert(forall|i: int| 0 <= i < 160 ==> line@[i] == 0);
        PpuState {
            ly_counter: 0,
            startup_line: false,
            post_enable_phase: 0,
            enable_delay: 0,
            stat_irq_line: false,
            stat_mode0_enabled_this_line: false,
            frame_counter: 0,
            mode3_dots_latched: 0,
            mode3_fifo: Mode3FifoState::new(),
            bg_color_ids_line: line,
        }
    }
}

impl Bus {
    pub open spec fn lcd_on(self) -> bool {
        self.io@[0x40] >= 128
    }

    pub open spec fn stat_mode(self) -> u8 {
        self.io@[0x41] % 4
    }

    /// The first lines after the LCD is switched on begin with a four-dot mode-0 slice.
    pub open spec fn startup_mode0_slice(self) -> bool {
        &&& self.ppu.post_enable_phase > 0
        &&& 0 < self.io@[0x44] < 144
        &&& self.stat_mode() == STAT_MODE_HBLANK
        &&& self.ppu.ly_counter < 4
    }

    /// ... and end mode 2 four dots late (dots 80..83).
    pub open spec fn startup_mode2_tail(self) -> bool {
        &&& self.ppu.post_enable_phase > 0
        &&& 0 < self.io@[0x44] < 144
        &&& self.stat_mode() == STAT_MODE_OAM
        &&& 80 <= self.ppu.ly_counter < 84
    }

    pub open spec fn oam_read_blocked(self) -> bool {
        self.dma.active || self.startup_mode0_slice() || (self.lcd_on() && (self.stat_mode()
            == STAT_MODE_OAM || self.stat_mode() == STAT_MODE_TRANSFER))
    }

    pub open spec fn oam_access_allowed(self) -> bool {
        !self.lcd_on() || self.startup_mode2_tail() || !(self.stat_mode() == STAT_MODE_OAM
            || self.stat_mode() == STAT_MODE_TRANSFER)
    }

    pub open spec fn oam_write_blocked(self) -> bool {
        self.dma.active || !self.oam_access_allowed()
    }

    pub open spec fn vram_access_allowed(self) -> bool {
        !self.lcd_on() || self.stat_mode() != STAT_MODE_TRANSFER
    }

    pub open spec fn vram_read_blocked(self) -> bool {
        self.startup_mode2_tail() || !self.vram_access_allowed()
    }

    pub open spec fn vram_write_blocked(self) -> bool {
        !self.vram_access_allowed()
    }

    /// STAT as read: the LY=LYC flag is hidden during the startup mode-0 slice.
    pub open spec fn stat_read(self) -> u8 {
        if self.startup_mode0_slice() {
            self.io@[0x41] & 0xFB
        } else {
            self.io@[0x41]
        }
    }

    pub open spec fn line_length(self, ly: u8) -> u16 {
        if self.ppu.startup_line && ly == 0 {
            STARTUP_LINE_DOTS
        } else {
            LINE_DOTS
        }
    }

    /// The dot at which mode 3 begins: 80, or 84 on the lines right after LCD enable
    /// (80 on the startup line itself, which has no mode 2).
    pub open spec fn mode3_start(self, startup_line: bool) -> u16 {
        if startup_line {
            STARTUP_MODE0_DOTS
        } else if self.ppu.post_enable_phase > 0 {
            84
        } else {
            80
        }
    }

    /// The STAT mode on a visible line at dot `line_cycle`, given mode 3's length.
    pub open spec fn visible_mode(self, line_cycle: u16, startup_line: bool, mode3_dots: u16) -> u8 {
        if startup_line {
            if line_cycle < STARTUP_MODE0_DOTS {
                STAT_MODE_HBLANK
            } else if line_cycle < STARTUP_MODE0_DOTS + mode3_dots {
                STAT_MODE_TRANSFER
            } else {
                STAT_MODE_HBLANK
            }
        } else if self.ppu.post_enable_phase == 0 {
            if line_cycle < 80 {
                STAT_MODE_OAM
            } else if line_cycle < 80 + mode3_dots {
                STAT_MODE_TRANSFER
            } else {
                STAT_MODE_HBLANK
            }
        } else if line_cycle < 4 {
            STAT_MODE_HBLANK
        } else if line_cycle < 84 {
            STAT_MODE_OAM
        } else if line_cycle < 84 + mode3_dots {
            STAT_MODE_TRANSFER
        } else {
            STAT_MODE_HBLANK
        }
    }

    /// Mode 0's STAT source counts on a visible line once mode 3 is over, four dots late
    /// unless the source was enabled during this line.
    pub open spec fn mode0_source_active_now(self) -> bool {
        let ly = self.io@[0x44];
        let startup_line = self.ppu.startup_line && ly == 0;
        let mode3_end = if startup_line {
            STARTUP_MODE0_DOTS + self.ppu.mode3_dots_latched
        } else {
            80 + self.ppu.mode3_dots_latched
        };
        let delay = if self.ppu.stat_mode0_enabled_this_line {
            0int
        } else {
            4int
        };
        ly < 144 && self.ppu.ly_counter >= mode3_end + delay
    }

    /// The STAT interrupt line: any enabled source (LY=LYC, mode 2 — which on a DMG
    /// also fires on entering line 144 —, mode 1, mode 0) that is active.
    pub open spec fn stat_source_active(self) -> bool {
        let stat = self.io@[0x41];
        let mode = stat % 4;
        let lyc = (stat / 4) % 2 == 1;
        let mode2_or_vblank_start = mode == STAT_MODE_OAM || (mode == STAT_MODE_VBLANK
            && self.io@[0x44] == 144 && self.ppu.ly_counter == 0);
        let mode0_active = mode == STAT_MODE_HBLANK && self.mode0_source_active_now();
        ((stat / 64) % 2 == 1 && lyc) || ((stat / 32) % 2 == 1 && mode2_or_vblank_start) || ((
        stat / 16) % 2 == 1 && mode == STAT_MODE_VBLANK) || ((stat / 8) % 2 == 1 && mode0_active)
    }
}

impl PpuState {
    pub fn lcd_enabled(bus: &Bus) -> (r: bool)
        ensures
            r == bus.lcd_on(),
    {
        let v = bus.io[0x40];
        assert((v & 0x80) != 0 <==> v >= 128) by {
            crate::bits::lemma_bits();
        }
        (bus.io[0x40] & 0x80) != 0
    }

    pub fn ppu_mode(bus: &Bus) -> (r: u8)
        ensures
            r == bus.stat_mode(),
    {
        let v = bus.io[0x41];
        assert(v & 0x03 == v % 4) by {
            crate::bits::lemma_bits();
        }
        bus.io[0x41] & 0x03
    }

    pub fn ppu_startup_mode0_slice_active(bus: &Bus) -> (r: bool)
        ensures
            r == bus.startup_mode0_slice(),
    {
        bus.ppu.post_enable_phase > 0 && bus.io[0x44] > 0 && bus.io[0x44] < 144 && Self::ppu_mode(
            bus,
        ) == STAT_MODE_HBLANK && bus.ppu.ly_counter < 4
    }

    pub fn ppu_startup_mode2_tail_active(bus: &Bus) -> (r: bool)
        ensures
            r == bus.startup_mode2_tail(),
    {
        bus.ppu.post_enable_phase > 0 && bus.io[0x44] > 0 && bus.io[0x44] < 144 && Self::ppu_mode(
            bus,
        ) == STAT_MODE_OAM && 80 <= bus.ppu.ly_counter && bus.ppu.ly_counter < 84
    }

    pub fn ppu_blocks_oam_read(bus: &Bus) -> (r: bool)
        ensures
            r == bus.oam_read_blocked(),
    {
        let mode = Self::ppu_mode(bus);
        bus.dma.active || Self::ppu_startup_mode0_slice_active(bus) || (Self::lcd_enabled(bus) && (
        mode == STAT_MODE_OAM || mode == STAT_MODE_TRANSFER))
    }

    pub fn ppu_allows_oam_access(bus: &Bus) -> (r: bool)
        ensures
            r == bus.oam_access_allowed(),
    {
        if !Self::lcd_enabled(bus) {
            return true;
        }
        if Self::ppu_startup_mode2_tail_active(bus) {
            return true;
        }
        let mode = Self::ppu_mode(bus);
        !(mode == STAT_MODE_OAM || mode == STAT_MODE_TRANSFER)
    }

    pub fn ppu_blocks_oam_write(bus: &Bus) -> (r: bool)
        ensures
            r == bus.oam_write_blocked(),
    {
        bus.dma.active || !Self::ppu_allows_oam_access(bus)
    }

    pub fn ppu_allows_vram_access(bus: &Bus) -> (r: bool)
        ensures
            r == bus.vram_access_allowed(),
    {
        if !Self::lcd_enabled(bus) {
            return true;
        }
        Self::ppu_mode(bus) != STAT_MODE_TRANSFER
    }

    pub fn ppu_blocks_vram_read(bus: &Bus) -> (r: bool)
        ensures
            r == bus.vram_read_blocked(),
    {
        Self::ppu_startup_mode2_tail_active(bus) || !Self::ppu_allows_vram_access(bus)
    }

    pub fn ppu_blocks_vram_write(bus: &Bus) -> (r: bool)
        ensures
            r == bus.vram_write_blocked(),
    {
        !Self::ppu_allows_vram_access(bus)
    }

    pub fn stat_read_value(bus: &Bus) -> (r: u8)
        ensures
            r == bus.stat_read(),
    {
        let mut value = bus.io[0x41];
        if Self::ppu_startup_mode0_slice_active(bus) {
            value = value & 0xFB;
        }
        value
    }

    pub fn line_length_tcycles(bus: &Bus, ly: u8) -> (r: u16)
        ensures
            r == bus.line_length(ly),
    {
        if bus.ppu.startup_line && ly == 0 {
            STARTUP_LINE_DOTS
        } else {
            LINE_DOTS
        }
    }

    pub fn mode3_start_tcycle(bus: &Bus, startup_line: bool) -> (r: u16)
        ensures
            r == bus.mode3_start(startup_line),
    {
        if startup_line {
            STARTUP_MODE0_DOTS
        } else {
            match bus.ppu.post_enable_phase {
                0 => 80,
                _ => 84,
            }
        }
    }

    pub fn mode0_stat_source_active_now(bus: &Bus) -> (r: bool)
        requires
            bus.wf(),
        ensures
            r == bus.mode0_source_active_now(),
    {
        let ly = bus.io[0x44];
        if ly >= 144 {
            return false;
        }
        let startup_line = bus.ppu.startup_line && ly == 0;
        let mode3_end: u16 = if startup_line {
            STARTUP_MODE0_DOTS + bus.ppu.mode3_dots_latched
        } else {
            80 + bus.ppu.mode3_dots_latched
        };
        let delay_tcycles: u16 = if bus.ppu.stat_mode0_enabled_this_line {
            0
        } else {
            4
        };
        bus.ppu.ly_counter >= mode3_end + delay_tcycles
    }

    pub fn stat_irq_source_active(bus: &Bus) -> (r: bool)
        requires
            bus.wf(),
        ensures
            r == bus.stat_source_active(),
    {
        let stat = bus.io[0x41];
        let mode = stat & 0x03;
        let lyc = (stat & 0x04) != 0;
        proof {
            assert(stat & 0x03 == stat % 4) by {
            crate::bits::lemma_bits();
        }
            assert((stat & 0x04) != 0 <==> (stat / 4) % 2 == 1) by {
            crate::bits::lemma_bits();
        }
            assert((stat & 0x40) != 0 <==> (stat / 64) % 2 == 1) by {
            crate::bits::lemma_bits();
        }
            assert((stat & 0x20) != 0 <==> (stat / 32) % 2 == 1) by {
            crate::bits::lemma_bits();
        }
            assert((stat & 0x10) != 0 <==> (stat / 16) % 2 == 1) by {
            crate::bits::lemma_bits();
        }
            assert((stat & 0x08) != 0 <==> (stat / 8) % 2 == 1) by {
            crate::bits::lemma_bits();
        }
        }
        let mode2_or_vblank_start = mode == STAT_MODE_OAM || (mode == STAT_MODE_VBLANK
            && bus.io[0x44] == 144 && bus.ppu.ly_counter == 0);
        let mode0_active = mode == STAT_MODE_HBLANK && Self::mode0_stat_source_active_now(bus);
        ((stat & 0x40) != 0 && lyc) || ((stat & 0x20) != 0 && mode2_or_vblank_start) || ((stat
            & 0x10) != 0 && mode == STAT_MODE_VBLANK) || ((stat & 0x08) != 0 && mode0_active)
    }

    /// STAT bits 0..1 take the mode.
    pub fn set_stat_mode(bus: &mut Bus, mode: u8)
        requires
            old(bus).wf(),
        ensures
            *final(bus) == (Bus {
                io: old(bus).io_with(0x41, ((old(bus).io@[0x41] / 4) * 4 + mode % 4) as u8),
                ..*old(bus)
            }),
            final(bus).wf(),
    {
        let v = bus.io[0x41];
        assert((v & !0x03u8) | (mode & 0x03) == ((v / 4) * 4 + mode % 4) as u8) by {
            crate::bits::lemma_stat_mode_bits(v, mode);
        }
        bus.io[0x41] = (bus.io[0x41] & !0x03u8) | (mode & 0x03);
    }

    /// STAT bit 2 follows LY == LYC.
    pub fn update_lyc_flag(bus: &mut Bus)
        requires
            old(bus).wf(),
        ensures
            *final(bus) == (Bus {
                io: old(bus).io_with(0x41, lyc_flagged(old(bus).io@[0x41], old(bus).io@[0x44] == old(bus).io@[0x45])),
                ..*old(bus)
            }),
            final(bus).wf(),
    {
        let lyc_match = bus.io[0x44] == bus.io[0x45];
        if lyc_match {
            bus.io[0x41] = bus.io[0x41] | 0x04;
        } else {
            bus.io[0x41] = bus.io[0x41] & 0xFB;
        }
    }

    /// Recomputes the STAT interrupt line; a rising edge requests the STAT interrupt.
    pub fn update_stat_irq_line(bus: &mut Bus)
        requires
            old(bus).wf(),
        ensures
            *final(bus) == old(bus).after_stat_line_update(),
            final(bus).wf(),
    {
        let high = Self::stat_irq_source_active(bus);
        if high && !bus.ppu.stat_irq_line {
            bus.request_interrupt(1);
        }
        bus.ppu.stat_irq_line = high;
    }
}

/// STAT with bit 2 set or cleared.
pub open spec fn lyc_flagged(stat: u8, matched: bool) -> u8 {
    if matched {
        stat | 0x04
    } else {
        stat & 0xFB
    }
}

impl Bus {
    pub open spec fn after_stat_line_update(self) -> Bus {
        let high = self.stat_source_active();
        let raised = if high && !self.ppu.stat_irq_line {
            Bus { io: self.io_with(0x0F, self.flags_with(1)), ..self }
        } else {
            self
        };
        Bus { ppu: PpuState { stat_irq_line: high, ..raised.ppu }, ..raised }
    }

    pub fn ppu_blocks_oam_read(&self) -> (r: bool)
        ensures
            r == self.oam_read_blocked(),
    {
        PpuState::ppu_blocks_oam_read(self)
    }

    pub fn ppu_blocks_oam_write(&self) -> (r: bool)
        ensures
            r == self.oam_write_blocked(),
    {
        PpuState::ppu_blocks_oam_write(self)
    }

    pub fn ppu_blocks_vram_read(&self) -> (r: bool)
        ensures
            r == self.vram_read_blocked(),
    {
        PpuState::ppu_blocks_vram_read(self)
    }

    pub fn ppu_blocks_vram_write(&self) -> (r: bool)
        ensures
            r == self.vram_write_blocked(),
    {
        PpuState::ppu_blocks_vram_write(self)
    }

    pub fn stat_read_value(&self) -> (r: u8)
        ensures
            r == self.stat_read(),
    {
        PpuState::stat_read_value(self)
    }

    pub fn stat_irq_source_active(&self) -> (r: bool)
        requires
            self.wf(),
        ensures
            r == self.stat_source_active(),
    {
        PpuState::stat_irq_source_active(self)
    }
}

/// A scanline of colour id 0.
pub open spec fn blank_line() -> [u8; 160] {
    vstd::array::spec_array_fill_for_copy_type::<u8, 160>(0u8)
}

impl Bus {
    /// The line state after LY is forced to 0 (LCD switched on or off, or LY written):
    /// line and FIFO state cleared, STAT mode 0.
    pub open spec fn after_line_reset(self, startup_line: bool) -> Bus {
        Bus {
            io: vstd::array::spec_array_update(
                self.io_with(0x44, 0),
                0x41,
                ((self.io@[0x41] / 4) * 4) as u8,
            ),
            ppu: PpuState {
                ly_counter: 0,
                startup_line,
                post_enable_phase: 0,
                enable_delay: 0,
                stat_mode0_enabled_this_line: false,
                mode3_dots_latched: 0,
                mode3_fifo: self.ppu.mode3_fifo.after_reset(),
                bg_color_ids_line: blank_line(),
                ..self.ppu
            },
            ..self
        }
    }

    /// LCDC write. Switching the LCD off parks the PPU on line 0 in mode 0 (the LY=LYC
    /// flag is kept); switching it on starts the special first line; otherwise only the
    /// register changes.
    pub open spec fn after_lcdc_write(self, value: u8) -> Bus {
        let was_on = self.lcd_on();
        let now_on = value >= 128;
        let written = Bus { io: self.io_with(0x40, value), ..self };
        if was_on && !now_on {
            written.after_line_reset(false).after_stat_line_update()
        } else if !was_on && now_on {
            let r = written.after_line_reset(true);
            Bus {
                io: r.io_with(0x41, lyc_flagged(r.io@[0x41], r.io@[0x44] == r.io@[0x45])),
                ..r
            }.after_stat_line_update()
        } else {
            written
        }
    }

    /// STAT write: only bits 3..6 (the interrupt sources) are writable. Enabling the
    /// mode-0 source on a visible line makes it count without the usual delay.
    pub open spec fn after_stat_write(self, value: u8) -> Bus {
        let old_stat = self.io@[0x41];
        let new_stat = (old_stat & 0x07) | (value & 0x78);
        let old_src = (old_stat / 8) % 2 == 1;
        let new_src = (new_stat / 8) % 2 == 1;
        let flag = if !old_src && new_src && self.lcd_on() && self.io@[0x44] < 144 {
            true
        } else if !new_src {
            false
        } else {
            self.ppu.stat_mode0_enabled_this_line
        };
        Bus {
            io: self.io_with(0x41, new_stat),
            ppu: PpuState { stat_mode0_enabled_this_line: flag, ..self.ppu },
            ..self
        }.after_stat_line_update()
    }

    /// LYC write; with the LCD on the LY=LYC flag and the STAT line follow at once.
    pub open spec fn after_lyc_write(self, value: u8) -> Bus {
        let written = Bus { io: self.io_with(0x45, value), ..self };
        if self.lcd_on() {
            Bus {
                io: written.io_with(
                    0x41,
                    lyc_flagged(written.io@[0x41], written.io@[0x44] == value),
                ),
                ..written
            }.after_stat_line_update()
        } else {
            written
        }
    }

    /// LY write: any value resets the line counter to line 0.
    pub open spec fn after_ly_write(self) -> Bus {
        let r = self.after_line_reset(false);
        let flagged = if self.lcd_on() {
            Bus { io: r.io_with(0x41, lyc_flagged(r.io@[0x41], r.io@[0x44] == r.io@[0x45])), ..r }
        } else {
            r
        };
        flagged.after_stat_line_update()
    }
}

impl PpuState {
    fn reset_line_state(bus: &mut Bus, startup_line: bool)
        requires
            old(bus).wf(),
        ensures
            *final(bus) == old(bus).after_line_reset(startup_line),
            final(bus).wf(),
    {
        broadcast use vstd::array::group_array_axioms;
        bus.io[0x44] = 0;
        bus.ppu.ly_counter = 0;
        bus.ppu.startup_line = startup_line;
        bus.ppu.post_enable_phase = 0;
        bus.ppu.enable_delay = 0;
        bus.ppu.stat_mode0_enabled_this_line = false;
        bus.ppu.mode3_dots_latched = 0;
        bus.ppu.mode3_fifo.reset();
        bus.ppu.bg_color_ids_line = vstd::array::array_fill_for_copy_types::<u8, 160>(0u8);
        Self::set_stat_mode(bus, STAT_MODE_HBLANK);
    }

    pub fn write_lcdc(bus: &mut Bus, value: u8)
        requires
            old(bus).wf(),
        ensures
            *final(bus) == old(bus).after_lcdc_write(value),
            final(bus).wf(),
    {
        let was_enabled = Self::lcd_enabled(bus);
        assert((value & 0x80) != 0 <==> value >= 128) by {
            crate::bits::lemma_bits();
        }
        let now_enabled = (value & 0x80) != 0;
        bus.io[0x40] = value;
        if was_enabled && !now_enabled {
            Self::reset_line_state(bus, false);
            Self::update_stat_irq_line(bus);
        } else if !was_enabled && now_enabled {
            Self::reset_line_state(bus, true);
            Self::update_lyc_flag(bus);
            Self::update_stat_irq_line(bus);
        }
    }

    pub fn write_stat(bus: &mut Bus, value: u8)
        requires
            old(bus).wf(),
        ensures
            *final(bus) == old(bus).after_stat_write(value),
            final(bus).wf(),
    {
        let old_stat = bus.io[0x41];
        let new_stat = (old_stat & 0x07) | (value & 0x78);
        assert((old_stat & 0x08) != 0 <==> (old_stat / 8) % 2 == 1) by {
            crate::bits::lemma_bits();
        }
        assert((new_stat & 0x08) != 0 <==> (new_stat / 8) % 2 == 1) by {
            crate::bits::lemma_bits();
        }
        let old_mode0_source = (old_stat & 0x08) != 0;
        bus.io[0x41] = new_stat;
        let new_mode0_source = (new_stat & 0x08) != 0;
        if !old_mode0_source && new_mode0_source && Self::lcd_enabled(bus) && bus.io[0x44] < 144 {
            bus.ppu.stat_mode0_enabled_this_line = true;
        } else if !new_mode0_source {
            bus.ppu.stat_mode0_enabled_this_line = false;
        }
        Self::update_stat_irq_line(bus);
    }

    pub fn write_lyc(bus: &mut Bus, value: u8)
        requires
            old(bus).wf(),
        ensures
            *final(bus) == old(bus).after_lyc_write(value),
            final(bus).wf(),
    {
        bus.io[0x45] = value;
        if Self::lcd_enabled(bus) {
            Self::update_lyc_flag(bus);
            Self::update_stat_irq_line(bus);
        }
    }

    pub fn write_ly(bus: &mut Bus, value: u8)
        requires
            old(bus).wf(),
        ensures
            *final(bus) == old(bus).after_ly_write(),
            final(bus).wf(),
    {
        Self::reset_line_state(bus, false);
        if Self::lcd_enabled(bus) {
            Self::update_lyc_flag(bus);
        }
        Self::update_stat_irq_line(bus);
    }
}

impl Bus {
    pub fn write_lcdc(&mut self, value: u8)
        requires
            old(self).wf(),
        ensures
            *final(self) == old(self).after_lcdc_write(value),
            final(self).wf(),
    {
        PpuState::write_lcdc(self, value);
    }

    pub fn write_stat(&mut self, value: u8)
        requires
            old(self).wf(),
        ensures
            *final(self) == old(self).after_stat_write(value),
            final(self).wf(),
    {
        PpuState::write_stat(self, value);
    }

    pub fn write_lyc(&mut self, value: u8)
        requires
            old(self).wf(),
        ensures
            *final(self) == old(self).after_lyc_write(value),
            final(self).wf(),
    {
        PpuState::write_lyc(self, value);
    }

    pub fn write_ly(&mut self, value: u8)
        requires
            old(self).wf(),
        ensures
            *final(self) == old(self).after_ly_write(),
            final(self).wf(),
    {
        PpuState::write_ly(self, value);
    }
}

/// The VRAM offset of row `line` of a background/window tile: unsigned tile numbers
/// from 0x8000 when LCDC bit 4 is set, else signed ones around 0x9000.
pub open spec fn tile_line_addr(lcdc: u8, tile_index: u8, line_in_tile: int) -> int {
    if (lcdc / 16) % 2 == 1 {
        tile_index * 16 + line_in_tile * 2
    } else if tile_index < 128 {
        0x1000 + tile_index * 16 + line_in_tile * 2
    } else {
        0x1000 - (256 - tile_index) * 16 + line_in_tile * 2
    }
}

/// Law: where BG/window tile data lives. With LCDC bit 4 set, row `line` of tile `t` is
/// at VRAM offset 16t + 2·line, inside 0000..=0FFF; with it clear, tile numbers are
/// signed around offset 1000: 1000 + 16·t + 2·line for t in 0..=127 (inside 1000..=17FF)
/// and 1000 + 16·(t − 256) + 2·line for t in 128..=255 (inside 0800..=0FFF), so the
/// tile map area from 1800 on is never read as tile data.
pub proof fn lemma_tile_data_addressing(lcdc: u8, tile: u8, line: int)
    requires
        0 <= line < 8,
    ensures
        (lcdc / 16) % 2 == 1 ==> tile_line_addr(lcdc, tile, line) == 16 * tile + 2 * line,
        (lcdc / 16) % 2 == 1 ==> 0 <= tile_line_addr(lcdc, tile, line) < 0x1000,
        (lcdc / 16) % 2 == 0 ==> tile_line_addr(lcdc, tile, line) == 0x1000 + 16 * (if tile
            < 128 {
            tile as int
        } else {
            tile - 256
        }) + 2 * line,
        (lcdc / 16) % 2 == 0 && tile < 128 ==> 0x1000 <= tile_line_addr(lcdc, tile, line)
            < 0x1800,
        (lcdc / 16) % 2 == 0 && tile >= 128 ==> 0x0800 <= tile_line_addr(lcdc, tile, line)
            < 0x1000,
{
}

impl Bus {
    /// The background/window colour id at screen position (`screen_x`, `y`): the window
    /// where it is enabled and has started (WX - 7), else the background scrolled by
    /// SCX/SCY; 0 when LCDC bit 0 turns both off.
    pub open spec fn bg_color_id(self, lcdc: u8, y: int, screen_x: int) -> u8 {
        if lcdc % 2 == 0 {
            0
        } else {
            let (map, px, py) = self.bg_fetch_pos(lcdc, y, screen_x);
            self.tile_pixel_at(lcdc, map + (py / 8) * 32 + px / 8, py % 8, px % 8)
        }
    }

    /// Which tile map (VRAM offset) and which pixel of the map's 256x256 plane the
    /// screen position samples: the window's own coordinates once it has started on this
    /// line, else the scrolled background's.
    pub open spec fn bg_fetch_pos(self, lcdc: u8, y: int, screen_x: int) -> (int, int, int) {
        let scx = self.io@[0x43];
        let scy = self.io@[0x42];
        let wy = self.io@[0x4A];
        let wx = self.io@[0x4B];
        let wx_start = wx - 7;
        let window_enabled = (lcdc / 32) % 2 == 1 && wy < 144 && wx <= 166;
        if window_enabled && y >= wy && screen_x >= wx_start {
            (if (lcdc / 64) % 2 == 1 {
                0x1C00int
            } else {
                0x1800int
            }, screen_x - wx_start, y - wy)
        } else {
            (if (lcdc / 8) % 2 == 1 {
                0x1C00int
            } else {
                0x1800int
            }, (screen_x + scx) % 256, (y + scy) % 256)
        }
    }

    /// The colour id of pixel `x_in_tile` of row `line` of the tile numbered at VRAM
    /// offset `map_index`.
    pub open spec fn tile_pixel_at(self, lcdc: u8, map_index: int, line: int, x_in_tile: int) -> u8 {
        let addr = tile_line_addr(lcdc, self.vram@[map_index], line);
        tile_color(self.vram@[addr], self.vram@[addr + 1], (7 - x_in_tile) as u8)
    }
}

impl PpuState {
    pub fn bg_tile_line_addr(lcdc: u8, tile_index: u8, line_in_tile: usize) -> (r: usize)
        requires
            line_in_tile < 8,
        ensures
            r == tile_line_addr(lcdc, tile_index, line_in_tile as int),
            r + 1 < 0x2000,
    {
        assert((lcdc & 0x10) != 0 <==> (lcdc / 16) % 2 == 1) by {
            crate::bits::lemma_bits();
        }
        if (lcdc & 0x10) != 0 {
            (tile_index as usize) * 16 + line_in_tile * 2
        } else if tile_index < 128 {
            0x1000 + (tile_index as usize) * 16 + line_in_tile * 2
        } else {
            0x1000 - (256 - tile_index as usize) * 16 + line_in_tile * 2
        }
    }

    pub fn bg_window_color_id_for_screen_x(bus: &Bus, lcdc: u8, y: usize, screen_x: i16) -> (r: u8)
        requires
            y < 144,
            -8 <= screen_x <= 3656,
        ensures
            r == bus.bg_color_id(lcdc, y as int, screen_x as int),
            r <= 3,
    {
        assert(lcdc & 0x01 == lcdc % 2) by {
            crate::bits::lemma_bits();
        }
        if (lcdc & 0x01) == 0 {
            return 0;
        }
        let (map, px, py) = Self::bg_fetch_position(bus, lcdc, y, screen_x);
        Self::tile_pixel(bus, lcdc, map + (py / 8) * 32 + px / 8, py % 8, px % 8)
    }

    fn bg_fetch_position(bus: &Bus, lcdc: u8, y: usize, screen_x: i16) -> (r: (usize, usize, usize))
        requires
            y < 144,
            -8 <= screen_x <= 3656,
        ensures
            r.0 == bus.bg_fetch_pos(lcdc, y as int, screen_x as int).0,
            r.1 == bus.bg_fetch_pos(lcdc, y as int, screen_x as int).1,
            r.2 == bus.bg_fetch_pos(lcdc, y as int, screen_x as int).2,
            r.0 == 0x1800 || r.0 == 0x1C00,
            r.1 <= 3663,
            r.2 < 256,
    {
        let scx = bus.io[0x43];
        let scy = bus.io[0x42];
        let wy = bus.io[0x4A];
        let wx = bus.io[0x4B];
        let wx_start: i16 = wx as i16 - 7;
        assert((lcdc & 0x08) != 0 <==> (lcdc / 8) % 2 == 1) by {
            crate::bits::lemma_bits();
        }
        assert((lcdc & 0x40) != 0 <==> (lcdc / 64) % 2 == 1) by {
            crate::bits::lemma_bits();
        }
        assert((lcdc & 0x20) != 0 <==> (lcdc / 32) % 2 == 1) by {
            crate::bits::lemma_bits();
        }
        let window_enabled = (lcdc & 0x20) != 0 && wy < 144 && wx <= 166;
        if window_enabled && y >= wy as usize && screen_x >= wx_start {
            let map: usize = if (lcdc & 0x40) != 0 {
                0x1C00
            } else {
                0x1800
            };
            (map, (screen_x - wx_start) as usize, y - wy as usize)
        } else {
            let map: usize = if (lcdc & 0x08) != 0 {
                0x1C00
            } else {
                0x1800
            };
            let v: i32 = screen_x as i32 + scx as i32;
            let px: usize = if v < 0 {
                (v + 256) as usize
            } else {
                (v % 256) as usize
            };
            (map, px, (y + scy as usize) % 256)
        }
    }

    /// The colour id of pixel `x_in_tile` of row `line` of the tile whose number sits at
    /// VRAM offset `map_index`.
    pub fn tile_pixel(bus: &Bus, lcdc: u8, map_index: usize, line: usize, x_in_tile: usize) -> (r: u8)
        requires
            map_index < 0x2000,
            line < 8,
            x_in_tile < 8,
        ensures
            r == bus.tile_pixel_at(lcdc, map_index as int, line as int, x_in_tile as int),
            r <= 3,
    {
        let tile_index = bus.vram[map_index];
        let tile_line_addr = Self::bg_tile_line_addr(lcdc, tile_index, line);
        let low = bus.vram[tile_line_addr];
        let high = bus.vram[tile_line_addr + 1];
        let bit: u8 = 7 - x_in_tile as u8;
        let c = (((high >> bit) & 1) << 1) | ((low >> bit) & 1);
        assert((((high >> bit) & 1) << 1) | ((low >> bit) & 1) <= 3) by {
            crate::bits::lemma_tile_color_bound(low, high, bit);
        }
        c
    }
}

/// Dots that ending an object fetch session costs, by the last object's X mod 8.
fn shutdown_dots(x_mod: u8) -> (r: u16)
    ensures
        r == shutdown_cost(x_mod),
{
    if x_mod == 0 || x_mod == 2 || x_mod == 4 {
        3
    } else {
        2
    }
}

impl Bus {
    /// Line `ly` as mode 3 sees it.
    pub open spec fn line_pixels(self, ly: u8) -> LinePixels {
        LinePixels {
            fifo: self.ppu.mode3_fifo.model(),
            bg: self.ppu.bg_color_ids_line@,
            row: self.framebuffer@.subrange(ly * 160, ly * 160 + 160),
        }
    }

    /// Line `ly` after dot `line_cycle`: nothing happens outside mode 3; its first dot
    /// starts the line; then, while the FIFO runs, eight pixels are fetched when it has
    /// room and one pixel is shifted out.
    pub open spec fn mode3_dot(self, ly: u8, line_cycle: u16, startup_line: bool) -> LinePixels {
        let start = self.mode3_start(startup_line);
        let p0 = self.line_pixels(ly);
        if line_cycle < start || line_cycle >= start + self.ppu.mode3_dots_latched {
            p0
        } else {
            let p1 = if line_cycle == start {
                p0.started(self.io@[0x43] % 8)
            } else {
                p0
            };
            if !p1.fifo.active {
                p1
            } else {
                let p2 = if p1.fifo.queue.len() <= 8 {
                    p1.fetched(self, self.io@[0x40], ly as int)
                } else {
                    p1
                };
                p2.shifted(self.io@[0x40], self.io@[0x47])
            }
        }
    }

    /// What the object pass reads: OAM, VRAM and the two object palettes.
    pub open spec fn obj_source(self) -> ObjSource {
        ObjSource {
            oam: self.oam@,
            vram: self.vram@,
            obp0: self.io@[0x48],
            obp1: self.io@[0x49],
        }
    }

    /// The bus with mode 3's length latched, as the first dot of a visible line does.
    pub open spec fn latched(self) -> Bus {
        if self.io@[0x44] < 144 && self.ppu.ly_counter == 0 {
            Bus {
                ppu: PpuState {
                    mode3_dots_latched: self.mode3_dots(self.io@[0x44]) as u16,
                    ..self.ppu
                },
                ..self
            }
        } else {
            self
        }
    }

    /// The current line once this dot's mode-3 work is done.
    pub open spec fn dot_pixels(self) -> LinePixels {
        let ly = self.io@[0x44];
        self.latched().mode3_dot(ly, self.ppu.ly_counter, self.ppu.startup_line && ly == 0)
    }

    /// Framebuffer rows other than `y`, and everything but the framebuffer, are as in
    /// `other`.
    pub open spec fn only_row_changed(self, other: Bus, y: int) -> bool {
        &&& forall|i: int|
            0 <= i < 23040 && !(y * 160 <= i < y * 160 + 160) ==> #[trigger] self.framebuffer@[i]
                == other.framebuffer@[i]
        &&& self == Bus { framebuffer: self.framebuffer, ..other }
    }
}

impl PpuState {
    /// The extra mode-3 dots that objects on line `ly` cost: up to ten objects (X = 0
    /// counted too) are ranked left to right and grouped into fetch sessions (a gap of
    /// eight pixels starts a new one); the first object of a session costs 6 dots
    /// adjusted by its X mod 8, each further one 6, and a session followed by another
    /// a shutdown cost by the last X mod 8.
    pub fn mode3_obj_penalty_tcycles(bus: &Bus, ly: u8) -> (r: u16)
        ensures
            r == obj_penalty(bus.oam@, bus.io@[0x40], ly),
    {
        if (bus.io[0x40] & 0x02) == 0 {
            return 0;
        }
        let lcdc = bus.io[0x40];
        let sprite_height: i16 = if (lcdc & 0x04) != 0 {
            16
        } else {
            8
        };
        let ghost height = obj_height(lcdc);
        let ghost oam = bus.oam@;
        let mut sprites: [(u8, u8); 10] = [(0u8, 0u8); 10];
        let mut sprite_count: usize = 0;
        let mut oam_index: u8 = 0;
        proof {
            assert(sprites@.take(0) =~= line_objects(oam, ly, height, 0, 0));
        }
        while oam_index < 40
            invariant
                oam_index <= 40,
                sprite_height == height,
                sprite_height == 8 || sprite_height == 16,
                oam == bus.oam@,
                sprite_count == line_objects(oam, ly, height, 0, oam_index as int).len(),
                sprites@.take(sprite_count as int) == line_objects(oam, ly, height, 0, oam_index as int),
            decreases 40 - oam_index,
        {
            proof {
                lemma_line_objects_len(oam, ly, height, 0, oam_index as int);
            }
            let ghost before = sprites@;
            let base = (oam_index as usize) * 4;
            let y: i16 = bus.oam[base] as i16 - 16;
            let x = bus.oam[base + 1];
            let ly_i = ly as i16;
            if (x == 0 || x < 168) && ly_i >= y && ly_i < y + sprite_height {
                if sprite_count < 10 {
                    sprites[sprite_count] = (x, oam_index);
                    sprite_count = sprite_count + 1;
                    proof {
                        assert(sprites@.take(sprite_count as int) =~= before.take(
                            sprite_count - 1,
                        ).push((x, oam_index)));
                    }
                }
            }
            oam_index = oam_index + 1;
        }
        let ghost unsorted = sprites@.take(sprite_count as int);
        proof {
            lemma_line_objects_len(oam, ly, height, 0, 40);
        }
        sort_pairs(&mut sprites, sprite_count);
        let ghost s = sorted_pairs(unsorted);
        proof {
            lemma_sorted_pairs_len(unsorted);
            lemma_penalty_bound(s, 0);
            assert(s.len() == sprite_count);
        }
        let mut penalty: u16 = 0;
        let mut i: usize = 0;
        while i < sprite_count
            invariant
                sprite_count <= 10,
                s.len() == sprite_count,
                sprites@.take(sprite_count as int) == s,
                i <= sprite_count,
                penalty + penalty_from(s, i as int) == penalty_from(s, 0),
                penalty_from(s, 0) <= 170,
            decreases sprite_count - i,
        {
            proof {
                lemma_session_end_bounds(s, i as int);
            }
            let mut j = i;
            while j + 1 < sprite_count
                invariant
                    i <= j < sprite_count <= 10,
                    s.len() == sprite_count,
                    sprites@.take(sprite_count as int) == s,
                    session_end(s, i as int) == session_end(s, j as int),
                ensures
                    i <= j < sprite_count,
                    session_end(s, i as int) == j,
                decreases sprite_count - j,
            {
                let x = sprites[j].0;
                let next_x = sprites[j + 1].0;
                assert(x == s[j as int].0 && next_x == s[j + 1].0) by {
                    assert(sprites@[j as int] == s[j as int]);
                    assert(sprites@[j + 1] == s[j + 1]);
                }
                if next_x.wrapping_sub(x) < 8 {
                    j = j + 1;
                } else {
                    break;
                }
            }
            let ghost end = session_end(s, i as int);
            assert(end == j);
            let first_x = sprites[i].0;
            let last_x = sprites[j].0;
            assert(first_x == s[i as int].0 && last_x == s[j as int].0) by {
                assert(sprites@[i as int] == s[i as int]);
                assert(sprites@[j as int] == s[j as int]);
            }
            proof {
                lemma_penalty_bound(s, j + 1);
                assert(first_x & 0x07 == first_x % 8 && last_x & 0x07 == last_x % 8) by {
                    crate::bits::lemma_bits();
                }
            }
            let first_x_mod = first_x & 0x07;
            let first_penalty: u16 = if first_x_mod <= 1 {
                8
            } else if first_x_mod >= 4 {
                4
            } else {
                6
            };
            penalty = penalty + first_penalty;
            let additional_sprites = (j - i) as u16;
            penalty = penalty + additional_sprites * 6;
            if j + 1 < sprite_count {
                let last_x_mod = last_x & 0x07;
                penalty = penalty + shutdown_dots(last_x_mod);
            }
            i = j + 1;
        }
        penalty
    }

    /// Draws the objects of line `y` over the background: up to ten objects that
    /// intersect the line (X in 1..167), the lower X (then the lower OAM index) winning;
    /// colour 0 is transparent, and an object with the priority bit set stays behind
    /// background colours 1..3.
    pub fn render_objects_scanline(bus: &mut Bus, lcdc: u8, y: usize, bg_color_ids: &[u8; 160])
        requires
            y < 144,
        ensures
            final(bus).only_row_changed(*old(bus), y as int),
            lcdc & 0x02 == 0 ==> *final(bus) == *old(bus),
            forall|x: int|
                0 <= x < 160 ==> #[trigger] final(bus).framebuffer@[y * 160 + x] == old(
                    bus,
                ).obj_source().objects_over(lcdc, y as int, bg_color_ids@, x, old(bus).framebuffer@[y * 160 + x]),
            lcdc & 0x02 != 0 ==> forall|x: int|
                0 <= x < 160 ==> #[trigger] final(bus).framebuffer@[y * 160 + x]
                    == old(bus).obj_source().obj_layers(
                    old(bus).obj_source().drawn_objects(lcdc, y as int),
                    0,
                    y as int,
                    obj_height(lcdc),
                    bg_color_ids@,
                    x,
                    old(bus).framebuffer@[y * 160 + x],
                ),
    {
        if (lcdc & 0x02) == 0 {
            return;
        }
        let sprite_height: usize = if (lcdc & 0x04) != 0 {
            16
        } else {
            8
        };
        let ghost height = obj_height(lcdc);
        let ghost oam = bus.oam@;
        let ghost ly = y as u8;
        let obp0 = bus.io[0x48];
        let obp1 = bus.io[0x49];
        let y_i = y as i16;
        let mut keys: [(u8, u8); 10] = [(0u8, 0u8); 10];
        let mut sprite_count: usize = 0;
        let mut oam_index: u8 = 0;
        proof {
            assert(keys@.take(0) =~= line_objects(oam, ly, height, 1, 0));
        }
        while oam_index < 40
            invariant
                sprite_count <= 10,
                oam_index <= 40,
                sprite_height == height,
                sprite_height == 8 || sprite_height == 16,
                y_i == y as i16,
                y < 144,
                ly == y as u8,
                oam == bus.oam@,
                sprite_count == line_objects(oam, ly, height, 1, oam_index as int).len(),
                keys@.take(sprite_count as int) == line_objects(oam, ly, height, 1, oam_index as int),
                forall|k: int| 0 <= k < sprite_count ==> #[trigger] keys@[k].1 < 40,
            ensures
                keys@.take(sprite_count as int) == line_objects(oam, ly, height, 1, 40),
                sprite_count <= 10,
                forall|k: int| 0 <= k < sprite_count ==> #[trigger] keys@[k].1 < 40,
            decreases 40 - oam_index,
        {
            if sprite_count == MAX_SPRITES_PER_LINE {
                proof {
                    lemma_line_objects_full(oam, ly, height, 1, oam_index as int, 40);
                }
                break;
            }
            let ghost before = keys@;
            let base = (oam_index as usize) * 4;
            let y_raw = bus.oam[base];
            let x_raw = bus.oam[base + 1];
            let top: i16 = y_raw as i16 - 16;
            if x_raw != 0 && x_raw < 168 && y_i >= top && y_i < top + sprite_height as i16 {
                keys[sprite_count] = (x_raw, oam_index);
                sprite_count = sprite_count + 1;
                proof {
                    assert(keys@.take(sprite_count as int) =~= before.take(sprite_count - 1).push(
                        (x_raw, oam_index),
                    ));
                    assert forall|k: int| 0 <= k < sprite_count implies #[trigger] keys@[k].1
                        < 40 by {
                        if k < sprite_count - 1 {
                            assert(keys@[k] == before[k]);
                        }
                    }
                }
            }
            oam_index = oam_index + 1;
        }
        let ghost unsorted = keys@;
        sort_pairs(&mut keys, sprite_count);
        let ghost objs = keys@.take(sprite_count as int);
        proof {
            lemma_sorted_pairs_len(unsorted.take(sprite_count as int));
            assert(objs == old(bus).obj_source().drawn_objects(lcdc, y as int));
        }
        assert forall|k: int| 0 <= k < sprite_count implies #[trigger] keys@[k].1 < 40 by {
            assert(is_drawn(keys@[k], unsorted, sprite_count as int));
            let m = choose|m: int| 0 <= m < sprite_count && keys@[k] == unsorted[m];
            assert(unsorted[m].1 < 40);
        }
        let ghost start = *bus;
        let mut n = sprite_count;
        while n > 0
            invariant
                n <= sprite_count <= 10,
                objs.len() == sprite_count,
                forall|k: int| 0 <= k < sprite_count ==> #[trigger] keys@[k] == objs[k],
                y < 144,
                start == *old(bus),
                bus.only_row_changed(start, y as int),
                sprite_height == height,
                sprite_height == 8 || sprite_height == 16,
                obp0 == start.io@[0x48],
                obp1 == start.io@[0x49],
                forall|k: int| 0 <= k < sprite_count ==> #[trigger] keys@[k].1 < 40,
                forall|x: int|
                    0 <= x < 160 ==> #[trigger] bus.framebuffer@[y * 160 + x] == start.obj_source().obj_layers(
                        objs,
                        n as int,
                        y as int,
                        height,
                        bg_color_ids@,
                        x,
                        start.framebuffer@[y * 160 + x],
                    ),
            decreases n,
        {
            n = n - 1;
            let sprite = Self::oam_candidate(bus, keys[n].1);
            let ghost mid = *bus;
            Self::draw_object_row(bus, sprite, y, sprite_height, obp0, obp1, bg_color_ids);
            proof {
                assert(sprite == start.obj_source().entry(objs[n as int].1 as int));
                assert forall|x: int| 0 <= x < 160 implies #[trigger] bus.framebuffer@[y * 160
                    + x] == start.obj_source().obj_layers(
                    objs,
                    n as int,
                    y as int,
                    height,
                    bg_color_ids@,
                    x,
                    start.framebuffer@[y * 160 + x],
                ) by {
                    assert(mid.framebuffer@[y * 160 + x] == start.obj_source().obj_layers(
                        objs,
                        n + 1,
                        y as int,
                        height,
                        bg_color_ids@,
                        x,
                        start.framebuffer@[y * 160 + x],
                    ));
                }
            }
        }
    }

    /// The OAM entry with the given index.
    fn oam_candidate(bus: &Bus, oam_index: u8) -> (r: ObjCandidate)
        requires
            oam_index < 40,
        ensures
            r == bus.obj_source().entry(oam_index as int),
    {
        let base = (oam_index as usize) * 4;
        ObjCandidate {
            y_raw: bus.oam[base],
            x_raw: bus.oam[base + 1],
            tile: bus.oam[base + 2],
            attr: bus.oam[base + 3],
            oam_index,
        }
    }

    /// Draws one object's pixels on line `y`.
    fn draw_object_row(
        bus: &mut Bus,
        sprite: ObjCandidate,
        y: usize,
        sprite_height: usize,
        obp0: u8,
        obp1: u8,
        bg_color_ids: &[u8; 160],
    )
        requires
            y < 144,
            sprite_height == 8 || sprite_height == 16,
        ensures
            final(bus).only_row_changed(*old(bus), y as int),
            forall|x: int|
                0 <= x < 160 ==> #[trigger] final(bus).framebuffer@[y * 160 + x] == over(
                    obj_pixel(
                        sprite,
                        old(bus).vram@,
                        y as int,
                        sprite_height as int,
                        obp0,
                        obp1,
                        bg_color_ids@,
                        x,
                    ),
                    old(bus).framebuffer@[y * 160 + x],
                ),
    {
        let ghost h = sprite_height as int;
        let ghost vram = bus.vram@;
        let x_left: i16 = sprite.x_raw as i16 - 8;
        let y_top: i16 = sprite.y_raw as i16 - 16;
        let y_i = y as i16;
        if y_i < y_top || y_i >= y_top + sprite_height as i16 {
            return;
        }
        let mut y_in_sprite = (y_i - y_top) as usize;
        assert(y_in_sprite < sprite_height);
        if (sprite.attr & 0x40) != 0 {
            y_in_sprite = sprite_height - 1 - y_in_sprite;
        }
        let tile_line: u8 = if sprite_height == 16 {
            let tile = sprite.tile;
            assert(tile & 0xFE <= 254) by (bit_vector);
            (sprite.tile & 0xFE).wrapping_add((y_in_sprite / 8) as u8)
        } else {
            sprite.tile
        };
        let line_in_tile = y_in_sprite % 8;
        let line_addr = (tile_line as usize) * 16 + line_in_tile * 2;
        let low = bus.vram[line_addr];
        let high = bus.vram[line_addr + 1];
        let row_start = y * LCD_WIDTH;
        let palette = if (sprite.attr & 0x10) != 0 {
            obp1
        } else {
            obp0
        };
        let ghost start = *bus;
        let mut x_in_sprite: usize = 0;
        while x_in_sprite < 8
            invariant
                x_in_sprite <= 8,
                -8 <= x_left <= 247,
                x_left == sprite.x_raw - 8,
                y_top <= y < y_top + h,
                y_top == sprite.y_raw - 16,
                h == sprite_height,
                y < 144,
                row_start == y * 160,
                vram == start.vram@,
                low == vram[line_addr as int],
                high == vram[line_addr + 1],
                palette == if sprite.attr & 0x10 != 0 {
                    obp1
                } else {
                    obp0
                },
                line_addr == tile_line * 16 + line_in_tile * 2,
                tile_line == if h == 16 {
                    (sprite.tile & 0xFE) + (if sprite.attr & 0x40 != 0 {
                        h - 1 - (y - y_top)
                    } else {
                        y - y_top
                    }) / 8
                } else {
                    sprite.tile as int
                },
                line_in_tile == (if sprite.attr & 0x40 != 0 {
                    h - 1 - (y - y_top)
                } else {
                    y - y_top
                }) % 8,
                bus.only_row_changed(start, y as int),
                start == *old(bus),
                forall|x: int|
                    0 <= x < 160 ==> #[trigger] bus.framebuffer@[y * 160 + x] == if x < x_left
                        + x_in_sprite {
                        over(
                            obj_pixel(sprite, vram, y as int, h, obp0, obp1, bg_color_ids@, x),
                            start.framebuffer@[y * 160 + x],
                        )
                    } else {
                        start.framebuffer@[y * 160 + x]
                    },
            decreases 8 - x_in_sprite,
        {
            let ghost before = *bus;
            let screen_x: i16 = x_left + x_in_sprite as i16;
            if 0 <= screen_x && screen_x < 160 {
                let bit: u8 = if (sprite.attr & 0x20) != 0 {
                    x_in_sprite as u8
                } else {
                    7 - x_in_sprite as u8
                };
                let color_id = (((high >> bit) & 1) << 1) | ((low >> bit) & 1);
                assert((((high >> bit) & 1) << 1) | ((low >> bit) & 1) <= 3) by {
                    crate::bits::lemma_tile_color_bound(low, high, bit);
                }
                let x_index = screen_x as usize;
                let obj_behind_bg = (sprite.attr & 0x80) != 0;
                if color_id != 0 && !(obj_behind_bg && bg_color_ids[x_index] != 0) {
                    let shade_id = (palette >> (color_id * 2)) & 0x03;
                    assert((palette >> (color_id * 2)) & 0x03 < 4) by {
                        crate::bits::lemma_bits();
                    }
                    bus.framebuffer[row_start + x_index] = shade_to_luma(shade_id);
                }
                proof {
                    assert forall|x: int| 0 <= x < 160 implies #[trigger] bus.framebuffer@[y
                        * 160 + x] == if x < x_left + x_in_sprite + 1 {
                        over(
                            obj_pixel(sprite, vram, y as int, h, obp0, obp1, bg_color_ids@, x),
                            start.framebuffer@[y * 160 + x],
                        )
                    } else {
                        start.framebuffer@[y * 160 + x]
                    } by {
                        if x != screen_x {
                            assert(bus.framebuffer@[y * 160 + x] == before.framebuffer@[y * 160
                                + x]);
                        }
                    }
                }
            }
            x_in_sprite = x_in_sprite + 1;
        }
        proof {
            assert forall|x: int| 0 <= x < 160 implies #[trigger] bus.framebuffer@[y * 160 + x]
                == over(
                obj_pixel(sprite, vram, y as int, h, obp0, obp1, bg_color_ids@, x),
                start.framebuffer@[y * 160 + x],
            ) by {
                if x >= x_left + 8 {
                    assert(obj_pixel(sprite, vram, y as int, h, obp0, obp1, bg_color_ids@, x)
                        is None);
                }
            }
        }
    }
}

impl Bus {
    /// The length of mode 3 on line `ly`: 172 dots, plus SCX mod 8, plus the object
    /// penalty, but never more than the line leaves after its first 80 dots.
    pub open spec fn mode3_dots(self, ly: u8) -> int {
        let base = 172 + self.io@[0x43] % 8 + obj_penalty(self.oam@, self.io@[0x40], ly);
        let limit = self.line_length(ly) - 80;
        if base <= limit {
            base
        } else {
            limit
        }
    }

    /// The I/O page is unchanged except at STAT, LY and IF.
    pub open spec fn io_same_except_ppu_regs(self, other: Bus) -> bool {
        forall|i: int|
            0 <= i < 0x80 && i != 0x0F && i != 0x41 && i != 0x44 ==> #[trigger] self.io@[i]
                == other.io@[i]
    }

    /// Only the PPU's own state, the framebuffer and the STAT, LY and IF registers
    /// differ from `other`.
    pub open spec fn ppu_frame(self, other: Bus) -> bool {
        &&& self == Bus { io: self.io, ppu: self.ppu, framebuffer: self.framebuffer, ..other }
        &&& self.io_same_except_ppu_regs(other)
    }
}

impl PpuState {
    /// Fine-scroll dots (SCX mod 8) plus the object penalty.
    pub fn mode3_extra_tcycles(bus: &Bus, ly: u8) -> (r: u16)
        ensures
            r == bus.io@[0x43] % 8 + obj_penalty(bus.oam@, bus.io@[0x40], ly),
            r <= 177,
    {
        let scx = bus.io[0x43];
        assert(scx & 0x07 == scx % 8) by {
            crate::bits::lemma_bits();
        }
        proof {
            lemma_obj_penalty_bound(bus.oam@, bus.io@[0x40], ly);
        }
        let scx_penalty = (scx & 0x07) as u16;
        scx_penalty + Self::mode3_obj_penalty_tcycles(bus, ly)
    }

    /// Mode 3 lasts 172 dots plus the fine-scroll and object penalties, cut off so the
    /// line still has its 80 dots of mode 2 (or startup mode 0).
    pub fn mode3_length_tcycles(bus: &Bus, ly: u8, startup_line: bool) -> (r: u16)
        ensures
            r == bus.mode3_dots(ly),
            r <= bus.line_length(ly) - 80,
    {
        let extra = Self::mode3_extra_tcycles(bus, ly);
        let base: u16 = 172 + extra;
        let line_len = Self::line_length_tcycles(bus, ly);
        let limit: u16 = line_len - STARTUP_MODE0_DOTS;
        if base <= limit {
            base
        } else {
            limit
        }
    }

    pub fn mode_for_visible_line(bus: &Bus, ly: u8, line_cycle: u16, startup_line: bool) -> (r: u8)
        requires
            bus.wf(),
        ensures
            r == bus.visible_mode(line_cycle, startup_line, bus.ppu.mode3_dots_latched),
            r <= 3,
    {
        let mode3_dots = if line_cycle == 0 {
            Self::mode3_length_tcycles(bus, ly, startup_line)
        } else {
            bus.ppu.mode3_dots_latched
        };
        if startup_line {
            if line_cycle < STARTUP_MODE0_DOTS {
                STAT_MODE_HBLANK
            } else if line_cycle < STARTUP_MODE0_DOTS + mode3_dots {
                STAT_MODE_TRANSFER
            } else {
                STAT_MODE_HBLANK
            }
        } else {
            let mode2_end: u16 = if bus.ppu.post_enable_phase > 0 {
                84
            } else {
                80
            };
            if bus.ppu.post_enable_phase == 0 {
                if line_cycle < 80 {
                    STAT_MODE_OAM
                } else if line_cycle < 80 + mode3_dots {
                    STAT_MODE_TRANSFER
                } else {
                    STAT_MODE_HBLANK
                }
            } else if line_cycle < 4 {
                STAT_MODE_HBLANK
            } else if line_cycle < mode2_end {
                STAT_MODE_OAM
            } else if line_cycle < mode2_end + mode3_dots {
                STAT_MODE_TRANSFER
            } else {
                STAT_MODE_HBLANK
            }
        }
    }

    /// One dot of mode 3 on line `ly`: at its first dot the line is cleared and the FIFO
    /// started; after the warm-up, each dot shifts one background/window pixel out (the
    /// first SCX mod 8 are dropped) through BGP into the framebuffer, refilling eight
    /// pixels at a time.
    pub fn render_mode3_dot(bus: &mut Bus, ly: u8, line_cycle: u16, startup_line: bool)
        requires
            old(bus).wf_core(),
            ly < 144,
            line_cycle == old(bus).ppu.ly_counter,
            old(bus).ppu.mode3_fifo.fetch_screen_x <= 8 * line_cycle,
        ensures
            final(bus).wf_core(),
            final(bus).ppu.mode3_fifo.fetch_screen_x <= 8 * (line_cycle + 1),
            final(bus).line_pixels(ly) == old(bus).mode3_dot(ly, line_cycle, startup_line),
            final(bus).only_row_changed(
                Bus {
                    ppu: PpuState {
                        mode3_fifo: final(bus).ppu.mode3_fifo,
                        bg_color_ids_line: final(bus).ppu.bg_color_ids_line,
                        ..old(bus).ppu
                    },
                    ..*old(bus)
                },
                ly as int,
            ),
    {
        let ghost b0 = *bus;
        let mode3_start = Self::mode3_start_tcycle(bus, startup_line);
        let mode3_dots = bus.ppu.mode3_dots_latched;
        let mode3_end: u16 = mode3_start + mode3_dots;
        if line_cycle < mode3_start || line_cycle >= mode3_end {
            return;
        }
        if line_cycle == mode3_start {
            Self::clear_line(bus, ly);
            let scx = bus.io[0x43];
            assert(scx & 0x07 == scx % 8) by {
                crate::bits::lemma_bits();
            }
            let discard_pixels = scx & 0x07;
            bus.ppu.mode3_fifo.start(discard_pixels);
            proof {
                let want = b0.line_pixels(ly).started(scx % 8);
                let got = bus.line_pixels(ly);
                assert(got.row =~= want.row) by {
                    assert forall|i: int| 0 <= i < 160 implies got.row[i] == want.row[i] by {
                        assert(bus.framebuffer@[ly * 160 + i] == 0xFF);
                    }
                }
                assert(got.bg =~= want.bg);
                assert(got.fifo =~= want.fifo);
                assert(got =~= want);
            }
        }
        let ghost p1 = bus.line_pixels(ly);
        let ghost b1 = *bus;
        if !bus.ppu.mode3_fifo.active {
            return;
        }
        let lcdc = bus.io[0x40];
        let y = ly as usize;
        if bus.ppu.mode3_fifo.can_push_8() {
            Self::fetch_eight_pixels(bus, lcdc, y, line_cycle);
            assert(p1.fetched(b1, lcdc, ly as int) =~= p1.fetched(b0, lcdc, ly as int));
        }
        Self::shift_out_pixel(bus, ly, lcdc);
    }

    /// One dot of pixel output: the warm-up dots output nothing; then the oldest FIFO
    /// pixel is dropped for fine scroll or written through BGP to the next column.
    fn shift_out_pixel(bus: &mut Bus, ly: u8, lcdc: u8)
        requires
            old(bus).wf_core(),
            ly < 144,
        ensures
            final(bus).wf_core(),
            final(bus).ppu.mode3_fifo.fetch_screen_x == old(bus).ppu.mode3_fifo.fetch_screen_x,
            final(bus).line_pixels(ly) == old(bus).line_pixels(ly).shifted(lcdc, old(bus).io@[0x47]),
            final(bus).only_row_changed(
                Bus {
                    ppu: PpuState {
                        mode3_fifo: final(bus).ppu.mode3_fifo,
                        bg_color_ids_line: final(bus).ppu.bg_color_ids_line,
                        ..old(bus).ppu
                    },
                    ..*old(bus)
                },
                ly as int,
            ),
    {
        let row_start = (ly as usize) * LCD_WIDTH;
        let color_id: Option<u8> = if bus.ppu.mode3_fifo.warmup_dots > 0 {
            bus.ppu.mode3_fifo.warmup_dots = bus.ppu.mode3_fifo.warmup_dots - 1;
            None
        } else {
            bus.ppu.mode3_fifo.pop()
        };
        let color_id = match color_id {
            Some(c) => c,
            None => {
                return;
            },
        };
        if bus.ppu.mode3_fifo.discard_pixels > 0 {
            bus.ppu.mode3_fifo.discard_pixels = bus.ppu.mode3_fifo.discard_pixels - 1;
            return;
        }
        if (bus.ppu.mode3_fifo.output_x as usize) < LCD_WIDTH {
            let x = bus.ppu.mode3_fifo.output_x as usize;
            bus.ppu.mode3_fifo.output_x = bus.ppu.mode3_fifo.output_x + 1;
            let shade_id: u8 = if (lcdc & 0x01) == 0 {
                0
            } else {
                let bgp = bus.io[0x47];
                assert((bgp >> (color_id * 2)) & 0x03 < 4) by {
            crate::bits::lemma_bits();
        }
                (bgp >> (color_id * 2)) & 0x03
            };
            bus.ppu.bg_color_ids_line[x] = color_id;
            bus.framebuffer[row_start + x] = DMG_SHADE_TO_LUMA[shade_id as usize];
        }
    }

    /// Fetches the next eight background/window pixels into the FIFO.
    fn fetch_eight_pixels(bus: &mut Bus, lcdc: u8, y: usize, line_cycle: u16)
        requires
            old(bus).wf_core(),
            y < 144,
            line_cycle < 456,
            old(bus).ppu.mode3_fifo.len <= 8,
            old(bus).ppu.mode3_fifo.fetch_screen_x <= 8 * line_cycle,
        ensures
            final(bus).wf_core(),
            final(bus).ppu.mode3_fifo.fetch_screen_x == old(bus).ppu.mode3_fifo.fetch_screen_x + 8,
            final(bus).line_pixels(y as u8) == old(bus).line_pixels(y as u8).fetched(*old(bus), lcdc, y as int),
            *final(bus) == (Bus {
                ppu: PpuState { mode3_fifo: final(bus).ppu.mode3_fifo, ..old(bus).ppu },
                ..*old(bus)
            }),
            final(bus).ppu.mode3_fifo.active == old(bus).ppu.mode3_fifo.active,
            final(bus).ppu.mode3_fifo.warmup_dots == old(bus).ppu.mode3_fifo.warmup_dots,
            final(bus).ppu.mode3_fifo.discard_pixels == old(bus).ppu.mode3_fifo.discard_pixels,
            final(bus).ppu.mode3_fifo.output_x == old(bus).ppu.mode3_fifo.output_x,
    {
        let fetch_screen_x = bus.ppu.mode3_fifo.fetch_screen_x;
        let ghost pre = *bus;
        let mut lane: i16 = 0;
        while lane < 8
            invariant
                0 <= lane <= 8,
                -8 <= fetch_screen_x <= 8 * line_cycle,
                line_cycle < 456,
                y < 144,
                pre.wf_core(),
                bus.ppu.mode3_fifo.wf(),
                bus.ppu.mode3_fifo.len <= 8 + lane,
                bus.ppu.mode3_fifo.fetch_screen_x == fetch_screen_x,
                *bus == (Bus { ppu: PpuState { mode3_fifo: bus.ppu.mode3_fifo, ..pre.ppu }, ..pre }),
                bus.ppu.mode3_fifo.active == pre.ppu.mode3_fifo.active,
                bus.ppu.mode3_fifo.warmup_dots == pre.ppu.mode3_fifo.warmup_dots,
                bus.ppu.mode3_fifo.discard_pixels == pre.ppu.mode3_fifo.discard_pixels,
                bus.ppu.mode3_fifo.output_x == pre.ppu.mode3_fifo.output_x,
                bus.ppu.mode3_fifo.queue() == pre.ppu.mode3_fifo.queue() + Seq::new(
                    lane as nat,
                    |i: int| pre.bg_color_id(lcdc, y as int, fetch_screen_x + i),
                ),
            decreases 8 - lane,
        {
            let pixel = Self::bg_window_color_id_for_screen_x(bus, lcdc, y, fetch_screen_x + lane);
            let ghost q = bus.ppu.mode3_fifo.queue();
            bus.ppu.mode3_fifo.push(pixel);
            assert(bus.ppu.mode3_fifo.queue() =~= pre.ppu.mode3_fifo.queue() + Seq::new(
                (lane + 1) as nat,
                |i: int| pre.bg_color_id(lcdc, y as int, fetch_screen_x + i),
            ));
            lane = lane + 1;
        }
        bus.ppu.mode3_fifo.fetch_screen_x = fetch_screen_x + 8;
        assert(bus.line_pixels(y as u8) =~= pre.line_pixels(y as u8).fetched(pre, lcdc, y as int));
    }

    /// The first dot of mode 3 starts the line white with no background colours.
    fn clear_line(bus: &mut Bus, ly: u8)
        requires
            old(bus).wf_core(),
            ly < 144,
        ensures
            final(bus).wf_core(),
            final(bus).only_row_changed(
                Bus {
                    ppu: PpuState { bg_color_ids_line: final(bus).ppu.bg_color_ids_line, ..old(bus).ppu },
                    ..*old(bus)
                },
                ly as int,
            ),
            forall|i: int| 0 <= i < 160 ==> #[trigger] final(bus).framebuffer@[ly * 160 + i] == 0xFF,
            final(bus).ppu.bg_color_ids_line@ == Seq::new(160, |i: int| 0u8),
    {
        broadcast use vstd::array::group_array_axioms;
        let row_start = (ly as usize) * LCD_WIDTH;
        let ghost start = *bus;
        let mut x: usize = 0;
        while x < LCD_WIDTH
            invariant
                x <= 160,
                row_start == ly * 160,
                ly < 144,
                bus.only_row_changed(start, ly as int),
                forall|i: int| 0 <= i < x ==> #[trigger] bus.framebuffer@[ly * 160 + i] == 0xFF,
            decreases 160 - x,
        {
            bus.framebuffer[row_start + x] = DMG_SHADE_TO_LUMA[0];
            x = x + 1;
        }
        let line = vstd::array::array_fill_for_copy_types::<u8, 160>(0u8);
        assert(forall|i: int| 0 <= i < 160 ==> line@[i] == 0);
        bus.ppu.bg_color_ids_line = line;
    }
}

/// The post-enable phase after a line ends: 2 when the startup line ends, else one less
/// (down to 0).
pub open spec fn phase_after_line(phase: u8, startup_line_ends: bool) -> u8 {
    if startup_line_ends {
        2
    } else if phase > 0 {
        (phase - 1) as u8
    } else {
        0
    }
}

/// IF with the STAT interrupt requested when `raised`.
pub open spec fn stat_flagged(flags: u8, raised: bool) -> u8 {
    if raised {
        flags_with_bit(flags, 1)
    } else {
        flags
    }
}

/// Bit 2 of a flagged STAT tells whether LY matched LYC.
pub proof fn lemma_lyc_flag_bit(stat: u8)
    ensures
        ((lyc_flagged(stat, true) / 4) % 2 == 1),
        ((lyc_flagged(stat, false) / 4) % 2 == 0),
{
    assert(((stat | 0x04) / 4) % 2 == 1) by {
            crate::bits::lemma_bits();
        }
    assert(((stat & 0xFB) / 4) % 2 == 0) by {
            crate::bits::lemma_bits();
        }
}

pub proof fn lemma_lyc_flag_bits()
    ensures
        forall|s: u8, m: bool| (#[trigger] (lyc_flagged(s, m) / 4) % 2 == 1) == m,
{
    assert forall|s: u8, m: bool| (#[trigger] (lyc_flagged(s, m) / 4) % 2 == 1) == m by {
        lemma_lyc_flag_bit(s);
    }
}

/// Flagging LY=LYC leaves the mode bits alone.
pub proof fn lemma_lyc_flag_mode(v: u8)
    ensures
        lyc_flagged(v, true) % 4 == v % 4,
        lyc_flagged(v, false) % 4 == v % 4,
{
    assert((v | 0x04) % 4 == v % 4) by {
            crate::bits::lemma_bits();
        }
    assert((v & 0xFB) % 4 == v % 4) by {
            crate::bits::lemma_bits();
        }
}

/// Requesting any interrupt keeps a pending VBlank request, and requesting VBlank sets it.
pub proof fn lemma_vblank_flag(f: u8, b: u8)
    ensures
        (crate::bus::flags_with_bit(f, 0) & 0x1F) & 1 == 1,
        (f & 0x1F) & 1 == 1 ==> (crate::bus::flags_with_bit(f, b) & 0x1F) & 1 == 1,
{
    assert(((((f & 0x1F) | (1u8 << 0u8)) & 0x1F) & 0x1F) & 1 == 1) by {
            crate::bits::lemma_flag_bits(f, b);
        }
    assert((f & 0x1F) & 1 == 1 ==> ((((f & 0x1F) | (1u8 << b)) & 0x1F) & 0x1F) & 1 == 1) by {
            crate::bits::lemma_flag_bits(f, b);
        }
}

/// The line after `ly`: 0 follows 153.
pub open spec fn next_line(ly: u8) -> u8 {
    if ly >= 153 {
        0
    } else {
        (ly + 1) as u8
    }
}

impl Bus {
    /// The current dot is the last of the line.
    pub open spec fn line_ends(self) -> bool {
        self.ppu.ly_counter + 1 >= self.line_length(self.io@[0x44])
    }

    /// The STAT mode the PPU is in for its line and dot.
    pub open spec fn current_mode(self) -> u8 {
        let ly = self.io@[0x44];
        if ly >= 144 {
            STAT_MODE_VBLANK
        } else {
            self.visible_mode(
                self.ppu.ly_counter,
                self.ppu.startup_line && ly == 0,
                self.ppu.mode3_dots_latched,
            )
        }
    }

    /// STAT takes the current mode and the LY=LYC flag; then the STAT line is updated.
    pub open spec fn after_mode_refresh(self) -> Bus {
        let b1 = Bus {
            io: self.io_with(0x41, ((self.io@[0x41] / 4) * 4 + self.current_mode()) as u8),
            ..self
        };
        let b2 = Bus {
            io: b1.io_with(0x41, lyc_flagged(b1.io@[0x41], b1.io@[0x44] == b1.io@[0x45])),
            ..b1
        };
        b2.after_stat_line_update()
    }
}

impl PpuState {
    /// Sets STAT's mode and LY=LYC bits from the PPU position and updates the STAT line.
    fn refresh_mode(bus: &mut Bus)
        requires
            old(bus).wf(),
        ensures
            *final(bus) == old(bus).after_mode_refresh(),
            final(bus).wf(),
            final(bus).stat_mode() == old(bus).current_mode(),
            final(bus).current_mode() == old(bus).current_mode(),
            final(bus).io@[0x0F] == old(bus).io@[0x0F] || final(bus).io@[0x0F]
                == old(bus).flags_with(1),
    {
        broadcast use vstd::array::group_array_axioms;
        let ly = bus.io[0x44];
        let mode = if ly >= 144 {
            STAT_MODE_VBLANK
        } else {
            Self::mode_for_visible_line(
                bus,
                ly,
                bus.ppu.ly_counter,
                bus.ppu.startup_line && ly == 0,
            )
        };
        Self::set_stat_mode(bus, mode);
        let ghost v = bus.io@[0x41];
        assert(v % 4 == mode);
        Self::update_lyc_flag(bus);
        proof {
            lemma_lyc_flag_mode(v);
        }
        Self::update_stat_irq_line(bus);
    }

    /// The end of line `ly`: a visible line gets its objects drawn and its FIFO reset;
    /// LY advances (153 wraps to 0); the startup line ends; entering line 144 requests
    /// VBlank and counts a frame.
    fn finish_line(bus: &mut Bus, ly: u8)
        requires
            old(bus).wf_core(),
            ly == old(bus).io@[0x44],
            ly >= 144 ==> old(bus).ppu.mode3_fifo.fetch_screen_x <= 0,
        ensures
            final(bus).wf(),
            final(bus).ppu.ly_counter == 0,
            final(bus).io@[0x44] == next_line(ly),
            final(bus).ppu.frame_counter == if next_line(ly) == 144 {
                if old(bus).ppu.frame_counter == u64::MAX {
                    0
                } else {
                    (old(bus).ppu.frame_counter + 1) as u64
                }
            } else {
                old(bus).ppu.frame_counter
            },
            final(bus).io@[0x0F] == if next_line(ly) == 144 {
                old(bus).flags_with(0)
            } else {
                old(bus).io@[0x0F]
            },
            final(bus).ppu.mode3_dots_latched == old(bus).ppu.mode3_dots_latched,
            final(bus).ppu.stat_irq_line == old(bus).ppu.stat_irq_line,
            final(bus).ppu.enable_delay == old(bus).ppu.enable_delay,
            final(bus).ppu.startup_line == (old(bus).ppu.startup_line && ly != 0),
            final(bus).ppu.post_enable_phase == phase_after_line(
                old(bus).ppu.post_enable_phase,
                old(bus).ppu.startup_line && ly == 0,
            ),
            !final(bus).ppu.stat_mode0_enabled_this_line,
            *final(bus) == (Bus { io: final(bus).io, ppu: final(bus).ppu, framebuffer: final(bus).framebuffer, ..*old(bus) }),
            forall|i: int| 0 <= i < 0x80 && i != 0x0F && i != 0x44 ==> #[trigger] final(bus).io@[i] == old(bus).io@[i],
            forall|i: int|
                0 <= i < 23040 && !(ly * 160 <= i < ly * 160 + 160) ==> #[trigger] final(bus).framebuffer@[i]
                    == old(bus).framebuffer@[i],
            ly < 144 ==> forall|x: int|
                0 <= x < 160 ==> #[trigger] final(bus).framebuffer@[ly * 160 + x] == old(
                    bus,
                ).obj_source().objects_over(
                    old(bus).io@[0x40],
                    ly as int,
                    old(bus).ppu.bg_color_ids_line@,
                    x,
                    old(bus).framebuffer@[ly * 160 + x],
                ),
            ly < 144 ==> final(bus).ppu.mode3_fifo == old(bus).ppu.mode3_fifo.after_reset(),
            ly >= 144 ==> final(bus).framebuffer == old(bus).framebuffer && final(bus).ppu.mode3_fifo
                == old(bus).ppu.mode3_fifo,
            final(bus).ppu.bg_color_ids_line == old(bus).ppu.bg_color_ids_line,
    {
        if ly < 144 {
            let lcdc = bus.io[0x40];
            let bg_color_ids_line = bus.ppu.bg_color_ids_line;
            Self::render_objects_scanline(bus, lcdc, ly as usize, &bg_color_ids_line);
            bus.ppu.mode3_fifo.reset();
        }
        bus.ppu.ly_counter = 0;
        let next_ly: u8 = if ly >= 153 {
            0
        } else {
            ly + 1
        };
        bus.io[0x44] = next_ly;
        bus.ppu.stat_mode0_enabled_this_line = false;
        if bus.ppu.startup_line && ly == 0 {
            bus.ppu.startup_line = false;
            bus.ppu.post_enable_phase = 2;
        } else if bus.ppu.post_enable_phase > 0 {
            bus.ppu.post_enable_phase = bus.ppu.post_enable_phase - 1;
        }
        if next_ly == 144 {
            bus.request_interrupt(0);
            bus.ppu.frame_counter = bus.ppu.frame_counter.wrapping_add(1);
        }
    }

    /// One dot of the PPU while the LCD is on.
    #[verifier::rlimit(40)]
    pub fn step(bus: &mut Bus)
        requires
            old(bus).wf(),
        ensures
            final(bus).wf(),
            !old(bus).lcd_on() ==> *final(bus) == *old(bus),
            old(bus).lcd_on() && old(bus).ppu.enable_delay > 0 ==> {
                &&& final(bus).ppu.enable_delay == old(bus).ppu.enable_delay - 1
                &&& final(bus).ppu.ly_counter == old(bus).ppu.ly_counter
                &&& final(bus).io@[0x44] == old(bus).io@[0x44]
                &&& final(bus).ppu.frame_counter == old(bus).ppu.frame_counter
            },
            old(bus).lcd_on() && old(bus).ppu.enable_delay == 0 ==> {
                &&& final(bus).ppu.ly_counter == if old(bus).line_ends() {
                    0
                } else {
                    old(bus).ppu.ly_counter + 1
                }
                &&& final(bus).io@[0x44] == if old(bus).line_ends() {
                    next_line(old(bus).io@[0x44])
                } else {
                    old(bus).io@[0x44]
                }
                &&& final(bus).ppu.frame_counter == if old(bus).line_ends() && next_line(
                    old(bus).io@[0x44],
                ) == 144 {
                    if old(bus).ppu.frame_counter == u64::MAX {
                        0
                    } else {
                        (old(bus).ppu.frame_counter + 1) as u64
                    }
                } else {
                    old(bus).ppu.frame_counter
                }
                &&& (old(bus).line_ends() && next_line(old(bus).io@[0x44]) == 144 ==> final(bus).flags() & 1 == 1)
            },
            old(bus).lcd_on() && old(bus).ppu.enable_delay == 0 ==> final(bus).stat_mode() == final(bus).current_mode(),
            old(bus).lcd_on() && old(bus).ppu.enable_delay == 0 ==> final(bus).ppu.enable_delay == 0,
            old(bus).lcd_on() && old(bus).ppu.enable_delay > 0 ==> final(bus).ppu == (PpuState {
                enable_delay: (old(bus).ppu.enable_delay - 1) as u8,
                stat_irq_line: final(bus).ppu.stat_irq_line,
                ..old(bus).ppu
            }),
            old(bus).lcd_on() && old(bus).ppu.enable_delay == 0 ==> {
                &&& final(bus).ppu.post_enable_phase == if old(bus).line_ends() {
                    phase_after_line(
                        old(bus).ppu.post_enable_phase,
                        old(bus).ppu.startup_line && old(bus).io@[0x44] == 0,
                    )
                } else {
                    old(bus).ppu.post_enable_phase
                }
                &&& final(bus).ppu.stat_mode0_enabled_this_line == (
                old(bus).ppu.stat_mode0_enabled_this_line && !old(bus).line_ends())
                &&& final(bus).ppu.mode3_dots_latched == old(bus).latched().ppu.mode3_dots_latched
                &&& (old(bus).io@[0x44] >= 144 ==> final(bus).ppu.mode3_fifo
                    == old(bus).ppu.mode3_fifo && final(bus).ppu.bg_color_ids_line
                    == old(bus).ppu.bg_color_ids_line)
            },
            old(bus).lcd_on() ==> final(bus).ppu.stat_irq_line == final(bus).stat_source_active(),
            old(bus).lcd_on() && (old(bus).ppu.enable_delay > 0 || old(bus).io@[0x44] >= 144)
                ==> final(bus).framebuffer == old(bus).framebuffer,
            forall|i: int|
                0 <= i < 23040 && !(old(bus).io@[0x44] * 160 <= i < old(bus).io@[0x44] * 160 + 160)
                    ==> #[trigger] final(bus).framebuffer@[i] == old(bus).framebuffer@[i],
            old(bus).lcd_on() ==> final(bus).io@[0x0F] == stat_flagged(
                if old(bus).ppu.enable_delay == 0 && old(bus).line_ends() && next_line(
                    old(bus).io@[0x44],
                ) == 144 {
                    flags_with_bit(old(bus).io@[0x0F], 0)
                } else {
                    old(bus).io@[0x0F]
                },
                final(bus).stat_source_active() && !old(bus).ppu.stat_irq_line,
            ),
            old(bus).lcd_on() && old(bus).ppu.enable_delay == 0 ==> final(bus).ppu.startup_line == (
            old(bus).ppu.startup_line && !(old(bus).line_ends() && old(bus).io@[0x44] == 0)),
            old(bus).lcd_on() && old(bus).ppu.enable_delay == 0 && old(bus).io@[0x44] < 144
                && old(bus).ppu.ly_counter == 0 ==> final(bus).ppu.mode3_dots_latched
                == old(bus).mode3_dots(old(bus).io@[0x44]),
            old(bus).lcd_on() ==> (((final(bus).io@[0x41] / 4) % 2 == 1) <==> final(bus).io@[0x44]
                == final(bus).io@[0x45]),
            old(bus).lcd_on() && old(bus).ppu.enable_delay == 0 && old(bus).io@[0x44] < 144
                && !old(bus).line_ends() ==> final(bus).line_pixels(old(bus).io@[0x44])
                == old(bus).dot_pixels(),
            old(bus).lcd_on() && old(bus).ppu.enable_delay == 0 && old(bus).io@[0x44] < 144
                && old(bus).line_ends() ==> {
                &&& final(bus).ppu.bg_color_ids_line@ == old(bus).dot_pixels().bg
                &&& final(bus).ppu.mode3_fifo.model() == FifoModel::idle()
                &&& forall|x: int|
                    0 <= x < 160 ==> #[trigger] final(bus).framebuffer@[old(bus).io@[0x44] * 160 + x]
                        == old(bus).obj_source().objects_over(
                        old(bus).io@[0x40],
                        old(bus).io@[0x44] as int,
                        old(bus).dot_pixels().bg,
                        x,
                        old(bus).dot_pixels().row[x],
                    )
            },
            *final(bus) == (Bus { io: final(bus).io, ppu: final(bus).ppu, framebuffer: final(bus).framebuffer, ..*old(bus) }),
            final(bus).io_same_except_ppu_regs(*old(bus)),
    {
        proof {
            lemma_lyc_flag_bits();
        }
        if !Self::lcd_enabled(bus) {
            return;
        }
        if bus.ppu.enable_delay > 0 {
            bus.ppu.enable_delay = bus.ppu.enable_delay - 1;
            Self::update_lyc_flag(bus);
            Self::update_stat_irq_line(bus);
            return;
        }
        let ghost pre = *bus;
        let ly = bus.io[0x44];
        let startup_line = bus.ppu.startup_line && ly == 0;
        if ly < 144 && bus.ppu.ly_counter == 0 {
            bus.ppu.mode3_dots_latched = Self::mode3_length_tcycles(bus, ly, startup_line);
        }
        let ghost latched = *bus;
        assert(latched == pre.latched());
        if ly < 144 {
            let line_cycle = bus.ppu.ly_counter;
            Self::render_mode3_dot(bus, ly, line_cycle, startup_line);
        }
        let ghost rendered = *bus;
        let line_length = Self::line_length_tcycles(bus, ly);
        let next_counter = bus.ppu.ly_counter + 1;
        if next_counter >= line_length {
            Self::finish_line(bus, ly);
        } else {
            bus.ppu.ly_counter = next_counter;
        }
        let ghost before_refresh = *bus;
        Self::refresh_mode(bus);
        proof {
            if pre.line_ends() && next_line(pre.io@[0x44]) == 144 {
                lemma_vblank_flag(pre.io@[0x0F], 1);
                lemma_vblank_flag(before_refresh.io@[0x0F], 1);
            }
            if ly < 144 {
                assert(rendered.line_pixels(ly) == pre.dot_pixels());
                assert(rendered.obj_source() == pre.obj_source());
                if pre.line_ends() {
                    assert(bus.ppu.mode3_fifo.model() =~= FifoModel::idle());
                    assert forall|x: int| 0 <= x < 160 implies #[trigger] bus.framebuffer@[ly
                        * 160 + x] == pre.obj_source().objects_over(
                        pre.io@[0x40],
                        ly as int,
                        pre.dot_pixels().bg,
                        x,
                        pre.dot_pixels().row[x],
                    ) by {
                        assert(rendered.framebuffer@[ly * 160 + x] == rendered.line_pixels(
                            ly,
                        ).row[x]);
                    }
                } else {
                    assert(bus.line_pixels(ly) =~= rendered.line_pixels(ly));
                }
            }
        }
    }
}

impl Bus {
    /// `next` is this bus one PPU dot later: nothing runs with the LCD off; during the
    /// enable delay only that delay counts down; otherwise the line counter advances
    /// (LY moving on and a frame ending at line 144 with a VBlank request), STAT's mode
    /// follows the dot, mode 3's length is latched at the start of a visible line, the
    /// dot's mode-3 pixel work is done on a visible line, whose last dot draws its
    /// objects and stops the FIFO, the LY=LYC flag stays current, the STAT interrupt is
    /// requested when the STAT line rises, and only the PPU's state, the framebuffer and
    /// the STAT, LY and IF registers change.
    pub open spec fn ppu_dot(self, next: Bus) -> bool {
        &&& (!self.lcd_on() ==> next == self)
        &&& (self.lcd_on() && self.ppu.enable_delay > 0 ==> {
                &&& next.ppu.enable_delay == self.ppu.enable_delay - 1
                &&& next.ppu.ly_counter == self.ppu.ly_counter
                &&& next.io@[0x44] == self.io@[0x44]
                &&& next.ppu.frame_counter == self.ppu.frame_counter
            })
        &&& (self.lcd_on() && self.ppu.enable_delay == 0 ==> {
                &&& next.ppu.ly_counter == if self.line_ends() {
                    0
                } else {
                    self.ppu.ly_counter + 1
                }
                &&& next.io@[0x44] == if self.line_ends() {
                    next_line(self.io@[0x44])
                } else {
                    self.io@[0x44]
                }
                &&& next.ppu.frame_counter == if self.line_ends() && next_line(
                    self.io@[0x44],
                ) == 144 {
                    if self.ppu.frame_counter == u64::MAX {
                        0
                    } else {
                        (self.ppu.frame_counter + 1) as u64
                    }
                } else {
                    self.ppu.frame_counter
                }
                &&& (self.line_ends() && next_line(self.io@[0x44]) == 144 ==> next.flags() & 1 == 1)
            })
        &&& (self.lcd_on() && self.ppu.enable_delay == 0 ==> next.stat_mode() == next.current_mode())
        &&& (self.lcd_on() && self.ppu.enable_delay == 0 ==> next.ppu.enable_delay == 0)
        &&& (self.lcd_on() && self.ppu.enable_delay > 0 ==> next.ppu == (PpuState {
            enable_delay: (self.ppu.enable_delay - 1) as u8,
            stat_irq_line: next.ppu.stat_irq_line,
            ..self.ppu
        }))
        &&& (self.lcd_on() && self.ppu.enable_delay == 0 ==> {
            &&& next.ppu.post_enable_phase == if self.line_ends() {
                phase_after_line(
                    self.ppu.post_enable_phase,
                    self.ppu.startup_line && self.io@[0x44] == 0,
                )
            } else {
                self.ppu.post_enable_phase
            }
            &&& next.ppu.stat_mode0_enabled_this_line == (self.ppu.stat_mode0_enabled_this_line
                && !self.line_ends())
            &&& next.ppu.mode3_dots_latched == self.latched().ppu.mode3_dots_latched
            &&& (self.io@[0x44] >= 144 ==> next.ppu.mode3_fifo == self.ppu.mode3_fifo
                && next.ppu.bg_color_ids_line == self.ppu.bg_color_ids_line)
        })
        &&& (self.lcd_on() ==> next.ppu.stat_irq_line == next.stat_source_active())
        &&& (self.lcd_on() && (self.ppu.enable_delay > 0 || self.io@[0x44] >= 144)
            ==> next.framebuffer == self.framebuffer)
        &&& (forall|i: int|
            0 <= i < 23040 && !(self.io@[0x44] * 160 <= i < self.io@[0x44] * 160 + 160)
                ==> #[trigger] next.framebuffer@[i] == self.framebuffer@[i])
        &&& (self.lcd_on() ==> next.io@[0x0F] == stat_flagged(
            if self.ppu.enable_delay == 0 && self.line_ends() && next_line(self.io@[0x44]) == 144 {
                flags_with_bit(self.io@[0x0F], 0)
            } else {
                self.io@[0x0F]
            },
            next.stat_source_active() && !self.ppu.stat_irq_line,
        ))
        &&& (self.lcd_on() && self.ppu.enable_delay == 0 ==> next.ppu.startup_line == (
        self.ppu.startup_line && !(self.line_ends() && self.io@[0x44] == 0)))
        &&& (self.lcd_on() && self.ppu.enable_delay == 0 && self.io@[0x44] < 144
                && self.ppu.ly_counter == 0 ==> next.ppu.mode3_dots_latched
                == self.mode3_dots(self.io@[0x44]))
        &&& (self.lcd_on() ==> (((next.io@[0x41] / 4) % 2 == 1) <==> next.io@[0x44]
                == next.io@[0x45]))
        &&& (self.lcd_on() && self.ppu.enable_delay == 0 && self.io@[0x44] < 144
            && !self.line_ends() ==> next.line_pixels(self.io@[0x44]) == self.dot_pixels())
        &&& (self.lcd_on() && self.ppu.enable_delay == 0 && self.io@[0x44] < 144
            && self.line_ends() ==> {
            &&& next.ppu.bg_color_ids_line@ == self.dot_pixels().bg
            &&& next.ppu.mode3_fifo.model() == FifoModel::idle()
            &&& forall|x: int|
                0 <= x < 160 ==> #[trigger] next.framebuffer@[self.io@[0x44] * 160 + x]
                    == self.obj_source().objects_over(
                    self.io@[0x40],
                    self.io@[0x44] as int,
                    self.dot_pixels().bg,
                    x,
                    self.dot_pixels().row[x],
                )
        })
        &&& (next == (Bus { io: next.io, ppu: next.ppu, framebuffer: next.framebuffer, ..self }))
        &&& (next.io_same_except_ppu_regs(self))
    }

    pub fn step_ppu(&mut self)
        requires
            old(self).wf(),
        ensures
            final(self).wf(),
            old(self).ppu_dot(*final(self)),
            *final(self) == (Bus { io: final(self).io, ppu: final(self).ppu, framebuffer: final(self).framebuffer, ..*old(self) }),
            final(self).io_same_except_ppu_regs(*old(self)),
            !old(self).lcd_on() ==> *final(self) == *old(self),
    {
        PpuState::step(self);
    }

    pub fn frame_counter(&self) -> (r: u64)
        ensures
            r == self.ppu.frame_counter,
    {
        self.ppu.frame_counter
    }

    pub fn framebuffer(&self) -> (r: &[u8; 23040])
        ensures
            r@ == self.framebuffer@,
    {
        &self.framebuffer
    }
}

} // verus!
