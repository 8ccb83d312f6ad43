//! OAM DMA: a write to FF46 copies 160 bytes from `XX00` into OAM, one byte per
//! machine cycle, after a start delay of two machine cycles.
use vstd::prelude::*;
use crate::bus::Bus;

verus! {

pub const DMA_START_DELAY: u8 = 8;
pub const DMA_TRANSFER_TCYCLES: u16 = 640;
pub const OAM_BYTES: u8 = 0xA0;

pub struct DmaState {
    pub active: bool,
    pub source: u16,
    pub pending_source: u16,
    pub cycles_remaining: u16,
    pub start_delay: u8,
    pub cycle_accum: u8,
    pub index: u8,
}

impl DmaState {
    pub open spec fn wf(&self) -> bool {
        &&& self.start_delay <= DMA_START_DELAY
        &&& self.cycle_accum < 4
        &&& self.index <= OAM_BYTES
        &&& self.cycles_remaining <= DMA_TRANSFER_TCYCLES
    }

    pub fn new() -> (r: Self)
        ensures
            r.wf(),
            r == (DmaState {
                active: false,
                source: 0,
                pending_source: 0,
                cycles_remaining: 0,
                start_delay: 0,
                cycle_accum: 0,
                index: 0,
            }),
    {
        DmaState {
            active: false,
            source: 0,
            pending_source: 0,
            cycles_remaining: 0,
            start_delay: 0,
            cycle_accum: 0,
            index: 0,
        }
    }
}

/// The source page a DMG uses for a DMA source byte: FE and FF read from DE and DF.
pub open spec fn dma_source_page(source_high: u8) -> u8 {
    if source_high >= 0xFE {
        (source_high - 0x20) as u8
    } else {
        source_high
    }
}

impl Bus {
    /// FF46 write: the register keeps the value and a transfer from its page is
    /// scheduled to start after the start delay (a running transfer goes on until then).
    pub open spec fn after_dma_write(self, source_high: u8) -> Bus {
        Bus {
            io: self.io_with(0x46, source_high),
            dma: DmaState {
                pending_source: (dma_source_page(source_high) as u16 * 256) as u16,
                start_delay: DMA_START_DELAY,
                ..self.dma
            },
            ..self
        }
    }

    pub fn write_dma(&mut self, source_high: u8)
        requires
            old(self).wf(),
        ensures
            *final(self) == old(self).after_dma_write(source_high),
            final(self).wf(),
    {
        self.io[0x46] = source_high;
        let page: u8 = if source_high == 0xFE || source_high == 0xFF {
            source_high.wrapping_sub(0x20)
        } else {
            source_high
        };
        self.dma.pending_source = (page as u16) << 8;
        proof {
            let p = page;
            assert((p as u16) << 8 == (p as u16 * 256) as u16) by {
            crate::bits::lemma_byte_shifts(p, 0);
        }
        }
        self.dma.start_delay = DMA_START_DELAY;
    }

    /// One t-cycle of DMA. When the start delay runs out the transfer (re)starts from
    /// the pending source; otherwise a running transfer copies the next byte (`byte`,
    /// read from `source + index`) every fourth t-cycle and ends after 640 t-cycles.
    pub open spec fn after_dma_step(self, byte: u8) -> Bus {
        let d = self.dma;
        if d.start_delay == 1 {
            Bus {
                dma: DmaState {
                    start_delay: 0,
                    active: true,
                    source: d.pending_source,
                    cycles_remaining: DMA_TRANSFER_TCYCLES,
                    cycle_accum: 0,
                    index: 0,
                    ..d
                },
                ..self
            }
        } else {
            let d1 = if d.start_delay > 1 {
                DmaState { start_delay: (d.start_delay - 1) as u8, ..d }
            } else {
                d
            };
            if !d1.active {
                Bus { dma: d1, ..self }
            } else {
                let copy = d1.cycle_accum == 3 && d1.index < OAM_BYTES;
                let remaining = if d1.cycles_remaining > 0 {
                    (d1.cycles_remaining - 1) as u16
                } else {
                    0u16
                };
                Bus {
                    oam: if copy {
                        vstd::array::spec_array_update(self.oam, d1.index as int, byte)
                    } else {
                        self.oam
                    },
                    dma: DmaState {
                        cycle_accum: if d1.cycle_accum == 3 {
                            0
                        } else {
                            (d1.cycle_accum + 1) as u8
                        },
                        index: if copy {
                            (d1.index + 1) as u8
                        } else {
                            d1.index
                        },
                        cycles_remaining: remaining,
                        active: remaining != 0,
                        ..d1
                    },
                    ..self
                }
            }
        }
    }

    /// The address the next DMA byte comes from.
    pub open spec fn dma_fetch_addr(self) -> u16 {
        ((self.dma.source + self.dma.index) % 0x10000) as u16
    }

    /// `next` is this bus one DMA t-cycle later, the byte the transfer copies being one
    /// that its source address can read.
    pub open spec fn dma_step(self, next: Bus) -> bool {
        exists|b: u8| self.raw_read_ok(self.dma_fetch_addr(), b) && next == self.after_dma_step(b)
    }

    pub fn step_oam_dma(&mut self)
        requires
            old(self).wf(),
        ensures
            old(self).dma_step(*final(self)),
            final(self).wf(),
    {
        let ghost b0: u8 = choose|b: u8| old(self).raw_read_ok(old(self).dma_fetch_addr(), b);
        proof {
            old(self).lemma_raw_read_possible(old(self).dma_fetch_addr());
        }
        if self.dma.start_delay > 0 {
            self.dma.start_delay -= 1;
            if self.dma.start_delay == 0 {
                self.dma.active = true;
                self.dma.source = self.dma.pending_source;
                self.dma.cycles_remaining = DMA_TRANSFER_TCYCLES;
                self.dma.cycle_accum = 0;
                self.dma.index = 0;
                return;
            }
        }
        if !self.dma.active {
            return;
        }
        self.dma.cycle_accum = self.dma.cycle_accum + 1;
        if self.dma.cycle_accum == 4 {
            self.dma.cycle_accum = 0;
            if self.dma.index < OAM_BYTES {
                let src = self.dma.source.wrapping_add(self.dma.index as u16);
                let value = self.read_byte_raw(src);
                let i = self.dma.index as usize;
                self.oam[i] = value;
                self.dma.index = self.dma.index + 1;
                self.dma.cycles_remaining = self.dma.cycles_remaining.saturating_sub(1);
                if self.dma.cycles_remaining == 0 {
                    self.dma.active = false;
                }
                assert(*self == old(self).after_dma_step(value));
                return;
            }
        }
        self.dma.cycles_remaining = self.dma.cycles_remaining.saturating_sub(1);
        if self.dma.cycles_remaining == 0 {
            self.dma.active = false;
        }
        assert(*self == old(self).after_dma_step(b0));
    }
}

} // verus!
