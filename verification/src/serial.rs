//! The serial port with no partner attached: an internally clocked transfer shifts
//! eight bits on falling edges of divider bit 8, receives ones, and on completion
//! records the byte sent and requests the serial interrupt.
use vstd::prelude::*;
use crate::bus::{Bus, flags_with_bit};
use crate::text::push_char;

verus! {

pub struct SerialState {
    pub bits_remaining: u8,
    pub tx_byte: u8,
    /// Every byte sent, as text.
    pub output: String,
}

impl SerialState {
    pub open spec fn wf(&self) -> bool {
        self.bits_remaining <= 8
    }

    pub fn new() -> (r: Self)
        ensures
            r.wf(),
            r.bits_remaining == 0,
            r.output@ == Seq::<char>::empty(),
    {
        SerialState { bits_remaining: 0, tx_byte: 0, output: String::new() }
    }
}

/// Divider bit 8 falls between two counter values.
pub open spec fn serial_clock_falls(old_div: u16, new_div: u16) -> bool {
    (old_div / 256) % 2 == 1 && (new_div / 256) % 2 == 0
}

impl Bus {
    /// SC write: bits 7 and 0 are kept; start with the internal clock (0x81) loads the
    /// byte in SB for an eight-bit transfer, clearing bit 7 stops a transfer.
    pub open spec fn after_sc_write(self, value: u8) -> Bus {
        let sc = value & 0x81;
        let written = Bus { io: self.io_with(0x02, sc), ..self };
        if sc == 0x81 {
            Bus {
                serial: SerialState { bits_remaining: 8, tx_byte: self.io@[0x01], ..self.serial },
                ..written
            }
        } else if sc & 0x80 == 0 {
            Bus { serial: SerialState { bits_remaining: 0, ..self.serial }, ..written }
        } else {
            written
        }
    }

    pub fn write_sc(&mut self, value: u8)
        requires
            old(self).wf(),
        ensures
            *final(self) == old(self).after_sc_write(value),
            final(self).wf(),
    {
        assert((value & 0x81) & 0x80 == value & 0x80) by {
            crate::bits::lemma_bits();
        }
        self.io[0x02] = value & 0x81;
        if (value & 0x81) == 0x81 {
            self.serial.bits_remaining = 8;
            self.serial.tx_byte = self.io[0x01];
        } else if (value & 0x80) == 0 {
            self.serial.bits_remaining = 0;
        }
    }

    /// The serial port shifts a bit on this divider step.
    pub open spec fn serial_shifts(self, old_div: u16, new_div: u16) -> bool {
        self.serial.bits_remaining != 0 && self.io@[0x02] & 0x81 == 0x81 && serial_clock_falls(
            old_div,
            new_div,
        )
    }

    /// `next` is this bus after the serial port sees the divider step `old_div` to
    /// `new_div`: nothing happens unless an internally clocked transfer is running and
    /// the serial clock falls; then SB shifts in a 1, and after the eighth bit SC's
    /// start flag clears, the serial interrupt is requested and the byte is appended to
    /// the output.
    pub open spec fn serial_step(self, next: Bus, old_div: u16, new_div: u16) -> bool {
        let shifted_sb = ((self.io@[0x01] as int * 2) % 256 + 1) as u8;
        if !self.serial_shifts(old_div, new_div) {
            next == self
        } else if self.serial.bits_remaining > 1 {
            next == (Bus {
                io: self.io_with(0x01, shifted_sb),
                serial: SerialState {
                    bits_remaining: (self.serial.bits_remaining - 1) as u8,
                    ..self.serial
                },
                ..self
            })
        } else {
            &&& next.io@ == self.io@.update(0x01, shifted_sb).update(
                0x02,
                self.io@[0x02] & 0x7F,
            ).update(0x0F, flags_after_serial(self.io@[0x0F]))
            &&& next.serial.bits_remaining == 0
            &&& next.serial.tx_byte == self.serial.tx_byte
            &&& next.serial.output@ == self.serial.output@.push(self.serial.tx_byte as char)
            &&& next == (Bus { io: next.io, serial: next.serial, ..self })
        }
    }

    pub fn step_serial(&mut self, old_div: u16, new_div: u16)
        requires
            old(self).wf(),
        ensures
            final(self).wf(),
            old(self).serial_step(*final(self), old_div, new_div),
            !old(self).serial_shifts(old_div, new_div) ==> *final(self) == *old(self),
            old(self).serial_shifts(old_div, new_div) && old(self).serial.bits_remaining > 1
                ==> *final(self) == (Bus {
                io: old(self).io_with(0x01, ((old(self).io@[0x01] as int * 2) % 256 + 1) as u8),
                serial: SerialState {
                    bits_remaining: (old(self).serial.bits_remaining - 1) as u8,
                    ..old(self).serial
                },
                ..*old(self)
            }),
            old(self).serial_shifts(old_div, new_div) && old(self).serial.bits_remaining == 1 ==> {
                &&& final(self).io@ == old(self).io@.update(
                    0x01,
                    ((old(self).io@[0x01] as int * 2) % 256 + 1) as u8,
                ).update(0x02, old(self).io@[0x02] & 0x7F).update(
                    0x0F,
                    flags_after_serial(old(self).io@[0x0F]),
                )
                &&& final(self).serial.bits_remaining == 0
                &&& final(self).serial.tx_byte == old(self).serial.tx_byte
                &&& final(self).serial.output@ == old(self).serial.output@.push(
                    old(self).serial.tx_byte as char,
                )
                &&& *final(self) == (Bus {
                    io: final(self).io,
                    serial: final(self).serial,
                    ..*old(self)
                })
            },
    {
        if self.serial.bits_remaining == 0 {
            return;
        }
        if (self.io[0x02] & 0x81) != 0x81 {
            return;
        }
        let old_clock_high = ((old_div >> 8) & 1) != 0;
        let new_clock_high = ((new_div >> 8) & 1) != 0;
        proof {
            assert(((old_div >> 8) & 1) != 0 <==> (old_div / 256) % 2 == 1) by {
            crate::bits::lemma_bits();
        }
            assert(((new_div >> 8) & 1) != 0 <==> (new_div / 256) % 2 == 1) by {
            crate::bits::lemma_bits();
        }
        }
        if !old_clock_high || new_clock_high {
            return;
        }
        let sb = self.io[0x01];
        assert((sb << 1) | 0x01 == ((sb as int * 2) % 256 + 1) as u8) by {
            crate::bits::lemma_byte_shifts(0, sb);
        }
        self.io[0x01] = (self.io[0x01] << 1) | 0x01;
        self.serial.bits_remaining -= 1;
        if self.serial.bits_remaining != 0 {
            return;
        }
        let sc = self.io[0x02];
        assert(sc & !0x80u8 == sc & 0x7F) by {
            crate::bits::lemma_bits();
        }
        self.io[0x02] = self.io[0x02] & !0x80u8;
        self.request_interrupt(3);
        let ch = self.serial.tx_byte as char;
        push_char(&mut self.serial.output, ch);
    }
}

/// IF after the serial interrupt is requested.
pub open spec fn flags_after_serial(flags: u8) -> u8 {
    flags_with_bit(flags, 3)
}

} // verus!
