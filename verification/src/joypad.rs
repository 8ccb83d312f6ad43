//! The joypad matrix behind P1: two button groups selected by P14/P15, read active-low,
//! with an interrupt when a selected line falls.
use vstd::prelude::*;
use crate::bus::Bus;
use crate::input::Button;

verus! {

pub struct JoypadState {
    /// One bit per pressed button, numbered as `Button::number`.
    pub pressed: u8,
}

/// The low nibble of P1: all ones, with a 0 for each pressed button of a selected group
/// (P14 low selects the directions, P15 low the action keys).
pub open spec fn p1_low(select: u8, pressed: u8) -> u8 {
    let dirs = pressed & 0x0F;
    let acts = (pressed >> 4) & 0x0F;
    let a = if select & 0x10 == 0 { 0x0F & !dirs } else { 0x0Fu8 };
    if select & 0x20 == 0 { a & !acts } else { a }
}

/// A line of the low nibble went from 1 to 0.
pub open spec fn falling_line(before: u8, after: u8) -> bool {
    before & !after & 0x0F != 0
}

impl Bus {
    /// What P1 reads: bits 6..7 high, the selection bits, and the active-low lines.
    pub open spec fn p1_value(self) -> u8 {
        0xC0 | (self.io@[0x00] & 0x30) | p1_low(self.io@[0x00], self.joypad.pressed)
    }

    pub fn read_p1(&self) -> (r: u8)
        ensures
            r == self.p1_value(),
    {
        0xC0 | (self.io[0x00] & 0x30) | joypad_lines(self.io[0x00], self.joypad.pressed)
    }

    /// P1 write: only the selection bits are kept; a selected line that falls requests
    /// the joypad interrupt.
    pub open spec fn after_p1_write(self, value: u8) -> Bus {
        let before = p1_low(self.io@[0x00], self.joypad.pressed);
        let after = p1_low(value & 0x30, self.joypad.pressed);
        let written = Bus { io: self.io_with(0x00, value & 0x30), ..self };
        if falling_line(before, after) {
            Bus { io: vstd::array::spec_array_update(written.io, 0x0F, written.flags_with(4)), ..written }
        } else {
            written
        }
    }

    pub fn write_p1(&mut self, value: u8)
        requires
            old(self).wf(),
        ensures
            *final(self) == old(self).after_p1_write(value),
            final(self).wf(),
    {
        let before = joypad_lines(self.io[0x00], self.joypad.pressed);
        self.io[0x00] = value & 0x30;
        let after = joypad_lines(self.io[0x00], self.joypad.pressed);
        if (before & !after & 0x0F) != 0 {
            self.request_interrupt(4);
        }
    }

    /// Presses or releases one button; a selected line that falls requests the joypad
    /// interrupt.
    pub open spec fn after_button(self, button: Button, pressed: bool) -> Bus {
        let bit = 1u8 << button.number();
        let now = if pressed { self.joypad.pressed | bit } else { self.joypad.pressed & !bit };
        let before = p1_low(self.io@[0x00], self.joypad.pressed);
        let after = p1_low(self.io@[0x00], now);
        let written = Bus { joypad: JoypadState { pressed: now }, ..self };
        if falling_line(before, after) {
            Bus { io: written.io_with(0x0F, written.flags_with(4)), ..written }
        } else {
            written
        }
    }

    pub fn set_button_pressed(&mut self, button: Button, pressed: bool)
        requires
            old(self).wf(),
        ensures
            *final(self) == old(self).after_button(button, pressed),
            final(self).wf(),
    {
        let bit = 1u8 << button.index();
        let before = joypad_lines(self.io[0x00], self.joypad.pressed);
        if pressed {
            self.joypad.pressed = self.joypad.pressed | bit;
        } else {
            self.joypad.pressed = self.joypad.pressed & !bit;
        }
        let after = joypad_lines(self.io[0x00], self.joypad.pressed);
        if (before & !after & 0x0F) != 0 {
            self.request_interrupt(4);
        }
    }
}

/// The active-low lines of P1 for a selection and a set of pressed buttons.
pub fn joypad_lines(select: u8, pressed: u8) -> (r: u8)
    ensures
        r == p1_low(select, pressed),
{
    let dirs = pressed & 0x0F;
    let acts = (pressed >> 4) & 0x0F;
    let a = if select & 0x10 == 0 { 0x0F & !dirs } else { 0x0Fu8 };
    if select & 0x20 == 0 { a & !acts } else { a }
}

/// A released button of a selected group pulls its line low when pressed; pressing a
/// held button changes no line.
proof fn lemma_press_lines(select: u8, pressed: u8, n: u8)
    by (bit_vector)
    requires
        n < 8,
    ensures
        (p1_low(select, pressed) & (1u8 << (n % 4))) != 0 && ((n < 4 && select & 0x10 == 0) || (n
            >= 4 && select & 0x20 == 0)) ==> falling_line(
            p1_low(select, pressed),
            p1_low(select, pressed | (1u8 << n)),
        ),
        (pressed & (1u8 << n)) != 0 ==> (pressed | (1u8 << n)) == pressed,
        !falling_line(p1_low(select, pressed), p1_low(select, pressed)),
{
}

/// Law: pressing a button of the selected group whose P1 line is high (no other held
/// button shares it) requests the joypad interrupt; pressing a button that is already
/// held changes nothing.
pub proof fn lemma_joypad_press(bus: Bus, button: Button)
    ensures
        (p1_low(bus.io@[0x00], bus.joypad.pressed) & (1u8 << (button.number() % 4))) != 0 && ((
        button.number() < 4 && bus.io@[0x00] & 0x10 == 0) || (button.number() >= 4 && bus.io@[0x00]
            & 0x20 == 0)) ==> bus.after_button(button, true).io@[0x0F] == bus.flags_with(4),
        (bus.joypad.pressed & (1u8 << button.number())) != 0 ==> bus.after_button(button, true)
            == bus,
{
    broadcast use vstd::array::group_array_axioms;

    lemma_press_lines(bus.io@[0x00], bus.joypad.pressed, button.number());
}

} // verus!
