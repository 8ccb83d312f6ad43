//! The eight joypad buttons and their place in the P1 register.
use vstd::prelude::*;

verus! {

#[derive(Clone, Copy, Debug, PartialEq, Eq, Structural)]
pub enum Button {
    Right,
    Left,
    Up,
    Down,
    A,
    B,
    Select,
    Start,
}

/// The button numbered `index` in the order Right, Left, Up, Down, A, B, Select, Start.
pub open spec fn button_for_index(index: u8) -> Option<Button> {
    if index == 0 {
        Some(Button::Right)
    } else if index == 1 {
        Some(Button::Left)
    } else if index == 2 {
        Some(Button::Up)
    } else if index == 3 {
        Some(Button::Down)
    } else if index == 4 {
        Some(Button::A)
    } else if index == 5 {
        Some(Button::B)
    } else if index == 6 {
        Some(Button::Select)
    } else if index == 7 {
        Some(Button::Start)
    } else {
        None
    }
}

impl Button {
    /// The button's number: directions 0..3 (P10..P13 of the direction group), then the
    /// action keys 4..7 (P10..P13 of the action group).
    pub open spec fn number(self) -> u8 {
        match self {
            Button::Right => 0,
            Button::Left => 1,
            Button::Up => 2,
            Button::Down => 3,
            Button::A => 4,
            Button::B => 5,
            Button::Select => 6,
            Button::Start => 7,
        }
    }

    pub fn index(self) -> (r: u8)
        ensures
            r == self.number(),
    {
        match self {
            Button::Right => 0,
            Button::Left => 1,
            Button::Up => 2,
            Button::Down => 3,
            Button::A => 4,
            Button::B => 5,
            Button::Select => 6,
            Button::Start => 7,
        }
    }

    /// The button with the given number, or `None` past 7.
    pub fn from_index(index: u8) -> (r: Option<Button>)
        ensures
            r == button_for_index(index),
            r matches Some(b) ==> b.number() == index,
    {
        match index {
            0 => Some(Button::Right),
            1 => Some(Button::Left),
            2 => Some(Button::Up),
            3 => Some(Button::Down),
            4 => Some(Button::A),
            5 => Some(Button::B),
            6 => Some(Button::Select),
            7 => Some(Button::Start),
            _ => None,
        }
    }
}

} // verus!
