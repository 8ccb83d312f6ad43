//! The SM83 CPU's register file and execution flags.
use vstd::prelude::*;

verus! {

#[derive(Clone, Copy, Debug, PartialEq, Eq, Structural)]
pub struct Registers {
    pub a: u8,
    pub f: u8,
    pub b: u8,
    pub c: u8,
    pub d: u8,
    pub e: u8,
    pub h: u8,
    pub l: u8,
    pub sp: u16,
    pub pc: u16,
}

impl Registers {
    /// The registers as the DMG boot ROM leaves them: AF=01B0, BC=0013, DE=00D8,
    /// HL=014D, SP=FFFE, PC=0100.
    pub open spec fn post_boot() -> Registers {
        Registers {
            a: 0x01,
            f: 0xB0,
            b: 0x00,
            c: 0x13,
            d: 0x00,
            e: 0xD8,
            h: 0x01,
            l: 0x4D,
            sp: 0xFFFE,
            pc: 0x0100,
        }
    }

    pub fn new() -> (r: Self)
        ensures
            r == Registers::post_boot(),
    {
        Registers {
            a: 0x01,
            f: 0xB0,
            b: 0x00,
            c: 0x13,
            d: 0x00,
            e: 0xD8,
            h: 0x01,
            l: 0x4D,
            sp: 0xFFFE,
            pc: 0x0100,
        }
    }
}

pub struct Cpu {
    pub registers: Registers,
    pub ime: bool,
    pub ime_enable_delay: u8,
    pub halted: bool,
    pub halt_bug: bool,
    pub step_tcycles: u8,
}

impl Cpu {
    /// A CPU at the cartridge entry point with interrupts disabled.
    pub fn new() -> (r: Self)
        ensures
            r.registers == Registers::post_boot(),
            !r.ime,
            r.ime_enable_delay == 0,
            !r.halted,
            !r.halt_bug,
            r.step_tcycles == 0,
    {
        Cpu {
            registers: Registers::new(),
            ime: false,
            ime_enable_delay: 0,
            halted: false,
            halt_bug: false,
            step_tcycles: 0,
        }
    }

    pub fn registers(&self) -> (r: &Registers)
        ensures
            *r == self.registers,
    {
        &self.registers
    }

    pub fn registers_mut(&mut self) -> (r: &mut Registers)
        ensures
            *r == old(self).registers,
            *final(self) == (Cpu { registers: *final(r), ..*old(self) }),
    {
        &mut self.registers
    }
}

impl Default for Cpu {
    fn default() -> (r: Self)
        ensures
            r.registers == Registers::post_boot(),
            !r.ime,
            !r.halted,
    {
        Self::new()
    }
}

} // verus!
