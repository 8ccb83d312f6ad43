//! The 256-byte boot ROM window.
use vstd::prelude::*;

verus! {

pub const BOOT_ROM_WINDOW_SIZE: usize = 0x0100;

/// The boot ROM image: the first 256 bytes of `bytes`, or `None` when there are fewer.
pub fn parse_boot_rom_prefix(bytes: &[u8]) -> (r: Option<[u8; 256]>)
    ensures
        bytes@.len() < BOOT_ROM_WINDOW_SIZE ==> r is None,
        bytes@.len() >= BOOT_ROM_WINDOW_SIZE ==> (r matches Some(rom) && rom@ == bytes@.subrange(
            0,
            BOOT_ROM_WINDOW_SIZE as int,
        )),
{
    if bytes.len() < BOOT_ROM_WINDOW_SIZE {
        return None;
    }
    let mut boot_rom = [0u8; 256];
    let mut i: usize = 0;
    while i < BOOT_ROM_WINDOW_SIZE
        invariant
            i <= BOOT_ROM_WINDOW_SIZE,
            bytes@.len() >= BOOT_ROM_WINDOW_SIZE,
            forall|k: int| 0 <= k < i ==> #[trigger] boot_rom@[k] == bytes@[k],
        decreases BOOT_ROM_WINDOW_SIZE - i,
    {
        boot_rom[i] = bytes[i];
        i = i + 1;
    }
    assert(boot_rom@ =~= bytes@.subrange(0, BOOT_ROM_WINDOW_SIZE as int));
    Some(boot_rom)
}

} // verus!
