# gb-emu

The memory side of a DMG Game Boy emulator, written in Verus: cartridges and their
mappers (ROM-only, MBC1, MBC2, MBC3 with its real-time clock, MBC5), header parsing and
diagnostics, the memory map with its access blocking, the timer, serial port, joypad,
OAM DMA, the APU register file and channel state machines, and the PPU's scanline timing,
pixel FIFO and object pass. Each function carries a `requires`/`ensures` contract that
Verus proves; the laws of the library (what a read gives back after a write, what a clock
advance adds, how the frame sequencer cycles, and so on) are public proof functions.

Layout:

- `src/` — the verified library (crate `gb_emu`), one module per component; `bits.rs`
  holds the bit-vector facts the other modules use, `bus_laws.rs` the laws that span the
  memory map and its components.
- `tests/` — the behaviour tests, run against the compiled library.
- `app/` — the browser front end (`wasm-bindgen`): frame pacing, the floating-point audio
  mixer and file output, which stay outside the verified code.

Verification: run Verus on `src/lib.rs` as a library crate.
