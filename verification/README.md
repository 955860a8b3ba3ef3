# retro64-core

A Commodore 64 emulation core — 6510 CPU, PLA banking, VIC-II, two CIAs,
SID oscillators and envelopes, PRG/T64/D64 storage and the `$DE00` compute
extension — written in Verus, with each public operation's behaviour stated
in its contract and proved.

Layout:

- `src/` — the library. `cpu/` (instruction semantics over an abstract bus,
  with laws such as JSR/RTS and BRK/RTI round trips), `memory/`, `vic/`
  (scanline rendering, sprites, export), `cia/`, `sid/`, `storage/`,
  `extensions/`, `system.rs` (the frame loop), `cli.rs` and `input.rs`
  (frontend option and key decisions).
- `tests/` — tests on concrete values.
- `app/` — the SDL2 desktop program and the WebAssembly bindings: window,
  audio, files, and the floating-point parts of sound synthesis and of the
  compute unit's trigonometry.
