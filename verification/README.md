# gameboy

A Game Boy (DMG) emulator core whose behaviour is stated in Verus contracts and proved.

## Layout

- `src/` — the verified library.
  - `cpu/` — the Sharp LR35902: the full instruction set (`execute`, `execute_prefixed`),
    interrupt dispatch and the fetch/execute step, with a spec model of every opcode;
    `alu.rs` holds the arithmetic, `registers.rs` the register file, `laws.rs` the proved
    properties (EI/DI/RETI timing, interrupt dispatch, HALT wake-up, push/pop).
  - `mmu/` — the memory map (boot ROM, cartridge ROM and RAM, work RAM and its echo, OAM DMA,
    I/O registers) and the interrupt request register.
  - `gpu/` — the video unit: tiles, tile maps, sprites, palettes, LCDC/STAT, the mode timing
    and the scan-line renderer.
  - `timer.rs`, `joypad.rs`, `clock.rs`, `cartridge.rs` (ROM-only, MBC1/2/3/5).
  - `gameboy.rs` — the console: one frame of emulation, joypad, theme and serial output.
  - `libgb/` — a memory bus with a simpler video unit.
  - `prototype/` — the first design: instruction decoding, a flat memory bus, register files,
    interrupt vectors and a CPU that executes the 8-bit additions.
  - `bits.rs` — bit-level facts shared by the proofs.
- `tests/` — tests of the library, including a boot through the boot ROM.
- `app/` — the desktop front end (window, keyboard, ROM loading).
