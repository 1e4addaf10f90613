# nes_emu

A Nintendo Entertainment System emulator whose core is verified with Verus.

- `src/` is the emulator core: the 6502 CPU and its instruction set, the
  memory bus, the PPU, the APU channels, the controllers, the iNES loader and
  the NROM, MMC1, UNROM and MMC3 boards, and the bit helpers they share. Each
  operation is stated against a mathematical model (`BusView`, `MapperView`,
  `NESView`, ...) and proved.
- `tests/` runs the core on concrete values.
- `app/` is the desktop front end: the window and renderer (winit, wgpu),
  audio output and mixing (cpal, ringbuf), file loading and saving.

Run the front end with the path of an `.nes` image as its argument.

## Bit fields

`bit_utils::get_bits` returns the selected field shifted down to bit 0, and
every field read of the core is written that way: the length-counter index of
a length write is `value >> 3`; the PPU's scroll, fine-Y and attribute-quadrant
fields, the MMC1 and MMC3 bank registers and the iNES mapper number
(`(byte6 >> 4) | (byte7 & 0xF0)`) are all moved down before use. `copy_bits`,
built on `get_bits` and `set_bits`, copies a field to the same position.
Masking a field in place instead would index past the 32-entry length table,
select the wrong banks and make every mapper number other than 0 unknown.
