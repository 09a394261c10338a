# gbemulib

A Game Boy (DMG) and Game Boy Color (CGB) emulator core, verified with Verus.

- `src/` is the emulator core: the SM83 CPU (instruction decoding and
  execution, interrupts, HALT), the memory bus with OAM DMA, the PPU (OAM scan,
  pixel drawing, palettes, STAT), the APU channels (pulse with sweep, wave,
  noise, envelopes, length counters), the timer, the joypad and the cartridge
  (header checks, MBC1/2/3/5 banking, battery RAM, the MBC3 real-time clock).
  Each public function states what it computes over a model of its state
  (`CpuState`, `BusState`, `PpuState`, ...), and the laws that relate
  operations (a RAM read gives back what was written, POP gives back what PUSH
  stored, ...) are public proof functions.
- `app/` is the desktop front end (SDL2 window, audio and input, ROM and save
  files, the wall clock that the cartridge's real-time clock reads) and the
  browser interface; it mixes the APU's digital samples into
  floating-point audio.
- `tests/` runs the library on small hand-built ROM images.
