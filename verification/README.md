# gba_core

A Game Boy Advance in Verus: processor, bus, picture, sound, DMA, timers,
interrupts, save memories and the calls of the boot ROM, together with the parts
of a frontend that decide something (save-file rotation, sound buffering, the
messages of a headless session). Every function of the library has a contract
that says what it makes of the state it works on.

## Layout

- `src/gba.rs` runs the machine; `src/arm7tdmi/` is the processor, `src/bus/`
  the memory map and what happens on it over time, `src/ppu/` the picture,
  `src/apu/` the sound, `src/backup/` the save memories, `src/bios/` the system
  calls, `src/frontend/` the frontend's decisions.
- Files named `laws.rs` and `copies.rs` hold properties that relate several
  functions: what is written reads back, interrupts return to where they came
  from, transfers copy what they promise.
- `tests/` runs the library.
- `app/` is the program around it: window, sound device, keyboard, files and
  messages on standard input and output.

## Function values

Arc tangents and rotation matrices are computed in floating point, which the
library does not do. A system call that needs one leaves a request
(`Gba::math_request`); the program evaluates it and hands the value back
(`Gba::answer_math`), and `Gba::resume` runs on.

## Trust

Compression of save states (`zstd`) and the reading of message headers
(`serde_json`) are calls into those crates; the contracts of the small functions
around the calls, in `src/frontend/archive.rs` and `src/frontend/protocol.rs`,
are taken as given.
