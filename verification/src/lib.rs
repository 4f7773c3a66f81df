//! A Game Boy Advance.
//!
//! The machine is in `gba`, its processor in `arm7tdmi`, and everything that
//! the processor reaches in `bus`. Every operation says in its contract what
//! it makes of the state it works on: the processor and the registers are their
//! own model, memories are sequences of bytes.

pub use self::bus::events::{LINES_PER_FRAME, VBLANK_LINES, VISIBLE_LINES};
pub use self::gba::{
    Gba, CPU_CLOCK_HZ, CYCLES_PER_DOT, CYCLES_PER_FRAME, CYCLES_PER_LINE, DOTS_PER_LINE,
    HBLANK_CYCLES, HDRAW_CYCLES,
};
pub use self::ppu::{SCREEN_HEIGHT, SCREEN_WIDTH};
pub use self::trace::{
    cycle_profile_record, cycle_profile_record_halt, push_trace_arm, push_trace_thumb,
    trace_is_frozen, CycleProfile, Diagnostics, TraceEntry, TraceRing,
};

pub mod apu;
pub mod arm7tdmi;
pub mod backup;
pub mod bios;
pub mod bits;
pub mod bus;
pub mod calendar;
pub mod dma;
pub mod frontend;
pub mod gba;
pub mod interrupt;
pub mod keypad;
pub mod ppu;
pub mod restore;
pub mod rtc;
pub mod scheduler;
pub mod search;
pub mod timer;
pub mod trace;
