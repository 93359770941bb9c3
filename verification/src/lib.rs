//! A heap-backed action-tape scheduler: a fixed-capacity arena, an ordered tape
//! of output commands built from it, and the playback state machine that
//! replays the tape on one digital output line with a fixed delay per step.

pub mod action;
pub mod arena;
pub mod cycle;
pub mod fault;
pub mod playback;
pub mod tape;
pub mod waveform;

pub use action::{led_action, Action, Level, LineCommand};
pub use arena::{Arena, ArenaView, HEAP_SIZE};
pub use fault::Fault;
pub use playback::{Directive, Phase, Playback, PlaybackView, Step, STEP_DELAY_MS};
pub use tape::{build_tape, ActionTape, ACTION_BYTES, DEFAULT_TAPE_LEN, TAPE_OVERHEAD_BYTES};
