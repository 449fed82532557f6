//! Real-time rendering core of a polyphonic software instrument.
//!
//! The core reconciles a fixed-size audio buffer against a sparse,
//! timestamped event stream: it splits the buffer into sub-blocks so that
//! no event falls strictly inside one, drives the voice pool through
//! activation and deactivation, and resolves per-voice, per-sample
//! modulation values (gain, velocity, pan) from timestamped queues.
//!
//! The core never inspects the numeric sample payload itself: modulation
//! values are carried as an opaque `Copy` type `V`, and the oscillator
//! phase is kept as a binary fraction of a cycle. Amplitude arithmetic
//! (waveform synthesis, decibel mapping, the panning law) lives in the
//! unverified driver layer around this crate, which instantiates `V`
//! with its sample type and mixes the resolved values into the output.

use vstd::prelude::*;

pub mod events;
pub mod voice;
pub mod engine;
pub mod scheduler;
pub mod laws;

pub use events::NoteEvent;
pub use events::VoiceTerminated;
pub use voice::Voice;
pub use voice::VoiceModel;
pub use voice::StepOut;
pub use voice::trim_queue;
pub use voice::current_value;
pub use engine::PolyModSynth;
pub use scheduler::SubBlock;

verus! {

/// Number of MIDI channels the pool addresses.
pub const NUM_CHANNELS: usize = 17;

/// Number of notes per channel.
pub const NOTES_PER_CHANNEL: usize = 128;

/// Total number of voices: one per (channel, note) pair, allocated once
/// and never destroyed.
pub const NUM_VOICES: usize = 2176;

/// Upper bound on the length of a sub-block: the scheduler never renders
/// more than this many samples between two event-boundary checks.
pub const MAX_BLOCK_SIZE: u32 = 64;

} // verus!
