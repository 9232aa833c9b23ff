//! Timing and sizing constants of the engine, all in interleaved samples
//! unless a name says otherwise.

use vstd::prelude::*;

verus! {

/// Frames per second of the output stream.
pub const SAMPLE_RATE: usize = 48000;

/// Interleaved channels per frame.
pub const CHANNELS: usize = 2;

/// Interleaved samples produced by one mixer iteration (20 ms of stereo).
pub const CHUNK_SIZE: usize = 960;

/// Interleaved samples the decoder batches before handing a chunk over.
pub const DECODER_CHUNK: usize = 1920;

/// Chunks a decoder channel can hold before the producer blocks.
pub const CHANNEL_CAPACITY: usize = 100;

/// Queued samples (half a second) from which a deck counts as ready.
pub const READY_THRESHOLD: usize = 24000;

/// Queued samples (three seconds) below which the tail of a song begins.
pub const TAIL_THRESHOLD: usize = 144000;

/// Samples a deck must have played (25 seconds) before its end is acted on.
pub const MIN_PLAYED_FOR_END: usize = 1200000;

/// Length of a crossfade the mixer starts on its own (six seconds).
pub const AUTO_CROSSFADE_SAMPLES: usize = 288000;

/// Milliseconds a deferred transition waits for its target.
pub const PENDING_TIMEOUT_MS: u64 = 8000;

/// Milliseconds the mixer stays silent waiting for a successor's first data.
pub const STALL_TIMEOUT_MS: u64 = 10000;

/// Milliseconds after which a load without any data counts as stuck.
pub const STUCK_LOAD_MS: u64 = 30000;

/// Interleaved samples per second of audio.
pub const SAMPLES_PER_SECOND: usize = 96000;

/// Seconds of audio below which a finished stream counts as cut short.
pub const PREMATURE_SECONDS: usize = 10;

/// The autoplay flag of a load command that does not carry one.
pub fn default_autoplay() -> (flag: bool)
    ensures
        flag,
{
    true
}

} // verus!
