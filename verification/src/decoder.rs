//! The decisions of a decoder thread: how samples are batched into chunks,
//! when its watchdog gives up, and what the end of a stream amounts to.

use vstd::prelude::*;
use crate::params::{DECODER_CHUNK, PREMATURE_SECONDS, SAMPLES_PER_SECOND};

verus! {

/// Why a decoder stopped reading.
#[derive(Clone, Copy, PartialEq, Eq, Structural, Debug)]
pub enum StreamStop {
    /// The stream came to its end.
    Finished,
    /// Reading failed.
    Failed,
    /// The deck cancelled the decoder, or stopped listening.
    Cancelled,
}

/// What the end of a stream amounts to.
#[derive(Clone, Copy, PartialEq, Eq, Structural, Debug)]
pub enum StreamVerdict {
    /// Not one sample arrived.
    Empty,
    /// Less than ten seconds arrived.
    Premature,
    Complete,
}

/// What a watchdog does after a look at its decoder.
#[derive(Clone, Copy, PartialEq, Eq, Structural, Debug)]
pub enum WatchdogStep {
    /// Data flows or the decoder was cancelled: the watchdog is done.
    StandDown,
    /// Look again in half a second.
    Wait,
    /// Thirty seconds without data: kill the decoder's processes.
    Kill,
}

/// Looks a watchdog takes, half a second apart, before it kills.
pub const WATCHDOG_LOOKS: u32 = 60;

/// Samples waiting to be sent as one chunk, and the count of all samples of
/// the stream so far.
pub struct ChunkBatcher {
    pub buffer: Vec<i16>,
    pub total_samples: usize,
}

impl ChunkBatcher {
    /// Less than a chunk is waiting.
    pub open spec fn wf(&self) -> bool {
        self.buffer@.len() < DECODER_CHUNK
    }

    /// A batcher at the start of a stream.
    pub fn new() -> (batcher: ChunkBatcher)
        ensures
            batcher.buffer@ == Seq::<i16>::empty(),
            batcher.total_samples == 0,
            batcher.wf(),
    {
        ChunkBatcher { buffer: Vec::new(), total_samples: 0 }
    }

    /// Takes one more sample of the stream. With the sample that fills a
    /// chunk, the chunk is handed out and the batcher starts an empty one.
    pub fn push(&mut self, sample: i16) -> (chunk: Option<Vec<i16>>)
        requires
            old(self).wf(),
            old(self).total_samples < usize::MAX,
        ensures
            final(self).wf(),
            final(self).total_samples == old(self).total_samples + 1,
            old(self).buffer@.len() + 1 < DECODER_CHUNK ==> chunk is None && final(self).buffer@
                == old(self).buffer@.push(sample),
            old(self).buffer@.len() + 1 == DECODER_CHUNK ==> chunk is Some && chunk->0@ == old(
                self,
            ).buffer@.push(sample) && final(self).buffer@ == Seq::<i16>::empty(),
    {
        self.buffer.push(sample);
        self.total_samples = self.total_samples + 1;
        if self.buffer.len() >= DECODER_CHUNK {
            let mut full: Vec<i16> = Vec::new();
            std::mem::swap(&mut self.buffer, &mut full);
            Some(full)
        } else {
            None
        }
    }

    /// Ends the stream. What is left of the last chunk is handed out, unless
    /// nothing is left or the decoder was cancelled.
    pub fn finish(self, stop: StreamStop) -> (rest: Option<Vec<i16>>)
        ensures
            rest is Some <==> stop != StreamStop::Cancelled && self.buffer@.len() > 0,
            rest is Some ==> rest->0@ == self.buffer@,
    {
        if stop != StreamStop::Cancelled && self.buffer.len() > 0 {
            Some(self.buffer)
        } else {
            None
        }
    }
}

/// What a stream of `total_samples` samples amounts to at its end.
pub open spec fn verdict_of(total_samples: usize) -> StreamVerdict {
    if total_samples == 0 {
        StreamVerdict::Empty
    } else if total_samples / SAMPLES_PER_SECOND < PREMATURE_SECONDS {
        StreamVerdict::Premature
    } else {
        StreamVerdict::Complete
    }
}

/// What a stream of `total_samples` samples amounts to at its end.
pub fn classify_stream_end(total_samples: usize) -> (verdict: StreamVerdict)
    ensures
        verdict == verdict_of(total_samples),
{
    if total_samples == 0 {
        StreamVerdict::Empty
    } else if total_samples / SAMPLES_PER_SECOND < PREMATURE_SECONDS {
        StreamVerdict::Premature
    } else {
        StreamVerdict::Complete
    }
}

/// What a watchdog does after its look number `looks_done + 1`.
pub open spec fn watchdog_spec(looks_done: u32, first_data: bool, cancelled: bool)
    -> WatchdogStep {
    if first_data || cancelled {
        WatchdogStep::StandDown
    } else if looks_done + 1 >= WATCHDOG_LOOKS {
        WatchdogStep::Kill
    } else {
        WatchdogStep::Wait
    }
}

/// What a watchdog does after a look at its decoder, `looks_done` looks
/// having gone before: it stands down once data flows or the decoder was
/// cancelled, kills after the sixtieth look, and waits otherwise.
pub fn watchdog_step(looks_done: u32, first_data: bool, cancelled: bool) -> (step: WatchdogStep)
    ensures
        step == watchdog_spec(looks_done, first_data, cancelled),
{
    if first_data || cancelled {
        WatchdogStep::StandDown
    } else if looks_done >= WATCHDOG_LOOKS - 1 {
        WatchdogStep::Kill
    } else {
        WatchdogStep::Wait
    }
}

} // verus!
