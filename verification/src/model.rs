//! The mixer as a mathematical state machine: its state, and one function per
//! step saying what the step makes of a state.

use vstd::prelude::*;
use crate::deck::{DeckId, DeckView};
use crate::params::{CHANNELS, SAMPLE_RATE};

verus! {

/// The per-deck latches that keep an event from being repeated.
#[derive(Clone, Copy, PartialEq, Eq, Structural, Debug)]
pub struct Latches {
    /// The deck was ready when readiness was last sampled.
    pub buffer_prev_ready: bool,
    pub end_sent: bool,
    pub approaching_end_sent: bool,
}

/// A skip or crossfade that waits for its target to have data.
#[derive(Clone, Copy, PartialEq, Eq, Structural, Debug)]
pub struct PendingTransition {
    pub target: DeckId,
    /// When the command came, in milliseconds.
    pub since: u64,
    pub is_crossfade: bool,
    pub duration_ms: u64,
}

/// A silent wait for the first data of the deck that is to follow.
#[derive(Clone, Copy, PartialEq, Eq, Structural, Debug)]
pub struct Stall {
    pub target: DeckId,
    /// When the wait began, in milliseconds.
    pub since: u64,
}

/// Everything the mixer keeps besides the two decks.
#[derive(Clone, Copy, Debug)]
pub struct MixState {
    pub active_deck: DeckId,
    pub crossfading: bool,
    pub crossfade_total: usize,
    pub crossfade_left: usize,
    /// Where the crossfade leads; read only while `crossfading`.
    pub target_deck: DeckId,
    pub proactive_crossfade_triggered: bool,
    pub proactive_crossfade_enabled: bool,
    pub loop_mode: bool,
    /// Iterations since readiness was last sampled.
    pub buffer_monitor_counter: usize,
    pub is_playing: bool,
    pub latches_a: Latches,
    pub latches_b: Latches,
    pub pending_transition: Option<PendingTransition>,
    pub auto_gapless_stall: Option<Stall>,
    /// The deck taken over to inside the chunk just rendered, if any.
    pub mid_chunk_auto_switch: Option<DeckId>,
    /// The active deck was rewound inside the chunk just rendered.
    pub mid_chunk_loop_restart: bool,
}

/// One output slot, as an instruction for the float arithmetic that renders
/// it. A sample `s` stands for the amplitude `s / 32768`.
#[derive(Clone, Copy, PartialEq, Eq, Structural, Debug)]
pub enum Slot {
    /// One deck at full amplitude (0 is silence).
    Direct(i16),
    /// A crossfade step: `source * (1 - r) + target * r`, where `r` is
    /// `(total - left) / total`, and exactly 1 where `last` is set.
    Mixed { source: i16, target: i16, left: usize, total: usize, last: bool },
}

/// What the loop around the mixer does once an iteration was prepared.
#[derive(Clone, Copy, PartialEq, Eq, Structural, Debug)]
pub enum Plan {
    /// Playback is paused: wait 20 ms, write nothing.
    Idle,
    /// The mixer waits for a successor: write one chunk of silence.
    Silence,
    /// Render and write one chunk.
    Render,
}

/// What draining found on each deck, where a step drains.
pub struct Feed {
    pub a: DeckView,
    pub b: DeckView,
}

/// The whole mixer, as far as its behaviour depends on it.
pub struct MixerView {
    pub a: DeckView,
    pub b: DeckView,
    pub st: MixState,
}

/// All latches down.
pub open spec fn cleared() -> Latches {
    Latches { buffer_prev_ready: false, end_sent: false, approaching_end_sent: false }
}

/// The state a mixer starts in: deck A active, nothing playing, proactive
/// crossfade on, loop mode off.
pub open spec fn initial_state() -> MixState {
    MixState {
        active_deck: DeckId::A,
        crossfading: false,
        crossfade_total: 0,
        crossfade_left: 0,
        target_deck: DeckId::B,
        proactive_crossfade_triggered: false,
        proactive_crossfade_enabled: true,
        loop_mode: false,
        buffer_monitor_counter: 0,
        is_playing: false,
        latches_a: cleared(),
        latches_b: cleared(),
        pending_transition: None,
        auto_gapless_stall: None,
        mid_chunk_auto_switch: None,
        mid_chunk_loop_restart: false,
    }
}

/// Length in interleaved samples of a crossfade of `duration_ms`.
pub open spec fn crossfade_samples(duration_ms: u64) -> int {
    (duration_ms * SAMPLE_RATE / 1000) * CHANNELS
}

/// The length of a crossfade of `duration_ms` can be computed in `usize`.
pub open spec fn crossfade_fits(duration_ms: u64) -> bool {
    duration_ms * SAMPLE_RATE <= usize::MAX
}

/// At least `limit` milliseconds lie between `since` and `now`.
pub open spec fn elapsed(since: u64, now: u64, limit: u64) -> bool {
    now - since >= limit
}

/// A sample, or silence where there is none.
pub open spec fn or_silence(sample: Option<i16>) -> i16 {
    match sample {
        Some(s) => s,
        None => 0i16,
    }
}

/// A sample, or silence where there is none.
#[verifier::when_used_as_spec(or_silence)]
pub fn sample_or_silence(sample: Option<i16>) -> (s: i16)
    ensures
        s == or_silence(sample),
{
    match sample {
        Some(s) => s,
        None => 0i16,
    }
}

impl MixerView {
    pub open spec fn deck(self, id: DeckId) -> DeckView {
        match id {
            DeckId::A => self.a,
            DeckId::B => self.b,
        }
    }

    pub open spec fn with_deck(self, id: DeckId, d: DeckView) -> MixerView {
        match id {
            DeckId::A => MixerView { a: d, ..self },
            DeckId::B => MixerView { b: d, ..self },
        }
    }

    pub open spec fn latches(self, id: DeckId) -> Latches {
        match id {
            DeckId::A => self.st.latches_a,
            DeckId::B => self.st.latches_b,
        }
    }

    pub open spec fn with_latches(self, id: DeckId, l: Latches) -> MixerView {
        match id {
            DeckId::A => MixerView { st: MixState { latches_a: l, ..self.st }, ..self },
            DeckId::B => MixerView { st: MixState { latches_b: l, ..self.st }, ..self },
        }
    }

    /// The consistency every mixer keeps.
    pub open spec fn wf(self) -> bool {
        &&& self.a.wf()
        &&& self.b.wf()
        &&& self.a.id == DeckId::A
        &&& self.b.id == DeckId::B
        &&& self.st.crossfade_left <= self.st.crossfade_total
        &&& self.st.buffer_monitor_counter < 5
        &&& match self.st.pending_transition {
            Some(p) => p.is_crossfade ==> crossfade_fits(p.duration_ms),
            None => true,
        }
    }

    /// Both read counters can take `n` more samples.
    pub open spec fn headroom(self, n: nat) -> bool {
        self.a.headroom(n) && self.b.headroom(n)
    }

    /// The mixer after the deck `id` was replaced by a new one. The readiness
    /// and approaching-end latches of the deck go down; the end latch too
    /// where `all` is set.
    pub open spec fn with_deck_discarded(self, id: DeckId, all: bool) -> MixerView {
        let l = self.latches(id);
        self.with_deck(id, DeckView::fresh(id)).with_latches(
            id,
            Latches {
                buffer_prev_ready: false,
                end_sent: if all { false } else { l.end_sent },
                approaching_end_sent: false,
            },
        )
    }

    /// The mixer after `id` became the active deck and starts counting its
    /// played samples from zero.
    pub open spec fn switched_to(self, id: DeckId) -> MixerView {
        let m = MixerView { st: MixState { active_deck: id, ..self.st }, ..self };
        m.with_deck(id, m.deck(id).replayed_from_zero())
    }

    /// The mixer with a crossfade of `total` samples towards `target` begun.
    pub open spec fn fading_to(self, target: DeckId, total: usize) -> MixerView {
        MixerView {
            st: MixState {
                crossfading: true,
                target_deck: target,
                crossfade_total: total,
                crossfade_left: total,
                ..self.st
            },
            ..self
        }
    }

    /// The mixer with any crossfade called off and its counters at zero.
    pub open spec fn fade_cancelled(self) -> MixerView {
        MixerView {
            st: MixState {
                crossfading: false,
                proactive_crossfade_triggered: false,
                crossfade_left: 0,
                crossfade_total: 0,
                ..self.st
            },
            ..self
        }
    }
}

} // verus!
