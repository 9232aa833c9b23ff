//! The lifecycle events the mixer reports to its controller.

use vstd::prelude::*;
use crate::deck::DeckId;
use crate::text::joined;

verus! {

/// Why the active deck changed.
#[derive(Clone, Copy, PartialEq, Eq, Structural, Debug)]
pub enum Trigger {
    /// A load on the fading-out deck finished the crossfade at once.
    CrossfadeSnap,
    PlayCommand,
    SkipCommand,
    /// The successor's first data ended a silent wait.
    AutoGaplessStall,
    /// A deferred skip was carried out.
    PendingSkip,
    CrossfadeCompletion,
    /// The active deck ran dry inside a chunk and the other took over.
    MidChunkAutoGapless,
    /// The active deck ran dry at a chunk boundary and the other took over.
    AutoGapless,
}

/// One event for the controller.
#[derive(Clone, Copy, PartialEq, Eq, Structural, Debug)]
pub enum Event {
    /// The named deck has enough queued to be switched to.
    BufferReady(DeckId),
    CrossfadeStarted { from: DeckId, to: DeckId },
    DeckChanged { deck: DeckId, trigger: Trigger },
    /// The named deck has less than the tail threshold left to play.
    ApproachingEnd(DeckId),
    /// The named deck has finished and nothing follows it.
    End(DeckId),
    /// The mixer moved on to the named deck by itself.
    AutoEndSwitch(DeckId),
    /// The named deck was rewound because loop mode is on.
    AutoLoopRestart(DeckId),
    /// The named deck was rewound on command.
    DeckRestarted(DeckId),
}

/// One line of the event log: the kind of the event and its payload.
#[derive(PartialEq, Eq, Debug)]
pub struct LogMessage {
    pub event: String,
    pub data: String,
}

impl Trigger {
    /// The word for the trigger in an event's payload.
    pub open spec fn name_spec(self) -> Seq<char> {
        match self {
            Trigger::CrossfadeSnap => "crossfade_snap"@,
            Trigger::PlayCommand => "play_command"@,
            Trigger::SkipCommand => "skip_command"@,
            Trigger::AutoGaplessStall => "auto_gapless_stall"@,
            Trigger::PendingSkip => "pending_skip"@,
            Trigger::CrossfadeCompletion => "crossfade_completion"@,
            Trigger::MidChunkAutoGapless => "mid_chunk_auto_gapless"@,
            Trigger::AutoGapless => "auto_gapless"@,
        }
    }

    /// The word for the trigger in an event's payload.
    pub fn name(self) -> (name: &'static str)
        ensures
            name@ == self.name_spec(),
    {
        match self {
            Trigger::CrossfadeSnap => "crossfade_snap",
            Trigger::PlayCommand => "play_command",
            Trigger::SkipCommand => "skip_command",
            Trigger::AutoGaplessStall => "auto_gapless_stall",
            Trigger::PendingSkip => "pending_skip",
            Trigger::CrossfadeCompletion => "crossfade_completion",
            Trigger::MidChunkAutoGapless => "mid_chunk_auto_gapless",
            Trigger::AutoGapless => "auto_gapless",
        }
    }
}

impl Event {
    /// The kind of the event, as the controller reads it.
    pub open spec fn kind_spec(self) -> Seq<char> {
        match self {
            Event::BufferReady(_) => "buffer_ready"@,
            Event::CrossfadeStarted { .. } => "crossfade_started"@,
            Event::DeckChanged { .. } => "deck_changed"@,
            Event::ApproachingEnd(_) => "approaching_end"@,
            Event::End(_) => "end"@,
            Event::AutoEndSwitch(_) => "auto_end_switch"@,
            Event::AutoLoopRestart(_) => "auto_loop_restart"@,
            Event::DeckRestarted(_) => "deck_restarted"@,
        }
    }

    /// The payload of the event: the deck's name, or `from=X, to=Y` for the
    /// start of a crossfade, `deck=X, triggered_by=...` for a change of the
    /// active deck, and `deck=X` for a rewind on command.
    pub open spec fn payload_spec(self) -> Seq<char> {
        match self {
            Event::BufferReady(deck) => deck.name_spec(),
            Event::CrossfadeStarted { from, to } => "from="@ + from.name_spec() + ", to="@
                + to.name_spec(),
            Event::DeckChanged { deck, trigger } => "deck="@ + deck.name_spec()
                + ", triggered_by="@ + trigger.name_spec(),
            Event::ApproachingEnd(deck) => deck.name_spec(),
            Event::End(deck) => deck.name_spec(),
            Event::AutoEndSwitch(deck) => deck.name_spec(),
            Event::AutoLoopRestart(deck) => deck.name_spec(),
            Event::DeckRestarted(deck) => "deck="@ + deck.name_spec(),
        }
    }

    /// The kind of the event, as the controller reads it.
    pub fn kind(&self) -> (kind: &'static str)
        ensures
            kind@ == self.kind_spec(),
    {
        match self {
            Event::BufferReady(_) => "buffer_ready",
            Event::CrossfadeStarted { .. } => "crossfade_started",
            Event::DeckChanged { .. } => "deck_changed",
            Event::ApproachingEnd(_) => "approaching_end",
            Event::End(_) => "end",
            Event::AutoEndSwitch(_) => "auto_end_switch",
            Event::AutoLoopRestart(_) => "auto_loop_restart",
            Event::DeckRestarted(_) => "deck_restarted",
        }
    }

    /// The payload of the event.
    pub fn payload(&self) -> (data: String)
        ensures
            data@ == self.payload_spec(),
    {
        match self {
            Event::CrossfadeStarted { from, to } => {
                let mut data = joined("from=", from.name());
                data.push_str(", to=");
                data.push_str(to.name());
                data
            },
            Event::DeckChanged { deck, trigger } => {
                let mut data = joined("deck=", deck.name());
                data.push_str(", triggered_by=");
                data.push_str(trigger.name());
                data
            },
            Event::DeckRestarted(deck) => joined("deck=", deck.name()),
            Event::BufferReady(deck) => deck.name().to_owned(),
            Event::ApproachingEnd(deck) => deck.name().to_owned(),
            Event::End(deck) => deck.name().to_owned(),
            Event::AutoEndSwitch(deck) => deck.name().to_owned(),
            Event::AutoLoopRestart(deck) => deck.name().to_owned(),
        }
    }

    /// The line of the event log for this event.
    pub fn to_log(&self) -> (line: LogMessage)
        ensures
            line.event@ == self.kind_spec(),
            line.data@ == self.payload_spec(),
    {
        LogMessage { event: self.kind().to_owned(), data: self.payload() }
    }
}

} // verus!
