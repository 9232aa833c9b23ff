//! Whole executions of the mixer: any sequence of commands, preparations,
//! chunks and finishes, and what holds of the events of such a sequence.

use vstd::prelude::*;
use crate::command::InputCommand;
use crate::deck::{DeckId, DeckView};
use crate::event::Event;
use crate::laws::{
    law_chunk_switches_paired, law_command_switches_paired, law_finished_switches_paired,
    law_prepared_switches_paired, law_slots_raise_no_switch, lemma_paired_concat,
    lemma_paired_without_switch, switches_paired,
};
use crate::model::{Feed, MixerView};

verus! {

/// One step of the loop around the mixer, with what the outside world
/// contributed to it.
pub enum Step {
    /// A command, and what draining found on the deck that the command
    /// drains.
    Command { cmd: InputCommand, now: u64, polled: DeckView },
    /// The preparation of an iteration, and what draining found.
    Prepare { now: u64, feed: Feed },
    /// The rendering of a chunk, and what draining found slot by slot.
    Render { feeds: Seq<Feed> },
    /// The end of an iteration, and whether the chunk was audible.
    Finish { has_audio: bool, now: u64 },
}

impl MixerView {
    /// What a step makes of the mixer, and the events it raises.
    pub open spec fn stepped(self, step: Step) -> (MixerView, Seq<Event>) {
        match step {
            Step::Command { cmd, now, polled } => {
                let m = self.after_drain(cmd, polled);
                (m.command_applied(cmd, now), m.command_events(cmd))
            },
            Step::Prepare { now, feed } => self.drained(feed).prepared(now),
            Step::Render { feeds } => (self.chunk(feeds).end, self.chunk(feeds).events),
            Step::Finish { has_audio, now } => self.finished(has_audio, now),
        }
    }

    /// What a sequence of steps makes of the mixer, and all the events it
    /// raises, in order.
    pub open spec fn ran(self, steps: Seq<Step>) -> (MixerView, Seq<Event>)
        decreases steps.len(),
    {
        if steps.len() == 0 {
            (self, Seq::empty())
        } else {
            let (m, events) = self.ran(steps.drop_last());
            let (next, raised) = m.stepped(steps.last());
            (next, events + raised)
        }
    }

    /// Before each of the steps, the approaching-end latch of the deck is up.
    pub open spec fn warned_throughout(self, steps: Seq<Step>, deck: DeckId) -> bool
        decreases steps.len(),
    {
        steps.len() > 0 ==> {
            &&& self.warned_throughout(steps.drop_last(), deck)
            &&& self.ran(steps.drop_last()).0.latches(deck).approaching_end_sent
        }
    }
}

/// None of the events warns that the deck is about to end.
pub open spec fn no_warning(events: Seq<Event>, deck: DeckId) -> bool {
    forall|i: int| 0 <= i < events.len() ==> #[trigger] events[i] != Event::ApproachingEnd(deck)
}

/// Two runs of events without a warning have none when put together.
pub proof fn lemma_no_warning_concat(a: Seq<Event>, b: Seq<Event>, deck: DeckId)
    requires
        no_warning(a, deck),
        no_warning(b, deck),
    ensures
        no_warning(a + b, deck),
{
    let c = a + b;
    assert forall|i: int| 0 <= i < c.len() implies #[trigger] c[i] != Event::ApproachingEnd(
        deck,
    ) by {
        if i < a.len() {
            assert(c[i] == a[i]);
        } else {
            assert(c[i] == b[i - a.len()]);
        }
    }
}

/// None of the events is a warning that a deck is about to end.
pub open spec fn never_warns(events: Seq<Event>) -> bool {
    forall|i: int| 0 <= i < events.len() ==> !((#[trigger] events[i]) is ApproachingEnd)
}

/// Events among which none is a warning do not warn of the deck.
pub proof fn lemma_never_warns(events: Seq<Event>, deck: DeckId)
    requires
        never_warns(events),
    ensures
        no_warning(events, deck),
{
    assert forall|i: int| 0 <= i < events.len() implies #[trigger] events[i]
        != Event::ApproachingEnd(deck) by {
        assert(!(events[i] is ApproachingEnd));
    }
}

/// No command warns that a deck is about to end.
pub proof fn lemma_command_never_warns(m: MixerView, cmd: InputCommand)
    ensures
        never_warns(m.command_events(cmd)),
{
}

/// The settling of a silent wait does not warn that a deck is about to end.
pub proof fn lemma_stall_never_warns(m: MixerView, now: u64)
    ensures
        never_warns(m.stall_resolved(now).1),
{
}

/// The carrying out of a deferred transition does not warn that a deck is
/// about to end.
pub proof fn lemma_pending_never_warns(m: MixerView, now: u64)
    ensures
        never_warns(m.pending_resolved(now).1),
{
}

/// The sampling of readiness does not warn that a deck is about to end.
pub proof fn lemma_readiness_never_warns(m: MixerView)
    ensures
        never_warns(m.readiness_sampled().1),
{
}

/// The rendering of a chunk does not warn that a deck is about to end.
pub proof fn lemma_chunk_never_warns(m: MixerView, feeds: Seq<Feed>)
    ensures
        never_warns(m.chunk(feeds).events),
{
    let (p, started) = m.proactive();
    law_slots_raise_no_switch(p.chunk_begun(), feeds);
    let run = p.chunk_begun().run_slots(feeds);
    let all = m.chunk(feeds).events;
    assert forall|i: int| 0 <= i < all.len() implies !((#[trigger] all[i]) is ApproachingEnd) by {
        match started {
            Some(e) => {
                if i > 0 {
                    assert(all[i] == run.events[i - 1]);
                    assert(run.events[i - 1] is DeckChanged);
                }
            },
            None => {
                assert(run.events[i] is DeckChanged);
            },
        }
    }
}

/// What follows the warning at the end of an iteration is itself no
/// warning.
pub proof fn lemma_settled_never_warns(m: MixerView, has_audio: bool, now: u64)
    ensures
        never_warns(m.settled(has_audio, now).1),
{
}

/// A step that begins with the approaching-end latch of a deck up does not
/// warn that the deck is about to end.
pub proof fn law_step_warns_only_on_lowered_latch(m: MixerView, step: Step, deck: DeckId)
    requires
        m.latches(deck).approaching_end_sent,
    ensures
        no_warning(m.stepped(step).1, deck),
{
    match step {
        Step::Command { cmd, now, polled } => {
            lemma_command_never_warns(m.after_drain(cmd, polled), cmd);
            lemma_never_warns(m.stepped(step).1, deck);
        },
        Step::Prepare { now, feed } => {
            let (m1, e1) = m.drained(feed).stall_resolved(now);
            let (m2, e2) = m1.pending_resolved(now);
            let (m3, e3) = m2.readiness_sampled();
            lemma_stall_never_warns(m.drained(feed), now);
            lemma_pending_never_warns(m1, now);
            lemma_readiness_never_warns(m2);
            lemma_never_warns(e1, deck);
            lemma_never_warns(e2, deck);
            lemma_never_warns(e3, deck);
            lemma_no_warning_concat(e1, e2, deck);
            lemma_no_warning_concat(e1 + e2, e3, deck);
        },
        Step::Render { feeds } => {
            lemma_chunk_never_warns(m, feeds);
            lemma_never_warns(m.stepped(step).1, deck);
        },
        Step::Finish { has_audio, now } => {
            let (m1, e1) = m.approaching_checked();
            let (m2, e2) = m1.settled(has_audio, now);
            assert(no_warning(e1, deck)) by {
                if e1.len() > 0 {
                    assert(e1[0] == Event::ApproachingEnd(m.st.active_deck));
                    assert(m.st.active_deck != deck);
                }
            }
            lemma_settled_never_warns(m1, has_audio, now);
            lemma_never_warns(e2, deck);
            lemma_no_warning_concat(e1, e2, deck);
        },
    }
}

/// Over any sequence of steps before each of which the approaching-end latch
/// of a deck is up, the warning for that deck is not raised. So between two
/// warnings for a deck its latch went down, which only a load, a stop, a
/// rewind, the discarding of the deck or the end of a crossfade away from it
/// bring about.
pub proof fn law_no_second_warning(m: MixerView, steps: Seq<Step>, deck: DeckId)
    requires
        m.warned_throughout(steps, deck),
    ensures
        no_warning(m.ran(steps).1, deck),
    decreases steps.len(),
{
    if steps.len() > 0 {
        law_no_second_warning(m, steps.drop_last(), deck);
        let (before, events) = m.ran(steps.drop_last());
        law_step_warns_only_on_lowered_latch(before, steps.last(), deck);
        lemma_no_warning_concat(events, before.stepped(steps.last()).1, deck);
    }
}

/// In the events of any step, a report that the mixer moved on by itself is
/// followed at once by the change of the active deck to the same deck.
pub proof fn law_step_switches_paired(m: MixerView, step: Step)
    ensures
        switches_paired(m.stepped(step).1),
{
    match step {
        Step::Command { cmd, now, polled } => {
            law_command_switches_paired(m.after_drain(cmd, polled), cmd);
        },
        Step::Prepare { now, feed } => {
            law_prepared_switches_paired(m.drained(feed), now);
        },
        Step::Render { feeds } => {
            law_chunk_switches_paired(m, feeds);
        },
        Step::Finish { has_audio, now } => {
            law_finished_switches_paired(m, has_audio, now);
        },
    }
}

/// In the events of any sequence of steps, every report that the mixer moved
/// on by itself is followed at once by the change of the active deck to the
/// same deck.
pub proof fn law_run_switches_paired(m: MixerView, steps: Seq<Step>)
    ensures
        switches_paired(m.ran(steps).1),
    decreases steps.len(),
{
    if steps.len() > 0 {
        law_run_switches_paired(m, steps.drop_last());
        let (before, events) = m.ran(steps.drop_last());
        law_step_switches_paired(before, steps.last());
        lemma_paired_concat(events, before.stepped(steps.last()).1);
    } else {
        lemma_paired_without_switch(m.ran(steps).1);
    }
}

} // verus!
