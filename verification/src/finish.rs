//! The last part of a mixer iteration, after a chunk was written: the warning
//! that the active deck is about to end, the report of what happened inside
//! the chunk, and what is done when the active deck has ended.

use vstd::prelude::*;
use crate::deck::DeckId;
use crate::event::{Event, Trigger};
use crate::mixer::Mixer;
use crate::model::{elapsed, Latches, MixState, MixerView, Stall};
use crate::params::{MIN_PLAYED_FOR_END, STUCK_LOAD_MS, TAIL_THRESHOLD};
use crate::prepare::has_elapsed;

verus! {

impl MixerView {
    /// The warning is due: playback is on without a crossfade, the active
    /// deck has no decoder left and less than the tail threshold queued, and
    /// the warning was not given yet.
    pub open spec fn approaching_due(self) -> bool {
        let active = self.st.active_deck;
        &&& self.st.is_playing
        &&& !self.st.crossfading
        &&& self.deck(active).exhausted()
        &&& !self.latches(active).approaching_end_sent
        &&& self.deck(active).samples.len() < TAIL_THRESHOLD
    }

    /// The warning that the active deck is about to end, given once.
    pub open spec fn approaching_checked(self) -> (MixerView, Seq<Event>) {
        let active = self.st.active_deck;
        if self.approaching_due() {
            (
                self.with_latches(
                    active,
                    Latches { approaching_end_sent: true, ..self.latches(active) },
                ),
                seq![Event::ApproachingEnd(active)],
            )
        } else {
            (self, Seq::empty())
        }
    }

    /// Something happened inside the chunk that is still to be reported.
    pub open spec fn mid_chunk_marked(self) -> bool {
        self.st.mid_chunk_auto_switch is Some || self.st.mid_chunk_loop_restart
    }

    /// The events for what happened inside the chunk.
    pub open spec fn mid_chunk_reports(self) -> Seq<Event> {
        if self.st.mid_chunk_loop_restart {
            seq![Event::AutoLoopRestart(self.st.active_deck)]
        } else {
            match self.st.mid_chunk_auto_switch {
                Some(deck) => seq![
                    Event::AutoEndSwitch(deck),
                    Event::DeckChanged { deck, trigger: Trigger::MidChunkAutoGapless },
                ],
                None => Seq::empty(),
            }
        }
    }

    /// The end of the active deck is to be handled: the chunk was silent,
    /// recovery is allowed, the deck has run dry after playing long enough,
    /// and its end was not handled yet.
    pub open spec fn end_due(self, has_audio: bool) -> bool {
        let active = self.st.active_deck;
        &&& !has_audio
        &&& self.recovery_allowed()
        &&& self.deck(active).exhausted()
        &&& self.deck(active).samples_played >= MIN_PLAYED_FOR_END
        &&& !self.latches(active).end_sent
    }

    /// The load of the deck has brought nothing for thirty seconds.
    pub open spec fn load_stuck(self, id: DeckId, now: u64) -> bool {
        match self.deck(id).load_started_at {
            Some(since) => elapsed(since, now, STUCK_LOAD_MS),
            None => false,
        }
    }

    /// The mixer with the end of the active deck latched as handled.
    pub open spec fn end_latched(self) -> MixerView {
        let active = self.st.active_deck;
        self.with_latches(active, Latches { end_sent: true, ..self.latches(active) })
    }

    /// The active deck rewound at a chunk boundary: it plays again from the
    /// start of its history and may warn and end again.
    pub open spec fn loop_restarted(self) -> MixerView {
        let active = self.st.active_deck;
        self.with_deck(active, self.deck(active).restarted()).with_latches(
            active,
            Latches { end_sent: false, approaching_end_sent: false, ..self.latches(active) },
        )
    }

    /// What is done about the end of the active deck. Loop mode rewinds it.
    /// Otherwise the other deck takes over if it has anything queued; if it
    /// has nothing but a decoder that has not been silent for too long, the
    /// mixer starts a silent wait for it; in every other case the end is
    /// reported.
    pub open spec fn end_handled(self, now: u64) -> (MixerView, Seq<Event>) {
        let active = self.st.active_deck;
        let other = active.other();
        let m = self.end_latched();
        if self.st.loop_mode {
            (m.loop_restarted(), seq![Event::AutoLoopRestart(active)])
        } else if self.deck(other).has_audio() {
            (
                m.with_deck_discarded(active, false).switched_to(other),
                seq![
                    Event::AutoEndSwitch(other),
                    Event::DeckChanged { deck: other, trigger: Trigger::AutoGapless },
                ],
            )
        } else if self.deck(other).attached && !self.load_stuck(other, now) {
            (
                MixerView {
                    st: MixState {
                        auto_gapless_stall: Some(Stall { target: other, since: now }),
                        ..m.st
                    },
                    ..m
                },
                Seq::empty(),
            )
        } else {
            (m, seq![Event::End(active)])
        }
    }

    /// What follows the warning: the report of what happened inside the
    /// chunk, or else the handling of the active deck's end.
    pub open spec fn settled(self, has_audio: bool, now: u64) -> (MixerView, Seq<Event>) {
        if self.mid_chunk_marked() {
            (self.chunk_begun(), self.mid_chunk_reports())
        } else if self.end_due(has_audio) {
            self.end_handled(now)
        } else {
            (self, Seq::empty())
        }
    }

    /// The whole last part of an iteration in which a chunk was rendered.
    /// `has_audio` says whether any sample of the chunk was audible.
    pub open spec fn finished(self, has_audio: bool, now: u64) -> (MixerView, Seq<Event>) {
        let (m1, e1) = self.approaching_checked();
        let (m2, e2) = m1.settled(has_audio, now);
        (m2, e1 + e2)
    }
}

impl Mixer {
    /// Whether the warning that the active deck is about to end is due.
    fn approaching_due(&self) -> (due: bool)
        ensures
            due == self@.approaching_due(),
    {
        let active = self.st.active_deck;
        let deck = self.deck(active);
        self.st.is_playing && !self.st.crossfading && deck.has_ended && deck.receiver.is_none()
            && !self.latches(active).approaching_end_sent && deck.samples.len() < TAIL_THRESHOLD
    }

    /// Gives the warning that the active deck is about to end, once.
    fn check_approaching(&mut self, events: &mut Vec<Event>)
        requires
            old(self).wf(),
        ensures
            final(self).wf(),
            final(self)@ == old(self)@.approaching_checked().0,
            final(events)@ == old(events)@ + old(self)@.approaching_checked().1,
    {
        let ghost before = events@;
        if self.approaching_due() {
            let active = self.st.active_deck;
            let l = self.latches(active);
            events.push(Event::ApproachingEnd(active));
            assert(events@ =~= before + seq![Event::ApproachingEnd(active)]);
            self.set_latches(
                active,
                Latches {
                    buffer_prev_ready: l.buffer_prev_ready,
                    end_sent: l.end_sent,
                    approaching_end_sent: true,
                },
            );
        } else {
            assert(events@ =~= before + Seq::<Event>::empty());
        }
    }

    /// Reports what happened inside the chunk.
    fn report_mid_chunk(&self, events: &mut Vec<Event>)
        ensures
            final(events)@ == old(events)@ + self@.mid_chunk_reports(),
    {
        let ghost before = events@;
        if self.st.mid_chunk_loop_restart {
            events.push(Event::AutoLoopRestart(self.st.active_deck));
            assert(events@ =~= before + self@.mid_chunk_reports());
        } else {
            match self.st.mid_chunk_auto_switch {
                Some(deck) => {
                    events.push(Event::AutoEndSwitch(deck));
                    events.push(
                        Event::DeckChanged { deck, trigger: Trigger::MidChunkAutoGapless },
                    );
                    assert(events@ =~= before + self@.mid_chunk_reports());
                },
                None => {
                    assert(events@ =~= before + Seq::<Event>::empty());
                },
            }
        }
    }

    /// Whether the end of the active deck is to be handled.
    fn end_due(&self, has_audio: bool) -> (due: bool)
        ensures
            due == self@.end_due(has_audio),
    {
        let active = self.st.active_deck;
        let deck = self.deck(active);
        !has_audio && !self.st.crossfading && self.st.pending_transition.is_none()
            && self.st.auto_gapless_stall.is_none() && self.st.is_playing && deck.has_ended
            && deck.receiver.is_none() && deck.samples_played >= MIN_PLAYED_FOR_END
            && !self.latches(active).end_sent
    }

    /// Whether the load of the deck has brought nothing for thirty seconds.
    fn load_stuck(&self, id: DeckId, now: u64) -> (stuck: bool)
        ensures
            stuck == self@.load_stuck(id, now),
    {
        match self.deck(id).load_started_at {
            Some(since) => has_elapsed(since, now, STUCK_LOAD_MS),
            None => false,
        }
    }

    /// The events for the handling of the active deck's end.
    fn report_end(&self, now: u64, events: &mut Vec<Event>)
        ensures
            final(events)@ == old(events)@ + self@.end_handled(now).1,
    {
        let ghost before = events@;
        let active = self.st.active_deck;
        let other = active.other();
        if self.st.loop_mode {
            events.push(Event::AutoLoopRestart(active));
            assert(events@ =~= before + self@.end_handled(now).1);
        } else if self.queued(other) > 0 {
            events.push(Event::AutoEndSwitch(other));
            events.push(Event::DeckChanged { deck: other, trigger: Trigger::AutoGapless });
            assert(events@ =~= before + self@.end_handled(now).1);
        } else if self.deck(other).receiver.is_some() && !self.load_stuck(other, now) {
            assert(events@ =~= before + Seq::<Event>::empty());
        } else {
            events.push(Event::End(active));
            assert(events@ =~= before + self@.end_handled(now).1);
        }
    }

    /// Rewinds the active deck at a chunk boundary.
    fn restart_loop(&mut self)
        requires
            old(self).wf(),
        ensures
            final(self).wf(),
            final(self)@ == old(self)@.loop_restarted(),
    {
        let active = self.st.active_deck;
        self.rewind(active);
        let l = self.latches(active);
        self.set_latches(
            active,
            Latches {
                buffer_prev_ready: l.buffer_prev_ready,
                end_sent: false,
                approaching_end_sent: false,
            },
        );
    }

    /// Does what the end of the active deck calls for.
    fn handle_end(&mut self, now: u64)
        requires
            old(self).wf(),
        ensures
            final(self).wf(),
            final(self)@ == old(self)@.end_handled(now).0,
    {
        let active = self.st.active_deck;
        let other = active.other();
        let has_audio = self.queued(other) > 0;
        let waits = self.deck(other).receiver.is_some() && !self.load_stuck(other, now);
        let l = self.latches(active);
        self.set_latches(
            active,
            Latches {
                buffer_prev_ready: l.buffer_prev_ready,
                end_sent: true,
                approaching_end_sent: l.approaching_end_sent,
            },
        );
        if self.st.loop_mode {
            self.restart_loop();
        } else if has_audio {
            self.discard_deck(active, false);
            self.switch_to(other);
        } else if waits {
            self.st.auto_gapless_stall = Some(Stall { target: other, since: now });
        }
    }

    /// What follows the warning.
    fn settle(&mut self, has_audio: bool, now: u64, events: &mut Vec<Event>)
        requires
            old(self).wf(),
        ensures
            final(self).wf(),
            final(self)@ == old(self)@.settled(has_audio, now).0,
            final(events)@ == old(events)@ + old(self)@.settled(has_audio, now).1,
    {
        if self.st.mid_chunk_auto_switch.is_some() || self.st.mid_chunk_loop_restart {
            self.report_mid_chunk(events);
            self.st.mid_chunk_auto_switch = None;
            self.st.mid_chunk_loop_restart = false;
        } else if self.end_due(has_audio) {
            self.report_end(now, events);
            self.handle_end(now);
        } else {
            assert(events@ =~= old(events)@ + Seq::<Event>::empty());
        }
    }

    /// Ends an iteration in which a chunk was rendered and written, at time
    /// `now`. `has_audio` says whether any sample of the chunk was audible.
    /// Warns once that the active deck is about to end, reports a rewind or a
    /// takeover that happened inside the chunk, and otherwise handles the end
    /// of the active deck after a silent chunk.
    pub fn finish_chunk(&mut self, has_audio: bool, now: u64) -> (events: Vec<Event>)
        requires
            old(self).wf(),
        ensures
            final(self).wf(),
            (final(self)@, events@) == old(self)@.finished(has_audio, now),
    {
        let mut events: Vec<Event> = Vec::new();
        self.check_approaching(&mut events);
        let ghost m1 = self@;
        let ghost e1 = events@;
        self.settle(has_audio, now, &mut events);
        proof {
            assert(e1 =~= old(self)@.approaching_checked().1);
            assert(events@ =~= e1 + m1.settled(has_audio, now).1);
        }
        events
    }
}

} // verus!
