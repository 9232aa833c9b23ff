//! The first part of a mixer iteration: the channels are drained, a silent
//! wait or a deferred transition is settled where it can be, and the
//! readiness of the decks is sampled.

use vstd::prelude::*;
use crate::deck::{lemma_fed_transitive, DeckId};
use crate::event::{Event, Trigger};
use crate::mixer::Mixer;
use crate::model::{
    crossfade_fits, crossfade_samples, elapsed, Feed, Latches, MixState, MixerView, Plan,
};
use crate::params::{CHANNELS, PENDING_TIMEOUT_MS, SAMPLE_RATE, STALL_TIMEOUT_MS};

verus! {

/// What the loop around the mixer is to do next, and the events raised while
/// the iteration was prepared.
pub struct Prepared {
    pub events: Vec<Event>,
    pub plan: Plan,
}

impl MixerView {
    /// The end of a silent wait. Once the awaited deck has anything queued it
    /// takes over from the active deck, which is discarded. After ten seconds
    /// without data the wait is given up and the active deck reported as
    /// ended. Otherwise the wait goes on.
    pub open spec fn stall_resolved(self, now: u64) -> (MixerView, Seq<Event>) {
        match self.st.auto_gapless_stall {
            None => (self, Seq::empty()),
            Some(stall) => {
                let over = MixerView {
                    st: MixState { auto_gapless_stall: None, ..self.st },
                    ..self
                };
                if self.deck(stall.target).has_audio() {
                    (
                        over.with_deck_discarded(self.st.active_deck, false).switched_to(
                            stall.target,
                        ),
                        seq![
                            Event::AutoEndSwitch(stall.target),
                            Event::DeckChanged {
                                deck: stall.target,
                                trigger: Trigger::AutoGaplessStall,
                            },
                        ],
                    )
                } else if elapsed(stall.since, now, STALL_TIMEOUT_MS) {
                    (over, seq![Event::End(self.st.active_deck)])
                } else {
                    (self, Seq::empty())
                }
            },
        }
    }

    /// A deferred transition is due: its target is ready, or its decoder has
    /// finished and left something, or eight seconds have passed.
    pub open spec fn pending_due(self, now: u64) -> bool {
        match self.st.pending_transition {
            None => false,
            Some(p) => {
                let target = self.deck(p.target);
                target.ready() || target.download_done() || elapsed(
                    p.since,
                    now,
                    PENDING_TIMEOUT_MS,
                )
            },
        }
    }

    /// The mixer after a skip to `target`: the active deck is discarded with
    /// all its latches, `target` is active and counts from zero, no crossfade
    /// is under way, playback is on and nothing is deferred.
    pub open spec fn skipped_to(self, target: DeckId) -> MixerView {
        let m = self.with_deck_discarded(self.st.active_deck, true).switched_to(
            target,
        ).fade_cancelled();
        MixerView { st: MixState { is_playing: true, pending_transition: None, ..m.st }, ..m }
    }

    /// A deferred transition that is due is carried out: a crossfade begins
    /// and keeps the source deck, a skip discards it. Either way the target is
    /// reported as ready.
    pub open spec fn pending_resolved(self, now: u64) -> (MixerView, Seq<Event>) {
        match self.st.pending_transition {
            None => (self, Seq::empty()),
            Some(p) => if !self.pending_due(now) {
                (self, Seq::empty())
            } else {
                if p.is_crossfade {
                    let m = self.fading_to(p.target, crossfade_samples(p.duration_ms) as usize);
                    (
                        MixerView {
                            st: MixState {
                                proactive_crossfade_triggered: false,
                                pending_transition: None,
                                ..m.st
                            },
                            ..m
                        },
                        seq![
                            Event::CrossfadeStarted { from: self.st.active_deck, to: p.target },
                            Event::BufferReady(p.target),
                        ],
                    )
                } else {
                    (
                        self.skipped_to(p.target),
                        seq![
                            Event::DeckChanged { deck: p.target, trigger: Trigger::PendingSkip },
                            Event::BufferReady(p.target),
                        ],
                    )
                }
            },
        }
    }

    /// Deck `id` is reported as ready by the sampling of readiness: it is not
    /// the active deck, it is ready, and it was not when last sampled.
    pub open spec fn newly_ready(self, id: DeckId) -> bool {
        &&& self.st.active_deck == id.other()
        &&& self.deck(id).ready()
        &&& !self.latches(id).buffer_prev_ready
    }

    /// What the sampling of readiness reports: the deck that is not active,
    /// where it has just become ready.
    pub open spec fn ready_reports(self) -> Seq<Event> {
        if self.newly_ready(DeckId::B) {
            seq![Event::BufferReady(DeckId::B)]
        } else if self.newly_ready(DeckId::A) {
            seq![Event::BufferReady(DeckId::A)]
        } else {
            Seq::empty()
        }
    }

    /// Every fifth iteration the readiness of both decks is sampled and
    /// latched, and a deck that is not active and has just become ready is
    /// reported.
    pub open spec fn readiness_sampled(self) -> (MixerView, Seq<Event>) {
        if self.st.buffer_monitor_counter + 1 >= 5 {
            let m = MixerView {
                st: MixState { buffer_monitor_counter: 0, ..self.st },
                ..self
            };
            (
                m.with_latches(
                    DeckId::B,
                    Latches { buffer_prev_ready: self.b.ready(), ..self.st.latches_b },
                ).with_latches(
                    DeckId::A,
                    Latches { buffer_prev_ready: self.a.ready(), ..self.st.latches_a },
                ),
                self.ready_reports(),
            )
        } else {
            (
                MixerView {
                    st: MixState {
                        buffer_monitor_counter: (self.st.buffer_monitor_counter + 1) as usize,
                        ..self.st
                    },
                    ..self
                },
                Seq::empty(),
            )
        }
    }

    /// What the loop is to do with the mixer as it stands.
    pub open spec fn plan(self) -> Plan {
        if !self.st.is_playing {
            Plan::Idle
        } else if self.st.auto_gapless_stall is Some {
            Plan::Silence
        } else {
            Plan::Render
        }
    }

    /// The preparation of an iteration, on decks that were just drained.
    pub open spec fn prepared(self, now: u64) -> (MixerView, Seq<Event>) {
        let (m1, e1) = self.stall_resolved(now);
        let (m2, e2) = m1.pending_resolved(now);
        let (m3, e3) = m2.readiness_sampled();
        (m3, e1 + e2 + e3)
    }

    /// The mixer with its decks as draining left them.
    pub open spec fn drained(self, f: Feed) -> MixerView {
        MixerView { a: f.a, b: f.b, st: self.st }
    }
}

/// Length in interleaved samples of a crossfade of `duration_ms`.
pub fn crossfade_length(duration_ms: u64) -> (samples: usize)
    requires
        crossfade_fits(duration_ms),
    ensures
        samples == crossfade_samples(duration_ms),
{
    (duration_ms as usize * SAMPLE_RATE / 1000) * CHANNELS
}

/// Whether at least `limit` milliseconds lie between `since` and `now`.
pub fn has_elapsed(since: u64, now: u64, limit: u64) -> (over: bool)
    ensures
        over == elapsed(since, now, limit),
{
    now >= since && now - since >= limit
}

impl Mixer {
    /// Settles a silent wait where it can be settled.
    fn resolve_stall(&mut self, now: u64, events: &mut Vec<Event>)
        requires
            old(self).wf(),
        ensures
            final(self).wf(),
            final(self)@ == old(self)@.stall_resolved(now).0,
            final(events)@ == old(events)@ + old(self)@.stall_resolved(now).1,
    {
        match self.st.auto_gapless_stall {
            None => {
                assert(events@ + Seq::<Event>::empty() =~= events@);
            },
            Some(stall) => {
                if self.queued(stall.target) > 0 {
                    let active = self.st.active_deck;
                    self.st.auto_gapless_stall = None;
                    self.discard_deck(active, false);
                    self.switch_to(stall.target);
                    let ghost before = events@;
                    events.push(Event::AutoEndSwitch(stall.target));
                    events.push(
                        Event::DeckChanged {
                            deck: stall.target,
                            trigger: Trigger::AutoGaplessStall,
                        },
                    );
                    assert(events@ =~= before + old(self)@.stall_resolved(now).1);
                } else if has_elapsed(stall.since, now, STALL_TIMEOUT_MS) {
                    let ghost before = events@;
                    events.push(Event::End(self.st.active_deck));
                    self.st.auto_gapless_stall = None;
                    assert(events@ =~= before + old(self)@.stall_resolved(now).1);
                } else {
                    assert(events@ + Seq::<Event>::empty() =~= events@);
                }
            },
        }
    }

    /// Whether a deferred transition is due.
    fn pending_due(&self, now: u64) -> (due: bool)
        ensures
            due == self@.pending_due(now),
    {
        match self.st.pending_transition {
            None => false,
            Some(p) => {
                let target = self.deck(p.target);
                target.is_ready_for_crossfade() || (target.receiver.is_none()
                    && target.samples.len() > 0) || has_elapsed(p.since, now, PENDING_TIMEOUT_MS)
            },
        }
    }

    /// Skips to `target`.
    pub(crate) fn skip_to(&mut self, target: DeckId)
        requires
            old(self).wf(),
        ensures
            final(self).wf(),
            final(self)@ == old(self)@.skipped_to(target),
    {
        let active = self.st.active_deck;
        self.discard_deck(active, true);
        self.switch_to(target);
        self.st.crossfading = false;
        self.st.proactive_crossfade_triggered = false;
        self.st.crossfade_left = 0;
        self.st.crossfade_total = 0;
        self.st.is_playing = true;
        self.st.pending_transition = None;
    }

    /// Carries out a deferred transition that is due.
    fn resolve_pending(&mut self, now: u64, events: &mut Vec<Event>)
        requires
            old(self).wf(),
        ensures
            final(self).wf(),
            final(self)@ == old(self)@.pending_resolved(now).0,
            final(events)@ == old(events)@ + old(self)@.pending_resolved(now).1,
    {
        let due = self.pending_due(now);
        let ghost before = events@;
        match self.st.pending_transition {
            None => {
                assert(events@ + Seq::<Event>::empty() =~= events@);
            },
            Some(p) => if !due {
                assert(events@ + Seq::<Event>::empty() =~= events@);
            } else {
                if p.is_crossfade {
                    let total = crossfade_length(p.duration_ms);
                    events.push(
                        Event::CrossfadeStarted { from: self.st.active_deck, to: p.target },
                    );
                    self.st.crossfading = true;
                    self.st.target_deck = p.target;
                    self.st.crossfade_total = total;
                    self.st.crossfade_left = total;
                    self.st.proactive_crossfade_triggered = false;
                } else {
                    self.skip_to(p.target);
                    events.push(
                        Event::DeckChanged { deck: p.target, trigger: Trigger::PendingSkip },
                    );
                }
                self.st.pending_transition = None;
                events.push(Event::BufferReady(p.target));
                assert(events@ =~= before + old(self)@.pending_resolved(now).1);
            },
        }
    }

    /// Latches the readiness of both decks and restarts the count of
    /// iterations.
    fn latch_readiness(&mut self)
        requires
            old(self).wf(),
            old(self)@.st.buffer_monitor_counter + 1 >= 5,
        ensures
            final(self).wf(),
            final(self)@ == old(self)@.readiness_sampled().0,
    {
        let b_ready = self.deck_b.is_ready_for_crossfade();
        let a_ready = self.deck_a.is_ready_for_crossfade();
        let lb = self.st.latches_b;
        let la = self.st.latches_a;
        self.st.buffer_monitor_counter = 0;
        self.set_latches(
            DeckId::B,
            Latches {
                buffer_prev_ready: b_ready,
                end_sent: lb.end_sent,
                approaching_end_sent: lb.approaching_end_sent,
            },
        );
        self.set_latches(
            DeckId::A,
            Latches {
                buffer_prev_ready: a_ready,
                end_sent: la.end_sent,
                approaching_end_sent: la.approaching_end_sent,
            },
        );
    }

    /// Reports the deck that is not active, where it has just become ready.
    fn report_ready(&self, events: &mut Vec<Event>)
        ensures
            final(events)@ == old(events)@ + self@.ready_reports(),
    {
        let ghost before = events@;
        let lb = self.st.latches_b;
        let la = self.st.latches_a;
        if self.st.active_deck == DeckId::A && self.deck_b.is_ready_for_crossfade()
            && !lb.buffer_prev_ready {
            events.push(Event::BufferReady(DeckId::B));
            assert(events@ =~= before + seq![Event::BufferReady(DeckId::B)]);
        } else if self.st.active_deck == DeckId::B && self.deck_a.is_ready_for_crossfade()
            && !la.buffer_prev_ready {
            events.push(Event::BufferReady(DeckId::A));
            assert(events@ =~= before + seq![Event::BufferReady(DeckId::A)]);
        } else {
            assert(events@ =~= before + Seq::<Event>::empty());
        }
    }

    /// Samples the readiness of the decks where it is time to.
    fn sample_readiness(&mut self, events: &mut Vec<Event>)
        requires
            old(self).wf(),
        ensures
            final(self).wf(),
            final(self)@ == old(self)@.readiness_sampled().0,
            final(events)@ == old(events)@ + old(self)@.readiness_sampled().1,
    {
        if self.st.buffer_monitor_counter + 1 >= 5 {
            self.report_ready(events);
            self.latch_readiness();
        } else {
            self.st.buffer_monitor_counter = self.st.buffer_monitor_counter + 1;
            assert(events@ =~= old(events)@ + Seq::<Event>::empty());
        }
    }

    /// What the loop is to do with the mixer as it stands.
    pub fn plan(&self) -> (plan: Plan)
        ensures
            plan == self@.plan(),
    {
        if !self.st.is_playing {
            Plan::Idle
        } else if self.st.auto_gapless_stall.is_some() {
            Plan::Silence
        } else {
            Plan::Render
        }
    }

    /// Prepares an iteration at time `now`: drains both channels, settles a
    /// silent wait and a deferred transition where they can be settled,
    /// samples readiness, and says what the loop is to do next.
    pub fn begin_iteration(&mut self, now: u64) -> (prepared: Prepared)
        requires
            old(self).wf(),
        ensures
            final(self).wf(),
            prepared.plan == final(self)@.plan(),
            exists|f: Feed|
                {
                    &&& f.follows(old(self)@)
                    &&& #[trigger] old(self)@.drained(f).prepared(now) == (
                        final(self)@,
                        prepared.events@,
                    )
                },
    {
        let mut events: Vec<Event> = Vec::new();
        self.poll(DeckId::A);
        self.poll(DeckId::B);
        let ghost once = self@;
        assert(old(self)@.a.fed(once.a) && old(self)@.b.fed(once.b));
        match self.st.auto_gapless_stall {
            Some(stall) => {
                self.poll(stall.target);
                proof {
                    lemma_fed_transitive(
                        old(self)@.deck(stall.target),
                        once.deck(stall.target),
                        self@.deck(stall.target),
                    );
                }
            },
            None => {},
        }
        let ghost f = Feed { a: self@.a, b: self@.b };
        assert(f.follows(old(self)@));
        assert(self@ == old(self)@.drained(f));
        let ghost m0 = self@;
        self.resolve_stall(now, &mut events);
        let ghost m1 = self@;
        self.resolve_pending(now, &mut events);
        let ghost m2 = self@;
        self.sample_readiness(&mut events);
        let plan = self.plan();
        proof {
            let e1 = m0.stall_resolved(now).1;
            let e2 = m1.pending_resolved(now).1;
            let e3 = m2.readiness_sampled().1;
            assert(events@ =~= e1 + e2 + e3);
            assert(m0.prepared(now) == (self@, events@));
        }
        Prepared { events, plan }
    }
}

} // verus!
