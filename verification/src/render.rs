//! Rendering one chunk: the proactive crossfade trigger and, slot by slot,
//! what is taken from which deck and how it is to be mixed.

use vstd::prelude::*;
use crate::deck::{lemma_fed_reflexive, DeckId, DeckView};
use crate::event::{Event, Trigger};
use crate::mixer::Mixer;
use crate::model::{
    cleared, or_silence, sample_or_silence, Feed, Latches, MixState, MixerView, Slot,
};
use crate::params::{AUTO_CROSSFADE_SAMPLES, CHUNK_SIZE, MIN_PLAYED_FOR_END, TAIL_THRESHOLD};

verus! {

/// What one slot makes of the mixer: the state after it, the instruction for
/// the output, and the event it raised, if any.
pub struct SlotStep {
    pub next: MixerView,
    pub out: Slot,
    pub event: Option<Event>,
}

/// What a run of slots makes of the mixer.
pub struct Run {
    pub end: MixerView,
    pub slots: Seq<Slot>,
    pub events: Seq<Event>,
}

/// A rendered chunk: one instruction per output sample, and the events raised
/// on the way.
pub struct RenderedChunk {
    pub slots: Vec<Slot>,
    pub events: Vec<Event>,
}

impl Feed {
    pub open spec fn deck(self, id: DeckId) -> DeckView {
        match id {
            DeckId::A => self.a,
            DeckId::B => self.b,
        }
    }

    /// Each side is what draining could have made of the mixer's deck.
    pub open spec fn follows(self, m: MixerView) -> bool {
        &&& m.a.fed(self.a)
        &&& m.b.fed(self.b)
    }
}

impl MixerView {
    /// The active deck's running dry may be answered by a rewind or a switch:
    /// nothing else is under way and playback is on.
    pub open spec fn recovery_allowed(self) -> bool {
        &&& !self.st.crossfading
        &&& self.st.pending_transition is None
        &&& self.st.auto_gapless_stall is None
        &&& self.st.is_playing
    }

    /// The mixer at the start of a chunk: where proactive crossfade is on and
    /// not yet triggered, the active deck is in its tail and the other deck is
    /// ready, a crossfade to the other deck begins.
    pub open spec fn proactive(self) -> (MixerView, Option<Event>) {
        let active = self.st.active_deck;
        let other = active.other();
        if !self.st.crossfading && !self.st.proactive_crossfade_triggered && self.st.is_playing
            && self.st.proactive_crossfade_enabled && self.deck(active).samples.len()
            < TAIL_THRESHOLD && self.deck(other).ready() {
            let m = self.fading_to(other, AUTO_CROSSFADE_SAMPLES);
            (
                MixerView { st: MixState { proactive_crossfade_triggered: true, ..m.st }, ..m },
                Some(Event::CrossfadeStarted { from: active, to: other }),
            )
        } else {
            (self, None)
        }
    }

    /// The mixer with the marks of the previous chunk wiped.
    pub open spec fn chunk_begun(self) -> MixerView {
        MixerView {
            st: MixState {
                mid_chunk_auto_switch: None,
                mid_chunk_loop_restart: false,
                ..self.st
            },
            ..self
        }
    }

    /// A crossfade slot while the target has nothing queued: the source alone
    /// is played at full amplitude and the fade does not advance.
    pub open spec fn source_only_slot(self, f: Feed) -> SlotStep {
        let source = self.st.active_deck;
        let (d, s) = f.deck(source).take();
        SlotStep { next: self.with_deck(source, d), out: Slot::Direct(or_silence(s)), event: None }
    }

    /// The fade advances by one, the decks having given `sa` and `sb`. With
    /// the last step the target becomes the active deck, counting from zero,
    /// and the latches of the deck left behind go down.
    pub open spec fn fade_advanced(self, sa: Option<i16>, sb: Option<i16>) -> SlotStep {
        let source = self.st.active_deck;
        let target = self.st.target_deck;
        let of_source = or_silence(if source == DeckId::A { sa } else { sb });
        let of_target = or_silence(if target == DeckId::A { sa } else { sb });
        let left = self.st.crossfade_left;
        let total = self.st.crossfade_total;
        if left <= 1 {
            let m = MixerView {
                st: MixState {
                    crossfading: false,
                    proactive_crossfade_triggered: false,
                    crossfade_left: 0,
                    ..self.st
                },
                ..self
            };
            SlotStep {
                next: m.with_latches(source, cleared()).switched_to(target),
                out: Slot::Mixed { source: of_target, target: of_target, left, total, last: true },
                event: Some(
                    Event::DeckChanged { deck: target, trigger: Trigger::CrossfadeCompletion },
                ),
            }
        } else {
            SlotStep {
                next: MixerView {
                    st: MixState { crossfade_left: (left - 1) as usize, ..self.st },
                    ..self
                },
                out: Slot::Mixed { source: of_source, target: of_target, left, total, last: false },
                event: None,
            }
        }
    }

    /// A crossfade slot that mixes: both decks give a sample and the fade
    /// advances by one.
    pub open spec fn mixed_slot(self, f: Feed) -> SlotStep {
        let (da, sa) = f.a.take();
        let (db, sb) = f.b.take();
        (MixerView { a: da, b: db, st: self.st }).fade_advanced(sa, sb)
    }

    /// A slot during a crossfade.
    pub open spec fn crossfade_slot(self, f: Feed) -> SlotStep {
        if !self.deck(self.st.target_deck).has_audio() {
            self.source_only_slot(f)
        } else {
            self.mixed_slot(f)
        }
    }

    /// The active deck, having just given no sample, may be followed at once:
    /// recovery is allowed, the deck has run dry after playing long enough,
    /// and no deck took over earlier in this chunk.
    pub open spec fn may_recover(self) -> bool {
        let d = self.deck(self.st.active_deck);
        &&& self.recovery_allowed()
        &&& d.exhausted()
        &&& d.samples_played >= MIN_PLAYED_FOR_END
        &&& self.st.mid_chunk_auto_switch is None
    }

    /// The slot in which loop mode rewinds the active deck: it plays the
    /// deck's first sample again.
    pub open spec fn rewound_slot(self) -> SlotStep {
        let active = self.st.active_deck;
        let (d, s) = self.deck(active).restarted().take();
        let l = self.latches(active);
        let m = self.with_latches(active, Latches { approaching_end_sent: false, ..l });
        SlotStep {
            next: MixerView {
                st: MixState { mid_chunk_loop_restart: true, ..m.st },
                ..m
            }.with_deck(active, d),
            out: Slot::Direct(or_silence(s)),
            event: None,
        }
    }

    /// The slot in which the other deck takes over from the active one: the
    /// old deck is discarded and the slot plays the first sample of the new.
    pub open spec fn takeover_slot(self, f: Feed) -> SlotStep {
        let active = self.st.active_deck;
        let other = active.other();
        let m = self.with_deck_discarded(active, false).switched_to(other);
        let (d, s) = f.deck(other).replayed_from_zero().take();
        SlotStep {
            next: MixerView {
                st: MixState { mid_chunk_auto_switch: Some(other), ..m.st },
                ..m
            }.with_deck(other, d),
            out: Slot::Direct(or_silence(s)),
            event: None,
        }
    }

    /// What follows when the active deck gave no sample: loop mode rewinds it,
    /// otherwise the other deck takes over if it has anything queued; without
    /// either, or where recovery is not due, the slot is silent.
    pub open spec fn dry_slot(self, f: Feed) -> SlotStep {
        if !self.may_recover() {
            SlotStep { next: self, out: Slot::Direct(0), event: None }
        } else if self.st.loop_mode {
            self.rewound_slot()
        } else if self.deck(self.st.active_deck.other()).has_audio() {
            self.takeover_slot(f)
        } else {
            SlotStep { next: self, out: Slot::Direct(0), event: None }
        }
    }

    /// A slot outside a crossfade: the active deck gives the sample, and where
    /// it gives none, what `dry_slot` says follows.
    pub open spec fn direct_slot(self, f: Feed) -> SlotStep {
        let active = self.st.active_deck;
        let (d, s) = f.deck(active).take();
        let m = self.with_deck(active, d);
        match s {
            Some(s) => SlotStep { next: m, out: Slot::Direct(s), event: None },
            None => m.dry_slot(f),
        }
    }

    /// One slot, given what draining finds on the decks it drains.
    pub open spec fn slot_step(self, f: Feed) -> SlotStep {
        if self.st.crossfading {
            self.crossfade_slot(f)
        } else {
            self.direct_slot(f)
        }
    }

    /// Slot after slot, one for each feed.
    pub open spec fn run_slots(self, feeds: Seq<Feed>) -> Run
        decreases feeds.len(),
    {
        if feeds.len() == 0 {
            Run { end: self, slots: Seq::empty(), events: Seq::empty() }
        } else {
            let before = self.run_slots(feeds.drop_last());
            let step = before.end.slot_step(feeds.last());
            Run {
                end: step.next,
                slots: before.slots.push(step.out),
                events: match step.event {
                    Some(e) => before.events.push(e),
                    None => before.events,
                },
            }
        }
    }

    /// Each feed is what draining could have made of the decks as the slots
    /// before it left them.
    pub open spec fn feeds_follow(self, feeds: Seq<Feed>) -> bool
        decreases feeds.len(),
    {
        feeds.len() > 0 ==> {
            &&& self.feeds_follow(feeds.drop_last())
            &&& feeds.last().follows(self.run_slots(feeds.drop_last()).end)
        }
    }

    /// A whole chunk: the proactive trigger, then one slot per feed.
    pub open spec fn chunk(self, feeds: Seq<Feed>) -> Run {
        let (m, started) = self.proactive();
        let run = m.chunk_begun().run_slots(feeds);
        Run {
            events: match started {
                Some(e) => seq![e] + run.events,
                None => run.events,
            },
            ..run
        }
    }
}

/// Whether a deck's played counter is zeroed before or after its channel is
/// drained makes no difference.
pub proof fn lemma_fed_keeps_played(d: DeckView, polled: DeckView)
    requires
        d.replayed_from_zero().fed(polled),
    ensures
        d.fed(DeckView { samples_played: d.samples_played, ..polled }),
        (DeckView { samples_played: d.samples_played, ..polled }).replayed_from_zero() == polled,
{
    reveal(DeckView::fed);
    let p = DeckView { samples_played: d.samples_played, ..polled };
    assert(d.arrived(p) == d.replayed_from_zero().arrived(polled));
}

impl Mixer {
    /// A crossfade slot played from the source alone.
    fn render_source_only(&mut self) -> (out: (Slot, Option<Event>, Ghost<Feed>))
        requires
            old(self).wf(),
            old(self)@.headroom(1),
        ensures
            final(self).wf(),
            out.2@.follows(old(self)@),
            old(self)@.source_only_slot(out.2@) == (SlotStep {
                next: final(self)@,
                out: out.0,
                event: out.1,
            }),
            final(self)@.a.total_samples_read <= old(self)@.a.total_samples_read + 1,
            final(self)@.b.total_samples_read <= old(self)@.b.total_samples_read + 1,
    {
        let ghost m = self@;
        proof {
            lemma_fed_reflexive(m.a);
            lemma_fed_reflexive(m.b);
        }
        let active = self.st.active_deck;
        let (s, polled) = self.pull(active);
        let ghost f = match active {
            DeckId::A => Feed { a: polled@, b: m.b },
            DeckId::B => Feed { a: m.a, b: polled@ },
        };
        (Slot::Direct(sample_or_silence(s)), None, Ghost(f))
    }

    /// Advances the fade by one step, the decks having given `sa` and `sb`.
    fn advance_fade(&mut self, sa: Option<i16>, sb: Option<i16>) -> (out: (Slot, Option<Event>))
        requires
            old(self).wf(),
        ensures
            final(self).wf(),
            old(self)@.fade_advanced(sa, sb) == (SlotStep {
                next: final(self)@,
                out: out.0,
                event: out.1,
            }),
            final(self)@.a.total_samples_read == old(self)@.a.total_samples_read,
            final(self)@.b.total_samples_read == old(self)@.b.total_samples_read,
    {
        let active = self.st.active_deck;
        let target = self.st.target_deck;
        let left = self.st.crossfade_left;
        let total = self.st.crossfade_total;
        let of_target = sample_or_silence(if target == DeckId::A { sa } else { sb });
        if left <= 1 {
            self.st.crossfade_left = 0;
            self.st.crossfading = false;
            self.st.proactive_crossfade_triggered = false;
            self.set_latches(
                active,
                Latches { buffer_prev_ready: false, end_sent: false, approaching_end_sent: false },
            );
            self.switch_to(target);
            (
                Slot::Mixed { source: of_target, target: of_target, left, total, last: true },
                Some(Event::DeckChanged { deck: target, trigger: Trigger::CrossfadeCompletion }),
            )
        } else {
            self.st.crossfade_left = left - 1;
            let of_source = sample_or_silence(if active == DeckId::A { sa } else { sb });
            (Slot::Mixed { source: of_source, target: of_target, left, total, last: false }, None)
        }
    }

    /// A crossfade slot that mixes both decks.
    fn render_mixed(&mut self) -> (out: (Slot, Option<Event>, Ghost<Feed>))
        requires
            old(self).wf(),
            old(self)@.headroom(1),
        ensures
            final(self).wf(),
            out.2@.follows(old(self)@),
            old(self)@.mixed_slot(out.2@) == (SlotStep {
                next: final(self)@,
                out: out.0,
                event: out.1,
            }),
            final(self)@.a.total_samples_read <= old(self)@.a.total_samples_read + 1,
            final(self)@.b.total_samples_read <= old(self)@.b.total_samples_read + 1,
    {
        let (sa, polled_a) = self.pull(DeckId::A);
        let (sb, polled_b) = self.pull(DeckId::B);
        let ghost f = Feed { a: polled_a@, b: polled_b@ };
        let (slot, event) = self.advance_fade(sa, sb);
        (slot, event, Ghost(f))
    }

    /// The slot in which loop mode rewinds the active deck.
    fn render_rewound(&mut self) -> (out: Slot)
        requires
            old(self).wf(),
            !old(self)@.deck(old(self)@.st.active_deck).attached,
        ensures
            final(self).wf(),
            old(self)@.rewound_slot() == (SlotStep { next: final(self)@, out, event: None }),
            final(self)@.deck(old(self)@.st.active_deck).total_samples_read <= 1,
            final(self)@.deck(old(self)@.st.active_deck.other()) == old(self)@.deck(
                old(self)@.st.active_deck.other(),
            ),
    {
        let active = self.st.active_deck;
        self.rewind(active);
        let l = self.latches(active);
        self.set_latches(
            active,
            Latches {
                buffer_prev_ready: l.buffer_prev_ready,
                end_sent: l.end_sent,
                approaching_end_sent: false,
            },
        );
        self.st.mid_chunk_loop_restart = true;
        let ghost rewound = self@.deck(active);
        let (s, polled) = self.pull(active);
        assert(polled@ == rewound) by {
            reveal(DeckView::fed);
        }
        Slot::Direct(sample_or_silence(s))
    }

    /// The slot in which the other deck takes over. Also names what draining
    /// found on that deck.
    fn render_takeover(&mut self) -> (out: (Slot, Ghost<DeckView>))
        requires
            old(self).wf(),
            old(self)@.headroom(1),
        ensures
            final(self).wf(),
            old(self)@.deck(old(self)@.st.active_deck.other()).fed(out.1@),
            forall|f: Feed|
                f.deck(old(self)@.st.active_deck.other()) == out.1@ ==> #[trigger] old(
                    self,
                )@.takeover_slot(f) == (SlotStep { next: final(self)@, out: out.0, event: None }),
            final(self)@.a.total_samples_read <= old(self)@.a.total_samples_read + 1,
            final(self)@.b.total_samples_read <= old(self)@.b.total_samples_read + 1,
    {
        let ghost m = self@;
        let active = self.st.active_deck;
        let other = active.other();
        self.discard_deck(active, false);
        self.switch_to(other);
        self.st.mid_chunk_auto_switch = Some(other);
        let (s, polled) = self.pull(other);
        let ghost fed_other = DeckView {
            samples_played: m.deck(other).samples_played,
            ..polled@
        };
        proof {
            lemma_fed_keeps_played(m.deck(other), polled@);
        }
        (Slot::Direct(sample_or_silence(s)), Ghost(fed_other))
    }

    /// Whether the active deck, having given no sample, may be followed at
    /// once.
    fn may_recover(&self) -> (due: bool)
        ensures
            due == self@.may_recover(),
    {
        let active = self.st.active_deck;
        let allowed = !self.st.crossfading && self.st.pending_transition.is_none()
            && self.st.auto_gapless_stall.is_none() && self.st.is_playing;
        let dry = self.deck(active).has_ended && self.deck(active).receiver.is_none();
        let played_enough = self.deck(active).samples_played >= MIN_PLAYED_FOR_END;
        allowed && dry && played_enough && self.st.mid_chunk_auto_switch.is_none()
    }

    /// A slot outside a crossfade.
    fn render_direct(&mut self) -> (out: (Slot, Option<Event>, Ghost<Feed>))
        requires
            old(self).wf(),
            old(self)@.headroom(1),
        ensures
            final(self).wf(),
            out.2@.follows(old(self)@),
            old(self)@.direct_slot(out.2@) == (SlotStep {
                next: final(self)@,
                out: out.0,
                event: out.1,
            }),
            final(self)@.a.total_samples_read <= old(self)@.a.total_samples_read + 1,
            final(self)@.b.total_samples_read <= old(self)@.b.total_samples_read + 1,
    {
        let ghost m = self@;
        proof {
            lemma_fed_reflexive(m.a);
            lemma_fed_reflexive(m.b);
        }
        let active = self.st.active_deck;
        let other = active.other();
        let (s1, polled) = self.pull(active);
        let ghost f1 = match active {
            DeckId::A => Feed { a: polled@, b: m.b },
            DeckId::B => Feed { a: m.a, b: polled@ },
        };
        match s1 {
            Some(s) => (Slot::Direct(s), None, Ghost(f1)),
            None => {
                if !self.may_recover() {
                    (Slot::Direct(0), None, Ghost(f1))
                } else if self.st.loop_mode {
                    let slot = self.render_rewound();
                    (slot, None, Ghost(f1))
                } else if self.queued(other) > 0 {
                    let (slot, fed_other) = self.render_takeover();
                    let ghost f2 = match active {
                        DeckId::A => Feed { a: polled@, b: fed_other@ },
                        DeckId::B => Feed { a: fed_other@, b: polled@ },
                    };
                    (slot, None, Ghost(f2))
                } else {
                    (Slot::Direct(0), None, Ghost(f1))
                }
            },
        }
    }

    /// Renders one slot. Also names what draining found.
    pub(crate) fn render_slot(&mut self) -> (out: (Slot, Option<Event>, Ghost<Feed>))
        requires
            old(self).wf(),
            old(self)@.headroom(1),
        ensures
            final(self).wf(),
            out.2@.follows(old(self)@),
            old(self)@.slot_step(out.2@) == (SlotStep {
                next: final(self)@,
                out: out.0,
                event: out.1,
            }),
            final(self)@.a.total_samples_read <= old(self)@.a.total_samples_read + 1,
            final(self)@.b.total_samples_read <= old(self)@.b.total_samples_read + 1,
    {
        if self.st.crossfading {
            if self.queued(self.st.target_deck) == 0 {
                self.render_source_only()
            } else {
                self.render_mixed()
            }
        } else {
            self.render_direct()
        }
    }

    /// Whether the read counters of both decks can take one more chunk.
    pub fn can_render(&self) -> (yes: bool)
        ensures
            yes == self@.headroom(CHUNK_SIZE as nat),
    {
        self.deck_a.total_samples_read <= usize::MAX - CHUNK_SIZE
            && self.deck_b.total_samples_read <= usize::MAX - CHUNK_SIZE
    }

    /// Renders one chunk: starts a proactive crossfade where one is due, then
    /// fills every slot of the chunk from the decks.
    pub fn render_chunk(&mut self) -> (chunk: RenderedChunk)
        requires
            old(self).wf(),
            old(self)@.headroom(CHUNK_SIZE as nat),
        ensures
            final(self).wf(),
            chunk.slots@.len() == CHUNK_SIZE,
            exists|feeds: Seq<Feed>|
                {
                    &&& feeds.len() == CHUNK_SIZE
                    &&& old(self)@.proactive().0.chunk_begun().feeds_follow(feeds)
                    &&& #[trigger] old(self)@.chunk(feeds) == (Run {
                        end: final(self)@,
                        slots: chunk.slots@,
                        events: chunk.events@,
                    })
                },
    {
        let mut events: Vec<Event> = Vec::new();
        let mut slots: Vec<Slot> = Vec::new();
        let active = self.st.active_deck;
        let other = active.other();
        if !self.st.crossfading && !self.st.proactive_crossfade_triggered && self.st.is_playing
            && self.st.proactive_crossfade_enabled && self.queued(active) < TAIL_THRESHOLD
            && self.deck(other).is_ready_for_crossfade() {
            self.st.crossfading = true;
            self.st.target_deck = other;
            self.st.crossfade_total = AUTO_CROSSFADE_SAMPLES;
            self.st.crossfade_left = AUTO_CROSSFADE_SAMPLES;
            self.st.proactive_crossfade_triggered = true;
            events.push(Event::CrossfadeStarted { from: active, to: other });
        }
        self.st.mid_chunk_auto_switch = None;
        self.st.mid_chunk_loop_restart = false;
        let ghost start = self@;
        let ghost head = events@;
        let ghost mut feeds: Seq<Feed> = Seq::empty();
        assert(start == old(self)@.proactive().0.chunk_begun());
        let mut i: usize = 0;
        while i < CHUNK_SIZE
            invariant
                i <= CHUNK_SIZE,
                self.wf(),
                self@.a.total_samples_read + (CHUNK_SIZE - i) <= usize::MAX,
                self@.b.total_samples_read + (CHUNK_SIZE - i) <= usize::MAX,
                feeds.len() == i,
                start.feeds_follow(feeds),
                start.run_slots(feeds).end == self@,
                start.run_slots(feeds).slots == slots@,
                head + start.run_slots(feeds).events == events@,
                slots@.len() == i,
            decreases CHUNK_SIZE - i,
        {
            let (slot, event, feed) = self.render_slot();
            proof {
                let longer = feeds.push(feed@);
                assert(longer.drop_last() =~= feeds);
                assert(longer.last() == feed@);
                feeds = longer;
            }
            slots.push(slot);
            match event {
                Some(e) => {
                    events.push(e);
                    assert(head + start.run_slots(feeds).events =~= events@);
                },
                None => {},
            }
            i = i + 1;
        }
        proof {
            let run = old(self)@.chunk(feeds);
            assert(run.events =~= events@);
        }
        RenderedChunk { slots, events }
    }
}

} // verus!
