//! What holds of the mixer whatever it is fed: properties of the deck
//! counters, of the latches and of the order of events, and the length of a
//! crossfade.

use vstd::prelude::*;
use crate::command::InputCommand;
use crate::deck::{DeckId, DeckView};
use crate::event::{Event, Trigger};
use crate::model::{cleared, Feed, MixerView, Slot};
use crate::params::{CHUNK_SIZE, TAIL_THRESHOLD};
use crate::pcm::bytes_of;

verus! {

/// A consistent deck never has played more than it has read, never has more
/// queued than it has received, and has not ended while a decoder is
/// attached.
pub proof fn law_deck_invariants(d: DeckView)
    requires
        d.wf(),
    ensures
        d.samples_played <= d.total_samples_read,
        d.samples.len() <= d.full_samples.len(),
        d.samples_played + d.samples.len() <= d.full_samples.len(),
        d.buffer_level == d.samples.len(),
        d.attached ==> !d.has_ended,
{
    reveal(DeckView::wf);
}

/// Neither draining the channel nor taking a sample lowers the played
/// counter, and taking a sample raises it by one exactly when a queued sample
/// is played.
pub proof fn law_played_never_falls(d: DeckView, polled: DeckView)
    requires
        d.fed(polled),
    ensures
        polled.samples_played == d.samples_played,
        polled.take().0.samples_played >= d.samples_played,
        polled.take().0.samples_played == d.samples_played + (if polled.has_audio() {
            1nat
        } else {
            0nat
        }),
{
    reveal(DeckView::fed);
}

/// A load, a rewind, and becoming the active deck each put the played
/// counter back to zero.
pub proof fn law_played_resets(m: MixerView, deck: DeckId, now: u64)
    ensures
        m.deck(deck).loaded(now).samples_played == 0,
        m.deck(deck).restarted().samples_played == 0,
        m.switched_to(deck).deck(deck).samples_played == 0,
{
}

/// The commands `load`, `play` and `restart_deck` leave the named deck with
/// a played counter of zero.
pub proof fn law_commands_reset_played(m: MixerView, cmd: InputCommand, now: u64)
    ensures
        match cmd {
            InputCommand::Load { deck, .. } => m.command_applied(cmd, now).deck(
                deck,
            ).samples_played == 0,
            InputCommand::Play { deck } => m.command_applied(cmd, now).deck(deck).samples_played
                == 0,
            InputCommand::RestartDeck { deck } => m.command_applied(cmd, now).deck(
                deck,
            ).samples_played == 0,
            _ => true,
        },
{
}

/// After `restart_deck`, the whole history of the deck is queued again.
pub proof fn law_restart_requeues_history(m: MixerView, deck: DeckId, now: u64)
    ensures
        ({
            let after = m.command_applied(InputCommand::RestartDeck { deck }, now).deck(deck);
            &&& after.samples == after.full_samples
            &&& after.full_samples == m.deck(deck).full_samples
            &&& after.samples_played == 0
        }),
{
}

/// After `stop_deck`, every latch of the deck is down, and the deck has no
/// decoder and nothing queued or kept.
pub proof fn law_stop_clears_deck(m: MixerView, deck: DeckId, now: u64)
    ensures
        ({
            let after = m.command_applied(InputCommand::StopDeck { deck }, now);
            &&& after.latches(deck) == cleared()
            &&& !after.deck(deck).approaching_end_sent
            &&& !after.deck(deck).attached
            &&& !after.deck(deck).has_ended
            &&& after.deck(deck).samples.len() == 0
            &&& after.deck(deck).full_samples.len() == 0
        }),
{
}

/// A run of slots gives one output slot for each of its feeds.
pub proof fn law_one_slot_per_feed(m: MixerView, feeds: Seq<Feed>)
    ensures
        m.run_slots(feeds).slots.len() == feeds.len(),
    decreases feeds.len(),
{
    if feeds.len() > 0 {
        law_one_slot_per_feed(m, feeds.drop_last());
    }
}

/// A chunk rendered from 960 feeds has 960 slots, and the samples of 960
/// slots make 1920 bytes.
pub proof fn law_chunk_size(m: MixerView, feeds: Seq<Feed>, pcm: Seq<i16>)
    requires
        feeds.len() == CHUNK_SIZE,
        pcm.len() == CHUNK_SIZE,
    ensures
        m.chunk(feeds).slots.len() == 960,
        bytes_of(pcm).len() == 1920,
{
    law_one_slot_per_feed(m.proactive().0.chunk_begun(), feeds);
}

/// During the slots of `feeds`, the target of the crossfade that `m` is in
/// always has something queued.
pub open spec fn target_never_starved(m: MixerView, feeds: Seq<Feed>) -> bool
    decreases feeds.len(),
{
    feeds.len() > 0 ==> {
        &&& target_never_starved(m, feeds.drop_last())
        &&& m.run_slots(feeds.drop_last()).end.deck(m.st.target_deck).has_audio()
    }
}

/// A crossfade with `left` steps to go takes exactly `left` slots, as long
/// as its target never runs out: each of these slots mixes both decks, the
/// crossfade is still under way after every slot but the last, and the last
/// slot, marked as such, makes the target the active deck. So a crossfade
/// that begins with a total of N >= 1 produces exactly N mixed samples.
pub proof fn law_crossfade_length(m: MixerView, feeds: Seq<Feed>)
    requires
        m.st.crossfading,
        m.st.crossfade_left >= 1,
        feeds.len() <= m.st.crossfade_left,
        target_never_starved(m, feeds),
    ensures
        ({
            let run = m.run_slots(feeds);
            let left = m.st.crossfade_left;
            &&& run.slots.len() == feeds.len()
            &&& forall|i: int|
                0 <= i < feeds.len() ==> {
                    &&& #[trigger] run.slots[i] is Mixed
                    &&& run.slots[i]->left == left - i
                    &&& run.slots[i]->total == m.st.crossfade_total
                    &&& run.slots[i]->last == (i == left - 1)
                }
            &&& run.end.st.target_deck == m.st.target_deck
            &&& feeds.len() < left ==> {
                &&& run.end.st.crossfading
                &&& run.end.st.crossfade_left == left - feeds.len()
                &&& run.end.st.crossfade_total == m.st.crossfade_total
                &&& run.end.st.active_deck == m.st.active_deck
            }
            &&& feeds.len() == left ==> {
                &&& !run.end.st.crossfading
                &&& run.end.st.active_deck == m.st.target_deck
                &&& run.end.deck(m.st.target_deck).samples_played == 0
                &&& run.events.len() > 0
                &&& run.events.last() == (Event::DeckChanged {
                    deck: m.st.target_deck,
                    trigger: Trigger::CrossfadeCompletion,
                })
            }
        }),
    decreases feeds.len(),
{
    if feeds.len() > 0 {
        let shorter = feeds.drop_last();
        law_crossfade_length(m, shorter);
        let before = m.run_slots(shorter);
        let step = before.end.slot_step(feeds.last());
        assert(before.end.st.crossfading);
        assert(step == before.end.mixed_slot(feeds.last()));
    }
}

/// A crossfade slot in which the target has nothing queued plays the source
/// alone, at full amplitude, and leaves the crossfade where it was.
pub proof fn law_starved_slot_keeps_fade(m: MixerView, f: Feed)
    requires
        m.st.crossfading,
        !m.deck(m.st.target_deck).has_audio(),
    ensures
        ({
            let step = m.slot_step(f);
            let source = f.deck(m.st.active_deck);
            &&& step.next.st == m.st
            &&& step.event is None
            &&& source.has_audio() ==> step.out == Slot::Direct(source.samples[0])
            &&& step.next.deck(m.st.target_deck.other()) == if m.st.active_deck
                == m.st.target_deck {
                m.deck(m.st.target_deck.other())
            } else {
                source.take().0
            }
        }),
{
}

/// If the event at `i` reports that the mixer moved on by itself, the next
/// event is the change of the active deck to the same deck.
pub open spec fn paired_at(events: Seq<Event>, i: int) -> bool {
    events[i] is AutoEndSwitch ==> {
        &&& i + 1 < events.len()
        &&& events[i + 1] is DeckChanged
        &&& events[i + 1]->deck == events[i]->AutoEndSwitch_0
    }
}

/// Every report that the mixer moved on by itself is followed at once by
/// the change of the active deck to the same deck.
pub open spec fn switches_paired(events: Seq<Event>) -> bool {
    forall|i: int| 0 <= i < events.len() ==> #[trigger] paired_at(events, i)
}

/// Two runs of events in which every automatic switch is paired are paired
/// when put together.
pub proof fn lemma_paired_concat(a: Seq<Event>, b: Seq<Event>)
    requires
        switches_paired(a),
        switches_paired(b),
    ensures
        switches_paired(a + b),
{
    let c = a + b;
    assert forall|i: int| 0 <= i < c.len() implies #[trigger] paired_at(c, i) by {
        if i < a.len() {
            assert(paired_at(a, i));
            assert(c[i] == a[i]);
            if a[i] is AutoEndSwitch {
                assert(c[i + 1] == a[i + 1]);
            }
        } else {
            assert(paired_at(b, i - a.len()));
            assert(c[i] == b[i - a.len()]);
            if c[i] is AutoEndSwitch {
                assert(c[i + 1] == b[i - a.len() + 1]);
            }
        }
    }
}

/// No slot reports an automatic switch: a takeover inside a chunk is
/// reported when the chunk is finished.
pub proof fn law_slots_raise_no_switch(m: MixerView, feeds: Seq<Feed>)
    ensures
        forall|i: int|
            0 <= i < m.run_slots(feeds).events.len() ==> (#[trigger] m.run_slots(
                feeds,
            ).events[i]) is DeckChanged,
    decreases feeds.len(),
{
    if feeds.len() > 0 {
        law_slots_raise_no_switch(m, feeds.drop_last());
    }
}

/// Events among which none reports an automatic switch are paired.
pub proof fn lemma_paired_without_switch(events: Seq<Event>)
    requires
        forall|i: int| 0 <= i < events.len() ==> !((#[trigger] events[i]) is AutoEndSwitch),
    ensures
        switches_paired(events),
{
    assert forall|i: int| 0 <= i < events.len() implies #[trigger] paired_at(events, i) by {
        assert(!(events[i] is AutoEndSwitch));
    }
}

/// An automatic switch followed by the change to the same deck is paired.
pub proof fn lemma_paired_switch(deck: DeckId, trigger: Trigger)
    ensures
        switches_paired(seq![Event::AutoEndSwitch(deck), Event::DeckChanged { deck, trigger }]),
{
    let events = seq![Event::AutoEndSwitch(deck), Event::DeckChanged { deck, trigger }];
    assert forall|i: int| 0 <= i < events.len() implies #[trigger] paired_at(events, i) by {
        assert(events[0] is AutoEndSwitch);
        assert(events[1] is DeckChanged);
    }
}

/// In the events of a command, every automatic switch is paired: a command
/// raises none.
pub proof fn law_command_switches_paired(m: MixerView, cmd: InputCommand)
    ensures
        switches_paired(m.command_events(cmd)),
{
    lemma_paired_without_switch(m.command_events(cmd));
}

/// In the events of the preparation of an iteration, a report that the
/// mixer moved on by itself is followed at once by the change of the active
/// deck to the same deck.
pub proof fn law_prepared_switches_paired(m: MixerView, now: u64)
    ensures
        switches_paired(m.prepared(now).1),
{
    let (m1, e1) = m.stall_resolved(now);
    let (m2, e2) = m1.pending_resolved(now);
    let (m3, e3) = m2.readiness_sampled();
    assert(switches_paired(e1)) by {
        match m.st.auto_gapless_stall {
            Some(stall) => {
                if m.deck(stall.target).has_audio() {
                    lemma_paired_switch(stall.target, Trigger::AutoGaplessStall);
                } else {
                    lemma_paired_without_switch(e1);
                }
            },
            None => {
                lemma_paired_without_switch(e1);
            },
        }
    }
    lemma_paired_without_switch(e2);
    lemma_paired_without_switch(e3);
    lemma_paired_concat(e1, e2);
    lemma_paired_concat(e1 + e2, e3);
}

/// In the events of a chunk, every automatic switch is paired: rendering
/// raises none, a takeover inside the chunk being reported afterwards.
pub proof fn law_chunk_switches_paired(m: MixerView, feeds: Seq<Feed>)
    ensures
        switches_paired(m.chunk(feeds).events),
{
    let (p, started) = m.proactive();
    let run = p.chunk_begun().run_slots(feeds);
    law_slots_raise_no_switch(p.chunk_begun(), feeds);
    lemma_paired_without_switch(run.events);
    match started {
        Some(e) => {
            lemma_paired_without_switch(seq![e]);
            lemma_paired_concat(seq![e], run.events);
        },
        None => {},
    }
}

/// In the events at the end of an iteration, a report that the mixer moved
/// on by itself is followed at once by the change of the active deck to the
/// same deck.
pub proof fn law_finished_switches_paired(m: MixerView, has_audio: bool, now: u64)
    ensures
        switches_paired(m.finished(has_audio, now).1),
{
    let (m1, e1) = m.approaching_checked();
    let (m2, e2) = m1.settled(has_audio, now);
    lemma_paired_without_switch(e1);
    assert(switches_paired(e2)) by {
        if m1.mid_chunk_marked() {
            match m1.st.mid_chunk_auto_switch {
                Some(deck) => {
                    if m1.st.mid_chunk_loop_restart {
                        lemma_paired_without_switch(e2);
                    } else {
                        lemma_paired_switch(deck, Trigger::MidChunkAutoGapless);
                    }
                },
                None => {
                    lemma_paired_without_switch(e2);
                },
            }
        } else if m1.end_due(has_audio) {
            let other = m1.st.active_deck.other();
            if !m1.st.loop_mode && m1.deck(other).has_audio() {
                lemma_paired_switch(other, Trigger::AutoGapless);
            } else {
                lemma_paired_without_switch(e2);
            }
        } else {
            lemma_paired_without_switch(e2);
        }
    }
    lemma_paired_concat(e1, e2);
}

/// The sampling of readiness reports a deck only when the deck is not
/// active, is ready, and was not ready when last sampled; it reports at most
/// one deck, and leaves each latch at the readiness it found. So a deck that
/// stays ready is reported once.
pub proof fn law_ready_reported_on_edge(m: MixerView, id: DeckId)
    ensures
        m.ready_reports().len() <= 1,
        m.ready_reports().contains(Event::BufferReady(id)) <==> m.newly_ready(id),
        m.st.buffer_monitor_counter + 1 >= 5 ==> m.readiness_sampled().0.latches(
            id,
        ).buffer_prev_ready == m.deck(id).ready(),
        m.latches(id).buffer_prev_ready ==> !m.readiness_sampled().1.contains(
            Event::BufferReady(id),
        ),
{
    let r = m.ready_reports();
    if r.len() > 0 {
        assert(r[0] == r[0]);
    }
    if m.newly_ready(id) {
        assert(r[0] == Event::BufferReady(id));
    }
}

/// The warning that a deck is about to end is given only while the deck's
/// latch is down, and raises the latch: until a load, a stop, a rewind or the
/// end of a crossfade lowers it again, the warning is not repeated.
pub proof fn law_approaching_warned_once(m: MixerView, id: DeckId, has_audio: bool, now: u64)
    ensures
        m.approaching_checked().1.contains(Event::ApproachingEnd(id)) ==> {
            &&& id == m.st.active_deck
            &&& !m.latches(id).approaching_end_sent
            &&& m.approaching_checked().0.latches(id).approaching_end_sent
        },
        m.latches(id).approaching_end_sent ==> !m.finished(has_audio, now).1.contains(
            Event::ApproachingEnd(id),
        ),
{
    let (m1, e1) = m.approaching_checked();
    let (m2, e2) = m1.settled(has_audio, now);
    if e1.len() > 0 {
        assert(e1[0] == Event::ApproachingEnd(m.st.active_deck));
    }
    if m.latches(id).approaching_end_sent {
        let all = e1 + e2;
        if all.contains(Event::ApproachingEnd(id)) {
            let i = choose|i: int| 0 <= i < all.len() && all[i] == Event::ApproachingEnd(id);
            if i < e1.len() {
                assert(all[i] == e1[i]);
            } else {
                assert(all[i] == e2[i - e1.len()]);
            }
        }
    }
}

/// Where the end of a deck is reported after a chunk, and the deck had less
/// than the tail threshold queued, the warning that the deck was about to end
/// was given before: earlier, as the latch shows, or in the same step.
pub proof fn law_end_follows_warning(m: MixerView, has_audio: bool, now: u64)
    requires
        m.deck(m.st.active_deck).samples.len() < TAIL_THRESHOLD,
        m.finished(has_audio, now).1.contains(Event::End(m.st.active_deck)),
    ensures
        m.latches(m.st.active_deck).approaching_end_sent || m.finished(has_audio, now).1[0]
            == Event::ApproachingEnd(m.st.active_deck),
        m.finished(has_audio, now).0.latches(m.st.active_deck).approaching_end_sent,
        m.finished(has_audio, now).0.latches(m.st.active_deck).end_sent,
{
    let active = m.st.active_deck;
    let (m1, e1) = m.approaching_checked();
    let (m2, e2) = m1.settled(has_audio, now);
    let all = e1 + e2;
    let i = choose|i: int| 0 <= i < all.len() && all[i] == Event::End(active);
    if i < e1.len() {
        assert(all[i] == e1[i]);
    } else {
        assert(all[i] == e2[i - e1.len()]);
    }
    if e1.len() > 0 {
        assert(all[0] == e1[0]);
    }
}

/// The end of a deck is not reported again after a chunk while the deck's
/// end latch is up.
pub proof fn law_end_not_repeated(m: MixerView, deck: DeckId, has_audio: bool, now: u64)
    requires
        m.latches(deck).end_sent,
    ensures
        !m.finished(has_audio, now).1.contains(Event::End(deck)),
{
    let (m1, e1) = m.approaching_checked();
    let (m2, e2) = m1.settled(has_audio, now);
    let all = e1 + e2;
    if all.contains(Event::End(deck)) {
        let i = choose|i: int| 0 <= i < all.len() && all[i] == Event::End(deck);
        if i < e1.len() {
            assert(all[i] == e1[i]);
        } else {
            assert(all[i] == e2[i - e1.len()]);
        }
    }
}

} // verus!
