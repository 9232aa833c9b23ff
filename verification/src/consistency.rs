//! The consistency of the mixer is kept by every step, whatever the decoders
//! deliver and whatever the controller commands.

use vstd::prelude::*;
use crate::command::InputCommand;
use crate::control::command_fits;
use crate::deck::{
    lemma_fed_keeps_counters, lemma_fresh_wf, lemma_replayed_wf, lemma_restarted_wf,
    lemma_take_wf, DeckId, DeckView,
};
use crate::model::{crossfade_fits, Feed, MixState, MixerView};
use crate::trace::Step;

verus! {

impl Feed {
    /// Both sides are consistent decks.
    pub open spec fn wf(self) -> bool {
        self.a.wf() && self.b.wf()
    }

    /// What draining could have found on the decks of `m`.
    pub open spec fn drawn_from(self, m: MixerView) -> bool {
        self.wf() && self.follows(m)
    }
}

impl MixerView {
    /// Each feed is what draining could have found, slot after slot.
    pub open spec fn feeds_drawn(self, feeds: Seq<Feed>) -> bool
        decreases feeds.len(),
    {
        feeds.len() > 0 ==> {
            &&& self.feeds_drawn(feeds.drop_last())
            &&& feeds.last().drawn_from(self.run_slots(feeds.drop_last()).end)
        }
    }

    /// The step can be taken from this mixer: what it says draining found
    /// could have been found, and the integers of the machine suffice.
    pub open spec fn admits(self, step: Step) -> bool {
        match step {
            Step::Command { cmd, now, polled } => {
                &&& command_fits(cmd)
                &&& polled.wf()
                &&& self.drain_follows(cmd, polled)
            },
            Step::Prepare { now, feed } => feed.drawn_from(self),
            Step::Render { feeds } => {
                &&& self.proactive().0.chunk_begun().feeds_drawn(feeds)
                &&& self.headroom(feeds.len())
            },
            Step::Finish { has_audio, now } => true,
        }
    }

    /// Each of the steps can be taken from the mixer that the steps before it
    /// have made.
    pub open spec fn admits_all(self, steps: Seq<Step>) -> bool
        decreases steps.len(),
    {
        steps.len() > 0 ==> {
            &&& self.admits_all(steps.drop_last())
            &&& self.ran(steps.drop_last()).0.admits(steps.last())
        }
    }
}

/// Replacing a deck by a consistent deck of the same name keeps the mixer
/// consistent.
pub proof fn lemma_with_deck_wf(m: MixerView, id: DeckId, d: DeckView)
    requires
        m.wf(),
        d.wf(),
        d.id == id,
    ensures
        m.with_deck(id, d).wf(),
        m.with_deck(id, d).st == m.st,
{
}

/// Discarding a deck, and making a deck the active one, keep the mixer
/// consistent.
pub proof fn lemma_switch_wf(m: MixerView, id: DeckId, all: bool)
    requires
        m.wf(),
    ensures
        m.with_deck_discarded(id, all).wf(),
        m.switched_to(id).wf(),
        m.with_deck_discarded(id, all).deck(id).total_samples_read == 0,
        m.with_deck_discarded(id, all).deck(id.other()) == m.deck(id.other()),
        m.switched_to(id).a.total_samples_read == m.a.total_samples_read,
        m.switched_to(id).b.total_samples_read == m.b.total_samples_read,
{
    lemma_fresh_wf(m.a, id, 0);
    lemma_replayed_wf(m.deck(id));
}

/// A crossfade slot keeps the mixer consistent.
pub proof fn lemma_crossfade_slot_wf(m: MixerView, f: Feed)
    requires
        m.wf(),
        m.headroom(1),
        f.drawn_from(m),
    ensures
        m.crossfade_slot(f).next.wf(),
        m.crossfade_slot(f).next.a.total_samples_read <= m.a.total_samples_read + 1,
        m.crossfade_slot(f).next.b.total_samples_read <= m.b.total_samples_read + 1,
{
    lemma_fed_keeps_counters(m.a, f.a);
    lemma_fed_keeps_counters(m.b, f.b);
    lemma_take_wf(f.a);
    lemma_take_wf(f.b);
    if m.deck(m.st.target_deck).has_audio() {
        let (da, sa) = f.a.take();
        let (db, sb) = f.b.take();
        let taken = MixerView { a: da, b: db, st: m.st };
        assert(taken.wf());
        lemma_replayed_wf(taken.deck(m.st.target_deck));
    }
}

/// The slot in which the active deck gave no sample keeps the mixer
/// consistent, whatever draining finds on the other deck.
pub proof fn lemma_dry_slot_wf(m: MixerView, f: Feed)
    requires
        m.wf(),
        f.deck(m.st.active_deck.other()).wf(),
        m.deck(m.st.active_deck.other()).fed(f.deck(m.st.active_deck.other())),
        m.deck(m.st.active_deck.other()).headroom(1),
    ensures
        m.dry_slot(f).next.wf(),
        m.dry_slot(f).next.deck(m.st.active_deck).total_samples_read <= m.deck(
            m.st.active_deck,
        ).total_samples_read + 1,
        m.dry_slot(f).next.deck(m.st.active_deck.other()).total_samples_read <= m.deck(
            m.st.active_deck.other(),
        ).total_samples_read + 1,
{
    let active = m.st.active_deck;
    let other = active.other();
    if m.may_recover() {
        if m.st.loop_mode {
            lemma_restarted_wf(m.deck(active));
            lemma_take_wf(m.deck(active).restarted());
        } else if m.deck(other).has_audio() {
            lemma_switch_wf(m, active, false);
            let discarded = m.with_deck_discarded(active, false);
            lemma_switch_wf(discarded, other, false);
            lemma_fed_keeps_counters(m.deck(other), f.deck(other));
            lemma_replayed_wf(f.deck(other));
            lemma_take_wf(f.deck(other).replayed_from_zero());
        }
    }
}

/// Every slot keeps the mixer consistent and raises each read counter by
/// one at most.
pub proof fn lemma_slot_wf(m: MixerView, f: Feed)
    requires
        m.wf(),
        m.headroom(1),
        f.drawn_from(m),
    ensures
        m.slot_step(f).next.wf(),
        m.slot_step(f).next.a.total_samples_read <= m.a.total_samples_read + 1,
        m.slot_step(f).next.b.total_samples_read <= m.b.total_samples_read + 1,
{
    if m.st.crossfading {
        lemma_crossfade_slot_wf(m, f);
    } else {
        let active = m.st.active_deck;
        lemma_fed_keeps_counters(m.a, f.a);
        lemma_fed_keeps_counters(m.b, f.b);
        lemma_take_wf(f.deck(active));
        let (d, s) = f.deck(active).take();
        let taken = m.with_deck(active, d);
        lemma_with_deck_wf(m, active, d);
        if s is None {
            lemma_dry_slot_wf(taken, f);
        }
    }
}

/// A run of slots keeps the mixer consistent, given room in the read
/// counters for one sample per slot.
pub proof fn lemma_run_wf(m: MixerView, feeds: Seq<Feed>)
    requires
        m.wf(),
        m.headroom(feeds.len()),
        m.feeds_drawn(feeds),
    ensures
        m.run_slots(feeds).end.wf(),
        m.run_slots(feeds).end.a.total_samples_read <= m.a.total_samples_read + feeds.len(),
        m.run_slots(feeds).end.b.total_samples_read <= m.b.total_samples_read + feeds.len(),
    decreases feeds.len(),
{
    if feeds.len() > 0 {
        lemma_run_wf(m, feeds.drop_last());
        lemma_slot_wf(m.run_slots(feeds.drop_last()).end, feeds.last());
    }
}

/// A skip keeps the mixer consistent.
pub proof fn lemma_skip_wf(m: MixerView, target: DeckId)
    requires
        m.wf(),
    ensures
        m.skipped_to(target).wf(),
{
    lemma_switch_wf(m, m.st.active_deck, true);
    lemma_switch_wf(m.with_deck_discarded(m.st.active_deck, true), target, true);
}

/// `load` keeps the mixer consistent.
pub proof fn lemma_load_wf(m: MixerView, deck: DeckId, now: u64)
    requires
        m.wf(),
    ensures
        m.load_handled(deck, now).wf(),
{
    lemma_switch_wf(m.fade_cancelled(), m.st.target_deck, false);
    let snapped = if m.snaps_on_load(deck) {
        m.fade_cancelled().switched_to(m.st.target_deck)
    } else {
        m
    };
    assert(snapped.wf());
    lemma_fresh_wf(snapped.deck(deck), deck, now);
    lemma_with_deck_wf(snapped, deck, snapped.deck(deck).loaded(now));
}

/// `play` keeps the mixer consistent.
pub proof fn lemma_play_wf(m: MixerView, deck: DeckId)
    requires
        m.wf(),
    ensures
        m.play_handled(deck).wf(),
{
    let set = MixerView {
        st: MixState {
            crossfading: false,
            proactive_crossfade_triggered: false,
            is_playing: true,
            auto_gapless_stall: None,
            ..m.st
        },
        ..m
    };
    assert(set.wf());
    lemma_switch_wf(set, deck, false);
}

/// `stop_deck` keeps the mixer consistent.
pub proof fn lemma_stop_wf(m: MixerView, deck: DeckId)
    requires
        m.wf(),
    ensures
        m.stop_handled(deck).wf(),
{
    lemma_switch_wf(m.stall_dropped(), deck, true);
}

/// `crossfade` keeps the mixer consistent.
pub proof fn lemma_crossfade_wf(m: MixerView, duration_ms: u64, to_deck: DeckId, now: u64)
    requires
        m.wf(),
        crossfade_fits(duration_ms),
    ensures
        m.crossfade_handled(duration_ms, to_deck, now).wf(),
{
}

/// `skip_to` keeps the mixer consistent.
pub proof fn lemma_skip_command_wf(m: MixerView, target: DeckId, now: u64)
    requires
        m.wf(),
    ensures
        m.skip_handled(target, now).wf(),
{
    lemma_skip_wf(m.stall_dropped(), target);
}

/// `approve_proposal` and `restart_deck` keep the mixer consistent.
pub proof fn lemma_approval_restart_wf(m: MixerView, deck: DeckId)
    requires
        m.wf(),
    ensures
        m.approval_handled(deck).wf(),
        m.restart_handled(deck).wf(),
{
    lemma_restarted_wf(m.deck(deck));
    lemma_with_deck_wf(m, deck, m.deck(deck).restarted());
}

/// A command keeps the mixer consistent.
pub proof fn lemma_command_wf(m: MixerView, cmd: InputCommand, now: u64)
    requires
        m.wf(),
        command_fits(cmd),
    ensures
        m.command_applied(cmd, now).wf(),
{
    match cmd {
        InputCommand::Load { deck, .. } => {
            lemma_load_wf(m, deck, now);
        },
        InputCommand::Play { deck } => {
            lemma_play_wf(m, deck);
        },
        InputCommand::StopDeck { deck } => {
            lemma_stop_wf(m, deck);
        },
        InputCommand::Crossfade { duration_ms, to_deck } => {
            lemma_crossfade_wf(m, duration_ms, to_deck, now);
        },
        InputCommand::SkipTo { target_deck } => {
            lemma_skip_command_wf(m, target_deck, now);
        },
        InputCommand::ApproveProposal { new_deck } => {
            lemma_approval_restart_wf(m, new_deck);
        },
        InputCommand::RestartDeck { deck } => {
            lemma_approval_restart_wf(m, deck);
        },
        _ => {},
    }
}

/// The settling of a silent wait keeps the mixer consistent.
pub proof fn lemma_stall_resolved_wf(m: MixerView, now: u64)
    requires
        m.wf(),
    ensures
        m.stall_resolved(now).0.wf(),
{
    match m.st.auto_gapless_stall {
        Some(stall) => {
            let over = m.stall_dropped();
            assert(over.wf());
            lemma_switch_wf(over, m.st.active_deck, false);
            lemma_switch_wf(
                over.with_deck_discarded(m.st.active_deck, false),
                stall.target,
                false,
            );
        },
        None => {},
    }
}

/// The carrying out of a deferred transition keeps the mixer consistent.
pub proof fn lemma_pending_resolved_wf(m: MixerView, now: u64)
    requires
        m.wf(),
    ensures
        m.pending_resolved(now).0.wf(),
{
    match m.st.pending_transition {
        Some(p) => {
            lemma_skip_wf(m, p.target);
        },
        None => {},
    }
}

/// The sampling of readiness keeps the mixer consistent.
pub proof fn lemma_readiness_wf(m: MixerView)
    requires
        m.wf(),
    ensures
        m.readiness_sampled().0.wf(),
{
}

/// The preparation of an iteration keeps the mixer consistent.
pub proof fn lemma_prepared_wf(m: MixerView, now: u64)
    requires
        m.wf(),
    ensures
        m.prepared(now).0.wf(),
{
    let (m1, e1) = m.stall_resolved(now);
    lemma_stall_resolved_wf(m, now);
    let (m2, e2) = m1.pending_resolved(now);
    lemma_pending_resolved_wf(m1, now);
    lemma_readiness_wf(m2);
}

/// The end of an iteration keeps the mixer consistent.
pub proof fn lemma_finished_wf(m: MixerView, has_audio: bool, now: u64)
    requires
        m.wf(),
    ensures
        m.finished(has_audio, now).0.wf(),
{
    let (m1, e1) = m.approaching_checked();
    let active = m1.st.active_deck;
    let latched = m1.end_latched();
    lemma_restarted_wf(latched.deck(active));
    lemma_switch_wf(latched, active, false);
    lemma_switch_wf(latched.with_deck_discarded(active, false), active.other(), false);
}

/// Every step that can be taken keeps the mixer consistent.
pub proof fn law_step_keeps_consistency(m: MixerView, step: Step)
    requires
        m.wf(),
        m.admits(step),
    ensures
        m.stepped(step).0.wf(),
{
    match step {
        Step::Command { cmd, now, polled } => {
            match m.command_drains(cmd) {
                Some(id) => {
                    lemma_fed_keeps_counters(m.deck(id), polled);
                    lemma_with_deck_wf(m, id, polled);
                },
                None => {},
            }
            lemma_command_wf(m.after_drain(cmd, polled), cmd, now);
        },
        Step::Prepare { now, feed } => {
            lemma_fed_keeps_counters(m.a, feed.a);
            lemma_fed_keeps_counters(m.b, feed.b);
            lemma_prepared_wf(m.drained(feed), now);
        },
        Step::Render { feeds } => {
            lemma_run_wf(m.proactive().0.chunk_begun(), feeds);
        },
        Step::Finish { has_audio, now } => {
            lemma_finished_wf(m, has_audio, now);
        },
    }
}

/// Through any sequence of steps that can be taken, the mixer stays
/// consistent: on both decks no more is played than was read, no more is
/// queued than was received, a deck with a decoder has not ended, and the
/// crossfade has no more steps left than it has in total.
pub proof fn law_consistency_is_invariant(m: MixerView, steps: Seq<Step>)
    requires
        m.wf(),
        m.admits_all(steps),
    ensures
        m.ran(steps).0.wf(),
    decreases steps.len(),
{
    if steps.len() > 0 {
        law_consistency_is_invariant(m, steps.drop_last());
        law_step_keeps_consistency(m.ran(steps.drop_last()).0, steps.last());
    }
}

} // verus!
