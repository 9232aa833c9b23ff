//! The mixer: two decks and the state that decides what is played.

use vstd::prelude::*;
use crate::deck::{lemma_replayed_wf, Deck, DeckId, DeckView};
use crate::model::{initial_state, Latches, MixState, MixerView};

verus! {

/// The two-deck mixer.
pub struct Mixer {
    pub deck_a: Deck,
    pub deck_b: Deck,
    pub st: MixState,
}

impl View for Mixer {
    type V = MixerView;

    open spec fn view(&self) -> MixerView {
        MixerView { a: self.deck_a@, b: self.deck_b@, st: self.st }
    }
}

impl Mixer {
    /// The consistency of the mixer behind its view.
    pub open spec fn wf(&self) -> bool {
        self@.wf()
    }

    /// A mixer with two empty decks, deck A active, nothing playing.
    pub fn new() -> (mixer: Mixer)
        ensures
            mixer@ == (MixerView {
                a: DeckView::fresh(DeckId::A),
                b: DeckView::fresh(DeckId::B),
                st: initial_state(),
            }),
            mixer.wf(),
    {
        let none = Latches { buffer_prev_ready: false, end_sent: false, approaching_end_sent: false };
        Mixer {
            deck_a: Deck::new(DeckId::A),
            deck_b: Deck::new(DeckId::B),
            st: MixState {
                active_deck: DeckId::A,
                crossfading: false,
                crossfade_total: 0,
                crossfade_left: 0,
                target_deck: DeckId::B,
                proactive_crossfade_triggered: false,
                proactive_crossfade_enabled: true,
                loop_mode: false,
                buffer_monitor_counter: 0,
                is_playing: false,
                latches_a: none,
                latches_b: none,
                pending_transition: None,
                auto_gapless_stall: None,
                mid_chunk_auto_switch: None,
                mid_chunk_loop_restart: false,
            },
        }
    }

    /// The named deck.
    pub fn deck(&self, id: DeckId) -> (deck: &Deck)
        ensures
            deck@ == self@.deck(id),
    {
        match id {
            DeckId::A => &self.deck_a,
            DeckId::B => &self.deck_b,
        }
    }

    /// Samples queued on the named deck.
    pub fn queued(&self, id: DeckId) -> (n: usize)
        ensures
            n == self@.deck(id).samples.len(),
    {
        self.deck(id).samples.len()
    }

    /// The latches of the named deck.
    pub fn latches(&self, id: DeckId) -> (l: Latches)
        ensures
            l == self@.latches(id),
    {
        match id {
            DeckId::A => self.st.latches_a,
            DeckId::B => self.st.latches_b,
        }
    }

    pub(crate) fn set_latches(&mut self, id: DeckId, l: Latches)
        ensures
            final(self)@ == old(self)@.with_latches(id, l),
            old(self).wf() ==> final(self).wf(),
    {
        match id {
            DeckId::A => {
                self.st.latches_a = l;
            },
            DeckId::B => {
                self.st.latches_b = l;
            },
        }
    }

    /// Drains the channel of the named deck.
    pub(crate) fn poll(&mut self, id: DeckId)
        requires
            old(self).wf(),
        ensures
            old(self)@.deck(id).fed(final(self)@.deck(id)),
            final(self)@ == old(self)@.with_deck(id, final(self)@.deck(id)),
            final(self).wf(),
    {
        match id {
            DeckId::A => self.deck_a.poll_receiver(),
            DeckId::B => self.deck_b.poll_receiver(),
        }
    }

    /// Takes the next sample of the named deck, draining its channel first.
    pub(crate) fn pull(&mut self, id: DeckId) -> (out: (Option<i16>, Ghost<DeckView>))
        requires
            old(self).wf(),
            old(self)@.deck(id).headroom(1),
        ensures
            old(self)@.deck(id).fed(out.1@),
            out.1@.wf(),
            (final(self)@.deck(id), out.0) == out.1@.take(),
            final(self)@ == old(self)@.with_deck(id, final(self)@.deck(id)),
            final(self).wf(),
            out.1@.total_samples_read == old(self)@.deck(id).total_samples_read,
    {
        match id {
            DeckId::A => self.deck_a.next_sample_traced(),
            DeckId::B => self.deck_b.next_sample_traced(),
        }
    }

    /// Puts a new deck in the place of the named one, telling its decoder to
    /// stop, and lowers the deck's latches (the end latch only where `all`).
    pub(crate) fn discard_deck(&mut self, id: DeckId, all: bool)
        requires
            old(self).wf(),
        ensures
            final(self)@ == old(self)@.with_deck_discarded(id, all),
            final(self).wf(),
    {
        let l = self.latches(id);
        match id {
            DeckId::A => {
                self.deck_a.cancel();
                self.deck_a = Deck::new(DeckId::A);
            },
            DeckId::B => {
                self.deck_b.cancel();
                self.deck_b = Deck::new(DeckId::B);
            },
        }
        self.set_latches(
            id,
            Latches {
                buffer_prev_ready: false,
                end_sent: if all { false } else { l.end_sent },
                approaching_end_sent: false,
            },
        );
    }

    /// Makes the named deck the active one and zeroes its played counter.
    pub(crate) fn switch_to(&mut self, id: DeckId)
        requires
            old(self).wf(),
        ensures
            final(self)@ == old(self)@.switched_to(id),
            final(self).wf(),
    {
        proof {
            lemma_replayed_wf(self@.deck(id));
        }
        self.st.active_deck = id;
        match id {
            DeckId::A => {
                self.deck_a.samples_played = 0;
            },
            DeckId::B => {
                self.deck_b.samples_played = 0;
            },
        }
    }

    /// Rewinds the named deck.
    pub(crate) fn rewind(&mut self, id: DeckId)
        requires
            old(self).wf(),
        ensures
            final(self)@ == old(self)@.with_deck(id, old(self)@.deck(id).restarted()),
            final(self).wf(),
    {
        match id {
            DeckId::A => self.deck_a.restart(),
            DeckId::B => self.deck_b.restart(),
        }
    }
}

} // verus!
