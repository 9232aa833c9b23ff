//! What each command of the controller does to the mixer.

use vstd::prelude::*;
use crate::command::InputCommand;
use crate::deck::{DecoderLink, DeckId, DeckView};
use crate::event::{Event, Trigger};
use crate::mixer::Mixer;
use crate::model::{
    cleared, crossfade_fits, crossfade_samples, Latches, MixState, MixerView, PendingTransition,
};
use crate::params::{AUTO_CROSSFADE_SAMPLES, SAMPLE_RATE};
use crate::prepare::crossfade_length;

verus! {

/// A decoder to be started for a deck that was just loaded.
pub struct DecoderJob {
    pub deck: DeckId,
    pub url: String,
    pub link: DecoderLink,
}

/// What a command leaves for its caller to do.
pub struct CommandOutcome {
    /// The events to report, in order.
    pub events: Vec<Event>,
    /// The decoder to start, after a load.
    pub decoder: Option<DecoderJob>,
    /// The process is to end.
    pub stop: bool,
}

impl MixerView {
    /// The deck whose channel a command drains before it decides.
    pub open spec fn command_drains(self, cmd: InputCommand) -> Option<DeckId> {
        match cmd {
            InputCommand::Crossfade { to_deck, .. } => if to_deck != self.st.active_deck
                && !self.st.crossfading {
                Some(to_deck)
            } else {
                None
            },
            InputCommand::SkipTo { target_deck } => if target_deck != self.st.active_deck {
                Some(target_deck)
            } else {
                None
            },
            _ => None,
        }
    }

    /// The mixer as a command finds it, `polled` being what draining made of
    /// the deck that the command drains.
    pub open spec fn after_drain(self, cmd: InputCommand, polled: DeckView) -> MixerView {
        match self.command_drains(cmd) {
            Some(id) => self.with_deck(id, polled),
            None => self,
        }
    }

    /// `polled` is what draining could have made of the deck that the command
    /// drains.
    pub open spec fn drain_follows(self, cmd: InputCommand, polled: DeckView) -> bool {
        match self.command_drains(cmd) {
            Some(id) => self.deck(id).fed(polled),
            None => true,
        }
    }

    /// The mixer without a silent wait.
    pub open spec fn stall_dropped(self) -> MixerView {
        MixerView { st: MixState { auto_gapless_stall: None, ..self.st }, ..self }
    }

    /// A load on the deck that a crossfade is leaving ends the crossfade at
    /// once in favour of its target.
    pub open spec fn snaps_on_load(self, deck: DeckId) -> bool {
        self.st.crossfading && deck == self.st.active_deck
    }

    /// `load`: the deck starts over with a new decoder and its latches down.
    pub open spec fn load_handled(self, deck: DeckId, now: u64) -> MixerView {
        let m = if self.snaps_on_load(deck) {
            self.fade_cancelled().switched_to(self.st.target_deck)
        } else {
            self
        };
        m.with_deck(deck, m.deck(deck).loaded(now)).with_latches(deck, cleared())
    }

    /// `play`: the deck becomes active and counts from zero, playback is on,
    /// and neither a crossfade nor a silent wait goes on.
    pub open spec fn play_handled(self, deck: DeckId) -> MixerView {
        MixerView {
            st: MixState {
                crossfading: false,
                proactive_crossfade_triggered: false,
                is_playing: true,
                auto_gapless_stall: None,
                ..self.st
            },
            ..self
        }.switched_to(deck)
    }

    /// `stop_deck`: a new deck takes the place of the named one, its latches
    /// go down, and playback pauses if it was the active deck.
    pub open spec fn stop_handled(self, deck: DeckId) -> MixerView {
        let m = self.stall_dropped().with_deck_discarded(deck, true);
        if deck == self.st.active_deck {
            MixerView { st: MixState { is_playing: false, ..m.st }, ..m }
        } else {
            m
        }
    }

    /// A transition to the deck can begin at once: the deck is ready, or its
    /// decoder has finished and left something.
    pub open spec fn can_enter(self, deck: DeckId) -> bool {
        self.deck(deck).ready() || self.deck(deck).download_done()
    }

    /// The mixer with a transition deferred until its target has data.
    pub open spec fn deferring(self, p: PendingTransition) -> MixerView {
        MixerView { st: MixState { pending_transition: Some(p), ..self.st }, ..self }
    }

    /// A `crossfade` command is heeded: it leads to another deck and no
    /// crossfade is under way.
    pub open spec fn crossfade_heeded(self, to_deck: DeckId) -> bool {
        to_deck != self.st.active_deck && !self.st.crossfading
    }

    /// `crossfade`: where it is heeded, the fade begins if the target can be
    /// entered and is deferred if not. Any silent wait ends.
    pub open spec fn crossfade_handled(self, duration_ms: u64, to_deck: DeckId, now: u64)
        -> MixerView {
        let m = self.stall_dropped();
        if !self.crossfade_heeded(to_deck) {
            m
        } else if self.can_enter(to_deck) {
            let fading = m.fading_to(to_deck, crossfade_samples(duration_ms) as usize);
            MixerView { st: MixState { pending_transition: None, ..fading.st }, ..fading }
        } else {
            m.deferring(
                PendingTransition { target: to_deck, since: now, is_crossfade: true, duration_ms },
            )
        }
    }

    /// `skip_to`: towards another deck, the skip happens if the target can be
    /// entered and is deferred if not. Any silent wait ends.
    pub open spec fn skip_handled(self, target: DeckId, now: u64) -> MixerView {
        let m = self.stall_dropped();
        if target == self.st.active_deck {
            m
        } else if self.can_enter(target) {
            m.skipped_to(target)
        } else {
            m.deferring(
                PendingTransition { target, since: now, is_crossfade: false, duration_ms: 0 },
            )
        }
    }

    /// `approve_proposal`: while a proactive crossfade stands triggered, a
    /// six-second crossfade to another deck begins.
    pub open spec fn approval_handled(self, new_deck: DeckId) -> MixerView {
        if new_deck != self.st.active_deck && self.st.proactive_crossfade_triggered {
            let m = self.fading_to(new_deck, AUTO_CROSSFADE_SAMPLES);
            MixerView { st: MixState { proactive_crossfade_triggered: false, ..m.st }, ..m }
        } else {
            self
        }
    }

    /// `restart_deck`: the deck is rewound and its latches go down.
    pub open spec fn restart_handled(self, deck: DeckId) -> MixerView {
        self.with_deck(deck, self.deck(deck).restarted()).with_latches(deck, cleared())
    }

    /// What a command makes of the mixer, the deck that it drains being
    /// drained already.
    pub open spec fn command_applied(self, cmd: InputCommand, now: u64) -> MixerView {
        match cmd {
            InputCommand::Load { deck, .. } => self.load_handled(deck, now),
            InputCommand::Play { deck } => self.play_handled(deck),
            InputCommand::StopDeck { deck } => self.stop_handled(deck),
            InputCommand::Crossfade { duration_ms, to_deck } => self.crossfade_handled(
                duration_ms,
                to_deck,
                now,
            ),
            InputCommand::SetProactiveCrossfade { enabled } => MixerView {
                st: MixState { proactive_crossfade_enabled: enabled, ..self.st },
                ..self
            },
            InputCommand::SetLoop { enabled } => MixerView {
                st: MixState { loop_mode: enabled, ..self.st },
                ..self
            },
            InputCommand::SkipTo { target_deck } => self.skip_handled(target_deck, now),
            InputCommand::ApproveProposal { new_deck } => self.approval_handled(new_deck),
            InputCommand::RestartDeck { deck } => self.restart_handled(deck),
            InputCommand::PauseAll => MixerView {
                st: MixState { is_playing: false, ..self.st },
                ..self
            },
            InputCommand::ResumeAll => MixerView {
                st: MixState { is_playing: true, ..self.st },
                ..self
            },
            InputCommand::Stop => self,
        }
    }

    /// The events a command raises, the deck that it drains being drained
    /// already: a change of the active deck by `play`, by a skip that happens
    /// at once (which also reports its target as ready) or by a load that
    /// ends a crossfade; a crossfade that begins at once; a rewind.
    pub open spec fn command_events(self, cmd: InputCommand) -> Seq<Event> {
        match cmd {
            InputCommand::Load { deck, .. } => if self.snaps_on_load(deck) {
                seq![
                    Event::DeckChanged {
                        deck: self.st.target_deck,
                        trigger: Trigger::CrossfadeSnap,
                    },
                ]
            } else {
                Seq::empty()
            },
            InputCommand::Play { deck } => seq![
                Event::DeckChanged { deck, trigger: Trigger::PlayCommand },
            ],
            InputCommand::Crossfade { to_deck, .. } => if self.crossfade_heeded(to_deck)
                && self.can_enter(to_deck) {
                seq![Event::CrossfadeStarted { from: self.st.active_deck, to: to_deck }]
            } else {
                Seq::empty()
            },
            InputCommand::SkipTo { target_deck } => if target_deck != self.st.active_deck
                && self.can_enter(target_deck) {
                seq![
                    Event::BufferReady(target_deck),
                    Event::DeckChanged { deck: target_deck, trigger: Trigger::SkipCommand },
                ]
            } else {
                Seq::empty()
            },
            InputCommand::RestartDeck { deck } => seq![Event::DeckRestarted(deck)],
            _ => Seq::empty(),
        }
    }
}

/// The command can be carried out within the machine's integers: a crossfade
/// is not longer than `usize` can count in samples.
pub open spec fn command_fits(cmd: InputCommand) -> bool {
    match cmd {
        InputCommand::Crossfade { duration_ms, .. } => crossfade_fits(duration_ms),
        _ => true,
    }
}

/// Whether the command can be carried out within the machine's integers.
pub fn fits(cmd: &InputCommand) -> (yes: bool)
    ensures
        yes == command_fits(*cmd),
{
    match cmd {
        InputCommand::Crossfade { duration_ms, .. } => {
            let rate: u64 = SAMPLE_RATE as u64;
            assert(rate == 48000);
            *duration_ms <= usize::MAX as u64 / rate
        },
        _ => true,
    }
}

impl Mixer {
    /// Whether a transition to the deck can begin at once.
    fn can_enter(&self, deck: DeckId) -> (yes: bool)
        ensures
            yes == self@.can_enter(deck),
    {
        let d = self.deck(deck);
        d.is_ready_for_crossfade() || (d.receiver.is_none() && d.samples.len() > 0)
    }

    /// Starts a load on the deck.
    fn load_deck(&mut self, deck: DeckId, now: u64) -> (link: DecoderLink)
        requires
            old(self).wf(),
        ensures
            final(self).wf(),
            final(self)@ == old(self)@.load_handled(deck, now),
    {
        if self.st.crossfading && deck == self.st.active_deck {
            let target = self.st.target_deck;
            self.st.crossfading = false;
            self.st.proactive_crossfade_triggered = false;
            self.st.crossfade_left = 0;
            self.st.crossfade_total = 0;
            self.switch_to(target);
        }
        let link = match deck {
            DeckId::A => self.deck_a.load(now),
            DeckId::B => self.deck_b.load(now),
        };
        self.set_latches(
            deck,
            Latches { buffer_prev_ready: false, end_sent: false, approaching_end_sent: false },
        );
        link
    }

    /// Makes the deck the active one and plays.
    fn play_deck(&mut self, deck: DeckId)
        requires
            old(self).wf(),
        ensures
            final(self).wf(),
            final(self)@ == old(self)@.play_handled(deck),
    {
        self.st.crossfading = false;
        self.st.proactive_crossfade_triggered = false;
        self.st.is_playing = true;
        self.st.auto_gapless_stall = None;
        self.switch_to(deck);
    }

    /// Puts a new deck in the place of the named one.
    fn stop_deck(&mut self, deck: DeckId)
        requires
            old(self).wf(),
        ensures
            final(self).wf(),
            final(self)@ == old(self)@.stop_handled(deck),
    {
        let was_active = deck == self.st.active_deck;
        self.st.auto_gapless_stall = None;
        self.discard_deck(deck, true);
        if was_active {
            self.st.is_playing = false;
        }
    }

    /// Begins or defers a crossfade. The target's channel was drained.
    fn request_crossfade(&mut self, duration_ms: u64, to_deck: DeckId, now: u64)
        requires
            old(self).wf(),
            crossfade_fits(duration_ms),
        ensures
            final(self).wf(),
            final(self)@ == old(self)@.crossfade_handled(duration_ms, to_deck, now),
    {
        let heeded = to_deck != self.st.active_deck && !self.st.crossfading;
        let enter = self.can_enter(to_deck);
        self.st.auto_gapless_stall = None;
        if heeded {
            if enter {
                let total = crossfade_length(duration_ms);
                self.st.crossfading = true;
                self.st.target_deck = to_deck;
                self.st.crossfade_total = total;
                self.st.crossfade_left = total;
                self.st.pending_transition = None;
            } else {
                self.st.pending_transition = Some(
                    PendingTransition {
                        target: to_deck,
                        since: now,
                        is_crossfade: true,
                        duration_ms,
                    },
                );
            }
        }
    }

    /// Carries out or defers a skip. The target's channel was drained.
    fn request_skip(&mut self, target: DeckId, now: u64)
        requires
            old(self).wf(),
        ensures
            final(self).wf(),
            final(self)@ == old(self)@.skip_handled(target, now),
    {
        let heeded = target != self.st.active_deck;
        let enter = self.can_enter(target);
        self.st.auto_gapless_stall = None;
        if heeded {
            if enter {
                self.skip_to(target);
            } else {
                self.st.pending_transition = Some(
                    PendingTransition { target, since: now, is_crossfade: false, duration_ms: 0 },
                );
            }
        }
    }

    /// Begins the crossfade that was proposed, if one was.
    fn approve_proposal(&mut self, new_deck: DeckId)
        requires
            old(self).wf(),
        ensures
            final(self).wf(),
            final(self)@ == old(self)@.approval_handled(new_deck),
    {
        if new_deck != self.st.active_deck && self.st.proactive_crossfade_triggered {
            self.st.crossfading = true;
            self.st.target_deck = new_deck;
            self.st.crossfade_total = AUTO_CROSSFADE_SAMPLES;
            self.st.crossfade_left = AUTO_CROSSFADE_SAMPLES;
            self.st.proactive_crossfade_triggered = false;
        }
    }

    /// Rewinds the deck on command.
    fn restart_deck(&mut self, deck: DeckId)
        requires
            old(self).wf(),
        ensures
            final(self).wf(),
            final(self)@ == old(self)@.restart_handled(deck),
    {
        self.rewind(deck);
        self.set_latches(
            deck,
            Latches { buffer_prev_ready: false, end_sent: false, approaching_end_sent: false },
        );
    }

    /// Switches the proactive crossfade on or off.
    fn set_proactive_crossfade(&mut self, enabled: bool)
        ensures
            final(self)@ == (MixerView {
                st: MixState { proactive_crossfade_enabled: enabled, ..old(self)@.st },
                ..old(self)@
            }),
    {
        self.st.proactive_crossfade_enabled = enabled;
    }

    /// Switches loop mode on or off.
    fn set_loop(&mut self, enabled: bool)
        ensures
            final(self)@ == (MixerView {
                st: MixState { loop_mode: enabled, ..old(self)@.st },
                ..old(self)@
            }),
    {
        self.st.loop_mode = enabled;
    }

    /// Pauses or resumes the output.
    fn set_playing(&mut self, playing: bool)
        ensures
            final(self)@ == (MixerView {
                st: MixState { is_playing: playing, ..old(self)@.st },
                ..old(self)@
            }),
    {
        self.st.is_playing = playing;
    }

    /// The events that the command raises on the mixer as it stands.
    fn command_events(&self, cmd: &InputCommand) -> (events: Vec<Event>)
        ensures
            events@ == self@.command_events(*cmd),
    {
        let mut events: Vec<Event> = Vec::new();
        let active = self.st.active_deck;
        match cmd {
            InputCommand::Load { deck, .. } => {
                if self.st.crossfading && *deck == active {
                    events.push(
                        Event::DeckChanged {
                            deck: self.st.target_deck,
                            trigger: Trigger::CrossfadeSnap,
                        },
                    );
                }
            },
            InputCommand::Play { deck } => {
                events.push(Event::DeckChanged { deck: *deck, trigger: Trigger::PlayCommand });
            },
            InputCommand::Crossfade { to_deck, .. } => {
                if *to_deck != active && !self.st.crossfading && self.can_enter(*to_deck) {
                    events.push(Event::CrossfadeStarted { from: active, to: *to_deck });
                }
            },
            InputCommand::SkipTo { target_deck } => {
                if *target_deck != active && self.can_enter(*target_deck) {
                    events.push(Event::BufferReady(*target_deck));
                    events.push(
                        Event::DeckChanged { deck: *target_deck, trigger: Trigger::SkipCommand },
                    );
                }
            },
            InputCommand::RestartDeck { deck } => {
                events.push(Event::DeckRestarted(*deck));
            },
            _ => {},
        }
        assert(events@ =~= self@.command_events(*cmd));
        events
    }

    /// Changes the mixer as the command says, and hands out the decoder to
    /// start where the command is a load.
    fn apply_command(&mut self, cmd: InputCommand, now: u64) -> (decoder: Option<DecoderJob>)
        requires
            old(self).wf(),
            command_fits(cmd),
        ensures
            final(self).wf(),
            final(self)@ == old(self)@.command_applied(cmd, now),
            match cmd {
                InputCommand::Load { url, deck, .. } => {
                    &&& decoder is Some
                    &&& decoder->0.deck == deck
                    &&& decoder->0.url == url
                },
                _ => decoder is None,
            },
    {
        match cmd {
            InputCommand::Load { url, deck, autoplay } => {
                let link = self.load_deck(deck, now);
                Some(DecoderJob { deck, url, link })
            },
            InputCommand::Play { deck } => {
                self.play_deck(deck);
                None
            },
            InputCommand::StopDeck { deck } => {
                self.stop_deck(deck);
                None
            },
            InputCommand::Crossfade { duration_ms, to_deck } => {
                self.request_crossfade(duration_ms, to_deck, now);
                None
            },
            InputCommand::SetProactiveCrossfade { enabled } => {
                self.set_proactive_crossfade(enabled);
                None
            },
            InputCommand::SetLoop { enabled } => {
                self.set_loop(enabled);
                None
            },
            InputCommand::SkipTo { target_deck } => {
                self.request_skip(target_deck, now);
                None
            },
            InputCommand::ApproveProposal { new_deck } => {
                self.approve_proposal(new_deck);
                None
            },
            InputCommand::RestartDeck { deck } => {
                self.restart_deck(deck);
                None
            },
            InputCommand::PauseAll => {
                self.set_playing(false);
                None
            },
            InputCommand::ResumeAll => {
                self.set_playing(true);
                None
            },
            InputCommand::Stop => None,
        }
    }

    /// Drains the channel of the deck that the command drains.
    fn drain_for(&mut self, cmd: &InputCommand) -> (polled: Ghost<DeckView>)
        requires
            old(self).wf(),
        ensures
            final(self).wf(),
            old(self)@.drain_follows(*cmd, polled@),
            final(self)@ == old(self)@.after_drain(*cmd, polled@),
    {
        match cmd {
            InputCommand::Crossfade { to_deck, .. } => {
                if *to_deck != self.st.active_deck && !self.st.crossfading {
                    self.poll(*to_deck);
                    return Ghost(self@.deck(*to_deck));
                }
            },
            InputCommand::SkipTo { target_deck } => {
                if *target_deck != self.st.active_deck {
                    self.poll(*target_deck);
                    return Ghost(self@.deck(*target_deck));
                }
            },
            _ => {},
        }
        Ghost(self@.a)
    }

    /// Carries out one command at time `now`. The caller reports the events,
    /// starts the decoder that a load asks for, and ends the process on
    /// `stop`.
    pub fn handle_command(&mut self, cmd: InputCommand, now: u64) -> (outcome: CommandOutcome)
        requires
            old(self).wf(),
            command_fits(cmd),
        ensures
            final(self).wf(),
            exists|polled: DeckView|
                {
                    &&& old(self)@.drain_follows(cmd, polled)
                    &&& final(self)@ == (#[trigger] old(self)@.after_drain(
                        cmd,
                        polled,
                    )).command_applied(cmd, now)
                    &&& outcome.events@ == old(self)@.after_drain(cmd, polled).command_events(cmd)
                },
            outcome.stop == (cmd is Stop),
            match cmd {
                InputCommand::Load { url, deck, .. } => {
                    &&& outcome.decoder is Some
                    &&& outcome.decoder->0.deck == deck
                    &&& outcome.decoder->0.url == url
                },
                _ => outcome.decoder is None,
            },
    {
        let polled = self.drain_for(&cmd);
        let events = self.command_events(&cmd);
        let stop = matches!(cmd, InputCommand::Stop);
        let decoder = self.apply_command(cmd, now);
        CommandOutcome { events, decoder, stop }
    }
}

} // verus!
