use audio_engine::command::InputCommand;
use audio_engine::control::CommandOutcome;
use audio_engine::deck::{DecoderLink, DeckId};
use audio_engine::event::{Event, Trigger};
use audio_engine::mixer::Mixer;
use audio_engine::model::{Plan, Slot};
use audio_engine::pcm::encode_samples;

/// The amplitude that a slot is rendered to.
fn amplitude(slot: &Slot) -> f32 {
    match *slot {
        Slot::Direct(s) => s as f32 / 32768.0,
        Slot::Mixed { source, target, left, total, last } => {
            let ratio = (total as f32 - left as f32) / total as f32;
            let ratio = if last { 1.0 } else { ratio };
            (source as f32 / 32768.0) * (1.0 - ratio) + (target as f32 / 32768.0) * ratio
        }
    }
}

fn to_pcm(out: f32) -> i16 {
    (out.max(-1.0).min(1.0) * 32767.0) as i16
}

/// A mixer with a clock, the events it raised and the slots it rendered.
struct Rig {
    mixer: Mixer,
    now: u64,
    events: Vec<Event>,
    slots: Vec<Slot>,
    silent_chunks: usize,
    idle_rounds: usize,
}

impl Rig {
    fn new() -> Rig {
        Rig {
            mixer: Mixer::new(),
            now: 0,
            events: Vec::new(),
            slots: Vec::new(),
            silent_chunks: 0,
            idle_rounds: 0,
        }
    }

    fn command(&mut self, cmd: InputCommand) -> CommandOutcome {
        let outcome = self.mixer.handle_command(cmd, self.now);
        self.events.extend(outcome.events.iter().copied());
        outcome
    }

    fn load(&mut self, deck: DeckId) -> DecoderLink {
        let outcome = self.command(InputCommand::Load {
            url: "http://example.invalid/track".to_string(),
            deck,
            autoplay: true,
        });
        assert!(!outcome.stop);
        let job = outcome.decoder.expect("a load starts a decoder");
        assert_eq!(job.deck, deck);
        assert_eq!(job.url, "http://example.invalid/track");
        job.link
    }

    /// Loads the deck with `n` samples of value `value`, the decoder gone.
    fn load_whole(&mut self, deck: DeckId, n: usize, value: i16) {
        let link = self.load(deck);
        self.feed(deck, &link, n, value);
        drop(link);
        self.poll(deck);
    }

    fn poll(&mut self, deck: DeckId) {
        match deck {
            DeckId::A => self.mixer.deck_a.poll_receiver(),
            DeckId::B => self.mixer.deck_b.poll_receiver(),
        }
    }

    /// Sends `n` samples in decoder chunks, draining as the channel fills.
    fn feed(&mut self, deck: DeckId, link: &DecoderLink, n: usize, value: i16) {
        let mut left = n;
        let mut in_channel = 0;
        while left > 0 {
            let len = left.min(1920);
            link.sender.send(vec![value; len]).unwrap();
            left -= len;
            in_channel += 1;
            if in_channel == 100 {
                self.poll(deck);
                in_channel = 0;
            }
        }
        self.poll(deck);
    }

    /// One iteration of the loop, 20 ms after the last.
    fn iterate(&mut self) -> Plan {
        assert!(self.mixer.can_render());
        let prepared = self.mixer.begin_iteration(self.now);
        self.events.extend(prepared.events.iter().copied());
        match prepared.plan {
            Plan::Idle => self.idle_rounds += 1,
            Plan::Silence => self.silent_chunks += 1,
            Plan::Render => {
                let chunk = self.mixer.render_chunk();
                assert_eq!(chunk.slots.len(), 960);
                let pcm: Vec<i16> = chunk.slots.iter().map(|s| to_pcm(amplitude(s))).collect();
                assert_eq!(encode_samples(&pcm).len(), 1920);
                let has_audio = chunk.slots.iter().any(|s| amplitude(s).abs() > 0.0001);
                self.events.extend(chunk.events.iter().copied());
                self.slots.extend(chunk.slots.iter().copied());
                let after = self.mixer.finish_chunk(has_audio, self.now);
                self.events.extend(after.iter().copied());
            }
        }
        self.now += 20;
        prepared.plan
    }

    fn run(&mut self, iterations: usize) {
        for _ in 0..iterations {
            self.iterate();
        }
    }

    fn count(&self, event: Event) -> usize {
        self.events.iter().filter(|e| **e == event).count()
    }

    fn position(&self, event: Event) -> Option<usize> {
        self.events.iter().position(|e| *e == event)
    }

    fn mixed_slots(&self) -> usize {
        self.slots.iter().filter(|s| matches!(s, Slot::Mixed { .. })).count()
    }
}

const PLAY_A: Event = Event::DeckChanged { deck: DeckId::A, trigger: Trigger::PlayCommand };

#[test]
fn new_mixer_is_idle() {
    let mut rig = Rig::new();
    assert_eq!(rig.mixer.st.active_deck, DeckId::A);
    assert!(!rig.mixer.st.is_playing);
    assert!(rig.mixer.st.proactive_crossfade_enabled);
    assert!(!rig.mixer.st.loop_mode);
    assert_eq!(rig.mixer.plan(), Plan::Idle);
    assert_eq!(rig.iterate(), Plan::Idle);
    assert!(rig.events.is_empty());
    assert!(rig.slots.is_empty());
}

#[test]
fn playing_an_empty_deck_gives_silence() {
    let mut rig = Rig::new();
    rig.command(InputCommand::Play { deck: DeckId::A });
    assert_eq!(rig.events, vec![PLAY_A]);
    assert_eq!(rig.iterate(), Plan::Render);
    assert_eq!(rig.slots.len(), 960);
    assert!(rig.slots.iter().all(|s| *s == Slot::Direct(0)));
    assert_eq!(rig.mixer.deck_a.total_samples_read, 960);
    assert_eq!(rig.mixer.deck_a.samples_played, 0);
    assert_eq!(rig.events, vec![PLAY_A]);
}

#[test]
fn direct_playback_passes_samples_through() {
    let mut rig = Rig::new();
    let link = rig.load(DeckId::A);
    let track: Vec<i16> = (0..2000).map(|i| (i as i16) - 1000).collect();
    link.sender.send(track.clone()).unwrap();
    rig.command(InputCommand::Play { deck: DeckId::A });
    rig.run(2);
    let expected: Vec<Slot> = track[..1920].iter().map(|s| Slot::Direct(*s)).collect();
    assert_eq!(rig.slots, expected);
    assert_eq!(rig.mixer.deck_a.samples_played, 1920);
    assert_eq!(rig.mixer.queued(DeckId::A), 80);
}

#[test]
fn proactive_crossfade() {
    let mut rig = Rig::new();
    rig.load_whole(DeckId::A, 480000, 1000);
    rig.command(InputCommand::Play { deck: DeckId::A });
    let link_b = rig.load(DeckId::B);
    rig.command(InputCommand::SetProactiveCrossfade { enabled: true });
    rig.run(3);
    assert_eq!(rig.count(Event::BufferReady(DeckId::B)), 0);
    rig.feed(DeckId::B, &link_b, 23999, -2000);
    rig.run(10);
    assert_eq!(rig.count(Event::BufferReady(DeckId::B)), 0);
    rig.feed(DeckId::B, &link_b, 1, -2000);
    rig.run(5);
    assert_eq!(rig.count(Event::BufferReady(DeckId::B)), 1);
    rig.feed(DeckId::B, &link_b, 480000 - 24000, -2000);
    drop(link_b);

    let started = Event::CrossfadeStarted { from: DeckId::A, to: DeckId::B };
    while rig.mixer.queued(DeckId::A) >= 144000 {
        assert_eq!(rig.count(started), 0);
        assert_eq!(rig.mixed_slots(), 0);
        rig.iterate();
    }
    assert_eq!(rig.count(started), 0);
    rig.iterate();
    assert_eq!(rig.count(started), 1);
    assert!(rig.mixer.st.crossfading);
    assert_eq!(rig.mixer.st.crossfade_total, 288000);
    assert_eq!(rig.mixed_slots(), 960);

    let changed = Event::DeckChanged { deck: DeckId::B, trigger: Trigger::CrossfadeCompletion };
    while rig.count(changed) == 0 {
        assert!(rig.mixed_slots() < 288000);
        rig.iterate();
    }
    assert_eq!(rig.mixed_slots(), 288000);
    assert_eq!(rig.mixer.st.active_deck, DeckId::B);
    assert!(!rig.mixer.st.crossfading);
    assert_eq!(rig.mixer.deck_b.samples_played, 0);
    rig.run(20);
    assert_eq!(rig.mixed_slots(), 288000);
    assert_eq!(rig.count(changed), 1);
    assert_eq!(rig.count(started), 1);
    assert_eq!(rig.count(Event::BufferReady(DeckId::B)), 1);
    assert!(rig.position(Event::BufferReady(DeckId::B)) < rig.position(started));
    assert!(rig.position(started) < rig.position(changed));
    match rig.slots.iter().rev().find(|s| matches!(s, Slot::Mixed { .. })) {
        Some(Slot::Mixed { source, target, left, total, last }) => {
            assert_eq!((*source, *target, *left, *total, *last), (-2000, -2000, 1, 288000, true));
        }
        _ => panic!("no mixed slot"),
    }
}

#[test]
fn proactive_crossfade_can_be_switched_off() {
    let mut rig = Rig::new();
    rig.load_whole(DeckId::A, 100000, 1000);
    rig.load_whole(DeckId::B, 100000, 2000);
    rig.command(InputCommand::SetProactiveCrossfade { enabled: false });
    rig.command(InputCommand::Play { deck: DeckId::A });
    rig.run(20);
    assert!(!rig.mixer.st.crossfading);
    assert_eq!(rig.mixed_slots(), 0);
    rig.command(InputCommand::SetProactiveCrossfade { enabled: true });
    rig.run(1);
    assert!(rig.mixer.st.crossfading);
    assert!(rig.mixer.st.proactive_crossfade_triggered);
    assert_eq!(rig.mixer.st.target_deck, DeckId::B);
}

#[test]
fn skip_pending_until_ready() {
    let mut rig = Rig::new();
    rig.load_whole(DeckId::A, 400000, 500);
    rig.command(InputCommand::Play { deck: DeckId::A });
    let link_b = rig.load(DeckId::B);
    rig.run(10);
    rig.events.clear();
    rig.command(InputCommand::SkipTo { target_deck: DeckId::B });
    assert!(rig.events.is_empty());
    assert!(rig.mixer.st.pending_transition.is_some());
    rig.feed(DeckId::B, &link_b, 23999, 7);
    rig.run(50);
    assert!(rig.events.is_empty());
    assert_eq!(rig.mixer.st.active_deck, DeckId::A);
    rig.feed(DeckId::B, &link_b, 1, 7);
    rig.iterate();
    assert_eq!(
        rig.events,
        vec![
            Event::DeckChanged { deck: DeckId::B, trigger: Trigger::PendingSkip },
            Event::BufferReady(DeckId::B),
        ]
    );
    assert_eq!(rig.mixer.st.active_deck, DeckId::B);
    assert!(rig.mixer.st.pending_transition.is_none());
    assert!(rig.mixer.st.is_playing);
    assert_eq!(rig.mixer.queued(DeckId::A), 0);
    assert_eq!(rig.mixer.deck_a.full_samples.len(), 0);
    assert_eq!(rig.mixer.deck_b.samples_played, 960);
    assert_eq!(rig.slots.last(), Some(&Slot::Direct(7)));
}

#[test]
fn skip_pending_times_out_after_eight_seconds() {
    let mut rig = Rig::new();
    rig.load_whole(DeckId::A, 2000000, 500);
    rig.command(InputCommand::Play { deck: DeckId::A });
    let _link_b = rig.load(DeckId::B);
    rig.run(3);
    rig.events.clear();
    let asked = rig.now;
    rig.command(InputCommand::SkipTo { target_deck: DeckId::B });
    while rig.now < asked + 8000 {
        rig.iterate();
        assert!(rig.events.is_empty());
        assert_eq!(rig.mixer.st.active_deck, DeckId::A);
    }
    assert_eq!(rig.now, asked + 8000);
    rig.iterate();
    assert_eq!(
        rig.events,
        vec![
            Event::DeckChanged { deck: DeckId::B, trigger: Trigger::PendingSkip },
            Event::BufferReady(DeckId::B),
        ]
    );
    assert_eq!(rig.mixer.st.active_deck, DeckId::B);
}

#[test]
fn skip_to_ready_deck_is_immediate() {
    let mut rig = Rig::new();
    rig.load_whole(DeckId::A, 50000, 500);
    rig.load_whole(DeckId::B, 10, 9);
    rig.command(InputCommand::Play { deck: DeckId::A });
    rig.run(2);
    rig.mixer.st.latches_a.end_sent = true;
    rig.events.clear();
    rig.command(InputCommand::SkipTo { target_deck: DeckId::B });
    assert_eq!(
        rig.events,
        vec![
            Event::BufferReady(DeckId::B),
            Event::DeckChanged { deck: DeckId::B, trigger: Trigger::SkipCommand },
        ]
    );
    assert_eq!(rig.mixer.st.active_deck, DeckId::B);
    assert_eq!(rig.mixer.queued(DeckId::A), 0);
    assert!(!rig.mixer.st.latches_a.end_sent);
    rig.events.clear();
    rig.command(InputCommand::SkipTo { target_deck: DeckId::B });
    assert!(rig.events.is_empty());
}

#[test]
fn loop_mode() {
    let mut rig = Rig::new();
    let track = 1250000;
    rig.load_whole(DeckId::A, track, 300);
    rig.command(InputCommand::SetLoop { enabled: true });
    rig.command(InputCommand::Play { deck: DeckId::A });
    let restart = Event::AutoLoopRestart(DeckId::A);
    while rig.count(restart) == 0 {
        assert!(rig.slots.len() < track + 960);
        rig.iterate();
    }
    assert_eq!(rig.count(Event::End(DeckId::A)), 0);
    assert_eq!(rig.count(Event::ApproachingEnd(DeckId::A)), 1);
    assert!(rig.slots.iter().all(|s| *s == Slot::Direct(300)));
    assert_eq!(rig.mixer.queued(DeckId::A) + rig.slots.len(), 2 * track);
    assert!(!rig.mixer.st.latches_a.approaching_end_sent);
    rig.run(200);
    assert!(rig.slots.len() > track);
    assert!(rig.slots.iter().all(|s| *s == Slot::Direct(300)));
    assert_eq!(rig.count(Event::End(DeckId::A)), 0);
    assert_eq!(rig.count(restart), 1);
    assert_eq!(rig.mixer.st.active_deck, DeckId::A);
}

#[test]
fn loop_restart_at_a_chunk_boundary() {
    let mut rig = Rig::new();
    let track = 960 * 1300;
    rig.load_whole(DeckId::A, track, 300);
    rig.command(InputCommand::SetLoop { enabled: true });
    rig.command(InputCommand::Play { deck: DeckId::A });
    rig.run(1300);
    assert_eq!(rig.mixer.queued(DeckId::A), 0);
    assert_eq!(rig.count(Event::AutoLoopRestart(DeckId::A)), 0);
    rig.iterate();
    assert_eq!(rig.count(Event::AutoLoopRestart(DeckId::A)), 1);
    assert_eq!(rig.slots.len(), 960 * 1301);
    assert!(rig.slots.iter().all(|s| *s == Slot::Direct(300)));
    assert_eq!(rig.mixer.queued(DeckId::A), track - 960);
}

#[test]
fn auto_gapless_stall_resolved_by_first_data() {
    let mut rig = Rig::new();
    let track = 1250000;
    rig.load_whole(DeckId::A, track, 300);
    rig.command(InputCommand::Play { deck: DeckId::A });
    while rig.mixer.queued(DeckId::A) > 5000 {
        rig.iterate();
    }
    let link_b = rig.load(DeckId::B);
    while rig.mixer.st.auto_gapless_stall.is_none() {
        assert_eq!(rig.iterate(), Plan::Render);
        assert!(rig.slots.len() < track + 3 * 960);
    }
    assert_eq!(rig.count(Event::End(DeckId::A)), 0);
    assert_eq!(rig.count(Event::AutoEndSwitch(DeckId::B)), 0);
    let rendered = rig.slots.len();
    for _ in 0..100 {
        assert_eq!(rig.iterate(), Plan::Silence);
    }
    assert_eq!(rig.silent_chunks, 100);
    assert_eq!(rig.slots.len(), rendered);
    rig.events.clear();
    link_b.sender.send(vec![77; 1920]).unwrap();
    assert_eq!(rig.iterate(), Plan::Render);
    assert_eq!(
        rig.events,
        vec![
            Event::AutoEndSwitch(DeckId::B),
            Event::DeckChanged { deck: DeckId::B, trigger: Trigger::AutoGaplessStall },
        ]
    );
    assert_eq!(rig.mixer.st.active_deck, DeckId::B);
    assert!(rig.mixer.st.auto_gapless_stall.is_none());
    assert_eq!(rig.slots[rendered], Slot::Direct(77));
    assert_eq!(rig.mixer.deck_a.full_samples.len(), 0);
}

#[test]
fn auto_gapless_stall_times_out_after_ten_seconds() {
    let mut rig = Rig::new();
    rig.load_whole(DeckId::A, 1250000, 300);
    rig.command(InputCommand::Play { deck: DeckId::A });
    while rig.mixer.queued(DeckId::A) > 5000 {
        rig.iterate();
    }
    let _link_b = rig.load(DeckId::B);
    while rig.mixer.st.auto_gapless_stall.is_none() {
        rig.iterate();
    }
    let since = rig.mixer.st.auto_gapless_stall.unwrap().since;
    assert_eq!(rig.mixer.st.auto_gapless_stall.unwrap().target, DeckId::B);
    rig.events.clear();
    while rig.now < since + 10000 {
        assert_eq!(rig.iterate(), Plan::Silence);
        assert!(rig.events.is_empty());
    }
    assert_eq!(rig.iterate(), Plan::Render);
    assert_eq!(rig.events, vec![Event::End(DeckId::A)]);
    assert!(rig.mixer.st.auto_gapless_stall.is_none());
    rig.run(50);
    assert_eq!(rig.events, vec![Event::End(DeckId::A)]);
}

#[test]
fn stuck_download_ends_instead_of_stalling() {
    let mut rig = Rig::new();
    rig.load_whole(DeckId::A, 1250000, 300);
    let _link_b = rig.load(DeckId::B);
    rig.command(InputCommand::Play { deck: DeckId::A });
    rig.command(InputCommand::SetProactiveCrossfade { enabled: false });
    rig.run(1250000 / 960);
    rig.now += 30000;
    rig.run(5);
    assert!(rig.mixer.st.auto_gapless_stall.is_none());
    assert_eq!(rig.count(Event::End(DeckId::A)), 1);
    assert_eq!(rig.silent_chunks, 0);
}

#[test]
fn crossfade_onto_exhausted_source() {
    let mut rig = Rig::new();
    rig.load_whole(DeckId::A, 300000, 1000);
    rig.command(InputCommand::SetProactiveCrossfade { enabled: false });
    rig.command(InputCommand::Play { deck: DeckId::A });
    let link_b = rig.load(DeckId::B);
    rig.feed(DeckId::B, &link_b, 24000, 2000);
    rig.events.clear();
    rig.command(InputCommand::Crossfade { duration_ms: 1000, to_deck: DeckId::B });
    assert_eq!(rig.events, vec![Event::CrossfadeStarted { from: DeckId::A, to: DeckId::B }]);
    assert_eq!(rig.mixer.st.crossfade_total, 96000);
    rig.run(25);
    assert_eq!(rig.mixed_slots(), 24000);
    assert_eq!(rig.mixer.st.crossfade_left, 96000 - 24000);
    rig.run(10);
    assert_eq!(rig.mixed_slots(), 24000);
    assert_eq!(rig.mixer.st.crossfade_left, 96000 - 24000);
    assert!(rig.mixer.st.crossfading);
    assert!(rig.slots[24000..].iter().all(|s| *s == Slot::Direct(1000)));
    assert_eq!(rig.slots.len(), 35 * 960);
    assert!(rig.slots.iter().all(|s| amplitude(s) != 0.0));
    link_b.sender.send(vec![2000; 10]).unwrap();
    rig.iterate();
    assert_eq!(rig.mixed_slots(), 24010);
    assert_eq!(rig.mixer.st.crossfade_left, 96000 - 24010);
    rig.feed(DeckId::B, &link_b, 96000, 2000);
    rig.run(100);
    assert_eq!(rig.mixed_slots(), 96000);
    assert_eq!(rig.mixer.st.active_deck, DeckId::B);
    assert_eq!(
        rig.count(Event::DeckChanged { deck: DeckId::B, trigger: Trigger::CrossfadeCompletion }),
        1
    );
}

#[test]
fn approaching_end_then_end_with_no_successor() {
    let mut rig = Rig::new();
    let track = 1250000;
    rig.load_whole(DeckId::A, track, 300);
    rig.command(InputCommand::Play { deck: DeckId::A });
    rig.events.clear();
    while rig.mixer.queued(DeckId::A) >= 144000 + 960 {
        rig.iterate();
        assert!(rig.events.is_empty());
    }
    rig.iterate();
    assert!(rig.mixer.queued(DeckId::A) < 144000);
    assert_eq!(rig.events, vec![Event::ApproachingEnd(DeckId::A)]);
    while rig.mixer.queued(DeckId::A) > 0 {
        rig.iterate();
    }
    assert_eq!(rig.events, vec![Event::ApproachingEnd(DeckId::A)]);
    rig.run(3);
    assert_eq!(rig.events, vec![Event::ApproachingEnd(DeckId::A), Event::End(DeckId::A)]);
    rig.run(100);
    assert_eq!(rig.events, vec![Event::ApproachingEnd(DeckId::A), Event::End(DeckId::A)]);
    assert_eq!(rig.slots.iter().filter(|s| **s == Slot::Direct(300)).count(), track);
}

#[test]
fn short_track_ends_without_events() {
    let mut rig = Rig::new();
    rig.load_whole(DeckId::A, 1199999, 300);
    rig.command(InputCommand::Play { deck: DeckId::A });
    rig.events.clear();
    rig.run(1300);
    assert_eq!(rig.mixer.queued(DeckId::A), 0);
    assert_eq!(rig.events, vec![Event::ApproachingEnd(DeckId::A)]);
}

#[test]
fn zero_sample_stream_raises_nothing() {
    let mut rig = Rig::new();
    let link = rig.load(DeckId::A);
    drop(link);
    rig.command(InputCommand::Play { deck: DeckId::A });
    rig.events.clear();
    rig.iterate();
    assert!(rig.mixer.deck_a.has_ended);
    assert_eq!(rig.mixer.deck_a.samples_played, 0);
    assert_eq!(rig.events, vec![Event::ApproachingEnd(DeckId::A)]);
    rig.run(50);
    assert_eq!(rig.count(Event::End(DeckId::A)), 0);
}

#[test]
fn mid_chunk_auto_switch_is_gapless() {
    let mut rig = Rig::new();
    let track = 1200000 + 500;
    rig.load_whole(DeckId::A, track, 300);
    rig.command(InputCommand::SetProactiveCrossfade { enabled: false });
    rig.command(InputCommand::Play { deck: DeckId::A });
    rig.load_whole(DeckId::B, 5000, -40);
    rig.events.clear();
    rig.run(track / 960 + 2);
    assert_eq!(
        rig.events,
        vec![
            Event::ApproachingEnd(DeckId::A),
            Event::ApproachingEnd(DeckId::B),
            Event::AutoEndSwitch(DeckId::B),
            Event::DeckChanged { deck: DeckId::B, trigger: Trigger::MidChunkAutoGapless },
        ]
    );
    assert!(rig.slots[..track].iter().all(|s| *s == Slot::Direct(300)));
    assert!(rig.slots[track..track + 960].iter().all(|s| *s == Slot::Direct(-40)));
    assert_eq!(rig.mixer.st.active_deck, DeckId::B);
    assert_eq!(rig.mixer.deck_a.full_samples.len(), 0);
    assert!(rig.mixer.st.mid_chunk_auto_switch.is_none());
}

#[test]
fn post_chunk_auto_switch() {
    let mut rig = Rig::new();
    let track = 960 * 1300;
    rig.load_whole(DeckId::A, track, 300);
    rig.command(InputCommand::SetProactiveCrossfade { enabled: false });
    rig.command(InputCommand::Play { deck: DeckId::A });
    rig.run(1300);
    assert_eq!(rig.mixer.queued(DeckId::A), 0);
    rig.events.clear();
    rig.iterate();
    assert_eq!(rig.events, vec![Event::End(DeckId::A)]);
    let mut again = Rig::new();
    again.load_whole(DeckId::A, track, 300);
    again.command(InputCommand::SetProactiveCrossfade { enabled: false });
    again.command(InputCommand::Play { deck: DeckId::A });
    again.run(1300);
    let link_b = again.load(DeckId::B);
    again.events.clear();
    again.iterate();
    assert!(again.mixer.st.auto_gapless_stall.is_some());
    again.command(InputCommand::StopDeck { deck: DeckId::B });
    assert!(again.mixer.st.auto_gapless_stall.is_none());
    assert!(link_b.cancel.load(std::sync::atomic::Ordering::Relaxed));
    assert!(again.events.is_empty());
}

#[test]
fn every_chunk_is_1920_bytes() {
    let mut rig = Rig::new();
    rig.load_whole(DeckId::A, 3000, 300);
    rig.command(InputCommand::Play { deck: DeckId::A });
    for _ in 0..10 {
        let before = rig.slots.len();
        assert_eq!(rig.iterate(), Plan::Render);
        assert_eq!(rig.slots.len(), before + 960);
    }
    assert_eq!(audio_engine::pcm::silent_chunk(), vec![0u8; 1920]);
}

#[test]
fn auto_end_switch_is_followed_by_deck_changed() {
    let mut rig = Rig::new();
    rig.load_whole(DeckId::A, 1250000, 300);
    rig.load_whole(DeckId::B, 1250000, 400);
    rig.command(InputCommand::SetProactiveCrossfade { enabled: false });
    rig.command(InputCommand::Play { deck: DeckId::A });
    rig.run(2800);
    let mut switches = 0;
    for (i, e) in rig.events.iter().enumerate() {
        if let Event::AutoEndSwitch(deck) = e {
            switches += 1;
            match rig.events.get(i + 1) {
                Some(Event::DeckChanged { deck: to, .. }) => assert_eq!(to, deck),
                other => panic!("auto_end_switch followed by {:?}", other),
            }
        }
    }
    assert_eq!(switches, 1);
    assert_eq!(rig.count(Event::ApproachingEnd(DeckId::A)), 1);
    assert_eq!(rig.count(Event::ApproachingEnd(DeckId::B)), 1);
    assert_eq!(rig.count(Event::End(DeckId::B)), 1);
    assert_eq!(rig.count(Event::End(DeckId::A)), 0);
}
