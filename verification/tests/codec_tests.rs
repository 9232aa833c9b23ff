use audio_engine::deck::DeckId;
use audio_engine::decoder::{
    classify_stream_end, watchdog_step, ChunkBatcher, StreamStop, StreamVerdict, WatchdogStep,
};
use audio_engine::event::{Event, LogMessage, Trigger};
use audio_engine::paths::{choose_python, find_python_executable, get_base_path, python_candidate};
use audio_engine::pcm::{decode_sample, encode_samples, silent_chunk};
use audio_engine::text::joined;

#[test]
fn decode_little_endian_samples() {
    assert_eq!(decode_sample(0x00, 0x00), 0);
    assert_eq!(decode_sample(0x01, 0x00), 1);
    assert_eq!(decode_sample(0x00, 0x01), 256);
    assert_eq!(decode_sample(0xff, 0x7f), 32767);
    assert_eq!(decode_sample(0x00, 0x80), -32768);
    assert_eq!(decode_sample(0xff, 0xff), -1);
    assert_eq!(decode_sample(0x18, 0xfc), -1000);
    assert_eq!(decode_sample(0x34, 0x12), 0x1234);
}

#[test]
fn encode_little_endian_samples() {
    assert_eq!(encode_samples(&vec![]), Vec::<u8>::new());
    assert_eq!(encode_samples(&vec![1]), vec![0x01, 0x00]);
    assert_eq!(
        encode_samples(&vec![0x1234, -1, -32768, 32767, -1000]),
        vec![0x34, 0x12, 0xff, 0xff, 0x00, 0x80, 0xff, 0x7f, 0x18, 0xfc]
    );
}

#[test]
fn encode_then_decode_is_identity() {
    let samples: Vec<i16> = (-32768i32..=32767).step_by(257).map(|s| s as i16).collect();
    let bytes = encode_samples(&samples);
    assert_eq!(bytes.len(), 2 * samples.len());
    for (i, s) in samples.iter().enumerate() {
        assert_eq!(decode_sample(bytes[2 * i], bytes[2 * i + 1]), *s);
    }
}

#[test]
fn silent_chunk_is_1920_zero_bytes() {
    let chunk = silent_chunk();
    assert_eq!(chunk.len(), 1920);
    assert!(chunk.iter().all(|b| *b == 0));
}

#[test]
fn batcher_hands_out_full_chunks() {
    let mut batcher = ChunkBatcher::new();
    for i in 0..1919 {
        assert_eq!(batcher.push(i as i16), None);
    }
    let chunk = batcher.push(1919).unwrap();
    assert_eq!(chunk, (0..1920).map(|i| i as i16).collect::<Vec<i16>>());
    assert_eq!(batcher.buffer.len(), 0);
    assert_eq!(batcher.total_samples, 1920);
    assert_eq!(batcher.push(-5), None);
    assert_eq!(batcher.total_samples, 1921);
    assert_eq!(batcher.finish(StreamStop::Finished), Some(vec![-5]));
}

#[test]
fn batcher_rest_depends_on_how_the_stream_stopped() {
    let mut batcher = ChunkBatcher::new();
    batcher.push(1);
    batcher.push(2);
    assert_eq!(batcher.finish(StreamStop::Cancelled), None);
    let mut batcher = ChunkBatcher::new();
    batcher.push(1);
    assert_eq!(batcher.finish(StreamStop::Failed), Some(vec![1]));
    assert_eq!(ChunkBatcher::new().finish(StreamStop::Finished), None);
    assert_eq!(ChunkBatcher::new().finish(StreamStop::Failed), None);
}

#[test]
fn stream_end_verdicts() {
    assert_eq!(classify_stream_end(0), StreamVerdict::Empty);
    assert_eq!(classify_stream_end(1), StreamVerdict::Premature);
    assert_eq!(classify_stream_end(959999), StreamVerdict::Premature);
    assert_eq!(classify_stream_end(960000), StreamVerdict::Complete);
    assert_eq!(classify_stream_end(usize::MAX), StreamVerdict::Complete);
}

#[test]
fn watchdog_kills_after_sixty_looks() {
    assert_eq!(watchdog_step(0, false, false), WatchdogStep::Wait);
    assert_eq!(watchdog_step(58, false, false), WatchdogStep::Wait);
    assert_eq!(watchdog_step(59, false, false), WatchdogStep::Kill);
    assert_eq!(watchdog_step(u32::MAX, false, false), WatchdogStep::Kill);
    assert_eq!(watchdog_step(0, true, false), WatchdogStep::StandDown);
    assert_eq!(watchdog_step(59, false, true), WatchdogStep::StandDown);
    assert_eq!(watchdog_step(59, true, true), WatchdogStep::StandDown);
}

#[test]
fn event_kinds_and_payloads() {
    let line = |e: Event| (e.kind().to_string(), e.payload());
    let pair = |k: &str, d: &str| (k.to_string(), d.to_string());
    assert_eq!(line(Event::BufferReady(DeckId::B)), pair("buffer_ready", "B"));
    assert_eq!(
        line(Event::CrossfadeStarted { from: DeckId::A, to: DeckId::B }),
        pair("crossfade_started", "from=A, to=B")
    );
    assert_eq!(
        line(Event::DeckChanged { deck: DeckId::B, trigger: Trigger::CrossfadeCompletion }),
        pair("deck_changed", "deck=B, triggered_by=crossfade_completion")
    );
    assert_eq!(
        line(Event::DeckChanged { deck: DeckId::B, trigger: Trigger::PendingSkip }),
        pair("deck_changed", "deck=B, triggered_by=pending_skip")
    );
    assert_eq!(
        line(Event::DeckChanged { deck: DeckId::A, trigger: Trigger::PlayCommand }),
        pair("deck_changed", "deck=A, triggered_by=play_command")
    );
    assert_eq!(
        line(Event::DeckChanged { deck: DeckId::A, trigger: Trigger::SkipCommand }),
        pair("deck_changed", "deck=A, triggered_by=skip_command")
    );
    assert_eq!(
        line(Event::DeckChanged { deck: DeckId::A, trigger: Trigger::CrossfadeSnap }),
        pair("deck_changed", "deck=A, triggered_by=crossfade_snap")
    );
    assert_eq!(
        line(Event::DeckChanged { deck: DeckId::A, trigger: Trigger::AutoGaplessStall }),
        pair("deck_changed", "deck=A, triggered_by=auto_gapless_stall")
    );
    assert_eq!(
        line(Event::DeckChanged { deck: DeckId::A, trigger: Trigger::MidChunkAutoGapless }),
        pair("deck_changed", "deck=A, triggered_by=mid_chunk_auto_gapless")
    );
    assert_eq!(
        line(Event::DeckChanged { deck: DeckId::A, trigger: Trigger::AutoGapless }),
        pair("deck_changed", "deck=A, triggered_by=auto_gapless")
    );
    assert_eq!(line(Event::ApproachingEnd(DeckId::A)), pair("approaching_end", "A"));
    assert_eq!(line(Event::End(DeckId::A)), pair("end", "A"));
    assert_eq!(line(Event::AutoEndSwitch(DeckId::B)), pair("auto_end_switch", "B"));
    assert_eq!(line(Event::AutoLoopRestart(DeckId::A)), pair("auto_loop_restart", "A"));
    assert_eq!(line(Event::DeckRestarted(DeckId::B)), pair("deck_restarted", "deck=B"));
    assert_eq!(
        Event::End(DeckId::B).to_log(),
        LogMessage { event: "end".to_string(), data: "B".to_string() }
    );
}

#[test]
fn joined_appends() {
    assert_eq!(joined("deck=", "A"), "deck=A");
    assert_eq!(joined("", ""), "");
    assert_eq!(joined("x", ""), "x");
}

#[test]
fn python_is_the_plain_command_off_windows() {
    assert_eq!(find_python_executable(false), "python");
    assert_eq!(choose_python(false, &vec![true; 6]), "python");
}

#[test]
fn python_is_the_first_present_candidate_on_windows() {
    assert_eq!(choose_python(true, &vec![false; 6]), "python");
    assert_eq!(
        choose_python(true, &vec![false, false, true, false, true, false]),
        "C:\\Program Files\\Python313\\python.exe"
    );
    assert_eq!(
        choose_python(true, &vec![true; 6]),
        "C:\\Users\\Amministratore\\AppData\\Local\\Programs\\Python\\Python313\\python.exe"
    );
    assert_eq!(
        choose_python(true, &vec![false, false, false, false, false, true]),
        "C:\\Program Files (x86)\\Python312\\python.exe"
    );
    assert_eq!(python_candidate(3), "C:\\Program Files\\Python312\\python.exe");
    let found = find_python_executable(true);
    assert!(found == "python" || (0..6).any(|i| found == python_candidate(i)));
}

#[test]
fn base_path_prefers_the_environment() {
    assert_eq!(get_base_path(Some("/srv/bot".to_string()), false), "/srv/bot");
    assert_eq!(get_base_path(Some("/srv/bot".to_string()), true), "/srv/bot");
    assert_eq!(get_base_path(None, false), "/home/ubuntu/DiscordBots/DiscordMusicBot");
    assert_eq!(get_base_path(None, true), "F:\\Programmi\\Bots\\DiscordMusicBot");
}
