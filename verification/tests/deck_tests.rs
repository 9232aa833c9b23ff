use audio_engine::channel::Polled;
use audio_engine::deck::{Deck, DeckId};

fn ramp(from: i16, n: usize) -> Vec<i16> {
    (0..n).map(|i| from.wrapping_add(i as i16)).collect()
}

#[test]
fn new_deck_is_empty() {
    let deck = Deck::new(DeckId::A);
    assert_eq!(deck.id, DeckId::A);
    assert_eq!(deck.get_buffer_status(), (0, false));
    assert!(deck.receiver.is_none());
    assert!(deck.cancel_token.is_none());
    assert!(deck.load_started_at.is_none());
    assert!(!deck.is_loading);
    assert!(!deck.is_ready_for_crossfade());
    assert_eq!(deck.samples_played, 0);
    assert_eq!(deck.total_samples_read, 0);
}

#[test]
fn deck_names() {
    assert_eq!(DeckId::A.name(), "A");
    assert_eq!(DeckId::B.name(), "B");
    assert_eq!(DeckId::from_name("A"), Some(DeckId::A));
    assert_eq!(DeckId::from_name("B"), Some(DeckId::B));
    assert_eq!(DeckId::from_name("C"), None);
    assert_eq!(DeckId::from_name(""), None);
    assert_eq!(DeckId::from_name("a"), None);
    assert_eq!(DeckId::from_name("AB"), None);
    assert_eq!(DeckId::A.other(), DeckId::B);
    assert_eq!(DeckId::B.other(), DeckId::A);
}

#[test]
fn absorb_appends_to_queue_and_history() {
    let mut deck = Deck::new(DeckId::B);
    deck.load_started_at = Some(7);
    assert!(deck.absorb(Polled::Chunk(vec![1, 2, 3])));
    assert_eq!(deck.load_started_at, None);
    assert!(deck.absorb(Polled::Chunk(vec![4])));
    assert!(!deck.absorb(Polled::Empty));
    assert_eq!(deck.full_samples, vec![1, 2, 3, 4]);
    assert_eq!(deck.samples.iter().copied().collect::<Vec<i16>>(), vec![1, 2, 3, 4]);
    assert_eq!(deck.real_samples_received, 4);
    assert_eq!(deck.buffer_level, 4);
    assert!(!deck.has_ended);
}

#[test]
fn absorb_disconnect_ends_the_deck() {
    let mut deck = Deck::new(DeckId::A);
    let _link = deck.load(0);
    assert!(deck.receiver.is_some());
    assert!(!deck.absorb(Polled::Disconnected));
    assert!(deck.has_ended);
    assert!(deck.receiver.is_none());
    assert_eq!(deck.load_started_at, Some(0));
}

#[test]
fn load_resets_and_attaches() {
    let mut deck = Deck::new(DeckId::A);
    deck.absorb(Polled::Chunk(vec![5, 6, 7]));
    assert_eq!(deck.take_sample(), Some(5));
    let first = deck.load(1234);
    assert!(deck.is_loading);
    assert!(!deck.has_ended);
    assert!(deck.receiver.is_some());
    assert_eq!(deck.load_started_at, Some(1234));
    assert_eq!(deck.samples.len(), 0);
    assert_eq!(deck.full_samples.len(), 0);
    assert_eq!(deck.samples_played, 0);
    assert_eq!(deck.total_samples_read, 0);
    assert_eq!(deck.real_samples_received, 0);
    assert_eq!(deck.buffer_level, 0);
    assert!(!first.cancel.load(std::sync::atomic::Ordering::Relaxed));
    let second = deck.load(2000);
    assert!(first.cancel.load(std::sync::atomic::Ordering::Relaxed));
    assert!(!second.cancel.load(std::sync::atomic::Ordering::Relaxed));
    assert!(first.sender.send(vec![1]).is_err());
    assert!(second.sender.send(vec![1]).is_ok());
}

#[test]
fn load_channel_holds_one_hundred_chunks() {
    let mut deck = Deck::new(DeckId::A);
    let link = deck.load(0);
    for i in 0..100 {
        assert!(link.sender.try_send(vec![i as i16]).is_ok());
    }
    assert!(link.sender.try_send(vec![0]).is_err());
    deck.poll_receiver();
    assert_eq!(deck.samples.len(), 100);
    assert_eq!(deck.full_samples, ramp(0, 100));
}

#[test]
fn cancel_raises_the_flag() {
    let mut deck = Deck::new(DeckId::B);
    deck.cancel();
    let link = deck.load(0);
    assert!(!link.cancel.load(std::sync::atomic::Ordering::Relaxed));
    deck.cancel();
    assert!(link.cancel.load(std::sync::atomic::Ordering::Relaxed));
}

#[test]
fn poll_receiver_drains_in_order_and_sees_disconnect() {
    let mut deck = Deck::new(DeckId::A);
    let link = deck.load(10);
    deck.poll_receiver();
    assert_eq!(deck.samples.len(), 0);
    assert_eq!(deck.load_started_at, Some(10));
    assert!(deck.receiver.is_some());
    link.sender.send(vec![1, 2]).unwrap();
    link.sender.send(vec![3]).unwrap();
    deck.poll_receiver();
    assert_eq!(deck.full_samples, vec![1, 2, 3]);
    assert_eq!(deck.load_started_at, None);
    assert!(!deck.has_ended);
    link.sender.send(vec![4]).unwrap();
    drop(link);
    deck.poll_receiver();
    assert_eq!(deck.full_samples, vec![1, 2, 3, 4]);
    assert!(deck.has_ended);
    assert!(deck.receiver.is_none());
    deck.poll_receiver();
    assert_eq!(deck.full_samples, vec![1, 2, 3, 4]);
}

#[test]
fn get_next_sample_plays_then_pads_then_ends() {
    let mut deck = Deck::new(DeckId::A);
    let link = deck.load(0);
    assert_eq!(deck.get_next_sample(), Some(0));
    assert_eq!(deck.total_samples_read, 1);
    assert_eq!(deck.samples_played, 0);
    link.sender.send(vec![11, -12]).unwrap();
    assert_eq!(deck.get_next_sample(), Some(11));
    assert_eq!(deck.get_next_sample(), Some(-12));
    assert_eq!(deck.samples_played, 2);
    assert_eq!(deck.total_samples_read, 3);
    assert_eq!(deck.buffer_level, 0);
    assert_eq!(deck.get_next_sample(), Some(0));
    assert_eq!(deck.samples_played, 2);
    assert_eq!(deck.total_samples_read, 4);
    drop(link);
    assert_eq!(deck.get_next_sample(), None);
    assert!(deck.has_ended);
    assert_eq!(deck.total_samples_read, 4);
    assert_eq!(deck.get_next_sample(), None);
}

#[test]
fn never_loaded_deck_gives_silence() {
    let mut deck = Deck::new(DeckId::B);
    assert_eq!(deck.get_next_sample(), Some(0));
    assert_eq!(deck.get_next_sample(), Some(0));
    assert!(!deck.has_ended);
    assert_eq!(deck.total_samples_read, 2);
    assert_eq!(deck.samples_played, 0);
}

#[test]
fn restart_requeues_history() {
    let mut deck = Deck::new(DeckId::A);
    let link = deck.load(0);
    link.sender.send(vec![1, 2, 3, 4]).unwrap();
    drop(link);
    assert_eq!(deck.get_next_sample(), Some(1));
    assert_eq!(deck.get_next_sample(), Some(2));
    assert_eq!(deck.get_next_sample(), Some(3));
    deck.restart();
    assert_eq!(deck.samples.len(), deck.full_samples.len());
    assert_eq!(deck.samples.len(), 4);
    assert_eq!(deck.buffer_level, 4);
    assert_eq!(deck.samples_played, 0);
    assert_eq!(deck.total_samples_read, 0);
    assert_eq!(deck.get_next_sample(), Some(1));
}

#[test]
fn replayed_deck_ends_when_it_runs_out() {
    let mut deck = Deck::new(DeckId::A);
    deck.absorb(Polled::Chunk(vec![9, 8]));
    assert_eq!(deck.take_sample(), Some(9));
    assert_eq!(deck.take_sample(), Some(8));
    assert!(!deck.has_ended);
    assert_eq!(deck.take_sample(), None);
    assert!(deck.has_ended);
    assert_eq!(deck.total_samples_read, 2);
    deck.restart();
    assert_eq!(deck.take_sample(), Some(9));
}

#[test]
fn ready_at_exactly_the_threshold() {
    let mut deck = Deck::new(DeckId::A);
    deck.absorb(Polled::Chunk(vec![1; 23999]));
    assert!(!deck.is_ready_for_crossfade());
    deck.absorb(Polled::Chunk(vec![1; 1]));
    assert!(deck.is_ready_for_crossfade());
    assert_eq!(deck.get_buffer_status(), (24000, false));
    assert_eq!(deck.take_sample(), Some(1));
    assert!(!deck.is_ready_for_crossfade());
}

#[test]
fn played_counter_never_falls_while_playing() {
    let mut deck = Deck::new(DeckId::A);
    let link = deck.load(0);
    let mut last = 0;
    for round in 0..50 {
        if round % 3 == 0 {
            link.sender.send(ramp(round as i16, 7)).unwrap();
        }
        for _ in 0..5 {
            deck.get_next_sample();
            assert!(deck.samples_played >= last);
            assert!(deck.samples_played <= deck.total_samples_read);
            assert!(deck.samples.len() <= deck.full_samples.len());
            assert_eq!(deck.samples_played + deck.samples.len(), deck.full_samples.len());
            last = deck.samples_played;
        }
    }
}

#[test]
fn shared_flag_is_one_flag() {
    let flag = audio_engine::channel::probe2();
    assert!(!flag.load(std::sync::atomic::Ordering::Relaxed));
    let shared = audio_engine::channel::probe3(&flag);
    assert!(std::sync::Arc::ptr_eq(&flag, &shared));
    assert!(!shared.load(std::sync::atomic::Ordering::Relaxed));
    audio_engine::channel::probe(&flag);
    assert!(flag.load(std::sync::atomic::Ordering::Relaxed));
    assert!(shared.load(std::sync::atomic::Ordering::Relaxed));
    let other = audio_engine::channel::probe2();
    assert!(!std::sync::Arc::ptr_eq(&flag, &other));
    assert!(!other.load(std::sync::atomic::Ordering::Relaxed));
}
