//! One playback deck: the queue of samples waiting to be mixed, the history
//! kept for replay, its counters, and the receiving end of its decoder.

use vstd::prelude::*;
use crossbeam_channel::{Receiver, Sender};
use std::collections::VecDeque;
use std::sync::Arc;
use std::sync::atomic::AtomicBool;
use crate::channel::{open_channel, try_receive, Polled};
use crate::params::{CHANNEL_CAPACITY, READY_THRESHOLD};

verus! {

/// The two decks of the mixer.
#[derive(Clone, Copy, PartialEq, Eq, Structural, Debug)]
pub enum DeckId {
    A,
    B,
}

impl DeckId {
    /// The deck that is not this one.
    pub open spec fn other_spec(self) -> DeckId {
        match self {
            DeckId::A => DeckId::B,
            DeckId::B => DeckId::A,
        }
    }

    /// The deck that is not this one.
    #[verifier::when_used_as_spec(other_spec)]
    pub fn other(self) -> (o: DeckId)
        ensures
            o == self.other_spec(),
    {
        match self {
            DeckId::A => DeckId::B,
            DeckId::B => DeckId::A,
        }
    }

    /// The name of the deck in commands and events.
    pub open spec fn name_spec(self) -> Seq<char> {
        match self {
            DeckId::A => "A"@,
            DeckId::B => "B"@,
        }
    }

    /// The name of the deck in commands and events.
    pub fn name(self) -> (name: &'static str)
        ensures
            name@ == self.name_spec(),
    {
        match self {
            DeckId::A => "A",
            DeckId::B => "B",
        }
    }

    /// The deck of the given name, if the name is that of a deck.
    pub fn from_name(name: &str) -> (deck: Option<DeckId>)
        ensures
            deck == if name@ == DeckId::A.name_spec() {
                Some(DeckId::A)
            } else if name@ == DeckId::B.name_spec() {
                Some(DeckId::B)
            } else {
                None
            },
    {
        let given = name.to_owned();
        if given == "A".to_owned() {
            Some(DeckId::A)
        } else if given == "B".to_owned() {
            Some(DeckId::B)
        } else {
            None
        }
    }
}

/// What a deck is, as far as its behaviour depends on it. A sample `s` stands
/// for the amplitude `s / 32768`; times are in milliseconds. The channel and
/// the cancellation flag appear only as "there is one".
pub struct DeckView {
    pub id: DeckId,
    /// Samples waiting to be played, next one first.
    pub samples: Seq<i16>,
    /// Every sample received since the last load.
    pub full_samples: Seq<i16>,
    pub is_loading: bool,
    pub has_ended: bool,
    /// A decoder channel is attached.
    pub attached: bool,
    pub buffer_level: nat,
    pub total_samples_read: nat,
    pub real_samples_received: nat,
    pub samples_played: nat,
    pub approaching_end_sent: bool,
    /// A cancellation flag from an earlier load is held.
    pub cancellable: bool,
    /// Time of the last load, until its first chunk arrives.
    pub load_started_at: Option<u64>,
}

impl DeckView {
    /// The consistency every deck keeps: the cached counts agree with the
    /// buffers, the queue is the tail of the history, no more was played than
    /// was received or read, and an attached decoder means the deck has not
    /// ended.
    #[verifier::opaque]
    pub open spec fn wf(self) -> bool {
        &&& self.buffer_level == self.samples.len()
        &&& self.real_samples_received == self.full_samples.len()
        &&& self.samples.len() <= self.full_samples.len()
        &&& self.samples =~= self.full_samples.subrange(
            self.full_samples.len() - self.samples.len(),
            self.full_samples.len() as int,
        )
        &&& self.samples_played + self.samples.len() <= self.full_samples.len()
        &&& self.samples_played <= self.total_samples_read
        &&& self.full_samples.len() <= usize::MAX
        &&& self.total_samples_read <= usize::MAX
        &&& (self.attached ==> !self.has_ended)
    }

    /// A deck on which nothing was ever loaded.
    pub open spec fn fresh(id: DeckId) -> DeckView {
        DeckView {
            id,
            samples: Seq::empty(),
            full_samples: Seq::empty(),
            is_loading: false,
            has_ended: false,
            attached: false,
            buffer_level: 0,
            total_samples_read: 0,
            real_samples_received: 0,
            samples_played: 0,
            approaching_end_sent: false,
            cancellable: false,
            load_started_at: None,
        }
    }

    /// The deck right after a load at time `now`: empty, counting from zero,
    /// with a new decoder attached.
    pub open spec fn loaded(self, now: u64) -> DeckView {
        DeckView {
            id: self.id,
            samples: Seq::empty(),
            full_samples: Seq::empty(),
            is_loading: true,
            has_ended: false,
            attached: true,
            buffer_level: 0,
            total_samples_read: 0,
            real_samples_received: 0,
            samples_played: 0,
            approaching_end_sent: false,
            cancellable: true,
            load_started_at: Some(now),
        }
    }

    /// The deck after one more chunk has arrived.
    pub open spec fn with_chunk(self, chunk: Seq<i16>) -> DeckView {
        DeckView {
            samples: self.samples + chunk,
            full_samples: self.full_samples + chunk,
            buffer_level: (self.samples + chunk).len(),
            real_samples_received: self.real_samples_received + chunk.len(),
            load_started_at: None,
            ..self
        }
    }

    /// The deck after its decoder was seen to have gone.
    pub open spec fn detached(self) -> DeckView {
        DeckView { has_ended: true, attached: false, ..self }
    }

    /// The deck after it has taken in what one look at the channel found.
    pub open spec fn absorbed(self, polled: Polled) -> DeckView {
        match polled {
            Polled::Chunk(chunk) => self.with_chunk(chunk@),
            Polled::Empty => self,
            Polled::Disconnected => self.detached(),
        }
    }

    /// The samples by which the history of `post` is longer than this one's.
    pub open spec fn arrived(self, post: DeckView) -> Seq<i16> {
        post.full_samples.subrange(self.full_samples.len() as int, post.full_samples.len() as int)
    }

    /// `post` is this deck after its channel was drained: some samples (maybe
    /// none) were appended to queue and history, the load timestamp is cleared
    /// once anything arrived, and the decoder may have been found gone. A deck
    /// without a decoder does not change.
    #[verifier::opaque]
    pub open spec fn fed(self, post: DeckView) -> bool {
        if !self.attached {
            post == self
        } else {
            let extra = self.arrived(post);
            &&& self.full_samples.len() <= post.full_samples.len()
            &&& post == DeckView {
                samples: self.samples + extra,
                full_samples: self.full_samples + extra,
                buffer_level: (self.samples + extra).len(),
                real_samples_received: self.real_samples_received + extra.len(),
                load_started_at: post.load_started_at,
                attached: post.attached,
                has_ended: self.has_ended || !post.attached,
                ..self
            }
            &&& (post.load_started_at is None || post.load_started_at == self.load_started_at)
            &&& (extra.len() > 0 ==> post.load_started_at is None)
        }
    }

    /// Taking the next sample from a deck whose channel was just drained. A
    /// queued sample is played; an empty queue gives silence while more may
    /// come, and nothing once the deck has ended. A deck that was replayed to
    /// its end without a decoder ends here.
    pub open spec fn take(self) -> (DeckView, Option<i16>) {
        if self.samples.len() > 0 {
            (
                DeckView {
                    samples: self.samples.subrange(1, self.samples.len() as int),
                    buffer_level: if self.buffer_level > 0 {
                        (self.buffer_level - 1) as nat
                    } else {
                        0
                    },
                    total_samples_read: self.total_samples_read + 1,
                    samples_played: self.samples_played + 1,
                    ..self
                },
                Some(self.samples[0]),
            )
        } else if self.has_ended {
            (self, None)
        } else if !self.attached && self.samples_played > 0 {
            (DeckView { has_ended: true, ..self }, None)
        } else {
            (DeckView { total_samples_read: self.total_samples_read + 1, ..self }, Some(0i16))
        }
    }

    /// The deck rewound to the start of its history.
    pub open spec fn restarted(self) -> DeckView {
        DeckView {
            samples: self.full_samples,
            samples_played: 0,
            total_samples_read: 0,
            buffer_level: self.full_samples.len(),
            ..self
        }
    }

    /// The deck with its played counter back at zero.
    pub open spec fn replayed_from_zero(self) -> DeckView {
        DeckView { samples_played: 0, ..self }
    }

    /// Half a second of audio is queued.
    pub open spec fn ready(self) -> bool {
        self.samples.len() >= READY_THRESHOLD
    }

    /// Something is queued.
    pub open spec fn has_audio(self) -> bool {
        self.samples.len() > 0
    }

    /// The decoder has finished and left something to play.
    pub open spec fn download_done(self) -> bool {
        !self.attached && self.samples.len() > 0
    }

    /// The deck has ended and no decoder is attached.
    pub open spec fn exhausted(self) -> bool {
        self.has_ended && !self.attached
    }

    /// The read counter can take `n` more samples.
    pub open spec fn headroom(self, n: nat) -> bool {
        self.total_samples_read + n <= usize::MAX
    }
}

/// Draining twice is draining once.
pub proof fn lemma_fed_transitive(a: DeckView, b: DeckView, c: DeckView)
    requires
        a.fed(b),
        b.fed(c),
    ensures
        a.fed(c),
{
    reveal(DeckView::fed);
    if a.attached && b.attached {
        let e1 = a.arrived(b);
        let e2 = b.arrived(c);
        let e = a.arrived(c);
        assert(e =~= e1 + e2);
        assert(a.samples + e =~= (a.samples + e1) + e2);
        assert(a.full_samples + e =~= (a.full_samples + e1) + e2);
    }
}

/// Draining may find nothing.
pub proof fn lemma_fed_reflexive(a: DeckView)
    requires
        a.wf(),
    ensures
        a.fed(a),
{
    reveal(DeckView::fed);
    reveal(DeckView::wf);
    let e = a.arrived(a);
    assert(e =~= Seq::<i16>::empty());
    assert(a.samples + e =~= a.samples);
    assert(a.full_samples + e =~= a.full_samples);
}

/// A drained deck that takes in one more chunk is still a drained deck.
pub proof fn lemma_fed_with_chunk(a: DeckView, b: DeckView, chunk: Seq<i16>)
    requires
        a.fed(b),
        a.attached,
    ensures
        a.fed(b.with_chunk(chunk)),
{
    reveal(DeckView::fed);
    let c = b.with_chunk(chunk);
    let e1 = a.arrived(b);
    let e = a.arrived(c);
    assert(e =~= e1 + chunk);
    assert(a.samples + e =~= (a.samples + e1) + chunk);
    assert(a.full_samples + e =~= (a.full_samples + e1) + chunk);
}

/// A drained deck whose decoder is then found gone is still a drained deck.
pub proof fn lemma_fed_detached(a: DeckView, b: DeckView)
    requires
        a.fed(b),
        a.attached,
    ensures
        a.fed(b.detached()),
{
    reveal(DeckView::fed);
    assert(a.arrived(b.detached()) == a.arrived(b));
}

/// Zeroing the played counter keeps a deck consistent.
pub proof fn lemma_replayed_wf(d: DeckView)
    requires
        d.wf(),
    ensures
        d.replayed_from_zero().wf(),
{
    reveal(DeckView::wf);
}

/// A new deck and a deck just loaded are consistent.
pub proof fn lemma_fresh_wf(d: DeckView, id: DeckId, now: u64)
    ensures
        DeckView::fresh(id).wf(),
        d.loaded(now).wf(),
{
    reveal(DeckView::wf);
    let f = DeckView::fresh(id);
    assert(f.samples =~= f.full_samples.subrange(0, 0));
    let l = d.loaded(now);
    assert(l.samples =~= l.full_samples.subrange(0, 0));
}

/// Rewinding keeps a deck consistent.
pub proof fn lemma_restarted_wf(d: DeckView)
    requires
        d.wf(),
    ensures
        d.restarted().wf(),
{
    reveal(DeckView::wf);
    let r = d.restarted();
    assert(r.samples =~= r.full_samples.subrange(0, r.full_samples.len() as int));
}

/// Taking a sample keeps a deck consistent, raises its read counter by one
/// at most and never lowers its played counter.
pub proof fn lemma_take_wf(d: DeckView)
    requires
        d.wf(),
        d.headroom(1),
    ensures
        d.take().0.wf(),
        d.take().0.id == d.id,
        d.take().0.total_samples_read <= d.total_samples_read + 1,
        d.take().0.samples_played >= d.samples_played,
{
    reveal(DeckView::wf);
    let t = d.take().0;
    assert(t.samples =~= t.full_samples.subrange(
        t.full_samples.len() - t.samples.len(),
        t.full_samples.len() as int,
    ));
}

/// Draining changes neither the name of a deck nor its counters of played
/// and read samples.
pub proof fn lemma_fed_keeps_counters(a: DeckView, b: DeckView)
    requires
        a.fed(b),
    ensures
        b.id == a.id,
        b.samples_played == a.samples_played,
        b.total_samples_read == a.total_samples_read,
{
    reveal(DeckView::fed);
}

/// Taking in what a look at the channel found keeps a deck consistent.
pub proof fn lemma_absorbed_wf(d: DeckView, polled: Polled)
    requires
        d.wf(),
        d.full_samples.len() + (match polled {
            Polled::Chunk(chunk) => chunk@.len(),
            _ => 0,
        }) <= usize::MAX,
    ensures
        d.absorbed(polled).wf(),
{
    reveal(DeckView::wf);
    match polled {
        Polled::Chunk(chunk) => {
            let c = d.with_chunk(chunk@);
            assert(c.samples =~= c.full_samples.subrange(
                c.full_samples.len() - c.samples.len(),
                c.full_samples.len() as int,
            ));
        },
        _ => {},
    }
}

/// One deck of the mixer.
pub struct Deck {
    pub id: DeckId,
    pub samples: VecDeque<i16>,
    pub full_samples: Vec<i16>,
    pub is_loading: bool,
    pub has_ended: bool,
    pub receiver: Option<Receiver<Vec<i16>>>,
    pub buffer_level: usize,
    pub total_samples_read: usize,
    pub real_samples_received: usize,
    pub samples_played: usize,
    pub approaching_end_sent: bool,
    pub cancel_token: Option<Arc<AtomicBool>>,
    pub load_started_at: Option<u64>,
}

/// What a decoder thread needs to feed a deck: the sending end of the deck's
/// channel and the flag on which it must stop.
pub struct DecoderLink {
    pub sender: Sender<Vec<i16>>,
    pub cancel: Arc<AtomicBool>,
}

impl View for Deck {
    type V = DeckView;

    open spec fn view(&self) -> DeckView {
        DeckView {
            id: self.id,
            samples: self.samples@,
            full_samples: self.full_samples@,
            is_loading: self.is_loading,
            has_ended: self.has_ended,
            attached: self.receiver is Some,
            buffer_level: self.buffer_level as nat,
            total_samples_read: self.total_samples_read as nat,
            real_samples_received: self.real_samples_received as nat,
            samples_played: self.samples_played as nat,
            approaching_end_sent: self.approaching_end_sent,
            cancellable: self.cancel_token is Some,
            load_started_at: self.load_started_at,
        }
    }
}

impl Deck {
    /// The consistency of the deck behind its view.
    pub open spec fn wf(&self) -> bool {
        self@.wf()
    }

    /// A deck on which nothing was ever loaded.
    pub fn new(id: DeckId) -> (deck: Deck)
        ensures
            deck@ == DeckView::fresh(id),
            deck.wf(),
    {
        reveal(DeckView::wf);
        let deck = Deck {
            id,
            samples: VecDeque::new(),
            full_samples: Vec::new(),
            is_loading: false,
            has_ended: false,
            receiver: None,
            buffer_level: 0,
            total_samples_read: 0,
            real_samples_received: 0,
            samples_played: 0,
            approaching_end_sent: false,
            cancel_token: None,
            load_started_at: None,
        };
        assert(deck@.samples =~= deck@.full_samples.subrange(0, 0));
        deck
    }

    /// Tells the decoder attached by the last load, if any, to stop.
    pub fn cancel(&self) {
        match &self.cancel_token {
            Some(token) => {
                token.store(true, std::sync::atomic::Ordering::Relaxed);
            },
            None => {},
        }
    }

    /// Starts a new load at time `now`: stops the previous decoder, empties
    /// queue and history, zeroes the counters and attaches a new channel. The
    /// caller gets the other end of the channel and the new cancellation flag
    /// for the decoder it starts.
    pub fn load(&mut self, now: u64) -> (link: DecoderLink)
        ensures
            final(self)@ == old(self)@.loaded(now),
            final(self).wf(),
    {
        reveal(DeckView::wf);
        self.cancel();
        self.samples.clear();
        self.full_samples.clear();
        self.buffer_level = 0;
        self.total_samples_read = 0;
        self.real_samples_received = 0;
        self.samples_played = 0;
        self.has_ended = false;
        self.approaching_end_sent = false;
        self.is_loading = true;
        self.load_started_at = Some(now);
        let (sender, receiver) = open_channel(CHANNEL_CAPACITY);
        self.receiver = Some(receiver);
        let cancel = Arc::new(AtomicBool::new(false));
        self.cancel_token = Some(cancel.clone());
        assert(self@.samples =~= self@.full_samples.subrange(0, 0));
        DecoderLink { sender, cancel }
    }

    /// Takes in what one look at the channel found: a chunk goes to the back
    /// of queue and history and clears the load timestamp, a disconnect ends
    /// the deck and drops the channel. Says whether a chunk was taken in, that
    /// is, whether another look is worthwhile.
    pub fn absorb(&mut self, polled: Polled) -> (more: bool)
        requires
            old(self).wf(),
        ensures
            final(self)@ == old(self)@.absorbed(polled),
            final(self).wf(),
            more == (polled is Chunk),
    {
        reveal(DeckView::wf);
        match polled {
            Polled::Chunk(chunk) => {
                let ghost before = self@;
                let n = chunk.len();
                let mut i: usize = 0;
                while i < n
                    invariant
                        n == chunk@.len(),
                        i <= n,
                        self.samples@ == before.samples + chunk@.subrange(0, i as int),
                        self.full_samples@ == before.full_samples + chunk@.subrange(0, i as int),
                        self@ == (DeckView {
                            samples: self.samples@,
                            full_samples: self.full_samples@,
                            ..before
                        }),
                    decreases n - i,
                {
                    let s = chunk[i];
                    self.full_samples.push(s);
                    self.samples.push_back(s);
                    i = i + 1;
                    assert(chunk@.subrange(0, i as int) =~= chunk@.subrange(0, i - 1).push(s));
                    assert(self.samples@ =~= before.samples + chunk@.subrange(0, i as int));
                    assert(self.full_samples@ =~= before.full_samples + chunk@.subrange(0, i as int));
                }
                assert(chunk@.subrange(0, n as int) =~= chunk@);
                assert(before.full_samples.len() + n == self.full_samples.len());
                self.real_samples_received = self.real_samples_received + n;
                self.load_started_at = None;
                self.buffer_level = self.samples.len();
                proof {
                    lemma_absorbed_wf(before, polled);
                }
                true
            },
            Polled::Empty => false,
            Polled::Disconnected => {
                self.has_ended = true;
                self.receiver = None;
                false
            },
        }
    }

    /// Drains the decoder channel into queue and history without playing
    /// anything. At most one channel's worth of chunks is taken per call, so
    /// the call returns even while the decoder keeps sending.
    pub fn poll_receiver(&mut self)
        requires
            old(self).wf(),
        ensures
            old(self)@.fed(final(self)@),
            final(self).wf(),
            final(self)@.id == old(self)@.id,
            final(self)@.samples_played == old(self)@.samples_played,
            final(self)@.total_samples_read == old(self)@.total_samples_read,
    {
        proof {
            reveal(DeckView::fed);
            lemma_fed_reflexive(self@);
        }
        let mut budget: usize = CHANNEL_CAPACITY + 1;
        let mut more: bool = self.receiver.is_some();
        while more && budget > 0
            invariant
                self.wf(),
                old(self)@.fed(self@),
                more ==> self@.attached,
            decreases budget,
        {
            let polled = match &self.receiver {
                Some(rx) => try_receive(rx),
                None => Polled::Empty,
            };
            let ghost before = self@;
            let ghost found = polled;
            more = self.absorb(polled);
            budget = budget - 1;
            proof {
                reveal(DeckView::fed);
                match found {
                    Polled::Chunk(chunk) => {
                        lemma_fed_with_chunk(old(self)@, before, chunk@);
                    },
                    Polled::Empty => {},
                    Polled::Disconnected => {
                        lemma_fed_detached(old(self)@, before);
                    },
                }
            }
        }
    }

    /// The part of `get_next_sample` that follows the draining of the channel.
    pub fn take_sample(&mut self) -> (sample: Option<i16>)
        requires
            old(self).wf(),
            old(self)@.headroom(1),
        ensures
            (final(self)@, sample) == old(self)@.take(),
            final(self).wf(),
    {
        reveal(DeckView::wf);
        match self.samples.pop_front() {
            Some(sample) => {
                self.buffer_level = self.buffer_level - 1;
                self.total_samples_read = self.total_samples_read + 1;
                self.samples_played = self.samples_played + 1;
                assert(self@.samples =~= self@.full_samples.subrange(
                    self@.full_samples.len() - self@.samples.len(),
                    self@.full_samples.len() as int,
                ));
                Some(sample)
            },
            None => {
                if !self.has_ended {
                    if self.receiver.is_none() && self.samples_played > 0 {
                        self.has_ended = true;
                        None
                    } else {
                        self.total_samples_read = self.total_samples_read + 1;
                        Some(0i16)
                    }
                } else {
                    None
                }
            },
        }
    }

    /// The next sample to mix, after draining the channel: a queued sample,
    /// or silence while the deck may still receive, or nothing once it has
    /// ended.
    pub fn get_next_sample(&mut self) -> (sample: Option<i16>)
        requires
            old(self).wf(),
            old(self)@.headroom(1),
        ensures
            exists|polled: DeckView| #[trigger]
                old(self)@.fed(polled) && (final(self)@, sample) == polled.take(),
            final(self).wf(),
            final(self)@.id == old(self)@.id,
            final(self)@.samples_played >= old(self)@.samples_played,
            final(self)@.total_samples_read <= old(self)@.total_samples_read + 1,
    {
        let (sample, _) = self.next_sample_traced();
        sample
    }

    /// `get_next_sample`, which also names the state the deck was in between
    /// draining and taking.
    pub(crate) fn next_sample_traced(&mut self) -> (out: (Option<i16>, Ghost<DeckView>))
        requires
            old(self).wf(),
            old(self)@.headroom(1),
        ensures
            old(self)@.fed(out.1@),
            out.1@.wf(),
            (final(self)@, out.0) == out.1@.take(),
            final(self).wf(),
            out.1@.total_samples_read == old(self)@.total_samples_read,
            out.1@.samples_played == old(self)@.samples_played,
            final(self)@.id == old(self)@.id,
    {
        proof {
            reveal(DeckView::fed);
        }
        self.poll_receiver();
        let ghost polled = self@;
        let sample = self.take_sample();
        (sample, Ghost(polled))
    }

    /// Queue length and whether the deck has ended.
    pub fn get_buffer_status(&self) -> (status: (usize, bool))
        ensures
            status.0 == self@.samples.len(),
            status.1 == self@.has_ended,
    {
        (self.samples.len(), self.has_ended)
    }

    /// Whether enough is queued to start playing or fading in.
    pub fn is_ready_for_crossfade(&self) -> (ready: bool)
        ensures
            ready == self@.ready(),
    {
        self.samples.len() >= READY_THRESHOLD
    }

    /// Rewinds the deck to the start of what it received, without fetching
    /// anything again.
    pub fn restart(&mut self)
        requires
            old(self).wf(),
        ensures
            final(self)@ == old(self)@.restarted(),
            final(self).wf(),
    {
        reveal(DeckView::wf);
        self.samples.clear();
        let n = self.full_samples.len();
        let mut i: usize = 0;
        while i < n
            invariant
                n == self.full_samples@.len(),
                i <= n,
                self.samples@ == self.full_samples@.subrange(0, i as int),
                self@ == (DeckView { samples: self.samples@, ..old(self)@ }),
            decreases n - i,
        {
            let s = self.full_samples[i];
            self.samples.push_back(s);
            i = i + 1;
            assert(self.samples@ =~= self.full_samples@.subrange(0, i as int));
        }
        assert(self.samples@ =~= self.full_samples@);
        self.samples_played = 0;
        self.total_samples_read = 0;
        self.buffer_level = self.samples.len();
    }
}

} // verus!
