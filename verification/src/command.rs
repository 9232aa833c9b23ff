//! The commands a controller sends to the mixer.

use vstd::prelude::*;
use crate::deck::DeckId;

verus! {

/// One command, as decoded from the controller's stream.
#[derive(Debug)]
pub enum InputCommand {
    /// Reload the deck from the address.
    Load { url: String, deck: DeckId, autoplay: bool },
    /// Fade over to the deck within the given time.
    Crossfade { duration_ms: u64, to_deck: DeckId },
    /// Make the deck the active one and play.
    Play { deck: DeckId },
    /// Put a new, empty deck in the place of the named one.
    StopDeck { deck: DeckId },
    SetProactiveCrossfade { enabled: bool },
    SetLoop { enabled: bool },
    /// Switch to the deck as soon as it can play.
    SkipTo { target_deck: DeckId },
    /// Accept the mixer's proposal to fade over to the deck.
    ApproveProposal { new_deck: DeckId },
    /// Replay the deck from what it already received.
    RestartDeck { deck: DeckId },
    PauseAll,
    ResumeAll,
    /// End the process.
    Stop,
}

} // verus!
