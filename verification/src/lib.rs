//! Core of a two-deck audio mixer: deck buffers fed by decoder channels, the
//! mixing state machine with its transitions and events, and the PCM framing
//! around it.

pub mod params;
pub mod channel;
pub mod deck;
pub mod event;
pub mod command;
pub mod model;
pub mod mixer;
pub mod render;
pub mod prepare;
pub mod finish;
pub mod control;
pub mod text;
pub mod pcm;
pub mod decoder;
pub mod paths;
pub mod laws;
pub mod trace;
pub mod consistency;
