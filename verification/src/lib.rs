//! Game rules of a networked penalty-kick game: the messages that client and
//! server exchange, the server's ball rules, the client's scoreboard and
//! ownership bookkeeping, the single-player game flags, the goalie's reroll
//! of its patrol behaviour and the debug texture pattern.
//!
//! Physics, rendering, input devices, audio and networking are driven by the
//! engine around this crate; the functions here take what those produce as
//! plain values and say what to do next.

pub mod entity;
pub mod protocol;
pub mod login;
pub mod server;
pub mod client;
pub mod game;
pub mod goalie;
pub mod debug;
