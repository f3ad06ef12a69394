//! Round tracking for a crash-style betting game.
//!
//! The library reads the game's telemetry frames, follows each round through
//! its phases, sorts wagers into those that arrive in their phase and those
//! that leak out of it, and settles a round when it crashes.
//!
//! Every function carries a contract, and Verus proves that its body keeps
//! it. The exceptions are the calls into `serde_json` and `chrono`, gathered
//! in [`json`] and [`clock`]: their contracts restate what those crates
//! document and are taken on trust. What holds of the tracker whatever it
//! is fed is stated and proved in [`laws`].
//!
//! Amounts, multipliers and durations are fixed-point integers: see
//! [`decimal`].

pub mod text;
pub mod decimal;
pub mod codec;
pub mod json;
pub mod frame;
pub mod clock;
pub mod ledger;
pub mod settlement;
pub mod tracker;
pub mod laws;
