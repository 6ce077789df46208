//! Real-time control-surface mapping engine.
//!
//! The library receives primitive MIDI input events, classifies them, splits
//! composite protocols (14-bit controller pairs, (N)RPN sequences) out of the
//! primitive stream, matches the resulting source values against two ordered
//! mapping tables (controller and main compartment), dispatches matched
//! control values either directly to real-time targets or onto bounded
//! cross-thread queues, and emits lifecycle MIDI that keeps physical
//! controller state consistent with logical mapping activation.

pub mod match_outcome;
pub mod midi;
pub mod event;
pub mod cc14;
pub mod nrpn;
pub mod clock;
pub mod capture;
pub mod source;
pub mod mode;
pub mod target;
pub mod mapping;
pub mod table;
pub mod channels;
pub mod processor;
pub mod ui_util;
pub mod units;

pub use match_outcome::MatchOutcome;
