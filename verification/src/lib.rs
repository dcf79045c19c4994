//! Verified control layer for an external mpv playback engine.
//!
//! The library models the engine's newline-delimited JSON control protocol:
//! it derives a per-window transport endpoint, holds the write-once session
//! state, builds the exact command lines the facade operations send, decides
//! every step of the event-listener state machine, and classifies transport
//! failures.  The blocking socket, process and thread work that carries these
//! values to the engine lives outside the library, in the application shell.

pub mod channel;
pub mod command;
pub mod endpoint;
pub mod listener;
pub mod numeral;
pub mod session;
pub mod supervisor;
