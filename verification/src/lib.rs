//! Session-capture recording engine: a verified model of the session
//! lifecycle state machine, the input-event stream, the append-only session
//! event log, and the screen-capture process manager's decisions.

mod clock;
pub mod eventlog;
pub mod ffmpeg;
pub mod input;
pub mod record;
pub mod strutil;
