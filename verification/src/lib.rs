//! Push-to-talk dictation: the recording session coordinator and the daemon
//! transcription protocol, as verified decision logic.

pub mod artifact;
pub mod escalation;
pub mod faster_whisper;
pub mod helpers;
pub mod lock;
pub mod probe;
pub mod record;
pub mod recording;
pub mod socket;
pub mod text;
pub mod tray;
pub mod typing;
