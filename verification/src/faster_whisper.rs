//! Transcription with the faster-whisper backend: through the daemon, with
//! a single run of the backend to fall back on, and the launch of the daemon
//! itself.

pub mod client;
pub mod daemon;
pub mod direct;
pub mod laws;

pub use client::stop_and_transcribe_daemon;
pub use daemon::run_daemon;
pub use direct::transcribe_with_faster_whisper;
