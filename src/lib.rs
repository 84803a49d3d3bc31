//! Streaming speech endpointing: a per-frame state machine that decides when an
//! utterance has started and when the capture session is over, and the buffer
//! that keeps every sample of the session for transcription.
pub mod endpoint;
pub mod laws;
pub mod buffer;
pub mod classifier;
pub mod session;
