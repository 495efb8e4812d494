//! The meeting digest bot: when a recorded meeting is ready it is
//! transcribed (Whisper over HTTP or whisper.cpp) and the transcript written
//! to a new Lark document.

pub mod config;
pub mod docs;
pub mod laws;
pub mod stt;
