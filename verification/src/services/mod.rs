//! The computing part of each service: request paths with their query
//! strings, and multipart request bodies.

pub mod audio_isolation;
pub mod audio_native;
pub mod dubbing;
pub mod history;
pub mod text_to_speech;
pub mod user;
pub mod speech_to_speech;
pub mod speech_to_text;
pub mod forced_alignment;
pub mod music;
pub mod pvc_voices;
pub mod agents;
pub mod studio;
