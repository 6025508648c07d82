//! Speech backends of an audio engine: streaming speech-to-text and text-to-speech.
//!
//! The crate holds what the backends decide and compute: which frames go out, what a frame that
//! comes in means, and how audio is packed and unpacked. It owns no socket. Whoever does asks it
//! what to do next and tells it what happened.
pub mod codec;
pub mod json;
pub mod pcm;
pub mod stt;
pub mod text;
pub mod tts;
