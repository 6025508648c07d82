//! Configuration of the Deepgram backend.
use vstd::prelude::*;

verus! {

/// Credentials and options for Deepgram.
pub struct DeepgramStt {
    pub api_key: String,
    pub language: String,
    /// Silence (ms) after speech before an utterance is finalized.
    pub endpointing_ms: u32,
}

impl DeepgramStt {
    /// A configuration with these credentials and options.
    pub fn new(api_key: String, language: String, endpointing_ms: u32) -> (config: DeepgramStt)
        ensures
            config.api_key@ == api_key@,
            config.language@ == language@,
            config.endpointing_ms == endpointing_ms,
    {
        DeepgramStt { api_key, language, endpointing_ms }
    }
}

} // verus!
