//! Speech-to-text.
//!
//! Two interchangeable streaming backends sit behind one configuration: [`deepgram`] and
//! [`sixtydb`].
pub mod deepgram;
pub mod laws;
pub mod promises;
pub mod sixtydb;

use crate::json::compact_text;
use crate::stt::deepgram::DeepgramStt;
use crate::stt::sixtydb::{
    start_frame, stt_url, utterance_end, SessionPlan, SixtyDbStt, SixtyDbSttView,
};
use crate::text::same_text;
use vstd::prelude::*;

verus! {

/// A finalized transcript segment with measured latency.
#[derive(Debug)]
pub struct SttResult {
    pub text: String,
    /// Time from the end of the utterance until its transcript arrived.
    pub stt_latency_ms: u64,
}

/// Provider-agnostic configuration, which creates sessions on demand.
pub enum SttConfig {
    Deepgram(DeepgramStt),
    SixtyDb(SixtyDbStt),
}

/// The provider name stands for 60db. Any other stands for Deepgram.
pub open spec fn names_sixtydb(provider: Seq<char>) -> bool {
    provider == "60db"@ || provider == "sixtydb"@
}

/// How to open a session.
pub enum SessionOpening<'a> {
    /// Open a Deepgram session with this configuration, for audio at this rate.
    Deepgram(&'a DeepgramStt, u32),
    /// Open a 60db session.
    SixtyDb(SessionPlan),
}

impl SttConfig {
    /// Build a configuration for the given provider name (`"deepgram"` or `"60db"`).
    ///
    /// `endpointing_ms` is the silence threshold before an utterance is finalized.
    pub fn new(provider: &str, api_key: String, language: String, endpointing_ms: u32) -> (config:
        SttConfig)
        ensures
            match config {
                SttConfig::SixtyDb(sixtydb) => names_sixtydb(provider@) && sixtydb@ == (
                SixtyDbSttView {
                    api_key: api_key@,
                    language: language@,
                    utterance_end_ms: utterance_end(endpointing_ms),
                }),
                SttConfig::Deepgram(deepgram) => {
                    &&& !names_sixtydb(provider@)
                    &&& deepgram.api_key@ == api_key@
                    &&& deepgram.language@ == language@
                    &&& deepgram.endpointing_ms == endpointing_ms
                },
            },
    {
        if same_text(provider, "60db") || same_text(provider, "sixtydb") {
            SttConfig::SixtyDb(SixtyDbStt::new(api_key, language, endpointing_ms))
        } else {
            SttConfig::Deepgram(DeepgramStt::new(api_key, language, endpointing_ms))
        }
    }

    /// How to open a session. `sample_rate` is the rate of the audio that will be sent.
    pub fn create_session(&self, sample_rate: u32) -> (opening: SessionOpening<'_>)
        ensures
            match (*self, opening) {
                (
                    SttConfig::Deepgram(deepgram),
                    SessionOpening::Deepgram(config, rate),
                ) => *config == deepgram && rate == sample_rate,
                (SttConfig::SixtyDb(sixtydb), SessionOpening::SixtyDb(plan)) => {
                    &&& plan.url@ == stt_url(sixtydb@.api_key)
                    &&& plan.start@ == compact_text(start_frame(sixtydb@, sample_rate))
                    &&& plan.language@ == sixtydb@.language
                    &&& plan.utterance_end_ms == sixtydb@.utterance_end_ms
                },
                _ => false,
            },
    {
        match self {
            SttConfig::Deepgram(deepgram) => SessionOpening::Deepgram(deepgram, sample_rate),
            SttConfig::SixtyDb(sixtydb) => SessionOpening::SixtyDb(
                sixtydb.create_session(sample_rate),
            ),
        }
    }
}

} // verus!
