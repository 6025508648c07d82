//! Text-to-speech.
//!
//! Two interchangeable backends give the audio pipeline mono samples at its own sample rate:
//! [`TtsEngine`] wraps the local Piper backend, and [`SixtyDbTts`] speaks to 60db.
pub mod error;
pub mod exchange;
pub mod laws;
pub mod promises;
pub mod rate;
pub mod resample;
pub mod sixtydb;

pub use sixtydb::SixtyDbTts;
use vstd::prelude::*;

verus! {

/// Local Piper engine, around a loaded Piper backend `P`.
pub struct TtsEngine<P> {
    inner: P,
}

impl<P> TtsEngine<P> {
    /// The backend inside.
    pub closed spec fn backend(self) -> P {
        self.inner
    }

    /// Create an engine from a Piper config file (`.onnx.json`) and model file (`.onnx`), for audio
    /// at `output_sample_rate`. `load` loads the backend; where it fails, its error is returned.
    pub fn new<E, L: FnOnce(&str, &str, u32) -> Result<P, E>>(
        config_path: &str,
        model_path: &str,
        output_sample_rate: u32,
        load: L,
    ) -> (result: Result<TtsEngine<P>, E>)
        requires
            call_requires(load, (config_path, model_path, output_sample_rate)),
        ensures
            match result {
                Ok(engine) => call_ensures(
                    load,
                    (config_path, model_path, output_sample_rate),
                    Ok::<P, E>(engine.backend()),
                ),
                Err(error) => call_ensures(
                    load,
                    (config_path, model_path, output_sample_rate),
                    Err::<P, E>(error),
                ),
            },
    {
        match load(config_path, model_path, output_sample_rate) {
            Ok(inner) => Ok(TtsEngine { inner }),
            Err(error) => Err(error),
        }
    }

    /// The backend inside, to synthesize with.
    pub fn backend_mut(&mut self) -> (inner: &mut P)
        ensures
            *inner == old(self).backend(),
            final(self).backend() == *final(inner),
    {
        &mut self.inner
    }
}

} // verus!
