# audio_engine

Speech backends of an audio engine: streaming speech-to-text (`src/stt`) and text-to-speech
(`src/tts`) over the 60db WebSocket API, with the configuration of the Deepgram and Piper
alternatives.

`src/` is a Verus library. Every function in it has a contract, and Verus proves that it keeps it,
except for the calls into other crates, which are wrapped (see below):

- `text`: white space, trimming, decimal numerals.
- `pcm`: LINEAR16 samples as little-endian bytes, and back.
- `codec`: base64, from the `base64` crate.
- `json`: JSON documents for text frames, from the `serde_json` crate.
- `stt`: choice of provider, session start, audio frames, and which messages are transcripts.
- `stt::laws`: what holds of whole sessions.
- `tts::rate`, `tts::resample`: supported sample rates, linear interpolation.
- `tts::exchange`: one synthesis, as a state machine over what the socket gives.
- `tts::sixtydb`: the synthesizer that keeps a connection and gives it up on failure.
- `tts::laws`: what holds of whole exchanges.

What the `base64` and `serde_json` crates compute is not proved. Each call stands in a small function
marked `external_body`, whose doc comment says what is taken on trust.

`app/` is ordinary Rust around the library: the sockets, reading messages with `serde`, and
floating-point samples and times. `tests/` runs the library.
