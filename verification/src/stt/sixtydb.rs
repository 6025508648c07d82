//! Speech-to-text via the 60db streaming WebSocket API.
//!
//! Audio goes up as base64 LINEAR16 inside JSON `audio` frames; the server replies with
//! transcription events that carry `is_final` and `speech_final` flags.
use crate::codec::{base64_bytes, base64_len, base64_text, encode_base64, stands_for};
use crate::json::{
    bool_value, compact_text, documents, empty_object, insert_member, integer_value, list_value,
    object_value, text_value, write_compact, Json,
};
use crate::pcm::{law_samples_survive_bytes, pcm16_to_le, pcm_bytes, pcm_samples};
use crate::stt::SttResult;
use crate::text::{blank, is_blank, joined, same_text};
use vstd::prelude::*;

verus! {

/// 60db requires `utterance_end_ms` to be at least this.
pub const MIN_UTTERANCE_END_MS: u32 = 300;

/// Credentials and options for 60db.
pub struct SixtyDbStt {
    api_key: String,
    language: String,
    /// Silence (ms) after speech before an utterance is finalized.
    utterance_end_ms: u32,
}

/// A [`SixtyDbStt`], with its texts by their views.
pub ghost struct SixtyDbSttView {
    pub api_key: Seq<char>,
    pub language: Seq<char>,
    pub utterance_end_ms: u32,
}

impl View for SixtyDbStt {
    type V = SixtyDbSttView;

    closed spec fn view(&self) -> SixtyDbSttView {
        SixtyDbSttView {
            api_key: self.api_key@,
            language: self.language@,
            utterance_end_ms: self.utterance_end_ms,
        }
    }
}

/// The silence asked of 60db for a configured silence of `endpointing_ms`.
pub open spec fn utterance_end(endpointing_ms: u32) -> u32 {
    if endpointing_ms < MIN_UTTERANCE_END_MS {
        MIN_UTTERANCE_END_MS
    } else {
        endpointing_ms
    }
}

/// Where a session with this key connects to.
pub open spec fn stt_url(api_key: Seq<char>) -> Seq<char> {
    "wss://api.60db.ai/ws/stt?apiKey="@ + api_key
}

/// The frame that starts a session.
pub open spec fn start_frame(config: SixtyDbSttView, sample_rate: u32) -> Json {
    Json::Object(
        map![
            "type"@ => Json::Text("start"@),
            "languages"@ => Json::List(seq![Json::Text(config.language)]),
            "config"@ => Json::Object(map![
                "encoding"@ => Json::Text("linear"@),
                "sample_rate"@ => Json::Integer(sample_rate as nat),
                "continuous_mode"@ => Json::Bool(true),
                "utterance_end_ms"@ => Json::Integer(config.utterance_end_ms as nat),
            ]),
        ],
    )
}

/// The frame that carries audio, in base64.
pub open spec fn audio_frame(audio: Seq<char>, sample_rate: u32) -> Json {
    Json::Object(
        map![
            "type"@ => Json::Text("audio"@),
            "audio"@ => Json::Text(audio),
            "encoding"@ => Json::Text("linear"@),
            "sample_rate"@ => Json::Integer(sample_rate as nat),
        ],
    )
}

/// The samples in the base64 audio of a frame.
pub open spec fn samples_in(audio: Seq<char>) -> Option<Seq<i16>> {
    match base64_bytes(audio) {
        Ok(bytes) => Some(pcm_samples(bytes)),
        Err(_) => None,
    }
}

/// The frame that ends a session.
pub open spec fn stop_frame() -> Json {
    Json::Object(map!["type"@ => Json::Text("stop"@)])
}

/// What opens a session: connect to `url`, then send `start`.
pub struct SessionPlan {
    pub url: String,
    pub start: String,
    /// The language that `start` asks for.
    pub language: String,
    /// The silence that `start` asks for.
    pub utterance_end_ms: u32,
}

impl SixtyDbStt {
    #[verifier::type_invariant]
    closed spec fn waits_long_enough(self) -> bool {
        self.utterance_end_ms >= MIN_UTTERANCE_END_MS
    }

    /// A configuration with these credentials and options. A silence that is too short for 60db is
    /// raised to the shortest that it takes.
    pub fn new(api_key: String, language: String, endpointing_ms: u32) -> (config: SixtyDbStt)
        ensures
            config@ == (SixtyDbSttView {
                api_key: api_key@,
                language: language@,
                utterance_end_ms: utterance_end(endpointing_ms),
            }),
            endpointing_ms >= MIN_UTTERANCE_END_MS ==> config@.utterance_end_ms == endpointing_ms,
            endpointing_ms < MIN_UTTERANCE_END_MS ==> config@.utterance_end_ms
                == MIN_UTTERANCE_END_MS,
    {
        let utterance_end_ms: u32 = if endpointing_ms < MIN_UTTERANCE_END_MS {
            MIN_UTTERANCE_END_MS
        } else {
            endpointing_ms
        };
        SixtyDbStt { api_key, language, utterance_end_ms }
    }

    /// How to open a session. `sample_rate` is the rate of the audio that will be sent. Whatever the
    /// configuration, 60db is asked for a silence that it takes.
    pub fn create_session(&self, sample_rate: u32) -> (plan: SessionPlan)
        ensures
            plan.url@ == stt_url(self@.api_key),
            plan.start@ == compact_text(start_frame(self@, sample_rate)),
            plan.language@ == self@.language,
            plan.utterance_end_ms == self@.utterance_end_ms,
            self@.utterance_end_ms >= MIN_UTTERANCE_END_MS,
    {
        proof {
            use_type_invariant(self);
        }
        let mut languages: Vec<serde_json::Value> = Vec::new();
        languages.push(text_value(self.language.as_str()));
        assert(documents(languages@) == seq![Json::Text(self@.language)]);
        let mut config = empty_object();
        insert_member(&mut config, "encoding", text_value("linear"));
        insert_member(&mut config, "sample_rate", integer_value(sample_rate));
        insert_member(&mut config, "continuous_mode", bool_value(true));
        insert_member(&mut config, "utterance_end_ms", integer_value(self.utterance_end_ms));
        let mut start = empty_object();
        insert_member(&mut start, "type", text_value("start"));
        insert_member(&mut start, "languages", list_value(languages));
        insert_member(&mut start, "config", object_value(config));
        SessionPlan {
            url: joined("wss://api.60db.ai/ws/stt?apiKey=", self.api_key.as_str()),
            start: write_compact(&object_value(start)),
            language: self.language.clone(),
            utterance_end_ms: self.utterance_end_ms,
        }
    }
}

/// A word of a transcript. `S` is the type of times in seconds.
#[derive(Debug)]
pub struct SdbWord<S> {
    /// When the word ends.
    pub end: Option<S>,
}

/// A message of the server.
#[derive(Debug)]
pub struct SdbMessage<S> {
    pub msg_type: Option<String>,
    pub text: Option<String>,
    pub is_final: Option<bool>,
    pub speech_final: Option<bool>,
    pub words: Option<Vec<SdbWord<S>>>,
    /// Present on `error` messages.
    pub message: Option<String>,
}

/// A [`SdbMessage`], with its texts by their views.
pub ghost struct SdbMessageView<S> {
    pub msg_type: Option<Seq<char>>,
    pub text: Option<Seq<char>>,
    pub is_final: Option<bool>,
    pub speech_final: Option<bool>,
    pub words: Option<Seq<SdbWord<S>>>,
    pub message: Option<Seq<char>>,
}

/// A text that may be missing, by its view.
pub open spec fn text_view(text: Option<String>) -> Option<Seq<char>> {
    match text {
        Some(text) => Some(text@),
        None => None,
    }
}

impl<S> View for SdbMessage<S> {
    type V = SdbMessageView<S>;

    open spec fn view(&self) -> SdbMessageView<S> {
        SdbMessageView {
            msg_type: text_view(self.msg_type),
            text: text_view(self.text),
            is_final: self.is_final,
            speech_final: self.speech_final,
            words: match self.words {
                Some(words) => Some(words@),
                None => None,
            },
            message: text_view(self.message),
        }
    }
}

impl<S> SdbMessageView<S> {
    /// The server reports an error.
    pub open spec fn is_error(self) -> bool {
        self.msg_type == Some("error"@)
    }

    /// The first pass of a transcript that the server is going to refine.
    pub open spec fn is_intermediate(self) -> bool {
        self.is_final == Some(true) && self.speech_final == Some(false)
    }

    /// A transcript to hand on: final, not going to be refined, and not blank.
    pub open spec fn is_finalized(self) -> bool {
        &&& !self.is_error()
        &&& self.is_final == Some(true)
        &&& self.speech_final != Some(false)
        &&& self.text is Some
        &&& !blank(self.text->0)
    }

    /// When the utterance ended: when its last word did, where that is known, and otherwise when the
    /// audio sent so far ends.
    pub open spec fn utterance_end_secs(self, audio_sent_secs: S) -> S {
        match self.words {
            Some(words) => if words.len() > 0 && words.last().end is Some {
                words.last().end->0
            } else {
                audio_sent_secs
            },
            None => audio_sent_secs,
        }
    }
}

/// How long ago an utterance ended when its transcript arrived.
#[derive(Debug, Clone, Copy)]
pub struct Timing {
    /// How much audio was sent after the utterance.
    pub backlog_ms: u64,
    /// How long ago the last audio was sent.
    pub since_last_send_ms: u64,
}

impl Timing {
    /// The latency, in milliseconds.
    pub open spec fn latency_ms(self) -> int {
        self.backlog_ms + self.since_last_send_ms
    }
}

impl<S: Copy> SdbMessage<S> {
    /// Whether the server reports an error.
    pub fn is_error(&self) -> (error: bool)
        ensures
            error == self@.is_error(),
    {
        match &self.msg_type {
            Some(kind) => same_text(kind.as_str(), "error"),
            None => false,
        }
    }

    /// Whether the message is a transcript to hand on.
    pub fn is_finalized(&self) -> (finalized: bool)
        ensures
            finalized == self@.is_finalized(),
    {
        if self.is_error() {
            return false;
        }
        if self.is_final != Some(true) {
            return false;
        }
        // The first of two passes: the refined transcript is still to come.
        if self.speech_final == Some(false) {
            return false;
        }
        match &self.text {
            Some(text) => !is_blank(text.as_str()),
            None => false,
        }
    }

    /// The transcript that a message with this timing gives, or `None` if the message is one to read
    /// past.
    pub fn transcript(&self, timing: Timing) -> (result: Option<SttResult>)
        requires
            self@.is_finalized() ==> timing.latency_ms() <= u64::MAX,
        ensures
            match result {
                Some(transcript) => {
                    &&& self@.is_finalized()
                    &&& transcript.text@ == self@.text->0
                    &&& transcript.stt_latency_ms == timing.latency_ms()
                },
                None => !self@.is_finalized(),
            },
    {
        if !self.is_finalized() {
            return None;
        }
        let text: String = match &self.text {
            Some(text) => text.clone(),
            None => String::new(),
        };
        Some(SttResult { text, stt_latency_ms: timing.backlog_ms + timing.since_last_send_ms })
    }
}

/// `backlog` can give `ms` for a message that arrives when `audio_sent_secs` of audio have been
/// sent: it is handed that, and when the utterance ended.
pub open spec fn backlog_of<S, B: Fn(S, S) -> u64>(
    backlog: B,
    message: SdbMessageView<S>,
    audio_sent_secs: S,
    ms: u64,
) -> bool {
    call_ensures(backlog, (audio_sent_secs, message.utterance_end_secs(audio_sent_secs)), ms)
}

/// If the message is a transcript to hand on, `backlog` takes its times, and whatever it gives, the
/// latency is one that a [`SttResult`] can hold.
pub open spec fn measurable<S, B: Fn(S, S) -> u64>(
    backlog: B,
    message: SdbMessageView<S>,
    audio_sent_secs: S,
    since_last_send_ms: u64,
) -> bool {
    message.is_finalized() ==> {
        &&& call_requires(
            backlog,
            (audio_sent_secs, message.utterance_end_secs(audio_sent_secs)),
        )
        &&& forall|ms: u64| #[trigger]
            backlog_of(backlog, message, audio_sent_secs, ms) ==> ms + since_last_send_ms
                <= u64::MAX
    }
}

/// What a read of the socket gave.
pub enum SttEvent<S> {
    /// A text frame that holds a message, and how long before it the last audio was sent, in
    /// milliseconds.
    Message(SdbMessage<S>, u64),
    /// A text frame that holds none.
    Unparsed,
    /// Any other frame.
    Other,
    /// There is nothing to read yet.
    WouldBlock,
    /// The read failed, and why.
    Failed(String),
}

/// A [`SttEvent`], with its texts by their views, and with the whole timing of a message.
pub ghost enum SttEventView<S> {
    Message(SdbMessageView<S>, Timing),
    Unparsed,
    Other,
    WouldBlock,
    Failed(Seq<char>),
}

impl<S> SttEvent<S> {
    /// The event, where a message that it holds comes with this backlog.
    pub open spec fn timed(self, backlog_ms: u64) -> SttEventView<S> {
        match self {
            SttEvent::Message(message, since_last_send_ms) => SttEventView::Message(
                message@,
                Timing { backlog_ms, since_last_send_ms },
            ),
            SttEvent::Unparsed => SttEventView::Unparsed,
            SttEvent::Other => SttEventView::Other,
            SttEvent::WouldBlock => SttEventView::WouldBlock,
            SttEvent::Failed(cause) => SttEventView::Failed(cause@),
        }
    }
}

/// What a poll does after a read.
pub enum PollStep {
    /// Read on.
    Continue,
    /// Return the transcript.
    Ready(SttResult),
    /// Return that there is no transcript yet.
    Pending,
    /// Fail, and say so.
    Failed(String),
}

/// A [`PollStep`], by its view: a transcript is its text and its latency.
pub ghost enum PollStepView {
    Continue,
    Ready(Seq<char>, int),
    Pending,
    Failed(Seq<char>),
}

impl View for PollStep {
    type V = PollStepView;

    open spec fn view(&self) -> PollStepView {
        match self {
            PollStep::Continue => PollStepView::Continue,
            PollStep::Ready(result) => PollStepView::Ready(
                result.text@,
                result.stt_latency_ms as int,
            ),
            PollStep::Pending => PollStepView::Pending,
            PollStep::Failed(cause) => PollStepView::Failed(cause@),
        }
    }
}

/// What a poll does after a read.
pub open spec fn poll_step<S>(event: SttEventView<S>) -> PollStepView {
    match event {
        SttEventView::Message(message, timing) => if message.is_finalized() {
            PollStepView::Ready(message.text->0, timing.latency_ms())
        } else {
            PollStepView::Continue
        },
        SttEventView::Unparsed => PollStepView::Continue,
        SttEventView::Other => PollStepView::Continue,
        SttEventView::WouldBlock => PollStepView::Pending,
        SttEventView::Failed(cause) => PollStepView::Failed("60db WebSocket error: "@ + cause),
    }
}

/// What a write of audio to the socket gave.
pub enum AudioSend<S, I> {
    /// It was sent: how much audio has now been sent in all, and when that was.
    Sent { audio_sent_secs: S, now: I },
    /// The socket takes nothing at the moment.
    WouldBlock,
    /// The write failed, and why.
    Failed(String),
}

/// A session under way. `S` is the type of times in seconds, `I` that of instants.
pub struct SixtyDbSession<S, I> {
    /// How much audio has been sent.
    pub audio_sent_secs: S,
    /// When the last audio was sent.
    pub last_send_time: I,
    /// Sample rate of the audio, in hertz.
    pub sample_rate: u32,
}

/// The text of the frame that carries `audio`, which is in base64.
pub fn audio_text(audio: &str, sample_rate: u32) -> (text: String)
    ensures
        text@ == compact_text(audio_frame(audio@, sample_rate)),
{
    let mut frame = empty_object();
    insert_member(&mut frame, "type", text_value("audio"));
    insert_member(&mut frame, "audio", text_value(audio));
    insert_member(&mut frame, "encoding", text_value("linear"));
    insert_member(&mut frame, "sample_rate", integer_value(sample_rate));
    write_compact(&object_value(frame))
}

impl<S: Copy, I> SixtyDbSession<S, I> {
    /// A session that has sent nothing yet.
    pub fn new(no_audio: S, now: I, sample_rate: u32) -> (session: SixtyDbSession<S, I>)
        ensures
            session == (SixtyDbSession {
                audio_sent_secs: no_audio,
                last_send_time: now,
                sample_rate,
            }),
    {
        SixtyDbSession { audio_sent_secs: no_audio, last_send_time: now, sample_rate }
    }

    /// The text of the frame that carries `samples`. What it carries decodes to them again.
    pub fn audio_message(&self, samples: &[i16]) -> (text: String)
        requires
            base64_len(samples@.len() * 2) <= isize::MAX,
        ensures
            text@ == compact_text(
                audio_frame(base64_text(pcm_bytes(samples@)), self.sample_rate),
            ),
            samples_in(base64_text(pcm_bytes(samples@))) == Some(samples@),
            stands_for(base64_text(pcm_bytes(samples@)), pcm_bytes(samples@)),
    {
        proof {
            law_samples_survive_bytes(samples@);
        }
        let bytes: Vec<u8> = pcm16_to_le(samples);
        let audio: String = encode_base64(bytes.as_slice());
        audio_text(audio.as_str(), self.sample_rate)
    }

    /// What to take up when `count` samples were sent at `now`. `advance` adds to the audio sent so
    /// far the duration of a number of samples at a sample rate.
    pub fn sent<A: Fn(S, usize, u32) -> S>(&self, count: usize, now: I, advance: A) -> (outcome:
        AudioSend<S, I>)
        requires
            call_requires(advance, (self.audio_sent_secs, count, self.sample_rate)),
        ensures
            outcome matches AudioSend::Sent { audio_sent_secs: total, now: at } && at == now
                && call_ensures(advance, (self.audio_sent_secs, count, self.sample_rate), total),
    {
        AudioSend::Sent {
            audio_sent_secs: advance(self.audio_sent_secs, count, self.sample_rate),
            now,
        }
    }

    /// Take up what a write of audio gave. Audio that the socket does not take is dropped, and
    /// counts as never sent.
    pub fn send_audio(&mut self, outcome: AudioSend<S, I>) -> (result: Result<(), String>)
        ensures
            match outcome {
                AudioSend::Sent { audio_sent_secs, now } => result is Ok && *final(self) == (
                SixtyDbSession {
                    audio_sent_secs,
                    last_send_time: now,
                    sample_rate: old(self).sample_rate,
                }),
                AudioSend::WouldBlock => result is Ok && *final(self) == *old(self),
                AudioSend::Failed(cause) => {
                    &&& *final(self) == *old(self)
                    &&& result matches Err(error)
                    &&& error@ == "Failed to send audio to 60db: "@ + cause@
                },
            },
    {
        match outcome {
            AudioSend::Sent { audio_sent_secs, now } => {
                self.audio_sent_secs = audio_sent_secs;
                self.last_send_time = now;
                Ok(())
            },
            AudioSend::WouldBlock => Ok(()),
            AudioSend::Failed(cause) => Err(
                joined("Failed to send audio to 60db: ", cause.as_str()),
            ),
        }
    }

    /// When the utterance of a transcript ended.
    pub fn utterance_end_secs(&self, message: &SdbMessage<S>) -> (end: S)
        ensures
            end == message@.utterance_end_secs(self.audio_sent_secs),
    {
        match &message.words {
            Some(words) => {
                if words.len() > 0 {
                    match words[words.len() - 1].end {
                        Some(end) => end,
                        None => self.audio_sent_secs,
                    }
                } else {
                    self.audio_sent_secs
                }
            },
            None => self.audio_sent_secs,
        }
    }

    /// How long ago the utterance of a message ended, for a message that arrives
    /// `since_last_send_ms` after the last audio was sent. `backlog` gives the time from the end of
    /// the utterance, its second argument, to the end of the audio sent, its first.
    pub fn timing<B: Fn(S, S) -> u64>(
        &self,
        message: &SdbMessage<S>,
        since_last_send_ms: u64,
        backlog: B,
    ) -> (timing: Timing)
        requires
            call_requires(
                backlog,
                (self.audio_sent_secs, message@.utterance_end_secs(self.audio_sent_secs)),
            ),
        ensures
            call_ensures(
                backlog,
                (self.audio_sent_secs, message@.utterance_end_secs(self.audio_sent_secs)),
                timing.backlog_ms,
            ),
            timing.since_last_send_ms == since_last_send_ms,
    {
        let end: S = self.utterance_end_secs(message);
        Timing { backlog_ms: backlog(self.audio_sent_secs, end), since_last_send_ms }
    }

    /// Turn a message into a transcript, or `None` if it is one to read past. The message arrives
    /// `since_last_send_ms` after the last audio was sent; `backlog` is as for
    /// [`SixtyDbSession::timing`]. The latency is what `backlog` gives for the audio sent and the end
    /// of the utterance, and the time since the last send on top.
    pub fn handle_message<B: Fn(S, S) -> u64>(
        &self,
        message: &SdbMessage<S>,
        since_last_send_ms: u64,
        backlog: B,
    ) -> (result: Option<SttResult>)
        requires
            measurable(backlog, message@, self.audio_sent_secs, since_last_send_ms),
        ensures
            match result {
                Some(transcript) => {
                    &&& message@.is_finalized()
                    &&& transcript.text@ == message@.text->0
                    &&& exists|ms: u64|
                        {
                            &&& #[trigger] backlog_of(backlog, message@, self.audio_sent_secs, ms)
                            &&& transcript.stt_latency_ms == ms + since_last_send_ms
                        }
                },
                None => !message@.is_finalized(),
            },
    {
        if !message.is_finalized() {
            return None;
        }
        let timing: Timing = self.timing(message, since_last_send_ms, backlog);
        assert(backlog_of(backlog, message@, self.audio_sent_secs, timing.backlog_ms));
        message.transcript(timing)
    }

    /// What to do after a read. `backlog` is as for [`SixtyDbSession::timing`]: a transcript that is
    /// returned has the latency that [`SixtyDbSession::handle_message`] gives it.
    pub fn poll_transcript<B: Fn(S, S) -> u64>(&self, event: SttEvent<S>, backlog: B) -> (step:
        PollStep)
        requires
            event matches SttEvent::Message(message, since_last_send_ms) ==> measurable(
                backlog,
                message@,
                self.audio_sent_secs,
                since_last_send_ms,
            ),
        ensures
            exists|ms: u64|
                {
                    &&& step@ == poll_step(#[trigger] event.timed(ms))
                    &&& event matches SttEvent::Message(message, _) ==> (message@.is_finalized()
                        ==> backlog_of(backlog, message@, self.audio_sent_secs, ms))
                },
    {
        let ghost read = event;
        let ghost without_backlog = read.timed(0);
        match event {
            SttEvent::Message(message, since_last_send_ms) => {
                match self.handle_message(&message, since_last_send_ms, backlog) {
                    Some(result) => {
                        proof {
                            let ms = choose|ms: u64|
                                {
                                    &&& #[trigger] backlog_of(
                                        backlog,
                                        message@,
                                        self.audio_sent_secs,
                                        ms,
                                    )
                                    &&& result.stt_latency_ms == ms + since_last_send_ms
                                };
                            assert(poll_step(read.timed(ms)) == PollStepView::Ready(
                                result.text@,
                                result.stt_latency_ms as int,
                            ));
                        }
                        PollStep::Ready(result)
                    },
                    None => PollStep::Continue,
                }
            },
            SttEvent::Unparsed | SttEvent::Other => PollStep::Continue,
            SttEvent::WouldBlock => PollStep::Pending,
            SttEvent::Failed(cause) => PollStep::Failed(
                joined("60db WebSocket error: ", cause.as_str()),
            ),
        }
    }

    /// The text of the frame that ends the session.
    pub fn close(&self) -> (text: String)
        ensures
            text@ == compact_text(stop_frame()),
    {
        let mut stop = empty_object();
        insert_member(&mut stop, "type", text_value("stop"));
        write_compact(&object_value(stop))
    }
}

} // verus!
