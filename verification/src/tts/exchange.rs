//! One synthesis on a live connection: open a context, hand the text over, and collect the audio.
//!
//! An [`Exchange`] holds the decisions. Whoever owns the socket asks it for the next action, does
//! that, and tells it what happened.
use crate::codec::{
    base64_bytes, base64_text, decode_base64, decoded, law_decoding_undoes_encoding, Base64Fault,
};
use crate::json::{
    compact_text, document, empty_object, insert_member, integer_value, object_value, text_value,
    whole_value, write_compact, Json,
};
use crate::pcm::{pcm16_from_le, pcm_samples};
use crate::tts::error::{outcome, TtsError, TtsErrorView};
use vstd::prelude::*;

verus! {

/// Max time to wait for a single synthesis exchange before giving up, in milliseconds.
pub const READ_TIMEOUT_MS: u64 = 15000;

/// A piece of synthesized audio, in base64.
#[derive(Debug)]
pub struct AudioChunk {
    pub audio_content: Option<String>,
}

/// An error that the server reports.
#[derive(Debug)]
pub struct SdbTtsError {
    pub message: Option<String>,
}

/// A message of the server.
#[derive(Debug)]
pub struct SdbTtsMessage {
    pub audio_chunk: Option<AudioChunk>,
    /// Whether the message says that all audio has been sent.
    pub flush_completed: bool,
    pub error: Option<SdbTtsError>,
}

/// What a message tells: the base64 audio in it, whether it ends the audio, and the error's text.
pub ghost struct TtsMessageView {
    pub audio: Option<Seq<char>>,
    pub flush_completed: bool,
    pub error: Option<Seq<char>>,
}

impl View for SdbTtsMessage {
    type V = TtsMessageView;

    open spec fn view(&self) -> TtsMessageView {
        TtsMessageView {
            audio: match self.audio_chunk {
                Some(chunk) => match chunk.audio_content {
                    Some(content) => Some(content@),
                    None => None,
                },
                None => None,
            },
            flush_completed: self.flush_completed,
            error: match self.error {
                Some(error) => match error.message {
                    Some(message) => Some(message@),
                    None => Some(Seq::empty()),
                },
                None => None,
            },
        }
    }
}

/// What a read of the socket gave.
pub enum ReadEvent {
    /// A text frame that holds a message.
    Message(SdbTtsMessage),
    /// A text frame that holds none.
    Unparsed,
    /// A binary frame: raw audio.
    Binary(Vec<u8>),
    /// The server closed the connection.
    Closed,
    /// Any other frame.
    Other,
    /// The read failed, and why.
    Failed(String),
}

/// A [`ReadEvent`], by its view.
pub ghost enum ReadEventView {
    Message(TtsMessageView),
    Unparsed,
    Binary(Seq<u8>),
    Closed,
    Other,
    Failed(Seq<char>),
}

impl View for ReadEvent {
    type V = ReadEventView;

    open spec fn view(&self) -> ReadEventView {
        match self {
            ReadEvent::Message(message) => ReadEventView::Message(message@),
            ReadEvent::Unparsed => ReadEventView::Unparsed,
            ReadEvent::Binary(bytes) => ReadEventView::Binary(bytes@),
            ReadEvent::Closed => ReadEventView::Closed,
            ReadEvent::Other => ReadEventView::Other,
            ReadEvent::Failed(cause) => ReadEventView::Failed(cause@),
        }
    }
}

/// What a write to the socket gave.
pub enum SendEvent {
    Sent,
    /// The write failed, and why.
    Failed(String),
}

/// A [`SendEvent`], by its view.
pub ghost enum SendEventView {
    Sent,
    Failed(Seq<char>),
}

impl View for SendEvent {
    type V = SendEventView;

    open spec fn view(&self) -> SendEventView {
        match self {
            SendEvent::Sent => SendEventView::Sent,
            SendEvent::Failed(cause) => SendEventView::Failed(cause@),
        }
    }
}

/// How far an exchange has come.
#[derive(Debug, Clone, Copy, PartialEq, Eq, Structural)]
pub enum Phase {
    CreateContext,
    SendText,
    FlushContext,
    Collect,
    CloseContext,
    Finished,
}

/// What the owner of the socket is to do next.
pub enum Action {
    /// Send this text frame, and report with [`Exchange::on_send`].
    Send(String),
    /// Read a frame, waiting no longer than this for it, and report with [`Exchange::on_read`].
    Read { within_ms: u64 },
    /// Nothing: the audio is complete.
    Done,
}

/// An [`Action`], by its view.
pub ghost enum ActionView {
    Send(Seq<char>),
    Read { within_ms: u64 },
    Done,
}

impl View for Action {
    type V = ActionView;

    open spec fn view(&self) -> ActionView {
        match self {
            Action::Send(text) => ActionView::Send(text@),
            Action::Read { within_ms } => ActionView::Read { within_ms: *within_ms },
            Action::Done => ActionView::Done,
        }
    }
}

/// How a context is to speak. The settings of the voice are whole numbers, and go out as
/// floating-point ones.
pub struct Voice {
    pub voice_id: String,
    /// Sample rate of the audio, in hertz.
    pub sample_rate: u32,
    pub speed: u32,
    pub stability: u32,
    pub similarity: u32,
}

/// A [`Voice`], by its view.
pub ghost struct VoiceView {
    pub voice_id: Seq<char>,
    pub sample_rate: u32,
    pub speed: u32,
    pub stability: u32,
    pub similarity: u32,
}

impl View for Voice {
    type V = VoiceView;

    open spec fn view(&self) -> VoiceView {
        VoiceView {
            voice_id: self.voice_id@,
            sample_rate: self.sample_rate,
            speed: self.speed,
            stability: self.stability,
            similarity: self.similarity,
        }
    }
}

/// The frame that opens a context.
pub open spec fn create_context_frame(context_id: Seq<char>, voice: VoiceView) -> Json {
    Json::Object(
        map![
            "create_context"@ => Json::Object(map![
                "context_id"@ => Json::Text(context_id),
                "voice_id"@ => Json::Text(voice.voice_id),
                "audio_config"@ => Json::Object(map![
                    "audio_encoding"@ => Json::Text("LINEAR16"@),
                    "sample_rate_hertz"@ => Json::Integer(voice.sample_rate as nat),
                ]),
                "speed"@ => Json::Whole(voice.speed as nat),
                "stability"@ => Json::Whole(voice.stability as nat),
                "similarity"@ => Json::Whole(voice.similarity as nat),
            ]),
        ],
    )
}

/// The frame that hands the text over.
pub open spec fn send_text_frame(context_id: Seq<char>, text: Seq<char>) -> Json {
    Json::Object(
        map![
            "send_text"@ => Json::Object(map![
                "context_id"@ => Json::Text(context_id),
                "text"@ => Json::Text(text),
            ]),
        ],
    )
}

/// The frame that asks for all audio of a context.
pub open spec fn flush_context_frame(context_id: Seq<char>) -> Json {
    Json::Object(
        map!["flush_context"@ => Json::Object(map!["context_id"@ => Json::Text(context_id)])],
    )
}

/// The frame that closes a context.
pub open spec fn close_context_frame(context_id: Seq<char>) -> Json {
    Json::Object(
        map!["close_context"@ => Json::Object(map!["context_id"@ => Json::Text(context_id)])],
    )
}

/// An object with the single member `key`.
fn wrapped(key: &str, value: serde_json::Value) -> (outer: serde_json::Value)
    ensures
        document(outer) == Json::Object(map![key@ => document(value)]),
{
    let mut object = empty_object();
    insert_member(&mut object, key, value);
    object_value(object)
}

/// The text of a frame that names a context and nothing else.
fn context_text(key: &str, context_id: &str) -> (text: String)
    ensures
        text@ == compact_text(
            Json::Object(map![key@ => Json::Object(map!["context_id"@ => Json::Text(context_id@)])]),
        ),
{
    write_compact(&wrapped(key, wrapped("context_id", text_value(context_id))))
}

/// The text of the frame that opens a context.
pub fn create_context_text(context_id: &str, voice: &Voice) -> (text: String)
    ensures
        text@ == compact_text(create_context_frame(context_id@, voice@)),
{
    let mut audio_config = empty_object();
    insert_member(&mut audio_config, "audio_encoding", text_value("LINEAR16"));
    insert_member(&mut audio_config, "sample_rate_hertz", integer_value(voice.sample_rate));
    let mut context = empty_object();
    insert_member(&mut context, "context_id", text_value(context_id));
    insert_member(&mut context, "voice_id", text_value(voice.voice_id.as_str()));
    insert_member(&mut context, "audio_config", object_value(audio_config));
    insert_member(&mut context, "speed", whole_value(voice.speed));
    insert_member(&mut context, "stability", whole_value(voice.stability));
    insert_member(&mut context, "similarity", whole_value(voice.similarity));
    write_compact(&wrapped("create_context", object_value(context)))
}

/// The text of the frame that hands the text over.
pub fn send_text_text(context_id: &str, speech: &str) -> (text: String)
    ensures
        text@ == compact_text(send_text_frame(context_id@, speech@)),
{
    let mut request = empty_object();
    insert_member(&mut request, "context_id", text_value(context_id));
    insert_member(&mut request, "text", text_value(speech));
    write_compact(&wrapped("send_text", object_value(request)))
}

/// The text of the frame that asks for all audio of a context.
pub fn flush_context_text(context_id: &str) -> (text: String)
    ensures
        text@ == compact_text(flush_context_frame(context_id@)),
{
    context_text("flush_context", context_id)
}

/// The text of the frame that closes a context.
pub fn close_context_text(context_id: &str) -> (text: String)
    ensures
        text@ == compact_text(close_context_frame(context_id@)),
{
    context_text("close_context", context_id)
}

/// An exchange under way.
pub struct Exchange {
    phase: Phase,
    create_context: String,
    send_text: String,
    flush_context: String,
    close_context: String,
    pcm: Vec<u8>,
}

/// An [`Exchange`]: its phase, the frames it sends, and the audio collected so far.
#[verifier::ext_equal]
pub ghost struct ExchangeView {
    pub phase: Phase,
    pub create_context: Seq<char>,
    pub send_text: Seq<char>,
    pub flush_context: Seq<char>,
    pub close_context: Seq<char>,
    pub pcm: Seq<u8>,
}

impl View for Exchange {
    type V = ExchangeView;

    closed spec fn view(&self) -> ExchangeView {
        ExchangeView {
            phase: self.phase,
            create_context: self.create_context@,
            send_text: self.send_text@,
            flush_context: self.flush_context@,
            close_context: self.close_context@,
            pcm: self.pcm@,
        }
    }
}

/// An exchange that has done nothing yet.
pub open spec fn fresh_exchange(
    context_id: Seq<char>,
    voice: VoiceView,
    text: Seq<char>,
) -> ExchangeView {
    ExchangeView {
        phase: Phase::CreateContext,
        create_context: compact_text(create_context_frame(context_id, voice)),
        send_text: compact_text(send_text_frame(context_id, text)),
        flush_context: compact_text(flush_context_frame(context_id)),
        close_context: compact_text(close_context_frame(context_id)),
        pcm: Seq::empty(),
    }
}

/// In this phase a frame goes out.
pub open spec fn sending(phase: Phase) -> bool {
    phase != Phase::Collect && phase != Phase::Finished
}

/// An exchange that began `elapsed_ms` ago and is still waiting for audio has waited too long.
pub open spec fn overdue(exchange: ExchangeView, elapsed_ms: u64) -> bool {
    exchange.phase == Phase::Collect && elapsed_ms >= READ_TIMEOUT_MS
}

/// The next action of an exchange that began `elapsed_ms` ago. It waits for audio only for what is
/// left of its time, and gives up when nothing is.
pub open spec fn next_action(exchange: ExchangeView, elapsed_ms: u64) -> Result<
    ActionView,
    TtsErrorView,
> {
    match exchange.phase {
        Phase::CreateContext => Ok(ActionView::Send(exchange.create_context)),
        Phase::SendText => Ok(ActionView::Send(exchange.send_text)),
        Phase::FlushContext => Ok(ActionView::Send(exchange.flush_context)),
        Phase::Collect => if overdue(exchange, elapsed_ms) {
            Err(TtsErrorView::TimedOut)
        } else {
            Ok(ActionView::Read { within_ms: (READ_TIMEOUT_MS - elapsed_ms) as u64 })
        },
        Phase::CloseContext => Ok(ActionView::Send(exchange.close_context)),
        Phase::Finished => Ok(ActionView::Done),
    }
}

/// The phase after a write, or the error that ends the exchange. Closing the context is best
/// effort: the server drops the context in any case.
pub open spec fn after_send(phase: Phase, event: SendEventView) -> Result<Phase, TtsErrorView> {
    match (phase, event) {
        (Phase::CreateContext, SendEventView::Sent) => Ok(Phase::SendText),
        (Phase::CreateContext, SendEventView::Failed(cause)) => Err(
            TtsErrorView::CreateContextFailed(cause),
        ),
        (Phase::SendText, SendEventView::Sent) => Ok(Phase::FlushContext),
        (Phase::SendText, SendEventView::Failed(cause)) => Err(TtsErrorView::SendTextFailed(cause)),
        (Phase::FlushContext, SendEventView::Sent) => Ok(Phase::Collect),
        (Phase::FlushContext, SendEventView::Failed(cause)) => Err(
            TtsErrorView::FlushContextFailed(cause),
        ),
        _ => Ok(Phase::Finished),
    }
}

/// The audio after the contents of a message, and whether that was the last of it. `audio` is what
/// the message's base64 text decodes to, where it has one.
pub open spec fn after_audio(
    pcm: Seq<u8>,
    audio: Option<Result<Seq<u8>, Base64Fault>>,
    flush_completed: bool,
) -> Result<(Seq<u8>, bool), TtsErrorView> {
    match audio {
        Some(Ok(bytes)) => Ok((pcm + bytes, flush_completed)),
        Some(Err(fault)) => Err(TtsErrorView::BadAudio(fault)),
        None => Ok((pcm, flush_completed)),
    }
}

/// What the base64 audio of a message decodes to.
pub open spec fn message_audio(message: TtsMessageView) -> Option<Result<Seq<u8>, Base64Fault>> {
    match message.audio {
        Some(text) => Some(base64_bytes(text)),
        None => None,
    }
}

/// The base64 audio that an event brings.
pub open spec fn audio_in(event: ReadEventView) -> Option<Seq<char>> {
    match event {
        ReadEventView::Message(message) => if message.error is None {
            message.audio
        } else {
            None
        },
        _ => None,
    }
}

/// The audio after a read, and whether it is complete, or the error that ends the exchange.
pub open spec fn after_read(pcm: Seq<u8>, event: ReadEventView) -> Result<
    (Seq<u8>, bool),
    TtsErrorView,
> {
    match event {
        ReadEventView::Message(message) => match message.error {
            Some(text) => Err(TtsErrorView::Server(text)),
            None => after_audio(pcm, message_audio(message), message.flush_completed),
        },
        ReadEventView::Unparsed => Ok((pcm, false)),
        ReadEventView::Binary(bytes) => Ok((pcm + bytes, false)),
        ReadEventView::Closed => Err(TtsErrorView::Closed),
        ReadEventView::Other => Ok((pcm, false)),
        ReadEventView::Failed(cause) => Err(TtsErrorView::ReadFailed(cause)),
    }
}

/// An exchange that has taken up `collected`: the audio, and whether it is complete.
pub open spec fn collected_into(exchange: ExchangeView, collected: (Seq<u8>, bool)) -> ExchangeView {
    ExchangeView {
        phase: if collected.1 {
            Phase::CloseContext
        } else {
            Phase::Collect
        },
        pcm: collected.0,
        ..exchange
    }
}

/// The audio of a message after decoding, by its view.
pub open spec fn decoded_audio(audio: Option<Result<Vec<u8>, Base64Fault>>) -> Option<
    Result<Seq<u8>, Base64Fault>,
> {
    match audio {
        Some(bytes) => Some(decoded(bytes)),
        None => None,
    }
}

impl Exchange {
    /// An exchange that speaks `text` in a context of its own.
    pub fn new(context_id: &str, voice: &Voice, text: &str) -> (exchange: Exchange)
        ensures
            exchange@ == fresh_exchange(context_id@, voice@, text@),
    {
        Exchange {
            phase: Phase::CreateContext,
            create_context: create_context_text(context_id, voice),
            send_text: send_text_text(context_id, text),
            flush_context: flush_context_text(context_id),
            close_context: close_context_text(context_id),
            pcm: Vec::new(),
        }
    }

    /// Whether the exchange, which began `elapsed_ms` ago, has waited too long for its audio.
    pub fn overdue(&self, elapsed_ms: u64) -> (late: bool)
        ensures
            late == overdue(self@, elapsed_ms),
    {
        self.phase == Phase::Collect && elapsed_ms >= READ_TIMEOUT_MS
    }

    /// What is to be done next, `elapsed_ms` after the exchange began.
    pub fn next_action(&self, elapsed_ms: u64) -> (result: Result<Action, TtsError>)
        ensures
            match (next_action(self@, elapsed_ms), result) {
                (Ok(expected), Ok(action)) => action@ == expected,
                (Err(expected), Err(error)) => error@ == expected,
                _ => false,
            },
    {
        if self.overdue(elapsed_ms) {
            return Err(TtsError::TimedOut);
        }
        Ok(
            match self.phase {
                Phase::CreateContext => Action::Send(self.create_context.clone()),
                Phase::SendText => Action::Send(self.send_text.clone()),
                Phase::FlushContext => Action::Send(self.flush_context.clone()),
                Phase::Collect => Action::Read { within_ms: READ_TIMEOUT_MS - elapsed_ms },
                Phase::CloseContext => Action::Send(self.close_context.clone()),
                Phase::Finished => Action::Done,
            },
        )
    }

    /// Take up what a write gave. After an error the exchange is as it was.
    pub fn on_send(&mut self, event: SendEvent) -> (result: Result<(), TtsError>)
        requires
            sending(old(self)@.phase),
        ensures
            match after_send(old(self)@.phase, event@) {
                Ok(phase) => result is Ok && final(self)@ == (ExchangeView {
                    phase,
                    ..old(self)@
                }),
                Err(error) => outcome(result) == Err::<(), TtsErrorView>(error) && final(self)@
                    == old(self)@,
            },
    {
        match (self.phase, event) {
            (Phase::CreateContext, SendEvent::Sent) => {
                self.phase = Phase::SendText;
            },
            (Phase::CreateContext, SendEvent::Failed(cause)) => {
                return Err(TtsError::CreateContextFailed(cause));
            },
            (Phase::SendText, SendEvent::Sent) => {
                self.phase = Phase::FlushContext;
            },
            (Phase::SendText, SendEvent::Failed(cause)) => {
                return Err(TtsError::SendTextFailed(cause));
            },
            (Phase::FlushContext, SendEvent::Sent) => {
                self.phase = Phase::Collect;
            },
            (Phase::FlushContext, SendEvent::Failed(cause)) => {
                return Err(TtsError::FlushContextFailed(cause));
            },
            _ => {
                self.phase = Phase::Finished;
            },
        }
        Ok(())
    }

    /// Take up the contents of a message that reports no error: its audio after decoding, where it
    /// has some, and whether it ends the audio. After an error the exchange is as it was.
    pub fn absorb(
        &mut self,
        audio: Option<Result<Vec<u8>, Base64Fault>>,
        flush_completed: bool,
    ) -> (result: Result<(), TtsError>)
        requires
            old(self)@.phase == Phase::Collect,
        ensures
            match after_audio(old(self)@.pcm, decoded_audio(audio), flush_completed) {
                Ok(collected) => result is Ok && final(self)@ == collected_into(
                    old(self)@,
                    collected,
                ),
                Err(error) => outcome(result) == Err::<(), TtsErrorView>(error) && final(self)@
                    == old(self)@,
            },
    {
        match audio {
            Some(Ok(mut bytes)) => {
                self.pcm.append(&mut bytes);
            },
            Some(Err(fault)) => {
                return Err(TtsError::BadAudio(fault));
            },
            None => {},
        }
        if flush_completed {
            self.phase = Phase::CloseContext;
        }
        Ok(())
    }

    /// Take up what a read gave. After an error the exchange is as it was. Base64 audio adds the bytes
    /// whose text it is; what is the text of no bytes is an error.
    pub fn on_read(&mut self, event: ReadEvent) -> (result: Result<(), TtsError>)
        requires
            old(self)@.phase == Phase::Collect,
        ensures
            match after_read(old(self)@.pcm, event@) {
                Ok(collected) => result is Ok && final(self)@ == collected_into(
                    old(self)@,
                    collected,
                ),
                Err(error) => outcome(result) == Err::<(), TtsErrorView>(error) && final(self)@
                    == old(self)@,
            },
            forall|bytes: Seq<u8>|
                audio_in(event@) == Some(#[trigger] base64_text(bytes)) ==> result is Ok
                    && final(self)@.pcm == old(self)@.pcm + bytes,
            audio_in(event@) is Some && result is Ok ==> exists|bytes: Seq<u8>|
                audio_in(event@) == Some(#[trigger] base64_text(bytes)),
    {
        match event {
            ReadEvent::Message(message) => {
                if let Some(error) = message.error {
                    let text: String = match error.message {
                        Some(text) => text,
                        None => String::new(),
                    };
                    return Err(TtsError::Server(text));
                }
                let audio = match message.audio_chunk {
                    Some(chunk) => match chunk.audio_content {
                        Some(content) => {
                            let bytes = decode_base64(content.as_str());
                            proof {
                                assert forall|other: Seq<u8>|
                                    content@ == #[trigger] base64_text(other) implies decoded(bytes)
                                    == Ok::<Seq<u8>, Base64Fault>(other) by {
                                    law_decoding_undoes_encoding(content@, decoded(bytes), other);
                                }
                            }
                            Some(bytes)
                        },
                        None => None,
                    },
                    None => None,
                };
                self.absorb(audio, message.flush_completed)
            },
            ReadEvent::Binary(bytes) => self.absorb(Some(Ok(bytes)), false),
            ReadEvent::Closed => Err(TtsError::Closed),
            ReadEvent::Unparsed | ReadEvent::Other => Ok(()),
            ReadEvent::Failed(cause) => Err(TtsError::ReadFailed(cause)),
        }
    }

    /// The samples of the audio collected.
    pub fn samples(&self) -> (samples: Vec<i16>)
        ensures
            samples@ == pcm_samples(self@.pcm),
    {
        pcm16_from_le(self.pcm.as_slice())
    }
}

} // verus!
