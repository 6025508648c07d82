//! What the calls of a synthesis promise, in terms of what they are handed and what they give.
//!
//! `call_ensures(f, arguments, result)` says that a call of `f` with these arguments can give this
//! result.
use crate::codec::{base64_text, Base64Fault};
use crate::json::{compact_text, member, names, Json};
use crate::text::{decimal, to_decimal, trim, white_space};
use crate::tts::error::TtsError;
use crate::tts::exchange::{
    close_context_frame, close_context_text, create_context_frame, create_context_text,
    flush_context_frame, flush_context_text, send_text_frame, send_text_text, Action, Exchange,
    ExchangeView, Phase, ReadEvent, SdbTtsMessage, SendEvent, Voice, VoiceView,
};
use crate::tts::rate::nearest_supported_rate;
use crate::tts::sixtydb::{
    context_id, OpenError, SixtyDbTts, SixtyDbTtsView, Start, Synthesis,
};
use crate::tts::TtsEngine;
use vstd::prelude::*;

verus! {

proof fn lemma_member_names()
    ensures
        "context_id"@.len() == 10,
        "context_id"@[0] == 'c',
        "voice_id"@.len() == 8,
        "audio_config"@.len() == 12,
        "speed"@.len() == 5,
        "stability"@.len() == 9,
        "similarity"@.len() == 10,
        "similarity"@[0] == 's',
        "audio_encoding"@.len() == 14,
        "sample_rate_hertz"@.len() == 17,
        "text"@.len() == 4,
{
    reveal_strlit("context_id");
    reveal_strlit("voice_id");
    reveal_strlit("audio_config");
    reveal_strlit("speed");
    reveal_strlit("stability");
    reveal_strlit("similarity");
    reveal_strlit("audio_encoding");
    reveal_strlit("sample_rate_hertz");
    reveal_strlit("text");
}

/// The frame that opens a context carries the context's name, the voice and its settings, each in
/// the member that is named after it, and asks for LINEAR16 audio at exactly the voice's rate.
pub proof fn law_context_is_opened_for_the_voice(context_id: &str, voice: &Voice, text: String)
    requires
        call_ensures(create_context_text, (context_id, voice), text),
    ensures
        exists|frame: Json|
            {
                &&& text@ == #[trigger] compact_text(frame)
                &&& names(frame) == set!["create_context"@]
                &&& member(frame, "create_context"@) matches Some(context)
                &&& names(context) == set![
                    "context_id"@,
                    "voice_id"@,
                    "audio_config"@,
                    "speed"@,
                    "stability"@,
                    "similarity"@,
                ]
                &&& member(context, "context_id"@) == Some(Json::Text(context_id@))
                &&& member(context, "voice_id"@) == Some(Json::Text(voice.voice_id@))
                &&& member(context, "speed"@) == Some(Json::Whole(voice.speed as nat))
                &&& member(context, "stability"@) == Some(Json::Whole(voice.stability as nat))
                &&& member(context, "similarity"@) == Some(Json::Whole(voice.similarity as nat))
                &&& member(context, "audio_config"@) matches Some(audio)
                &&& names(audio) == set!["audio_encoding"@, "sample_rate_hertz"@]
                &&& member(audio, "audio_encoding"@) == Some(Json::Text("LINEAR16"@))
                &&& member(audio, "sample_rate_hertz"@) == Some(
                    Json::Integer(voice.sample_rate as nat),
                )
            },
{
    lemma_create_context_members(context_id@, voice@);
    assert(text@ == compact_text(create_context_frame(context_id@, voice@)));
}

proof fn lemma_create_context_members(context_id: Seq<char>, voice: VoiceView)
    ensures
        ({
            let frame = create_context_frame(context_id, voice);
            let context = member(frame, "create_context"@)->0;
            let audio = member(context, "audio_config"@)->0;
            &&& names(frame) == set!["create_context"@]
            &&& member(frame, "create_context"@) is Some
            &&& names(context) == set![
                "context_id"@,
                "voice_id"@,
                "audio_config"@,
                "speed"@,
                "stability"@,
                "similarity"@,
            ]
            &&& member(context, "context_id"@) == Some(Json::Text(context_id))
            &&& member(context, "voice_id"@) == Some(Json::Text(voice.voice_id))
            &&& member(context, "speed"@) == Some(Json::Whole(voice.speed as nat))
            &&& member(context, "stability"@) == Some(Json::Whole(voice.stability as nat))
            &&& member(context, "similarity"@) == Some(Json::Whole(voice.similarity as nat))
            &&& member(context, "audio_config"@) is Some
            &&& names(audio) == set!["audio_encoding"@, "sample_rate_hertz"@]
            &&& member(audio, "audio_encoding"@) == Some(Json::Text("LINEAR16"@))
            &&& member(audio, "sample_rate_hertz"@) == Some(Json::Integer(voice.sample_rate as nat))
        }),
{
    lemma_member_names();
    let frame = create_context_frame(context_id, voice);
    let context = member(frame, "create_context"@)->0;
    let audio = member(context, "audio_config"@)->0;
    assert(names(frame) =~= set!["create_context"@]);
    assert(names(context) =~= set![
        "context_id"@,
        "voice_id"@,
        "audio_config"@,
        "speed"@,
        "stability"@,
        "similarity"@,
    ]);
    assert(names(audio) =~= set!["audio_encoding"@, "sample_rate_hertz"@]);
}

/// The frame that hands a text over carries the whole text, character for character, and the name of
/// its context.
pub proof fn law_text_is_handed_over_whole(context_id: &str, speech: &str, text: String)
    requires
        call_ensures(send_text_text, (context_id, speech), text),
    ensures
        exists|frame: Json|
            {
                &&& text@ == #[trigger] compact_text(frame)
                &&& names(frame) == set!["send_text"@]
                &&& member(frame, "send_text"@) matches Some(request)
                &&& names(request) == set!["context_id"@, "text"@]
                &&& member(request, "context_id"@) == Some(Json::Text(context_id@))
                &&& member(request, "text"@) == Some(Json::Text(speech@))
            },
{
    lemma_member_names();
    let frame = send_text_frame(context_id@, speech@);
    let request = member(frame, "send_text"@)->0;
    assert(text@ == compact_text(frame));
    assert(names(frame) =~= set!["send_text"@]);
    assert(names(request) =~= set!["context_id"@, "text"@]);
}

/// The frame that asks for all audio names its context and nothing else.
pub proof fn law_flush_names_its_context(context_id: &str, text: String)
    requires
        call_ensures(flush_context_text, (context_id,), text),
    ensures
        exists|frame: Json|
            {
                &&& text@ == #[trigger] compact_text(frame)
                &&& names(frame) == set!["flush_context"@]
                &&& member(frame, "flush_context"@) matches Some(request)
                &&& names(request) == set!["context_id"@]
                &&& member(request, "context_id"@) == Some(Json::Text(context_id@))
            },
{
    let frame = flush_context_frame(context_id@);
    let request = member(frame, "flush_context"@)->0;
    assert(text@ == compact_text(frame));
    assert(names(frame) =~= set!["flush_context"@]);
    assert(names(request) =~= set!["context_id"@]);
}

/// The frame that closes a context names it and nothing else.
pub proof fn law_close_names_its_context(context_id: &str, text: String)
    requires
        call_ensures(close_context_text, (context_id,), text),
    ensures
        exists|frame: Json|
            {
                &&& text@ == #[trigger] compact_text(frame)
                &&& names(frame) == set!["close_context"@]
                &&& member(frame, "close_context"@) matches Some(request)
                &&& names(request) == set!["context_id"@]
                &&& member(request, "context_id"@) == Some(Json::Text(context_id@))
            },
{
    let frame = close_context_frame(context_id@);
    let request = member(frame, "close_context"@)->0;
    assert(text@ == compact_text(frame));
    assert(names(frame) =~= set!["close_context"@]);
    assert(names(request) =~= set!["context_id"@]);
}

/// A new exchange first sends the frame that opens its context; when that is sent, the frame with
/// its text; when that is sent, the frame that asks for the audio. All three name the same context.
/// Then it reads. It has no audio until then.
pub proof fn law_exchange_sends_its_requests_in_turn(
    context_id: &str,
    voice: &Voice,
    text: &str,
    exchange: Exchange,
    elapsed_ms: u64,
    first: Result<Action, TtsError>,
    one: &mut Exchange,
    sent_one: Result<(), TtsError>,
    second: Result<Action, TtsError>,
    two: &mut Exchange,
    sent_two: Result<(), TtsError>,
    third: Result<Action, TtsError>,
    three: &mut Exchange,
    sent_three: Result<(), TtsError>,
    create_context: String,
    send_text: String,
    flush_context: String,
)
    requires
        call_ensures(Exchange::new, (context_id, voice, text), exchange),
        call_ensures(Exchange::next_action, (&exchange, elapsed_ms), first),
        *old(one) == exchange,
        call_ensures(Exchange::on_send, (one, SendEvent::Sent), sent_one),
        call_ensures(Exchange::next_action, (&*final(one), elapsed_ms), second),
        *old(two) == *final(one),
        call_ensures(Exchange::on_send, (two, SendEvent::Sent), sent_two),
        call_ensures(Exchange::next_action, (&*final(two), elapsed_ms), third),
        *old(three) == *final(two),
        call_ensures(Exchange::on_send, (three, SendEvent::Sent), sent_three),
        call_ensures(create_context_text, (context_id, voice), create_context),
        call_ensures(send_text_text, (context_id, text), send_text),
        call_ensures(flush_context_text, (context_id,), flush_context),
    ensures
        sent_one is Ok && sent_two is Ok && sent_three is Ok,
        first matches Ok(action) ==> action is Send && action->Send_0@ == create_context@,
        second matches Ok(action) ==> action is Send && action->Send_0@ == send_text@,
        third matches Ok(action) ==> action is Send && action->Send_0@ == flush_context@,
        first is Ok && second is Ok && third is Ok,
        final(three)@.phase == Phase::Collect,
        final(three)@.pcm.len() == 0,
{
}

/// An exchange that has all its audio sends the frame that closes its context. Whether or not that
/// can be sent, it is then done, and has the same audio.
pub proof fn law_exchange_closes_its_context(
    context_id: &str,
    voice: &Voice,
    text: &str,
    exchange: Exchange,
    complete: &mut Exchange,
    elapsed_ms: u64,
    action: Result<Action, TtsError>,
    event: SendEvent,
    sent: Result<(), TtsError>,
    last: Result<Action, TtsError>,
    close_context: String,
)
    requires
        call_ensures(Exchange::new, (context_id, voice, text), exchange),
        old(complete)@ == (ExchangeView {
            phase: Phase::CloseContext,
            pcm: old(complete)@.pcm,
            ..exchange@
        }),
        call_ensures(Exchange::next_action, (&*old(complete), elapsed_ms), action),
        call_ensures(Exchange::on_send, (complete, event), sent),
        call_ensures(Exchange::next_action, (&*final(complete), elapsed_ms), last),
        call_ensures(close_context_text, (context_id,), close_context),
    ensures
        action matches Ok(action) && action is Send && action->Send_0@ == close_context@,
        sent is Ok,
        last matches Ok(last) && last is Done,
        final(complete)@.pcm == old(complete)@.pcm,
{
}

/// A request that cannot be sent ends the exchange with the error of that request, which tells why,
/// and leaves the exchange as it was.
pub proof fn law_unsent_request_ends_the_exchange(
    exchange: &mut Exchange,
    cause: String,
    result: Result<(), TtsError>,
)
    requires
        call_ensures(Exchange::on_send, (exchange, SendEvent::Failed(cause)), result),
    ensures
        old(exchange)@.phase == Phase::CreateContext ==> {
            &&& result matches Err(TtsError::CreateContextFailed(why))
            &&& why@ == cause@
            &&& final(exchange)@ == old(exchange)@
        },
        old(exchange)@.phase == Phase::SendText ==> {
            &&& result matches Err(TtsError::SendTextFailed(why))
            &&& why@ == cause@
            &&& final(exchange)@ == old(exchange)@
        },
        old(exchange)@.phase == Phase::FlushContext ==> {
            &&& result matches Err(TtsError::FlushContextFailed(why))
            &&& why@ == cause@
            &&& final(exchange)@ == old(exchange)@
        },
{
}

/// An exchange waits for its audio until 15 seconds after it began, and no longer: a read may take
/// what is left of them, and when nothing is left the exchange has timed out. Nothing else takes
/// time into account.
pub proof fn law_waiting_ends_after_fifteen_seconds(
    exchange: &Exchange,
    elapsed_ms: u64,
    late: bool,
    result: Result<Action, TtsError>,
)
    requires
        call_ensures(Exchange::overdue, (exchange, elapsed_ms), late),
        call_ensures(Exchange::next_action, (exchange, elapsed_ms), result),
    ensures
        late <==> exchange@.phase == Phase::Collect && elapsed_ms >= 15000,
        result is Err <==> late,
        result matches Err(error) ==> error is TimedOut,
        exchange@.phase == Phase::Collect && !late ==> {
            &&& result matches Ok(Action::Read { within_ms })
            &&& within_ms + elapsed_ms == 15000
        },
        result matches Ok(action) ==> (action is Read ==> exchange@.phase == Phase::Collect),
        exchange@.phase == Phase::Finished ==> result is Ok && result->Ok_0 is Done,
        result matches Ok(action) ==> (action is Done ==> exchange@.phase == Phase::Finished),
{
}

/// A binary frame adds its bytes to the audio, all of them and at the end, and the reading goes on.
pub proof fn law_raw_audio_is_added(
    exchange: &mut Exchange,
    bytes: Vec<u8>,
    result: Result<(), TtsError>,
)
    requires
        old(exchange)@.phase == Phase::Collect,
        call_ensures(Exchange::on_read, (exchange, ReadEvent::Binary(bytes)), result),
    ensures
        result is Ok,
        final(exchange)@ == (ExchangeView {
            pcm: old(exchange)@.pcm + bytes@,
            ..old(exchange)@
        }),
{
}

/// Frames of no interest change nothing. A connection that is closed, and a read that fails, end the
/// exchange, each with its own error.
pub proof fn law_frames_without_audio_add_none(
    exchange: &mut Exchange,
    event: ReadEvent,
    result: Result<(), TtsError>,
)
    requires
        old(exchange)@.phase == Phase::Collect,
        call_ensures(Exchange::on_read, (exchange, event), result),
        !(event is Message) && !(event is Binary),
    ensures
        final(exchange)@ == old(exchange)@,
        event is Unparsed || event is Other ==> result is Ok,
        event is Closed ==> result is Err && result->Err_0 is Closed,
        event matches ReadEvent::Failed(cause) ==> {
            &&& result matches Err(TtsError::ReadFailed(why))
            &&& why@ == cause@
        },
{
}

/// A message that reports an error ends the exchange with what the server says, whatever else it
/// holds. A message without an error adds the bytes whose base64 text it carries, if it carries one,
/// and ends the audio exactly if it says so. A text that is not base64 ends the exchange. After an
/// error the exchange is as it was.
pub proof fn law_message_is_taken_up(
    exchange: &mut Exchange,
    message: SdbTtsMessage,
    bytes: Seq<u8>,
    result: Result<(), TtsError>,
)
    requires
        old(exchange)@.phase == Phase::Collect,
        call_ensures(Exchange::on_read, (exchange, ReadEvent::Message(message)), result),
    ensures
        message.error matches Some(error) ==> {
            &&& result matches Err(TtsError::Server(text))
            &&& text@ == match error.message {
                Some(said) => said@,
                None => Seq::<char>::empty(),
            }
            &&& final(exchange)@ == old(exchange)@
        },
        message.error is None ==> match message.audio_chunk {
            Some(chunk) => match chunk.audio_content {
                Some(content) => {
                    &&& content@ == base64_text(bytes) ==> result is Ok && final(exchange)@ == (
                    ExchangeView {
                        pcm: old(exchange)@.pcm + bytes,
                        phase: if message.flush_completed {
                            Phase::CloseContext
                        } else {
                            Phase::Collect
                        },
                        ..old(exchange)@
                    })
                    &&& (forall|other: Seq<u8>| content@ != #[trigger] base64_text(other)) ==> {
                        &&& result matches Err(error)
                        &&& error is BadAudio
                        &&& final(exchange)@ == old(exchange)@
                    }
                },
                None => result is Ok && final(exchange)@ == (ExchangeView {
                    phase: if message.flush_completed {
                        Phase::CloseContext
                    } else {
                        Phase::Collect
                    },
                    ..old(exchange)@
                }),
            },
            None => result is Ok && final(exchange)@ == (ExchangeView {
                phase: if message.flush_completed {
                    Phase::CloseContext
                } else {
                    Phase::Collect
                },
                ..old(exchange)@
            }),
        },
{
}

/// Decoded audio is added whole; a fault ends the exchange as that fault, with nothing added. The
/// audio ends exactly if it is said to.
pub proof fn law_decoded_audio_is_taken_up(
    exchange: &mut Exchange,
    audio: Option<Result<Vec<u8>, Base64Fault>>,
    flush_completed: bool,
    result: Result<(), TtsError>,
)
    requires
        old(exchange)@.phase == Phase::Collect,
        call_ensures(Exchange::absorb, (exchange, audio, flush_completed), result),
    ensures
        match audio {
            Some(Err(fault)) => {
                &&& result matches Err(TtsError::BadAudio(returned))
                &&& returned == fault
                &&& final(exchange)@ == old(exchange)@
            },
            _ => result is Ok && final(exchange)@ == (ExchangeView {
                pcm: match audio {
                    Some(Ok(bytes)) => old(exchange)@.pcm + bytes@,
                    _ => old(exchange)@.pcm,
                },
                phase: if flush_completed {
                    Phase::CloseContext
                } else {
                    Phase::Collect
                },
                ..old(exchange)@
            }),
        },
{
}

/// The samples of an exchange are all of its audio, two bytes each and the less significant first;
/// only a last byte without a partner is left out.
pub proof fn law_samples_are_all_of_the_audio(exchange: &Exchange, samples: Vec<i16>)
    requires
        call_ensures(Exchange::samples, (exchange,), samples),
    ensures
        2 * samples@.len() <= exchange@.pcm.len() <= 2 * samples@.len() + 1,
        forall|i: int|
            0 <= i < samples@.len() ==> exchange@.pcm[2 * i] + 256 * exchange@.pcm[2 * i + 1] == if (
            #[trigger] samples@[i]) >= 0 {
                samples@[i] as int
            } else {
                samples@[i] + 65536
            },
{
}

/// What each error says to the user. Where the server or the socket gave a reason that belongs to
/// the message, it stands at its end, whole.
pub proof fn law_errors_say_what_went_wrong(error: TtsError, text: String)
    requires
        call_ensures(TtsError::message, (&error,), text),
    ensures
        error is MissingVoice ==> text@
            == "60db TTS requires a voice_id (set the 60db voice in Settings)"@,
        error is NotConnected ==> text@ == "60db TTS not connected"@,
        error is CreateContextFailed ==> text@ == "60db create_context send failed"@,
        error is SendTextFailed ==> text@ == "60db send_text failed"@,
        error is FlushContextFailed ==> text@ == "60db flush_context failed"@,
        error is BadAudio ==> text@ == "60db audio_chunk base64 decode failed"@,
        error matches TtsError::Server(message) ==> text@ == "60db TTS error: "@ + message@,
        error is Closed ==> text@ == "60db TTS connection closed mid-synthesis"@,
        error matches TtsError::ReadFailed(cause) ==> text@ == "60db TTS read failed: "@ + cause@,
        error is TimedOut ==> text@ == "60db TTS read failed: timed out"@,
{
}

/// A synthesizer can be made exactly if the voice is named by more than white space. It speaks with
/// that voice and no adjustment of it, has the key and the rate that it is given, asks 60db for the
/// supported rate closest to that one, and has neither a connection nor begun a context.
pub proof fn law_synthesizer_needs_a_voice<W>(
    api_key: String,
    voice_id: String,
    output_sample_rate: u32,
    rate: u32,
    result: Result<SixtyDbTts<W>, TtsError>,
)
    requires
        call_ensures(SixtyDbTts::<W>::new, (api_key, voice_id, output_sample_rate), result),
        call_ensures(nearest_supported_rate, (output_sample_rate,), rate),
    ensures
        result is Ok <==> exists|i: int|
            0 <= i < voice_id@.len() && !white_space(#[trigger] voice_id@[i]),
        result matches Err(error) ==> error is MissingVoice,
        result matches Ok(tts) ==> tts@ == (SixtyDbTtsView::<W> {
            api_key: api_key@,
            voice_id: voice_id@,
            output_sample_rate,
            request_rate: rate,
            speed: 1,
            stability: 50,
            similarity: 75,
            ws: None,
            ctx_counter: 0,
        }),
{
}

/// The key decides where a synthesizer connects to.
pub proof fn law_synthesizer_connects_with_its_key<W>(tts: &SixtyDbTts<W>, url: String)
    requires
        call_ensures(SixtyDbTts::<W>::url, (tts,), url),
    ensures
        url@ == "wss://api.60db.ai/ws/tts?apiKey="@ + tts@.api_key,
{
}

/// The contexts begun are counted.
pub proof fn law_contexts_are_counted<W>(
    before: u64,
    tts: &mut SixtyDbTts<W>,
    text: &str,
    result: Result<(W, Exchange), TtsError>,
    after: u64,
)
    requires
        old(tts)@.ctx_counter < u64::MAX,
        call_ensures(SixtyDbTts::<W>::contexts, (&*old(tts),), before),
        call_ensures(SixtyDbTts::<W>::synthesize_once, (tts, text), result),
        call_ensures(SixtyDbTts::<W>::contexts, (&*final(tts),), after),
    ensures
        after == before + 1,
{
}

/// Connecting gives a synthesizer the connection and changes nothing else.
pub proof fn law_connecting_sets_the_connection<W>(tts: &mut SixtyDbTts<W>, ws: W)
    requires
        call_ensures(SixtyDbTts::<W>::connect, (tts, ws), ()),
    ensures
        final(tts)@ == (SixtyDbTtsView { ws: Some(ws), ..old(tts)@ }),
{
}

/// After a first attempt to connect there is a synthesizer exactly if the attempt gave a connection,
/// and it has that one; otherwise there is the error of the attempt.
pub proof fn law_first_connection_decides<W, E>(
    tts: SixtyDbTts<W>,
    attempt: Result<W, E>,
    result: Result<SixtyDbTts<W>, E>,
)
    requires
        call_ensures(SixtyDbTts::<W>::opened::<E>, (tts, attempt), result),
    ensures
        match attempt {
            Ok(ws) => result is Ok && result->Ok_0@ == (SixtyDbTtsView { ws: Some(ws), ..tts@ }),
            Err(error) => result is Err && result->Err_0 == error,
        },
{
}

/// Opening a synthesizer connects at once, with the key: it fails exactly if there is no voice or if
/// connecting does, each with its own error, and otherwise gives a synthesizer with the connection
/// and the settings that it was given.
pub proof fn law_opening_connects_at_once<W, E, C: FnOnce(&str) -> Result<W, E>>(
    api_key: String,
    voice_id: String,
    output_sample_rate: u32,
    rate: u32,
    connect: C,
    result: Result<SixtyDbTts<W>, OpenError<E>>,
)
    requires
        call_ensures(
            SixtyDbTts::<W>::open::<E, C>,
            (api_key, voice_id, output_sample_rate, connect),
            result,
        ),
        call_ensures(nearest_supported_rate, (output_sample_rate,), rate),
    ensures
        (forall|i: int| 0 <= i < voice_id@.len() ==> white_space(#[trigger] voice_id@[i])) <==> (
        result matches Err(OpenError::Rejected(_))),
        match result {
            Ok(tts) => {
                &&& exists|ws: W, url: &str|
                    {
                        &&& url@ == "wss://api.60db.ai/ws/tts?apiKey="@ + api_key@
                        &&& #[trigger] call_ensures(connect, (url,), Ok::<W, E>(ws))
                        &&& tts@.ws == Some(ws)
                    }
                &&& tts@.api_key == api_key@
                &&& tts@.voice_id == voice_id@
                &&& tts@.output_sample_rate == output_sample_rate
                &&& tts@.request_rate == rate
                &&& tts@.ctx_counter == 0
            },
            Err(OpenError::Rejected(error)) => error is MissingVoice,
            Err(OpenError::Connect(error)) => exists|url: &str|
                {
                    &&& url@ == "wss://api.60db.ai/ws/tts?apiKey="@ + api_key@
                    &&& #[trigger] call_ensures(connect, (url,), Err::<W, E>(error))
                },
        },
{
}

/// A synthesis is silent exactly if its text is nothing but white space. Otherwise it speaks the
/// text without the white space around it, and connects first, with the key, exactly if there is no
/// connection.
pub proof fn law_synthesis_speaks_the_trimmed_text<W>(
    tts: &SixtyDbTts<W>,
    text: &str,
    inner: &str,
    start: Start,
)
    requires
        call_ensures(SixtyDbTts::<W>::synthesize, (tts, text), start),
        call_ensures(trim, (text,), inner),
    ensures
        start is Silence <==> forall|i: int|
            0 <= i < text@.len() ==> white_space(#[trigger] text@[i]),
        !(start is Silence) ==> (start is Connect <==> tts@.ws is None),
        start matches Start::Connect { url, text: spoken } ==> spoken@ == inner@ && url@
            == "wss://api.60db.ai/ws/tts?apiKey="@ + tts@.api_key,
        start matches Start::Speak { text: spoken } ==> spoken@ == inner@,
{
}

/// A synthesis on a connection hands that connection out, and its exchange begins with the frame
/// that opens a context for the synthesizer's voice: it asks for audio at the rate that the
/// synthesizer asks 60db for. The context has a name of its own, the number of contexts so far.
/// Without a connection there is no exchange. Either way nothing but the connection and the number
/// of contexts changes.
pub proof fn law_exchange_speaks_with_the_voice<W>(
    tts: &mut SixtyDbTts<W>,
    text: &str,
    result: Result<(W, Exchange), TtsError>,
    numeral: String,
    elapsed_ms: u64,
    action: Result<Action, TtsError>,
)
    requires
        old(tts)@.ctx_counter < u64::MAX,
        call_ensures(SixtyDbTts::<W>::synthesize_once, (tts, text), result),
        call_ensures(to_decimal, ((old(tts)@.ctx_counter + 1) as u64,), numeral),
        result is Ok ==> call_ensures(
            Exchange::next_action,
            (&result->Ok_0.1, elapsed_ms),
            action,
        ),
    ensures
        result is Ok <==> old(tts)@.ws is Some,
        result matches Err(error) ==> error is NotConnected,
        final(tts)@ == (SixtyDbTtsView {
            ws: None,
            ctx_counter: (old(tts)@.ctx_counter + 1) as u64,
            ..old(tts)@
        }),
        result is Ok ==> {
            &&& old(tts)@.ws == Some(result->Ok_0.0)
            &&& action matches Ok(Action::Send(sent))
            &&& exists|frame: Json|
                {
                    &&& sent@ == #[trigger] compact_text(frame)
                    &&& names(frame) == set!["create_context"@]
                    &&& member(frame, "create_context"@) matches Some(context)
                    &&& member(context, "context_id"@) == Some(Json::Text("ctx-"@ + numeral@))
                    &&& member(context, "voice_id"@) == Some(Json::Text(old(tts)@.voice_id))
                    &&& member(context, "speed"@) == Some(Json::Whole(old(tts)@.speed as nat))
                    &&& member(context, "stability"@) == Some(
                        Json::Whole(old(tts)@.stability as nat),
                    )
                    &&& member(context, "similarity"@) == Some(
                        Json::Whole(old(tts)@.similarity as nat),
                    )
                    &&& member(context, "audio_config"@) matches Some(audio)
                    &&& member(audio, "audio_encoding"@) == Some(Json::Text("LINEAR16"@))
                    &&& member(audio, "sample_rate_hertz"@) == Some(
                        Json::Integer(old(tts)@.request_rate as nat),
                    )
                }
        },
{
    if result is Ok {
        let id = context_id((old(tts)@.ctx_counter + 1) as nat);
        lemma_create_context_members(id, old(tts)@.voice());
        assert(action->Ok_0->Send_0@ == compact_text(
            create_context_frame(id, old(tts)@.voice()),
        ));
    }
}

/// The text of an exchange that a synthesis begins is the text handed to it, whole, in the context
/// that the exchange opens.
pub proof fn law_exchange_speaks_the_text<W>(
    tts: &mut SixtyDbTts<W>,
    text: &str,
    ws: W,
    exchange: Exchange,
    numeral: String,
    opened: &mut Exchange,
    sent: Result<(), TtsError>,
    elapsed_ms: u64,
    action: Result<Action, TtsError>,
)
    requires
        old(tts)@.ctx_counter < u64::MAX,
        call_ensures(SixtyDbTts::<W>::synthesize_once, (tts, text), Ok((ws, exchange))),
        call_ensures(to_decimal, ((old(tts)@.ctx_counter + 1) as u64,), numeral),
        *old(opened) == exchange,
        call_ensures(Exchange::on_send, (opened, SendEvent::Sent), sent),
        call_ensures(Exchange::next_action, (&*final(opened), elapsed_ms), action),
    ensures
        sent is Ok,
        action is Ok && action->Ok_0 is Send,
        exists|frame: Json|
            {
                &&& action->Ok_0->Send_0@ == #[trigger] compact_text(frame)
                &&& names(frame) == set!["send_text"@]
                &&& member(frame, "send_text"@) matches Some(request)
                &&& names(request) == set!["context_id"@, "text"@]
                &&& member(request, "context_id"@) == Some(Json::Text("ctx-"@ + numeral@))
                &&& member(request, "text"@) == Some(Json::Text(text@))
            },
{
    lemma_member_names();
    let frame = send_text_frame(context_id((old(tts)@.ctx_counter + 1) as nat), text@);
    let request = member(frame, "send_text"@)->0;
    assert(action->Ok_0->Send_0@ == compact_text(frame));
    assert(names(frame) =~= set!["send_text"@]);
    assert(names(request) =~= set!["context_id"@, "text"@]);
}

/// An exchange that finished leaves the connection in place, and its samples are returned, all of
/// them. They are to be resampled exactly if the rate asked of 60db is not the one that the pipeline
/// expects, and then from the one to the other. An exchange that failed leaves no connection, and
/// its error is returned. Nothing else changes.
pub proof fn law_conclusion_keeps_or_drops_the_connection<W>(
    tts: &mut SixtyDbTts<W>,
    ws: W,
    exchange: Result<Exchange, TtsError>,
    samples: Vec<i16>,
    result: Result<Synthesis, TtsError>,
)
    requires
        call_ensures(SixtyDbTts::<W>::conclude, (tts, ws, exchange), result),
        exchange is Ok ==> call_ensures(Exchange::samples, (&exchange->Ok_0,), samples),
    ensures
        match exchange {
            Ok(_) => {
                &&& result matches Ok(synthesis)
                &&& synthesis.samples@ == samples@
                &&& old(tts)@.request_rate == old(tts)@.output_sample_rate ==> synthesis.resample
                    is None
                &&& old(tts)@.request_rate != old(tts)@.output_sample_rate ==> synthesis.resample
                    == Some((old(tts)@.request_rate, old(tts)@.output_sample_rate))
                &&& final(tts)@ == (SixtyDbTtsView { ws: Some(ws), ..old(tts)@ })
            },
            Err(error) => {
                &&& result is Err
                &&& result->Err_0 == error
                &&& final(tts)@ == (SixtyDbTtsView { ws: None, ..old(tts)@ })
            },
        },
{
}

/// The rate asked for on the wire is the one that the audio is resampled from. A synthesizer that is
/// made for `output_sample_rate`, connected, and asked for a synthesis opens a context at `rate`, the
/// supported rate closest to it. When the exchange is concluded, the samples are to be resampled from
/// `rate` to `output_sample_rate`, unless the two are the same.
pub proof fn law_audio_comes_back_at_the_rate_asked_for<W>(
    api_key: String,
    voice_id: String,
    output_sample_rate: u32,
    rate: u32,
    made: SixtyDbTts<W>,
    connected: &mut SixtyDbTts<W>,
    ws: W,
    begun: &mut SixtyDbTts<W>,
    text: &str,
    handed_out: W,
    exchange: Exchange,
    elapsed_ms: u64,
    sent: String,
    ended: &mut SixtyDbTts<W>,
    handed_back: W,
    finished: Exchange,
    synthesis: Synthesis,
)
    requires
        call_ensures(nearest_supported_rate, (output_sample_rate,), rate),
        call_ensures(SixtyDbTts::<W>::new, (api_key, voice_id, output_sample_rate), Ok(made)),
        *old(connected) == made,
        call_ensures(SixtyDbTts::<W>::connect, (connected, ws), ()),
        *old(begun) == *final(connected),
        call_ensures(SixtyDbTts::<W>::synthesize_once, (begun, text), Ok((handed_out, exchange))),
        call_ensures(Exchange::next_action, (&exchange, elapsed_ms), Ok(Action::Send(sent))),
        *old(ended) == *final(begun),
        call_ensures(
            SixtyDbTts::<W>::conclude,
            (ended, handed_back, Ok(finished)),
            Ok(synthesis),
        ),
    ensures
        handed_out == ws,
        exists|frame: Json|
            {
                &&& sent@ == #[trigger] compact_text(frame)
                &&& member(frame, "create_context"@) matches Some(context)
                &&& member(context, "context_id"@) == Some(Json::Text("ctx-1"@))
                &&& member(context, "voice_id"@) == Some(Json::Text(voice_id@))
                &&& member(context, "speed"@) == Some(Json::Whole(1))
                &&& member(context, "stability"@) == Some(Json::Whole(50))
                &&& member(context, "similarity"@) == Some(Json::Whole(75))
                &&& member(context, "audio_config"@) matches Some(audio)
                &&& member(audio, "audio_encoding"@) == Some(Json::Text("LINEAR16"@))
                &&& member(audio, "sample_rate_hertz"@) == Some(Json::Integer(rate as nat))
            },
        rate == output_sample_rate ==> synthesis.resample is None,
        rate != output_sample_rate ==> synthesis.resample == Some((rate, output_sample_rate)),
        final(ended)@.ws == Some(handed_back),
{
    let id = context_id(1);
    let voice = old(begun)@.voice();
    lemma_create_context_members(id, voice);
    assert(sent@ == compact_text(create_context_frame(id, voice)));
    assert(id == "ctx-1"@) by {
        reveal_strlit("ctx-");
        reveal_strlit("ctx-1");
        reveal_with_fuel(decimal, 2);
    }
}

/// A Piper engine is made by loading its backend from the two files, config first, for the rate; a
/// failure to load is returned.
pub proof fn law_engine_loads_its_backend<
    P,
    E,
    L: FnOnce(&str, &str, u32) -> Result<P, E>,
>(
    config_path: &str,
    model_path: &str,
    output_sample_rate: u32,
    load: L,
    result: Result<TtsEngine<P>, E>,
)
    requires
        call_ensures(
            TtsEngine::<P>::new::<E, L>,
            (config_path, model_path, output_sample_rate, load),
            result,
        ),
    ensures
        exists|loaded: Result<P, E>|
            {
                &&& #[trigger] call_ensures(
                    load,
                    (config_path, model_path, output_sample_rate),
                    loaded,
                )
                &&& match (loaded, result) {
                    (Ok(backend), Ok(engine)) => engine.backend() == backend,
                    (Err(error), Err(returned)) => returned == error,
                    _ => false,
                }
            },
{
    match result {
        Ok(engine) => {
            assert(call_ensures(
                load,
                (config_path, model_path, output_sample_rate),
                Ok::<P, E>(engine.backend()),
            ));
        },
        Err(error) => {
            assert(call_ensures(
                load,
                (config_path, model_path, output_sample_rate),
                Err::<P, E>(error),
            ));
        },
    }
}

/// What is done to the backend of an engine is done to the engine's own.
pub proof fn law_engine_lends_its_own_backend<P>(engine: &mut TtsEngine<P>, backend: &mut P)
    requires
        call_ensures(TtsEngine::<P>::backend_mut, (engine,), backend),
    ensures
        *old(backend) == old(engine).backend(),
        final(engine).backend() == *final(backend),
{
}

} // verus!
