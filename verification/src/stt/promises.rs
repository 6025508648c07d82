//! What the calls of a session promise, in terms of what they are handed and what they give.
//!
//! `call_ensures(f, arguments, result)` says that a call of `f` with these arguments can give this
//! result.
use crate::codec::{base64_text, stands_for};
use crate::json::{compact_text, member, names, Json};
use crate::pcm::{high_byte, low_byte, pcm_bytes};
use crate::stt::sixtydb::{
    audio_frame, audio_text, backlog_of, poll_step, start_frame, stop_frame, AudioSend, PollStep,
    SdbMessage, SessionPlan, SixtyDbSession, SixtyDbStt, SttEvent, Timing,
};
use crate::stt::{SessionOpening, SttConfig, SttResult};
use crate::text::white_space;
use vstd::prelude::*;

verus! {

proof fn lemma_member_names()
    ensures
        "type"@.len() == 4,
        "audio"@.len() == 5,
        "config"@.len() == 6,
        "encoding"@.len() == 8,
        "languages"@.len() == 9,
        "sample_rate"@.len() == 11,
        "continuous_mode"@.len() == 15,
        "utterance_end_ms"@.len() == 16,
{
    reveal_strlit("type");
    reveal_strlit("audio");
    reveal_strlit("config");
    reveal_strlit("encoding");
    reveal_strlit("languages");
    reveal_strlit("sample_rate");
    reveal_strlit("continuous_mode");
    reveal_strlit("utterance_end_ms");
}

/// A session that is configured and then opened connects with the key, and asks for exactly the
/// language and the rate that were given. The silence that it asks for is the least that is neither
/// shorter than the configured one nor shorter than the 300 milliseconds that 60db insists on.
pub proof fn law_session_opens_as_configured(
    api_key: String,
    language: String,
    endpointing_ms: u32,
    config: SixtyDbStt,
    sample_rate: u32,
    plan: SessionPlan,
)
    requires
        call_ensures(SixtyDbStt::new, (api_key, language, endpointing_ms), config),
        call_ensures(SixtyDbStt::create_session, (&config, sample_rate), plan),
    ensures
        plan.url@ == "wss://api.60db.ai/ws/stt?apiKey="@ + api_key@,
        plan.language@ == language@,
        plan.utterance_end_ms >= endpointing_ms,
        plan.utterance_end_ms >= 300,
        plan.utterance_end_ms == endpointing_ms || plan.utterance_end_ms == 300,
        exists|start: Json|
            {
                &&& plan.start@ == #[trigger] compact_text(start)
                &&& names(start) == set!["type"@, "languages"@, "config"@]
                &&& member(start, "type"@) == Some(Json::Text("start"@))
                &&& member(start, "languages"@) == Some(Json::List(seq![Json::Text(language@)]))
                &&& member(start, "config"@) matches Some(options)
                &&& names(options)
                    == set!["encoding"@, "sample_rate"@, "continuous_mode"@, "utterance_end_ms"@]
                &&& member(options, "encoding"@) == Some(Json::Text("linear"@))
                &&& member(options, "sample_rate"@) == Some(Json::Integer(sample_rate as nat))
                &&& member(options, "continuous_mode"@) == Some(Json::Bool(true))
                &&& member(options, "utterance_end_ms"@) == Some(
                    Json::Integer(plan.utterance_end_ms as nat),
                )
            },
{
    lemma_member_names();
    let start = start_frame(config@, sample_rate);
    assert(plan.start@ == compact_text(start));
    assert(names(start) =~= set!["type"@, "languages"@, "config"@]);
    let options = member(start, "config"@)->0;
    assert(names(options)
        =~= set!["encoding"@, "sample_rate"@, "continuous_mode"@, "utterance_end_ms"@]);
}

/// A configuration is one for 60db exactly if the provider is named `60db` or `sixtydb`; any other
/// name stands for Deepgram, whose settings are kept as they are given.
pub proof fn law_provider_name_decides(
    provider: &str,
    api_key: String,
    language: String,
    endpointing_ms: u32,
    config: SttConfig,
)
    requires
        call_ensures(SttConfig::new, (provider, api_key, language, endpointing_ms), config),
    ensures
        config is SixtyDb <==> provider@ == "60db"@ || provider@ == "sixtydb"@,
        config matches SttConfig::Deepgram(deepgram) ==> deepgram.api_key@ == api_key@
            && deepgram.language@ == language@ && deepgram.endpointing_ms == endpointing_ms,
{
}

/// Opening a session with a configuration opens one with the backend of the configuration, with the
/// settings that it was given and at the rate asked for.
pub proof fn law_configuration_opens_its_backend(
    provider: &str,
    api_key: String,
    language: String,
    endpointing_ms: u32,
    config: SttConfig,
    sample_rate: u32,
    opening: SessionOpening<'_>,
)
    requires
        call_ensures(SttConfig::new, (provider, api_key, language, endpointing_ms), config),
        call_ensures(SttConfig::create_session, (&config, sample_rate), opening),
    ensures
        match opening {
            SessionOpening::Deepgram(deepgram, rate) => {
                &&& provider@ != "60db"@ && provider@ != "sixtydb"@
                &&& deepgram.api_key@ == api_key@
                &&& deepgram.language@ == language@
                &&& deepgram.endpointing_ms == endpointing_ms
                &&& rate == sample_rate
            },
            SessionOpening::SixtyDb(plan) => {
                &&& provider@ == "60db"@ || provider@ == "sixtydb"@
                &&& plan.url@ == "wss://api.60db.ai/ws/stt?apiKey="@ + api_key@
                &&& plan.language@ == language@
                &&& plan.utterance_end_ms >= endpointing_ms
                &&& plan.utterance_end_ms >= 300
                &&& plan.utterance_end_ms == endpointing_ms || plan.utterance_end_ms == 300
                &&& exists|start: Json|
                    {
                        &&& plan.start@ == #[trigger] compact_text(start)
                        &&& names(start) == set!["type"@, "languages"@, "config"@]
                        &&& member(start, "type"@) == Some(Json::Text("start"@))
                        &&& member(start, "languages"@) == Some(
                            Json::List(seq![Json::Text(language@)]),
                        )
                        &&& member(start, "config"@) matches Some(options)
                        &&& names(options) == set![
                            "encoding"@,
                            "sample_rate"@,
                            "continuous_mode"@,
                            "utterance_end_ms"@,
                        ]
                        &&& member(options, "encoding"@) == Some(Json::Text("linear"@))
                        &&& member(options, "sample_rate"@) == Some(
                            Json::Integer(sample_rate as nat),
                        )
                        &&& member(options, "continuous_mode"@) == Some(Json::Bool(true))
                        &&& member(options, "utterance_end_ms"@) == Some(
                            Json::Integer(plan.utterance_end_ms as nat),
                        )
                    }
            },
        },
{
    if let SttConfig::SixtyDb(sixtydb) = config {
        lemma_member_names();
        let start = start_frame(sixtydb@, sample_rate);
        assert(opening->SixtyDb_0.start@ == compact_text(start));
        assert(names(start) =~= set!["type"@, "languages"@, "config"@]);
        let options = member(start, "config"@)->0;
        assert(names(options)
            =~= set!["encoding"@, "sample_rate"@, "continuous_mode"@, "utterance_end_ms"@]);
    }
}

/// Different keys connect to different places, and the same key always to the same.
pub proof fn law_key_decides_where_to_connect(
    one: SixtyDbStt,
    other: SixtyDbStt,
    rate: u32,
    plan: SessionPlan,
    other_rate: u32,
    other_plan: SessionPlan,
)
    requires
        call_ensures(SixtyDbStt::create_session, (&one, rate), plan),
        call_ensures(SixtyDbStt::create_session, (&other, other_rate), other_plan),
    ensures
        plan.url@ == other_plan.url@ <==> one@.api_key == other@.api_key,
{
    let head = "wss://api.60db.ai/ws/stt?apiKey="@;
    assert(plan.url@.skip(head.len() as int) == one@.api_key);
    assert(other_plan.url@.skip(head.len() as int) == other@.api_key);
}

proof fn lemma_audio_frame_members(audio: Seq<char>, sample_rate: u32)
    ensures
        ({
            let frame = audio_frame(audio, sample_rate);
            &&& names(frame) == set!["type"@, "audio"@, "encoding"@, "sample_rate"@]
            &&& member(frame, "type"@) == Some(Json::Text("audio"@))
            &&& member(frame, "audio"@) == Some(Json::Text(audio))
            &&& member(frame, "encoding"@) == Some(Json::Text("linear"@))
            &&& member(frame, "sample_rate"@) == Some(Json::Integer(sample_rate as nat))
        }),
{
    lemma_member_names();
    let frame = audio_frame(audio, sample_rate);
    assert(names(frame) =~= set!["type"@, "audio"@, "encoding"@, "sample_rate"@]);
}

proof fn lemma_bytes_are_little_endian(samples: Seq<i16>)
    ensures
        pcm_bytes(samples).len() == 2 * samples.len(),
        forall|i: int|
            0 <= i < samples.len() ==> pcm_bytes(samples)[2 * i] + 256 * pcm_bytes(samples)[2 * i
                + 1] == if (#[trigger] samples[i]) >= 0 {
                samples[i] as int
            } else {
                samples[i] + 65536
            },
{
    let bytes = pcm_bytes(samples);
    assert forall|i: int| 0 <= i < samples.len() implies bytes[2 * i] + 256 * bytes[2 * i + 1]
        == if (#[trigger] samples[i]) >= 0 {
        samples[i] as int
    } else {
        samples[i] + 65536
    } by {
        assert(bytes[2 * i] == low_byte(samples[i]));
        assert(bytes[2 * i + 1] == high_byte(samples[i]));
    }
}

/// The frame for a base64 text carries that text, whole, and the rate.
pub proof fn law_audio_frame_carries_its_text(audio: &str, sample_rate: u32, text: String)
    requires
        call_ensures(audio_text, (audio, sample_rate), text),
    ensures
        exists|frame: Json|
            {
                &&& text@ == #[trigger] compact_text(frame)
                &&& names(frame) == set!["type"@, "audio"@, "encoding"@, "sample_rate"@]
                &&& member(frame, "type"@) == Some(Json::Text("audio"@))
                &&& member(frame, "audio"@) == Some(Json::Text(audio@))
                &&& member(frame, "encoding"@) == Some(Json::Text("linear"@))
                &&& member(frame, "sample_rate"@) == Some(Json::Integer(sample_rate as nat))
            },
{
    lemma_audio_frame_members(audio@, sample_rate);
    assert(text@ == compact_text(audio_frame(audio@, sample_rate)));
}

/// The frame for a run of samples carries every one of them, in order and none besides: its audio is
/// the base64 text of two bytes for each sample, the less significant first, which together are the
/// sample's two's complement. Decoding that text gives these bytes. The rate is the session's.
pub proof fn law_audio_frame_carries_every_sample<S: Copy, I>(
    session: &SixtyDbSession<S, I>,
    samples: &[i16],
    text: String,
)
    requires
        call_ensures(SixtyDbSession::<S, I>::audio_message, (session, samples), text),
    ensures
        exists|frame: Json, bytes: Seq<u8>|
            {
                &&& text@ == #[trigger] compact_text(frame)
                &&& names(frame) == set!["type"@, "audio"@, "encoding"@, "sample_rate"@]
                &&& member(frame, "type"@) == Some(Json::Text("audio"@))
                &&& member(frame, "encoding"@) == Some(Json::Text("linear"@))
                &&& member(frame, "sample_rate"@) == Some(
                    Json::Integer(session.sample_rate as nat),
                )
                &&& member(frame, "audio"@) == Some(Json::Text(#[trigger] base64_text(bytes)))
                &&& stands_for(base64_text(bytes), bytes)
                &&& bytes.len() == 2 * samples@.len()
                &&& forall|i: int|
                    0 <= i < samples@.len() ==> bytes[2 * i] + 256 * bytes[2 * i + 1] == if (
                    #[trigger] samples@[i]) >= 0 {
                        samples@[i] as int
                    } else {
                        samples@[i] + 65536
                    }
            },
{
    let bytes = pcm_bytes(samples@);
    let frame = audio_frame(base64_text(bytes), session.sample_rate);
    assert(text@ == compact_text(frame));
    lemma_audio_frame_members(base64_text(bytes), session.sample_rate);
    lemma_bytes_are_little_endian(samples@);
}

/// The frame that ends a session says so and nothing else.
pub proof fn law_session_ends_with_stop<S: Copy, I>(session: &SixtyDbSession<S, I>, text: String)
    requires
        call_ensures(SixtyDbSession::<S, I>::close, (session,), text),
    ensures
        exists|frame: Json|
            {
                &&& text@ == #[trigger] compact_text(frame)
                &&& names(frame) == set!["type"@]
                &&& member(frame, "type"@) == Some(Json::Text("stop"@))
            },
{
    let frame = stop_frame();
    assert(text@ == compact_text(frame));
    assert(names(frame) =~= set!["type"@]);
}

/// A new session has sent what it is told that it has, last at the time that it is told.
pub proof fn law_session_starts_as_told<S: Copy, I>(
    no_audio: S,
    now: I,
    sample_rate: u32,
    session: SixtyDbSession<S, I>,
)
    requires
        call_ensures(SixtyDbSession::<S, I>::new, (no_audio, now, sample_rate), session),
    ensures
        session.audio_sent_secs == no_audio,
        session.last_send_time == now,
        session.sample_rate == sample_rate,
{
}

/// Audio that went out counts in full: after `count` samples that were sent at `now`, the session
/// has sent what `advance` makes of what it had sent before, `count` and its rate, and `now` is when
/// it last did.
pub proof fn law_sent_audio_counts<S: Copy, I, A: Fn(S, usize, u32) -> S>(
    before: &SixtyDbSession<S, I>,
    count: usize,
    now: I,
    advance: A,
    outcome: AudioSend<S, I>,
    session: &mut SixtyDbSession<S, I>,
    result: Result<(), String>,
)
    requires
        call_ensures(SixtyDbSession::<S, I>::sent::<A>, (before, count, now, advance), outcome),
        *old(session) == *before,
        call_ensures(SixtyDbSession::<S, I>::send_audio, (session, outcome), result),
    ensures
        result is Ok,
        call_ensures(
            advance,
            (before.audio_sent_secs, count, before.sample_rate),
            final(session).audio_sent_secs,
        ),
        final(session).last_send_time == now,
        final(session).sample_rate == before.sample_rate,
{
}

/// Audio that did not go out does not count. Where the socket was full, that is no error; where the
/// write failed, the error tells why.
pub proof fn law_unsent_audio_does_not_count<S: Copy, I>(
    session: &mut SixtyDbSession<S, I>,
    outcome: AudioSend<S, I>,
    result: Result<(), String>,
)
    requires
        !(outcome is Sent),
        call_ensures(SixtyDbSession::<S, I>::send_audio, (session, outcome), result),
    ensures
        *final(session) == *old(session),
        outcome is WouldBlock ==> result is Ok,
        outcome matches AudioSend::Failed(cause) ==> result is Err && result->Err_0@
            == "Failed to send audio to 60db: "@ + cause@,
{
}

/// A message reports an error exactly if its type says so.
pub proof fn law_error_type_marks_errors<S: Copy>(message: &SdbMessage<S>, error: bool)
    requires
        call_ensures(SdbMessage::<S>::is_error, (message,), error),
    ensures
        error <==> message.msg_type is Some && message.msg_type->0@ == "error"@,
{
}

/// A message is a transcript to hand on exactly if it reports no error, is final, is not the first
/// of two passes, and has a text with at least one character that is not white space. How long the
/// text is and what else the message holds does not matter.
pub proof fn law_every_spoken_final_message_counts<S: Copy>(
    message: &SdbMessage<S>,
    finalized: bool,
)
    requires
        call_ensures(SdbMessage::<S>::is_finalized, (message,), finalized),
    ensures
        finalized <==> {
            &&& !(message.msg_type is Some && message.msg_type->0@ == "error"@)
            &&& message.is_final == Some(true)
            &&& message.speech_final != Some(false)
            &&& message.text is Some
            &&& exists|i: int|
                0 <= i < message.text->0@.len() && !white_space(#[trigger] message.text->0@[i])
        },
{
}

/// When the utterance of a message ended: when its last word did, if it has words and the last one
/// has an end, and otherwise when the audio sent ends.
pub proof fn law_utterance_ends_with_its_last_word<S: Copy, I>(
    session: &SixtyDbSession<S, I>,
    message: &SdbMessage<S>,
    end: S,
)
    requires
        call_ensures(SixtyDbSession::<S, I>::utterance_end_secs, (session, message), end),
    ensures
        message.words matches Some(words) ==> {
            &&& words@.len() == 0 ==> end == session.audio_sent_secs
            &&& words@.len() > 0 ==> match words@[words@.len() - 1].end {
                Some(last) => end == last,
                None => end == session.audio_sent_secs,
            }
        },
        message.words is None ==> end == session.audio_sent_secs,
{
}

/// The timing of a message has the backlog from the end of its utterance to the end of the audio
/// sent, and the time since the last send.
pub proof fn law_timing_spans_the_backlog<S: Copy, I, B: Fn(S, S) -> u64>(
    session: &SixtyDbSession<S, I>,
    message: &SdbMessage<S>,
    end: S,
    since_last_send_ms: u64,
    backlog: B,
    timing: Timing,
)
    requires
        call_ensures(SixtyDbSession::<S, I>::utterance_end_secs, (session, message), end),
        call_ensures(
            SixtyDbSession::<S, I>::timing::<B>,
            (session, message, since_last_send_ms, backlog),
            timing,
        ),
    ensures
        call_ensures(backlog, (session.audio_sent_secs, end), timing.backlog_ms),
        timing.since_last_send_ms == since_last_send_ms,
{
}

/// A transcript is the text of its message, character for character, and its latency is the backlog
/// and the time since the last send together.
pub proof fn law_transcript_is_the_text_of_its_message<S: Copy>(
    message: &SdbMessage<S>,
    timing: Timing,
    finalized: bool,
    result: Option<SttResult>,
)
    requires
        call_ensures(SdbMessage::<S>::is_finalized, (message,), finalized),
        call_ensures(SdbMessage::<S>::transcript, (message, timing), result),
    ensures
        result is Some <==> finalized,
        result matches Some(transcript) ==> message.text is Some && transcript.text@
            == message.text->0@ && transcript.stt_latency_ms == timing.backlog_ms
            + timing.since_last_send_ms,
{
}

/// Handling a message hands on every transcript, whole, and nothing else. The latency is what
/// `backlog` gives for the audio sent and the end of the utterance, and the time since the last send
/// on top.
pub proof fn law_handling_hands_every_transcript_on<S: Copy, I, B: Fn(S, S) -> u64>(
    session: &SixtyDbSession<S, I>,
    message: &SdbMessage<S>,
    end: S,
    since_last_send_ms: u64,
    backlog: B,
    result: Option<SttResult>,
)
    requires
        call_ensures(SixtyDbSession::<S, I>::utterance_end_secs, (session, message), end),
        call_ensures(
            SixtyDbSession::<S, I>::handle_message::<B>,
            (session, message, since_last_send_ms, backlog),
            result,
        ),
    ensures
        result is Some <==> {
            &&& !(message.msg_type is Some && message.msg_type->0@ == "error"@)
            &&& message.is_final == Some(true)
            &&& message.speech_final != Some(false)
            &&& message.text is Some
            &&& exists|i: int|
                0 <= i < message.text->0@.len() && !white_space(#[trigger] message.text->0@[i])
        },
        result matches Some(transcript) ==> {
            &&& transcript.text@ == message.text->0@
            &&& exists|ms: u64|
                {
                    &&& #[trigger] call_ensures(backlog, (session.audio_sent_secs, end), ms)
                    &&& transcript.stt_latency_ms == ms + since_last_send_ms
                }
        },
{
    if let Some(transcript) = result {
        let ms = choose|ms: u64|
            {
                &&& #[trigger] backlog_of(backlog, message@, session.audio_sent_secs, ms)
                &&& transcript.stt_latency_ms == ms + since_last_send_ms
            };
        assert(call_ensures(backlog, (session.audio_sent_secs, end), ms));
    }
}

/// A poll that reads a message returns it as a transcript exactly if it reports no error, is final,
/// is not the first of two passes, and has a text with at least one character that is not white
/// space; it reads past any other. What it returns is the whole text, whatever its length, with the
/// latency from the end of the utterance.
pub proof fn law_poll_returns_every_transcript<S: Copy, I, B: Fn(S, S) -> u64>(
    session: &SixtyDbSession<S, I>,
    message: SdbMessage<S>,
    end: S,
    since_last_send_ms: u64,
    backlog: B,
    step: PollStep,
)
    requires
        call_ensures(SixtyDbSession::<S, I>::utterance_end_secs, (session, &message), end),
        call_ensures(
            SixtyDbSession::<S, I>::poll_transcript::<B>,
            (session, SttEvent::Message(message, since_last_send_ms), backlog),
            step,
        ),
    ensures
        step is Ready <==> {
            &&& !(message.msg_type is Some && message.msg_type->0@ == "error"@)
            &&& message.is_final == Some(true)
            &&& message.speech_final != Some(false)
            &&& message.text is Some
            &&& exists|i: int|
                0 <= i < message.text->0@.len() && !white_space(#[trigger] message.text->0@[i])
        },
        !(step is Ready) ==> step is Continue,
        step matches PollStep::Ready(transcript) ==> {
            &&& transcript.text@ == message.text->0@
            &&& exists|ms: u64|
                {
                    &&& #[trigger] call_ensures(backlog, (session.audio_sent_secs, end), ms)
                    &&& transcript.stt_latency_ms == ms + since_last_send_ms
                }
        },
{
    let event = SttEvent::Message(message, since_last_send_ms);
    let ms = choose|ms: u64|
        {
            &&& step@ == poll_step(#[trigger] event.timed(ms))
            &&& message@.is_finalized() ==> backlog_of(
                backlog,
                message@,
                session.audio_sent_secs,
                ms,
            )
        };
    if step is Ready {
        assert(call_ensures(backlog, (session.audio_sent_secs, end), ms));
    }
}

/// A poll reads past frames that hold no message, says that there is nothing yet where there is
/// nothing to read, and fails with the cause where reading does.
pub proof fn law_poll_reads_past_other_frames<S: Copy, I, B: Fn(S, S) -> u64>(
    session: &SixtyDbSession<S, I>,
    event: SttEvent<S>,
    backlog: B,
    step: PollStep,
)
    requires
        call_ensures(
            SixtyDbSession::<S, I>::poll_transcript::<B>,
            (session, event, backlog),
            step,
        ),
    ensures
        event is Unparsed || event is Other ==> step is Continue,
        event is WouldBlock ==> step is Pending,
        event matches SttEvent::Failed(cause) ==> step is Failed && step->Failed_0@
            == "60db WebSocket error: "@ + cause@,
{
}

} // verus!
