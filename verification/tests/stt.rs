use audio_engine::stt::sixtydb::{
    audio_text, AudioSend, PollStep, SdbMessage, SdbWord, SixtyDbSession, SixtyDbStt, SttEvent,
    Timing,
};
use audio_engine::stt::{SessionOpening, SttConfig};

fn final_message(text: &str) -> SdbMessage<f64> {
    SdbMessage {
        msg_type: Some("transcription".to_string()),
        text: Some(text.to_string()),
        is_final: Some(true),
        speech_final: None,
        words: None,
        message: None,
    }
}

fn session() -> SixtyDbSession<f64, u64> {
    SixtyDbSession::new(0.0, 100, 16000)
}

fn timing() -> Timing {
    Timing { backlog_ms: 250, since_last_send_ms: 30 }
}

fn backlog(sent: f64, end: f64) -> u64 {
    ((sent - end) * 1000.0).max(0.0) as u64
}

fn transcript(message: &SdbMessage<f64>) -> Option<(String, u64)> {
    assert_eq!(message.is_finalized(), session().handle_message(message, 30, backlog).is_some());
    message.transcript(timing()).map(|r| (r.text, r.stt_latency_ms))
}

#[test]
fn provider_names_select_the_backend() {
    for provider in ["60db", "sixtydb"] {
        let config = SttConfig::new(provider, "k".to_string(), "en".to_string(), 500);
        assert!(matches!(config, SttConfig::SixtyDb(_)));
    }
    for provider in ["deepgram", "", "60DB", "other"] {
        match SttConfig::new(provider, "k".to_string(), "en".to_string(), 100) {
            SttConfig::Deepgram(config) => {
                assert_eq!(config.api_key, "k");
                assert_eq!(config.language, "en");
                assert_eq!(config.endpointing_ms, 100);
            }
            SttConfig::SixtyDb(_) => panic!("{} is not 60db", provider),
        }
    }
}

#[test]
fn session_plan_names_the_key_and_the_options() {
    let config = SixtyDbStt::new("secret".to_string(), "de".to_string(), 700);
    let plan = config.create_session(16000);
    assert_eq!(plan.url, "wss://api.60db.ai/ws/stt?apiKey=secret");
    assert_eq!(
        plan.start,
        [
            r#"{"config":{"continuous_mode":true,"encoding":"linear","sample_rate":16000,"#,
            r#""utterance_end_ms":700},"languages":["de"],"type":"start"}"#,
        ]
        .concat()
    );
    assert_eq!(plan.language, "de");
    assert_eq!(plan.utterance_end_ms, 700);
}

#[test]
fn short_silences_are_raised_to_the_minimum() {
    for (asked, sent) in [(0, 300), (299, 300), (300, 300), (301, 301)] {
        let plan = SixtyDbStt::new(String::new(), "en".to_string(), asked).create_session(8000);
        assert!(plan.start.contains(&format!(r#""utterance_end_ms":{}}}"#, sent)));
        assert_eq!(plan.utterance_end_ms, sent);
    }
}

#[test]
fn the_configuration_opens_its_own_kind_of_session() {
    let sixtydb = SttConfig::new("60db", "k".to_string(), "en".to_string(), 500);
    match sixtydb.create_session(16000) {
        SessionOpening::SixtyDb(plan) => {
            assert_eq!(plan.url, "wss://api.60db.ai/ws/stt?apiKey=k");
            assert!(plan.start.contains(r#""sample_rate":16000"#));
        }
        SessionOpening::Deepgram(..) => panic!("wrong backend"),
    }
    let deepgram = SttConfig::new("deepgram", "d".to_string(), "fr".to_string(), 500);
    match deepgram.create_session(24000) {
        SessionOpening::Deepgram(config, rate) => {
            assert_eq!(config.language, "fr");
            assert_eq!(rate, 24000);
        }
        SessionOpening::SixtyDb(_) => panic!("wrong backend"),
    }
}

#[test]
fn audio_travels_as_base64_in_a_json_frame() {
    assert_eq!(
        session().audio_message(&[0, 32767]),
        r#"{"audio":"AAD/fw==","encoding":"linear","sample_rate":16000,"type":"audio"}"#
    );
    assert_eq!(
        session().audio_message(&[]),
        r#"{"audio":"","encoding":"linear","sample_rate":16000,"type":"audio"}"#
    );
}

#[test]
fn audio_is_standard_base64_with_padding() {
    for (samples, expected) in [
        (vec![0x6f66], "Zm8="),
        (vec![0x6f66, 0x626f, 0x7261], "Zm9vYmFy"),
        (vec![-5, 0x00bf], "+/+/AA=="),
        (vec![0x6f66, 0x626f], "Zm9vYg=="),
    ] {
        assert_eq!(session().audio_message(&samples), audio_text(expected, 16000));
    }
}

#[test]
fn an_audio_frame_carries_the_text_it_is_given() {
    assert_eq!(
        audio_text("QUJD", 8000),
        r#"{"audio":"QUJD","encoding":"linear","sample_rate":8000,"type":"audio"}"#
    );
}

#[test]
fn sent_audio_adds_its_duration() {
    let mut s = session();
    s.audio_sent_secs = 1.5;
    let outcome = s.sent(8000, 130, |total: f64, count: usize, rate: u32| {
        total + count as f64 / rate as f64
    });
    s.send_audio(outcome).unwrap();
    assert_eq!(s.audio_sent_secs, 2.0);
    assert_eq!(s.last_send_time, 130);
}

#[test]
fn the_backlog_runs_from_the_last_word_to_the_audio_sent() {
    let mut s = session();
    s.audio_sent_secs = 3.5;
    let mut message = final_message("hello");
    assert_eq!(s.timing(&message, 40, backlog).backlog_ms, 0);
    message.words = Some(vec![SdbWord { end: Some(1.0) }, SdbWord { end: Some(2.25) }]);
    let timing = s.timing(&message, 40, backlog);
    assert_eq!(timing.backlog_ms, 1250);
    assert_eq!(timing.since_last_send_ms, 40);
    assert_eq!(message.transcript(timing).unwrap().stt_latency_ms, 1290);
    assert_eq!(s.handle_message(&message, 40, backlog).unwrap().stt_latency_ms, 1290);
    match s.poll_transcript(SttEvent::Message(message, 40), backlog) {
        PollStep::Ready(result) => assert_eq!(result.stt_latency_ms, 1290),
        _ => panic!("a final transcript is ready"),
    }
}

#[test]
fn the_latency_without_words_is_the_time_since_the_last_send() {
    let mut s = session();
    s.audio_sent_secs = 3.5;
    let mut message = final_message("hello");
    assert_eq!(s.handle_message(&message, 40, backlog).unwrap().stt_latency_ms, 40);
    message.words = Some(vec![SdbWord { end: Some(4.0) }]);
    assert_eq!(s.handle_message(&message, 40, backlog).unwrap().stt_latency_ms, 40);
}

#[test]
fn only_transcripts_are_timed() {
    let mut interim = final_message("hel");
    interim.is_final = Some(false);
    let unused = |_: f64, _: f64| -> u64 { panic!("there is nothing to time") };
    assert!(session().handle_message(&interim, u64::MAX, unused).is_none());
}

#[test]
fn closing_sends_stop() {
    assert_eq!(session().close(), r#"{"type":"stop"}"#);
}

#[test]
fn texts_are_escaped_in_frames() {
    let plan = SixtyDbStt::new(String::new(), "e\"n\n".to_string(), 500).create_session(8000);
    assert!(plan.start.contains(r#""languages":["e\"n\n"]"#));
}

#[test]
fn sent_audio_moves_the_clock() {
    let mut s = session();
    assert!(s.send_audio(AudioSend::Sent { audio_sent_secs: 0.5, now: 120 }).is_ok());
    assert_eq!(s.audio_sent_secs, 0.5);
    assert_eq!(s.last_send_time, 120);
    assert_eq!(s.sample_rate, 16000);
}

#[test]
fn audio_that_would_block_is_dropped_silently() {
    let mut s = session();
    assert!(s.send_audio(AudioSend::WouldBlock).is_ok());
    assert_eq!(s.audio_sent_secs, 0.0);
    assert_eq!(s.last_send_time, 100);
}

#[test]
fn audio_that_cannot_be_sent_is_an_error() {
    let mut s = session();
    let error = s.send_audio(AudioSend::Failed("broken pipe".to_string())).unwrap_err();
    assert_eq!(error, "Failed to send audio to 60db: broken pipe");
    assert_eq!(s.audio_sent_secs, 0.0);
    assert_eq!(s.last_send_time, 100);
}

#[test]
fn a_final_transcript_is_handed_on_with_its_latency() {
    assert_eq!(transcript(&final_message(" hello ")), Some((" hello ".to_string(), 280)));
    let mut spoken = final_message("hello");
    spoken.speech_final = Some(true);
    assert_eq!(transcript(&spoken), Some(("hello".to_string(), 280)));
}

#[test]
fn interim_and_blank_messages_are_read_past() {
    let mut interim = final_message("hello");
    interim.is_final = Some(false);
    assert_eq!(transcript(&interim), None);
    interim.is_final = None;
    assert_eq!(transcript(&interim), None);
    assert_eq!(transcript(&final_message(" \t\u{a0}")), None);
    let mut silent = final_message("");
    silent.text = None;
    assert_eq!(transcript(&silent), None);
}

#[test]
fn the_first_of_two_passes_is_read_past() {
    let mut first = final_message("helo world");
    first.speech_final = Some(false);
    let mut second = final_message("hello world");
    second.speech_final = Some(true);
    let handed_on: Vec<String> =
        [first, second].iter().filter_map(|m| transcript(m)).map(|r| r.0).collect();
    assert_eq!(handed_on, vec!["hello world"]);
}

#[test]
fn errors_are_never_transcripts() {
    let mut error = final_message("hello");
    error.msg_type = Some("error".to_string());
    error.message = Some("quota".to_string());
    assert!(error.is_error());
    assert_eq!(transcript(&error), None);
    let mut untyped = final_message("hello");
    untyped.msg_type = None;
    assert!(!untyped.is_error());
    assert_eq!(transcript(&untyped), Some(("hello".to_string(), 280)));
}

#[test]
fn an_utterance_ends_with_its_last_word() {
    let mut s = session();
    s.audio_sent_secs = 3.5;
    let mut message = final_message("hello");
    assert_eq!(s.utterance_end_secs(&message), 3.5);
    message.words = Some(vec![]);
    assert_eq!(s.utterance_end_secs(&message), 3.5);
    message.words = Some(vec![SdbWord { end: Some(1.25) }, SdbWord { end: Some(2.25) }]);
    assert_eq!(s.utterance_end_secs(&message), 2.25);
    message.words = Some(vec![SdbWord { end: Some(1.25) }, SdbWord { end: None }]);
    assert_eq!(s.utterance_end_secs(&message), 3.5);
}

#[test]
fn polling_reads_until_an_event_decides() {
    let s = session();
    let mut interim = final_message("hel");
    interim.is_final = Some(false);
    assert!(matches!(
        s.poll_transcript(SttEvent::Message(interim, 30), backlog),
        PollStep::Continue
    ));
    assert!(matches!(s.poll_transcript(SttEvent::Unparsed, backlog), PollStep::Continue));
    assert!(matches!(s.poll_transcript(SttEvent::Other, backlog), PollStep::Continue));
    assert!(matches!(s.poll_transcript(SttEvent::WouldBlock, backlog), PollStep::Pending));
    match s.poll_transcript(SttEvent::Failed("reset".to_string()), backlog) {
        PollStep::Failed(error) => assert_eq!(error, "60db WebSocket error: reset"),
        _ => panic!("a failed read fails the poll"),
    }
    match s.poll_transcript(SttEvent::Message(final_message("hello"), 30), backlog) {
        PollStep::Ready(result) => {
            assert_eq!(result.text, "hello");
            assert_eq!(result.stt_latency_ms, 30);
        }
        _ => panic!("a final transcript is ready"),
    }
}
