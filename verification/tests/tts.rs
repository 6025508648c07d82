use audio_engine::codec::Base64Fault;
use audio_engine::tts::error::TtsError;
use audio_engine::tts::exchange::{
    Action, AudioChunk, Exchange, ReadEvent, SdbTtsError, SdbTtsMessage, SendEvent, Voice,
    READ_TIMEOUT_MS,
};
use audio_engine::tts::sixtydb::{OpenError, Start};
use audio_engine::tts::{SixtyDbTts, TtsEngine};

fn synthesizer(rate: u32) -> SixtyDbTts<&'static str> {
    SixtyDbTts::new("secret".to_string(), "nova".to_string(), rate).unwrap()
}

fn connected(rate: u32) -> SixtyDbTts<&'static str> {
    let mut tts = synthesizer(rate);
    tts.connect("socket");
    tts
}

fn voice() -> Voice {
    Voice { voice_id: "nova".to_string(), sample_rate: 48000, speed: 1, stability: 50, similarity: 75 }
}

fn collecting() -> Exchange {
    let mut exchange = Exchange::new("ctx-1", &voice(), "hello");
    for _ in 0..3 {
        exchange.on_send(SendEvent::Sent).unwrap();
    }
    exchange
}

fn audio(content: &str) -> ReadEvent {
    ReadEvent::Message(SdbTtsMessage {
        audio_chunk: Some(AudioChunk { audio_content: Some(content.to_string()) }),
        flush_completed: false,
        error: None,
    })
}

fn flushed() -> ReadEvent {
    ReadEvent::Message(SdbTtsMessage { audio_chunk: None, flush_completed: true, error: None })
}

fn sends(exchange: &Exchange) -> String {
    match exchange.next_action(0).unwrap() {
        Action::Send(text) => text,
        Action::Read { .. } => "read".to_string(),
        Action::Done => "done".to_string(),
    }
}

#[test]
fn a_voice_is_needed() {
    for voice in ["", "  ", "\u{3000}\n"] {
        let tts: Result<SixtyDbTts<()>, TtsError> =
            SixtyDbTts::new("k".to_string(), voice.to_string(), 48000);
        match tts {
            Err(error) => {
                assert!(matches!(error, TtsError::MissingVoice));
                assert_eq!(
                    error.message(),
                    "60db TTS requires a voice_id (set the 60db voice in Settings)"
                );
            }
            Ok(_) => panic!("no voice was accepted"),
        }
    }
}

#[test]
fn the_key_is_part_of_the_url() {
    assert_eq!(synthesizer(48000).url(), "wss://api.60db.ai/ws/tts?apiKey=secret");
}

#[test]
fn blank_text_is_silent() {
    assert!(matches!(synthesizer(48000).synthesize(" \n"), Start::Silence));
    assert!(matches!(connected(48000).synthesize(""), Start::Silence));
}

#[test]
fn a_synthesizer_without_connection_connects_first() {
    match synthesizer(48000).synthesize(" hi there ") {
        Start::Connect { url, text } => {
            assert_eq!(url, "wss://api.60db.ai/ws/tts?apiKey=secret");
            assert_eq!(text, "hi there");
        }
        _ => panic!("there is no connection"),
    }
    match connected(48000).synthesize(" hi there ") {
        Start::Speak { text } => assert_eq!(text, "hi there"),
        _ => panic!("there is a connection"),
    }
}

#[test]
fn an_exchange_needs_a_connection() {
    let mut tts = synthesizer(48000);
    match tts.synthesize_once("hi") {
        Err(error) => assert_eq!(error.message(), "60db TTS not connected"),
        Ok(_) => panic!("there is no connection"),
    }
    assert_eq!(tts.contexts(), 1);
}

#[test]
fn frames_go_out_in_order() {
    let mut tts = connected(44100);
    let (ws, mut exchange) = tts.synthesize_once("say \"hi\"").unwrap();
    assert_eq!(ws, "socket");
    assert_eq!(
        sends(&exchange),
        [
            r#"{"create_context":{"audio_config":{"audio_encoding":"LINEAR16","#,
            r#""sample_rate_hertz":48000},"context_id":"ctx-1","similarity":75.0,"speed":1.0,"#,
            r#""stability":50.0,"voice_id":"nova"}}"#,
        ]
        .concat()
    );
    exchange.on_send(SendEvent::Sent).unwrap();
    assert_eq!(
        sends(&exchange),
        r#"{"send_text":{"context_id":"ctx-1","text":"say \"hi\""}}"#
    );
    exchange.on_send(SendEvent::Sent).unwrap();
    assert_eq!(sends(&exchange), r#"{"flush_context":{"context_id":"ctx-1"}}"#);
    exchange.on_send(SendEvent::Sent).unwrap();
    assert_eq!(sends(&exchange), "read");
    exchange.on_read(flushed()).unwrap();
    assert_eq!(sends(&exchange), r#"{"close_context":{"context_id":"ctx-1"}}"#);
    exchange.on_send(SendEvent::Failed("gone".to_string())).unwrap();
    assert_eq!(sends(&exchange), "done");
}

#[test]
fn a_request_that_cannot_be_sent_ends_the_exchange() {
    let expected = [
        "60db create_context send failed",
        "60db send_text failed",
        "60db flush_context failed",
    ];
    for sent in 0..3 {
        let mut exchange = Exchange::new("ctx-1", &voice(), "hello");
        for _ in 0..sent {
            exchange.on_send(SendEvent::Sent).unwrap();
        }
        let error = exchange.on_send(SendEvent::Failed("reset".to_string())).unwrap_err();
        assert_eq!(error.message(), expected[sent]);
        let cause = match error {
            TtsError::CreateContextFailed(cause) => cause,
            TtsError::SendTextFailed(cause) => cause,
            TtsError::FlushContextFailed(cause) => cause,
            _ => panic!("not a failed request"),
        };
        assert_eq!(cause, "reset");
    }
}

#[test]
fn audio_is_collected_in_order() {
    let mut exchange = collecting();
    exchange.on_read(audio("AQACAA==")).unwrap();
    exchange.on_read(ReadEvent::Unparsed).unwrap();
    exchange.on_read(ReadEvent::Binary(vec![3, 0, 4])).unwrap();
    exchange.on_read(ReadEvent::Other).unwrap();
    exchange.on_read(ReadEvent::Binary(vec![0])).unwrap();
    assert_eq!(sends(&exchange), "read");
    exchange
        .on_read(ReadEvent::Message(SdbTtsMessage {
            audio_chunk: Some(AudioChunk { audio_content: Some("/38=".to_string()) }),
            flush_completed: true,
            error: None,
        }))
        .unwrap();
    assert_eq!(exchange.samples(), vec![1, 2, 3, 4, 32767]);
    assert_ne!(sends(&exchange), "read");
}

#[test]
fn a_chunk_without_content_adds_nothing() {
    let mut exchange = collecting();
    exchange
        .on_read(ReadEvent::Message(SdbTtsMessage {
            audio_chunk: Some(AudioChunk { audio_content: None }),
            flush_completed: false,
            error: None,
        }))
        .unwrap();
    assert_eq!(sends(&exchange), "read");
    assert!(exchange.samples().is_empty());
}

#[test]
fn server_errors_win_over_audio() {
    let mut exchange = collecting();
    let error = exchange
        .on_read(ReadEvent::Message(SdbTtsMessage {
            audio_chunk: Some(AudioChunk { audio_content: Some("AQA=".to_string()) }),
            flush_completed: true,
            error: Some(SdbTtsError { message: Some("no such voice".to_string()) }),
        }))
        .unwrap_err();
    assert_eq!(error.message(), "60db TTS error: no such voice");
    assert!(exchange.samples().is_empty());
    let bare = collecting()
        .on_read(ReadEvent::Message(SdbTtsMessage {
            audio_chunk: None,
            flush_completed: false,
            error: Some(SdbTtsError { message: None }),
        }))
        .unwrap_err();
    assert_eq!(bare.message(), "60db TTS error: ");
}

#[test]
fn bad_base64_ends_the_exchange() {
    for (content, expected) in [
        ("AQ=", Base64Fault::InvalidPadding),
        ("A!AA", Base64Fault::InvalidByte(1, b'!')),
        ("AAAAA", Base64Fault::InvalidLength(5)),
        ("AB==", Base64Fault::InvalidLastSymbol(1, b'B')),
    ] {
        let error = collecting().on_read(audio(content)).unwrap_err();
        assert_eq!(error.message(), "60db audio_chunk base64 decode failed");
        match error {
            TtsError::BadAudio(fault) => assert_eq!(fault, expected),
            _ => panic!("{} was decoded", content),
        }
    }
}

#[test]
fn a_text_that_no_bytes_encode_to_is_refused() {
    let refused =
        ["AQ", "AQ==AQ==", "AQ==\n", " AQ==", "AR==", "AQB=", "A", "=", "A===", "A-_A", "AQé="];
    for content in refused {
        let mut exchange = collecting();
        exchange.on_read(audio("AQA=")).unwrap();
        assert!(matches!(exchange.on_read(audio(content)), Err(TtsError::BadAudio(_))));
        assert_eq!(exchange.samples(), vec![1]);
        assert_eq!(sends(&exchange), "read");
    }
}

#[test]
fn each_text_stands_for_its_own_bytes() {
    for (content, samples) in [
        ("", vec![]),
        ("AAA=", vec![0]),
        ("AAE=", vec![256]),
        ("AAEC/w==", vec![256, -254]),
        ("+/+/", vec![-5]),
    ] {
        let mut exchange = collecting();
        exchange.on_read(audio(content)).unwrap();
        assert_eq!(exchange.samples(), samples);
    }
}

#[test]
fn decoded_audio_is_absorbed() {
    let mut exchange = collecting();
    exchange.absorb(Some(Ok(vec![5, 0])), false).unwrap();
    exchange.absorb(None, false).unwrap();
    let error = exchange.absorb(Some(Err(Base64Fault::InvalidPadding)), true).unwrap_err();
    assert!(matches!(error, TtsError::BadAudio(Base64Fault::InvalidPadding)));
    assert_eq!(sends(&exchange), "read");
    exchange.absorb(None, true).unwrap();
    assert_eq!(exchange.samples(), vec![5]);
    assert_ne!(sends(&exchange), "read");
}

#[test]
fn a_lost_connection_ends_the_exchange() {
    let closed = collecting().on_read(ReadEvent::Closed).unwrap_err();
    assert_eq!(closed.message(), "60db TTS connection closed mid-synthesis");
    let failed = collecting().on_read(ReadEvent::Failed("timed out".to_string())).unwrap_err();
    assert_eq!(failed.message(), "60db TTS read failed: timed out");
}

#[test]
fn a_read_waits_for_what_is_left_of_the_exchange() {
    let exchange = collecting();
    for elapsed in [0, 1, 10000, READ_TIMEOUT_MS - 1] {
        assert!(!exchange.overdue(elapsed));
        match exchange.next_action(elapsed).unwrap() {
            Action::Read { within_ms } => assert_eq!(within_ms, 15000 - elapsed),
            _ => panic!("the audio is not complete"),
        }
    }
}

#[test]
fn frames_without_end_are_given_up_on() {
    let mut exchange = collecting();
    let mut elapsed = 0;
    let error = loop {
        match exchange.next_action(elapsed) {
            Ok(Action::Read { .. }) => exchange.on_read(audio("AQA=")).unwrap(),
            Ok(_) => panic!("the audio is never complete"),
            Err(error) => break error,
        }
        elapsed += 4000;
    };
    assert_eq!(elapsed, 16000);
    assert!(matches!(error, TtsError::TimedOut));
    assert_eq!(error.message(), "60db TTS read failed: timed out");
    assert!(exchange.overdue(READ_TIMEOUT_MS));
    assert!(exchange.overdue(u64::MAX));
}

#[test]
fn only_waiting_for_audio_is_limited() {
    let mut exchange = Exchange::new("ctx-1", &voice(), "hello");
    for _ in 0..3 {
        assert!(!exchange.overdue(u64::MAX));
        assert!(matches!(exchange.next_action(u64::MAX), Ok(Action::Send(_))));
        exchange.on_send(SendEvent::Sent).unwrap();
    }
    exchange.on_read(flushed()).unwrap();
    assert!(matches!(exchange.next_action(u64::MAX), Ok(Action::Send(_))));
    exchange.on_send(SendEvent::Sent).unwrap();
    assert!(matches!(exchange.next_action(u64::MAX), Ok(Action::Done)));
}

#[test]
fn a_failure_to_connect_shows_at_construction() {
    let failed = synthesizer(48000).opened(Err("refused"));
    assert_eq!(failed.err(), Some("refused"));
    let opened = synthesizer(48000).opened(Ok::<&'static str, String>("socket")).unwrap();
    assert!(matches!(opened.synthesize("hi"), Start::Speak { .. }));
}

#[test]
fn opening_connects_to_the_url_of_the_key() {
    let tts: SixtyDbTts<String> =
        SixtyDbTts::open("k".to_string(), "nova".to_string(), 44100, |url: &str| {
            Ok::<String, String>(url.to_string())
        })
        .unwrap_or_else(|_| panic!("the connection was there"));
    let mut tts = tts;
    assert!(matches!(tts.synthesize("hi"), Start::Speak { .. }));
    let (ws, _) = tts.synthesize_once("hi").unwrap();
    assert_eq!(ws, "wss://api.60db.ai/ws/tts?apiKey=k");

    let refused: Result<SixtyDbTts<()>, OpenError<String>> =
        SixtyDbTts::open("k".to_string(), "nova".to_string(), 44100, |_: &str| {
            Err("refused".to_string())
        });
    match refused {
        Err(OpenError::Connect(error)) => assert_eq!(error, "refused"),
        _ => panic!("the connection failed"),
    }

    let voiceless: Result<SixtyDbTts<()>, OpenError<String>> =
        SixtyDbTts::open("k".to_string(), " ".to_string(), 44100, |_: &str| panic!("no voice"));
    assert!(matches!(voiceless, Err(OpenError::Rejected(TtsError::MissingVoice))));
}

fn speak(tts: &mut SixtyDbTts<&'static str>) -> (&'static str, Exchange) {
    let (ws, mut exchange) = tts.synthesize_once("hello").unwrap();
    for _ in 0..3 {
        exchange.on_send(SendEvent::Sent).unwrap();
    }
    exchange.on_read(ReadEvent::Binary(vec![1, 0, 2, 0])).unwrap();
    exchange.on_read(flushed()).unwrap();
    exchange.on_send(SendEvent::Sent).unwrap();
    (ws, exchange)
}

#[test]
fn a_finished_exchange_keeps_the_connection() {
    let mut tts = connected(24000);
    let (ws, exchange) = speak(&mut tts);
    let synthesis = tts.conclude(ws, Ok(exchange)).unwrap();
    assert_eq!(synthesis.samples, vec![1, 2]);
    assert_eq!(synthesis.resample, None);
    assert!(matches!(tts.synthesize("more"), Start::Speak { .. }));
}

#[test]
fn a_failed_exchange_gives_the_connection_up() {
    let mut tts = connected(24000);
    let (ws, _) = tts.synthesize_once("hello").unwrap();
    match tts.conclude(ws, Err(TtsError::Closed)) {
        Err(error) => assert!(matches!(error, TtsError::Closed)),
        Ok(_) => panic!("the exchange failed"),
    }
    assert!(matches!(tts.synthesize("more"), Start::Connect { .. }));
}

#[test]
fn a_synthesis_that_cannot_connect_changes_nothing() {
    let mut tts = synthesizer(24000);
    for _ in 0..2 {
        assert!(matches!(tts.synthesize("hello"), Start::Connect { .. }));
        assert_eq!(tts.contexts(), 0);
    }
    tts.connect("ws");
    let (ws, exchange) = speak(&mut tts);
    assert!(tts.conclude(ws, Ok(exchange)).is_ok());
    assert_eq!(tts.contexts(), 1);
    assert!(matches!(tts.synthesize("more"), Start::Speak { .. }));
    let (ws, _) = tts.synthesize_once("more").unwrap();
    assert!(tts.conclude(ws, Err(TtsError::Closed)).is_err());
    assert_eq!(tts.contexts(), 2);
    assert!(matches!(tts.synthesize("again"), Start::Connect { .. }));
}

#[test]
fn audio_is_resampled_only_to_rates_that_are_not_supported() {
    for (rate, change) in
        [(8000, None), (48000, None), (44100, Some((48000, 44100))), (22050, Some((24000, 22050)))]
    {
        let mut tts = connected(rate);
        let (ws, exchange) = speak(&mut tts);
        assert_eq!(tts.conclude(ws, Ok(exchange)).unwrap().resample, change);
    }
}

#[test]
fn each_exchange_has_a_context_of_its_own() {
    let mut tts = connected(48000);
    for n in 1..=12u64 {
        let (ws, exchange) = tts.synthesize_once("x").unwrap();
        assert_eq!(tts.contexts(), n);
        assert!(sends(&exchange).contains(&format!(r#""context_id":"ctx-{}""#, n)));
        tts.connect(ws);
    }
}

#[test]
fn the_engine_passes_its_files_on_to_the_backend() {
    let mut engine: TtsEngine<String> =
        TtsEngine::new("voice.onnx.json", "voice.onnx", 48000, |config: &str, model: &str, rate: u32| {
            Ok::<String, String>(format!("{} {} {}", config, model, rate))
        })
        .unwrap_or_else(|error| panic!("{}", error));
    assert_eq!(engine.backend_mut(), "voice.onnx.json voice.onnx 48000");
    engine.backend_mut().push('!');
    assert_eq!(engine.backend_mut(), "voice.onnx.json voice.onnx 48000!");
}

#[test]
fn the_engine_returns_the_error_of_the_backend() {
    let engine: Result<TtsEngine<()>, String> =
        TtsEngine::new("a", "b", 1, |_: &str, model: &str, _: u32| Err(model.to_string()));
    assert_eq!(engine.err(), Some("b".to_string()));
}
