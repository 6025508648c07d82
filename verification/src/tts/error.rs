//! What can go wrong in speech synthesis.
use crate::codec::Base64Fault;
use crate::text::joined;
use vstd::prelude::*;

verus! {

/// Why a synthesis failed. A variant that carries a text carries what the socket or the server said.
#[derive(Debug)]
pub enum TtsError {
    MissingVoice,
    NotConnected,
    CreateContextFailed(String),
    SendTextFailed(String),
    FlushContextFailed(String),
    BadAudio(Base64Fault),
    Server(String),
    Closed,
    ReadFailed(String),
    /// The exchange took longer than it may.
    TimedOut,
}

/// A [`TtsError`], with its texts by their views.
pub ghost enum TtsErrorView {
    MissingVoice,
    NotConnected,
    CreateContextFailed(Seq<char>),
    SendTextFailed(Seq<char>),
    FlushContextFailed(Seq<char>),
    BadAudio(Base64Fault),
    Server(Seq<char>),
    Closed,
    ReadFailed(Seq<char>),
    TimedOut,
}

impl View for TtsError {
    type V = TtsErrorView;

    open spec fn view(&self) -> TtsErrorView {
        match self {
            TtsError::MissingVoice => TtsErrorView::MissingVoice,
            TtsError::NotConnected => TtsErrorView::NotConnected,
            TtsError::CreateContextFailed(cause) => TtsErrorView::CreateContextFailed(cause@),
            TtsError::SendTextFailed(cause) => TtsErrorView::SendTextFailed(cause@),
            TtsError::FlushContextFailed(cause) => TtsErrorView::FlushContextFailed(cause@),
            TtsError::BadAudio(fault) => TtsErrorView::BadAudio(*fault),
            TtsError::Server(message) => TtsErrorView::Server(message@),
            TtsError::Closed => TtsErrorView::Closed,
            TtsError::ReadFailed(cause) => TtsErrorView::ReadFailed(cause@),
            TtsError::TimedOut => TtsErrorView::TimedOut,
        }
    }
}

/// What an error says to the user.
pub open spec fn error_text(error: TtsErrorView) -> Seq<char> {
    match error {
        TtsErrorView::MissingVoice =>
            "60db TTS requires a voice_id (set the 60db voice in Settings)"@,
        TtsErrorView::NotConnected => "60db TTS not connected"@,
        TtsErrorView::CreateContextFailed(_) => "60db create_context send failed"@,
        TtsErrorView::SendTextFailed(_) => "60db send_text failed"@,
        TtsErrorView::FlushContextFailed(_) => "60db flush_context failed"@,
        TtsErrorView::BadAudio(_) => "60db audio_chunk base64 decode failed"@,
        TtsErrorView::Server(message) => "60db TTS error: "@ + message,
        TtsErrorView::Closed => "60db TTS connection closed mid-synthesis"@,
        TtsErrorView::ReadFailed(cause) => "60db TTS read failed: "@ + cause,
        TtsErrorView::TimedOut => "60db TTS read failed: timed out"@,
    }
}

impl TtsError {
    /// What the error says to the user.
    pub fn message(&self) -> (text: String)
        ensures
            text@ == error_text(self@),
    {
        match self {
            TtsError::MissingVoice =>
                "60db TTS requires a voice_id (set the 60db voice in Settings)".to_owned(),
            TtsError::NotConnected => "60db TTS not connected".to_owned(),
            TtsError::CreateContextFailed(_) => "60db create_context send failed".to_owned(),
            TtsError::SendTextFailed(_) => "60db send_text failed".to_owned(),
            TtsError::FlushContextFailed(_) => "60db flush_context failed".to_owned(),
            TtsError::BadAudio(_) => "60db audio_chunk base64 decode failed".to_owned(),
            TtsError::Server(message) => joined("60db TTS error: ", message.as_str()),
            TtsError::Closed => "60db TTS connection closed mid-synthesis".to_owned(),
            TtsError::ReadFailed(cause) => joined("60db TTS read failed: ", cause.as_str()),
            TtsError::TimedOut => "60db TTS read failed: timed out".to_owned(),
        }
    }
}

/// A result, with its error by its view.
pub open spec fn outcome<T>(result: Result<T, TtsError>) -> Result<T, TtsErrorView> {
    match result {
        Ok(value) => Ok(value),
        Err(error) => Err(error@),
    }
}

} // verus!
