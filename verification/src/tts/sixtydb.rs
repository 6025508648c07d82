//! Text-to-speech via the 60db streaming WebSocket API.
//!
//! A [`SixtyDbTts`] keeps one connection for all syntheses. Each synthesis runs in a context of its
//! own, and a synthesis that fails gives the connection up, so that the next one opens another.
use crate::pcm::pcm_samples;
use crate::text::{
    blank, decimal, is_blank, joined, law_decimal_is_injective, law_trimmed_empty_iff_blank,
    to_decimal, trim, trimmed,
};
use crate::tts::error::TtsError;
use crate::tts::exchange::{fresh_exchange, Exchange, Phase, Voice, VoiceView};
use crate::tts::rate::{
    law_nearest_rate_is_supported, law_supported_rate_is_kept, nearest_rate,
    nearest_supported_rate, supported,
};
use vstd::prelude::*;

verus! {

/// A synthesizer that speaks through connections of type `W`.
pub struct SixtyDbTts<W> {
    api_key: String,
    voice_id: String,
    /// Sample rate that the pipeline expects back.
    output_sample_rate: u32,
    /// Sample rate asked of 60db.
    request_rate: u32,
    speed: u32,
    stability: u32,
    similarity: u32,
    /// The connection, while there is one.
    ws: Option<W>,
    /// Number of contexts begun so far.
    ctx_counter: u64,
}

/// A [`SixtyDbTts`], with its texts by their views.
#[verifier::ext_equal]
pub ghost struct SixtyDbTtsView<W> {
    pub api_key: Seq<char>,
    pub voice_id: Seq<char>,
    pub output_sample_rate: u32,
    pub request_rate: u32,
    pub speed: u32,
    pub stability: u32,
    pub similarity: u32,
    pub ws: Option<W>,
    pub ctx_counter: u64,
}

impl<W> SixtyDbTtsView<W> {
    /// There is a voice to speak with, the rate asked for is the nearest one that 60db supports, and
    /// the voice is not adjusted.
    pub open spec fn wf(self) -> bool {
        &&& !blank(self.voice_id)
        &&& self.request_rate == nearest_rate(self.output_sample_rate)
        &&& self.speed == 1
        &&& self.stability == 50
        &&& self.similarity == 75
    }

    /// How its contexts speak.
    pub open spec fn voice(self) -> VoiceView {
        VoiceView {
            voice_id: self.voice_id,
            sample_rate: self.request_rate,
            speed: self.speed,
            stability: self.stability,
            similarity: self.similarity,
        }
    }
}

/// A synthesizer as it is made, without a connection.
pub open spec fn new_synthesizer<W>(
    api_key: Seq<char>,
    voice_id: Seq<char>,
    output_sample_rate: u32,
) -> SixtyDbTtsView<W> {
    SixtyDbTtsView {
        api_key,
        voice_id,
        output_sample_rate,
        request_rate: nearest_rate(output_sample_rate),
        speed: 1,
        stability: 50,
        similarity: 75,
        ws: None,
        ctx_counter: 0,
    }
}

/// Where a synthesizer with this key connects to.
pub open spec fn tts_url(api_key: Seq<char>) -> Seq<char> {
    "wss://api.60db.ai/ws/tts?apiKey="@ + api_key
}

/// Why a synthesizer could not be opened.
#[derive(Debug)]
pub enum OpenError<E> {
    /// It cannot work as configured.
    Rejected(TtsError),
    /// It could not connect.
    Connect(E),
}

/// Connecting to `url` can give `outcome`.
pub open spec fn connects<W, E, C: FnOnce(&str) -> Result<W, E>>(
    connect: C,
    url: Seq<char>,
    outcome: Result<W, E>,
) -> bool {
    exists|target: &str| target@ == url && #[trigger] call_ensures(connect, (target,), outcome)
}

/// The name of the `n`-th context.
pub open spec fn context_id(n: nat) -> Seq<char> {
    "ctx-"@ + decimal(n)
}

/// How a synthesis begins.
pub enum Start {
    /// There is nothing to say.
    Silence,
    /// Connect to `url` first, then speak `text`.
    Connect { url: String, text: String },
    /// Speak `text`.
    Speak { text: String },
}

/// A [`Start`], by its view.
pub ghost enum StartView {
    Silence,
    Connect { url: Seq<char>, text: Seq<char> },
    Speak { text: Seq<char> },
}

impl View for Start {
    type V = StartView;

    open spec fn view(&self) -> StartView {
        match self {
            Start::Silence => StartView::Silence,
            Start::Connect { url, text } => StartView::Connect { url: url@, text: text@ },
            Start::Speak { text } => StartView::Speak { text: text@ },
        }
    }
}

/// How the synthesis of `text` begins.
pub open spec fn start_of<W>(tts: SixtyDbTtsView<W>, text: Seq<char>) -> StartView {
    if blank(text) {
        StartView::Silence
    } else if tts.ws is None {
        StartView::Connect { url: tts_url(tts.api_key), text: trimmed(text) }
    } else {
        StartView::Speak { text: trimmed(text) }
    }
}

/// A synthesizer that speaks through `ws`.
pub open spec fn connected<W>(tts: SixtyDbTtsView<W>, ws: W) -> SixtyDbTtsView<W> {
    SixtyDbTtsView { ws: Some(ws), ..tts }
}

/// A synthesizer during an exchange: it has begun a context and handed its connection out.
pub open spec fn speaking<W>(tts: SixtyDbTtsView<W>) -> SixtyDbTtsView<W> {
    SixtyDbTtsView { ws: None, ctx_counter: (tts.ctx_counter + 1) as u64, ..tts }
}

/// A synthesizer after an exchange on `ws`: it keeps a connection on which the exchange finished,
/// and gives up one on which it failed.
pub open spec fn concluded<W>(
    tts: SixtyDbTtsView<W>,
    ws: W,
    finished: bool,
) -> SixtyDbTtsView<W> {
    SixtyDbTtsView {
        ws: if finished {
            Some(ws)
        } else {
            None
        },
        ..tts
    }
}

/// A synthesizer after the synthesis of `text`, and whether that succeeded. `opened` is the
/// connection that connecting gives, if it gives one, and `finished` says whether the exchange
/// finishes: what the synthesis does not come to does not matter.
pub open spec fn synthesized<W>(
    tts: SixtyDbTtsView<W>,
    text: Seq<char>,
    opened: Option<W>,
    finished: bool,
) -> (SixtyDbTtsView<W>, bool) {
    match start_of(tts, text) {
        StartView::Silence => (tts, true),
        StartView::Connect { .. } => match opened {
            Some(ws) => (concluded(speaking(connected(tts, ws)), ws, finished), finished),
            None => (tts, false),
        },
        StartView::Speak { .. } => (concluded(speaking(tts), tts.ws->0, finished), finished),
    }
}

/// Synthesized audio.
pub struct Synthesis {
    pub samples: Vec<i16>,
    /// The rate that the samples have and the rate that they should have, where these differ.
    pub resample: Option<(u32, u32)>,
}

/// The change of rate that the audio of a synthesizer needs.
pub open spec fn rate_change<W>(tts: SixtyDbTtsView<W>) -> Option<(u32, u32)> {
    if tts.request_rate == tts.output_sample_rate {
        None
    } else {
        Some((tts.request_rate, tts.output_sample_rate))
    }
}

impl<W> View for SixtyDbTts<W> {
    type V = SixtyDbTtsView<W>;

    closed spec fn view(&self) -> SixtyDbTtsView<W> {
        SixtyDbTtsView {
            api_key: self.api_key@,
            voice_id: self.voice_id@,
            output_sample_rate: self.output_sample_rate,
            request_rate: self.request_rate,
            speed: self.speed,
            stability: self.stability,
            similarity: self.similarity,
            ws: self.ws,
            ctx_counter: self.ctx_counter,
        }
    }
}

impl<W> SixtyDbTts<W> {
    #[verifier::type_invariant]
    closed spec fn is_wf(self) -> bool {
        self@.wf()
    }

    /// A synthesizer for a 60db voice. It has no connection yet.
    pub fn new(api_key: String, voice_id: String, output_sample_rate: u32) -> (result: Result<
        SixtyDbTts<W>,
        TtsError,
    >)
        ensures
            match result {
                Ok(tts) => !blank(voice_id@) && tts@ == new_synthesizer::<W>(
                    api_key@,
                    voice_id@,
                    output_sample_rate,
                ) && tts@.wf(),
                Err(error) => blank(voice_id@) && error == TtsError::MissingVoice,
            },
    {
        if is_blank(voice_id.as_str()) {
            return Err(TtsError::MissingVoice);
        }
        let request_rate: u32 = nearest_supported_rate(output_sample_rate);
        Ok(
            SixtyDbTts {
                api_key,
                voice_id,
                output_sample_rate,
                request_rate,
                speed: 1,
                stability: 50,
                similarity: 75,
                ws: None,
                ctx_counter: 0,
            },
        )
    }

    /// Where to connect to.
    pub fn url(&self) -> (url: String)
        ensures
            url@ == tts_url(self@.api_key),
    {
        joined("wss://api.60db.ai/ws/tts?apiKey=", self.api_key.as_str())
    }

    /// Number of contexts begun so far.
    pub fn contexts(&self) -> (count: u64)
        ensures
            count == self@.ctx_counter,
    {
        self.ctx_counter
    }

    /// Speak through `ws` from now on.
    pub fn connect(&mut self, ws: W)
        ensures
            final(self)@ == connected(old(self)@, ws),
            final(self)@.wf(),
    {
        proof {
            use_type_invariant(&*self);
        }
        self.ws = Some(ws);
    }

    /// A synthesizer after its first attempt to connect. Where that failed, there is no synthesizer,
    /// and the failure is returned.
    pub fn opened<E>(self, ws: Result<W, E>) -> (result: Result<SixtyDbTts<W>, E>)
        ensures
            match (ws, result) {
                (Ok(ws), Ok(tts)) => tts@ == connected(self@, ws) && tts@.wf(),
                (Err(error), Err(returned)) => returned == error,
                _ => false,
            },
    {
        match ws {
            Ok(ws) => {
                let mut tts = self;
                tts.connect(ws);
                Ok(tts)
            },
            Err(error) => Err(error),
        }
    }

    /// A synthesizer for a 60db voice, with a connection: `connect` connects to the URL that it is
    /// handed. A missing voice and a failure to connect both show here, and not only in the first
    /// synthesis.
    pub fn open<E, C: FnOnce(&str) -> Result<W, E>>(
        api_key: String,
        voice_id: String,
        output_sample_rate: u32,
        connect: C,
    ) -> (result: Result<SixtyDbTts<W>, OpenError<E>>)
        requires
            forall|url: &str| url@ == tts_url(api_key@) ==> call_requires(connect, (url,)),
        ensures
            match result {
                Ok(tts) => {
                    &&& !blank(voice_id@)
                    &&& tts@.ws matches Some(ws)
                    &&& connects(connect, tts_url(api_key@), Ok::<W, E>(ws))
                    &&& tts@ == connected(
                        new_synthesizer::<W>(api_key@, voice_id@, output_sample_rate),
                        ws,
                    )
                    &&& tts@.wf()
                },
                Err(OpenError::Rejected(error)) => blank(voice_id@) && error
                    == TtsError::MissingVoice,
                Err(OpenError::Connect(error)) => !blank(voice_id@) && connects(
                    connect,
                    tts_url(api_key@),
                    Err::<W, E>(error),
                ),
            },
    {
        match SixtyDbTts::new(api_key, voice_id, output_sample_rate) {
            Ok(tts) => {
                let url: String = tts.url();
                match tts.opened(connect(url.as_str())) {
                    Ok(tts) => Ok(tts),
                    Err(error) => Err(OpenError::Connect(error)),
                }
            },
            Err(error) => Err(OpenError::Rejected(error)),
        }
    }

    /// How to synthesize `text`. White space at either end is not spoken.
    pub fn synthesize(&self, text: &str) -> (start: Start)
        ensures
            start@ == start_of(self@, text@),
    {
        let inner: &str = trim(text);
        proof {
            law_trimmed_empty_iff_blank(text@);
        }
        if inner.is_empty() {
            Start::Silence
        } else if self.ws.is_none() {
            Start::Connect { url: self.url(), text: inner.to_owned() }
        } else {
            Start::Speak { text: inner.to_owned() }
        }
    }

    /// Begin an exchange that speaks `text` in a new context, and hand the connection out for it.
    /// [`SixtyDbTts::conclude`] takes the connection back.
    pub fn synthesize_once(&mut self, text: &str) -> (result: Result<(W, Exchange), TtsError>)
        requires
            old(self)@.ctx_counter < u64::MAX,
        ensures
            final(self)@ == speaking(old(self)@),
            match result {
                Ok((ws, exchange)) => old(self)@.ws == Some(ws) && exchange@ == fresh_exchange(
                    context_id((old(self)@.ctx_counter + 1) as nat),
                    old(self)@.voice(),
                    text@,
                ),
                Err(error) => old(self)@.ws is None && error == TtsError::NotConnected,
            },
            final(self)@.wf(),
    {
        proof {
            use_type_invariant(&*self);
        }
        self.ctx_counter = self.ctx_counter + 1;
        let id: String = joined("ctx-", to_decimal(self.ctx_counter).as_str());
        let mut handed_out: Option<W> = None;
        std::mem::swap(&mut handed_out, &mut self.ws);
        match handed_out {
            Some(ws) => {
                let voice = Voice {
                    voice_id: self.voice_id.clone(),
                    sample_rate: self.request_rate,
                    speed: self.speed,
                    stability: self.stability,
                    similarity: self.similarity,
                };
                Ok((ws, Exchange::new(id.as_str(), &voice, text)))
            },
            None => Err(TtsError::NotConnected),
        }
    }

    /// End an exchange on `ws`. Where it finished, the connection is kept and the audio returned;
    /// where it failed, the connection is given up.
    pub fn conclude(&mut self, ws: W, exchange: Result<Exchange, TtsError>) -> (result: Result<
        Synthesis,
        TtsError,
    >)
        requires
            exchange matches Ok(finished) ==> finished@.phase == Phase::Finished,
        ensures
            final(self)@ == concluded(old(self)@, ws, exchange is Ok),
            match (exchange, result) {
                (Ok(finished), Ok(synthesis)) => synthesis.samples@ == pcm_samples(finished@.pcm)
                    && synthesis.resample == rate_change(old(self)@),
                (Err(error), Err(returned)) => returned == error,
                _ => false,
            },
            final(self)@.wf(),
    {
        proof {
            use_type_invariant(&*self);
        }
        match exchange {
            Ok(finished) => {
                self.ws = Some(ws);
                let resample: Option<(u32, u32)> = if self.request_rate == self.output_sample_rate {
                    None
                } else {
                    Some((self.request_rate, self.output_sample_rate))
                };
                Ok(Synthesis { samples: finished.samples(), resample })
            },
            Err(error) => {
                self.ws = None;
                Err(error)
            },
        }
    }
}

/// Different contexts have different names.
pub proof fn law_context_ids_are_unique(a: nat, b: nat)
    requires
        context_id(a) == context_id(b),
    ensures
        a == b,
{
    let prefix = "ctx-"@;
    assert(context_id(a).skip(prefix.len() as int) == decimal(a));
    assert(context_id(b).skip(prefix.len() as int) == decimal(b));
    law_decimal_is_injective(a, b);
}

/// A text of nothing but white space is never sent: whatever the state of the synthesizer, there is
/// nothing to say. Any other text is spoken.
pub proof fn law_only_blank_text_is_silent<W>(tts: SixtyDbTtsView<W>, text: Seq<char>)
    ensures
        start_of(tts, text) is Silence <==> blank(text),
        !blank(text) ==> trimmed(text).len() > 0,
{
    law_trimmed_empty_iff_blank(text);
}

/// After a synthesis that failed, the next one connects anew; after one that finished, the next one
/// speaks through the connection that is there.
pub proof fn law_failure_reconnects<W>(
    tts: SixtyDbTtsView<W>,
    ws: W,
    finished: bool,
    text: Seq<char>,
)
    requires
        !blank(text),
    ensures
        start_of(concluded(tts, ws, finished), text) == if finished {
            StartView::Speak { text: trimmed(text) }
        } else {
            StartView::Connect { url: tts_url(tts.api_key), text: trimmed(text) }
        },
{
}

/// The synthesis of a text that is not blank succeeds exactly if it leaves a connection behind. It
/// fails exactly if there was no connection and none could be opened, or if the exchange did not
/// finish. Where none could be opened, the synthesizer is as it was, and no context was begun;
/// otherwise one was, and nothing but the connection changed besides. The connection that is left is
/// the one that was there, or else the one that was opened. The synthesizer stays well formed.
pub proof fn law_synthesis_succeeds_iff_connected<W>(
    tts: SixtyDbTtsView<W>,
    text: Seq<char>,
    opened: Option<W>,
    finished: bool,
)
    requires
        !blank(text),
        tts.ctx_counter < u64::MAX,
    ensures
        ({
            let (after, succeeded) = synthesized(tts, text, opened, finished);
            let ws = if tts.ws is Some {
                tts.ws
            } else {
                opened
            };
            &&& tts.wf() ==> after.wf()
            &&& succeeded <==> after.ws is Some
            &&& succeeded <==> ws is Some && finished
            &&& ws is None ==> after == tts
            &&& ws is Some ==> after == (SixtyDbTtsView {
                ws: if finished {
                    ws
                } else {
                    None
                },
                ctx_counter: (tts.ctx_counter + 1) as u64,
                ..tts
            })
        }),
{
}

/// The synthesis of a blank text succeeds whatever there is to connect to, and changes nothing.
pub proof fn law_blank_text_changes_nothing<W>(
    tts: SixtyDbTtsView<W>,
    text: Seq<char>,
    opened: Option<W>,
    finished: bool,
)
    requires
        blank(text),
    ensures
        synthesized(tts, text, opened, finished) == (tts, true),
{
}

/// Every context asks for a rate that 60db supports.
pub proof fn law_contexts_ask_for_supported_rates<W>(tts: SixtyDbTtsView<W>)
    requires
        tts.wf(),
    ensures
        supported(tts.voice().sample_rate),
{
    law_nearest_rate_is_supported(tts.output_sample_rate);
}

/// Audio changes its rate exactly if the pipeline's rate is not one that 60db supports.
pub proof fn law_resampled_iff_unsupported<W>(tts: SixtyDbTtsView<W>)
    requires
        tts.wf(),
    ensures
        rate_change(tts) is None <==> supported(tts.output_sample_rate),
{
    law_supported_rate_is_kept(tts.output_sample_rate);
}

} // verus!
