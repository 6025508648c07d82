//! What holds of whole exchanges.
use crate::codec::stands_for;
use crate::tts::error::TtsErrorView;
use crate::tts::exchange::{
    after_read, after_send, collected_into, fresh_exchange, message_audio, next_action, overdue,
    sending, ActionView, ExchangeView, Phase, ReadEventView, SendEventView, TtsMessageView,
    VoiceView, READ_TIMEOUT_MS,
};
use vstd::prelude::*;

verus! {

/// The audio after a run of reads, and whether it is complete. Nothing is read once it is, and the
/// first error ends the run.
pub open spec fn collect(pcm: Seq<u8>, events: Seq<ReadEventView>) -> Result<
    (Seq<u8>, bool),
    TtsErrorView,
>
    decreases events.len(),
{
    if events.len() == 0 {
        Ok((pcm, false))
    } else {
        match after_read(pcm, events.first()) {
            Ok((pcm, false)) => collect(pcm, events.drop_first()),
            decided => decided,
        }
    }
}

/// The audio that an event carries, where it is one that adds audio or nothing and lets the reading
/// go on.
pub open spec fn payload(event: ReadEventView) -> Option<Seq<u8>> {
    match after_read(Seq::empty(), event) {
        Ok((bytes, false)) => Some(bytes),
        _ => None,
    }
}

/// The audio of a run of events, one after the other.
pub open spec fn payloads(events: Seq<ReadEventView>) -> Seq<u8>
    decreases events.len(),
{
    if events.len() == 0 {
        Seq::empty()
    } else {
        payload(events.first())->0 + payloads(events.drop_first())
    }
}

proof fn lemma_after_read_extends(pcm: Seq<u8>, event: ReadEventView)
    ensures
        after_read(pcm, event) == match after_read(Seq::empty(), event) {
            Ok((bytes, done)) => Ok::<(Seq<u8>, bool), TtsErrorView>((pcm + bytes, done)),
            Err(error) => Err(error),
        },
{
    let nothing: Seq<u8> = Seq::empty();
    assert(pcm + nothing == pcm);
    match event {
        ReadEventView::Binary(bytes) => {
            assert(nothing + bytes == bytes);
        },
        ReadEventView::Message(message) => {
            if let Some(Ok(bytes)) = message_audio(message) {
                assert(nothing + bytes == bytes);
            }
        },
        _ => {},
    }
}

/// Reading a run of events in two parts is reading it in one: the second part is read only where
/// the first has not decided the outcome, and goes on from the audio that the first left.
pub proof fn law_reading_resumes(
    pcm: Seq<u8>,
    first: Seq<ReadEventView>,
    second: Seq<ReadEventView>,
)
    ensures
        collect(pcm, first + second) == match collect(pcm, first) {
            Ok((pcm, false)) => collect(pcm, second),
            decided => decided,
        },
    decreases first.len(),
{
    if first.len() == 0 {
        assert(first + second == second);
    } else {
        assert((first + second).first() == first.first());
        assert((first + second).drop_first() == first.drop_first() + second);
        if let Ok((next, false)) = after_read(pcm, first.first()) {
            law_reading_resumes(next, first.drop_first(), second);
        }
    }
}

/// Nothing that comes after the end of the audio, or after an error, changes the outcome.
pub proof fn law_nothing_follows_the_end(
    pcm: Seq<u8>,
    events: Seq<ReadEventView>,
    more: Seq<ReadEventView>,
)
    requires
        collect(pcm, events) is Err || collect(pcm, events)->Ok_0.1,
    ensures
        collect(pcm, events + more) == collect(pcm, events),
{
    law_reading_resumes(pcm, events, more);
}

/// A text frame that holds no message, or a frame of another kind, may come at any point without
/// changing the outcome.
pub proof fn law_stray_frames_do_not_matter(
    pcm: Seq<u8>,
    before: Seq<ReadEventView>,
    stray: ReadEventView,
    after: Seq<ReadEventView>,
)
    requires
        stray is Unparsed || stray is Other,
    ensures
        collect(pcm, before + seq![stray] + after) == collect(pcm, before + after),
{
    law_reading_resumes(pcm, before, after);
    assert(before + seq![stray] + after == before + (seq![stray] + after));
    law_reading_resumes(pcm, before, seq![stray] + after);
    assert((seq![stray] + after).drop_first() == after);
}

/// Audio is collected in the order in which it arrives, whole and with nothing between: as long as
/// no event ends the reading, what is collected is what was there, followed by the audio of each
/// event in turn.
pub proof fn law_audio_is_concatenated(pcm: Seq<u8>, events: Seq<ReadEventView>)
    requires
        forall|i: int| 0 <= i < events.len() ==> payload(#[trigger] events[i]) is Some,
    ensures
        collect(pcm, events) == Ok::<(Seq<u8>, bool), TtsErrorView>((pcm + payloads(events), false)),
    decreases events.len(),
{
    if events.len() == 0 {
        assert(pcm + payloads(events) == pcm);
    } else {
        assert(payload(events[0]) is Some);
        let bytes = payload(events.first())->0;
        lemma_after_read_extends(pcm, events.first());
        assert forall|i: int| 0 <= i < events.drop_first().len() implies payload(
            #[trigger] events.drop_first()[i],
        ) is Some by {
            assert(payload(events[i + 1]) is Some);
        }
        law_audio_is_concatenated(pcm + bytes, events.drop_first());
        assert(pcm + payloads(events) == pcm + bytes + payloads(events.drop_first()));
    }
}

/// It does not matter how the server cuts raw audio into frames.
pub proof fn law_framing_does_not_matter(
    pcm: Seq<u8>,
    before: Seq<ReadEventView>,
    head: Seq<u8>,
    tail: Seq<u8>,
    after: Seq<ReadEventView>,
)
    ensures
        collect(
            pcm,
            before + seq![ReadEventView::Binary(head), ReadEventView::Binary(tail)] + after,
        ) == collect(pcm, before + seq![ReadEventView::Binary(head + tail)] + after),
{
    let two = seq![ReadEventView::Binary(head), ReadEventView::Binary(tail)];
    let one = seq![ReadEventView::Binary(head + tail)];
    assert(before + two + after == before + (two + after));
    assert(before + one + after == before + (one + after));
    law_reading_resumes(pcm, before, two + after);
    law_reading_resumes(pcm, before, one + after);
    if let Ok((next, false)) = collect(pcm, before) {
        law_reading_resumes(next, two, after);
        law_reading_resumes(next, one, after);
        assert(two.drop_first() == seq![ReadEventView::Binary(tail)]);
        assert(two.drop_first().drop_first() == Seq::<ReadEventView>::empty());
        assert(one.drop_first() == Seq::<ReadEventView>::empty());
        assert(next + (head + tail) == next + head + tail);
        reveal_with_fuel(collect, 3);
    }
}

/// Audio in a message counts as the raw audio that its base64 text stands for.
pub proof fn law_message_audio_counts_as_raw(pcm: Seq<u8>, text: Seq<char>, bytes: Seq<u8>)
    requires
        stands_for(text, bytes),
    ensures
        after_read(
            pcm,
            ReadEventView::Message(
                TtsMessageView { audio: Some(text), flush_completed: false, error: None },
            ),
        ) == after_read(pcm, ReadEventView::Binary(bytes)),
{
}

/// An error that the server reports ends the exchange, whatever else the message holds.
pub proof fn law_server_error_wins(pcm: Seq<u8>, message: TtsMessageView)
    requires
        message.error is Some,
    ensures
        after_read(pcm, ReadEventView::Message(message)) == Err::<(Seq<u8>, bool), TtsErrorView>(
            TtsErrorView::Server(message.error->0),
        ),
{
}

/// What an exchange is told: what a write gave, or what a read gave.
pub ghost enum Report {
    Send(SendEventView),
    Read(ReadEventView),
}

/// In this phase an exchange takes up reports of this kind.
pub open spec fn due(phase: Phase, report: Report) -> bool {
    match report {
        Report::Send(_) => sending(phase),
        Report::Read(_) => phase == Phase::Collect,
    }
}

/// An exchange after a report that is due, or the error that ends it.
pub open spec fn step(exchange: ExchangeView, report: Report) -> Result<ExchangeView, TtsErrorView>
    recommends
        due(exchange.phase, report),
{
    match report {
        Report::Send(event) => match after_send(exchange.phase, event) {
            Ok(phase) => Ok(ExchangeView { phase, ..exchange }),
            Err(error) => Err(error),
        },
        Report::Read(event) => match after_read(exchange.pcm, event) {
            Ok(collected) => Ok(collected_into(exchange, collected)),
            Err(error) => Err(error),
        },
    }
}

/// An exchange after a run of reports, or the first error.
pub open spec fn run(exchange: ExchangeView, reports: Seq<Report>) -> Result<
    ExchangeView,
    TtsErrorView,
>
    decreases reports.len(),
{
    if reports.len() == 0 {
        Ok(exchange)
    } else {
        match step(exchange, reports.first()) {
            Ok(next) => run(next, reports.drop_first()),
            Err(error) => Err(error),
        }
    }
}

/// Each report is due when it is made, and none is made after an error.
pub open spec fn all_due(exchange: ExchangeView, reports: Seq<Report>) -> bool
    decreases reports.len(),
{
    reports.len() > 0 ==> {
        &&& due(exchange.phase, reports.first())
        &&& match step(exchange, reports.first()) {
            Ok(next) => all_due(next, reports.drop_first()),
            Err(_) => reports.len() == 1,
        }
    }
}

/// Reports of reads.
pub open spec fn reads(events: Seq<ReadEventView>) -> Seq<Report> {
    events.map_values(|event: ReadEventView| Report::Read(event))
}

proof fn lemma_run_append(exchange: ExchangeView, first: Seq<Report>, second: Seq<Report>)
    ensures
        run(exchange, first + second) == match run(exchange, first) {
            Ok(next) => run(next, second),
            Err(error) => Err(error),
        },
        run(exchange, first) matches Ok(next) ==> all_due(exchange, first) && all_due(next, second)
            ==> all_due(exchange, first + second),
    decreases first.len(),
{
    if first.len() == 0 {
        assert(first + second == second);
    } else {
        assert((first + second).first() == first.first());
        assert((first + second).drop_first() == first.drop_first() + second);
        if let Ok(next) = step(exchange, first.first()) {
            lemma_run_append(next, first.drop_first(), second);
        }
    }
}

proof fn lemma_run_reads(exchange: ExchangeView, events: Seq<ReadEventView>)
    requires
        exchange.phase == Phase::Collect,
        events.len() > 0,
        collect(exchange.pcm, events.drop_last()) matches Ok(collected) && !collected.1,
    ensures
        run(exchange, reads(events)) == match collect(exchange.pcm, events) {
            Ok(collected) => Ok(collected_into(exchange, collected)),
            Err(error) => Err(error),
        },
        all_due(exchange, reads(events)),
    decreases events.len(),
{
    let rest = events.drop_first();
    assert(reads(events).first() == Report::Read(events.first()));
    assert(reads(events).drop_first() == reads(rest));
    if events.len() == 1 {
        assert(rest == Seq::<ReadEventView>::empty());
        reveal_with_fuel(collect, 2);
        reveal_with_fuel(run, 2);
        reveal_with_fuel(all_due, 2);
    } else {
        assert(events.drop_last().first() == events.first());
        assert(events.drop_last().drop_first() == rest.drop_last());
        if let Ok(collected) = after_read(exchange.pcm, events.first()) {
            let next = collected_into(exchange, collected);
            lemma_run_reads(next, rest);
            if let Ok(end) = collect(next.pcm, rest) {
                assert(collected_into(next, end) == collected_into(exchange, end));
            }
        }
    }
}

/// An exchange whose requests are all sent sends, in this order, the frame that opens the context,
/// the text, and the frame that asks for the audio. It then reads, up to the event that ends the
/// audio or the exchange. Where the audio is complete, it sends the frame that closes the context,
/// and whether or not that can be sent it is done, with the audio collected. Only the reads depend on
/// how much time has gone by.
pub proof fn law_exchange_runs_in_order(
    context_id: Seq<char>,
    voice: VoiceView,
    text: Seq<char>,
    events: Seq<ReadEventView>,
    closing: SendEventView,
    elapsed_ms: u64,
)
    requires
        events.len() > 0,
        collect(Seq::empty(), events.drop_last()) matches Ok(collected) && !collected.1,
    ensures
        ({
            let sent = Report::Send(SendEventView::Sent);
            let requests = seq![sent, sent, sent];
            let start = fresh_exchange(context_id, voice, text);
            let requested = ExchangeView { phase: Phase::Collect, ..start };
            &&& does(start, elapsed_ms, ActionView::Send(start.create_context))
            &&& run(start, seq![sent]) matches Ok(next) && does(
                next,
                elapsed_ms,
                ActionView::Send(start.send_text),
            )
            &&& run(start, seq![sent, sent]) matches Ok(next) && does(
                next,
                elapsed_ms,
                ActionView::Send(start.flush_context),
            )
            &&& run(start, requests) == Ok::<ExchangeView, TtsErrorView>(requested)
            &&& all_due(start, requests + reads(events))
            &&& match collect(Seq::empty(), events) {
                Ok((pcm, true)) => {
                    let complete = ExchangeView { phase: Phase::CloseContext, pcm, ..start };
                    let finished = ExchangeView { phase: Phase::Finished, pcm, ..start };
                    let closed = requests + reads(events) + seq![Report::Send(closing)];
                    &&& run(start, requests + reads(events)) == Ok::<ExchangeView, TtsErrorView>(
                        complete,
                    )
                    &&& does(complete, elapsed_ms, ActionView::Send(start.close_context))
                    &&& all_due(start, closed)
                    &&& run(start, closed) == Ok::<ExchangeView, TtsErrorView>(finished)
                    &&& does(finished, elapsed_ms, ActionView::Done)
                },
                Ok((pcm, false)) => {
                    run(start, requests + reads(events)) == Ok::<ExchangeView, TtsErrorView>(
                        ExchangeView { pcm, ..requested },
                    )
                },
                Err(error) => {
                    run(start, requests + reads(events)) == Err::<ExchangeView, TtsErrorView>(error)
                },
            }
        }),
{
    let sent = Report::Send(SendEventView::Sent);
    let start = fresh_exchange(context_id, voice, text);
    let requested = ExchangeView { phase: Phase::Collect, ..start };
    let one = seq![sent];
    let two = seq![sent, sent];
    let three = seq![sent, sent, sent];
    assert(one.drop_first() == Seq::<Report>::empty());
    assert(two.drop_first() == one);
    assert(three.drop_first() == two);
    reveal_with_fuel(run, 4);
    reveal_with_fuel(all_due, 4);
    lemma_run_append(start, three, reads(events));
    lemma_run_reads(requested, events);
    if let Ok((pcm, true)) = collect(Seq::empty(), events) {
        let last = seq![Report::Send(closing)];
        lemma_run_append(start, three + reads(events), last);
        assert(last.drop_first() == Seq::<Report>::empty());
    }
}

/// `elapsed_ms` after it began, the exchange takes this action.
pub open spec fn does(exchange: ExchangeView, elapsed_ms: u64, action: ActionView) -> bool {
    next_action(exchange, elapsed_ms) == Ok::<ActionView, TtsErrorView>(action)
}

/// An exchange that reads: before each read it asks what to do, at the time given, and each read
/// gives the event beside it. The outcome is the exchange when it no longer reads or all events are
/// read, or the error that ends it.
pub open spec fn read_on_time(
    exchange: ExchangeView,
    visits: Seq<(u64, ReadEventView)>,
) -> Result<ExchangeView, TtsErrorView>
    decreases visits.len(),
{
    if visits.len() == 0 || exchange.phase != Phase::Collect {
        Ok(exchange)
    } else {
        match next_action(exchange, visits.first().0) {
            Ok(_) => match step(exchange, Report::Read(visits.first().1)) {
                Ok(next) => read_on_time(next, visits.drop_first()),
                Err(error) => Err(error),
            },
            Err(error) => Err(error),
        }
    }
}

/// No read waits past the time that an exchange may take: one that may be made at all may wait for
/// exactly what is left of that time.
pub proof fn law_no_read_outlasts_the_exchange(exchange: ExchangeView, elapsed_ms: u64)
    requires
        exchange.phase == Phase::Collect,
    ensures
        match next_action(exchange, elapsed_ms) {
            Ok(action) => {
                &&& action matches ActionView::Read { within_ms }
                &&& within_ms > 0
                &&& elapsed_ms + within_ms == READ_TIMEOUT_MS
            },
            Err(error) => elapsed_ms >= READ_TIMEOUT_MS && error == TtsErrorView::TimedOut,
        },
{
}

/// However the server keeps an exchange waiting, it is given up in time: an exchange that asks what
/// to do when its time is over is no longer reading after that. It has its audio or has failed.
pub proof fn law_exchange_ends_in_time(
    exchange: ExchangeView,
    visits: Seq<(u64, ReadEventView)>,
    late: int,
)
    requires
        exchange.phase == Phase::Collect,
        0 <= late < visits.len(),
        visits[late].0 >= READ_TIMEOUT_MS,
    ensures
        read_on_time(exchange, visits) matches Ok(ended) ==> ended.phase == Phase::CloseContext,
    decreases visits.len(),
{
    if !overdue(exchange, visits.first().0) {
        if let Ok(next) = step(exchange, Report::Read(visits.first().1)) {
            if next.phase == Phase::Collect {
                law_exchange_ends_in_time(next, visits.drop_first(), late - 1);
            } else {
                reveal_with_fuel(read_on_time, 2);
            }
        }
    }
}

/// Frames that never complete the audio end in a failure: if every event lets the reading go on and
/// the exchange asks once when its time is over, it has timed out.
pub proof fn law_endless_audio_times_out(
    exchange: ExchangeView,
    visits: Seq<(u64, ReadEventView)>,
    late: int,
)
    requires
        exchange.phase == Phase::Collect,
        0 <= late < visits.len(),
        visits[late].0 >= READ_TIMEOUT_MS,
        forall|i: int| 0 <= i < visits.len() ==> payload((#[trigger] visits[i]).1) is Some,
    ensures
        read_on_time(exchange, visits) == Err::<ExchangeView, TtsErrorView>(TtsErrorView::TimedOut),
    decreases visits.len(),
{
    if !overdue(exchange, visits.first().0) {
        let event = visits.first().1;
        assert(payload(visits[0].1) is Some);
        lemma_after_read_extends(exchange.pcm, event);
        let next = collected_into(exchange, (exchange.pcm + payload(event)->0, false));
        let rest = visits.drop_first();
        assert forall|i: int| 0 <= i < rest.len() implies payload((#[trigger] rest[i]).1) is Some by {
            assert(payload(visits[i + 1].1) is Some);
        }
        law_endless_audio_times_out(next, rest, late - 1);
    }
}

} // verus!
