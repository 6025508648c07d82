//! What holds of whole sessions.
use crate::stt::sixtydb::{poll_step, PollStepView, SdbMessageView, SttEventView};
use vstd::prelude::*;

verus! {

/// The transcripts that a run of messages gives, in order.
pub open spec fn transcripts<S>(messages: Seq<SdbMessageView<S>>) -> Seq<Seq<char>>
    decreases messages.len(),
{
    if messages.len() == 0 {
        Seq::empty()
    } else if messages.first().is_finalized() {
        seq![messages.first().text->0] + transcripts(messages.drop_first())
    } else {
        transcripts(messages.drop_first())
    }
}

/// The messages among a run of events.
pub open spec fn messages_of<S>(events: Seq<SttEventView<S>>) -> Seq<SdbMessageView<S>>
    decreases events.len(),
{
    if events.len() == 0 {
        Seq::empty()
    } else {
        match events.first() {
            SttEventView::Message(message, _) => seq![message] + messages_of(events.drop_first()),
            _ => messages_of(events.drop_first()),
        }
    }
}

/// What a poll that meets these events returns. It reads until an event makes it return; after all
/// of them, it is still reading.
pub open spec fn poll<S>(events: Seq<SttEventView<S>>) -> PollStepView
    decreases events.len(),
{
    if events.len() == 0 {
        PollStepView::Continue
    } else {
        match poll_step(events.first()) {
            PollStepView::Continue => poll(events.drop_first()),
            step => step,
        }
    }
}

/// The events that a poll leaves for the next one.
pub open spec fn unread<S>(events: Seq<SttEventView<S>>) -> Seq<SttEventView<S>>
    decreases events.len(),
{
    if events.len() == 0 {
        events
    } else {
        match poll_step(events.first()) {
            PollStepView::Continue => unread(events.drop_first()),
            _ => events.drop_first(),
        }
    }
}

/// The transcripts that polls return, one poll after the other, until all events are read.
pub open spec fn drained<S>(events: Seq<SttEventView<S>>) -> Seq<Seq<char>>
    decreases events.len(),
{
    if events.len() == 0 {
        Seq::empty()
    } else {
        proof {
            law_poll_makes_progress(events);
        }
        match poll(events) {
            PollStepView::Ready(text, _) => seq![text] + drained(unread(events)),
            _ => drained(unread(events)),
        }
    }
}

/// A poll that meets an event reads at least one.
pub proof fn law_poll_makes_progress<S>(events: Seq<SttEventView<S>>)
    requires
        events.len() > 0,
    ensures
        unread(events).len() < events.len(),
    decreases events.len(),
{
    reveal_with_fuel(unread, 2);
    if events.drop_first().len() > 0 {
        law_poll_makes_progress(events.drop_first());
    }
}

/// The transcripts of two runs of messages are those of the first, then those of the second.
pub proof fn law_transcripts_append<S>(
    first: Seq<SdbMessageView<S>>,
    second: Seq<SdbMessageView<S>>,
)
    ensures
        transcripts(first + second) == transcripts(first) + transcripts(second),
    decreases first.len(),
{
    if first.len() == 0 {
        assert(first + second == second);
        assert(transcripts(first) + transcripts(second) == transcripts(second));
    } else {
        assert((first + second).first() == first.first());
        assert((first + second).drop_first() == first.drop_first() + second);
        law_transcripts_append(first.drop_first(), second);
        assert(transcripts(first + second) == transcripts(first) + transcripts(second));
    }
}

/// A message that is no finalized transcript (interim, first pass, error or blank) may come at any
/// point without changing what is handed on.
pub proof fn law_other_messages_do_not_matter<S>(
    before: Seq<SdbMessageView<S>>,
    message: SdbMessageView<S>,
    after: Seq<SdbMessageView<S>>,
)
    requires
        !message.is_finalized(),
    ensures
        transcripts(before + seq![message] + after) == transcripts(before + after),
{
    law_transcripts_append(before, after);
    law_transcripts_append(before + seq![message], after);
    law_transcripts_append(before, seq![message]);
    assert(seq![message].drop_first() == Seq::<SdbMessageView<S>>::empty());
    assert(transcripts(seq![message]) == transcripts(seq![message].drop_first()));
    assert(transcripts(before) + transcripts(seq![message]) == transcripts(before));
}

/// An utterance that the server transcribes in two passes is handed on once, as the second pass has
/// it.
pub proof fn law_refined_utterance_comes_once<S>(
    before: Seq<SdbMessageView<S>>,
    first_pass: SdbMessageView<S>,
    second_pass: SdbMessageView<S>,
    after: Seq<SdbMessageView<S>>,
)
    requires
        first_pass.is_intermediate(),
        second_pass.is_finalized(),
    ensures
        transcripts(before + seq![first_pass, second_pass] + after) == transcripts(before)
            + seq![second_pass.text->0] + transcripts(after),
{
    let passes = seq![first_pass, second_pass];
    law_transcripts_append(before + passes, after);
    law_transcripts_append(before, passes);
    assert(passes.drop_first() == seq![second_pass]);
    assert(seq![second_pass].drop_first() == Seq::<SdbMessageView<S>>::empty());
    reveal_with_fuel(transcripts, 3);
    assert(transcripts(passes) == seq![second_pass.text->0]);
}

/// A message that reports an error is never handed on.
pub proof fn law_errors_are_not_transcripts<S>(message: SdbMessageView<S>)
    requires
        message.is_error(),
    ensures
        !message.is_finalized(),
{
}

/// A poll returns what the first event says that is not to be read past.
pub proof fn law_poll_returns_the_first<S>(events: Seq<SttEventView<S>>, at: int)
    requires
        0 <= at < events.len(),
        forall|i: int| 0 <= i < at ==> poll_step(#[trigger] events[i]) is Continue,
        !(poll_step(events[at]) is Continue),
    ensures
        poll(events) == poll_step(events[at]),
    decreases at,
{
    if at > 0 {
        let rest = events.drop_first();
        assert(poll_step(events[0]) is Continue);
        assert forall|i: int| 0 <= i < at - 1 implies poll_step(#[trigger] rest[i]) is Continue by {
            assert(poll_step(events[i + 1]) is Continue);
        }
        law_poll_returns_the_first(rest, at - 1);
    }
}

/// Polling hands on every finalized transcript that arrives, each once and in order, and nothing
/// else.
pub proof fn law_polling_drains_all_transcripts<S>(events: Seq<SttEventView<S>>)
    ensures
        drained(events) == transcripts(messages_of(events)),
    decreases events.len(),
{
    if events.len() > 0 {
        let rest = events.drop_first();
        law_polling_drains_all_transcripts(rest);
        if let SttEventView::Message(message, _) = events.first() {
            let messages = messages_of(events);
            assert(messages.first() == message);
            assert(messages.drop_first() == messages_of(rest));
        }
        if rest.len() == 0 {
            reveal_with_fuel(unread, 2);
            reveal_with_fuel(poll, 2);
        }
    }
}

} // verus!
