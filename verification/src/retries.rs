//! What holds of every lookup: how often it asks and waits, and what it ends
//! with for each answer of the provider.

use vstd::prelude::*;
use crate::hibp::{
    expects, lookup_step, refusal, Breach, LookupActionView, LookupEventView, LookupFailureView,
    LookupPhase, LookupView,
};
use crate::http::{TransportErrorView, NOT_FOUND, OK, TOO_MANY_REQUESTS};
use crate::retry_after::seconds_of;

verus! {

/// The most steps that a lookup can still take from a phase.
pub open spec fn steps_left(phase: LookupPhase) -> nat {
    match phase {
        LookupPhase::Requesting => 4,
        LookupPhase::Waiting => 3,
        LookupPhase::RetryRequesting => 2,
        LookupPhase::Decoding => 1,
        LookupPhase::Done => 0,
    }
}

/// The state that a lookup reaches on a run of events, and what it asks for
/// on the way. The run ends at the first event that the lookup cannot take.
pub open spec fn run(s: LookupView, events: Seq<LookupEventView>) -> (
    LookupView,
    Seq<LookupActionView>,
)
    decreases events.len(),
{
    if events.len() == 0 || !expects(s.phase, events[0]) {
        (s, seq![])
    } else {
        let (next, action) = lookup_step(s, events[0]);
        let (last, actions) = run(next, events.skip(1));
        (last, seq![action] + actions)
    }
}

/// How often the actions ask to send the request.
pub open spec fn sends(actions: Seq<LookupActionView>) -> nat
    decreases actions.len(),
{
    if actions.len() == 0 {
        0
    } else {
        sends(actions.drop_first()) + if actions[0] is Send {
            1nat
        } else {
            0nat
        }
    }
}

/// How often the actions ask to wait.
pub open spec fn waits(actions: Seq<LookupActionView>) -> nat
    decreases actions.len(),
{
    if actions.len() == 0 {
        0
    } else {
        waits(actions.drop_first()) + if actions[0] is Wait {
            1nat
        } else {
            0nat
        }
    }
}

/// Every step brings a lookup nearer to its end, and leaves its request as
/// it was.
pub proof fn lemma_step_advances(s: LookupView, event: LookupEventView)
    requires
        expects(s.phase, event),
    ensures
        steps_left(lookup_step(s, event).0.phase) < steps_left(s.phase),
        lookup_step(s, event).0.request == s.request,
        lookup_step(s, event).1 is Return <==> lookup_step(s, event).0.phase == LookupPhase::Done,
{
}

/// The request is sent again only after a wait, and a wait is asked for only
/// by the first answer.
pub proof fn lemma_step_asks(s: LookupView, event: LookupEventView)
    requires
        expects(s.phase, event),
    ensures
        lookup_step(s, event).1 is Send <==> s.phase == LookupPhase::Waiting,
        lookup_step(s, event).1 is Wait ==> s.phase == LookupPhase::Requesting,
{
}

/// Whatever the provider answers, and however often it limits the rate, a
/// lookup is over after four steps, waits at most once, and sends its request
/// at most once more after the first time.
pub proof fn lemma_waits_once_retries_once(s: LookupView, events: Seq<LookupEventView>)
    ensures
        run(s, events).1.len() <= steps_left(s.phase),
        run(s, events).0.request == s.request,
        waits(run(s, events).1) <= if s.phase == LookupPhase::Requesting {
            1nat
        } else {
            0nat
        },
        sends(run(s, events).1) <= if s.phase == LookupPhase::Requesting || s.phase
            == LookupPhase::Waiting {
            1nat
        } else {
            0nat
        },
    decreases events.len(),
{
    if events.len() == 0 || !expects(s.phase, events[0]) {
    } else {
        let (next, action) = lookup_step(s, events[0]);
        let actions = run(next, events.skip(1)).1;
        lemma_step_advances(s, events[0]);
        lemma_step_asks(s, events[0]);
        lemma_waits_once_retries_once(next, events.skip(1));
        assert((seq![action] + actions).drop_first() =~= actions);
    }
}

/// What the provider gives in answer to one request: a status, with it the
/// wait that it may ask for, and what decoding its body yields.
pub ghost struct Answer {
    pub status: u16,
    pub retry_after: Option<Seq<u8>>,
    pub body: Result<Seq<Breach>, TransportErrorView>,
}

/// What a lookup ends with on an answer that does not make it wait: nothing
/// found is an empty list, a list is the list as far as it can be decoded,
/// and every other status is a refusal.
pub open spec fn verdict(a: Answer) -> Result<Seq<Breach>, LookupFailureView> {
    if a.status == NOT_FOUND {
        Ok(seq![])
    } else if a.status == OK {
        match a.body {
            Ok(breaches) => Ok(breaches),
            Err(e) => Err(LookupFailureView::Transport(e)),
        }
    } else {
        Err(refusal(a.status))
    }
}

/// The events that an answer gives rise to: its arrival and, where it holds
/// a list, the decoding of its body.
pub open spec fn events_of(a: Answer) -> Seq<LookupEventView> {
    let arrival = LookupEventView::Response { status: a.status, retry_after: a.retry_after };
    if a.status == OK {
        seq![
            arrival,
            match a.body {
                Ok(breaches) => LookupEventView::Body(breaches),
                Err(e) => LookupEventView::Failed(e),
            },
        ]
    } else {
        seq![arrival]
    }
}

/// What a lookup asks for while it takes in an answer that does not make it
/// wait.
pub open spec fn actions_on(a: Answer) -> Seq<LookupActionView> {
    if a.status == OK {
        seq![LookupActionView::Decode, LookupActionView::Return(verdict(a))]
    } else {
        seq![LookupActionView::Return(verdict(a))]
    }
}

proof fn lemma_run_one(s: LookupView, e: LookupEventView)
    requires
        expects(s.phase, e),
    ensures
        run(s, seq![e]) == (lookup_step(s, e).0, seq![lookup_step(s, e).1]),
{
    let next = lookup_step(s, e).0;
    assert(seq![e].skip(1) =~= Seq::<LookupEventView>::empty());
    assert(run(next, Seq::<LookupEventView>::empty()).1 =~= Seq::<LookupActionView>::empty());
}

proof fn lemma_run_more(s: LookupView, e: LookupEventView, rest: Seq<LookupEventView>)
    requires
        expects(s.phase, e),
    ensures
        run(s, seq![e] + rest) == (
            run(lookup_step(s, e).0, rest).0,
            seq![lookup_step(s, e).1] + run(lookup_step(s, e).0, rest).1,
        ),
{
    assert((seq![e] + rest).skip(1) =~= rest);
}

/// A lookup whose request is out, for the first time or the second, and that
/// is not made to wait ends with the verdict on the answer: what it returns
/// depends on the answer alone.
pub proof fn lemma_answer_decides(s: LookupView, a: Answer)
    requires
        s.phase == LookupPhase::Requesting || s.phase == LookupPhase::RetryRequesting,
        a.status != TOO_MANY_REQUESTS,
    ensures
        run(s, events_of(a)) == (LookupView { phase: LookupPhase::Done, ..s }, actions_on(a)),
{
    let arrival = LookupEventView::Response { status: a.status, retry_after: a.retry_after };
    if a.status == OK {
        let second = match a.body {
            Ok(breaches) => LookupEventView::Body(breaches),
            Err(e) => LookupEventView::Failed(e),
        };
        assert(events_of(a) =~= seq![arrival] + seq![second]);
        lemma_run_more(s, arrival, seq![second]);
        lemma_run_one(lookup_step(s, arrival).0, second);
    } else {
        lemma_run_one(s, arrival);
    }
}

/// Asked twice while the provider's answer stays the same and no wait is
/// imposed, a lookup returns the same both times.
pub proof fn lemma_lookup_is_repeatable(first: LookupView, second: LookupView, a: Answer)
    requires
        first.phase == LookupPhase::Requesting,
        second.phase == LookupPhase::Requesting,
        a.status != TOO_MANY_REQUESTS,
    ensures
        run(first, events_of(a)).1 == run(second, events_of(a)).1,
        run(first, events_of(a)).1.last() == LookupActionView::Return(verdict(a)),
{
    lemma_answer_decides(first, a);
    lemma_answer_decides(second, a);
}

/// What a lookup ends with on the answer to its second request: as on the
/// first, but that a further demand to wait is a refusal.
pub open spec fn retry_verdict(a: Answer) -> Result<Seq<Breach>, LookupFailureView> {
    if a.status == TOO_MANY_REQUESTS {
        Err(refusal(a.status))
    } else {
        verdict(a)
    }
}

/// The events of a lookup that is made to wait: the demand, the end of the
/// wait, and the answer to the second request.
pub open spec fn limited_events(retry_after: Seq<u8>, a: Answer) -> Seq<LookupEventView> {
    seq![
        LookupEventView::Response { status: TOO_MANY_REQUESTS, retry_after: Some(retry_after) },
        LookupEventView::Waited,
    ] + if a.status == TOO_MANY_REQUESTS {
        seq![LookupEventView::Response { status: a.status, retry_after: a.retry_after }]
    } else {
        events_of(a)
    }
}

/// A lookup that is made to wait waits for as long as it is told, sends its
/// request once more, and ends with the verdict on the second answer. It
/// neither waits nor sends again, whatever that answer is.
pub proof fn lemma_limited_lookup(s: LookupView, retry_after: Seq<u8>, a: Answer)
    requires
        s.phase == LookupPhase::Requesting,
        seconds_of(retry_after) is Some,
    ensures
        ({
            let (last, actions) = run(s, limited_events(retry_after, a));
            let seconds = seconds_of(retry_after)->0;
            &&& last == LookupView { phase: LookupPhase::Done, waited: Some(seconds), ..s }
            &&& actions.len() >= 3
            &&& actions[0] == LookupActionView::Wait(seconds)
            &&& actions[1] == LookupActionView::Send
            &&& actions.last() == LookupActionView::Return(retry_verdict(a))
            &&& waits(actions) == 1
            &&& sends(actions) == 1
        }),
{
    let demand = LookupEventView::Response {
        status: TOO_MANY_REQUESTS,
        retry_after: Some(retry_after),
    };
    let waiting = lookup_step(s, demand).0;
    let retrying = lookup_step(waiting, LookupEventView::Waited).0;
    let tail = if a.status == TOO_MANY_REQUESTS {
        seq![LookupEventView::Response { status: a.status, retry_after: a.retry_after }]
    } else {
        events_of(a)
    };
    assert(limited_events(retry_after, a) =~= seq![demand] + (seq![LookupEventView::Waited]
        + tail));
    lemma_run_more(s, demand, seq![LookupEventView::Waited] + tail);
    lemma_run_more(waiting, LookupEventView::Waited, tail);
    if a.status == TOO_MANY_REQUESTS {
        lemma_run_one(retrying, tail[0]);
    } else {
        lemma_answer_decides(retrying, a);
    }
    let rest = run(retrying, tail).1;
    let actions = run(s, limited_events(retry_after, a)).1;
    lemma_waits_once_retries_once(retrying, tail);
    assert(actions.drop_first().drop_first() =~= rest);
    assert(waits(actions.drop_first()) == waits(rest));
    assert(sends(actions.drop_first()) == sends(rest) + 1);
}

} // verus!
