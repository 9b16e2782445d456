use crate::error::StreamError;
use crate::handle::PolledPtr;
use crate::poll_loop::step_spec;
use crate::poll_loop::transmission;
use crate::poll_loop::Action;
use crate::poll_loop::Event;
use crate::poll_loop::LoopState;
use crate::poll_loop::Phase;
use vstd::prelude::*;

verus! {

/// Where a loop that started in `state` stands after `events`, and the
/// actions that it asked for on the way, in order. An event that the loop
/// does not wait for leaves no trace.
pub open spec fn run<H, E>(state: LoopState, events: Seq<Event<H, E>>) -> (
    LoopState,
    Seq<Action<H, E>>,
)
    decreases events.len(),
{
    if events.len() == 0 {
        (state, Seq::empty())
    } else {
        let before = run(state, events.drop_last());
        if before.0.awaits(events.last()) {
            let answer = step_spec(before.0, events.last());
            (answer.0, before.1.push(answer.1))
        } else {
            before
        }
    }
}

/// The items that `actions` offer to the stream, in order.
pub open spec fn sent<H, E>(actions: Seq<Action<H, E>>) -> Seq<
    Result<PolledPtr<H>, StreamError<E>>,
>
    decreases actions.len(),
{
    if actions.len() == 0 {
        Seq::empty()
    } else {
        match actions.last() {
            Action::Send(item) => sent(actions.drop_last()).push(item),
            _ => sent(actions.drop_last()),
        }
    }
}

/// How many polls `actions` ask for.
pub open spec fn polls<H, E>(actions: Seq<Action<H, E>>) -> nat
    decreases actions.len(),
{
    if actions.len() == 0 {
        0
    } else {
        match actions.last() {
            Action::Poll(_) => polls(actions.drop_last()) + 1,
            _ => polls(actions.drop_last()),
        }
    }
}

/// The events of one turn of the loop in which nobody asks it to stop and
/// the stream takes what is sent: the stop flag is down, the poll returns
/// `outcome`, and the item for it, if there is one, is taken.
pub open spec fn turn<H, E>(outcome: Result<Option<H>, E>, no_message_error: bool) -> Seq<
    Event<H, E>,
> {
    if transmission(outcome, no_message_error) is Some {
        seq![Event::StopFlag(false), Event::Polled(outcome), Event::Sent]
    } else {
        seq![Event::StopFlag(false), Event::Polled(outcome)]
    }
}

/// The events of as many such turns as there are `outcomes`, one after the
/// other.
pub open spec fn turns<H, E>(outcomes: Seq<Result<Option<H>, E>>, no_message_error: bool) -> Seq<
    Event<H, E>,
>
    decreases outcomes.len(),
{
    if outcomes.len() == 0 {
        Seq::empty()
    } else {
        turns(outcomes.drop_last(), no_message_error) + turn(outcomes.last(), no_message_error)
    }
}

/// The items that go to the stream for `outcomes`, in the order of the
/// polls.
pub open spec fn transmitted<H, E>(
    outcomes: Seq<Result<Option<H>, E>>,
    no_message_error: bool,
) -> Seq<Result<PolledPtr<H>, StreamError<E>>>
    decreases outcomes.len(),
{
    if outcomes.len() == 0 {
        Seq::empty()
    } else {
        match transmission(outcomes.last(), no_message_error) {
            Some(item) => transmitted(outcomes.drop_last(), no_message_error).push(item),
            None => transmitted(outcomes.drop_last(), no_message_error),
        }
    }
}

/// Running a loop over two runs of events on end is running it over the
/// first and then, from where that left it, over the second.
pub proof fn lemma_run_append<H, E>(
    state: LoopState,
    first: Seq<Event<H, E>>,
    second: Seq<Event<H, E>>,
)
    ensures
        run(state, first + second).0 == run(run(state, first).0, second).0,
        run(state, first + second).1 == run(state, first).1 + run(
            run(state, first).0,
            second,
        ).1,
    decreases second.len(),
{
    if second.len() == 0 {
        assert(first + second =~= first);
        assert(run(state, first).1 + Seq::<Action<H, E>>::empty() =~= run(state, first).1);
    } else {
        lemma_run_append(state, first, second.drop_last());
        assert((first + second).drop_last() =~= first + second.drop_last());
        assert((first + second).last() == second.last());
        let middle = run(state, first);
        let before = run(middle.0, second.drop_last());
        if before.0.awaits(second.last()) {
            let answer = step_spec(before.0, second.last());
            assert((middle.1 + before.1).push(answer.1) =~= middle.1 + before.1.push(answer.1));
        }
    }
}

/// What two runs of actions on end offer to the stream is what the first
/// offers and then what the second offers.
pub proof fn lemma_sent_append<H, E>(first: Seq<Action<H, E>>, second: Seq<Action<H, E>>)
    ensures
        sent(first + second) == sent(first) + sent(second),
    decreases second.len(),
{
    if second.len() == 0 {
        assert(first + second =~= first);
        assert(sent(first) + sent(second) =~= sent(first));
    } else {
        lemma_sent_append(first, second.drop_last());
        assert((first + second).drop_last() =~= first + second.drop_last());
        assert((first + second).last() == second.last());
        match second.last() {
            Action::Send(item) => {
                assert((sent(first) + sent(second.drop_last())).push(item) =~= sent(first) + sent(
                    second.drop_last(),
                ).push(item));
            },
            _ => {},
        }
    }
}

/// Two runs of actions on end ask for as many polls as both together.
pub proof fn lemma_polls_append<H, E>(first: Seq<Action<H, E>>, second: Seq<Action<H, E>>)
    ensures
        polls(first + second) == polls(first) + polls(second),
    decreases second.len(),
{
    if second.len() == 0 {
        assert(first + second =~= first);
    } else {
        lemma_polls_append(first, second.drop_last());
        assert((first + second).drop_last() =~= first + second.drop_last());
        assert((first + second).last() == second.last());
    }
}

/// One more event at the end of a run: the loop answers it from where the
/// run left it, if it waits for it.
pub proof fn lemma_run_push<H, E>(state: LoopState, events: Seq<Event<H, E>>, event: Event<H, E>)
    ensures
        run(state, events).0.awaits(event) ==> run(state, events.push(event)) == (
            step_spec(run(state, events).0, event).0,
            run(state, events).1.push(step_spec(run(state, events).0, event).1),
        ),
        !run(state, events).0.awaits(event) ==> run(state, events.push(event)) == run(
            state,
            events,
        ),
{
    assert(events.push(event).drop_last() =~= events);
}

/// One more action at the end: its item, if it offers one, comes last.
pub proof fn lemma_sent_push<H, E>(actions: Seq<Action<H, E>>, action: Action<H, E>)
    ensures
        sent(actions.push(action)) == match action {
            Action::Send(item) => sent(actions).push(item),
            _ => sent(actions),
        },
{
    assert(actions.push(action).drop_last() =~= actions);
}

/// One more action at the end: it counts if it asks for a poll.
pub proof fn lemma_polls_push<H, E>(actions: Seq<Action<H, E>>, action: Action<H, E>)
    ensures
        polls(actions.push(action)) == match action {
            Action::Poll(_) => polls(actions) + 1,
            _ => polls(actions),
        },
{
    assert(actions.push(action).drop_last() =~= actions);
}

/// One turn brings the loop back to the top, with one poll made and the
/// item for the poll's result, if there is one, offered to the stream.
pub proof fn lemma_turn<H, E>(state: LoopState, outcome: Result<Option<H>, E>)
    requires
        state.phase == Phase::CheckingStop,
    ensures
        run(state, turn(outcome, state.no_message_error)).0 == state,
        sent(run(state, turn(outcome, state.no_message_error)).1) == match transmission(
            outcome,
            state.no_message_error,
        ) {
            Some(item) => seq![item],
            None => Seq::empty(),
        },
        polls(run(state, turn(outcome, state.no_message_error)).1) == 1,
{
    let none = Seq::<Event<H, E>>::empty();
    let flag = none.push(Event::StopFlag(false));
    let polled = flag.push(Event::Polled(outcome));
    lemma_run_push(state, none, Event::StopFlag(false));
    lemma_run_push(state, flag, Event::Polled(outcome));
    let nothing = Seq::<Action<H, E>>::empty();
    let asked = nothing.push(Action::Poll(state.poll_interval_ms));
    lemma_sent_push(nothing, Action::<H, E>::Poll(state.poll_interval_ms));
    lemma_polls_push(nothing, Action::<H, E>::Poll(state.poll_interval_ms));
    match transmission(outcome, state.no_message_error) {
        Some(item) => {
            lemma_run_push(state, polled, Event::Sent);
            assert(turn(outcome, state.no_message_error) =~= polled.push(Event::Sent));
            let offered = asked.push(Action::Send(item));
            lemma_sent_push(asked, Action::Send(item));
            lemma_polls_push(asked, Action::Send(item));
            lemma_sent_push(offered, Action::ReadStopFlag);
            lemma_polls_push(offered, Action::ReadStopFlag);
            assert(sent(asked).push(item) =~= seq![item]);
        },
        None => {
            assert(turn(outcome, state.no_message_error) =~= polled);
            lemma_sent_push(asked, Action::ReadStopFlag);
            lemma_polls_push(asked, Action::ReadStopFlag);
        },
    }
}

/// Turn after turn, the loop offers to the stream exactly the items that
/// belong to the results of its polls, in the order of the polls, makes one
/// poll for each result, and is back at the top at the end.
pub proof fn lemma_turns<H, E>(state: LoopState, outcomes: Seq<Result<Option<H>, E>>)
    requires
        state.phase == Phase::CheckingStop,
    ensures
        run(state, turns(outcomes, state.no_message_error)).0 == state,
        sent(run(state, turns(outcomes, state.no_message_error)).1) == transmitted(
            outcomes,
            state.no_message_error,
        ),
        polls(run(state, turns(outcomes, state.no_message_error)).1) == outcomes.len(),
    decreases outcomes.len(),
{
    if outcomes.len() == 0 {
        assert(sent(Seq::<Action<H, E>>::empty()) =~= Seq::empty());
    } else {
        let report = state.no_message_error;
        let earlier = turns(outcomes.drop_last(), report);
        let last = turn(outcomes.last(), report);
        lemma_turns(state, outcomes.drop_last());
        lemma_turn(state, outcomes.last());
        lemma_run_append(state, earlier, last);
        lemma_sent_append(run(state, earlier).1, run(state, last).1);
        lemma_polls_append(run(state, earlier).1, run(state, last).1);
        match transmission(outcomes.last(), report) {
            Some(item) => {
                assert(transmitted(outcomes.drop_last(), report) + seq![item] =~= transmitted(
                    outcomes.drop_last(),
                    report,
                ).push(item));
            },
            None => {
                assert(transmitted(outcomes.drop_last(), report) + Seq::empty() =~= transmitted(
                    outcomes.drop_last(),
                    report,
                ));
            },
        }
    }
}

} // verus!
