use crate::consumer::ConsumerState;
use crate::error::StreamError;
use crate::handle::lemma_empty_view;
use crate::handle::lemma_owning_view;
use crate::handle::PolledPtr;
use crate::message_stream::message_of;
use crate::message_stream::messages_of;
use crate::poll_loop::step_spec;
use crate::poll_loop::transmission;
use crate::poll_loop::Action;
use crate::poll_loop::Event;
use crate::poll_loop::LoopState;
use crate::poll_loop::Phase;
use crate::trace::lemma_run_push;
use crate::trace::lemma_turns;
use crate::trace::polls;
use crate::trace::run;
use crate::trace::sent;
use crate::trace::transmitted;
use crate::trace::turns;
use vstd::prelude::*;

verus! {

/// What the stream yields while a loop that starts in `state` makes polls
/// with these results, one after the other, nobody asks it to stop, and the
/// stream takes every item.
pub open spec fn yielded<'a, H, E, C>(
    state: LoopState,
    outcomes: Seq<Result<Option<H>, E>>,
    consumer: &'a C,
) -> Seq<Result<(H, &'a C), StreamError<E>>> {
    messages_of(sent(run(state, turns(outcomes, state.no_message_error)).1), consumer)
}

/// The results of polls that each return a message: one for each of
/// `handles`, in order.
pub open spec fn successes<H, E>(handles: Seq<H>) -> Seq<Result<Option<H>, E>> {
    Seq::new(handles.len(), |i: int| Ok(Some(handles[i])))
}

/// One more poll adds to what the stream yields exactly what belongs to its
/// result, at the end: nothing that was yielded before is lost, doubled or
/// moved.
pub proof fn law_one_more_poll<'a, H, E, C>(
    state: LoopState,
    outcomes: Seq<Result<Option<H>, E>>,
    outcome: Result<Option<H>, E>,
    consumer: &'a C,
)
    requires
        state.phase == Phase::CheckingStop,
    ensures
        yielded(state, outcomes.push(outcome), consumer) == match transmission(
            outcome,
            state.no_message_error,
        ) {
            Some(item) => yielded(state, outcomes, consumer).push(message_of(item, consumer)),
            None => yielded(state, outcomes, consumer),
        },
        run(state, turns(outcomes.push(outcome), state.no_message_error)).0 == state,
        polls(run(state, turns(outcomes.push(outcome), state.no_message_error)).1) == polls(
            run(state, turns(outcomes, state.no_message_error)).1,
        ) + 1,
{
    lemma_turns(state, outcomes);
    lemma_turns(state, outcomes.push(outcome));
    assert(outcomes.push(outcome).drop_last() =~= outcomes);
    let before = transmitted(outcomes, state.no_message_error);
    match transmission(outcome, state.no_message_error) {
        Some(item) => {
            assert(messages_of(before.push(item), consumer) =~= messages_of(
                before,
                consumer,
            ).push(message_of(item, consumer)));
        },
        None => {},
    }
}

/// A message that a poll returns is yielded by the stream, after all that
/// was yielded before.
pub proof fn law_message_yielded<'a, H, E, C>(
    state: LoopState,
    outcomes: Seq<Result<Option<H>, E>>,
    message_ptr: H,
    consumer: &'a C,
)
    requires
        state.phase == Phase::CheckingStop,
    ensures
        yielded(state, outcomes.push(Ok(Some(message_ptr))), consumer) == yielded(
            state,
            outcomes,
            consumer,
        ).push(Ok((message_ptr, consumer))),
{
    law_one_more_poll(state, outcomes, Ok(Some(message_ptr)), consumer);
    lemma_owning_view(message_ptr);
}

/// After any number of polls that each return a message, the stream has
/// yielded exactly those messages, as many as there were polls and in the
/// order of the polls, whether or not timeouts are reported.
pub proof fn law_successful_polls<'a, H, E, C>(state: LoopState, handles: Seq<H>, consumer: &'a C)
    requires
        state.phase == Phase::CheckingStop,
    ensures
        yielded(state, successes::<H, E>(handles), consumer) == Seq::new(
            handles.len(),
            |i: int| Ok::<(H, &'a C), StreamError<E>>((handles[i], consumer)),
        ),
        yielded(state, successes::<H, E>(handles), consumer).len() == handles.len(),
        polls(run(state, turns(successes::<H, E>(handles), state.no_message_error)).1)
            == handles.len(),
    decreases handles.len(),
{
    let messages = Seq::new(
        handles.len(),
        |i: int| Ok::<(H, &'a C), StreamError<E>>((handles[i], consumer)),
    );
    lemma_turns(state, successes::<H, E>(handles));
    if handles.len() == 0 {
        assert(yielded(state, successes::<H, E>(handles), consumer) =~= messages);
    } else {
        let earlier = successes::<H, E>(handles.drop_last());
        law_successful_polls::<H, E, C>(state, handles.drop_last(), consumer);
        law_message_yielded(state, earlier, handles.last(), consumer);
        assert(successes::<H, E>(handles) =~= earlier.push(Ok(Some(handles.last()))));
        assert(yielded(state, successes::<H, E>(handles), consumer) =~= messages);
    }
}

/// Where timeouts are not reported, the stream yields nothing for a poll
/// that times out: with that poll or without it, it yields the same.
pub proof fn law_timeout_passed_over<'a, H, E, C>(
    state: LoopState,
    outcomes: Seq<Result<Option<H>, E>>,
    consumer: &'a C,
)
    requires
        state.phase == Phase::CheckingStop,
        !state.no_message_error,
    ensures
        yielded(state, outcomes.push(Ok(None)), consumer) == yielded(state, outcomes, consumer),
        sent(run(state, turns(outcomes.push(Ok(None)), false)).1) == sent(
            run(state, turns(outcomes, false)).1,
        ),
        run(state, turns(outcomes.push(Ok(None)), false)).0 == state,
{
    law_one_more_poll(state, outcomes, Ok(None), consumer);
    lemma_turns(state, outcomes);
    lemma_turns(state, outcomes.push(Ok(None)));
    assert(outcomes.push(Ok(None)).drop_last() =~= outcomes);
}

/// Where timeouts are reported, the stream yields exactly one
/// `NoMessageReceived` for a poll that times out, after all that was yielded
/// before, and the loop is back at the top to go on.
pub proof fn law_timeout_reported<'a, H, E, C>(
    state: LoopState,
    outcomes: Seq<Result<Option<H>, E>>,
    consumer: &'a C,
)
    requires
        state.phase == Phase::CheckingStop,
        state.no_message_error,
    ensures
        yielded(state, outcomes.push(Ok(None)), consumer) == yielded(
            state,
            outcomes,
            consumer,
        ).push(Err(StreamError::NoMessageReceived)),
        run(state, turns(outcomes.push(Ok(None)), true)).0 == state,
{
    law_one_more_poll(state, outcomes, Ok(None), consumer);
}

/// An error of the underlying consumer is neither swallowed nor retried: the
/// stream yields it once, as it came, after all that was yielded before, and
/// the loop is back at the top to go on.
pub proof fn law_error_forwarded<'a, H, E, C>(
    state: LoopState,
    outcomes: Seq<Result<Option<H>, E>>,
    error: E,
    consumer: &'a C,
)
    requires
        state.phase == Phase::CheckingStop,
    ensures
        yielded(state, outcomes.push(Err(error)), consumer) == yielded(
            state,
            outcomes,
            consumer,
        ).push(Err(StreamError::Consumer(error))),
        run(state, turns(outcomes.push(Err(error)), state.no_message_error)).0 == state,
{
    law_one_more_poll(state, outcomes, Err(error), consumer);
}

/// Once the receiving end is gone, a loop at the top ends within one poll
/// and one attempt to send, provided that the poll gives it something to
/// send: it polls once, offers the item, and leaves when the send fails.
pub proof fn law_receiver_gone<H, E>(state: LoopState, outcome: Result<Option<H>, E>)
    requires
        state.phase == Phase::CheckingStop,
        transmission(outcome, state.no_message_error) is Some,
    ensures
        run(
            state,
            seq![Event::StopFlag(false), Event::Polled(outcome), Event::ReceiverGone],
        ) == (
            state.moved_to(Phase::Terminated),
            seq![
                Action::Poll(state.poll_interval_ms),
                Action::Send(transmission(outcome, state.no_message_error)->0),
                Action::Exit,
            ],
        ),
{
    let none = Seq::<Event<H, E>>::empty();
    let flag = none.push(Event::StopFlag(false));
    let polled = flag.push(Event::Polled(outcome));
    let gone = polled.push(Event::ReceiverGone);
    lemma_run_push(state, none, Event::StopFlag(false));
    lemma_run_push(state, flag, Event::Polled(outcome));
    lemma_run_push(state, polled, Event::ReceiverGone);
    assert(gone =~= seq![Event::StopFlag(false), Event::Polled(outcome), Event::ReceiverGone]);
    assert(run(state, gone).1 =~= seq![
        Action::Poll(state.poll_interval_ms),
        Action::Send(transmission(outcome, state.no_message_error)->0),
        Action::Exit,
    ]);
}

/// A loop at the top that reads a raised stop flag ends at once, without
/// another poll.
pub proof fn law_stop_flag_ends_loop<H, E>(state: LoopState)
    requires
        state.phase == Phase::CheckingStop,
    ensures
        run(state, seq![Event::<H, E>::StopFlag(true)]) == (
            state.moved_to(Phase::Terminated),
            seq![Action::<H, E>::Exit],
        ),
{
    let none = Seq::<Event<H, E>>::empty();
    lemma_run_push(state, none, Event::<H, E>::StopFlag(true));
    assert(none.push(Event::<H, E>::StopFlag(true)) =~= seq![Event::<H, E>::StopFlag(true)]);
    assert(run(state, seq![Event::<H, E>::StopFlag(true)]).1 =~= seq![Action::<H, E>::Exit]);
}

/// A loop that has ended stays ended: whatever it is told, it asks for
/// nothing more, so it never polls again.
pub proof fn law_terminated_is_final<H, E>(state: LoopState, events: Seq<Event<H, E>>)
    requires
        state.phase == Phase::Terminated,
    ensures
        run(state, events) == (state, Seq::<Action<H, E>>::empty()),
    decreases events.len(),
{
    if events.len() > 0 {
        law_terminated_is_final(state, events.drop_last());
    }
}

/// The flag that `stop` raises for an attached thread ends that thread's
/// loop the next time the loop is at the top, and `stop` hands out that
/// thread to be joined.
pub proof fn law_stop_reaches_loop<J, H, E>(consumer: ConsumerState<J>, state: LoopState)
    requires
        consumer.handle is Some,
        state.phase == Phase::CheckingStop,
    ensures
        consumer.stop_spec().1 == consumer.handle,
        run(state, seq![Event::<H, E>::StopFlag(consumer.stop_spec().0.should_stop)]) == (
            state.moved_to(Phase::Terminated),
            seq![Action::<H, E>::Exit],
        ),
{
    law_stop_flag_ends_loop::<H, E>(state);
}

/// A handle that a poll returns gets one owner, and leaves that owner once:
/// either into the message that the stream yields for it, or, if the owner
/// is given up instead, for destruction. An owner that has been given up
/// hands out nothing more.
pub proof fn law_handle_leaves_once<'a, H, E, C>(state: LoopState, message_ptr: H, consumer: &'a C)
    requires
        state.phase == Phase::Polling,
    ensures
        step_spec::<H, E>(state, Event::Polled(Ok(Some(message_ptr)))).1 == Action::<
            H,
            E,
        >::Send(Ok(PolledPtr::owning(message_ptr))),
        message_of::<H, E, C>(Ok(PolledPtr::owning(message_ptr)), consumer) == Ok::<
            (H, &'a C),
            StreamError<E>,
        >((message_ptr, consumer)),
        PolledPtr::owning(message_ptr).release_spec() == (
            PolledPtr::<H>::empty(),
            Some(message_ptr),
        ),
        PolledPtr::<H>::empty().release_spec() == (PolledPtr::<H>::empty(), None::<H>),
{
    lemma_owning_view(message_ptr);
    lemma_empty_view::<H>();
}

} // verus!
