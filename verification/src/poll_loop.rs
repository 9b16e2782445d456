use crate::error::StreamError;
use crate::handle::PolledPtr;
use crate::interval::poll_timeout;
use crate::interval::timeout_millis;
use std::time::Duration;
use vstd::prelude::*;

verus! {

/// Where the polling loop stands: what it waits to be told.
#[derive(Clone, Copy, Debug, PartialEq, Eq)]
pub enum Phase {
    /// At the top of the loop, waiting for the stop flag to be read.
    CheckingStop,
    /// A poll is under way.
    Polling,
    /// An item is on offer to the stream.
    Sending,
    /// The loop has ended. It waits for nothing.
    Terminated,
}

/// What happened outside the loop, reported to it.
#[derive(Debug, PartialEq, Eq)]
pub enum Event<H, E> {
    /// The stop flag, as it was read at the top of the loop.
    StopFlag(bool),
    /// What the blocking poll returned: a message, no message within the
    /// interval, or an error.
    Polled(Result<Option<H>, E>),
    /// The stream has taken the item.
    Sent,
    /// The send failed, because the receiving end is gone.
    ReceiverGone,
}

/// What the loop wants done next.
#[derive(Debug, PartialEq, Eq)]
pub enum Action<H, E> {
    /// Read the stop flag and report it.
    ReadStopFlag,
    /// Poll the consumer with this timeout, in milliseconds, and report what
    /// it returns.
    Poll(i32),
    /// Offer this item to the stream, wait until it is taken, and report how
    /// that went.
    Send(Result<PolledPtr<H>, StreamError<E>>),
    /// Leave the loop.
    Exit,
}

/// The state of a polling loop, as contracts see it.
pub struct LoopState {
    /// The timeout of each poll, in milliseconds.
    pub poll_interval_ms: i32,
    /// Whether a poll that times out is reported to the stream.
    pub no_message_error: bool,
    /// What the loop waits for.
    pub phase: Phase,
}

impl LoopState {
    /// The state of a loop that has not done anything yet.
    pub open spec fn initial(poll_interval_ms: i32, no_message_error: bool) -> LoopState {
        LoopState { poll_interval_ms, no_message_error, phase: Phase::CheckingStop }
    }

    /// The same loop in another phase.
    pub open spec fn moved_to(self, phase: Phase) -> LoopState {
        LoopState { phase, ..self }
    }

    /// Whether the loop, in this state, waits for `event`.
    pub open spec fn awaits<H, E>(self, event: Event<H, E>) -> bool {
        match self.phase {
            Phase::CheckingStop => event is StopFlag,
            Phase::Polling => event is Polled,
            Phase::Sending => event is Sent || event is ReceiverGone,
            Phase::Terminated => false,
        }
    }
}

/// What the loop sends to the stream for one result of a poll, if anything.
///
/// A message is sent under a new owner, an error as it came. A poll that
/// timed out is sent as `NoMessageReceived` where that was asked for, and
/// is passed over in silence where it was not.
pub open spec fn transmission<H, E>(
    outcome: Result<Option<H>, E>,
    no_message_error: bool,
) -> Option<Result<PolledPtr<H>, StreamError<E>>> {
    match outcome {
        Ok(None) => if no_message_error {
            Some(Err(StreamError::NoMessageReceived))
        } else {
            None
        },
        Ok(Some(message_ptr)) => Some(Ok(PolledPtr::owning(message_ptr))),
        Err(error) => Some(Err(StreamError::Consumer(error))),
    }
}

/// The loop's answer to an event that it waits for: its next state and the
/// action it asks for.
///
/// At the top, a raised stop flag ends the loop; otherwise it polls. After a
/// poll it either offers an item to the stream or goes back to the top. After
/// a send that was taken it goes back to the top; a send that failed ends
/// the loop.
pub open spec fn step_spec<H, E>(state: LoopState, event: Event<H, E>) -> (
    LoopState,
    Action<H, E>,
) {
    match event {
        Event::StopFlag(stop) => if stop {
            (state.moved_to(Phase::Terminated), Action::Exit)
        } else {
            (state.moved_to(Phase::Polling), Action::Poll(state.poll_interval_ms))
        },
        Event::Polled(outcome) => match transmission(outcome, state.no_message_error) {
            Some(item) => (state.moved_to(Phase::Sending), Action::Send(item)),
            None => (state.moved_to(Phase::CheckingStop), Action::ReadStopFlag),
        },
        Event::Sent => (state.moved_to(Phase::CheckingStop), Action::ReadStopFlag),
        Event::ReceiverGone => (state.moved_to(Phase::Terminated), Action::Exit),
    }
}

/// The item that goes to the stream for one result of a poll.
pub fn forward<H, E>(outcome: Result<Option<H>, E>, no_message_error: bool) -> (item: Option<
    Result<PolledPtr<H>, StreamError<E>>,
>)
    ensures
        item == transmission(outcome, no_message_error),
        item matches Some(Ok(polled)) ==> polled@ is Some,
{
    match outcome {
        Ok(None) => {
            if no_message_error {
                Some(Err(StreamError::NoMessageReceived))
            } else {
                None
            }
        },
        Ok(Some(message_ptr)) => Some(Ok(PolledPtr::new(message_ptr))),
        Err(error) => Some(Err(StreamError::Consumer(error))),
    }
}

/// The polling loop of a stream consumer, as a machine that is told what
/// happened and answers what to do next.
///
/// A new loop waits for the stop flag. Whoever drives it carries out each
/// action and reports the event that the action brings.
#[derive(Debug, PartialEq, Eq)]
pub struct PollLoop {
    poll_interval_ms: i32,
    no_message_error: bool,
    phase: Phase,
}

impl View for PollLoop {
    type V = LoopState;

    closed spec fn view(&self) -> LoopState {
        LoopState {
            poll_interval_ms: self.poll_interval_ms,
            no_message_error: self.no_message_error,
            phase: self.phase,
        }
    }
}

impl PollLoop {
    /// A loop that polls with the timeout that `poll_interval` gives, and
    /// that reports polls that time out if `no_message_error` is set.
    pub fn new(poll_interval: Duration, no_message_error: bool) -> (poll_loop: PollLoop)
        ensures
            timeout_millis(poll_interval) == poll_loop@.poll_interval_ms,
            poll_loop@ == LoopState::initial(poll_loop@.poll_interval_ms, no_message_error),
    {
        PollLoop {
            poll_interval_ms: poll_timeout(poll_interval),
            no_message_error,
            phase: Phase::CheckingStop,
        }
    }

    /// What a new loop wants done first: it is at the top, so the stop flag
    /// is to be read.
    pub fn first_action<H, E>() -> (action: Action<H, E>)
        ensures
            action == Action::<H, E>::ReadStopFlag,
    {
        Action::ReadStopFlag
    }

    /// What the loop waits for.
    pub fn phase(&self) -> (phase: Phase)
        ensures
            phase == self@.phase,
    {
        self.phase
    }

    /// The timeout that the loop gives each poll, in milliseconds.
    pub fn poll_interval_ms(&self) -> (timeout_ms: i32)
        ensures
            timeout_ms == self@.poll_interval_ms,
    {
        self.poll_interval_ms
    }

    /// Whether the loop reports polls that time out.
    pub fn no_message_error(&self) -> (reported: bool)
        ensures
            reported == self@.no_message_error,
    {
        self.no_message_error
    }

    /// Whether the loop has ended.
    pub fn is_terminated(&self) -> (ended: bool)
        ensures
            ended == (self@.phase == Phase::Terminated),
    {
        match self.phase {
            Phase::Terminated => true,
            _ => false,
        }
    }

    /// Tells the loop what happened and returns what it wants done next.
    ///
    /// An event that the loop does not wait for is handed back, and the loop
    /// stays as it is.
    pub fn step<H, E>(&mut self, event: Event<H, E>) -> (answer: Result<Action<H, E>, Event<H, E>>)
        ensures
            old(self)@.awaits(event) ==> answer is Ok && (final(self)@, answer->Ok_0) == step_spec(
                old(self)@,
                event,
            ),
            !old(self)@.awaits(event) ==> answer == Err::<Action<H, E>, Event<H, E>>(event)
                && final(self)@ == old(self)@,
            answer matches Ok(Action::Send(Ok(polled))) ==> polled@ is Some,
    {
        match self.phase {
            Phase::CheckingStop => match event {
                Event::StopFlag(stop) => {
                    if stop {
                        self.phase = Phase::Terminated;
                        Ok(Action::Exit)
                    } else {
                        self.phase = Phase::Polling;
                        Ok(Action::Poll(self.poll_interval_ms))
                    }
                },
                other => Err(other),
            },
            Phase::Polling => match event {
                Event::Polled(outcome) => match forward(outcome, self.no_message_error) {
                    Some(item) => {
                        self.phase = Phase::Sending;
                        Ok(Action::Send(item))
                    },
                    None => {
                        self.phase = Phase::CheckingStop;
                        Ok(Action::ReadStopFlag)
                    },
                },
                other => Err(other),
            },
            Phase::Sending => match event {
                Event::Sent => {
                    self.phase = Phase::CheckingStop;
                    Ok(Action::ReadStopFlag)
                },
                Event::ReceiverGone => {
                    self.phase = Phase::Terminated;
                    Ok(Action::Exit)
                },
                other => Err(other),
            },
            Phase::Terminated => Err(event),
        }
    }
}

} // verus!
