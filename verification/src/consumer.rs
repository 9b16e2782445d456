use crate::interval::timeout_millis;
use crate::poll_loop::LoopState;
use crate::poll_loop::PollLoop;
use std::time::Duration;
use vstd::prelude::*;

verus! {

/// The poll interval of a consumer that is started without one, in
/// milliseconds.
pub const DEFAULT_POLL_INTERVAL_MS: u64 = 100;

/// How many items the channel between the polling loop and the stream may
/// hold: none. A send is over only when the stream takes the item.
pub const CHANNEL_CAPACITY: usize = 0;

/// The state of a stream consumer, as contracts see it.
pub struct ConsumerState<J> {
    /// Whether the polling thread has been told to stop.
    pub should_stop: bool,
    /// The handle of the polling thread, from the time it is attached until
    /// the consumer is stopped.
    pub handle: Option<J>,
}

impl<J> ConsumerState<J> {
    /// What `stop` leaves behind, and the thread that it hands out to be
    /// joined.
    pub open spec fn stop_spec(self) -> (ConsumerState<J>, Option<J>) {
        if self.handle is Some {
            (ConsumerState { should_stop: true, handle: None }, self.handle)
        } else {
            (self, None)
        }
    }

    /// What `attach` leaves behind, and the thread that it displaces.
    pub open spec fn attach_spec(self, handle: J) -> (ConsumerState<J>, Option<J>) {
        (ConsumerState { handle: Some(handle), ..self }, self.handle)
    }
}

/// A consumer with a polling thread: the stop flag of its polling loop and
/// the handle of the thread that runs it. `J` is the handle by which the
/// thread is joined.
///
/// The consumer is meant to be started once. Starting it again while a
/// thread is attached makes a second loop that polls the same underlying
/// consumer, and attaching that loop's thread displaces the first, which
/// nobody can join any more.
#[derive(Debug, PartialEq, Eq)]
pub struct StreamConsumer<J> {
    should_stop: bool,
    handle: Option<J>,
}

impl<J> View for StreamConsumer<J> {
    type V = ConsumerState<J>;

    closed spec fn view(&self) -> ConsumerState<J> {
        ConsumerState { should_stop: self.should_stop, handle: self.handle }
    }
}

impl<J> StreamConsumer<J> {
    /// A consumer that no thread polls for, with the stop flag down.
    pub fn new() -> (consumer: Self)
        ensures
            consumer@ == (ConsumerState::<J> { should_stop: false, handle: None }),
    {
        StreamConsumer { should_stop: false, handle: None }
    }

    /// The polling loop of a consumer that is started as it is by default:
    /// it polls with a timeout of 100 milliseconds and passes over polls
    /// that time out.
    pub fn start(&self) -> (poll_loop: PollLoop)
        ensures
            poll_loop@ == LoopState::initial(100, false),
    {
        self.start_with(Duration::from_millis(DEFAULT_POLL_INTERVAL_MS), false)
    }

    /// The polling loop of a consumer that is started with this poll
    /// interval. If `no_message_error` is set, the loop sends
    /// `NoMessageReceived` to the stream each time the interval goes by
    /// without a message.
    ///
    /// The loop is to be run on a thread of its own, and the thread's handle
    /// attached to the consumer.
    pub fn start_with(&self, poll_interval: Duration, no_message_error: bool) -> (poll_loop:
        PollLoop)
        ensures
            poll_loop@.poll_interval_ms == timeout_millis(poll_interval),
            poll_loop@ == LoopState::initial(poll_loop@.poll_interval_ms, no_message_error),
    {
        PollLoop::new(poll_interval, no_message_error)
    }

    /// Stores the handle of the thread that runs the polling loop, and
    /// hands back the one that was stored before, if there was one.
    pub fn attach(&mut self, handle: J) -> (displaced: Option<J>)
        ensures
            (final(self)@, displaced) == old(self)@.attach_spec(handle),
    {
        let displaced = self.handle.take();
        self.handle = Some(handle);
        displaced
    }

    /// Stops the consumer. If a polling thread is attached, the stop flag
    /// goes up and the thread is handed out: the caller publishes the flag
    /// and then joins the thread. If none is attached, nothing happens.
    pub fn stop(&mut self) -> (to_join: Option<J>)
        ensures
            (final(self)@, to_join) == old(self)@.stop_spec(),
    {
        match self.handle.take() {
            Some(handle) => {
                self.should_stop = true;
                Some(handle)
            },
            None => None,
        }
    }

    /// Whether the polling thread has been told to stop.
    pub fn should_stop(&self) -> (stop: bool)
        ensures
            stop == self@.should_stop,
    {
        self.should_stop
    }

    /// Whether a polling thread is attached.
    pub fn is_polling(&self) -> (polling: bool)
        ensures
            polling == (self@.handle is Some),
    {
        self.handle.is_some()
    }
}

/// Stopping twice is stopping once: the second `stop` hands out no thread
/// and changes nothing.
pub proof fn lemma_stop_twice<J>(state: ConsumerState<J>)
    ensures
        state.stop_spec().0.stop_spec() == (state.stop_spec().0, None::<J>),
{
}

/// A consumer that has been stopped has no thread attached, so the thread
/// that is attached next displaces none: as long as the consumer is stopped
/// before it is started again, no thread is ever left behind.
pub proof fn lemma_attach_after_stop<J>(state: ConsumerState<J>, handle: J)
    ensures
        state.stop_spec().0.handle is None,
        state.stop_spec().0.attach_spec(handle).1 is None,
        state.stop_spec().0.attach_spec(handle).0.handle == Some(handle),
{
}

/// Nothing lowers the stop flag once it is up: stopping again leaves it up,
/// and so does attaching another thread.
pub proof fn lemma_stop_flag_stays_up<J>(state: ConsumerState<J>, handle: J)
    requires
        state.should_stop,
    ensures
        state.stop_spec().0.should_stop,
        state.attach_spec(handle).0.should_stop,
{
}

} // verus!
