use std::time::Duration;
use stream_consumer::consumer::StreamConsumer;
use stream_consumer::error::StreamError;
use stream_consumer::handle::PolledPtr;
use stream_consumer::message_stream::Async;
use stream_consumer::message_stream::MessageStream;
use stream_consumer::poll_loop::Action;
use stream_consumer::poll_loop::Event;
use stream_consumer::poll_loop::PollLoop;

type Outcome = Result<Option<u64>, &'static str>;
type Item = Result<PolledPtr<u64>, StreamError<&'static str>>;
type Yielded<'a> = Result<(u64, &'a Container), StreamError<&'static str>>;

#[derive(Debug, PartialEq, Eq)]
struct Container {
    name: &'static str,
}

/// What went on while a loop was driven.
struct Driven {
    /// The timeout of each poll that was made.
    timeouts: Vec<i32>,
    /// The items that the stream took.
    taken: Vec<Item>,
    /// The item whose send failed, if one did.
    refused: Option<Item>,
    /// How often the stop flag was read.
    flag_reads: usize,
}

/// Drives `poll_loop` to its end. The polls return `outcomes` in order and
/// time out after that. The stop flag is up from its read number
/// `stop_at_read` on (counted from 0). The stream takes `stream_takes` items
/// and is gone after that.
fn drive(
    poll_loop: &mut PollLoop,
    outcomes: Vec<Outcome>,
    stop_at_read: usize,
    stream_takes: usize,
) -> Driven {
    let mut driven = Driven { timeouts: Vec::new(), taken: Vec::new(), refused: None, flag_reads: 0 };
    let mut outcomes = outcomes.into_iter();
    let mut action: Action<u64, &'static str> = PollLoop::first_action();
    loop {
        let event = match action {
            Action::ReadStopFlag => {
                let read = driven.flag_reads;
                driven.flag_reads += 1;
                Event::StopFlag(read >= stop_at_read)
            }
            Action::Poll(timeout_ms) => {
                driven.timeouts.push(timeout_ms);
                Event::Polled(outcomes.next().unwrap_or(Ok(None)))
            }
            Action::Send(item) => {
                if driven.taken.len() < stream_takes {
                    driven.taken.push(item);
                    Event::Sent
                } else {
                    driven.refused = Some(item);
                    Event::ReceiverGone
                }
            }
            Action::Exit => break,
        };
        action = match poll_loop.step(event) {
            Ok(next) => next,
            Err(event) => panic!("the loop did not wait for {:?}", event),
        };
    }
    assert!(poll_loop.is_terminated());
    driven
}

/// What the stream yields for `taken`, pulled one by one, and then for the
/// end of the channel.
fn pull_all<'a>(stream: &mut MessageStream<'a, Container>, taken: Vec<Item>) -> Vec<Yielded<'a>> {
    let mut yielded = Vec::new();
    for item in taken {
        match stream.poll(Ok(Async::Ready(Some(item)))) {
            Ok(Async::Ready(Some(message))) => yielded.push(message),
            other => panic!("the stream yielded {:?} for an item", other),
        }
    }
    let end: Result<Async<Option<Yielded<'a>>>, ()> = stream.poll(Ok(Async::Ready(None)));
    assert_eq!(end, Ok(Async::Ready(None)));
    yielded
}

#[test]
fn messages_come_out_in_the_order_of_the_polls() {
    let consumer: StreamConsumer<u8> = StreamConsumer::new();
    let mut poll_loop = consumer.start_with(Duration::from_millis(10), false);
    let outcomes: Vec<Outcome> = (100..108).map(|handle| Ok(Some(handle))).collect();
    let driven = drive(&mut poll_loop, outcomes, 8, usize::MAX);
    assert_eq!(driven.timeouts, vec![10; 8]);
    assert_eq!(driven.flag_reads, 9);
    assert!(driven.refused.is_none());
    let container = Container { name: "consumer" };
    let mut stream = MessageStream::new(&container);
    let yielded = pull_all(&mut stream, driven.taken);
    let expected: Vec<Yielded> = (100..108).map(|handle| Ok((handle, &container))).collect();
    assert_eq!(yielded, expected);
}

#[test]
fn every_timeout_is_reported_until_the_loop_is_stopped() {
    let consumer: StreamConsumer<u8> = StreamConsumer::new();
    let mut poll_loop = consumer.start_with(Duration::from_millis(5), true);
    let driven = drive(&mut poll_loop, Vec::new(), 6, usize::MAX);
    assert_eq!(driven.timeouts, vec![5; 6]);
    assert_eq!(driven.flag_reads, 7);
    let container = Container { name: "consumer" };
    let mut stream = MessageStream::new(&container);
    let yielded = pull_all(&mut stream, driven.taken);
    assert_eq!(yielded.len(), 6);
    for item in yielded {
        assert_eq!(item, Err(StreamError::NoMessageReceived));
    }
}

#[test]
fn error_then_message() {
    let consumer: StreamConsumer<u8> = StreamConsumer::new();
    let mut poll_loop = consumer.start();
    let driven = drive(&mut poll_loop, vec![Err("E"), Ok(Some(11))], 2, usize::MAX);
    assert_eq!(driven.timeouts, vec![100, 100]);
    let container = Container { name: "consumer" };
    let mut stream = MessageStream::new(&container);
    let yielded = pull_all(&mut stream, driven.taken);
    assert_eq!(yielded, vec![Err(StreamError::Consumer("E")), Ok((11, &container))]);
}

#[test]
fn n_successful_polls_yield_n_messages() {
    for n in [0u64, 1, 2, 17, 200] {
        for no_message_error in [false, true] {
            let mut poll_loop = PollLoop::new(Duration::from_millis(1), no_message_error);
            let outcomes: Vec<Outcome> = (0..n).map(|handle| Ok(Some(handle * 3))).collect();
            let driven = drive(&mut poll_loop, outcomes, n as usize, usize::MAX);
            assert_eq!(driven.timeouts.len() as u64, n);
            let container = Container { name: "consumer" };
            let mut stream = MessageStream::new(&container);
            let yielded = pull_all(&mut stream, driven.taken);
            let expected: Vec<Yielded> = (0..n).map(|handle| Ok((handle * 3, &container))).collect();
            assert_eq!(yielded, expected);
        }
    }
}

#[test]
fn silent_timeouts_leave_no_item() {
    let mut poll_loop = PollLoop::new(Duration::from_millis(20), false);
    let outcomes: Vec<Outcome> = vec![Ok(None), Ok(Some(1)), Ok(None), Ok(None), Ok(Some(2)), Ok(None)];
    let driven = drive(&mut poll_loop, outcomes, 6, usize::MAX);
    assert_eq!(driven.timeouts, vec![20; 6]);
    assert_eq!(driven.taken, vec![Ok(PolledPtr::new(1)), Ok(PolledPtr::new(2))]);
}

#[test]
fn reported_timeouts_leave_one_item_each() {
    let mut poll_loop = PollLoop::new(Duration::from_millis(20), true);
    let outcomes: Vec<Outcome> = vec![Ok(None), Ok(Some(1)), Ok(None), Ok(None), Ok(Some(2)), Ok(None)];
    let driven = drive(&mut poll_loop, outcomes, 6, usize::MAX);
    assert_eq!(driven.timeouts, vec![20; 6]);
    assert_eq!(
        driven.taken,
        vec![
            Err(StreamError::NoMessageReceived),
            Ok(PolledPtr::new(1)),
            Err(StreamError::NoMessageReceived),
            Err(StreamError::NoMessageReceived),
            Ok(PolledPtr::new(2)),
            Err(StreamError::NoMessageReceived),
        ]
    );
}

#[test]
fn errors_are_neither_swallowed_nor_retried() {
    let mut poll_loop = PollLoop::new(Duration::from_millis(20), false);
    let outcomes: Vec<Outcome> = vec![Err("first"), Err("second"), Ok(Some(9)), Err("third")];
    let driven = drive(&mut poll_loop, outcomes, 4, usize::MAX);
    assert_eq!(driven.timeouts.len(), 4);
    assert_eq!(
        driven.taken,
        vec![
            Err(StreamError::Consumer("first")),
            Err(StreamError::Consumer("second")),
            Ok(PolledPtr::new(9)),
            Err(StreamError::Consumer("third")),
        ]
    );
}

#[test]
fn loop_ends_at_the_first_send_after_the_stream_is_gone() {
    let mut poll_loop = PollLoop::new(Duration::from_millis(10), false);
    let outcomes: Vec<Outcome> = (0..10).map(|handle| Ok(Some(handle))).collect();
    let driven = drive(&mut poll_loop, outcomes, usize::MAX, 3);
    assert_eq!(driven.taken, vec![Ok(PolledPtr::new(0)), Ok(PolledPtr::new(1)), Ok(PolledPtr::new(2))]);
    assert_eq!(driven.refused, Some(Ok(PolledPtr::new(3))));
    assert_eq!(driven.timeouts.len(), 4);
    assert_eq!(driven.flag_reads, 4);
}

#[test]
fn loop_that_sends_nothing_does_not_notice_that_the_stream_is_gone() {
    let mut poll_loop = PollLoop::new(Duration::from_millis(10), false);
    let driven = drive(&mut poll_loop, Vec::new(), 50, 0);
    assert_eq!(driven.timeouts.len(), 50);
    assert!(driven.taken.is_empty());
    assert!(driven.refused.is_none());
}

#[test]
fn loop_that_reports_timeouts_notices_that_the_stream_is_gone() {
    let mut poll_loop = PollLoop::new(Duration::from_millis(10), true);
    let driven = drive(&mut poll_loop, Vec::new(), usize::MAX, 0);
    assert_eq!(driven.timeouts.len(), 1);
    assert_eq!(driven.refused, Some(Err(StreamError::NoMessageReceived)));
}

#[test]
fn loop_started_after_a_stop_ends_at_its_first_look_at_the_flag() {
    let mut consumer: StreamConsumer<u8> = StreamConsumer::new();
    assert_eq!(consumer.attach(1), None);
    assert_eq!(consumer.stop(), Some(1));
    let mut poll_loop = consumer.start();
    let stop_flag = consumer.should_stop();
    assert!(stop_flag);
    let asked: Result<Action<u64, &'static str>, Event<u64, &'static str>> =
        poll_loop.step(Event::StopFlag(stop_flag));
    assert_eq!(asked, Ok(Action::Exit));
    assert!(poll_loop.is_terminated());
}

#[test]
fn stop_flag_is_only_looked_at_between_turns() {
    let mut poll_loop = PollLoop::new(Duration::from_millis(10), false);
    let outcomes: Vec<Outcome> = vec![Ok(Some(1)), Ok(Some(2)), Ok(Some(3))];
    let driven = drive(&mut poll_loop, outcomes, 2, usize::MAX);
    assert_eq!(driven.flag_reads, 3);
    assert_eq!(driven.timeouts.len(), 2);
    assert_eq!(driven.taken, vec![Ok(PolledPtr::new(1)), Ok(PolledPtr::new(2))]);
}
