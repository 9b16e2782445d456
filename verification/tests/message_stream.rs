use stream_consumer::error::StreamError;
use stream_consumer::handle::PolledPtr;
use stream_consumer::message_stream::Async;
use stream_consumer::message_stream::MessageStream;

type Received = Result<Async<Option<Result<PolledPtr<u64>, StreamError<&'static str>>>>, ()>;
type Pulled<'a> = Result<Async<Option<Result<(u64, &'a String), StreamError<&'static str>>>>, ()>;

#[test]
fn received_message_is_yielded_with_the_consumer() {
    let consumer = String::from("consumer");
    let mut stream = MessageStream::new(&consumer);
    let received: Received = Ok(Async::Ready(Some(Ok(PolledPtr::new(8)))));
    let pulled: Pulled = stream.poll(received);
    assert_eq!(pulled, Ok(Async::Ready(Some(Ok((8, &consumer))))));
    match pulled {
        Ok(Async::Ready(Some(Ok((_, borrowed))))) => assert!(std::ptr::eq(borrowed, &consumer)),
        _ => unreachable!(),
    }
}

#[test]
fn received_timeout_is_yielded_as_an_error() {
    let consumer = String::from("consumer");
    let mut stream = MessageStream::new(&consumer);
    let received: Received = Ok(Async::Ready(Some(Err(StreamError::NoMessageReceived))));
    let pulled: Pulled = stream.poll(received);
    assert_eq!(pulled, Ok(Async::Ready(Some(Err(StreamError::NoMessageReceived)))));
}

#[test]
fn received_error_is_yielded_as_it_came() {
    let consumer = String::from("consumer");
    let mut stream = MessageStream::new(&consumer);
    let received: Received = Ok(Async::Ready(Some(Err(StreamError::Consumer("broker down")))));
    let pulled: Pulled = stream.poll(received);
    assert_eq!(pulled, Ok(Async::Ready(Some(Err(StreamError::Consumer("broker down"))))));
}

#[test]
fn closed_channel_ends_the_stream() {
    let consumer = String::from("consumer");
    let mut stream = MessageStream::new(&consumer);
    let received: Received = Ok(Async::Ready(None));
    let pulled: Pulled = stream.poll(received);
    assert_eq!(pulled, Ok(Async::Ready(None)));
    let received: Received = Ok(Async::Ready(None));
    let pulled: Pulled = stream.poll(received);
    assert_eq!(pulled, Ok(Async::Ready(None)));
}

#[test]
fn nothing_yet_stays_nothing_yet() {
    let consumer = String::from("consumer");
    let mut stream = MessageStream::new(&consumer);
    let received: Received = Ok(Async::NotReady);
    let pulled: Pulled = stream.poll(received);
    assert_eq!(pulled, Ok(Async::NotReady));
}

#[test]
fn error_of_the_channel_is_passed_on() {
    let consumer = String::from("consumer");
    let mut stream = MessageStream::new(&consumer);
    let received: Received = Err(());
    let pulled: Pulled = stream.poll(received);
    assert_eq!(pulled, Err(()));
}

#[test]
fn stream_goes_on_after_an_error_item() {
    let consumer = String::from("consumer");
    let mut stream = MessageStream::new(&consumer);
    let first: Pulled = stream.poll(Ok(Async::Ready(Some(Err(StreamError::Consumer("once"))))));
    assert_eq!(first, Ok(Async::Ready(Some(Err(StreamError::Consumer("once"))))));
    let second: Pulled = stream.poll(Ok(Async::Ready(Some(Ok(PolledPtr::new(2))))));
    assert_eq!(second, Ok(Async::Ready(Some(Ok((2, &consumer))))));
}
