use crate::error::StreamError;
use crate::handle::PolledPtr;
use vstd::prelude::*;

verus! {

/// Whether a value has come yet.
#[derive(Debug, PartialEq, Eq)]
pub enum Async<T> {
    /// The value is there.
    Ready(T),
    /// Nothing has come yet. The one who asked is woken when something does.
    NotReady,
}

/// What the stream yields for one item that it received: for a message, the
/// handle and the consumer that a message over it is built from; for an
/// error, the error as it came.
pub open spec fn message_of<'a, H, E, C>(
    item: Result<PolledPtr<H>, StreamError<E>>,
    consumer: &'a C,
) -> Result<(H, &'a C), StreamError<E>> {
    match item {
        Ok(polled) => Ok((polled@->0, consumer)),
        Err(error) => Err(error),
    }
}

/// What the stream yields for `items`, received in this order.
pub open spec fn messages_of<'a, H, E, C>(
    items: Seq<Result<PolledPtr<H>, StreamError<E>>>,
    consumer: &'a C,
) -> Seq<Result<(H, &'a C), StreamError<E>>> {
    Seq::new(items.len(), |i: int| message_of(items[i], consumer))
}

/// The receiving side of a stream consumer: turns what comes out of the
/// channel into what the stream yields.
///
/// The stream borrows the consumer for as long as it lives, and so does
/// every message it yields.
#[derive(Debug)]
pub struct MessageStream<'a, C> {
    consumer: &'a C,
}

impl<'a, C> MessageStream<'a, C> {
    /// The consumer that the stream's messages are built over.
    pub closed spec fn consumer(self) -> &'a C {
        self.consumer
    }

    /// What one pull yields for what the channel gave.
    ///
    /// Nothing yet stays nothing yet; the end of the channel is the end of
    /// the stream; an item becomes what `message_of` says; an error of the
    /// channel itself is passed on.
    pub open spec fn poll_spec<H, E>(
        self,
        received: Result<Async<Option<Result<PolledPtr<H>, StreamError<E>>>>, ()>,
    ) -> Result<Async<Option<Result<(H, &'a C), StreamError<E>>>>, ()> {
        match received {
            Ok(Async::Ready(Some(item))) => Ok(
                Async::Ready(Some(message_of(item, self.consumer()))),
            ),
            Ok(Async::Ready(None)) => Ok(Async::Ready(None)),
            Ok(Async::NotReady) => Ok(Async::NotReady),
            Err(error) => Err(error),
        }
    }

    /// The stream of a consumer.
    pub fn new(consumer: &'a C) -> (stream: Self)
        ensures
            stream.consumer() == consumer,
    {
        MessageStream { consumer }
    }

    /// One pull of the stream, given what the receiving end of the channel
    /// returned for it.
    ///
    /// A received owner must still own its handle: the handle goes into the
    /// message.
    pub fn poll<H, E>(
        &mut self,
        received: Result<Async<Option<Result<PolledPtr<H>, StreamError<E>>>>, ()>,
    ) -> (yielded: Result<Async<Option<Result<(H, &'a C), StreamError<E>>>>, ()>)
        requires
            received matches Ok(Async::Ready(Some(Ok(polled)))) ==> polled@ is Some,
        ensures
            yielded == old(self).poll_spec(received),
            *final(self) == *old(self),
    {
        match received {
            Ok(Async::Ready(Some(Ok(polled)))) => Ok(
                Async::Ready(Some(Ok(polled.into_message_of(self.consumer)))),
            ),
            Ok(Async::Ready(Some(Err(error)))) => Ok(Async::Ready(Some(Err(error)))),
            Ok(Async::Ready(None)) => Ok(Async::Ready(None)),
            Ok(Async::NotReady) => Ok(Async::NotReady),
            Err(error) => Err(error),
        }
    }
}

} // verus!
