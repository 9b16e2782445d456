use vstd::prelude::*;

verus! {

/// An error item of the message stream.
#[derive(Debug, PartialEq, Eq)]
pub enum StreamError<E> {
    /// A poll interval went by without a message. Only a loop that was asked
    /// to report this sends it.
    NoMessageReceived,
    /// The error that the underlying consumer gave, as it came.
    Consumer(E),
}

} // verus!
