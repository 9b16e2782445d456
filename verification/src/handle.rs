use vstd::prelude::*;

verus! {

/// Owner of one raw message handle, from the poll that produced it until it
/// is either turned into a message or given up for destruction.
///
/// The slot holds the handle as long as it is owned. Handing the handle out
/// empties the slot, so one handle leaves one `PolledPtr` at most once.
#[derive(Debug, PartialEq, Eq)]
pub struct PolledPtr<H> {
    message_ptr: Option<H>,
}

impl<H> View for PolledPtr<H> {
    type V = Option<H>;

    /// The handle that is owned, if any.
    closed spec fn view(&self) -> Option<H> {
        self.message_ptr
    }
}

impl<H> PolledPtr<H> {
    /// The owner of `message_ptr`.
    pub closed spec fn owning(message_ptr: H) -> Self {
        PolledPtr { message_ptr: Some(message_ptr) }
    }

    /// The owner of nothing: what is left when the handle has been handed out.
    pub closed spec fn empty() -> Self {
        PolledPtr { message_ptr: None }
    }

    /// What `release` leaves behind, and what it hands out.
    pub open spec fn release_spec(self) -> (Self, Option<H>) {
        (Self::empty(), self@)
    }

    /// Takes ownership of a handle that a poll has just produced.
    pub fn new(message_ptr: H) -> (polled: Self)
        ensures
            polled == Self::owning(message_ptr),
            polled@ == Some(message_ptr),
    {
        PolledPtr { message_ptr: Some(message_ptr) }
    }

    /// Whether the handle is still owned.
    pub fn is_owned(&self) -> (owned: bool)
        ensures
            owned == (self@ is Some),
    {
        self.message_ptr.is_some()
    }

    /// Gives the handle up: hands out what is still owned, for the caller to
    /// destroy, and leaves the slot empty. This is what has to happen when a
    /// `PolledPtr` goes away without having been turned into a message.
    pub fn release(&mut self) -> (released: Option<H>)
        ensures
            (*final(self), released) == old(self).release_spec(),
            final(self)@ is None,
    {
        self.message_ptr.take()
    }

    /// Turns the owner into what a message over `message_container` is built
    /// from: the handle, which the message owns from now on, and the
    /// container, whose lifetime bounds the message's.
    pub fn into_message_of<'a, T>(self, message_container: &'a T) -> (parts: (H, &'a T))
        requires
            self@ is Some,
        ensures
            self@ == Some(parts.0),
            parts.1 == message_container,
    {
        let mut polled = self;
        let taken = polled.message_ptr.take();
        (taken.unwrap(), message_container)
    }
}

/// The owner that `new` makes owns the handle it was given.
pub proof fn lemma_owning_view<H>(message_ptr: H)
    ensures
        PolledPtr::owning(message_ptr)@ == Some(message_ptr),
{
}

/// The empty owner owns nothing.
pub proof fn lemma_empty_view<H>()
    ensures
        PolledPtr::<H>::empty()@ == None::<H>,
{
}

} // verus!
