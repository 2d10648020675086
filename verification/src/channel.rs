//! The channel abstraction the protocol runs over: an ordered message pipe
//! with a producing end ([`MessageSink`]) and a consuming end
//! ([`MessageSource`]), plus [`Queue`], the crate's own in-memory pipe.
//!
//! The contracts describe one step of the pipe at a time: a send either
//! appends the message or fails because the pipe no longer accepts any, and
//! a receive either takes the oldest pending message or finds none. A caller
//! that runs the pipe asynchronously performs the waiting itself and calls a
//! step once the channel is ready.

use vstd::prelude::*;

verus! {

/// Error returned when a pipe refuses a message because it is no longer
/// accepting sends.
#[derive(Copy, Clone, Debug, PartialEq, Eq)]
pub struct SendError;

/// The producing end of an ordered message pipe.
pub trait MessageSink<T>: Sized {
    /// Every message this end has accepted, oldest first.
    spec fn contents(&self) -> Seq<T>;

    /// Whether the pipe still accepts messages.
    spec fn accepting(&self) -> bool;

    /// Hand one message to the pipe: accepted messages are appended in
    /// order, a refused message leaves the pipe exactly as it was.
    fn send(&mut self, item: T) -> (r: Result<(), SendError>)
        ensures
            r is Ok <==> old(self).accepting(),
            r is Ok ==> final(self).contents() == old(self).contents().push(item)
                && final(self).accepting(),
            r is Err ==> final(self).contents() == old(self).contents()
                && final(self).accepting() == old(self).accepting(),
    ;
}

/// The consuming end of an ordered message pipe.
pub trait MessageSource<T>: Sized {
    /// The messages waiting to be received, oldest first.
    spec fn pending(&self) -> Seq<T>;

    /// Whether the producing side has closed the pipe. Once a closed pipe
    /// reports nothing pending, it is drained for good.
    spec fn is_closed(&self) -> bool;

    /// Take the next message, if one is pending; with nothing pending the
    /// pipe is left exactly as it was.
    fn recv(&mut self) -> (r: Option<T>)
        ensures
            match r {
                Some(item) => old(self).pending().len() > 0
                    && item == old(self).pending().first()
                    && final(self).pending() == old(self).pending().drop_first()
                    && final(self).is_closed() == old(self).is_closed(),
                None => old(self).pending().len() == 0 && *final(self) == *old(self),
            },
    ;
}

/// A first-in-first-out channel held as one value: the producing and the
/// consuming end of the same pipe.
///
/// It is the crate's reference implementation of [`MessageSink`] and
/// [`MessageSource`], for settings where both ends live in one task — a
/// harness, or a worker driven step by step. [`Queue::close`] makes further
/// sends fail while what is already queued can still be drained.
pub struct Queue<T> {
    items: Vec<T>,
    open: bool,
}

impl<T> Queue<T> {
    /// An empty, open channel.
    pub fn new() -> (q: Self)
        ensures
            q.contents().len() == 0,
            q.pending().len() == 0,
            q.accepting(),
            !q.is_closed(),
    {
        Queue { items: Vec::new(), open: true }
    }

    /// Close the channel: later sends fail, queued messages stay readable.
    pub fn close(&mut self)
        ensures
            final(self).contents() == old(self).contents(),
            final(self).pending() == old(self).pending(),
            !final(self).accepting(),
            final(self).is_closed(),
    {
        self.open = false;
    }

    /// How many messages are queued.
    pub fn len(&self) -> (n: usize)
        ensures
            n == self.pending().len(),
    {
        self.items.len()
    }
}

/// The two ends of a [`Queue`] view one pipe: what the producing end has
/// accepted is exactly what the consuming end still holds, and the pipe is
/// closed to one exactly when it no longer accepts from the other.
pub proof fn lemma_queue_ends<T>(q: &Queue<T>)
    ensures
        q.pending() == q.contents(),
        q.is_closed() <==> !q.accepting(),
{
}

impl<T> MessageSink<T> for Queue<T> {
    closed spec fn contents(&self) -> Seq<T> {
        self.items@
    }

    closed spec fn accepting(&self) -> bool {
        self.open
    }

    fn send(&mut self, item: T) -> (r: Result<(), SendError>) {
        if self.open {
            self.items.push(item);
            Ok(())
        } else {
            Err(SendError)
        }
    }
}

impl<T> MessageSource<T> for Queue<T> {
    closed spec fn pending(&self) -> Seq<T> {
        self.items@
    }

    closed spec fn is_closed(&self) -> bool {
        !self.open
    }

    fn recv(&mut self) -> (r: Option<T>) {
        if self.items.len() > 0 {
            let item = self.items.remove(0);
            proof {
                assert(self.items@ =~= old(self).pending().drop_first());
            }
            Some(item)
        } else {
            None
        }
    }
}

} // verus!
