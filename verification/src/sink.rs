//! Fan-out sink: a one-to-many notification broadcaster.
//!
//! A [`Sink`] consumes messages; a [`MultiSink`] holds a bounded registration
//! list of sinks and forwards every message to each of them in registration
//! order. A multi-sink is itself a notification target whose "add subscriber"
//! operation is the [`AddSink`] message.

use vstd::prelude::*;

use crate::actor::Completion;

verus! {

/// A broadcastable message: copied once per subscriber.
pub trait Message: Sized + Copy {

}

impl Message for u8 {

}

impl Message for u32 {

}

/// A consumer of messages of type `M`. What one delivery does to the sink is
/// pinned by the implementor's own relation `notified`.
pub trait Sink<M: Message>: Sized {
    /// The relation between the sink before and after one delivery of
    /// `message`.
    spec fn notified(pre: Self, post: Self, message: M) -> bool;

    /// Deliver one message.
    fn notify(&mut self, message: M)
        ensures
            Self::notified(*old(self), *final(self), message),
    ;
}

/// A bounded registration list of sinks; every message sent to it is
/// delivered to each registered subscriber in registration order.
pub struct MultiSink<S> {
    /// The registered subscribers, in registration order.
    pub subscribers: Vec<S>,
    /// The fixed registration capacity, decided at construction.
    pub cap: usize,
}

impl<S> MultiSink<S> {
    /// An empty multi-sink with the given fixed subscriber capacity.
    pub fn new(cap: usize) -> (s: Self)
        ensures
            s.subscribers@ == Seq::<S>::empty(),
            s.cap == cap,
    {
        MultiSink { subscribers: Vec::new(), cap }
    }

    /// Register one more subscriber. Registration beyond capacity is a
    /// configuration defect, excluded here.
    pub fn add(&mut self, subscriber: S)
        requires
            old(self).subscribers@.len() < old(self).cap,
        ensures
            final(self).subscribers@ == old(self).subscribers@.push(subscriber),
            final(self).cap == old(self).cap,
    {
        self.subscribers.push(subscriber);
    }

    /// How many subscribers are registered.
    pub fn len(&self) -> (n: usize)
        ensures
            n == self.subscribers@.len(),
    {
        self.subscribers.len()
    }

    /// Deliver `message` to every registered subscriber, in registration
    /// order.
    pub fn send<M: Message>(&mut self, message: M)
        where S: Sink<M>
        ensures
            final(self).subscribers@.len() == old(self).subscribers@.len(),
            final(self).cap == old(self).cap,
            forall|i: int|
                0 <= i < old(self).subscribers@.len() ==> S::notified(
                    old(self).subscribers@[i],
                    #[trigger] final(self).subscribers@[i],
                    message,
                ),
    {
        let n = self.subscribers.len();
        let mut i: usize = 0;
        #[verifier::loop_isolation(false)]
        while i < n
            invariant
                i <= n,
                self.subscribers@.len() == n,
                self.cap == old(self).cap,
                forall|j: int|
                    0 <= j < i ==> S::notified(
                        old(self).subscribers@[j],
                        #[trigger] self.subscribers@[j],
                        message,
                    ),
                forall|j: int|
                    i <= j < n ==> #[trigger] self.subscribers@[j] == old(self).subscribers@[j],
            decreases n - i,
        {
            let sub = &mut self.subscribers[i];
            sub.notify(message);
            i = i + 1;
        }
    }

    /// Handle the "add subscriber" operation: the notification a multi-sink
    /// accepts when it is mounted as an actor.
    pub fn on_notification(&mut self, message: AddSink<S>) -> (c: Completion)
        requires
            old(self).subscribers@.len() < old(self).cap,
        ensures
            final(self).subscribers@ == old(self).subscribers@.push(message.0),
            final(self).cap == old(self).cap,
            c == Completion::Immediate,
    {
        self.add(message.0);
        Completion::Immediate
    }
}

impl<M: Message, S: Sink<M>> Sink<M> for MultiSink<S> {
    /// One delivery to a multi-sink delivers to every subscriber in place.
    open spec fn notified(pre: Self, post: Self, message: M) -> bool {
        &&& post.subscribers@.len() == pre.subscribers@.len()
        &&& post.cap == pre.cap
        &&& (forall|i: int|
            0 <= i < pre.subscribers@.len() ==> S::notified(
                pre.subscribers@[i],
                #[trigger] post.subscribers@[i],
                message,
            ))
    }

    fn notify(&mut self, message: M) {
        self.send(message);
    }
}

/// The "add subscriber" operation routed to a mounted multi-sink.
pub struct AddSink<S>(pub S);

impl<S> AddSink<S> {
    /// Wrap a sink for registration.
    pub fn new(sink: S) -> (m: Self)
        ensures
            m.0 == sink,
    {
        AddSink(sink)
    }
}

} // verus!
