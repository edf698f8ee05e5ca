//! Single-slot completion cell.
//!
//! A completion cell holds at most one pending result and at most one
//! waiting-consumer token. A producer stores a value with `send`; a consumer
//! either takes a present value with `poll` or leaves its waker token behind
//! so the producer knows whom to wake. The cell is the building block for
//! request/response plumbing and for hardware-completion signalling.

use vstd::prelude::*;

verus! {

/// Single-slot synchronization cell: at most one pending result, at most one
/// waiting consumer between two consecutive consumes. The waiting consumer is
/// identified by the waker token (an actor slot) it registered.
pub struct CompletionHandle<T> {
    /// The pending result, if one has been sent and not yet consumed.
    pub value: Option<T>,
    /// The waker token of the registered waiting consumer, if any.
    pub waiting: Option<usize>,
}

/// What a cell looks like after a producer stored `v`: the value slot is
/// overwritten (last write wins) and the waiting token has been taken out,
/// to be woken by the caller.
pub open spec fn sent<T>(c: CompletionHandle<T>, v: T) -> CompletionHandle<T> {
    CompletionHandle { value: Some(v), waiting: None }
}

/// What a cell looks like after a consumer polled it with waker token `w`,
/// together with the consumed value. A present value is consumed; otherwise
/// the waker token (if one was supplied) is recorded.
pub open spec fn polled<T>(c: CompletionHandle<T>, w: Option<usize>) -> (
    CompletionHandle<T>,
    Option<T>,
) {
    match c.value {
        Some(v) => ((CompletionHandle { value: None, waiting: c.waiting }), Some(v)),
        None => (
            (CompletionHandle { value: c.value, waiting: if w is Some { w } else { c.waiting } }),
            None,
        ),
    }
}

impl<T> CompletionHandle<T> {
    /// A fresh cell: no value, no waiter.
    pub fn new() -> (c: Self)
        ensures
            c == (CompletionHandle { value: None::<T>, waiting: None::<usize> }),
    {
        CompletionHandle { value: None, waiting: None }
    }

    /// Whether a value is currently pending.
    pub fn is_signaled(&self) -> (r: bool)
        ensures
            r == self.value is Some,
    {
        self.value.is_some()
    }

    /// Store a value, overwriting any unread one, and hand back the waiting
    /// consumer's token so the caller can wake it.
    pub fn send(&mut self, v: T) -> (w: Option<usize>)
        ensures
            *final(self) == sent(*old(self), v),
            w == old(self).waiting,
    {
        self.value = Some(v);
        let w = self.waiting;
        self.waiting = None;
        w
    }

    /// Consume a present value, or record the caller's waker token (when one
    /// is supplied) and report that the cell is still pending.
    pub fn poll(&mut self, w: Option<usize>) -> (r: Option<T>)
        ensures
            (*final(self), r) == polled(*old(self), w),
    {
        match self.value.take() {
            Some(v) => Some(v),
            None => {
                if w.is_some() {
                    self.waiting = w;
                }
                None
            }
        }
    }
}

impl<T> Default for CompletionHandle<T> {
    /// A fresh cell, as [`CompletionHandle::new`] builds it.
    fn default() -> (c: Self)
        ensures
            c == (CompletionHandle { value: None::<T>, waiting: None::<usize> }),
    {
        CompletionHandle::new()
    }
}

/// At-most-once delivery: once a poll has consumed a value, a second poll
/// reports the cell as pending, whatever waker tokens the two polls carried,
/// until an intervening send stores a new value.
pub proof fn law_at_most_once<T>(c: CompletionHandle<T>, w1: Option<usize>, w2: Option<usize>)
    ensures
        polled(c, w1).1 is Some ==> polled(polled(c, w1).0, w2).1 is None,
{
}

/// A sent value is delivered: the first poll after a send consumes exactly
/// the value that was sent.
pub proof fn law_delivery<T>(c: CompletionHandle<T>, v: T, w: Option<usize>)
    ensures
        polled(sent(c, v), w).1 == Some(v),
{
}

} // verus!
