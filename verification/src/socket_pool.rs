//! A fixed pool of modem socket slots with a waiter queue.
//!
//! The Wi-Fi modem offers a small fixed number of sockets; opening one takes
//! the lowest closed slot, and a caller that finds none leaves its waker
//! token behind in a fixed-capacity queue. Closing is two-phased: an open or
//! connected socket becomes half-closed (the peer side is still draining)
//! before it is fully closed and reusable.

use vstd::prelude::*;

verus! {

/// How many sockets the modem offers.
pub const SOCKET_COUNT: usize = 4;

/// How many waiters can queue for a free socket.
pub const WAITER_CAPACITY: usize = 8;

/// The lifecycle state of one socket slot.
#[derive(Clone, Copy, PartialEq, Eq, Structural, Debug)]
pub enum SocketState {
    HalfClosed,
    Closed,
    Open,
    Connected,
}

impl Default for SocketState {
    /// A slot starts out closed.
    fn default() -> (s: Self)
        ensures
            s == SocketState::Closed,
    {
        SocketState::Closed
    }
}

/// The statically allocated double-ended queue of heapless, used here with
/// `usize` waker tokens.
#[verifier::external_type_specification]
#[verifier::external_body]
#[verifier::reject_recursive_types(T)]
pub struct ExDeque<T, const N: usize>(heapless::Deque<T, N>);

/// What a waiter queue holds, oldest first.
pub uninterp spec fn waiter_queue(q: heapless::Deque<usize, WAITER_CAPACITY>) -> Seq<usize>;

/// Relies on heapless::Deque::new: a fresh deque is empty.
#[verifier::external_body]
fn waiter_queue_new() -> (q: heapless::Deque<usize, WAITER_CAPACITY>)
    ensures
        waiter_queue(q) == Seq::<usize>::empty(),
{
    heapless::Deque::new()
}

/// Relies on heapless::Deque::push_back: with room among the fixed
/// `WAITER_CAPACITY` elements the item is appended at the back, and a full
/// deque hands the item back unqueued.
#[verifier::external_body]
fn waiter_queue_push(
    q: &mut heapless::Deque<usize, WAITER_CAPACITY>,
    waker: usize,
) -> (r: Result<(), usize>)
    ensures
        r == (if waiter_queue(*old(q)).len() < WAITER_CAPACITY {
            Result::<(), usize>::Ok(())
        } else {
            Result::<(), usize>::Err(waker)
        }),
        waiter_queue(*final(q)) == (if waiter_queue(*old(q)).len() < WAITER_CAPACITY {
            waiter_queue(*old(q)).push(waker)
        } else {
            waiter_queue(*old(q))
        }),
{
    q.push_back(waker)
}

/// Relies on heapless::Deque::len: the number of elements held.
#[verifier::external_body]
fn waiter_queue_len(q: &heapless::Deque<usize, WAITER_CAPACITY>) -> (n: usize)
    ensures
        n == waiter_queue(*q).len(),
{
    q.len()
}

/// The lowest closed slot at or after `i`, if any.
pub open spec fn first_closed(sockets: Seq<SocketState>, i: int) -> Option<int>
    decreases sockets.len() - i,
{
    if i < 0 || i >= sockets.len() {
        None
    } else if sockets[i] == SocketState::Closed {
        Some(i)
    } else {
        first_closed(sockets, i + 1)
    }
}

/// The fixed socket slots and the queue of waiters for a free one.
pub struct SocketPool {
    sockets: Vec<SocketState>,
    waiters: heapless::Deque<usize, WAITER_CAPACITY>,
}

impl SocketPool {
    /// The slot states, lowest slot first.
    pub closed spec fn sockets_spec(&self) -> Seq<SocketState> {
        self.sockets@
    }

    /// The queued waiter tokens, oldest first.
    pub closed spec fn waiters_spec(&self) -> Seq<usize> {
        waiter_queue(self.waiters)
    }

    /// The pool always holds exactly [`SOCKET_COUNT`] slots and respects the
    /// waiter capacity.
    pub open spec fn wf(&self) -> bool {
        &&& self.sockets_spec().len() == SOCKET_COUNT
        &&& self.waiters_spec().len() <= WAITER_CAPACITY
    }

    /// A pool of closed sockets with no waiters.
    pub fn new() -> (p: Self)
        ensures
            p.wf(),
            forall|i: int| 0 <= i < SOCKET_COUNT ==> p.sockets_spec()[i] == SocketState::Closed,
            p.waiters_spec() == Seq::<usize>::empty(),
    {
        let mut sockets: Vec<SocketState> = Vec::new();
        let mut i: usize = 0;
        #[verifier::loop_isolation(false)]
        while i < SOCKET_COUNT
            invariant
                i <= SOCKET_COUNT,
                sockets@.len() == i,
                forall|j: int| 0 <= j < i ==> sockets@[j] == SocketState::Closed,
            decreases SOCKET_COUNT - i,
        {
            sockets.push(SocketState::Closed);
            i = i + 1;
        }
        SocketPool { sockets, waiters: waiter_queue_new() }
    }

    /// How many waiters are queued for a free socket.
    pub fn waiter_count(&self) -> (n: usize)
        ensures
            n == self.waiters_spec().len(),
    {
        waiter_queue_len(&self.waiters)
    }

    /// Try to take a socket: the lowest closed slot becomes open and its
    /// index is returned; with none free and `waiting` false, the caller's
    /// waker token is queued (a caller already waiting is not queued twice).
    /// Queueing beyond the waiter capacity is a configuration defect,
    /// excluded here; check [`SocketPool::waiter_count`] first.
    pub fn poll_open(&mut self, waker: usize, waiting: bool) -> (r: Option<u8>)
        requires
            old(self).wf(),
            old(self).waiters_spec().len() < WAITER_CAPACITY,
        ensures
            final(self).wf(),
            ({
                let found = first_closed(old(self).sockets_spec(), 0);
                match found {
                    Some(slot) => r == Some(slot as u8) && final(self).sockets_spec() == old(
                        self,
                    ).sockets_spec().update(slot, SocketState::Open) && final(self).waiters_spec()
                        == old(self).waiters_spec(),
                    None => r is None && final(self).sockets_spec() == old(self).sockets_spec()
                        && final(self).waiters_spec() == (if waiting {
                        old(self).waiters_spec()
                    } else {
                        old(self).waiters_spec().push(waker)
                    }),
                }
            }),
    {
        let n = self.sockets.len();
        let mut i: usize = 0;
        #[verifier::loop_isolation(false)]
        while i < n
            invariant
                i <= n,
                first_closed(self.sockets@, 0) == first_closed(self.sockets@, i as int),
                self.sockets@ == old(self).sockets_spec(),
                self.waiters == old(self).waiters,
            decreases n - i,
        {
            if self.sockets[i] == SocketState::Closed {
                self.sockets[i] = SocketState::Open;
                proof {
                    assert(self.sockets@ =~= old(self).sockets_spec().update(
                        i as int,
                        SocketState::Open,
                    ));
                }
                return Some(i as u8);
            }
            i = i + 1;
        }
        if !waiting {
            let _queued = waiter_queue_push(&mut self.waiters, waker);
        }
        None
    }

    /// Release a socket one phase: an open or connected socket becomes
    /// half-closed, a half-closed one becomes closed, and a closed one stays
    /// closed.
    pub fn close(&mut self, socket: u8)
        requires
            old(self).wf(),
            socket < SOCKET_COUNT,
        ensures
            final(self).wf(),
            final(self).waiters_spec() == old(self).waiters_spec(),
            final(self).sockets_spec() == old(self).sockets_spec().update(
                socket as int,
                (match old(self).sockets_spec()[socket as int] {
                    SocketState::HalfClosed => SocketState::Closed,
                    SocketState::Open => SocketState::HalfClosed,
                    SocketState::Connected => SocketState::HalfClosed,
                    SocketState::Closed => SocketState::Closed,
                }),
            ),
    {
        let index = socket as usize;
        let next = match self.sockets[index] {
            SocketState::HalfClosed => SocketState::Closed,
            SocketState::Open => SocketState::HalfClosed,
            SocketState::Connected => SocketState::HalfClosed,
            SocketState::Closed => SocketState::Closed,
        };
        self.sockets[index] = next;
        proof {
            assert(self.sockets@ =~= old(self).sockets_spec().update(socket as int, next));
        }
    }

    /// Whether a socket is out of use (closed or half-closed).
    pub fn is_closed(&self, socket: u8) -> (r: bool)
        requires
            self.wf(),
            socket < SOCKET_COUNT,
        ensures
            r == (self.sockets_spec()[socket as int] == SocketState::Closed
                || self.sockets_spec()[socket as int] == SocketState::HalfClosed),
    {
        let index = socket as usize;
        self.sockets[index] == SocketState::Closed || self.sockets[index]
            == SocketState::HalfClosed
    }
}

} // verus!
