//! Actors, mailboxes and the per-actor dispatch step.
//!
//! An [`ActorContext`] owns one actor instance, its bounded FIFO mailbox of
//! pending [`Message`]s and its readiness counter. Producers enqueue work and
//! raise the counter; the executor pops one message per poll pass and drives
//! the actor's handler to completion or suspension. A handler suspends only
//! by deferring onto a completion cell; the dispatch step then registers the
//! actor's own slot as the cell's waker token, so that whoever fills the cell
//! knows which actor to make ready again.

use vstd::prelude::*;

use std::collections::VecDeque;

use crate::completion::CompletionHandle;
use crate::completion::sent;

verus! {

/// A framework-issued lifecycle event, delivered to every actor before any
/// ordinary traffic: `Initialize` first, then `Start`.
#[derive(Clone, Copy, PartialEq, Eq, Structural, Debug)]
pub enum Lifecycle {
    Initialize,
    Start,
}

/// A lightweight, copyable, non-owning handle to a registered actor: the
/// index of its slot in the executor's registration list.
#[derive(Clone, Copy, PartialEq, Eq, Structural, Debug)]
pub struct Address {
    pub index: usize,
}

/// What a notification or lifecycle handler reports: the operation finished
/// synchronously, or it suspended waiting on the signal cell with the given
/// index.
#[derive(Clone, Copy, PartialEq, Eq, Structural, Debug)]
pub enum Completion {
    Immediate,
    Defer(usize),
}

/// What a request handler reports: an immediate response, or a suspension
/// waiting on the signal cell with the given index; the response is produced
/// later by the resumed continuation.
#[derive(Debug)]
pub enum Response<R> {
    Immediate(R),
    Defer(usize),
}

/// How a request ended once its handler chain settled: a response was
/// delivered, the operation was abandoned (the handler deferred onto a cell
/// index that does not exist, a defect), or the actor is suspended waiting
/// on the given signal cell.
#[derive(Debug)]
pub enum Delivery<R> {
    Responded(R),
    Abandoned,
    Waiting(usize),
}

/// The capability set an actor implements. Handlers are deterministic
/// functions of the actor's state and the incoming message or signal; each
/// executable handler is pinned to its two spec-level projections (next state
/// and reported outcome), which is what lets the executor's contracts state
/// exactly what one poll pass does.
pub trait Actor: Sized {
    /// Payload of notifications and requests this actor accepts.
    type Message;

    /// Response type of requests.
    type Response;

    /// Value carried by the signal cells this actor's continuations wait on.
    type Signal;

    /// State after the actor stashed its own address at registration.
    spec fn started(self, address: Address) -> Self;

    /// State after a lifecycle event was handled.
    spec fn lifecycle_next(self, event: Lifecycle) -> Self;

    /// Outcome a lifecycle handler reports.
    spec fn lifecycle_completion(self, event: Lifecycle) -> Completion;

    /// State after a notification was handled.
    spec fn notify_next(self, message: Self::Message) -> Self;

    /// Outcome a notification handler reports.
    spec fn notify_completion(self, message: Self::Message) -> Completion;

    /// State after a request was handled.
    spec fn request_next(self, message: Self::Message) -> Self;

    /// Outcome a request handler reports.
    spec fn request_response(self, message: Self::Message) -> Response<Self::Response>;

    /// State after a suspended notification/lifecycle continuation consumed
    /// the signal value it was waiting on.
    spec fn notify_resume_next(self, signal: Self::Signal) -> Self;

    /// Outcome that continuation reports.
    spec fn notify_resume_completion(self, signal: Self::Signal) -> Completion;

    /// State after a suspended request continuation consumed the signal value
    /// it was waiting on.
    spec fn request_resume_next(self, signal: Self::Signal) -> Self;

    /// Outcome that continuation reports.
    spec fn request_resume_response(self, signal: Self::Signal) -> Response<Self::Response>;

    /// Called once at registration; the actor may stash its own address for
    /// later self-messaging.
    fn start(&mut self, address: Address)
        ensures
            *final(self) == old(self).started(address),
    ;

    /// Handle a lifecycle event (`Initialize` before `Start`).
    fn on_lifecycle(&mut self, event: Lifecycle) -> (c: Completion)
        ensures
            *final(self) == old(self).lifecycle_next(event),
            c == old(self).lifecycle_completion(event),
    ;

    /// Handle a fire-and-forget notification.
    fn on_notification(&mut self, message: Self::Message) -> (c: Completion)
        ensures
            *final(self) == old(self).notify_next(message),
            c == old(self).notify_completion(message),
    ;

    /// Handle a request; either answer immediately or defer to a
    /// sub-computation that waits on a signal cell.
    fn on_request(&mut self, message: Self::Message) -> (r: Response<Self::Response>)
        ensures
            *final(self) == old(self).request_next(message),
            r == old(self).request_response(message),
    ;

    /// Resume a suspended notification or lifecycle continuation with the
    /// signal value it was waiting on.
    fn on_notify_resume(&mut self, signal: Self::Signal) -> (c: Completion)
        ensures
            *final(self) == old(self).notify_resume_next(signal),
            c == old(self).notify_resume_completion(signal),
    ;

    /// Resume a suspended request continuation with the signal value it was
    /// waiting on.
    fn on_request_resume(&mut self, signal: Self::Signal) -> (r: Response<Self::Response>)
        ensures
            *final(self) == old(self).request_resume_next(signal),
            r == old(self).request_resume_response(signal),
    ;
}

/// The unit of work routed into an actor: a lifecycle event, a fire-and-forget
/// notification, or a request carrying the index of the response cell its
/// answer must be delivered to.
pub enum Message<A: Actor> {
    Lifecycle(Lifecycle),
    Notify(A::Message),
    Request(A::Message, usize),
}

/// The message currently being processed by an actor, suspended on the signal
/// cell `wait`; for a request, `respond` names the response cell owed an
/// answer.
#[derive(Clone, Copy, PartialEq, Eq, Structural, Debug)]
pub struct InProgress {
    pub wait: usize,
    pub respond: Option<usize>,
}

/// Mathematical model of an [`ActorContext`]: the actor's state, the mailbox
/// contents in FIFO order, the capacity, the readiness counter, the message
/// in progress, the actor's own slot, and three history variables — every
/// message ever submitted, every message whose processing has begun (in
/// order), and how many poll passes the actor has received.
#[verifier::ext_equal]
pub struct ActorModel<A: Actor> {
    pub actor: A,
    pub mailbox: Seq<Message<A>>,
    pub cap: nat,
    pub ready: nat,
    pub current: Option<InProgress>,
    pub slot: usize,
    pub irq: Option<u8>,
    pub submitted: Seq<Message<A>>,
    pub begun: Seq<Message<A>>,
    pub polls: nat,
}

/// Count of pending values across a block of signal cells; the measure that
/// bounds how long a continuation can keep resuming within one poll pass.
pub open spec fn values_count<T>(s: Seq<CompletionHandle<T>>) -> nat
    decreases s.len(),
{
    if s.len() == 0 {
        0
    } else {
        values_count(s.drop_last()) + (if s.last().value is Some {
            1nat
        } else {
            0nat
        })
    }
}

/// Replacing a cell that held a value with one that holds none strictly
/// decreases the count of pending values.
pub proof fn lemma_values_count_consume<T>(
    s: Seq<CompletionHandle<T>>,
    i: int,
    c2: CompletionHandle<T>,
)
    requires
        0 <= i < s.len(),
        s[i].value is Some,
        c2.value is None,
    ensures
        values_count(s.update(i, c2)) < values_count(s),
    decreases s.len(),
{
    if i == s.len() - 1 {
        assert(s.update(i, c2).drop_last() =~= s.drop_last());
    } else {
        assert(s.update(i, c2).drop_last() =~= s.drop_last().update(i, c2));
        lemma_values_count_consume(s.drop_last(), i, c2);
    }
}

/// Run a suspended notification/lifecycle continuation to rest: as long as
/// the outcome defers onto a cell that already holds a value, consume the
/// value and resume; stop when the outcome is immediate, the named cell does
/// not exist (the operation is then considered complete), or the named cell
/// is empty, in which case the actor's slot is registered as its waker.
/// Returns the actor's state, the signal cells, and the cell still waited on,
/// if any.
pub open spec fn notify_chain<A: Actor>(
    a: A,
    signals: Seq<CompletionHandle<A::Signal>>,
    c: Completion,
    slot: usize,
) -> (A, Seq<CompletionHandle<A::Signal>>, Option<usize>)
    decreases values_count(signals),
        via notify_chain_decreases::<A>
{
    match c {
        Completion::Immediate => (a, signals, None),
        Completion::Defer(ci) => {
            if ci >= signals.len() {
                (a, signals, None)
            } else {
                let cell = signals[ci as int];
                match cell.value {
                    Some(v) => notify_chain(
                        a.notify_resume_next(v),
                        signals.update(
                            ci as int,
                            (CompletionHandle { value: None, waiting: cell.waiting }),
                        ),
                        a.notify_resume_completion(v),
                        slot,
                    ),
                    None => (
                        a,
                        signals.update(
                            ci as int,
                            (CompletionHandle { value: None, waiting: Some(slot) }),
                        ),
                        Some(ci),
                    ),
                }
            }
        }
    }
}

#[via_fn]
proof fn notify_chain_decreases<A: Actor>(
    a: A,
    signals: Seq<CompletionHandle<A::Signal>>,
    c: Completion,
    slot: usize,
) {
    if let Completion::Defer(ci) = c {
        if ci < signals.len() && signals[ci as int].value is Some {
            lemma_values_count_consume(
                signals,
                ci as int,
                (CompletionHandle { value: None, waiting: signals[ci as int].waiting }),
            );
        }
    }
}

/// Run a request handler chain to rest, in the same way as [`notify_chain`];
/// the chain ends with a response, with abandonment (deferral onto a cell
/// that does not exist), or suspended on a cell.
pub open spec fn request_chain<A: Actor>(
    a: A,
    signals: Seq<CompletionHandle<A::Signal>>,
    r: Response<A::Response>,
    slot: usize,
) -> (A, Seq<CompletionHandle<A::Signal>>, Delivery<A::Response>)
    decreases values_count(signals),
        via request_chain_decreases::<A>
{
    match r {
        Response::Immediate(resp) => (a, signals, Delivery::Responded(resp)),
        Response::Defer(ci) => {
            if ci >= signals.len() {
                (a, signals, Delivery::Abandoned)
            } else {
                let cell = signals[ci as int];
                match cell.value {
                    Some(v) => request_chain(
                        a.request_resume_next(v),
                        signals.update(
                            ci as int,
                            (CompletionHandle { value: None, waiting: cell.waiting }),
                        ),
                        a.request_resume_response(v),
                        slot,
                    ),
                    None => (
                        a,
                        signals.update(
                            ci as int,
                            (CompletionHandle { value: None, waiting: Some(slot) }),
                        ),
                        Delivery::Waiting(ci),
                    ),
                }
            }
        }
    }
}

#[via_fn]
proof fn request_chain_decreases<A: Actor>(
    a: A,
    signals: Seq<CompletionHandle<A::Signal>>,
    r: Response<A::Response>,
    slot: usize,
) {
    if let Response::Defer(ci) = r {
        if ci < signals.len() && signals[ci as int].value is Some {
            lemma_values_count_consume(
                signals,
                ci as int,
                (CompletionHandle { value: None, waiting: signals[ci as int].waiting }),
            );
        }
    }
}

/// The suspension record a settled notification chain leaves behind.
pub open spec fn notify_chain_current(end: Option<usize>) -> Option<InProgress> {
    match end {
        Some(ci) => Some(InProgress { wait: ci, respond: None }),
        None => None,
    }
}

/// How a settled request chain updates the actor model and the response
/// cells: a response is written (last write wins) into the response cell the
/// request carried, an abandoned request completes inertly, and a suspension
/// is recorded as the message in progress.
pub open spec fn request_chain_finish<A: Actor>(
    a: ActorModel<A>,
    actor: A,
    responses: Seq<CompletionHandle<A::Response>>,
    del: Delivery<A::Response>,
    rc: usize,
) -> (ActorModel<A>, Seq<CompletionHandle<A::Response>>) {
    match del {
        Delivery::Responded(resp) => (
            (ActorModel { actor, current: None, ..a }),
            responses.update(rc as int, sent(responses[rc as int], resp)),
        ),
        Delivery::Abandoned => ((ActorModel { actor, current: None, ..a }), responses),
        Delivery::Waiting(ci) => (
            (ActorModel { actor, current: Some(InProgress { wait: ci, respond: Some(rc) }), ..a }),
            responses,
        ),
    }
}

/// One poll pass resuming the message in progress: if the awaited cell holds
/// a value, consume it and run the continuation chain; otherwise re-register
/// the actor's slot as the cell's waker and stay suspended.
pub open spec fn resume_step<A: Actor>(
    a: ActorModel<A>,
    signals: Seq<CompletionHandle<A::Signal>>,
    responses: Seq<CompletionHandle<A::Response>>,
    ip: InProgress,
) -> (ActorModel<A>, Seq<CompletionHandle<A::Signal>>, Seq<CompletionHandle<A::Response>>)
    recommends
        ip.wait < signals.len(),
{
    let cell = signals[ip.wait as int];
    match cell.value {
        None => (
            a,
            signals.update(
                ip.wait as int,
                (CompletionHandle { value: None, waiting: Some(a.slot) }),
            ),
            responses,
        ),
        Some(v) => {
            let consumed = signals.update(
                ip.wait as int,
                (CompletionHandle { value: None, waiting: cell.waiting }),
            );
            match ip.respond {
                None => {
                    let (a2, s2, end) = notify_chain(
                        a.actor.notify_resume_next(v),
                        consumed,
                        a.actor.notify_resume_completion(v),
                        a.slot,
                    );
                    ((ActorModel { actor: a2, current: notify_chain_current(end), ..a }), s2, responses)
                }
                Some(rc) => {
                    let (a2, s2, del) = request_chain(
                        a.actor.request_resume_next(v),
                        consumed,
                        a.actor.request_resume_response(v),
                        a.slot,
                    );
                    let (a3, r3) = request_chain_finish(a, a2, responses, del, rc);
                    (a3, s2, r3)
                }
            }
        }
    }
}

/// One poll pass beginning the next mailbox message: pop the FIFO head,
/// record it as begun, invoke the matching handler and run its chain.
pub open spec fn begin_step<A: Actor>(
    a: ActorModel<A>,
    signals: Seq<CompletionHandle<A::Signal>>,
    responses: Seq<CompletionHandle<A::Response>>,
) -> (ActorModel<A>, Seq<CompletionHandle<A::Signal>>, Seq<CompletionHandle<A::Response>>)
    recommends
        a.mailbox.len() > 0,
{
    let msg = a.mailbox[0];
    let a0 = ActorModel { mailbox: a.mailbox.drop_first(), begun: a.begun.push(msg), ..a };
    match msg {
        Message::Lifecycle(e) => {
            let (a2, s2, end) = notify_chain(
                a.actor.lifecycle_next(e),
                signals,
                a.actor.lifecycle_completion(e),
                a.slot,
            );
            ((ActorModel { actor: a2, current: notify_chain_current(end), ..a0 }), s2, responses)
        }
        Message::Notify(m) => {
            let (a2, s2, end) = notify_chain(
                a.actor.notify_next(m),
                signals,
                a.actor.notify_completion(m),
                a.slot,
            );
            ((ActorModel { actor: a2, current: notify_chain_current(end), ..a0 }), s2, responses)
        }
        Message::Request(m, rc) => {
            let (a2, s2, del) = request_chain(
                a.actor.request_next(m),
                signals,
                a.actor.request_response(m),
                a.slot,
            );
            let (a3, r3) = request_chain_finish(a0, a2, responses, del, rc);
            (a3, s2, r3)
        }
    }
}

/// One full poll pass of an actor (§4.2 of the design): resume the message in
/// progress if there is one, otherwise begin the next mailbox message if
/// there is one, otherwise an idle round; in every case the readiness counter
/// drops by exactly one and the poll count rises by one.
pub open spec fn context_poll_step<A: Actor>(
    a: ActorModel<A>,
    signals: Seq<CompletionHandle<A::Signal>>,
    responses: Seq<CompletionHandle<A::Response>>,
) -> (ActorModel<A>, Seq<CompletionHandle<A::Signal>>, Seq<CompletionHandle<A::Response>>)
    recommends
        a.ready >= 1,
{
    let (a1, s1, r1) = match a.current {
        Some(ip) => resume_step(a, signals, responses, ip),
        None => {
            if a.mailbox.len() > 0 {
                begin_step(a, signals, responses)
            } else {
                (a, signals, responses)
            }
        }
    };
    ((ActorModel { ready: (a1.ready - 1) as nat, polls: a1.polls + 1, ..a1 }), s1, r1)
}

/// A message submitted to an actor context: appended to the mailbox and to
/// the submission history, with the readiness counter raised by one.
pub open spec fn context_enqueue<A: Actor>(a: ActorModel<A>, m: Message<A>) -> ActorModel<A> {
    ActorModel {
        mailbox: a.mailbox.push(m),
        submitted: a.submitted.push(m),
        ready: (a.ready + 1) as nat,
        ..a
    }
}

/// Well-formedness of an actor context against blocks of `n_signals` signal
/// cells and `n_responses` response cells: the mailbox respects its capacity,
/// the history variables account for exactly the submitted messages, and
/// every cell index held by the context is in range.
pub open spec fn context_wf<A: Actor>(a: ActorModel<A>, n_signals: nat, n_responses: nat) -> bool {
    &&& a.mailbox.len() <= a.cap
    &&& a.begun + a.mailbox == a.submitted
    &&& (a.current matches Some(ip) ==> ip.wait < n_signals && (ip.respond matches Some(rc)
        ==> rc < n_responses))
    &&& (forall|k: int|
        0 <= k < a.mailbox.len() ==> (#[trigger] a.mailbox[k] matches Message::Request(_, rc)
            ==> rc < n_responses))
}

/// Enqueueing a message with room to spare preserves well-formedness,
/// provided a request names a response cell that exists.
pub proof fn lemma_context_enqueue_wf<A: Actor>(
    a: ActorModel<A>,
    m: Message<A>,
    n_signals: nat,
    n_responses: nat,
)
    requires
        context_wf(a, n_signals, n_responses),
        a.mailbox.len() < a.cap,
        m matches Message::Request(_, rc) ==> rc < n_responses,
    ensures
        context_wf(context_enqueue(a, m), n_signals, n_responses),
{
    let a2 = context_enqueue(a, m);
    assert(a2.begun + a2.mailbox =~= a2.submitted);
    assert forall|k: int| 0 <= k < a2.mailbox.len() implies (#[trigger] a2.mailbox[k] matches
    Message::Request(_, rc) ==> rc < n_responses) by {
        if k < a.mailbox.len() {
            assert(a2.mailbox[k] == a.mailbox[k]);
        }
    }
}

/// A settled notification chain leaves the block of signal cells the same
/// length, registers waker tokens equal only to the polling actor's slot, and
/// suspends, if at all, on a cell that exists.
pub proof fn lemma_notify_chain_props<A: Actor>(
    a: A,
    signals: Seq<CompletionHandle<A::Signal>>,
    c: Completion,
    slot: usize,
)
    ensures
        ({
            let (a2, s2, end) = notify_chain(a, signals, c, slot);
            &&& s2.len() == signals.len()
            &&& (end matches Some(ci) ==> ci < signals.len())
            &&& (forall|k: int|
                0 <= k < signals.len() ==> ((#[trigger] s2[k]).waiting == signals[k].waiting
                    || s2[k].waiting == Some(slot)))
        }),
    decreases values_count(signals),
{
    if let Completion::Defer(ci) = c {
        if ci < signals.len() {
            let cell = signals[ci as int];
            if let Some(v) = cell.value {
                let consumed = signals.update(
                    ci as int,
                    (CompletionHandle { value: None, waiting: cell.waiting }),
                );
                lemma_values_count_consume(signals, ci as int, consumed[ci as int]);
                lemma_notify_chain_props(
                    a.notify_resume_next(v),
                    consumed,
                    a.notify_resume_completion(v),
                    slot,
                );
            }
        }
    }
}

/// The request-chain counterpart of [`lemma_notify_chain_props`].
pub proof fn lemma_request_chain_props<A: Actor>(
    a: A,
    signals: Seq<CompletionHandle<A::Signal>>,
    r: Response<A::Response>,
    slot: usize,
)
    ensures
        ({
            let (a2, s2, del) = request_chain(a, signals, r, slot);
            &&& s2.len() == signals.len()
            &&& (del matches Delivery::Waiting(ci) ==> ci < signals.len())
            &&& (forall|k: int|
                0 <= k < signals.len() ==> ((#[trigger] s2[k]).waiting == signals[k].waiting
                    || s2[k].waiting == Some(slot)))
        }),
    decreases values_count(signals),
{
    if let Response::Defer(ci) = r {
        if ci < signals.len() {
            let cell = signals[ci as int];
            if let Some(v) = cell.value {
                let consumed = signals.update(
                    ci as int,
                    (CompletionHandle { value: None, waiting: cell.waiting }),
                );
                lemma_values_count_consume(signals, ci as int, consumed[ci as int]);
                lemma_request_chain_props(
                    a.request_resume_next(v),
                    consumed,
                    a.request_resume_response(v),
                    slot,
                );
            }
        }
    }
}

/// What one poll pass does to the actor model and the cell blocks: lengths
/// are preserved, well-formedness is preserved, the readiness counter drops
/// by exactly one, the poll count rises by one, the submission history and
/// the identity fields are untouched, and the only waker token the pass can
/// register is the actor's own slot.
pub proof fn lemma_context_poll_step_props<A: Actor>(
    a: ActorModel<A>,
    signals: Seq<CompletionHandle<A::Signal>>,
    responses: Seq<CompletionHandle<A::Response>>,
)
    requires
        a.ready >= 1,
        context_wf(a, signals.len() as nat, responses.len() as nat),
    ensures
        ({
            let (a2, s2, r2) = context_poll_step(a, signals, responses);
            &&& context_wf(a2, s2.len() as nat, r2.len() as nat)
            &&& s2.len() == signals.len()
            &&& r2.len() == responses.len()
            &&& a2.ready == a.ready - 1
            &&& a2.polls == a.polls + 1
            &&& a2.submitted == a.submitted
            &&& a2.cap == a.cap
            &&& a2.slot == a.slot
            &&& (forall|k: int|
                0 <= k < signals.len() ==> ((#[trigger] s2[k]).waiting == signals[k].waiting
                    || s2[k].waiting == Some(a.slot)))
        }),
{
    match a.current {
        Some(ip) => {
            let cell = signals[ip.wait as int];
            match cell.value {
                None => {}
                Some(v) => {
                    let consumed = signals.update(
                        ip.wait as int,
                        (CompletionHandle { value: None, waiting: cell.waiting }),
                    );
                    match ip.respond {
                        None => {
                            lemma_notify_chain_props(
                                a.actor.notify_resume_next(v),
                                consumed,
                                a.actor.notify_resume_completion(v),
                                a.slot,
                            );
                        }
                        Some(rc) => {
                            lemma_request_chain_props(
                                a.actor.request_resume_next(v),
                                consumed,
                                a.actor.request_resume_response(v),
                                a.slot,
                            );
                        }
                    }
                }
            }
        }
        None => {
            if a.mailbox.len() > 0 {
                let msg = a.mailbox[0];
                assert(a.begun.push(msg) + a.mailbox.drop_first() =~= a.submitted);
                assert forall|k: int| 0 <= k < a.mailbox.drop_first().len() implies (
                #[trigger] a.mailbox.drop_first()[k] matches Message::Request(_, rc) ==> rc
                    < responses.len()) by {
                    assert(a.mailbox.drop_first()[k] == a.mailbox[k + 1]);
                }
                match msg {
                    Message::Lifecycle(e) => {
                        lemma_notify_chain_props(
                            a.actor.lifecycle_next(e),
                            signals,
                            a.actor.lifecycle_completion(e),
                            a.slot,
                        );
                    }
                    Message::Notify(m) => {
                        lemma_notify_chain_props(
                            a.actor.notify_next(m),
                            signals,
                            a.actor.notify_completion(m),
                            a.slot,
                        );
                    }
                    Message::Request(m, rc) => {
                        lemma_request_chain_props(
                            a.actor.request_next(m),
                            signals,
                            a.actor.request_response(m),
                            a.slot,
                        );
                    }
                }
            }
        }
    }
}

/// FIFO history: the messages an actor has begun processing are exactly the
/// first `begun.len()` messages submitted to it, in submission order.
pub proof fn law_fifo<A: Actor>(a: ActorModel<A>, n_signals: nat, n_responses: nat)
    requires
        context_wf(a, n_signals, n_responses),
    ensures
        a.begun == a.submitted.take(a.begun.len() as int),
{
    assert(a.begun =~= a.submitted.take(a.begun.len() as int));
}

/// Owns one actor instance, its bounded FIFO mailbox and its readiness state.
/// Created once at start-up; producers holding an [`Address`] reach it only
/// through the executor that registered it.
pub struct ActorContext<A: Actor> {
    actor: A,
    mailbox: VecDeque<Message<A>>,
    cap: usize,
    ready: usize,
    current: Option<InProgress>,
    slot: usize,
    irq: Option<u8>,
    submitted: Ghost<Seq<Message<A>>>,
    begun: Ghost<Seq<Message<A>>>,
    polls: Ghost<nat>,
}

impl<A: Actor> View for ActorContext<A> {
    type V = ActorModel<A>;

    closed spec fn view(&self) -> ActorModel<A> {
        ActorModel {
            actor: self.actor,
            mailbox: self.mailbox@,
            cap: self.cap as nat,
            ready: self.ready as nat,
            current: self.current,
            slot: self.slot,
            irq: self.irq,
            submitted: self.submitted@,
            begun: self.begun@,
            polls: self.polls@,
        }
    }
}

impl<A: Actor> ActorContext<A> {
    /// A fresh context around `actor`, with an empty mailbox of the given
    /// fixed capacity, not yet registered with any executor.
    pub fn new(actor: A, cap: usize) -> (ctx: Self)
        ensures
            ctx@ == (ActorModel {
                actor,
                mailbox: Seq::<Message<A>>::empty(),
                cap: cap as nat,
                ready: 0,
                current: None::<InProgress>,
                slot: 0,
                irq: None::<u8>,
                submitted: Seq::<Message<A>>::empty(),
                begun: Seq::<Message<A>>::empty(),
                polls: 0,
            }),
    {
        ActorContext {
            actor,
            mailbox: VecDeque::new(),
            cap,
            ready: 0,
            current: None,
            slot: 0,
            irq: None,
            submitted: Ghost(Seq::empty()),
            begun: Ghost(Seq::empty()),
            polls: Ghost(0),
        }
    }

    /// A fresh context for an actor bound to the hardware interrupt line
    /// `irq`; unmasking the line in the interrupt controller is the platform
    /// layer's concern.
    pub fn new_interrupt(actor: A, cap: usize, irq: u8) -> (ctx: Self)
        ensures
            ctx@ == (ActorModel {
                actor,
                mailbox: Seq::<Message<A>>::empty(),
                cap: cap as nat,
                ready: 0,
                current: None::<InProgress>,
                slot: 0,
                irq: Some(irq),
                submitted: Seq::<Message<A>>::empty(),
                begun: Seq::<Message<A>>::empty(),
                polls: 0,
            }),
    {
        ActorContext {
            actor,
            mailbox: VecDeque::new(),
            cap,
            ready: 0,
            current: None,
            slot: 0,
            irq: Some(irq),
            submitted: Ghost(Seq::empty()),
            begun: Ghost(Seq::empty()),
            polls: Ghost(0),
        }
    }

    /// Read access to the owned actor instance; the executor sweep is the
    /// single writer.
    pub fn actor_ref(&self) -> (a: &A)
        ensures
            *a == self@.actor,
    {
        &self.actor
    }

    /// The interrupt line this actor is bound to, if any.
    pub fn irq(&self) -> (r: Option<u8>)
        ensures
            r == self@.irq,
    {
        self.irq
    }

    /// Whether the readiness counter is at or above the ready threshold.
    pub fn is_ready(&self) -> (r: bool)
        ensures
            r == (self@.ready >= 1),
    {
        self.ready >= 1
    }

    /// Whether the actor is waiting, with no outstanding wake.
    pub fn is_waiting(&self) -> (r: bool)
        ensures
            r == (self@.ready == 0),
    {
        self.ready == 0
    }

    /// Record the slot the executor registered this context under and hand
    /// the actor its own address.
    pub(crate) fn register(&mut self, slot: usize)
        ensures
            final(self)@ == (ActorModel {
                slot,
                actor: old(self)@.actor.started(Address { index: slot }),
                ..old(self)@
            }),
    {
        self.slot = slot;
        self.actor.start(Address { index: slot });
    }

    /// Enqueue a message, raising the readiness counter. Enqueue beyond
    /// capacity is a configuration defect, excluded here; producers that
    /// cannot guarantee room use [`ActorContext::try_enqueue`].
    pub(crate) fn enqueue(&mut self, m: Message<A>)
        requires
            old(self)@.mailbox.len() < old(self)@.cap,
            old(self)@.ready < usize::MAX,
        ensures
            final(self)@ == context_enqueue(old(self)@, m),
    {
        let ghost gm = m;
        self.mailbox.push_back(m);
        self.ready = self.ready + 1;
        proof {
            self.submitted@ = self.submitted@.push(gm);
        }
    }

    /// Enqueue a message if the mailbox has room; report whether it was
    /// accepted. A rejected message leaves the context unchanged.
    pub(crate) fn try_enqueue(&mut self, m: Message<A>) -> (accepted: bool)
        requires
            old(self)@.ready < usize::MAX,
        ensures
            accepted == (old(self)@.mailbox.len() < old(self)@.cap),
            accepted ==> final(self)@ == context_enqueue(old(self)@, m),
            !accepted ==> final(self)@ == old(self)@,
    {
        if self.mailbox.len() < self.cap {
            self.enqueue(m);
            true
        } else {
            false
        }
    }

    /// Raise the readiness counter by one: the wake operation, safe to issue
    /// from an interrupt handler since it touches nothing but the counter.
    pub(crate) fn wake(&mut self)
        requires
            old(self)@.ready < usize::MAX,
        ensures
            final(self)@ == (ActorModel { ready: (old(self)@.ready + 1) as nat, ..old(self)@ }),
    {
        self.ready = self.ready + 1;
    }

    /// Run a settled or suspended notification/lifecycle chain to rest
    /// against the signal cells.
    #[verifier::loop_isolation(false)]
    fn run_notify_chain(
        actor: &mut A,
        signals: &mut Vec<CompletionHandle<A::Signal>>,
        c: Completion,
        slot: usize,
    ) -> (end: Option<usize>)
        ensures
            notify_chain(*old(actor), old(signals)@, c, slot) == (
                *final(actor),
                final(signals)@,
                end,
            ),
    {
        let ghost a0 = *actor;
        let ghost s0 = signals@;
        let mut cur = c;
        loop
            invariant
                notify_chain(*actor, signals@, cur, slot) == notify_chain(a0, s0, c, slot),
            decreases values_count(signals@),
        {
            let ghost s_iter = signals@;
            match cur {
                Completion::Immediate => {
                    return None;
                }
                Completion::Defer(ci) => {
                    if ci >= signals.len() {
                        return None;
                    }
                    let cell = &mut signals[ci];
                    let got = cell.poll(Some(slot));
                    match got {
                        None => {
                            return Some(ci);
                        }
                        Some(v) => {
                            proof {
                                lemma_values_count_consume(s_iter, ci as int, signals@[ci as int]);
                            }
                            cur = actor.on_notify_resume(v);
                        }
                    }
                }
            }
        }
    }

    /// Run a settled or suspended request chain to rest against the signal
    /// cells.
    #[verifier::loop_isolation(false)]
    fn run_request_chain(
        actor: &mut A,
        signals: &mut Vec<CompletionHandle<A::Signal>>,
        r: Response<A::Response>,
        slot: usize,
    ) -> (end: Delivery<A::Response>)
        ensures
            request_chain(*old(actor), old(signals)@, r, slot) == (
                *final(actor),
                final(signals)@,
                end,
            ),
    {
        let ghost a0 = *actor;
        let ghost s0 = signals@;
        let mut cur = r;
        loop
            invariant
                request_chain(*actor, signals@, cur, slot) == request_chain(a0, s0, r, slot),
            decreases values_count(signals@),
        {
            let ghost s_iter = signals@;
            match cur {
                Response::Immediate(resp) => {
                    return Delivery::Responded(resp);
                }
                Response::Defer(ci) => {
                    if ci >= signals.len() {
                        return Delivery::Abandoned;
                    }
                    let cell = &mut signals[ci];
                    let got = cell.poll(Some(slot));
                    match got {
                        None => {
                            return Delivery::Waiting(ci);
                        }
                        Some(v) => {
                            proof {
                                lemma_values_count_consume(s_iter, ci as int, signals@[ci as int]);
                            }
                            cur = actor.on_request_resume(v);
                        }
                    }
                }
            }
        }
    }

    /// One poll pass (§4.2): resume the message in progress or begin the next
    /// mailbox message, then drop the readiness counter by one. The actor is
    /// still ready for another pass if the counter stays at or above one, so
    /// a wake that overlapped several enqueues is drained as several rounds
    /// rather than lost.
    pub fn do_poll(
        &mut self,
        signals: &mut Vec<CompletionHandle<A::Signal>>,
        responses: &mut Vec<CompletionHandle<A::Response>>,
    )
        requires
            old(self)@.ready >= 1,
            context_wf(old(self)@, old(signals)@.len() as nat, old(responses)@.len() as nat),
        ensures
            (final(self)@, final(signals)@, final(responses)@) == context_poll_step(
                old(self)@,
                old(signals)@,
                old(responses)@,
            ),
    {
        match self.current {
            Some(ip) => {
                let cell = &mut signals[ip.wait];
                let got = cell.poll(Some(self.slot));
                match got {
                    None => {}
                    Some(v) => {
                        match ip.respond {
                            None => {
                                let c = self.actor.on_notify_resume(v);
                                let end = Self::run_notify_chain(
                                    &mut self.actor,
                                    signals,
                                    c,
                                    self.slot,
                                );
                                self.current = match end {
                                    Some(ci) => Some(InProgress { wait: ci, respond: None }),
                                    None => None,
                                };
                            }
                            Some(rc) => {
                                let resp = self.actor.on_request_resume(v);
                                let end = Self::run_request_chain(
                                    &mut self.actor,
                                    signals,
                                    resp,
                                    self.slot,
                                );
                                match end {
                                    Delivery::Responded(resp) => {
                                        self.current = None;
                                        let rcell = &mut responses[rc];
                                        let _w = rcell.send(resp);
                                    }
                                    Delivery::Abandoned => {
                                        self.current = None;
                                    }
                                    Delivery::Waiting(ci) => {
                                        self.current = Some(
                                            InProgress { wait: ci, respond: Some(rc) },
                                        );
                                    }
                                }
                            }
                        }
                    }
                }
            }
            None => {
                let next = self.mailbox.pop_front();
                match next {
                    None => {}
                    Some(msg) => {
                        let ghost gmsg = msg;
                        proof {
                            self.begun@ = self.begun@.push(gmsg);
                        }
                        match msg {
                            Message::Lifecycle(e) => {
                                let c = self.actor.on_lifecycle(e);
                                let end = Self::run_notify_chain(
                                    &mut self.actor,
                                    signals,
                                    c,
                                    self.slot,
                                );
                                self.current = match end {
                                    Some(ci) => Some(InProgress { wait: ci, respond: None }),
                                    None => None,
                                };
                            }
                            Message::Notify(m) => {
                                let c = self.actor.on_notification(m);
                                let end = Self::run_notify_chain(
                                    &mut self.actor,
                                    signals,
                                    c,
                                    self.slot,
                                );
                                self.current = match end {
                                    Some(ci) => Some(InProgress { wait: ci, respond: None }),
                                    None => None,
                                };
                            }
                            Message::Request(m, rc) => {
                                let resp = self.actor.on_request(m);
                                let end = Self::run_request_chain(
                                    &mut self.actor,
                                    signals,
                                    resp,
                                    self.slot,
                                );
                                match end {
                                    Delivery::Responded(resp) => {
                                        self.current = None;
                                        let rcell = &mut responses[rc];
                                        let _w = rcell.send(resp);
                                    }
                                    Delivery::Abandoned => {
                                        self.current = None;
                                    }
                                    Delivery::Waiting(ci) => {
                                        self.current = Some(
                                            InProgress { wait: ci, respond: Some(rc) },
                                        );
                                    }
                                }
                            }
                        }
                    }
                }
            }
        }
        self.ready = self.ready - 1;
        proof {
            self.polls@ = self.polls@ + 1;
        }
    }
}

} // verus!
