//! Cooperative executor over a registered set of actors.
//!
//! The [`ActorExecutor`] owns the registration list of actor contexts, the
//! signal cells their continuations wait on, and the response cells requests
//! are answered through. Producers enqueue through [`Address`]es; interrupt
//! handlers deliver hardware completions through [`ActorExecutor::signal`];
//! the scheduler repeatedly sweeps the registered actors in registration
//! order, polling every ready one, until the system is quiescent.

use vstd::prelude::*;

use crate::actor::Actor;
use crate::actor::ActorContext;
use crate::actor::ActorModel;
use crate::actor::Address;
use crate::actor::Lifecycle;
use crate::actor::Message;
use crate::actor::context_enqueue;
use crate::actor::context_poll_step;
use crate::actor::context_wf;
use crate::completion::CompletionHandle;
use crate::completion::polled;
use crate::completion::sent;

verus! {

/// How many actor contexts one executor can register.
pub const EXECUTOR_CAPACITY: usize = 16;

/// Mathematical model of a whole executor: the registered actors in
/// registration order, the registration capacity, and the two blocks of
/// completion cells.
#[verifier::ext_equal]
pub struct ExecutorModel<A: Actor> {
    pub actors: Seq<ActorModel<A>>,
    pub cap: nat,
    pub signals: Seq<CompletionHandle<A::Signal>>,
    pub responses: Seq<CompletionHandle<A::Response>>,
}

/// Well-formedness of an executor: the registration list respects its
/// capacity, every registered context is well formed against the cell blocks,
/// every context knows its own slot, and every waker token registered in a
/// signal cell names a registered actor.
pub open spec fn wf<A: Actor>(m: ExecutorModel<A>) -> bool {
    &&& m.actors.len() <= m.cap
    &&& (forall|i: int|
        0 <= i < m.actors.len() ==> context_wf(
            #[trigger] m.actors[i],
            m.signals.len() as nat,
            m.responses.len() as nat,
        ))
    &&& (forall|i: int| 0 <= i < m.actors.len() ==> (#[trigger] m.actors[i]).slot == i)
    &&& (forall|c: int|
        0 <= c < m.signals.len() ==> ((#[trigger] m.signals[c]).waiting matches Some(j) ==> j
            < m.actors.len()))
}

/// No registered actor has outstanding work.
pub open spec fn quiescent<A: Actor>(m: ExecutorModel<A>) -> bool {
    forall|i: int| 0 <= i < m.actors.len() ==> (#[trigger] m.actors[i]).ready == 0
}

/// Sum of the readiness counters: the measure that bounds how much polling
/// remains before quiescence.
pub open spec fn total_ready<A: Actor>(actors: Seq<ActorModel<A>>) -> nat
    decreases actors.len(),
{
    if actors.len() == 0 {
        0
    } else {
        total_ready(actors.drop_last()) + actors.last().ready
    }
}

/// An executor after a message was enqueued to the actor in slot `i`.
pub open spec fn enqueued_at<A: Actor>(
    m: ExecutorModel<A>,
    i: int,
    msg: Message<A>,
) -> ExecutorModel<A> {
    ExecutorModel { actors: m.actors.update(i, context_enqueue(m.actors[i], msg)), ..m }
}

/// An executor after a request was issued to the actor in slot `i`: a fresh
/// response cell is appended and the request, carrying that cell's index, is
/// enqueued.
pub open spec fn requested<A: Actor>(
    m: ExecutorModel<A>,
    i: int,
    msg: A::Message,
) -> ExecutorModel<A> {
    let rc = m.responses.len();
    ExecutorModel {
        actors: m.actors.update(
            i,
            context_enqueue(m.actors[i], Message::Request(msg, rc as usize)),
        ),
        responses: m.responses.push(CompletionHandle { value: None, waiting: None }),
        ..m
    }
}

/// An executor after a value was delivered into signal cell `c`: the value is
/// stored (last write wins) and the registered waiting actor, if any, has its
/// readiness counter raised by one.
pub open spec fn signaled<A: Actor>(
    m: ExecutorModel<A>,
    c: int,
    v: A::Signal,
) -> ExecutorModel<A> {
    let m2 = ExecutorModel { signals: m.signals.update(c, sent(m.signals[c], v)), ..m };
    match m.signals[c].waiting {
        Some(j) => ExecutorModel {
            actors: m2.actors.update(
                j as int,
                (ActorModel { ready: (m.actors[j as int].ready + 1) as nat, ..m.actors[j as int] }),
            ),
            ..m2
        },
        None => m2,
    }
}

/// An executor after one poll pass of the actor in slot `i`.
pub open spec fn poll_step<A: Actor>(m: ExecutorModel<A>, i: int) -> ExecutorModel<A> {
    let (a2, s2, r2) = context_poll_step(m.actors[i], m.signals, m.responses);
    ExecutorModel { actors: m.actors.update(i, a2), signals: s2, responses: r2, ..m }
}

/// One full sweep from slot `i` to the end of the registration list, polling
/// every actor whose readiness counter is at or above the ready threshold.
pub open spec fn sweep_spec<A: Actor>(m: ExecutorModel<A>, i: int) -> ExecutorModel<A>
    decreases m.actors.len() - i,
{
    if i < 0 || i >= m.actors.len() {
        m
    } else {
        let m2 = if m.actors[i].ready >= 1 {
            poll_step(m, i)
        } else {
            m
        };
        sweep_spec(m2, i + 1)
    }
}

/// Repeated full sweeps until no actor is ready: the deterministic function
/// the executor's run loop computes.
pub open spec fn run_spec<A: Actor>(m: ExecutorModel<A>) -> ExecutorModel<A>
    decreases total_ready(m.actors),
        when wf(m)
        via run_spec_decreases::<A>
{
    if quiescent(m) {
        m
    } else {
        run_spec(sweep_spec(m, 0))
    }
}

/// An executor after a lifecycle event was pushed to every registered actor.
pub open spec fn dispatched<A: Actor>(m: ExecutorModel<A>, e: Lifecycle) -> ExecutorModel<A> {
    ExecutorModel {
        actors: m.actors.map_values(|a: ActorModel<A>| context_enqueue(a, Message::Lifecycle(e))),
        ..m
    }
}

/// Growing the cell blocks never invalidates a context.
pub proof fn lemma_context_wf_monotone<A: Actor>(
    a: ActorModel<A>,
    ns1: nat,
    nr1: nat,
    ns2: nat,
    nr2: nat,
)
    requires
        context_wf(a, ns1, nr1),
        ns1 <= ns2,
        nr1 <= nr2,
    ensures
        context_wf(a, ns2, nr2),
{
}

/// Updating one actor relates the readiness sum of the old and new lists.
pub proof fn lemma_total_ready_update<A: Actor>(
    s: Seq<ActorModel<A>>,
    i: int,
    a2: ActorModel<A>,
)
    requires
        0 <= i < s.len(),
    ensures
        total_ready(s.update(i, a2)) + s[i].ready == total_ready(s) + a2.ready,
    decreases s.len(),
{
    if i == s.len() - 1 {
        assert(s.update(i, a2).drop_last() =~= s.drop_last());
    } else {
        assert(s.update(i, a2).drop_last() =~= s.drop_last().update(i, a2));
        lemma_total_ready_update(s.drop_last(), i, a2);
    }
}

/// An actor with a readiness counter above zero contributes to the sum, so
/// the sum bounds every individual counter.
pub proof fn lemma_total_ready_bound<A: Actor>(s: Seq<ActorModel<A>>, i: int)
    requires
        0 <= i < s.len(),
    ensures
        s[i].ready <= total_ready(s),
    decreases s.len(),
{
    if i == s.len() - 1 {
    } else {
        lemma_total_ready_bound(s.drop_last(), i);
    }
}

/// What one poll pass does at the executor level: only the polled actor's
/// model changes; its readiness counter drops by exactly one and its poll
/// count rises by one; its submission history is untouched; well-formedness
/// is preserved; and the readiness sum drops by exactly one.
pub proof fn lemma_poll_step_props<A: Actor>(m: ExecutorModel<A>, i: int)
    requires
        wf(m),
        0 <= i < m.actors.len(),
        m.actors[i].ready >= 1,
    ensures
        ({
            let m2 = poll_step(m, i);
            &&& wf(m2)
            &&& m2.actors.len() == m.actors.len()
            &&& m2.cap == m.cap
            &&& m2.signals.len() == m.signals.len()
            &&& m2.responses.len() == m.responses.len()
            &&& m2.actors[i].ready == m.actors[i].ready - 1
            &&& m2.actors[i].polls == m.actors[i].polls + 1
            &&& m2.actors[i].submitted == m.actors[i].submitted
            &&& m2.actors[i].cap == m.actors[i].cap
            &&& m2.actors[i].slot == m.actors[i].slot
            &&& (forall|j: int|
                0 <= j < m.actors.len() && j != i ==> #[trigger] m2.actors[j] == m.actors[j])
            &&& total_ready(m2.actors) + 1 == total_ready(m.actors)
        }),
{
    let a = m.actors[i];
    crate::actor::lemma_context_poll_step_props(a, m.signals, m.responses);
    let (a2, s2, r2) = context_poll_step(a, m.signals, m.responses);
    let m2 = poll_step(m, i);
    lemma_total_ready_update(m.actors, i, a2);
    assert forall|c: int| 0 <= c < m2.signals.len() implies ((#[trigger] m2.signals[c]).waiting
        matches Some(j) ==> j < m2.actors.len()) by {
        assert(s2[c].waiting == m.signals[c].waiting || s2[c].waiting == Some(a.slot));
    }
}

/// What one sweep from slot `i` does: slots before `i` are untouched; each
/// slot from `i` on is polled exactly once if it was ready and not at all
/// otherwise, so per actor the sum of poll count and readiness counter is
/// conserved; well-formedness is preserved.
pub proof fn lemma_sweep_props<A: Actor>(m: ExecutorModel<A>, i: int)
    requires
        wf(m),
        0 <= i <= m.actors.len(),
    ensures
        ({
            let m2 = sweep_spec(m, i);
            &&& wf(m2)
            &&& m2.actors.len() == m.actors.len()
            &&& m2.cap == m.cap
            &&& m2.signals.len() == m.signals.len()
            &&& m2.responses.len() == m.responses.len()
            &&& (forall|j: int| 0 <= j < i ==> #[trigger] m2.actors[j] == m.actors[j])
            &&& (forall|j: int|
                i <= j < m.actors.len() ==> ((#[trigger] m2.actors[j]).ready == (
                if m.actors[j].ready >= 1 {
                    (m.actors[j].ready - 1) as nat
                } else {
                    0nat
                }) && m2.actors[j].polls + m2.actors[j].ready == m.actors[j].polls
                    + m.actors[j].ready && m2.actors[j].submitted == m.actors[j].submitted
                    && m2.actors[j].cap == m.actors[j].cap))
            &&& total_ready(m2.actors) <= total_ready(m.actors)
            &&& ((exists|j: int| i <= j < m.actors.len() && (#[trigger] m.actors[j]).ready >= 1)
                ==> total_ready(m2.actors) < total_ready(m.actors))
        }),
    decreases m.actors.len() - i,
{
    if i < m.actors.len() {
        if m.actors[i].ready >= 1 {
            lemma_poll_step_props(m, i);
            lemma_sweep_props(poll_step(m, i), i + 1);
        } else {
            lemma_sweep_props(m, i + 1);
        }
    }
}

#[via_fn]
proof fn run_spec_decreases<A: Actor>(m: ExecutorModel<A>) {
    if !quiescent(m) {
        lemma_sweep_props(m, 0);
    }
}

/// What a full run to quiescence does: it reaches a quiescent, well-formed
/// state; per actor, the number of poll passes it received is exactly the
/// readiness counter it started with, and its submission history is
/// untouched.
pub proof fn lemma_run_spec_props<A: Actor>(m: ExecutorModel<A>)
    requires
        wf(m),
    ensures
        ({
            let m2 = run_spec(m);
            &&& wf(m2)
            &&& quiescent(m2)
            &&& m2.actors.len() == m.actors.len()
            &&& m2.cap == m.cap
            &&& (forall|j: int|
                0 <= j < m.actors.len() ==> ((#[trigger] m2.actors[j]).polls == m.actors[j].polls
                    + m.actors[j].ready && m2.actors[j].submitted == m.actors[j].submitted
                    && m2.actors[j].cap == m.actors[j].cap))
        }),
    decreases total_ready(m.actors),
{
    if quiescent(m) {
    } else {
        lemma_sweep_props(m, 0);
        assert(exists|j: int|
            0 <= j < m.actors.len() && (#[trigger] m.actors[j]).ready >= 1) by {
            let j = choose|j: int|
                0 <= j < m.actors.len() && (#[trigger] m.actors[j]).ready != 0;
            assert(m.actors[j].ready >= 1);
        }
        lemma_run_spec_props(sweep_spec(m, 0));
    }
}

/// Readiness conservation: between one state and the quiescent state the run
/// reaches, an actor whose counter was raised N times is polled exactly N
/// more times — at least once when N is positive, never when N is zero.
pub proof fn law_readiness_conservation<A: Actor>(m: ExecutorModel<A>, j: int)
    requires
        wf(m),
        0 <= j < m.actors.len(),
    ensures
        run_spec(m).actors[j].polls == m.actors[j].polls + m.actors[j].ready,
        run_spec(m).actors[j].ready == 0,
{
    lemma_run_spec_props(m);
}

/// Quiescence: a run from a well-formed state reaches quiescence, and a
/// quiescent state is a fixed point of running — there is no re-readying
/// without new input.
pub proof fn law_quiescence<A: Actor>(m: ExecutorModel<A>)
    requires
        wf(m),
    ensures
        quiescent(run_spec(m)),
        run_spec(run_spec(m)) == run_spec(m),
{
    lemma_run_spec_props(m);
}

/// FIFO order: in any well-formed executor, the messages an actor has begun
/// processing are exactly the first messages submitted to it, in submission
/// order, whatever interleaving of producers and poll passes led here.
pub proof fn law_fifo_order<A: Actor>(m: ExecutorModel<A>, i: int)
    requires
        wf(m),
        0 <= i < m.actors.len(),
    ensures
        m.actors[i].begun == m.actors[i].submitted.take(m.actors[i].begun.len() as int),
{
    crate::actor::law_fifo(m.actors[i], m.signals.len() as nat, m.responses.len() as nat);
}

/// Request/response correctness: when an actor whose handler answers request
/// `msg` immediately with `resp` is polled with that request at the head of
/// its mailbox, exactly the response cell the request carried receives
/// `resp`; every other response cell is untouched, so no other pending
/// request can observe it.
pub proof fn law_request_response<A: Actor>(
    m: ExecutorModel<A>,
    i: int,
    msg: A::Message,
    rc: usize,
    resp: A::Response,
)
    requires
        wf(m),
        0 <= i < m.actors.len(),
        m.actors[i].ready >= 1,
        m.actors[i].current is None,
        m.actors[i].mailbox.len() > 0,
        m.actors[i].mailbox[0] == Message::<A>::Request(msg, rc),
        m.actors[i].actor.request_response(msg) == crate::actor::Response::<
            A::Response,
        >::Immediate(resp),
    ensures
        poll_step(m, i).responses[rc as int].value == Some(resp),
        forall|k: int|
            0 <= k < m.responses.len() && k != rc ==> poll_step(m, i).responses[k]
                == m.responses[k],
        poll_step(m, i).actors[i].actor == m.actors[i].actor.request_next(msg),
        poll_step(m, i).actors[i].current is None,
{
}

/// A registered actor context together with its registration bookkeeping:
/// one entry of the executor's supervision list.
pub struct Supervised<A: Actor> {
    context: ActorContext<A>,
}

impl<A: Actor> View for Supervised<A> {
    type V = ActorModel<A>;

    closed spec fn view(&self) -> ActorModel<A> {
        self.context@
    }
}

impl<A: Actor> Supervised<A> {
    /// Wrap a context for supervision.
    pub fn new(context: ActorContext<A>) -> (s: Self)
        ensures
            s@ == context@,
    {
        Supervised { context }
    }

    /// Poll the supervised actor once if it is ready; report whether a poll
    /// pass was made.
    pub fn poll(
        &mut self,
        signals: &mut Vec<CompletionHandle<A::Signal>>,
        responses: &mut Vec<CompletionHandle<A::Response>>,
    ) -> (progressed: bool)
        requires
            old(self)@.ready >= 1 ==> context_wf(
                old(self)@,
                old(signals)@.len() as nat,
                old(responses)@.len() as nat,
            ),
        ensures
            progressed == (old(self)@.ready >= 1),
            progressed ==> (final(self)@, final(signals)@, final(responses)@)
                == context_poll_step(old(self)@, old(signals)@, old(responses)@),
            !progressed ==> final(self)@ == old(self)@ && final(signals)@ == old(signals)@
                && final(responses)@ == old(responses)@,
    {
        if self.context.is_ready() {
            self.context.do_poll(signals, responses);
            true
        } else {
            false
        }
    }

    /// Read access to the supervised actor instance.
    pub fn actor_ref(&self) -> (a: &A)
        ensures
            *a == self@.actor,
    {
        self.context.actor_ref()
    }

    /// Push a lifecycle event into the supervised actor's mailbox.
    pub fn dispatch_lifecycle_event(&mut self, event: Lifecycle)
        requires
            old(self)@.mailbox.len() < old(self)@.cap,
            old(self)@.ready < usize::MAX,
        ensures
            final(self)@ == context_enqueue(old(self)@, Message::Lifecycle(event)),
    {
        self.context.enqueue(Message::Lifecycle(event));
    }
}

/// The models of a supervision list, in registration order.
pub open spec fn views_of<A: Actor>(s: Seq<Supervised<A>>) -> Seq<ActorModel<A>> {
    s.map_values(|x: Supervised<A>| x@)
}

/// One entry's model is the model list's entry.
pub proof fn lemma_views_of_index<A: Actor>(s: Seq<Supervised<A>>, i: int)
    requires
        0 <= i < s.len(),
    ensures
        views_of(s)[i] == s[i]@,
{
}

/// Updating one supervised entry updates exactly its model.
pub proof fn lemma_views_of_update<A: Actor>(s: Seq<Supervised<A>>, i: int, x: Supervised<A>)
    requires
        0 <= i < s.len(),
    ensures
        views_of(s.update(i, x)) == views_of(s).update(i, x@),
{
    assert(views_of(s.update(i, x)) =~= views_of(s).update(i, x@));
}

/// Appending a supervised entry appends exactly its model.
pub proof fn lemma_views_of_push<A: Actor>(s: Seq<Supervised<A>>, x: Supervised<A>)
    ensures
        views_of(s.push(x)) == views_of(s).push(x@),
{
    assert(views_of(s.push(x)) =~= views_of(s).push(x@));
}

/// The private completion cell a request left behind; polling it through
/// [`ActorExecutor::poll_response`] consumes the response exactly once.
#[derive(Clone, Copy, PartialEq, Eq, Structural, Debug)]
pub struct RequestHandle {
    pub cell: usize,
}

/// Every registered actor has mailbox room and headroom on its readiness
/// counter: the condition for pushing a lifecycle event to the whole set.
pub open spec fn can_dispatch<A: Actor>(m: ExecutorModel<A>) -> bool {
    forall|i: int|
        0 <= i < m.actors.len() ==> ((#[trigger] m.actors[i]).mailbox.len() < m.actors[i].cap
            && m.actors[i].ready < usize::MAX)
}

/// A cooperative scheduler owning the registered actor contexts, the signal
/// cells and the response cells. Registration is bounded and happens once at
/// start-up; thereafter producers enqueue, interrupt handlers signal, and the
/// run loop sweeps the actors to quiescence.
pub struct ActorExecutor<A: Actor> {
    actors: Vec<Supervised<A>>,
    cap: usize,
    signals: Vec<CompletionHandle<A::Signal>>,
    responses: Vec<CompletionHandle<A::Response>>,
}

impl<A: Actor> View for ActorExecutor<A> {
    type V = ExecutorModel<A>;

    closed spec fn view(&self) -> ExecutorModel<A> {
        ExecutorModel {
            actors: views_of(self.actors@),
            cap: self.cap as nat,
            signals: self.signals@,
            responses: self.responses@,
        }
    }
}

impl<A: Actor> ActorExecutor<A> {
    /// A fresh executor with an empty registration list of the fixed capacity
    /// [`EXECUTOR_CAPACITY`] and no completion cells.
    pub fn new() -> (ex: Self)
        ensures
            ex@ == (ExecutorModel {
                actors: Seq::<ActorModel<A>>::empty(),
                cap: EXECUTOR_CAPACITY as nat,
                signals: Seq::<CompletionHandle<A::Signal>>::empty(),
                responses: Seq::<CompletionHandle<A::Response>>::empty(),
            }),
            wf(ex@),
    {
        let ex = ActorExecutor {
            actors: Vec::new(),
            cap: EXECUTOR_CAPACITY,
            signals: Vec::new(),
            responses: Vec::new(),
        };
        proof {
            assert(views_of(ex.actors@) =~= Seq::<ActorModel<A>>::empty());
        }
        ex
    }

    /// How many actors are registered.
    pub fn actor_count(&self) -> (n: usize)
        ensures
            n == self@.actors.len(),
    {
        self.actors.len()
    }

    /// Register a fresh actor context, assign it the next slot, let the actor
    /// stash its own address, and return that address. Registration beyond
    /// capacity is a configuration defect, excluded here.
    pub fn activate_actor(&mut self, context: ActorContext<A>) -> (address: Address)
        requires
            old(self)@.actors.len() < old(self)@.cap,
            old(self)@.actors.len() < usize::MAX,
            context@.mailbox.len() == 0,
            context@.current is None,
            context@.begun.len() == 0,
            context@.submitted.len() == 0,
        ensures
            address.index == old(self)@.actors.len(),
            final(self)@ == (ExecutorModel {
                actors: old(self)@.actors.push(
                    (ActorModel {
                        slot: address.index,
                        actor: context@.actor.started(address),
                        ..context@
                    }),
                ),
                ..old(self)@
            }),
            wf(old(self)@) ==> wf(final(self)@),
    {
        let ghost pre = self@;
        let slot = self.actors.len();
        let mut context = context;
        context.register(slot);
        let sup = Supervised::new(context);
        proof {
            lemma_views_of_push(self.actors@, sup);
        }
        self.actors.push(sup);
        let address = Address { index: slot };
        proof {
            if wf(pre) {
                let m2 = self@;
                assert(m2.actors[slot as int].begun + m2.actors[slot as int].mailbox
                    =~= m2.actors[slot as int].submitted);
                assert forall|i: int| 0 <= i < m2.actors.len() implies context_wf(
                    #[trigger] m2.actors[i],
                    m2.signals.len() as nat,
                    m2.responses.len() as nat,
                ) by {
                    if i < slot {
                        assert(m2.actors[i] == pre.actors[i]);
                    }
                }
            }
        }
        address
    }

    /// Enqueue a fire-and-forget operation for the actor behind `address`,
    /// raising its readiness counter. Enqueue beyond the mailbox capacity is
    /// a configuration defect, excluded here; see
    /// [`ActorExecutor::try_notify`] for the checked variant.
    pub fn notify(&mut self, address: Address, message: A::Message)
        requires
            address.index < old(self)@.actors.len(),
            old(self)@.actors[address.index as int].mailbox.len() < old(self)@.actors[
                address.index as int
            ].cap,
            old(self)@.actors[address.index as int].ready < usize::MAX,
        ensures
            final(self)@ == enqueued_at(
                old(self)@,
                address.index as int,
                Message::Notify(message),
            ),
            wf(old(self)@) ==> wf(final(self)@),
    {
        let ghost pre = self@;
        let ghost av = self.actors@;
        proof {
            lemma_views_of_index(av, address.index as int);
        }
        let sup = &mut self.actors[address.index];
        sup.context.enqueue(Message::Notify(message));
        proof {
            lemma_views_of_update(av, address.index as int, self.actors@[address.index as int]);
            assert(self@ =~= enqueued_at(pre, address.index as int, Message::Notify(message)));
            if wf(pre) {
                lemma_context_enqueue_wf_lifted(pre, address.index as int, Message::Notify(message));
            }
        }
    }

    /// Enqueue a fire-and-forget operation if the target mailbox has room;
    /// report whether it was accepted. A rejected message leaves the executor
    /// unchanged: resource exhaustion is visible at the point of overflow.
    pub fn try_notify(&mut self, address: Address, message: A::Message) -> (accepted: bool)
        requires
            address.index < old(self)@.actors.len(),
            old(self)@.actors[address.index as int].ready < usize::MAX,
        ensures
            accepted == (old(self)@.actors[address.index as int].mailbox.len() < old(self)@.actors[
                address.index as int
            ].cap),
            accepted ==> final(self)@ == enqueued_at(
                old(self)@,
                address.index as int,
                Message::Notify(message),
            ),
            !accepted ==> final(self)@ == old(self)@,
            wf(old(self)@) ==> wf(final(self)@),
    {
        let ghost pre = self@;
        let ghost av = self.actors@;
        proof {
            lemma_views_of_index(av, address.index as int);
        }
        let sup = &mut self.actors[address.index];
        let accepted = sup.context.try_enqueue(Message::Notify(message));
        proof {
            lemma_views_of_update(av, address.index as int, self.actors@[address.index as int]);
            if accepted {
                assert(self@ =~= enqueued_at(pre, address.index as int, Message::Notify(message)));
                if wf(pre) {
                    lemma_context_enqueue_wf_lifted(
                        pre,
                        address.index as int,
                        Message::Notify(message),
                    );
                }
            } else {
                assert(self@ =~= pre);
            }
        }
        accepted
    }

    /// Enqueue a request for the actor behind `address` together with a fresh
    /// private response cell, and return the handle through which exactly one
    /// consumer can poll for the response.
    pub fn request(&mut self, address: Address, message: A::Message) -> (handle: RequestHandle)
        requires
            address.index < old(self)@.actors.len(),
            old(self)@.actors[address.index as int].mailbox.len() < old(self)@.actors[
                address.index as int
            ].cap,
            old(self)@.actors[address.index as int].ready < usize::MAX,
        ensures
            handle.cell == old(self)@.responses.len(),
            final(self)@ == requested(old(self)@, address.index as int, message),
            wf(old(self)@) ==> wf(final(self)@),
    {
        let ghost pre = self@;
        let rc = self.responses.len();
        self.responses.push(CompletionHandle::new());
        let ghost av = self.actors@;
        proof {
            lemma_views_of_index(av, address.index as int);
        }
        let sup = &mut self.actors[address.index];
        sup.context.enqueue(Message::Request(message, rc));
        proof {
            lemma_views_of_update(av, address.index as int, self.actors@[address.index as int]);
            assert(self@ =~= requested(pre, address.index as int, message));
            if wf(pre) {
                let m2 = self@;
                let i = address.index as int;
                assert forall|j: int| 0 <= j < m2.actors.len() implies context_wf(
                    #[trigger] m2.actors[j],
                    m2.signals.len() as nat,
                    m2.responses.len() as nat,
                ) by {
                    lemma_context_wf_monotone(
                        pre.actors[j],
                        pre.signals.len() as nat,
                        pre.responses.len() as nat,
                        m2.signals.len() as nat,
                        m2.responses.len() as nat,
                    );
                    if j == i {
                        crate::actor::lemma_context_enqueue_wf(
                            pre.actors[i],
                            Message::Request(message, rc),
                            m2.signals.len() as nat,
                            m2.responses.len() as nat,
                        );
                    }
                }
            }
        }
        RequestHandle { cell: rc }
    }

    /// Poll the response cell behind a request handle: consume the response
    /// if the actor has delivered it, or report that it is still pending.
    pub fn poll_response(&mut self, handle: RequestHandle) -> (r: Option<A::Response>)
        requires
            handle.cell < old(self)@.responses.len(),
        ensures
            final(self)@ == (ExecutorModel {
                responses: old(self)@.responses.update(
                    handle.cell as int,
                    polled(old(self)@.responses[handle.cell as int], None).0,
                ),
                ..old(self)@
            }),
            r == polled(old(self)@.responses[handle.cell as int], None).1,
            wf(old(self)@) ==> wf(final(self)@),
    {
        let ghost pre = self@;
        let cell = &mut self.responses[handle.cell];
        let r = cell.poll(None);
        proof {
            if wf(pre) {
                assert forall|j: int| 0 <= j < self@.actors.len() implies context_wf(
                    #[trigger] self@.actors[j],
                    self@.signals.len() as nat,
                    self@.responses.len() as nat,
                ) by {
                    assert(context_wf(pre.actors[j], pre.signals.len() as nat, pre.responses.len() as nat));
                }
            }
        }
        r
    }

    /// Append a fresh signal cell for interrupt or peripheral wiring and
    /// return its index.
    pub fn allocate_signal(&mut self) -> (cell: usize)
        ensures
            cell == old(self)@.signals.len(),
            final(self)@ == (ExecutorModel {
                signals: old(self)@.signals.push(
                    (CompletionHandle { value: None::<A::Signal>, waiting: None::<usize> }),
                ),
                ..old(self)@
            }),
            wf(old(self)@) ==> wf(final(self)@),
    {
        let ghost pre = self@;
        let cell = self.signals.len();
        self.signals.push(CompletionHandle::new());
        proof {
            if wf(pre) {
                let m2 = self@;
                assert forall|j: int| 0 <= j < m2.actors.len() implies context_wf(
                    #[trigger] m2.actors[j],
                    m2.signals.len() as nat,
                    m2.responses.len() as nat,
                ) by {
                    lemma_context_wf_monotone(
                        pre.actors[j],
                        pre.signals.len() as nat,
                        pre.responses.len() as nat,
                        m2.signals.len() as nat,
                        m2.responses.len() as nat,
                    );
                }
            }
        }
        cell
    }

    /// Raise the readiness counter of the actor behind `address` by one: the
    /// wake operation an interrupt handler may issue directly.
    pub fn wake(&mut self, address: Address)
        requires
            address.index < old(self)@.actors.len(),
            old(self)@.actors[address.index as int].ready < usize::MAX,
        ensures
            final(self)@ == (ExecutorModel {
                actors: old(self)@.actors.update(
                    address.index as int,
                    (ActorModel {
                        ready: (old(self)@.actors[address.index as int].ready + 1) as nat,
                        ..old(self)@.actors[address.index as int]
                    }),
                ),
                ..old(self)@
            }),
            wf(old(self)@) ==> wf(final(self)@),
    {
        let ghost pre = self@;
        let ghost av = self.actors@;
        proof {
            lemma_views_of_index(av, address.index as int);
        }
        let sup = &mut self.actors[address.index];
        sup.context.wake();
        proof {
            lemma_views_of_update(av, address.index as int, self.actors@[address.index as int]);
            assert(self@ =~= (ExecutorModel {
                actors: pre.actors.update(
                    address.index as int,
                    (ActorModel {
                        ready: (pre.actors[address.index as int].ready + 1) as nat,
                        ..pre.actors[address.index as int]
                    }),
                ),
                ..pre
            }));
        }
    }

    /// Deliver a value into signal cell `cell` (last write wins) and wake the
    /// waiting actor, if one is registered: what a hardware interrupt handler
    /// does with a completion. Safe to issue at any instruction boundary of
    /// the sweep loop, since it touches only the cell and a readiness
    /// counter.
    pub fn signal(&mut self, cell: usize, value: A::Signal)
        requires
            wf(old(self)@),
            cell < old(self)@.signals.len(),
            old(self)@.signals[cell as int].waiting matches Some(j) ==> old(self)@.actors[
                j as int
            ].ready < usize::MAX,
        ensures
            final(self)@ == signaled(old(self)@, cell as int, value),
            wf(final(self)@),
    {
        let ghost pre = self@;
        let scell = &mut self.signals[cell];
        let w = scell.send(value);
        match w {
            Some(j) => {
                let ghost av = self.actors@;
                proof {
                    lemma_views_of_index(av, j as int);
                }
                let sup = &mut self.actors[j];
                sup.context.wake();
                proof {
                    lemma_views_of_update(av, j as int, self.actors@[j as int]);
                    assert(self@ =~= signaled(pre, cell as int, value));
                }
            }
            None => {
                proof {
                    assert(self@ =~= signaled(pre, cell as int, value));
                }
            }
        }
        proof {
            let m2 = self@;
            assert forall|j: int| 0 <= j < m2.actors.len() implies context_wf(
                #[trigger] m2.actors[j],
                m2.signals.len() as nat,
                m2.responses.len() as nat,
            ) by {
                assert(context_wf(pre.actors[j], pre.signals.len() as nat, pre.responses.len() as nat));
            }
        }
    }

    /// Push a lifecycle event to every registered actor, in registration
    /// order.
    pub fn dispatch_lifecycle_event(&mut self, event: Lifecycle)
        requires
            can_dispatch(old(self)@),
        ensures
            final(self)@ == dispatched(old(self)@, event),
            wf(old(self)@) ==> wf(final(self)@),
    {
        let ghost pre = self@;
        let mut i: usize = 0;
        let n = self.actors.len();
        #[verifier::loop_isolation(false)]
        while i < n
            invariant
                i <= n,
                self.actors@.len() == pre.actors.len(),
                self@.cap == pre.cap,
                self@.signals == pre.signals,
                self@.responses == pre.responses,
                forall|j: int|
                    0 <= j < i ==> #[trigger] self@.actors[j] == context_enqueue(
                        pre.actors[j],
                        Message::Lifecycle(event),
                    ),
                forall|j: int| i <= j < n ==> #[trigger] self@.actors[j] == pre.actors[j],
            decreases n - i,
        {
            let ghost mv = self@;
            let ghost av = self.actors@;
            proof {
                lemma_views_of_index(av, i as int);
                assert(av[i as int]@ == mv.actors[i as int]);
                assert(mv.actors[i as int] == pre.actors[i as int]);
            }
            let sup = &mut self.actors[i];
            sup.dispatch_lifecycle_event(event);
            proof {
                lemma_views_of_update(av, i as int, self.actors@[i as int]);
                lemma_views_of_index(self.actors@, i as int);
                assert(self@.actors == mv.actors.update(
                    i as int,
                    context_enqueue(pre.actors[i as int], Message::Lifecycle(event)),
                ));
            }
            i = i + 1;
        }
        proof {
            assert(self@.actors =~= dispatched(pre, event).actors);
            assert(self@ =~= dispatched(pre, event));
            if wf(pre) {
                let m2 = self@;
                assert forall|j: int| 0 <= j < m2.actors.len() implies context_wf(
                    #[trigger] m2.actors[j],
                    m2.signals.len() as nat,
                    m2.responses.len() as nat,
                ) by {
                    crate::actor::lemma_context_enqueue_wf(
                        pre.actors[j],
                        Message::Lifecycle(event),
                        m2.signals.len() as nat,
                        m2.responses.len() as nat,
                    );
                }
            }
        }
    }

    /// Read access to the actor instance behind `address`.
    pub fn actor_ref(&self, address: Address) -> (a: &A)
        requires
            address.index < self@.actors.len(),
        ensures
            *a == self@.actors[address.index as int].actor,
    {
        proof {
            lemma_views_of_index(self.actors@, address.index as int);
        }
        self.actors[address.index].actor_ref()
    }

    /// Poll the actor behind `address` once if it is ready; report whether a
    /// poll pass was made. One pass processes at most one message or resumes
    /// the message in progress, then drops the readiness counter by one.
    pub fn poll_actor(&mut self, address: Address) -> (progressed: bool)
        requires
            wf(old(self)@),
            address.index < old(self)@.actors.len(),
        ensures
            progressed == (old(self)@.actors[address.index as int].ready >= 1),
            progressed ==> final(self)@ == poll_step(old(self)@, address.index as int),
            !progressed ==> final(self)@ == old(self)@,
            wf(final(self)@),
    {
        let ghost pre = self@;
        let ghost av = self.actors@;
        let i = address.index;
        proof {
            lemma_views_of_index(av, i as int);
        }
        let sup = &mut self.actors[i];
        let progressed = sup.poll(&mut self.signals, &mut self.responses);
        proof {
            lemma_views_of_update(av, i as int, self.actors@[i as int]);
            if progressed {
                lemma_poll_step_props(pre, i as int);
                assert(self@.actors =~= poll_step(pre, i as int).actors);
                assert(self@ =~= poll_step(pre, i as int));
            } else {
                assert(self@.actors =~= pre.actors);
                assert(self@ =~= pre);
            }
        }
        progressed
    }

    /// Sweep the registered actors in registration order, polling every ready
    /// one, and repeat the full sweep as long as some actor made progress;
    /// return once a full sweep finds no ready actor. Terminates for every
    /// fixed, finite backlog with no further external input, and computes the
    /// deterministic function [`run_spec`] of the starting state.
    pub fn run_until_quiescence(&mut self)
        requires
            wf(old(self)@),
        ensures
            final(self)@ == run_spec(old(self)@),
            wf(final(self)@),
            quiescent(final(self)@),
    {
        let ghost m0 = self@;
        let mut again = true;
        #[verifier::loop_isolation(false)]
        while again
            invariant
                wf(self@),
                run_spec(self@) == run_spec(m0),
                !again ==> quiescent(self@),
            decreases total_ready(self@.actors), (if again {
                1int
            } else {
                0int
            }),
        {
            let ghost m_enter = self@;
            let mut progressed = false;
            let mut i: usize = 0;
            let n = self.actors.len();
            #[verifier::loop_isolation(false)]
            while i < n
                invariant
                    i <= n,
                    wf(self@),
                    self.actors@.len() == m_enter.actors.len(),
                    sweep_spec(self@, i as int) == sweep_spec(m_enter, 0),
                    forall|j: int|
                        i <= j < n ==> #[trigger] self@.actors[j] == m_enter.actors[j],
                    progressed ==> total_ready(self@.actors) < total_ready(m_enter.actors)
                        && !quiescent(m_enter),
                    !progressed ==> self@ == m_enter && (forall|j: int|
                        0 <= j < i ==> (#[trigger] m_enter.actors[j]).ready == 0),
                decreases n - i,
            {
                let ghost m_prev = self@;
                let ghost av = self.actors@;
                proof {
                    lemma_views_of_index(av, i as int);
                }
                let sup = &mut self.actors[i];
                let polled_now = sup.poll(&mut self.signals, &mut self.responses);
                proof {
                    lemma_views_of_update(av, i as int, self.actors@[i as int]);
                    if polled_now {
                        lemma_poll_step_props(m_prev, i as int);
                        assert(self@.actors =~= poll_step(m_prev, i as int).actors);
                        assert(self@ =~= poll_step(m_prev, i as int));
                        lemma_total_ready_bound(m_enter.actors, i as int);
                    } else {
                        assert(self@.actors =~= m_prev.actors);
                        assert(self@ =~= m_prev);
                    }
                }
                if polled_now {
                    progressed = true;
                }
                i = i + 1;
            }
            again = progressed;
        }
        proof {
            assert(self@ == run_spec(self@));
        }
    }

    /// Drive the system through its start-up protocol: deliver `Initialize`
    /// to every actor and run to quiescence, then deliver `Start` and run to
    /// quiescence again. The platform layer's forever-loop re-enters
    /// [`ActorExecutor::run_until_quiescence`] between interrupts.
    pub fn run_startup(&mut self)
        requires
            wf(old(self)@),
            can_dispatch(old(self)@),
            can_dispatch(run_spec(dispatched(old(self)@, Lifecycle::Initialize))),
        ensures
            final(self)@ == run_spec(
                dispatched(
                    run_spec(dispatched(old(self)@, Lifecycle::Initialize)),
                    Lifecycle::Start,
                ),
            ),
            wf(final(self)@),
            quiescent(final(self)@),
    {
        self.dispatch_lifecycle_event(Lifecycle::Initialize);
        self.run_until_quiescence();
        self.dispatch_lifecycle_event(Lifecycle::Start);
        self.run_until_quiescence();
    }
}

/// Enqueueing through a well-formed executor preserves well-formedness.
proof fn lemma_context_enqueue_wf_lifted<A: Actor>(m: ExecutorModel<A>, i: int, msg: Message<A>)
    requires
        wf(m),
        0 <= i < m.actors.len(),
        m.actors[i].mailbox.len() < m.actors[i].cap,
        msg matches Message::Request(_, rc) ==> rc < m.responses.len(),
    ensures
        wf(enqueued_at(m, i, msg)),
{
    let m2 = enqueued_at(m, i, msg);
    assert forall|j: int| 0 <= j < m2.actors.len() implies context_wf(
        #[trigger] m2.actors[j],
        m2.signals.len() as nat,
        m2.responses.len() as nat,
    ) by {
        if j == i {
            crate::actor::lemma_context_enqueue_wf(
                m.actors[i],
                msg,
                m.signals.len() as nat,
                m.responses.len() as nat,
            );
        }
    }
}

/// A context may also be started directly: registering it with an executor
/// and receiving the address producers will use.
impl<A: Actor> ActorContext<A> {
    /// Register this context with `executor`; equivalent to
    /// [`ActorExecutor::activate_actor`].
    pub fn start(self, executor: &mut ActorExecutor<A>) -> (address: Address)
        requires
            old(executor)@.actors.len() < old(executor)@.cap,
            old(executor)@.actors.len() < usize::MAX,
            self@.mailbox.len() == 0,
            self@.current is None,
            self@.begun.len() == 0,
            self@.submitted.len() == 0,
        ensures
            address.index == old(executor)@.actors.len(),
            final(executor)@ == (ExecutorModel {
                actors: old(executor)@.actors.push(
                    (ActorModel {
                        slot: address.index,
                        actor: self@.actor.started(address),
                        ..self@
                    }),
                ),
                ..old(executor)@
            }),
            wf(old(executor)@) ==> wf(final(executor)@),
    {
        executor.activate_actor(self)
    }
}

} // verus!
