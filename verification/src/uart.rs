//! UART driver core: the transfer state machine on the peripheral side and
//! the completion delivery on the interrupt side.
//!
//! The peripheral keeps one in-progress flag per direction and arms a
//! completion cell before a transfer starts; the interrupt handler moves the
//! hardware's status (what it read from the status registers) into those
//! cells; polling a pending transfer consumes the completion exactly once.
//! Touching the hardware registers themselves is the platform layer's
//! concern.

use vstd::prelude::*;

use crate::actor::Actor;
use crate::actor::ActorContext;
use crate::actor::ActorModel;
use crate::actor::Address;
use crate::actor::Completion;
use crate::actor::Lifecycle;
use crate::actor::Message;
use crate::actor::Response;
use crate::completion::CompletionHandle;
use crate::completion::polled;
use crate::completion::sent;
use crate::executor::ActorExecutor;
use crate::executor::ExecutorModel;
use crate::executor::enqueued_at;
use crate::executor::wf;

verus! {

/// Errors of the UART boundary.
#[derive(Clone, Copy, PartialEq, Eq, Structural, Debug)]
pub enum UartError {
    TxInProgress,
    RxInProgress,
    Transmit,
    Receive,
}

/// Whether a transfer direction is free or mid-transfer.
#[derive(Clone, Copy, PartialEq, Eq, Structural, Debug)]
pub enum State {
    Ready,
    InProgress,
}

/// Stands for the shared handle to one UART port that the peripheral side and
/// the interrupt side both address; dereferencing it to hardware registers is
/// the platform layer's concern.
#[derive(Clone, Copy, PartialEq, Eq, Structural, Debug)]
pub struct UartContext {
    /// The interrupt line of the port.
    pub irq: u8,
}

impl UartContext {
    /// A handle to the port behind the given interrupt line.
    pub fn new(irq: u8) -> (c: Self)
        ensures
            c.irq == irq,
    {
        UartContext { irq }
    }
}

/// The result of a completed write, or the error the hardware reported.
pub type TxResult = Result<(), UartError>;

/// The bytes-read count of a completed read, or the error the hardware
/// reported.
pub type RxResult = Result<usize, UartError>;

/// The peripheral side of the driver: one transfer at a time per direction.
/// When mounted as an actor, `tx_done` and `rx_done` hold the indices of the
/// executor's signal cells its transfers complete through.
pub struct UartPeripheral {
    pub ctx: UartContext,
    pub tx_state: State,
    pub rx_state: State,
    pub tx_done: Option<usize>,
    pub rx_done: Option<usize>,
}

impl UartPeripheral {
    /// A peripheral with both directions free and no completion cells bound.
    pub fn new(ctx: UartContext) -> (p: Self)
        ensures
            p == (UartPeripheral {
                ctx,
                tx_state: State::Ready,
                rx_state: State::Ready,
                tx_done: None::<usize>,
                rx_done: None::<usize>,
            }),
    {
        UartPeripheral {
            ctx,
            tx_state: State::Ready,
            rx_state: State::Ready,
            tx_done: None,
            rx_done: None,
        }
    }

    /// Arm a read: with no receive in progress, reset the completion cell and
    /// mark the direction busy, telling the caller to start the hardware
    /// transfer; otherwise report the receive already in progress and change
    /// nothing. A hardware start that fails is delivered through the same
    /// cell by the platform layer.
    pub fn read(&mut self, rx_done: &mut CompletionHandle<RxResult>) -> (r: Result<(), UartError>)
        ensures
            old(self).rx_state == State::Ready ==> r == Result::<(), UartError>::Ok(())
                && *final(self) == (UartPeripheral { rx_state: State::InProgress, ..*old(self) })
                && *final(rx_done) == (CompletionHandle {
                value: None::<RxResult>,
                waiting: old(rx_done).waiting,
            }),
            old(self).rx_state == State::InProgress ==> r == Result::<(), UartError>::Err(
                UartError::RxInProgress,
            ) && *final(self) == *old(self) && *final(rx_done) == *old(rx_done),
    {
        match self.rx_state {
            State::Ready => {
                rx_done.value = None;
                self.rx_state = State::InProgress;
                Ok(())
            }
            State::InProgress => Err(UartError::RxInProgress),
        }
    }

    /// Arm a write, as [`UartPeripheral::read`] does for the other direction.
    pub fn write(&mut self, tx_done: &mut CompletionHandle<TxResult>) -> (r: Result<(), UartError>)
        ensures
            old(self).tx_state == State::Ready ==> r == Result::<(), UartError>::Ok(())
                && *final(self) == (UartPeripheral { tx_state: State::InProgress, ..*old(self) })
                && *final(tx_done) == (CompletionHandle {
                value: None::<TxResult>,
                waiting: old(tx_done).waiting,
            }),
            old(self).tx_state == State::InProgress ==> r == Result::<(), UartError>::Err(
                UartError::TxInProgress,
            ) && *final(self) == *old(self) && *final(tx_done) == *old(tx_done),
    {
        match self.tx_state {
            State::Ready => {
                tx_done.value = None;
                self.tx_state = State::InProgress;
                Ok(())
            }
            State::InProgress => Err(UartError::TxInProgress),
        }
    }

    /// Poll a pending read: consume its completion exactly once and free the
    /// direction, or report that it is still pending. With no read in
    /// progress there is nothing to poll.
    pub fn poll_read(&mut self, rx_done: &mut CompletionHandle<RxResult>) -> (r: Option<RxResult>)
        ensures
            old(self).rx_state == State::InProgress ==> (*final(rx_done), r) == polled(
                *old(rx_done),
                None,
            ) && (r is Some ==> *final(self) == (UartPeripheral {
                rx_state: State::Ready,
                ..*old(self)
            })) && (r is None ==> *final(self) == *old(self)),
            old(self).rx_state == State::Ready ==> r is None && *final(self) == *old(self)
                && *final(rx_done) == *old(rx_done),
    {
        match self.rx_state {
            State::InProgress => {
                match rx_done.poll(None) {
                    Some(result) => {
                        self.rx_state = State::Ready;
                        Some(result)
                    }
                    None => None,
                }
            }
            State::Ready => None,
        }
    }

    /// Poll a pending write, as [`UartPeripheral::poll_read`] does for the
    /// other direction.
    pub fn poll_write(&mut self, tx_done: &mut CompletionHandle<TxResult>) -> (r: Option<TxResult>)
        ensures
            old(self).tx_state == State::InProgress ==> (*final(tx_done), r) == polled(
                *old(tx_done),
                None,
            ) && (r is Some ==> *final(self) == (UartPeripheral {
                tx_state: State::Ready,
                ..*old(self)
            })) && (r is None ==> *final(self) == *old(self)),
            old(self).tx_state == State::Ready ==> r is None && *final(self) == *old(self)
                && *final(tx_done) == *old(tx_done),
    {
        match self.tx_state {
            State::InProgress => {
                match tx_done.poll(None) {
                    Some(result) => {
                        self.tx_state = State::Ready;
                        Some(result)
                    }
                    None => None,
                }
            }
            State::Ready => None,
        }
    }
}

/// The interrupt side of the driver: owns the two completion cells the
/// hardware's status is delivered through.
pub struct UartInterrupt {
    pub ctx: UartContext,
    pub tx_done: CompletionHandle<TxResult>,
    pub rx_done: CompletionHandle<RxResult>,
}

impl UartInterrupt {
    /// An interrupt side with both cells empty.
    pub fn new(ctx: UartContext) -> (i: Self)
        ensures
            i.ctx == ctx,
            i.tx_done == (CompletionHandle { value: None::<TxResult>, waiting: None::<usize> }),
            i.rx_done == (CompletionHandle { value: None::<RxResult>, waiting: None::<usize> }),
    {
        UartInterrupt { ctx, tx_done: CompletionHandle::new(), rx_done: CompletionHandle::new() }
    }

    /// The interrupt service routine's work, given what the platform layer
    /// read and cleared from the status registers: each finished direction
    /// has its result moved into the matching completion cell (last write
    /// wins), and the waker tokens taken out of the cells are returned so the
    /// caller can wake the waiting consumers. Non-blocking and bounded.
    pub fn on_interrupt(
        &mut self,
        tx_finished: Option<TxResult>,
        rx_finished: Option<RxResult>,
    ) -> (wakers: (Option<usize>, Option<usize>))
        ensures
            final(self).ctx == old(self).ctx,
            tx_finished matches Some(res) ==> final(self).tx_done == sent(old(self).tx_done, res)
                && wakers.0 == old(self).tx_done.waiting,
            tx_finished is None ==> final(self).tx_done == old(self).tx_done && wakers.0 is None,
            rx_finished matches Some(res) ==> final(self).rx_done == sent(old(self).rx_done, res)
                && wakers.1 == old(self).rx_done.waiting,
            rx_finished is None ==> final(self).rx_done == old(self).rx_done && wakers.1 is None,
    {
        let tx_waker = match tx_finished {
            Some(result) => self.tx_done.send(result),
            None => None,
        };
        let rx_waker = match rx_finished {
            Some(result) => self.rx_done.send(result),
            None => None,
        };
        (tx_waker, rx_waker)
    }
}

/// An operation routed to a mounted UART peripheral actor: bind the two
/// completion cells its transfers finish through, or request a transfer.
#[derive(Clone, Copy, PartialEq, Eq, Structural, Debug)]
pub enum UartRequest {
    Bind(usize, usize),
    Read,
    Write,
}

/// What a mounted UART peripheral actor answers.
#[derive(Clone, Copy, PartialEq, Eq, Debug)]
pub enum UartResponse {
    Bound,
    Read(RxResult),
    Write(TxResult),
}

/// What the interrupt side delivers into a mounted peripheral's signal cells.
#[derive(Clone, Copy, PartialEq, Eq, Debug)]
pub enum UartSignal {
    Read(RxResult),
    Write(TxResult),
}

impl Actor for UartPeripheral {
    type Message = UartRequest;

    type Response = UartResponse;

    type Signal = UartSignal;

    open spec fn started(self, address: Address) -> Self {
        self
    }

    open spec fn lifecycle_next(self, event: Lifecycle) -> Self {
        self
    }

    open spec fn lifecycle_completion(self, event: Lifecycle) -> Completion {
        Completion::Immediate
    }

    open spec fn notify_next(self, message: UartRequest) -> Self {
        match message {
            UartRequest::Bind(tx, rx) => UartPeripheral {
                tx_done: Some(tx),
                rx_done: Some(rx),
                ..self
            },
            _ => self,
        }
    }

    open spec fn notify_completion(self, message: UartRequest) -> Completion {
        Completion::Immediate
    }

    open spec fn request_next(self, message: UartRequest) -> Self {
        match message {
            UartRequest::Bind(tx, rx) => UartPeripheral {
                tx_done: Some(tx),
                rx_done: Some(rx),
                ..self
            },
            UartRequest::Read => if self.rx_done is Some && self.rx_state == State::Ready {
                UartPeripheral { rx_state: State::InProgress, ..self }
            } else {
                self
            },
            UartRequest::Write => if self.tx_done is Some && self.tx_state == State::Ready {
                UartPeripheral { tx_state: State::InProgress, ..self }
            } else {
                self
            },
        }
    }

    open spec fn request_response(self, message: UartRequest) -> Response<UartResponse> {
        match message {
            UartRequest::Bind(tx, rx) => Response::Immediate(UartResponse::Bound),
            UartRequest::Read => match self.rx_done {
                Some(cell) => if self.rx_state == State::Ready {
                    Response::Defer(cell)
                } else {
                    Response::Immediate(UartResponse::Read(Err(UartError::RxInProgress)))
                },
                None => Response::Immediate(UartResponse::Read(Err(UartError::Receive))),
            },
            UartRequest::Write => match self.tx_done {
                Some(cell) => if self.tx_state == State::Ready {
                    Response::Defer(cell)
                } else {
                    Response::Immediate(UartResponse::Write(Err(UartError::TxInProgress)))
                },
                None => Response::Immediate(UartResponse::Write(Err(UartError::Transmit))),
            },
        }
    }

    open spec fn notify_resume_next(self, signal: UartSignal) -> Self {
        self
    }

    open spec fn notify_resume_completion(self, signal: UartSignal) -> Completion {
        Completion::Immediate
    }

    open spec fn request_resume_next(self, signal: UartSignal) -> Self {
        match signal {
            UartSignal::Read(_) => UartPeripheral { rx_state: State::Ready, ..self },
            UartSignal::Write(_) => UartPeripheral { tx_state: State::Ready, ..self },
        }
    }

    open spec fn request_resume_response(self, signal: UartSignal) -> Response<UartResponse> {
        match signal {
            UartSignal::Read(result) => Response::Immediate(UartResponse::Read(result)),
            UartSignal::Write(result) => Response::Immediate(UartResponse::Write(result)),
        }
    }

    fn start(&mut self, _address: Address) {
    }

    fn on_lifecycle(&mut self, _event: Lifecycle) -> (c: Completion) {
        Completion::Immediate
    }

    /// Binding is fire-and-forget; any other notification is inert.
    fn on_notification(&mut self, message: UartRequest) -> (c: Completion) {
        match message {
            UartRequest::Bind(tx, rx) => {
                self.tx_done = Some(tx);
                self.rx_done = Some(rx);
            }
            _ => {}
        }
        Completion::Immediate
    }

    /// A transfer request on a free, bound direction suspends on that
    /// direction's completion cell (the platform layer starts the hardware);
    /// a busy direction reports the transfer in progress; an unbound
    /// direction reports the transfer failed.
    fn on_request(&mut self, message: UartRequest) -> (r: Response<UartResponse>) {
        match message {
            UartRequest::Bind(tx, rx) => {
                self.tx_done = Some(tx);
                self.rx_done = Some(rx);
                Response::Immediate(UartResponse::Bound)
            }
            UartRequest::Read => match self.rx_done {
                Some(cell) => match self.rx_state {
                    State::Ready => {
                        self.rx_state = State::InProgress;
                        Response::Defer(cell)
                    }
                    State::InProgress => Response::Immediate(
                        UartResponse::Read(Err(UartError::RxInProgress)),
                    ),
                },
                None => Response::Immediate(UartResponse::Read(Err(UartError::Receive))),
            },
            UartRequest::Write => match self.tx_done {
                Some(cell) => match self.tx_state {
                    State::Ready => {
                        self.tx_state = State::InProgress;
                        Response::Defer(cell)
                    }
                    State::InProgress => Response::Immediate(
                        UartResponse::Write(Err(UartError::TxInProgress)),
                    ),
                },
                None => Response::Immediate(UartResponse::Write(Err(UartError::Transmit))),
            },
        }
    }

    fn on_notify_resume(&mut self, _signal: UartSignal) -> (c: Completion) {
        Completion::Immediate
    }

    /// The awaited completion frees the direction and becomes the response.
    fn on_request_resume(&mut self, signal: UartSignal) -> (r: Response<UartResponse>) {
        match signal {
            UartSignal::Read(result) => {
                self.rx_state = State::Ready;
                Response::Immediate(UartResponse::Read(result))
            }
            UartSignal::Write(result) => {
                self.tx_state = State::Ready;
                Response::Immediate(UartResponse::Write(result))
            }
        }
    }
}

impl UartPeripheral {
    /// Mount this peripheral on an executor: allocate its two completion
    /// cells, register the actor with a mailbox of capacity `cap`, and bind
    /// the cells; returns the actor's address and the transmit and receive
    /// cell indices the interrupt side signals.
    pub fn mount(self, executor: &mut ActorExecutor<UartPeripheral>, cap: usize) -> (r: (
        Address,
        usize,
        usize,
    ))
        requires
            old(executor)@.actors.len() < old(executor)@.cap,
            old(executor)@.actors.len() < usize::MAX,
            cap >= 1,
        ensures
            ({
                let tx = old(executor)@.signals.len();
                let m1 = ExecutorModel {
                    signals: old(executor)@.signals.push(
                        (CompletionHandle { value: None::<UartSignal>, waiting: None::<usize> }),
                    ).push(
                        (CompletionHandle { value: None::<UartSignal>, waiting: None::<usize> }),
                    ),
                    ..old(executor)@
                };
                let m2 = ExecutorModel {
                    actors: m1.actors.push(
                        (ActorModel {
                            actor: self,
                            mailbox: Seq::<Message<UartPeripheral>>::empty(),
                            cap: cap as nat,
                            ready: 0,
                            current: None,
                            slot: r.0.index,
                            irq: None,
                            submitted: Seq::<Message<UartPeripheral>>::empty(),
                            begun: Seq::<Message<UartPeripheral>>::empty(),
                            polls: 0,
                        }),
                    ),
                    ..m1
                };
                &&& r.0.index == old(executor)@.actors.len()
                &&& r.1 == tx
                &&& r.2 == tx + 1
                &&& final(executor)@ == enqueued_at(
                    m2,
                    r.0.index as int,
                    Message::Notify(UartRequest::Bind(r.1, r.2)),
                )
            }),
            wf(old(executor)@) ==> wf(final(executor)@),
    {
        let tx_cell = executor.allocate_signal();
        let rx_cell = executor.allocate_signal();
        let context = ActorContext::new(self, cap);
        let address = executor.activate_actor(context);
        executor.notify(address, UartRequest::Bind(tx_cell, rx_cell));
        (address, tx_cell, rx_cell)
    }
}

/// One UART port packaged whole: the peripheral side, the interrupt side, and
/// the wiring between them.
pub struct Uart {
    pub peripheral: UartPeripheral,
    pub interrupt: UartInterrupt,
}

impl Uart {
    /// A packaged port behind the given interrupt line, idle in both
    /// directions.
    pub fn new(irq: u8) -> (u: Self)
        ensures
            u.peripheral.ctx.irq == irq,
            u.interrupt.ctx.irq == irq,
            u.peripheral.tx_state == State::Ready,
            u.peripheral.rx_state == State::Ready,
            u.interrupt.tx_done.value is None,
            u.interrupt.rx_done.value is None,
    {
        let ctx = UartContext::new(irq);
        Uart { peripheral: UartPeripheral::new(ctx), interrupt: UartInterrupt::new(ctx) }
    }
}

} // verus!
