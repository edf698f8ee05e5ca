//! LoRa radio state machine for the SX127x transceiver.
//!
//! The radio is driven by events (transmit requests, receive requests,
//! cancellations, interrupt notifications) and answers with a response or an
//! error while moving between idle, transmitting and receiving. Writing the
//! transceiver's registers and reading its FIFO are the platform layer's
//! concern; their outcomes are handed in as a [`RadioHardwareReport`], so the
//! transition taken for every event and outcome is pinned here.

use vstd::prelude::*;

verus! {

/// The TxDone bit of the transceiver's interrupt-flags register.
pub const IRQ_TX_DONE_MASK: u8 = 0x08;

/// The RxDone bit of the transceiver's interrupt-flags register.
pub const IRQ_RX_DONE_MASK: u8 = 0x40;

/// How many bytes one received packet can hold.
pub const RADIO_BUFFER_SIZE: usize = 256;

/// The physical-layer event an interrupt delivers.
#[derive(Clone, Copy, PartialEq, Eq, Structural, Debug)]
pub enum RadioPhyEvent {
    Irq,
}

/// The antenna switch of the board, implemented by the platform layer.
pub trait RadioSwitch {
    /// Route the antenna to the transmitter.
    fn set_tx(&mut self);

    /// Route the antenna to the receiver.
    fn set_rx(&mut self);
}

/// What the radio is doing.
#[derive(Clone, Copy, PartialEq, Eq, Structural, Debug)]
pub enum State {
    Idle,
    Txing,
    Rxing,
}

/// Spreading factor of the LoRa modulation.
#[derive(Clone, Copy, PartialEq, Eq, Structural, Debug)]
pub enum SpreadingFactor {
    Seven,
    Eight,
    Nine,
    Ten,
    Eleven,
    Twelve,
}

/// The register encoding of a spreading factor.
pub fn spreading_factor_to_u8(sf: SpreadingFactor) -> (r: u8)
    ensures
        r == (match sf {
            SpreadingFactor::Seven => 7u8,
            SpreadingFactor::Eight => 8u8,
            SpreadingFactor::Nine => 9u8,
            SpreadingFactor::Ten => 10u8,
            SpreadingFactor::Eleven => 11u8,
            SpreadingFactor::Twelve => 12u8,
        }),
{
    match sf {
        SpreadingFactor::Seven => 7,
        SpreadingFactor::Eight => 8,
        SpreadingFactor::Nine => 9,
        SpreadingFactor::Ten => 10,
        SpreadingFactor::Eleven => 11,
        SpreadingFactor::Twelve => 12,
    }
}

/// Channel bandwidth of the LoRa modulation.
#[derive(Clone, Copy, PartialEq, Eq, Structural, Debug)]
pub enum Bandwidth {
    Khz125,
    Khz250,
    Khz500,
}

/// The bandwidth in hertz.
pub fn bandwidth_to_i64(bw: Bandwidth) -> (r: i64)
    ensures
        r == (match bw {
            Bandwidth::Khz125 => 125000i64,
            Bandwidth::Khz250 => 250000i64,
            Bandwidth::Khz500 => 500000i64,
        }),
{
    match bw {
        Bandwidth::Khz125 => 125_000,
        Bandwidth::Khz250 => 250_000,
        Bandwidth::Khz500 => 500_000,
    }
}

/// Radio-frequency parameters of one transmit or receive operation.
#[derive(Clone, Copy, PartialEq, Eq, Structural, Debug)]
pub struct RfConfig {
    pub frequency: u32,
    pub bandwidth: Bandwidth,
    pub spreading_factor: SpreadingFactor,
}

/// Parameters of one transmission.
#[derive(Clone, Copy, PartialEq, Eq, Structural, Debug)]
pub struct TxConfig {
    pub rf: RfConfig,
}

/// Link quality of a received packet.
#[derive(Clone, Copy, PartialEq, Eq, Structural, Debug)]
pub struct RxQuality {
    pub rssi: i16,
    pub snr: i8,
}

/// An event driving the radio.
pub enum LoraEvent {
    TxRequest(TxConfig, Vec<u8>),
    RxRequest(RfConfig),
    CancelRx,
    PhyEvent(RadioPhyEvent),
}

/// What the radio answers to an accepted event.
#[derive(Clone, Copy, PartialEq, Eq, Structural, Debug)]
pub enum LoraResponse {
    Idle,
    Txing,
    Rxing,
    TxDone(u32),
    RxDone(RxQuality),
}

/// Why the radio rejected an event.
#[derive(Clone, Copy, PartialEq, Eq, Structural, Debug)]
pub enum LoraError {
    TxRequestDuringTx,
    RxRequestDuringTx,
    RxRequestDuringRx,
    CancelRxWhileIdle,
    CancelRxDuringTx,
    PhyError,
}

/// What the platform layer did and read at the transceiver for one event:
/// whether configuring and starting the requested operation succeeded, the
/// interrupt flags it read and cleared, the packet it pulled from the FIFO
/// when one was ready, and the link quality it measured.
pub struct RadioHardwareReport {
    pub setup_ok: bool,
    pub irq_flags: u8,
    pub packet: Option<Vec<u8>>,
    pub quality: RxQuality,
}

/// The received-packet buffer: bounded by the transceiver's FIFO size.
pub struct RadioBuffer {
    pub packet: Vec<u8>,
}

impl RadioBuffer {
    /// An empty buffer.
    pub fn new() -> (b: Self)
        ensures
            b.packet@ == Seq::<u8>::empty(),
    {
        RadioBuffer { packet: Vec::new() }
    }

    /// Drop the buffered packet.
    pub fn clear_buf(&mut self)
        ensures
            final(self).packet@ == Seq::<u8>::empty(),
    {
        self.packet.clear();
    }

    /// Append `buf` to the buffered packet. Overflowing the fixed buffer size
    /// is a defect, excluded here.
    pub fn extend_buf(&mut self, buf: &[u8])
        requires
            old(self).packet@.len() + buf@.len() <= RADIO_BUFFER_SIZE,
        ensures
            final(self).packet@ == old(self).packet@ + buf@,
    {
        let n = buf.len();
        let mut i: usize = 0;
        #[verifier::loop_isolation(false)]
        while i < n
            invariant
                i <= n,
                self.packet@ == old(self).packet@ + buf@.take(i as int),
            decreases n - i,
        {
            self.packet.push(buf[i]);
            proof {
                assert(self.packet@ =~= old(self).packet@ + buf@.take(i + 1));
            }
            i = i + 1;
        }
        proof {
            assert(self.packet@ =~= old(self).packet@ + buf@);
        }
    }
}

impl Default for RadioBuffer {
    /// An empty buffer, as [`RadioBuffer::new`] builds it.
    fn default() -> (b: Self)
        ensures
            b.packet@ == Seq::<u8>::empty(),
    {
        RadioBuffer::new()
    }
}

/// The radio: its state and the buffer holding the last received packet. The
/// transceiver itself lives behind the platform layer.
pub struct Sx127xRadio {
    pub radio_state: State,
    pub buffer: RadioBuffer,
}

/// The state and answer the radio settles on for an event arriving while
/// idle, given whether the hardware setup succeeded.
pub open spec fn idle_transition(
    event: LoraEvent,
    setup_ok: bool,
) -> (State, Result<LoraResponse, LoraError>) {
    match event {
        LoraEvent::TxRequest(_, _) => if setup_ok {
            (State::Txing, Result::Ok(LoraResponse::Txing))
        } else {
            (State::Idle, Result::Err(LoraError::PhyError))
        },
        LoraEvent::RxRequest(_) => if setup_ok {
            (State::Rxing, Result::Ok(LoraResponse::Rxing))
        } else {
            (State::Rxing, Result::Err(LoraError::PhyError))
        },
        LoraEvent::PhyEvent(_) => (State::Idle, Result::Err(LoraError::PhyError)),
        LoraEvent::CancelRx => (State::Idle, Result::Err(LoraError::CancelRxWhileIdle)),
    }
}

/// The state and answer the radio settles on for an event arriving while
/// transmitting, given the interrupt flags the hardware reported.
pub open spec fn txing_transition(
    event: LoraEvent,
    irq_flags: u8,
) -> (State, Result<LoraResponse, LoraError>) {
    match event {
        LoraEvent::PhyEvent(_) => if irq_flags & IRQ_TX_DONE_MASK != 0 {
            (State::Idle, Result::Ok(LoraResponse::TxDone(0u32)))
        } else {
            (State::Txing, Result::Ok(LoraResponse::Txing))
        },
        LoraEvent::TxRequest(_, _) => (State::Txing, Result::Err(LoraError::TxRequestDuringTx)),
        LoraEvent::RxRequest(_) => (State::Txing, Result::Err(LoraError::RxRequestDuringTx)),
        LoraEvent::CancelRx => (State::Txing, Result::Err(LoraError::CancelRxDuringTx)),
    }
}

/// The state and answer the radio settles on for an event arriving while
/// receiving, given the interrupt flags and link quality the hardware
/// reported.
pub open spec fn rxing_transition(
    event: LoraEvent,
    irq_flags: u8,
    quality: RxQuality,
) -> (State, Result<LoraResponse, LoraError>) {
    match event {
        LoraEvent::PhyEvent(_) => if irq_flags & IRQ_RX_DONE_MASK != 0 {
            (State::Idle, Result::Ok(LoraResponse::RxDone(quality)))
        } else {
            (State::Rxing, Result::Ok(LoraResponse::Rxing))
        },
        LoraEvent::CancelRx => (State::Idle, Result::Ok(LoraResponse::Idle)),
        LoraEvent::TxRequest(_, _) => (State::Rxing, Result::Err(LoraError::TxRequestDuringTx)),
        LoraEvent::RxRequest(_) => (State::Rxing, Result::Err(LoraError::RxRequestDuringRx)),
    }
}

impl Sx127xRadio {
    /// A radio in the idle state with an empty packet buffer.
    pub fn new() -> (r: Self)
        ensures
            r.radio_state == State::Idle,
            r.buffer.packet@ == Seq::<u8>::empty(),
    {
        Sx127xRadio { radio_state: State::Idle, buffer: RadioBuffer::new() }
    }

    /// Handle an event arriving while idle: a transmit or receive request
    /// moves to the matching active state when the hardware setup succeeded;
    /// an interrupt or a cancellation while idle is unexpected.
    pub fn handle_event_idle(&mut self, event: LoraEvent, setup_ok: bool) -> (r: (
        State,
        Result<LoraResponse, LoraError>,
    ))
        ensures
            r == idle_transition(event, setup_ok),
            *final(self) == *old(self),
    {
        match event {
            LoraEvent::TxRequest(_, _) => {
                if setup_ok {
                    (State::Txing, Ok(LoraResponse::Txing))
                } else {
                    (State::Idle, Err(LoraError::PhyError))
                }
            }
            LoraEvent::RxRequest(_) => {
                if setup_ok {
                    (State::Rxing, Ok(LoraResponse::Rxing))
                } else {
                    (State::Rxing, Err(LoraError::PhyError))
                }
            }
            LoraEvent::PhyEvent(_) => (State::Idle, Err(LoraError::PhyError)),
            LoraEvent::CancelRx => (State::Idle, Err(LoraError::CancelRxWhileIdle)),
        }
    }

    /// Handle an event arriving while transmitting: the TxDone interrupt
    /// finishes the transmission; competing requests are rejected.
    pub fn handle_event_txing(&mut self, event: LoraEvent, irq_flags: u8) -> (r: (
        State,
        Result<LoraResponse, LoraError>,
    ))
        ensures
            r == txing_transition(event, irq_flags),
            *final(self) == *old(self),
    {
        match event {
            LoraEvent::PhyEvent(_) => {
                if irq_flags & IRQ_TX_DONE_MASK != 0 {
                    (State::Idle, Ok(LoraResponse::TxDone(0)))
                } else {
                    (State::Txing, Ok(LoraResponse::Txing))
                }
            }
            LoraEvent::TxRequest(_, _) => (State::Txing, Err(LoraError::TxRequestDuringTx)),
            LoraEvent::RxRequest(_) => (State::Txing, Err(LoraError::RxRequestDuringTx)),
            LoraEvent::CancelRx => (State::Txing, Err(LoraError::CancelRxDuringTx)),
        }
    }

    /// Handle an event arriving while receiving: the RxDone interrupt stores
    /// the packet the hardware pulled from its FIFO and finishes the
    /// reception; a cancellation returns to idle; competing requests are
    /// rejected.
    pub fn handle_event_rxing(&mut self, event: LoraEvent, report: &RadioHardwareReport) -> (r: (
        State,
        Result<LoraResponse, LoraError>,
    ))
        requires
            report.packet matches Some(p) ==> p@.len() <= RADIO_BUFFER_SIZE,
        ensures
            r == rxing_transition(event, report.irq_flags, report.quality),
            (event is PhyEvent && report.irq_flags & IRQ_RX_DONE_MASK != 0) ==> final(self).buffer.packet@ == (match report.packet {
                Some(p) => p@,
                None => old(self).buffer.packet@,
            }) && final(self).radio_state == old(self).radio_state,
            !(event is PhyEvent && report.irq_flags & IRQ_RX_DONE_MASK != 0) ==> *final(self)
                == *old(self),
    {
        match event {
            LoraEvent::PhyEvent(_) => {
                if report.irq_flags & IRQ_RX_DONE_MASK != 0 {
                    match &report.packet {
                        Some(packet) => {
                            self.buffer.clear_buf();
                            self.buffer.extend_buf(packet.as_slice());
                        }
                        None => {}
                    }
                    (State::Idle, Ok(LoraResponse::RxDone(report.quality)))
                } else {
                    (State::Rxing, Ok(LoraResponse::Rxing))
                }
            }
            LoraEvent::CancelRx => (State::Idle, Ok(LoraResponse::Idle)),
            LoraEvent::TxRequest(_, _) => (State::Rxing, Err(LoraError::TxRequestDuringTx)),
            LoraEvent::RxRequest(_) => (State::Rxing, Err(LoraError::RxRequestDuringRx)),
        }
    }

    /// Handle one event in whatever state the radio is in, move to the state
    /// the transition names, and answer the caller.
    pub fn handle_event(&mut self, event: LoraEvent, report: &RadioHardwareReport) -> (r: Result<
        LoraResponse,
        LoraError,
    >)
        requires
            report.packet matches Some(p) ==> p@.len() <= RADIO_BUFFER_SIZE,
        ensures
            ({
                let outcome = match old(self).radio_state {
                    State::Idle => idle_transition(event, report.setup_ok),
                    State::Txing => txing_transition(event, report.irq_flags),
                    State::Rxing => rxing_transition(event, report.irq_flags, report.quality),
                };
                r == outcome.1 && final(self).radio_state == outcome.0
            }),
    {
        let (new_state, response) = match self.radio_state {
            State::Idle => self.handle_event_idle(event, report.setup_ok),
            State::Txing => self.handle_event_txing(event, report.irq_flags),
            State::Rxing => self.handle_event_rxing(event, report),
        };
        self.radio_state = new_state;
        response
    }

    /// The last received packet.
    pub fn get_received_packet(&self) -> (p: &Vec<u8>)
        ensures
            p@ == self.buffer.packet@,
    {
        &self.buffer.packet
    }

    /// How far before the real receive window the radio must open its own.
    pub fn get_rx_window_offset_ms(&self) -> (r: i32)
        ensures
            r == -500,
    {
        -500
    }

    /// How long the radio keeps its receive window open.
    pub fn get_rx_window_duration_ms(&self) -> (r: u32)
        ensures
            r == 800,
    {
        800
    }
}

} // verus!
