use drogue_device::completion::CompletionHandle;
use drogue_device::config::{
    Configuration, ConfigurationManager, ConfigurationModel, DeviceError, DeviceKey, IVUpdateFlag,
    Keys, NetworkInfo, NetworkKey, NetworkKeyDetails, PrimaryElementModels,
};
use drogue_device::lora::{
    Bandwidth, LoraError, LoraEvent, LoraResponse, RadioHardwareReport, RadioPhyEvent, RxQuality,
    SpreadingFactor, Sx127xRadio, State as RadioState, bandwidth_to_i64, spreading_factor_to_u8,
};
use drogue_device::sink::{AddSink, MultiSink, Sink};
use drogue_device::socket_pool::{SocketPool, SocketState};
use drogue_device::tcp::{TcpError, TcpResponse};
use drogue_device::executor::ActorExecutor;
use drogue_device::uart::{
    State, Uart, UartContext, UartError, UartInterrupt, UartPeripheral, UartRequest, UartResponse,
    UartSignal,
};

#[test]
fn tcp_response_extraction() {
    let r: TcpResponse<u8> = TcpResponse::Open(Ok(3));
    assert_eq!(r.open(), Ok(3));
    let r: TcpResponse<u8> = TcpResponse::Open(Err(TcpError::ConnectError));
    assert_eq!(r.open(), Err(TcpError::OpenError));
    let r: TcpResponse<u8> = TcpResponse::Close(Ok(()));
    assert_eq!(r.open(), Err(TcpError::OpenError));

    let r: TcpResponse<u8> = TcpResponse::Connect(Ok(()));
    assert_eq!(r.connect(), Ok(()));
    let r: TcpResponse<u8> = TcpResponse::Write(Ok(17));
    assert_eq!(r.write(), Ok(17));
    let r: TcpResponse<u8> = TcpResponse::Read(Err(TcpError::ReadError));
    assert_eq!(r.read(), Err(TcpError::ReadError));
    let r: TcpResponse<u8> = TcpResponse::Close(Err(TcpError::CloseError));
    assert_eq!(r.close(), Err(TcpError::CloseError));
}

/// A sink that sums what it is notified of.
struct Adder {
    total: u32,
}

impl Sink<u32> for Adder {
    // The specification projection is erased from compiled code and never
    // runs; only its signature must be filled in here.
    fn notified(_: Self, _: Self, _: u32) -> bool {
        true
    }

    fn notify(&mut self, message: u32) {
        self.total = self.total.wrapping_add(message);
    }
}

#[test]
fn multi_sink_broadcasts_in_registration_order() {
    let mut fan: MultiSink<Adder> = MultiSink::new(3);
    assert_eq!(fan.len(), 0);
    fan.add(Adder { total: 0 });
    fan.add(Adder { total: 100 });
    assert_eq!(fan.len(), 2);

    fan.send(5u32);
    assert_eq!(fan.subscribers[0].total, 5);
    assert_eq!(fan.subscribers[1].total, 105);

    fan.on_notification(AddSink::new(Adder { total: 7 }));
    assert_eq!(fan.len(), 3);
    fan.send(1u32);
    assert_eq!(fan.subscribers[2].total, 8);
}

#[test]
fn uart_read_state_machine() {
    let mut uart = Uart::new(11);
    assert_eq!(uart.peripheral.ctx, UartContext::new(11));

    // Arm a read; a second read during the transfer is rejected.
    assert_eq!(uart.peripheral.read(&mut uart.interrupt.rx_done), Ok(()));
    assert_eq!(uart.peripheral.rx_state, State::InProgress);
    assert_eq!(
        uart.peripheral.read(&mut uart.interrupt.rx_done),
        Err(UartError::RxInProgress)
    );

    // Nothing completed yet.
    assert_eq!(uart.peripheral.poll_read(&mut uart.interrupt.rx_done), None);

    // The interrupt delivers an RX completion of 4 bytes.
    let (tx_waker, rx_waker) = uart.interrupt.on_interrupt(None, Some(Ok(4)));
    assert_eq!(tx_waker, None);
    assert_eq!(rx_waker, None);

    // The completion is observed exactly once and the direction is freed.
    assert_eq!(
        uart.peripheral.poll_read(&mut uart.interrupt.rx_done),
        Some(Ok(4))
    );
    assert_eq!(uart.peripheral.rx_state, State::Ready);
    assert_eq!(uart.peripheral.poll_read(&mut uart.interrupt.rx_done), None);
}

#[test]
fn uart_write_error_propagates() {
    let mut uart = Uart::new(2);
    assert_eq!(uart.peripheral.write(&mut uart.interrupt.tx_done), Ok(()));
    assert_eq!(
        uart.peripheral.write(&mut uart.interrupt.tx_done),
        Err(UartError::TxInProgress)
    );
    uart.interrupt.on_interrupt(Some(Err(UartError::Transmit)), None);
    assert_eq!(
        uart.peripheral.poll_write(&mut uart.interrupt.tx_done),
        Some(Err(UartError::Transmit))
    );
    assert_eq!(uart.peripheral.tx_state, State::Ready);
}

#[test]
fn mounted_uart_actor_round_trip() {
    let mut ex: ActorExecutor<UartPeripheral> = ActorExecutor::new();
    let peripheral = UartPeripheral::new(UartContext::new(3));
    let (addr, tx_cell, rx_cell) = peripheral.mount(&mut ex, 4);
    ex.run_until_quiescence();

    // A read suspends on the receive cell until the interrupt side signals.
    let h1 = ex.request(addr, UartRequest::Read);
    ex.run_until_quiescence();
    assert_eq!(ex.poll_response(h1), None);

    ex.signal(rx_cell, UartSignal::Read(Ok(7)));
    ex.run_until_quiescence();
    assert_eq!(ex.poll_response(h1), Some(UartResponse::Read(Ok(7))));

    // Two queued reads: the first suspends, the second waits its FIFO turn
    // behind the message in progress; the completion resolves them one at a
    // time, never twice.
    let h2 = ex.request(addr, UartRequest::Read);
    let h3 = ex.request(addr, UartRequest::Read);
    ex.run_until_quiescence();
    assert_eq!(ex.poll_response(h2), None);
    assert_eq!(ex.poll_response(h3), None);
    ex.signal(rx_cell, UartSignal::Read(Ok(1)));
    ex.run_until_quiescence();
    assert_eq!(ex.poll_response(h2), Some(UartResponse::Read(Ok(1))));
    assert_eq!(ex.poll_response(h3), None);

    // The queued read begins on the next wake; a completion already sitting
    // in the cell is consumed within that same poll pass.
    ex.signal(rx_cell, UartSignal::Read(Ok(2)));
    ex.wake(addr);
    ex.run_until_quiescence();
    assert_eq!(ex.poll_response(h3), Some(UartResponse::Read(Ok(2))));

    // Writes suspend on the transmit cell the same way, one FIFO turn at a
    // time, and a hardware error comes back as the response.
    let w1 = ex.request(addr, UartRequest::Write);
    let w2 = ex.request(addr, UartRequest::Write);
    ex.run_until_quiescence();
    assert_eq!(ex.poll_response(w1), None);
    assert_eq!(ex.poll_response(w2), None);
    ex.signal(tx_cell, UartSignal::Write(Ok(())));
    ex.run_until_quiescence();
    assert_eq!(ex.poll_response(w1), Some(UartResponse::Write(Ok(()))));
    ex.signal(tx_cell, UartSignal::Write(Err(UartError::Transmit)));
    ex.wake(addr);
    ex.run_until_quiescence();
    assert_eq!(
        ex.poll_response(w2),
        Some(UartResponse::Write(Err(UartError::Transmit)))
    );
}

fn quiet() -> RxQuality {
    RxQuality { rssi: 0, snr: 0 }
}

#[test]
fn lora_conversions() {
    assert_eq!(spreading_factor_to_u8(SpreadingFactor::Seven), 7);
    assert_eq!(spreading_factor_to_u8(SpreadingFactor::Twelve), 12);
    assert_eq!(bandwidth_to_i64(Bandwidth::Khz125), 125_000);
    assert_eq!(bandwidth_to_i64(Bandwidth::Khz500), 500_000);
}

#[test]
fn lora_state_machine_transitions() {
    let mut radio = Sx127xRadio::new();
    assert_eq!(radio.radio_state, RadioState::Idle);
    assert_eq!(radio.get_rx_window_offset_ms(), -500);
    assert_eq!(radio.get_rx_window_duration_ms(), 800);

    // An interrupt while idle is unexpected.
    let report = RadioHardwareReport { setup_ok: true, irq_flags: 0, packet: None, quality: quiet() };
    assert_eq!(
        radio.handle_event(LoraEvent::PhyEvent(RadioPhyEvent::Irq), &report),
        Err(LoraError::PhyError)
    );

    // A receive request whose hardware setup succeeds starts receiving.
    let cfg = drogue_device::lora::RfConfig {
        frequency: 868_100_000,
        bandwidth: Bandwidth::Khz125,
        spreading_factor: SpreadingFactor::Seven,
    };
    assert_eq!(
        radio.handle_event(LoraEvent::RxRequest(cfg), &report),
        Ok(LoraResponse::Rxing)
    );
    assert_eq!(radio.radio_state, RadioState::Rxing);

    // An interrupt without the RxDone flag keeps receiving.
    assert_eq!(
        radio.handle_event(LoraEvent::PhyEvent(RadioPhyEvent::Irq), &report),
        Ok(LoraResponse::Rxing)
    );

    // The RxDone interrupt stores the packet and returns to idle.
    let done = RadioHardwareReport {
        setup_ok: true,
        irq_flags: 0x40,
        packet: Some(vec![1, 2, 3]),
        quality: RxQuality { rssi: -40, snr: 5 },
    };
    assert_eq!(
        radio.handle_event(LoraEvent::PhyEvent(RadioPhyEvent::Irq), &done),
        Ok(LoraResponse::RxDone(RxQuality { rssi: -40, snr: 5 }))
    );
    assert_eq!(radio.radio_state, RadioState::Idle);
    assert_eq!(radio.get_received_packet().as_slice(), &[1, 2, 3]);

    // A transmit request during a transmission is rejected.
    assert_eq!(
        radio.handle_event(LoraEvent::TxRequest(drogue_device::lora::TxConfig { rf: cfg }, vec![9]), &report),
        Ok(LoraResponse::Txing)
    );
    assert_eq!(radio.radio_state, RadioState::Txing);
    assert_eq!(
        radio.handle_event(LoraEvent::TxRequest(drogue_device::lora::TxConfig { rf: cfg }, vec![9]), &report),
        Err(LoraError::TxRequestDuringTx)
    );

    // The TxDone interrupt finishes the transmission.
    let tx_done = RadioHardwareReport { setup_ok: true, irq_flags: 0x08, packet: None, quality: quiet() };
    assert_eq!(
        radio.handle_event(LoraEvent::PhyEvent(RadioPhyEvent::Irq), &tx_done),
        Ok(LoraResponse::TxDone(0))
    );
    assert_eq!(radio.radio_state, RadioState::Idle);
}

#[test]
fn lora_cancellations() {
    let mut radio = Sx127xRadio::new();
    let report = RadioHardwareReport { setup_ok: true, irq_flags: 0, packet: None, quality: quiet() };

    // Cancelling while idle is unexpected.
    assert_eq!(
        radio.handle_event(LoraEvent::CancelRx, &report),
        Err(LoraError::CancelRxWhileIdle)
    );

    // Cancelling during a transmission is rejected; during a reception it
    // returns the radio to idle.
    let cfg = drogue_device::lora::RfConfig {
        frequency: 868_100_000,
        bandwidth: Bandwidth::Khz125,
        spreading_factor: SpreadingFactor::Nine,
    };
    radio
        .handle_event(
            LoraEvent::TxRequest(drogue_device::lora::TxConfig { rf: cfg }, vec![1]),
            &report,
        )
        .unwrap();
    assert_eq!(
        radio.handle_event(LoraEvent::CancelRx, &report),
        Err(LoraError::CancelRxDuringTx)
    );
    let done = RadioHardwareReport { setup_ok: true, irq_flags: 0x08, packet: None, quality: quiet() };
    radio.handle_event(LoraEvent::PhyEvent(RadioPhyEvent::Irq), &done).unwrap();

    radio.handle_event(LoraEvent::RxRequest(cfg), &report).unwrap();
    assert_eq!(
        radio.handle_event(LoraEvent::RxRequest(cfg), &report),
        Err(LoraError::RxRequestDuringRx)
    );
    assert_eq!(
        radio.handle_event(LoraEvent::CancelRx, &report),
        Ok(LoraResponse::Idle)
    );
    assert_eq!(radio.radio_state, RadioState::Idle);
}

#[test]
fn network_state_round_trip() {
    let mut keys = Keys::new();
    let details = NetworkKeyDetails {
        network_key: NetworkKey::new([9; 16]),
        key_index: 1,
        nid: 2,
        encryption_key: [3; 16],
        privacy_key: [4; 16],
    };
    keys.set_network(NetworkInfo {
        network_keys: vec![details],
        iv_update_flag: IVUpdateFlag::Normal,
        iv_index: 5,
        unicast_address: 0x0042,
    });
    let network = keys.network().as_ref().unwrap();
    assert_eq!(network.unicast_address, 0x0042);
    assert_eq!(network.network_keys.len(), 1);
    assert_eq!(network.network_keys[0].network_key, NetworkKey::new([9; 16]));

    keys.set_device_key([8; 16]);
    keys.set_provisioning_salt([6; 16]);
    assert_eq!(keys.provisioning_salt(), Some([6; 16]));
    keys.set_shared_secret(Some([7; 32]));
    assert_eq!(keys.shared_secret(), Some([7; 32]));
}

#[test]
fn socket_pool_allocates_and_recycles() {
    let mut pool = SocketPool::new();
    assert_eq!(pool.poll_open(0, false), Some(0));
    assert_eq!(pool.poll_open(0, false), Some(1));
    assert_eq!(pool.poll_open(0, false), Some(2));
    assert_eq!(pool.poll_open(0, false), Some(3));
    assert!(!pool.is_closed(0));

    // All four taken: the caller is queued exactly once.
    assert_eq!(pool.waiter_count(), 0);
    assert_eq!(pool.poll_open(9, false), None);
    assert_eq!(pool.waiter_count(), 1);
    assert_eq!(pool.poll_open(9, true), None);
    assert_eq!(pool.waiter_count(), 1);

    // Closing is two-phased.
    pool.close(2);
    assert!(pool.is_closed(2));
    assert_eq!(pool.poll_open(9, true), None);
    pool.close(2);
    assert!(pool.is_closed(2));
    assert_eq!(pool.poll_open(9, true), Some(2));
}

#[test]
fn socket_state_default_is_closed() {
    assert_eq!(SocketState::default(), SocketState::Closed);
}

#[test]
fn keys_and_models() {
    let dk = DeviceKey::new([7; 16]);
    let nk = NetworkKey::new([9; 16]);
    assert_eq!(dk, DeviceKey::new([7; 16]));
    assert_eq!(nk, NetworkKey::new([9; 16]));

    let model = ConfigurationModel::default();
    assert!(model.secure_beacon);
    assert_eq!(model.default_ttl, 127);
    assert_eq!(
        PrimaryElementModels::default().configuration,
        ConfigurationModel::default()
    );
}

#[test]
fn public_key_of_unit_scalar_is_the_base_point() {
    let mut keys = Keys::new();
    assert_eq!(keys.public_key(), Err(DeviceError::KeyInitialization));

    // Zero is not a usable scalar.
    keys.set_private_key(Some([0u8; 32]));
    assert_eq!(keys.public_key(), Err(DeviceError::Serialization));

    // The public key of the scalar 1 is the P-256 base point.
    let mut one = [0u8; 32];
    one[31] = 1;
    keys.set_private_key(Some(one));
    let p = keys.public_key().unwrap();
    assert_eq!(p.len(), 65);
    assert_eq!(p[0], 0x04);
    let gx: [u8; 32] = [
        0x6b, 0x17, 0xd1, 0xf2, 0xe1, 0x2c, 0x42, 0x47, 0xf8, 0xbc, 0xe6, 0xe5, 0x63, 0xa4,
        0x40, 0xf2, 0x77, 0x03, 0x7d, 0x81, 0x2d, 0xeb, 0x33, 0xa0, 0xf4, 0xa1, 0x39, 0x45,
        0xd8, 0x98, 0xc2, 0x96,
    ];
    let gy: [u8; 32] = [
        0x4f, 0xe3, 0x42, 0xe2, 0xfe, 0x1a, 0x7f, 0x9b, 0x8e, 0xe7, 0xeb, 0x4a, 0x7c, 0x0f,
        0x9e, 0x16, 0x2b, 0xce, 0x33, 0x57, 0x6b, 0x31, 0x5e, 0xce, 0xcb, 0xb6, 0x40, 0x68,
        0x37, 0xbf, 0x51, 0xf5,
    ];
    assert_eq!(&p[1..33], &gx);
    assert_eq!(&p[33..65], &gy);
}

#[test]
fn configuration_validation_stamps_identity() {
    let mut c = Configuration::new();
    let uuid_material = [0xffu8; 16];
    let key_material = [3u8; 32];
    assert!(c.validate(uuid_material, key_material));

    // Version 4 in the high nibble of byte 6, RFC variant in byte 8.
    let u = c.uuid.unwrap().0;
    assert_eq!(u[6], 0x4f);
    assert_eq!(u[8], 0xbf);
    assert_eq!(u[0], 0xff);
    assert_eq!(u[15], 0xff);
    assert_eq!(c.keys.private_key, Some([3u8; 32]));
    assert_eq!(c.seq, 100);

    // A complete configuration off the threshold validates unchanged.
    c.seq = 101;
    assert!(!c.validate([0u8; 16], [0u8; 32]));
    assert_eq!(c.keys.private_key, Some([3u8; 32]));
}

#[test]
fn configuration_manager_initialize_and_sequence() {
    // A missing payload without a forced reset is a storage error.
    let mut m = ConfigurationManager::new(false);
    assert_eq!(
        m.initialize(None, [0; 16], [0; 32]),
        Err(DeviceError::StorageInitialization)
    );

    // A forced reset builds a fresh configuration that must be persisted.
    let mut m = ConfigurationManager::new(true);
    assert_eq!(m.initialize(None, [1; 16], [2; 32]), Ok(true));
    assert!(m.retrieve().uuid.is_some());

    // A loaded, already-valid configuration needs no write-back.
    let mut loaded = Configuration::new();
    loaded.validate([5; 16], [6; 32]);
    loaded.seq = 250;
    let mut m = ConfigurationManager::new(false);
    assert_eq!(m.initialize(Some(loaded), [0; 16], [0; 32]), Ok(false));

    // Sequence numbers are handed out in order; crossing a multiple of 100
    // forces a write-back stamped with the counter.
    let (s, store) = m.next_sequence();
    assert_eq!(s, 250);
    assert!(!store);
    for expected in 251..299 {
        let (s, store) = m.next_sequence();
        assert_eq!(s, expected);
        assert!(!store);
    }
    let (s, store) = m.next_sequence();
    assert_eq!(s, 299);
    assert!(store);
    assert_eq!(m.retrieve().seq, 300);
}

#[test]
fn completion_handle_overwrite_keeps_latest() {
    let mut cell: CompletionHandle<Result<usize, UartError>> = CompletionHandle::new();
    cell.send(Ok(1));
    cell.send(Err(UartError::Receive));
    assert_eq!(cell.poll(None), Some(Err(UartError::Receive)));
}

#[test]
fn uart_peripheral_standalone() {
    let ctx = UartContext::new(5);
    let mut p = UartPeripheral::new(ctx);
    let mut i = UartInterrupt::new(ctx);
    assert_eq!(p.tx_state, State::Ready);
    assert_eq!(p.read(&mut i.rx_done), Ok(()));
    i.on_interrupt(None, Some(Ok(0)));
    assert_eq!(p.poll_read(&mut i.rx_done), Some(Ok(0)));
}
