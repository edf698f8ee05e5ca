use drogue_device::actor::{Actor, ActorContext, Address, Completion, Lifecycle, Response};
use drogue_device::executor::ActorExecutor;
use drogue_device::socket::Socket;
use drogue_device::tcp::{
    IpProtocol, SocketAddress, TcpActor, TcpError, TcpRequest, TcpResponse,
};

/// A loopback TCP adapter actor: hands out socket handles in order, accepts
/// every connection, records what is written and reads at most four bytes.
struct Adapter {
    next_handle: u8,
    written: Vec<u8>,
}

impl Actor for Adapter {
    type Message = TcpRequest<u8>;
    type Response = TcpResponse<u8>;
    type Signal = u32;

    // The specification projections are erased from compiled code and never
    // run; only their signatures must be filled in here.
    fn started(self, _address: Address) -> Self {
        self
    }

    fn lifecycle_next(self, _event: Lifecycle) -> Self {
        self
    }

    fn lifecycle_completion(self, _event: Lifecycle) -> Completion {
        Completion::Immediate
    }

    fn notify_next(self, _message: TcpRequest<u8>) -> Self {
        self
    }

    fn notify_completion(self, _message: TcpRequest<u8>) -> Completion {
        Completion::Immediate
    }

    fn request_next(self, _message: TcpRequest<u8>) -> Self {
        self
    }

    fn request_response(self, _message: TcpRequest<u8>) -> Response<TcpResponse<u8>> {
        Response::Defer(0)
    }

    fn notify_resume_next(self, _signal: u32) -> Self {
        self
    }

    fn notify_resume_completion(self, _signal: u32) -> Completion {
        Completion::Immediate
    }

    fn request_resume_next(self, _signal: u32) -> Self {
        self
    }

    fn request_resume_response(self, _signal: u32) -> Response<TcpResponse<u8>> {
        Response::Defer(0)
    }

    fn start(&mut self, _address: Address) {}

    fn on_lifecycle(&mut self, _event: Lifecycle) -> Completion {
        Completion::Immediate
    }

    fn on_notification(&mut self, _message: TcpRequest<u8>) -> Completion {
        Completion::Immediate
    }

    fn on_request(&mut self, message: TcpRequest<u8>) -> Response<TcpResponse<u8>> {
        Response::Immediate(match message {
            TcpRequest::Open => {
                let handle = self.next_handle;
                self.next_handle += 1;
                TcpResponse::Open(Ok(handle))
            }
            TcpRequest::Connect(_, _, _) => TcpResponse::Connect(Ok(())),
            TcpRequest::Write(_, buf) => {
                let n = buf.len();
                self.written.extend(buf);
                TcpResponse::Write(Ok(n))
            }
            TcpRequest::Read(_, len) => TcpResponse::Read(Ok(len.min(4))),
            TcpRequest::Close(_) => TcpResponse::Close(Ok(())),
        })
    }

    fn on_notify_resume(&mut self, _signal: u32) -> Completion {
        Completion::Immediate
    }

    fn on_request_resume(&mut self, _signal: u32) -> Response<TcpResponse<u8>> {
        Response::Defer(0)
    }
}

impl TcpActor for Adapter {
    type SocketHandle = u8;

    fn open_message() -> TcpRequest<u8> {
        TcpRequest::Open
    }

    fn connect_message(_: u8, _: IpProtocol, _: SocketAddress) -> TcpRequest<u8> {
        TcpRequest::Open
    }

    fn write_message(_: u8, _: Vec<u8>) -> TcpRequest<u8> {
        TcpRequest::Open
    }

    fn read_message(_: u8, _: usize) -> TcpRequest<u8> {
        TcpRequest::Open
    }

    fn close_message(_: u8) -> TcpRequest<u8> {
        TcpRequest::Open
    }

    fn tcp_response_of(response: TcpResponse<u8>) -> TcpResponse<u8> {
        response
    }

    fn open() -> TcpRequest<u8> {
        TcpRequest::Open
    }

    fn connect(handle: u8, proto: IpProtocol, dst: SocketAddress) -> TcpRequest<u8> {
        TcpRequest::Connect(handle, proto, dst)
    }

    fn write(handle: u8, buf: Vec<u8>) -> TcpRequest<u8> {
        TcpRequest::Write(handle, buf)
    }

    fn read(handle: u8, len: usize) -> TcpRequest<u8> {
        TcpRequest::Read(handle, len)
    }

    fn close(handle: u8) -> TcpRequest<u8> {
        TcpRequest::Close(handle)
    }

    fn into_tcp_response(response: TcpResponse<u8>) -> TcpResponse<u8> {
        response
    }
}

fn endpoint() -> SocketAddress {
    SocketAddress { ip: [192, 168, 1, 2], port: 4433 }
}

#[test]
fn socket_session_through_the_adapter() {
    let mut ex: ActorExecutor<Adapter> = ActorExecutor::new();
    let addr = ex.activate_actor(ActorContext::new(
        Adapter { next_handle: 0, written: Vec::new() },
        8,
    ));

    // Open a socket through the adapter.
    let open = addr.open(&mut ex);
    ex.run_until_quiescence();
    let handle = Adapter::into_tcp_response(ex.poll_response(open).unwrap())
        .open()
        .unwrap();
    assert_eq!(handle, 0);

    let socket = Socket::new(addr, handle);

    // Connect, write, read, close; the adapter answers each in order.
    let connect = socket.connect(&mut ex, IpProtocol::Tcp, endpoint());
    let write = socket.write(&mut ex, vec![10, 20, 30]);
    let read = socket.read(&mut ex, 100);
    let close = socket.close(&mut ex);
    ex.run_until_quiescence();

    assert_eq!(ex.poll_response(connect).unwrap().connect(), Ok(()));
    assert_eq!(ex.poll_response(write).unwrap().write(), Ok(3));
    assert_eq!(ex.poll_response(read).unwrap().read(), Ok(4));
    assert_eq!(ex.poll_response(close).unwrap().close(), Ok(()));
    assert_eq!(ex.actor_ref(addr).written, vec![10, 20, 30]);

    // A second open hands out the next handle.
    let open = addr.open(&mut ex);
    ex.run_until_quiescence();
    assert_eq!(ex.poll_response(open).unwrap().open(), Ok(1));

    // A response consumed once is gone.
    assert!(ex.poll_response(open).is_none());
}

#[test]
fn mismatched_open_response_is_an_open_error() {
    let r: TcpResponse<u8> = TcpResponse::Write(Ok(1));
    assert_eq!(r.open(), Err(TcpError::OpenError));
}
