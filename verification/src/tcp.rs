//! TCP boundary interface: the request/response vocabulary a network adapter
//! actor speaks, and the mapping from the socket API onto it.
//!
//! Concrete adapters (a Wi-Fi modem, an on-chip stack) implement [`TcpActor`]
//! to translate these operations into their own message type; the core routes
//! them through the ordinary request path.

use vstd::prelude::*;

use crate::actor::Actor;
use crate::actor::Address;
use crate::executor::ActorExecutor;
use crate::executor::RequestHandle;
use crate::executor::requested;
use crate::executor::wf;

verus! {

/// Errors of the TCP boundary.
#[derive(Clone, Copy, PartialEq, Eq, Structural, Debug)]
pub enum TcpError {
    OpenError,
    ConnectError,
    WriteError,
    ReadError,
    CloseError,
    SocketClosed,
}

/// Transport selector for connect requests.
#[derive(Clone, Copy, PartialEq, Eq, Structural, Debug)]
pub enum IpProtocol {
    Tcp,
    Udp,
}

/// A network endpoint: four address octets and a port.
#[derive(Clone, Copy, PartialEq, Eq, Debug)]
pub struct SocketAddress {
    pub ip: [u8; 4],
    pub port: u16,
}

/// An operation requested of a TCP adapter actor, over socket handles of type
/// `H`.
pub enum TcpRequest<H> {
    Open,
    Connect(H, IpProtocol, SocketAddress),
    Write(H, Vec<u8>),
    Read(H, usize),
    Close(H),
}

/// What a TCP adapter actor answers: one result per operation kind.
#[derive(Debug)]
pub enum TcpResponse<H> {
    Open(Result<H, TcpError>),
    Connect(Result<(), TcpError>),
    Write(Result<usize, TcpError>),
    Read(Result<usize, TcpError>),
    Close(Result<(), TcpError>),
}

/// The handle an `Open` response carries, or `OpenError` for a failed or
/// mismatched response.
pub open spec fn open_result<H>(r: TcpResponse<H>) -> Result<H, TcpError> {
    match r {
        TcpResponse::Open(Result::Ok(h)) => Result::Ok(h),
        _ => Result::Err(TcpError::OpenError),
    }
}

impl<H> TcpResponse<H> {
    /// Extract the result of an `Open` operation; any other shape is an open
    /// error.
    pub fn open(self) -> (r: Result<H, TcpError>)
        ensures
            r == open_result(self),
    {
        match self {
            TcpResponse::Open(Result::Ok(handle)) => Result::Ok(handle),
            _ => Result::Err(TcpError::OpenError),
        }
    }

    /// Extract the result of a `Connect` operation. A response of any other
    /// kind is a protocol defect, excluded here.
    pub fn connect(self) -> (r: Result<(), TcpError>)
        requires
            self is Connect,
        ensures
            self matches TcpResponse::Connect(res) && r == res,
    {
        match self {
            TcpResponse::Connect(result) => result,
            _ => Result::Err(TcpError::ConnectError),
        }
    }

    /// Extract the result of a `Write` operation. A response of any other
    /// kind is a protocol defect, excluded here.
    pub fn write(self) -> (r: Result<usize, TcpError>)
        requires
            self is Write,
        ensures
            self matches TcpResponse::Write(res) && r == res,
    {
        match self {
            TcpResponse::Write(result) => result,
            _ => Result::Err(TcpError::WriteError),
        }
    }

    /// Extract the result of a `Read` operation. A response of any other kind
    /// is a protocol defect, excluded here.
    pub fn read(self) -> (r: Result<usize, TcpError>)
        requires
            self is Read,
        ensures
            self matches TcpResponse::Read(res) && r == res,
    {
        match self {
            TcpResponse::Read(result) => result,
            _ => Result::Err(TcpError::ReadError),
        }
    }

    /// Extract the result of a `Close` operation. A response of any other
    /// kind is a protocol defect, excluded here.
    pub fn close(self) -> (r: Result<(), TcpError>)
        requires
            self is Close,
        ensures
            self matches TcpResponse::Close(res) && r == res,
    {
        match self {
            TcpResponse::Close(result) => result,
            _ => Result::Err(TcpError::CloseError),
        }
    }
}

/// The mapping from the socket API onto an adapter actor's own message and
/// response types, implemented by each concrete adapter.
pub trait TcpActor: Actor {
    /// The adapter's socket handle.
    type SocketHandle: Copy;

    /// The message that opens a socket.
    spec fn open_message() -> Self::Message;

    /// The message that connects a socket to an endpoint.
    spec fn connect_message(
        handle: Self::SocketHandle,
        proto: IpProtocol,
        dst: SocketAddress,
    ) -> Self::Message;

    /// The message that writes the given bytes on a socket.
    spec fn write_message(handle: Self::SocketHandle, buf: Vec<u8>) -> Self::Message;

    /// The message that reads up to `len` bytes from a socket.
    spec fn read_message(handle: Self::SocketHandle, len: usize) -> Self::Message;

    /// The message that closes a socket.
    spec fn close_message(handle: Self::SocketHandle) -> Self::Message;

    /// The adapter's response translated into the TCP vocabulary.
    spec fn tcp_response_of(response: Self::Response) -> TcpResponse<Self::SocketHandle>;

    /// Build the message that opens a socket.
    fn open() -> (m: Self::Message)
        ensures
            m == Self::open_message(),
    ;

    /// Build the message that connects a socket to an endpoint.
    fn connect(handle: Self::SocketHandle, proto: IpProtocol, dst: SocketAddress) -> (m:
        Self::Message)
        ensures
            m == Self::connect_message(handle, proto, dst),
    ;

    /// Build the message that writes the given bytes on a socket.
    fn write(handle: Self::SocketHandle, buf: Vec<u8>) -> (m: Self::Message)
        ensures
            m == Self::write_message(handle, buf),
    ;

    /// Build the message that reads up to `len` bytes from a socket.
    fn read(handle: Self::SocketHandle, len: usize) -> (m: Self::Message)
        ensures
            m == Self::read_message(handle, len),
    ;

    /// Build the message that closes a socket.
    fn close(handle: Self::SocketHandle) -> (m: Self::Message)
        ensures
            m == Self::close_message(handle),
    ;

    /// Translate the adapter's response into the TCP vocabulary.
    fn into_tcp_response(response: Self::Response) -> (r: TcpResponse<Self::SocketHandle>)
        ensures
            r == Self::tcp_response_of(response),
    ;
}

impl Address {
    /// Issue an `Open` request to the adapter actor behind this address; the
    /// returned handle resolves to the new socket handle.
    pub fn open<T: TcpActor>(&self, executor: &mut ActorExecutor<T>) -> (handle: RequestHandle)
        requires
            self.index < old(executor)@.actors.len(),
            old(executor)@.actors[self.index as int].mailbox.len() < old(executor)@.actors[
                self.index as int
            ].cap,
            old(executor)@.actors[self.index as int].ready < usize::MAX,
        ensures
            handle.cell == old(executor)@.responses.len(),
            final(executor)@ == requested(old(executor)@, self.index as int, T::open_message()),
            wf(old(executor)@) ==> wf(final(executor)@),
    {
        executor.request(*self, T::open())
    }
}

} // verus!
