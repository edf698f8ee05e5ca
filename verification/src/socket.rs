//! A socket: a copyable handle for connecting to a network endpoint and
//! sending and receiving data through a TCP adapter actor.

use vstd::prelude::*;

use crate::actor::Address;
use crate::executor::ActorExecutor;
use crate::executor::RequestHandle;
use crate::executor::requested;
use crate::executor::wf;
use crate::tcp::IpProtocol;
use crate::tcp::SocketAddress;
use crate::tcp::TcpActor;

verus! {

/// A handle pairing the address of a TCP adapter actor with one of its socket
/// handles; each operation becomes a request routed to that actor.
#[derive(Clone, Copy)]
pub struct Socket<H: Copy> {
    pub address: Address,
    pub handle: H,
}

impl<H: Copy> Socket<H> {
    /// A socket over `handle`, operated through the adapter actor behind
    /// `address`.
    pub fn new(address: Address, handle: H) -> (s: Socket<H>)
        ensures
            s.address == address,
            s.handle == handle,
    {
        Socket { address, handle }
    }

    /// Issue a connect request for this socket; the returned handle resolves
    /// to the connect result.
    pub fn connect<T: TcpActor<SocketHandle = H>>(
        &self,
        executor: &mut ActorExecutor<T>,
        proto: IpProtocol,
        dst: SocketAddress,
    ) -> (r: RequestHandle)
        requires
            self.address.index < old(executor)@.actors.len(),
            old(executor)@.actors[self.address.index as int].mailbox.len() < old(
                executor,
            )@.actors[self.address.index as int].cap,
            old(executor)@.actors[self.address.index as int].ready < usize::MAX,
        ensures
            r.cell == old(executor)@.responses.len(),
            final(executor)@ == requested(
                old(executor)@,
                self.address.index as int,
                T::connect_message(self.handle, proto, dst),
            ),
            wf(old(executor)@) ==> wf(final(executor)@),
    {
        executor.request(self.address, T::connect(self.handle, proto, dst))
    }

    /// Issue a write request carrying `buf`; the returned handle resolves to
    /// how many bytes were written.
    pub fn write<T: TcpActor<SocketHandle = H>>(
        &self,
        executor: &mut ActorExecutor<T>,
        buf: Vec<u8>,
    ) -> (r: RequestHandle)
        requires
            self.address.index < old(executor)@.actors.len(),
            old(executor)@.actors[self.address.index as int].mailbox.len() < old(
                executor,
            )@.actors[self.address.index as int].cap,
            old(executor)@.actors[self.address.index as int].ready < usize::MAX,
        ensures
            r.cell == old(executor)@.responses.len(),
            final(executor)@ == requested(
                old(executor)@,
                self.address.index as int,
                T::write_message(self.handle, buf),
            ),
            wf(old(executor)@) ==> wf(final(executor)@),
    {
        executor.request(self.address, T::write(self.handle, buf))
    }

    /// Issue a read request for up to `len` bytes; the returned handle
    /// resolves to how many bytes were read.
    pub fn read<T: TcpActor<SocketHandle = H>>(
        &self,
        executor: &mut ActorExecutor<T>,
        len: usize,
    ) -> (r: RequestHandle)
        requires
            self.address.index < old(executor)@.actors.len(),
            old(executor)@.actors[self.address.index as int].mailbox.len() < old(
                executor,
            )@.actors[self.address.index as int].cap,
            old(executor)@.actors[self.address.index as int].ready < usize::MAX,
        ensures
            r.cell == old(executor)@.responses.len(),
            final(executor)@ == requested(
                old(executor)@,
                self.address.index as int,
                T::read_message(self.handle, len),
            ),
            wf(old(executor)@) ==> wf(final(executor)@),
    {
        executor.request(self.address, T::read(self.handle, len))
    }

    /// Issue a close request for this socket; the returned handle resolves to
    /// the close result.
    pub fn close<T: TcpActor<SocketHandle = H>>(&self, executor: &mut ActorExecutor<T>) -> (r:
        RequestHandle)
        requires
            self.address.index < old(executor)@.actors.len(),
            old(executor)@.actors[self.address.index as int].mailbox.len() < old(
                executor,
            )@.actors[self.address.index as int].cap,
            old(executor)@.actors[self.address.index as int].ready < usize::MAX,
        ensures
            r.cell == old(executor)@.responses.len(),
            final(executor)@ == requested(
                old(executor)@,
                self.address.index as int,
                T::close_message(self.handle),
            ),
            wf(old(executor)@) ==> wf(final(executor)@),
    {
        executor.request(self.address, T::close(self.handle))
    }
}

} // verus!
