//! Traits for handlers.
//!
//! A machine does its work through a handler. An [`AcceptHandler`] decides
//! on the connections that come in on a listener, a [`RequestHandler`]
//! turns requests from within the application into transports, and a
//! [`TransportHandler`] is the behaviour of one transport socket.

use crate::error::Error;
use crate::next::Next;
use crate::sockets::SocketAddr;
use rotor::Notifier;
use vstd::prelude::*;

verus! {

/// Decides on incoming connections. `T` is the transport socket of the
/// connections, not the listener.
pub trait AcceptHandler<T> {
    /// The transport handler that is created for an accepted connection.
    type Output: TransportHandler<T>;

    /// Decides on a connection from `addr`: returns the seed for its
    /// transport handler, or `None` to have it closed at once.
    fn accept(&mut self, addr: &SocketAddr) -> Option<<Self::Output as TransportHandler<T>>::Seed>;
}

/// Turns requests into what a new transport is made of.
pub trait RequestHandler {
    type Request: Send;

    type Output;

    /// Handles one request: returns what the transport is to be made of,
    /// or `None` to drop the request.
    fn request(&mut self, request: Self::Request) -> Option<Self::Output>;

    /// Called with what `request` returned when no transport could be
    /// made of it.
    fn error(&mut self, output: Self::Output, err: Error) {
    }
}

/// The behaviour of one transport socket of type `T`. The handler never
/// keeps the socket: it sees it for the time of one call.
pub trait TransportHandler<T>: Sized {
    type Seed;

    /// Creates the handler for a new socket. `notifier` wakes up the
    /// machine of this handler.
    fn create(seed: Self::Seed, sock: &mut T, notifier: Notifier) -> Next<Self>;

    /// Called when the socket becomes readable.
    fn readable(self, sock: &mut T) -> Next<Self>;

    /// Called when the socket becomes writable.
    fn writable(self, sock: &mut T) -> Next<Self>;

    /// Called when the machine was woken up through its notifier.
    fn wakeup(self) -> Next<Self>;

    /// Called when an error has occured on the socket or a deadline has
    /// passed. Any answer is in order; unless the handler says otherwise,
    /// the machine is removed.
    fn error(self, err: Error) -> Next<Self> {
        Next::remove()
    }

    /// Called once the handler has answered `Next::remove()` and the socket
    /// is out of the reactor. The socket is moved in: this is the last
    /// chance to keep it.
    fn remove(sock: T) {
    }
}

} // verus!
