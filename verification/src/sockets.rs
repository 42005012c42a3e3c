//! Capabilities the machines ask of a socket.
//!
//! The machines never name a concrete socket. A transport socket reports
//! and clears its pending error and may report that it is blocked in one
//! direction; a listener hands out the connections that wait on it; both
//! can register themselves with the reactor.

use crate::error::Error;
use crate::events::Events;
use vstd::prelude::*;

verus! {

//------------ SocketAddr ----------------------------------------------------

/// The address of a peer.
#[derive(Clone, Copy, Debug, PartialEq, Eq)]
pub enum SocketAddr {
    /// The four bytes of an IPv4 address, and a port.
    V4([u8; 4], u16),
    /// The sixteen bytes of an IPv6 address, a port, the flow information
    /// and the scope.
    V6([u8; 16], u16, u32, u32),
}

//------------ Blocked -------------------------------------------------------

/// The direction in which a transport cannot currently make progress,
/// whatever its handler asked for: an encrypted stream in the middle of
/// its handshake may have to read before it can write.
#[derive(Clone, Copy, Debug, PartialEq, Eq, Hash, Structural)]
pub enum Blocked {
    Read,
    Write,
}

//------------ Evented -------------------------------------------------------

/// A socket that can be registered with a reactor through the handle `R`.
pub trait Evented<R> {
    /// Registers the socket for `interest`.
    fn register(&self, reactor: &mut R, interest: Events) -> Result<(), std::io::Error>;

    /// Replaces the events the socket is registered for by `interest`.
    fn reregister(&self, reactor: &mut R, interest: Events) -> Result<(), std::io::Error>;

    /// Takes the socket out of the reactor.
    fn deregister(&self, reactor: &mut R) -> Result<(), std::io::Error>;
}

//------------ Accept --------------------------------------------------------

/// A listener socket.
pub trait Accept {
    /// The socket type produced by accepting.
    type Output: Transport;

    /// Accepts one connection that waits on the listener, without
    /// blocking. Returns the new socket and the peer's address, or `None`
    /// if no connection is pending.
    fn accept(&self) -> Result<Option<(Self::Output, SocketAddr)>, Error>;
}

//------------ Transport -----------------------------------------------------

/// A transport socket.
pub trait Transport {
    /// Reports and clears the error that is pending on the socket.
    fn take_socket_error(&mut self) -> Result<(), std::io::Error>;

    /// The direction in which the socket is blocked, if it is.
    fn blocked(&self) -> Option<Blocked> {
        None
    }
}

//------------ Stream -------------------------------------------------------

/// A stream socket: a sequenced, reliable, two-way stream of bytes. The
/// socket never blocks: where it is not ready, reading and writing fail
/// with the error for that.
pub trait Stream: Transport {
    /// Reads bytes into `buf` and returns how many were read. Zero bytes
    /// read into a buffer that is not empty mean that the peer has shut
    /// the stream down.
    fn read(&mut self, buf: &mut [u8]) -> Result<usize, std::io::Error>;

    /// Writes bytes of `buf` and returns how many were written.
    fn write(&mut self, buf: &[u8]) -> Result<usize, std::io::Error>;

    /// Sends on what is buffered.
    fn flush(&mut self) -> Result<(), std::io::Error>;
}

//------------ ClearStream ---------------------------------------------------

/// An unencrypted stream socket.
pub trait ClearStream: Stream {

}

//------------ SecureStream --------------------------------------------------

/// An encrypted stream socket. Reading and writing may fail for want of
/// readiness even where readiness was reported, because the encryption
/// layer has work of its own to do.
pub trait SecureStream: Stream {

}

//------------ HybridStream --------------------------------------------------

/// A stream socket that starts unencrypted and can switch encryption on.
pub trait HybridStream: Stream {
    /// Starts the handshake as the connecting side.
    fn connect_secure(&mut self) -> Result<(), Error>;

    /// Starts the handshake as the accepting side.
    fn accept_secure(&mut self) -> Result<(), Error>;

    /// Whether the stream is encrypted.
    fn is_secure(&self) -> bool;
}

//------------ Dgram ---------------------------------------------------------

/// An unencrypted datagram socket.
pub trait Dgram: Transport {
    /// Receives one message into `buf`. Returns its length and sender, or
    /// `None` if no message is pending.
    fn recv_from(&self, buf: &mut [u8]) -> Result<Option<(usize, SocketAddr)>, std::io::Error>;

    /// Sends `buf` to `target`. Returns the number of bytes sent, or `None`
    /// if the socket is not writable.
    fn send_to(&self, buf: &[u8], target: &SocketAddr) -> Result<Option<usize>, std::io::Error>;
}

//------------ ClearDgram ---------------------------------------------------

/// A datagram socket that sends its messages as they are.
pub trait ClearDgram: Dgram {

}

//------------ SecureDgram --------------------------------------------------

/// A datagram socket that encrypts its messages on the way.
pub trait SecureDgram: Dgram {

}

//------------ Encrypted streams ----------------------------------------------

/// How one read or write on the encryption layer of a stream ended.
pub enum SecureResult {
    /// So many bytes were read or written.
    Done(usize),
    /// The peer has closed the encrypted stream in good order.
    ZeroReturn,
    /// The layer has to read from the socket before it can go on.
    WantRead(std::io::Error),
    /// The layer has to write to the socket before it can go on.
    WantWrite(std::io::Error),
    /// The socket below the layer failed.
    Stream(std::io::Error),
    /// The layer itself failed.
    Other(std::io::Error),
}

/// What an encrypted stream makes of the end of one read or write: the
/// direction in which it is blocked from now on, and what the read or write
/// returns. An orderly close reads as zero bytes. A stream that has to read
/// or to write first is blocked in that direction and hands on the error
/// that says so; after anything else it is not blocked.
pub fn translate_result(res: SecureResult) -> (out: (Option<Blocked>, Result<usize, std::io::Error>))
    ensures
        match res {
            SecureResult::Done(n) => out == (None::<Blocked>, Ok::<usize, std::io::Error>(n)),
            SecureResult::ZeroReturn => out == (None::<Blocked>, Ok::<usize, std::io::Error>(0)),
            SecureResult::WantRead(err) => out == (
                Some(Blocked::Read),
                Err::<usize, std::io::Error>(err),
            ),
            SecureResult::WantWrite(err) => out == (
                Some(Blocked::Write),
                Err::<usize, std::io::Error>(err),
            ),
            SecureResult::Stream(err) => out == (None::<Blocked>, Err::<usize, std::io::Error>(err)),
            SecureResult::Other(err) => out == (None::<Blocked>, Err::<usize, std::io::Error>(err)),
        },
{
    match res {
        SecureResult::Done(n) => (None, Ok(n)),
        SecureResult::ZeroReturn => (None, Ok(0)),
        SecureResult::WantRead(err) => (Some(Blocked::Read), Err(err)),
        SecureResult::WantWrite(err) => (Some(Blocked::Write), Err(err)),
        SecureResult::Stream(err) => (None, Err(err)),
        SecureResult::Other(err) => (None, Err(err)),
    }
}

} // verus!
