//! Composable state machines for networking on top of a readiness-based
//! event reactor.
//!
//! A protocol author writes what happens when a socket becomes readable or
//! writable. The machines of this crate decide when the reactor is asked
//! to notify again, how several pending interests combine, how accepted
//! connections and outgoing requests spawn new machines, and how other
//! threads hand data to the thread that runs the reactor.

pub mod compose;
pub mod error;
pub mod events;
pub mod handlers;
pub mod machine;
pub mod net;
pub mod next;
pub mod request;
pub mod response;
pub mod scope;
pub mod sockets;
pub mod sync;
pub mod time;

pub use error::Error;
pub use handlers::AcceptHandler;
pub use handlers::RequestHandler;
pub use handlers::TransportHandler;
