//! State machines around network sockets.
//!
//! There are three kinds: a transport drives one socket, a server accepts
//! connections and spawns a transport for each, and a client spawns
//! transports for requests from within the application.

pub mod clear;
pub mod machines;
pub mod secure;
