//! A WebSocket peer that runs as a client or a server and exchanges a
//! counter once a second. The library holds the decisions of the peer:
//! resolving the target host, composing the opening handshake, and the
//! client and server message loops as step functions. Sockets, timers and
//! the command line stay with the program that drives it.
pub mod client;
pub mod handshake;
pub mod server;
pub mod target;
pub mod verbosity;
