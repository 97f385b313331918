//! A socket transport shim: stream and listening sockets whose network
//! processing happens in a separate network service, reached through
//! synchronous messages that lend one 4096-byte page.
//!
//! This library holds everything that is decided or computed on the caller's
//! side: the byte layout of each request and reply, the mapping of remote
//! error codes, and the state of stream and listener handles. Every socket
//! operation that needs the service comes as a pair: a `*_request` function
//! that builds the message to send, and the operation itself, which takes what
//! the service handed back and gives the typed result. Carrying the message to
//! the service is left to the caller.

pub mod error;
pub mod net;
pub mod path;
pub mod thread;
pub mod time;
