//! Stream and listening sockets over the network service.

pub mod addr;
pub mod codec;
pub mod netc;
pub mod refcount;
pub mod tcplistener;
pub mod tcpstream;
pub mod udp;
pub mod wire;
