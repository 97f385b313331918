//! The datagram socket, which this platform does not have: nothing makes
//! one, and every operation says that it is not supported.

use crate::error::{unsupported, Error, ErrorKind};
use crate::net::addr::{Ipv4Addr, Ipv6Addr, SocketAddr};
use crate::time::Duration;
use vstd::prelude::*;

verus! {

/// A datagram socket. No function of this library makes one.
#[derive(Debug)]
pub struct UdpSocket {
    never: (),
}

/// The failure of every datagram operation.
pub open spec fn not_supported<T>(r: Result<T, Error>) -> bool {
    r is Err && r->Err_0.is(ErrorKind::Unsupported, "operation not supported on this platform")
}

impl UdpSocket {
    pub fn bind(addr: Result<&SocketAddr, Error>) -> (r: Result<UdpSocket, Error>)
        ensures
            not_supported(r),
    {
        Err(unsupported())
    }

    pub fn peer_addr(&self) -> (r: Result<SocketAddr, Error>)
        ensures
            not_supported(r),
    {
        Err(unsupported())
    }

    pub fn socket_addr(&self) -> (r: Result<SocketAddr, Error>)
        ensures
            not_supported(r),
    {
        Err(unsupported())
    }

    pub fn recv_from(&self, buf: &mut [u8]) -> (r: Result<(usize, SocketAddr), Error>)
        ensures
            not_supported(r),
            final(buf)@ == old(buf)@,
    {
        Err(unsupported())
    }

    pub fn peek_from(&self, buf: &mut [u8]) -> (r: Result<(usize, SocketAddr), Error>)
        ensures
            not_supported(r),
            final(buf)@ == old(buf)@,
    {
        Err(unsupported())
    }

    pub fn send_to(&self, buf: &[u8], addr: &SocketAddr) -> (r: Result<usize, Error>)
        ensures
            not_supported(r),
    {
        Err(unsupported())
    }

    pub fn duplicate(&self) -> (r: Result<UdpSocket, Error>)
        ensures
            not_supported(r),
    {
        Err(unsupported())
    }

    pub fn set_read_timeout(&self, timeout: Option<Duration>) -> (r: Result<(), Error>)
        ensures
            not_supported(r),
    {
        Err(unsupported())
    }

    pub fn set_write_timeout(&self, timeout: Option<Duration>) -> (r: Result<(), Error>)
        ensures
            not_supported(r),
    {
        Err(unsupported())
    }

    pub fn read_timeout(&self) -> (r: Result<Option<Duration>, Error>)
        ensures
            not_supported(r),
    {
        Err(unsupported())
    }

    pub fn write_timeout(&self) -> (r: Result<Option<Duration>, Error>)
        ensures
            not_supported(r),
    {
        Err(unsupported())
    }

    pub fn set_broadcast(&self, broadcast: bool) -> (r: Result<(), Error>)
        ensures
            not_supported(r),
    {
        Err(unsupported())
    }

    pub fn broadcast(&self) -> (r: Result<bool, Error>)
        ensures
            not_supported(r),
    {
        Err(unsupported())
    }

    pub fn set_multicast_loop_v4(&self, multicast_loop_v4: bool) -> (r: Result<(), Error>)
        ensures
            not_supported(r),
    {
        Err(unsupported())
    }

    pub fn multicast_loop_v4(&self) -> (r: Result<bool, Error>)
        ensures
            not_supported(r),
    {
        Err(unsupported())
    }

    pub fn set_multicast_ttl_v4(&self, multicast_ttl_v4: u32) -> (r: Result<(), Error>)
        ensures
            not_supported(r),
    {
        Err(unsupported())
    }

    pub fn multicast_ttl_v4(&self) -> (r: Result<u32, Error>)
        ensures
            not_supported(r),
    {
        Err(unsupported())
    }

    pub fn set_multicast_loop_v6(&self, multicast_loop_v6: bool) -> (r: Result<(), Error>)
        ensures
            not_supported(r),
    {
        Err(unsupported())
    }

    pub fn multicast_loop_v6(&self) -> (r: Result<bool, Error>)
        ensures
            not_supported(r),
    {
        Err(unsupported())
    }

    pub fn join_multicast_v4(
        &self,
        multiaddr: &Ipv4Addr,
        interface: &Ipv4Addr,
    ) -> (r: Result<(), Error>)
        ensures
            not_supported(r),
    {
        Err(unsupported())
    }

    pub fn join_multicast_v6(&self, multiaddr: &Ipv6Addr, interface: u32) -> (r: Result<(), Error>)
        ensures
            not_supported(r),
    {
        Err(unsupported())
    }

    pub fn leave_multicast_v4(
        &self,
        multiaddr: &Ipv4Addr,
        interface: &Ipv4Addr,
    ) -> (r: Result<(), Error>)
        ensures
            not_supported(r),
    {
        Err(unsupported())
    }

    pub fn leave_multicast_v6(&self, multiaddr: &Ipv6Addr, interface: u32) -> (r: Result<(), Error>)
        ensures
            not_supported(r),
    {
        Err(unsupported())
    }

    pub fn set_ttl(&self, ttl: u32) -> (r: Result<(), Error>)
        ensures
            not_supported(r),
    {
        Err(unsupported())
    }

    pub fn ttl(&self) -> (r: Result<u32, Error>)
        ensures
            not_supported(r),
    {
        Err(unsupported())
    }

    pub fn take_error(&self) -> (r: Result<Option<Error>, Error>)
        ensures
            not_supported(r),
    {
        Err(unsupported())
    }

    pub fn set_nonblocking(&self, nonblocking: bool) -> (r: Result<(), Error>)
        ensures
            not_supported(r),
    {
        Err(unsupported())
    }

    pub fn recv(&self, buf: &mut [u8]) -> (r: Result<usize, Error>)
        ensures
            not_supported(r),
            final(buf)@ == old(buf)@,
    {
        Err(unsupported())
    }

    pub fn peek(&self, buf: &mut [u8]) -> (r: Result<usize, Error>)
        ensures
            not_supported(r),
            final(buf)@ == old(buf)@,
    {
        Err(unsupported())
    }

    pub fn send(&self, buf: &[u8]) -> (r: Result<usize, Error>)
        ensures
            not_supported(r),
    {
        Err(unsupported())
    }

    pub fn connect(&self, addr: Result<&SocketAddr, Error>) -> (r: Result<(), Error>)
        ensures
            not_supported(r),
    {
        Err(unsupported())
    }
}

} // verus!
