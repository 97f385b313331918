//! The listening socket: one remote listener that the network service holds,
//! named by the handle that the service gave it, and shared by every
//! duplicate of the socket.
//!
//! Each operation that needs the service is a pair. The `*_request` function
//! says what to send; the operation of the plain name takes what came back
//! and gives the result.

use crate::error::{
    fails_with,
    remote_error,
    spec_error_kind,
    unimplemented,
    Error,
    ErrorKind,
    NetError,
};
use crate::net::addr::SocketAddr;
use crate::net::codec::{
    accept_page,
    bind_page,
    decode_accepted,
    encode_accept,
    encode_bind,
    parse_accepted,
};
use crate::net::refcount::{is_last, spec_is_last, HandleCount};
use crate::net::tcpstream::{completed, low_word, scalar_word, StreamState, TcpStream};
use crate::net::wire::{
    opcode,
    spec_opcode,
    CallResult,
    Endpoint,
    LendReply,
    LendRequest,
    ScalarRequest,
    OP_ACCEPT,
    OP_GET_TTL,
    OP_LISTEN,
    OP_LISTENER_CLOSE,
    OP_SET_TTL,
};
use vstd::prelude::*;

verus! {

/// A listening socket, or one of its duplicates. A handle is destroyed by
/// `close`, which says whether the remote listener has to be torn down; one
/// that is let go without it stays counted.
#[derive(Debug)]
pub struct TcpListener {
    fd: u16,
    local: SocketAddr,
    handle_count: HandleCount,
    nonblocking: bool,
}

/// What a listening socket is: the handle of the remote listener and the
/// address it was bound to, both fixed at bind time, and whether the next
/// accept answers at once.
pub struct ListenerState {
    pub handle: u16,
    pub local: SocketAddr,
    pub nonblocking: bool,
}

impl View for TcpListener {
    type V = ListenerState;

    closed spec fn view(&self) -> ListenerState {
        ListenerState { handle: self.fd, local: self.local, nonblocking: self.nonblocking }
    }
}

/// Why the teardown of a remote listener did not go well.
#[derive(Clone, Copy, Debug, PartialEq, Eq, Structural)]
pub enum CloseFailure {
    /// The service answered with this code.
    Code(usize),
    /// The call failed, or something other than one word came back.
    Internal,
}

/// A listen reply that announces a listener: the page came back with a
/// declared length and its status byte is 0.
pub open spec fn bound(reply: LendReply) -> bool {
    reply.result.returned_some() && reply.page@[0] == 0
}

/// The text that goes with a remote error code, and `fallback` for a code
/// that stands for no known failure.
pub open spec fn remote_message(code: u8, fallback: &'static str) -> &'static str {
    match NetError::spec_from_code(code) {
        Some(n) => n.spec_message(),
        None => fallback,
    }
}

/// The request that tears the remote listener `handle` down.
pub open spec fn close_request(handle: u16) -> ScalarRequest {
    ScalarRequest {
        target: Endpoint::Service,
        opcode: spec_opcode(OP_LISTENER_CLOSE, handle),
        arg: 0,
    }
}

impl TcpListener {
    /// This handle and `other` are counted together: they hold one and the
    /// same count, as every duplicate does with the handle it was made from.
    pub closed spec fn shares_count(self, other: TcpListener) -> bool {
        self.handle_count.same_count(other.handle_count)
    }

    /// To be counted together is an equivalence: a duplicate of a duplicate
    /// is counted with the first handle.
    pub proof fn lemma_shares_count(self, b: TcpListener, c: TcpListener)
        ensures
            self.shares_count(self),
            self.shares_count(b) ==> b.shares_count(self),
            self.shares_count(b) && b.shares_count(c) ==> self.shares_count(c),
    {
        self.handle_count.lemma_same_count(b.handle_count, c.handle_count);
    }

    /// What to send to listen on `addr`. An address that could not be had is
    /// handed back as the failure it is.
    pub fn bind_request(addr: Result<&SocketAddr, Error>) -> (r: Result<LendRequest, Error>)
        ensures
            match addr {
                Ok(a) => r is Ok && r->Ok_0.opcode == OP_LISTEN && r->Ok_0.page@ == bind_page(a@)
                    && r->Ok_0.offset == 0 && r->Ok_0.valid == 4096,
                Err(e) => r == Err::<LendRequest, Error>(e),
            },
    {
        match addr {
            Ok(a) => Ok(
                LendRequest { opcode: OP_LISTEN, page: encode_bind(a), offset: 0, valid: 4096 },
            ),
            Err(e) => Err(e),
        }
    }

    /// The listener that a bind to `addr` made, given the service's reply.
    ///
    /// A reply that came back with a declared length and status 0 announces
    /// the listener, whose handle is byte 1. In any other reply that came
    /// back, byte 1 is the code of the failure. The new listener has one
    /// handle and waits in accept.
    pub fn bind(addr: Result<&SocketAddr, Error>, reply: &LendReply) -> (r: Result<
        TcpListener,
        Error,
    >)
        ensures
            match addr {
                Ok(a) => match r {
                    Ok(l) => bound(*reply) && l@ == (ListenerState {
                        handle: reply.page@[1] as u16,
                        local: *a,
                        nonblocking: false,
                    }),
                    Err(e) => !bound(*reply) && if reply.result.returned() {
                        e.kind == spec_error_kind(reply.page@[1]) && e.message == remote_message(
                            reply.page@[1],
                            "Unable to connect or internal error",
                        )
                    } else {
                        e.is(ErrorKind::InvalidInput, "Invalid response")
                    },
                },
                Err(e) => r is Err && r->Err_0 == e,
            },
    {
        let a: &SocketAddr = match addr {
            Ok(a) => a,
            Err(e) => {
                return Err(e);
            },
        };
        match reply.result {
            CallResult::MemoryReturned { offset: _, valid } => {
                if reply.page[0] != 0 || valid == 0 {
                    return Err(remote_error(reply.page[1], "Unable to connect or internal error"));
                }
                Ok(
                    TcpListener {
                        fd: reply.page[1] as u16,
                        local: *a,
                        handle_count: HandleCount::new(),
                        nonblocking: false,
                    },
                )
            },
            _ => Err(Error::new(ErrorKind::InvalidInput, "Invalid response")),
        }
    }

    /// The address that the listener was bound to.
    pub fn socket_addr(&self) -> (r: Result<SocketAddr, Error>)
        ensures
            r == Ok::<SocketAddr, Error>(self@.local),
    {
        Ok(self.local)
    }

    /// What to send to accept a connection. Byte 0 of the page tells the
    /// service whether to wait for one.
    pub fn accept_request(&self) -> (req: LendRequest)
        ensures
            req.opcode == spec_opcode(OP_ACCEPT, self@.handle),
            req.page@ == accept_page(self@.nonblocking),
            req.offset == 0,
            req.valid == 0,
    {
        LendRequest {
            opcode: opcode(OP_ACCEPT, self.fd),
            page: encode_accept(self.nonblocking),
            offset: 0,
            valid: 0,
        }
    }

    /// The stream for the connection that an accept brought, and the address
    /// of its peer, given the service's reply.
    ///
    /// A reply that came back with status 0 announces a connection: its
    /// handle, the peer's address and the peer's port stand at fixed places
    /// in the page. The stream has the listener's port as its local port and
    /// no timeouts. In a reply that came back with another status, byte 1 is
    /// the code of the failure.
    pub fn accept(&self, reply: &LendReply) -> (r: Result<(TcpStream, SocketAddr), Error>)
        ensures
            match r {
                Ok((stream, peer)) => reply.result.returned() && reply.page@[0] == 0
                    && parse_accepted(reply.page@) is Some && parse_accepted(reply.page@)->Some_0.1
                    == peer@ && stream@ == (StreamState {
                    handle: parse_accepted(reply.page@)->Some_0.0,
                    local_port: self@.local.port,
                    remote_port: peer.port,
                    peer,
                    read_timeout: 0,
                    write_timeout: 0,
                }),
                Err(e) => if !reply.result.returned() {
                    e.is(ErrorKind::InvalidInput, "Unable to accept")
                } else if reply.page@[0] != 0 {
                    e.kind == spec_error_kind(reply.page@[1]) && e.message == remote_message(
                        reply.page@[1],
                        "library error",
                    )
                } else {
                    parse_accepted(reply.page@) is None && e.is(ErrorKind::Other, "library error")
                },
            },
    {
        match reply.result {
            CallResult::MemoryReturned { offset: _, valid: _ } => {
                if reply.page[0] != 0 {
                    return Err(remote_error(reply.page[1], "library error"));
                }
                match decode_accepted(&reply.page) {
                    Some((fd, peer)) => {
                        let stream = TcpStream::from_listener(
                            fd,
                            self.local.port(),
                            peer.port(),
                            peer,
                        );
                        Ok((stream, peer))
                    },
                    None => Err(Error::new(ErrorKind::Other, "library error")),
                }
            },
            _ => Err(Error::new(ErrorKind::InvalidInput, "Unable to accept")),
        }
    }

    /// Another handle for the same remote listener. It is counted with the
    /// others, and nothing is sent.
    pub fn duplicate(&self) -> (r: Result<TcpListener, Error>)
        ensures
            r is Ok,
            r->Ok_0@ == self@,
            r->Ok_0.shares_count(*self),
    {
        Ok(
            TcpListener {
                fd: self.fd,
                local: self.local,
                handle_count: self.handle_count.acquire(),
                nonblocking: self.nonblocking,
            },
        )
    }

    /// What to send to set the time-to-live.
    pub fn set_ttl_request(&self, ttl: u32) -> (req: ScalarRequest)
        ensures
            req == (ScalarRequest {
                target: Endpoint::Service,
                opcode: spec_opcode(OP_SET_TTL, self@.handle),
                arg: ttl as usize,
            }),
    {
        ScalarRequest {
            target: Endpoint::Service,
            opcode: opcode(OP_SET_TTL, self.fd),
            arg: ttl as usize,
        }
    }

    /// Whether the time-to-live was taken: it was where one word came back.
    pub fn set_ttl(&self, result: CallResult) -> (r: Result<(), Error>)
        ensures
            r is Ok <==> result is Scalar1,
            r is Err ==> fails_with(r, ErrorKind::InvalidInput, "Unexpected return value"),
    {
        completed(result)
    }

    /// What to send to ask for the time-to-live.
    pub fn ttl_request(&self) -> (req: ScalarRequest)
        ensures
            req == (ScalarRequest {
                target: Endpoint::Service,
                opcode: spec_opcode(OP_GET_TTL, self@.handle),
                arg: 0,
            }),
    {
        ScalarRequest { target: Endpoint::Service, opcode: opcode(OP_GET_TTL, self.fd), arg: 0 }
    }

    /// The time-to-live, given the service's answer: the low 32 bits of the
    /// one word that came back.
    pub fn ttl(&self, result: CallResult) -> (r: Result<u32, Error>)
        ensures
            match result {
                CallResult::Scalar1(v) => r == Ok::<u32, Error>(low_word(v)),
                _ => fails_with(r, ErrorKind::InvalidInput, "Unexpected return value"),
            },
    {
        scalar_word(result)
    }

    pub fn set_only_v6(&self, only_v6: bool) -> (r: Result<(), Error>)
        ensures
            fails_with(r, ErrorKind::Unsupported, "This function is not yet implemented"),
    {
        Err(unimplemented())
    }

    pub fn only_v6(&self) -> (r: Result<bool, Error>)
        ensures
            fails_with(r, ErrorKind::Unsupported, "This function is not yet implemented"),
    {
        Err(unimplemented())
    }

    /// There is no error to take: a socket keeps none here.
    pub fn take_error(&self) -> (r: Result<Option<Error>, Error>)
        ensures
            r == Ok::<Option<Error>, Error>(None),
    {
        Ok(None)
    }

    /// Chooses whether the next accept answers at once. Nothing is sent.
    pub fn set_nonblocking(&mut self, nonblocking: bool) -> (r: Result<(), Error>)
        ensures
            r is Ok,
            final(self)@ == (ListenerState { nonblocking, ..old(self)@ }),
    {
        self.nonblocking = nonblocking;
        Ok(())
    }

    /// Destroys this handle. Where it was the last one, the result is the
    /// request that tears the remote listener down; else nothing is to be
    /// sent.
    pub fn close(self) -> (r: Option<ScalarRequest>)
        ensures
            r is Some ==> r->Some_0 == close_request(self@.handle),
    {
        let before: usize = self.handle_count.release();
        TcpListener::teardown_request(self.fd, before)
    }

    /// What to send after the destruction of a handle of the remote listener
    /// `handle` that found `before` handles, its own among them: the teardown
    /// where it was the last, else nothing.
    pub fn teardown_request(handle: u16, before: usize) -> (r: Option<ScalarRequest>)
        ensures
            r == if spec_is_last(before) {
                Some(close_request(handle))
            } else {
                None
            },
    {
        if is_last(before) {
            Some(
                ScalarRequest {
                    target: Endpoint::Service,
                    opcode: opcode(OP_LISTENER_CLOSE, handle),
                    arg: 0,
                },
            )
        } else {
            None
        }
    }

    /// What went wrong with a teardown, given the service's answer: nothing
    /// where the one word that came back is 0. A failure is for the record
    /// only; the handle is gone either way.
    pub fn close_failure(result: CallResult) -> (r: Option<CloseFailure>)
        ensures
            r == (match result {
                CallResult::Scalar1(code) => if code == 0 {
                    None
                } else {
                    Some(CloseFailure::Code(code))
                },
                _ => Some(CloseFailure::Internal),
            }),
    {
        match result {
            CallResult::Scalar1(code) => if code == 0 {
                None
            } else {
                Some(CloseFailure::Code(code))
            },
            _ => Some(CloseFailure::Internal),
        }
    }
}

} // verus!
