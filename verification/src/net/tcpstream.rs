//! The stream socket: one connection that the network service holds, named by
//! the handle that the service gave it.
//!
//! Each operation that needs the service is a pair. The `*_request` function
//! says what to send; the operation of the plain name takes what came back
//! and gives the result.

use crate::error::{fails_with, unimplemented, Error, ErrorKind};
use crate::net::addr::SocketAddr;
use crate::net::codec::{
    addr_at,
    chunk_len,
    connect_page,
    copy_received,
    encode_connect,
    encode_send,
    get_addr,
    send_page,
    spec_chunk_len,
    with_received,
};
use crate::net::wire::{
    get_u16,
    get_u32,
    le_u16_at,
    le_u32_at,
    new_page,
    opcode,
    spec_opcode,
    zero_page,
    CallResult,
    Endpoint,
    LendReply,
    LendRequest,
    ScalarRequest,
    OP_CONNECT,
    OP_GET_ADDRESS,
    OP_GET_NODELAY,
    OP_GET_TTL,
    OP_RECEIVE,
    OP_SEND,
    OP_SET_NODELAY,
    OP_SET_TTL,
    OP_SHUTDOWN,
};
use crate::time::{
    spec_timeout_duration,
    spec_timeout_millis,
    timeout_duration,
    timeout_millis,
    Duration,
};
use vstd::prelude::*;

verus! {

/// Which half of a connection to shut down.
#[derive(Clone, Copy, Debug, PartialEq, Eq, Structural)]
pub enum Shutdown {
    Read,
    Write,
    Both,
}

/// A connected stream socket.
#[derive(Debug)]
pub struct TcpStream {
    fd: u16,
    local_port: u16,
    remote_port: u16,
    peer_addr: SocketAddr,
    // milliseconds, 0 for none
    read_timeout: u32,
    // milliseconds, 0 for none
    write_timeout: u32,
}

/// What a stream socket is: the handle of its connection, the two ports and
/// the peer's address, all fixed when the connection was made, and the two
/// timeouts in milliseconds, 0 for none.
pub struct StreamState {
    pub handle: u16,
    pub local_port: u16,
    pub remote_port: u16,
    pub peer: SocketAddr,
    pub read_timeout: u32,
    pub write_timeout: u32,
}

impl View for TcpStream {
    type V = StreamState;

    closed spec fn view(&self) -> StreamState {
        StreamState {
            handle: self.fd,
            local_port: self.local_port,
            remote_port: self.remote_port,
            peer: self.peer_addr,
            read_timeout: self.read_timeout,
            write_timeout: self.write_timeout,
        }
    }
}

/// The timeout of a connect on the wire: whole milliseconds in 64 bits, 0
/// for "wait until the service answers".
pub open spec fn connect_millis(duration: Duration) -> u64 {
    (duration.spec_as_millis() % 0x1_0000_0000_0000_0000) as u64
}

/// A connect reply that announces a connection: the page came back with a
/// declared length and its status word is 0.
pub open spec fn connected(reply: LendReply) -> bool {
    reply.result.returned_some() && le_u16_at(reply.page@, 0) == 0
}

/// The number of bytes that a receive reply delivers into a caller's buffer
/// of `len` bytes: the length that the service declares, 0 where it declares
/// none. Nothing is delivered where the page did not come back, or where the
/// declared length is more than was asked for.
pub open spec fn received_len(result: CallResult, len: int) -> Option<int> {
    match result {
        CallResult::MemoryReturned { offset, valid } => if valid <= spec_chunk_len(len) {
            Some(valid as int)
        } else {
            None
        },
        _ => None,
    }
}

/// What a receive delivers is the start of the page and nothing else: two
/// calls that get the same answer, such as two peeks with no read between
/// them, deliver the same bytes, whatever their buffers held before.
pub proof fn lemma_same_answer_same_bytes(reply: LendReply, first: Seq<u8>, second: Seq<u8>)
    requires
        first.len() == second.len(),
        received_len(reply.result, first.len() as int) is Some,
    ensures
        received_len(reply.result, second.len() as int) == received_len(
            reply.result,
            first.len() as int,
        ),
        ({
            let n = received_len(reply.result, first.len() as int)->Some_0;
            &&& 0 <= n <= first.len()
            &&& n <= 4096
            &&& with_received(first, reply.page@, n).subrange(0, n) == reply.page@.subrange(0, n)
            &&& with_received(second, reply.page@, n).subrange(0, n) == reply.page@.subrange(0, n)
            &&& with_received(first, reply.page@, n).subrange(n, first.len() as int)
                == first.subrange(n, first.len() as int)
        }),
{
    let n = received_len(reply.result, first.len() as int)->Some_0;
    assert(with_received(first, reply.page@, n).subrange(0, n) =~= reply.page@.subrange(0, n));
    assert(with_received(second, reply.page@, n).subrange(0, n) =~= reply.page@.subrange(0, n));
    assert(with_received(first, reply.page@, n).subrange(n, first.len() as int)
        =~= first.subrange(n, first.len() as int));
}

/// The number of bytes that a send reply acknowledges for a caller's buffer
/// of `len` bytes: the count in bytes 4 to 7, where the page came back, the
/// status word in bytes 0 to 3 is 0 and the count is no more than was sent.
pub open spec fn sent_len(reply: LendReply, len: int) -> Option<int> {
    if reply.result.returned() && le_u32_at(reply.page@, 0) == 0 && le_u32_at(reply.page@, 4)
        <= spec_chunk_len(len) {
        Some(le_u32_at(reply.page@, 4) as int)
    } else {
        None
    }
}

/// The text of the failure of a send.
pub open spec fn send_failure(reply: LendReply) -> &'static str {
    if reply.result is Failed {
        "Internal error"
    } else if reply.result.returned() && le_u32_at(reply.page@, 0) != 0 {
        "Error when sending"
    } else {
        "Unexpected return value"
    }
}

/// The lengths of a row of buffers.
pub open spec fn lens_of(bufs: Seq<Vec<u8>>) -> Seq<int> {
    Seq::new(bufs.len(), |i: int| bufs[i]@.len() as int)
}

/// Buffer `i` is the one that a vectored call works on: the first in the row
/// that is not empty.
pub open spec fn chosen(lens: Seq<int>, i: int) -> bool {
    0 <= i < lens.len() && lens[i] != 0 && forall|j: int| 0 <= j < i ==> lens[j] == 0
}

/// No buffer in the row holds anything: a vectored call then works on an
/// empty buffer.
pub open spec fn none_chosen(lens: Seq<int>) -> bool {
    forall|j: int| 0 <= j < lens.len() ==> lens[j] == 0
}

/// Finds the buffer that a vectored call works on.
pub fn first_non_empty(bufs: &[Vec<u8>]) -> (r: Option<usize>)
    ensures
        match r {
            Some(i) => chosen(lens_of(bufs@), i as int),
            None => none_chosen(lens_of(bufs@)),
        },
{
    let n: usize = bufs.len();
    let mut i: usize = 0;
    while i < n
        invariant
            n == bufs@.len(),
            i <= n,
            forall|j: int| 0 <= j < i ==> lens_of(bufs@)[j] == 0,
        decreases n - i,
    {
        if bufs[i].len() != 0 {
            return Some(i);
        }
        i += 1;
    }
    None
}

/// The buffer that a vectored call works on is the only one that can be
/// chosen, and none is chosen exactly when all are empty.
pub proof fn lemma_chosen_is_unique(lens: Seq<int>, i: int, k: int)
    requires
        chosen(lens, i),
    ensures
        chosen(lens, k) ==> k == i,
        !none_chosen(lens),
{
}

impl TcpStream {
    /// The stream for a connection that a listener accepted.
    pub fn from_listener(fd: u16, local_port: u16, remote_port: u16, peer_addr: SocketAddr) -> (s:
        TcpStream)
        ensures
            s@ == (StreamState {
                handle: fd,
                local_port,
                remote_port,
                peer: peer_addr,
                read_timeout: 0,
                write_timeout: 0,
            }),
    {
        TcpStream { fd, local_port, remote_port, peer_addr, read_timeout: 0, write_timeout: 0 }
    }

    /// What to send to connect to `addr` and wait for at most `duration`; a
    /// span of less than a millisecond waits until the service answers.
    pub fn connect_timeout_request(addr: &SocketAddr, duration: Duration) -> (req: LendRequest)
        ensures
            req.opcode == OP_CONNECT,
            req.page@ == connect_page(addr@, connect_millis(duration)),
            req.offset == 0,
            req.valid == 4096,
    {
        let millis: u64 = (duration.as_millis() % 0x1_0000_0000_0000_0000u128) as u64;
        LendRequest {
            opcode: OP_CONNECT,
            page: encode_connect(addr, millis),
            offset: 0,
            valid: 4096,
        }
    }

    /// What to send to connect to `addr` and wait until the service answers.
    /// An address that could not be had is handed back as the failure it is.
    pub fn connect_request(addr: Result<&SocketAddr, Error>) -> (r: Result<LendRequest, Error>)
        ensures
            match addr {
                Ok(a) => r is Ok && r->Ok_0.opcode == OP_CONNECT && r->Ok_0.page@ == connect_page(
                    a@,
                    0,
                ) && r->Ok_0.offset == 0 && r->Ok_0.valid == 4096,
                Err(e) => r == Err::<LendRequest, Error>(e),
            },
    {
        match addr {
            Ok(a) => Ok(TcpStream::connect_timeout_request(a, Duration::zero())),
            Err(e) => Err(e),
        }
    }

    /// The stream that a connect to `addr` made, given the service's reply.
    ///
    /// A reply that came back with a declared length and status 0 announces
    /// the connection: its handle, the local port and the remote port follow
    /// the status as 16-bit words. Any other reply is a failure.
    pub fn connect_timeout(addr: &SocketAddr, reply: &LendReply) -> (r: Result<TcpStream, Error>)
        ensures
            match r {
                Ok(s) => connected(*reply) && s@ == (StreamState {
                    handle: le_u16_at(reply.page@, 2),
                    local_port: le_u16_at(reply.page@, 4),
                    remote_port: le_u16_at(reply.page@, 6),
                    peer: *addr,
                    read_timeout: 0,
                    write_timeout: 0,
                }),
                Err(e) => !connected(*reply) && if reply.result.returned() {
                    e.is(ErrorKind::InvalidInput, "Unable to connect")
                } else {
                    e.is(ErrorKind::InvalidInput, "Invalid response")
                },
            },
    {
        match reply.result {
            CallResult::MemoryReturned { offset: _, valid } => {
                if get_u16(&reply.page, 0) != 0 || valid == 0 {
                    return Err(Error::new(ErrorKind::InvalidInput, "Unable to connect"));
                }
                let fd: u16 = get_u16(&reply.page, 2);
                let local_port: u16 = get_u16(&reply.page, 4);
                let remote_port: u16 = get_u16(&reply.page, 6);
                Ok(
                    TcpStream {
                        fd,
                        local_port,
                        remote_port,
                        peer_addr: *addr,
                        read_timeout: 0,
                        write_timeout: 0,
                    },
                )
            },
            _ => Err(Error::new(ErrorKind::InvalidInput, "Invalid response")),
        }
    }

    /// The stream that a connect made, given the service's reply. An address
    /// that could not be had is handed back as the failure it is.
    pub fn connect(addr: Result<&SocketAddr, Error>, reply: &LendReply) -> (r: Result<
        TcpStream,
        Error,
    >)
        ensures
            match addr {
                Ok(a) => match r {
                    Ok(s) => connected(*reply) && s@ == (StreamState {
                        handle: le_u16_at(reply.page@, 2),
                        local_port: le_u16_at(reply.page@, 4),
                        remote_port: le_u16_at(reply.page@, 6),
                        peer: *a,
                        read_timeout: 0,
                        write_timeout: 0,
                    }),
                    Err(e) => !connected(*reply) && if reply.result.returned() {
                        e.is(ErrorKind::InvalidInput, "Unable to connect")
                    } else {
                        e.is(ErrorKind::InvalidInput, "Invalid response")
                    },
                },
                Err(e) => r is Err && r->Err_0 == e,
            },
    {
        match addr {
            Ok(a) => TcpStream::connect_timeout(a, reply),
            Err(e) => Err(e),
        }
    }

    /// Keeps the read timeout: whole milliseconds, cut off at the largest
    /// 32-bit value; `None`, or a span under a millisecond, for none.
    pub fn set_read_timeout(&mut self, timeout: Option<Duration>) -> (r: Result<(), Error>)
        ensures
            r is Ok,
            final(self)@ == (StreamState {
                read_timeout: spec_timeout_millis(timeout),
                ..old(self)@
            }),
    {
        self.read_timeout = timeout_millis(timeout);
        Ok(())
    }

    /// Keeps the write timeout: whole milliseconds, cut off at the largest
    /// 32-bit value; `None`, or a span under a millisecond, for none.
    pub fn set_write_timeout(&mut self, timeout: Option<Duration>) -> (r: Result<(), Error>)
        ensures
            r is Ok,
            final(self)@ == (StreamState {
                write_timeout: spec_timeout_millis(timeout),
                ..old(self)@
            }),
    {
        self.write_timeout = timeout_millis(timeout);
        Ok(())
    }

    /// The read timeout as it was last set.
    pub fn read_timeout(&self) -> (r: Result<Option<Duration>, Error>)
        ensures
            r == Ok::<Option<Duration>, Error>(spec_timeout_duration(self@.read_timeout)),
    {
        Ok(timeout_duration(self.read_timeout))
    }

    /// The write timeout as it was last set.
    pub fn write_timeout(&self) -> (r: Result<Option<Duration>, Error>)
        ensures
            r == Ok::<Option<Duration>, Error>(spec_timeout_duration(self@.write_timeout)),
    {
        Ok(timeout_duration(self.write_timeout))
    }

    /// What to send to look at the bytes that wait on the connection, for a
    /// caller's buffer `buf`: at most as many as the buffer holds and never
    /// more than a page. The request carries no timeout.
    pub fn peek_request(&self, buf: &[u8]) -> (req: LendRequest)
        ensures
            req.opcode == spec_opcode(OP_RECEIVE, self@.handle),
            req.page@ == zero_page(),
            req.offset == 0,
            req.valid == spec_chunk_len(buf@.len() as int),
            req.valid <= 4096,
    {
        LendRequest {
            opcode: opcode(OP_RECEIVE, self.fd),
            page: new_page(),
            offset: 0,
            valid: chunk_len(buf.len()),
        }
    }

    /// Delivers what a peek brought into `buf`, and says how many bytes that
    /// is. The stream itself is left as it was.
    pub fn peek(&self, buf: &mut [u8], reply: &LendReply) -> (r: Result<usize, Error>)
        ensures
            match received_len(reply.result, old(buf)@.len() as int) {
                Some(n) => r == Ok::<usize, Error>(n as usize) && final(buf)@ == with_received(
                    old(buf)@,
                    reply.page@,
                    n,
                ),
                None => fails_with(r, ErrorKind::InvalidInput, "Unable to peek") && final(buf)@
                    == old(buf)@,
            },
            r is Ok ==> r->Ok_0 <= 4096 && r->Ok_0 <= old(buf)@.len(),
    {
        match receive(buf, reply) {
            Some(n) => Ok(n),
            None => Err(Error::new(ErrorKind::InvalidInput, "Unable to peek")),
        }
    }

    /// What to send to receive bytes from the connection, for a caller's
    /// buffer `buf`: at most as many as the buffer holds and never more than
    /// a page. The read timeout travels beside the page.
    pub fn read_request(&self, buf: &[u8]) -> (req: LendRequest)
        ensures
            req.opcode == spec_opcode(OP_RECEIVE, self@.handle),
            req.page@ == zero_page(),
            req.offset == self@.read_timeout,
            req.valid == spec_chunk_len(buf@.len() as int),
            req.valid <= 4096,
    {
        LendRequest {
            opcode: opcode(OP_RECEIVE, self.fd),
            page: new_page(),
            offset: self.read_timeout as usize,
            valid: chunk_len(buf.len()),
        }
    }

    /// Delivers what a read brought into `buf`, and says how many bytes that
    /// is. A reply that declares no length delivers nothing and is no failure.
    pub fn read(&self, buf: &mut [u8], reply: &LendReply) -> (r: Result<usize, Error>)
        ensures
            match received_len(reply.result, old(buf)@.len() as int) {
                Some(n) => r == Ok::<usize, Error>(n as usize) && final(buf)@ == with_received(
                    old(buf)@,
                    reply.page@,
                    n,
                ),
                None => fails_with(r, ErrorKind::InvalidInput, "Unable to read") && final(buf)@
                    == old(buf)@,
            },
            r is Ok ==> r->Ok_0 <= 4096 && r->Ok_0 <= old(buf)@.len(),
    {
        match receive(buf, reply) {
            Some(n) => Ok(n),
            None => Err(Error::new(ErrorKind::InvalidInput, "Unable to read")),
        }
    }

    /// What to send to receive into a row of buffers: the request of a read
    /// into the first buffer that is not empty, or into an empty buffer where
    /// there is none.
    pub fn read_vectored_request(&self, bufs: &[Vec<u8>]) -> (req: LendRequest)
        ensures
            req.opcode == spec_opcode(OP_RECEIVE, self@.handle),
            req.page@ == zero_page(),
            req.offset == self@.read_timeout,
            req.valid <= 4096,
            forall|i: int|
                chosen(lens_of(bufs@), i) ==> req.valid == spec_chunk_len(bufs@[i]@.len() as int),
            none_chosen(lens_of(bufs@)) ==> req.valid == 0,
    {
        match first_non_empty(bufs) {
            Some(i) => {
                proof {
                    assert forall|k: int| chosen(lens_of(bufs@), k) implies k == i by {
                        lemma_chosen_is_unique(lens_of(bufs@), i as int, k);
                    }
                }
                self.read_request(bufs[i].as_slice())
            },
            None => {
                proof {
                    assert forall|k: int| !chosen(lens_of(bufs@), k) by {
                        if chosen(lens_of(bufs@), k) {
                            lemma_chosen_is_unique(lens_of(bufs@), k, k);
                        }
                    }
                }
                let empty: Vec<u8> = Vec::new();
                self.read_request(empty.as_slice())
            },
        }
    }

    /// Delivers what a read brought into the first buffer of the row that is
    /// not empty, and says how many bytes that is. The other buffers are left
    /// as they were.
    pub fn read_vectored(&self, bufs: &mut Vec<Vec<u8>>, reply: &LendReply) -> (r: Result<
        usize,
        Error,
    >)
        ensures
            final(bufs)@.len() == old(bufs)@.len(),
            forall|i: int|
                chosen(lens_of(old(bufs)@), i) ==> (match received_len(
                    reply.result,
                    old(bufs)@[i]@.len() as int,
                ) {
                    Some(n) => r == Ok::<usize, Error>(n as usize) && final(bufs)@[i]@
                        == with_received(old(bufs)@[i]@, reply.page@, n),
                    None => fails_with(r, ErrorKind::InvalidInput, "Unable to read")
                        && final(bufs)@[i]@ == old(bufs)@[i]@,
                }),
            forall|i: int, j: int|
                chosen(lens_of(old(bufs)@), i) && 0 <= j < old(bufs)@.len() && j != i
                    ==> final(bufs)@[j] == old(bufs)@[j],
            none_chosen(lens_of(old(bufs)@)) ==> final(bufs)@ == old(bufs)@ && (match received_len(
                reply.result,
                0,
            ) {
                Some(n) => r == Ok::<usize, Error>(0),
                None => fails_with(r, ErrorKind::InvalidInput, "Unable to read"),
            }),
    {
        match first_non_empty(bufs.as_slice()) {
            Some(i) => {
                proof {
                    assert forall|k: int| chosen(lens_of(bufs@), k) implies k == i by {
                        lemma_chosen_is_unique(lens_of(bufs@), i as int, k);
                    }
                }
                self.read(bufs[i].as_mut_slice(), reply)
            },
            None => {
                proof {
                    assert forall|k: int| !chosen(lens_of(bufs@), k) by {
                        if chosen(lens_of(bufs@), k) {
                            lemma_chosen_is_unique(lens_of(bufs@), k, k);
                        }
                    }
                }
                let mut empty: Vec<u8> = Vec::new();
                self.read(empty.as_mut_slice(), reply)
            },
        }
    }

    pub fn is_read_vectored(&self) -> (b: bool)
        ensures
            !b,
    {
        false
    }

    /// What to send to write the bytes of `buf`: as many as a page holds, the
    /// rest of the page zero. The write timeout travels beside the page.
    pub fn write_request(&self, buf: &[u8]) -> (req: LendRequest)
        ensures
            req.opcode == spec_opcode(OP_SEND, self@.handle),
            req.page@ == send_page(buf@, spec_chunk_len(buf@.len() as int)),
            req.offset == self@.write_timeout,
            req.valid == spec_chunk_len(buf@.len() as int),
            req.valid <= 4096,
    {
        LendRequest {
            opcode: opcode(OP_SEND, self.fd),
            page: encode_send(buf),
            offset: self.write_timeout as usize,
            valid: chunk_len(buf.len()),
        }
    }

    /// The number of bytes of `buf` that the service took, given its reply to
    /// the write.
    pub fn write(&self, buf: &[u8], reply: &LendReply) -> (r: Result<usize, Error>)
        ensures
            match sent_len(*reply, buf@.len() as int) {
                Some(n) => r == Ok::<usize, Error>(n as usize),
                None => r is Err && r->Err_0.kind == ErrorKind::InvalidInput && r->Err_0.message
                    == send_failure(*reply),
            },
            r is Ok ==> r->Ok_0 <= 4096 && r->Ok_0 <= buf@.len(),
    {
        match reply.result {
            CallResult::MemoryReturned { offset: _, valid: _ } => {
                if get_u32(&reply.page, 0) != 0 {
                    return Err(Error::new(ErrorKind::InvalidInput, "Error when sending"));
                }
                let count: usize = get_u32(&reply.page, 4) as usize;
                if count > chunk_len(buf.len()) {
                    return Err(Error::new(ErrorKind::InvalidInput, "Unexpected return value"));
                }
                Ok(count)
            },
            CallResult::Failed => Err(Error::new(ErrorKind::InvalidInput, "Internal error")),
            _ => Err(Error::new(ErrorKind::InvalidInput, "Unexpected return value")),
        }
    }

    /// What to send to write a row of buffers: the request of a write of the
    /// first buffer that is not empty, or of an empty buffer where there is
    /// none.
    pub fn write_vectored_request(&self, bufs: &[Vec<u8>]) -> (req: LendRequest)
        ensures
            req.opcode == spec_opcode(OP_SEND, self@.handle),
            req.offset == self@.write_timeout,
            req.valid <= 4096,
            forall|i: int|
                chosen(lens_of(bufs@), i) ==> req.valid == spec_chunk_len(bufs@[i]@.len() as int)
                    && req.page@ == send_page(bufs@[i]@, spec_chunk_len(bufs@[i]@.len() as int)),
            none_chosen(lens_of(bufs@)) ==> req.valid == 0 && req.page@ == zero_page(),
    {
        match first_non_empty(bufs) {
            Some(i) => {
                proof {
                    assert forall|k: int| chosen(lens_of(bufs@), k) implies k == i by {
                        lemma_chosen_is_unique(lens_of(bufs@), i as int, k);
                    }
                }
                self.write_request(bufs[i].as_slice())
            },
            None => {
                proof {
                    assert forall|k: int| !chosen(lens_of(bufs@), k) by {
                        if chosen(lens_of(bufs@), k) {
                            lemma_chosen_is_unique(lens_of(bufs@), k, k);
                        }
                    }
                }
                let empty: Vec<u8> = Vec::new();
                let req = self.write_request(empty.as_slice());
                assert(req.page@ =~= zero_page());
                req
            },
        }
    }

    /// The number of bytes of the first buffer that is not empty that the
    /// service took, given its reply to the write.
    pub fn write_vectored(&self, bufs: &[Vec<u8>], reply: &LendReply) -> (r: Result<usize, Error>)
        ensures
            forall|i: int|
                chosen(lens_of(bufs@), i) ==> (match sent_len(*reply, bufs@[i]@.len() as int) {
                    Some(n) => r == Ok::<usize, Error>(n as usize),
                    None => r is Err && r->Err_0.kind == ErrorKind::InvalidInput
                        && r->Err_0.message == send_failure(*reply),
                }),
            none_chosen(lens_of(bufs@)) ==> (match sent_len(*reply, 0) {
                Some(n) => r == Ok::<usize, Error>(0),
                None => r is Err && r->Err_0.kind == ErrorKind::InvalidInput && r->Err_0.message
                    == send_failure(*reply),
            }),
    {
        match first_non_empty(bufs) {
            Some(i) => {
                proof {
                    assert forall|k: int| chosen(lens_of(bufs@), k) implies k == i by {
                        lemma_chosen_is_unique(lens_of(bufs@), i as int, k);
                    }
                }
                self.write(bufs[i].as_slice(), reply)
            },
            None => {
                proof {
                    assert forall|k: int| !chosen(lens_of(bufs@), k) by {
                        if chosen(lens_of(bufs@), k) {
                            lemma_chosen_is_unique(lens_of(bufs@), k, k);
                        }
                    }
                }
                let empty: Vec<u8> = Vec::new();
                self.write(empty.as_slice(), reply)
            },
        }
    }

    pub fn is_write_vectored(&self) -> (b: bool)
        ensures
            !b,
    {
        false
    }

    /// The local port, as it was when the connection was made.
    pub fn local_port(&self) -> (p: u16)
        ensures
            p == self@.local_port,
    {
        self.local_port
    }

    /// The peer's port, as it was when the connection was made.
    pub fn remote_port(&self) -> (p: u16)
        ensures
            p == self@.remote_port,
    {
        self.remote_port
    }

    /// The peer's address, as it was when the connection was made.
    pub fn peer_addr(&self) -> (r: Result<SocketAddr, Error>)
        ensures
            r == Ok::<SocketAddr, Error>(self@.peer),
    {
        Ok(self.peer_addr)
    }

    /// What to send to ask for the local address of the connection.
    pub fn socket_addr_request(&self) -> (req: LendRequest)
        ensures
            req.opcode == spec_opcode(OP_GET_ADDRESS, self@.handle),
            req.page@ == zero_page(),
            req.offset == 0,
            req.valid == 0,
    {
        LendRequest {
            opcode: opcode(OP_GET_ADDRESS, self.fd),
            page: new_page(),
            offset: 0,
            valid: 0,
        }
    }

    /// The local address of the connection, given the service's reply: the
    /// address whose version tag is byte 0 of the page, with the local port
    /// of this stream.
    pub fn socket_addr(&self, reply: &LendReply) -> (r: Result<SocketAddr, Error>)
        ensures
            match r {
                Ok(a) => reply.result.returned() && addr_at(reply.page@, 0, self@.local_port)
                    == Some(a@),
                Err(e) => e.is(ErrorKind::InvalidInput, "Internal error") && !(
                reply.result.returned() && addr_at(reply.page@, 0, self@.local_port) is Some),
            },
    {
        match reply.result {
            CallResult::MemoryReturned { offset: _, valid: _ } => {
                match get_addr(&reply.page, 0, self.local_port) {
                    Some(a) => Ok(a),
                    None => Err(Error::new(ErrorKind::InvalidInput, "Internal error")),
                }
            },
            _ => Err(Error::new(ErrorKind::InvalidInput, "Internal error")),
        }
    }

    /// What to send to shut the connection down. The service is not told
    /// which half.
    pub fn shutdown_request(&self, how: Shutdown) -> (req: ScalarRequest)
        ensures
            req == (ScalarRequest {
                target: Endpoint::Connection(self@.handle),
                opcode: spec_opcode(OP_SHUTDOWN, self@.handle),
                arg: 0,
            }),
    {
        ScalarRequest {
            target: Endpoint::Connection(self.fd),
            opcode: opcode(OP_SHUTDOWN, self.fd),
            arg: 0,
        }
    }

    /// Whether the shutdown went through: it did where one word came back.
    pub fn shutdown(&self, result: CallResult) -> (r: Result<(), Error>)
        ensures
            r is Ok <==> result is Scalar1,
            r is Err ==> fails_with(r, ErrorKind::InvalidInput, "Unexpected return value"),
    {
        completed(result)
    }

    pub fn duplicate(&self) -> (r: Result<TcpStream, Error>)
        ensures
            fails_with(r, ErrorKind::Unsupported, "This function is not yet implemented"),
    {
        Err(unimplemented())
    }

    pub fn set_linger(&self, linger: Option<Duration>) -> (r: Result<(), Error>)
        ensures
            fails_with(r, ErrorKind::Unsupported, "This function is not yet implemented"),
    {
        Err(unimplemented())
    }

    pub fn linger(&self) -> (r: Result<Option<Duration>, Error>)
        ensures
            fails_with(r, ErrorKind::Unsupported, "This function is not yet implemented"),
    {
        Err(unimplemented())
    }

    /// What to send to choose whether small writes are sent at once.
    pub fn set_nodelay_request(&self, enabled: bool) -> (req: ScalarRequest)
        ensures
            req == (ScalarRequest {
                target: Endpoint::Connection(self@.handle),
                opcode: spec_opcode(OP_SET_NODELAY, self@.handle),
                arg: if enabled {
                    1
                } else {
                    0
                },
            }),
    {
        ScalarRequest {
            target: Endpoint::Connection(self.fd),
            opcode: opcode(OP_SET_NODELAY, self.fd),
            arg: if enabled {
                1
            } else {
                0
            },
        }
    }

    /// Whether the choice was taken: it was where one word came back.
    pub fn set_nodelay(&self, result: CallResult) -> (r: Result<(), Error>)
        ensures
            r is Ok <==> result is Scalar1,
            r is Err ==> fails_with(r, ErrorKind::InvalidInput, "Unexpected return value"),
    {
        completed(result)
    }

    /// What to send to ask whether small writes are sent at once.
    pub fn nodelay_request(&self) -> (req: ScalarRequest)
        ensures
            req == (ScalarRequest {
                target: Endpoint::Connection(self@.handle),
                opcode: spec_opcode(OP_GET_NODELAY, self@.handle),
                arg: 0,
            }),
    {
        ScalarRequest {
            target: Endpoint::Connection(self.fd),
            opcode: opcode(OP_GET_NODELAY, self.fd),
            arg: 0,
        }
    }

    /// Whether small writes are sent at once, given the service's answer: they
    /// are when the one word that came back is not 0.
    pub fn nodelay(&self, result: CallResult) -> (r: Result<bool, Error>)
        ensures
            match result {
                CallResult::Scalar1(v) => r == Ok::<bool, Error>(v != 0),
                _ => fails_with(r, ErrorKind::InvalidInput, "Unexpected return value"),
            },
    {
        match result {
            CallResult::Scalar1(v) => Ok(v != 0),
            _ => Err(Error::new(ErrorKind::InvalidInput, "Unexpected return value")),
        }
    }

    /// What to send to set the time-to-live.
    pub fn set_ttl_request(&self, ttl: u32) -> (req: ScalarRequest)
        ensures
            req == (ScalarRequest {
                target: Endpoint::Connection(self@.handle),
                opcode: spec_opcode(OP_SET_TTL, self@.handle),
                arg: ttl as usize,
            }),
    {
        ScalarRequest {
            target: Endpoint::Connection(self.fd),
            opcode: opcode(OP_SET_TTL, self.fd),
            arg: ttl as usize,
        }
    }

    /// Whether the time-to-live was taken: it was where one word came back.
    pub fn set_ttl(&self, result: CallResult) -> (r: Result<(), Error>)
        ensures
            r is Ok <==> result is Scalar1,
            r is Err ==> fails_with(r, ErrorKind::InvalidInput, "Unexpected return value"),
    {
        completed(result)
    }

    /// What to send to ask for the time-to-live.
    pub fn ttl_request(&self) -> (req: ScalarRequest)
        ensures
            req == (ScalarRequest {
                target: Endpoint::Connection(self@.handle),
                opcode: spec_opcode(OP_GET_TTL, self@.handle),
                arg: 0,
            }),
    {
        ScalarRequest {
            target: Endpoint::Connection(self.fd),
            opcode: opcode(OP_GET_TTL, self.fd),
            arg: 0,
        }
    }

    /// The time-to-live, given the service's answer: the low 32 bits of the
    /// one word that came back.
    pub fn ttl(&self, result: CallResult) -> (r: Result<u32, Error>)
        ensures
            match result {
                CallResult::Scalar1(v) => r == Ok::<u32, Error>(low_word(v)),
                _ => fails_with(r, ErrorKind::InvalidInput, "Unexpected return value"),
            },
    {
        scalar_word(result)
    }

    pub fn take_error(&self) -> (r: Result<Option<Error>, Error>)
        ensures
            fails_with(r, ErrorKind::Unsupported, "This function is not yet implemented"),
    {
        Err(unimplemented())
    }

    pub fn set_nonblocking(&self, nonblocking: bool) -> (r: Result<(), Error>)
        ensures
            fails_with(r, ErrorKind::Unsupported, "This function is not yet implemented"),
    {
        Err(unimplemented())
    }
}

/// The low 32 bits of a word.
pub open spec fn low_word(v: usize) -> u32 {
    (v as int % 0x1_0000_0000) as u32
}

/// The answer to a request that only has to be taken: it was taken where one
/// word came back, whatever the word.
pub fn completed(result: CallResult) -> (r: Result<(), Error>)
    ensures
        r is Ok <==> result is Scalar1,
        r is Err ==> fails_with(r, ErrorKind::InvalidInput, "Unexpected return value"),
{
    match result {
        CallResult::Scalar1(_) => Ok(()),
        _ => Err(Error::new(ErrorKind::InvalidInput, "Unexpected return value")),
    }
}

/// The answer to a request for one 32-bit value.
pub fn scalar_word(result: CallResult) -> (r: Result<u32, Error>)
    ensures
        match result {
            CallResult::Scalar1(v) => r == Ok::<u32, Error>(low_word(v)),
            _ => fails_with(r, ErrorKind::InvalidInput, "Unexpected return value"),
        },
{
    match result {
        CallResult::Scalar1(v) => Ok((v as u64 % 0x1_0000_0000) as u32),
        _ => Err(Error::new(ErrorKind::InvalidInput, "Unexpected return value")),
    }
}

/// Copies what a receive reply delivers into the caller's buffer.
fn receive(buf: &mut [u8], reply: &LendReply) -> (r: Option<usize>)
    ensures
        match received_len(reply.result, old(buf)@.len() as int) {
            Some(n) => r == Some(n as usize) && final(buf)@ == with_received(
                old(buf)@,
                reply.page@,
                n,
            ),
            None => r is None && final(buf)@ == old(buf)@,
        },
{
    match reply.result {
        CallResult::MemoryReturned { offset: _, valid } => {
            if valid > chunk_len(buf.len()) {
                return None;
            }
            copy_received(buf, &reply.page, valid);
            Some(valid)
        },
        _ => None,
    }
}

} // verus!
