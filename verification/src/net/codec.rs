//! The layout of each request and reply within the lent page, as functions
//! from typed values to pages and back.

use crate::net::addr::{AddrModel, IpAddr, Ipv4Addr, Ipv6Addr, SocketAddr};
use crate::net::wire::{
    get_u16,
    get_u64,
    le_byte,
    le_u16_at,
    le_u64_at,
    lemma_le_round_trip,
    new_page,
    put_bytes,
    put_u16,
    put_u64,
};
use vstd::prelude::*;

verus! {

/// The address whose version tag stands at `at` and whose octets follow it,
/// with the given port; nothing where the tag is neither 4 nor 6.
pub open spec fn addr_at(page: Seq<u8>, at: int, port: u16) -> Option<AddrModel> {
    if page[at] == 4 {
        Some(AddrModel { version: 4, octets: page.subrange(at + 1, at + 5), port })
    } else if page[at] == 6 {
        Some(AddrModel { version: 6, octets: page.subrange(at + 1, at + 17), port })
    } else {
        None
    }
}

/// A page that is `before` but for a version tag at `at` and the octets of
/// `ip` behind it.
pub open spec fn with_addr(before: Seq<u8>, at: int, version: u8, octets: Seq<u8>) -> Seq<u8> {
    Seq::new(
        before.len(),
        |i: int|
            if i == at {
                version
            } else if at < i <= at + octets.len() {
                octets[i - at - 1]
            } else {
                before[i]
            },
    )
}

/// Writes the version tag of `ip` at `at` and its octets behind it.
pub fn put_addr(page: &mut [u8; 4096], at: usize, ip: &IpAddr)
    requires
        at + 17 <= 4096,
    ensures
        final(page)@ == with_addr(old(page)@, at as int, ip.spec_version(), ip.spec_octets()),
{
    match ip {
        IpAddr::V4(a) => {
            page[at] = 4;
            put_bytes(page, at + 1, a.octets.as_slice(), 4);
        },
        IpAddr::V6(a) => {
            page[at] = 6;
            put_bytes(page, at + 1, a.octets.as_slice(), 16);
        },
    }
    assert(page@ =~= with_addr(old(page)@, at as int, ip.spec_version(), ip.spec_octets()));
}

/// Reads the address whose version tag stands at `at`.
pub fn get_addr(page: &[u8; 4096], at: usize, port: u16) -> (r: Option<SocketAddr>)
    requires
        at + 17 <= 4096,
    ensures
        match r {
            Some(a) => addr_at(page@, at as int, port) == Some(a@),
            None => addr_at(page@, at as int, port) is None,
        },
{
    let tag: u8 = page[at];
    if tag == 4 {
        let ip = Ipv4Addr::new(page[at + 1], page[at + 2], page[at + 3], page[at + 4]);
        assert(ip.octets@ =~= page@.subrange(at + 1, at + 5));
        Some(SocketAddr::new(IpAddr::V4(ip), port))
    } else if tag == 6 {
        let ip = Ipv6Addr::new(
            page[at + 1] as u16 * 256 + page[at + 2] as u16,
            page[at + 3] as u16 * 256 + page[at + 4] as u16,
            page[at + 5] as u16 * 256 + page[at + 6] as u16,
            page[at + 7] as u16 * 256 + page[at + 8] as u16,
            page[at + 9] as u16 * 256 + page[at + 10] as u16,
            page[at + 11] as u16 * 256 + page[at + 12] as u16,
            page[at + 13] as u16 * 256 + page[at + 14] as u16,
            page[at + 15] as u16 * 256 + page[at + 16] as u16,
        );
        assert(ip.octets@ =~= page@.subrange(at + 1, at + 17));
        Some(SocketAddr::new(IpAddr::V6(ip), port))
    } else {
        None
    }
}

/// The request to open a connection: the port in bytes 0 and 1, the timeout
/// in milliseconds in bytes 2 to 9, the version tag in byte 10, the address
/// octets from byte 11 on, and zero everywhere else.
pub open spec fn connect_page(addr: AddrModel, millis: u64) -> Seq<u8> {
    Seq::new(
        4096,
        |i: int|
            if i < 2 {
                le_byte(addr.port as int, i)
            } else if i < 10 {
                le_byte(millis as int, i - 2)
            } else if i == 10 {
                addr.version
            } else if i < 11 + addr.octets.len() {
                addr.octets[i - 11]
            } else {
                0u8
            },
    )
}

pub fn encode_connect(addr: &SocketAddr, millis: u64) -> (page: [u8; 4096])
    ensures
        page@ == connect_page(addr@, millis),
{
    let mut page = new_page();
    put_u16(&mut page, 0, addr.port);
    put_u64(&mut page, 2, millis);
    put_addr(&mut page, 10, &addr.ip);
    assert(page@ =~= connect_page(addr@, millis));
    page
}

/// What a connect request asks for: the address and the timeout in
/// milliseconds; nothing where the version tag is neither 4 nor 6.
pub open spec fn parse_connect(page: Seq<u8>) -> Option<(AddrModel, u64)> {
    match addr_at(page, 10, le_u16_at(page, 0)) {
        Some(a) => Some((a, le_u64_at(page, 2))),
        None => None,
    }
}

pub fn decode_connect(page: &[u8; 4096]) -> (r: Option<(SocketAddr, u64)>)
    ensures
        match r {
            Some((a, millis)) => parse_connect(page@) == Some((a@, millis)),
            None => parse_connect(page@) is None,
        },
{
    let port: u16 = get_u16(page, 0);
    let millis: u64 = get_u64(page, 2);
    match get_addr(page, 10, port) {
        Some(a) => Some((a, millis)),
        None => None,
    }
}

/// The request to listen: the port in bytes 0 and 1, the version tag in byte
/// 2, the address octets from byte 3 on, and zero everywhere else.
pub open spec fn bind_page(addr: AddrModel) -> Seq<u8> {
    Seq::new(
        4096,
        |i: int|
            if i < 2 {
                le_byte(addr.port as int, i)
            } else if i == 2 {
                addr.version
            } else if i < 3 + addr.octets.len() {
                addr.octets[i - 3]
            } else {
                0u8
            },
    )
}

pub fn encode_bind(addr: &SocketAddr) -> (page: [u8; 4096])
    ensures
        page@ == bind_page(addr@),
{
    let mut page = new_page();
    put_u16(&mut page, 0, addr.port);
    put_addr(&mut page, 2, &addr.ip);
    assert(page@ =~= bind_page(addr@));
    page
}

/// What a listen request asks for; nothing where the version tag is neither
/// 4 nor 6.
pub open spec fn parse_bind(page: Seq<u8>) -> Option<AddrModel> {
    addr_at(page, 2, le_u16_at(page, 0))
}

pub fn decode_bind(page: &[u8; 4096]) -> (r: Option<SocketAddr>)
    ensures
        match r {
            Some(a) => parse_bind(page@) == Some(a@),
            None => parse_bind(page@) is None,
        },
{
    let port: u16 = get_u16(page, 0);
    get_addr(page, 2, port)
}

/// The request to accept: byte 0 is 1 when the service is to wait for a
/// connection and 0 when it is to answer at once; zero everywhere else.
pub open spec fn accept_page(nonblocking: bool) -> Seq<u8> {
    Seq::new(
        4096,
        |i: int|
            if i == 0 && !nonblocking {
                1u8
            } else {
                0u8
            },
    )
}

pub fn encode_accept(nonblocking: bool) -> (page: [u8; 4096])
    ensures
        page@ == accept_page(nonblocking),
{
    let mut page = new_page();
    if nonblocking {
        page[0] = 0;
    } else {
        page[0] = 1;
    }
    assert(page@ =~= accept_page(nonblocking));
    page
}

/// The reply to an accept that succeeded: status 0 in byte 0, the handle of
/// the new connection in bytes 1 and 2, the version tag in byte 3, the
/// address octets from byte 4 on, the port in bytes 20 and 21, and zero
/// everywhere else.
pub open spec fn accepted_page(handle: u16, peer: AddrModel) -> Seq<u8> {
    Seq::new(
        4096,
        |i: int|
            if i == 0 {
                0u8
            } else if i < 3 {
                le_byte(handle as int, i - 1)
            } else if i == 3 {
                peer.version
            } else if i < 4 + peer.octets.len() {
                peer.octets[i - 4]
            } else if 20 <= i < 22 {
                le_byte(peer.port as int, i - 20)
            } else {
                0u8
            },
    )
}

pub fn encode_accepted(handle: u16, peer: &SocketAddr) -> (page: [u8; 4096])
    ensures
        page@ == accepted_page(handle, peer@),
{
    let mut page = new_page();
    put_u16(&mut page, 1, handle);
    put_addr(&mut page, 3, &peer.ip);
    put_u16(&mut page, 20, peer.port);
    assert(page@ =~= accepted_page(handle, peer@));
    page
}

/// What a successful accept reply announces: the handle of the new connection
/// and the address of its peer; nothing where the version tag is neither 4
/// nor 6.
pub open spec fn parse_accepted(page: Seq<u8>) -> Option<(u16, AddrModel)> {
    match addr_at(page, 3, le_u16_at(page, 20)) {
        Some(a) => Some((le_u16_at(page, 1), a)),
        None => None,
    }
}

pub fn decode_accepted(page: &[u8; 4096]) -> (r: Option<(u16, SocketAddr)>)
    ensures
        match r {
            Some((handle, a)) => parse_accepted(page@) == Some((handle, a@)),
            None => parse_accepted(page@) is None,
        },
{
    let handle: u16 = get_u16(page, 1);
    let port: u16 = get_u16(page, 20);
    match get_addr(page, 3, port) {
        Some(a) => Some((handle, a)),
        None => None,
    }
}

/// The request to send: the first `count` bytes of `data` from byte 0 on,
/// and zero everywhere else.
pub open spec fn send_page(data: Seq<u8>, count: int) -> Seq<u8> {
    Seq::new(
        4096,
        |i: int|
            if i < count {
                data[i]
            } else {
                0u8
            },
    )
}

/// The number of bytes that one call carries for a caller's buffer of `len`
/// bytes: all of them, but never more than the page holds.
pub open spec fn spec_chunk_len(len: int) -> int {
    if len < 4096 {
        len
    } else {
        4096
    }
}

pub fn chunk_len(len: usize) -> (n: usize)
    ensures
        n == spec_chunk_len(len as int),
        n <= 4096,
        n <= len,
{
    if len < 4096 {
        len
    } else {
        4096
    }
}

/// One call never carries more than a page: a buffer of up to 4096 bytes
/// goes whole, and of a longer one exactly 4096 bytes go.
pub proof fn lemma_chunk_is_at_most_a_page(len: int)
    requires
        0 <= len,
    ensures
        0 <= spec_chunk_len(len) <= 4096,
        spec_chunk_len(len) <= len,
        len <= 4096 ==> spec_chunk_len(len) == len,
        len > 4096 ==> spec_chunk_len(len) == 4096,
{
}

pub fn encode_send(buf: &[u8]) -> (page: [u8; 4096])
    ensures
        page@ == send_page(buf@, spec_chunk_len(buf@.len() as int)),
{
    let mut page = new_page();
    let count: usize = chunk_len(buf.len());
    put_bytes(&mut page, 0, buf, count);
    assert(page@ =~= send_page(buf@, spec_chunk_len(buf@.len() as int)));
    page
}

/// `before` with its first `count` bytes replaced by those of `page`.
pub open spec fn with_received(before: Seq<u8>, page: Seq<u8>, count: int) -> Seq<u8> {
    Seq::new(
        before.len(),
        |i: int|
            if i < count {
                page[i]
            } else {
                before[i]
            },
    )
}

/// Copies the first `count` bytes of the page into the caller's buffer and
/// leaves the rest of the buffer as it was.
pub fn copy_received(buf: &mut [u8], page: &[u8; 4096], count: usize)
    requires
        count <= 4096,
        count <= old(buf)@.len(),
    ensures
        final(buf)@ == with_received(old(buf)@, page@, count as int),
{
    let mut k: usize = 0;
    while k < count
        invariant
            k <= count,
            count <= 4096,
            count <= buf@.len(),
            buf@.len() == old(buf)@.len(),
            forall|i: int|
                0 <= i < buf@.len() ==> #[trigger] buf@[i] == if i < k {
                    page@[i]
                } else {
                    old(buf)@[i]
                },
        decreases count - k,
    {
        buf[k] = page[k];
        k += 1;
    }
    assert(buf@ =~= with_received(old(buf)@, page@, count as int));
}

/// A connect request is read back as the address, the port and the timeout
/// that it was written for.
pub proof fn lemma_connect_round_trip(addr: AddrModel, millis: u64)
    requires
        addr.wf(),
    ensures
        parse_connect(connect_page(addr, millis)) == Some((addr, millis)),
{
    let page = connect_page(addr, millis);
    assert(forall|k: int| 0 <= k < 8 ==> #[trigger] page[2 + k] == le_byte(millis as int, k));
    lemma_le_round_trip(page, 2, millis);
    assert(le_u16_at(page, 0) == addr.port);
    if addr.version == 4 {
        assert(page.subrange(11, 15) =~= addr.octets);
    } else {
        assert(page.subrange(11, 27) =~= addr.octets);
    }
}

/// A listen request is read back as the address and the port that it was
/// written for.
pub proof fn lemma_bind_round_trip(addr: AddrModel)
    requires
        addr.wf(),
    ensures
        parse_bind(bind_page(addr)) == Some(addr),
{
    let page = bind_page(addr);
    assert(le_u16_at(page, 0) == addr.port);
    if addr.version == 4 {
        assert(page.subrange(3, 7) =~= addr.octets);
    } else {
        assert(page.subrange(3, 19) =~= addr.octets);
    }
}

/// A successful accept reply is read back as the handle, the address and the
/// port that it was written for.
pub proof fn lemma_accepted_round_trip(handle: u16, peer: AddrModel)
    requires
        peer.wf(),
    ensures
        parse_accepted(accepted_page(handle, peer)) == Some((handle, peer)),
{
    let page = accepted_page(handle, peer);
    assert(le_u16_at(page, 20) == peer.port);
    assert(le_u16_at(page, 1) == handle);
    if peer.version == 4 {
        assert(page.subrange(4, 8) =~= peer.octets);
    } else {
        assert(page.subrange(4, 20) =~= peer.octets);
    }
}

} // verus!
