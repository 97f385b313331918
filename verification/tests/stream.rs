use xous_net::error::{Error, ErrorKind};
use xous_net::net::addr::{IpAddr, Ipv4Addr, Ipv6Addr, SocketAddr};
use xous_net::net::tcpstream::{Shutdown, TcpStream};
use xous_net::net::wire::{CallResult, Endpoint, LendReply, LendRequest, ScalarRequest};
use xous_net::time::Duration;

fn v4(a: u8, b: u8, c: u8, d: u8, port: u16) -> SocketAddr {
    SocketAddr::new(IpAddr::V4(Ipv4Addr::new(a, b, c, d)), port)
}

fn returned(page: [u8; 4096], valid: usize) -> LendReply {
    LendReply { result: CallResult::MemoryReturned { offset: 0, valid }, page }
}

fn connected_reply(handle: u16, local: u16, remote: u16) -> LendReply {
    let mut page = [0u8; 4096];
    page[2..4].copy_from_slice(&handle.to_le_bytes());
    page[4..6].copy_from_slice(&local.to_le_bytes());
    page[6..8].copy_from_slice(&remote.to_le_bytes());
    returned(page, 4096)
}

fn stream(handle: u16) -> TcpStream {
    let addr = v4(192, 168, 1, 20, 443);
    TcpStream::connect(Ok(&addr), &connected_reply(handle, 50000, 443)).unwrap()
}

#[test]
fn connect_request_lays_out_port_timeout_and_address() {
    let addr = v4(10, 0, 0, 5, 8080);
    let req = TcpStream::connect_timeout_request(&addr, Duration { secs: 2, nanos: 500_000_000 });
    assert_eq!(req.opcode, 30);
    assert_eq!(req.offset, 0);
    assert_eq!(req.valid, 4096);
    assert_eq!(&req.page[0..2], &[0x90, 0x1f]);
    assert_eq!(&req.page[2..10], &2500u64.to_le_bytes());
    assert_eq!(req.page[10], 4);
    assert_eq!(&req.page[11..15], &[10, 0, 0, 5]);
    assert!(req.page[15..].iter().all(|b| *b == 0));
}

#[test]
fn connect_request_for_ipv6_writes_sixteen_octets() {
    let ip = Ipv6Addr::new(0x2001, 0x0db8, 0, 0, 0, 0, 0, 1);
    let addr = SocketAddr::new(IpAddr::V6(ip), 65535);
    let req = TcpStream::connect_timeout_request(&addr, Duration::from_millis(1));
    assert_eq!(&req.page[0..2], &[0xff, 0xff]);
    assert_eq!(&req.page[2..10], &[1, 0, 0, 0, 0, 0, 0, 0]);
    assert_eq!(req.page[10], 6);
    assert_eq!(
        &req.page[11..27],
        &[0x20, 0x01, 0x0d, 0xb8, 0, 0, 0, 0, 0, 0, 0, 0, 0, 0, 0, 1]
    );
    assert!(req.page[27..].iter().all(|b| *b == 0));
}

#[test]
fn connect_without_timeout_encodes_zero_milliseconds() {
    let addr = v4(127, 0, 0, 1, 80);
    let req = TcpStream::connect_request(Ok(&addr)).unwrap();
    assert_eq!(req.opcode, 30);
    assert_eq!(&req.page[2..10], &[0u8; 8]);
    assert_eq!(req.valid, 4096);
    let same = TcpStream::connect_timeout_request(&addr, Duration::zero());
    assert_eq!(req, same);
}

#[test]
fn connect_timeout_drops_fractions_of_a_millisecond() {
    let addr = v4(127, 0, 0, 1, 80);
    let req = TcpStream::connect_timeout_request(&addr, Duration { secs: 0, nanos: 999_999 });
    assert_eq!(&req.page[2..10], &[0u8; 8]);
    let req = TcpStream::connect_timeout_request(&addr, Duration { secs: 0, nanos: 1_000_000 });
    assert_eq!(&req.page[2..10], &1u64.to_le_bytes());
}

#[test]
fn connect_timeout_keeps_the_low_64_bits_of_the_milliseconds() {
    let addr = v4(127, 0, 0, 1, 80);
    let d = Duration { secs: u64::MAX, nanos: 0 };
    let req = TcpStream::connect_timeout_request(&addr, d);
    let millis = (u64::MAX as u128 * 1000) as u64;
    assert_eq!(&req.page[2..10], &millis.to_le_bytes());
}

#[test]
fn connect_request_passes_an_address_failure_on() {
    let e = Error::new(ErrorKind::InvalidInput, "could not resolve");
    assert_eq!(TcpStream::connect_request(Err(e)), Err(e));
    let reply = connected_reply(1, 2, 3);
    assert_eq!(TcpStream::connect(Err(e), &reply).unwrap_err(), e);
}

#[test]
fn connect_decodes_handle_and_ports() {
    let addr = v4(10, 0, 0, 5, 8080);
    let s = TcpStream::connect(Ok(&addr), &connected_reply(0x0102, 0xc350, 8080)).unwrap();
    assert_eq!(s.peer_addr(), Ok(addr));
    assert_eq!(s.local_port(), 0xc350);
    assert_eq!(s.remote_port(), 8080);
    assert_eq!(s.read_timeout(), Ok(None));
    assert_eq!(s.write_timeout(), Ok(None));
    // the handle is in every later opcode
    assert_eq!(s.read_request(&[0u8; 4]).opcode, 33 | (0x0102 << 16));
    // the local port is that of the reply
    let mut page = [0u8; 4096];
    page[0] = 4;
    page[1..5].copy_from_slice(&[10, 0, 0, 9]);
    assert_eq!(s.socket_addr(&returned(page, 0)), Ok(v4(10, 0, 0, 9, 0xc350)));
}

#[test]
fn connect_fails_on_nonzero_status() {
    let addr = v4(10, 0, 0, 5, 8080);
    let mut reply = connected_reply(1, 2, 3);
    reply.page[0] = 1;
    let e = TcpStream::connect_timeout(&addr, &reply).unwrap_err();
    assert_eq!(e.kind(), ErrorKind::InvalidInput);
    assert_eq!(e.message(), "Unable to connect");
    // the status is a 16-bit word
    let mut reply = connected_reply(1, 2, 3);
    reply.page[1] = 1;
    let e = TcpStream::connect_timeout(&addr, &reply).unwrap_err();
    assert_eq!(e.message(), "Unable to connect");
}

#[test]
fn connect_fails_without_a_declared_length() {
    let addr = v4(10, 0, 0, 5, 8080);
    let mut reply = connected_reply(1, 2, 3);
    reply.result = CallResult::MemoryReturned { offset: 0, valid: 0 };
    let e = TcpStream::connect_timeout(&addr, &reply).unwrap_err();
    assert_eq!(e, Error::new(ErrorKind::InvalidInput, "Unable to connect"));
}

#[test]
fn connect_fails_on_any_other_result() {
    let addr = v4(10, 0, 0, 5, 8080);
    for result in [CallResult::Failed, CallResult::Other, CallResult::Scalar1(0)] {
        let reply = LendReply { result, page: [0u8; 4096] };
        let e = TcpStream::connect_timeout(&addr, &reply).unwrap_err();
        assert_eq!(e, Error::new(ErrorKind::InvalidInput, "Invalid response"));
    }
}

#[test]
fn timeouts_are_read_back_as_set() {
    let mut s = stream(3);
    assert_eq!(s.set_read_timeout(Some(Duration::from_millis(1500))), Ok(()));
    assert_eq!(s.set_write_timeout(Some(Duration { secs: 7, nanos: 0 })), Ok(()));
    assert_eq!(s.read_timeout(), Ok(Some(Duration { secs: 1, nanos: 500_000_000 })));
    assert_eq!(s.write_timeout(), Ok(Some(Duration { secs: 7, nanos: 0 })));
    assert_eq!(s.read_request(&[0u8; 1]).offset, 1500);
    assert_eq!(s.write_request(&[0u8; 1]).offset, 7000);
    assert_eq!(s.set_read_timeout(None), Ok(()));
    assert_eq!(s.read_timeout(), Ok(None));
    assert_eq!(s.write_timeout(), Ok(Some(Duration { secs: 7, nanos: 0 })));
    assert_eq!(s.read_request(&[0u8; 1]).offset, 0);
}

#[test]
fn timeouts_are_independent() {
    let mut s = stream(3);
    s.set_write_timeout(Some(Duration::from_millis(9))).unwrap();
    assert_eq!(s.read_timeout(), Ok(None));
    s.set_read_timeout(Some(Duration::from_millis(4))).unwrap();
    assert_eq!(s.write_timeout(), Ok(Some(Duration::from_millis(9))));
    assert_eq!(s.read_timeout(), Ok(Some(Duration::from_millis(4))));
}

#[test]
fn timeout_is_cut_off_at_32_bits() {
    let mut s = stream(3);
    s.set_read_timeout(Some(Duration { secs: 5_000_000, nanos: 0 })).unwrap();
    assert_eq!(s.read_request(&[0u8; 1]).offset, u32::MAX as usize);
    assert_eq!(s.read_timeout(), Ok(Some(Duration::from_millis(u32::MAX as u64))));
    s.set_read_timeout(Some(Duration::from_millis(u32::MAX as u64))).unwrap();
    assert_eq!(s.read_request(&[0u8; 1]).offset, u32::MAX as usize);
}

#[test]
fn timeout_of_zero_means_none() {
    let mut s = stream(3);
    s.set_read_timeout(Some(Duration::from_millis(10))).unwrap();
    s.set_read_timeout(Some(Duration::zero())).unwrap();
    assert_eq!(s.read_timeout(), Ok(None));
    s.set_write_timeout(Some(Duration { secs: 0, nanos: 999_999 })).unwrap();
    assert_eq!(s.write_timeout(), Ok(None));
}

#[test]
fn read_request_asks_for_at_most_a_page() {
    let s = stream(7);
    let cases = [
        (0usize, 0usize),
        (1, 1),
        (4095, 4095),
        (4096, 4096),
        (4097, 4096),
        (5000, 4096),
        (100_000, 4096),
    ];
    for (len, want) in cases {
        let buf = vec![0u8; len];
        let req = s.read_request(&buf);
        assert_eq!(req.valid, want);
        assert_eq!(req.opcode, 33 | (7 << 16));
        assert!(req.page.iter().all(|b| *b == 0));
        let req = s.peek_request(&buf);
        assert_eq!(req.valid, want);
        let req = s.write_request(&buf);
        assert_eq!(req.valid, want);
    }
}

#[test]
fn peek_request_carries_no_timeout() {
    let mut s = stream(7);
    s.set_read_timeout(Some(Duration::from_millis(250))).unwrap();
    let req = s.peek_request(&[0u8; 16]);
    assert_eq!(req.opcode, 33 | (7 << 16));
    assert_eq!(req.offset, 0);
    assert_eq!(req.valid, 16);
    assert_eq!(s.read_request(&[0u8; 16]).offset, 250);
}

#[test]
fn read_copies_the_declared_bytes() {
    let s = stream(7);
    let mut page = [0u8; 4096];
    page[..5].copy_from_slice(b"hello");
    page[5] = 0xee;
    let mut buf = [0xaau8; 8];
    assert_eq!(s.read(&mut buf, &returned(page, 5)), Ok(5));
    assert_eq!(&buf, &[b'h', b'e', b'l', b'l', b'o', 0xaa, 0xaa, 0xaa]);
}

#[test]
fn read_without_declared_length_is_zero_bytes() {
    let s = stream(7);
    let mut page = [0u8; 4096];
    page[0] = 9;
    let mut buf = [0xaau8; 8];
    assert_eq!(s.read(&mut buf, &returned(page, 0)), Ok(0));
    assert_eq!(buf, [0xaau8; 8]);
    assert_eq!(s.peek(&mut buf, &returned(page, 0)), Ok(0));
    assert_eq!(buf, [0xaau8; 8]);
}

#[test]
fn read_fills_a_whole_page() {
    let s = stream(7);
    let mut page = [0u8; 4096];
    for (i, b) in page.iter_mut().enumerate() {
        *b = (i % 251) as u8;
    }
    let mut buf = vec![0u8; 5000];
    assert_eq!(s.read(&mut buf, &returned(page, 4096)), Ok(4096));
    assert_eq!(&buf[..4096], &page[..]);
    assert!(buf[4096..].iter().all(|b| *b == 0));
}

#[test]
fn read_refuses_more_than_was_asked_for() {
    let s = stream(7);
    let page = [1u8; 4096];
    let mut buf = [0u8; 8];
    let e = s.read(&mut buf, &returned(page, 9)).unwrap_err();
    assert_eq!(e, Error::new(ErrorKind::InvalidInput, "Unable to read"));
    assert_eq!(buf, [0u8; 8]);
    let mut big = vec![0u8; 5000];
    let e = s.read(&mut big, &returned(page, 4097)).unwrap_err();
    assert_eq!(e.kind(), ErrorKind::InvalidInput);
    assert!(big.iter().all(|b| *b == 0));
    let e = s.peek(&mut buf, &returned(page, usize::MAX)).unwrap_err();
    assert_eq!(e, Error::new(ErrorKind::InvalidInput, "Unable to peek"));
}

#[test]
fn read_fails_when_the_page_does_not_come_back() {
    let s = stream(7);
    let mut buf = [0u8; 8];
    for result in [CallResult::Failed, CallResult::Other, CallResult::Scalar1(4)] {
        let reply = LendReply { result, page: [3u8; 4096] };
        let e = s.read(&mut buf, &reply).unwrap_err();
        assert_eq!(e, Error::new(ErrorKind::InvalidInput, "Unable to read"));
        let e = s.peek(&mut buf, &reply).unwrap_err();
        assert_eq!(e, Error::new(ErrorKind::InvalidInput, "Unable to peek"));
        assert_eq!(buf, [0u8; 8]);
    }
}

#[test]
fn read_into_an_empty_buffer() {
    let s = stream(7);
    let mut buf: [u8; 0] = [];
    assert_eq!(s.read_request(&buf).valid, 0);
    assert_eq!(s.read(&mut buf, &returned([0u8; 4096], 0)), Ok(0));
    assert!(s.read(&mut buf, &returned([0u8; 4096], 1)).is_err());
}

#[test]
fn write_of_5000_bytes_sends_4096() {
    let mut s = stream(9);
    let buf: Vec<u8> = (0..5000u32).map(|i| (i % 253) as u8).collect();
    for timeout in [None, Some(Duration::from_millis(1)), Some(Duration { secs: 3600, nanos: 0 })] {
        s.set_write_timeout(timeout).unwrap();
        let req = s.write_request(&buf);
        assert_eq!(req.opcode, 31 | (9 << 16));
        assert_eq!(req.valid, 4096);
        assert_eq!(&req.page[..], &buf[..4096]);
    }
}

#[test]
fn write_request_pads_with_zeros() {
    let mut s = stream(9);
    s.set_write_timeout(Some(Duration::from_millis(77))).unwrap();
    let req = s.write_request(b"abc");
    assert_eq!(req.valid, 3);
    assert_eq!(req.offset, 77);
    assert_eq!(&req.page[..3], b"abc");
    assert!(req.page[3..].iter().all(|b| *b == 0));
    let req = s.write_request(b"");
    assert_eq!(req.valid, 0);
    assert!(req.page.iter().all(|b| *b == 0));
}

fn sent_reply(status: u32, count: u32) -> LendReply {
    let mut page = [0u8; 4096];
    page[0..4].copy_from_slice(&status.to_le_bytes());
    page[4..8].copy_from_slice(&count.to_le_bytes());
    returned(page, 0)
}

#[test]
fn write_decodes_the_count() {
    let s = stream(9);
    let buf = vec![1u8; 5000];
    assert_eq!(s.write(&buf, &sent_reply(0, 4096)), Ok(4096));
    assert_eq!(s.write(&buf, &sent_reply(0, 0x0102)), Ok(0x0102));
    assert_eq!(s.write(&buf, &sent_reply(0, 0)), Ok(0));
    assert_eq!(s.write(b"abc", &sent_reply(0, 3)), Ok(3));
}

#[test]
fn write_fails_on_nonzero_status() {
    let s = stream(9);
    for status in [1u32, 0x100, 0x1_0000, 0x100_0000, u32::MAX] {
        let e = s.write(b"abc", &sent_reply(status, 3)).unwrap_err();
        assert_eq!(e, Error::new(ErrorKind::InvalidInput, "Error when sending"));
    }
}

#[test]
fn write_refuses_a_count_beyond_what_was_sent() {
    let s = stream(9);
    let e = s.write(b"abc", &sent_reply(0, 4)).unwrap_err();
    assert_eq!(e, Error::new(ErrorKind::InvalidInput, "Unexpected return value"));
    let buf = vec![1u8; 5000];
    let e = s.write(&buf, &sent_reply(0, 4097)).unwrap_err();
    assert_eq!(e.kind(), ErrorKind::InvalidInput);
}

#[test]
fn write_tells_a_failed_call_from_an_odd_answer() {
    let s = stream(9);
    let reply = LendReply { result: CallResult::Failed, page: [0u8; 4096] };
    assert_eq!(
        s.write(b"abc", &reply).unwrap_err(),
        Error::new(ErrorKind::InvalidInput, "Internal error")
    );
    for result in [CallResult::Other, CallResult::Scalar1(0)] {
        let reply = LendReply { result, page: [0u8; 4096] };
        assert_eq!(
            s.write(b"abc", &reply).unwrap_err(),
            Error::new(ErrorKind::InvalidInput, "Unexpected return value")
        );
    }
}

#[test]
fn vectored_calls_use_the_first_buffer_that_is_not_empty() {
    let s = stream(2);
    let bufs = vec![vec![], vec![], b"xyz".to_vec(), b"never".to_vec()];
    let req = s.write_vectored_request(&bufs);
    assert_eq!(req, s.write_request(b"xyz"));
    assert_eq!(s.write_vectored(&bufs, &sent_reply(0, 3)), Ok(3));
    assert!(s.write_vectored(&bufs, &sent_reply(0, 4)).is_err());
    let req = s.read_vectored_request(&bufs);
    assert_eq!(req.valid, 3);

    let mut page = [0u8; 4096];
    page[..2].copy_from_slice(b"ok");
    let mut bufs = vec![vec![], vec![9u8; 4], vec![9u8; 4]];
    assert_eq!(s.read_vectored(&mut bufs, &returned(page, 2)), Ok(2));
    assert_eq!(bufs, vec![vec![], vec![b'o', b'k', 9, 9], vec![9u8; 4]]);
}

#[test]
fn vectored_calls_without_a_buffer_use_an_empty_one() {
    let s = stream(2);
    let none: Vec<Vec<u8>> = vec![];
    assert_eq!(s.write_vectored_request(&none), s.write_request(b""));
    assert_eq!(s.read_vectored_request(&[vec![], vec![]]).valid, 0);
    assert_eq!(s.write_vectored(&none, &sent_reply(0, 0)), Ok(0));
    assert!(s.write_vectored(&none, &sent_reply(0, 1)).is_err());
    let mut bufs: Vec<Vec<u8>> = vec![vec![], vec![]];
    assert_eq!(s.read_vectored(&mut bufs, &returned([0u8; 4096], 0)), Ok(0));
    assert!(s.read_vectored(&mut bufs, &returned([0u8; 4096], 1)).is_err());
    assert!(!s.is_read_vectored());
    assert!(!s.is_write_vectored());
}

#[test]
fn socket_addr_decodes_both_versions() {
    let s = TcpStream::from_listener(5, 8080, 40000, v4(1, 2, 3, 4, 40000));
    let req = s.socket_addr_request();
    assert_eq!(req.opcode, 35 | (5 << 16));
    assert_eq!((req.offset, req.valid), (0, 0));
    assert!(req.page.iter().all(|b| *b == 0));

    let mut page = [0u8; 4096];
    page[0] = 4;
    page[1..5].copy_from_slice(&[192, 168, 0, 1]);
    page[5] = 77;
    assert_eq!(s.socket_addr(&returned(page, 0)), Ok(v4(192, 168, 0, 1, 8080)));

    let mut page = [0u8; 4096];
    page[0] = 6;
    let octets: [u8; 16] = [0xfe, 0x80, 0, 0, 0, 0, 0, 0, 1, 2, 3, 4, 5, 6, 7, 8];
    page[1..17].copy_from_slice(&octets);
    let want = SocketAddr::new(IpAddr::V6(Ipv6Addr { octets }), 8080);
    assert_eq!(s.socket_addr(&returned(page, 0)), Ok(want));
    assert_eq!(
        Ipv6Addr { octets }.segments(),
        [0xfe80, 0, 0, 0, 0x0102, 0x0304, 0x0506, 0x0708]
    );
}

#[test]
fn socket_addr_fails_on_unknown_version_or_result() {
    let s = stream(5);
    let internal = Error::new(ErrorKind::InvalidInput, "Internal error");
    for tag in [0u8, 1, 5, 7, 255] {
        let mut page = [0u8; 4096];
        page[0] = tag;
        assert_eq!(s.socket_addr(&returned(page, 4096)), Err(internal));
    }
    let mut page = [0u8; 4096];
    page[0] = 4;
    for result in [CallResult::Failed, CallResult::Other, CallResult::Scalar1(4)] {
        assert_eq!(s.socket_addr(&LendReply { result, page }), Err(internal));
    }
}

#[test]
fn scalar_requests_go_to_the_connection() {
    let s = stream(0x0203);
    let to = Endpoint::Connection(0x0203);
    let high = 0x0203usize << 16;
    let shutdown = ScalarRequest { target: to, opcode: 34 | high, arg: 0 };
    assert_eq!(s.shutdown_request(Shutdown::Both), shutdown);
    assert_eq!(s.shutdown_request(Shutdown::Read), s.shutdown_request(Shutdown::Write));
    assert_eq!(s.ttl_request(), ScalarRequest { target: to, opcode: 36 | high, arg: 0 });
    assert_eq!(s.set_ttl_request(64), ScalarRequest { target: to, opcode: 37 | high, arg: 64 });
    assert_eq!(s.nodelay_request(), ScalarRequest { target: to, opcode: 38 | high, arg: 0 });
    let nodelay = ScalarRequest { target: to, opcode: 39 | high, arg: 1 };
    assert_eq!(s.set_nodelay_request(true), nodelay);
    assert_eq!(s.set_nodelay_request(false), ScalarRequest { arg: 0, ..nodelay });
    assert_eq!(s.set_ttl_request(u32::MAX).arg, u32::MAX as usize);
}

#[test]
fn scalar_answers() {
    let s = stream(1);
    let unexpected = Error::new(ErrorKind::InvalidInput, "Unexpected return value");
    for word in [0usize, 1, 5, usize::MAX] {
        assert_eq!(s.shutdown(CallResult::Scalar1(word)), Ok(()));
        assert_eq!(s.set_nodelay(CallResult::Scalar1(word)), Ok(()));
        assert_eq!(s.set_ttl(CallResult::Scalar1(word)), Ok(()));
    }
    for result in [
        CallResult::Failed,
        CallResult::Other,
        CallResult::MemoryReturned { offset: 0, valid: 0 },
    ] {
        assert_eq!(s.shutdown(result), Err(unexpected));
        assert_eq!(s.set_nodelay(result), Err(unexpected));
        assert_eq!(s.set_ttl(result), Err(unexpected));
    }

    assert_eq!(s.nodelay(CallResult::Scalar1(0)), Ok(false));
    assert_eq!(s.nodelay(CallResult::Scalar1(1)), Ok(true));
    assert_eq!(s.nodelay(CallResult::Scalar1(usize::MAX)), Ok(true));
    assert_eq!(s.ttl(CallResult::Scalar1(64)), Ok(64));
    assert_eq!(s.ttl(CallResult::Scalar1(u32::MAX as usize)), Ok(u32::MAX));
    assert_eq!(s.ttl(CallResult::Scalar1(usize::MAX)), Ok(usize::MAX as u32));
    for result in [
        CallResult::Failed,
        CallResult::Other,
        CallResult::MemoryReturned { offset: 1, valid: 1 },
    ] {
        assert_eq!(s.nodelay(result), Err(unexpected));
        assert_eq!(s.ttl(result), Err(unexpected));
    }
}

#[test]
fn stream_operations_left_out() {
    let s = stream(1);
    let e = Error::new(ErrorKind::Unsupported, "This function is not yet implemented");
    assert_eq!(s.duplicate().unwrap_err(), e);
    assert_eq!(s.set_linger(Some(Duration::from_millis(5))), Err(e));
    assert_eq!(s.linger(), Err(e));
    assert_eq!(s.take_error(), Err(e));
    assert_eq!(s.set_nonblocking(true), Err(e));
    assert_eq!(s.set_nonblocking(false), Err(e));
}

// A stand-in for the network service: one connection with bytes waiting.
struct FakeService {
    handle: usize,
    waiting: Vec<u8>,
    timeouts_seen: Vec<usize>,
}

impl FakeService {
    fn lend(&mut self, req: &LendRequest, consume: bool) -> LendReply {
        assert_eq!(req.opcode, 33 | (self.handle << 16));
        assert!(req.valid <= 4096);
        self.timeouts_seen.push(req.offset);
        let n = req.valid.min(self.waiting.len());
        let mut page = req.page;
        page[..n].copy_from_slice(&self.waiting[..n]);
        if consume {
            self.waiting.drain(..n);
        }
        LendReply { result: CallResult::MemoryReturned { offset: 0, valid: n }, page }
    }
}

#[test]
fn peek_twice_returns_identical_bytes() {
    let waiting = b"one two three".to_vec();
    let mut service = FakeService { handle: 4, waiting, timeouts_seen: vec![] };
    let s = stream(4);
    let mut first = [0u8; 7];
    let mut second = [0u8; 7];
    let reply = service.lend(&s.peek_request(&first), false);
    assert_eq!(s.peek(&mut first, &reply), Ok(7));
    let reply = service.lend(&s.peek_request(&second), false);
    assert_eq!(s.peek(&mut second, &reply), Ok(7));
    assert_eq!(first, second);
    assert_eq!(&first, b"one two");
    // a read then takes the same bytes, and the next one goes on from there
    let mut third = [0u8; 7];
    let reply = service.lend(&s.read_request(&third), true);
    assert_eq!(s.read(&mut third, &reply), Ok(7));
    assert_eq!(third, first);
    let reply = service.lend(&s.read_request(&third), true);
    assert_eq!(s.read(&mut third, &reply), Ok(6));
    assert_eq!(&third[..6], b" three");
}

#[test]
fn reads_of_a_long_stream_come_a_page_at_a_time() {
    let data: Vec<u8> = (0..10_000u32).map(|i| (i % 241) as u8).collect();
    let mut service = FakeService { handle: 4, waiting: data.clone(), timeouts_seen: vec![] };
    let mut s = stream(4);
    s.set_read_timeout(Some(Duration::from_millis(30))).unwrap();
    let mut got = Vec::new();
    let mut sizes = Vec::new();
    loop {
        let mut buf = vec![0u8; 5000];
        let reply = service.lend(&s.read_request(&buf), true);
        let n = s.read(&mut buf, &reply).unwrap();
        if n == 0 {
            break;
        }
        sizes.push(n);
        got.extend_from_slice(&buf[..n]);
    }
    assert_eq!(sizes, vec![4096, 4096, 1808]);
    assert_eq!(got, data);
    assert!(service.timeouts_seen.iter().all(|t| *t == 30));
}
