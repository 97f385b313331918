//! The wire format: what a message to the network service carries, what comes
//! back, and how integers and octets lie in the one page that a message lends.
//!
//! Multi-byte integers are written low byte first. Address octets are written
//! in address order.

use vstd::prelude::*;

verus! {

/// The size of the page that a message lends to the service.
pub const PAGE_SIZE: usize = 4096;

/// Open a connection.
pub const OP_CONNECT: usize = 30;

/// Send bytes on a connection.
pub const OP_SEND: usize = 31;

/// Receive bytes from a connection.
pub const OP_RECEIVE: usize = 33;

/// Shut a connection down.
pub const OP_SHUTDOWN: usize = 34;

/// Ask for the local address of a connection.
pub const OP_GET_ADDRESS: usize = 35;

/// Ask for the time-to-live.
pub const OP_GET_TTL: usize = 36;

/// Set the time-to-live.
pub const OP_SET_TTL: usize = 37;

/// Ask whether small writes are sent at once.
pub const OP_GET_NODELAY: usize = 38;

/// Choose whether small writes are sent at once.
pub const OP_SET_NODELAY: usize = 39;

/// Start listening on an address.
pub const OP_LISTEN: usize = 44;

/// Accept a connection on a listener.
pub const OP_ACCEPT: usize = 45;

/// Close a listener.
pub const OP_LISTENER_CLOSE: usize = 46;

/// Where a message is sent.
#[derive(Clone, Copy, Debug, PartialEq, Eq, Structural)]
pub enum Endpoint {
    /// The network service itself.
    Service,
    /// The connection that a handle names.
    Connection(u16),
}

/// A blocking message of one word, answered by one word.
#[derive(Clone, Copy, Debug, PartialEq, Eq, Structural)]
pub struct ScalarRequest {
    pub target: Endpoint,
    pub opcode: usize,
    pub arg: usize,
}

/// A message to the network service that lends one page. `offset` and `valid`
/// are the two words that travel beside the page; 0 stands for "none".
#[derive(Clone, Copy, Debug, PartialEq, Eq)]
pub struct LendRequest {
    pub opcode: usize,
    pub page: [u8; 4096],
    pub offset: usize,
    pub valid: usize,
}

/// What a call of the service handed back.
#[derive(Clone, Copy, Debug, PartialEq, Eq, Structural)]
pub enum CallResult {
    /// The lent page came back. `valid` is the length that the service
    /// declares, 0 where it declares none.
    MemoryReturned { offset: usize, valid: usize },
    /// One word came back.
    Scalar1(usize),
    /// The call went through and something else came back.
    Other,
    /// The call itself did not complete.
    Failed,
}

/// The answer to a `LendRequest`: the result of the call and the page as the
/// service left it.
#[derive(Clone, Copy, Debug, PartialEq, Eq)]
pub struct LendReply {
    pub result: CallResult,
    pub page: [u8; 4096],
}

impl CallResult {
    /// The page came back, whatever length was declared.
    pub open spec fn returned(self) -> bool {
        self is MemoryReturned
    }

    /// The page came back with a declared length.
    pub open spec fn returned_some(self) -> bool {
        self is MemoryReturned && self->valid != 0
    }
}

/// The opcode of an operation on a handle: the operation in the low 16 bits,
/// the handle above them.
pub open spec fn spec_opcode(base: usize, handle: u16) -> usize {
    (base + handle * 0x1_0000) as usize
}

pub fn opcode(base: usize, handle: u16) -> (op: usize)
    requires
        base < 0x1_0000,
    ensures
        op == spec_opcode(base, handle),
{
    let h: usize = handle as usize;
    assert((base | (h << 16)) == base + h * 0x1_0000) by (bit_vector)
        requires
            base < 0x1_0000,
            h < 0x1_0000,
    ;
    base | (h << 16)
}

/// The weight of byte `k` of an integer written low byte first.
pub open spec fn byte_weight(k: int) -> int {
    if k <= 0 {
        1
    } else if k == 1 {
        0x100
    } else if k == 2 {
        0x1_0000
    } else if k == 3 {
        0x100_0000
    } else if k == 4 {
        0x1_0000_0000
    } else if k == 5 {
        0x100_0000_0000
    } else if k == 6 {
        0x1_0000_0000_0000
    } else {
        0x100_0000_0000_0000
    }
}

/// Byte `k` of `x` written low byte first.
pub open spec fn le_byte(x: int, k: int) -> u8 {
    ((x / byte_weight(k)) % 256) as u8
}

/// The 16-bit integer whose two bytes, low byte first, stand at `at`.
pub open spec fn le_u16_at(page: Seq<u8>, at: int) -> u16 {
    (page[at] + page[at + 1] * 0x100) as u16
}

/// The 32-bit integer whose four bytes, low byte first, stand at `at`.
pub open spec fn le_u32_at(page: Seq<u8>, at: int) -> u32 {
    (page[at] + page[at + 1] * 0x100 + page[at + 2] * 0x1_0000 + page[at + 3] * 0x100_0000) as u32
}

/// The 64-bit integer whose eight bytes, low byte first, stand at `at`.
pub open spec fn le_u64_at(page: Seq<u8>, at: int) -> u64 {
    (page[at] + page[at + 1] * byte_weight(1) + page[at + 2] * byte_weight(2) + page[at + 3]
        * byte_weight(3) + page[at + 4] * byte_weight(4) + page[at + 5] * byte_weight(5) + page[at
        + 6] * byte_weight(6) + page[at + 7] * byte_weight(7)) as u64
}

/// The page of 4096 zero bytes.
pub open spec fn zero_page() -> Seq<u8> {
    Seq::new(4096, |i: int| 0u8)
}

/// A fresh page, all zero.
pub fn new_page() -> (page: [u8; 4096])
    ensures
        page@ == zero_page(),
{
    let page = [0u8; 4096];
    assert(page@ =~= zero_page());
    page
}

/// Writes `x` at `at`, low byte first.
pub fn put_u16(page: &mut [u8; 4096], at: usize, x: u16)
    requires
        at + 2 <= 4096,
    ensures
        final(page)@ == old(page)@.update(at as int, le_byte(x as int, 0)).update(
            at + 1,
            le_byte(x as int, 1),
        ),
        le_u16_at(final(page)@, at as int) == x,
{
    page[at] = (x % 256) as u8;
    page[at + 1] = (x / 256) as u8;
}

/// Writes `x` at `at`, low byte first.
pub fn put_u64(page: &mut [u8; 4096], at: usize, x: u64)
    requires
        at + 8 <= 4096,
    ensures
        final(page)@.len() == 4096,
        forall|i: int|
            0 <= i < 4096 ==> #[trigger] final(page)@[i] == if at <= i < at + 8 {
                le_byte(x as int, i - at)
            } else {
                old(page)@[i]
            },
{
    page[at] = (x % 256) as u8;
    page[at + 1] = ((x / 0x100) % 256) as u8;
    page[at + 2] = ((x / 0x1_0000) % 256) as u8;
    page[at + 3] = ((x / 0x100_0000) % 256) as u8;
    page[at + 4] = ((x / 0x1_0000_0000) % 256) as u8;
    page[at + 5] = ((x / 0x100_0000_0000) % 256) as u8;
    page[at + 6] = ((x / 0x1_0000_0000_0000) % 256) as u8;
    page[at + 7] = ((x / 0x100_0000_0000_0000) % 256) as u8;
}

/// Copies the first `count` bytes of `src` to `at`.
pub fn put_bytes(page: &mut [u8; 4096], at: usize, src: &[u8], count: usize)
    requires
        count <= src@.len(),
        at + count <= 4096,
    ensures
        final(page)@.len() == 4096,
        forall|i: int|
            0 <= i < 4096 ==> #[trigger] final(page)@[i] == if at <= i < at + count {
                src@[i - at]
            } else {
                old(page)@[i]
            },
{
    let mut k: usize = 0;
    while k < count
        invariant
            k <= count,
            count <= src@.len(),
            at + count <= 4096,
            page@.len() == 4096,
            forall|i: int|
                0 <= i < 4096 ==> #[trigger] page@[i] == if at <= i < at + k {
                    src@[i - at]
                } else {
                    old(page)@[i]
                },
        decreases count - k,
    {
        page[at + k] = src[k];
        k += 1;
    }
}

/// Reads the 16-bit integer at `at`.
pub fn get_u16(page: &[u8; 4096], at: usize) -> (x: u16)
    requires
        at + 2 <= 4096,
    ensures
        x == le_u16_at(page@, at as int),
{
    page[at] as u16 + page[at + 1] as u16 * 0x100
}

/// Reads the 32-bit integer at `at`.
pub fn get_u32(page: &[u8; 4096], at: usize) -> (x: u32)
    requires
        at + 4 <= 4096,
    ensures
        x == le_u32_at(page@, at as int),
{
    page[at] as u32 + page[at + 1] as u32 * 0x100 + page[at + 2] as u32 * 0x1_0000 + page[at
        + 3] as u32 * 0x100_0000
}

/// Reads the 64-bit integer at `at`.
pub fn get_u64(page: &[u8; 4096], at: usize) -> (x: u64)
    requires
        at + 8 <= 4096,
    ensures
        x == le_u64_at(page@, at as int),
{
    page[at] as u64 + page[at + 1] as u64 * 0x100 + page[at + 2] as u64 * 0x1_0000 + page[at
        + 3] as u64 * 0x100_0000 + page[at + 4] as u64 * 0x1_0000_0000 + page[at + 5] as u64
        * 0x100_0000_0000 + page[at + 6] as u64 * 0x1_0000_0000_0000 + page[at + 7] as u64
        * 0x100_0000_0000_0000
}

/// An integer written low byte first is read back as it was written.
pub proof fn lemma_le_round_trip(page: Seq<u8>, at: int, x: u64)
    requires
        0 <= at,
        at + 8 <= page.len(),
        forall|k: int| 0 <= k < 8 ==> #[trigger] page[at + k] == le_byte(x as int, k),
    ensures
        le_u64_at(page, at) == x,
{
    assert(x == x % 256 + ((x / 0x100) % 256) * 0x100 + ((x / 0x1_0000) % 256) * 0x1_0000 + ((x
        / 0x100_0000) % 256) * 0x100_0000 + ((x / 0x1_0000_0000) % 256) * 0x1_0000_0000 + ((x
        / 0x100_0000_0000) % 256) * 0x100_0000_0000 + ((x / 0x1_0000_0000_0000) % 256)
        * 0x1_0000_0000_0000 + ((x / 0x100_0000_0000_0000) % 256) * 0x100_0000_0000_0000)
        by (bit_vector);
    assert(page[at + 0] == le_byte(x as int, 0));
    assert(page[at + 1] == le_byte(x as int, 1));
    assert(page[at + 2] == le_byte(x as int, 2));
    assert(page[at + 3] == le_byte(x as int, 3));
    assert(page[at + 4] == le_byte(x as int, 4));
    assert(page[at + 5] == le_byte(x as int, 5));
    assert(page[at + 6] == le_byte(x as int, 6));
    assert(page[at + 7] == le_byte(x as int, 7));
}

} // verus!
