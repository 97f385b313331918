//! Internet addresses, held as the octets that go on the wire.

use vstd::prelude::*;

verus! {

/// An IPv4 address: four octets, first octet first.
#[derive(Clone, Copy, Debug, PartialEq, Eq, Hash)]
pub struct Ipv4Addr {
    pub octets: [u8; 4],
}

/// An IPv6 address: sixteen octets, first octet first.
#[derive(Clone, Copy, Debug, PartialEq, Eq, Hash)]
pub struct Ipv6Addr {
    pub octets: [u8; 16],
}

/// An address of either version.
#[derive(Clone, Copy, Debug, PartialEq, Eq, Hash)]
pub enum IpAddr {
    V4(Ipv4Addr),
    V6(Ipv6Addr),
}

/// An address and a port.
#[derive(Clone, Copy, Debug, PartialEq, Eq, Hash)]
pub struct SocketAddr {
    pub ip: IpAddr,
    pub port: u16,
}

/// What a socket address is: its version tag (4 or 6), its octets (4 or 16 of
/// them) and its port.
pub struct AddrModel {
    pub version: u8,
    pub octets: Seq<u8>,
    pub port: u16,
}

impl AddrModel {
    /// The tag and the number of octets agree.
    pub open spec fn wf(self) -> bool {
        (self.version == 4 && self.octets.len() == 4) || (self.version == 6 && self.octets.len()
            == 16)
    }
}

/// The value of one 16-bit group of an IPv6 address, high octet first.
pub open spec fn group_of(high: u8, low: u8) -> u16 {
    (high * 256 + low) as u16
}

impl Ipv4Addr {
    pub fn new(a: u8, b: u8, c: u8, d: u8) -> (ip: Ipv4Addr)
        ensures
            ip.octets@ == seq![a, b, c, d],
    {
        let ip = Ipv4Addr { octets: [a, b, c, d] };
        assert(ip.octets@ =~= seq![a, b, c, d]);
        ip
    }

    pub fn octets(&self) -> (o: [u8; 4])
        ensures
            o == self.octets,
    {
        self.octets
    }
}

impl Ipv6Addr {
    /// The address made of eight 16-bit groups, each written high octet first.
    pub fn new(a: u16, b: u16, c: u16, d: u16, e: u16, f: u16, g: u16, h: u16) -> (ip: Ipv6Addr)
        ensures
            ip.octets@ == seq![
                (a / 256) as u8,
                (a % 256) as u8,
                (b / 256) as u8,
                (b % 256) as u8,
                (c / 256) as u8,
                (c % 256) as u8,
                (d / 256) as u8,
                (d % 256) as u8,
                (e / 256) as u8,
                (e % 256) as u8,
                (f / 256) as u8,
                (f % 256) as u8,
                (g / 256) as u8,
                (g % 256) as u8,
                (h / 256) as u8,
                (h % 256) as u8,
            ],
    {
        let ip = Ipv6Addr {
            octets: [
                (a / 256) as u8,
                (a % 256) as u8,
                (b / 256) as u8,
                (b % 256) as u8,
                (c / 256) as u8,
                (c % 256) as u8,
                (d / 256) as u8,
                (d % 256) as u8,
                (e / 256) as u8,
                (e % 256) as u8,
                (f / 256) as u8,
                (f % 256) as u8,
                (g / 256) as u8,
                (g % 256) as u8,
                (h / 256) as u8,
                (h % 256) as u8,
            ],
        };
        assert(ip.octets@ =~= seq![
            (a / 256) as u8,
            (a % 256) as u8,
            (b / 256) as u8,
            (b % 256) as u8,
            (c / 256) as u8,
            (c % 256) as u8,
            (d / 256) as u8,
            (d % 256) as u8,
            (e / 256) as u8,
            (e % 256) as u8,
            (f / 256) as u8,
            (f % 256) as u8,
            (g / 256) as u8,
            (g % 256) as u8,
            (h / 256) as u8,
            (h % 256) as u8,
        ]);
        ip
    }

    pub fn octets(&self) -> (o: [u8; 16])
        ensures
            o == self.octets,
    {
        self.octets
    }

    /// The eight 16-bit groups of the address.
    pub fn segments(&self) -> (s: [u16; 8])
        ensures
            forall|k: int|
                0 <= k < 8 ==> #[trigger] s@[k] == group_of(
                    self.octets@[2 * k],
                    self.octets@[2 * k + 1],
                ),
    {
        let o = &self.octets;
        [
            o[0] as u16 * 256 + o[1] as u16,
            o[2] as u16 * 256 + o[3] as u16,
            o[4] as u16 * 256 + o[5] as u16,
            o[6] as u16 * 256 + o[7] as u16,
            o[8] as u16 * 256 + o[9] as u16,
            o[10] as u16 * 256 + o[11] as u16,
            o[12] as u16 * 256 + o[13] as u16,
            o[14] as u16 * 256 + o[15] as u16,
        ]
    }
}

impl IpAddr {
    /// The version tag of this address on the wire: 4 or 6.
    pub open spec fn spec_version(self) -> u8 {
        match self {
            IpAddr::V4(_) => 4,
            IpAddr::V6(_) => 6,
        }
    }

    /// The octets of this address, first octet first.
    pub open spec fn spec_octets(self) -> Seq<u8> {
        match self {
            IpAddr::V4(a) => a.octets@,
            IpAddr::V6(a) => a.octets@,
        }
    }

    pub fn version(&self) -> (v: u8)
        ensures
            v == self.spec_version(),
    {
        match self {
            IpAddr::V4(_) => 4,
            IpAddr::V6(_) => 6,
        }
    }
}

impl View for SocketAddr {
    type V = AddrModel;

    open spec fn view(&self) -> AddrModel {
        AddrModel {
            version: self.ip.spec_version(),
            octets: self.ip.spec_octets(),
            port: self.port,
        }
    }
}

impl SocketAddr {
    pub fn new(ip: IpAddr, port: u16) -> (a: SocketAddr)
        ensures
            a.ip == ip,
            a.port == port,
    {
        SocketAddr { ip, port }
    }

    pub fn ip(&self) -> (ip: IpAddr)
        ensures
            ip == self.ip,
    {
        self.ip
    }

    pub fn port(&self) -> (p: u16)
        ensures
            p == self.port,
    {
        self.port
    }

    /// Every socket address has 4 octets under tag 4 or 16 under tag 6.
    pub proof fn lemma_view_wf(self)
        ensures
            self@.wf(),
    {
    }
}

} // verus!
