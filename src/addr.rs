//! Socket addresses as plain values: an IP address as its octets, and a port.
use vstd::prelude::*;

verus! {

/// The IP part of a socket address, as its octets in network order.
#[derive(Clone, Copy, Debug)]
pub enum IpAddress {
    V4([u8; 4]),
    V6([u8; 16]),
}

/// A socket address: an IPv4 or IPv6 address and a port.
#[derive(Clone, Copy, Debug)]
pub struct PeerAddr {
    pub ip: IpAddress,
    pub port: u16,
}

/// The mathematical value of a socket address.
pub enum AddrModel {
    V4 { ip: Seq<u8>, port: u16 },
    V6 { ip: Seq<u8>, port: u16 },
}

impl AddrModel {
    /// The octets have the length that the address family fixes.
    pub open spec fn wf(self) -> bool {
        match self {
            AddrModel::V4 { ip, .. } => ip.len() == 4,
            AddrModel::V6 { ip, .. } => ip.len() == 16,
        }
    }
}

impl View for PeerAddr {
    type V = AddrModel;

    open spec fn view(&self) -> AddrModel {
        match self.ip {
            IpAddress::V4(o) => AddrModel::V4 { ip: o@, port: self.port },
            IpAddress::V6(o) => AddrModel::V6 { ip: o@, port: self.port },
        }
    }
}

/// Every address value has a well-formed model: the octet arrays fix the
/// length of each family.
pub proof fn lemma_view_wf(a: PeerAddr)
    ensures
        a@.wf(),
{
}

/// Whether two octet sequences are equal.
fn octets_equal(a: &[u8], b: &[u8]) -> (r: bool)
    ensures
        r == (a@ == b@),
{
    if a.len() != b.len() {
        return false;
    }
    let mut i: usize = 0;
    while i < a.len()
        invariant
            a@.len() == b@.len(),
            i <= a@.len(),
            a@.subrange(0, i as int) == b@.subrange(0, i as int),
        decreases a@.len() - i,
    {
        if a[i] != b[i] {
            assert(a@[i as int] != b@[i as int]);
            return false;
        }
        assert(a@.subrange(0, i + 1) =~= a@.subrange(0, i as int).push(a@[i as int]));
        assert(b@.subrange(0, i + 1) =~= b@.subrange(0, i as int).push(b@[i as int]));
        i = i + 1;
    }
    assert(a@ =~= a@.subrange(0, i as int));
    assert(b@ =~= b@.subrange(0, i as int));
    true
}

impl PeerAddr {
    /// An IPv4 socket address.
    pub fn v4(octets: [u8; 4], port: u16) -> (r: PeerAddr)
        ensures
            r@ == (AddrModel::V4 { ip: octets@, port }),
    {
        PeerAddr { ip: IpAddress::V4(octets), port }
    }

    /// An IPv6 socket address.
    pub fn v6(octets: [u8; 16], port: u16) -> (r: PeerAddr)
        ensures
            r@ == (AddrModel::V6 { ip: octets@, port }),
    {
        PeerAddr { ip: IpAddress::V6(octets), port }
    }

    /// Whether this is an IPv4 address.
    pub fn is_ipv4(&self) -> (r: bool)
        ensures
            r == (self@ is V4),
    {
        match self.ip {
            IpAddress::V4(_) => true,
            IpAddress::V6(_) => false,
        }
    }

    /// The port.
    pub fn port(&self) -> (r: u16)
        ensures
            r == self.port,
    {
        self.port
    }

    /// Whether two socket addresses are the same: same family, octets and port.
    pub fn same_as(&self, other: &PeerAddr) -> (r: bool)
        ensures
            r == (self@ == other@),
    {
        if self.port != other.port {
            return false;
        }
        match (&self.ip, &other.ip) {
            (IpAddress::V4(a), IpAddress::V4(b)) => octets_equal(a.as_slice(), b.as_slice()),
            (IpAddress::V6(a), IpAddress::V6(b)) => octets_equal(a.as_slice(), b.as_slice()),
            _ => false,
        }
    }
}

impl PartialEq for PeerAddr {
    fn eq(&self, other: &PeerAddr) -> (r: bool) {
        self.same_as(other)
    }
}

impl vstd::std_specs::cmp::PartialEqSpecImpl for PeerAddr {
    open spec fn obeys_eq_spec() -> bool {
        true
    }

    open spec fn eq_spec(&self, other: &PeerAddr) -> bool {
        self@ == other@
    }
}

impl Eq for PeerAddr {}

} // verus!
