//! How each announcement method sets up its sockets.
//!
//! `plan_transport` decides, from the advertised address and the method, which
//! socket to open, which options to set, where to bind, which group to join and
//! through which socket the one announcement goes. Carrying the plan out is I/O
//! and is left to the caller.
use vstd::prelude::*;

use crate::addr::{AddrModel, IpAddress, PeerAddr};
use crate::codec::{to_bytes, wire_of};

verus! {

/// Whether discovery messages go out by broadcast or by multicast.
#[derive(Clone, Copy, Debug)]
pub enum Method {
    /// IPv4 broadcast to the given address, such as `255.255.255.255:1337`
    /// or a subnet's `.255` address.
    Broadcast(PeerAddr),
    /// Multicast to the given group address, IPv4 or IPv6, such as
    /// `[ff0e::1]:1337`.
    Multicast(PeerAddr),
}

/// The address family of a socket.
#[derive(Clone, Copy, Debug, PartialEq, Eq, Structural)]
pub enum Family {
    V4,
    V6,
}

/// A multicast group to join on the receiving socket.
#[derive(Clone, Copy, Debug)]
pub enum Membership {
    /// An IPv4 group, joined on the interface with the given address.
    V4 { group: [u8; 4], interface: [u8; 4] },
    /// An IPv6 group, joined on the interface with the given index.
    V6 { group: [u8; 16], interface: u32 },
}

/// The socket through which the announcement is sent.
#[derive(Clone, Copy, Debug)]
pub enum Sender {
    /// The receiving socket itself.
    Receiver,
    /// A short-lived socket bound to the given local address, closed after
    /// the send.
    Ephemeral(PeerAddr),
}

/// The socket set-up of one discovery run.
#[derive(Debug)]
pub struct TransportPlan {
    /// The family of the receiving socket.
    pub family: Family,
    /// Whether the address-reuse option is set on the receiving socket.
    pub reuse_address: bool,
    /// Whether the broadcast option is set on the receiving socket.
    pub broadcast: bool,
    /// The local address that the receiving socket binds to.
    pub bind: PeerAddr,
    /// The group that the receiving socket joins, if any.
    pub membership: Option<Membership>,
    /// The socket that sends the announcement.
    pub sender: Sender,
    /// Where the announcement goes.
    pub destination: PeerAddr,
    /// The announcement itself.
    pub payload: Vec<u8>,
}

/// Why no socket set-up exists for a method.
#[derive(Clone, Copy, Debug, PartialEq, Eq, Structural)]
pub enum PlanError {
    /// Broadcast was asked for with an IPv6 target; IPv6 has no broadcast.
    Ipv6Broadcast,
}

/// The wildcard address of a family with the given port.
pub open spec fn wildcard(family: Family, port: u16) -> AddrModel {
    match family {
        Family::V4 => AddrModel::V4 { ip: Seq::new(4, |i: int| 0u8), port },
        Family::V6 => AddrModel::V6 { ip: Seq::new(16, |i: int| 0u8), port },
    }
}

/// The family of an address.
pub open spec fn family_of(a: AddrModel) -> Family {
    match a {
        AddrModel::V4 { .. } => Family::V4,
        AddrModel::V6 { .. } => Family::V6,
    }
}

/// The membership joins `group` on the default interface of its family.
pub open spec fn joins_on_any_interface(m: Membership, group: AddrModel) -> bool {
    match m {
        Membership::V4 { group: g, interface } => {
            &&& group matches AddrModel::V4 { ip, .. }
            &&& g@ == ip
            &&& interface@ == Seq::new(4, |i: int| 0u8)
        },
        Membership::V6 { group: g, interface } => {
            &&& group matches AddrModel::V6 { ip, .. }
            &&& g@ == ip
            &&& interface == 0
        },
    }
}

/// The wildcard address of a family with the given port.
fn wildcard_addr(family: Family, port: u16) -> (r: PeerAddr)
    ensures
        r@ == wildcard(family, port),
{
    match family {
        Family::V4 => {
            let r = PeerAddr { ip: IpAddress::V4([0u8, 0, 0, 0]), port };
            assert(r@ == wildcard(family, port)) by {
                assert(r.ip->V4_0@ =~= Seq::new(4, |i: int| 0u8));
            }
            r
        },
        Family::V6 => {
            let r = PeerAddr { ip: IpAddress::V6([0u8, 0, 0, 0, 0, 0, 0, 0, 0, 0, 0, 0, 0, 0, 0, 0]), port };
            assert(r@ == wildcard(family, port)) by {
                assert(r.ip->V6_0@ =~= Seq::new(16, |i: int| 0u8));
            }
            r
        },
    }
}

/// Decides the socket set-up that announces `connect_to` by `method`.
///
/// Broadcast: an IPv4 socket with address reuse and the broadcast option,
/// bound to the target's port on the wildcard address, which both sends the
/// announcement to the target and receives. Multicast: a socket of the
/// target's family with address reuse, bound to the target and joined to it
/// on the default interface, which receives; the announcement goes out once
/// through a short-lived socket on an ephemeral port of the same family.
pub fn plan_transport(connect_to: &PeerAddr, method: &Method) -> (r: Result<TransportPlan, PlanError>)
    ensures
        match *method {
            Method::Broadcast(target) => if target@ is V6 {
                r == Err::<TransportPlan, PlanError>(PlanError::Ipv6Broadcast)
            } else {
                r matches Ok(p) && {
                    &&& p.family == Family::V4
                    &&& p.reuse_address
                    &&& p.broadcast
                    &&& p.bind@ == wildcard(Family::V4, target.port)
                    &&& p.membership is None
                    &&& p.sender is Receiver
                    &&& p.destination@ == target@
                    &&& p.payload@ == wire_of(connect_to@)
                }
            },
            Method::Multicast(target) => r matches Ok(p) && {
                &&& p.family == family_of(target@)
                &&& p.reuse_address
                &&& !p.broadcast
                &&& p.bind@ == target@
                &&& p.membership matches Some(m) && joins_on_any_interface(m, target@)
                &&& p.sender matches Sender::Ephemeral(s) && s@ == wildcard(family_of(target@), 0)
                &&& p.destination@ == target@
                &&& p.payload@ == wire_of(connect_to@)
            },
        },
{
    let payload = to_bytes(connect_to);
    match method {
        Method::Broadcast(target) => {
            if !target.is_ipv4() {
                return Err(PlanError::Ipv6Broadcast);
            }
            Ok(TransportPlan {
                family: Family::V4,
                reuse_address: true,
                broadcast: true,
                bind: wildcard_addr(Family::V4, target.port),
                membership: None,
                sender: Sender::Receiver,
                destination: *target,
                payload,
            })
        },
        Method::Multicast(target) => {
            let (family, membership) = match target.ip {
                IpAddress::V4(group) => {
                    let interface: [u8; 4] = [0u8, 0, 0, 0];
                    assert(interface@ =~= Seq::new(4, |i: int| 0u8));
                    (Family::V4, Membership::V4 { group, interface })
                },
                IpAddress::V6(group) => (Family::V6, Membership::V6 { group, interface: 0 }),
            };
            Ok(TransportPlan {
                family,
                reuse_address: true,
                broadcast: false,
                bind: *target,
                membership: Some(membership),
                sender: Sender::Ephemeral(wildcard_addr(family, 0)),
                destination: *target,
                payload,
            })
        },
    }
}

} // verus!
