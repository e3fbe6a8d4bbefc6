//! Peer discovery on a local network segment.
//!
//! A process announces the socket address it listens on, by UDP broadcast or
//! multicast, and connects to every other address it hears announced. This
//! library holds the parts of that protocol that decide: the wire encoding of
//! an address, the socket set-up that each announcement method needs, and the
//! per-datagram decision of the receive loop.
use vstd::prelude::*;

pub mod addr;
pub mod codec;
pub mod discovery;
pub mod transport;

pub use addr::{AddrModel, IpAddress, PeerAddr};
pub use codec::{parse_bytes, to_bytes, MalformedPacket};
pub use discovery::{DiscoveryLoop, LoopState, Step};
pub use transport::{plan_transport, Family, Membership, Method, PlanError, Sender, TransportPlan};

verus! {

} // verus!
