//! The decisions of the discovery receive loop.
//!
//! The loop's caller receives datagrams and hands each one to `on_datagram`,
//! which says what to do with it: connect to the peer it announces, ignore it
//! as the echo of our own announcement, or drop it as malformed. The loop runs
//! until `stop` is called.
use vstd::prelude::*;

use crate::addr::{AddrModel, PeerAddr};
use crate::codec::{decode_wire, parse_bytes, wire_of, MalformedPacket};

verus! {

/// Where a discovery loop stands.
#[derive(Clone, Copy, Debug, PartialEq, Eq, Structural)]
pub enum LoopState {
    /// No datagram has been received yet.
    Idle,
    /// At least one datagram has been received.
    Receiving,
    /// The loop was told to stop; it receives nothing more.
    Stopped,
}

/// What to do with one received datagram.
#[derive(Clone, Copy, Debug, PartialEq, Eq)]
pub enum Step {
    /// Open a TCP connection to this peer and hand the outcome to the handler.
    Dispatch(PeerAddr),
    /// Our own announcement came back: ignore it.
    SelfEcho,
    /// The datagram is no announcement: drop it.
    Malformed(MalformedPacket),
}

/// The mathematical value of a `Step`.
pub enum StepModel {
    Dispatch(AddrModel),
    SelfEcho,
    Malformed(nat),
}

impl View for Step {
    type V = StepModel;

    open spec fn view(&self) -> StepModel {
        match *self {
            Step::Dispatch(a) => StepModel::Dispatch(a@),
            Step::SelfEcho => StepModel::SelfEcho,
            Step::Malformed(m) => StepModel::Malformed(m.len as nat),
        }
    }
}

/// What a loop that advertises `advertised` does with the payload `bytes`.
pub open spec fn step_of(advertised: AddrModel, bytes: Seq<u8>) -> StepModel {
    match decode_wire(bytes) {
        None => StepModel::Malformed(bytes.len()),
        Some(a) => if a == advertised {
            StepModel::SelfEcho
        } else {
            StepModel::Dispatch(a)
        },
    }
}

/// The receive loop of one discovery run.
pub struct DiscoveryLoop {
    advertised: PeerAddr,
    state: LoopState,
}

impl DiscoveryLoop {
    /// The address that this loop announced.
    pub closed spec fn advertised_spec(&self) -> AddrModel {
        self.advertised@
    }

    /// Where this loop stands.
    pub closed spec fn state_spec(&self) -> LoopState {
        self.state
    }

    /// A loop for a run that announces `advertised`, before its first datagram.
    pub fn new(advertised: PeerAddr) -> (r: DiscoveryLoop)
        ensures
            r.advertised_spec() == advertised@,
            r.state_spec() == LoopState::Idle,
    {
        DiscoveryLoop { advertised, state: LoopState::Idle }
    }

    /// The address that this loop announced.
    pub fn advertised(&self) -> (r: PeerAddr)
        ensures
            r@ == self.advertised_spec(),
    {
        self.advertised
    }

    /// Where this loop stands.
    pub fn state(&self) -> (r: LoopState)
        ensures
            r == self.state_spec(),
    {
        self.state
    }

    /// Whether the loop should go on receiving.
    pub fn is_running(&self) -> (r: bool)
        ensures
            r == (self.state_spec() != LoopState::Stopped),
    {
        self.state != LoopState::Stopped
    }

    /// Tells the loop to stop before its next datagram.
    pub fn stop(&mut self)
        ensures
            final(self).state_spec() == LoopState::Stopped,
            final(self).advertised_spec() == old(self).advertised_spec(),
    {
        self.state = LoopState::Stopped;
    }

    /// Decides what to do with a datagram whose first `len` bytes were
    /// received into `buff`.
    ///
    /// A payload that does not decode is dropped; one that decodes to the
    /// advertised address is our own echo and is never dispatched; any other
    /// address is dispatched.
    pub fn on_datagram(&mut self, len: usize, buff: &[u8]) -> (r: Step)
        requires
            old(self).state_spec() != LoopState::Stopped,
            len <= buff@.len(),
        ensures
            r@ == step_of(old(self).advertised_spec(), buff@.subrange(0, len as int)),
            decode_wire(buff@.subrange(0, len as int)) == Some(old(self).advertised_spec())
                ==> r is SelfEcho,
            final(self).state_spec() == LoopState::Receiving,
            final(self).advertised_spec() == old(self).advertised_spec(),
    {
        self.state = LoopState::Receiving;
        match parse_bytes(len, buff) {
            Err(e) => Step::Malformed(e),
            Ok(peer) => {
                if peer == self.advertised {
                    Step::SelfEcho
                } else {
                    Step::Dispatch(peer)
                }
            },
        }
    }
}

/// A loop never dispatches the echo of its own announcement: the payload that
/// announces the advertised address is always recognised as a self-echo.
pub proof fn lemma_self_echo_filtered(advertised: AddrModel)
    requires
        advertised.wf(),
    ensures
        step_of(advertised, wire_of(advertised)) == StepModel::SelfEcho,
{
    crate::codec::lemma_round_trip(advertised);
}

/// Whatever payload a loop receives, it dispatches only addresses other than
/// the one it advertised.
pub proof fn lemma_no_self_dispatch(advertised: AddrModel, bytes: Seq<u8>)
    ensures
        step_of(advertised, bytes) matches StepModel::Dispatch(a) ==> a != advertised,
        decode_wire(bytes) == Some(advertised) ==> step_of(advertised, bytes) == StepModel::SelfEcho,
{
}

} // verus!
