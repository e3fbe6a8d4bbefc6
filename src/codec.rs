//! The announcement payload: a socket address as 6 bytes (IPv4) or 18 bytes
//! (IPv6), the octets followed by the port in big-endian order.
use vstd::prelude::*;

use crate::addr::{lemma_view_wf, AddrModel, IpAddress, PeerAddr};

verus! {

/// A received payload whose length is neither 6 nor 18.
#[derive(Clone, Copy, Debug, PartialEq, Eq, Structural)]
pub struct MalformedPacket {
    /// The length of the payload that was refused.
    pub len: usize,
}

/// A port as two bytes, most significant first.
pub open spec fn port_bytes(port: u16) -> Seq<u8> {
    seq![(port / 256) as u8, (port % 256) as u8]
}

/// The port that two bytes hold, most significant first.
pub open spec fn port_from(hi: u8, lo: u8) -> u16 {
    (hi * 256 + lo) as u16
}

/// The payload that announces an address.
pub open spec fn wire_of(a: AddrModel) -> Seq<u8> {
    match a {
        AddrModel::V4 { ip, port } => ip + port_bytes(port),
        AddrModel::V6 { ip, port } => ip + port_bytes(port),
    }
}

/// The address that a payload announces, if its length is a valid one.
pub open spec fn decode_wire(b: Seq<u8>) -> Option<AddrModel> {
    if b.len() == 6 {
        Some(AddrModel::V4 { ip: b.subrange(0, 4), port: port_from(b[4], b[5]) })
    } else if b.len() == 18 {
        Some(AddrModel::V6 { ip: b.subrange(0, 16), port: port_from(b[16], b[17]) })
    } else {
        None
    }
}

/// Appends `octets` to `out`.
fn append_octets(out: &mut Vec<u8>, octets: &[u8])
    ensures
        final(out)@ == old(out)@ + octets@,
{
    let mut i: usize = 0;
    while i < octets.len()
        invariant
            i <= octets@.len(),
            out@ == old(out)@ + octets@.subrange(0, i as int),
        decreases octets@.len() - i,
    {
        out.push(octets[i]);
        assert(octets@.subrange(0, i + 1) =~= octets@.subrange(0, i as int).push(octets@[i as int]));
        i = i + 1;
    }
    assert(octets@.subrange(0, i as int) =~= octets@);
}

/// Encodes an address as the payload that announces it.
pub fn to_bytes(connect_to: &PeerAddr) -> (r: Vec<u8>)
    ensures
        r@ == wire_of(connect_to@),
        r@.len() == (if connect_to@ is V4 { 6int } else { 18int }),
{
    let mut buff: Vec<u8> = Vec::new();
    match &connect_to.ip {
        IpAddress::V4(o) => append_octets(&mut buff, o.as_slice()),
        IpAddress::V6(o) => append_octets(&mut buff, o.as_slice()),
    }
    let port = connect_to.port;
    let hi: u8 = (port / 256) as u8;
    let lo: u8 = (port % 256) as u8;
    let ghost octets = buff@;
    buff.push(hi);
    buff.push(lo);
    assert(buff@ =~= octets + port_bytes(port));
    buff
}

/// Decodes the first `len` bytes of `buff` as an announced address.
pub fn parse_bytes(len: usize, buff: &[u8]) -> (r: Result<PeerAddr, MalformedPacket>)
    requires
        len <= buff@.len(),
    ensures
        match decode_wire(buff@.subrange(0, len as int)) {
            Some(a) => r matches Ok(p) && p@ == a,
            None => r == Err::<PeerAddr, MalformedPacket>(MalformedPacket { len }),
        },
        r is Ok <==> (len == 6 || len == 18),
{
    let ghost b = buff@.subrange(0, len as int);
    if len == 6 {
        let ip: [u8; 4] = [buff[0], buff[1], buff[2], buff[3]];
        let port: u16 = (buff[4] as u16) * 256 + buff[5] as u16;
        assert(ip@ =~= b.subrange(0, 4));
        Ok(PeerAddr { ip: IpAddress::V4(ip), port })
    } else if len == 18 {
        let ip: [u8; 16] = [
            buff[0], buff[1], buff[2], buff[3], buff[4], buff[5], buff[6], buff[7],
            buff[8], buff[9], buff[10], buff[11], buff[12], buff[13], buff[14], buff[15],
        ];
        let port: u16 = (buff[16] as u16) * 256 + buff[17] as u16;
        assert(ip@ =~= b.subrange(0, 16));
        Ok(PeerAddr { ip: IpAddress::V6(ip), port })
    } else {
        Err(MalformedPacket { len })
    }
}

/// Decoding the payload that announces a well-formed address gives that
/// address back, for IPv4 and IPv6 alike.
pub proof fn lemma_round_trip(a: AddrModel)
    requires
        a.wf(),
    ensures
        decode_wire(wire_of(a)) == Some(a),
{
    match a {
        AddrModel::V4 { ip, port } => {
            let w = wire_of(a);
            assert(w.subrange(0, 4) =~= ip);
            assert(port_from(w[4], w[5]) == port);
        },
        AddrModel::V6 { ip, port } => {
            let w = wire_of(a);
            assert(w.subrange(0, 16) =~= ip);
            assert(port_from(w[16], w[17]) == port);
        },
    }
}

/// Decoding what `to_bytes` makes of an address value gives that address back.
pub proof fn lemma_encode_then_decode(a: PeerAddr)
    ensures
        decode_wire(wire_of(a@)) == Some(a@),
{
    lemma_view_wf(a);
    lemma_round_trip(a@);
}

/// A payload decodes exactly when its length is 6 or 18; every other length,
/// the empty payload included, is malformed.
pub proof fn lemma_length_dispatch(b: Seq<u8>)
    ensures
        decode_wire(b) is Some <==> (b.len() == 6 || b.len() == 18),
        decode_wire(b) matches Some(a) ==> a.wf() && (a is V4 <==> b.len() == 6),
{
}

} // verus!
