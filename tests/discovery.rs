use autodiscover_rs::{
    parse_bytes, plan_transport, to_bytes, DiscoveryLoop, Family, IpAddress, LoopState, MalformedPacket, Membership,
    Method, PeerAddr, PlanError, Sender, Step,
};

fn ff0e_1() -> [u8; 16] {
    let mut g = [0u8; 16];
    g[0] = 0xff;
    g[1] = 0x0e;
    g[15] = 1;
    g
}

fn localhost6() -> [u8; 16] {
    let mut g = [0u8; 16];
    g[15] = 1;
    g
}

#[test]
fn own_announcement_is_a_self_echo() {
    let me = PeerAddr::v4([10, 0, 0, 5], 4000);
    let mut l = DiscoveryLoop::new(me);
    let b = to_bytes(&me);
    assert_eq!(l.on_datagram(b.len(), &b), Step::SelfEcho);
    let me6 = PeerAddr::v6(localhost6(), 5000);
    let mut l6 = DiscoveryLoop::new(me6);
    let b6 = to_bytes(&me6);
    assert_eq!(l6.on_datagram(b6.len(), &b6), Step::SelfEcho);
}

#[test]
fn same_ip_other_port_is_dispatched() {
    let me = PeerAddr::v4([10, 0, 0, 5], 4000);
    let other = PeerAddr::v4([10, 0, 0, 5], 4002);
    let mut l = DiscoveryLoop::new(me);
    let b = to_bytes(&other);
    assert_eq!(l.on_datagram(b.len(), &b), Step::Dispatch(other));
}

#[test]
fn ipv4_broadcast_round_trip() {
    let first = PeerAddr::v4([10, 0, 0, 5], 4000);
    let second = PeerAddr::v4([10, 0, 0, 9], 4001);
    let target = PeerAddr::v4([10, 0, 0, 255], 2020);
    let plan1 = plan_transport(&first, &Method::Broadcast(target)).unwrap();
    let plan2 = plan_transport(&second, &Method::Broadcast(target)).unwrap();
    for plan in [&plan1, &plan2] {
        assert_eq!(plan.family, Family::V4);
        assert!(plan.reuse_address);
        assert!(plan.broadcast);
        assert_eq!(plan.bind, PeerAddr::v4([0, 0, 0, 0], 2020));
        assert!(plan.membership.is_none());
        assert!(matches!(plan.sender, Sender::Receiver));
        assert_eq!(plan.destination, target);
    }
    assert_eq!(plan1.payload, vec![10, 0, 0, 5, 0x0f, 0xa0]);
    assert_eq!(plan2.payload, vec![10, 0, 0, 9, 0x0f, 0xa1]);

    // Each side hears both announcements, its own first.
    let mut l1 = DiscoveryLoop::new(first);
    let mut l2 = DiscoveryLoop::new(second);
    assert_eq!(l2.on_datagram(6, &plan2.payload), Step::SelfEcho);
    assert_eq!(l2.on_datagram(6, &plan1.payload), Step::Dispatch(first));
    assert_eq!(l1.on_datagram(6, &plan1.payload), Step::SelfEcho);
    assert_eq!(l1.on_datagram(6, &plan2.payload), Step::Dispatch(second));
}

#[test]
fn malformed_packet_survives() {
    let me = PeerAddr::v4([10, 0, 0, 9], 4001);
    let peer = PeerAddr::v4([10, 0, 0, 5], 4000);
    let mut l = DiscoveryLoop::new(me);
    let mut buff = [0u8; 18];
    buff[..3].copy_from_slice(&[1, 2, 3]);
    assert_eq!(l.on_datagram(3, &buff), Step::Malformed(MalformedPacket { len: 3 }));
    assert!(l.is_running());
    buff[..6].copy_from_slice(&to_bytes(&peer));
    assert_eq!(l.on_datagram(6, &buff), Step::Dispatch(peer));
    assert_eq!(l.state(), LoopState::Receiving);
}

#[test]
fn ipv6_multicast() {
    let me = PeerAddr::v6(localhost6(), 5000);
    let group = PeerAddr::v6(ff0e_1(), 1337);
    let plan = plan_transport(&me, &Method::Multicast(group)).unwrap();
    assert_eq!(plan.family, Family::V6);
    assert!(plan.reuse_address);
    assert!(!plan.broadcast);
    assert_eq!(plan.bind, group);
    match plan.membership {
        Some(Membership::V6 { group: g, interface }) => {
            assert_eq!(g, ff0e_1());
            assert_eq!(interface, 0);
        }
        _ => panic!("expected an IPv6 group membership"),
    }
    match plan.sender {
        Sender::Ephemeral(local) => assert_eq!(local, PeerAddr::v6([0u8; 16], 0)),
        Sender::Receiver => panic!("the announcement must leave through a temporary socket"),
    }
    assert_eq!(plan.destination, group);
    assert_eq!(parse_bytes(plan.payload.len(), &plan.payload), Ok(me));
    assert_eq!(plan.payload.len(), 18);
}

#[test]
fn ipv4_multicast() {
    let me = PeerAddr::v4([192, 168, 0, 7], 9000);
    let group = PeerAddr::v4([224, 0, 0, 1], 1337);
    let plan = plan_transport(&me, &Method::Multicast(group)).unwrap();
    assert_eq!(plan.family, Family::V4);
    assert!(!plan.broadcast);
    assert_eq!(plan.bind, group);
    assert!(matches!(
        plan.membership,
        Some(Membership::V4 { group: [224, 0, 0, 1], interface: [0, 0, 0, 0] })
    ));
    match plan.sender {
        Sender::Ephemeral(local) => assert_eq!(local, PeerAddr::v4([0, 0, 0, 0], 0)),
        Sender::Receiver => panic!("the announcement must leave through a temporary socket"),
    }
    assert_eq!(plan.payload, vec![192, 168, 0, 7, 0x23, 0x28]);
}

#[test]
fn broadcast_refuses_ipv6() {
    let me = PeerAddr::v6(localhost6(), 5000);
    let target = PeerAddr::v6(ff0e_1(), 1337);
    assert_eq!(plan_transport(&me, &Method::Broadcast(target)).unwrap_err(), PlanError::Ipv6Broadcast);
}

#[test]
fn dispatch_then_continue() {
    let me = PeerAddr::v4([127, 0, 0, 1], 4000);
    let unreachable_peer = PeerAddr::v4([127, 0, 0, 1], 1);
    let next_peer = PeerAddr::v4([127, 0, 0, 2], 4000);
    let mut l = DiscoveryLoop::new(me);
    assert_eq!(l.state(), LoopState::Idle);
    let b = to_bytes(&unreachable_peer);
    assert_eq!(l.on_datagram(6, &b), Step::Dispatch(unreachable_peer));
    assert!(l.is_running());
    let b = to_bytes(&next_peer);
    assert_eq!(l.on_datagram(6, &b), Step::Dispatch(next_peer));
    // A peer that announces again is dialled again.
    assert_eq!(l.on_datagram(6, &b), Step::Dispatch(next_peer));
}

#[test]
fn stop_ends_the_loop() {
    let me = PeerAddr::v4([127, 0, 0, 1], 4000);
    let mut l = DiscoveryLoop::new(me);
    assert!(l.is_running());
    l.stop();
    assert!(!l.is_running());
    assert_eq!(l.state(), LoopState::Stopped);
    assert_eq!(l.advertised(), me);
    assert!(matches!(l.advertised().ip, IpAddress::V4([127, 0, 0, 1])));
}
