use sigil::udp::{PollOutcome, UdpAction, UdpPhase, UdpRelay};

#[test]
fn immediate_echo_returns_to_sender() {
    let mut relay: UdpRelay<u16> = UdpRelay::new();
    let a: UdpAction<u16, String> = relay.on_datagram(5000, b"hello".to_vec());
    assert!(matches!(a, UdpAction::SendToRemote(ref d) if d == b"hello"));
    assert!(matches!(relay.on_sent::<String>(Ok(())), UdpAction::PollReply));
    match relay.on_poll::<String>(PollOutcome::Reply(b"hello".to_vec())) {
        UdpAction::ReplyTo(client, data) => {
            assert_eq!(client, 5000);
            assert_eq!(data, b"hello".to_vec());
        }
        _ => panic!("expected a reply to the client"),
    }
    assert!(matches!(relay.on_replied::<String>(Ok(())), UdpAction::NextDatagram));
    assert!(matches!(relay.phase, UdpPhase::AwaitDatagram));
}

#[test]
fn late_reply_is_dropped() {
    let mut relay: UdpRelay<u16> = UdpRelay::new();
    let _: UdpAction<u16, String> = relay.on_datagram(5000, b"one".to_vec());
    assert!(matches!(relay.on_sent::<String>(Ok(())), UdpAction::PollReply));
    assert!(matches!(relay.on_poll::<String>(PollOutcome::WouldBlock), UdpAction::NextDatagram));
    assert!(matches!(relay.phase, UdpPhase::AwaitDatagram));
    let _: UdpAction<u16, String> = relay.on_datagram(6000, b"two".to_vec());
    assert!(matches!(relay.on_sent::<String>(Ok(())), UdpAction::PollReply));
    match relay.on_poll::<String>(PollOutcome::Reply(b"one-reply".to_vec())) {
        UdpAction::ReplyTo(client, _) => assert_eq!(client, 6000),
        _ => panic!("expected a reply"),
    }
}

#[test]
fn send_failure_is_reported() {
    let mut relay: UdpRelay<u16> = UdpRelay::new();
    let _: UdpAction<u16, String> = relay.on_datagram(1, vec![1]);
    assert!(matches!(relay.on_sent(Err("unreachable".to_string())), UdpAction::Report(e) if e == "unreachable"));
    assert!(matches!(relay.phase, UdpPhase::AwaitDatagram));
}

#[test]
fn receive_failure_is_reported() {
    let mut relay: UdpRelay<u16> = UdpRelay::new();
    let _: UdpAction<u16, String> = relay.on_datagram(1, vec![1]);
    relay.on_sent::<String>(Ok(()));
    assert!(matches!(relay.on_poll(PollOutcome::Failed("refused".to_string())), UdpAction::Report(e) if e == "refused"));
    assert!(matches!(relay.phase, UdpPhase::AwaitDatagram));
}

#[test]
fn reply_send_failure_is_reported() {
    let mut relay: UdpRelay<u16> = UdpRelay::new();
    let _: UdpAction<u16, String> = relay.on_datagram(1, vec![1]);
    relay.on_sent::<String>(Ok(()));
    relay.on_poll::<String>(PollOutcome::Reply(vec![2]));
    assert!(matches!(relay.on_replied(Err("gone".to_string())), UdpAction::Report(e) if e == "gone"));
    assert!(matches!(relay.phase, UdpPhase::AwaitDatagram));
}

#[test]
fn empty_datagram_is_forwarded() {
    let mut relay: UdpRelay<u16> = UdpRelay::new();
    let a: UdpAction<u16, String> = relay.on_datagram(1, Vec::new());
    assert!(matches!(a, UdpAction::SendToRemote(ref d) if d.is_empty()));
}
