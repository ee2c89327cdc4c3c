use futures_channel::mpsc::{unbounded, UnboundedReceiver};
use matchbox_socket::description::{read_description, SdpKind};
use matchbox_socket::handshake::{Handshake, HandshakeAction, HandshakeEvent, Phase};
use matchbox_socket::messages::{PeerId, PeerRequest, PeerSignal};
use matchbox_socket::signal_peer::SignalPeer;
use matchbox_socket::trickle::CandidateTrickle;

const SDP: &str = "v=0\r\no=- 1 2 IN IP4 127.0.0.1\r\ns=-\r\nt=0 0\r\n";
const OTHER_SDP: &str = "v=0\r\no=- 3 4 IN IP4 127.0.0.1\r\ns=-\r\nt=0 0\r\n";

fn peer(name: &str) -> (SignalPeer, UnboundedReceiver<PeerRequest>) {
    let (tx, rx) = unbounded();
    (SignalPeer::new(PeerId(name.to_string()), tx), rx)
}

fn sent(rx: &mut UnboundedReceiver<PeerRequest>) -> Vec<PeerRequest> {
    let mut requests = vec![];
    while let Ok(request) = rx.try_recv() {
        requests.push(request);
    }
    requests
}

fn signal(handshake: &mut Handshake, signal: PeerSignal) -> HandshakeAction {
    handshake.on_event(HandshakeEvent::Signal(signal))
}

#[test]
fn the_offering_side_goes_through() {
    let (peer, mut rx) = peer("b");
    let mut h = Handshake::offer_handshake(peer);
    assert!(matches!(h.on_event(HandshakeEvent::ChannelsCreated), HandshakeAction::CreateOffer));
    let created = HandshakeEvent::LocalDescriptionCreated(SDP.to_string());
    assert!(matches!(h.on_event(created), HandshakeAction::SetLocalDescription));
    assert_eq!(sent(&mut rx), vec![]);
    let set = h.on_event(HandshakeEvent::LocalDescriptionSet);
    assert!(matches!(set, HandshakeAction::AwaitSignal));
    assert_eq!(
        sent(&mut rx),
        vec![PeerRequest {
            receiver: PeerId("b".to_string()),
            data: PeerSignal::Offer(SDP.to_string()),
        }]
    );
    let early = signal(&mut h, PeerSignal::IceCandidate("early".to_string()));
    assert!(matches!(early, HandshakeAction::AwaitSignal));
    let odd = signal(&mut h, PeerSignal::Offer(OTHER_SDP.to_string()));
    assert!(matches!(odd, HandshakeAction::AwaitSignal));
    match signal(&mut h, PeerSignal::Answer(OTHER_SDP.to_string())) {
        HandshakeAction::SetRemoteDescription(description) => {
            assert_eq!(description.kind(), SdpKind::Answer);
            assert_eq!(description.sdp(), OTHER_SDP);
            let rtc = description.into_rtc();
            assert_eq!(rtc.sdp, OTHER_SDP);
            assert_eq!(rtc.sdp_type.to_string(), "answer");
        }
        other => panic!("{:?}", other),
    }
    let set = h.on_event(HandshakeEvent::RemoteDescriptionSet);
    assert!(matches!(set, HandshakeAction::SendPendingCandidates));
    let flushed = h.on_event(HandshakeEvent::CandidatesSent);
    assert!(matches!(flushed, HandshakeAction::AwaitChannels));
    let ended = h.on_event(HandshakeEvent::TrickleFinished);
    assert!(matches!(ended, HandshakeAction::AwaitChannels));
    match h.on_event(HandshakeEvent::ChannelsReady) {
        HandshakeAction::Finish(id) => assert_eq!(id, PeerId("b".to_string())),
        other => panic!("{:?}", other),
    }
    assert_eq!(sent(&mut rx), vec![]);
    assert_eq!(h.phase, Phase::Complete);
}

#[test]
fn the_accepting_side_goes_through() {
    let (peer, mut rx) = peer("a");
    let mut h = Handshake::accept_handshake(peer);
    assert!(matches!(h.on_event(HandshakeEvent::ChannelsCreated), HandshakeAction::AwaitSignal));
    let odd = signal(&mut h, PeerSignal::Answer(OTHER_SDP.to_string()));
    assert!(matches!(odd, HandshakeAction::AwaitSignal));
    match signal(&mut h, PeerSignal::Offer(SDP.to_string())) {
        HandshakeAction::SetRemoteDescription(description) => {
            assert_eq!(description.kind(), SdpKind::Offer);
            assert_eq!(description.sdp(), SDP);
            assert_eq!(description.into_rtc().sdp_type.to_string(), "offer");
        }
        other => panic!("{:?}", other),
    }
    let set = h.on_event(HandshakeEvent::RemoteDescriptionSet);
    assert!(matches!(set, HandshakeAction::CreateAnswer));
    assert_eq!(sent(&mut rx), vec![]);
    let created = HandshakeEvent::LocalDescriptionCreated(OTHER_SDP.to_string());
    assert!(matches!(h.on_event(created), HandshakeAction::SetLocalDescription));
    assert_eq!(
        sent(&mut rx),
        vec![PeerRequest {
            receiver: PeerId("a".to_string()),
            data: PeerSignal::Answer(OTHER_SDP.to_string()),
        }]
    );
    let set = h.on_event(HandshakeEvent::LocalDescriptionSet);
    assert!(matches!(set, HandshakeAction::SendPendingCandidates));
    h.on_event(HandshakeEvent::CandidatesSent);
    match h.on_event(HandshakeEvent::ChannelsReady) {
        HandshakeAction::Finish(id) => assert_eq!(id, PeerId("a".to_string())),
        other => panic!("{:?}", other),
    }
    assert_eq!(sent(&mut rx), vec![]);
}

#[test]
fn two_peers_meet() {
    let (to_b, mut at_b) = peer("b");
    let (to_a, mut at_a) = peer("a");
    let mut a = Handshake::offer_handshake(to_b);
    let mut b = Handshake::accept_handshake(to_a);
    a.on_event(HandshakeEvent::ChannelsCreated);
    b.on_event(HandshakeEvent::ChannelsCreated);
    a.on_event(HandshakeEvent::LocalDescriptionCreated(SDP.to_string()));
    a.on_event(HandshakeEvent::LocalDescriptionSet);
    let offer = sent(&mut at_b).pop().unwrap().data;
    match signal(&mut b, offer) {
        HandshakeAction::SetRemoteDescription(description) => assert_eq!(description.sdp(), SDP),
        other => panic!("{:?}", other),
    }
    b.on_event(HandshakeEvent::RemoteDescriptionSet);
    b.on_event(HandshakeEvent::LocalDescriptionCreated(OTHER_SDP.to_string()));
    let answer = sent(&mut at_a).pop().unwrap().data;
    match signal(&mut a, answer) {
        HandshakeAction::SetRemoteDescription(description) => {
            assert_eq!(description.sdp(), OTHER_SDP)
        }
        other => panic!("{:?}", other),
    }
    a.on_event(HandshakeEvent::RemoteDescriptionSet);
    b.on_event(HandshakeEvent::LocalDescriptionSet);
    for side in vec![&mut a, &mut b] {
        side.on_event(HandshakeEvent::CandidatesSent);
        side.on_event(HandshakeEvent::TrickleFinished);
        side.on_event(HandshakeEvent::ChannelsReady);
        assert_eq!(side.phase, Phase::Complete);
    }
}

#[test]
fn a_description_that_cannot_be_read_ends_the_handshake() {
    let (peer_a, _rx_a) = peer("a");
    let mut h = Handshake::accept_handshake(peer_a);
    h.on_event(HandshakeEvent::ChannelsCreated);
    let action = signal(&mut h, PeerSignal::Offer("no description".to_string()));
    assert!(matches!(action, HandshakeAction::InvalidDescription(_)));
    assert_eq!(h.phase, Phase::Failed);

    let (peer_b, _rx_b) = peer("b");
    let mut h = Handshake::offer_handshake(peer_b);
    h.on_event(HandshakeEvent::ChannelsCreated);
    h.on_event(HandshakeEvent::LocalDescriptionCreated(SDP.to_string()));
    h.on_event(HandshakeEvent::LocalDescriptionSet);
    let action = signal(&mut h, PeerSignal::Answer(String::new()));
    assert!(matches!(action, HandshakeAction::InvalidDescription(_)));
    assert_eq!(h.phase, Phase::Failed);
}

#[test]
fn a_closed_server_ends_the_handshake() {
    let (peer, rx) = peer("b");
    let mut h = Handshake::offer_handshake(peer);
    h.on_event(HandshakeEvent::ChannelsCreated);
    h.on_event(HandshakeEvent::LocalDescriptionCreated(SDP.to_string()));
    drop(rx);
    let action = h.on_event(HandshakeEvent::LocalDescriptionSet);
    assert!(matches!(action, HandshakeAction::SignallingClosed));
    assert_eq!(h.phase, Phase::Failed);
}

#[test]
fn a_closed_server_takes_no_answer() {
    let (peer, rx) = peer("a");
    let mut h = Handshake::accept_handshake(peer);
    h.on_event(HandshakeEvent::ChannelsCreated);
    signal(&mut h, PeerSignal::Offer(SDP.to_string()));
    h.on_event(HandshakeEvent::RemoteDescriptionSet);
    drop(rx);
    let action = h.on_event(HandshakeEvent::LocalDescriptionCreated(OTHER_SDP.to_string()));
    assert!(matches!(action, HandshakeAction::SignallingClosed));
    assert_eq!(h.phase, Phase::Failed);
    assert!(!h.expects(&HandshakeEvent::LocalDescriptionSet));
}

#[test]
fn a_signal_goes_to_its_peer_or_comes_back() {
    let (mut peer, mut rx) = peer("b");
    assert_eq!(peer.send(PeerSignal::Offer(SDP.to_string())), Ok(()));
    assert_eq!(
        sent(&mut rx),
        vec![PeerRequest {
            receiver: PeerId("b".to_string()),
            data: PeerSignal::Offer(SDP.to_string()),
        }]
    );
    drop(rx);
    let refused = peer.send(PeerSignal::Answer(SDP.to_string()));
    assert_eq!(refused, Err(PeerSignal::Answer(SDP.to_string())));
}

#[test]
fn the_offer_goes_out_before_any_candidate() {
    let (tx, mut rx) = unbounded();
    let to_b = || SignalPeer::new(PeerId("b".to_string()), tx.clone());
    let mut h = Handshake::offer_handshake(to_b());
    let mut trickle = CandidateTrickle::new(to_b());
    trickle.on_candidate_json("one".to_string(), false);
    h.on_event(HandshakeEvent::ChannelsCreated);
    h.on_event(HandshakeEvent::LocalDescriptionCreated(SDP.to_string()));
    trickle.on_candidate_json("two".to_string(), false);
    assert_eq!(sent(&mut rx), vec![]);
    h.on_event(HandshakeEvent::LocalDescriptionSet);
    signal(&mut h, PeerSignal::Answer(OTHER_SDP.to_string()));
    trickle.on_candidate_json("three".to_string(), true);
    let set = h.on_event(HandshakeEvent::RemoteDescriptionSet);
    assert!(matches!(set, HandshakeAction::SendPendingCandidates));
    assert_eq!(trickle.send_pending_candidates(), Ok(()));
    let flushed = h.on_event(HandshakeEvent::CandidatesSent);
    assert!(matches!(flushed, HandshakeAction::AwaitChannels));
    let data: Vec<PeerSignal> = sent(&mut rx).into_iter().map(|request| request.data).collect();
    assert_eq!(
        data,
        vec![
            PeerSignal::Offer(SDP.to_string()),
            PeerSignal::IceCandidate("three".to_string()),
            PeerSignal::IceCandidate("one".to_string()),
            PeerSignal::IceCandidate("two".to_string()),
        ]
    );
}

#[test]
fn the_answer_goes_out_before_any_candidate() {
    let (tx, mut rx) = unbounded();
    let to_a = || SignalPeer::new(PeerId("a".to_string()), tx.clone());
    let mut h = Handshake::accept_handshake(to_a());
    let mut trickle = CandidateTrickle::new(to_a());
    h.on_event(HandshakeEvent::ChannelsCreated);
    signal(&mut h, PeerSignal::Offer(SDP.to_string()));
    h.on_event(HandshakeEvent::RemoteDescriptionSet);
    assert_eq!(sent(&mut rx), vec![]);
    let created = HandshakeEvent::LocalDescriptionCreated(OTHER_SDP.to_string());
    assert!(matches!(h.on_event(created), HandshakeAction::SetLocalDescription));
    trickle.on_candidate_json("one".to_string(), true);
    h.on_event(HandshakeEvent::LocalDescriptionSet);
    trickle.on_candidate_json("two".to_string(), true);
    let data: Vec<PeerSignal> = sent(&mut rx).into_iter().map(|request| request.data).collect();
    assert_eq!(
        data,
        vec![
            PeerSignal::Answer(OTHER_SDP.to_string()),
            PeerSignal::IceCandidate("one".to_string()),
            PeerSignal::IceCandidate("two".to_string()),
        ]
    );
}

#[test]
fn a_description_is_made_of_its_text() {
    for (kind, name) in vec![(SdpKind::Offer, "offer"), (SdpKind::Answer, "answer")] {
        let description = read_description(kind, SDP.to_string()).unwrap();
        assert_eq!(description.kind(), kind);
        assert_eq!(description.sdp(), SDP);
        let rtc = description.into_rtc();
        assert_eq!(rtc.sdp, SDP);
        assert_eq!(rtc.sdp_type.to_string(), name);
        assert!(read_description(kind, "no description".to_string()).is_err());
    }
}

#[test]
fn the_signal_is_due_before_it_is_sent() {
    let (peer, mut rx) = peer("b");
    let mut h = Handshake::offer_handshake(peer);
    h.advance(HandshakeEvent::ChannelsCreated);
    let (none, _) = h.advance(HandshakeEvent::LocalDescriptionCreated(SDP.to_string()));
    assert_eq!(none, None);
    let (due, action) = h.advance(HandshakeEvent::LocalDescriptionSet);
    assert_eq!(due, Some(PeerSignal::Offer(SDP.to_string())));
    assert!(matches!(action, HandshakeAction::AwaitSignal));
    assert_eq!(sent(&mut rx), vec![]);
}

#[test]
fn an_unreadable_description_is_reported() {
    let (peer, _rx) = peer("b");
    let mut h = Handshake::offer_handshake(peer);
    let action = h.on_description_read(Err(webrtc::Error::ErrNoRemoteDescription));
    assert!(matches!(
        action,
        HandshakeAction::InvalidDescription(webrtc::Error::ErrNoRemoteDescription)
    ));
}

#[test]
fn only_what_can_happen_is_expected() {
    let (peer, _rx) = peer("b");
    let mut h = Handshake::offer_handshake(peer);
    let events = || {
        vec![
            HandshakeEvent::ChannelsCreated,
            HandshakeEvent::LocalDescriptionCreated(SDP.to_string()),
            HandshakeEvent::LocalDescriptionSet,
            HandshakeEvent::Signal(PeerSignal::Answer(OTHER_SDP.to_string())),
            HandshakeEvent::RemoteDescriptionSet,
            HandshakeEvent::CandidatesSent,
            HandshakeEvent::ChannelsReady,
        ]
    };
    for (i, event) in events().into_iter().enumerate() {
        for (j, other) in events().iter().enumerate() {
            assert_eq!(h.expects(other), i == j);
        }
        assert_eq!(h.expects(&HandshakeEvent::TrickleFinished), i == 6);
        h.on_event(event);
    }
    for event in events().iter() {
        assert!(!h.expects(event));
    }
}
