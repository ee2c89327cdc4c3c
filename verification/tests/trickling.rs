use futures_channel::mpsc::{unbounded, UnboundedReceiver};
use matchbox_socket::candidate::{CandidateInit, IceCandidate};
use matchbox_socket::messages::{PeerId, PeerRequest, PeerSignal};
use matchbox_socket::remote_candidates::{
    listen_for_remote_candidates, on_candidate_read, Ignored, ListenAction, ListenEvent,
};
use matchbox_socket::signal_peer::SignalPeer;
use matchbox_socket::trickle::{
    CandidateOutcome, CandidateTrickle, ConnectionStatus, SignallingClosed,
};

const JSON: &str = "{\"candidate\":\"candidate:1 1 udp 5 127.0.0.1 9 typ host\",\"sdpMid\":\"\",\
                    \"sdpMLineIndex\":0,\"usernameFragment\":null}";

fn candidate(port: u16) -> IceCandidate {
    IceCandidate {
        stats_id: "id".to_string(),
        foundation: "1".to_string(),
        priority: 5,
        address: "127.0.0.1".to_string(),
        protocol: "udp".to_string(),
        port,
        typ: "host".to_string(),
        component: 1,
        related_address: String::new(),
        related_port: 0,
        tcp_type: String::new(),
    }
}

fn trickle() -> (CandidateTrickle, UnboundedReceiver<PeerRequest>) {
    let (tx, rx) = unbounded();
    let peer = SignalPeer::new(PeerId("peer".to_string()), tx);
    (CandidateTrickle::new(peer), rx)
}

fn all(rx: &mut UnboundedReceiver<PeerRequest>) -> Vec<PeerRequest> {
    let mut requests = vec![];
    while let Ok(request) = rx.try_recv() {
        requests.push(request);
    }
    requests
}

fn ports(requests: Vec<PeerRequest>) -> Vec<u16> {
    requests
        .into_iter()
        .map(|request| {
            assert_eq!(request.receiver, PeerId("peer".to_string()));
            match request.data {
                PeerSignal::IceCandidate(json) => {
                    let at = json.find("127.0.0.1 ").unwrap() + 10;
                    json[at..].split(' ').next().unwrap().parse().unwrap()
                }
                other => panic!("{:?}", other),
            }
        })
        .collect()
}

#[test]
fn a_candidate_is_sent_once_the_remote_is_known() {
    let (mut trickle, mut rx) = trickle();
    let outcome = trickle.on_ice_candidate(Some(candidate(9)), ConnectionStatus::RemoteKnown);
    assert!(matches!(outcome, CandidateOutcome::Sent));
    assert_eq!(
        all(&mut rx),
        vec![PeerRequest {
            receiver: PeerId("peer".to_string()),
            data: PeerSignal::IceCandidate(JSON.to_string()),
        }]
    );
}

#[test]
fn candidates_are_kept_back_and_sent_in_order() {
    let (mut trickle, mut rx) = trickle();
    for port in 1..4 {
        let outcome =
            trickle.on_ice_candidate(Some(candidate(port)), ConnectionStatus::AwaitingRemote);
        assert!(matches!(outcome, CandidateOutcome::Stored));
    }
    assert_eq!(all(&mut rx), vec![]);
    assert_eq!(trickle.send_pending_candidates(), Ok(()));
    assert_eq!(ports(all(&mut rx)), vec![1, 2, 3]);
}

#[test]
fn a_second_flush_sends_nothing() {
    let (mut trickle, mut rx) = trickle();
    trickle.on_local_candidate(candidate(7), false);
    assert_eq!(trickle.send_pending_candidates(), Ok(()));
    assert_eq!(trickle.send_pending_candidates(), Ok(()));
    assert_eq!(ports(all(&mut rx)), vec![7]);
}

#[test]
fn no_candidate_is_lost_or_sent_twice() {
    let (mut trickle, mut rx) = trickle();
    trickle.on_local_candidate(candidate(1), false);
    trickle.on_local_candidate(candidate(2), false);
    trickle.on_local_candidate(candidate(3), true);
    assert_eq!(trickle.send_pending_candidates(), Ok(()));
    trickle.on_local_candidate(candidate(4), true);
    let mut sent = ports(all(&mut rx));
    assert_eq!(sent, vec![3, 1, 2, 4]);
    sent.sort();
    assert_eq!(sent, vec![1, 2, 3, 4]);
}

#[test]
fn every_candidate_is_sent_in_order() {
    let (mut trickle, mut rx) = trickle();
    trickle.on_local_candidate(candidate(1), false);
    trickle.on_local_candidate(candidate(2), false);
    assert_eq!(trickle.send_pending_candidates(), Ok(()));
    trickle.on_local_candidate(candidate(3), true);
    trickle.on_local_candidate(candidate(4), true);
    assert_eq!(ports(all(&mut rx)), vec![1, 2, 3, 4]);
    assert_eq!(trickle.pending, Vec::<String>::new());
}

#[test]
fn json_is_dispatched_as_it_is() {
    let (mut trickle, mut rx) = trickle();
    let outcome = trickle.on_candidate_json("one".to_string(), false);
    assert!(matches!(outcome, CandidateOutcome::Stored));
    assert_eq!(trickle.pending, vec!["one".to_string()]);
    let outcome = trickle.on_candidate_json("two".to_string(), true);
    assert!(matches!(outcome, CandidateOutcome::Sent));
    let data: Vec<PeerSignal> = all(&mut rx).into_iter().map(|request| request.data).collect();
    assert_eq!(data, vec![PeerSignal::IceCandidate("two".to_string())]);
}

#[test]
fn a_candidate_that_has_no_form_is_dropped() {
    let (mut trickle, mut rx) = trickle();
    let reason = webrtc::Error::ErrICECandidateTypeUnknown;
    assert!(matches!(
        trickle.on_candidate_init(Err(reason), true),
        CandidateOutcome::Invalid(webrtc::Error::ErrICECandidateTypeUnknown)
    ));
    assert_eq!(all(&mut rx), vec![]);
    assert_eq!(trickle.pending, Vec::<String>::new());
}

#[test]
fn the_end_of_candidates_and_a_gone_connection_send_nothing() {
    let (mut trickle, mut rx) = trickle();
    let outcome = trickle.on_ice_candidate(None, ConnectionStatus::RemoteKnown);
    assert!(matches!(outcome, CandidateOutcome::NoCandidate));
    let outcome = trickle.on_ice_candidate(Some(candidate(1)), ConnectionStatus::Gone);
    assert!(matches!(outcome, CandidateOutcome::ConnectionGone));
    assert_eq!(trickle.send_pending_candidates(), Ok(()));
    assert_eq!(all(&mut rx), vec![]);
}

#[test]
fn a_candidate_of_unknown_type_is_dropped() {
    let (mut trickle, mut rx) = trickle();
    let mut odd = candidate(1);
    odd.typ = "carrier pigeon".to_string();
    odd.priority = 0;
    odd.component = 300;
    assert!(odd.has_priority());
    let outcome = trickle.on_ice_candidate(Some(odd), ConnectionStatus::RemoteKnown);
    assert!(matches!(
        outcome,
        CandidateOutcome::Invalid(webrtc::Error::ErrICECandidateTypeUnknown)
    ));
    assert_eq!(all(&mut rx), vec![]);
}

#[test]
fn a_candidate_without_an_address_is_dropped() {
    let (mut trickle, mut rx) = trickle();
    let mut odd = candidate(1);
    odd.address = "nowhere".to_string();
    let outcome = trickle.on_local_candidate(odd, false);
    assert!(matches!(outcome, CandidateOutcome::Invalid(_)));
    assert_eq!(trickle.send_pending_candidates(), Ok(()));
    assert_eq!(all(&mut rx), vec![]);
}

#[test]
fn a_priority_is_needed_or_worked_out() {
    let mut odd = candidate(1);
    odd.priority = 0;
    assert!(odd.has_priority());
    odd.component = 256;
    assert!(odd.has_priority());
    odd.component = 257;
    assert!(!odd.has_priority());
    odd.priority = 1;
    assert!(odd.has_priority());
}

#[test]
fn a_component_may_be_too_large_to_work_a_priority_out_from() {
    let (mut trickle, mut rx) = trickle();
    let odd = || {
        let mut odd = candidate(1);
        odd.priority = 0;
        odd.component = 257;
        odd
    };
    assert!(odd().overflows());
    for status in vec![ConnectionStatus::AwaitingRemote, ConnectionStatus::RemoteKnown] {
        assert!(trickle.on_any_ice_candidate(Some(odd()), status).is_none());
    }
    let gone = trickle.on_any_ice_candidate(Some(odd()), ConnectionStatus::Gone);
    assert!(matches!(gone, Some(CandidateOutcome::ConnectionGone)));
    let none = trickle.on_any_ice_candidate(None, ConnectionStatus::RemoteKnown);
    assert!(matches!(none, Some(CandidateOutcome::NoCandidate)));
    assert_eq!(all(&mut rx), vec![]);
    assert_eq!(trickle.pending, Vec::<String>::new());
}

#[test]
fn a_large_component_does_not_matter_where_there_is_nothing_to_hand_over() {
    let (mut trickle, mut rx) = trickle();
    let mut nowhere = candidate(1);
    nowhere.priority = 0;
    nowhere.component = 257;
    nowhere.address = "nowhere".to_string();
    let mut unprotocolled = candidate(1);
    unprotocolled.priority = 0;
    unprotocolled.component = 257;
    unprotocolled.protocol = "smoke".to_string();
    for odd in vec![nowhere, unprotocolled] {
        assert!(!odd.has_priority());
        assert!(!odd.overflows());
        let outcome = trickle.on_any_ice_candidate(Some(odd), ConnectionStatus::RemoteKnown);
        assert!(matches!(outcome, Some(CandidateOutcome::Invalid(_))));
    }
    assert_eq!(all(&mut rx), vec![]);
    assert_eq!(trickle.pending, Vec::<String>::new());
}

#[test]
fn any_report_is_dealt_with_like_an_ordinary_one() {
    let (mut trickle, mut rx) = trickle();
    let outcome =
        trickle.on_any_ice_candidate(Some(candidate(1)), ConnectionStatus::AwaitingRemote);
    assert!(matches!(outcome, Some(CandidateOutcome::Stored)));
    let outcome = trickle.on_any_ice_candidate(Some(candidate(2)), ConnectionStatus::RemoteKnown);
    assert!(matches!(outcome, Some(CandidateOutcome::Sent)));
    assert_eq!(trickle.send_pending_candidates(), Ok(()));
    assert_eq!(ports(all(&mut rx)), vec![2, 1]);
}

#[test]
fn repeats_are_kept_and_sent() {
    let (mut trickle, mut rx) = trickle();
    for json in vec!["a", "b", "a"] {
        trickle.on_candidate_json(json.to_string(), false);
    }
    assert_eq!(trickle.send_pending_candidates(), Ok(()));
    let data: Vec<PeerSignal> = all(&mut rx).into_iter().map(|request| request.data).collect();
    let expected: Vec<PeerSignal> =
        vec!["a", "b", "a"].into_iter().map(|j| PeerSignal::IceCandidate(j.to_string())).collect();
    assert_eq!(data, expected);
    assert_eq!(trickle.pending, Vec::<String>::new());
}

#[test]
fn a_late_flush_sends_what_was_kept_back_last() {
    let (mut trickle, mut rx) = trickle();
    trickle.on_local_candidate(candidate(1), false);
    trickle.on_local_candidate(candidate(2), false);
    trickle.on_local_candidate(candidate(3), true);
    trickle.on_local_candidate(candidate(4), true);
    assert_eq!(ports(all(&mut rx)), vec![3, 4]);
    assert_eq!(trickle.send_pending_candidates(), Ok(()));
    assert_eq!(ports(all(&mut rx)), vec![1, 2]);
    assert_eq!(trickle.pending, Vec::<String>::new());
}

#[test]
fn a_refused_flush_leaves_nothing_behind() {
    let (mut trickle, rx) = trickle();
    trickle.on_local_candidate(candidate(1), false);
    trickle.on_local_candidate(candidate(2), false);
    drop(rx);
    assert_eq!(trickle.send_pending_candidates(), Err(SignallingClosed));
    assert_eq!(trickle.pending, Vec::<String>::new());
}

#[test]
fn a_relayed_candidate_names_its_relation() {
    let (mut trickle, mut rx) = trickle();
    let mut relayed = candidate(9);
    relayed.typ = "relay".to_string();
    relayed.related_address = "10.0.0.1".to_string();
    relayed.related_port = 8;
    trickle.on_local_candidate(relayed, true);
    let expected = JSON.replace("typ host", "typ relay raddr 10.0.0.1 rport 8");
    assert_eq!(all(&mut rx)[0].data, PeerSignal::IceCandidate(expected));
}

#[test]
fn a_closed_server_takes_no_candidate() {
    let (mut trickle, rx) = trickle();
    trickle.on_local_candidate(candidate(1), false);
    drop(rx);
    let outcome = trickle.on_local_candidate(candidate(2), true);
    assert!(matches!(outcome, CandidateOutcome::SignallingClosed));
    assert_eq!(trickle.send_pending_candidates(), Err(SignallingClosed));
    assert_eq!(trickle.send_pending_candidates(), Ok(()));
}

#[test]
fn what_is_trickled_arrives() {
    let (mut trickle, mut rx) = trickle();
    trickle.on_candidate_init(
        Ok(CandidateInit {
            candidate: "candidate:\"\\\n\u{1}\u{20ac}".to_string(),
            sdp_mid: None,
            sdp_mline_index: Some(65535),
            username_fragment: Some("def".to_string()),
        }),
        true,
    );
    let signal = all(&mut rx).pop().unwrap().data;
    match listen_for_remote_candidates(ListenEvent::Signal(Some(signal))) {
        ListenAction::AddCandidate(init) => assert_eq!(
            init,
            CandidateInit {
                candidate: "candidate:\"\\\n\u{1}\u{20ac}".to_string(),
                sdp_mid: None,
                sdp_mline_index: Some(65535),
                username_fragment: Some("def".to_string()),
            }
        ),
        other => panic!("{:?}", other),
    }
}

#[test]
fn other_signals_are_passed_over_while_listening() {
    let ignored = |signal| match listen_for_remote_candidates(ListenEvent::Signal(Some(signal))) {
        ListenAction::Ignore(why) => why,
        other => panic!("{:?}", other),
    };
    assert_eq!(ignored(PeerSignal::Offer(JSON.to_string())), Ignored::UnexpectedOffer);
    assert_eq!(ignored(PeerSignal::Answer(JSON.to_string())), Ignored::UnexpectedAnswer);
    assert_eq!(
        ignored(PeerSignal::IceCandidate("{}".to_string())),
        Ignored::UnreadableCandidate
    );
    assert_eq!(
        ignored(PeerSignal::IceCandidate("not json".to_string())),
        Ignored::UnreadableCandidate
    );
}

#[test]
fn listening_ends_with_the_signals_or_a_refusal() {
    assert!(matches!(
        listen_for_remote_candidates(ListenEvent::Signal(None)),
        ListenAction::Finish(Ok(()))
    ));
    assert!(matches!(
        listen_for_remote_candidates(ListenEvent::Added(Ok(()))),
        ListenAction::AwaitSignal
    ));
    let refusal = webrtc::Error::ErrNoRemoteDescription;
    assert!(matches!(
        listen_for_remote_candidates(ListenEvent::Added(Err(refusal))),
        ListenAction::Finish(Err(webrtc::Error::ErrNoRemoteDescription))
    ));
}

#[test]
fn other_signals_change_neither_what_is_handed_over_nor_the_end() {
    let listen = |signals: Vec<PeerSignal>, refuse: usize| {
        let mut handed = vec![];
        let mut signals = signals.into_iter();
        let mut event = ListenEvent::Signal(signals.next());
        loop {
            event = match listen_for_remote_candidates(event) {
                ListenAction::AddCandidate(init) => {
                    handed.push(init.candidate);
                    ListenEvent::Added(if handed.len() == refuse {
                        Err(webrtc::Error::ErrNoRemoteDescription)
                    } else {
                        Ok(())
                    })
                }
                ListenAction::Ignore(_) | ListenAction::AwaitSignal => {
                    ListenEvent::Signal(signals.next())
                }
                ListenAction::Finish(result) => return (handed, result),
            };
        }
    };
    let json = |port: &str| PeerSignal::IceCandidate(JSON.replace(" 9 ", &format!(" {port} ")));
    let text = |port: &str| format!("candidate:1 1 udp 5 127.0.0.1 {port} typ host");
    let bare = || vec![json("1"), json("2"), json("3")];
    let mixed = || {
        vec![
            PeerSignal::Offer("x".to_string()),
            json("1"),
            PeerSignal::IceCandidate("{}".to_string()),
            json("2"),
            PeerSignal::Answer("y".to_string()),
            json("3"),
        ]
    };
    for signals in vec![bare(), mixed()] {
        let (handed, result) = listen(signals, 9);
        assert_eq!(handed, vec![text("1"), text("2"), text("3")]);
        assert!(result.is_ok());
    }
    for signals in vec![bare(), mixed()] {
        let (handed, result) = listen(signals, 2);
        assert_eq!(handed, vec![text("1"), text("2")]);
        assert!(matches!(result, Err(webrtc::Error::ErrNoRemoteDescription)));
    }
}

#[test]
fn what_was_read_is_handed_over() {
    let init = || CandidateInit {
        candidate: "candidate:x".to_string(),
        sdp_mid: Some("0".to_string()),
        sdp_mline_index: None,
        username_fragment: None,
    };
    match on_candidate_read(Ok(init())) {
        ListenAction::AddCandidate(handed) => assert_eq!(handed, init()),
        other => panic!("{:?}", other),
    }
    let error = serde_json::from_str::<u8>("x").unwrap_err();
    assert!(matches!(
        on_candidate_read(Err(error)),
        ListenAction::Ignore(Ignored::UnreadableCandidate)
    ));
}
