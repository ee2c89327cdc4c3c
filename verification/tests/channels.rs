use bytes::Bytes;
use futures_channel::mpsc::{channel, unbounded};
use matchbox_socket::connection::{
    on_peer_connection_state_change, rtc_configuration, IceServer, PeerConnectionState,
    RtcIceServerConfig, WebRtcSocketConfig,
};
use matchbox_socket::data_channel::{
    create_data_channel, create_data_channels, on_close, on_open, ChannelConfig, DataChannelInit,
    FromPeer,
};
use matchbox_socket::messages::{Packet, PeerId};
use matchbox_socket::mpsc::{MessagingError, Notifier, NotifyError, Outbox};
use matchbox_socket::peer_loop::{
    message_loop, pair_channels, MessageLoopAction, MessageLoopEvent, PeerLoop, PeerLoopEvent,
};

fn packet(bytes: &[u8]) -> Packet {
    bytes.into()
}

#[test]
fn a_channel_is_set_up_by_its_config_and_index() {
    let config = ChannelConfig { ordered: true, max_retransmits: Some(2) };
    let setup = create_data_channel(&config, 7);
    assert_eq!(setup.label, "matchbox_socket_7");
    assert_eq!(
        setup.init,
        DataChannelInit { ordered: Some(true), negotiated: Some(7), max_retransmits: Some(2) }
    );
    let config = ChannelConfig { ordered: false, max_retransmits: None };
    let setup = create_data_channel(&config, 0);
    assert_eq!(setup.label, "matchbox_socket_0");
    assert_eq!(
        setup.init,
        DataChannelInit { ordered: Some(false), negotiated: Some(0), max_retransmits: None }
    );
}

#[test]
fn labels_are_decimal_and_distinct() {
    let config = ChannelConfig { ordered: true, max_retransmits: None };
    for index in vec![0, 9, 10, 11, 99, 100, 101, 65535, 65536, 1234567890, usize::MAX] {
        let label = create_data_channel(&config, index).label;
        assert_eq!(label, format!("matchbox_socket_{index}"));
    }
}

#[test]
fn identifiers_have_sixteen_bits() {
    let config = ChannelConfig { ordered: true, max_retransmits: None };
    let id = |index| create_data_channel(&config, index).init.negotiated;
    assert_eq!(id(65535), Some(65535));
    assert_eq!(id(65536), Some(0));
    assert_eq!(id(65537), Some(1));
}

#[test]
fn channels_are_planned_in_order() {
    let configs = vec![
        ChannelConfig { ordered: true, max_retransmits: None },
        ChannelConfig { ordered: false, max_retransmits: Some(0) },
        ChannelConfig { ordered: false, max_retransmits: Some(3) },
    ];
    let plans = create_data_channels(
        vec!["r0", "r1", "r2", "r3"],
        PeerId("peer".to_string()),
        "lost",
        vec!["m0", "m1", "m2"],
        &configs,
    );
    assert_eq!(plans.len(), 3);
    for (i, plan) in plans.iter().enumerate() {
        assert_eq!(plan.setup, create_data_channel(&configs[i], i));
        assert_eq!(plan.peer_id, PeerId("peer".to_string()));
        assert_eq!(plan.ready, format!("r{}", 3 - i));
        assert_eq!(plan.disconnected, "lost");
        assert_eq!(plan.messages, format!("m{}", i));
    }
}

#[test]
fn no_channels_are_planned_for_none() {
    let plans = create_data_channels(
        Vec::<u8>::new(),
        PeerId("peer".to_string()),
        0u8,
        Vec::<u8>::new(),
        &vec![],
    );
    assert_eq!(plans.len(), 0);
}

#[test]
fn an_open_channel_is_reported() {
    let (tx, mut rx) = channel(1);
    let mut ready = Notifier::new(tx);
    assert!(rx.try_recv().is_err());
    assert_eq!(on_open(&mut ready), Ok(()));
    assert!(rx.try_recv().is_ok());
    assert!(rx.try_recv().is_err());
}

#[test]
fn a_closed_channel_is_reported() {
    let (tx, mut rx) = channel(1);
    let mut lost = Notifier::new(tx);
    assert_eq!(on_close(&mut lost), Ok(()));
    assert!(rx.try_recv().is_ok());
    drop(rx);
    assert_eq!(on_close(&mut lost), Err(NotifyError::Disconnected));
}

#[test]
fn a_full_queue_refuses_a_report() {
    let (tx, _rx) = channel(1);
    let mut lost = Notifier::new(tx);
    assert_eq!(on_close(&mut lost), Ok(()));
    assert_eq!(on_close(&mut lost), Ok(()));
    assert_eq!(on_close(&mut lost), Err(NotifyError::Full));
}

#[test]
fn only_lost_connections_are_reported() {
    let quiet = vec![
        PeerConnectionState::Unspecified,
        PeerConnectionState::New,
        PeerConnectionState::Connecting,
        PeerConnectionState::Connected,
    ];
    let lost = vec![
        PeerConnectionState::Disconnected,
        PeerConnectionState::Failed,
        PeerConnectionState::Closed,
    ];
    for state in quiet {
        let (tx, mut rx) = channel(1);
        assert_eq!(on_peer_connection_state_change(state, &mut Notifier::new(tx)), Ok(()));
        assert!(rx.try_recv().is_err());
    }
    for state in lost {
        let (tx, mut rx) = channel(1);
        let mut notifier = Notifier::new(tx);
        assert_eq!(on_peer_connection_state_change(state, &mut notifier), Ok(()));
        assert!(rx.try_recv().is_ok());
        drop(rx);
        assert_eq!(
            on_peer_connection_state_change(state, &mut notifier),
            Err(NotifyError::Disconnected)
        );
    }
}

#[test]
fn messages_are_passed_on_under_the_name_of_the_peer() {
    let (tx, mut rx) = unbounded();
    let mut from_peer = FromPeer { peer_id: PeerId("peer".to_string()), outbox: Outbox::new(tx) };
    assert_eq!(from_peer.on_message(&Bytes::from_static(b"one")), Ok(()));
    assert_eq!(from_peer.on_message(&Bytes::new()), Ok(()));
    assert_eq!(rx.try_recv().unwrap(), (PeerId("peer".to_string()), packet(b"one")));
    assert_eq!(rx.try_recv().unwrap(), (PeerId("peer".to_string()), packet(b"")));
    drop(rx);
    assert_eq!(
        from_peer.on_message(&Bytes::from_static(b"two")),
        Err(MessagingError::Undeliverable(packet(b"two")))
    );
}

#[test]
fn packets_are_queued_for_the_peer() {
    let (tx, mut rx) = unbounded();
    let mut outbox = Outbox::new(tx);
    assert_eq!(outbox.send(packet(b"a")), Ok(()));
    assert_eq!(outbox.send(packet(b"b")), Ok(()));
    assert_eq!(rx.try_recv().unwrap(), packet(b"a"));
    assert_eq!(rx.try_recv().unwrap(), packet(b"b"));
    drop(rx);
    assert_eq!(outbox.send(packet(b"c")), Err(MessagingError::Undeliverable(packet(b"c"))));
}

#[test]
fn a_queued_packet_is_sent_as_it_is() {
    match message_loop(MessageLoopEvent::Message(Some(packet(&[1, 2, 3])))) {
        MessageLoopAction::Send(bytes) => assert_eq!(&bytes[..], &[1, 2, 3]),
        other => panic!("{:?}", other),
    }
    let finish = message_loop(MessageLoopEvent::Message(None));
    assert!(matches!(finish, MessageLoopAction::Finish));
}

#[test]
fn a_packet_that_was_not_sent_is_given_up() {
    let sent = message_loop(MessageLoopEvent::Sent(Ok(3)));
    assert!(matches!(sent, MessageLoopAction::AwaitMessage));
    let not_sent = message_loop(MessageLoopEvent::Sent(Err(webrtc::Error::ErrConnectionClosed)));
    assert!(matches!(not_sent, MessageLoopAction::AwaitMessage));
}

#[test]
fn packets_arrive_unchanged() {
    let (tx, mut rx) = unbounded();
    let mut from_peer = FromPeer { peer_id: PeerId("a".to_string()), outbox: Outbox::new(tx) };
    for bytes in vec![vec![], vec![0u8], vec![255; 1000]] {
        let queued = MessageLoopEvent::Message(Some(packet(&bytes)));
        match message_loop(queued) {
            MessageLoopAction::Send(data) => assert_eq!(from_peer.on_message(&data), Ok(())),
            other => panic!("{:?}", other),
        }
        assert_eq!(rx.try_recv().unwrap(), (PeerId("a".to_string()), packet(&bytes)));
    }
}

#[test]
fn channels_are_paired_with_their_queues() {
    let pairs = pair_channels(vec!['a', 'b', 'c'], vec![1, 2, 3]);
    assert_eq!(pairs, vec![('a', 1), ('b', 2), ('c', 3)]);
    assert_eq!(pair_channels(Vec::<u8>::new(), Vec::<u8>::new()), vec![]);
}

#[test]
fn a_peer_is_left_when_it_is_lost() {
    let peer_loop = PeerLoop { peer_uuid: PeerId("peer".to_string()) };
    assert_eq!(peer_loop.on_event(PeerLoopEvent::TrickleFinished), None);
    let left = Some(PeerId("peer".to_string()));
    assert_eq!(peer_loop.on_event(PeerLoopEvent::PeerDisconnected), left);
    assert_eq!(peer_loop.on_event(PeerLoopEvent::MessageLoopFinished), left);
}

#[test]
fn a_connection_is_configured_with_the_ice_server() {
    let config = |username: Option<String>, credential: Option<String>| WebRtcSocketConfig {
        ice_server: RtcIceServerConfig {
            urls: vec!["stun:one".to_string(), "stun:two".to_string()],
            username,
            credential,
        },
        channels: vec![],
    };
    let urls = vec!["stun:one".to_string(), "stun:two".to_string()];
    let bare = rtc_configuration(&config(None, None));
    assert_eq!(
        bare.ice_servers,
        vec![IceServer {
            urls: urls.clone(),
            username: String::new(),
            credential: String::new(),
        }]
    );
    let named = rtc_configuration(&config(Some("user".to_string()), Some("word".to_string())));
    assert_eq!(
        named.ice_servers,
        vec![IceServer { urls, username: "user".to_string(), credential: "word".to_string() }]
    );
}
