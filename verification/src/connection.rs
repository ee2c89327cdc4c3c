//! How a connection is configured, and what its changes of state mean.
use vstd::prelude::*;

use crate::data_channel::ChannelConfig;
use crate::messages::texts;
use crate::mpsc::{Notifier, NotifyError};

verus! {

/// An ICE server, as the user of a socket gives it.
#[derive(Debug)]
pub struct RtcIceServerConfig {
    pub urls: Vec<String>,
    pub username: Option<String>,
    pub credential: Option<String>,
}

/// What the user of a socket asks for.
#[derive(Debug)]
pub struct WebRtcSocketConfig {
    pub ice_server: RtcIceServerConfig,
    pub channels: Vec<ChannelConfig>,
}

/// An ICE server, as the WebRTC stack takes it.
#[derive(Debug, PartialEq, Eq)]
pub struct IceServer {
    pub urls: Vec<String>,
    pub username: String,
    pub credential: String,
}

/// What a connection is created from; all else is left at its default.
#[derive(Debug, PartialEq, Eq)]
pub struct RtcConfiguration {
    pub ice_servers: Vec<IceServer>,
}

/// A text that may be missing; a missing one is empty.
pub open spec fn text_or_empty(text: Option<String>) -> Seq<char> {
    match text {
        Some(t) => t@,
        None => Seq::empty(),
    }
}

fn or_empty(text: &Option<String>) -> (res: String)
    ensures
        res@ == text_or_empty(*text),
{
    match text {
        Some(t) => t.clone(),
        None => String::new(),
    }
}

/// The configuration of a connection: the one ICE server that the user gave, with an empty
/// name or credential where none was given.
pub fn rtc_configuration(config: &WebRtcSocketConfig) -> (res: RtcConfiguration)
    ensures
        res.ice_servers@.len() == 1,
        texts(res.ice_servers@[0].urls@) == texts(config.ice_server.urls@),
        res.ice_servers@[0].username@ == text_or_empty(config.ice_server.username),
        res.ice_servers@[0].credential@ == text_or_empty(config.ice_server.credential),
        res.ice_servers@[0].urls@.len() == config.ice_server.urls@.len(),
        forall|i: int|
            0 <= i < config.ice_server.urls@.len() ==> (#[trigger] res.ice_servers@[0].urls@[i])@
                == config.ice_server.urls@[i]@,
        match config.ice_server.username {
            Some(name) => res.ice_servers@[0].username@ == name@,
            None => res.ice_servers@[0].username@ == Seq::<char>::empty(),
        },
        match config.ice_server.credential {
            Some(secret) => res.ice_servers@[0].credential@ == secret@,
            None => res.ice_servers@[0].credential@ == Seq::<char>::empty(),
        },
{
    let ice_server = &config.ice_server;
    let server = IceServer {
        urls: ice_server.urls.clone(),
        username: or_empty(&ice_server.username),
        credential: or_empty(&ice_server.credential),
    };
    assert(texts(server.urls@) =~= texts(config.ice_server.urls@));
    let mut ice_servers: Vec<IceServer> = Vec::new();
    ice_servers.push(server);
    RtcConfiguration { ice_servers }
}

/// The state of a connection, as the WebRTC stack reports it.
#[derive(Debug, PartialEq, Eq, Clone, Copy)]
pub enum PeerConnectionState {
    Unspecified,
    New,
    Connecting,
    Connected,
    Disconnected,
    Failed,
    Closed,
}

impl PeerConnectionState {
    /// Whether something has definitely failed.
    pub open spec fn is_lost(self) -> bool {
        self is Disconnected || self is Failed || self is Closed
    }
}

/// Takes note of a connection's new state: the loss of the peer is reported to whoever waits
/// for it, and that this report was not taken is the caller's to log. Any other state is of
/// no consequence; whether a peer is connected is decided by its data channels.
pub fn on_peer_connection_state_change(
    state: PeerConnectionState,
    peer_disconnected: &mut Notifier,
) -> (res: Result<(), NotifyError>)
    ensures
        !state.is_lost() ==> res is Ok && final(peer_disconnected).answers() == old(
            peer_disconnected,
        ).answers(),
        state.is_lost() ==> final(peer_disconnected).answers() == old(
            peer_disconnected,
        ).answers().push(res),
        final(peer_disconnected).sent() == old(peer_disconnected).sent() + (if state.is_lost()
            && res is Ok {
            1nat
        } else {
            0nat
        }),
{
    match state {
        PeerConnectionState::Unspecified
        | PeerConnectionState::New
        | PeerConnectionState::Connecting
        | PeerConnectionState::Connected => Ok(()),
        PeerConnectionState::Disconnected
        | PeerConnectionState::Failed
        | PeerConnectionState::Closed => peer_disconnected.notify(),
    }
}

/// A peer is lost exactly when its connection is disconnected, has failed or is closed.
pub proof fn law_only_definite_failures_are_losses(state: PeerConnectionState)
    ensures
        state.is_lost() <==> (state == PeerConnectionState::Disconnected || state
            == PeerConnectionState::Failed || state == PeerConnectionState::Closed),
{
}

/// A text that was given is kept as it is, and only a missing one is empty.
pub proof fn law_given_texts_are_kept(text: String)
    ensures
        text_or_empty(Some(text)) == text@,
        text_or_empty(None) == Seq::<char>::empty(),
{
}

} // verus!
