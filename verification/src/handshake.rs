//! The handshake by which two peers open their connection: one offers, the other accepts.
//!
//! A handshake is told what has happened and says what is to be done next. It sends its own
//! signals; everything else is left to whoever runs it.
use vstd::prelude::*;

use crate::description::{read_description, SdpKind, SessionDescription, SessionDescriptionView};
use crate::messages::{PeerId, PeerRequestView, PeerSignal, PeerSignalView};
use crate::mpsc::{accepted, law_rounds_of_attempts_add_up};
use crate::signal_peer::{request_to, SignalPeer};

verus! {

/// Which side of the handshake a peer is on.
#[derive(Debug, PartialEq, Eq, Clone, Copy)]
pub enum Role {
    /// It makes the offer and awaits the answer.
    Offer,
    /// It awaits the offer and makes the answer.
    Accept,
}

/// How far a handshake has come.
#[derive(Debug, PartialEq, Eq, Clone, Copy)]
pub enum Phase {
    /// The connection and its data channels are being created.
    Opening,
    /// The local description is being created.
    DescribingLocal,
    /// The local description is being set.
    SettingLocal,
    /// The peer's description is due.
    AwaitingRemote,
    /// The remote description is being set.
    SettingRemote,
    /// The candidates that were kept back are being sent.
    SendingCandidates,
    /// The data channels are opening.
    AwaitingChannels,
    /// The handshake is over.
    Complete,
    /// The handshake cannot go on.
    Failed,
}

/// What a handshake is told.
#[derive(Debug)]
pub enum HandshakeEvent {
    /// The connection and its data channels were created.
    ChannelsCreated,
    /// The local description was created; this is its text.
    LocalDescriptionCreated(String),
    /// The local description was set.
    LocalDescriptionSet,
    /// The peer sent a signal.
    Signal(PeerSignal),
    /// The remote description was set.
    RemoteDescriptionSet,
    /// The candidates that were kept back were sent.
    CandidatesSent,
    /// Every data channel is open.
    ChannelsReady,
    /// Listening for the peer's candidates has ended.
    TrickleFinished,
}

/// What a handshake is told, with texts as sequences of characters.
pub enum HandshakeEventView {
    ChannelsCreated,
    LocalDescriptionCreated(Seq<char>),
    LocalDescriptionSet,
    Signal(PeerSignalView),
    RemoteDescriptionSet,
    CandidatesSent,
    ChannelsReady,
    TrickleFinished,
}

impl View for HandshakeEvent {
    type V = HandshakeEventView;

    open spec fn view(&self) -> HandshakeEventView {
        match self {
            HandshakeEvent::ChannelsCreated => HandshakeEventView::ChannelsCreated,
            HandshakeEvent::LocalDescriptionCreated(
                sdp,
            ) => HandshakeEventView::LocalDescriptionCreated(sdp@),
            HandshakeEvent::LocalDescriptionSet => HandshakeEventView::LocalDescriptionSet,
            HandshakeEvent::Signal(signal) => HandshakeEventView::Signal(signal@),
            HandshakeEvent::RemoteDescriptionSet => HandshakeEventView::RemoteDescriptionSet,
            HandshakeEvent::CandidatesSent => HandshakeEventView::CandidatesSent,
            HandshakeEvent::ChannelsReady => HandshakeEventView::ChannelsReady,
            HandshakeEvent::TrickleFinished => HandshakeEventView::TrickleFinished,
        }
    }
}

/// What is to be done next.
#[derive(Debug)]
pub enum HandshakeAction {
    /// Create an offer.
    CreateOffer,
    /// Create an answer.
    CreateAnswer,
    /// Set the description that was just created as the local one.
    SetLocalDescription,
    /// Wait for the peer's next signal.
    AwaitSignal,
    /// Set this description as the remote one.
    SetRemoteDescription(SessionDescription),
    /// Send the candidates that were kept back.
    SendPendingCandidates,
    /// Wait for the data channels, and listen for the peer's candidates meanwhile.
    AwaitChannels,
    /// Nothing more: this peer is connected.
    Finish(PeerId),
    /// Give up: the peer's description cannot be read.
    InvalidDescription(webrtc::Error),
    /// Give up: the signalling server takes no more requests.
    SignallingClosed,
}

/// What is to be done next, with texts as sequences of characters.
pub enum HandshakeActionView {
    CreateOffer,
    CreateAnswer,
    SetLocalDescription,
    AwaitSignal,
    SetRemoteDescription(SessionDescriptionView),
    SendPendingCandidates,
    AwaitChannels,
    Finish(Seq<char>),
    InvalidDescription,
    SignallingClosed,
}

impl View for HandshakeAction {
    type V = HandshakeActionView;

    open spec fn view(&self) -> HandshakeActionView {
        match self {
            HandshakeAction::CreateOffer => HandshakeActionView::CreateOffer,
            HandshakeAction::CreateAnswer => HandshakeActionView::CreateAnswer,
            HandshakeAction::SetLocalDescription => HandshakeActionView::SetLocalDescription,
            HandshakeAction::AwaitSignal => HandshakeActionView::AwaitSignal,
            HandshakeAction::SetRemoteDescription(
                description,
            ) => HandshakeActionView::SetRemoteDescription(description@),
            HandshakeAction::SendPendingCandidates => HandshakeActionView::SendPendingCandidates,
            HandshakeAction::AwaitChannels => HandshakeActionView::AwaitChannels,
            HandshakeAction::Finish(peer) => HandshakeActionView::Finish(peer@),
            HandshakeAction::InvalidDescription(_) => HandshakeActionView::InvalidDescription,
            HandshakeAction::SignallingClosed => HandshakeActionView::SignallingClosed,
        }
    }
}

/// The state of a handshake.
pub struct HandshakeModel {
    pub role: Role,
    pub phase: Phase,
    /// The peer on the other side.
    pub peer: Seq<char>,
    /// The text of the local description, once it was created.
    pub local_sdp: Seq<char>,
}

/// What one event brings about.
pub struct HandshakeStep {
    /// The state that it leaves.
    pub next: HandshakeModel,
    /// The signal that goes to the peer.
    pub signal: Option<PeerSignalView>,
    /// What is to be done next.
    pub action: HandshakeActionView,
}

/// The description in a signal that a peer in this role waits for, if it is in there.
pub open spec fn awaited_description(role: Role, signal: PeerSignalView) -> Option<
    SessionDescriptionView,
> {
    match (role, signal) {
        (Role::Offer, PeerSignalView::Answer(sdp)) => Some(
            SessionDescriptionView { kind: SdpKind::Answer, sdp },
        ),
        (Role::Accept, PeerSignalView::Offer(sdp)) => Some(
            SessionDescriptionView { kind: SdpKind::Offer, sdp },
        ),
        _ => None,
    }
}

impl HandshakeModel {
    /// A handshake that has just begun.
    pub open spec fn new(role: Role, peer: Seq<char>) -> HandshakeModel {
        HandshakeModel { role, phase: Phase::Opening, peer, local_sdp: Seq::empty() }
    }

    /// Whether an event can happen in this state.
    pub open spec fn expects(self, event: HandshakeEventView) -> bool {
        match event {
            HandshakeEventView::ChannelsCreated => self.phase is Opening,
            HandshakeEventView::LocalDescriptionCreated(_) => self.phase is DescribingLocal,
            HandshakeEventView::LocalDescriptionSet => self.phase is SettingLocal,
            HandshakeEventView::Signal(_) => self.phase is AwaitingRemote,
            HandshakeEventView::RemoteDescriptionSet => self.phase is SettingRemote,
            HandshakeEventView::CandidatesSent => self.phase is SendingCandidates,
            HandshakeEventView::ChannelsReady => self.phase is AwaitingChannels,
            HandshakeEventView::TrickleFinished => self.phase is AwaitingChannels,
        }
    }

    /// The step to another phase.
    pub open spec fn to(self, phase: Phase, action: HandshakeActionView) -> HandshakeStep {
        HandshakeStep { next: HandshakeModel { phase, ..self }, signal: None, action }
    }

    /// What an event brings about that can happen in this state.
    ///
    /// The offering side creates its description, sets it, and only then sends it. The
    /// accepting side creates its description once the remote one is set, sends it, and only
    /// then sets it. Each side passes over all signals until the one that it waits for.
    pub open spec fn step(self, event: HandshakeEventView) -> HandshakeStep {
        match event {
            HandshakeEventView::ChannelsCreated => match self.role {
                Role::Offer => self.to(
                    Phase::DescribingLocal,
                    HandshakeActionView::CreateOffer,
                ),
                Role::Accept => self.to(Phase::AwaitingRemote, HandshakeActionView::AwaitSignal),
            },
            HandshakeEventView::LocalDescriptionCreated(sdp) => HandshakeStep {
                signal: match self.role {
                    Role::Offer => None,
                    Role::Accept => Some(PeerSignalView::Answer(sdp)),
                },
                ..(HandshakeModel { local_sdp: sdp, ..self }).to(
                    Phase::SettingLocal,
                    HandshakeActionView::SetLocalDescription,
                )
            },
            HandshakeEventView::LocalDescriptionSet => match self.role {
                Role::Offer => HandshakeStep {
                    signal: Some(PeerSignalView::Offer(self.local_sdp)),
                    ..self.to(Phase::AwaitingRemote, HandshakeActionView::AwaitSignal)
                },
                Role::Accept => self.to(
                    Phase::SendingCandidates,
                    HandshakeActionView::SendPendingCandidates,
                ),
            },
            HandshakeEventView::Signal(signal) => match awaited_description(self.role, signal) {
                Some(description) => if description.readable() {
                    self.to(
                        Phase::SettingRemote,
                        HandshakeActionView::SetRemoteDescription(description),
                    )
                } else {
                    self.to(Phase::Failed, HandshakeActionView::InvalidDescription)
                },
                None => self.to(Phase::AwaitingRemote, HandshakeActionView::AwaitSignal),
            },
            HandshakeEventView::RemoteDescriptionSet => match self.role {
                Role::Offer => self.to(
                    Phase::SendingCandidates,
                    HandshakeActionView::SendPendingCandidates,
                ),
                Role::Accept => self.to(
                    Phase::DescribingLocal,
                    HandshakeActionView::CreateAnswer,
                ),
            },
            HandshakeEventView::CandidatesSent => self.to(
                Phase::AwaitingChannels,
                HandshakeActionView::AwaitChannels,
            ),
            HandshakeEventView::ChannelsReady => self.to(
                Phase::Complete,
                HandshakeActionView::Finish(self.peer),
            ),
            HandshakeEventView::TrickleFinished => self.to(
                Phase::AwaitingChannels,
                HandshakeActionView::AwaitChannels,
            ),
        }
    }

    /// What an event brings about when the queue takes the signal that it calls for, or
    /// refuses it: a handshake whose signal is refused fails.
    pub open spec fn outcome(self, event: HandshakeEventView, taken: bool) -> HandshakeStep {
        let step = self.step(event);
        if step.signal is Some && !taken {
            HandshakeStep {
                next: HandshakeModel { phase: Phase::Failed, ..step.next },
                action: HandshakeActionView::SignallingClosed,
                ..step
            }
        } else {
            step
        }
    }

    /// The attempts at sending that an event leads to: one at the signal that it calls for, and
    /// none where it calls for none.
    pub open spec fn attempts(self, event: HandshakeEventView, taken: bool) -> Seq<
        (PeerRequestView, bool),
    > {
        let step = self.step(event);
        match step.signal {
            Some(signal) => seq![(request_to(step.next.peer, signal), taken)],
            None => Seq::empty(),
        }
    }
}

/// One side of a handshake with a peer.
pub struct Handshake {
    pub role: Role,
    pub phase: Phase,
    pub local_sdp: String,
    pub signal_peer: SignalPeer,
}

impl Handshake {
    pub open spec fn model(&self) -> HandshakeModel {
        HandshakeModel {
            role: self.role,
            phase: self.phase,
            peer: self.signal_peer.id@,
            local_sdp: self.local_sdp@,
        }
    }

    /// The side that offers.
    pub fn offer_handshake(signal_peer: SignalPeer) -> (res: Self)
        ensures
            res.model() == HandshakeModel::new(Role::Offer, signal_peer.id@),
            res.signal_peer == signal_peer,
            res.role is Offer,
            res.phase is Opening,
            res.local_sdp@ == Seq::<char>::empty(),
    {
        Handshake {
            role: Role::Offer,
            phase: Phase::Opening,
            local_sdp: String::new(),
            signal_peer,
        }
    }

    /// The side that accepts.
    pub fn accept_handshake(signal_peer: SignalPeer) -> (res: Self)
        ensures
            res.model() == HandshakeModel::new(Role::Accept, signal_peer.id@),
            res.signal_peer == signal_peer,
            res.role is Accept,
            res.phase is Opening,
            res.local_sdp@ == Seq::<char>::empty(),
    {
        Handshake {
            role: Role::Accept,
            phase: Phase::Opening,
            local_sdp: String::new(),
            signal_peer,
        }
    }

    /// Whether an event can happen now.
    pub fn expects(&self, event: &HandshakeEvent) -> (res: bool)
        ensures
            res == self.model().expects(event@),
    {
        match event {
            HandshakeEvent::ChannelsCreated => matches!(self.phase, Phase::Opening),
            HandshakeEvent::LocalDescriptionCreated(_) => matches!(
                self.phase,
                Phase::DescribingLocal
            ),
            HandshakeEvent::LocalDescriptionSet => matches!(self.phase, Phase::SettingLocal),
            HandshakeEvent::Signal(_) => matches!(self.phase, Phase::AwaitingRemote),
            HandshakeEvent::RemoteDescriptionSet => matches!(self.phase, Phase::SettingRemote),
            HandshakeEvent::CandidatesSent => matches!(self.phase, Phase::SendingCandidates),
            HandshakeEvent::ChannelsReady => matches!(self.phase, Phase::AwaitingChannels),
            HandshakeEvent::TrickleFinished => matches!(self.phase, Phase::AwaitingChannels),
        }
    }

    /// Takes note of an event: hands the signal that it calls for to the queue, once, and says
    /// what is to be done next. Where the queue refuses the signal, the handshake fails.
    pub fn on_event(&mut self, event: HandshakeEvent) -> (res: HandshakeAction)
        requires
            old(self).model().expects(event@),
        ensures
            ({
                let taken = !(res is SignallingClosed);
                let outcome = old(self).model().outcome(event@, taken);
                let attempts = old(self).model().attempts(event@, taken);
                &&& res@ == outcome.action
                &&& final(self).model() == outcome.next
                &&& final(self).signal_peer.tried() == old(self).signal_peer.tried() + attempts
                &&& final(self).signal_peer.sent() == old(self).signal_peer.sent() + accepted(
                    attempts,
                )
            }),
            final(self).role == old(self).role,
            final(self).signal_peer.id == old(self).signal_peer.id,
            match event {
                HandshakeEvent::LocalDescriptionCreated(sdp) => final(self).local_sdp@ == sdp@,
                _ => final(self).local_sdp@ == old(self).local_sdp@,
            },
            res is Finish <==> event is ChannelsReady,
            res matches HandshakeAction::Finish(peer) ==> peer@ == old(self).signal_peer.id@,
            final(self).phase is Complete <==> event is ChannelsReady,
            event is CandidatesSent || event is TrickleFinished <==> res is AwaitChannels,
    {
        let ghost before = self.signal_peer.tried();
        let (signal, action) = self.advance(event);
        let action = match signal {
            None => action,
            Some(signal) => match self.signal_peer.send(signal) {
                Ok(()) => action,
                Err(_) => {
                    self.phase = Phase::Failed;
                    HandshakeAction::SignallingClosed
                },
            },
        };
        proof {
            let attempts = old(self).model().attempts(event@, !(action is SignallingClosed));
            assert(self.signal_peer.tried() =~= before + attempts);
            law_rounds_of_attempts_add_up(before, attempts);
        }
        action
    }

    /// The state after an event, the signal that is due, and what is to be done once it was
    /// sent.
    pub fn advance(&mut self, event: HandshakeEvent) -> (res: (
        Option<PeerSignal>,
        HandshakeAction,
    ))
        requires
            old(self).model().expects(event@),
        ensures
            ({
                let step = old(self).model().step(event@);
                &&& final(self).model() == step.next
                &&& final(self).signal_peer == old(self).signal_peer
                &&& res.1@ == step.action
                &&& match res.0 {
                    Some(signal) => step.signal == Some(signal@),
                    None => step.signal is None,
                }
            }),
            final(self).role == old(self).role,
            match event {
                HandshakeEvent::LocalDescriptionCreated(sdp) => final(self).local_sdp@ == sdp@,
                _ => final(self).local_sdp@ == old(self).local_sdp@,
            },
            res.0 is Some <==> (old(self).role is Offer && event is LocalDescriptionSet) || (
            old(self).role is Accept && event is LocalDescriptionCreated),
            res.0 matches Some(signal) ==> match old(self).role {
                Role::Offer => signal matches PeerSignal::Offer(sdp) && sdp@
                    == old(self).local_sdp@,
                Role::Accept => signal matches PeerSignal::Answer(answer) && (event matches
                    HandshakeEvent::LocalDescriptionCreated(sdp) && answer@ == sdp@),
            },
            res.1 is Finish <==> event is ChannelsReady,
            res.1 matches HandshakeAction::Finish(peer) ==> peer@ == old(self).signal_peer.id@,
            event is CandidatesSent || event is TrickleFinished <==> res.1 is AwaitChannels,
    {
        match event {
            HandshakeEvent::ChannelsCreated => match self.role {
                Role::Offer => {
                    self.phase = Phase::DescribingLocal;
                    (None, HandshakeAction::CreateOffer)
                },
                Role::Accept => {
                    self.phase = Phase::AwaitingRemote;
                    (None, HandshakeAction::AwaitSignal)
                },
            },
            HandshakeEvent::LocalDescriptionCreated(sdp) => {
                self.local_sdp = sdp.clone();
                self.phase = Phase::SettingLocal;
                let signal = match self.role {
                    Role::Offer => None,
                    Role::Accept => Some(PeerSignal::Answer(sdp)),
                };
                (signal, HandshakeAction::SetLocalDescription)
            },
            HandshakeEvent::LocalDescriptionSet => match self.role {
                Role::Offer => {
                    self.phase = Phase::AwaitingRemote;
                    (
                        Some(PeerSignal::Offer(self.local_sdp.clone())),
                        HandshakeAction::AwaitSignal,
                    )
                },
                Role::Accept => {
                    self.phase = Phase::SendingCandidates;
                    (None, HandshakeAction::SendPendingCandidates)
                },
            },
            HandshakeEvent::Signal(signal) => match (self.role, signal) {
                (Role::Offer, PeerSignal::Answer(sdp)) => (
                    None,
                    self.on_description_read(read_description(SdpKind::Answer, sdp)),
                ),
                (Role::Accept, PeerSignal::Offer(sdp)) => (
                    None,
                    self.on_description_read(read_description(SdpKind::Offer, sdp)),
                ),
                _ => (None, HandshakeAction::AwaitSignal),
            },
            HandshakeEvent::RemoteDescriptionSet => match self.role {
                Role::Offer => {
                    self.phase = Phase::SendingCandidates;
                    (None, HandshakeAction::SendPendingCandidates)
                },
                Role::Accept => {
                    self.phase = Phase::DescribingLocal;
                    (None, HandshakeAction::CreateAnswer)
                },
            },
            HandshakeEvent::CandidatesSent => {
                self.phase = Phase::AwaitingChannels;
                (None, HandshakeAction::AwaitChannels)
            },
            HandshakeEvent::ChannelsReady => {
                self.phase = Phase::Complete;
                (None, HandshakeAction::Finish(self.signal_peer.id.clone()))
            },
            HandshakeEvent::TrickleFinished => (None, HandshakeAction::AwaitChannels),
        }
    }

    /// What follows from reading the description that was awaited.
    pub fn on_description_read(
        &mut self,
        read: Result<SessionDescription, webrtc::Error>,
    ) -> (res: HandshakeAction)
        ensures
            final(self).signal_peer == old(self).signal_peer,
            match read {
                Ok(description) => {
                    &&& res == HandshakeAction::SetRemoteDescription(description)
                    &&& final(self).model() == (HandshakeModel {
                        phase: Phase::SettingRemote,
                        ..old(self).model()
                    })
                },
                Err(error) => {
                    &&& res == HandshakeAction::InvalidDescription(error)
                    &&& final(self).model() == (HandshakeModel {
                        phase: Phase::Failed,
                        ..old(self).model()
                    })
                },
            },
    {
        match read {
            Ok(description) => {
                self.phase = Phase::SettingRemote;
                HandshakeAction::SetRemoteDescription(description)
            },
            Err(error) => {
                self.phase = Phase::Failed;
                HandshakeAction::InvalidDescription(error)
            },
        }
    }
}

} // verus!
