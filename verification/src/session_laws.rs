//! What holds of a handshake and of the trickle that runs beside it, however their events
//! interleave.
use vstd::prelude::*;

use crate::handshake::{HandshakeEventView, HandshakeModel, Role};
use crate::handshake_laws::{described, remote_set};
use crate::messages::{PeerRequestView, PeerSignalView};
use crate::mpsc::all_taken;
use crate::signal_peer::request_to;
use crate::trickle::{candidate_requests, TrickleEvent, TrickleModel};

verus! {

/// What happens between two peers on one side.
pub enum SessionEvent {
    /// The handshake is told of an event, and the queue takes the signal that this calls for,
    /// or refuses it.
    Handshake { event: HandshakeEventView, taken: bool },
    /// Something happens to the trickle.
    Trickle(TrickleEvent),
}

/// One side of what goes on between two peers.
pub struct Session {
    pub handshake: HandshakeModel,
    pub trickle: TrickleModel,
    /// Whether the handshake has asked for the remote description to be set.
    pub remote_asked: bool,
    /// Whether a flush that the handshake has asked for has gone through.
    pub flushed: bool,
    /// The requests that either of the two has handed to the queue, in the order in which they
    /// did, each with whether it was taken.
    pub tried: Seq<(PeerRequestView, bool)>,
}

impl Session {
    /// A side that has just begun.
    pub open spec fn new(role: Role, peer: Seq<char>) -> Session {
        Session {
            handshake: HandshakeModel::new(role, peer),
            trickle: TrickleModel { receiver: peer, pending: Seq::empty(), tried: Seq::empty() },
            remote_asked: false,
            flushed: false,
            tried: Seq::empty(),
        }
    }

    /// Whether an event can happen now. Before the handshake has asked for the remote description
    /// to be set, it cannot be known, and the candidates kept back are not flushed.
    pub open spec fn expects(self, event: SessionEvent) -> bool {
        match event {
            SessionEvent::Handshake { event, .. } => self.handshake.expects(event),
            SessionEvent::Trickle(TrickleEvent::Found { remote_known, .. }) => remote_known
                ==> self.remote_asked,
            SessionEvent::Trickle(TrickleEvent::Flush { .. }) => self.remote_asked,
        }
    }

    /// Whether an event is a flush that the handshake has asked for, and that sends all that is
    /// kept back.
    pub open spec fn goes_through(self, event: TrickleEvent) -> bool {
        &&& self.handshake.phase is SendingCandidates
        &&& event matches TrickleEvent::Flush { accepts }
        &&& accepts >= self.trickle.pending.len()
    }

    /// What one event leaves.
    pub open spec fn step(self, event: SessionEvent) -> Session {
        match event {
            SessionEvent::Handshake { event, taken } => {
                let outcome = self.handshake.outcome(event, taken);
                Session {
                    handshake: outcome.next,
                    remote_asked: self.remote_asked || outcome.action is SetRemoteDescription,
                    tried: self.tried + self.handshake.attempts(event, taken),
                    ..self
                }
            },
            SessionEvent::Trickle(event) => {
                let trickle = self.trickle.step(event);
                Session {
                    trickle,
                    flushed: self.flushed || self.goes_through(event),
                    tried: self.tried + trickle.tried.skip(self.trickle.tried.len() as int),
                    ..self
                }
            },
        }
    }

    /// What a course of events leaves.
    pub open spec fn run(self, events: Seq<SessionEvent>) -> Session
        decreases events.len(),
    {
        if events.len() == 0 {
            self
        } else {
            self.run(events.drop_last()).step(events.last())
        }
    }

    /// Whether each of the events can happen when its turn comes.
    pub open spec fn possible(self, events: Seq<SessionEvent>) -> bool
        decreases events.len(),
    {
        events.len() > 0 ==> {
            &&& self.possible(events.drop_last())
            &&& self.run(events.drop_last()).expects(events.last())
        }
    }

    /// Whether the handshake is told that the candidates kept back were sent only once a flush
    /// that it has asked for has gone through.
    pub open spec fn told_of_flushes(self, events: Seq<SessionEvent>) -> bool
        decreases events.len(),
    {
        events.len() > 0 ==> {
            &&& self.told_of_flushes(events.drop_last())
            &&& (events.last() matches SessionEvent::Handshake { event, .. }
                && event is CandidatesSent) ==> self.run(events.drop_last()).flushed
        }
    }

    /// Whether candidates are found only once the local description is being set, or is set.
    pub open spec fn found_once_described(self, events: Seq<SessionEvent>) -> bool
        decreases events.len(),
    {
        events.len() > 0 ==> {
            &&& self.found_once_described(events.drop_last())
            &&& events.last() matches SessionEvent::Trickle(TrickleEvent::Found { .. })
                ==> described(self.run(events.drop_last()).handshake)
        }
    }

    /// Whether the handshake has not come to the point yet at which the offering side sends its
    /// offer.
    pub open spec fn before_offer(self) -> bool {
        self.handshake.phase is Opening || self.handshake.phase is DescribingLocal
            || self.handshake.phase is SettingLocal
    }
}

/// The offer comes first: in every course of events, the first request that the offering side
/// hands to the queue carries its offer, as soon as the local description is set and not
/// before. All other requests carry candidates, and there are some only if the offer was taken.
pub proof fn law_no_candidate_before_the_offer(peer: Seq<char>, events: Seq<SessionEvent>)
    requires
        Session::new(Role::Offer, peer).possible(events),
    ensures
        ({
            let now = Session::new(Role::Offer, peer).run(events);
            &&& now.before_offer() <==> now.tried.len() == 0
            &&& now.tried.len() > 0 ==> now.tried[0].0 == request_to(
                peer,
                PeerSignalView::Offer(now.handshake.local_sdp),
            )
            &&& now.tried.len() > 0 ==> now.tried[0].0.receiver == peer && now.tried[0].0.data
                == PeerSignalView::Offer(now.handshake.local_sdp)
            &&& forall|i: int|
                1 <= i < now.tried.len() ==> (#[trigger] now.tried[i]).0.receiver == peer
                    && now.tried[i].0.data is IceCandidate
            &&& now.tried.len() > 1 ==> now.tried[0].1
        }),
{
    offer_comes_first(peer, events);
}

/// Whether the offering side is past its offer, with the answer in hand.
spec fn answered(session: Session) -> bool {
    let phase = session.handshake.phase;
    phase is SettingRemote || phase is SendingCandidates || phase is AwaitingChannels
        || phase is Complete
}

proof fn offer_comes_first(peer: Seq<char>, events: Seq<SessionEvent>)
    requires
        Session::new(Role::Offer, peer).possible(events),
    ensures
        ({
            let now = Session::new(Role::Offer, peer).run(events);
            &&& now.handshake.role is Offer
            &&& now.handshake.peer == peer
            &&& now.trickle.receiver == peer
            &&& now.before_offer() <==> now.tried.len() == 0
            &&& now.tried.len() > 0 ==> now.tried[0].0 == request_to(
                peer,
                PeerSignalView::Offer(now.handshake.local_sdp),
            )
            &&& now.tried.len() > 0 ==> now.tried[0].0.receiver == peer && now.tried[0].0.data
                == PeerSignalView::Offer(now.handshake.local_sdp)
            &&& forall|i: int|
                1 <= i < now.tried.len() ==> (#[trigger] now.tried[i]).0.receiver == peer
                    && now.tried[i].0.data is IceCandidate
            &&& now.remote_asked <==> answered(now)
            &&& now.handshake.phase is AwaitingRemote || answered(now) ==> now.tried[0].1
            &&& !now.before_offer() && !answered(now) ==> now.tried.len() == 1
        }),
    decreases events.len(),
{
    if events.len() > 0 {
        offer_comes_first(peer, events.drop_last());
    }
}

/// The answer comes first: in every course of events in which candidates are found only once
/// the local description is being set, the first request that the accepting side hands to the
/// queue carries its answer, as soon as that is created and not before. All other requests carry
/// candidates, and after an answer that was refused there are none.
pub proof fn law_no_candidate_before_the_answer(peer: Seq<char>, events: Seq<SessionEvent>)
    requires
        Session::new(Role::Accept, peer).possible(events),
        Session::new(Role::Accept, peer).found_once_described(events),
    ensures
        ({
            let now = Session::new(Role::Accept, peer).run(events);
            &&& described(now.handshake) <==> now.tried.len() > 0 && now.tried[0].1
            &&& now.tried.len() > 0 ==> now.tried[0].0 == request_to(
                peer,
                PeerSignalView::Answer(now.handshake.local_sdp),
            )
            &&& now.tried.len() > 0 ==> now.tried[0].0.receiver == peer && now.tried[0].0.data
                == PeerSignalView::Answer(now.handshake.local_sdp)
            &&& forall|i: int|
                1 <= i < now.tried.len() ==> (#[trigger] now.tried[i]).0.receiver == peer
                    && now.tried[i].0.data is IceCandidate
            &&& now.tried.len() > 0 && !now.tried[0].1 ==> now.tried.len() == 1
                && now.handshake.phase is Failed
        }),
{
    answer_comes_first(peer, events);
}

proof fn answer_comes_first(peer: Seq<char>, events: Seq<SessionEvent>)
    requires
        Session::new(Role::Accept, peer).possible(events),
        Session::new(Role::Accept, peer).found_once_described(events),
    ensures
        ({
            let now = Session::new(Role::Accept, peer).run(events);
            &&& now.handshake.role is Accept
            &&& now.handshake.peer == peer
            &&& now.trickle.receiver == peer
            &&& described(now.handshake) <==> now.tried.len() > 0 && now.tried[0].1
            &&& now.tried.len() > 0 ==> now.tried[0].0 == request_to(
                peer,
                PeerSignalView::Answer(now.handshake.local_sdp),
            )
            &&& now.tried.len() > 0 ==> now.tried[0].0.receiver == peer && now.tried[0].0.data
                == PeerSignalView::Answer(now.handshake.local_sdp)
            &&& forall|i: int|
                1 <= i < now.tried.len() ==> (#[trigger] now.tried[i]).0.receiver == peer
                    && now.tried[i].0.data is IceCandidate
            &&& !described(now.handshake) ==> now.tried.len() <= 1 && now.trickle.pending.len()
                == 0
            &&& now.tried.len() > 0 ==> described(now.handshake) || now.handshake.phase is Failed
        }),
    decreases events.len(),
{
    if events.len() > 0 {
        answer_comes_first(peer, events.drop_last());
    }
}

/// No candidate comes before the remote description: on either side, and in every course of
/// events, no request carries a candidate as long as the handshake has not asked for the remote
/// description to be set.
pub proof fn law_no_candidate_before_the_remote_description(
    role: Role,
    peer: Seq<char>,
    events: Seq<SessionEvent>,
)
    requires
        Session::new(role, peer).possible(events),
    ensures
        ({
            let now = Session::new(role, peer).run(events);
            &&& now.handshake.phase is SettingRemote || remote_set(now.handshake)
                ==> now.remote_asked
            &&& !now.remote_asked ==> forall|i: int|
                0 <= i < now.tried.len() ==> !((#[trigger] now.tried[i]).0.data is IceCandidate)
        }),
    decreases events.len(),
{
    if events.len() > 0 {
        law_no_candidate_before_the_remote_description(role, peer, events.drop_last());
    }
}

/// Whether the event at `i` is a flush that the handshake has asked for and that sends all that
/// is kept back by then, in the order in which it was found.
pub open spec fn flushes_all(start: Session, events: Seq<SessionEvent>, i: int) -> bool {
    let before = start.run(events.take(i));
    let after = start.run(events.take(i + 1));
    &&& events[i] matches SessionEvent::Trickle(TrickleEvent::Flush { .. })
    &&& before.handshake.phase is SendingCandidates
    &&& after.trickle.pending == Seq::<Seq<char>>::empty()
    &&& after.tried == before.tried + all_taken(
        candidate_requests(before.trickle.receiver, before.trickle.pending),
    )
}

/// Whatever the order of events, a handshake that is told of flushes waits for its data channels,
/// or is complete, only after all candidates that were kept back when it asked for them were
/// sent.
pub proof fn law_channels_are_awaited_after_the_flush(
    role: Role,
    peer: Seq<char>,
    events: Seq<SessionEvent>,
)
    requires
        Session::new(role, peer).possible(events),
        Session::new(role, peer).told_of_flushes(events),
    ensures
        ({
            let start = Session::new(role, peer);
            let phase = start.run(events).handshake.phase;
            phase is AwaitingChannels || phase is Complete ==> exists|i: int|
                0 <= i < events.len() && #[trigger] flushes_all(start, events, i)
        }),
{
    flush_went_through(role, peer, events);
}

proof fn flush_went_through(role: Role, peer: Seq<char>, events: Seq<SessionEvent>)
    requires
        Session::new(role, peer).possible(events),
        Session::new(role, peer).told_of_flushes(events),
    ensures
        ({
            let start = Session::new(role, peer);
            let now = start.run(events);
            &&& now.handshake.phase is AwaitingChannels || now.handshake.phase is Complete
                ==> now.flushed
            &&& now.flushed ==> exists|i: int|
                0 <= i < events.len() && #[trigger] flushes_all(start, events, i)
        }),
    decreases events.len(),
{
    let start = Session::new(role, peer);
    if events.len() > 0 {
        let rest = events.drop_last();
        let last = events.len() - 1;
        flush_went_through(role, peer, rest);
        let before = start.run(rest);
        let now = start.run(events);
        if before.flushed {
            let i = choose|i: int| 0 <= i < rest.len() && flushes_all(start, rest, i);
            assert(rest.take(i) =~= events.take(i));
            assert(rest.take(i + 1) =~= events.take(i + 1));
            assert(flushes_all(start, events, i));
        } else if now.flushed {
            let requests = candidate_requests(before.trickle.receiver, before.trickle.pending);
            assert(events.take(last) =~= rest);
            assert(events.take(last + 1) =~= events);
            assert(now.trickle.tried.skip(before.trickle.tried.len() as int) =~= all_taken(
                requests,
            ));
            assert(flushes_all(start, events, last));
        }
    }
}

/// Whether a handshake in this role cannot have created its local description yet.
spec fn undescribed(handshake: HandshakeModel) -> bool {
    let phase = handshake.phase;
    phase is Opening || phase is DescribingLocal || (handshake.role is Accept && (phase
        is AwaitingRemote || phase is SettingRemote))
}

/// The event that the local description was created with this text.
spec fn created(sdp: Seq<char>, taken: bool) -> SessionEvent {
    SessionEvent::Handshake { event: HandshakeEventView::LocalDescriptionCreated(sdp), taken }
}

proof fn described_once(role: Role, peer: Seq<char>, events: Seq<SessionEvent>)
    requires
        Session::new(role, peer).possible(events),
    ensures
        ({
            let now = Session::new(role, peer).run(events).handshake;
            &&& now.role == role
            &&& forall|i: int, sdp: Seq<char>, taken: bool|
                0 <= i < events.len() && #[trigger] events[i] == (#[trigger] created(sdp, taken))
                    ==> now.local_sdp == sdp && !undescribed(now)
        }),
    decreases events.len(),
{
    if events.len() > 0 {
        let rest = events.drop_last();
        described_once(role, peer, rest);
        let now = Session::new(role, peer).run(events).handshake;
        assert forall|i: int, sdp: Seq<char>, taken: bool|
            0 <= i < events.len() && #[trigger] events[i] == (#[trigger] created(
                sdp,
                taken,
            )) implies now.local_sdp == sdp && !undescribed(now) by {
            if i < rest.len() {
                assert(rest[i] == created(sdp, taken));
            }
        }
    }
}

/// The peer is told the very description that was created: whatever else happens, in whatever
/// order, the request with which a side makes itself known carries the whole text of its local
/// description, and goes to the peer. On the accepting side this is the first request where
/// candidates are found only once the local description is being set.
pub proof fn law_the_peer_is_told_what_was_created(
    role: Role,
    peer: Seq<char>,
    events: Seq<SessionEvent>,
    i: int,
    sdp: Seq<char>,
    taken: bool,
)
    requires
        Session::new(role, peer).possible(events),
        role is Accept ==> Session::new(role, peer).found_once_described(events),
        0 <= i < events.len(),
        events[i] == (SessionEvent::Handshake {
            event: HandshakeEventView::LocalDescriptionCreated(sdp),
            taken,
        }),
    ensures
        ({
            let tried = Session::new(role, peer).run(events).tried;
            &&& tried.len() > 0 ==> tried[0].0.receiver == peer
            &&& tried.len() > 0 && role is Offer ==> tried[0].0.data == PeerSignalView::Offer(sdp)
            &&& tried.len() > 0 && role is Accept ==> tried[0].0.data == PeerSignalView::Answer(sdp)
        }),
{
    described_once(role, peer, events);
    assert(events[i] == created(sdp, taken));
    match role {
        Role::Offer => law_no_candidate_before_the_offer(peer, events),
        Role::Accept => law_no_candidate_before_the_answer(peer, events),
    }
}

} // verus!
