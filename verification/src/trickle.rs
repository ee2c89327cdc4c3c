//! Trickling: the candidates that the local ICE agent finds go to the peer one by one, but
//! none before the remote description is known. Until then they are kept back.
use vstd::prelude::*;

use crate::candidate::{
    candidate_from_json, candidate_init, candidate_json, marshalled_candidate, to_init, to_json,
    CandidateInit, CandidateInitView, IceCandidate,
};
use crate::messages::{texts, PeerRequest, PeerRequestView, PeerSignal, PeerSignalView};
use crate::mpsc::{
    accepted, all_taken, law_one_more_attempt, law_rounds_of_attempts_add_up,
    law_what_is_always_taken_is_sent, law_what_is_sent_was_tried,
};
use crate::signal_peer::{request_to, SignalPeer};

verus! {

/// What trickling to one peer comes down to.
pub struct TrickleModel {
    /// The peer.
    pub receiver: Seq<char>,
    /// The candidates kept back, as JSON.
    pub pending: Seq<Seq<char>>,
    /// The requests handed to the queue so far, each with whether it was taken.
    pub tried: Seq<(PeerRequestView, bool)>,
}

/// What happens to a trickle.
pub enum TrickleEvent {
    /// A candidate was found, when the remote description was known or was not. Where it was,
    /// the queue takes the request that carries the candidate, or refuses it.
    Found { json: Seq<char>, remote_known: bool, taken: bool },
    /// The candidates kept back are to be sent. The queue accepts this many of the requests that
    /// carry them, or all if there are no more, and refuses the next.
    Flush { accepts: nat },
}

/// The request that carries one candidate to `receiver`.
pub open spec fn candidate_request(receiver: Seq<char>, json: Seq<char>) -> PeerRequestView {
    request_to(receiver, PeerSignalView::IceCandidate(json))
}

/// The requests that carry candidates, in their order, to `receiver`.
pub open spec fn candidate_requests(receiver: Seq<char>, jsons: Seq<Seq<char>>) -> Seq<
    PeerRequestView,
> {
    jsons.map_values(|json: Seq<char>| candidate_request(receiver, json))
}

/// The attempts at sending requests one after the other up to the first that is refused, when
/// the queue accepts `accepts` of them.
pub open spec fn attempts_until_refused(requests: Seq<PeerRequestView>, accepts: nat) -> Seq<
    (PeerRequestView, bool),
> {
    if accepts < requests.len() {
        all_taken(requests.take(accepts as int)).push((requests[accepts as int], false))
    } else {
        all_taken(requests)
    }
}

impl TrickleModel {
    /// The requests that the queue has taken so far.
    pub open spec fn sent(self) -> Seq<PeerRequestView> {
        accepted(self.tried)
    }

    /// What one event leaves.
    pub open spec fn step(self, event: TrickleEvent) -> TrickleModel {
        match event {
            TrickleEvent::Found { json, remote_known, taken } => if remote_known {
                TrickleModel {
                    tried: self.tried.push((candidate_request(self.receiver, json), taken)),
                    ..self
                }
            } else {
                TrickleModel { pending: self.pending.push(json), ..self }
            },
            TrickleEvent::Flush { accepts } => TrickleModel {
                pending: Seq::empty(),
                tried: self.tried + attempts_until_refused(
                    candidate_requests(self.receiver, self.pending),
                    accepts,
                ),
                ..self
            },
        }
    }
}

/// How much is known of a connection when its ICE agent reports a candidate.
#[derive(Debug, PartialEq, Eq, Clone, Copy)]
pub enum ConnectionStatus {
    /// The connection is gone.
    Gone,
    /// The remote description is not known yet.
    AwaitingRemote,
    /// The remote description is known.
    RemoteKnown,
}

/// What became of a candidate.
#[derive(Debug)]
pub enum CandidateOutcome {
    /// There was none: the ICE agent has found all of them.
    NoCandidate,
    /// It was dropped, as its connection is gone.
    ConnectionGone,
    /// It was dropped, as it cannot be handed over.
    Invalid(webrtc::Error),
    /// It is kept back.
    Stored,
    /// It is on its way to the peer.
    Sent,
    /// It could not be sent: the signalling server takes no more requests.
    SignallingClosed,
}

/// The signalling server takes no more requests.
#[derive(Debug, PartialEq, Eq, Clone, Copy)]
pub struct SignallingClosed;

/// Whether the peer reads in a candidate's JSON the very candidate that was written.
pub open spec fn survives_json(init: CandidateInitView) -> bool {
    candidate_from_json(candidate_json(init)) == Some(init)
}

/// What becomes of a candidate in the form in which it travels, and of the trickle: where the
/// remote description is known, the request that carries it is handed to the queue, once, and
/// the outcome is how the queue answers; where it is not, the candidate is kept back.
pub open spec fn dispatched(
    before: TrickleModel,
    json: Seq<char>,
    remote_known: bool,
    outcome: CandidateOutcome,
    after: TrickleModel,
) -> bool {
    let taken = outcome is Sent;
    &&& after == before.step(TrickleEvent::Found { json, remote_known, taken })
    &&& if remote_known {
        outcome is Sent || outcome is SignallingClosed
    } else {
        outcome is Stored
    }
}

/// What becomes of a candidate that was found, and of the trickle: one that cannot be handed
/// over is dropped; the JSON of any other is dispatched, and reads as this very candidate.
pub open spec fn offered(
    before: TrickleModel,
    init: Option<CandidateInitView>,
    remote_known: bool,
    outcome: CandidateOutcome,
    after: TrickleModel,
) -> bool {
    match init {
        None => outcome is Invalid && after == before,
        Some(init) => {
            &&& survives_json(init)
            &&& dispatched(before, candidate_json(init), remote_known, outcome, after)
        },
    }
}

/// What becomes of the ICE agent's report, and of the trickle.
pub open spec fn reported(
    before: TrickleModel,
    candidate: Option<IceCandidate>,
    connection: ConnectionStatus,
    outcome: CandidateOutcome,
    after: TrickleModel,
) -> bool {
    match candidate {
        None => outcome is NoCandidate && after == before,
        Some(c) => match connection {
            ConnectionStatus::Gone => outcome is ConnectionGone && after == before,
            _ => {
                &&& offered(before, candidate_init(c@), connection is RemoteKnown, outcome, after)
                &&& !c@.has_known_type() || !c@.has_priority() ==> outcome is Invalid
            },
        },
    }
}

/// Sends the candidates of the local ICE agent to one peer.
pub struct CandidateTrickle {
    pub signal_peer: SignalPeer,
    /// The candidates kept back, as JSON, in the order in which they were found.
    pub pending: Vec<String>,
}

impl CandidateTrickle {
    pub open spec fn model(&self) -> TrickleModel {
        TrickleModel {
            receiver: self.signal_peer.id@,
            pending: texts(self.pending@),
            tried: self.signal_peer.tried(),
        }
    }

    /// A trickle to `signal_peer` that keeps nothing back yet.
    pub fn new(signal_peer: SignalPeer) -> (res: Self)
        ensures
            res.signal_peer == signal_peer,
            res.pending@ == Seq::<String>::empty(),
            res.model().pending == Seq::<Seq<char>>::empty(),
    {
        assert(texts(Seq::<String>::empty()) =~= Seq::<Seq<char>>::empty());
        CandidateTrickle { signal_peer, pending: Vec::new() }
    }

    /// The ICE agent's report, whatever it is: a candidate, or that there are no more. There is
    /// no outcome, and nothing is done, where handing the candidate over would overflow.
    pub fn on_any_ice_candidate(
        &mut self,
        candidate: Option<IceCandidate>,
        connection: ConnectionStatus,
    ) -> (res: Option<CandidateOutcome>)
        ensures
            res is None <==> (candidate matches Some(c) && !(connection is Gone)
                && c@.overflows()),
            res is None ==> (candidate matches Some(c) && c.priority == 0 && c.component > 256),
            res is None ==> final(self).pending@ == old(self).pending@
                && final(self).signal_peer == old(self).signal_peer,
            match res {
                None => final(self).model() == old(self).model(),
                Some(outcome) => reported(
                    old(self).model(),
                    candidate,
                    connection,
                    outcome,
                    final(self).model(),
                ),
            },
    {
        if let Some(c) = &candidate {
            if !matches!(connection, ConnectionStatus::Gone) && c.overflows() {
                return None;
            }
        }
        Some(self.on_ice_candidate(candidate, connection))
    }

    /// The ICE agent's report: a candidate, or that there are no more.
    pub fn on_ice_candidate(
        &mut self,
        candidate: Option<IceCandidate>,
        connection: ConnectionStatus,
    ) -> (res: CandidateOutcome)
        requires
            candidate matches Some(c) ==> connection is Gone || !c@.overflows(),
        ensures
            reported(old(self).model(), candidate, connection, res, final(self).model()),
    {
        match candidate {
            None => CandidateOutcome::NoCandidate,
            Some(candidate) => match connection {
                ConnectionStatus::Gone => CandidateOutcome::ConnectionGone,
                ConnectionStatus::AwaitingRemote => self.on_local_candidate(candidate, false),
                ConnectionStatus::RemoteKnown => self.on_local_candidate(candidate, true),
            },
        }
    }

    /// Sends a candidate that the local ICE agent has found, or keeps it back while the
    /// remote description is not known.
    pub fn on_local_candidate(&mut self, candidate: IceCandidate, remote_known: bool) -> (res:
        CandidateOutcome)
        requires
            !candidate@.overflows(),
        ensures
            offered(
                old(self).model(),
                candidate_init(candidate@),
                remote_known,
                res,
                final(self).model(),
            ),
            !candidate@.has_known_type() || !candidate@.has_priority() ==> res is Invalid,
    {
        let init = to_init(candidate);
        self.on_candidate_init(init, remote_known)
    }

    /// The same for a candidate in the form in which it is handed over, or for the reason
    /// why it has none.
    pub fn on_candidate_init(
        &mut self,
        init: Result<CandidateInit, webrtc::Error>,
        remote_known: bool,
    ) -> (res: CandidateOutcome)
        ensures
            match init {
                Ok(i) => offered(
                    old(self).model(),
                    Some(i@),
                    remote_known,
                    res,
                    final(self).model(),
                ),
                Err(error) => res == CandidateOutcome::Invalid(error) && final(self).model()
                    == old(self).model(),
            },
    {
        match init {
            Err(error) => CandidateOutcome::Invalid(error),
            Ok(init) => {
                let json = to_json(init).unwrap();
                self.on_candidate_json(json, remote_known)
            },
        }
    }

    /// The same for a candidate in the form in which it travels.
    pub fn on_candidate_json(&mut self, json: String, remote_known: bool) -> (res:
        CandidateOutcome)
        ensures
            dispatched(old(self).model(), json@, remote_known, res, final(self).model()),
            final(self).signal_peer.id == old(self).signal_peer.id,
            remote_known ==> {
                let before = old(self).signal_peer.outbox.tried();
                let after = final(self).signal_peer.outbox.tried();
                &&& res is Sent || res is SignallingClosed
                &&& final(self).pending@ == old(self).pending@
                &&& after.len() == before.len() + 1
                &&& after.drop_last() == before
                &&& after.last().0.receiver@ == old(self).signal_peer.id@
                &&& after.last().0.data == PeerSignal::IceCandidate(json)
                &&& after.last().1 == (res is Sent)
            },
            !remote_known ==> {
                &&& res is Stored
                &&& final(self).pending@ == old(self).pending@.push(json)
                &&& final(self).signal_peer == old(self).signal_peer
            },
    {
        if remote_known {
            match self.signal_peer.send(PeerSignal::IceCandidate(json)) {
                Ok(()) => CandidateOutcome::Sent,
                Err(_) => CandidateOutcome::SignallingClosed,
            }
        } else {
            let ghost before = texts(self.pending@);
            self.pending.push(json);
            assert(texts(self.pending@) =~= before.push(json@));
            CandidateOutcome::Stored
        }
    }

    /// Sends the candidates that were kept back, in the order in which they were found. The
    /// first request that the queue refuses is the last one tried, and what is left is lost.
    pub fn send_pending_candidates(&mut self) -> (res: Result<(), SignallingClosed>)
        ensures
            match res {
                Ok(_) => final(self).model() == old(self).model().step(
                    TrickleEvent::Flush { accepts: old(self).model().pending.len() },
                ),
                Err(_) => exists|n: nat|
                    n < old(self).model().pending.len() && final(self).model()
                        == #[trigger] old(self).model().step(TrickleEvent::Flush { accepts: n }),
            },
            final(self).signal_peer.id == old(self).signal_peer.id,
            final(self).pending@ == Seq::<String>::empty(),
            ({
                let kept = old(self).pending@;
                let before = old(self).signal_peer.outbox.tried();
                let after = final(self).signal_peer.outbox.tried();
                let count = after.len() - before.len();
                &&& 0 <= count <= kept.len()
                &&& after.take(before.len() as int) == before
                &&& res is Ok ==> count == kept.len()
                &&& res is Err ==> count > 0
                &&& forall|i: int|
                    0 <= i < count ==> {
                        let attempt = #[trigger] after[before.len() + i];
                        &&& attempt.0.receiver@ == old(self).signal_peer.id@
                        &&& attempt.0.data == PeerSignal::IceCandidate(kept[i])
                        &&& attempt.1 <==> (res is Ok || i < count - 1)
                    }
            }),
    {
        let ghost before = self.model();
        let ghost earlier = self.signal_peer.outbox.tried();
        let mut pending: Vec<String> = Vec::new();
        std::mem::swap(&mut pending, &mut self.pending);
        assert(texts(self.pending@) =~= Seq::<Seq<char>>::empty());
        let ghost requests = candidate_requests(before.receiver, before.pending);
        assert(before.tried + all_taken(requests.take(0)) =~= before.tried);
        for json in it: pending
            invariant
                it.seq() == pending@,
                before == old(self).model(),
                before.pending == texts(pending@),
                requests == candidate_requests(before.receiver, before.pending),
                self.signal_peer.id == old(self).signal_peer.id,
                self.pending@ == Seq::<String>::empty(),
                texts(self.pending@) == Seq::<Seq<char>>::empty(),
                pending@ == old(self).pending@,
                earlier == old(self).signal_peer.outbox.tried(),
                self.signal_peer.outbox.tried().len() == earlier.len() + it.index(),
                self.signal_peer.outbox.tried().take(earlier.len() as int) == earlier,
                forall|i: int|
                    0 <= i < it.index() ==> {
                        let attempt = #[trigger] self.signal_peer.outbox.tried()[earlier.len() + i];
                        &&& attempt.0.receiver@ == old(self).signal_peer.id@
                        &&& attempt.0.data == PeerSignal::IceCandidate(pending@[i])
                        &&& attempt.1
                    },
                self.signal_peer.tried() == before.tried + all_taken(
                    requests.take(it.index() as int),
                ),
        {
            let ghost n = it.index() as nat;
            let ghost so_far = self.signal_peer.outbox.tried();
            assert(requests[n as int] == candidate_request(before.receiver, json@));
            if self.signal_peer.send(PeerSignal::IceCandidate(json)).is_err() {
                assert(self.signal_peer.tried() =~= before.tried + attempts_until_refused(
                    requests,
                    n,
                ));
                assert(self.model() == before.step(TrickleEvent::Flush { accepts: n }));
                proof {
                    one_more_handed_over(so_far, self.signal_peer.outbox.tried(), earlier);
                }
                return Err(SignallingClosed);
            }
            assert(self.signal_peer.tried() =~= before.tried + all_taken(
                requests.take(n as int + 1),
            ));
            proof {
                one_more_handed_over(so_far, self.signal_peer.outbox.tried(), earlier);
            }
        }
        assert(requests.take(requests.len() as int) =~= requests);
        Ok(())
    }
}

/// One more attempt leaves those before it as they are.
proof fn one_more_handed_over(
    before: Seq<(PeerRequest, bool)>,
    after: Seq<(PeerRequest, bool)>,
    earlier: Seq<(PeerRequest, bool)>,
)
    requires
        after.len() == before.len() + 1,
        after.drop_last() == before,
        earlier.len() <= before.len(),
        before.take(earlier.len() as int) == earlier,
    ensures
        after.take(earlier.len() as int) == earlier,
        forall|i: int| 0 <= i < before.len() ==> #[trigger] after[i] == before[i],
        after[before.len() as int] == after.last(),
{
    assert forall|i: int| 0 <= i < before.len() implies #[trigger] after[i] == before[i] by {
        assert(after.drop_last()[i] == before[i]);
    }
    assert(after.take(earlier.len() as int) =~= before.take(earlier.len() as int));
}

impl TrickleModel {
    /// What a course of events leaves.
    pub open spec fn run(self, events: Seq<TrickleEvent>) -> TrickleModel
        decreases events.len(),
    {
        if events.len() == 0 {
            self
        } else {
            self.run(events.drop_last()).step(events.last())
        }
    }

    /// The candidates that an event leaves behind for good: those after the first one that is
    /// refused as they are flushed.
    pub open spec fn given_up(self, event: TrickleEvent) -> Seq<Seq<char>> {
        match event {
            TrickleEvent::Flush { accepts } => if accepts < self.pending.len() {
                self.pending.skip(accepts as int + 1)
            } else {
                Seq::empty()
            },
            TrickleEvent::Found { .. } => Seq::empty(),
        }
    }

    /// The candidates that a course of events leaves behind for good, first to last.
    pub open spec fn lost(self, events: Seq<TrickleEvent>) -> Seq<Seq<char>>
        decreases events.len(),
    {
        if events.len() == 0 {
            Seq::empty()
        } else {
            let rest = events.drop_last();
            self.lost(rest) + self.run(rest).given_up(events.last())
        }
    }
}

/// The candidates found in a course of events, first to last.
pub open spec fn found(events: Seq<TrickleEvent>) -> Seq<Seq<char>>
    decreases events.len(),
{
    if events.len() == 0 {
        Seq::empty()
    } else {
        match events.last() {
            TrickleEvent::Found { json, .. } => found(events.drop_last()).push(json),
            TrickleEvent::Flush { .. } => found(events.drop_last()),
        }
    }
}

/// The requests among attempts, whether they were taken or not.
pub open spec fn requests_of(tried: Seq<(PeerRequestView, bool)>) -> Seq<PeerRequestView> {
    tried.map_values(|attempt: (PeerRequestView, bool)| attempt.0)
}

/// Whether the remote description stays unknown and nothing is flushed.
pub open spec fn remote_unknown_throughout(events: Seq<TrickleEvent>) -> bool {
    forall|i: int|
        0 <= i < events.len() ==> (#[trigger] events[i] matches TrickleEvent::Found {
            remote_known,
            ..
        } && !remote_known)
}

/// Whether the remote description is known throughout and nothing is flushed.
pub open spec fn remote_known_throughout(events: Seq<TrickleEvent>) -> bool {
    forall|i: int|
        0 <= i < events.len() ==> (#[trigger] events[i] matches TrickleEvent::Found {
            remote_known,
            ..
        } && remote_known)
}

/// Whether the queue takes the request of each candidate that is found.
pub open spec fn found_are_taken(events: Seq<TrickleEvent>) -> bool {
    forall|i: int|
        0 <= i < events.len() ==> (#[trigger] events[i] matches TrickleEvent::Found { taken, .. }
            ==> taken)
}

/// The attempts at sending each candidate as it is found.
pub open spec fn attempts_as_found(receiver: Seq<char>, events: Seq<TrickleEvent>) -> Seq<
    (PeerRequestView, bool),
>
    decreases events.len(),
{
    if events.len() == 0 {
        Seq::empty()
    } else {
        match events.last() {
            TrickleEvent::Found { json, taken, .. } => attempts_as_found(
                receiver,
                events.drop_last(),
            ).push((candidate_request(receiver, json), taken)),
            TrickleEvent::Flush { .. } => attempts_as_found(receiver, events.drop_last()),
        }
    }
}

/// No candidate vanishes, is tried twice or is made up: in every course of events, what was
/// tried, what is kept back and what was left behind by a flush that was refused are together
/// what there was at the start and what was found, each as often as it was.
pub proof fn law_candidates_are_conserved(start: TrickleModel, events: Seq<TrickleEvent>)
    ensures
        start.run(events).receiver == start.receiver,
        ({
            let to = start.receiver;
            let end = start.run(events);
            requests_of(end.tried).to_multiset().add(
                candidate_requests(to, end.pending).to_multiset(),
            ).add(candidate_requests(to, start.lost(events)).to_multiset()) == requests_of(
                start.tried,
            ).to_multiset().add(candidate_requests(to, start.pending).to_multiset()).add(
                candidate_requests(to, found(events)).to_multiset(),
            )
        }),
    decreases events.len(),
{
    broadcast use vstd::seq_lib::group_to_multiset_ensures;

    let to = start.receiver;
    let none = Seq::<PeerRequestView>::empty();
    if events.len() == 0 {
        assert(candidate_requests(to, found(events)) =~= none);
        assert(candidate_requests(to, start.lost(events)) =~= none);
    } else {
        let rest = events.drop_last();
        let mid = start.run(rest);
        let end = start.run(events);
        law_candidates_are_conserved(start, rest);
        let kept = candidate_requests(to, mid.pending);
        let lost = candidate_requests(to, start.lost(rest));
        let at_start = requests_of(start.tried).to_multiset().add(
            candidate_requests(to, start.pending).to_multiset(),
        );
        let at_mid = requests_of(mid.tried).to_multiset().add(kept.to_multiset()).add(
            lost.to_multiset(),
        );
        let at_end = requests_of(end.tried).to_multiset().add(
            candidate_requests(to, end.pending).to_multiset(),
        ).add(candidate_requests(to, start.lost(events)).to_multiset());
        match events.last() {
            TrickleEvent::Found { json, remote_known, .. } => {
                let request = candidate_request(to, json);
                assert(candidate_requests(to, start.lost(events)) =~= lost);
                assert(candidate_requests(to, found(events)) =~= candidate_requests(
                    to,
                    found(rest),
                ).push(request));
                if remote_known {
                    assert(requests_of(end.tried) =~= requests_of(mid.tried).push(request));
                } else {
                    assert(candidate_requests(to, end.pending) =~= kept.push(request));
                }
                assert(at_end =~= at_mid.insert(request));
            },
            TrickleEvent::Flush { accepts } => {
                let given_up = candidate_requests(to, mid.given_up(events.last()));
                let attempted = requests_of(attempts_until_refused(kept, accepts));
                assert(kept =~= attempted + given_up);
                assert(requests_of(end.tried) =~= requests_of(mid.tried) + attempted);
                assert(candidate_requests(to, start.lost(events)) =~= lost + given_up);
                vstd::seq_lib::lemma_multiset_commutative(attempted, given_up);
                vstd::seq_lib::lemma_multiset_commutative(requests_of(mid.tried), attempted);
                vstd::seq_lib::lemma_multiset_commutative(lost, given_up);
                assert(candidate_requests(to, end.pending) =~= none);
                assert(at_end =~= at_mid);
            },
        }
        assert(at_end =~= at_start.add(candidate_requests(to, found(events)).to_multiset()));
    }
}

/// Whether every text reads as a candidate.
pub open spec fn all_readable(jsons: Seq<Seq<char>>) -> bool {
    forall|i: int| 0 <= i < jsons.len() ==> candidate_from_json(#[trigger] jsons[i]) is Some
}

/// Whether a request carries a candidate that can be read.
pub open spec fn carries_candidate(request: PeerRequestView) -> bool {
    request.data matches PeerSignalView::IceCandidate(json) && candidate_from_json(json) is Some
}

/// Whether every request carries a candidate that can be read.
pub open spec fn all_carry_candidates(requests: Seq<PeerRequestView>) -> bool {
    forall|i: int| 0 <= i < requests.len() ==> carries_candidate(#[trigger] requests[i])
}

/// Where every candidate that is found can be read by the peer, so can every one that is kept
/// back, tried or sent, in every course of events.
pub proof fn law_what_is_sent_can_be_read(start: TrickleModel, events: Seq<TrickleEvent>)
    requires
        all_readable(start.pending),
        all_carry_candidates(requests_of(start.tried)),
        all_readable(found(events)),
    ensures
        all_readable(start.run(events).pending),
        all_carry_candidates(requests_of(start.run(events).tried)),
        all_carry_candidates(start.run(events).sent()),
    decreases events.len(),
{
    let end = start.run(events);
    if events.len() > 0 {
        let rest = events.drop_last();
        let mid = start.run(rest);
        assert forall|i: int| 0 <= i < found(rest).len() implies candidate_from_json(
            #[trigger] found(rest)[i],
        ) is Some by {
            assert(found(events)[i] == found(rest)[i]);
        }
        law_what_is_sent_can_be_read(start, rest);
        if let TrickleEvent::Found { json, .. } = events.last() {
            assert(found(events)[found(rest).len() as int] == json);
        }
        assert forall|i: int| 0 <= i < end.tried.len() implies carries_candidate(
            #[trigger] requests_of(end.tried)[i],
        ) by {
            if i < mid.tried.len() {
                assert(requests_of(mid.tried)[i] == requests_of(end.tried)[i]);
            }
        }
    }
    assert forall|i: int| 0 <= i < end.sent().len() implies carries_candidate(
        #[trigger] end.sent()[i],
    ) by {
        let request = end.sent()[i];
        law_what_is_sent_was_tried(end.tried, request);
        let j = choose|j: int| 0 <= j < end.tried.len() && end.tried[j] == (request, true);
        assert(requests_of(end.tried)[j] == request);
    }
}

/// While the remote description is unknown and nothing is flushed, nothing is tried, and what
/// is found is kept back in the order in which it was found.
pub proof fn law_nothing_sent_before_the_remote_is_known(
    start: TrickleModel,
    events: Seq<TrickleEvent>,
)
    requires
        remote_unknown_throughout(events),
    ensures
        start.run(events) == (TrickleModel { pending: start.pending + found(events), ..start }),
    decreases events.len(),
{
    if events.len() == 0 {
        assert(start.pending + found(events) =~= start.pending);
    } else {
        let rest = events.drop_last();
        assert(remote_unknown_throughout(rest)) by {
            assert forall|i: int| 0 <= i < rest.len() implies (
            #[trigger] rest[i] matches TrickleEvent::Found { remote_known, .. }
                && !remote_known) by {
                assert(rest[i] == events[i]);
            }
        }
        law_nothing_sent_before_the_remote_is_known(start, rest);
        assert(events.last() == events[events.len() - 1]);
        assert(start.pending + found(events) =~= (start.pending + found(rest)).push(
            found(events).last(),
        ));
    }
}

/// Once the remote description is known, what is found is handed to the queue at once, in the
/// order in which it was found, and nothing more is kept back. It is all sent where the queue
/// takes it.
pub proof fn law_candidates_are_sent_once_the_remote_is_known(
    start: TrickleModel,
    events: Seq<TrickleEvent>,
)
    requires
        remote_known_throughout(events),
    ensures
        start.run(events) == (TrickleModel {
            tried: start.tried + attempts_as_found(start.receiver, events),
            ..start
        }),
        requests_of(attempts_as_found(start.receiver, events)) == candidate_requests(
            start.receiver,
            found(events),
        ),
        found_are_taken(events) ==> start.run(events).sent() == start.sent() + candidate_requests(
            start.receiver,
            found(events),
        ),
    decreases events.len(),
{
    let to = start.receiver;
    candidates_are_attempted_as_found(to, events);
    law_rounds_of_attempts_add_up(start.tried, attempts_as_found(to, events));
    if events.len() == 0 {
        assert(start.tried + attempts_as_found(to, events) =~= start.tried);
    } else {
        let rest = events.drop_last();
        assert forall|i: int| 0 <= i < rest.len() implies (
        #[trigger] rest[i] matches TrickleEvent::Found { remote_known, .. } && remote_known) by {
            assert(rest[i] == events[i]);
        }
        law_candidates_are_sent_once_the_remote_is_known(start, rest);
        assert(events.last() == events[events.len() - 1]);
        assert(start.tried + attempts_as_found(to, events) =~= (start.tried + attempts_as_found(
            to,
            rest,
        )).push(attempts_as_found(to, events).last()));
    }
}

proof fn candidates_are_attempted_as_found(to: Seq<char>, events: Seq<TrickleEvent>)
    ensures
        requests_of(attempts_as_found(to, events)) == candidate_requests(to, found(events)),
        found_are_taken(events) ==> accepted(attempts_as_found(to, events)) == candidate_requests(
            to,
            found(events),
        ),
    decreases events.len(),
{
    let requests = candidate_requests(to, found(events));
    let attempts = attempts_as_found(to, events);
    if events.len() > 0 {
        let rest = events.drop_last();
        candidates_are_attempted_as_found(to, rest);
        if found_are_taken(events) {
            assert forall|i: int| 0 <= i < rest.len() implies (
            #[trigger] rest[i] matches TrickleEvent::Found { taken, .. } ==> taken) by {
                assert(rest[i] == events[i]);
            }
            assert(events.last() == events[events.len() - 1]);
        }
        if let TrickleEvent::Found { json, taken, .. } = events.last() {
            let request = candidate_request(to, json);
            assert(requests =~= candidate_requests(to, found(rest)).push(request));
            assert(requests_of(attempts) =~= requests_of(attempts_as_found(to, rest)).push(
                request,
            ));
            law_one_more_attempt(attempts_as_found(to, rest), request, taken);
        }
    } else {
        assert(requests =~= Seq::<PeerRequestView>::empty());
        assert(requests_of(attempts) =~= requests);
    }
}

/// Running one course of events and then another is running both as one.
proof fn run_in_parts(start: TrickleModel, first: Seq<TrickleEvent>, second: Seq<TrickleEvent>)
    ensures
        start.run(first + second) == start.run(first).run(second),
    decreases second.len(),
{
    if second.len() == 0 {
        assert(first + second =~= first);
    } else {
        run_in_parts(start, first, second.drop_last());
        assert((first + second).drop_last() =~= first + second.drop_last());
    }
}

/// When the candidates kept back are flushed as the remote description becomes known, every
/// candidate that was found before, up to the first refusal, and then every one that was found
/// after is handed to the queue, in the order in which they were found, and none is kept back.
/// Where the queue takes what it is handed, the peer is sent every one of them, in that order.
pub proof fn law_every_candidate_is_sent_in_order(
    start: TrickleModel,
    before: Seq<TrickleEvent>,
    accepts: nat,
    after: Seq<TrickleEvent>,
)
    requires
        start.pending.len() == 0,
        remote_unknown_throughout(before),
        remote_known_throughout(after),
    ensures
        ({
            let to = start.receiver;
            let kept = candidate_requests(to, found(before));
            let end = start.run(before.push(TrickleEvent::Flush { accepts }) + after);
            &&& end == (TrickleModel {
                tried: start.tried + attempts_until_refused(kept, accepts) + attempts_as_found(
                    to,
                    after,
                ),
                ..start
            })
            &&& accepts >= found(before).len() && found_are_taken(after) ==> end.sent()
                == start.sent() + candidate_requests(to, found(before) + found(after))
        }),
{
    let to = start.receiver;
    let kept = candidate_requests(to, found(before));
    let flushed = before.push(TrickleEvent::Flush { accepts });
    run_in_parts(start, flushed, after);
    law_nothing_sent_before_the_remote_is_known(start, before);
    assert(flushed.drop_last() =~= before);
    assert(start.pending + found(before) =~= found(before));
    assert(start.pending =~= Seq::<Seq<char>>::empty());
    law_candidates_are_sent_once_the_remote_is_known(start.run(flushed), after);
    law_rounds_of_attempts_add_up(start.tried, attempts_until_refused(kept, accepts));
    law_what_is_always_taken_is_sent(kept);
    assert(start.sent() + kept + candidate_requests(to, found(after)) =~= start.sent()
        + candidate_requests(to, found(before) + found(after)));
}

/// When the candidates kept back are flushed only after others were found with the remote
/// description known, those others are handed to the queue first, in the order in which they
/// were found, and then those that were kept back, in their order and up to the first refusal;
/// none is kept back any more. Where the queue takes what it is handed, every candidate is sent
/// exactly once.
pub proof fn law_a_flush_sends_what_was_kept_back(
    start: TrickleModel,
    before: Seq<TrickleEvent>,
    after: Seq<TrickleEvent>,
    accepts: nat,
)
    requires
        start.pending.len() == 0,
        remote_unknown_throughout(before),
        remote_known_throughout(after),
    ensures
        ({
            let to = start.receiver;
            let kept = candidate_requests(to, found(before));
            let unflushed = start.run(before + after);
            let end = start.run((before + after).push(TrickleEvent::Flush { accepts }));
            &&& unflushed == (TrickleModel {
                pending: found(before),
                tried: start.tried + attempts_as_found(to, after),
                ..start
            })
            &&& end == (TrickleModel {
                tried: start.tried + attempts_as_found(to, after) + attempts_until_refused(
                    kept,
                    accepts,
                ),
                ..start
            })
            &&& found_are_taken(after) ==> unflushed.sent() == start.sent() + candidate_requests(
                to,
                found(after),
            )
            &&& found_are_taken(after) && accepts >= found(before).len() ==> end.sent()
                == start.sent() + candidate_requests(to, found(after)) + kept
        }),
{
    let to = start.receiver;
    let kept = candidate_requests(to, found(before));
    let events = (before + after).push(TrickleEvent::Flush { accepts });
    run_in_parts(start, before, after);
    law_nothing_sent_before_the_remote_is_known(start, before);
    assert(start.pending + found(before) =~= found(before));
    assert(start.pending =~= Seq::<Seq<char>>::empty());
    law_candidates_are_sent_once_the_remote_is_known(start.run(before), after);
    assert(events.drop_last() =~= before + after);
    law_rounds_of_attempts_add_up(
        start.tried + attempts_as_found(to, after),
        attempts_until_refused(kept, accepts),
    );
    law_what_is_always_taken_is_sent(kept);
}

/// A flush leaves nothing to flush, whether or not it is refused on the way.
pub proof fn law_flush_is_idempotent(start: TrickleModel, accepts: nat, again: nat)
    ensures
        start.step(TrickleEvent::Flush { accepts }).step(TrickleEvent::Flush { accepts: again })
            == start.step(TrickleEvent::Flush { accepts }),
{
    let once = start.step(TrickleEvent::Flush { accepts });
    assert(once.tried + attempts_until_refused(
        candidate_requests(once.receiver, once.pending),
        again,
    ) =~= once.tried);
}

/// The request for a candidate goes to the peer itself and carries the very text of the candidate;
/// there is one for each candidate, in the same order.
pub proof fn law_candidate_requests_carry_the_candidates(
    receiver: Seq<char>,
    jsons: Seq<Seq<char>>,
)
    ensures
        candidate_requests(receiver, jsons).len() == jsons.len(),
        forall|i: int|
            0 <= i < jsons.len() ==> {
                let request = #[trigger] candidate_requests(receiver, jsons)[i];
                &&& request == candidate_request(receiver, jsons[i])
                &&& request.receiver == receiver
                &&& request.data == PeerSignalView::IceCandidate(jsons[i])
            },
{
}

/// Requests are tried in order, each once, up to the first that is refused, and that one is the
/// last: as many are taken as the queue accepts, and no more.
pub proof fn law_attempts_stop_at_the_first_refusal(requests: Seq<PeerRequestView>, accepts: nat)
    ensures
        ({
            let attempts = attempts_until_refused(requests, accepts);
            &&& accepts < requests.len() ==> attempts.len() == accepts + 1
            &&& accepts >= requests.len() ==> attempts.len() == requests.len()
            &&& forall|i: int|
                0 <= i < attempts.len() ==> (#[trigger] attempts[i]).0 == requests[i] && (
                attempts[i].1 <==> i < accepts)
        }),
{
}

/// A candidate that is found is either tried or kept back, never both and never neither: where the
/// remote description is known, one attempt is made to send its text to the peer, and nothing else
/// changes; where it is not, its text is kept back behind all others, and nothing else changes.
pub proof fn law_a_found_candidate_is_tried_or_kept_back(
    before: TrickleModel,
    json: Seq<char>,
    taken: bool,
)
    ensures
        ({
            let after = before.step(TrickleEvent::Found { json, remote_known: true, taken });
            &&& after.receiver == before.receiver
            &&& after.pending == before.pending
            &&& after.tried.len() == before.tried.len() + 1
            &&& after.tried.drop_last() == before.tried
            &&& after.tried.last().0.receiver == before.receiver
            &&& after.tried.last().0.data == PeerSignalView::IceCandidate(json)
            &&& after.tried.last().1 == taken
        }),
        ({
            let after = before.step(TrickleEvent::Found { json, remote_known: false, taken });
            &&& after.receiver == before.receiver
            &&& after.tried == before.tried
            &&& after.pending.len() == before.pending.len() + 1
            &&& after.pending.drop_last() == before.pending
            &&& after.pending.last() == json
        }),
{
    let request = candidate_request(before.receiver, json);
    assert(before.tried.push((request, taken)).drop_last() =~= before.tried);
    assert(before.pending.push(json).drop_last() =~= before.pending);
}

/// A flush keeps nothing back. It tries what was kept back, oldest first and each text unchanged,
/// and behind all that was tried before.
pub proof fn law_a_flush_tries_what_is_kept_back(before: TrickleModel, accepts: nat)
    ensures
        ({
            let after = before.step(TrickleEvent::Flush { accepts });
            let count = after.tried.len() - before.tried.len();
            &&& after.receiver == before.receiver
            &&& after.pending.len() == 0
            &&& accepts >= before.pending.len() ==> count == before.pending.len()
            &&& accepts < before.pending.len() ==> count == accepts + 1
            &&& after.tried.take(before.tried.len() as int) == before.tried
            &&& forall|i: int|
                0 <= i < count ==> {
                    let attempt = #[trigger] after.tried[before.tried.len() + i];
                    &&& attempt.0.receiver == before.receiver
                    &&& attempt.0.data == PeerSignalView::IceCandidate(before.pending[i])
                    &&& attempt.1 <==> i < accepts
                }
        }),
{
    let requests = candidate_requests(before.receiver, before.pending);
    let after = before.step(TrickleEvent::Flush { accepts });
    law_attempts_stop_at_the_first_refusal(requests, accepts);
    assert(after.tried.take(before.tried.len() as int) =~= before.tried);
    assert forall|i: int| 0 <= i < after.tried.len() - before.tried.len() implies ({
        let attempt = #[trigger] after.tried[before.tried.len() + i];
        &&& attempt.0.receiver == before.receiver
        &&& attempt.0.data == PeerSignalView::IceCandidate(before.pending[i])
        &&& attempt.1 <==> i < accepts
    }) by {
        assert(after.tried[before.tried.len() + i] == attempts_until_refused(
            requests,
            accepts,
        )[i]);
    }
}

/// What becomes of a candidate follows from whether the remote description is known: its text is
/// tried or kept back, and the outcome tells which, and how the queue answered.
pub proof fn law_the_outcome_tells_what_was_done(
    before: TrickleModel,
    json: Seq<char>,
    remote_known: bool,
    outcome: CandidateOutcome,
    after: TrickleModel,
)
    requires
        dispatched(before, json, remote_known, outcome, after),
    ensures
        remote_known ==> {
            &&& outcome is Sent || outcome is SignallingClosed
            &&& after.receiver == before.receiver
            &&& after.pending == before.pending
            &&& after.tried.len() == before.tried.len() + 1
            &&& after.tried.last().0.receiver == before.receiver
            &&& after.tried.last().0.data == PeerSignalView::IceCandidate(json)
            &&& after.tried.last().1 == (outcome is Sent)
        },
        !remote_known ==> {
            &&& outcome is Stored
            &&& after.receiver == before.receiver
            &&& after.tried == before.tried
            &&& after.pending == before.pending.push(json)
        },
{
}

/// A candidate that can be handed over reaches the peer, or is kept back to reach it, as the text
/// that reads as this very candidate; only one that cannot be handed over is dropped, and then
/// nothing changes.
pub proof fn law_only_what_cannot_be_handed_over_is_dropped(
    before: TrickleModel,
    init: Option<CandidateInitView>,
    remote_known: bool,
    outcome: CandidateOutcome,
    after: TrickleModel,
)
    requires
        offered(before, init, remote_known, outcome, after),
    ensures
        outcome is Invalid <==> init is None,
        init is None ==> after == before,
        init matches Some(i) ==> {
            &&& candidate_from_json(candidate_json(i)) == Some(i)
            &&& remote_known ==> {
                &&& outcome is Sent || outcome is SignallingClosed
                &&& after.pending == before.pending
                &&& after.tried.len() == before.tried.len() + 1
                &&& after.tried.last().0.receiver == before.receiver
                &&& after.tried.last().0.data == PeerSignalView::IceCandidate(candidate_json(i))
                &&& after.tried.last().1 == (outcome is Sent)
            }
            &&& !remote_known ==> {
                &&& outcome is Stored
                &&& after.tried == before.tried
                &&& after.pending == before.pending.push(candidate_json(i))
            }
        },
{
}

/// What is reported while the connection is there depends on the candidate and on whether the
/// remote description is known, and on nothing else: a candidate that can be written as an
/// attribute is tried or kept back with that attribute, whatever its type.
pub proof fn law_every_candidate_that_can_be_written_is_dealt_with(
    before: TrickleModel,
    candidate: IceCandidate,
    connection: ConnectionStatus,
    outcome: CandidateOutcome,
    after: TrickleModel,
)
    requires
        reported(before, Some(candidate), connection, outcome, after),
    ensures
        outcome is ConnectionGone <==> connection is Gone,
        !(outcome is NoCandidate),
        connection is Gone ==> after == before,
        !(connection is Gone) && marshalled_candidate(candidate@) is None ==> outcome is Invalid
            && after == before,
        !(connection is Gone) ==> (marshalled_candidate(candidate@) matches Some(attribute) ==> {
            let json = candidate_json(
                CandidateInitView {
                    candidate: "candidate:"@ + attribute,
                    sdp_mid: Some(Seq::empty()),
                    sdp_mline_index: Some(0),
                    username_fragment: None,
                },
            );
            &&& connection is RemoteKnown ==> {
                &&& outcome is Sent || outcome is SignallingClosed
                &&& after.pending == before.pending
                &&& after.tried.len() == before.tried.len() + 1
                &&& after.tried.last().0.receiver == before.receiver
                &&& after.tried.last().0.data == PeerSignalView::IceCandidate(json)
                &&& after.tried.last().1 == (outcome is Sent)
            }
            &&& connection is AwaitingRemote ==> {
                &&& outcome is Stored
                &&& after.tried == before.tried
                &&& after.pending == before.pending.push(json)
            }
        }),
{
}

/// The end of the candidates changes nothing.
pub proof fn law_the_end_of_candidates_changes_nothing(
    before: TrickleModel,
    connection: ConnectionStatus,
    outcome: CandidateOutcome,
    after: TrickleModel,
)
    requires
        reported(before, None, connection, outcome, after),
    ensures
        outcome is NoCandidate,
        after == before,
{
}

/// A trickle is seen as it is: its peer, what it keeps back, and what it has tried.
pub proof fn law_trickles_are_seen_whole(trickle: CandidateTrickle)
    ensures
        trickle.model().receiver == trickle.signal_peer.id@,
        trickle.model().pending.len() == trickle.pending@.len(),
        forall|i: int|
            0 <= i < trickle.pending@.len() ==> #[trigger] trickle.model().pending[i]
                == trickle.pending@[i]@,
        trickle.model().tried == trickle.signal_peer.tried(),
{
}

} // verus!
