//! Listening: the candidates that the peer sends are handed to the local ICE agent.
use vstd::prelude::*;

use crate::candidate::{
    candidate_from_json, candidate_json, from_json, CandidateInit, CandidateInitView,
};
use crate::messages::{PeerSignal, PeerSignalView};
use crate::trickle::survives_json;

verus! {

/// Why a signal is passed over.
#[derive(Debug, PartialEq, Eq, Clone, Copy)]
pub enum Ignored {
    /// It is an offer, and none was due.
    UnexpectedOffer,
    /// It is an answer, and none was due.
    UnexpectedAnswer,
    /// Its text does not read as a candidate.
    UnreadableCandidate,
}

/// What a listener is told.
#[derive(Debug)]
pub enum ListenEvent {
    /// The peer's next signal; `None` once there will be no more.
    Signal(Option<PeerSignal>),
    /// What the ICE agent said to the candidate that it was handed.
    Added(Result<(), webrtc::Error>),
}

/// What a listener does next.
#[derive(Debug)]
pub enum ListenAction {
    /// Hand this candidate to the ICE agent.
    AddCandidate(CandidateInit),
    /// Pass the signal over, and wait for the next one.
    Ignore(Ignored),
    /// Wait for the next signal.
    AwaitSignal,
    /// Stop listening.
    Finish(Result<(), webrtc::Error>),
}

/// The candidate that a signal carries, if it carries one that can be read.
pub open spec fn candidate_in(signal: PeerSignalView) -> Option<CandidateInitView> {
    match signal {
        PeerSignalView::IceCandidate(json) => candidate_from_json(json),
        _ => None,
    }
}

/// What a listener is told, with texts as sequences of characters.
pub enum ListenEventView {
    Signal(Option<PeerSignalView>),
    Added(Result<(), webrtc::Error>),
}

impl View for ListenEvent {
    type V = ListenEventView;

    open spec fn view(&self) -> ListenEventView {
        match self {
            ListenEvent::Signal(Some(signal)) => ListenEventView::Signal(Some(signal@)),
            ListenEvent::Signal(None) => ListenEventView::Signal(None),
            ListenEvent::Added(result) => ListenEventView::Added(*result),
        }
    }
}

/// What a listener does next, with texts as sequences of characters.
pub enum ListenActionView {
    AddCandidate(CandidateInitView),
    Ignore(Ignored),
    AwaitSignal,
    Finish(Result<(), webrtc::Error>),
}

impl View for ListenAction {
    type V = ListenActionView;

    open spec fn view(&self) -> ListenActionView {
        match self {
            ListenAction::AddCandidate(init) => ListenActionView::AddCandidate(init@),
            ListenAction::Ignore(why) => ListenActionView::Ignore(*why),
            ListenAction::AwaitSignal => ListenActionView::AwaitSignal,
            ListenAction::Finish(result) => ListenActionView::Finish(*result),
        }
    }
}

/// What follows from an event: each candidate that can be read is handed to the ICE agent,
/// any other signal is passed over. Listening ends when there are no more signals, without an
/// error, and when the ICE agent refuses a candidate, with its error.
pub open spec fn listen_action(event: ListenEventView) -> ListenActionView {
    match event {
        ListenEventView::Signal(Some(signal)) => match candidate_in(signal) {
            Some(candidate) => ListenActionView::AddCandidate(candidate),
            None => ListenActionView::Ignore(
                match signal {
                    PeerSignalView::Offer(_) => Ignored::UnexpectedOffer,
                    PeerSignalView::Answer(_) => Ignored::UnexpectedAnswer,
                    PeerSignalView::IceCandidate(_) => Ignored::UnreadableCandidate,
                },
            ),
        },
        ListenEventView::Signal(None) => ListenActionView::Finish(Ok(())),
        ListenEventView::Added(Ok(_)) => ListenActionView::AwaitSignal,
        ListenEventView::Added(Err(error)) => ListenActionView::Finish(Err(error)),
    }
}

/// Listens for the peer's candidates. Where the ICE agent refuses one, its error is what the
/// listening ends with.
pub fn listen_for_remote_candidates(event: ListenEvent) -> (res: ListenAction)
    ensures
        res@ == listen_action(event@),
        match event {
            ListenEvent::Signal(Some(PeerSignal::IceCandidate(json))) => match candidate_from_json(
                json@,
            ) {
                Some(read) => res matches ListenAction::AddCandidate(init) && init@ == read,
                None => res == ListenAction::Ignore(Ignored::UnreadableCandidate),
            },
            ListenEvent::Signal(Some(PeerSignal::Offer(_))) => res == ListenAction::Ignore(
                Ignored::UnexpectedOffer,
            ),
            ListenEvent::Signal(Some(PeerSignal::Answer(_))) => res == ListenAction::Ignore(
                Ignored::UnexpectedAnswer,
            ),
            ListenEvent::Signal(None) => res == ListenAction::Finish(Ok(())),
            ListenEvent::Added(Ok(_)) => res is AwaitSignal,
            ListenEvent::Added(Err(error)) => res == ListenAction::Finish(Err(error)),
        },
{
    match event {
        ListenEvent::Signal(None) => ListenAction::Finish(Ok(())),
        ListenEvent::Signal(Some(signal)) => match signal {
            PeerSignal::IceCandidate(json) => on_candidate_read(from_json(json.as_str())),
            PeerSignal::Offer(_) => ListenAction::Ignore(Ignored::UnexpectedOffer),
            PeerSignal::Answer(_) => ListenAction::Ignore(Ignored::UnexpectedAnswer),
        },
        ListenEvent::Added(Ok(())) => ListenAction::AwaitSignal,
        ListenEvent::Added(Err(error)) => ListenAction::Finish(Err(error)),
    }
}

/// What follows from reading a candidate's text: what was read is handed over, a text that
/// cannot be read is passed over.
pub fn on_candidate_read(read: Result<CandidateInit, serde_json::Error>) -> (res: ListenAction)
    ensures
        match read {
            Ok(init) => res == ListenAction::AddCandidate(init),
            Err(_) => res == ListenAction::Ignore(Ignored::UnreadableCandidate),
        },
{
    match read {
        Ok(init) => ListenAction::AddCandidate(init),
        Err(_) => ListenAction::Ignore(Ignored::UnreadableCandidate),
    }
}

/// The candidates that signals carry, first to last.
pub open spec fn candidates_in(signals: Seq<PeerSignalView>) -> Seq<CandidateInitView>
    decreases signals.len(),
{
    if signals.len() == 0 {
        Seq::empty()
    } else {
        match candidate_in(signals.last()) {
            Some(candidate) => candidates_in(signals.drop_last()).push(candidate),
            None => candidates_in(signals.drop_last()),
        }
    }
}

/// How far a listener has come.
pub struct Listening {
    /// The candidates that the ICE agent was handed, first to last.
    pub handed: Seq<CandidateInitView>,
    /// What the listening has ended with; `None` while it goes on.
    pub result: Option<Result<(), webrtc::Error>>,
}

impl Listening {
    /// What one event leaves.
    pub open spec fn step(self, event: ListenEventView) -> Listening {
        if self.result is Some {
            self
        } else {
            match listen_action(event) {
                ListenActionView::AddCandidate(candidate) => Listening {
                    handed: self.handed.push(candidate),
                    ..self
                },
                ListenActionView::Ignore(_) => self,
                ListenActionView::AwaitSignal => self,
                ListenActionView::Finish(result) => Listening { result: Some(result), ..self },
            }
        }
    }
}

/// What events leave of a listener that has just begun.
pub open spec fn listen(events: Seq<ListenEventView>) -> Listening
    decreases events.len(),
{
    if events.len() == 0 {
        Listening { handed: Seq::empty(), result: None }
    } else {
        listen(events.drop_last()).step(events.last())
    }
}

/// What an event ends a listener with, if it is one that does: the end of the signals is a
/// success, and a candidate that the ICE agent refuses is a failure with its error.
pub open spec fn ending(event: ListenEventView) -> Option<Result<(), webrtc::Error>> {
    match event {
        ListenEventView::Signal(None) => Some(Ok(())),
        ListenEventView::Added(Err(error)) => Some(Err(error)),
        _ => None,
    }
}

/// Whether none of the events ends a listener.
pub open spec fn none_ends(events: Seq<ListenEventView>) -> bool {
    forall|i: int| 0 <= i < events.len() ==> ending(#[trigger] events[i]) is None
}

/// The signals among events, first to last.
pub open spec fn signals_in(events: Seq<ListenEventView>) -> Seq<PeerSignalView>
    decreases events.len(),
{
    if events.len() == 0 {
        Seq::empty()
    } else {
        match events.last() {
            ListenEventView::Signal(Some(signal)) => signals_in(events.drop_last()).push(signal),
            _ => signals_in(events.drop_last()),
        }
    }
}

/// The ICE agent is handed the candidates in the order in which they came, none twice and, as
/// long as no event ends the listening, none left out. Neither a text that cannot be read nor an
/// offer or an answer ends it.
pub proof fn law_candidates_are_handed_over_in_order(events: Seq<ListenEventView>)
    ensures
        listen(events).handed.is_prefix_of(candidates_in(signals_in(events))),
        none_ends(events) ==> listen(events) == (Listening {
            handed: candidates_in(signals_in(events)),
            result: None,
        }),
    decreases events.len(),
{
    if events.len() > 0 {
        let rest = events.drop_last();
        law_candidates_are_handed_over_in_order(rest);
        law_a_result_has_its_cause(rest);
        if none_ends(events) {
            assert forall|i: int| 0 <= i < rest.len() implies ending(
                #[trigger] rest[i],
            ) is None by {
                assert(rest[i] == events[i]);
            }
        }
        assert(events[events.len() - 1] == events.last());
        let all = signals_in(events);
        if let ListenEventView::Signal(Some(signal)) = events.last() {
            assert(all.drop_last() =~= signals_in(rest));
            assert(all.last() == signal);
        }
        assert(candidates_in(signals_in(rest)).is_prefix_of(candidates_in(all)));
    }
}

/// The first event that ends the listening says what it ends with, whatever comes after: a
/// success where that is the end of the signals, and otherwise the error with which the ICE
/// agent refused a candidate. The ICE agent was handed the candidates that came before, in their
/// order, and is handed no more.
pub proof fn law_listening_ends_with_the_first_ending(
    before: Seq<ListenEventView>,
    last: ListenEventView,
    after: Seq<ListenEventView>,
)
    requires
        none_ends(before),
        ending(last) is Some,
    ensures
        listen(before.push(last) + after) == (Listening {
            handed: candidates_in(signals_in(before)),
            result: ending(last),
        }),
    decreases after.len(),
{
    let events = before.push(last) + after;
    if after.len() == 0 {
        law_candidates_are_handed_over_in_order(before);
        assert(events =~= before.push(last));
        assert(events.drop_last() =~= before);
    } else {
        law_listening_ends_with_the_first_ending(before, last, after.drop_last());
        assert(events.drop_last() =~= before.push(last) + after.drop_last());
    }
}

/// A listener has ended exactly when an event that ends it has come: with success only if there
/// are no more signals, and with an error only if the ICE agent refused a candidate with it.
pub proof fn law_a_result_has_its_cause(events: Seq<ListenEventView>)
    ensures
        listen(events).result is None <==> none_ends(events),
        listen(events).result matches Some(Ok(_)) ==> events.contains(
            ListenEventView::Signal(None),
        ),
        listen(events).result matches Some(Err(error)) ==> events.contains(
            ListenEventView::Added(Err(error)),
        ),
    decreases events.len(),
{
    if events.len() > 0 {
        let rest = events.drop_last();
        law_a_result_has_its_cause(rest);
        assert(events[events.len() - 1] == events.last());
        assert forall|event: ListenEventView| #[trigger]
            rest.contains(event) implies events.contains(event) by {
            let i = choose|i: int| 0 <= i < rest.len() && rest[i] == event;
            assert(events[i] == event);
        }
        if none_ends(events) {
            assert forall|i: int| 0 <= i < rest.len() implies ending(
                #[trigger] rest[i],
            ) is None by {
                assert(rest[i] == events[i]);
            }
        } else if none_ends(rest) {
            let i = choose|i: int|
                0 <= i < events.len() && ending(#[trigger] events[i]) is Some;
            assert(i < rest.len() ==> rest[i] == events[i]);
        } else {
            let i = choose|i: int| 0 <= i < rest.len() && ending(#[trigger] rest[i]) is Some;
            assert(events[i] == rest[i]);
        }
    }
}

/// A signal that carries no candidate that can be read makes no difference to a listener: an
/// offer, an answer or an unreadable candidate, whenever it comes, leaves it with the same
/// candidates handed over, and with the same result or still listening, as without it.
pub proof fn law_other_signals_make_no_difference(
    before: Seq<ListenEventView>,
    signal: PeerSignalView,
    after: Seq<ListenEventView>,
)
    requires
        candidate_in(signal) is None,
    ensures
        listen(before.push(ListenEventView::Signal(Some(signal))) + after) == listen(
            before + after,
        ),
    decreases after.len(),
{
    let with = before.push(ListenEventView::Signal(Some(signal)));
    if after.len() == 0 {
        assert(with + after =~= with);
        assert(before + after =~= before);
        assert(with.drop_last() =~= before);
    } else {
        law_other_signals_make_no_difference(before, signal, after.drop_last());
        assert((with + after).drop_last() =~= with + after.drop_last());
        assert((before + after).drop_last() =~= before + after.drop_last());
        assert((with + after).last() == after.last());
        assert((before + after).last() == after.last());
    }
}

/// A signal that carries no candidate that can be read adds nothing to the candidates that
/// signals carry.
pub proof fn law_other_signals_carry_nothing(
    before: Seq<PeerSignalView>,
    signal: PeerSignalView,
    after: Seq<PeerSignalView>,
)
    requires
        candidate_in(signal) is None,
    ensures
        candidates_in(before.push(signal) + after) == candidates_in(before + after),
    decreases after.len(),
{
    if after.len() == 0 {
        assert(before.push(signal) + after =~= before.push(signal));
        assert(before + after =~= before);
        assert(before.push(signal).drop_last() =~= before);
    } else {
        law_other_signals_carry_nothing(before, signal, after.drop_last());
        assert((before.push(signal) + after).drop_last() =~= before.push(signal)
            + after.drop_last());
        assert((before + after).drop_last() =~= before + after.drop_last());
        assert((before.push(signal) + after).last() == after.last());
        assert((before + after).last() == after.last());
    }
}

/// The signals that carry candidates, in their order.
pub open spec fn candidate_signals(inits: Seq<CandidateInitView>) -> Seq<PeerSignalView> {
    inits.map_values(|init: CandidateInitView| PeerSignalView::IceCandidate(candidate_json(init)))
}

/// What one peer trickles, the other hands to its ICE agent: the same candidates, in the
/// same order.
pub proof fn law_trickled_candidates_arrive(inits: Seq<CandidateInitView>)
    requires
        forall|i: int| 0 <= i < inits.len() ==> survives_json(#[trigger] inits[i]),
    ensures
        candidates_in(candidate_signals(inits)) == inits,
    decreases inits.len(),
{
    let signals = candidate_signals(inits);
    if inits.len() == 0 {
        assert(inits =~= Seq::<CandidateInitView>::empty());
    } else {
        let rest = inits.drop_last();
        assert forall|i: int| 0 <= i < rest.len() implies survives_json(#[trigger] rest[i]) by {
            assert(rest[i] == inits[i]);
        }
        law_trickled_candidates_arrive(rest);
        assert(signals.drop_last() =~= candidate_signals(rest));
        assert(survives_json(inits[inits.len() - 1]));
        assert(rest.push(inits.last()) =~= inits);
    }
}

/// Whatever reads as a candidate is handed over as it was read, whoever wrote it and however it is
/// written; a text is passed over only where it does not read as one.
pub proof fn law_whatever_can_be_read_is_handed_over(json: Seq<char>)
    ensures
        candidate_in(PeerSignalView::IceCandidate(json)) == candidate_from_json(json),
        ({
            let action = listen_action(
                ListenEventView::Signal(Some(PeerSignalView::IceCandidate(json))),
            );
            &&& candidate_from_json(json) matches Some(init) ==> action
                == ListenActionView::AddCandidate(init)
            &&& candidate_from_json(json) is None ==> action == ListenActionView::Ignore(
                Ignored::UnreadableCandidate,
            )
        }),
{
}

/// What a listener does with a candidate depends on what is read in it, and on nothing else: two
/// texts that read as the same candidate lead to the same candidate being handed over.
pub proof fn law_only_what_is_read_matters(
    one: String,
    other: String,
    first: ListenAction,
    second: ListenAction,
)
    requires
        candidate_from_json(one@) is Some,
        candidate_from_json(one@) == candidate_from_json(other@),
        call_ensures(
            listen_for_remote_candidates,
            (ListenEvent::Signal(Some(PeerSignal::IceCandidate(one))),),
            first,
        ),
        call_ensures(
            listen_for_remote_candidates,
            (ListenEvent::Signal(Some(PeerSignal::IceCandidate(other))),),
            second,
        ),
    ensures
        first matches ListenAction::AddCandidate(init) && Some(init@) == candidate_from_json(one@),
        second matches ListenAction::AddCandidate(init) && Some(init@) == candidate_from_json(
            one@,
        ),
{
}

/// A listener hands nothing over but candidates, and goes on listening until there are no more
/// signals or the ICE agent refuses one; it then ends with what brought it about.
pub proof fn law_nothing_else_is_handed_over(text: Seq<char>, error: webrtc::Error)
    ensures
        candidate_in(PeerSignalView::Offer(text)) is None,
        candidate_in(PeerSignalView::Answer(text)) is None,
        listen_action(ListenEventView::Signal(Some(PeerSignalView::Offer(text))))
            == ListenActionView::Ignore(Ignored::UnexpectedOffer),
        listen_action(ListenEventView::Signal(Some(PeerSignalView::Answer(text))))
            == ListenActionView::Ignore(Ignored::UnexpectedAnswer),
        listen_action(ListenEventView::Signal(None)) == ListenActionView::Finish(Ok(())),
        listen_action(ListenEventView::Added(Ok(()))) is AwaitSignal,
        listen_action(ListenEventView::Added(Err(error))) == ListenActionView::Finish(Err(error)),
{
}

/// What a listener is told and does is seen as it is.
pub proof fn law_listening_is_seen_whole(
    signal: PeerSignal,
    added: Result<(), webrtc::Error>,
    init: CandidateInit,
    why: Ignored,
)
    ensures
        ListenEvent::Signal(Some(signal))@ == ListenEventView::Signal(Some(signal@)),
        ListenEvent::Signal(None)@ == ListenEventView::Signal(None),
        ListenEvent::Added(added)@ == ListenEventView::Added(added),
        ListenAction::AddCandidate(init)@ == ListenActionView::AddCandidate(init@),
        ListenAction::Ignore(why)@ == ListenActionView::Ignore(why),
        ListenAction::AwaitSignal@ is AwaitSignal,
        ListenAction::Finish(added)@ == ListenActionView::Finish(added),
{
}

} // verus!
