//! What holds of every handshake, whatever the order in which the peer's signals come.
use vstd::prelude::*;

use crate::description::{
    answer_description, offer_description, SdpKind, SessionDescription, SessionDescriptionView,
};
use crate::handshake::{
    awaited_description, Handshake, HandshakeAction, HandshakeActionView, HandshakeEvent,
    HandshakeEventView, HandshakeModel, Phase, Role,
};
use crate::messages::{PeerId, PeerSignal, PeerSignalView};

verus! {

/// A handshake from its beginning up to some point.
pub struct HandshakeRun {
    /// The state that it is in.
    pub model: HandshakeModel,
    /// The signals that it has sent, first to last.
    pub signals: Seq<PeerSignalView>,
    /// What it has asked for, first to last.
    pub actions: Seq<HandshakeActionView>,
}

/// What events leave of a handshake that was in the state `start`, as long as the signalling
/// server takes requests.
pub open spec fn run(start: HandshakeModel, events: Seq<HandshakeEventView>) -> HandshakeRun
    decreases events.len(),
{
    if events.len() == 0 {
        HandshakeRun { model: start, signals: Seq::empty(), actions: Seq::empty() }
    } else {
        let before = run(start, events.drop_last());
        let step = before.model.step(events.last());
        HandshakeRun {
            model: step.next,
            signals: match step.signal {
                Some(signal) => before.signals.push(signal),
                None => before.signals,
            },
            actions: before.actions.push(step.action),
        }
    }
}

/// Whether each of the events can happen when its turn comes.
pub open spec fn possible(start: HandshakeModel, events: Seq<HandshakeEventView>) -> bool
    decreases events.len(),
{
    events.len() > 0 ==> {
        &&& possible(start, events.drop_last())
        &&& run(start, events.drop_last()).model.expects(events.last())
    }
}

/// The signal by which a side in this role makes its description known.
pub open spec fn description_signal(role: Role, sdp: Seq<char>) -> PeerSignalView {
    match role {
        Role::Offer => PeerSignalView::Offer(sdp),
        Role::Accept => PeerSignalView::Answer(sdp),
    }
}

/// Whether the local description was created by now.
pub open spec fn described(model: HandshakeModel) -> bool {
    match model.role {
        Role::Offer => !(model.phase is Opening || model.phase is DescribingLocal),
        Role::Accept => model.phase is SettingLocal || past_descriptions(model),
    }
}

/// Whether the local description was set by now.
pub open spec fn local_set(model: HandshakeModel) -> bool {
    match model.role {
        Role::Offer => described(model) && !(model.phase is SettingLocal),
        Role::Accept => past_descriptions(model),
    }
}

/// Whether the remote description was set by now.
pub open spec fn remote_set(model: HandshakeModel) -> bool {
    match model.role {
        Role::Offer => past_descriptions(model),
        Role::Accept => model.phase is DescribingLocal || model.phase is SettingLocal
            || past_descriptions(model),
    }
}

/// Whether both descriptions were set by now.
pub open spec fn past_descriptions(model: HandshakeModel) -> bool {
    model.phase is SendingCandidates || model.phase is AwaitingChannels || model.phase is Complete
}

/// Whether the description was sent by now: the offering side sends it once it was set, the
/// accepting side as soon as it was created.
pub open spec fn description_sent(model: HandshakeModel) -> bool {
    match model.role {
        Role::Offer => local_set(model),
        Role::Accept => described(model),
    }
}

/// At every point, a handshake has sent its own description once or not yet, and nothing
/// else: not before it was created, and, by the offering side, not before it was set. Who it
/// is with and which side it is on never change.
pub proof fn law_description_is_sent_once(
    role: Role,
    peer: Seq<char>,
    events: Seq<HandshakeEventView>,
)
    requires
        possible(HandshakeModel::new(role, peer), events),
    ensures
        ({
            let now = run(HandshakeModel::new(role, peer), events);
            &&& now.model.role == role
            &&& now.model.peer == peer
            &&& described(now.model) ==> events.contains(
                HandshakeEventView::LocalDescriptionCreated(now.model.local_sdp),
            )
            &&& now.signals == (if description_sent(now.model) {
                seq![description_signal(role, now.model.local_sdp)]
            } else {
                Seq::empty()
            })
        }),
    decreases events.len(),
{
    let start = HandshakeModel::new(role, peer);
    if events.len() > 0 {
        let rest = events.drop_last();
        law_description_is_sent_once(role, peer, rest);
        let before = run(start, rest);
        let now = run(start, events);
        if described(before.model) {
            let created = HandshakeEventView::LocalDescriptionCreated(before.model.local_sdp);
            let i = choose|i: int| 0 <= i < rest.len() && rest[i] == created;
            assert(events[i] == created);
        }
        assert(events[events.len() - 1] == events.last());
        assert(now.signals =~= (if description_sent(now.model) {
            seq![description_signal(role, now.model.local_sdp)]
        } else {
            Seq::empty()
        }));
    }
}

/// A handshake is complete only once the local and the remote description were set, the
/// candidates kept back were sent and the data channels are open; and it asks for those
/// candidates to be sent only once both descriptions were set.
pub proof fn law_completion_takes_every_step(
    role: Role,
    peer: Seq<char>,
    events: Seq<HandshakeEventView>,
)
    requires
        possible(HandshakeModel::new(role, peer), events),
    ensures
        ({
            let now = run(HandshakeModel::new(role, peer), events).model;
            &&& now.role == role
            &&& local_set(now) ==> events.contains(HandshakeEventView::LocalDescriptionSet)
            &&& remote_set(now) ==> events.contains(HandshakeEventView::RemoteDescriptionSet)
            &&& now.phase is AwaitingChannels || now.phase is Complete ==> events.contains(
                HandshakeEventView::CandidatesSent,
            )
            &&& now.phase is Complete ==> events.contains(HandshakeEventView::ChannelsReady)
        }),
    decreases events.len(),
{
    if events.len() > 0 {
        let rest = events.drop_last();
        law_completion_takes_every_step(role, peer, rest);
        still_contained(events);
        assert(events[events.len() - 1] == events.last());
    }
}

proof fn still_contained(events: Seq<HandshakeEventView>)
    requires
        events.len() > 0,
    ensures
        forall|event: HandshakeEventView| #[trigger]
            events.drop_last().contains(event) ==> events.contains(event),
{
    let rest = events.drop_last();
    assert forall|event: HandshakeEventView| #[trigger]
        rest.contains(event) implies events.contains(event) by {
        let i = choose|i: int| 0 <= i < rest.len() && rest[i] == event;
        assert(events[i] == event);
    }
}

/// Nothing more can happen to a handshake that is complete or has failed, and something can
/// to any other.
pub proof fn law_only_the_end_is_final(model: HandshakeModel)
    ensures
        model.phase is Complete || model.phase is Failed <==> forall|event: HandshakeEventView|
            !#[trigger] model.expects(event),
{
    let possible_next = match model.phase {
        Phase::Opening => HandshakeEventView::ChannelsCreated,
        Phase::DescribingLocal => HandshakeEventView::LocalDescriptionCreated(Seq::empty()),
        Phase::SettingLocal => HandshakeEventView::LocalDescriptionSet,
        Phase::AwaitingRemote => HandshakeEventView::Signal(PeerSignalView::Offer(Seq::empty())),
        Phase::SettingRemote => HandshakeEventView::RemoteDescriptionSet,
        Phase::SendingCandidates => HandshakeEventView::CandidatesSent,
        _ => HandshakeEventView::ChannelsReady,
    };
    if !(model.phase is Complete || model.phase is Failed) {
        assert(model.expects(possible_next));
    }
}

/// Whether a side in this role passes over each of the signals.
pub open spec fn all_passed_over(role: Role, signals: Seq<PeerSignalView>) -> bool {
    forall|i: int|
        0 <= i < signals.len() ==> awaited_description(role, #[trigger] signals[i]) is None
}

/// The events that signals are to a handshake.
pub open spec fn as_events(signals: Seq<PeerSignalView>) -> Seq<HandshakeEventView> {
    signals.map_values(|signal: PeerSignalView| HandshakeEventView::Signal(signal))
}

/// Signals that a waiting side does not wait for, in any number and order, make no
/// difference: it stays as it is and sends nothing.
pub proof fn law_other_signals_are_passed_over(
    waiting: HandshakeModel,
    signals: Seq<PeerSignalView>,
)
    requires
        waiting.phase is AwaitingRemote,
        all_passed_over(waiting.role, signals),
    ensures
        possible(waiting, as_events(signals)),
        run(waiting, as_events(signals)).model == waiting,
        run(waiting, as_events(signals)).signals == Seq::<PeerSignalView>::empty(),
    decreases signals.len(),
{
    let events = as_events(signals);
    if signals.len() > 0 {
        let rest = signals.drop_last();
        assert forall|i: int| 0 <= i < rest.len() implies awaited_description(
            waiting.role,
            #[trigger] rest[i],
        ) is None by {
            assert(rest[i] == signals[i]);
        }
        law_other_signals_are_passed_over(waiting, rest);
        assert(events.drop_last() =~= as_events(rest));
        assert(awaited_description(waiting.role, signals[signals.len() - 1]) is None);
    }
}

/// The first description of the kind that a side waits for is the one that it goes by, with
/// its text unchanged, whatever came before. If it cannot be read, the handshake fails.
pub proof fn law_first_awaited_description_counts(
    waiting: HandshakeModel,
    earlier: Seq<PeerSignalView>,
    signal: PeerSignalView,
)
    requires
        waiting.phase is AwaitingRemote,
        all_passed_over(waiting.role, earlier),
        awaited_description(waiting.role, signal) is Some,
    ensures
        ({
            let description = awaited_description(waiting.role, signal)->0;
            let now = run(waiting, as_events(earlier.push(signal)));
            &&& now.signals == Seq::<PeerSignalView>::empty()
            &&& if description.readable() {
                &&& now.model.phase is SettingRemote
                &&& now.actions.last() == HandshakeActionView::SetRemoteDescription(description)
            } else {
                &&& now.model.phase is Failed
                &&& now.actions.last() == HandshakeActionView::InvalidDescription
            }
        }),
{
    law_other_signals_are_passed_over(waiting, earlier);
    let events = as_events(earlier.push(signal));
    assert(events.drop_last() =~= as_events(earlier));
    assert(events.last() == HandshakeEventView::Signal(signal));
}

/// Whether each of the events is the end of listening.
pub open spec fn only_trickle_ends(events: Seq<HandshakeEventView>) -> bool {
    forall|i: int| 0 <= i < events.len() ==> (#[trigger] events[i]) is TrickleFinished
}

/// That listening for candidates has ended does not end a handshake: it goes on waiting for
/// the data channels, and is complete when they are open.
pub proof fn law_end_of_trickle_does_not_end_the_handshake(
    waiting: HandshakeModel,
    events: Seq<HandshakeEventView>,
)
    requires
        waiting.phase is AwaitingChannels,
        only_trickle_ends(events),
    ensures
        possible(waiting, events),
        run(waiting, events).model == waiting,
        run(waiting, events.push(HandshakeEventView::ChannelsReady)).actions.last()
            == HandshakeActionView::Finish(waiting.peer),
        run(waiting, events.push(HandshakeEventView::ChannelsReady)).model.phase is Complete,
    decreases events.len(),
{
    if events.len() > 0 {
        let rest = events.drop_last();
        assert forall|i: int| 0 <= i < rest.len() implies (#[trigger] rest[i]) is TrickleFinished
            by {
            assert(rest[i] == events[i]);
        }
        law_end_of_trickle_does_not_end_the_handshake(waiting, rest);
        assert(events[events.len() - 1] is TrickleFinished);
    }
    assert(events.push(HandshakeEventView::ChannelsReady).drop_last() =~= events);
}

/// The events of the offering side of a handshake that goes through, in which the peer's
/// candidates may come ahead of its answer.
pub open spec fn offering_course(
    offer: Seq<char>,
    ahead: Seq<PeerSignalView>,
    answer: PeerSignalView,
) -> Seq<HandshakeEventView> {
    seq![
        HandshakeEventView::ChannelsCreated,
        HandshakeEventView::LocalDescriptionCreated(offer),
        HandshakeEventView::LocalDescriptionSet,
    ] + as_events(ahead) + seq![
        HandshakeEventView::Signal(answer),
        HandshakeEventView::RemoteDescriptionSet,
        HandshakeEventView::CandidatesSent,
        HandshakeEventView::ChannelsReady,
    ]
}

/// The events of the accepting side of a handshake that goes through.
pub open spec fn accepting_course(
    ahead: Seq<PeerSignalView>,
    offer: PeerSignalView,
    answer: Seq<char>,
) -> Seq<HandshakeEventView> {
    seq![HandshakeEventView::ChannelsCreated] + as_events(ahead) + seq![
        HandshakeEventView::Signal(offer),
        HandshakeEventView::RemoteDescriptionSet,
        HandshakeEventView::LocalDescriptionCreated(answer),
        HandshakeEventView::LocalDescriptionSet,
        HandshakeEventView::CandidatesSent,
        HandshakeEventView::ChannelsReady,
    ]
}

/// Running one part of a course and then the other is running the whole of it.
proof fn run_in_parts(
    start: HandshakeModel,
    first: Seq<HandshakeEventView>,
    second: Seq<HandshakeEventView>,
)
    requires
        possible(start, first),
        possible(run(start, first).model, second),
    ensures
        possible(start, first + second),
        run(start, first + second).model == run(run(start, first).model, second).model,
        run(start, first + second).signals == run(start, first).signals + run(
            run(start, first).model,
            second,
        ).signals,
        run(start, first + second).actions == run(start, first).actions + run(
            run(start, first).model,
            second,
        ).actions,
    decreases second.len(),
{
    let mid = run(start, first).model;
    let whole = first + second;
    if second.len() == 0 {
        assert(whole =~= first);
        assert(run(start, first).signals + run(mid, second).signals =~= run(start, first).signals);
        assert(run(start, first).actions + run(mid, second).actions =~= run(start, first).actions);
    } else {
        run_in_parts(start, first, second.drop_last());
        assert(whole.drop_last() =~= first + second.drop_last());
        assert(whole.last() == second.last());
        assert(run(start, whole).signals =~= run(start, first).signals + run(
            mid,
            second,
        ).signals);
        assert(run(start, whole).actions =~= run(start, first).actions + run(
            mid,
            second,
        ).actions);
    }
}

/// A course that goes on with one more event.
proof fn run_one_more(
    start: HandshakeModel,
    before: Seq<HandshakeEventView>,
    event: HandshakeEventView,
)
    requires
        possible(start, before),
        run(start, before).model.expects(event),
    ensures
        possible(start, before.push(event)),
        run(start, before.push(event)).model == run(start, before).model.step(event).next,
        run(start, before.push(event)).signals == (match run(start, before).model.step(
            event,
        ).signal {
            Some(signal) => run(start, before).signals.push(signal),
            None => run(start, before).signals,
        }),
        run(start, before.push(event)).actions == run(start, before).actions.push(
            run(start, before).model.step(event).action,
        ),
{
    assert(before.push(event).drop_last() =~= before);
    assert(before.push(event).last() == event);
}

/// Two peers meet: the offer that one side sends is the remote description that the other
/// goes by, the answer that this one sends back is the remote description of the first, and
/// both handshakes are completed, each with one signal sent. What else comes ahead of the
/// offer or the answer, such as candidates that were trickled early, does not matter.
pub proof fn law_two_peers_meet(
    offerer: Seq<char>,
    accepter: Seq<char>,
    offer: Seq<char>,
    answer: Seq<char>,
    ahead_of_offer: Seq<PeerSignalView>,
    ahead_of_answer: Seq<PeerSignalView>,
)
    requires
        (SessionDescriptionView { kind: SdpKind::Offer, sdp: offer }).readable(),
        (SessionDescriptionView { kind: SdpKind::Answer, sdp: answer }).readable(),
        all_passed_over(Role::Accept, ahead_of_offer),
        all_passed_over(Role::Offer, ahead_of_answer),
    ensures
        ({
            let offering = HandshakeModel::new(Role::Offer, accepter);
            let accepting = HandshakeModel::new(Role::Accept, offerer);
            let offer_signal = run(
                offering,
                offering_course(offer, ahead_of_answer, PeerSignalView::Answer(answer)),
            ).signals[0];
            let answer_signal = run(
                accepting,
                accepting_course(ahead_of_offer, offer_signal, answer),
            ).signals[0];
            let offering_side = run(
                offering,
                offering_course(offer, ahead_of_answer, answer_signal),
            );
            let accepting_side = run(
                accepting,
                accepting_course(ahead_of_offer, offer_signal, answer),
            );
            &&& offer_signal == PeerSignalView::Offer(offer)
            &&& answer_signal == PeerSignalView::Answer(answer)
            &&& possible(offering, offering_course(offer, ahead_of_answer, answer_signal))
            &&& possible(accepting, accepting_course(ahead_of_offer, offer_signal, answer))
            &&& offering_side.signals == seq![offer_signal]
            &&& accepting_side.signals == seq![answer_signal]
            &&& offering_side.model.phase is Complete
            &&& accepting_side.model.phase is Complete
            &&& offering_side.actions.last() == HandshakeActionView::Finish(accepter)
            &&& accepting_side.actions.last() == HandshakeActionView::Finish(offerer)
            &&& offering_side.actions.contains(
                HandshakeActionView::SetRemoteDescription(
                    SessionDescriptionView { kind: SdpKind::Answer, sdp: answer },
                ),
            )
            &&& accepting_side.actions.contains(
                HandshakeActionView::SetRemoteDescription(
                    SessionDescriptionView { kind: SdpKind::Offer, sdp: offer },
                ),
            )
        }),
{
    offering_side_completes(accepter, offer, ahead_of_answer, answer);
    accepting_side_completes(offerer, ahead_of_offer, offer, answer);
}

proof fn offering_side_completes(
    peer: Seq<char>,
    offer: Seq<char>,
    ahead: Seq<PeerSignalView>,
    answer: Seq<char>,
)
    requires
        (SessionDescriptionView { kind: SdpKind::Answer, sdp: answer }).readable(),
        all_passed_over(Role::Offer, ahead),
    ensures
        ({
            let start = HandshakeModel::new(Role::Offer, peer);
            let course = offering_course(offer, ahead, PeerSignalView::Answer(answer));
            let end = run(start, course);
            &&& possible(start, course)
            &&& end.signals == seq![PeerSignalView::Offer(offer)]
            &&& end.model.phase is Complete
            &&& end.actions.last() == HandshakeActionView::Finish(peer)
            &&& end.actions.contains(
                HandshakeActionView::SetRemoteDescription(
                    SessionDescriptionView { kind: SdpKind::Answer, sdp: answer },
                ),
            )
        }),
{
    let start = HandshakeModel::new(Role::Offer, peer);
    let none = Seq::<HandshakeEventView>::empty();
    let e1 = none.push(HandshakeEventView::ChannelsCreated);
    let e2 = e1.push(HandshakeEventView::LocalDescriptionCreated(offer));
    let e3 = e2.push(HandshakeEventView::LocalDescriptionSet);
    assert(possible(start, none));
    run_one_more(start, none, HandshakeEventView::ChannelsCreated);
    run_one_more(start, e1, HandshakeEventView::LocalDescriptionCreated(offer));
    run_one_more(start, e2, HandshakeEventView::LocalDescriptionSet);
    let waiting = run(start, e3).model;
    law_other_signals_are_passed_over(waiting, ahead);
    run_in_parts(start, e3, as_events(ahead));
    let e4 = e3 + as_events(ahead);
    let signal = HandshakeEventView::Signal(PeerSignalView::Answer(answer));
    let e5 = e4.push(signal);
    let e6 = e5.push(HandshakeEventView::RemoteDescriptionSet);
    let e7 = e6.push(HandshakeEventView::CandidatesSent);
    let e8 = e7.push(HandshakeEventView::ChannelsReady);
    run_one_more(start, e4, signal);
    run_one_more(start, e5, HandshakeEventView::RemoteDescriptionSet);
    run_one_more(start, e6, HandshakeEventView::CandidatesSent);
    run_one_more(start, e7, HandshakeEventView::ChannelsReady);
    assert(offering_course(offer, ahead, PeerSignalView::Answer(answer)) =~= e8);
    let set = run(start, e5).actions.last();
    let n = run(start, e5).actions.len() - 1;
    assert(run(start, e8).actions[n] == set);
    assert(run(start, e8).signals =~= seq![PeerSignalView::Offer(offer)]);
}

proof fn accepting_side_completes(
    peer: Seq<char>,
    ahead: Seq<PeerSignalView>,
    offer: Seq<char>,
    answer: Seq<char>,
)
    requires
        (SessionDescriptionView { kind: SdpKind::Offer, sdp: offer }).readable(),
        all_passed_over(Role::Accept, ahead),
    ensures
        ({
            let start = HandshakeModel::new(Role::Accept, peer);
            let course = accepting_course(ahead, PeerSignalView::Offer(offer), answer);
            let end = run(start, course);
            &&& possible(start, course)
            &&& end.signals == seq![PeerSignalView::Answer(answer)]
            &&& end.model.phase is Complete
            &&& end.actions.last() == HandshakeActionView::Finish(peer)
            &&& end.actions.contains(
                HandshakeActionView::SetRemoteDescription(
                    SessionDescriptionView { kind: SdpKind::Offer, sdp: offer },
                ),
            )
        }),
{
    let start = HandshakeModel::new(Role::Accept, peer);
    let none = Seq::<HandshakeEventView>::empty();
    let e1 = none.push(HandshakeEventView::ChannelsCreated);
    assert(possible(start, none));
    run_one_more(start, none, HandshakeEventView::ChannelsCreated);
    let waiting = run(start, e1).model;
    law_other_signals_are_passed_over(waiting, ahead);
    run_in_parts(start, e1, as_events(ahead));
    let e2 = e1 + as_events(ahead);
    let signal = HandshakeEventView::Signal(PeerSignalView::Offer(offer));
    let e3 = e2.push(signal);
    let e4 = e3.push(HandshakeEventView::RemoteDescriptionSet);
    let e5 = e4.push(HandshakeEventView::LocalDescriptionCreated(answer));
    let e6 = e5.push(HandshakeEventView::LocalDescriptionSet);
    let e7 = e6.push(HandshakeEventView::CandidatesSent);
    let e8 = e7.push(HandshakeEventView::ChannelsReady);
    run_one_more(start, e2, signal);
    run_one_more(start, e3, HandshakeEventView::RemoteDescriptionSet);
    run_one_more(start, e4, HandshakeEventView::LocalDescriptionCreated(answer));
    run_one_more(start, e5, HandshakeEventView::LocalDescriptionSet);
    run_one_more(start, e6, HandshakeEventView::CandidatesSent);
    run_one_more(start, e7, HandshakeEventView::ChannelsReady);
    assert(accepting_course(ahead, PeerSignalView::Offer(offer), answer) =~= e8);
    let set = run(start, e3).actions.last();
    let n = run(start, e3).actions.len() - 1;
    assert(run(start, e8).actions[n] == set);
    assert(run(start, e8).signals =~= seq![PeerSignalView::Answer(answer)]);
}

/// The phases through which a handshake in this role goes, from its beginning to its completion.
pub open spec fn phases(role: Role) -> Seq<Phase> {
    match role {
        Role::Offer => seq![
            Phase::Opening,
            Phase::DescribingLocal,
            Phase::SettingLocal,
            Phase::AwaitingRemote,
            Phase::SettingRemote,
            Phase::SendingCandidates,
            Phase::AwaitingChannels,
            Phase::Complete,
        ],
        Role::Accept => seq![
            Phase::Opening,
            Phase::AwaitingRemote,
            Phase::SettingRemote,
            Phase::DescribingLocal,
            Phase::SettingLocal,
            Phase::SendingCandidates,
            Phase::AwaitingChannels,
            Phase::Complete,
        ],
    }
}

/// A handshake goes through its phases one by one and leaves none out. It stays where it is only
/// on a signal that it does not wait for and on the end of listening, and fails only on a
/// description that cannot be read.
pub proof fn law_phases_follow_one_another(model: HandshakeModel, event: HandshakeEventView, i: int)
    requires
        0 <= i < phases(model.role).len(),
        phases(model.role)[i] == model.phase,
        model.expects(event),
    ensures
        ({
            let next = model.step(event).next.phase;
            let awaited = event matches HandshakeEventView::Signal(signal) && ((model.role is Offer
                && signal is Answer) || (model.role is Accept && signal is Offer));
            let text = match event {
                HandshakeEventView::Signal(PeerSignalView::Offer(sdp)) => sdp,
                HandshakeEventView::Signal(PeerSignalView::Answer(sdp)) => sdp,
                _ => Seq::empty(),
            };
            let read = if model.role is Offer {
                answer_description(text) is Some
            } else {
                offer_description(text) is Some
            };
            if event is TrickleFinished || (event is Signal && !awaited) {
                next == model.phase
            } else if event is Signal && !read {
                next is Failed
            } else {
                i + 1 < phases(model.role).len() && next == phases(model.role)[i + 1]
            }
        }),
{
}

/// What a handshake asks for is what its next phase is about, on either side.
pub proof fn law_what_is_asked_for_fits_the_phase(model: HandshakeModel, event: HandshakeEventView)
    requires
        model.expects(event),
    ensures
        ({
            let step = model.step(event);
            match step.next.phase {
                Phase::Opening => false,
                Phase::DescribingLocal => match model.role {
                    Role::Offer => step.action is CreateOffer,
                    Role::Accept => step.action is CreateAnswer,
                },
                Phase::SettingLocal => step.action is SetLocalDescription,
                Phase::AwaitingRemote => step.action is AwaitSignal,
                Phase::SettingRemote => step.action is SetRemoteDescription,
                Phase::SendingCandidates => step.action is SendPendingCandidates,
                Phase::AwaitingChannels => step.action is AwaitChannels,
                Phase::Complete => step.action == HandshakeActionView::Finish(model.peer),
                Phase::Failed => step.action is InvalidDescription,
            }
        }),
{
}

/// A peer is reported as connected exactly when its data channels are open, on either side and
/// whether or not signals are taken; until then a handshake that has sent its candidates goes on
/// waiting for them.
pub proof fn law_connected_only_when_the_channels_are_open(
    model: HandshakeModel,
    event: HandshakeEventView,
    taken: bool,
)
    requires
        model.expects(event),
    ensures
        ({
            let outcome = model.outcome(event, taken);
            &&& outcome.action is Finish <==> event is ChannelsReady
            &&& outcome.next.phase is Complete <==> event is ChannelsReady
            &&& outcome.action matches HandshakeActionView::Finish(peer) ==> peer == model.peer
            &&& outcome.action is AwaitChannels <==> event is CandidatesSent || event
                is TrickleFinished
            &&& outcome.next.phase is AwaitingChannels <==> outcome.action is AwaitChannels
        }),
{
}

/// In every course of events, each time that a peer is reported as connected its data channels have
/// just opened, and it is the peer that the handshake is with; and each time that they open, it is
/// reported.
pub proof fn law_every_report_follows_the_channels(
    role: Role,
    peer: Seq<char>,
    events: Seq<HandshakeEventView>,
)
    requires
        possible(HandshakeModel::new(role, peer), events),
    ensures
        ({
            let now = run(HandshakeModel::new(role, peer), events);
            &&& now.actions.len() == events.len()
            &&& forall|i: int|
                0 <= i < events.len() ==> {
                    &&& (#[trigger] now.actions[i]) is Finish <==> events[i] is ChannelsReady
                    &&& now.actions[i] is Finish ==> now.actions[i] == HandshakeActionView::Finish(
                        peer,
                    )
                    &&& now.actions[i] is AwaitChannels <==> events[i] is CandidatesSent
                        || events[i] is TrickleFinished
                }
        }),
    decreases events.len(),
{
    let start = HandshakeModel::new(role, peer);
    if events.len() > 0 {
        let rest = events.drop_last();
        law_every_report_follows_the_channels(role, peer, rest);
        law_description_is_sent_once(role, peer, rest);
        let before = run(start, rest);
        let now = run(start, events);
        law_connected_only_when_the_channels_are_open(before.model, events.last(), true);
        assert forall|i: int| 0 <= i < events.len() implies ({
            &&& (#[trigger] now.actions[i]) is Finish <==> events[i] is ChannelsReady
            &&& now.actions[i] is Finish ==> now.actions[i] == HandshakeActionView::Finish(peer)
            &&& now.actions[i] is AwaitChannels <==> events[i] is CandidatesSent || events[i]
                is TrickleFinished
        }) by {
            if i < rest.len() {
                assert(rest[i] == events[i]);
                assert(before.actions[i] == now.actions[i]);
            }
        }
    }
}

/// A handshake signals its own description and nothing else, with its whole text: the offering side
/// the one that it was told was created, when that is set; the accepting side as soon as it is
/// created.
pub proof fn law_the_description_is_signalled_whole(
    model: HandshakeModel,
    event: HandshakeEventView,
)
    ensures
        model.step(event).signal == (match (model.role, event) {
            (Role::Offer, HandshakeEventView::LocalDescriptionSet) => Some(
                PeerSignalView::Offer(model.local_sdp),
            ),
            (Role::Accept, HandshakeEventView::LocalDescriptionCreated(sdp)) => Some(
                PeerSignalView::Answer(sdp),
            ),
            _ => None,
        }),
{
}

/// A handshake keeps the whole text of the description that was created, and neither its role nor
/// its peer ever changes.
pub proof fn law_only_a_created_description_is_kept(
    model: HandshakeModel,
    event: HandshakeEventView,
    taken: bool,
)
    ensures
        ({
            let next = model.outcome(event, taken).next;
            &&& next.role == model.role
            &&& next.peer == model.peer
            &&& event matches HandshakeEventView::LocalDescriptionCreated(sdp) ==> next.local_sdp
                == sdp
            &&& !(event is LocalDescriptionCreated) ==> next.local_sdp == model.local_sdp
        }),
{
}

/// The description that is to be set is the peer's own, with its whole text: the offering side goes
/// by an answer, and the accepting side by an offer, provided that it can be read.
pub proof fn law_the_peers_description_is_set_whole(model: HandshakeModel, sdp: Seq<char>)
    requires
        model.phase is AwaitingRemote,
    ensures
        ({
            let offer = model.step(HandshakeEventView::Signal(PeerSignalView::Offer(sdp))).action;
            let answer = model.step(HandshakeEventView::Signal(PeerSignalView::Answer(sdp))).action;
            let candidate = model.step(
                HandshakeEventView::Signal(PeerSignalView::IceCandidate(sdp)),
            ).action;
            let as_offer = SessionDescriptionView { kind: SdpKind::Offer, sdp };
            let as_answer = SessionDescriptionView { kind: SdpKind::Answer, sdp };
            &&& candidate is AwaitSignal
            &&& model.role is Offer ==> offer is AwaitSignal
            &&& model.role is Accept ==> answer is AwaitSignal
            &&& model.role is Offer && answer_description(sdp) is Some ==> answer
                == HandshakeActionView::SetRemoteDescription(as_answer)
            &&& model.role is Offer && answer_description(sdp) is None ==> answer
                is InvalidDescription
            &&& model.role is Accept && offer_description(sdp) is Some ==> offer
                == HandshakeActionView::SetRemoteDescription(as_offer)
            &&& model.role is Accept && offer_description(sdp) is None ==> offer
                is InvalidDescription
            &&& awaited_description(Role::Offer, PeerSignalView::Answer(sdp)) == Some(as_answer)
            &&& awaited_description(Role::Accept, PeerSignalView::Offer(sdp)) == Some(as_offer)
        }),
{
}

/// Each event can happen in one phase, and in no other.
pub proof fn law_each_event_has_its_phase(model: HandshakeModel, event: HandshakeEventView)
    ensures
        model.expects(event) <==> {
            ||| model.phase is Opening && event is ChannelsCreated
            ||| model.phase is DescribingLocal && event is LocalDescriptionCreated
            ||| model.phase is SettingLocal && event is LocalDescriptionSet
            ||| model.phase is AwaitingRemote && event is Signal
            ||| model.phase is SettingRemote && event is RemoteDescriptionSet
            ||| model.phase is SendingCandidates && event is CandidatesSent
            ||| model.phase is AwaitingChannels && (event is ChannelsReady || event
                is TrickleFinished)
        },
{
}

/// A signal that is due is handed to the queue once, for the peer that the handshake is with; where
/// it is refused the handshake fails, and otherwise it goes on as if there had been none.
pub proof fn law_a_refused_signal_ends_the_handshake(
    model: HandshakeModel,
    event: HandshakeEventView,
    taken: bool,
)
    ensures
        ({
            let step = model.step(event);
            let outcome = model.outcome(event, taken);
            let attempts = model.attempts(event, taken);
            &&& step.signal is None ==> attempts.len() == 0
            &&& step.signal matches Some(signal) ==> {
                &&& attempts.len() == 1
                &&& attempts[0].0.receiver == model.peer
                &&& attempts[0].0.data == signal
                &&& attempts[0].1 == taken
            }
            &&& step.signal is None || taken ==> outcome == step
            &&& step.signal is Some && !taken ==> {
                &&& outcome.next.phase is Failed
                &&& outcome.action is SignallingClosed
                &&& outcome.next.local_sdp == step.next.local_sdp
            }
            &&& !(step.action is SignallingClosed)
        }),
{
}

/// A handshake begins at its beginning.
pub proof fn law_a_handshake_begins_at_its_beginning(role: Role, peer: Seq<char>)
    ensures
        HandshakeModel::new(role, peer).role == role,
        HandshakeModel::new(role, peer).peer == peer,
        HandshakeModel::new(role, peer).phase is Opening,
        HandshakeModel::new(role, peer).local_sdp.len() == 0,
{
}

/// A handshake is seen as it is.
pub proof fn law_handshakes_are_seen_whole(handshake: Handshake)
    ensures
        handshake.model().role == handshake.role,
        handshake.model().phase == handshake.phase,
        handshake.model().peer == handshake.signal_peer.id@,
        handshake.model().local_sdp == handshake.local_sdp@,
{
}

/// What a handshake is told is seen as it is.
pub proof fn law_handshake_events_are_seen_whole(sdp: String, signal: PeerSignal)
    ensures
        HandshakeEvent::ChannelsCreated@ is ChannelsCreated,
        HandshakeEvent::LocalDescriptionCreated(sdp)@
            == HandshakeEventView::LocalDescriptionCreated(sdp@),
        HandshakeEvent::LocalDescriptionSet@ is LocalDescriptionSet,
        HandshakeEvent::Signal(signal)@ == HandshakeEventView::Signal(signal@),
        HandshakeEvent::RemoteDescriptionSet@ is RemoteDescriptionSet,
        HandshakeEvent::CandidatesSent@ is CandidatesSent,
        HandshakeEvent::ChannelsReady@ is ChannelsReady,
        HandshakeEvent::TrickleFinished@ is TrickleFinished,
{
}

/// What a handshake asks for is seen as it is.
pub proof fn law_handshake_actions_are_seen_whole(
    description: SessionDescription,
    peer: PeerId,
    error: webrtc::Error,
)
    ensures
        HandshakeAction::CreateOffer@ is CreateOffer,
        HandshakeAction::CreateAnswer@ is CreateAnswer,
        HandshakeAction::SetLocalDescription@ is SetLocalDescription,
        HandshakeAction::AwaitSignal@ is AwaitSignal,
        HandshakeAction::SetRemoteDescription(description)@
            == HandshakeActionView::SetRemoteDescription(description@),
        HandshakeAction::SendPendingCandidates@ is SendPendingCandidates,
        HandshakeAction::AwaitChannels@ is AwaitChannels,
        HandshakeAction::Finish(peer)@ == HandshakeActionView::Finish(peer@),
        HandshakeAction::InvalidDescription(error)@ is InvalidDescription,
        HandshakeAction::SignallingClosed@ is SignallingClosed,
{
}

} // verus!
