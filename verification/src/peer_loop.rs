//! The loops that run while a peer is connected: one for each data channel, which sends what
//! is queued for the peer, and one that waits for the peer's loss.
use bytes::Bytes;
use vstd::prelude::*;

use crate::data_channel::arrival;
use crate::messages::{Packet, PeerId};
use crate::packet::{byte_content, to_bytes};

verus! {

/// Gives each data channel the queue of packets that it is to send: the one at the same
/// place.
pub fn pair_channels<C, Q>(data_channels: Vec<C>, to_peer_messages: Vec<Q>) -> (res: Vec<(C, Q)>)
    requires
        data_channels@.len() == to_peer_messages@.len(),
    ensures
        res@.len() == data_channels@.len(),
        forall|i: int|
            0 <= i < res@.len() ==> #[trigger] res@[i] == (data_channels@[i], to_peer_messages@[i]),
{
    let mut queues = to_peer_messages;
    let mut pairs: Vec<(C, Q)> = Vec::new();
    for channel in it: data_channels
        invariant
            it.seq() == data_channels@,
            data_channels@.len() == to_peer_messages@.len(),
            queues@ == to_peer_messages@.skip(it.index() as int),
            pairs@.len() == it.index(),
            forall|i: int|
                0 <= i < it.index() ==> #[trigger] pairs@[i] == (
                    data_channels@[i],
                    to_peer_messages@[i],
                ),
    {
        let queue = queues.remove(0);
        pairs.push((channel, queue));
    }
    pairs
}

/// What the loop of one data channel is told.
#[derive(Debug)]
pub enum MessageLoopEvent {
    /// The next packet for the peer; `None` once there will be no more.
    Message(Option<Packet>),
    /// What became of the packet that was sent last: how many bytes of it, or why not.
    Sent(Result<usize, webrtc::Error>),
}

/// What the loop of one data channel does next.
#[derive(Debug)]
pub enum MessageLoopAction {
    /// Send these bytes on the channel.
    Send(Bytes),
    /// Wait for the next packet.
    AwaitMessage,
    /// Nothing more.
    Finish,
}

/// What the loop of one data channel is told, with the packet as a sequence of bytes.
pub enum MessageLoopEventView {
    Message(Option<Seq<u8>>),
    /// Whether the packet was sent.
    Sent(bool),
}

impl View for MessageLoopEvent {
    type V = MessageLoopEventView;

    open spec fn view(&self) -> MessageLoopEventView {
        match self {
            MessageLoopEvent::Message(Some(packet)) => MessageLoopEventView::Message(
                Some(packet@),
            ),
            MessageLoopEvent::Message(None) => MessageLoopEventView::Message(None),
            MessageLoopEvent::Sent(result) => MessageLoopEventView::Sent(result is Ok),
        }
    }
}

/// What the loop of one data channel does next, with bytes as a sequence.
pub enum MessageLoopActionView {
    Send(Seq<u8>),
    AwaitMessage,
    Finish,
}

impl View for MessageLoopAction {
    type V = MessageLoopActionView;

    open spec fn view(&self) -> MessageLoopActionView {
        match self {
            MessageLoopAction::Send(bytes) => MessageLoopActionView::Send(byte_content(*bytes)),
            MessageLoopAction::AwaitMessage => MessageLoopActionView::AwaitMessage,
            MessageLoopAction::Finish => MessageLoopActionView::Finish,
        }
    }
}

/// What follows from an event of a data channel's loop: each packet is sent as it is, and
/// one that could not be sent is given up without further ado.
pub open spec fn message_loop_action(event: MessageLoopEventView) -> MessageLoopActionView {
    match event {
        MessageLoopEventView::Message(Some(bytes)) => MessageLoopActionView::Send(bytes),
        MessageLoopEventView::Message(None) => MessageLoopActionView::Finish,
        MessageLoopEventView::Sent(_) => MessageLoopActionView::AwaitMessage,
    }
}

/// The loop of one data channel.
pub fn message_loop(event: MessageLoopEvent) -> (res: MessageLoopAction)
    ensures
        res@ == message_loop_action(event@),
        match event {
            MessageLoopEvent::Message(Some(packet)) => res matches MessageLoopAction::Send(bytes)
                && byte_content(bytes) == packet@,
            MessageLoopEvent::Message(None) => res is Finish,
            MessageLoopEvent::Sent(_) => res is AwaitMessage,
        },
{
    match event {
        MessageLoopEvent::Message(Some(packet)) => MessageLoopAction::Send(to_bytes(packet)),
        MessageLoopEvent::Message(None) => MessageLoopAction::Finish,
        MessageLoopEvent::Sent(_) => MessageLoopAction::AwaitMessage,
    }
}

/// What the loop of a peer is told.
#[derive(Debug, PartialEq, Eq, Clone, Copy)]
pub enum PeerLoopEvent {
    /// The loss of the peer was reported, or can no longer be.
    PeerDisconnected,
    /// The loop of a data channel has finished, or there is none.
    MessageLoopFinished,
    /// Listening for the peer's candidates has ended.
    TrickleFinished,
}

impl PeerLoopEvent {
    /// Whether the peer is to be left.
    pub open spec fn ends_the_loop(self) -> bool {
        !(self is TrickleFinished)
    }
}

/// The loop of a peer.
#[derive(Debug)]
pub struct PeerLoop {
    pub peer_uuid: PeerId,
}

impl PeerLoop {
    /// Takes note of an event, and names the peer where it is to be left. That listening for
    /// candidates has ended is no reason to leave it.
    pub fn on_event(&self, event: PeerLoopEvent) -> (res: Option<PeerId>)
        ensures
            match res {
                Some(peer) => event.ends_the_loop() && peer@ == self.peer_uuid@,
                None => !event.ends_the_loop(),
            },
            res is Some <==> event is PeerDisconnected || event is MessageLoopFinished,
            res matches Some(peer) ==> peer@ == self.peer_uuid@,
    {
        match event {
            PeerLoopEvent::PeerDisconnected => Some(self.peer_uuid.clone()),
            PeerLoopEvent::MessageLoopFinished => Some(self.peer_uuid.clone()),
            PeerLoopEvent::TrickleFinished => None,
        }
    }
}

/// How far the loop of one data channel has come.
pub struct ChannelProgress {
    /// What it has put on the channel, first to last.
    pub sent: Seq<Seq<u8>>,
    /// Whether it has finished.
    pub finished: bool,
}

impl ChannelProgress {
    /// What one event leaves.
    pub open spec fn step(self, event: MessageLoopEventView) -> ChannelProgress {
        if self.finished {
            self
        } else {
            match message_loop_action(event) {
                MessageLoopActionView::Send(bytes) => ChannelProgress {
                    sent: self.sent.push(bytes),
                    ..self
                },
                MessageLoopActionView::AwaitMessage => self,
                MessageLoopActionView::Finish => ChannelProgress { finished: true, ..self },
            }
        }
    }
}

/// What events leave of a loop that has just begun.
pub open spec fn channel_progress(events: Seq<MessageLoopEventView>) -> ChannelProgress
    decreases events.len(),
{
    if events.len() == 0 {
        ChannelProgress { sent: Seq::empty(), finished: false }
    } else {
        channel_progress(events.drop_last()).step(events.last())
    }
}

/// The packets that were queued, first to last.
pub open spec fn queued(events: Seq<MessageLoopEventView>) -> Seq<Seq<u8>>
    decreases events.len(),
{
    if events.len() == 0 {
        Seq::empty()
    } else {
        match events.last() {
            MessageLoopEventView::Message(Some(bytes)) => queued(events.drop_last()).push(bytes),
            _ => queued(events.drop_last()),
        }
    }
}

/// Every packet that is queued for a data channel is put on it, unchanged and in order, even
/// if packets before it could not be sent, until the queue has come to its end.
pub proof fn law_packets_are_sent_in_order(events: Seq<MessageLoopEventView>)
    ensures
        channel_progress(events).sent.is_prefix_of(queued(events)),
        !channel_progress(events).finished ==> channel_progress(events).sent == queued(events),
        channel_progress(events).finished <==> events.contains(
            MessageLoopEventView::Message(None),
        ),
    decreases events.len(),
{
    if events.len() > 0 {
        let rest = events.drop_last();
        law_packets_are_sent_in_order(rest);
        let end = MessageLoopEventView::Message(None);
        if rest.contains(end) {
            let i = choose|i: int| 0 <= i < rest.len() && rest[i] == end;
            assert(events[i] == end);
        }
        if events.contains(end) && !rest.contains(end) {
            let i = choose|i: int| 0 <= i < events.len() && events[i] == end;
            if i < rest.len() {
                assert(rest[i] == end);
            }
        }
        assert(events[events.len() - 1] == events.last());
        assert(queued(rest).is_prefix_of(queued(events)));
    }
}

/// What one peer's loop sends for a packet, the other peer passes on as that very packet.
pub proof fn law_packets_arrive_unchanged(sender: Seq<char>, packet: Seq<u8>, data: Bytes)
    requires
        message_loop_action(MessageLoopEventView::Message(Some(packet)))
            == MessageLoopActionView::Send(byte_content(data)),
    ensures
        arrival(sender, data) == (sender, packet),
{
}

/// What names the peer as left: the first event that ends the loop, if there is one.
pub open spec fn leaves_at(events: Seq<PeerLoopEvent>, i: int) -> bool {
    &&& 0 <= i < events.len()
    &&& events[i].ends_the_loop()
    &&& forall|j: int| 0 <= j < i ==> !(#[trigger] events[j]).ends_the_loop()
}

/// A peer is left once its loss was reported or the loop of one of its data channels has
/// finished, and not before.
pub proof fn law_peer_is_left_when_lost(events: Seq<PeerLoopEvent>)
    ensures
        (exists|i: int| leaves_at(events, i)) <==> (events.contains(
            PeerLoopEvent::PeerDisconnected,
        ) || events.contains(PeerLoopEvent::MessageLoopFinished)),
    decreases events.len(),
{
    if exists|i: int| leaves_at(events, i) {
        let i = choose|i: int| leaves_at(events, i);
        assert(events.contains(events[i]));
    }
    if events.len() > 0 {
        let rest = events.drop_last();
        law_peer_is_left_when_lost(rest);
        if exists|i: int| leaves_at(rest, i) {
            let i = choose|i: int| leaves_at(rest, i);
            assert forall|j: int| 0 <= j < i implies !(#[trigger] events[j]).ends_the_loop() by {
                assert(events[j] == rest[j]);
            }
            assert(leaves_at(events, i));
        } else {
            let last = events.len() - 1;
            assert forall|j: int| 0 <= j < last implies !(#[trigger] events[j]).ends_the_loop() by {
                assert(rest[j] == events[j]);
                assert(rest.contains(rest[j]));
            }
            if events[last].ends_the_loop() {
                assert(leaves_at(events, last));
            }
        }
    }
}

/// A packet is sent with all its bytes, whatever they are; only the end of the queue ends the
/// loop, and what became of a packet does not.
pub proof fn law_the_loop_sends_what_is_queued(packet: Seq<u8>, sent: bool)
    ensures
        message_loop_action(MessageLoopEventView::Message(Some(packet)))
            == MessageLoopActionView::Send(packet),
        message_loop_action(MessageLoopEventView::Message(None)) is Finish,
        message_loop_action(MessageLoopEventView::Sent(sent)) is AwaitMessage,
{
}

/// Of the events of a peer's loop, only the end of listening leaves the peer connected.
pub proof fn law_only_the_end_of_listening_keeps_the_peer(event: PeerLoopEvent)
    ensures
        event.ends_the_loop() <==> (event == PeerLoopEvent::PeerDisconnected || event
            == PeerLoopEvent::MessageLoopFinished),
{
}

/// What a data channel's loop is told and does is seen as it is.
pub proof fn law_loop_events_are_seen_whole(
    packet: Packet,
    sent: Result<usize, webrtc::Error>,
    bytes: Bytes,
)
    ensures
        MessageLoopEvent::Message(Some(packet))@ == MessageLoopEventView::Message(Some(packet@)),
        MessageLoopEvent::Message(None)@ == MessageLoopEventView::Message(None),
        MessageLoopEvent::Sent(sent)@ == MessageLoopEventView::Sent(sent is Ok),
        MessageLoopAction::Send(bytes)@ == MessageLoopActionView::Send(byte_content(bytes)),
        MessageLoopAction::AwaitMessage@ is AwaitMessage,
        MessageLoopAction::Finish@ is Finish,
{
}

} // verus!
