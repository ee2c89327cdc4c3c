//! The data channels of a connection: how they are laid out, and what their events mean.
use bytes::Bytes;
use vstd::prelude::*;
use vstd::string::*;

use crate::decimal::{append_decimal, decimal, law_decimal_is_injective};
use crate::messages::{Packet, PeerId};
use crate::mpsc::{
    accepted, law_one_more_attempt, MessagingError, Notifier, NotifyError, Outbox,
};
use crate::packet::{byte_content, to_packet};

verus! {

/// What the user of a socket asks of one data channel.
#[derive(Debug, PartialEq, Eq, Clone, Copy)]
pub struct ChannelConfig {
    /// Whether messages arrive in the order in which they were sent.
    pub ordered: bool,
    /// How often a message is sent again that was not received; `None` for as often as it
    /// takes.
    pub max_retransmits: Option<u16>,
}

/// What a data channel is created with; all else is left at its default.
#[derive(Debug, PartialEq, Eq, Clone, Copy)]
pub struct DataChannelInit {
    pub ordered: Option<bool>,
    /// The identifier that both peers give the channel.
    pub negotiated: Option<u16>,
    pub max_retransmits: Option<u16>,
}

/// A data channel that is to be created.
#[derive(Debug, PartialEq, Eq)]
pub struct DataChannelSetup {
    pub label: String,
    pub init: DataChannelInit,
}

/// A data channel that is to be created, with its label as a sequence of characters.
pub struct DataChannelSetupView {
    pub label: Seq<char>,
    pub init: DataChannelInit,
}

impl View for DataChannelSetup {
    type V = DataChannelSetupView;

    open spec fn view(&self) -> DataChannelSetupView {
        DataChannelSetupView { label: self.label@, init: self.init }
    }
}

/// The label of the channel at `index`.
pub open spec fn channel_label(index: nat) -> Seq<char> {
    "matchbox_socket_"@ + decimal(index)
}

/// The identifier of the channel at `index`: its last sixteen bits.
pub open spec fn channel_id(index: nat) -> u16 {
    (index % 0x1_0000) as u16
}

/// How the channel at `index` is created.
pub open spec fn channel_setup(config: ChannelConfig, index: nat) -> DataChannelSetupView {
    DataChannelSetupView {
        label: channel_label(index),
        init: DataChannelInit {
            ordered: Some(config.ordered),
            negotiated: Some(channel_id(index)),
            max_retransmits: config.max_retransmits,
        },
    }
}

/// How the channel at `channel_index` is created.
pub fn create_data_channel(channel_config: &ChannelConfig, channel_index: usize) -> (res:
    DataChannelSetup)
    ensures
        res@ == channel_setup(*channel_config, channel_index as nat),
        res.label@ == "matchbox_socket_"@ + decimal(channel_index as nat),
        res.init.ordered == Some(channel_config.ordered),
        res.init.negotiated matches Some(id) && id == channel_index % 0x1_0000,
        res.init.max_retransmits == channel_config.max_retransmits,
{
    let mut label = String::from_str("matchbox_socket_");
    append_decimal(&mut label, channel_index);
    #[verifier::truncate]
    let negotiated: u16 = channel_index as u16;
    assert(channel_index as u16 == channel_index % 0x1_0000) by (bit_vector);
    DataChannelSetup {
        label,
        init: DataChannelInit {
            ordered: Some(channel_config.ordered),
            negotiated: Some(negotiated),
            max_retransmits: channel_config.max_retransmits,
        },
    }
}

/// A data channel that is to be created, and who is told of its events.
#[derive(Debug)]
pub struct DataChannelPlan<R, D, M> {
    pub setup: DataChannelSetup,
    /// The peer at the other end.
    pub peer_id: PeerId,
    /// Is told when the channel is open.
    pub ready: R,
    /// Is told when the channel is closed.
    pub disconnected: D,
    /// Takes the packets that arrive.
    pub messages: M,
}

/// Which of `count` is told that the channel at `index` is open: they are taken from the end.
pub open spec fn ready_index(count: nat, index: int) -> int {
    count - 1 - index
}

/// Plans one data channel for each of `channel_configs`, in their order. The channel at `i`
/// passes its packets to the taker at `i`; the ones who are told that a channel is open are
/// taken from the end.
pub fn create_data_channels<R, D: Clone, M: Clone>(
    data_channel_ready: Vec<R>,
    peer_id: PeerId,
    peer_disconnected: D,
    from_peer_messages: Vec<M>,
    channel_configs: &Vec<ChannelConfig>,
) -> (res: Vec<DataChannelPlan<R, D, M>>)
    requires
        channel_configs@.len() <= data_channel_ready@.len(),
        channel_configs@.len() <= from_peer_messages@.len(),
    ensures
        res@.len() == channel_configs@.len(),
        forall|i: int|
            0 <= i < res@.len() ==> {
                let plan = #[trigger] res@[i];
                &&& plan.setup@ == channel_setup(channel_configs@[i], i as nat)
                &&& plan.setup.label@ == "matchbox_socket_"@ + decimal(i as nat)
                &&& plan.setup.init.ordered == Some(channel_configs@[i].ordered)
                &&& plan.setup.init.negotiated matches Some(id) && id == i % 0x1_0000
                &&& plan.setup.init.max_retransmits == channel_configs@[i].max_retransmits
                &&& plan.peer_id@ == peer_id@
                &&& plan.ready == data_channel_ready@[ready_index(data_channel_ready@.len(), i)]
                &&& plan.ready == data_channel_ready@[data_channel_ready@.len() - 1 - i]
                &&& cloned(peer_disconnected, plan.disconnected)
                &&& cloned(from_peer_messages@[i], plan.messages)
            },
{
    let mut ready = data_channel_ready;
    let mut plans: Vec<DataChannelPlan<R, D, M>> = Vec::new();
    let mut i: usize = 0;
    while i < channel_configs.len()
        invariant
            i <= channel_configs@.len(),
            channel_configs@.len() <= data_channel_ready@.len(),
            channel_configs@.len() <= from_peer_messages@.len(),
            ready@ == data_channel_ready@.take(data_channel_ready@.len() - i),
            plans@.len() == i,
            forall|j: int|
                0 <= j < i ==> {
                    let plan = #[trigger] plans@[j];
                    &&& plan.setup@ == channel_setup(channel_configs@[j], j as nat)
                    &&& plan.setup.label@ == "matchbox_socket_"@ + decimal(j as nat)
                    &&& plan.setup.init.ordered == Some(channel_configs@[j].ordered)
                    &&& plan.setup.init.negotiated matches Some(id) && id == j % 0x1_0000
                    &&& plan.setup.init.max_retransmits == channel_configs@[j].max_retransmits
                    &&& plan.peer_id@ == peer_id@
                    &&& plan.ready == data_channel_ready@[ready_index(data_channel_ready@.len(), j)]
                    &&& cloned(peer_disconnected, plan.disconnected)
                    &&& cloned(from_peer_messages@[j], plan.messages)
                },
        decreases channel_configs@.len() - i,
    {
        let plan = DataChannelPlan {
            setup: create_data_channel(&channel_configs[i], i),
            peer_id: peer_id.clone(),
            ready: ready.pop().unwrap(),
            disconnected: peer_disconnected.clone(),
            messages: from_peer_messages[i].clone(),
        };
        plans.push(plan);
        i = i + 1;
    }
    plans
}

/// Among as many as there are channels, each is told of one channel, and no two of the same.
pub proof fn law_every_channel_reports_ready(count: nat, who: int)
    requires
        0 <= who < count,
    ensures
        exists|i: int| 0 <= i < count && #[trigger] ready_index(count, i) == who,
        forall|i: int, j: int|
            0 <= i < count && 0 <= j < count && #[trigger] ready_index(count, i)
                == #[trigger] ready_index(count, j) ==> i == j,
{
    assert(ready_index(count, ready_index(count, who)) == who);
}

/// A data channel has opened: whoever waits for it is told. The one notification that this
/// takes is tried once, and what is returned is what the channel answered to it.
pub fn on_open(channel_ready: &mut Notifier) -> (res: Result<(), NotifyError>)
    ensures
        final(channel_ready).answers() == old(channel_ready).answers().push(res),
        final(channel_ready).sent() == old(channel_ready).sent() + (if res is Ok {
            1nat
        } else {
            0nat
        }),
{
    channel_ready.notify()
}

/// A data channel has closed: the loss of the peer is reported to whoever waits for it. The
/// report is tried once, and what is returned is what the channel answered to it.
pub fn on_close(peer_disconnected: &mut Notifier) -> (res: Result<(), NotifyError>)
    ensures
        final(peer_disconnected).answers() == old(peer_disconnected).answers().push(res),
        final(peer_disconnected).sent() == old(peer_disconnected).sent() + (if res is Ok {
            1nat
        } else {
            0nat
        }),
{
    peer_disconnected.notify()
}

/// What a message from `peer` is passed on as: all its bytes, under the peer's name.
pub open spec fn arrival(peer: Seq<char>, data: Bytes) -> (Seq<char>, Seq<u8>) {
    (peer, byte_content(data))
}

/// Passes on the packets that arrive from one peer.
pub struct FromPeer {
    pub peer_id: PeerId,
    pub outbox: Outbox<(PeerId, Packet)>,
}

impl FromPeer {
    /// The packets handed on so far, first to last, each with the peer that it came from and
    /// with whether it was taken.
    pub open spec fn tried(&self) -> Seq<((Seq<char>, Seq<u8>), bool)> {
        self.outbox.tried().map_values(
            |attempt: ((PeerId, Packet), bool)| ((attempt.0.0@, attempt.0.1@), attempt.1),
        )
    }

    /// The packets passed on so far, first to last, each with the peer that it came from.
    pub open spec fn passed_on(&self) -> Seq<(Seq<char>, Seq<u8>)> {
        accepted(self.tried())
    }

    /// A message has arrived: all its bytes are passed on as a packet, under the peer's name.
    /// The packet is handed to the channel once, and is not passed on only where the channel
    /// refuses it.
    pub fn on_message(&mut self, data: &Bytes) -> (res: Result<(), MessagingError>)
        ensures
            final(self).peer_id == old(self).peer_id,
            final(self).tried() == old(self).tried().push(
                (arrival(old(self).peer_id@, *data), res is Ok),
            ),
            final(self).outbox.tried().len() == old(self).outbox.tried().len() + 1,
            final(self).outbox.tried().drop_last() == old(self).outbox.tried(),
            final(self).outbox.tried().last().0.0@ == old(self).peer_id@,
            final(self).outbox.tried().last().0.1@ == byte_content(*data),
            final(self).outbox.tried().last().1 == (res is Ok),
            match res {
                Ok(_) => final(self).passed_on() == old(self).passed_on().push(
                    arrival(old(self).peer_id@, *data),
                ),
                Err(MessagingError::Undeliverable(back)) => back@ == byte_content(*data)
                    && final(self).passed_on() == old(self).passed_on(),
            },
    {
        let message = (self.peer_id.clone(), to_packet(data));
        let res = match self.outbox.post(message) {
            Ok(()) => Ok(()),
            Err(back) => Err(MessagingError::Undeliverable(back.1)),
        };
        proof {
            let arrived = arrival(old(self).peer_id@, *data);
            assert(self.tried() =~= old(self).tried().push((arrived, res is Ok)));
            law_one_more_attempt(old(self).tried(), arrived, res is Ok);
        }
        res
    }
}

/// What messages from `peer`, each with whether it was taken when it was passed on, add to what
/// was tried before.
pub open spec fn after_messages(
    tried: Seq<((Seq<char>, Seq<u8>), bool)>,
    peer: Seq<char>,
    messages: Seq<(Bytes, bool)>,
) -> Seq<((Seq<char>, Seq<u8>), bool)>
    decreases messages.len(),
{
    if messages.len() == 0 {
        tried
    } else {
        let (data, taken) = messages.last();
        after_messages(tried, peer, messages.drop_last()).push((arrival(peer, data), taken))
    }
}

/// What messages from `peer` are passed on as, one by one.
pub open spec fn arrivals(peer: Seq<char>, messages: Seq<(Bytes, bool)>) -> Seq<
    (Seq<char>, Seq<u8>),
> {
    messages.map_values(|message: (Bytes, bool)| arrival(peer, message.0))
}

/// Messages that arrive one after the other are passed on in this order, each once and with all
/// its bytes, as long as the channel takes them.
pub proof fn law_messages_are_passed_on_in_order(
    tried: Seq<((Seq<char>, Seq<u8>), bool)>,
    peer: Seq<char>,
    messages: Seq<(Bytes, bool)>,
)
    requires
        forall|i: int| 0 <= i < messages.len() ==> (#[trigger] messages[i]).1,
    ensures
        accepted(after_messages(tried, peer, messages)) == accepted(tried) + arrivals(
            peer,
            messages,
        ),
    decreases messages.len(),
{
    if messages.len() == 0 {
        assert(accepted(tried) + arrivals(peer, messages) =~= accepted(tried));
    } else {
        let rest = messages.drop_last();
        let (data, taken) = messages.last();
        assert forall|i: int| 0 <= i < rest.len() implies (#[trigger] rest[i]).1 by {
            assert(rest[i] == messages[i]);
        }
        law_messages_are_passed_on_in_order(tried, peer, rest);
        assert(messages[messages.len() - 1].1);
        law_one_more_attempt(after_messages(tried, peer, rest), arrival(peer, data), taken);
        assert(accepted(tried) + arrivals(peer, messages) =~= (accepted(tried) + arrivals(
            peer,
            rest,
        )).push(arrival(peer, data)));
    }
}

/// No two channels of a connection have the same label.
pub proof fn law_labels_are_distinct(i: nat, j: nat)
    requires
        i != j,
    ensures
        channel_label(i) != channel_label(j),
{
    if channel_label(i) == channel_label(j) {
        let n = "matchbox_socket_"@.len() as int;
        assert(decimal(i) =~= channel_label(i).skip(n));
        assert(decimal(j) =~= channel_label(j).skip(n));
        law_decimal_is_injective(i, j);
    }
}

/// The identifier of a channel is its index, and no two channels have the same, as far as
/// identifiers reach.
pub proof fn law_ids_are_distinct(i: nat, j: nat)
    requires
        i < 0x1_0000,
        j < 0x1_0000,
    ensures
        channel_id(i) == i,
        channel_id(i) == channel_id(j) ==> i == j,
{
}

/// Two peers give the channel at the same index the same label and the same identifier,
/// whatever each of them asks of it.
pub proof fn law_peers_agree_on_channels(mine: ChannelConfig, theirs: ChannelConfig, index: nat)
    ensures
        channel_setup(mine, index).label == channel_setup(theirs, index).label,
        channel_setup(mine, index).init.negotiated == channel_setup(theirs, index).init.negotiated,
{
}

/// A channel is created with what was asked of it: its order and its retransmissions are those of
/// its configuration, whatever they are, and its label and its identifier come of its index alone.
pub proof fn law_a_channel_is_set_up_as_asked(config: ChannelConfig, index: nat)
    ensures
        channel_setup(config, index).init.ordered == Some(config.ordered),
        channel_setup(config, index).init.max_retransmits == config.max_retransmits,
        channel_setup(config, index).init.negotiated matches Some(id) && id == index % 0x1_0000,
        channel_setup(config, index).label == "matchbox_socket_"@ + decimal(index),
        channel_label(index) == "matchbox_socket_"@ + decimal(index),
        channel_id(index) == index % 0x1_0000,
{
}

/// What is created for a channel is its configuration, seen from the other end: two configurations
/// give the same channel only if they ask for the same.
pub proof fn law_settings_are_not_confused(
    one: ChannelConfig,
    other: ChannelConfig,
    index: usize,
    first: DataChannelSetup,
    second: DataChannelSetup,
)
    requires
        call_ensures(create_data_channel, (&one, index), first),
        call_ensures(create_data_channel, (&other, index), second),
    ensures
        first.init.ordered == Some(one.ordered),
        first.init.max_retransmits == one.max_retransmits,
        first.init.ordered == second.init.ordered <==> one.ordered == other.ordered,
        first.init.max_retransmits == second.init.max_retransmits <==> one.max_retransmits
            == other.max_retransmits,
        first.init.negotiated == second.init.negotiated,
        first.label@ == second.label@,
{
}

/// A setup is seen as it is.
pub proof fn law_setups_are_seen_whole(setup: DataChannelSetup)
    ensures
        setup@.label == setup.label@,
        setup@.init == setup.init,
{
}

/// A message is passed on under the name of the peer that sent it, with all its bytes.
pub proof fn law_an_arrival_is_the_message_itself(peer: Seq<char>, data: Bytes)
    ensures
        arrival(peer, data).0 == peer,
        arrival(peer, data).1 == byte_content(data),
{
}

/// The ones who are told that a channel is open are taken from the end.
pub proof fn law_ready_reports_are_taken_from_the_end(count: nat, index: int)
    ensures
        ready_index(count, index) + index == count - 1,
{
}

} // verus!
