//! The sending ends of the channels that connect the tasks of a socket.
use futures_channel::mpsc::{Sender, UnboundedSender};
use vstd::prelude::*;

use crate::messages::Packet;

verus! {

/// The sending end of a bounded channel, as `futures_channel` has it.
#[verifier::external_type_specification]
#[verifier::external_body]
#[verifier::reject_recursive_types(T)]
pub struct ExSender<T>(futures_channel::mpsc::Sender<T>);

/// The sending end of an unbounded channel, as `futures_channel` has it.
#[verifier::external_type_specification]
#[verifier::external_body]
#[verifier::reject_recursive_types(T)]
pub struct ExUnboundedSender<T>(futures_channel::mpsc::UnboundedSender<T>);

/// What was taken among attempts at sending, each with whether it was taken, first to last.
pub open spec fn accepted<T>(tried: Seq<(T, bool)>) -> Seq<T>
    decreases tried.len(),
{
    if tried.len() == 0 {
        Seq::empty()
    } else if tried.last().1 {
        accepted(tried.drop_last()).push(tried.last().0)
    } else {
        accepted(tried.drop_last())
    }
}

/// The attempts at sending `messages` one after the other, when each of them is taken.
pub open spec fn all_taken<T>(messages: Seq<T>) -> Seq<(T, bool)> {
    messages.map_values(|message: T| (message, true))
}

/// A handle on an unbounded channel, with the record of every attempt to send through it.
#[verifier::reject_recursive_types(T)]
pub struct Outbox<T> {
    tx: UnboundedSender<T>,
    tried: Ghost<Seq<(T, bool)>>,
}

impl<T> Outbox<T> {
    /// What was handed to the channel through this handle so far, first to last, each with
    /// whether the channel took it.
    pub closed spec fn tried(&self) -> Seq<(T, bool)> {
        self.tried@
    }

    /// What the channel has taken from this handle so far, first to last.
    pub open spec fn sent(&self) -> Seq<T> {
        accepted(self.tried())
    }

    /// A handle through which nothing was tried yet.
    pub fn new(tx: UnboundedSender<T>) -> (res: Self)
        ensures
            res.tried() == Seq::<(T, bool)>::empty(),
            res.sent() == Seq::<T>::empty(),
    {
        Outbox { tx, tried: Ghost(Seq::empty()) }
    }

    /// `futures_channel::mpsc::UnboundedSender::unbounded_send`: hands `message` to the
    /// channel, which queues it behind all others or gives it back. The channel refuses what
    /// it is handed exactly when its receiving end is dropped or closed; as nothing on this
    /// side sees that end, the contract leaves open which of the two happens, and says only
    /// that the attempt was made and how it was answered. The call would panic on a queue of
    /// half the address space, which memory rules out.
    #[verifier::external_body]
    fn unbounded_send(&mut self, message: T) -> (res: Result<(), T>)
        ensures
            final(self).tried() == old(self).tried().push((message, res is Ok)),
            res matches Err(back) ==> back == message,
    {
        self.tx.unbounded_send(message).map_err(|e| e.into_inner())
    }

    /// Hands `message` to the channel, once, and returns how the channel answers: a message
    /// that it refuses comes back.
    pub(crate) fn post(&mut self, message: T) -> (res: Result<(), T>)
        ensures
            final(self).tried() == old(self).tried().push((message, res is Ok)),
            match res {
                Ok(_) => final(self).sent() == old(self).sent().push(message),
                Err(back) => back == message && final(self).sent() == old(self).sent(),
            },
    {
        let res = self.unbounded_send(message);
        proof {
            law_one_more_attempt(old(self).tried(), message, res is Ok);
        }
        res
    }
}

/// An attempt adds to what was sent where it was taken, and changes nothing where it was
/// refused.
pub proof fn law_one_more_attempt<T>(tried: Seq<(T, bool)>, message: T, taken: bool)
    ensures
        accepted(tried.push((message, taken))) == (if taken {
            accepted(tried).push(message)
        } else {
            accepted(tried)
        }),
{
    assert(tried.push((message, taken)).drop_last() =~= tried);
}

/// Where nothing was tried, nothing was sent.
pub proof fn law_nothing_is_sent_untried<T>()
    ensures
        accepted(Seq::<(T, bool)>::empty()) == Seq::<T>::empty(),
{
}

/// What is always taken is tried one for one, each as taken.
pub proof fn law_what_is_always_taken_is_tried<T>(messages: Seq<T>)
    ensures
        all_taken(messages).len() == messages.len(),
        forall|i: int|
            0 <= i < messages.len() ==> #[trigger] all_taken(messages)[i] == (messages[i], true),
{
}

/// What is sent in two rounds is what is sent in the first, and then what is sent in the
/// second.
pub proof fn law_rounds_of_attempts_add_up<T>(first: Seq<(T, bool)>, second: Seq<(T, bool)>)
    ensures
        accepted(first + second) == accepted(first) + accepted(second),
    decreases second.len(),
{
    if second.len() == 0 {
        assert(first + second =~= first);
        assert(accepted(first) + accepted(second) =~= accepted(first));
    } else {
        law_rounds_of_attempts_add_up(first, second.drop_last());
        assert((first + second).drop_last() =~= first + second.drop_last());
        assert(accepted(first + second) =~= accepted(first) + accepted(second));
    }
}

/// Where every attempt is taken, what is sent is what was tried, in the same order.
pub proof fn law_what_is_always_taken_is_sent<T>(messages: Seq<T>)
    ensures
        accepted(all_taken(messages)) == messages,
    decreases messages.len(),
{
    if messages.len() == 0 {
        assert(accepted(all_taken(messages)) =~= messages);
    } else {
        law_what_is_always_taken_is_sent(messages.drop_last());
        assert(all_taken(messages).drop_last() =~= all_taken(messages.drop_last()));
        assert(accepted(all_taken(messages)) =~= messages);
    }
}

/// What was sent was tried, and was taken then.
pub proof fn law_what_is_sent_was_tried<T>(tried: Seq<(T, bool)>, message: T)
    requires
        accepted(tried).contains(message),
    ensures
        tried.contains((message, true)),
    decreases tried.len(),
{
    let sent = accepted(tried);
    let i = choose|i: int| 0 <= i < sent.len() && sent[i] == message;
    let rest = tried.drop_last();
    if tried.last().1 && i == sent.len() - 1 {
        assert(tried[tried.len() - 1] == (message, true));
    } else {
        assert(accepted(rest)[i] == message);
        law_what_is_sent_was_tried(rest, message);
        let j = choose|j: int| 0 <= j < rest.len() && rest[j] == (message, true);
        assert(tried[j] == (message, true));
    }
}

/// Why a packet did not get on its way.
#[derive(Debug, PartialEq, Eq)]
pub enum MessagingError {
    /// The channel refused it; this is the packet that was not taken.
    Undeliverable(Packet),
}

impl Outbox<Packet> {
    /// Queues a packet for the peer. It is handed to the channel once; where the channel
    /// refuses it, the error carries it.
    pub fn send(&mut self, packet: Packet) -> (res: Result<(), MessagingError>)
        ensures
            final(self).tried() == old(self).tried().push((packet, res is Ok)),
            match res {
                Ok(_) => final(self).sent() == old(self).sent().push(packet),
                Err(MessagingError::Undeliverable(back)) => back == packet
                    && final(self).sent() == old(self).sent(),
            },
    {
        match self.post(packet) {
            Ok(()) => Ok(()),
            Err(back) => Err(MessagingError::Undeliverable(back)),
        }
    }
}

/// Why a notification was not taken.
#[derive(Debug, PartialEq, Eq, Clone, Copy)]
pub enum NotifyError {
    /// There is no room for it now.
    Full,
    /// The receiving end of the channel is gone.
    Disconnected,
}

/// How many of the notifications with these answers were taken.
pub open spec fn taken(answers: Seq<Result<(), NotifyError>>) -> nat
    decreases answers.len(),
{
    if answers.len() == 0 {
        0
    } else {
        taken(answers.drop_last()) + (if answers.last() is Ok { 1nat } else { 0nat })
    }
}

/// A handle on a bounded channel that carries bare notifications, with the record of what
/// the channel answered to each one that was tried through it.
pub struct Notifier {
    tx: Sender<()>,
    answers: Ghost<Seq<Result<(), NotifyError>>>,
}

impl Notifier {
    /// What the channel answered to the notifications tried through this handle so far, first
    /// to last.
    pub closed spec fn answers(&self) -> Seq<Result<(), NotifyError>> {
        self.answers@
    }

    /// How many notifications the channel has taken from this handle so far.
    pub open spec fn sent(&self) -> nat {
        taken(self.answers())
    }

    /// A handle through which nothing was tried yet.
    pub fn new(tx: Sender<()>) -> (res: Self)
        ensures
            res.answers() == Seq::<Result<(), NotifyError>>::empty(),
            res.sent() == 0,
    {
        Notifier { tx, answers: Ghost(Seq::empty()) }
    }

    /// `futures_channel::mpsc::Sender::try_send`: tries one notification, and returns what the
    /// channel answers: that it was queued, or why it was not. Which of these it is, is up to
    /// the receiving end.
    #[verifier::external_body]
    fn try_send(&mut self) -> (res: Result<(), NotifyError>)
        ensures
            final(self).answers() == old(self).answers().push(res),
    {
        self.tx.try_send(()).map_err(
            |e| if e.is_full() { NotifyError::Full } else { NotifyError::Disconnected },
        )
    }

    /// Tries one notification, and returns what the channel answers to it.
    pub(crate) fn notify(&mut self) -> (res: Result<(), NotifyError>)
        ensures
            final(self).answers() == old(self).answers().push(res),
            final(self).sent() == old(self).sent() + (if res is Ok { 1nat } else { 0nat }),
    {
        let res = self.try_send();
        assert(self.answers().drop_last() =~= old(self).answers());
        res
    }
}

/// Each notification that is taken counts for one, and one that is not taken for nothing.
pub proof fn law_taken_notifications_are_counted(
    answers: Seq<Result<(), NotifyError>>,
    answer: Result<(), NotifyError>,
)
    ensures
        taken(Seq::<Result<(), NotifyError>>::empty()) == 0,
        answer is Ok ==> taken(answers.push(answer)) == taken(answers) + 1,
        answer is Err ==> taken(answers.push(answer)) == taken(answers),
{
    assert(answers.push(answer).drop_last() =~= answers);
}

} // verus!
