//! The way to one peer through the signalling server.
use futures_channel::mpsc::UnboundedSender;
use vstd::prelude::*;

use crate::messages::{PeerId, PeerRequest, PeerRequestView, PeerSignal, PeerSignalView};
use crate::mpsc::{accepted, law_one_more_attempt, Outbox};

verus! {

/// A peer, and the queue of requests to the signalling server that reach it.
pub struct SignalPeer {
    pub id: PeerId,
    pub outbox: Outbox<PeerRequest>,
}

/// The request that carries `signal` to the peer `receiver`.
pub open spec fn request_to(receiver: Seq<char>, signal: PeerSignalView) -> PeerRequestView {
    PeerRequestView { receiver, data: signal }
}

impl SignalPeer {
    /// The requests handed to the queue through this handle so far, first to last, each with
    /// whether the queue took it.
    pub open spec fn tried(&self) -> Seq<(PeerRequestView, bool)> {
        self.outbox.tried().map_values(|attempt: (PeerRequest, bool)| (attempt.0@, attempt.1))
    }

    /// The requests that the queue has taken from this handle so far, first to last.
    pub open spec fn sent(&self) -> Seq<PeerRequestView> {
        accepted(self.tried())
    }

    /// A handle on the peer `id`, through which nothing was tried yet.
    pub fn new(id: PeerId, sender: UnboundedSender<PeerRequest>) -> (res: Self)
        ensures
            res.id == id,
            res.tried() == Seq::<(PeerRequestView, bool)>::empty(),
            res.sent() == Seq::<PeerRequestView>::empty(),
    {
        let res = SignalPeer { id, outbox: Outbox::new(sender) };
        assert(res.tried() =~= Seq::<(PeerRequestView, bool)>::empty());
        res
    }

    /// Sends `signal` to this peer: the request that carries it is handed to the queue, once.
    /// Where the queue refuses it, nothing is sent and the signal comes back.
    pub fn send(&mut self, signal: PeerSignal) -> (res: Result<(), PeerSignal>)
        ensures
            final(self).id == old(self).id,
            final(self).tried() == old(self).tried().push(
                (request_to(old(self).id@, signal@), res is Ok),
            ),
            final(self).outbox.tried().len() == old(self).outbox.tried().len() + 1,
            final(self).outbox.tried().drop_last() == old(self).outbox.tried(),
            final(self).outbox.tried().last().0.receiver@ == old(self).id@,
            final(self).outbox.tried().last().0.data == signal,
            final(self).outbox.tried().last().1 == (res is Ok),
            match res {
                Ok(_) => final(self).sent() == old(self).sent().push(
                    request_to(old(self).id@, signal@),
                ),
                Err(back) => back == signal && final(self).sent() == old(self).sent(),
            },
    {
        let request = PeerRequest { receiver: self.id.clone(), data: signal };
        let ghost attempted = request@;
        let res = match self.outbox.post(request) {
            Ok(()) => Ok(()),
            Err(back) => Err(back.data),
        };
        proof {
            assert(self.tried() =~= old(self).tried().push((attempted, res is Ok)));
            law_one_more_attempt(old(self).tried(), attempted, res is Ok);
        }
        res
    }
}

/// A request goes to the very peer that it is meant for, and carries the very signal, with no
/// character of its text changed, added or left out.
pub proof fn law_a_request_carries_the_signal_itself(receiver: Seq<char>, signal: PeerSignalView)
    ensures
        request_to(receiver, signal).receiver == receiver,
        request_to(receiver, signal).data == signal,
{
}

/// Every attempt is seen for what was handed to the queue: the same receiver, the same signal and
/// the same answer, one for one.
pub proof fn law_attempts_are_seen_one_for_one(peer: SignalPeer)
    ensures
        peer.tried().len() == peer.outbox.tried().len(),
        forall|i: int|
            0 <= i < peer.tried().len() ==> {
                let handed = peer.outbox.tried()[i];
                let seen = #[trigger] peer.tried()[i];
                &&& seen.0.receiver == handed.0.receiver@
                &&& seen.0.data == handed.0.data@
                &&& seen.1 == handed.1
            },
{
}

} // verus!
