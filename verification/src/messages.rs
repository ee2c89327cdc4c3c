//! What peers tell each other, through the signalling server and over their data channels.
use vstd::prelude::*;

verus! {

/// Texts as sequences of characters.
pub open spec fn texts(strings: Seq<String>) -> Seq<Seq<char>> {
    strings.map_values(|s: String| s@)
}

/// What a data channel carries in one message.
pub type Packet = Box<[u8]>;

/// The name under which the signalling server knows a peer.
#[derive(Debug, PartialEq, Eq)]
pub struct PeerId(pub String);

impl View for PeerId {
    type V = Seq<char>;

    open spec fn view(&self) -> Seq<char> {
        self.0@
    }
}

impl Clone for PeerId {
    fn clone(&self) -> (res: Self)
        ensures
            res@ == self@,
    {
        PeerId(self.0.clone())
    }
}

/// What two peers exchange while they set up their connection.
#[derive(Debug, PartialEq, Eq)]
pub enum PeerSignal {
    /// The session description that opens a handshake.
    Offer(String),
    /// The session description that replies to an offer.
    Answer(String),
    /// An ICE candidate, as JSON.
    IceCandidate(String),
}

/// A signal, with its text as a sequence of characters.
pub enum PeerSignalView {
    Offer(Seq<char>),
    Answer(Seq<char>),
    IceCandidate(Seq<char>),
}

impl View for PeerSignal {
    type V = PeerSignalView;

    open spec fn view(&self) -> PeerSignalView {
        match self {
            PeerSignal::Offer(sdp) => PeerSignalView::Offer(sdp@),
            PeerSignal::Answer(sdp) => PeerSignalView::Answer(sdp@),
            PeerSignal::IceCandidate(json) => PeerSignalView::IceCandidate(json@),
        }
    }
}

/// What the signalling server is asked to do: hand `data` to `receiver`.
#[derive(Debug, PartialEq, Eq)]
pub struct PeerRequest {
    pub receiver: PeerId,
    pub data: PeerSignal,
}

/// A request, with its receiver and its signal as mathematical values.
pub struct PeerRequestView {
    pub receiver: Seq<char>,
    pub data: PeerSignalView,
}

impl View for PeerRequest {
    type V = PeerRequestView;

    open spec fn view(&self) -> PeerRequestView {
        PeerRequestView { receiver: self.receiver@, data: self.data@ }
    }
}

/// Texts are seen one for one, each with all its characters.
pub proof fn law_texts_are_seen_whole(strings: Seq<String>)
    ensures
        texts(strings).len() == strings.len(),
        forall|i: int| 0 <= i < strings.len() ==> #[trigger] texts(strings)[i] == strings[i]@,
{
}

/// A signal is seen as what it is, with its whole text.
pub proof fn law_signals_are_seen_whole(text: String)
    ensures
        PeerSignal::Offer(text)@ == PeerSignalView::Offer(text@),
        PeerSignal::Answer(text)@ == PeerSignalView::Answer(text@),
        PeerSignal::IceCandidate(text)@ == PeerSignalView::IceCandidate(text@),
{
}

/// A request is seen with the whole name of its receiver, and with its signal.
pub proof fn law_requests_are_seen_whole(name: String, data: PeerSignal)
    ensures
        PeerId(name)@ == name@,
        (PeerRequest { receiver: PeerId(name), data })@.receiver == name@,
        (PeerRequest { receiver: PeerId(name), data })@.data == data@,
{
}

} // verus!
