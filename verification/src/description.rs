//! Session descriptions that come from the peer.
use vstd::prelude::*;
use webrtc::peer_connection::sdp::session_description::RTCSessionDescription;

verus! {

/// A session description, as the WebRTC stack has it.
#[verifier::external_type_specification]
#[verifier::external_body]
pub struct ExRtcSessionDescription(
    webrtc::peer_connection::sdp::session_description::RTCSessionDescription,
);

/// What a session description is for.
#[derive(Debug, PartialEq, Eq, Clone, Copy)]
pub enum SdpKind {
    Offer,
    Answer,
}

/// A session description of the peer that could be read.
#[derive(Debug)]
pub struct SessionDescription {
    kind: SdpKind,
    sdp: String,
    rtc: RTCSessionDescription,
}

/// A session description: what it is for, and its text.
pub struct SessionDescriptionView {
    pub kind: SdpKind,
    pub sdp: Seq<char>,
}

impl View for SessionDescription {
    type V = SessionDescriptionView;

    closed spec fn view(&self) -> SessionDescriptionView {
        SessionDescriptionView { kind: self.kind, sdp: self.sdp@ }
    }
}

/// What `RTCSessionDescription::offer` makes of a text; `None` where it fails.
pub uninterp spec fn offer_description(sdp: Seq<char>) -> Option<RTCSessionDescription>;

/// What `RTCSessionDescription::answer` makes of a text; `None` where it fails.
pub uninterp spec fn answer_description(sdp: Seq<char>) -> Option<RTCSessionDescription>;

impl SessionDescriptionView {
    /// The form that the WebRTC stack takes, made of this very text; `None` where the WebRTC
    /// stack cannot read it.
    pub open spec fn rtc(self) -> Option<RTCSessionDescription> {
        match self.kind {
            SdpKind::Offer => offer_description(self.sdp),
            SdpKind::Answer => answer_description(self.sdp),
        }
    }

    /// Whether the WebRTC stack can read the description.
    pub open spec fn readable(self) -> bool {
        self.rtc() is Some
    }
}

impl SessionDescription {
    #[verifier::type_invariant]
    closed spec fn is_read(self) -> bool {
        self@.rtc() == Some(self.rtc)
    }

    /// What the description is for.
    pub fn kind(&self) -> (res: SdpKind)
        ensures
            res == self@.kind,
    {
        self.kind
    }

    /// The description's text.
    pub fn sdp(&self) -> (res: &str)
        ensures
            res@ == self@.sdp,
    {
        self.sdp.as_str()
    }

    /// Hands out the form that the WebRTC stack takes, made of the description's own text.
    pub fn into_rtc(self) -> (res: RTCSessionDescription)
        ensures
            self@.rtc() == Some(res),
            self@.kind is Offer ==> offer_description(self@.sdp) == Some(res),
            self@.kind is Answer ==> answer_description(self@.sdp) == Some(res),
    {
        proof {
            use_type_invariant(&self);
        }
        self.rtc
    }
}

/// `webrtc::peer_connection::sdp::session_description::RTCSessionDescription::offer`: whether
/// it succeeds, and what it makes, depend on the text alone.
#[verifier::external_body]
fn offer(sdp: String) -> (res: Result<RTCSessionDescription, webrtc::Error>)
    ensures
        match res {
            Ok(rtc) => offer_description(sdp@) == Some(rtc),
            Err(_) => offer_description(sdp@) is None,
        },
{
    RTCSessionDescription::offer(sdp)
}

/// `webrtc::peer_connection::sdp::session_description::RTCSessionDescription::answer`: whether
/// it succeeds, and what it makes, depend on the text alone.
#[verifier::external_body]
fn answer(sdp: String) -> (res: Result<RTCSessionDescription, webrtc::Error>)
    ensures
        match res {
            Ok(rtc) => answer_description(sdp@) == Some(rtc),
            Err(_) => answer_description(sdp@) is None,
        },
{
    RTCSessionDescription::answer(sdp)
}

/// Reads the text of a description that is for `kind`.
pub fn read_description(kind: SdpKind, sdp: String) -> (res: Result<
    SessionDescription,
    webrtc::Error,
>)
    ensures
        ({
            let description = SessionDescriptionView { kind, sdp: sdp@ };
            match res {
                Ok(read) => description.readable() && read@ == description,
                Err(_) => !description.readable(),
            }
        }),
        kind is Offer ==> (res is Ok <==> offer_description(sdp@) is Some),
        kind is Answer ==> (res is Ok <==> answer_description(sdp@) is Some),
        res matches Ok(read) ==> read@.kind == kind && read@.sdp == sdp@,
{
    let text = sdp.clone();
    let read = match kind {
        SdpKind::Offer => offer(text),
        SdpKind::Answer => answer(text),
    };
    match read {
        Ok(rtc) => Ok(SessionDescription { kind, sdp, rtc }),
        Err(error) => Err(error),
    }
}

/// A description is read as what it is for, from its whole text.
pub proof fn law_descriptions_are_read_as_what_they_are(sdp: Seq<char>)
    ensures
        (SessionDescriptionView { kind: SdpKind::Offer, sdp }).rtc() == offer_description(sdp),
        (SessionDescriptionView { kind: SdpKind::Answer, sdp }).rtc() == answer_description(sdp),
        (SessionDescriptionView { kind: SdpKind::Offer, sdp }).readable()
            <==> offer_description(sdp) is Some,
        (SessionDescriptionView { kind: SdpKind::Answer, sdp }).readable()
            <==> answer_description(sdp) is Some,
{
}

} // verus!
