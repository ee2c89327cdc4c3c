//! ICE candidates: the ones that the ICE agent finds, and the form in which they travel.
use vstd::prelude::*;
use vstd::string::*;
use webrtc::ice_transport::ice_candidate::{RTCIceCandidate, RTCIceCandidateInit};
use webrtc::ice_transport::ice_candidate_type::RTCIceCandidateType;
use webrtc::ice_transport::ice_protocol::RTCIceProtocol;

verus! {

/// What can go wrong inside the WebRTC stack.
#[verifier::external_type_specification]
#[verifier::external_body]
pub struct ExWebRtcError(webrtc::Error);

/// What can go wrong while JSON is read or written.
#[verifier::external_type_specification]
#[verifier::external_body]
pub struct ExJsonError(serde_json::Error);

/// A candidate as the ICE agent reports it.
#[derive(Debug, PartialEq, Eq)]
pub struct IceCandidate {
    pub stats_id: String,
    pub foundation: String,
    pub priority: u32,
    pub address: String,
    /// `udp` or `tcp`.
    pub protocol: String,
    pub port: u16,
    /// `host`, `srflx`, `prflx` or `relay`.
    pub typ: String,
    pub component: u16,
    pub related_address: String,
    pub related_port: u16,
    pub tcp_type: String,
}

/// A reported candidate, with its texts as sequences of characters.
pub struct IceCandidateView {
    pub stats_id: Seq<char>,
    pub foundation: Seq<char>,
    pub priority: u32,
    pub address: Seq<char>,
    pub protocol: Seq<char>,
    pub port: u16,
    pub typ: Seq<char>,
    pub component: u16,
    pub related_address: Seq<char>,
    pub related_port: u16,
    pub tcp_type: Seq<char>,
}

impl View for IceCandidate {
    type V = IceCandidateView;

    open spec fn view(&self) -> IceCandidateView {
        IceCandidateView {
            stats_id: self.stats_id@,
            foundation: self.foundation@,
            priority: self.priority,
            address: self.address@,
            protocol: self.protocol@,
            port: self.port,
            typ: self.typ@,
            component: self.component,
            related_address: self.related_address@,
            related_port: self.related_port,
            tcp_type: self.tcp_type@,
        }
    }
}

impl IceCandidateView {
    /// Whether the type is one that ICE knows.
    pub open spec fn has_known_type(self) -> bool {
        ||| self.typ == "host"@
        ||| self.typ == "srflx"@
        ||| self.typ == "prflx"@
        ||| self.typ == "relay"@
    }

    /// Whether the candidate has a priority where one is asked for, or a component from which
    /// it can be worked out.
    pub open spec fn has_priority(self) -> bool {
        self.has_known_type() ==> self.priority != 0 || self.component <= 256
    }

    /// The candidate with a priority of its own, and the same in all else.
    pub open spec fn prioritised(self) -> IceCandidateView {
        IceCandidateView { priority: 1, ..self }
    }

    /// Whether handing the candidate over overflows: all that stands in the way is that it has
    /// no priority, and that its component is too large to work one out from.
    pub open spec fn overflows(self) -> bool {
        !self.has_priority() && marshalled_candidate(self.prioritised()) is Some
    }
}

impl IceCandidate {
    /// Whether the candidate has a priority where one is asked for, or a component from which
    /// it can be worked out.
    pub fn has_priority(&self) -> (res: bool)
        ensures
            res == self@.has_priority(),
            self.priority != 0 || self.component <= 256 ==> res,
            !res ==> self.priority == 0 && self.component > 256,
    {
        self.priority != 0 || self.component <= 256 || !(self.typ == String::from_str("host")
            || self.typ == String::from_str("srflx") || self.typ == String::from_str("prflx")
            || self.typ == String::from_str("relay"))
    }

    fn prioritised(&self) -> (res: IceCandidate)
        ensures
            res@ == self@.prioritised(),
    {
        IceCandidate {
            stats_id: self.stats_id.clone(),
            foundation: self.foundation.clone(),
            priority: 1,
            address: self.address.clone(),
            protocol: self.protocol.clone(),
            port: self.port,
            typ: self.typ.clone(),
            component: self.component,
            related_address: self.related_address.clone(),
            related_port: self.related_port,
            tcp_type: self.tcp_type.clone(),
        }
    }

    /// Whether handing the candidate over overflows: all that stands in the way is that it has
    /// no priority, and that its component is too large to work one out from.
    pub fn overflows(&self) -> (res: bool)
        ensures
            res == self@.overflows(),
            res ==> self.priority == 0 && self.component > 256,
    {
        !self.has_priority() && to_init(self.prioritised()).is_ok()
    }
}

/// A candidate in the form in which it is handed to a remote ICE agent.
#[derive(Debug, PartialEq, Eq)]
pub struct CandidateInit {
    pub candidate: String,
    pub sdp_mid: Option<String>,
    pub sdp_mline_index: Option<u16>,
    pub username_fragment: Option<String>,
}

/// A candidate to hand over, with its texts as sequences of characters.
pub struct CandidateInitView {
    pub candidate: Seq<char>,
    pub sdp_mid: Option<Seq<char>>,
    pub sdp_mline_index: Option<u16>,
    pub username_fragment: Option<Seq<char>>,
}

/// The characters of a text that may be missing.
pub open spec fn optional_text(text: Option<String>) -> Option<Seq<char>> {
    match text {
        Some(t) => Some(t@),
        None => None,
    }
}

impl View for CandidateInit {
    type V = CandidateInitView;

    open spec fn view(&self) -> CandidateInitView {
        CandidateInitView {
            candidate: self.candidate@,
            sdp_mid: optional_text(self.sdp_mid),
            sdp_mline_index: self.sdp_mline_index,
            username_fragment: optional_text(self.username_fragment),
        }
    }
}

/// The candidate attribute of session descriptions, without its key, that
/// `RTCIceCandidate::to_json` writes for a candidate; `None` where it fails.
pub uninterp spec fn marshalled_candidate(candidate: IceCandidateView) -> Option<Seq<char>>;

/// The candidate to hand over that has this attribute, and leaves its media section open: an
/// empty identifier, the first line, no user name fragment.
pub open spec fn init_with_attribute(attribute: Seq<char>) -> CandidateInitView {
    CandidateInitView {
        candidate: "candidate:"@ + attribute,
        sdp_mid: Some(Seq::empty()),
        sdp_mline_index: Some(0),
        username_fragment: None,
    }
}

/// The form in which a reported candidate is handed over; `None` where it has none.
pub open spec fn candidate_init(candidate: IceCandidateView) -> Option<CandidateInitView> {
    match marshalled_candidate(candidate) {
        Some(attribute) => Some(init_with_attribute(attribute)),
        None => None,
    }
}

/// `webrtc::ice_transport::ice_candidate::RTCIceCandidate::to_json`: depends on the
/// candidate's fields alone, fails on a type that ICE does not know, and otherwise leaves the
/// media section open. Whether it fails is settled by the type, the address and the protocol,
/// before the priority is looked at; the call overflows where it gets that far and has to work
/// a priority out from a component above 256.
#[verifier::external_body]
pub(crate) fn to_init(candidate: IceCandidate) -> (res: Result<CandidateInit, webrtc::Error>)
    requires
        !candidate@.overflows(),
    ensures
        !candidate@.has_known_type() ==> res is Err,
        !candidate@.has_priority() ==> res is Err,
        match res {
            Ok(init) => marshalled_candidate(candidate@) is Some && init@
                == init_with_attribute(marshalled_candidate(candidate@)->0),
            Err(_) => marshalled_candidate(candidate@) is None,
        },
{
    let c = candidate;
    let reported = RTCIceCandidate {
        stats_id: c.stats_id, foundation: c.foundation, priority: c.priority,
        address: c.address, protocol: RTCIceProtocol::from(c.protocol.as_str()), port: c.port,
        typ: RTCIceCandidateType::from(c.typ.as_str()), component: c.component,
        related_address: c.related_address, related_port: c.related_port, tcp_type: c.tcp_type,
    };
    reported.to_json().map(|init| CandidateInit {
        candidate: init.candidate, sdp_mid: init.sdp_mid,
        sdp_mline_index: init.sdp_mline_index, username_fragment: init.username_fragment,
    })
}

/// The JSON text that `serde_json::to_string` writes for a candidate.
pub uninterp spec fn candidate_json(init: CandidateInitView) -> Seq<char>;

/// The candidate that `serde_json::from_str` reads in a JSON text; `None` where it fails.
pub uninterp spec fn candidate_from_json(json: Seq<char>) -> Option<CandidateInitView>;

/// `serde_json::to_string` on an `RTCIceCandidateInit`: writing strings, a number and nulls
/// never fails, and reading the text gives the candidate back.
#[verifier::external_body]
pub(crate) fn to_json(init: CandidateInit) -> (res: Result<String, serde_json::Error>)
    ensures
        res is Ok,
        res matches Ok(json) ==> json@ == candidate_json(init@),
        res matches Ok(json) ==> candidate_from_json(json@) == Some(init@),
{
    serde_json::to_string(&RTCIceCandidateInit {
        candidate: init.candidate, sdp_mid: init.sdp_mid,
        sdp_mline_index: init.sdp_mline_index, username_fragment: init.username_fragment,
    })
}

/// `serde_json::from_str` to an `RTCIceCandidateInit`: depends on the text alone.
#[verifier::external_body]
pub(crate) fn from_json(json: &str) -> (res: Result<CandidateInit, serde_json::Error>)
    ensures
        match res {
            Ok(init) => candidate_from_json(json@) == Some(init@),
            Err(_) => candidate_from_json(json@) is None,
        },
{
    serde_json::from_str::<RTCIceCandidateInit>(json).map(|init| CandidateInit {
        candidate: init.candidate, sdp_mid: init.sdp_mid,
        sdp_mline_index: init.sdp_mline_index, username_fragment: init.username_fragment,
    })
}

/// The types that ICE knows are these four.
pub proof fn law_ice_knows_four_types(candidate: IceCandidateView)
    ensures
        candidate.has_known_type() <==> (candidate.typ == "host"@ || candidate.typ == "srflx"@
            || candidate.typ == "prflx"@ || candidate.typ == "relay"@),
{
}

/// Only a candidate of a known type that has neither a priority nor a component to work one out
/// from lacks one.
pub proof fn law_a_priority_is_lacking_only_where_it_is_needed(candidate: IceCandidateView)
    ensures
        candidate.priority != 0 ==> candidate.has_priority(),
        candidate.component <= 256 ==> candidate.has_priority(),
        !candidate.has_known_type() ==> candidate.has_priority(),
        candidate.has_known_type() && candidate.priority == 0 && candidate.component > 256
            ==> !candidate.has_priority(),
{
}

/// A candidate with a priority, or with a component of no more than 256, never overflows, whatever
/// its type. Any other of a known type overflows exactly where it could be handed over if only it
/// had a priority.
pub proof fn law_only_a_lacking_priority_overflows(candidate: IceCandidateView)
    ensures
        candidate.priority != 0 ==> !candidate.overflows(),
        candidate.component <= 256 ==> !candidate.overflows(),
        !candidate.has_known_type() ==> !candidate.overflows(),
        candidate.has_known_type() && candidate.priority == 0 && candidate.component > 256 ==> (
        candidate.overflows() <==> marshalled_candidate(
            IceCandidateView { priority: 1, ..candidate },
        ) is Some),
{
}

/// A candidate is seen with all its fields.
pub proof fn law_candidates_are_seen_whole(candidate: IceCandidate)
    ensures
        candidate@.stats_id == candidate.stats_id@,
        candidate@.foundation == candidate.foundation@,
        candidate@.priority == candidate.priority,
        candidate@.address == candidate.address@,
        candidate@.protocol == candidate.protocol@,
        candidate@.port == candidate.port,
        candidate@.typ == candidate.typ@,
        candidate@.component == candidate.component,
        candidate@.related_address == candidate.related_address@,
        candidate@.related_port == candidate.related_port,
        candidate@.tcp_type == candidate.tcp_type@,
{
}

/// A candidate in the form in which it is handed over is seen with all its fields.
pub proof fn law_handed_over_candidates_are_seen_whole(init: CandidateInit)
    ensures
        init@.candidate == init.candidate@,
        init@.sdp_mline_index == init.sdp_mline_index,
        match init.sdp_mid {
            Some(mid) => init@.sdp_mid == Some(mid@),
            None => init@.sdp_mid is None,
        },
        match init.username_fragment {
            Some(fragment) => init@.username_fragment == Some(fragment@),
            None => init@.username_fragment is None,
        },
{
}

/// A candidate is handed over exactly where it can be written as an attribute; it is then that
/// attribute behind its key, for the first line, and for no named section or user.
pub proof fn law_a_candidate_is_handed_over_as_its_attribute(candidate: IceCandidateView)
    ensures
        candidate_init(candidate) is Some <==> marshalled_candidate(candidate) is Some,
        marshalled_candidate(candidate) matches Some(attribute) ==> {
            let init = candidate_init(candidate)->0;
            &&& init.candidate == "candidate:"@ + attribute
            &&& init.sdp_mid == Some(Seq::<char>::empty())
            &&& init.sdp_mline_index == Some(0u16)
            &&& init.username_fragment is None
        },
{
}

} // verus!
