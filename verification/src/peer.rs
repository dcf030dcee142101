//! The WebRTC peer's text handling: SDP candidate statistics, the ICE
//! candidate lines it announces, and the answer and candidate messages it
//! sends through signalling.
use vstd::prelude::*;

use crate::client_types::{IceCandidate, SessionDescription, WebSocketMessage};
use crate::text::{
    chars_contain, lowercase_of, owned, push_char, push_decimal, push_str, seq_contains, str_chars,
    to_lowercase, decimal, opt_view,
};

verus! {

/// What the candidate and DTLS lines of an SDP say: how many candidates of
/// each type, and the DTLS setup role ("active", "passive", "actpass", or
/// empty when none is given).
#[derive(Debug, Clone)]
pub struct SdpAnalysis {
    pub total_candidates: usize,
    pub host_candidates: usize,
    pub srflx_candidates: usize,
    pub relay_candidates: usize,
    pub dtls_setup: String,
}

pub struct SdpTally {
    pub total: nat,
    pub host: nat,
    pub srflx: nat,
    pub relay: nat,
    pub dtls: Seq<char>,
}

impl View for SdpAnalysis {
    type V = SdpTally;

    open spec fn view(&self) -> SdpTally {
        SdpTally {
            total: self.total_candidates as nat,
            host: self.host_candidates as nat,
            srflx: self.srflx_candidates as nat,
            relay: self.relay_candidates as nat,
            dtls: self.dtls_setup@,
        }
    }
}

pub open spec fn empty_tally() -> SdpTally {
    SdpTally { total: 0, host: 0, srflx: 0, relay: 0, dtls: Seq::empty() }
}

/// One line's contribution. A candidate line (holding `a=candidate:`) is
/// counted, and by its type (`typ host`, `typ srflx`, `typ relay`, tested in
/// that order). Otherwise a setup line (holding `a=setup:`) sets the DTLS
/// role to the first of `active`, `passive`, `actpass` it holds.
pub open spec fn tally_line(t: SdpTally, line: Seq<char>) -> SdpTally {
    if seq_contains(line, "a=candidate:"@) {
        let t1 = SdpTally { total: t.total + 1, ..t };
        if seq_contains(line, "typ host"@) {
            SdpTally { host: t1.host + 1, ..t1 }
        } else if seq_contains(line, "typ srflx"@) {
            SdpTally { srflx: t1.srflx + 1, ..t1 }
        } else if seq_contains(line, "typ relay"@) {
            SdpTally { relay: t1.relay + 1, ..t1 }
        } else {
            t1
        }
    } else if seq_contains(line, "a=setup:"@) {
        if seq_contains(line, "active"@) {
            SdpTally { dtls: "active"@, ..t }
        } else if seq_contains(line, "passive"@) {
            SdpTally { dtls: "passive"@, ..t }
        } else if seq_contains(line, "actpass"@) {
            SdpTally { dtls: "actpass"@, ..t }
        } else {
            t
        }
    } else {
        t
    }
}

/// Reading `s` line by line: the tally of the complete lines (each ended by
/// a newline) and the text of the line still open.
pub open spec fn sdp_scan(s: Seq<char>) -> (SdpTally, Seq<char>)
    decreases s.len(),
{
    if s.len() == 0 {
        (empty_tally(), Seq::empty())
    } else {
        let (t, cur) = sdp_scan(s.drop_last());
        if s.last() == '\n' {
            (tally_line(t, cur), Seq::empty())
        } else {
            (t, cur.push(s.last()))
        }
    }
}

/// The analysis of an SDP: every line, the last one too, tallied in order.
/// (A trailing carriage return, as `str::lines` drops, changes no tally.)
pub open spec fn analyze_sdp_spec(s: Seq<char>) -> SdpTally {
    tally_line(sdp_scan(s).0, sdp_scan(s).1)
}

/// The counts stay within the lines read so far.
pub open spec fn tally_bounded(t: SdpTally, bound: int) -> bool {
    t.host + t.srflx + t.relay <= t.total <= bound
}

proof fn lemma_tally_line_bound(t: SdpTally, line: Seq<char>, bound: int)
    requires
        tally_bounded(t, bound),
    ensures
        tally_bounded(tally_line(t, line), if seq_contains(line, "a=candidate:"@) {
            bound + 1
        } else {
            bound
        }),
        seq_contains(line, "a=candidate:"@) ==> line.len() >= 1,
{
    if seq_contains(line, "a=candidate:"@) {
        reveal_strlit("a=candidate:");
        let i = choose|i: int| crate::text::occurs_at(line, "a=candidate:"@, i);
        assert(line.len() >= i + 12);
    }
}

fn tally_line_exec(a: &mut SdpAnalysis, line: &Vec<char>, bound: Ghost<int>)
    requires
        tally_bounded(old(a)@, bound@),
        bound@ + line@.len() <= usize::MAX,
    ensures
        final(a)@ == tally_line(old(a)@, line@),
{
    proof {
        lemma_tally_line_bound(old(a)@, line@, bound@);
    }
    if chars_contain(line, "a=candidate:") {
        a.total_candidates = a.total_candidates + 1;
        if chars_contain(line, "typ host") {
            a.host_candidates = a.host_candidates + 1;
        } else if chars_contain(line, "typ srflx") {
            a.srflx_candidates = a.srflx_candidates + 1;
        } else if chars_contain(line, "typ relay") {
            a.relay_candidates = a.relay_candidates + 1;
        }
    } else if chars_contain(line, "a=setup:") {
        if chars_contain(line, "active") {
            a.dtls_setup = owned("active");
        } else if chars_contain(line, "passive") {
            a.dtls_setup = owned("passive");
        } else if chars_contain(line, "actpass") {
            a.dtls_setup = owned("actpass");
        }
    }
}

/// Counts the ICE candidates of an SDP by type and finds its DTLS setup role
/// (see `analyze_sdp_spec`).
pub fn analyze_sdp(sdp: &str) -> (r: SdpAnalysis)
    ensures
        r@ == analyze_sdp_spec(sdp@),
{
    let chars = str_chars(sdp);
    let mut analysis = SdpAnalysis {
        total_candidates: 0,
        host_candidates: 0,
        srflx_candidates: 0,
        relay_candidates: 0,
        dtls_setup: String::new(),
    };
    let mut line: Vec<char> = Vec::new();
    let n = chars.len();
    let mut i: usize = 0;
    while i < n
        invariant
            n == chars@.len(),
            chars@ == sdp@,
            i <= n,
            (analysis@, line@) == sdp_scan(sdp@.take(i as int)),
            tally_bounded(analysis@, i - line@.len()),
            line@.len() <= i,
        decreases n - i,
    {
        let c = chars[i];
        proof {
            assert(sdp@.take(i + 1).drop_last() == sdp@.take(i as int));
            assert(sdp@.take(i + 1).last() == c);
        }
        if c == '\n' {
            proof {
                lemma_tally_line_bound(analysis@, line@, i - line@.len());
            }
            tally_line_exec(&mut analysis, &line, Ghost(i - line@.len()));
            line = Vec::new();
        } else {
            line.push(c);
        }
        i = i + 1;
    }
    proof {
        assert(sdp@.take(n as int) == sdp@);
        lemma_tally_line_bound(analysis@, line@, i - line@.len());
    }
    tally_line_exec(&mut analysis, &line, Ghost(i - line@.len()));
    analysis
}

/// The `candidate:` attribute line announced for a local ICE candidate.
pub open spec fn candidate_line_spec(
    foundation: Seq<char>,
    protocol: Seq<char>,
    priority: u32,
    address: Seq<char>,
    port: u16,
    typ: Seq<char>,
) -> Seq<char> {
    "candidate:"@ + foundation + " 1 "@ + lowercase_of(protocol) + " "@ + decimal(priority as nat) + " "@
        + address + " "@ + decimal(port as nat) + " typ "@ + lowercase_of(typ) + " generation 0"@
}

/// Formats a local ICE candidate as
/// `candidate:<foundation> 1 <protocol> <priority> <address> <port> typ <type> generation 0`,
/// protocol and type in lower case.
pub fn candidate_line(
    foundation: &str,
    protocol: &str,
    priority: u32,
    address: &str,
    port: u16,
    typ: &str,
) -> (r: String)
    ensures
        r@ == candidate_line_spec(foundation@, protocol@, priority, address@, port, typ@),
{
    let mut s = owned("candidate:");
    push_str(&mut s, foundation);
    push_str(&mut s, " 1 ");
    let proto = to_lowercase(protocol);
    push_str(&mut s, proto.as_str());
    push_str(&mut s, " ");
    push_decimal(&mut s, priority as u64);
    push_str(&mut s, " ");
    push_str(&mut s, address);
    push_str(&mut s, " ");
    push_decimal(&mut s, port as u64);
    push_str(&mut s, " typ ");
    let t = to_lowercase(typ);
    push_str(&mut s, t.as_str());
    push_str(&mut s, " generation 0");
    s
}

/// The signalling message that announces a local candidate line to the
/// browser, on media line "0" (index 0).
pub fn local_candidate_message(candidate: String) -> (r: WebSocketMessage)
    ensures
        match r {
            WebSocketMessage::WebRTCIceCandidate { target_id, ice_candidate } => {
                &&& target_id@ == "browser"@
                &&& ice_candidate.candidate@ == candidate@
                &&& opt_view(ice_candidate.sdp_mid) == Some("0"@)
                &&& ice_candidate.sdp_mline_index == Some(0u16)
            },
            _ => false,
        },
{
    WebSocketMessage::WebRTCIceCandidate {
        target_id: owned("browser"),
        ice_candidate: IceCandidate { candidate, sdp_mid: Some(owned("0")), sdp_mline_index: Some(0) },
    }
}

/// The signalling message that carries the client's SDP answer.
pub fn answer_message(client_id: String, sdp: String) -> (r: WebSocketMessage)
    ensures
        match r {
            WebSocketMessage::WebRTCAnswer { target_id, session_description } => {
                &&& target_id@ == client_id@
                &&& session_description.sdp_type@ == "answer"@
                &&& session_description.sdp@ == sdp@
            },
            _ => false,
        },
{
    WebSocketMessage::WebRTCAnswer {
        target_id: client_id,
        session_description: SessionDescription { sdp_type: owned("answer"), sdp },
    }
}

/// Whether an answer SDP offers video (`m=video`) and H.264 (`h264` or `H264`).
pub fn answer_media(sdp: &str) -> (r: (bool, bool))
    ensures
        r.0 == seq_contains(sdp@, "m=video"@),
        r.1 == (seq_contains(sdp@, "h264"@) || seq_contains(sdp@, "H264"@)),
{
    let chars = str_chars(sdp);
    let has_video = chars_contain(&chars, "m=video");
    let has_h264 = chars_contain(&chars, "h264") || chars_contain(&chars, "H264");
    (has_video, has_h264)
}

/// Connection states of a WebRTC peer connection.
#[derive(Debug, Clone, Copy, PartialEq, Eq, Structural)]
pub enum PeerState {
    Unspecified,
    New,
    Connecting,
    Connected,
    Disconnected,
    Failed,
    Closed,
}

/// What the client does when its peer connection changes state.
#[derive(Debug, Clone, Copy, PartialEq, Eq, Structural)]
pub enum PeerReaction {
    /// Only report the new state.
    Report,
    /// Connected: activate the video track and force a key frame, so that
    /// the browser can start decoding.
    ActivateVideo,
    /// Failed: report the connection's details.
    ReportFailure,
    /// Closed: stop the video stream and release it.
    StopVideo,
}

/// The reaction to a state: activate video when connected, report details
/// when failed, stop video when closed, otherwise only report.
pub open spec fn peer_reaction_spec(s: PeerState) -> PeerReaction {
    match s {
        PeerState::Connected => PeerReaction::ActivateVideo,
        PeerState::Failed => PeerReaction::ReportFailure,
        PeerState::Closed => PeerReaction::StopVideo,
        _ => PeerReaction::Report,
    }
}

/// The reaction to a peer connection state (see `peer_reaction_spec`).
pub fn peer_reaction(s: PeerState) -> (r: PeerReaction)
    ensures
        r == peer_reaction_spec(s),
{
    match s {
        PeerState::Connected => PeerReaction::ActivateVideo,
        PeerState::Failed => PeerReaction::ReportFailure,
        PeerState::Closed => PeerReaction::StopVideo,
        _ => PeerReaction::Report,
    }
}

} // verus!
