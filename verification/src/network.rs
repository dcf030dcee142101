//! The desktop client's signalling session: how each event (a message from the
//! signalling server, an outgoing signalling message, the data channel opening,
//! the WebRTC peer becoming ready, the connection ending) moves the client's
//! state and which actions it asks the runtime to perform.
use vstd::prelude::*;

use crate::client_types::{
    ClientState, IceCandidate, RegisterRequest, SessionDescription, WebSocketMessage,
};
use crate::text::{opt_view, owned};
use crate::video_encoder::NetworkQuality;

verus! {

/// The serialization `url::Url::parse` gives a text, or `None` when the text
/// is not a URL.
pub uninterp spec fn url_serialization(s: Seq<char>) -> Option<Seq<char>>;

/// Parses a URL with `url::Url::parse` and hands back its serialization.
/// Trusted: the outcome is a function of the text (WHATWG URL parsing).
#[verifier::external_body]
fn parse_url(s: &str) -> (r: Option<String>)
    ensures
        opt_view(r) == url_serialization(s@),
{
    match url::Url::parse(s) {
        Ok(u) => Some(u.into()),
        Err(_) => None,
    }
}

/// Stages of the client's start-up that the user interface is told about.
#[derive(Debug, Clone, Copy, PartialEq, Eq, Structural)]
pub enum StartupStage {
    /// Connecting to the signalling server.
    Connecting,
    /// The MAC address could not be read.
    MacAddressFailed,
    /// The configured server address is not a URL.
    InvalidServerUrl,
    /// The connection to the server failed.
    ConnectionFailed,
    /// Connected; registration was sent or is about to be.
    WaitingForRegistration,
}

/// The status shown for a start-up stage: its text and whether the service
/// still runs.
pub open spec fn startup_status_spec(stage: StartupStage) -> (Seq<char>, bool) {
    match stage {
        StartupStage::Connecting => ("正在连接服务器..."@, true),
        StartupStage::MacAddressFailed => ("获取MAC地址失败"@, false),
        StartupStage::InvalidServerUrl => ("服务器URL格式错误"@, false),
        StartupStage::ConnectionFailed => ("连接服务器失败"@, false),
        StartupStage::WaitingForRegistration => ("WaitingForRegistration"@, true),
    }
}

/// The status shown for a start-up stage (see `startup_status_spec`).
pub fn startup_status(stage: StartupStage) -> (r: (String, bool))
    ensures
        (r.0@, r.1) == startup_status_spec(stage),
{
    match stage {
        StartupStage::Connecting => (owned("正在连接服务器..."), true),
        StartupStage::MacAddressFailed => (owned("获取MAC地址失败"), false),
        StartupStage::InvalidServerUrl => (owned("服务器URL格式错误"), false),
        StartupStage::ConnectionFailed => (owned("连接服务器失败"), false),
        StartupStage::WaitingForRegistration => (owned("WaitingForRegistration"), true),
    }
}

/// The address the client connects to: the configured server URL as parsed,
/// or `InvalidServerUrl` when it is not a URL.
pub fn server_endpoint(server_url: &str) -> (r: Result<String, StartupStage>)
    ensures
        match url_serialization(server_url@) {
            Some(u) => r matches Ok(e) && e@ == u,
            None => r == Err::<String, StartupStage>(StartupStage::InvalidServerUrl),
        },
{
    match parse_url(server_url) {
        Some(u) => Ok(u),
        None => Err(StartupStage::InvalidServerUrl),
    }
}

/// Something that happened to the signalling session.
#[derive(Debug)]
pub enum ClientEvent {
    /// A text message from the signalling server that parsed.
    Message(WebSocketMessage),
    /// A text message from the signalling server that did not parse.
    Unparsable,
    /// A non-text, non-close frame from the signalling server.
    OtherFrame,
    /// The signalling connection closed, failed, or ended.
    ConnectionEnded,
    /// The WebRTC side produced a signalling message for the server.
    Outgoing(WebSocketMessage),
    /// The browser's data channel opened.
    DataChannelReady,
    /// The WebRTC client asked for earlier was created and its video stream started.
    WebRtcReady,
}

/// Something the runtime must do.
#[derive(Debug)]
pub enum ClientAction {
    /// Send a message to the signalling server.
    SendToServer(WebSocketMessage),
    /// Record the id the server assigned, and show it.
    UpdateClientId(String),
    /// Create the WebRTC client for this id, install its handlers and start
    /// its video stream at the given quality; report `WebRtcReady` on success.
    CreateWebRtc { client_id: String, quality: NetworkQuality },
    /// Give the browser's offer to the WebRTC client.
    HandleOffer(SessionDescription),
    /// Give a remote ICE candidate to the WebRTC client.
    AddIceCandidate(IceCandidate),
    /// Close the WebRTC client.
    CloseWebRtc,
    /// Start the input worker if it is not running, then signal it to start.
    StartWorkers,
    /// Signal the input worker to stop, abort it and drop its channels.
    StopWorkers,
    /// Change the video stream's quality.
    UpdateVideoQuality(NetworkQuality),
    /// Ask the encoder for a key frame.
    ForceKeyframe,
    /// Store the current state where the user interface reads it, and show it.
    PublishState,
    /// Leave the session.
    Exit,
}

/// The signalling session of the desktop client.
#[derive(Debug)]
pub struct ClientSession {
    pub state: ClientState,
    pub client_id: Option<String>,
    /// A WebRTC client exists.
    pub webrtc_active: bool,
    /// The input worker is running.
    pub workers_running: bool,
}

pub struct ClientSessionView {
    pub state: ClientState,
    pub client_id: Option<Seq<char>>,
    pub webrtc_active: bool,
    pub workers_running: bool,
}

impl View for ClientSession {
    type V = ClientSessionView;

    open spec fn view(&self) -> ClientSessionView {
        ClientSessionView {
            state: self.state,
            client_id: opt_view(self.client_id),
            webrtc_active: self.webrtc_active,
            workers_running: self.workers_running,
        }
    }
}

/// The video quality chosen for a requested bit rate.
pub open spec fn quality_for_bitrate_spec(bitrate: u32) -> NetworkQuality {
    if bitrate <= 2000000 {
        NetworkQuality::Poor
    } else if bitrate <= 3000000 {
        NetworkQuality::Good
    } else {
        NetworkQuality::Excellent
    }
}

/// Maps a requested bit rate to a video quality level.
pub fn quality_for_bitrate(bitrate: u32) -> (q: NetworkQuality)
    ensures
        q == quality_for_bitrate_spec(bitrate),
{
    if bitrate <= 2000000 {
        NetworkQuality::Poor
    } else if bitrate <= 3000000 {
        NetworkQuality::Good
    } else {
        NetworkQuality::Excellent
    }
}

/// The view with a different state.
pub open spec fn with_state(v: ClientSessionView, s: ClientState) -> ClientSessionView {
    ClientSessionView { state: s, ..v }
}

/// The actions that tear the session down: close the WebRTC client if there
/// is one, then stop the input worker.
pub open spec fn teardown_actions(v: ClientSessionView, actions: Seq<ClientAction>) -> bool {
    if v.webrtc_active {
        actions.len() == 2 && actions[0] is CloseWebRtc && actions[1] is StopWorkers
    } else {
        actions.len() == 1 && actions[0] is StopWorkers
    }
}

/// The session after teardown.
pub open spec fn torn_down(v: ClientSessionView) -> ClientSessionView {
    ClientSessionView { webrtc_active: false, workers_running: false, ..v }
}

/// The response to a message from the server, before the state is published.
pub open spec fn message_step(
    v0: ClientSessionView,
    msg: WebSocketMessage,
    v1: ClientSessionView,
    acts: Seq<ClientAction>,
) -> bool {
    match msg {
        WebSocketMessage::RegisterResponse(resp) => if resp.success {
            &&& v1 == ClientSessionView {
                state: ClientState::WaitingForBrowser,
                client_id: Some(resp.client_id@),
                ..v0
            }
            &&& acts.len() == 1
            &&& acts[0] matches ClientAction::UpdateClientId(id) && id@ == resp.client_id@
        } else {
            v1 == v0 && acts.len() == 0
        },
        WebSocketMessage::BrowserConnected { .. } => {
            &&& v1 == with_state(v0, ClientState::WebRTCConnecting)
            &&& if !v0.webrtc_active && v0.client_id is Some {
                &&& acts.len() == 1
                &&& acts[0] matches ClientAction::CreateWebRtc { client_id, quality }
                    && client_id@ == v0.client_id->0 && quality == NetworkQuality::Good
            } else {
                acts.len() == 0
            }
        },
        WebSocketMessage::WebRTCOffer { session_description, .. } => {
            &&& v1 == v0
            &&& if v0.webrtc_active {
                acts.len() == 1 && acts[0] == ClientAction::HandleOffer(session_description)
            } else {
                acts.len() == 0
            }
        },
        WebSocketMessage::WebRTCIceCandidate { ice_candidate, .. } => {
            &&& v1 == v0
            &&& if v0.webrtc_active {
                acts.len() == 1 && acts[0] == ClientAction::AddIceCandidate(ice_candidate)
            } else {
                acts.len() == 0
            }
        },
        WebSocketMessage::BrowserDisconnected { .. } => {
            &&& v1 == torn_down(with_state(v0, ClientState::WaitingForBrowser))
            &&& teardown_actions(v0, acts)
        },
        WebSocketMessage::VideoStreamConfig { config } => {
            &&& v1 == v0
            &&& if v0.webrtc_active {
                acts.len() == 1 && acts[0] == ClientAction::UpdateVideoQuality(
                    quality_for_bitrate_spec(config.bitrate),
                )
            } else {
                acts.len() == 0
            }
        },
        WebSocketMessage::ForceKeyframe => {
            &&& v1 == v0
            &&& if v0.webrtc_active {
                acts.len() == 1 && acts[0] is ForceKeyframe
            } else {
                acts.len() == 0
            }
        },
        WebSocketMessage::Ping => {
            &&& v1 == v0
            &&& acts.len() == 1
            &&& acts[0] == ClientAction::SendToServer(WebSocketMessage::Pong)
        },
        _ => v1 == v0 && acts.len() == 0,
    }
}

/// How the session handles one event.
pub open spec fn client_step(
    v0: ClientSessionView,
    ev: ClientEvent,
    v1: ClientSessionView,
    acts: Seq<ClientAction>,
) -> bool {
    match ev {
        ClientEvent::Message(msg) => {
            &&& acts.len() >= 1
            &&& acts.last() is PublishState
            &&& message_step(v0, msg, v1, acts.drop_last())
        },
        ClientEvent::Unparsable | ClientEvent::OtherFrame => {
            v1 == v0 && acts.len() == 1 && acts[0] is PublishState
        },
        ClientEvent::ConnectionEnded => {
            &&& v1 == torn_down(v0)
            &&& acts.len() >= 1
            &&& acts.last() is Exit
            &&& teardown_actions(v0, acts.drop_last())
        },
        ClientEvent::Outgoing(m) => v1 == v0 && acts.len() == 1 && acts[0] == ClientAction::SendToServer(m),
        ClientEvent::DataChannelReady => {
            v1 == ClientSessionView { workers_running: true, ..v0 } && acts.len() == 1
                && acts[0] is StartWorkers
        },
        ClientEvent::WebRtcReady => {
            v1 == ClientSessionView { webrtc_active: true, ..v0 } && acts.len() == 0
        },
    }
}

impl ClientSession {
    /// A session that has just connected: waiting for its registration to be
    /// answered, with the id stored in the configuration, if any.
    pub fn new(client_id: Option<String>) -> (r: Self)
        ensures
            r@.state == ClientState::WaitingForRegistration,
            r@.client_id == opt_view(client_id),
            !r@.webrtc_active,
            !r@.workers_running,
    {
        ClientSession { state: ClientState::WaitingForRegistration, client_id, webrtc_active: false, workers_running: false }
    }

    /// The registration request the session opens with.
    pub fn register_message(mac_address: String, auth_code: String) -> (r: WebSocketMessage)
        ensures
            r == WebSocketMessage::Register(RegisterRequest { mac_address, auth_code }),
    {
        WebSocketMessage::Register(RegisterRequest { mac_address, auth_code })
    }

    fn teardown(&mut self, acts: &mut Vec<ClientAction>)
        ensures
            final(self)@ == torn_down(old(self)@),
            teardown_actions(old(self)@, final(acts)@.skip(old(acts)@.len() as int)),
            final(acts)@.subrange(0, old(acts)@.len() as int) == old(acts)@,
    {
        let ghost a0 = acts@;
        if self.webrtc_active {
            acts.push(ClientAction::CloseWebRtc);
            self.webrtc_active = false;
        }
        acts.push(ClientAction::StopWorkers);
        self.workers_running = false;
        assert(acts@.subrange(0, a0.len() as int) == a0);
    }

    fn handle_message(&mut self, msg: WebSocketMessage) -> (acts: Vec<ClientAction>)
        ensures
            message_step(old(self)@, msg, final(self)@, acts@),
    {
        let mut acts: Vec<ClientAction> = Vec::new();
        match msg {
            WebSocketMessage::RegisterResponse(resp) => {
                if resp.success {
                    acts.push(ClientAction::UpdateClientId(resp.client_id.clone()));
                    self.client_id = Some(resp.client_id);
                    self.state = ClientState::WaitingForBrowser;
                }
            },
            WebSocketMessage::BrowserConnected { .. } => {
                self.state = ClientState::WebRTCConnecting;
                if !self.webrtc_active {
                    match &self.client_id {
                        Some(id) => {
                            acts.push(
                                ClientAction::CreateWebRtc {
                                    client_id: id.clone(),
                                    quality: NetworkQuality::Good,
                                },
                            );
                        },
                        None => {},
                    }
                }
            },
            WebSocketMessage::WebRTCOffer { session_description, .. } => {
                if self.webrtc_active {
                    acts.push(ClientAction::HandleOffer(session_description));
                }
            },
            WebSocketMessage::WebRTCIceCandidate { ice_candidate, .. } => {
                if self.webrtc_active {
                    acts.push(ClientAction::AddIceCandidate(ice_candidate));
                }
            },
            WebSocketMessage::BrowserDisconnected { .. } => {
                self.state = ClientState::WaitingForBrowser;
                self.teardown(&mut acts);
                assert(acts@.skip(0) == acts@);
            },
            WebSocketMessage::VideoStreamConfig { config } => {
                if self.webrtc_active {
                    acts.push(ClientAction::UpdateVideoQuality(quality_for_bitrate(config.bitrate)));
                }
            },
            WebSocketMessage::ForceKeyframe => {
                if self.webrtc_active {
                    acts.push(ClientAction::ForceKeyframe);
                }
            },
            WebSocketMessage::Ping => {
                acts.push(ClientAction::SendToServer(WebSocketMessage::Pong));
            },
            _ => {},
        }
        acts
    }

    /// Handles one event and returns the actions to perform, in order.
    pub fn handle_event(&mut self, ev: ClientEvent) -> (acts: Vec<ClientAction>)
        ensures
            client_step(old(self)@, ev, final(self)@, acts@),
    {
        match ev {
            ClientEvent::Message(msg) => {
                let mut acts = self.handle_message(msg);
                let ghost before = acts@;
                acts.push(ClientAction::PublishState);
                assert(acts@.drop_last() == before);
                acts
            },
            ClientEvent::Unparsable | ClientEvent::OtherFrame => {
                let mut acts: Vec<ClientAction> = Vec::new();
                acts.push(ClientAction::PublishState);
                acts
            },
            ClientEvent::ConnectionEnded => {
                let mut acts: Vec<ClientAction> = Vec::new();
                self.teardown(&mut acts);
                let ghost before = acts@;
                acts.push(ClientAction::Exit);
                assert(acts@.drop_last() == before);
                assert(before.skip(0) == before);
                acts
            },
            ClientEvent::Outgoing(m) => {
                let mut acts: Vec<ClientAction> = Vec::new();
                acts.push(ClientAction::SendToServer(m));
                acts
            },
            ClientEvent::DataChannelReady => {
                self.workers_running = true;
                let mut acts: Vec<ClientAction> = Vec::new();
                acts.push(ClientAction::StartWorkers);
                acts
            },
            ClientEvent::WebRtcReady => {
                self.webrtc_active = true;
                Vec::new()
            },
        }
    }

    /// The teardown performed when the session loop ends for a reason outside
    /// the event stream (a failed send to the server).
    pub fn finish(&mut self) -> (acts: Vec<ClientAction>)
        ensures
            final(self)@ == torn_down(old(self)@),
            teardown_actions(old(self)@, acts@),
    {
        let mut acts: Vec<ClientAction> = Vec::new();
        self.teardown(&mut acts);
        assert(acts@.skip(0) == acts@);
        acts
    }
}

/// After the browser disconnects, the client waits for a new browser with no
/// WebRTC client and no input worker, whatever state it was in.
pub proof fn law_browser_disconnect_resets(
    v0: ClientSessionView,
    message: WebSocketMessage,
    v1: ClientSessionView,
    acts: Seq<ClientAction>,
)
    requires
        message is BrowserDisconnected,
        client_step(v0, ClientEvent::Message(message), v1, acts),
    ensures
        v1.state == ClientState::WaitingForBrowser,
        !v1.webrtc_active,
        !v1.workers_running,
        v1.client_id == v0.client_id,
{
}

/// A WebRTC client is only requested once the server has assigned an id and
/// a browser has connected, and never while one already exists.
pub proof fn law_webrtc_created_once(
    v0: ClientSessionView,
    ev: ClientEvent,
    v1: ClientSessionView,
    acts: Seq<ClientAction>,
    k: int,
)
    requires
        client_step(v0, ev, v1, acts),
        0 <= k < acts.len(),
        acts[k] is CreateWebRtc,
    ensures
        !v0.webrtc_active,
        v0.client_id is Some,
        ev matches ClientEvent::Message(m) && m is BrowserConnected,
        v1.state == ClientState::WebRTCConnecting,
{
}

/// A higher requested bit rate never selects a lower quality level.
pub proof fn law_quality_monotone(a: u32, b: u32)
    requires
        a <= b,
    ensures
        quality_rank(quality_for_bitrate_spec(a)) <= quality_rank(quality_for_bitrate_spec(b)),
{
}

/// Orders quality levels from poorest to best.
pub open spec fn quality_rank(q: NetworkQuality) -> int {
    match q {
        NetworkQuality::Poor => 0,
        NetworkQuality::Good => 1,
        NetworkQuality::Excellent => 2,
    }
}

} // verus!
