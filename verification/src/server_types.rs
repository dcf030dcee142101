//! Messages exchanged with the signalling server, and the per-client record it keeps.
use vstd::prelude::*;

verus! {

/// A client's registration request.
#[derive(Debug, Clone)]
pub struct RegisterRequest {
    pub mac_address: String,
    pub auth_code: String,
}

/// The server's answer to a registration.
#[derive(Debug, Clone)]
pub struct RegisterResponse {
    pub client_id: String,
    pub success: bool,
    pub message: String,
}

/// A browser's request to attach to a registered client.
#[derive(Debug, Clone)]
pub struct BrowserConnectRequest {
    pub client_id: String,
    pub auth_code: String,
}

/// A WebRTC SDP session description (`sdp_type` is "offer" or "answer").
#[derive(Debug, Clone)]
pub struct SessionDescription {
    pub sdp_type: String,
    pub sdp: String,
}

/// A WebRTC ICE candidate.
#[derive(Debug, Clone)]
pub struct IceCandidate {
    pub candidate: String,
    pub sdp_mid: Option<String>,
    pub sdp_mline_index: Option<u16>,
}

/// A pointer event. The coordinates are carried as the IEEE-754 binary64 bit
/// patterns of the values the browser sent; the server only relays them.
#[derive(Debug, Clone)]
pub struct MouseEvent {
    pub x_bits: u64,
    pub y_bits: u64,
    pub button: String,
    pub event_type: String,
    pub scroll_delta: Option<i32>,
}

/// A key event ("press" or "release").
#[derive(Debug, Clone)]
pub struct KeyboardEvent {
    pub key: String,
    pub event_type: String,
}

/// H.264 stream settings requested by a browser. The frame rate is carried as
/// the IEEE-754 binary32 bit pattern of the requested value.
#[derive(Debug, Clone)]
pub struct VideoStreamConfig {
    pub width: u32,
    pub height: u32,
    pub fps_bits: u32,
    pub bitrate: u32,
    pub codec: String,
}

/// Messages of the signalling protocol.
#[derive(Debug, Clone)]
pub enum WebSocketMessage {
    Register(RegisterRequest),
    RegisterResponse(RegisterResponse),
    BrowserConnect(BrowserConnectRequest),
    Connected { success: bool, message: String },
    BrowserConnected { message: String },
    BrowserDisconnected { message: String },
    WebRTCOffer { target_id: String, session_description: SessionDescription },
    WebRTCAnswer { target_id: String, session_description: SessionDescription },
    WebRTCIceCandidate { target_id: String, ice_candidate: IceCandidate },
    VideoStreamConfig { target_id: String, config: VideoStreamConfig },
    ForceKeyframe { target_id: String },
    MouseEvent(MouseEvent),
    KeyboardEvent(KeyboardEvent),
    Disconnect,
    Ping,
    Pong,
    Error { message: String },
}

/// What the server records about a registered client.
#[derive(Debug, Clone)]
pub struct ClientState {
    pub auth_code: String,
    pub is_connected: bool,
    pub browser_connected: bool,
    pub video_stream_active: bool,
}

/// The abstract content of a [`ClientState`].
pub struct ClientStateView {
    pub auth_code: Seq<char>,
    pub is_connected: bool,
    pub browser_connected: bool,
    pub video_stream_active: bool,
}

impl View for ClientState {
    type V = ClientStateView;

    open spec fn view(&self) -> ClientStateView {
        ClientStateView {
            auth_code: self.auth_code@,
            is_connected: self.is_connected,
            browser_connected: self.browser_connected,
            video_stream_active: self.video_stream_active,
        }
    }
}

impl ClientState {
    /// A fresh record: the given auth code and flags, with no video stream active.
    /// The client id and MAC address are accepted for the caller's convenience
    /// and are not stored.
    pub fn new(
        client_id: String,
        mac_address: String,
        auth_code: String,
        is_connected: bool,
        browser_connected: bool,
    ) -> (r: Self)
        ensures
            r.auth_code == auth_code,
            r.is_connected == is_connected,
            r.browser_connected == browser_connected,
            !r.video_stream_active,
    {
        ClientState { auth_code, is_connected, browser_connected, video_stream_active: false }
    }

    /// A field-by-field copy.
    pub fn copy(&self) -> (r: Self)
        ensures
            r@ == self@,
    {
        ClientState {
            auth_code: self.auth_code.clone(),
            is_connected: self.is_connected,
            browser_connected: self.browser_connected,
            video_stream_active: self.video_stream_active,
        }
    }
}

} // verus!
