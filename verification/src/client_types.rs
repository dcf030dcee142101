//! Messages the desktop client exchanges with the signalling server and over
//! the WebRTC data channel, and the client's connection state.
use vstd::prelude::*;

pub use crate::server_types::{
    BrowserConnectRequest, IceCandidate, KeyboardEvent, MouseEvent, RegisterRequest,
    RegisterResponse, SessionDescription, VideoStreamConfig,
};
use crate::screen::ChangedRegion;

verus! {

/// Header of one chunk of a message split into pieces.
#[derive(Debug, Clone)]
pub struct ChunkHeader {
    pub message_id: String,
    pub chunk_index: usize,
    pub total_chunks: usize,
    pub chunk_size: usize,
    pub total_size: usize,
}

/// A captured screen image ("png", "jpeg" or "diff").
#[derive(Debug, Clone)]
pub struct ScreenData {
    pub image_data: String,
    /// Width after scaling.
    pub width: u32,
    /// Height after scaling.
    pub height: u32,
    pub original_width: u32,
    pub original_height: u32,
    pub format: String,
    /// Whether this is a complete frame.
    pub full_frame: bool,
    pub changed_regions: Option<Vec<ChangedRegion>>,
}

/// Messages as the client understands them.
#[derive(Debug, Clone)]
pub enum WebSocketMessage {
    Register(RegisterRequest),
    RegisterResponse(RegisterResponse),
    BrowserConnect(BrowserConnectRequest),
    Connected { success: bool, message: String },
    BrowserConnected { message: String },
    BrowserDisconnected { message: String },
    BrowserDisconnect,
    WebRTCOffer { target_id: String, session_description: SessionDescription },
    WebRTCAnswer { target_id: String, session_description: SessionDescription },
    WebRTCIceCandidate { target_id: String, ice_candidate: IceCandidate },
    ScreenData(ScreenData),
    MouseEvent(MouseEvent),
    KeyboardEvent(KeyboardEvent),
    VideoStreamConfig { config: VideoStreamConfig },
    ForceKeyframe,
    Disconnect,
    Ping,
    Pong,
    Error { message: String },
}

/// Where the client is in its life cycle.
#[derive(Debug, Clone, Copy, PartialEq, Eq)]
pub enum ClientState {
    WaitingForRegistration,
    WaitingForBrowser,
    WebRTCConnecting,
    Idle,
}

/// The name of a state, as shown to the user.
pub open spec fn client_state_name(s: ClientState) -> Seq<char> {
    match s {
        ClientState::WaitingForRegistration => "WaitingForRegistration"@,
        ClientState::WaitingForBrowser => "WaitingForBrowser"@,
        ClientState::WebRTCConnecting => "WebRTCConnecting"@,
        ClientState::Idle => "Idle"@,
    }
}

impl ClientState {
    /// The state's name (its variant name).
    pub fn name(&self) -> (r: String)
        ensures
            r@ == client_state_name(*self),
    {
        match self {
            ClientState::WaitingForRegistration => crate::text::owned("WaitingForRegistration"),
            ClientState::WaitingForBrowser => crate::text::owned("WaitingForBrowser"),
            ClientState::WebRTCConnecting => crate::text::owned("WebRTCConnecting"),
            ClientState::Idle => crate::text::owned("Idle"),
        }
    }
}

/// Start or stop signal for a worker task.
#[derive(Debug, Clone, Copy, PartialEq, Eq)]
pub enum ThreadControlSignal {
    Start,
    Stop,
}

} // verus!
