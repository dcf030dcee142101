//! Building blocks shared by the two signalling servers: what a WebSocket
//! connection has become, where a message goes, and the steps every server
//! takes for registration, browser attachment and relaying.
use vstd::prelude::*;

use crate::registry::{client_id_of, client_table, generate_client_id, table_get, table_insert};
use crate::server_types::{
    BrowserConnectRequest, ClientState, ClientStateView, RegisterRequest, RegisterResponse,
    WebSocketMessage,
};
use crate::text::{owned, opt_view};
use dashmap::DashMap;

verus! {

/// The role a WebSocket connection has taken on.
#[derive(Debug, Clone, Copy, PartialEq, Eq)]
pub enum ConnectionKind {
    Client,
    Browser,
}

/// Per-connection state: its role and the client id it is bound to.
#[derive(Debug)]
pub struct Session {
    pub connection_type: Option<ConnectionKind>,
    pub client_id: Option<String>,
}

pub struct SessionView {
    pub connection_type: Option<ConnectionKind>,
    pub client_id: Option<Seq<char>>,
}

impl View for Session {
    type V = SessionView;

    open spec fn view(&self) -> SessionView {
        SessionView { connection_type: self.connection_type, client_id: opt_view(self.client_id) }
    }
}

impl Session {
    /// A connection that has not registered or attached yet.
    pub fn new() -> (r: Self)
        ensures
            r@.connection_type is None,
            r@.client_id is None,
    {
        Session { connection_type: None, client_id: None }
    }
}

/// Where a message is delivered.
#[derive(Debug)]
pub enum Target {
    /// The connection the triggering message came from.
    Sender,
    /// The client connection registered under this id.
    Client(String),
    /// The browser connection attached to this client id.
    Browser(String),
}

/// What the server does in response to a message. Deliveries to a client or
/// browser that has no open connection are dropped.
#[derive(Debug)]
pub enum SignalAction {
    Send { to: Target, message: WebSocketMessage },
    AddClientConnection(String),
    AddBrowserConnection(String),
    RemoveClientConnection(String),
    RemoveBrowserConnection(String),
}

/// The message text of the reply to a successful registration.
pub open spec fn register_ok_text() -> Seq<char> {
    "注册成功"@
}

pub open spec fn connected_text() -> Seq<char> {
    "信令连接成功，开始WebRTC协商"@
}

pub open spec fn browser_connected_text() -> Seq<char> {
    "浏览器开始WebRTC连接"@
}

pub open spec fn bad_auth_text() -> Seq<char> {
    "验证码错误"@
}

pub open spec fn unknown_client_text() -> Seq<char> {
    "客户端ID不存在"@
}

pub open spec fn webrtc_closed_text() -> Seq<char> {
    "WebRTC连接已断开"@
}

pub open spec fn signaling_closed_text() -> Seq<char> {
    "WebRTC信令连接已断开"@
}

/// `a` sends an `Error` carrying `text` back to the sender.
pub open spec fn is_error_to_sender(a: SignalAction, text: Seq<char>) -> bool {
    a matches SignalAction::Send { to: Target::Sender, message: WebSocketMessage::Error { message } }
        && message@ == text
}

/// `a` sends `m` to the client connection registered as `id`.
pub open spec fn is_send_to_client(a: SignalAction, id: Seq<char>, m: WebSocketMessage) -> bool {
    a matches SignalAction::Send { to: Target::Client(t), message } && t@ == id && message == m
}

/// `a` sends `m` to the browser attached to client `id`.
pub open spec fn is_send_to_browser(a: SignalAction, id: Seq<char>, m: WebSocketMessage) -> bool {
    a matches SignalAction::Send { to: Target::Browser(t), message } && t@ == id && message == m
}

/// `a` tells client `id` that its browser went away, with `text`.
pub open spec fn is_browser_gone_notice(a: SignalAction, id: Seq<char>, text: Seq<char>) -> bool {
    a matches SignalAction::Send {
        to: Target::Client(t),
        message: WebSocketMessage::BrowserDisconnected { message },
    } && t@ == id && message@ == text
}

/// The record a registration creates.
pub open spec fn fresh_client(auth_code: Seq<char>) -> ClientStateView {
    ClientStateView {
        auth_code,
        is_connected: true,
        browser_connected: false,
        video_stream_active: false,
    }
}

/// The effect of a `Register` message.
pub open spec fn register_step(
    reg0: Map<Seq<char>, ClientStateView>,
    req: RegisterRequest,
    reg1: Map<Seq<char>, ClientStateView>,
    sess1: SessionView,
    actions: Seq<SignalAction>,
) -> bool {
    let id = client_id_of(req.mac_address@);
    &&& reg1 == reg0.insert(id, fresh_client(req.auth_code@))
    &&& sess1.connection_type == Some(ConnectionKind::Client)
    &&& sess1.client_id == Some(id)
    &&& actions.len() == 2
    &&& actions[0] matches SignalAction::AddClientConnection(c) && c@ == id
    &&& actions[1] matches SignalAction::Send {
        to: Target::Sender,
        message: WebSocketMessage::RegisterResponse(RegisterResponse { client_id, success, message }),
    } && client_id@ == id && success && message@ == register_ok_text()
}

/// A browser may attach to `id` exactly when the client is registered and the
/// auth code matches the one it registered with.
pub open spec fn attach_allowed(
    reg0: Map<Seq<char>, ClientStateView>,
    id: Seq<char>,
    auth_code: Seq<char>,
) -> bool {
    reg0.contains_key(id) && reg0[id].auth_code == auth_code
}

/// The effect of a `BrowserConnect` message.
pub open spec fn browser_connect_step(
    reg0: Map<Seq<char>, ClientStateView>,
    sess0: SessionView,
    req: BrowserConnectRequest,
    reg1: Map<Seq<char>, ClientStateView>,
    sess1: SessionView,
    actions: Seq<SignalAction>,
) -> bool {
    let id = req.client_id@;
    if attach_allowed(reg0, id, req.auth_code@) {
        &&& reg1 == reg0.insert(id, ClientStateView { browser_connected: true, ..reg0[id] })
        &&& sess1.connection_type == Some(ConnectionKind::Browser)
        &&& sess1.client_id == Some(id)
        &&& actions.len() == 3
        &&& actions[0] matches SignalAction::AddBrowserConnection(c) && c@ == id
        &&& actions[1] matches SignalAction::Send {
            to: Target::Sender,
            message: WebSocketMessage::Connected { success, message },
        } && success && message@ == connected_text()
        &&& actions[2] matches SignalAction::Send {
            to: Target::Client(t),
            message: WebSocketMessage::BrowserConnected { message },
        } && t@ == id && message@ == browser_connected_text()
    } else {
        &&& reg1 == reg0
        &&& sess1 == sess0
        &&& actions.len() == 1
        &&& is_error_to_sender(
            actions[0],
            if reg0.contains_key(id) {
                bad_auth_text()
            } else {
                unknown_client_text()
            },
        )
    }
}

/// The relay of an ICE candidate: one addressed to "browser" comes from a
/// client and goes to the browser attached to the sender's client id, carrying
/// that id; any other comes from a browser and goes, unchanged, to the client
/// it names.
pub open spec fn ice_relay_step(sess0: SessionView, msg: WebSocketMessage, actions: Seq<SignalAction>) -> bool {
    match msg {
        WebSocketMessage::WebRTCIceCandidate { target_id, ice_candidate } => {
            if target_id@ == "browser"@ {
                match sess0.client_id {
                    Some(cid) => {
                        &&& actions.len() == 1
                        &&& actions[0] matches SignalAction::Send {
                            to: Target::Browser(t),
                            message: WebSocketMessage::WebRTCIceCandidate { target_id: tid, ice_candidate: ic },
                        } && t@ == cid && tid@ == cid && ic == ice_candidate
                    },
                    None => actions.len() == 0,
                }
            } else {
                actions.len() == 1 && is_send_to_client(actions[0], target_id@, msg)
            }
        },
        _ => false,
    }
}

/// The actions that end a connection: a client connection is dropped and its
/// record marked disconnected; a browser connection is dropped, its client's
/// record marked browserless, and the client told.
pub open spec fn cleanup_step(
    reg0: Map<Seq<char>, ClientStateView>,
    sess: SessionView,
    reg1: Map<Seq<char>, ClientStateView>,
    actions: Seq<SignalAction>,
) -> bool {
    match sess.client_id {
        Some(id) => match sess.connection_type {
            Some(ConnectionKind::Client) => {
                &&& reg1 == (if reg0.contains_key(id) {
                    reg0.insert(id, ClientStateView { is_connected: false, ..reg0[id] })
                } else {
                    reg0
                })
                &&& actions.len() == 1
                &&& actions[0] matches SignalAction::RemoveClientConnection(c) && c@ == id
            },
            Some(ConnectionKind::Browser) => {
                &&& reg1 == (if reg0.contains_key(id) {
                    reg0.insert(id, ClientStateView { browser_connected: false, ..reg0[id] })
                } else {
                    reg0
                })
                &&& actions.len() == 2
                &&& actions[0] matches SignalAction::RemoveBrowserConnection(c) && c@ == id
                &&& is_browser_gone_notice(actions[1], id, signaling_closed_text())
            },
            None => reg1 == reg0 && actions.len() == 0,
        },
        None => reg1 == reg0 && actions.len() == 0,
    }
}

/// Registers a client: records it under the id derived from its MAC address,
/// binds the connection to that id, and replies.
pub fn register_client(
    clients: &mut DashMap<String, ClientState>,
    session: &mut Session,
    req: RegisterRequest,
    actions: &mut Vec<SignalAction>,
)
    requires
        old(actions)@.len() == 0,
    ensures
        register_step(client_table(*old(clients)), req, client_table(*final(clients)), final(session)@, final(actions)@),
{
    let ghost req0 = req;
    let id = generate_client_id(req.mac_address.as_str());
    let record = ClientState::new(id.clone(), req.mac_address, req.auth_code, true, false);
    table_insert(clients, id.clone(), record);
    actions.push(SignalAction::AddClientConnection(id.clone()));
    session.connection_type = Some(ConnectionKind::Client);
    session.client_id = Some(id.clone());
    let response = RegisterResponse { client_id: id, success: true, message: owned("注册成功") };
    actions.push(
        SignalAction::Send {
            to: Target::Sender,
            message: WebSocketMessage::RegisterResponse(response),
        },
    );
    assert(final(session)@.client_id == Some(client_id_of(req0.mac_address@)));
}

/// Attaches a browser to a registered client when the auth code matches;
/// otherwise answers with an error and changes nothing.
pub fn attach_browser(
    clients: &mut DashMap<String, ClientState>,
    session: &mut Session,
    req: BrowserConnectRequest,
    actions: &mut Vec<SignalAction>,
)
    requires
        old(actions)@.len() == 0,
    ensures
        browser_connect_step(
            client_table(*old(clients)),
            old(session)@,
            req,
            client_table(*final(clients)),
            final(session)@,
            final(actions)@,
        ),
{
    match table_get(clients, req.client_id.as_str()) {
        Some(record) => {
            if record.auth_code == req.auth_code {
                let ghost reg0 = client_table(*clients);
                let updated = ClientState {
                    auth_code: record.auth_code,
                    is_connected: record.is_connected,
                    browser_connected: true,
                    video_stream_active: record.video_stream_active,
                };
                table_insert(clients, req.client_id.clone(), updated);
                assert(updated@ == ClientStateView { browser_connected: true, ..reg0[req.client_id@] });
                actions.push(SignalAction::AddBrowserConnection(req.client_id.clone()));
                session.connection_type = Some(ConnectionKind::Browser);
                session.client_id = Some(req.client_id.clone());
                actions.push(
                    SignalAction::Send {
                        to: Target::Sender,
                        message: WebSocketMessage::Connected {
                            success: true,
                            message: owned("信令连接成功，开始WebRTC协商"),
                        },
                    },
                );
                actions.push(
                    SignalAction::Send {
                        to: Target::Client(req.client_id),
                        message: WebSocketMessage::BrowserConnected {
                            message: owned("浏览器开始WebRTC连接"),
                        },
                    },
                );
            } else {
                actions.push(
                    SignalAction::Send {
                        to: Target::Sender,
                        message: WebSocketMessage::Error { message: owned("验证码错误") },
                    },
                );
            }
        },
        None => {
            actions.push(
                SignalAction::Send {
                    to: Target::Sender,
                    message: WebSocketMessage::Error { message: owned("客户端ID不存在") },
                },
            );
        },
    }
}

/// Relays an ICE candidate (see [`ice_relay_step`]).
pub fn relay_ice_candidate(session: &Session, msg: WebSocketMessage, actions: &mut Vec<SignalAction>)
    requires
        old(actions)@.len() == 0,
        msg is WebRTCIceCandidate,
    ensures
        ice_relay_step(session@, msg, final(actions)@),
{
    let ghost msg0 = msg;
    match msg {
        WebSocketMessage::WebRTCIceCandidate { target_id, ice_candidate } => {
            if crate::text::str_eq(target_id.as_str(), "browser") {
                match &session.client_id {
                    Some(cid) => {
                        actions.push(
                            SignalAction::Send {
                                to: Target::Browser(cid.clone()),
                                message: WebSocketMessage::WebRTCIceCandidate {
                                    target_id: cid.clone(),
                                    ice_candidate,
                                },
                            },
                        );
                    },
                    None => {},
                }
            } else {
                let t = target_id.clone();
                actions.push(
                    SignalAction::Send {
                        to: Target::Client(t),
                        message: WebSocketMessage::WebRTCIceCandidate { target_id, ice_candidate },
                    },
                );
            }
        },
        _ => {},
    }
}

/// Ends a connection (see [`cleanup_step`]).
pub fn cleanup_connection(
    clients: &mut DashMap<String, ClientState>,
    session: &Session,
) -> (actions: Vec<SignalAction>)
    ensures
        cleanup_step(client_table(*old(clients)), session@, client_table(*final(clients)), actions@),
{
    let mut actions: Vec<SignalAction> = Vec::new();
    match &session.client_id {
        Some(id) => match session.connection_type {
            Some(ConnectionKind::Client) => {
                actions.push(SignalAction::RemoveClientConnection(id.clone()));
                match table_get(clients, id.as_str()) {
                    Some(record) => {
                        let updated = ClientState {
                            auth_code: record.auth_code,
                            is_connected: false,
                            browser_connected: record.browser_connected,
                            video_stream_active: record.video_stream_active,
                        };
                        table_insert(clients, id.clone(), updated);
                    },
                    None => {},
                }
            },
            Some(ConnectionKind::Browser) => {
                actions.push(SignalAction::RemoveBrowserConnection(id.clone()));
                match table_get(clients, id.as_str()) {
                    Some(record) => {
                        let updated = ClientState {
                            auth_code: record.auth_code,
                            is_connected: record.is_connected,
                            browser_connected: false,
                            video_stream_active: record.video_stream_active,
                        };
                        table_insert(clients, id.clone(), updated);
                    },
                    None => {},
                }
                actions.push(
                    SignalAction::Send {
                        to: Target::Client(id.clone()),
                        message: WebSocketMessage::BrowserDisconnected {
                            message: owned("WebRTC信令连接已断开"),
                        },
                    },
                );
            },
            None => {},
        },
        None => {},
    }
    actions
}

} // verus!
