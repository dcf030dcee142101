//! The web server's signalling logic: how each message from a client or a
//! browser changes the client table and which deliveries it causes.
use vstd::prelude::*;

use crate::registry::{client_id_of, client_table, table_get, table_insert, table_new};
use crate::server_types::{
    BrowserConnectRequest, ClientState, ClientStateView, RegisterRequest, WebSocketMessage,
};
use crate::signaling::{
    browser_connect_step, cleanup_connection, cleanup_step, ice_relay_step, is_browser_gone_notice,
    is_send_to_browser, is_send_to_client, register_step, attach_browser, register_client,
    relay_ice_candidate, webrtc_closed_text, attach_allowed, bad_auth_text, unknown_client_text,
    is_error_to_sender, signaling_closed_text, ConnectionKind, Session, SessionView, SignalAction, Target,
};
use dashmap::DashMap;

verus! {

/// The signalling state shared by all connections of the web server.
pub struct ServerState {
    /// Registered clients, by client id.
    pub clients: DashMap<String, ClientState>,
}

/// The client table is unchanged and the connection keeps its role.
pub open spec fn unchanged(
    reg0: Map<Seq<char>, ClientStateView>,
    sess0: SessionView,
    reg1: Map<Seq<char>, ClientStateView>,
    sess1: SessionView,
) -> bool {
    reg1 == reg0 && sess1 == sess0
}

/// Messages that the connection's own client id routes to that client.
pub open spec fn relay_to_own_client(sess0: SessionView, msg: WebSocketMessage, actions: Seq<SignalAction>) -> bool {
    match sess0.client_id {
        Some(cid) => actions.len() == 1 && is_send_to_client(actions[0], cid, msg),
        None => actions.len() == 0,
    }
}

/// How the web server handles one message on a connection: the client table
/// before and after, the connection's state before and after, the actions
/// taken, and whether the connection closes.
pub open spec fn server_step(
    reg0: Map<Seq<char>, ClientStateView>,
    sess0: SessionView,
    msg: WebSocketMessage,
    reg1: Map<Seq<char>, ClientStateView>,
    sess1: SessionView,
    actions: Seq<SignalAction>,
    close: bool,
) -> bool {
    match msg {
        WebSocketMessage::Register(req) => register_step(reg0, req, reg1, sess1, actions) && !close,
        WebSocketMessage::BrowserConnect(req) => browser_connect_step(reg0, sess0, req, reg1, sess1, actions)
            && !close,
        WebSocketMessage::WebRTCOffer { target_id, .. } => {
            &&& unchanged(reg0, sess0, reg1, sess1)
            &&& actions.len() == 1
            &&& is_send_to_client(actions[0], target_id@, msg)
            &&& !close
        },
        WebSocketMessage::WebRTCAnswer { target_id, .. } => {
            &&& unchanged(reg0, sess0, reg1, sess1)
            &&& actions.len() == 1
            &&& is_send_to_browser(actions[0], target_id@, msg)
            &&& !close
        },
        WebSocketMessage::WebRTCIceCandidate { .. } => {
            &&& unchanged(reg0, sess0, reg1, sess1)
            &&& ice_relay_step(sess0, msg, actions)
            &&& !close
        },
        WebSocketMessage::MouseEvent(_) | WebSocketMessage::KeyboardEvent(_) => {
            &&& unchanged(reg0, sess0, reg1, sess1)
            &&& relay_to_own_client(sess0, msg, actions)
            &&& !close
        },
        WebSocketMessage::Disconnect => {
            &&& sess1 == sess0
            &&& close
            &&& match sess0.client_id {
                Some(cid) => {
                    &&& reg1 == (if reg0.contains_key(cid) {
                        reg0.insert(cid, ClientStateView { browser_connected: false, ..reg0[cid] })
                    } else {
                        reg0
                    })
                    &&& actions.len() == 2
                    &&& is_browser_gone_notice(actions[0], cid, webrtc_closed_text())
                    &&& actions[1] matches SignalAction::RemoveBrowserConnection(c) && c@ == cid
                },
                None => reg1 == reg0 && actions.len() == 0,
            }
        },
        WebSocketMessage::Ping => {
            &&& unchanged(reg0, sess0, reg1, sess1)
            &&& actions.len() == 1
            &&& actions[0] matches SignalAction::Send { to: Target::Sender, message: WebSocketMessage::Pong }
            &&& !close
        },
        _ => unchanged(reg0, sess0, reg1, sess1) && actions.len() == 0 && !close,
    }
}

impl ServerState {
    /// A server with no registered clients.
    pub fn new() -> (r: Self)
        ensures
            client_table(r.clients).dom() == Set::<Seq<char>>::empty(),
    {
        ServerState { clients: table_new() }
    }

    /// Handles one message received on a connection. Returns the actions to
    /// carry out, and whether the connection should close afterwards.
    pub fn handle_message(&mut self, session: &mut Session, msg: WebSocketMessage) -> (r: (
        Vec<SignalAction>,
        bool,
    ))
        ensures
            server_step(
                client_table(old(self).clients),
                old(session)@,
                msg,
                client_table(final(self).clients),
                final(session)@,
                r.0@,
                r.1,
            ),
    {
        let ghost msg0 = msg;
        let mut actions: Vec<SignalAction> = Vec::new();
        match msg {
            WebSocketMessage::Register(req) => {
                register_client(&mut self.clients, session, req, &mut actions);
                (actions, false)
            },
            WebSocketMessage::BrowserConnect(req) => {
                attach_browser(&mut self.clients, session, req, &mut actions);
                (actions, false)
            },
            WebSocketMessage::WebRTCOffer { target_id, session_description } => {
                let t = target_id.clone();
                actions.push(
                    SignalAction::Send {
                        to: Target::Client(t),
                        message: WebSocketMessage::WebRTCOffer { target_id, session_description },
                    },
                );
                (actions, false)
            },
            WebSocketMessage::WebRTCAnswer { target_id, session_description } => {
                let t = target_id.clone();
                actions.push(
                    SignalAction::Send {
                        to: Target::Browser(t),
                        message: WebSocketMessage::WebRTCAnswer { target_id, session_description },
                    },
                );
                (actions, false)
            },
            WebSocketMessage::WebRTCIceCandidate { target_id, ice_candidate } => {
                relay_ice_candidate(
                    session,
                    WebSocketMessage::WebRTCIceCandidate { target_id, ice_candidate },
                    &mut actions,
                );
                (actions, false)
            },
            WebSocketMessage::MouseEvent(event) => {
                match &session.client_id {
                    Some(cid) => {
                        actions.push(
                            SignalAction::Send {
                                to: Target::Client(cid.clone()),
                                message: WebSocketMessage::MouseEvent(event),
                            },
                        );
                    },
                    None => {},
                }
                (actions, false)
            },
            WebSocketMessage::KeyboardEvent(event) => {
                match &session.client_id {
                    Some(cid) => {
                        actions.push(
                            SignalAction::Send {
                                to: Target::Client(cid.clone()),
                                message: WebSocketMessage::KeyboardEvent(event),
                            },
                        );
                    },
                    None => {},
                }
                (actions, false)
            },
            WebSocketMessage::Disconnect => {
                match &session.client_id {
                    Some(id) => {
                        match table_get(&self.clients, id.as_str()) {
                            Some(record) => {
                                let updated = ClientState {
                                    auth_code: record.auth_code,
                                    is_connected: record.is_connected,
                                    browser_connected: false,
                                    video_stream_active: record.video_stream_active,
                                };
                                table_insert(&mut self.clients, id.clone(), updated);
                            },
                            None => {},
                        }
                        actions.push(
                            SignalAction::Send {
                                to: Target::Client(id.clone()),
                                message: WebSocketMessage::BrowserDisconnected {
                                    message: crate::text::owned("WebRTC连接已断开"),
                                },
                            },
                        );
                        actions.push(SignalAction::RemoveBrowserConnection(id.clone()));
                    },
                    None => {},
                }
                (actions, true)
            },
            WebSocketMessage::Ping => {
                actions.push(SignalAction::Send { to: Target::Sender, message: WebSocketMessage::Pong });
                (actions, false)
            },
            _ => (actions, false),
        }
    }

    /// Carries out the end of a connection (see [`cleanup_step`]).
    pub fn cleanup(&mut self, session: &Session) -> (r: Vec<SignalAction>)
        ensures
            cleanup_step(client_table(old(self).clients), session@, client_table(final(self).clients), r@),
    {
        cleanup_connection(&mut self.clients, session)
    }
}


/// A browser that presents the auth code a client registered with, and the id
/// the server derived from that client's MAC address, is attached: it gets a
/// successful `Connected` reply, the client is told, and the record is marked
/// as having a browser.
pub proof fn law_register_then_attach(
    reg0: Map<Seq<char>, ClientStateView>,
    s0: SessionView,
    req: RegisterRequest,
    reg1: Map<Seq<char>, ClientStateView>,
    s1: SessionView,
    a1: Seq<SignalAction>,
    c1: bool,
    s2: SessionView,
    breq: BrowserConnectRequest,
    reg2: Map<Seq<char>, ClientStateView>,
    s3: SessionView,
    a2: Seq<SignalAction>,
    c2: bool,
)
    requires
        server_step(reg0, s0, WebSocketMessage::Register(req), reg1, s1, a1, c1),
        server_step(reg1, s2, WebSocketMessage::BrowserConnect(breq), reg2, s3, a2, c2),
        breq.client_id@ == client_id_of(req.mac_address@),
        breq.auth_code@ == req.auth_code@,
    ensures
        a2.len() == 3,
        a2[1] matches SignalAction::Send { to: Target::Sender, message: WebSocketMessage::Connected { success, .. } } && success,
        reg2.contains_key(breq.client_id@),
        reg2[breq.client_id@].browser_connected,
        s3.connection_type == Some(ConnectionKind::Browser),
        s3.client_id == Some(breq.client_id@),
{
    assert(reg1[breq.client_id@].auth_code == req.auth_code@);
}

/// A browser is attached exactly when the client id is registered with the
/// presented auth code. Otherwise the request changes nothing and is answered
/// with an `Error`: "验证码错误" for a registered id, "客户端ID不存在" for an
/// unknown one.
pub proof fn law_attach_needs_matching_code(
    reg0: Map<Seq<char>, ClientStateView>,
    s0: SessionView,
    breq: BrowserConnectRequest,
    reg1: Map<Seq<char>, ClientStateView>,
    s1: SessionView,
    a: Seq<SignalAction>,
    close: bool,
)
    requires
        server_step(reg0, s0, WebSocketMessage::BrowserConnect(breq), reg1, s1, a, close),
    ensures
        (s1.connection_type == Some(ConnectionKind::Browser)) <==> attach_allowed(
            reg0,
            breq.client_id@,
            breq.auth_code@,
        ) || s0.connection_type == Some(ConnectionKind::Browser),
        !attach_allowed(reg0, breq.client_id@, breq.auth_code@) ==> {
            &&& reg1 == reg0
            &&& s1 == s0
            &&& a.len() == 1
            &&& is_error_to_sender(
                a[0],
                if reg0.contains_key(breq.client_id@) {
                    bad_auth_text()
                } else {
                    unknown_client_text()
                },
            )
        },
        !close,
{
}

/// Registering twice with the same MAC address gives the same client id, and
/// the second registration replaces the record.
pub proof fn law_client_id_fixed_by_mac(
    reg0: Map<Seq<char>, ClientStateView>,
    s0: SessionView,
    r1: RegisterRequest,
    reg1: Map<Seq<char>, ClientStateView>,
    s1: SessionView,
    a1: Seq<SignalAction>,
    c1: bool,
    t0: SessionView,
    r2: RegisterRequest,
    reg2: Map<Seq<char>, ClientStateView>,
    t1: SessionView,
    a2: Seq<SignalAction>,
    c2: bool,
)
    requires
        server_step(reg0, s0, WebSocketMessage::Register(r1), reg1, s1, a1, c1),
        server_step(reg1, t0, WebSocketMessage::Register(r2), reg2, t1, a2, c2),
        r1.mac_address@ == r2.mac_address@,
    ensures
        s1.client_id == t1.client_id,
        reg2[t1.client_id->0].auth_code == r2.auth_code@,
        reg2.dom() == reg1.dom(),
{
    assert(reg2.dom() =~= reg1.dom());
}

/// When a browser connection ends, its client's record no longer has a
/// browser and the client is told "WebRTC信令连接已断开".
pub proof fn law_browser_cleanup(
    reg0: Map<Seq<char>, ClientStateView>,
    sess: SessionView,
    reg1: Map<Seq<char>, ClientStateView>,
    a: Seq<SignalAction>,
)
    requires
        cleanup_step(reg0, sess, reg1, a),
        sess.connection_type == Some(ConnectionKind::Browser),
        sess.client_id is Some,
        reg0.contains_key(sess.client_id->0),
    ensures
        !reg1[sess.client_id->0].browser_connected,
        is_browser_gone_notice(a[1], sess.client_id->0, signaling_closed_text()),
{
}

} // verus!
