//! The stand-alone signalling server: how each message changes the client
//! table and which deliveries it causes.
use vstd::prelude::*;

use crate::registry::{client_table, table_get, table_insert, table_new};
use crate::server_types::{ClientState, ClientStateView, WebSocketMessage};
use crate::server::unchanged;
use crate::signaling::{
    browser_connect_step, cleanup_connection, cleanup_step, ice_relay_step, is_browser_gone_notice,
    is_send_to_browser, is_send_to_client, register_step, attach_browser, register_client,
    relay_ice_candidate, webrtc_closed_text, Session, SessionView, SignalAction, Target,
};
use dashmap::DashMap;

verus! {

/// The signalling state shared by all connections of the signalling server.
pub struct SignalsServerState {
    /// Registered clients, by client id.
    pub clients: DashMap<String, ClientState>,
}

/// How the signalling server handles one message on a connection: the client table
/// before and after, the connection's state before and after, the actions
/// taken, and whether the connection closes.
pub open spec fn signals_step(
    reg0: Map<Seq<char>, ClientStateView>,
    sess0: SessionView,
    msg: WebSocketMessage,
    reg1: Map<Seq<char>, ClientStateView>,
    sess1: SessionView,
    actions: Seq<SignalAction>,
    close: bool,
) -> bool {
    match msg {
        WebSocketMessage::Register(req) => register_step(reg0, req, reg1, sess1, actions) && !close,
        WebSocketMessage::BrowserConnect(req) => browser_connect_step(reg0, sess0, req, reg1, sess1, actions)
            && !close,
        WebSocketMessage::WebRTCOffer { target_id, .. } => {
            &&& unchanged(reg0, sess0, reg1, sess1)
            &&& actions.len() == 1
            &&& is_send_to_client(actions[0], target_id@, msg)
            &&& !close
        },
        WebSocketMessage::WebRTCAnswer { target_id, .. } => {
            &&& unchanged(reg0, sess0, reg1, sess1)
            &&& actions.len() == 1
            &&& is_send_to_browser(actions[0], target_id@, msg)
            &&& !close
        },
        WebSocketMessage::WebRTCIceCandidate { .. } => {
            &&& unchanged(reg0, sess0, reg1, sess1)
            &&& ice_relay_step(sess0, msg, actions)
            &&& !close
        },
        WebSocketMessage::VideoStreamConfig { target_id, .. } => {
            &&& sess1 == sess0
            &&& reg1 == (if reg0.contains_key(target_id@) {
                reg0.insert(target_id@, ClientStateView { video_stream_active: true, ..reg0[target_id@] })
            } else {
                reg0
            })
            &&& actions.len() == 1
            &&& is_send_to_client(actions[0], target_id@, msg)
            &&& !close
        },
        WebSocketMessage::ForceKeyframe { target_id } => {
            &&& unchanged(reg0, sess0, reg1, sess1)
            &&& actions.len() == 1
            &&& is_send_to_client(actions[0], target_id@, msg)
            &&& !close
        },
        WebSocketMessage::Disconnect => {
            &&& sess1 == sess0
            &&& close
            &&& match sess0.client_id {
                Some(cid) => {
                    &&& reg1 == (if reg0.contains_key(cid) {
                        reg0.insert(
                            cid,
                            ClientStateView { browser_connected: false, video_stream_active: false, ..reg0[cid] },
                        )
                    } else {
                        reg0
                    })
                    &&& actions.len() == 2
                    &&& is_browser_gone_notice(actions[0], cid, webrtc_closed_text())
                    &&& actions[1] matches SignalAction::RemoveBrowserConnection(c) && c@ == cid
                },
                None => reg1 == reg0 && actions.len() == 0,
            }
        },
        WebSocketMessage::Ping => {
            &&& unchanged(reg0, sess0, reg1, sess1)
            &&& actions.len() == 1
            &&& actions[0] matches SignalAction::Send { to: Target::Sender, message: WebSocketMessage::Pong }
            &&& !close
        },
        _ => unchanged(reg0, sess0, reg1, sess1) && actions.len() == 0 && !close,
    }
}

impl SignalsServerState {
    /// A server with no registered clients.
    pub fn new() -> (r: Self)
        ensures
            client_table(r.clients).dom() == Set::<Seq<char>>::empty(),
    {
        SignalsServerState { clients: table_new() }
    }

    /// Handles one message received on a connection. Returns the actions to
    /// carry out, and whether the connection should close afterwards.
    pub fn handle_message(&mut self, session: &mut Session, msg: WebSocketMessage) -> (r: (
        Vec<SignalAction>,
        bool,
    ))
        ensures
            signals_step(
                client_table(old(self).clients),
                old(session)@,
                msg,
                client_table(final(self).clients),
                final(session)@,
                r.0@,
                r.1,
            ),
    {
        let ghost msg0 = msg;
        let mut actions: Vec<SignalAction> = Vec::new();
        match msg {
            WebSocketMessage::Register(req) => {
                register_client(&mut self.clients, session, req, &mut actions);
                (actions, false)
            },
            WebSocketMessage::BrowserConnect(req) => {
                attach_browser(&mut self.clients, session, req, &mut actions);
                (actions, false)
            },
            WebSocketMessage::WebRTCOffer { target_id, session_description } => {
                let t = target_id.clone();
                actions.push(
                    SignalAction::Send {
                        to: Target::Client(t),
                        message: WebSocketMessage::WebRTCOffer { target_id, session_description },
                    },
                );
                (actions, false)
            },
            WebSocketMessage::WebRTCAnswer { target_id, session_description } => {
                let t = target_id.clone();
                actions.push(
                    SignalAction::Send {
                        to: Target::Browser(t),
                        message: WebSocketMessage::WebRTCAnswer { target_id, session_description },
                    },
                );
                (actions, false)
            },
            WebSocketMessage::WebRTCIceCandidate { target_id, ice_candidate } => {
                relay_ice_candidate(
                    session,
                    WebSocketMessage::WebRTCIceCandidate { target_id, ice_candidate },
                    &mut actions,
                );
                (actions, false)
            },
            WebSocketMessage::VideoStreamConfig { target_id, config } => {
                match table_get(&self.clients, target_id.as_str()) {
                    Some(record) => {
                        let updated = ClientState {
                            auth_code: record.auth_code,
                            is_connected: record.is_connected,
                            browser_connected: record.browser_connected,
                            video_stream_active: true,
                        };
                        table_insert(&mut self.clients, target_id.clone(), updated);
                    },
                    None => {},
                }
                let t = target_id.clone();
                actions.push(
                    SignalAction::Send {
                        to: Target::Client(t),
                        message: WebSocketMessage::VideoStreamConfig { target_id, config },
                    },
                );
                (actions, false)
            },
            WebSocketMessage::ForceKeyframe { target_id } => {
                let t = target_id.clone();
                actions.push(
                    SignalAction::Send {
                        to: Target::Client(t),
                        message: WebSocketMessage::ForceKeyframe { target_id },
                    },
                );
                (actions, false)
            },
            WebSocketMessage::Disconnect => {
                match &session.client_id {
                    Some(id) => {
                        match table_get(&self.clients, id.as_str()) {
                            Some(record) => {
                                let updated = ClientState {
                                    auth_code: record.auth_code,
                                    is_connected: record.is_connected,
                                    browser_connected: false,
                                    video_stream_active: false,
                                };
                                table_insert(&mut self.clients, id.clone(), updated);
                            },
                            None => {},
                        }
                        actions.push(
                            SignalAction::Send {
                                to: Target::Client(id.clone()),
                                message: WebSocketMessage::BrowserDisconnected {
                                    message: crate::text::owned("WebRTC连接已断开"),
                                },
                            },
                        );
                        actions.push(SignalAction::RemoveBrowserConnection(id.clone()));
                    },
                    None => {},
                }
                (actions, true)
            },
            WebSocketMessage::Ping => {
                actions.push(SignalAction::Send { to: Target::Sender, message: WebSocketMessage::Pong });
                (actions, false)
            },
            _ => (actions, false),
        }
    }

    /// Carries out the end of a connection (see [`cleanup_step`]).
    pub fn cleanup(&mut self, session: &Session) -> (r: Vec<SignalAction>)
        ensures
            cleanup_step(client_table(old(self).clients), session@, client_table(final(self).clients), r@),
    {
        cleanup_connection(&mut self.clients, session)
    }
}

} // verus!
