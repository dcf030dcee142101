use std::collections::hash_map::DefaultHasher;
use std::hash::{Hash, Hasher};

use remotecontrol::registry::generate_client_id;
use remotecontrol::server::ServerState;
use remotecontrol::server_types::{
    BrowserConnectRequest, ClientState, IceCandidate, RegisterRequest, SessionDescription, VideoStreamConfig,
    WebSocketMessage,
};
use remotecontrol::signaling::{ConnectionKind, Session, SignalAction, Target};
use remotecontrol::signals_server::SignalsServerState;

fn expected_id(mac: &str) -> String {
    let mut h = DefaultHasher::new();
    mac.hash(&mut h);
    format!("{:016x}", h.finish())
}

fn register(server: &mut ServerState, session: &mut Session, mac: &str, code: &str) -> Vec<SignalAction> {
    let msg = WebSocketMessage::Register(RegisterRequest { mac_address: mac.to_string(), auth_code: code.to_string() });
    let (actions, close) = server.handle_message(session, msg);
    assert!(!close);
    actions
}

#[test]
fn client_id_is_hex_of_default_hash() {
    let id = generate_client_id("AA:BB:CC:DD:EE:FF");
    assert_eq!(id, expected_id("AA:BB:CC:DD:EE:FF"));
    assert_eq!(id.len(), 16);
    assert_eq!(generate_client_id("AA:BB:CC:DD:EE:FF"), id);
}

#[test]
fn registration_records_client_and_answers() {
    let mut server = ServerState::new();
    let mut s = Session::new();
    let actions = register(&mut server, &mut s, "AA:BB:CC:DD:EE:FF", "1234567890");
    let id = expected_id("AA:BB:CC:DD:EE:FF");
    assert_eq!(s.connection_type, Some(ConnectionKind::Client));
    assert_eq!(s.client_id, Some(id.clone()));
    assert_eq!(actions.len(), 2);
    match &actions[0] {
        SignalAction::AddClientConnection(c) => assert_eq!(c, &id),
        other => panic!("unexpected {:?}", other),
    }
    match &actions[1] {
        SignalAction::Send { to: Target::Sender, message: WebSocketMessage::RegisterResponse(r) } => {
            assert_eq!(r.client_id, id);
            assert!(r.success);
            assert_eq!(r.message, "注册成功");
        }
        other => panic!("unexpected {:?}", other),
    }
    let rec = server.clients.get(&id).unwrap();
    assert_eq!(rec.auth_code, "1234567890");
    assert!(rec.is_connected && !rec.browser_connected && !rec.video_stream_active);
}

#[test]
fn browser_attaches_with_right_code() {
    let mut server = ServerState::new();
    let mut client = Session::new();
    register(&mut server, &mut client, "m1", "1111111111");
    let id = expected_id("m1");
    let mut browser = Session::new();
    let req = BrowserConnectRequest { client_id: id.clone(), auth_code: "1111111111".to_string() };
    let (actions, close) = server.handle_message(&mut browser, WebSocketMessage::BrowserConnect(req));
    assert!(!close);
    assert_eq!(actions.len(), 3);
    assert_eq!(browser.connection_type, Some(ConnectionKind::Browser));
    match &actions[1] {
        SignalAction::Send { to: Target::Sender, message: WebSocketMessage::Connected { success, message } } => {
            assert!(*success);
            assert_eq!(message, "信令连接成功，开始WebRTC协商");
        }
        other => panic!("unexpected {:?}", other),
    }
    match &actions[2] {
        SignalAction::Send { to: Target::Client(t), message: WebSocketMessage::BrowserConnected { message } } => {
            assert_eq!(t, &id);
            assert_eq!(message, "浏览器开始WebRTC连接");
        }
        other => panic!("unexpected {:?}", other),
    }
    assert!(server.clients.get(&id).unwrap().browser_connected);
}

#[test]
fn wrong_code_and_unknown_client_are_refused() {
    let mut server = ServerState::new();
    let mut client = Session::new();
    register(&mut server, &mut client, "m2", "2222222222");
    let id = expected_id("m2");
    let mut browser = Session::new();
    let bad = BrowserConnectRequest { client_id: id.clone(), auth_code: "0000000000".to_string() };
    let (actions, _) = server.handle_message(&mut browser, WebSocketMessage::BrowserConnect(bad));
    match &actions[..] {
        [SignalAction::Send { to: Target::Sender, message: WebSocketMessage::Error { message } }] => {
            assert_eq!(message, "验证码错误")
        }
        other => panic!("unexpected {:?}", other),
    }
    assert!(browser.client_id.is_none());
    let unknown = BrowserConnectRequest { client_id: "nope".to_string(), auth_code: "2222222222".to_string() };
    let (actions, _) = server.handle_message(&mut browser, WebSocketMessage::BrowserConnect(unknown));
    match &actions[..] {
        [SignalAction::Send { to: Target::Sender, message: WebSocketMessage::Error { message } }] => {
            assert_eq!(message, "客户端ID不存在")
        }
        other => panic!("unexpected {:?}", other),
    }
    assert!(!server.clients.get(&id).unwrap().browser_connected);
}

#[test]
fn ice_candidate_to_browser_carries_client_id() {
    let mut server = ServerState::new();
    let mut client = Session::new();
    register(&mut server, &mut client, "m3", "3333333333");
    let id = expected_id("m3");
    let cand = IceCandidate { candidate: "candidate:1".to_string(), sdp_mid: Some("0".to_string()), sdp_mline_index: Some(0) };
    let msg = WebSocketMessage::WebRTCIceCandidate { target_id: "browser".to_string(), ice_candidate: cand };
    let (actions, _) = server.handle_message(&mut client, msg);
    match &actions[..] {
        [SignalAction::Send { to: Target::Browser(t), message: WebSocketMessage::WebRTCIceCandidate { target_id, .. } }] => {
            assert_eq!(t, &id);
            assert_eq!(target_id, &id);
        }
        other => panic!("unexpected {:?}", other),
    }
}

#[test]
fn offer_goes_to_named_client_and_ping_gets_pong() {
    let mut server = ServerState::new();
    let mut browser = Session::new();
    let offer = WebSocketMessage::WebRTCOffer {
        target_id: "c9".to_string(),
        session_description: SessionDescription { sdp_type: "offer".to_string(), sdp: "v=0".to_string() },
    };
    let (actions, _) = server.handle_message(&mut browser, offer);
    match &actions[..] {
        [SignalAction::Send { to: Target::Client(t), message: WebSocketMessage::WebRTCOffer { .. } }] => assert_eq!(t, "c9"),
        other => panic!("unexpected {:?}", other),
    }
    let (actions, close) = server.handle_message(&mut browser, WebSocketMessage::Ping);
    assert!(!close);
    assert!(matches!(&actions[..], [SignalAction::Send { to: Target::Sender, message: WebSocketMessage::Pong }]));
}

#[test]
fn browser_disconnect_closes_and_notifies_client() {
    let mut server = ServerState::new();
    let mut client = Session::new();
    register(&mut server, &mut client, "m4", "4444444444");
    let id = expected_id("m4");
    let mut browser = Session::new();
    let req = BrowserConnectRequest { client_id: id.clone(), auth_code: "4444444444".to_string() };
    server.handle_message(&mut browser, WebSocketMessage::BrowserConnect(req));
    let (actions, close) = server.handle_message(&mut browser, WebSocketMessage::Disconnect);
    assert!(close);
    assert_eq!(actions.len(), 2);
    match &actions[0] {
        SignalAction::Send { to: Target::Client(t), message: WebSocketMessage::BrowserDisconnected { message } } => {
            assert_eq!(t, &id);
            assert_eq!(message, "WebRTC连接已断开");
        }
        other => panic!("unexpected {:?}", other),
    }
    assert!(!server.clients.get(&id).unwrap().browser_connected);
}

#[test]
fn client_cleanup_marks_disconnected() {
    let mut server = ServerState::new();
    let mut client = Session::new();
    register(&mut server, &mut client, "m5", "5555555555");
    let id = expected_id("m5");
    let actions = server.cleanup(&client);
    assert!(matches!(&actions[0], SignalAction::RemoveClientConnection(c) if c == &id));
    assert!(!server.clients.get(&id).unwrap().is_connected);
}

#[test]
fn video_config_marks_stream_active() {
    let mut server = SignalsServerState::new();
    let mut client = Session::new();
    let reg = WebSocketMessage::Register(RegisterRequest { mac_address: "m6".to_string(), auth_code: "6666666666".to_string() });
    server.handle_message(&mut client, reg);
    let id = expected_id("m6");
    let mut browser = Session::new();
    let cfg = VideoStreamConfig { width: 1280, height: 720, fps_bits: 30.0f32.to_bits(), bitrate: 1_000_000, codec: "h264".to_string() };
    let (actions, _) = server.handle_message(&mut browser, WebSocketMessage::VideoStreamConfig { target_id: id.clone(), config: cfg });
    assert_eq!(actions.len(), 1);
    assert!(server.clients.get(&id).unwrap().video_stream_active);
    let (actions, close) = server.handle_message(&mut browser, WebSocketMessage::ForceKeyframe { target_id: id.clone() });
    assert!(!close);
    assert!(matches!(&actions[..], [SignalAction::Send { to: Target::Client(t), .. }] if t == &id));
}

#[test]
fn client_state_record() {
    let c = ClientState::new("id".to_string(), "mac".to_string(), "code".to_string(), true, false);
    assert_eq!(c.auth_code, "code");
    assert!(c.is_connected && !c.browser_connected && !c.video_stream_active);
    let d = c.copy();
    assert_eq!(d.auth_code, "code");
}

#[test]
fn same_mac_gives_same_id_and_replaces_record() {
    let mut server = ServerState::new();
    let mut a = Session::new();
    register(&mut server, &mut a, "m7", "1111111111");
    let mut b = Session::new();
    register(&mut server, &mut b, "m7", "2222222222");
    assert_eq!(a.client_id, b.client_id);
    let id = expected_id("m7");
    assert_eq!(server.clients.get(&id).unwrap().auth_code, "2222222222");
    assert_eq!(server.clients.len(), 1);
}

#[test]
fn browser_connection_end_notifies_client() {
    let mut server = ServerState::new();
    let mut client = Session::new();
    register(&mut server, &mut client, "m8", "8888888888");
    let id = expected_id("m8");
    let mut browser = Session::new();
    let req = BrowserConnectRequest { client_id: id.clone(), auth_code: "8888888888".to_string() };
    server.handle_message(&mut browser, WebSocketMessage::BrowserConnect(req));
    let actions = server.cleanup(&browser);
    assert!(actions.iter().any(|a| matches!(a,
        SignalAction::Send { to: Target::Client(t), message: WebSocketMessage::BrowserDisconnected { message } }
            if t == &id && message == "WebRTC信令连接已断开")));
    assert!(actions.iter().any(|a| matches!(a, SignalAction::RemoveBrowserConnection(c) if c == &id)));
    assert!(!server.clients.get(&id).unwrap().browser_connected);
}
