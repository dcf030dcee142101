use std::cell::RefCell;

use remotecontrol::client_config::{
    auth_code_from_digits, client_conf_file, fallback_mac, generate_auth_code, mac_or_fallback, ClientConfig, ConfigError, RtcConfig, ServerConfig, StunServer, TurnServer,
    WebRtcConfig,
};
use remotecontrol::client_types::{ClientState, KeyboardEvent, ThreadControlSignal, WebSocketMessage};
use remotecontrol::input::{
    mouse_button_code, parse_key, windows_wheel_data, x11_keycode, x11_scroll_clicks, InputController, InputError,
    KeyboardController, MouseController,
};
use remotecontrol::network::{
    quality_for_bitrate, server_endpoint, startup_status, ClientAction, ClientEvent, ClientSession, StartupStage,
};
use remotecontrol::peer::{
    analyze_sdp, answer_media, answer_message, candidate_line, local_candidate_message, peer_reaction, PeerReaction,
    PeerState,
};
use remotecontrol::relay::{classify_stun, stun_outcome, CredentialStore, StunClass, StunOutcome, StunServerConfig};
use remotecontrol::server_config::{HttpsConfig, WebRtcConfig as ServerWebRtcConfig};
use remotecontrol::service::{client_info, display_client_id, ServiceControl};
use remotecontrol::threads::{handle_keyboard_event, handle_mouse_event, InputWorker, MouseOutcome};
use remotecontrol::video_encoder::NetworkQuality;
use remotecontrol::server_types::{RegisterResponse, SessionDescription};

#[derive(Default)]
struct Recorder {
    calls: RefCell<Vec<String>>,
}

impl KeyboardController for Recorder {
    fn send_key_down(&self, key_code: u32, scan_code: u32) -> Result<(), InputError> {
        self.calls.borrow_mut().push(format!("down {key_code} {scan_code}"));
        Ok(())
    }
    fn send_key_up(&self, key_code: u32, scan_code: u32) -> Result<(), InputError> {
        self.calls.borrow_mut().push(format!("up {key_code} {scan_code}"));
        Ok(())
    }
}

impl MouseController for Recorder {
    fn move_mouse(&self, x: i32, y: i32) -> Result<(), InputError> {
        self.calls.borrow_mut().push(format!("move {x} {y}"));
        Ok(())
    }
    fn send_mouse_down(&self, button: u32, x: i32, y: i32) -> Result<(), InputError> {
        self.calls.borrow_mut().push(format!("mdown {button} {x} {y}"));
        Ok(())
    }
    fn send_mouse_up(&self, button: u32, x: i32, y: i32) -> Result<(), InputError> {
        self.calls.borrow_mut().push(format!("mup {button} {x} {y}"));
        Ok(())
    }
    fn send_scroll(&self, delta_x: i32, delta_y: i32) -> Result<(), InputError> {
        self.calls.borrow_mut().push(format!("scroll {delta_x} {delta_y}"));
        Ok(())
    }
}

#[derive(Default)]
struct StuckPointer {
    calls: RefCell<Vec<String>>,
}

impl KeyboardController for StuckPointer {
    fn send_key_down(&self, _key_code: u32, _scan_code: u32) -> Result<(), InputError> {
        Ok(())
    }
    fn send_key_up(&self, _key_code: u32, _scan_code: u32) -> Result<(), InputError> {
        Ok(())
    }
}

impl MouseController for StuckPointer {
    fn move_mouse(&self, _x: i32, _y: i32) -> Result<(), InputError> {
        Err(InputError { message: "pointer stuck".to_string() })
    }
    fn send_mouse_down(&self, _button: u32, _x: i32, _y: i32) -> Result<(), InputError> {
        Ok(())
    }
    fn send_mouse_up(&self, _button: u32, _x: i32, _y: i32) -> Result<(), InputError> {
        Ok(())
    }
    fn send_scroll(&self, delta_x: i32, delta_y: i32) -> Result<(), InputError> {
        self.calls.borrow_mut().push(format!("scroll {delta_x} {delta_y}"));
        Ok(())
    }
}

#[test]
fn scroll_stops_after_failed_move() {
    let c = InputController::new(StuckPointer::default());
    let err = c.scroll_mouse(5, 6, 2).unwrap_err();
    assert_eq!(err.message, "pointer stuck");
    assert!(c.controller.calls.borrow().is_empty());
}

#[test]
fn controller_hands_codes_to_the_platform() {
    let c = InputController::new(Recorder::default());
    assert!(c.press_key("KeyA").is_ok());
    assert!(c.release_key("KeyA").is_ok());
    assert!(c.press_key("NoSuchKey").is_ok());
    assert!(c.release_mouse_button(3, 4, "middle").is_ok());
    assert!(c.move_mouse(-1, 7).is_ok());
    assert_eq!(*c.controller.calls.borrow(), vec!["down 65 30", "up 65 30", "mup 3 3 4", "move -1 7"]);
}

#[test]
fn key_table_entries() {
    assert_eq!(parse_key("KeyA"), Some((0x41, 0x1E)));
    assert_eq!(parse_key("a"), None);
    assert_eq!(parse_key("Digit0"), Some((0x30, 0x0B)));
    assert_eq!(parse_key("F12"), Some((0x7B, 0x58)));
    assert_eq!(parse_key("Enter"), Some((0x0D, 0x1C)));
    assert_eq!(parse_key("Insert"), Some((0x2D, 0x52)));
    assert_eq!(parse_key("F13"), None);
    assert_eq!(x11_keycode(0x1E), 0x26);
}

#[test]
fn button_names() {
    assert_eq!(mouse_button_code("left"), 1);
    assert_eq!(mouse_button_code("right"), 2);
    assert_eq!(mouse_button_code("middle"), 3);
    assert_eq!(mouse_button_code("other"), 1);
}

#[test]
fn scroll_encodings() {
    assert_eq!(x11_scroll_clicks(0, 3), vec![(4, 3)]);
    assert_eq!(x11_scroll_clicks(-2, -1), vec![(5, 1), (6, 2)]);
    assert!(x11_scroll_clicks(0, 0).is_empty());
    assert_eq!(windows_wheel_data(1), 120);
    assert_eq!(windows_wheel_data(-1), (-120i32) as u32);
}

#[test]
fn mouse_events_reach_the_platform() {
    let c = InputController::new(Recorder::default());
    assert!(matches!(handle_mouse_event("press", "right", 10, 20, None, &c), MouseOutcome::Performed(Ok(()))));
    assert!(matches!(handle_mouse_event("scroll", "left", 1, 2, Some(-3), &c), MouseOutcome::Performed(Ok(()))));
    assert!(matches!(handle_mouse_event("scroll", "left", 1, 2, None, &c), MouseOutcome::MissingScrollDelta));
    assert!(matches!(handle_mouse_event("hover", "left", 1, 2, None, &c), MouseOutcome::UnknownEventType));
    assert_eq!(*c.controller.calls.borrow(), vec!["mdown 2 10 20", "move 1 2", "scroll 0 -3"]);
}

#[test]
fn key_events_reach_the_platform() {
    let c = InputController::new(Recorder::default());
    let press = KeyboardEvent { key: "Tab".to_string(), event_type: "press".to_string() };
    assert!(matches!(handle_keyboard_event(&press, &c), Some(Ok(()))));
    let unknown_key = KeyboardEvent { key: "Hyper".to_string(), event_type: "release".to_string() };
    assert!(matches!(handle_keyboard_event(&unknown_key, &c), Some(Ok(()))));
    let other = KeyboardEvent { key: "a".to_string(), event_type: "tap".to_string() };
    assert!(handle_keyboard_event(&other, &c).is_none());
    assert_eq!(*c.controller.calls.borrow(), vec!["down 9 15"]);
}

#[test]
fn input_worker_protocol() {
    let mut w = InputWorker::new();
    let mouse_free = WebSocketMessage::Ping;
    assert!(!w.accepts(&WebSocketMessage::KeyboardEvent(KeyboardEvent { key: "a".into(), event_type: "press".into() })));
    assert!(w.on_control(ThreadControlSignal::Start));
    assert!(w.accepts(&WebSocketMessage::KeyboardEvent(KeyboardEvent { key: "a".into(), event_type: "press".into() })));
    assert!(!w.accepts(&mouse_free));
    assert!(!w.on_control(ThreadControlSignal::Stop));
}

#[test]
fn auth_code_is_ten_digits() {
    let code = generate_auth_code();
    assert_eq!(code.len(), 10);
    assert!(code.chars().all(|c| c.is_ascii_digit()));
}

#[test]
fn auth_code_digits_and_mac_choice() {
    assert_eq!(auth_code_from_digits(&vec![0, 1, 2, 3, 4, 5, 6, 7, 8, 9]), "0123456789");
    assert_eq!(auth_code_from_digits(&vec![9, 0]), "90");
    assert_eq!(mac_or_fallback(Some("AA:BB:CC:DD:EE:FF".to_string()), 1, 2, 3), "AA:BB:CC:DD:EE:FF");
    assert_eq!(mac_or_fallback(None, 1, 2, 0xab), "00:00:00:01:02:ab");
    let conf = ClientConfig { server_url: "ws://h/ws".into(), client_id: Some("id1".into()), auth_code: "0000000001".into() };
    assert_eq!(client_conf_file(&conf), "server_url = \"ws://h/ws\"\nclient_id = \"id1\"\nauth_code = \"0000000001\"\n");
}

#[test]
fn fallback_mac_format() {
    assert_eq!(fallback_mac(0x0a, 0xff, 0x00), "00:00:00:0a:ff:00");
}

fn sample_webrtc_config() -> WebRtcConfig {
    WebRtcConfig {
        stun_servers: vec![StunServer { url: "stun:a:3478".into() }],
        turn_servers: vec![TurnServer { url: "turn:b:3478".into(), username: "u".into(), credential: "p".into() }],
        rtc_config: RtcConfig { ice_candidate_pool_size: 10, bundle_policy: "max-bundle".into(), rtcp_mux_policy: "require".into() },
        server_config: ServerConfig { server_url: "ws://h:3000/ws".into(), client_id: "cid".into(), auth_code: "0123456789".into() },
    }
}

#[test]
fn config_loading() {
    assert_eq!(ClientConfig::get_config_path().unwrap(), "webrtc-config.yaml");
    let loaded = ClientConfig::load(Some(Ok(sample_webrtc_config()))).unwrap();
    assert!(loaded.first_start_file.is_none());
    let c = loaded.config;
    assert_eq!(c.server_url, "ws://h:3000/ws");
    assert_eq!(c.client_id, Some("cid".to_string()));
    assert_eq!(c.auth_code, "0123456789");
    let first = ClientConfig::load(None).unwrap();
    let d = first.config;
    assert_eq!(d.server_url, "ws://127.0.0.1:8080/ws");
    assert!(d.client_id.is_none());
    assert_eq!(
        first.first_start_file.unwrap(),
        format!("server_url = \"ws://127.0.0.1:8080/ws\"\nauth_code = \"{}\"\n", d.auth_code)
    );
    assert_eq!(ClientConfig::get_first_start_path(), "client.conf");
    let e = ClientConfig::load(Some(Err(ConfigError { message: "bad".into() }))).unwrap_err();
    assert_eq!(e.message, "bad");
    let mut c2 = c.clone();
    c2.update_client_id("new".into()).unwrap();
    assert_eq!(c2.client_id, Some("new".to_string()));
}

#[test]
fn ice_servers_from_config() {
    let servers = sample_webrtc_config().to_ice_servers();
    assert_eq!(servers.len(), 2);
    assert_eq!(servers[0].urls, vec!["stun:a:3478".to_string()]);
    assert_eq!(servers[0].username, "");
    assert_eq!(servers[1].urls, vec!["turn:b:3478".to_string()]);
    assert_eq!((servers[1].username.as_str(), servers[1].credential.as_str()), ("u", "p"));
}

#[test]
fn frontend_ice_format() {
    let cfg = ServerWebRtcConfig {
        stun_servers: vec![remotecontrol::server_config::StunServer { url: "stun:s".into() }],
        turn_servers: vec![remotecontrol::server_config::TurnServer { url: "turn:t".into(), username: "u".into(), credential: "c".into() }],
        rtc_config: remotecontrol::server_config::RtcConfig { ice_candidate_pool_size: 4, bundle_policy: "balanced".into(), rtcp_mux_policy: "require".into() },
        https_config: HttpsConfig::default(),
    };
    let f = cfg.to_frontend_format();
    assert_eq!(f.ice_servers.len(), 2);
    assert_eq!(f.ice_servers[0].username, None);
    assert_eq!(f.ice_servers[1].credential, Some("c".to_string()));
    assert_eq!(f.ice_transport_policy, "all");
    assert_eq!(f.ice_candidate_pool_size, 4);
}

#[test]
fn mac_address_and_client_info() {
    let cfg = ClientConfig { server_url: "ws://x".into(), client_id: None, auth_code: "5555555555".into() };
    let mac = cfg.get_mac_address().unwrap();
    assert_eq!(mac.len(), 17);
    let (id, code, mac2, version) = client_info(&cfg).unwrap();
    assert!(id.starts_with("temp-"));
    assert_eq!(id.len(), 13);
    assert_eq!(code, "5555555555");
    assert_eq!(mac2.len(), 17);
    assert_eq!(version, "1.0.0");
}

#[test]
fn display_ids() {
    assert_eq!(display_client_id(&None, "AA:BB:CC:DD:EE:FF"), "temp-AABBCCDD");
    assert_eq!(display_client_id(&Some("abc".into()), "AA:BB:CC:DD:EE:FF"), "abc");
}

#[test]
fn service_start_stop() {
    let mut s = ServiceControl::new();
    assert!(s.start().is_ok());
    assert_eq!(s.start().unwrap_err(), "服务已在运行中");
    s.client_state = ClientState::WebRTCConnecting;
    let (id, state, running) = s.status(&Some("c1".into()));
    assert_eq!((id, state.as_str(), running), (Some("c1".to_string()), "WebRTCConnecting", true));
    s.stop();
    assert!(!s.running);
    assert_eq!(s.client_state, ClientState::Idle);
    assert!(s.start().is_ok());
}

#[test]
fn session_registration_and_browser_flow() {
    let mut s = ClientSession::new(None);
    let acts = s.handle_event(ClientEvent::Message(WebSocketMessage::RegisterResponse(RegisterResponse {
        client_id: "abc".into(),
        success: true,
        message: "ok".into(),
    })));
    assert!(matches!(&acts[..], [ClientAction::UpdateClientId(id), ClientAction::PublishState] if id == "abc"));
    assert_eq!(s.state, ClientState::WaitingForBrowser);
    let acts = s.handle_event(ClientEvent::Message(WebSocketMessage::BrowserConnected { message: "hi".into() }));
    assert!(matches!(&acts[..], [ClientAction::CreateWebRtc { client_id, quality: NetworkQuality::Good }, ClientAction::PublishState] if client_id == "abc"));
    assert_eq!(s.state, ClientState::WebRTCConnecting);
    assert!(s.handle_event(ClientEvent::WebRtcReady).is_empty());
    let offer = SessionDescription { sdp_type: "offer".into(), sdp: "v=0".into() };
    let acts = s.handle_event(ClientEvent::Message(WebSocketMessage::WebRTCOffer { target_id: "abc".into(), session_description: offer }));
    assert!(matches!(&acts[0], ClientAction::HandleOffer(_)));
    let acts = s.handle_event(ClientEvent::DataChannelReady);
    assert!(matches!(&acts[..], [ClientAction::StartWorkers]));
    let acts = s.handle_event(ClientEvent::Message(WebSocketMessage::BrowserDisconnected { message: "bye".into() }));
    assert!(matches!(&acts[..], [ClientAction::CloseWebRtc, ClientAction::StopWorkers, ClientAction::PublishState]));
    assert_eq!(s.state, ClientState::WaitingForBrowser);
    let acts = s.handle_event(ClientEvent::ConnectionEnded);
    assert!(matches!(acts.last(), Some(ClientAction::Exit)));
}

#[test]
fn bitrate_to_quality() {
    assert_eq!(quality_for_bitrate(2_000_000), NetworkQuality::Poor);
    assert_eq!(quality_for_bitrate(2_000_001), NetworkQuality::Good);
    assert_eq!(quality_for_bitrate(3_000_001), NetworkQuality::Excellent);
}

#[test]
fn sdp_statistics() {
    let sdp = "v=0\r\na=setup:actpass\r\na=candidate:1 1 udp 2 1.2.3.4 5 typ host\r\na=candidate:2 1 udp 1 5.6.7.8 9 typ srflx\r\na=candidate:3 1 udp 0 9.9.9.9 1 typ relay";
    let a = analyze_sdp(sdp);
    assert_eq!((a.total_candidates, a.host_candidates, a.srflx_candidates, a.relay_candidates), (3, 1, 1, 1));
    assert_eq!(a.dtls_setup, "actpass");
    let b = analyze_sdp("a=setup:active\na=setup:passive\n");
    assert_eq!(b.dtls_setup, "passive");
    assert_eq!(analyze_sdp("").total_candidates, 0);
}

#[test]
fn candidate_formatting() {
    let line = candidate_line("842163049", "UDP", 1677729535, "203.0.113.5", 54321, "Srflx");
    assert_eq!(line, "candidate:842163049 1 udp 1677729535 203.0.113.5 54321 typ srflx generation 0");
    match local_candidate_message(line.clone()) {
        WebSocketMessage::WebRTCIceCandidate { target_id, ice_candidate } => {
            assert_eq!(target_id, "browser");
            assert_eq!(ice_candidate.candidate, line);
            assert_eq!(ice_candidate.sdp_mid, Some("0".to_string()));
            assert_eq!(ice_candidate.sdp_mline_index, Some(0));
        }
        other => panic!("unexpected {:?}", other),
    }
}

#[test]
fn answer_handling() {
    match answer_message("cid".into(), "v=0".into()) {
        WebSocketMessage::WebRTCAnswer { target_id, session_description } => {
            assert_eq!(target_id, "cid");
            assert_eq!(session_description.sdp_type, "answer");
            assert_eq!(session_description.sdp, "v=0");
        }
        other => panic!("unexpected {:?}", other),
    }
    assert_eq!(answer_media("m=video 9 UDP\r\na=rtpmap:102 H264/90000"), (true, true));
    assert_eq!(answer_media("m=audio"), (false, false));
}

#[test]
fn peer_state_reactions() {
    assert_eq!(peer_reaction(PeerState::Connected), PeerReaction::ActivateVideo);
    assert_eq!(peer_reaction(PeerState::Closed), PeerReaction::StopVideo);
    assert_eq!(peer_reaction(PeerState::Failed), PeerReaction::ReportFailure);
    assert_eq!(peer_reaction(PeerState::Connecting), PeerReaction::Report);
}

#[test]
fn stun_binding_request_gets_reply() {
    // A binding request: type 0x0001, length 0, magic cookie, 12-byte transaction id.
    let mut req = vec![0x00, 0x01, 0x00, 0x00, 0x21, 0x12, 0xA4, 0x42];
    req.extend_from_slice(&[1, 2, 3, 4, 5, 6, 7, 8, 9, 10, 11, 12]);
    match classify_stun(&req) {
        StunOutcome::Reply(t) => assert_eq!(t, vec![1, 2, 3, 4, 5, 6, 7, 8, 9, 10, 11, 12]),
        other => panic!("unexpected {:?}", other),
    }
    // A binding indication (class bits 01): not answered.
    let mut ind = req.clone();
    ind[1] = 0x11;
    assert!(matches!(classify_stun(&ind), StunOutcome::Unsupported));
    assert!(matches!(classify_stun(&[1, 2, 3]), StunOutcome::Undecodable));
}

#[test]
fn stun_defaults() {
    let c = StunServerConfig::default_config();
    assert_eq!((c.bind_ip, c.port, c.software.as_str()), ([0, 0, 0, 0], 3478, "stun-server-rs/0.1.0"));
}

#[test]
fn turn_credentials() {
    let store = CredentialStore::from_users("alice=pw1,bob=p=w,alice=pw3", "webrtc.rs");
    let expected = turn::auth::generate_auth_key("alice", "webrtc.rs", "pw3");
    assert_eq!(store.auth_handle("alice"), Some(expected));
    assert_eq!(store.auth_handle("bob"), Some(turn::auth::generate_auth_key("bob", "webrtc.rs", "p=w")));
    assert_eq!(store.auth_handle("carol"), None);
}

#[test]
fn default_client_config() {
    let d = ClientConfig::default();
    assert_eq!(d.server_url, "ws://127.0.0.1:8080/ws");
    assert!(d.client_id.is_none());
    assert_eq!(d.auth_code.len(), 10);
}

#[test]
fn default_https_config() {
    let h = HttpsConfig::default();
    assert!(!h.enabled);
    assert_eq!((h.http_port, h.https_port), (3000, 3443));
    assert_eq!((h.cert_path.as_str(), h.key_path.as_str()), ("cert.pem", "key.pem"));
    assert!(h.auto_generate_cert);
}

#[test]
fn webrtc_client_requested_once() {
    let mut s = ClientSession::new(Some("abc".into()));
    let acts = s.handle_event(ClientEvent::Message(WebSocketMessage::BrowserConnected { message: "hi".into() }));
    assert!(matches!(&acts[0], ClientAction::CreateWebRtc { .. }));
    s.handle_event(ClientEvent::WebRtcReady);
    let acts = s.handle_event(ClientEvent::Message(WebSocketMessage::BrowserConnected { message: "again".into() }));
    assert!(matches!(&acts[..], [ClientAction::PublishState]));
    // Without an id, no client is requested.
    let mut t = ClientSession::new(None);
    let acts = t.handle_event(ClientEvent::Message(WebSocketMessage::BrowserConnected { message: "hi".into() }));
    assert!(matches!(&acts[..], [ClientAction::PublishState]));
}

#[test]
fn scroll_with_delta_is_performed() {
    let c = InputController::new(Recorder::default());
    assert!(matches!(handle_mouse_event("scroll", "left", 3, 4, Some(2), &c), MouseOutcome::Performed(Ok(()))));
    assert_eq!(*c.controller.calls.borrow(), vec!["move 3 4", "scroll 0 2"]);
}

#[test]
fn stun_answers_only_binding_requests() {
    assert!(matches!(stun_outcome(None), StunOutcome::Undecodable));
    assert!(matches!(stun_outcome(Some((1, StunClass::Indication, vec![1]))), StunOutcome::Unsupported));
    assert!(matches!(stun_outcome(Some((3, StunClass::Request, vec![1]))), StunOutcome::Unsupported));
    match stun_outcome(Some((1, StunClass::Request, vec![7, 8]))) {
        StunOutcome::Reply(t) => assert_eq!(t, vec![7, 8]),
        _ => panic!("a binding request is answered"),
    }
}

#[test]
fn startup_statuses_and_server_url() {
    assert_eq!(startup_status(StartupStage::Connecting), ("正在连接服务器...".to_string(), true));
    assert_eq!(startup_status(StartupStage::InvalidServerUrl), ("服务器URL格式错误".to_string(), false));
    assert_eq!(startup_status(StartupStage::MacAddressFailed).1, false);
    assert_eq!(server_endpoint("ws://127.0.0.1:8080/ws").unwrap(), "ws://127.0.0.1:8080/ws");
    assert_eq!(server_endpoint("not a url"), Err(StartupStage::InvalidServerUrl));
}
