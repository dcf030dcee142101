//! The web server's configuration file: ICE servers, peer-connection settings
//! and HTTPS settings, and the ICE configuration handed to browsers.
use vstd::prelude::*;

use crate::text::owned;

verus! {

/// A STUN server address.
#[derive(Debug, Clone)]
pub struct StunServer {
    pub url: String,
}

/// A TURN server address and credentials.
#[derive(Debug, Clone)]
pub struct TurnServer {
    pub url: String,
    pub username: String,
    pub credential: String,
}

/// Peer-connection settings.
#[derive(Debug, Clone)]
pub struct RtcConfig {
    pub ice_candidate_pool_size: u32,
    pub bundle_policy: String,
    pub rtcp_mux_policy: String,
}

/// HTTP/HTTPS listening settings.
#[derive(Debug, Clone)]
pub struct HttpsConfig {
    pub enabled: bool,
    pub http_port: u16,
    pub https_port: u16,
    pub cert_path: String,
    pub key_path: String,
    pub auto_generate_cert: bool,
}

impl Default for HttpsConfig {
    /// HTTPS off, HTTP on 3000, HTTPS on 3443, `cert.pem`/`key.pem`, and
    /// certificates generated automatically.
    fn default() -> (r: Self)
        ensures
            !r.enabled,
            r.http_port == 3000,
            r.https_port == 3443,
            r.cert_path@ == "cert.pem"@,
            r.key_path@ == "key.pem"@,
            r.auto_generate_cert,
    {
        HttpsConfig {
            enabled: false,
            http_port: 3000,
            https_port: 3443,
            cert_path: owned("cert.pem"),
            key_path: owned("key.pem"),
            auto_generate_cert: true,
        }
    }
}

/// The server's configuration file.
#[derive(Debug, Clone)]
pub struct WebRtcConfig {
    pub stun_servers: Vec<StunServer>,
    pub turn_servers: Vec<TurnServer>,
    pub rtc_config: RtcConfig,
    pub https_config: HttpsConfig,
}

/// One entry of the browser's `iceServers` list: `urls`, and for TURN servers
/// `username` and `credential`.
#[derive(Debug, Clone)]
pub struct FrontendIceServer {
    pub urls: String,
    pub username: Option<String>,
    pub credential: Option<String>,
}

/// The ICE configuration handed to browsers (`iceServers`,
/// `iceCandidatePoolSize`, `bundlePolicy`, `rtcpMuxPolicy`, `iceTransportPolicy`).
#[derive(Debug, Clone)]
pub struct FrontendConfig {
    pub ice_servers: Vec<FrontendIceServer>,
    pub ice_candidate_pool_size: u32,
    pub bundle_policy: String,
    pub rtcp_mux_policy: String,
    pub ice_transport_policy: String,
}

pub struct FrontendIceView {
    pub urls: Seq<char>,
    pub username: Option<Seq<char>>,
    pub credential: Option<Seq<char>>,
}

pub open spec fn frontend_ice_view(e: FrontendIceServer) -> FrontendIceView {
    FrontendIceView {
        urls: e.urls@,
        username: crate::text::opt_view(e.username),
        credential: crate::text::opt_view(e.credential),
    }
}

/// The browser's ICE servers: each STUN server by URL alone, then each TURN
/// server with its credentials.
pub open spec fn frontend_ice_spec(c: WebRtcConfig) -> Seq<FrontendIceView> {
    c.stun_servers@.map_values(|s: StunServer| FrontendIceView { urls: s.url@, username: None, credential: None })
        + c.turn_servers@.map_values(
        |t: TurnServer|
            FrontendIceView { urls: t.url@, username: Some(t.username@), credential: Some(t.credential@) },
    )
}

impl WebRtcConfig {
    /// The ICE configuration for browsers; the transport policy is always "all".
    pub fn to_frontend_format(&self) -> (r: FrontendConfig)
        ensures
            r.ice_servers@.map_values(|e: FrontendIceServer| frontend_ice_view(e)) == frontend_ice_spec(*self),
            r.ice_candidate_pool_size == self.rtc_config.ice_candidate_pool_size,
            r.bundle_policy@ == self.rtc_config.bundle_policy@,
            r.rtcp_mux_policy@ == self.rtc_config.rtcp_mux_policy@,
            r.ice_transport_policy@ == "all"@,
    {
        let ghost spec = frontend_ice_spec(*self);
        let mut out: Vec<FrontendIceServer> = Vec::new();
        let mut k: usize = 0;
        while k < self.stun_servers.len()
            invariant
                k <= self.stun_servers@.len(),
                spec == frontend_ice_spec(*self),
                out@.len() == k,
                forall|j: int| 0 <= j < k ==> #[trigger] frontend_ice_view(out@[j]) == spec[j],
            decreases self.stun_servers@.len() - k,
        {
            out.push(FrontendIceServer { urls: self.stun_servers[k].url.clone(), username: None, credential: None });
            k = k + 1;
        }
        let n = self.stun_servers.len();
        let mut t: usize = 0;
        while t < self.turn_servers.len()
            invariant
                n == self.stun_servers@.len(),
                t <= self.turn_servers@.len(),
                spec == frontend_ice_spec(*self),
                out@.len() == n + t,
                forall|j: int| 0 <= j < n + t ==> #[trigger] frontend_ice_view(out@[j]) == spec[j],
            decreases self.turn_servers@.len() - t,
        {
            let ts = &self.turn_servers[t];
            out.push(
                FrontendIceServer {
                    urls: ts.url.clone(),
                    username: Some(ts.username.clone()),
                    credential: Some(ts.credential.clone()),
                },
            );
            t = t + 1;
        }
        assert(out@.map_values(|e: FrontendIceServer| frontend_ice_view(e)) =~= spec);
        FrontendConfig {
            ice_servers: out,
            ice_candidate_pool_size: self.rtc_config.ice_candidate_pool_size,
            bundle_policy: self.rtc_config.bundle_policy.clone(),
            rtcp_mux_policy: self.rtc_config.rtcp_mux_policy.clone(),
            ice_transport_policy: owned("all"),
        }
    }
}

} // verus!
