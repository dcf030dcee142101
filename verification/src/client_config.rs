//! The desktop client's configuration: where it connects, its id and auth
//! code, and the ICE servers it uses.
use vstd::prelude::*;

use rand::rngs::ThreadRng;
use rand::Rng;

use crate::text::{hex_digit_char, hex_digits, owned, push_char, push_str};

verus! {

/// Why configuration could not be read.
#[derive(Debug, Clone)]
pub struct ConfigError {
    pub message: String,
}

/// The client's settings.
#[derive(Debug, Clone)]
pub struct ClientConfig {
    pub server_url: String,
    pub client_id: Option<String>,
    pub auth_code: String,
}

/// The name of the configuration file, in the working directory.
pub open spec fn config_file_name() -> Seq<char> {
    "webrtc-config.yaml"@
}

/// The signalling address used when there is no configuration file.
pub open spec fn default_server_url() -> Seq<char> {
    "ws://127.0.0.1:8080/ws"@
}

/// The file a first start writes next to the program.
pub open spec fn client_conf_name() -> Seq<char> {
    "client.conf"@
}

/// A TOML string value: the text in double quotes, then the line's end.
pub open spec fn toml_value_line(v: Seq<char>) -> Seq<char> {
    seq!['"'] + v + seq!['"', '\n']
}

/// The text of `client.conf` for a configuration: its server address, its id
/// when it has one, and its auth code, one `key = "value"` line each.
pub open spec fn client_conf_text(c: ClientConfig) -> Seq<char> {
    "server_url = "@ + toml_value_line(c.server_url@) + match c.client_id {
        Some(id) => "client_id = "@ + toml_value_line(id@),
        None => Seq::empty(),
    } + "auth_code = "@ + toml_value_line(c.auth_code@)
}

/// An auth code: ten decimal digits.
pub open spec fn is_auth_code(s: Seq<char>) -> bool {
    s.len() == 10 && forall|i: int| 0 <= i < 10 ==> '0' <= #[trigger] s[i] <= '9'
}

#[verifier::external_type_specification]
#[verifier::external_body]
pub struct ExThreadRng(ThreadRng);

/// The calling thread's random number generator, from `rand::thread_rng`.
#[verifier::external_body]
fn thread_rng() -> ThreadRng {
    rand::thread_rng()
}

/// A random decimal digit from `Rng::gen_range(0..10)`.
/// Trusted: the value lies in the half-open range `0..10`.
#[verifier::external_body]
fn random_digit(rng: &mut ThreadRng) -> (r: u32)
    ensures
        r < 10,
{
    rng.gen_range(0..10)
}

/// A random byte from `rand::random`.
#[verifier::external_body]
fn random_byte() -> u8 {
    rand::random::<u8>()
}

/// A hexadecimal digit, in either case.
pub open spec fn is_hex_char(c: char) -> bool {
    ('0' <= c && c <= '9') || ('a' <= c && c <= 'f') || ('A' <= c && c <= 'F')
}

/// Text in the shape of a MAC address: six pairs of hexadecimal digits
/// separated by colons.
pub open spec fn mac_shaped(s: Seq<char>) -> bool {
    &&& s.len() == 17
    &&& forall|i: int|
        0 <= i < 17 ==> if i % 3 == 2 {
            #[trigger] s[i] == ':'
        } else {
            is_hex_char(s[i])
        }
}

/// The MAC address of the first non-loopback network device, from
/// `mac_address::get_mac_address`, in that crate's display form; `None` when
/// the system reports none or the lookup fails.
/// Trusted: which address comes back depends on the machine; its display
/// form is six two-digit upper-case hexadecimal bytes joined by colons.
#[verifier::external_body]
fn system_mac_address() -> (r: Option<String>)
    ensures
        r matches Some(m) ==> mac_shaped(m@),
{
    match mac_address::get_mac_address() {
        Ok(Some(mac)) => Some(mac.to_string()),
        Ok(None) => None,
        Err(_) => None,
    }
}

fn digit_char(d: u32) -> (c: char)
    requires
        d < 10,
    ensures
        c == (('0' as int) + d) as char,
        '0' <= c <= '9',
{
    let table: [char; 10] = ['0', '1', '2', '3', '4', '5', '6', '7', '8', '9'];
    let c = table[d as usize];
    assert(table@[d as int] == c);
    c
}

/// The characters of decimal digits, in order.
pub open spec fn digits_text(ds: Seq<u32>) -> Seq<char> {
    Seq::new(ds.len(), |i: int| (('0' as int) + ds[i]) as char)
}

/// Writes decimal digits as text: character `i` is `'0' + ds[i]`.
pub fn auth_code_from_digits(ds: &Vec<u32>) -> (r: String)
    requires
        forall|i: int| 0 <= i < ds.len() ==> #[trigger] ds[i] < 10,
    ensures
        r@ == digits_text(ds@),
{
    let mut code = String::new();
    let mut k: usize = 0;
    while k < ds.len()
        invariant
            k <= ds.len(),
            forall|i: int| 0 <= i < ds.len() ==> #[trigger] ds[i] < 10,
            code@ =~= digits_text(ds@.take(k as int)),
        decreases ds.len() - k,
    {
        push_char(&mut code, digit_char(ds[k]));
        k = k + 1;
        assert(code@ =~= digits_text(ds@.take(k as int)));
    }
    assert(ds@.take(k as int) =~= ds@);
    code
}

/// Generates a random ten-digit auth code from ten digits drawn from the
/// thread's generator.
pub fn generate_auth_code() -> (r: String)
    ensures
        is_auth_code(r@),
{
    let mut rng = thread_rng();
    let mut ds: Vec<u32> = Vec::new();
    while ds.len() < 10
        invariant
            ds.len() <= 10,
            forall|i: int| 0 <= i < ds.len() ==> #[trigger] ds[i] < 10,
        decreases 10 - ds.len(),
    {
        ds.push(random_digit(&mut rng));
    }
    let code = auth_code_from_digits(&ds);
    assert forall|i: int| 0 <= i < 10 implies '0' <= #[trigger] code@[i] <= '9' by {
        assert(ds[i] < 10);
    }
    code
}

/// Two lower-case hexadecimal digits of `b`, then nothing else.
pub open spec fn hex2(b: u8) -> Seq<char> {
    hex_digits(b as nat, 2)
}

/// The stand-in MAC address used when the system reports none:
/// `00:00:00:` followed by three bytes in lower-case hexadecimal.
pub open spec fn fallback_mac_spec(a: u8, b: u8, c: u8) -> Seq<char> {
    "00:00:00:"@ + hex2(a) + ":"@ + hex2(b) + ":"@ + hex2(c)
}

fn push_hex2(s: &mut String, v: u8)
    ensures
        final(s)@ == old(s)@ + hex2(v),
{
    let hi = hex_digit_char((v / 16) as u64);
    let lo = hex_digit_char((v % 16) as u64);
    push_char(s, hi);
    push_char(s, lo);
    assert(hex2(v) == hex_digits((v as nat) / 16, 1).push(crate::text::hex_digit((v % 16) as int)));
    assert(hex_digits((v as nat) / 16, 1) == hex_digits((v as nat) / 256, 0).push(
        crate::text::hex_digit(((v as nat) / 16 % 16) as int),
    ));
    assert(final(s)@ =~= old(s)@ + hex2(v));
}

proof fn lemma_hex2_digits(v: u8)
    ensures
        hex2(v).len() == 2,
        is_hex_char(hex2(v)[0]),
        is_hex_char(hex2(v)[1]),
{
    assert(hex2(v) == hex_digits((v as nat) / 16, 1).push(crate::text::hex_digit((v % 16) as int)));
    assert(hex_digits((v as nat) / 16, 1) == hex_digits((v as nat) / 256, 0).push(
        crate::text::hex_digit(((v as nat) / 16 % 16) as int),
    ));
}

/// The stand-in address has the shape of a MAC address.
pub proof fn lemma_fallback_mac_shaped(a: u8, b: u8, c: u8)
    ensures
        mac_shaped(fallback_mac_spec(a, b, c)),
{
    reveal_strlit("00:00:00:");
    reveal_strlit(":");
    lemma_hex2_digits(a);
    lemma_hex2_digits(b);
    lemma_hex2_digits(c);
    let s = fallback_mac_spec(a, b, c);
    assert(s.len() == 17);
    assert forall|i: int|
        0 <= i < 17 implies if i % 3 == 2 {
            #[trigger] s[i] == ':'
        } else {
            is_hex_char(s[i])
        } by {
        if i == 9 {
            assert(s[i] == hex2(a)[0]);
        } else if i == 10 {
            assert(s[i] == hex2(a)[1]);
        } else if i == 12 {
            assert(s[i] == hex2(b)[0]);
        } else if i == 13 {
            assert(s[i] == hex2(b)[1]);
        } else if i == 15 {
            assert(s[i] == hex2(c)[0]);
        } else if i == 16 {
            assert(s[i] == hex2(c)[1]);
        }
    }
}

/// Formats the stand-in MAC address from three bytes.
pub fn fallback_mac(a: u8, b: u8, c: u8) -> (r: String)
    ensures
        r@ == fallback_mac_spec(a, b, c),
{
    let mut s = owned("00:00:00:");
    push_hex2(&mut s, a);
    push_char(&mut s, ':');
    push_hex2(&mut s, b);
    push_char(&mut s, ':');
    push_hex2(&mut s, c);
    proof {
        reveal_strlit(":");
    }
    assert(s@ =~= fallback_mac_spec(a, b, c));
    s
}

impl Default for ClientConfig {
    /// The configuration used when there is no configuration file: the
    /// default signalling address, no id yet, and a fresh auth code.
    fn default() -> (r: Self)
        ensures
            r.server_url@ == default_server_url(),
            r.client_id is None,
            is_auth_code(r.auth_code@),
    {
        ClientConfig {
            server_url: owned("ws://127.0.0.1:8080/ws"),
            client_id: None,
            auth_code: generate_auth_code(),
        }
    }
}

impl ClientConfig {
    /// The path of the configuration file.
    pub fn get_config_path() -> (r: Result<String, ConfigError>)
        ensures
            r matches Ok(p) && p@ == config_file_name(),
    {
        Ok(owned("webrtc-config.yaml"))
    }

    /// Builds the configuration from what reading the configuration file gave:
    /// `None` when there is no file, the parse error when it could not be
    /// read, or its server settings. Without a file this is a first start: the
    /// default configuration, together with the text of `client.conf` that the
    /// caller writes next to the program.
    pub fn load(file: Option<Result<WebRtcConfig, ConfigError>>) -> (r: Result<LoadedConfig, ConfigError>)
        ensures
            match file {
                None => r matches Ok(l) && l.config.server_url@ == default_server_url()
                    && l.config.client_id is None && is_auth_code(l.config.auth_code@) && (
                l.first_start_file matches Some(t) && t@ == client_conf_text(l.config)),
                Some(Err(e)) => r == Err::<LoadedConfig, ConfigError>(e),
                Some(Ok(w)) => r == Ok::<LoadedConfig, ConfigError>(
                    LoadedConfig {
                        config: ClientConfig {
                            server_url: w.server_config.server_url,
                            client_id: Some(w.server_config.client_id),
                            auth_code: w.server_config.auth_code,
                        },
                        first_start_file: None,
                    },
                ),
            },
    {
        match file {
            None => {
                let config = Self::default();
                let text = client_conf_file(&config);
                Ok(LoadedConfig { config, first_start_file: Some(text) })
            },
            Some(Err(e)) => Err(e),
            Some(Ok(w)) => Ok(
                LoadedConfig {
                    config: ClientConfig {
                        server_url: w.server_config.server_url,
                        client_id: Some(w.server_config.client_id),
                        auth_code: w.server_config.auth_code,
                    },
                    first_start_file: None,
                },
            ),
        }
    }

    /// The path of the file a first start writes.
    pub fn get_first_start_path() -> (r: String)
        ensures
            r@ == client_conf_name(),
    {
        owned("client.conf")
    }

    /// Records the id the server assigned.
    pub fn update_client_id(&mut self, client_id: String) -> (r: Result<(), ConfigError>)
        ensures
            r is Ok,
            final(self).client_id == Some(client_id),
            final(self).server_url == old(self).server_url,
            final(self).auth_code == old(self).auth_code,
    {
        self.client_id = Some(client_id);
        Ok(())
    }

    /// The machine's MAC address, or, when the system reports none, a stand-in
    /// made of three random bytes (see [`mac_or_fallback`]). The address is
    /// looked up each time and not stored.
    pub fn get_mac_address(&self) -> (r: Result<String, ConfigError>)
        ensures
            r matches Ok(m) && mac_shaped(m@),
    {
        let sys = system_mac_address();
        let (a, b, c) = if sys.is_none() {
            let a = random_byte();
            let b = random_byte();
            let c = random_byte();
            (a, b, c)
        } else {
            (0u8, 0u8, 0u8)
        };
        proof {
            lemma_fallback_mac_shaped(a, b, c);
        }
        Ok(mac_or_fallback(sys, a, b, c))
    }
}

/// The address the system reported, or the stand-in made of three bytes.
pub fn mac_or_fallback(sys: Option<String>, a: u8, b: u8, c: u8) -> (r: String)
    ensures
        sys matches Some(m) ==> r@ == m@,
        sys is None ==> r@ == fallback_mac_spec(a, b, c),
{
    match sys {
        Some(m) => m,
        None => fallback_mac(a, b, c),
    }
}

/// What loading the configuration gives: the configuration and, on a first
/// start, the text of `client.conf` to write next to the program.
#[derive(Debug, Clone)]
pub struct LoadedConfig {
    pub config: ClientConfig,
    pub first_start_file: Option<String>,
}

fn push_toml_value_line(s: &mut String, v: &str)
    ensures
        final(s)@ == old(s)@ + toml_value_line(v@),
{
    push_char(s, '"');
    push_str(s, v);
    push_char(s, '"');
    push_char(s, '\n');
    assert(final(s)@ =~= old(s)@ + toml_value_line(v@));
}

/// The text of `client.conf` for a configuration (see [`client_conf_text`]).
pub fn client_conf_file(c: &ClientConfig) -> (r: String)
    ensures
        r@ == client_conf_text(*c),
{
    let mut t = owned("server_url = ");
    push_toml_value_line(&mut t, c.server_url.as_str());
    match &c.client_id {
        Some(id) => {
            push_str(&mut t, "client_id = ");
            push_toml_value_line(&mut t, id.as_str());
        },
        None => {},
    }
    push_str(&mut t, "auth_code = ");
    push_toml_value_line(&mut t, c.auth_code.as_str());
    assert(t@ =~= client_conf_text(*c));
    t
}

/// A STUN server address.
#[derive(Debug, Clone)]
pub struct StunServer {
    pub url: String,
}

/// A TURN server address and credentials.
#[derive(Debug, Clone)]
pub struct TurnServer {
    pub url: String,
    pub username: String,
    pub credential: String,
}

/// Peer-connection settings.
#[derive(Debug, Clone)]
pub struct RtcConfig {
    pub ice_candidate_pool_size: u32,
    pub bundle_policy: String,
    pub rtcp_mux_policy: String,
}

/// Where the client connects and how it identifies itself.
#[derive(Debug, Clone)]
pub struct ServerConfig {
    pub server_url: String,
    pub client_id: String,
    pub auth_code: String,
}

/// The client's configuration file.
#[derive(Debug, Clone)]
pub struct WebRtcConfig {
    pub stun_servers: Vec<StunServer>,
    pub turn_servers: Vec<TurnServer>,
    pub rtc_config: RtcConfig,
    pub server_config: ServerConfig,
}

/// One ICE server for the peer connection: its URLs and, for TURN, its
/// credentials (empty for STUN).
#[derive(Debug, Clone)]
pub struct IceServerEntry {
    pub urls: Vec<String>,
    pub username: String,
    pub credential: String,
}

pub struct IceServerView {
    pub urls: Seq<Seq<char>>,
    pub username: Seq<char>,
    pub credential: Seq<char>,
}

pub open spec fn ice_view(e: IceServerEntry) -> IceServerView {
    IceServerView { urls: e.urls@.map_values(|u: String| u@), username: e.username@, credential: e.credential@ }
}

/// The ICE servers of a configuration: each STUN server with no credentials,
/// then each TURN server with its username and credential.
pub open spec fn ice_servers_spec(c: WebRtcConfig) -> Seq<IceServerView> {
    c.stun_servers@.map_values(|s: StunServer| IceServerView { urls: seq![s.url@], username: Seq::empty(), credential: Seq::empty() })
        + c.turn_servers@.map_values(|t: TurnServer| IceServerView { urls: seq![t.url@], username: t.username@, credential: t.credential@ })
}

impl WebRtcConfig {
    /// The ICE servers for the peer connection (see [`ice_servers_spec`]).
    pub fn to_ice_servers(&self) -> (r: Vec<IceServerEntry>)
        ensures
            r@.map_values(|e: IceServerEntry| ice_view(e)) == ice_servers_spec(*self),
    {
        let ghost spec = ice_servers_spec(*self);
        let mut out: Vec<IceServerEntry> = Vec::new();
        let mut k: usize = 0;
        while k < self.stun_servers.len()
            invariant
                k <= self.stun_servers@.len(),
                spec == ice_servers_spec(*self),
                out@.len() == k,
                forall|j: int| 0 <= j < k ==> #[trigger] ice_view(out@[j]) == spec[j],
            decreases self.stun_servers@.len() - k,
        {
            let mut urls: Vec<String> = Vec::new();
            urls.push(self.stun_servers[k].url.clone());
            let e = IceServerEntry { urls, username: String::new(), credential: String::new() };
            assert(e.urls@.map_values(|u: String| u@) =~= seq![self.stun_servers@[k as int].url@]);
            out.push(e);
            k = k + 1;
        }
        let n = self.stun_servers.len();
        let mut t: usize = 0;
        while t < self.turn_servers.len()
            invariant
                n == self.stun_servers@.len(),
                t <= self.turn_servers@.len(),
                spec == ice_servers_spec(*self),
                out@.len() == n + t,
                forall|j: int| 0 <= j < n + t ==> #[trigger] ice_view(out@[j]) == spec[j],
            decreases self.turn_servers@.len() - t,
        {
            let mut urls: Vec<String> = Vec::new();
            let ts = &self.turn_servers[t];
            urls.push(ts.url.clone());
            let e = IceServerEntry { urls, username: ts.username.clone(), credential: ts.credential.clone() };
            assert(e.urls@.map_values(|u: String| u@) =~= seq![self.turn_servers@[t as int].url@]);
            out.push(e);
            t = t + 1;
        }
        assert(out@.map_values(|e: IceServerEntry| ice_view(e)) =~= spec);
        out
    }
}

} // verus!
