//! The desktop client's service controls: starting and stopping the remote
//! control service, the status it reports, and the id it shows before the
//! server assigned one.
use vstd::prelude::*;

use crate::client_config::{is_hex_char, mac_shaped, ClientConfig, ConfigError};
use crate::client_types::{client_state_name, ClientState};
use crate::text::{copy_opt_string, opt_view, owned, push_char, str_chars};

verus! {

/// `s` without its colons.
pub open spec fn strip_colons(s: Seq<char>) -> Seq<char>
    decreases s.len(),
{
    if s.len() == 0 {
        Seq::empty()
    } else if s.last() == ':' {
        strip_colons(s.drop_last())
    } else {
        strip_colons(s.drop_last()).push(s.last())
    }
}

/// Every character is ASCII.
pub open spec fn all_ascii(s: Seq<char>) -> bool {
    forall|i: int| 0 <= i < s.len() ==> (#[trigger] s[i] as u32) < 128
}

/// The id shown for the client: its assigned id, or until there is one,
/// `temp-` and the first eight characters of its MAC address without colons.
pub open spec fn display_client_id_spec(client_id: Option<Seq<char>>, mac: Seq<char>) -> Seq<char> {
    match client_id {
        Some(id) => id,
        None => "temp-"@ + strip_colons(mac).take(8),
    }
}

/// Whether the temporary id can be cut from `mac`: its colon-free text is
/// ASCII and at least eight characters long.
pub open spec fn temp_id_source(mac: Seq<char>) -> bool {
    &&& all_ascii(strip_colons(mac))
    &&& strip_colons(mac).len() >= 8
}

/// The id to show for the client (see `display_client_id_spec`).
pub fn display_client_id(client_id: &Option<String>, mac_address: &str) -> (r: String)
    requires
        client_id is None ==> temp_id_source(mac_address@),
    ensures
        r@ == display_client_id_spec(opt_view(*client_id), mac_address@),
{
    match client_id {
        Some(id) => id.clone(),
        None => {
            let chars = str_chars(mac_address);
            let mut stripped: Vec<char> = Vec::new();
            let mut i: usize = 0;
            while i < chars.len()
                invariant
                    chars@ == mac_address@,
                    i <= chars@.len(),
                    stripped@ == strip_colons(mac_address@.take(i as int)),
                decreases chars@.len() - i,
            {
                proof {
                    assert(mac_address@.take(i + 1).drop_last() == mac_address@.take(i as int));
                }
                if chars[i] != ':' {
                    stripped.push(chars[i]);
                }
                i = i + 1;
            }
            proof {
                assert(mac_address@.take(chars@.len() as int) == mac_address@);
            }
            let mut out = owned("temp-");
            let mut k: usize = 0;
            while k < 8
                invariant
                    stripped@ == strip_colons(mac_address@),
                    stripped@.len() >= 8,
                    k <= 8,
                    out@ == "temp-"@ + stripped@.take(k as int),
                decreases 8 - k,
            {
                push_char(&mut out, stripped[k]);
                k = k + 1;
                assert(out@ == "temp-"@ + stripped@.take(k as int));
            }
            out
        },
    }
}

proof fn lemma_strip_mac_prefix(s: Seq<char>, k: int)
    requires
        mac_shaped(s),
        0 <= k <= 17,
    ensures
        strip_colons(s.take(k)).len() == k - k / 3,
        forall|j: int| 0 <= j < strip_colons(s.take(k)).len() ==> is_hex_char(#[trigger] strip_colons(s.take(k))[j]),
    decreases k,
{
    if k > 0 {
        lemma_strip_mac_prefix(s, k - 1);
        assert(s.take(k).drop_last() == s.take(k - 1));
        assert(s.take(k).last() == s[k - 1]);
        if (k - 1) % 3 == 2 {
            assert(s[k - 1] == ':');
        } else {
            assert(is_hex_char(s[k - 1]));
        }
    }
}

/// A MAC address in display form yields a temporary id: twelve hexadecimal
/// digits remain without the colons.
pub proof fn lemma_mac_gives_temp_id(mac: Seq<char>)
    requires
        mac_shaped(mac),
    ensures
        temp_id_source(mac),
        strip_colons(mac).len() == 12,
{
    lemma_strip_mac_prefix(mac, 17);
    assert(mac.take(17) == mac);
    assert forall|i: int| 0 <= i < strip_colons(mac).len() implies (#[trigger] strip_colons(mac)[i] as u32)
        < 128 by {
        assert(is_hex_char(strip_colons(mac)[i]));
    }
}

/// What the client shows about itself: the id (see `display_client_id`),
/// its auth code, its MAC address (see `ClientConfig::get_mac_address`) and
/// the version "1.0.0".
pub fn client_info(config: &ClientConfig) -> (r: Result<(String, String, String, String), ConfigError>)
    ensures
        r matches Ok(info) && mac_shaped(info.2@) && client_info_spec_holds(info, *config, info.2@),
{
    let mac_address = match config.get_mac_address() {
        Ok(m) => m,
        Err(e) => {
            return Err(e);
        },
    };
    Ok(client_info_with_mac(config, mac_address))
}

/// The shown information given the MAC address: the displayed id, the auth
/// code, the address itself and the version "1.0.0", as views.
pub open spec fn client_info_view(config: ClientConfig, mac: Seq<char>) -> (Seq<char>, Seq<char>, Seq<char>, Seq<char>) {
    (display_client_id_spec(opt_view(config.client_id), mac), config.auth_code@, mac, "1.0.0"@)
}

/// Whether `info` is the shown information for `config` and `mac`.
pub open spec fn client_info_spec_holds(info: (String, String, String, String), config: ClientConfig, mac: Seq<char>) -> bool {
    (info.0@, info.1@, info.2@, info.3@) == client_info_view(config, mac)
}

/// The shown information for a configuration and a MAC address.
pub fn client_info_with_mac(config: &ClientConfig, mac_address: String) -> (r: (String, String, String, String))
    requires
        mac_shaped(mac_address@),
    ensures
        client_info_spec_holds(r, *config, mac_address@),
{
    proof {
        lemma_mac_gives_temp_id(mac_address@);
    }
    let client_id = display_client_id(&config.client_id, mac_address.as_str());
    (client_id, config.auth_code.clone(), mac_address, owned("1.0.0"))
}

/// Whether the remote control service runs, and the client's state.
#[derive(Debug, Clone, Copy, PartialEq, Eq)]
pub struct ServiceControl {
    pub running: bool,
    pub client_state: ClientState,
}

/// Why the service could not be started.
pub open spec fn already_running_text() -> Seq<char> {
    "服务已在运行中"@
}

/// The control after a start request: a running service refuses (and is
/// unchanged); otherwise it runs.
pub open spec fn started(c: ServiceControl) -> (ServiceControl, bool) {
    if c.running {
        (c, false)
    } else {
        (ServiceControl { running: true, ..c }, true)
    }
}

/// The control after a stop: not running, client idle.
pub open spec fn stopped(c: ServiceControl) -> ServiceControl {
    ServiceControl { running: false, client_state: ClientState::Idle }
}

impl ServiceControl {
    /// Not running, client idle.
    pub fn new() -> (r: Self)
        ensures
            r == (ServiceControl { running: false, client_state: ClientState::Idle }),
    {
        ServiceControl { running: false, client_state: ClientState::Idle }
    }

    /// Starts the service unless it runs already, which is refused with
    /// "服务已在运行中".
    pub fn start(&mut self) -> (r: Result<(), String>)
        ensures
            *final(self) == started(*old(self)).0,
            r is Ok <==> started(*old(self)).1,
            r matches Err(m) ==> m@ == already_running_text(),
    {
        if self.running {
            return Err(owned("服务已在运行中"));
        }
        self.running = true;
        Ok(())
    }

    /// Stops the service: it no longer runs and the client is idle.
    pub fn stop(&mut self)
        ensures
            *final(self) == stopped(*old(self)),
    {
        self.running = false;
        self.client_state = ClientState::Idle;
    }

    /// The service status: the client's id, the name of its state, and
    /// whether the service runs.
    pub fn status(&self, client_id: &Option<String>) -> (r: (Option<String>, String, bool))
        ensures
            opt_view(r.0) == opt_view(*client_id),
            r.1@ == client_state_name(self.client_state),
            r.2 == self.running,
    {
        (copy_opt_string(client_id), self.client_state.name(), self.running)
    }
}

/// A started service cannot be started again until it is stopped; after a
/// stop it can.
pub proof fn law_start_stop(c: ServiceControl)
    ensures
        !started(started(c).0).1,
        started(stopped(c)).1,
        stopped(c).client_state == ClientState::Idle,
{
}

} // verus!
