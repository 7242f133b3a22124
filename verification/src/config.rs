//! The overlay's preferences, as far as it acts on them, and which of them it accepts.

use crate::hotkeys;
use crate::hotkeys::{default_keys, KeyBindings};
use crate::local_api::DEFAULT_PORT;
use crate::protocol;
use crate::server;
use crate::server::valid_server;
use vstd::prelude::*;

verus! {

/// The preferences that the overlay acts on. What only its surface reads is kept beside them.
#[derive(Debug, Clone, PartialEq, Eq)]
pub struct HudConfig {
    pub server_url: String,
    pub start_on_login: bool,
    pub theme: String,
    /// The corner the overlay docks to.
    pub corner: String,
    /// Hide the overlay unless the game has the focus.
    pub auto_hide: bool,
    /// Let media keys drive the music bed.
    pub media_keys: bool,
    /// Listen for local tools.
    pub local_api: bool,
    /// The port to listen on.
    pub local_api_port: u16,
    pub keys: KeyBindings,
}

/// The server to use when none is configured: the environment's, else a local one.
pub open spec fn fallback_server(env: Option<Seq<char>>) -> Seq<char> {
    match env {
        Some(s) => s,
        None => "http://localhost:8080"@,
    }
}

/// The server to use when none is configured.
fn default_server(env: Option<String>) -> (r: String)
    ensures
        r@ == fallback_server(protocol::text_of(env)),
{
    match env {
        Some(s) => s,
        None => "http://localhost:8080".to_string(),
    }
}

impl HudConfig {
    /// The preferences of a new installation, with the server that the environment may name. What
    /// opens a port or competes with other players is off.
    pub fn defaults(env: Option<String>) -> (r: Self)
        ensures
            r.server_url@ == fallback_server(protocol::text_of(env)),
            !r.start_on_login,
            r.theme@ == "stanton"@,
            r.corner@ == "bottom-left"@,
            r.auto_hide,
            !r.media_keys,
            !r.local_api,
            r.local_api_port == DEFAULT_PORT,
            r.keys == hotkeys::shipped_keys(),
    {
        HudConfig {
            server_url: default_server(env),
            start_on_login: false,
            theme: "stanton".to_string(),
            corner: "bottom-left".to_string(),
            auto_hide: true,
            media_keys: false,
            local_api: false,
            local_api_port: DEFAULT_PORT,
            keys: default_keys(),
        }
    }

    /// The preferences to put into effect, whether they were read from disk or set by the surface:
    /// neither is trusted. A server that is not acceptable is replaced by the one to fall back on,
    /// since the bearer token rides on it, and keys that cannot be used by the shipped ones.
    pub fn admitted(self, env: Option<String>) -> (r: Self)
        ensures
            r.server_url@ == admitted_server(self.server_url@, protocol::text_of(env)),
            r.keys == admitted_keys(self.keys),
            hotkeys::valid_keys(r.keys),
            r.start_on_login == self.start_on_login,
            r.theme == self.theme,
            r.corner == self.corner,
            r.auto_hide == self.auto_hide,
            r.media_keys == self.media_keys,
            r.local_api == self.local_api,
            r.local_api_port == self.local_api_port,
    {
        let acceptable = valid_server(self.server_url.as_str());
        self.settled(acceptable, env)
    }

    /// The preferences to put into effect, given whether their server is acceptable.
    pub fn settled(self, acceptable: bool, env: Option<String>) -> (r: Self)
        ensures
            acceptable ==> r.server_url == self.server_url,
            !acceptable ==> r.server_url@ == fallback_server(protocol::text_of(env)),
            r.keys == admitted_keys(self.keys),
            hotkeys::valid_keys(r.keys),
            r.start_on_login == self.start_on_login,
            r.theme == self.theme,
            r.corner == self.corner,
            r.auto_hide == self.auto_hide,
            r.media_keys == self.media_keys,
            r.local_api == self.local_api,
            r.local_api_port == self.local_api_port,
    {
        let mut config = self;
        if !acceptable {
            config.server_url = default_server(env);
        }
        config.keys = config.keys.sanitized();
        config
    }

    /// The port to listen on for local tools, if any.
    pub fn listen_port(&self) -> (r: Option<u16>)
        ensures
            r == if self.local_api {
                Some(self.local_api_port)
            } else {
                None
            },
            r == open_port(self.local_api, self.local_api_port),
    {
        if self.local_api {
            Some(self.local_api_port)
        } else {
            None
        }
    }
}

/// The port to listen on, given whether local tools are let in at all.
pub open spec fn open_port(allowed: bool, port: u16) -> Option<u16> {
    if allowed {
        Some(port)
    } else {
        None
    }
}

/// The server that is admitted: an acceptable one as it is, else the one to fall back on.
pub open spec fn admitted_server(s: Seq<char>, env: Option<Seq<char>>) -> Seq<char> {
    if server::server_ok(s) {
        s
    } else {
        fallback_server(env)
    }
}

/// The keys that are admitted: usable ones as they are, else the shipped ones.
pub open spec fn admitted_keys(keys: KeyBindings) -> KeyBindings {
    if hotkeys::valid_keys(keys) {
        keys
    } else {
        hotkeys::shipped_keys()
    }
}

/// What to do so that the overlay starts on login, or does not.
pub open spec fn change_of(on: bool, enabled: bool) -> Option<bool> {
    if on == enabled {
        None
    } else {
        Some(on)
    }
}

/// What to do so that the overlay starts on login, or does not: enable it, disable it, or nothing.
pub fn autostart_change(on: bool, enabled: bool) -> (r: Option<bool>)
    ensures
        r == if on == enabled {
            None
        } else {
            Some(on)
        },
        r == change_of(on, enabled),
{
    if on && !enabled {
        Some(true)
    } else if !on && enabled {
        Some(false)
    } else {
        None
    }
}

/// Admitting preferences that were admitted changes nothing: loading gives what saving kept.
pub proof fn law_admission_is_stable(s: Seq<char>, env: Option<Seq<char>>, keys: KeyBindings)
    ensures
        admitted_server(admitted_server(s, env), env) == admitted_server(s, env),
        admitted_keys(admitted_keys(keys)) == admitted_keys(keys),
        server::server_ok(fallback_server(env)) ==> server::server_ok(admitted_server(s, env)),
{
}

/// An acceptable server and usable keys are kept as they are. Anything else is replaced, the server
/// by the environment's, or by the local one where there is none, and the keys by a set that can be
/// used.
pub proof fn law_admission(s: Seq<char>, env: Seq<char>, keys: KeyBindings)
    ensures
        server::server_ok(s) ==> admitted_server(s, Some(env)) == s && admitted_server(s, None)
            == s,
        !server::server_ok(s) ==> admitted_server(s, Some(env)) == env && admitted_server(s, None)
            == "http://localhost:8080"@,
        hotkeys::valid_keys(keys) ==> admitted_keys(keys) == keys,
        hotkeys::valid_keys(admitted_keys(keys)),
{
}

/// After the change the overlay starts on login as it should, and where it already did there is
/// nothing to do.
pub proof fn law_autostart_settles(on: bool, enabled: bool)
    ensures
        (match change_of(on, enabled) {
            Some(now) => now,
            None => enabled,
        }) == on,
        change_of(on, on) is None,
        change_of(on, !on) is Some,
{
}

/// No port is opened unless local tools are let in, and then just the one that was set.
pub proof fn law_port_is_open_on_request(port: u16, other: u16)
    ensures
        open_port(false, port) is None,
        open_port(true, port) == Some(port),
        port != other ==> open_port(true, port) != open_port(true, other),
{
}

} // verus!
