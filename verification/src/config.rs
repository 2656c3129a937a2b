//! Configuration: the process-wide server settings and the per-connection
//! snapshot taken when a session is dialed.

use vstd::prelude::*;

verus! {

/// The process-wide server configuration: directory endpoint, optional
/// relay endpoint, a force-relay flag, and an optional pre-shared key.
/// Mutated by host calls; read when each new connection is dialed.
#[derive(Debug, Clone)]
pub struct ServerConfig {
    pub id_server: Option<String>,
    pub relay_server: Option<String>,
    pub force_relay: bool,
    pub key: Option<String>,
}

impl Default for ServerConfig {
    /// Defaults: no endpoints overridden, relay not forced, no key.
    fn default() -> (r: ServerConfig)
        ensures
            r.id_server is None,
            r.relay_server is None,
            !r.force_relay,
            r.key is None,
    {
        ServerConfig { id_server: None, relay_server: None, force_relay: false, key: None }
    }
}

impl ServerConfig {
    /// Builds a configuration from the host's strings, where an empty
    /// string means "use the default".
    pub fn from_host_strings(id_server: String, relay_server: String, force_relay: bool, key: String) -> (r:
        ServerConfig)
        ensures
            id_server@.len() == 0 ==> r.id_server is None,
            id_server@.len() > 0 ==> r.id_server == Some(id_server),
            relay_server@.len() == 0 ==> r.relay_server is None,
            relay_server@.len() > 0 ==> r.relay_server == Some(relay_server),
            r.force_relay == force_relay,
            key@.len() == 0 ==> r.key is None,
            key@.len() > 0 ==> r.key == Some(key),
    {
        let id_server_opt = if id_server.as_str().is_empty() {
            None
        } else {
            Some(id_server)
        };
        let relay_server_opt = if relay_server.as_str().is_empty() {
            None
        } else {
            Some(relay_server)
        };
        let key_opt = if key.as_str().is_empty() {
            None
        } else {
            Some(key)
        };
        ServerConfig {
            id_server: id_server_opt,
            relay_server: relay_server_opt,
            force_relay,
            key: key_opt,
        }
    }
}

/// A connection's configuration, snapshot at connect time and immutable for
/// the session's life.
#[derive(Debug, Clone)]
pub struct RustDeskConfig {
    /// The remote device identifier.
    pub desk_id: String,
    /// The optional authentication secret.
    pub password: Option<String>,
    /// The directory-service endpoint.
    pub id_server: String,
    /// The optional relay endpoint.
    pub relay_server: Option<String>,
    /// Whether to force traversal through a relay.
    pub force_relay: bool,
}

impl Default for RustDeskConfig {
    /// Defaults: empty identifier, no secret, the stock directory endpoint,
    /// no relay.
    fn default() -> (r: RustDeskConfig)
        ensures
            r.desk_id@.len() == 0,
            r.password is None,
            r.id_server@ == "router.rustdesk.com:21116"@,
            r.relay_server is None,
            !r.force_relay,
    {
        RustDeskConfig {
            desk_id: String::new(),
            password: None,
            id_server: "router.rustdesk.com:21116".to_owned(),
            relay_server: None,
            force_relay: false,
        }
    }
}

/// Snapshots the server settings into a connection configuration: the
/// identifier and secret come from the call (an empty secret means none),
/// the endpoints from the settings where set and from the defaults where
/// not.
pub fn build_config(settings: &ServerConfig, desk_id: &str, password: &str) -> (r: RustDeskConfig)
    ensures
        r.desk_id@ == desk_id@,
        password@.len() == 0 ==> r.password is None,
        password@.len() > 0 ==> (r.password matches Some(p) && p@ == password@),
        settings.id_server matches Some(s) ==> r.id_server@ == s@,
        settings.id_server is None ==> r.id_server@ == "router.rustdesk.com:21116"@,
        settings.relay_server matches Some(s) ==> (r.relay_server matches Some(t) && t@ == s@),
        settings.relay_server is None ==> r.relay_server is None,
        r.force_relay == settings.force_relay,
{
    let password_opt = if password.is_empty() {
        None
    } else {
        Some(password.to_owned())
    };
    let id_server = match &settings.id_server {
        Some(s) => s.clone(),
        None => "router.rustdesk.com:21116".to_owned(),
    };
    let relay_server = match &settings.relay_server {
        Some(s) => Some(s.clone()),
        None => None,
    };
    RustDeskConfig {
        desk_id: desk_id.to_owned(),
        password: password_opt,
        id_server,
        relay_server,
        force_relay: settings.force_relay,
    }
}

} // verus!
