use vstd::prelude::*;
use vstd::string::*;

use crate::startup::StartupError;

verus! {

/// Everything needed to open a connection to the store.
pub struct ConnectionTarget {
    pub host: String,
    pub port: u16,
    pub database: String,
    pub username: String,
    pub password: String,
    /// Whether the transport is encrypted.
    pub use_tls: bool,
}

/// The resolved startup configuration.
pub struct StartupConfig {
    pub target: ConnectionTarget,
    /// Upper bound on connections the pool keeps open at once.
    pub max_connections: u32,
    /// Address the listener binds, `host:port`.
    pub bind_address: String,
}

/// The listener port when none is configured.
pub open spec fn default_port() -> Seq<char> {
    "8080"@
}

/// The port text the listener uses for an optional configured value.
pub open spec fn port_text(port: Option<Seq<char>>) -> Seq<char> {
    match port {
        Some(p) => p,
        None => default_port(),
    }
}

/// What a configuration resolved from `password` and `port` holds.
pub open spec fn resolved_from(c: StartupConfig, password: Seq<char>, port: Option<Seq<char>>) -> bool {
    &&& c.target.host@ == "127.0.0.1"@
    &&& c.target.port == 5433
    &&& c.target.database@ == "knowledge_graph"@
    &&& c.target.username@ == "app"@
    &&& c.target.password@ == password
    &&& !c.target.use_tls
    &&& c.max_connections == 10
    &&& c.bind_address@ == "0.0.0.0:"@ + port_text(port)
}

/// The text of an optional string.
pub open spec fn view_of(s: Option<String>) -> Option<Seq<char>> {
    match s {
        Some(t) => Some(t@),
        None => None,
    }
}

/// Resolves the startup configuration from the store password and the
/// listener port, as read from the environment. The password is required;
/// the port falls back to its default.
pub fn resolve_config(password: Option<String>, port: Option<String>) -> (r: Result<StartupConfig, StartupError>)
    ensures
        password is None <==> r is Err,
        r is Err ==> r->Err_0 == StartupError::Configuration,
        r is Ok ==> resolved_from(r->Ok_0, password->Some_0@, view_of(port)),
{
    let password = match password {
        Some(p) => p,
        None => return Err(StartupError::Configuration),
    };
    let port_value = match port {
        Some(p) => p,
        None => String::from_str("8080"),
    };
    let bind_address = String::from_str("0.0.0.0:").concat(port_value.as_str());
    let target = ConnectionTarget {
        host: String::from_str("127.0.0.1"),
        port: 5433,
        database: String::from_str("knowledge_graph"),
        username: String::from_str("app"),
        password,
        use_tls: false,
    };
    Ok(StartupConfig { target, max_connections: 10, bind_address })
}

} // verus!
