use vstd::prelude::*;
use vstd::string::*;

verus! {

/// One mock endpoint: requests whose method and path match are answered
/// with `status` and the verbatim `response` body after `delay` milliseconds.
#[derive(Debug, Clone)]
pub struct Endpoint {
    pub id: String,
    pub method: String,
    pub path: String,
    pub status: u16,
    pub delay: u64,
    pub response: String,
}

impl Endpoint {
    /// A copy equal to `self` in every field.
    pub fn duplicate(&self) -> (r: Endpoint)
        ensures
            r == *self,
    {
        Endpoint {
            id: self.id.clone(),
            method: self.method.clone(),
            path: self.path.clone(),
            status: self.status,
            delay: self.delay,
            response: self.response.clone(),
        }
    }
}

/// Locations of a PEM certificate and its PEM private key.
#[derive(Debug, Clone)]
pub struct TlsConfig {
    pub cert_path: String,
    pub key_path: String,
}

impl TlsConfig {
    /// A copy equal to `self` in every field.
    pub fn duplicate(&self) -> (r: TlsConfig)
        ensures
            r == *self,
    {
        TlsConfig { cert_path: self.cert_path.clone(), key_path: self.key_path.clone() }
    }
}

/// Copies an optional TLS configuration.
pub fn duplicate_tls(c: &Option<TlsConfig>) -> (r: Option<TlsConfig>)
    ensures
        r == *c,
{
    match c {
        Some(t) => Some(t.duplicate()),
        None => None,
    }
}

/// Where the listener binds and whether it speaks TLS.
#[derive(Debug, Clone)]
pub struct ServerSettings {
    pub port: u16,
    pub bind_addr: String,
    pub enable_tls: bool,
}

impl ServerSettings {
    /// The settings a fresh application starts with: plain HTTP on
    /// 127.0.0.1, port 3000.
    pub fn initial() -> (r: ServerSettings)
        ensures
            r.port == 3000,
            r.bind_addr@ == "127.0.0.1"@,
            !r.enable_tls,
    {
        ServerSettings { port: 3000, bind_addr: String::from_str("127.0.0.1"), enable_tls: false }
    }

    /// A copy equal to `self` in every field.
    pub fn duplicate(&self) -> (r: ServerSettings)
        ensures
            r == *self,
    {
        ServerSettings {
            port: self.port,
            bind_addr: self.bind_addr.clone(),
            enable_tls: self.enable_tls,
        }
    }
}

/// A saved project: its name, when it was saved, every endpoint in routing
/// order, the server settings and the TLS configuration, if any.
#[derive(Debug, Clone)]
pub struct ProjectData {
    pub name: String,
    pub last_saved: String,
    pub endpoints: Vec<Endpoint>,
    pub settings: ServerSettings,
    pub tls_config: Option<TlsConfig>,
}

/// The arguments of a server start.
#[derive(Debug, Clone)]
pub struct StartServerParams {
    pub port: u16,
    pub bind_addr: String,
    pub enable_tls: bool,
}

/// The arguments of a TLS configuration change.
#[derive(Debug, Clone)]
pub struct SetTlsConfigParams {
    pub cert_path: String,
    pub key_path: String,
}

/// A host address the listener can bind to, with a label for display.
#[derive(Debug, Clone)]
pub struct NetworkInterface {
    pub name: String,
    pub ip: String,
}

/// The serialized project text and the file name suggested for it.
#[derive(Debug, Clone)]
pub struct SaveProjectParams {
    pub data: String,
    pub filename: String,
}

} // verus!
