use vstd::prelude::*;
use vstd::string::*;

use crate::model::{StartServerParams, TlsConfig};
use crate::text::{decimal, decimal_text};

verus! {

#[verifier::external_type_specification]
#[verifier::external_body]
#[verifier::reject_recursive_types(T)]
pub struct ExShutdownSender<T>(tokio::sync::oneshot::Sender<T>);

/// Relies on `tokio::sync::oneshot::Sender::send`: hands the value to the
/// receiving side, or gives it back if the receiver is gone; it never blocks.
pub assume_specification<T>[ tokio::sync::oneshot::Sender::<T>::send ](
    tx: tokio::sync::oneshot::Sender<T>,
    t: T,
) -> Result<(), T>;

/// The one running listener: the sender of its shutdown signal, the port
/// it was started on, and whether it speaks TLS.
pub struct ServerHandle {
    pub shutdown_tx: Option<tokio::sync::oneshot::Sender<()>>,
    pub port: u16,
    pub is_tls: bool,
}

impl ServerHandle {
    /// A handle for a listener on `port`, not yet given its shutdown signal.
    pub fn new(port: u16, is_tls: bool) -> (r: ServerHandle)
        ensures
            r.shutdown_tx is None,
            r.port == port,
            r.is_tls == is_tls,
    {
        ServerHandle { shutdown_tx: None, port, is_tls }
    }
}

/// Why a start or stop did not succeed.
#[derive(Debug)]
pub enum ServerError {
    /// A stop was asked for while no listener runs.
    NotRunning,
    /// The running listener's shutdown signal was already used.
    ShutdownChannelUnavailable,
    /// A TLS start was asked for while no certificate is configured.
    TlsNotConfigured,
    /// The certificate or key could not be loaded; the cause as text.
    TlsLoadError(String),
    /// The address could not be bound, for a TLS listener or a plain one;
    /// the whole description as text.
    BindError { tls: bool, text: String },
}

/// The text of a bind failure: the address and the operating system's cause.
pub open spec fn bind_error_text(addr: Seq<char>, cause: Seq<char>) -> Seq<char> {
    "Failed to bind to "@ + addr + ": "@ + cause
}

/// The text of a failure to load TLS material.
pub open spec fn tls_load_error_text(cause: Seq<char>) -> Seq<char> {
    "Failed to load TLS config: "@ + cause
}

/// The description a caller is shown for each failure.
pub open spec fn error_text(e: ServerError) -> Seq<char> {
    match e {
        ServerError::NotRunning => "Server is not running"@,
        ServerError::ShutdownChannelUnavailable => "Server shutdown channel not available"@,
        ServerError::TlsNotConfigured => "TLS is enabled but no certificate configured"@,
        ServerError::TlsLoadError(t) => "Failed to start TLS server: "@ + t@,
        ServerError::BindError { tls, text } => (if tls {
            "Failed to start TLS server: "@
        } else {
            "Failed to start server: "@
        }) + text@,
    }
}

impl ServerError {
    /// The description a caller is shown.
    pub fn message(&self) -> (r: String)
        ensures
            r@ == error_text(*self),
    {
        match self {
            ServerError::NotRunning => String::from_str("Server is not running"),
            ServerError::ShutdownChannelUnavailable => String::from_str(
                "Server shutdown channel not available",
            ),
            ServerError::TlsNotConfigured => String::from_str(
                "TLS is enabled but no certificate configured",
            ),
            ServerError::TlsLoadError(t) => String::from_str("Failed to start TLS server: ").concat(
                t.as_str(),
            ),
            ServerError::BindError { tls, text } => {
                let head = if *tls {
                    "Failed to start TLS server: "
                } else {
                    "Failed to start server: "
                };
                String::from_str(head).concat(text.as_str())
            },
        }
    }
}

/// The error for an address that could not be bound by a TLS listener
/// (`tls`) or a plain one.
pub fn bind_error(addr: &str, cause: &str, tls: bool) -> (r: ServerError)
    ensures
        r matches ServerError::BindError { tls: t, text } && t == tls && text@ == bind_error_text(
            addr@,
            cause@,
        ),
{
    let text = String::from_str("Failed to bind to ").concat(addr).concat(": ").concat(cause);
    ServerError::BindError { tls, text }
}

/// The error for certificate or key material that could not be loaded.
pub fn tls_load_error(cause: &str) -> (r: ServerError)
    ensures
        r matches ServerError::TlsLoadError(t) && t@ == tls_load_error_text(cause@),
{
    ServerError::TlsLoadError(String::from_str("Failed to load TLS config: ").concat(cause))
}

/// `host:port`, the address a listener binds to.
pub open spec fn listen_address_spec(bind_addr: Seq<char>, port: u16) -> Seq<char> {
    bind_addr + ":"@ + decimal(port as nat)
}

/// The address text for binding `bind_addr` at `port`.
pub fn listen_address(bind_addr: &str, port: u16) -> (r: String)
    ensures
        r@ == listen_address_spec(bind_addr@, port),
{
    let p = decimal_text(port);
    String::from_str(bind_addr).concat(":").concat(p.as_str())
}

/// The confirmation shown once a listener runs.
pub open spec fn started_text(bind_addr: Seq<char>, port: u16, tls: bool) -> Seq<char> {
    "Server started on "@ + (if tls { "https"@ } else { "http"@ }) + "://"@
        + listen_address_spec(bind_addr, port)
}

/// What the listener of a start is to be: plain HTTP, or TLS with the
/// certificate and key at the given paths.
#[derive(Debug)]
pub enum ListenerPlan {
    Plain,
    Tls { cert_path: String, key_path: String },
}

/// The decisions made when a start begins: whether a listener was shut down
/// and its socket needs a grace period to be released, and the listener to
/// bind or why none can be.
#[derive(Debug)]
pub struct StartPlan {
    pub wait_for_release: bool,
    pub listener: Result<ListenerPlan, ServerError>,
}

/// The running state as callers see it.
#[derive(Debug, Clone, Copy, PartialEq, Eq)]
pub struct ServerStatus {
    pub running: bool,
    pub port: Option<u16>,
    pub is_tls: Option<bool>,
}

/// Owner of the single listener slot: a handle is present exactly while a
/// listener runs.
pub struct ServerManager {
    pub handle: Option<ServerHandle>,
}

impl ServerManager {
    /// Whether a listener runs.
    pub open spec fn is_running(&self) -> bool {
        self.handle is Some
    }

    /// The status report of this state.
    pub open spec fn status_spec(&self) -> ServerStatus {
        match self.handle {
            Some(h) => ServerStatus { running: true, port: Some(h.port), is_tls: Some(h.is_tls) },
            None => ServerStatus { running: false, port: None, is_tls: None },
        }
    }

    /// What `stop` answers in this state.
    pub open spec fn stop_outcome(&self) -> Result<Seq<char>, ServerError> {
        match self.handle {
            None => Err(ServerError::NotRunning),
            Some(h) => if h.shutdown_tx is Some {
                Ok("Server stopped"@)
            } else {
                Err(ServerError::ShutdownChannelUnavailable)
            },
        }
    }

    /// A manager with no listener.
    pub fn new() -> (r: ServerManager)
        ensures
            !r.is_running(),
    {
        ServerManager { handle: None }
    }

    /// Reports whether a listener runs, and if so on which port and whether
    /// over TLS.
    pub fn status(&self) -> (r: ServerStatus)
        ensures
            r == self.status_spec(),
    {
        match &self.handle {
            Some(h) => ServerStatus { running: true, port: Some(h.port), is_tls: Some(h.is_tls) },
            None => ServerStatus { running: false, port: None, is_tls: None },
        }
    }

    /// Shuts the running listener down by its one-shot signal and leaves the
    /// manager idle.
    pub fn stop(&mut self) -> (r: Result<String, ServerError>)
        ensures
            !final(self).is_running(),
            match r {
                Ok(m) => old(self).stop_outcome() == Ok::<Seq<char>, ServerError>(m@),
                Err(e) => old(self).stop_outcome() == Err::<Seq<char>, ServerError>(e),
            },
    {
        let taken = self.handle.take();
        match taken {
            None => Err(ServerError::NotRunning),
            Some(h) => match h.shutdown_tx {
                Some(tx) => {
                    let _ = tx.send(());
                    Ok(String::from_str("Server stopped"))
                },
                None => Err(ServerError::ShutdownChannelUnavailable),
            },
        }
    }

    /// The first half of a start. A running listener is signalled to shut
    /// down (the caller then waits a grace period), so the manager is idle
    /// afterwards whatever else happens. A TLS start needs a configured
    /// certificate and key, read at this moment.
    pub fn begin_start(&mut self, enable_tls: bool, tls: &Option<TlsConfig>) -> (r: StartPlan)
        ensures
            !final(self).is_running(),
            r.wait_for_release == (old(self).handle matches Some(h) && h.shutdown_tx is Some),
            !enable_tls ==> r.listener matches Ok(ListenerPlan::Plain),
            enable_tls && tls is None ==> r.listener matches Err(ServerError::TlsNotConfigured),
            enable_tls && tls is Some ==> (r.listener matches Ok(ListenerPlan::Tls { cert_path, key_path })
                && cert_path == tls->0.cert_path && key_path == tls->0.key_path),
    {
        let mut wait_for_release = false;
        let taken = self.handle.take();
        match taken {
            Some(h) => match h.shutdown_tx {
                Some(tx) => {
                    let _ = tx.send(());
                    wait_for_release = true;
                },
                None => {},
            },
            None => {},
        }
        let listener = if !enable_tls {
            Ok(ListenerPlan::Plain)
        } else {
            match tls {
                Some(c) => Ok(ListenerPlan::Tls { cert_path: c.cert_path.clone(), key_path: c.key_path.clone() }),
                None => Err(ServerError::TlsNotConfigured),
            }
        };
        StartPlan { wait_for_release, listener }
    }

    /// The second half of a start: with a bound listener's shutdown signal
    /// and the port it is bound to (which the operating system picks when
    /// port 0 was asked for), the manager records the new listener and
    /// confirms it; with a failure the state is left as it was and the
    /// failure is handed back.
    pub fn finish_start(
        &mut self,
        params: &StartServerParams,
        bound: Result<(tokio::sync::oneshot::Sender<()>, u16), ServerError>,
    ) -> (r: Result<String, ServerError>)
        ensures
            match bound {
                Ok((tx, port)) => {
                    &&& final(self).handle == Some(ServerHandle {
                        shutdown_tx: Some(tx),
                        port,
                        is_tls: params.enable_tls,
                    })
                    &&& final(self).status_spec() == ServerStatus {
                        running: true,
                        port: Some(port),
                        is_tls: Some(params.enable_tls),
                    }
                    &&& r matches Ok(m) && m@ == started_text(params.bind_addr@, port, params.enable_tls)
                },
                Err(e) => *final(self) == *old(self) && r == Err::<String, ServerError>(e),
            },
    {
        match bound {
            Ok((tx, port)) => {
                let mut h = ServerHandle::new(port, params.enable_tls);
                h.shutdown_tx = Some(tx);
                self.handle = Some(h);
                let protocol = if params.enable_tls { "https" } else { "http" };
                let addr = listen_address(params.bind_addr.as_str(), port);
                let m = String::from_str("Server started on ").concat(protocol).concat("://").concat(
                    addr.as_str(),
                );
                Ok(m)
            },
            Err(e) => Err(e),
        }
    }
}

/// Stopping a running listener succeeds, and the status read afterwards
/// reports that nothing runs; stopping an idle manager fails as not running.
pub proof fn lemma_stop_then_status(running: ServerManager, idle: ServerManager)
    requires
        running.handle matches Some(h) && h.shutdown_tx is Some,
        !idle.is_running(),
    ensures
        running.stop_outcome() is Ok,
        !idle.status_spec().running,
        idle.stop_outcome() == Err::<Seq<char>, ServerError>(ServerError::NotRunning),
{
}

} // verus!
