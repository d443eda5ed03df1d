//! The server lifecycle: configuration is resolved before anything else,
//! the dispatch table and middleware configuration are frozen at
//! construction, and a constructed server is consumed exactly once by the
//! step that binds and serves. Every failure is terminal — this layer has no
//! restart or recovery logic.

use vstd::prelude::*;

use crate::config::ConfigError;
use crate::config::listen_address;
use crate::config::resolve_port;
use crate::config::resolved_port;
use crate::middleware::CorsPolicy;
use crate::routes::Method;
use crate::routes::RouteTable;
use crate::routes::entry_view;
use crate::routes::routes_map;

verus! {

/// The states a server passes through. There is no transition back: a
/// failure in any state is terminal for the process.
#[derive(Clone, Copy, PartialEq, Eq, Structural, Debug)]
pub enum Phase {
    Unconfigured,
    Configured,
    Assembled,
    Bound,
    Serving,
    Terminated,
}

/// What the world reports back to the lifecycle while it advances.
#[derive(Clone, Copy, PartialEq, Eq, Structural, Debug)]
pub enum LifecycleEvent {
    ConfigurationResolved,
    ConfigurationMissing,
    RoutesAssembled,
    BindSucceeded,
    BindFailed,
    ServeStarted,
    ServeFailed,
}

/// The transition relation of the lifecycle: the happy path runs
/// Unconfigured → Configured → Assembled → Bound → Serving in that order,
/// every failure lands in Terminated, and nothing leaves Terminated.
pub open spec fn next_phase(phase: Phase, event: LifecycleEvent) -> Phase {
    match (phase, event) {
        (Phase::Unconfigured, LifecycleEvent::ConfigurationResolved) => Phase::Configured,
        (Phase::Configured, LifecycleEvent::RoutesAssembled) => Phase::Assembled,
        (Phase::Assembled, LifecycleEvent::BindSucceeded) => Phase::Bound,
        (Phase::Bound, LifecycleEvent::ServeStarted) => Phase::Serving,
        _ => Phase::Terminated,
    }
}

/// Advance the lifecycle by one observed event.
pub fn advance(phase: Phase, event: LifecycleEvent) -> (next: Phase)
    ensures
        next == next_phase(phase, event),
{
    match (phase, event) {
        (Phase::Unconfigured, LifecycleEvent::ConfigurationResolved) => Phase::Configured,
        (Phase::Configured, LifecycleEvent::RoutesAssembled) => Phase::Assembled,
        (Phase::Assembled, LifecycleEvent::BindSucceeded) => Phase::Bound,
        (Phase::Bound, LifecycleEvent::ServeStarted) => Phase::Serving,
        _ => Phase::Terminated,
    }
}

/// Termination is absorbing: once the lifecycle has failed, no event
/// revives it.
pub proof fn lemma_termination_is_terminal(event: LifecycleEvent)
    ensures
        next_phase(Phase::Terminated, event) == Phase::Terminated,
{
}

/// A constructed server: the frozen dispatch table, the middleware
/// configuration, and the resolved listening address. The value is consumed
/// exactly once by [`Server::into_parts`], which hands its fields to the
/// transport layer — a half-started server cannot be reused.
pub struct Server<H> {
    table: RouteTable<H>,
    cors: Option<CorsPolicy>,
    logging: bool,
    address: String,
}

impl<H> Server<H> {
    /// The dispatch table the server will serve.
    pub closed spec fn table(self) -> RouteTable<H> {
        self.table
    }

    /// The cross-origin policy the middleware chain was configured with.
    pub closed spec fn cors(self) -> Option<CorsPolicy> {
        self.cors
    }

    /// Whether the logging layer was configured.
    pub closed spec fn logging(self) -> bool {
        self.logging
    }

    /// The address the listener will bind: `0.0.0.0:<port>`.
    pub closed spec fn address(self) -> String {
        self.address
    }

    /// Consume the server, yielding the dispatch table, the middleware
    /// configuration and the listening address for the bind-and-serve step.
    pub fn into_parts(self) -> (parts: (RouteTable<H>, Option<CorsPolicy>, bool, String))
        ensures
            parts.0 == self.table(),
            parts.1 == self.cors(),
            parts.2 == self.logging(),
            parts.3 == self.address(),
    {
        (self.table, self.cors, self.logging, self.address)
    }
}

/// Construct a server: resolve the port (the process environment first,
/// the optional file value as fallback), assemble the route table as an
/// insertion fold over the given registrations, and freeze the middleware
/// configuration. When both port sources are absent, construction fails
/// with `MissingConfiguration` before any listener exists to bind.
pub fn build_server<H>(
    routes: Vec<(Method, String, H)>,
    cors: Option<CorsPolicy>,
    logging: bool,
    file_port: Option<String>,
    env_port: Option<String>,
) -> (r: Result<Server<H>, ConfigError>)
    ensures
        r is Err <==> (file_port is None && env_port is None),
        r matches Err(e) ==> e == ConfigError::MissingConfiguration,
        r matches Ok(s) ==> {
            &&& s.table()@ == routes_map(
                routes@.map_values(|e: (Method, String, H)| entry_view(e)),
            )
            &&& s.table().registrations() == routes@.map_values(
                |e: (Method, String, H)| entry_view(e),
            )
            &&& s.cors() == cors
            &&& s.logging() == logging
            &&& s.address()@ == "0.0.0.0:"@ + resolved_port(
                match file_port {
                    Some(f) => Some(f@),
                    None => None,
                },
                match env_port {
                    Some(v) => Some(v@),
                    None => None,
                },
            )
        },
{
    let port = match resolve_port(file_port, env_port) {
        Ok(p) => p,
        Err(e) => {
            return Err(e);
        },
    };
    let table = RouteTable::assemble(routes);
    let address = listen_address(&port);
    Ok(Server { table, cors, logging, address })
}

} // verus!
