//! Starting the ClickHouse admin servers: which log each one writes, and the
//! failures that stop a start.
use vstd::prelude::*;

verus! {

/// A failure while starting an admin server.
#[derive(Clone, Debug, PartialEq, Eq)]
pub enum StartError {
    /// The logger could not be built.
    InitializeLogger(String),
    /// The DTrace probes could not be registered.
    RegisterDtraceProbes(String),
    /// The HTTP server could not be set up.
    InitializeHttpServer(String),
}

/// The two admin servers.
#[derive(Clone, Copy, Debug, PartialEq, Eq, Structural)]
pub enum AdminServer {
    /// Manages ClickHouse replica servers.
    Server,
    /// Manages ClickHouse keepers.
    Keeper,
}

/// The name of the log of each admin server.
pub open spec fn log_name_of(s: AdminServer) -> Seq<char> {
    match s {
        AdminServer::Server => "clickhouse-admin-server"@,
        AdminServer::Keeper => "clickhouse-admin-keeper"@,
    }
}

impl AdminServer {
    /// The name under which this server's logger is built.
    pub fn log_name(&self) -> (r: String)
        ensures
            r@ == log_name_of(*self),
    {
        match self {
            AdminServer::Server => String::from_str("clickhouse-admin-server"),
            AdminServer::Keeper => String::from_str("clickhouse-admin-keeper"),
        }
    }
}

/// How registering the DTrace probes went.
#[derive(Clone, Debug, PartialEq, Eq)]
pub enum ProbeRegistration {
    Success,
    Failed(String),
}

/// A start goes on after the probes registered, and stops with their failure.
pub fn check_probe_registration(registration: ProbeRegistration) -> (r: Result<(), StartError>)
    ensures
        registration == ProbeRegistration::Success <==> r is Ok,
        forall|m: String| registration == ProbeRegistration::Failed(m)
            ==> r == Err::<(), StartError>(StartError::RegisterDtraceProbes(m)),
{
    match registration {
        ProbeRegistration::Success => Ok(()),
        ProbeRegistration::Failed(m) => Err(StartError::RegisterDtraceProbes(m)),
    }
}

} // verus!
