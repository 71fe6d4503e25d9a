use vstd::prelude::*;
use crate::tracing_toggle::TraceMode;

verus! {

/// Gas limit of every node.
pub const GAS_LIMIT: u64 = 28_000_000;

/// Historical block that every fork is pinned to.
pub const FORK_BLOCK: u64 = 14_445_961;

/// Port of a node that the client reaches over HTTP.
pub const HTTP_PORT: u16 = 1299;

/// Where a node takes its chain state from.
#[derive(Clone, Debug)]
pub enum ForkSource {
    /// A remote node reached over an RPC URL.
    Rpc { url: String },
    /// A node reached over its IPC socket.
    Ipc { path: String },
    /// A node reached over its IPC socket, reading state from an on-disk database.
    IpcDatabase { path: String, db_path: String },
}

/// How the benchmark's client talks to the spawned node.
#[derive(Clone, Copy, Debug, PartialEq, Eq, Structural)]
pub enum ClientTransport {
    Http,
    Ipc,
}

/// Everything needed to spawn one node for one trial.
#[derive(Clone, Debug)]
pub struct TrialConfig {
    pub fork_source: ForkSource,
    pub client: ClientTransport,
    /// Port to listen on; `None` leaves the node's default.
    pub port: Option<u16>,
    pub fork_block: u64,
    pub gas_limit: u64,
    /// The node also serves its default IPC endpoint.
    pub ipc_endpoint: bool,
    pub tracing: bool,
    pub steps_tracing: bool,
    pub silent: bool,
    pub storage_caching: bool,
    /// Any address may send transactions without a key.
    pub auto_impersonate: bool,
}

/// The client transport that goes with a fork source.
pub open spec fn client_for(source: ForkSource) -> ClientTransport {
    match source {
        ForkSource::Rpc { .. } => ClientTransport::Http,
        _ => ClientTransport::Ipc,
    }
}

/// The configuration of a node forked from `source`, traced as `mode` says.
pub open spec fn config_spec(source: ForkSource, mode: TraceMode) -> TrialConfig {
    TrialConfig {
        fork_source: source,
        client: client_for(source),
        port: if client_for(source) == ClientTransport::Http { Some(HTTP_PORT) } else { None },
        fork_block: FORK_BLOCK,
        gas_limit: GAS_LIMIT,
        ipc_endpoint: true,
        tracing: mode == TraceMode::Full,
        steps_tracing: mode == TraceMode::Full,
        silent: mode == TraceMode::Silent,
        storage_caching: false,
        auto_impersonate: true,
    }
}

/// Builds the configuration of one trial's node: fixed gas limit and fork block,
/// no storage caching, auto-impersonation on, tracing as `mode` says, and the
/// client transport and port that go with `source`.
pub fn trial_config(source: ForkSource, mode: TraceMode) -> (r: TrialConfig)
    ensures
        r == config_spec(source, mode),
{
    let client = match &source {
        ForkSource::Rpc { .. } => ClientTransport::Http,
        _ => ClientTransport::Ipc,
    };
    let port = match client {
        ClientTransport::Http => Some(HTTP_PORT),
        ClientTransport::Ipc => None,
    };
    let full = match mode {
        TraceMode::Full => true,
        TraceMode::Silent => false,
    };
    TrialConfig {
        fork_source: source,
        client,
        port,
        fork_block: FORK_BLOCK,
        gas_limit: GAS_LIMIT,
        ipc_endpoint: true,
        tracing: full,
        steps_tracing: full,
        silent: !full,
        storage_caching: false,
        auto_impersonate: true,
    }
}

} // verus!
