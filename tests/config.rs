use anvil_benchmarks::config::{
    trial_config, ClientTransport, ForkSource, FORK_BLOCK, GAS_LIMIT, HTTP_PORT,
};
use anvil_benchmarks::tracing_toggle::{claim_trace_mode, TraceMode};

#[test]
fn only_the_first_claim_traces() {
    let mut count: u8 = 0;
    let mut modes = vec![];
    for _ in 0..5 {
        let (mode, next) = claim_trace_mode(count);
        modes.push(mode);
        count = next;
    }
    assert_eq!(
        modes,
        vec![TraceMode::Full, TraceMode::Silent, TraceMode::Silent, TraceMode::Silent, TraceMode::Silent]
    );
    assert_eq!(count, 1);
}

#[test]
fn interleaved_transports_trace_once() {
    let mut count: u8 = 0;
    let sources = vec![
        ForkSource::Ipc { path: "/tmp/a.ipc".to_string() },
        ForkSource::Rpc { url: "http://localhost:8545".to_string() },
        ForkSource::IpcDatabase { path: "/tmp/a.ipc".to_string(), db_path: "/db".to_string() },
        ForkSource::Rpc { url: "http://localhost:8545".to_string() },
    ];
    let mut traced = vec![];
    for s in sources {
        let (mode, next) = claim_trace_mode(count);
        count = next;
        traced.push(trial_config(s, mode).tracing);
    }
    assert_eq!(traced, vec![true, false, false, false]);
}

#[test]
fn http_config_is_fixed_apart_from_tracing() {
    let c = trial_config(ForkSource::Rpc { url: "http://x".to_string() }, TraceMode::Full);
    assert_eq!(c.client, ClientTransport::Http);
    assert_eq!(c.port, Some(HTTP_PORT));
    assert_eq!(c.port, Some(1299));
    assert_eq!(c.fork_block, FORK_BLOCK);
    assert_eq!(c.fork_block, 14_445_961);
    assert_eq!(c.gas_limit, GAS_LIMIT);
    assert_eq!(c.gas_limit, 28_000_000);
    assert!(c.tracing && c.steps_tracing && !c.silent);
    assert!(!c.storage_caching);
    assert!(c.auto_impersonate);
    assert!(c.ipc_endpoint);
}

#[test]
fn ipc_config_is_silent_after_first() {
    let c = trial_config(
        ForkSource::IpcDatabase { path: "/p.ipc".to_string(), db_path: "/db".to_string() },
        TraceMode::Silent,
    );
    assert_eq!(c.client, ClientTransport::Ipc);
    assert_eq!(c.port, None);
    assert!(!c.tracing && !c.steps_tracing && c.silent);
    match c.fork_source {
        ForkSource::IpcDatabase { path, db_path } => {
            assert_eq!(path, "/p.ipc");
            assert_eq!(db_path, "/db");
        }
        _ => panic!("fork source changed"),
    }
}
