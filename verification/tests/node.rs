use shadow_provider::client::{HttpMethod, RequestBody};
use shadow_provider::node::{
    select_simulation_addr, NodeOp, NodeSetup, ResolvedAddr, SetupAction, SetupEvent,
    ShadowNode, ShadowNodeOptions,
};
use shadow_provider::types::{ProviderError, RunCommandOptions, TransferedFile};

fn file(local: &str, remote: &str) -> TransferedFile {
    TransferedFile { local_path: local.into(), remote_path: remote.into(), mode: "0644".into() }
}

fn options() -> ShadowNodeOptions {
    ShadowNodeOptions {
        namespace_base_dir: "/tmp/zombie-1".into(),
        name: "alice".into(),
        program: "polkadot".into(),
        args: vec!["--alice".into(), "--chain".into(), "rococo-local".into()],
        env: vec![("RUST_LOG".into(), "info".into())],
        startup_files: vec![file("/local/spec.json", "/cfg/spec.json")],
        created_paths: vec!["/data".into(), "/cfg".into()],
        node_log_path: None,
        agent_host: None,
        agent_port: 3000,
    }
}

#[test]
fn node_layout_lies_below_its_directory() {
    let node = ShadowNode::new(&options());
    assert_eq!(node.name(), "alice");
    assert_eq!(node.base_dir(), "/tmp/zombie-1/alice");
    assert_eq!(node.config_dir(), "/tmp/zombie-1/alice/cfg");
    assert_eq!(node.data_dir(), "/tmp/zombie-1/alice/data");
    assert_eq!(node.relay_data_dir(), "/tmp/zombie-1/alice/relay-data");
    assert_eq!(node.scripts_dir(), "/tmp/zombie-1/alice/scripts");
    assert_eq!(node.log_path(), "/tmp/zombie-1/alice/alice.log");
    assert_eq!(node.provider_tag(), "shadow");
    assert_eq!(node.args(), vec!["--alice", "--chain", "rococo-local"]);
    assert_eq!(node.client().base_url(), "http://alice:3000");
}

#[test]
fn given_log_path_and_agent_host_are_used() {
    let mut o = options();
    o.node_log_path = Some("/logs/a.log".into());
    o.agent_host = Some("agent-host".into());
    o.agent_port = 4000;
    let node = ShadowNode::new(&o);
    assert_eq!(node.log_path(), "/logs/a.log");
    assert_eq!(node.client().base_url(), "http://agent-host:4000");
}

#[test]
fn log_cmd_follows_the_quoted_log_path() {
    let node = ShadowNode::new(&options());
    assert_eq!(node.log_cmd(), "tail -f \"/tmp/zombie-1/alice/alice.log\"");
    assert_eq!(node.path_in_node("/cfg/x"), "/cfg/x");
}

#[test]
fn start_request_runs_the_nodes_program() {
    let node = ShadowNode::new(&options());
    let r = node.start_process_request();
    assert_eq!(r.method, HttpMethod::Post);
    assert_eq!(r.url, "http://alice:3000/spawn");
    match r.body {
        RequestBody::Spawn(b) => {
            assert_eq!(b.program, "polkadot");
            assert_eq!(b.args, options().args);
            assert_eq!(b.env, options().env);
        }
        other => panic!("unexpected body {:?}", other),
    }
    let cmd = RunCommandOptions::new("ls").args(vec!["/".into()]);
    let r = node.run_command_request(&cmd);
    assert_eq!(r.method, HttpMethod::Post);
    assert_eq!(r.url, "http://alice:3000/exec");
    assert_eq!(node.program(), "polkadot");
    assert_eq!(node.env(), &options().env);
}

#[test]
fn each_failure_names_the_node() {
    let node = ShadowNode::new(&options());
    let m = || "boom".to_string();
    assert_eq!(node.op_error(NodeOp::StartProcess, m()), ProviderError::NodeSpawningFailed("alice".into(), m()));
    assert_eq!(node.op_error(NodeOp::Logs, m()), ProviderError::GetLogsFailed("alice".into(), m()));
    assert_eq!(
        node.op_error(NodeOp::RunCommand("ls".into()), m()),
        ProviderError::RunCommandError("ls".into(), "alice".into(), m())
    );
    assert_eq!(
        node.op_error(NodeOp::SendFile("/cfg/x".into()), m()),
        ProviderError::SendFile("alice".into(), "/cfg/x".into(), m())
    );
    assert_eq!(node.op_error(NodeOp::Pause, m()), ProviderError::PauseNodeFailed("alice".into(), m()));
    assert_eq!(node.op_error(NodeOp::Resume, m()), ProviderError::ResumeNodeFailed("alice".into(), m()));
    assert_eq!(node.op_error(NodeOp::Restart, m()), ProviderError::RestartNodeFailed("alice".into(), m()));
    assert_eq!(node.op_error(NodeOp::Destroy, m()), ProviderError::DestroyNodeFailed("alice".into(), m()));
    assert_eq!(node.settle(NodeOp::Pause, Ok::<u8, String>(3)), Ok(3));
    assert_eq!(
        node.settle(NodeOp::Pause, Err::<u8, String>(m())),
        Err(ProviderError::PauseNodeFailed("alice".into(), m()))
    );
    assert_eq!(node.run_script(), ProviderError::RunScriptError("alice".into(), "Not implemented".into()));
}

#[test]
fn ip_is_the_first_simulation_address() {
    let node = ShadowNode::new(&options());
    assert_eq!(node.lookup_target(), "alice:0");
    let addrs = vec![
        ResolvedAddr::V6,
        ResolvedAddr::V4(127, 0, 0, 1),
        ResolvedAddr::V4(10, 0, 0, 7),
        ResolvedAddr::V4(10, 0, 0, 8),
    ];
    assert_eq!(select_simulation_addr(&addrs), Some((10, 0, 0, 7)));
    assert_eq!(node.ip(Ok(addrs)), Ok((10, 0, 0, 7)));
}

#[test]
fn ip_errors_are_invalid_config() {
    let node = ShadowNode::new(&options());
    assert_eq!(
        node.ip(Ok(vec![ResolvedAddr::V4(192, 168, 0, 1), ResolvedAddr::V6])),
        Err(ProviderError::InvalidConfig("No 10.x.x.x IP found for alice".into()))
    );
    assert_eq!(
        node.ip(Ok(vec![])),
        Err(ProviderError::InvalidConfig("No 10.x.x.x IP found for alice".into()))
    );
    assert_eq!(
        node.ip(Err("no such host".into())),
        Err(ProviderError::InvalidConfig("Failed to resolve host alice: no such host".into()))
    );
}

fn mkdir(path: &str) -> SetupAction {
    SetupAction::RunCommand(RunCommandOptions {
        program: "mkdir".into(),
        args: vec!["-p".into(), path.into()],
        env: vec![],
    })
}

#[test]
fn setup_creates_paths_then_sends_files_then_starts() {
    let mut setup = NodeSetup::new(&options());
    let mut seen = vec![];
    while let Some(action) = setup.next_action() {
        seen.push(action);
        setup.record(SetupEvent::Succeeded);
    }
    assert_eq!(
        seen,
        vec![
            mkdir("/data"),
            mkdir("/cfg"),
            SetupAction::SendFile(file("/local/spec.json", "/cfg/spec.json")),
            SetupAction::StartProcess,
        ]
    );
    assert_eq!(setup.outcome(), Some(Ok(())));
}

#[test]
fn setup_without_paths_or_files_only_starts() {
    let mut o = options();
    o.created_paths = vec![];
    o.startup_files = vec![];
    let mut setup = NodeSetup::new(&o);
    assert_eq!(setup.outcome(), None);
    assert_eq!(setup.next_action(), Some(SetupAction::StartProcess));
    setup.record(SetupEvent::Succeeded);
    assert_eq!(setup.next_action(), None);
    assert_eq!(setup.outcome(), Some(Ok(())));
}

#[test]
fn setup_stops_at_the_first_failure() {
    let mut setup = NodeSetup::new(&options());
    setup.next_action();
    setup.record(SetupEvent::AgentFailed("refused".into()));
    assert_eq!(setup.next_action(), None);
    assert_eq!(
        setup.outcome(),
        Some(Err(ProviderError::RunCommandError("mkdir".into(), "alice".into(), "refused".into())))
    );
}

#[test]
fn setup_reports_file_and_start_failures() {
    let mut setup = NodeSetup::new(&options());
    setup.record(SetupEvent::Succeeded);
    setup.record(SetupEvent::Succeeded);
    setup.record(SetupEvent::AgentFailed("upload refused".into()));
    assert_eq!(
        setup.outcome(),
        Some(Err(ProviderError::SendFile("alice".into(), "/cfg/spec.json".into(), "upload refused".into())))
    );

    let mut setup = NodeSetup::new(&options());
    setup.record(SetupEvent::Succeeded);
    setup.record(SetupEvent::Succeeded);
    setup.record(SetupEvent::LocalReadFailed("not found".into()));
    assert_eq!(setup.outcome(), Some(Err(ProviderError::FileSystemError("not found".into()))));

    let mut setup = NodeSetup::new(&options());
    for _ in 0..3 {
        setup.record(SetupEvent::Succeeded);
    }
    assert_eq!(setup.next_action(), Some(SetupAction::StartProcess));
    setup.record(SetupEvent::AgentFailed("Failed to spawn process: 500 Internal Server Error".into()));
    assert_eq!(
        setup.outcome(),
        Some(Err(ProviderError::NodeSpawningFailed(
            "alice".into(),
            "Failed to spawn process: 500 Internal Server Error".into()
        )))
    );
}
