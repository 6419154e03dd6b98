use base64::Engine;
use shadow_provider::client::{
    check_status, AgentOp, AgentRequest, ExecResponse, HttpMethod, RequestBody, ShadowAgentClient,
};

fn client() -> ShadowAgentClient {
    ShadowAgentClient::new("alice", 3000)
}

#[test]
fn base_url_is_host_and_port() {
    assert_eq!(client().base_url(), "http://alice:3000");
    assert_eq!(ShadowAgentClient::new("10.0.0.1", 0).base_url(), "http://10.0.0.1:0");
    assert_eq!(ShadowAgentClient::new("h", 65535).base_url(), "http://h:65535");
}

#[test]
fn endpoints_follow_the_base_url() {
    let c = client();
    assert_eq!(c.endpoint(AgentOp::Spawn), "http://alice:3000/spawn");
    assert_eq!(c.endpoint(AgentOp::Logs), "http://alice:3000/logs");
    assert_eq!(c.endpoint(AgentOp::Exec), "http://alice:3000/exec");
    assert_eq!(c.endpoint(AgentOp::Upload), "http://alice:3000/upload");
    assert_eq!(c.endpoint(AgentOp::Pause), "http://alice:3000/pause");
    assert_eq!(c.endpoint(AgentOp::Resume), "http://alice:3000/resume");
    assert_eq!(c.endpoint(AgentOp::Restart), "http://alice:3000/restart");
    assert_eq!(c.endpoint(AgentOp::Kill), "http://alice:3000/kill");
}

#[test]
fn only_logs_are_read_with_get() {
    let c = client();
    assert_eq!(c.request(AgentOp::Logs).method, HttpMethod::Get);
    for op in [AgentOp::Pause, AgentOp::Resume, AgentOp::Restart, AgentOp::Kill] {
        let r = c.request(op);
        assert_eq!(r.method, HttpMethod::Post);
        assert_eq!(r.body, RequestBody::Empty);
    }
}

#[test]
fn spawn_request_carries_program_args_and_env() {
    let args = vec!["--chain".to_string(), "rococo-local".to_string()];
    let env = vec![("RUST_LOG".to_string(), "info".to_string())];
    let r = client().spawn("polkadot", &args, &env);
    assert_eq!(r.method, HttpMethod::Post);
    assert_eq!(r.url, "http://alice:3000/spawn");
    match r.body {
        RequestBody::Spawn(b) => {
            assert_eq!(b.program, "polkadot");
            assert_eq!(b.args, args);
            assert_eq!(b.env, env);
        }
        other => panic!("unexpected body {:?}", other),
    }
}

#[test]
fn exec_request_goes_to_exec() {
    let r = client().exec("mkdir", &vec!["-p".to_string(), "/data".to_string()], &vec![]);
    assert_eq!(r.url, "http://alice:3000/exec");
    assert!(matches!(r.body, RequestBody::Spawn(ref b) if b.program == "mkdir"));
}

#[test]
fn upload_request_encodes_content_in_base64() {
    let r: AgentRequest = client().upload_file("/cfg/genesis.json", b"hello", "0644");
    assert_eq!(r.url, "http://alice:3000/upload");
    match r.body {
        RequestBody::Upload(b) => {
            assert_eq!(b.path, "/cfg/genesis.json");
            assert_eq!(b.content_b64, "aGVsbG8=");
            assert_eq!(b.mode, "0644");
        }
        other => panic!("unexpected body {:?}", other),
    }
    let empty = client().upload_file("/x", b"", "0600");
    assert!(matches!(empty.body, RequestBody::Upload(ref b) if b.content_b64.is_empty()));
}

#[test]
fn failed_spawn_reports_the_status() {
    assert_eq!(check_status(AgentOp::Spawn, 200), Ok(()));
    assert_eq!(
        check_status(AgentOp::Spawn, 404),
        Err("Failed to spawn process: 404 Not Found".to_string())
    );
    assert_eq!(
        check_status(AgentOp::Spawn, 599),
        Err("Failed to spawn process: 599 <unknown status code>".to_string())
    );
}

#[test]
fn failed_exec_and_upload_are_errors() {
    assert_eq!(check_status(AgentOp::Exec, 500), Err("Exec request failed".to_string()));
    assert_eq!(check_status(AgentOp::Exec, 299), Ok(()));
    assert_eq!(check_status(AgentOp::Upload, 300), Err("Failed to upload file".to_string()));
    assert_eq!(check_status(AgentOp::Upload, 199), Err("Failed to upload file".to_string()));
}

#[test]
fn logs_and_controls_take_any_status() {
    for op in [AgentOp::Logs, AgentOp::Pause, AgentOp::Resume, AgentOp::Restart, AgentOp::Kill] {
        assert_eq!(check_status(op, 500), Ok(()));
        assert_eq!(check_status(op, 100), Ok(()));
    }
}

#[test]
fn exec_outcome_depends_on_the_exit_code() {
    let ok = ExecResponse { stdout: "out".into(), stderr: "err".into(), exit_code: 0 };
    assert_eq!(ok.outcome(), Ok("out".to_string()));
    let bad = ExecResponse { stdout: "out".into(), stderr: "no such file".into(), exit_code: 2 };
    assert_eq!(bad.outcome(), Err("Command failed with exit code 2: no such file".to_string()));
    let neg = ExecResponse { stdout: "".into(), stderr: "killed".into(), exit_code: -9 };
    assert_eq!(neg.outcome(), Err("Command failed with exit code -9: killed".to_string()));
}

#[test]
fn control_requests_have_no_body() {
    let c = client();
    assert_eq!(c.logs().url, "http://alice:3000/logs");
    assert_eq!(c.logs().method, HttpMethod::Get);
    assert_eq!(c.pause().url, "http://alice:3000/pause");
    assert_eq!(c.resume().url, "http://alice:3000/resume");
    assert_eq!(c.restart().url, "http://alice:3000/restart");
    assert_eq!(c.kill().url, "http://alice:3000/kill");
    assert_eq!(c.kill().method, HttpMethod::Post);
    assert_eq!(c.kill().body, RequestBody::Empty);
}

#[test]
fn uploaded_content_decodes_to_the_bytes() {
    let samples: [&[u8]; 6] = [b"", b"h", b"hi", b"hey", b"hello world~", &[0, 255, 128, 7, 63]];
    for content in samples {
        let r = client().upload_file("/x", content, "0644");
        match r.body {
            RequestBody::Upload(b) => {
                let decoded = base64::engine::general_purpose::STANDARD.decode(&b.content_b64);
                assert_eq!(decoded.as_deref(), Ok(content));
                assert_eq!(b.content_b64.len(), 4 * ((content.len() + 2) / 3));
            }
            other => panic!("unexpected body {:?}", other),
        }
    }
    let r = client().upload_file("/x", b"hi", "0644");
    assert!(matches!(r.body, RequestBody::Upload(ref b) if b.content_b64 == "aGk="));
}
