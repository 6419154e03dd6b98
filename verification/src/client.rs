//! The requests that the provider makes of the agent that runs on each
//! simulated host, and how it reads the agent's answers.

use vstd::prelude::*;
use crate::text::{decimal, decimal_u32, decimal_i32, signed_decimal};
use crate::encoding::{base64_decoded, base64_standard, lemma_base64_length, lemma_base64_round_trip};
use crate::types::copy_strings;
use crate::types::copy_pairs;

verus! {

/// The HTTP method of an agent request.
#[derive(Debug, PartialEq, Eq, Structural, Clone, Copy)]
pub enum HttpMethod {
    Get,
    Post,
}

/// The operations that the agent offers.
#[derive(Debug, PartialEq, Eq, Structural, Clone, Copy)]
pub enum AgentOp {
    /// Start the node's process.
    Spawn,
    /// Fetch the process's output.
    Logs,
    /// Run a command to completion.
    Exec,
    /// Write a file on the host.
    Upload,
    /// Stop the process for a while.
    Pause,
    /// Let a paused process go on.
    Resume,
    /// Start the process anew.
    Restart,
    /// End the process.
    Kill,
}

/// The path under the agent's address at which it takes `op`.
pub open spec fn op_path(op: AgentOp) -> Seq<char> {
    match op {
        AgentOp::Spawn => "/spawn"@,
        AgentOp::Logs => "/logs"@,
        AgentOp::Exec => "/exec"@,
        AgentOp::Upload => "/upload"@,
        AgentOp::Pause => "/pause"@,
        AgentOp::Resume => "/resume"@,
        AgentOp::Restart => "/restart"@,
        AgentOp::Kill => "/kill"@,
    }
}

/// The method with which `op` is asked for: only the logs are read with `GET`.
pub open spec fn op_method(op: AgentOp) -> HttpMethod {
    match op {
        AgentOp::Logs => HttpMethod::Get,
        _ => HttpMethod::Post,
    }
}

/// The address of the agent on `host` that listens on `port`.
pub open spec fn agent_base_url(host: Seq<char>, port: u16) -> Seq<char> {
    "http://"@ + host + ":"@ + decimal(port as nat)
}

/// What to start, or run: the program, its arguments and its environment.
#[derive(Debug, PartialEq, Eq)]
pub struct SpawnRequest {
    pub program: String,
    pub args: Vec<String>,
    pub env: Vec<(String, String)>,
}

/// A file for the agent to write: where, its content in standard base64
/// with padding, and its permission bits as text.
#[derive(Debug, PartialEq, Eq)]
pub struct UploadRequest {
    pub path: String,
    pub content_b64: String,
    pub mode: String,
}

/// The body of an agent request, which is sent as JSON.
#[derive(Debug, PartialEq, Eq)]
pub enum RequestBody {
    Empty,
    Spawn(SpawnRequest),
    Upload(UploadRequest),
}

/// A request to the agent.
#[derive(Debug, PartialEq, Eq)]
pub struct AgentRequest {
    pub method: HttpMethod,
    pub url: String,
    pub body: RequestBody,
}

/// The agent's answer to a command run: its output, its error output and
/// its exit code.
#[derive(Debug, PartialEq, Eq)]
pub struct ExecResponse {
    pub stdout: String,
    pub stderr: String,
    pub exit_code: i32,
}

/// Encodes `content` with `base64::engine::general_purpose::STANDARD`
/// (`Engine::encode`). The claim: the text is the padded standard base64 of
/// RFC 4648 that `base64_standard` spells out, which that engine writes (the
/// standard alphabet with `=` padding). The engine computes its output length
/// first and panics when that length would not fit in `usize`; a slice no
/// longer than `isize::MAX` bytes stays well below that.
#[verifier::external_body]
fn encode_base64(content: &[u8]) -> (s: String)
    requires
        content@.len() <= isize::MAX,
    ensures
        s@ == base64_standard(content@),
{
    base64::Engine::encode(&base64::engine::general_purpose::STANDARD, content)
}

/// The text that `reqwest::StatusCode` displays for the status `code`: the code
/// and its canonical reason phrase.
pub uninterp spec fn status_text(code: u16) -> Seq<char>;

/// Displays `reqwest::StatusCode::from_u16(code)` with `to_string`. The claim:
/// the text is what `status_text` names for `code`. `from_u16` accepts exactly
/// the codes from 100 to 999, which `requires` asks for.
#[verifier::external_body]
fn display_status(code: u16) -> (s: String)
    requires
        100 <= code <= 999,
    ensures
        s@ == status_text(code),
{
    match reqwest::StatusCode::from_u16(code) {
        Ok(status) => status.to_string(),
        Err(_) => String::new(),
    }
}

/// Calls `is_success` on `reqwest::StatusCode::from_u16(code)`. The claim, as
/// the `http` source shows it: the status succeeded exactly when the code is
/// from 200 to 299. `from_u16` accepts exactly the codes from 100 to 999.
#[verifier::external_body]
fn status_is_success(code: u16) -> (b: bool)
    requires
        100 <= code <= 999,
    ensures
        b == (200 <= code < 300),
{
    match reqwest::StatusCode::from_u16(code) {
        Ok(status) => status.is_success(),
        Err(_) => false,
    }
}

/// What the agent's answer with the HTTP status `code` to `op` means, before
/// its body is read: a spawn or upload that did not succeed is an error, and
/// so is a command run; logs and the process controls take any status.
pub open spec fn status_outcome(op: AgentOp, code: u16) -> Result<(), Seq<char>> {
    if 200 <= code < 300 {
        Ok(())
    } else {
        match op {
            AgentOp::Spawn => Err("Failed to spawn process: "@ + status_text(code)),
            AgentOp::Exec => Err("Exec request failed"@),
            AgentOp::Upload => Err("Failed to upload file"@),
            _ => Ok(()),
        }
    }
}

/// What a command run gives, from the agent's answer: its output when it
/// exited with code 0, else a message with the exit code and error output.
pub open spec fn exec_outcome(reply: (Seq<char>, Seq<char>, i32)) -> Result<Seq<char>, Seq<char>> {
    if reply.2 == 0 {
        Ok(reply.0)
    } else {
        Err("Command failed with exit code "@ + signed_decimal(reply.2 as int) + ": "@ + reply.1)
    }
}

/// For a spawn, a command run or an upload, the agent's answer is taken as a
/// success exactly when its status is from 200 to 299; the answers to logs
/// and to the process controls are taken whatever their status.
pub proof fn lemma_status_outcome(op: AgentOp, code: u16)
    requires
        100 <= code <= 999,
    ensures
        (op == AgentOp::Spawn || op == AgentOp::Exec || op == AgentOp::Upload) ==> (status_outcome(
            op,
            code,
        ) is Ok <==> 200 <= code < 300),
        !(op == AgentOp::Spawn || op == AgentOp::Exec || op == AgentOp::Upload) ==> status_outcome(
            op,
            code,
        ) is Ok,
        op == AgentOp::Upload && !(200 <= code < 300) ==> status_outcome(op, code) == Err::<
            (),
            Seq<char>,
        >("Failed to upload file"@),
        op == AgentOp::Exec && !(200 <= code < 300) ==> status_outcome(op, code) == Err::<
            (),
            Seq<char>,
        >("Exec request failed"@),
{
}

/// A command run succeeds exactly when it exited with code 0, whatever it
/// wrote; its result is then its output, and otherwise a message that ends
/// with its error output.
pub proof fn lemma_exec_outcome(stdout: Seq<char>, stderr: Seq<char>, code: i32)
    ensures
        exec_outcome((stdout, stderr, code)) is Ok <==> code == 0,
        code == 0 ==> exec_outcome((stdout, stderr, code)) == Ok::<Seq<char>, Seq<char>>(stdout),
        exec_outcome((stdout, stderr, code)) matches Err(m) ==> m.len() >= stderr.len() && m.skip(
            m.len() - stderr.len(),
        ) == stderr,
{
    if code != 0 {
        let m = "Command failed with exit code "@ + signed_decimal(code as int) + ": "@ + stderr;
        assert(m.skip(m.len() - stderr.len()) =~= stderr);
    }
}

/// Reads the HTTP status `code` of the agent's answer to `op`.
pub fn check_status(op: AgentOp, code: u16) -> (r: Result<(), String>)
    requires
        100 <= code <= 999,
    ensures
        match (r, status_outcome(op, code)) {
            (Ok(_), Ok(_)) => true,
            (Err(m), Err(n)) => m@ == n,
            _ => false,
        },
        (op == AgentOp::Spawn || op == AgentOp::Exec || op == AgentOp::Upload) ==> (r is Ok <==> 200
            <= code < 300),
        !(op == AgentOp::Spawn || op == AgentOp::Exec || op == AgentOp::Upload) ==> r is Ok,
{
    proof {
        lemma_status_outcome(op, code);
    }
    if status_is_success(code) {
        return Ok(());
    }
    match op {
        AgentOp::Spawn => {
            let mut m = String::from_str("Failed to spawn process: ");
            let text = display_status(code);
            m.append(text.as_str());
            Err(m)
        },
        AgentOp::Exec => Err(String::from_str("Exec request failed")),
        AgentOp::Upload => Err(String::from_str("Failed to upload file")),
        _ => Ok(()),
    }
}

impl ExecResponse {
    /// The output of the command, or why it failed.
    pub fn outcome(self) -> (r: Result<String, String>)
        ensures
            match (r, exec_outcome((self.stdout@, self.stderr@, self.exit_code))) {
                (Ok(out), Ok(expected)) => out@ == expected,
                (Err(m), Err(expected)) => m@ == expected,
                _ => false,
            },
            r is Ok <==> self.exit_code == 0,
            r matches Ok(out) ==> out@ == self.stdout@,
    {
        proof {
            lemma_exec_outcome(self.stdout@, self.stderr@, self.exit_code);
        }
        if self.exit_code == 0 {
            Ok(self.stdout)
        } else {
            let mut m = String::from_str("Command failed with exit code ");
            let code = decimal_i32(self.exit_code);
            m.append(code.as_str());
            m.append(": ");
            m.append(self.stderr.as_str());
            Err(m)
        }
    }
}

/// The address of the agent on one simulated host.
pub struct ShadowAgentClient {
    base_url: String,
}

impl ShadowAgentClient {
    /// The address of the agent: `http://`, the host, `:` and the port.
    pub closed spec fn url(&self) -> Seq<char> {
        self.base_url@
    }

    /// A client of the agent on `host` that listens on `port`.
    pub fn new(host: &str, port: u16) -> (c: Self)
        ensures
            c.url() == agent_base_url(host@, port),
    {
        let mut base_url = String::from_str("http://");
        base_url.append(host);
        base_url.append(":");
        let digits = decimal_u32(port as u32);
        base_url.append(digits.as_str());
        ShadowAgentClient { base_url }
    }

    /// The address of the agent.
    pub fn base_url(&self) -> (s: &str)
        ensures
            s@ == self.url(),
    {
        self.base_url.as_str()
    }

    /// The address at which the agent takes `op`.
    pub fn endpoint(&self, op: AgentOp) -> (s: String)
        ensures
            s@ == self.url() + op_path(op),
    {
        let mut s = self.base_url.clone();
        let path = match op {
            AgentOp::Spawn => "/spawn",
            AgentOp::Logs => "/logs",
            AgentOp::Exec => "/exec",
            AgentOp::Upload => "/upload",
            AgentOp::Pause => "/pause",
            AgentOp::Resume => "/resume",
            AgentOp::Restart => "/restart",
            AgentOp::Kill => "/kill",
        };
        s.append(path);
        s
    }

    /// A request for `op` with no body (logs and the process controls).
    pub fn request(&self, op: AgentOp) -> (r: AgentRequest)
        ensures
            r.method == op_method(op),
            r.url@ == self.url() + op_path(op),
            r.body is Empty,
    {
        let method = match op {
            AgentOp::Logs => HttpMethod::Get,
            _ => HttpMethod::Post,
        };
        AgentRequest { method, url: self.endpoint(op), body: RequestBody::Empty }
    }

    /// The request that fetches the process's output.
    pub fn logs(&self) -> (r: AgentRequest)
        ensures
            r.method == HttpMethod::Get,
            r.url@ == self.url() + "/logs"@,
            r.body is Empty,
    {
        self.request(AgentOp::Logs)
    }

    /// The request that pauses the process.
    pub fn pause(&self) -> (r: AgentRequest)
        ensures
            r.method == HttpMethod::Post,
            r.url@ == self.url() + "/pause"@,
            r.body is Empty,
    {
        self.request(AgentOp::Pause)
    }

    /// The request that lets the paused process go on.
    pub fn resume(&self) -> (r: AgentRequest)
        ensures
            r.method == HttpMethod::Post,
            r.url@ == self.url() + "/resume"@,
            r.body is Empty,
    {
        self.request(AgentOp::Resume)
    }

    /// The request that restarts the process.
    pub fn restart(&self) -> (r: AgentRequest)
        ensures
            r.method == HttpMethod::Post,
            r.url@ == self.url() + "/restart"@,
            r.body is Empty,
    {
        self.request(AgentOp::Restart)
    }

    /// The request that ends the process.
    pub fn kill(&self) -> (r: AgentRequest)
        ensures
            r.method == HttpMethod::Post,
            r.url@ == self.url() + "/kill"@,
            r.body is Empty,
    {
        self.request(AgentOp::Kill)
    }

    /// The request that starts `program` with `args` and `env` as the node's process.
    pub fn spawn(&self, program: &str, args: &Vec<String>, env: &Vec<(String, String)>) -> (r:
        AgentRequest)
        ensures
            r.method == HttpMethod::Post,
            r.url@ == self.url() + "/spawn"@,
            r.body matches RequestBody::Spawn(b) && b.program@ == program@ && b.args@ == args@
                && b.env@ == env@,
    {
        let body = SpawnRequest {
            program: program.to_owned(),
            args: copy_strings(args),
            env: copy_pairs(env),
        };
        AgentRequest {
            method: HttpMethod::Post,
            url: self.endpoint(AgentOp::Spawn),
            body: RequestBody::Spawn(body),
        }
    }

    /// The request that runs `program` with `args` and `env` to completion.
    pub fn exec(&self, program: &str, args: &Vec<String>, env: &Vec<(String, String)>) -> (r:
        AgentRequest)
        ensures
            r.method == HttpMethod::Post,
            r.url@ == self.url() + "/exec"@,
            r.body matches RequestBody::Spawn(b) && b.program@ == program@ && b.args@ == args@
                && b.env@ == env@,
    {
        let body = SpawnRequest {
            program: program.to_owned(),
            args: copy_strings(args),
            env: copy_pairs(env),
        };
        AgentRequest {
            method: HttpMethod::Post,
            url: self.endpoint(AgentOp::Exec),
            body: RequestBody::Spawn(body),
        }
    }

    /// The request that writes `content` to `path` on the host with permission bits `mode`.
    pub fn upload_file(&self, path: &str, content: &[u8], mode: &str) -> (r: AgentRequest)
        requires
            content@.len() <= isize::MAX,
        ensures
            r.method == HttpMethod::Post,
            r.url@ == self.url() + "/upload"@,
            r.body matches RequestBody::Upload(b) && b.path@ == path@ && b.content_b64@
                == base64_standard(content@) && b.content_b64@.len() == 4 * ((content@.len() + 2)
                / 3) && base64_decoded(b.content_b64@) == content@ && b.mode@ == mode@,
    {
        proof {
            lemma_base64_length(content@);
            lemma_base64_round_trip(content@);
        }
        let body = UploadRequest {
            path: path.to_owned(),
            content_b64: encode_base64(content),
            mode: mode.to_owned(),
        };
        AgentRequest {
            method: HttpMethod::Post,
            url: self.endpoint(AgentOp::Upload),
            body: RequestBody::Upload(body),
        }
    }
}

} // verus!
