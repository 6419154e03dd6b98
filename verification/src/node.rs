//! A node on a simulated host: where its files lie, how it is set up through
//! the agent, and how the outcome of each operation on it is reported.

use vstd::prelude::*;
use crate::client::{AgentRequest, HttpMethod, ShadowAgentClient, agent_base_url};
use crate::text::{joined_path, join_path, string_views, str_views};
use crate::types::{
    ProviderError, ProviderErrorView, RunCommandOptions, TransferedFile, copy_strings, copy_pairs,
    copy_files,
};

verus! {

/// Below a node's directory: its configuration.
pub const NODE_CONFIG_DIR: &'static str = "/cfg";

/// Below a node's directory: its data.
pub const NODE_DATA_DIR: &'static str = "/data";

/// Below a node's directory: the data of its relay chain.
pub const NODE_RELAY_DATA_DIR: &'static str = "/relay-data";

/// Below a node's directory: its scripts.
pub const NODE_SCRIPTS_DIR: &'static str = "/scripts";

/// What a node is made from.
pub struct ShadowNodeOptions {
    /// The directory of the node's namespace.
    pub namespace_base_dir: String,
    /// The node's name, which is also the name of its simulated host.
    pub name: String,
    pub program: String,
    pub args: Vec<String>,
    pub env: Vec<(String, String)>,
    /// Files to place on the host before the process starts.
    pub startup_files: Vec<TransferedFile>,
    /// Directories to create on the host before the process starts.
    pub created_paths: Vec<String>,
    /// Where the node's log goes, when not in its own directory.
    pub node_log_path: Option<String>,
    /// The host of the node's agent, when it is not the node's own host.
    pub agent_host: Option<String>,
    pub agent_port: u16,
}

/// A node on a simulated host.
pub struct ShadowNode {
    name: String,
    program: String,
    args: Vec<String>,
    env: Vec<(String, String)>,
    base_dir: String,
    config_dir: String,
    data_dir: String,
    relay_data_dir: String,
    scripts_dir: String,
    log_path: String,
    provider_tag: String,
    client: ShadowAgentClient,
}

/// The directory of the node `name` in the namespace directory `namespace_dir`.
pub open spec fn node_base_dir(namespace_dir: Seq<char>, name: Seq<char>) -> Seq<char> {
    joined_path(namespace_dir, name)
}

/// Where the node's log goes: the given path, else `<name>.log` in its directory.
pub open spec fn node_log_path(
    namespace_dir: Seq<char>,
    name: Seq<char>,
    given: Option<Seq<char>>,
) -> Seq<char> {
    match given {
        Some(p) => p,
        None => joined_path(node_base_dir(namespace_dir, name), name + ".log"@),
    }
}

/// The text view of an optional string.
pub open spec fn opt_view(o: Option<String>) -> Option<Seq<char>> {
    match o {
        Some(s) => Some(s@),
        None => None,
    }
}

/// An IPv4 or IPv6 address that a host name resolved to; only the four parts
/// of an IPv4 address matter here.
#[derive(Debug, PartialEq, Eq, Structural, Clone, Copy)]
pub enum ResolvedAddr {
    V4(u8, u8, u8, u8),
    V6,
}

/// Whether `a` is an IPv4 address in the network `10.0.0.0/8` that the
/// simulator hands out to hosts.
pub open spec fn is_simulation_addr(a: ResolvedAddr) -> bool {
    a matches ResolvedAddr::V4(first, _, _, _) && first == 10
}

/// The first of `addrs` that lies in `10.0.0.0/8`.
pub open spec fn first_simulation_addr(addrs: Seq<ResolvedAddr>) -> Option<(u8, u8, u8, u8)>
    decreases addrs.len(),
{
    if addrs.len() == 0 {
        None
    } else if is_simulation_addr(addrs[0]) {
        match addrs[0] {
            ResolvedAddr::V4(a, b, c, d) => Some((a, b, c, d)),
            ResolvedAddr::V6 => None,
        }
    } else {
        first_simulation_addr(addrs.drop_first())
    }
}

/// The address chosen from a lookup is the earliest IPv4 address in
/// `10.0.0.0/8`: when the addresses before position `i` all lie outside that
/// network and the one at `i` is `10.b.c.d`, the choice is `10.b.c.d`; and
/// nothing is chosen exactly when no address lies in it.
pub proof fn lemma_first_simulation_addr(addrs: Seq<ResolvedAddr>)
    ensures
        first_simulation_addr(addrs) is None <==> (forall|i: int|
            0 <= i < addrs.len() ==> !(#[trigger] addrs[i] is V4 && addrs[i]->0 == 10)),
        forall|i: int|
            0 <= i < addrs.len() && #[trigger] addrs[i] is V4 && addrs[i]->0 == 10 && (forall|
                j: int,
            | 0 <= j < i ==> !(#[trigger] addrs[j] is V4 && addrs[j]->0 == 10))
                ==> first_simulation_addr(addrs) == Some(
                (addrs[i]->0, addrs[i]->1, addrs[i]->2, addrs[i]->3),
            ),
    decreases addrs.len(),
{
    if addrs.len() > 0 {
        let rest = addrs.drop_first();
        lemma_first_simulation_addr(rest);
        assert forall|i: int| 0 <= i < rest.len() implies rest[i] == addrs[i + 1] by {}
        if !is_simulation_addr(addrs[0]) {
            assert forall|i: int|
                0 <= i < addrs.len() && #[trigger] addrs[i] is V4 && addrs[i]->0 == 10 && (forall|
                    j: int,
                | 0 <= j < i ==> !(#[trigger] addrs[j] is V4 && addrs[j]->0 == 10))
                implies first_simulation_addr(addrs) == Some(
                (addrs[i]->0, addrs[i]->1, addrs[i]->2, addrs[i]->3),
            ) by {
                assert(i > 0);
                assert(rest[i - 1] == addrs[i]);
                assert forall|j: int| 0 <= j < i - 1 implies !(#[trigger] rest[j] is V4
                    && rest[j]->0 == 10) by {
                    assert(rest[j] == addrs[j + 1]);
                }
            }
            if first_simulation_addr(addrs) is None {
                assert forall|i: int| 0 <= i < addrs.len() implies !(#[trigger] addrs[i] is V4
                    && addrs[i]->0 == 10) by {
                    if i > 0 {
                        assert(rest[i - 1] == addrs[i]);
                    }
                }
            }
        }
    }
}

/// An operation on a node, for the error that reports its failure.
pub enum NodeOp {
    StartProcess,
    Logs,
    /// Running the named program.
    RunCommand(String),
    /// Sending a file to the given remote path.
    SendFile(String),
    Pause,
    Resume,
    Restart,
    Destroy,
}

/// The error that reports that `op` failed on the node `node` with `message`.
pub open spec fn op_error(op: NodeOp, node: Seq<char>, message: Seq<char>) -> ProviderErrorView {
    match op {
        NodeOp::StartProcess => ProviderErrorView::NodeSpawningFailed(node, message),
        NodeOp::Logs => ProviderErrorView::GetLogsFailed(node, message),
        NodeOp::RunCommand(program) => ProviderErrorView::RunCommandError(program@, node, message),
        NodeOp::SendFile(remote) => ProviderErrorView::SendFile(node, remote@, message),
        NodeOp::Pause => ProviderErrorView::PauseNodeFailed(node, message),
        NodeOp::Resume => ProviderErrorView::ResumeNodeFailed(node, message),
        NodeOp::Restart => ProviderErrorView::RestartNodeFailed(node, message),
        NodeOp::Destroy => ProviderErrorView::DestroyNodeFailed(node, message),
    }
}

/// The host name and port that a node's address is looked up with.
pub open spec fn lookup_target(name: Seq<char>) -> Seq<char> {
    name + ":0"@
}

/// What a node's address is: the first address of its host in
/// `10.0.0.0/8`; a failed lookup, or one without such an address, is an
/// invalid configuration.
pub open spec fn ip_outcome(name: Seq<char>, lookup: Result<Seq<ResolvedAddr>, Seq<char>>) -> Result<
    (u8, u8, u8, u8),
    ProviderErrorView,
> {
    match lookup {
        Err(m) => Err(
            ProviderErrorView::InvalidConfig("Failed to resolve host "@ + name + ": "@ + m),
        ),
        Ok(addrs) => match first_simulation_addr(addrs) {
            Some(ip) => Ok(ip),
            None => Err(ProviderErrorView::InvalidConfig("No 10.x.x.x IP found for "@ + name)),
        },
    }
}

/// The text that the standard library's `Debug` shows for the path `s`: the
/// path in double quotes, with special characters escaped.
pub uninterp spec fn path_debug_text(s: Seq<char>) -> Seq<char>;

/// Formats `std::path::Path::new(s)` with `{:?}`. The claim: the text is what
/// `path_debug_text` names for `s`.
#[verifier::external_body]
fn path_debug(s: &str) -> (r: String)
    ensures
        r@ == path_debug_text(s@),
{
    format!("{:?}", std::path::Path::new(s))
}

fn concat(a: &str, b: &str) -> (r: String)
    ensures
        r@ == a@ + b@,
{
    let mut r = String::from_str(a);
    r.append(b);
    r
}

impl ShadowNode {
    pub closed spec fn spec_name(&self) -> Seq<char> {
        self.name@
    }

    pub closed spec fn spec_program(&self) -> Seq<char> {
        self.program@
    }

    pub closed spec fn spec_args(&self) -> Seq<Seq<char>> {
        string_views(self.args@)
    }

    pub closed spec fn spec_env(&self) -> Seq<(String, String)> {
        self.env@
    }

    pub closed spec fn spec_base_dir(&self) -> Seq<char> {
        self.base_dir@
    }

    pub closed spec fn spec_config_dir(&self) -> Seq<char> {
        self.config_dir@
    }

    pub closed spec fn spec_data_dir(&self) -> Seq<char> {
        self.data_dir@
    }

    pub closed spec fn spec_relay_data_dir(&self) -> Seq<char> {
        self.relay_data_dir@
    }

    pub closed spec fn spec_scripts_dir(&self) -> Seq<char> {
        self.scripts_dir@
    }

    pub closed spec fn spec_log_path(&self) -> Seq<char> {
        self.log_path@
    }

    pub closed spec fn spec_provider_tag(&self) -> Seq<char> {
        self.provider_tag@
    }

    /// The address of the node's agent.
    pub closed spec fn spec_agent_url(&self) -> Seq<char> {
        self.client.url()
    }

    /// The node that `options` describe: its directory is its name in the
    /// namespace directory, its configuration, data, relay data and scripts
    /// directories are that directory followed by `/cfg`, `/data`,
    /// `/relay-data` and `/scripts`, and its agent listens on its own host
    /// unless another is given.
    pub fn new(options: &ShadowNodeOptions) -> (node: Self)
        ensures
            node.spec_name() == options.name@,
            node.spec_program() == options.program@,
            node.spec_args() == string_views(options.args@),
            node.spec_env() == options.env@,
            node.spec_base_dir() == node_base_dir(options.namespace_base_dir@, options.name@),
            node.spec_config_dir() == node.spec_base_dir() + "/cfg"@,
            node.spec_data_dir() == node.spec_base_dir() + "/data"@,
            node.spec_relay_data_dir() == node.spec_base_dir() + "/relay-data"@,
            node.spec_scripts_dir() == node.spec_base_dir() + "/scripts"@,
            node.spec_log_path() == node_log_path(
                options.namespace_base_dir@,
                options.name@,
                opt_view(options.node_log_path),
            ),
            node.spec_provider_tag() == "shadow"@,
            node.spec_agent_url() == agent_base_url(
                match opt_view(options.agent_host) {
                    Some(h) => h,
                    None => options.name@,
                },
                options.agent_port,
            ),
    {
        let base_dir = join_path(options.namespace_base_dir.as_str(), options.name.as_str());
        let config_dir = concat(base_dir.as_str(), NODE_CONFIG_DIR);
        let data_dir = concat(base_dir.as_str(), NODE_DATA_DIR);
        let relay_data_dir = concat(base_dir.as_str(), NODE_RELAY_DATA_DIR);
        let scripts_dir = concat(base_dir.as_str(), NODE_SCRIPTS_DIR);
        let log_path = match &options.node_log_path {
            Some(p) => p.clone(),
            None => {
                let file = concat(options.name.as_str(), ".log");
                join_path(base_dir.as_str(), file.as_str())
            },
        };
        let client = match &options.agent_host {
            Some(h) => ShadowAgentClient::new(h.as_str(), options.agent_port),
            None => ShadowAgentClient::new(options.name.as_str(), options.agent_port),
        };
        ShadowNode {
            name: options.name.clone(),
            program: options.program.clone(),
            args: copy_strings(&options.args),
            env: copy_pairs(&options.env),
            base_dir,
            config_dir,
            data_dir,
            relay_data_dir,
            scripts_dir,
            log_path,
            provider_tag: String::from_str("shadow"),
            client,
        }
    }

    pub fn name(&self) -> (s: &str)
        ensures
            s@ == self.spec_name(),
    {
        self.name.as_str()
    }

    /// The arguments that the node's process is started with.
    pub fn args(&self) -> (r: Vec<&str>)
        ensures
            str_views(r@) == self.spec_args(),
    {
        let mut r: Vec<&str> = Vec::new();
        let mut i: usize = 0;
        while i < self.args.len()
            invariant
                i <= self.args@.len(),
                str_views(r@) == string_views(self.args@).take(i as int),
            decreases self.args@.len() - i,
        {
            let ghost before = r@;
            r.push(self.args[i].as_str());
            assert(str_views(before).len() == i);
            assert(str_views(r@) =~= string_views(self.args@).take(i + 1)) by {
                assert forall|k: int| 0 <= k < i + 1 implies #[trigger] str_views(r@)[k] == string_views(self.args@).take(i + 1)[k] by {
                    if k < i {
                        assert(str_views(before)[k] == string_views(self.args@).take(
                            i as int,
                        )[k]);
                    }
                }
            }
            i = i + 1;
        }
        assert(string_views(self.args@).take(self.args@.len() as int) =~= string_views(
            self.args@,
        ));
        r
    }

    /// The program of the node's process.
    pub fn program(&self) -> (s: &str)
        ensures
            s@ == self.spec_program(),
    {
        self.program.as_str()
    }

    /// The environment of the node's process.
    pub fn env(&self) -> (e: &Vec<(String, String)>)
        ensures
            e@ == self.spec_env(),
    {
        &self.env
    }

    pub fn base_dir(&self) -> (s: &str)
        ensures
            s@ == self.spec_base_dir(),
    {
        self.base_dir.as_str()
    }

    pub fn config_dir(&self) -> (s: &str)
        ensures
            s@ == self.spec_config_dir(),
    {
        self.config_dir.as_str()
    }

    pub fn data_dir(&self) -> (s: &str)
        ensures
            s@ == self.spec_data_dir(),
    {
        self.data_dir.as_str()
    }

    pub fn relay_data_dir(&self) -> (s: &str)
        ensures
            s@ == self.spec_relay_data_dir(),
    {
        self.relay_data_dir.as_str()
    }

    pub fn scripts_dir(&self) -> (s: &str)
        ensures
            s@ == self.spec_scripts_dir(),
    {
        self.scripts_dir.as_str()
    }

    pub fn log_path(&self) -> (s: &str)
        ensures
            s@ == self.spec_log_path(),
    {
        self.log_path.as_str()
    }

    /// The tag of the provider that made the node.
    pub fn provider_tag(&self) -> (s: &str)
        ensures
            s@ == self.spec_provider_tag(),
    {
        self.provider_tag.as_str()
    }

    /// The node's agent.
    pub fn client(&self) -> (c: &ShadowAgentClient)
        ensures
            c.url() == self.spec_agent_url(),
    {
        &self.client
    }

    /// The command that follows the node's log.
    pub fn log_cmd(&self) -> (s: String)
        ensures
            s@ == "tail -f "@ + path_debug_text(self.spec_log_path()),
    {
        let shown = path_debug(self.log_path.as_str());
        concat("tail -f ", shown.as_str())
    }

    /// Where a file of the host is seen from the node: at the same path.
    pub fn path_in_node(&self, file: &str) -> (s: String)
        ensures
            s@ == file@,
    {
        file.to_owned()
    }

    /// The request that starts the node's process.
    pub fn start_process_request(&self) -> (r: AgentRequest)
        ensures
            r.method == HttpMethod::Post,
            r.url@ == self.spec_agent_url() + "/spawn"@,
            r.body matches crate::client::RequestBody::Spawn(b) && b.program@
                == self.spec_program() && string_views(b.args@) == self.spec_args() && b.env@
                == self.spec_env(),
    {
        self.client.spawn(self.program.as_str(), &self.args, &self.env)
    }

    /// The request that runs the command `options` on the node.
    pub fn run_command_request(&self, options: &RunCommandOptions) -> (r: AgentRequest)
        ensures
            r.method == HttpMethod::Post,
            r.url@ == self.spec_agent_url() + "/exec"@,
            r.body matches crate::client::RequestBody::Spawn(b) && b.program@ == options.program@
                && b.args@ == options.args@ && b.env@ == options.env@,
    {
        self.client.exec(options.program.as_str(), &options.args, &options.env)
    }

    /// The error that reports that `op` failed on this node with `message`.
    pub fn op_error(&self, op: NodeOp, message: String) -> (e: ProviderError)
        ensures
            e@ == op_error(op, self.spec_name(), message@),
    {
        let node = self.name.clone();
        match op {
            NodeOp::StartProcess => ProviderError::NodeSpawningFailed(node, message),
            NodeOp::Logs => ProviderError::GetLogsFailed(node, message),
            NodeOp::RunCommand(program) => ProviderError::RunCommandError(program, node, message),
            NodeOp::SendFile(remote) => ProviderError::SendFile(node, remote, message),
            NodeOp::Pause => ProviderError::PauseNodeFailed(node, message),
            NodeOp::Resume => ProviderError::ResumeNodeFailed(node, message),
            NodeOp::Restart => ProviderError::RestartNodeFailed(node, message),
            NodeOp::Destroy => ProviderError::DestroyNodeFailed(node, message),
        }
    }

    /// The outcome of `op` on this node: its value, or the error that reports
    /// the failure.
    pub fn settle<T>(&self, op: NodeOp, outcome: Result<T, String>) -> (r: Result<T, ProviderError>)
        ensures
            match outcome {
                Ok(v) => r == Ok::<T, ProviderError>(v),
                Err(m) => r matches Err(e) && e@ == op_error(op, self.spec_name(), m@),
            },
    {
        match outcome {
            Ok(v) => Ok(v),
            Err(m) => Err(self.op_error(op, m)),
        }
    }

    /// Running a script is not offered on these nodes.
    pub fn run_script(&self) -> (e: ProviderError)
        ensures
            e@ == ProviderErrorView::RunScriptError(self.spec_name(), "Not implemented"@),
    {
        ProviderError::RunScriptError(self.name.clone(), String::from_str("Not implemented"))
    }

    /// The host name and port that the node's address is looked up with.
    pub fn lookup_target(&self) -> (s: String)
        ensures
            s@ == lookup_target(self.spec_name()),
    {
        concat(self.name.as_str(), ":0")
    }

    /// The node's address, from the lookup of its host.
    pub fn ip(&self, lookup: Result<Vec<ResolvedAddr>, String>) -> (r: Result<
        (u8, u8, u8, u8),
        ProviderError,
    >)
        ensures
            match (r, ip_outcome(
                self.spec_name(),
                match lookup {
                    Ok(v) => Ok(v@),
                    Err(m) => Err(m@),
                },
            )) {
                (Ok(a), Ok(b)) => a == b,
                (Err(e), Err(f)) => e@ == f,
                _ => false,
            },
    {
        match lookup {
            Err(m) => {
                let mut text = String::from_str("Failed to resolve host ");
                text.append(self.name.as_str());
                text.append(": ");
                text.append(m.as_str());
                Err(ProviderError::InvalidConfig(text))
            },
            Ok(addrs) => match select_simulation_addr(&addrs) {
                Some(ip) => Ok(ip),
                None => Err(
                    ProviderError::InvalidConfig(concat("No 10.x.x.x IP found for ", self.name.as_str())),
                ),
            },
        }
    }
}

/// The first of `addrs` that lies in `10.0.0.0/8`.
pub fn select_simulation_addr(addrs: &Vec<ResolvedAddr>) -> (r: Option<(u8, u8, u8, u8)>)
    ensures
        r == first_simulation_addr(addrs@),
        r is None <==> (forall|i: int|
            0 <= i < addrs@.len() ==> !(#[trigger] addrs@[i] is V4 && addrs@[i]->0 == 10)),
        forall|i: int|
            0 <= i < addrs@.len() && #[trigger] addrs@[i] is V4 && addrs@[i]->0 == 10 && (forall|
                j: int,
            | 0 <= j < i ==> !(#[trigger] addrs@[j] is V4 && addrs@[j]->0 == 10)) ==> r == Some(
                (addrs@[i]->0, addrs@[i]->1, addrs@[i]->2, addrs@[i]->3),
            ),
{
    proof {
        lemma_first_simulation_addr(addrs@);
    }
    let n = addrs.len();
    let mut i: usize = 0;
    assert(addrs@.skip(0) =~= addrs@);
    while i < n
        invariant
            i <= n,
            n == addrs@.len(),
            first_simulation_addr(addrs@) == first_simulation_addr(addrs@.skip(i as int)),
        decreases n - i,
    {
        let a = addrs[i];
        assert(addrs@.skip(i as int)[0] == a);
        assert(addrs@.skip(i as int).drop_first() =~= addrs@.skip(i + 1));
        match a {
            ResolvedAddr::V4(first, b, c, d) => {
                if first == 10 {
                    proof {
                        lemma_first_simulation_addr(addrs@);
                    }
                    return Some((first, b, c, d));
                }
            },
            ResolvedAddr::V6 => {},
        }
        i = i + 1;
    }
    assert(addrs@.skip(n as int).len() == 0);
    None
}

/// A step in setting a node up.
#[derive(Debug, PartialEq, Eq)]
pub enum SetupAction {
    /// Run a command on the node.
    RunCommand(RunCommandOptions),
    /// Send a file to the node.
    SendFile(TransferedFile),
    /// Start the node's process.
    StartProcess,
}

/// How a step of the setup went.
#[derive(Debug, PartialEq, Eq)]
pub enum SetupEvent {
    /// The step was done.
    Succeeded,
    /// The agent refused the step, or could not be reached: the message.
    AgentFailed(String),
    /// The local file to send could not be read: the message.
    LocalReadFailed(String),
}

/// A setup step, with its texts as character sequences.
pub enum PlannedStep {
    /// Create the directory on the host.
    CreatePath(Seq<char>),
    /// Send the file: local path, remote path, mode.
    SendFile(Seq<char>, Seq<char>, Seq<char>),
    StartProcess,
}

/// The steps that set a node up, in order: create each directory, send each
/// file, then start the process.
pub open spec fn setup_plan(paths: Seq<Seq<char>>, files: Seq<TransferedFile>) -> Seq<PlannedStep> {
    paths.map_values(|p: Seq<char>| PlannedStep::CreatePath(p)) + files.map_values(
        |f: TransferedFile| PlannedStep::SendFile(f.local_path@, f.remote_path@, f.mode@),
    ) + seq![PlannedStep::StartProcess]
}

/// The setup plan has one step per directory to create, in order, then one
/// step per file to send, in order, then the start of the process, and no
/// other step.
pub proof fn lemma_setup_plan(paths: Seq<Seq<char>>, files: Seq<TransferedFile>)
    ensures
        setup_plan(paths, files).len() == paths.len() + files.len() + 1,
        forall|i: int|
            0 <= i < paths.len() ==> #[trigger] setup_plan(paths, files)[i]
                == PlannedStep::CreatePath(paths[i]),
        forall|j: int|
            0 <= j < files.len() ==> #[trigger] setup_plan(paths, files)[paths.len() + j]
                == PlannedStep::SendFile(files[j].local_path@, files[j].remote_path@, files[j].mode@),
        setup_plan(paths, files)[paths.len() + files.len() as int] == PlannedStep::StartProcess,
{
}

/// The command that creates the directory `path` with its parents.
pub open spec fn is_mkdir_command(c: RunCommandOptions, path: Seq<char>) -> bool {
    &&& c.program@ == "mkdir"@
    &&& string_views(c.args@) == seq!["-p"@, path]
    &&& c.env@.len() == 0
}

/// Whether `a` carries out the planned step `s`.
pub open spec fn carries_out(a: SetupAction, s: PlannedStep) -> bool {
    match (a, s) {
        (SetupAction::RunCommand(c), PlannedStep::CreatePath(p)) => is_mkdir_command(c, p),
        (SetupAction::SendFile(f), PlannedStep::SendFile(l, r, m)) => f.local_path@ == l
            && f.remote_path@ == r && f.mode@ == m,
        (SetupAction::StartProcess, PlannedStep::StartProcess) => true,
        _ => false,
    }
}

/// The error that reports that the planned step `s` of the node `node` failed.
pub open spec fn step_error(node: Seq<char>, s: PlannedStep, e: SetupEvent) -> ProviderErrorView {
    match e {
        SetupEvent::LocalReadFailed(m) => ProviderErrorView::FileSystemError(m@),
        SetupEvent::AgentFailed(m) => match s {
            PlannedStep::CreatePath(_) => ProviderErrorView::RunCommandError(
                "mkdir"@,
                node,
                m@,
            ),
            PlannedStep::SendFile(_, r, _) => ProviderErrorView::SendFile(node, r, m@),
            PlannedStep::StartProcess => ProviderErrorView::NodeSpawningFailed(node, m@),
        },
        SetupEvent::Succeeded => ProviderErrorView::FileSystemError(Seq::empty()),
    }
}

/// The setting up of one node: the steps of its plan are taken one at a
/// time, and the first that fails ends it.
pub struct NodeSetup {
    node: String,
    created_paths: Vec<String>,
    startup_files: Vec<TransferedFile>,
    done: usize,
    failure: Option<ProviderError>,
}

impl NodeSetup {
    /// The node being set up.
    pub closed spec fn spec_node(&self) -> Seq<char> {
        self.node@
    }

    /// The steps of the setup.
    pub closed spec fn plan(&self) -> Seq<PlannedStep> {
        setup_plan(string_views(self.created_paths@), self.startup_files@)
    }

    /// How many steps have been done.
    pub closed spec fn steps_done(&self) -> nat {
        self.done as nat
    }

    /// Why the setup failed, if it did.
    pub closed spec fn spec_failure(&self) -> Option<ProviderErrorView> {
        match self.failure {
            Some(e) => Some(e@),
            None => None,
        }
    }

    /// Whether the setup still has a step to take.
    pub open spec fn active(&self) -> bool {
        self.spec_failure() is None && self.steps_done() < self.plan().len()
    }

    pub closed spec fn well_formed(&self) -> bool {
        &&& self.done <= self.plan().len()
        &&& self.created_paths@.len() + self.startup_files@.len() + 1 <= usize::MAX
    }

    /// The setup of the node `options` describe, with no step taken yet.
    pub fn new(options: &ShadowNodeOptions) -> (s: Self)
        requires
            options.created_paths@.len() + options.startup_files@.len() + 1 <= usize::MAX,
        ensures
            s.well_formed(),
            s.spec_node() == options.name@,
            s.plan() == setup_plan(string_views(options.created_paths@), options.startup_files@),
            s.steps_done() == 0,
            s.spec_failure() is None,
    {
        NodeSetup {
            node: options.name.clone(),
            created_paths: copy_strings(&options.created_paths),
            startup_files: copy_files(&options.startup_files),
            done: 0,
            failure: None,
        }
    }

    /// The next step to take; none once every step is done or one failed.
    /// The process is started only after every directory was created and
    /// every file sent.
    pub fn next_action(&self) -> (a: Option<SetupAction>)
        requires
            self.well_formed(),
        ensures
            a is Some <==> self.active(),
            a matches Some(act) ==> carries_out(act, self.plan()[self.steps_done() as int]),
            a matches Some(SetupAction::StartProcess) ==> self.steps_done() == self.plan().len()
                - 1,
    {
        if self.failure.is_some() {
            return None;
        }
        let paths = self.created_paths.len();
        let files = self.startup_files.len();
        let ghost plan = self.plan();
        let ghost path_steps = string_views(self.created_paths@).map_values(
            |p: Seq<char>| PlannedStep::CreatePath(p),
        );
        let ghost file_steps = self.startup_files@.map_values(
            |f: TransferedFile| PlannedStep::SendFile(f.local_path@, f.remote_path@, f.mode@),
        );
        assert(plan == path_steps + file_steps + seq![PlannedStep::StartProcess]);
        assert(plan.len() == paths + files + 1);
        if self.done < paths {
            let path = self.created_paths[self.done].clone();
            let mut args: Vec<String> = Vec::new();
            args.push(String::from_str("-p"));
            args.push(path);
            let command = RunCommandOptions::new("mkdir").args(args);
            assert(plan[self.done as int] == path_steps[self.done as int]);
            assert(string_views(command.args@) =~= seq!["-p"@, self.created_paths@[self.done as int]@]);
            Some(SetupAction::RunCommand(command))
        } else if self.done < paths + files {
            let k = self.done - paths;
            assert(plan[self.done as int] == file_steps[k as int]);
            Some(SetupAction::SendFile(crate::types::copy_file(&self.startup_files[k])))
        } else if self.done == paths + files {
            assert(plan[self.done as int] == PlannedStep::StartProcess);
            Some(SetupAction::StartProcess)
        } else {
            None
        }
    }

    /// Records how the current step went: a success moves on to the next
    /// step; a failure ends the setup with the error that reports it.
    pub fn record(&mut self, event: SetupEvent)
        requires
            old(self).well_formed(),
            old(self).active(),
        ensures
            final(self).well_formed(),
            final(self).spec_node() == old(self).spec_node(),
            final(self).plan() == old(self).plan(),
            match event {
                SetupEvent::Succeeded => final(self).steps_done() == old(self).steps_done() + 1
                    && final(self).spec_failure() is None,
                _ => final(self).steps_done() == old(self).steps_done()
                    && final(self).spec_failure() == Some(
                    step_error(
                        old(self).spec_node(),
                        old(self).plan()[old(self).steps_done() as int],
                        event,
                    ),
                ),
            },
    {
        let paths = self.created_paths.len();
        let files = self.startup_files.len();
        let ghost plan = self.plan();
        let ghost path_steps = string_views(self.created_paths@).map_values(
            |p: Seq<char>| PlannedStep::CreatePath(p),
        );
        let ghost file_steps = self.startup_files@.map_values(
            |f: TransferedFile| PlannedStep::SendFile(f.local_path@, f.remote_path@, f.mode@),
        );
        assert(plan == path_steps + file_steps + seq![PlannedStep::StartProcess]);
        match event {
            SetupEvent::Succeeded => {
                self.done = self.done + 1;
            },
            SetupEvent::LocalReadFailed(m) => {
                self.failure = Some(ProviderError::FileSystemError(m));
            },
            SetupEvent::AgentFailed(m) => {
                let node = self.node.clone();
                if self.done < paths {
                    assert(plan[self.done as int] == path_steps[self.done as int]);
                    self.failure = Some(
                        ProviderError::RunCommandError(String::from_str("mkdir"), node, m),
                    );
                } else if self.done < paths + files {
                    let k = self.done - paths;
                    assert(plan[self.done as int] == file_steps[k as int]);
                    let remote = self.startup_files[k].remote_path.clone();
                    self.failure = Some(ProviderError::SendFile(node, remote, m));
                } else {
                    assert(plan[self.done as int] == PlannedStep::StartProcess);
                    self.failure = Some(ProviderError::NodeSpawningFailed(node, m));
                }
            },
        }
    }

    /// How the setup ended: `None` while a step is left, else success or the
    /// error of the step that failed.
    pub fn outcome(&self) -> (r: Option<Result<(), ProviderError>>)
        requires
            self.well_formed(),
        ensures
            self.active() <==> r is None,
            r matches Some(Err(e)) ==> self.spec_failure() == Some(e@),
            r matches Some(Ok(_)) ==> self.spec_failure() is None && self.steps_done()
                == self.plan().len(),
    {
        match &self.failure {
            Some(e) => Some(Err(crate::types::copy_error(e))),
            None => {
                if self.done == self.created_paths.len() + self.startup_files.len() + 1 {
                    Some(Ok(()))
                } else {
                    None
                }
            },
        }
    }
}

} // verus!
