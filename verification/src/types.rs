//! The values that the provider hands to its callers and takes from them.

use vstd::prelude::*;

verus! {

/// What a provider can do, as its callers need to know.
#[derive(Debug, PartialEq, Eq)]
pub struct ProviderCapabilities {
    pub has_resources: bool,
    pub requires_image: bool,
    pub prefix_with_full_path: bool,
    pub use_default_ports_in_cmd: bool,
}

impl Clone for ProviderCapabilities {
    fn clone(&self) -> (r: Self)
        ensures
            r == *self,
    {
        ProviderCapabilities {
            has_resources: self.has_resources,
            requires_image: self.requires_image,
            prefix_with_full_path: self.prefix_with_full_path,
            use_default_ports_in_cmd: self.use_default_ports_in_cmd,
        }
    }
}

/// Why a provider operation failed; the last field of a variant, where it
/// is text, is the message of the underlying failure.
#[derive(Debug, PartialEq, Eq)]
pub enum ProviderError {
    /// The node's process could not be started: node name, message.
    NodeSpawningFailed(String, String),
    /// The node's logs could not be fetched: node name, message.
    GetLogsFailed(String, String),
    /// A command failed: program, node name, message.
    RunCommandError(String, String, String),
    /// A script could not be run: node name, message.
    RunScriptError(String, String),
    /// A file could not be sent: node name, remote path, message.
    SendFile(String, String, String),
    /// The request or the configuration is not usable: message.
    InvalidConfig(String),
    /// The node could not be paused: node name, message.
    PauseNodeFailed(String, String),
    /// The node could not be resumed: node name, message.
    ResumeNodeFailed(String, String),
    /// The node could not be restarted: node name, message.
    RestartNodeFailed(String, String),
    /// The node could not be destroyed: node name, message.
    DestroyNodeFailed(String, String),
    /// A local file system operation failed: message.
    FileSystemError(String),
}

/// A [`ProviderError`] with its texts as character sequences.
pub enum ProviderErrorView {
    NodeSpawningFailed(Seq<char>, Seq<char>),
    GetLogsFailed(Seq<char>, Seq<char>),
    RunCommandError(Seq<char>, Seq<char>, Seq<char>),
    RunScriptError(Seq<char>, Seq<char>),
    SendFile(Seq<char>, Seq<char>, Seq<char>),
    InvalidConfig(Seq<char>),
    PauseNodeFailed(Seq<char>, Seq<char>),
    ResumeNodeFailed(Seq<char>, Seq<char>),
    RestartNodeFailed(Seq<char>, Seq<char>),
    DestroyNodeFailed(Seq<char>, Seq<char>),
    FileSystemError(Seq<char>),
}

impl View for ProviderError {
    type V = ProviderErrorView;

    open spec fn view(&self) -> ProviderErrorView {
        match self {
            ProviderError::NodeSpawningFailed(a, b) => ProviderErrorView::NodeSpawningFailed(
                a@,
                b@,
            ),
            ProviderError::GetLogsFailed(a, b) => ProviderErrorView::GetLogsFailed(a@, b@),
            ProviderError::RunCommandError(a, b, c) => ProviderErrorView::RunCommandError(
                a@,
                b@,
                c@,
            ),
            ProviderError::RunScriptError(a, b) => ProviderErrorView::RunScriptError(a@, b@),
            ProviderError::SendFile(a, b, c) => ProviderErrorView::SendFile(a@, b@, c@),
            ProviderError::InvalidConfig(a) => ProviderErrorView::InvalidConfig(a@),
            ProviderError::PauseNodeFailed(a, b) => ProviderErrorView::PauseNodeFailed(a@, b@),
            ProviderError::ResumeNodeFailed(a, b) => ProviderErrorView::ResumeNodeFailed(a@, b@),
            ProviderError::RestartNodeFailed(a, b) => ProviderErrorView::RestartNodeFailed(
                a@,
                b@,
            ),
            ProviderError::DestroyNodeFailed(a, b) => ProviderErrorView::DestroyNodeFailed(
                a@,
                b@,
            ),
            ProviderError::FileSystemError(a) => ProviderErrorView::FileSystemError(a@),
        }
    }
}

/// A copy of an error.
pub fn copy_error(e: &ProviderError) -> (r: ProviderError)
    ensures
        r@ == e@,
{
    match e {
        ProviderError::NodeSpawningFailed(a, b) => ProviderError::NodeSpawningFailed(
            a.clone(),
            b.clone(),
        ),
        ProviderError::GetLogsFailed(a, b) => ProviderError::GetLogsFailed(a.clone(), b.clone()),
        ProviderError::RunCommandError(a, b, c) => ProviderError::RunCommandError(
            a.clone(),
            b.clone(),
            c.clone(),
        ),
        ProviderError::RunScriptError(a, b) => ProviderError::RunScriptError(a.clone(), b.clone()),
        ProviderError::SendFile(a, b, c) => ProviderError::SendFile(a.clone(), b.clone(), c.clone()),
        ProviderError::InvalidConfig(a) => ProviderError::InvalidConfig(a.clone()),
        ProviderError::PauseNodeFailed(a, b) => ProviderError::PauseNodeFailed(a.clone(), b.clone()),
        ProviderError::ResumeNodeFailed(a, b) => ProviderError::ResumeNodeFailed(
            a.clone(),
            b.clone(),
        ),
        ProviderError::RestartNodeFailed(a, b) => ProviderError::RestartNodeFailed(
            a.clone(),
            b.clone(),
        ),
        ProviderError::DestroyNodeFailed(a, b) => ProviderError::DestroyNodeFailed(
            a.clone(),
            b.clone(),
        ),
        ProviderError::FileSystemError(a) => ProviderError::FileSystemError(a.clone()),
    }
}

/// A file to place on a node: where it is read, where it goes, and its
/// permission bits as text (such as `"0644"`).
#[derive(Debug, PartialEq, Eq)]
pub struct TransferedFile {
    pub local_path: String,
    pub remote_path: String,
    pub mode: String,
}

/// A command to run on a node.
#[derive(Debug, PartialEq, Eq)]
pub struct RunCommandOptions {
    pub program: String,
    pub args: Vec<String>,
    pub env: Vec<(String, String)>,
}

impl RunCommandOptions {
    /// A command that runs `program` with no arguments and no environment.
    pub fn new(program: &str) -> (r: Self)
        ensures
            r.program@ == program@,
            r.args@.len() == 0,
            r.env@.len() == 0,
    {
        RunCommandOptions { program: program.to_owned(), args: Vec::new(), env: Vec::new() }
    }

    /// The same command with `args` as its arguments.
    pub fn args(self, args: Vec<String>) -> (r: Self)
        ensures
            r.program == self.program,
            r.args == args,
            r.env == self.env,
    {
        RunCommandOptions { args, ..self }
    }
}

/// A copy of a list of strings.
pub fn copy_strings(v: &Vec<String>) -> (r: Vec<String>)
    ensures
        r@ == v@,
{
    let mut r: Vec<String> = Vec::new();
    let mut i: usize = 0;
    while i < v.len()
        invariant
            i <= v@.len(),
            r@ == v@.take(i as int),
        decreases v@.len() - i,
    {
        r.push(v[i].clone());
        assert(r@ =~= v@.take(i + 1));
        i = i + 1;
    }
    assert(v@.take(v@.len() as int) =~= v@);
    r
}

/// A copy of a list of string pairs.
pub fn copy_pairs(v: &Vec<(String, String)>) -> (r: Vec<(String, String)>)
    ensures
        r@ == v@,
{
    let mut r: Vec<(String, String)> = Vec::new();
    let mut i: usize = 0;
    while i < v.len()
        invariant
            i <= v@.len(),
            r@ == v@.take(i as int),
        decreases v@.len() - i,
    {
        let pair = (v[i].0.clone(), v[i].1.clone());
        r.push(pair);
        assert(r@ =~= v@.take(i + 1));
        i = i + 1;
    }
    assert(v@.take(v@.len() as int) =~= v@);
    r
}

/// A copy of a file transfer.
pub fn copy_file(f: &TransferedFile) -> (r: TransferedFile)
    ensures
        r == *f,
{
    TransferedFile {
        local_path: f.local_path.clone(),
        remote_path: f.remote_path.clone(),
        mode: f.mode.clone(),
    }
}

/// A copy of a list of file transfers.
pub fn copy_files(v: &Vec<TransferedFile>) -> (r: Vec<TransferedFile>)
    ensures
        r@ == v@,
{
    let mut r: Vec<TransferedFile> = Vec::new();
    let mut i: usize = 0;
    while i < v.len()
        invariant
            i <= v@.len(),
            r@ == v@.take(i as int),
        decreases v@.len() - i,
    {
        r.push(copy_file(&v[i]));
        assert(r@ =~= v@.take(i + 1));
        i = i + 1;
    }
    assert(v@.take(v@.len() as int) =~= v@);
    r
}

} // verus!
