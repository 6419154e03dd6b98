//! A namespace: a directory that holds the files of a set of nodes, and the
//! nodes spawned in it, each kept under its name.

use vstd::prelude::*;
use crate::node::{ShadowNode, ShadowNodeOptions};
use crate::registry::Registry;
use crate::text::{joined_path, join_path, string_views};
use crate::types::{
    ProviderCapabilities, ProviderError, ProviderErrorView, TransferedFile, copy_strings,
    copy_pairs, copy_files,
};

verus! {

/// What every namespace name starts with.
pub const NAMESPACE_PREFIX: &'static str = "zombie-";

/// The name of the namespace that the UUID text `uuid` stands for.
pub fn namespace_name(uuid: &str) -> (name: String)
    ensures
        name@ == NAMESPACE_PREFIX@ + uuid@,
{
    let mut name = String::from_str(NAMESPACE_PREFIX);
    name.append(uuid);
    name
}

/// Two namespaces named after different UUIDs have different names.
pub proof fn lemma_namespace_names_distinct(u1: Seq<char>, u2: Seq<char>)
    requires
        u1 != u2,
    ensures
        NAMESPACE_PREFIX@ + u1 != NAMESPACE_PREFIX@ + u2,
{
    let p = NAMESPACE_PREFIX@;
    if p + u1 == p + u2 {
        assert(u1 =~= (p + u1).skip(p.len() as int));
        assert(u2 =~= (p + u2).skip(p.len() as int));
    }
}

/// What to do on the local file system for a namespace directory.
#[derive(Debug, PartialEq, Eq, Structural, Clone, Copy)]
pub enum DirAction {
    /// Create the directory; its parent must exist.
    CreateDir,
    /// Create the directory with any missing parents.
    CreateDirAll,
    /// The directory is there already: use it, and warn that it is reused.
    UseExisting,
}

/// Where a namespace's files go, and what to do to have the directory.
#[derive(Debug, PartialEq, Eq)]
pub struct BaseDirPlan {
    pub base_dir: String,
    pub action: DirAction,
}

/// A directory given for the namespace is used, made with its parents when it
/// does not exist; without one, the namespace gets a directory of its name in
/// the provider's temporary directory.
pub open spec fn base_dir_plan(
    tmp_dir: Seq<char>,
    name: Seq<char>,
    custom: Option<(Seq<char>, bool)>,
) -> (Seq<char>, DirAction) {
    match custom {
        Some((dir, exists)) => (dir, if exists {
            DirAction::UseExisting
        } else {
            DirAction::CreateDirAll
        }),
        None => (joined_path(tmp_dir, name), DirAction::CreateDir),
    }
}

/// A directory asked for is used as given, whatever the temporary directory,
/// and is created with its parents unless it exists, when it is reused;
/// without one, the namespace gets a new directory named after it inside the
/// temporary directory.
pub proof fn lemma_base_dir_plan(tmp_dir: Seq<char>, name: Seq<char>, custom: Option<(Seq<char>, bool)>)
    ensures
        custom matches Some((dir, exists)) ==> {
            &&& base_dir_plan(tmp_dir, name, custom).0 == dir
            &&& forall|other: Seq<char>| #[trigger] base_dir_plan(other, name, custom) == base_dir_plan(
                tmp_dir,
                name,
                custom,
            )
            &&& base_dir_plan(tmp_dir, name, custom).1 == (if exists {
                DirAction::UseExisting
            } else {
                DirAction::CreateDirAll
            })
        },
        custom is None ==> base_dir_plan(tmp_dir, name, custom).1 == DirAction::CreateDir,
        custom is None && tmp_dir.len() > 0 && tmp_dir.last() != '/' && name.len() > 0 && name[0]
            != '/' ==> base_dir_plan(tmp_dir, name, custom).0 == tmp_dir + seq!['/'] + name,
{
}

/// Plans the directory of the namespace `name`; `custom` is the directory
/// asked for, if any, and whether it exists.
pub fn plan_base_dir(tmp_dir: &str, name: &str, custom: Option<(&str, bool)>) -> (plan: BaseDirPlan)
    ensures
        (plan.base_dir@, plan.action) == base_dir_plan(
            tmp_dir@,
            name@,
            match custom {
                Some((d, e)) => Some((d@, e)),
                None => None,
            },
        ),
        custom matches Some((dir, _)) ==> plan.base_dir@ == dir@,
{
    match custom {
        Some((dir, exists)) => BaseDirPlan {
            base_dir: dir.to_owned(),
            action: if exists {
                DirAction::UseExisting
            } else {
                DirAction::CreateDirAll
            },
        },
        None => BaseDirPlan { base_dir: join_path(tmp_dir, name), action: DirAction::CreateDir },
    }
}

/// What a caller asks of a node to spawn.
pub struct SpawnNodeOptions {
    pub name: String,
    pub program: String,
    pub args: Vec<String>,
    pub env: Vec<(String, String)>,
    pub injected_files: Vec<TransferedFile>,
    pub created_paths: Vec<String>,
    pub node_log_path: Option<String>,
}

/// A node kept in a namespace: its name and the caller's handle on it.
pub struct RegisteredNode<N> {
    pub name: String,
    pub handle: N,
}

/// A namespace and the nodes in it, each kept under its own name with a
/// handle of type `N`.
pub struct ShadowNamespace<N> {
    name: String,
    base_dir: String,
    capabilities: ProviderCapabilities,
    agent_port: u16,
    nodes: Registry<RegisteredNode<N>>,
}

/// Whether every node of `nodes` is kept under its own name.
pub open spec fn nodes_named<N>(nodes: Map<Seq<char>, RegisteredNode<N>>) -> bool {
    forall|k: Seq<char>| #[trigger] nodes.contains_key(k) ==> nodes[k].name@ == k
}

impl<N> ShadowNamespace<N> {
    #[verifier::type_invariant]
    spec fn keys_are_names(self) -> bool {
        nodes_named(self.nodes@)
    }

    pub closed spec fn spec_name(&self) -> Seq<char> {
        self.name@
    }

    pub closed spec fn spec_base_dir(&self) -> Seq<char> {
        self.base_dir@
    }

    pub closed spec fn spec_capabilities(&self) -> ProviderCapabilities {
        self.capabilities
    }

    pub closed spec fn spec_agent_port(&self) -> u16 {
        self.agent_port
    }

    /// The nodes, by name.
    pub closed spec fn spec_nodes(&self) -> Map<Seq<char>, RegisteredNode<N>> {
        self.nodes@
    }

    /// The namespace `name` with its files in `base_dir`, and no nodes yet;
    /// one that is attached to again is made the same way.
    pub fn new(
        name: String,
        base_dir: String,
        capabilities: &ProviderCapabilities,
        agent_port: u16,
    ) -> (ns: Self)
        ensures
            ns.spec_name() == name@,
            ns.spec_base_dir() == base_dir@,
            ns.spec_capabilities() == *capabilities,
            ns.spec_agent_port() == agent_port,
            ns.spec_nodes() == Map::<Seq<char>, RegisteredNode<N>>::empty(),
    {
        ShadowNamespace {
            name,
            base_dir,
            capabilities: capabilities.clone(),
            agent_port,
            nodes: Registry::new(),
        }
    }

    pub fn name(&self) -> (s: &str)
        ensures
            s@ == self.spec_name(),
    {
        self.name.as_str()
    }

    pub fn base_dir(&self) -> (s: &str)
        ensures
            s@ == self.spec_base_dir(),
    {
        self.base_dir.as_str()
    }

    pub fn capabilities(&self) -> (c: &ProviderCapabilities)
        ensures
            *c == self.spec_capabilities(),
    {
        &self.capabilities
    }

    /// The port of the agents of the namespace's nodes.
    pub fn agent_port(&self) -> (p: u16)
        ensures
            p == self.spec_agent_port(),
    {
        self.agent_port
    }

    /// The name of the provider of the namespace.
    pub fn provider_name(&self) -> (s: &'static str)
        ensures
            s@ == "shadow"@,
    {
        crate::provider::PROVIDER_NAME
    }

    /// The nodes, by name; each is kept under its own name.
    pub fn nodes(&self) -> (r: &Registry<RegisteredNode<N>>)
        ensures
            r@ == self.spec_nodes(),
            nodes_named(r@),
    {
        proof {
            use_type_invariant(self);
        }
        &self.nodes
    }

    /// What the node to spawn is made from: its files go below the namespace
    /// directory and its agent listens on its own host on the namespace's port.
    pub fn node_options(&self, options: &SpawnNodeOptions) -> (r: ShadowNodeOptions)
        ensures
            r.namespace_base_dir@ == self.spec_base_dir(),
            r.name == options.name,
            r.program == options.program,
            r.args@ == options.args@,
            r.env@ == options.env@,
            r.startup_files@ == options.injected_files@,
            r.created_paths@ == options.created_paths@,
            r.node_log_path == options.node_log_path,
            r.agent_host is None,
            r.agent_port == self.spec_agent_port(),
    {
        ShadowNodeOptions {
            namespace_base_dir: self.base_dir.clone(),
            name: options.name.clone(),
            program: options.program.clone(),
            args: copy_strings(&options.args),
            env: copy_pairs(&options.env),
            startup_files: copy_files(&options.injected_files),
            created_paths: copy_strings(&options.created_paths),
            node_log_path: match &options.node_log_path {
                Some(p) => Some(p.clone()),
                None => None,
            },
            agent_host: None,
            agent_port: self.agent_port,
        }
    }

    /// Keeps the handle of `node` under the node's name, in place of any node
    /// of that name, and gives back the handle it replaced.
    pub fn add_node(&mut self, node: &ShadowNode, handle: N) -> (previous: Option<N>)
        ensures
            final(self).spec_nodes().dom() == old(self).spec_nodes().dom().insert(node.spec_name()),
            final(self).spec_nodes()[node.spec_name()].handle == handle,
            final(self).spec_nodes()[node.spec_name()].name@ == node.spec_name(),
            final(self).spec_nodes().remove(node.spec_name()) == old(self).spec_nodes().remove(
                node.spec_name(),
            ),
            nodes_named(final(self).spec_nodes()),
            final(self).spec_name() == old(self).spec_name(),
            final(self).spec_base_dir() == old(self).spec_base_dir(),
            final(self).spec_capabilities() == old(self).spec_capabilities(),
            final(self).spec_agent_port() == old(self).spec_agent_port(),
            match previous {
                Some(v) => old(self).spec_nodes().contains_key(node.spec_name()) && v == old(
                    self,
                ).spec_nodes()[node.spec_name()].handle,
                None => !old(self).spec_nodes().contains_key(node.spec_name()),
            },
    {
        proof {
            use_type_invariant(&*self);
        }
        let key = node.name().to_owned();
        let entry = RegisteredNode { name: node.name().to_owned(), handle };
        let mut nodes: Registry<RegisteredNode<N>> = Registry::new();
        std::mem::swap(&mut nodes, &mut self.nodes);
        let ghost before = nodes@;
        let previous = nodes.insert(key, entry);
        assert(nodes@ =~= before.insert(node.spec_name(), entry));
        assert(nodes@.remove(node.spec_name()) =~= before.remove(node.spec_name()));
        self.nodes = nodes;
        match previous {
            Some(e) => Some(e.handle),
            None => None,
        }
    }

    /// The names of the nodes, each once.
    pub fn node_names(&self) -> (r: Vec<String>)
        ensures
            string_views(r@).to_set() == self.spec_nodes().dom(),
            string_views(r@).no_duplicates(),
    {
        self.nodes.names()
    }

    /// Forgets the nodes that were destroyed.
    pub fn forget_nodes(&mut self, destroyed: &Vec<String>)
        ensures
            final(self).spec_nodes() == old(self).spec_nodes().remove_keys(
                string_views(destroyed@).to_set(),
            ),
            nodes_named(final(self).spec_nodes()),
            final(self).spec_name() == old(self).spec_name(),
            final(self).spec_base_dir() == old(self).spec_base_dir(),
            final(self).spec_capabilities() == old(self).spec_capabilities(),
            final(self).spec_agent_port() == old(self).spec_agent_port(),
    {
        proof {
            use_type_invariant(&*self);
        }
        let mut nodes: Registry<RegisteredNode<N>> = Registry::new();
        std::mem::swap(&mut nodes, &mut self.nodes);
        nodes.remove_all(destroyed);
        self.nodes = nodes;
    }

    /// The arguments that a node's program takes, as far as this provider
    /// reports them: none.
    pub fn get_node_available_args(&self) -> (r: String)
        ensures
            r@.len() == 0,
    {
        String::new()
    }

    /// Spawning a node from a JSON description is not offered.
    pub fn spawn_node_from_json(&self) -> (e: ProviderError)
        ensures
            e@ == ProviderErrorView::InvalidConfig("Spawn from JSON not implemented for Shadow"@),
    {
        ProviderError::InvalidConfig(String::from_str("Spawn from JSON not implemented for Shadow"))
    }
}

/// The destruction of a namespace's nodes: they are destroyed one at a
/// time, and the first failure ends it; only when every node was destroyed
/// are they, and the namespace, forgotten.
pub struct NamespaceTeardown {
    nodes: Vec<String>,
    done: usize,
    failure: Option<ProviderError>,
}

impl NamespaceTeardown {
    /// The names of the nodes to destroy, in order.
    pub closed spec fn spec_nodes(&self) -> Seq<Seq<char>> {
        string_views(self.nodes@)
    }

    /// How many nodes were destroyed.
    pub closed spec fn destroyed(&self) -> nat {
        self.done as nat
    }

    /// Why the destruction failed, if it did.
    pub closed spec fn spec_failure(&self) -> Option<ProviderErrorView> {
        match self.failure {
            Some(e) => Some(e@),
            None => None,
        }
    }

    /// Whether a node is left to destroy.
    pub open spec fn active(&self) -> bool {
        self.spec_failure() is None && self.destroyed() < self.spec_nodes().len()
    }

    pub closed spec fn well_formed(&self) -> bool {
        self.done <= self.nodes@.len()
    }

    /// The destruction of the nodes `nodes`, none destroyed yet.
    pub fn new(nodes: Vec<String>) -> (t: Self)
        ensures
            t.well_formed(),
            t.spec_nodes() == string_views(nodes@),
            t.destroyed() == 0,
            t.spec_failure() is None,
    {
        NamespaceTeardown { nodes, done: 0, failure: None }
    }

    /// The next node to destroy; none once all were destroyed or one failed.
    pub fn next_node(&self) -> (r: Option<String>)
        requires
            self.well_formed(),
        ensures
            r is Some <==> self.active(),
            r matches Some(name) ==> name@ == self.spec_nodes()[self.destroyed() as int],
    {
        if self.failure.is_none() && self.done < self.nodes.len() {
            Some(self.nodes[self.done].clone())
        } else {
            None
        }
    }

    /// Records how the destruction of the current node went.
    pub fn record(&mut self, outcome: Result<(), ProviderError>)
        requires
            old(self).well_formed(),
            old(self).active(),
        ensures
            final(self).well_formed(),
            final(self).spec_nodes() == old(self).spec_nodes(),
            match outcome {
                Ok(_) => final(self).destroyed() == old(self).destroyed() + 1
                    && final(self).spec_failure() is None,
                Err(e) => final(self).destroyed() == old(self).destroyed()
                    && final(self).spec_failure() == Some(e@),
            },
    {
        let n = self.nodes.len();
        assert(string_views(self.nodes@).len() == n);
        match outcome {
            Ok(()) => {
                self.done = self.done + 1;
            },
            Err(e) => {
                self.failure = Some(e);
            },
        }
    }

    /// How the destruction ended: `None` while a node is left; the names of
    /// all the nodes when every one was destroyed; else the first failure.
    pub fn outcome(&self) -> (r: Option<Result<Vec<String>, ProviderError>>)
        requires
            self.well_formed(),
        ensures
            self.active() <==> r is None,
            r matches Some(Ok(names)) ==> self.spec_failure() is None && self.destroyed()
                == self.spec_nodes().len() && string_views(names@) == self.spec_nodes(),
            r matches Some(Err(e)) ==> self.spec_failure() == Some(e@),
    {
        match &self.failure {
            Some(e) => Some(Err(crate::types::copy_error(e))),
            None => {
                if self.done == self.nodes.len() {
                    Some(Ok(copy_strings(&self.nodes)))
                } else {
                    None
                }
            },
        }
    }
}

} // verus!
