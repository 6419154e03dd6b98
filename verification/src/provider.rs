//! The provider: its configuration and the namespaces it made, each kept
//! under its name.

use vstd::prelude::*;
use crate::namespace::{BaseDirPlan, ShadowNamespace, RegisteredNode, base_dir_plan, plan_base_dir};
use crate::registry::Registry;
use crate::text::{parse_u16, parsed_u16, string_views};
use crate::types::{ProviderCapabilities, ProviderError, ProviderErrorView};

verus! {

/// The name of this provider.
pub const PROVIDER_NAME: &'static str = "shadow";

/// The port that the agents listen on when none is configured.
pub const DEFAULT_AGENT_PORT: u16 = 3000;

/// The port of the agents, from the text configured for it: the default
/// when there is none; `None` when the text is not a decimal `u16`.
pub open spec fn configured_agent_port(value: Option<Seq<char>>) -> Option<u16> {
    match value {
        None => Some(DEFAULT_AGENT_PORT),
        Some(s) => parsed_u16(s),
    }
}

/// Reads the port of the agents from the text configured for it, if any.
pub fn agent_port_from_env(value: Option<&str>) -> (r: Option<u16>)
    ensures
        r == configured_agent_port(
            match value {
                Some(s) => Some(s@),
                None => None,
            },
        ),
{
    match value {
        None => Some(DEFAULT_AGENT_PORT),
        Some(s) => parse_u16(s),
    }
}

/// What this provider can do: it places no resource limits, needs no image,
/// and runs programs by their full path without the default ports on the
/// command line.
pub open spec fn shadow_capabilities() -> ProviderCapabilities {
    ProviderCapabilities {
        has_resources: false,
        requires_image: false,
        prefix_with_full_path: true,
        use_default_ports_in_cmd: false,
    }
}

/// A namespace's directory and name, as a saved network description holds
/// them (either may be missing).
pub struct NamespaceRecord {
    pub local_base_dir: Option<String>,
    pub ns: Option<String>,
}

/// The directory and name of a namespace to attach to, from its record; a
/// missing field is an invalid configuration.
pub open spec fn namespace_info(local_base_dir: Option<Seq<char>>, ns: Option<Seq<char>>) -> Result<
    (Seq<char>, Seq<char>),
    ProviderErrorView,
> {
    match local_base_dir {
        None => Err(
            ProviderErrorView::InvalidConfig("`field local_base_dir` is missing from zombie.json"@),
        ),
        Some(dir) => match ns {
            None => Err(ProviderErrorView::InvalidConfig("field `ns` is missing from zombie.json"@)),
            Some(name) => Ok((dir, name)),
        },
    }
}

impl NamespaceRecord {
    /// The directory and name of the namespace.
    pub fn info(&self) -> (r: Result<(String, String), ProviderError>)
        ensures
            match (r, namespace_info(
                crate::node::opt_view(self.local_base_dir),
                crate::node::opt_view(self.ns),
            )) {
                (Ok((d, n)), Ok((d2, n2))) => d@ == d2 && n@ == n2,
                (Err(e), Err(e2)) => e@ == e2,
                _ => false,
            },
    {
        match &self.local_base_dir {
            None => Err(
                ProviderError::InvalidConfig(
                    String::from_str("`field local_base_dir` is missing from zombie.json"),
                ),
            ),
            Some(dir) => match &self.ns {
                None => Err(
                    ProviderError::InvalidConfig(
                        String::from_str("field `ns` is missing from zombie.json"),
                    ),
                ),
                Some(name) => Ok((dir.clone(), name.clone())),
            },
        }
    }
}

/// A namespace kept by the provider: its name, its capabilities and the
/// caller's handle on it.
pub struct RegisteredNamespace<N> {
    pub name: String,
    pub capabilities: ProviderCapabilities,
    pub handle: N,
}

/// Whether every namespace of `namespaces` is kept under its own name and has
/// the capabilities `capabilities`.
pub open spec fn namespaces_consistent<N>(
    namespaces: Map<Seq<char>, RegisteredNamespace<N>>,
    capabilities: ProviderCapabilities,
) -> bool {
    forall|k: Seq<char>| #[trigger]
        namespaces.contains_key(k) ==> namespaces[k].name@ == k && namespaces[k].capabilities
            == capabilities
}

/// The provider, with the namespaces it made, each kept under its own name
/// with a handle of type `N`.
pub struct ShadowProvider<N> {
    capabilities: ProviderCapabilities,
    tmp_dir: String,
    agent_port: u16,
    namespaces: Registry<RegisteredNamespace<N>>,
}

impl<N> ShadowProvider<N> {
    #[verifier::type_invariant]
    spec fn namespaces_are_its_own(self) -> bool {
        namespaces_consistent(self.namespaces@, self.capabilities)
    }

    pub closed spec fn spec_capabilities(&self) -> ProviderCapabilities {
        self.capabilities
    }

    /// The directory in which namespaces get their directories.
    pub closed spec fn spec_tmp_dir(&self) -> Seq<char> {
        self.tmp_dir@
    }

    pub closed spec fn spec_agent_port(&self) -> u16 {
        self.agent_port
    }

    /// The namespaces, by name.
    pub closed spec fn spec_namespaces(&self) -> Map<Seq<char>, RegisteredNamespace<N>> {
        self.namespaces@
    }

    /// A provider whose agents listen on `agent_port` and whose namespaces
    /// go into `tmp_dir`, with no namespaces yet.
    pub fn new(agent_port: u16, tmp_dir: String) -> (p: Self)
        ensures
            p.spec_capabilities() == shadow_capabilities(),
            p.spec_tmp_dir() == tmp_dir@,
            p.spec_agent_port() == agent_port,
            p.spec_namespaces() == Map::<Seq<char>, RegisteredNamespace<N>>::empty(),
    {
        ShadowProvider {
            capabilities: ProviderCapabilities {
                has_resources: false,
                requires_image: false,
                prefix_with_full_path: true,
                use_default_ports_in_cmd: false,
            },
            tmp_dir,
            agent_port,
            namespaces: Registry::new(),
        }
    }

    /// The same provider with `tmp_dir` as the directory of its namespaces.
    pub fn tmp_dir(self, tmp_dir: String) -> (p: Self)
        ensures
            p.spec_tmp_dir() == tmp_dir@,
            p.spec_capabilities() == self.spec_capabilities(),
            p.spec_agent_port() == self.spec_agent_port(),
            p.spec_namespaces() == self.spec_namespaces(),
    {
        proof {
            use_type_invariant(&self);
        }
        ShadowProvider { tmp_dir, ..self }
    }

    pub fn name(&self) -> (s: &'static str)
        ensures
            s@ == "shadow"@,
    {
        PROVIDER_NAME
    }

    pub fn capabilities(&self) -> (c: &ProviderCapabilities)
        ensures
            *c == self.spec_capabilities(),
    {
        &self.capabilities
    }

    pub fn agent_port(&self) -> (p: u16)
        ensures
            p == self.spec_agent_port(),
    {
        self.agent_port
    }

    /// The directory in which namespaces get their directories.
    pub fn tmp_dir_path(&self) -> (s: &str)
        ensures
            s@ == self.spec_tmp_dir(),
    {
        self.tmp_dir.as_str()
    }

    /// The namespaces, by name; each is kept under its own name and has the
    /// provider's capabilities.
    pub fn namespaces(&self) -> (r: &Registry<RegisteredNamespace<N>>)
        ensures
            r@ == self.spec_namespaces(),
            namespaces_consistent(r@, self.spec_capabilities()),
    {
        proof {
            use_type_invariant(self);
        }
        &self.namespaces
    }

    /// A namespace of this provider, named `name` with its files in
    /// `base_dir`: it has the provider's capabilities and agent port, and no
    /// nodes yet.
    pub fn new_namespace<M>(&self, name: String, base_dir: String) -> (ns: ShadowNamespace<M>)
        ensures
            ns.spec_name() == name@,
            ns.spec_base_dir() == base_dir@,
            ns.spec_capabilities() == self.spec_capabilities(),
            ns.spec_agent_port() == self.spec_agent_port(),
            ns.spec_nodes() == Map::<Seq<char>, RegisteredNode<M>>::empty(),
    {
        ShadowNamespace::new(name, base_dir, &self.capabilities, self.agent_port)
    }

    /// Plans the directory of the new namespace `name`; `custom` is the
    /// directory asked for, if any, and whether it exists.
    pub fn plan_namespace_dir(&self, name: &str, custom: Option<(&str, bool)>) -> (plan:
        BaseDirPlan)
        ensures
            (plan.base_dir@, plan.action) == base_dir_plan(
                self.spec_tmp_dir(),
                name@,
                match custom {
                    Some((d, e)) => Some((d@, e)),
                    None => None,
                },
            ),
    {
        plan_base_dir(self.tmp_dir.as_str(), name, custom)
    }

    /// Keeps the handle of the namespace `ns` under its name, in place of any
    /// of that name, and gives back the handle it replaced. The namespace must
    /// have the provider's capabilities, as those made by `new_namespace` have.
    pub fn register_namespace<M>(&mut self, ns: &ShadowNamespace<M>, handle: N) -> (previous:
        Option<N>)
        requires
            ns.spec_capabilities() == old(self).spec_capabilities(),
        ensures
            final(self).spec_namespaces().dom() == old(self).spec_namespaces().dom().insert(
                ns.spec_name(),
            ),
            final(self).spec_namespaces()[ns.spec_name()].handle == handle,
            final(self).spec_namespaces().remove(ns.spec_name()) == old(
                self,
            ).spec_namespaces().remove(ns.spec_name()),
            namespaces_consistent(final(self).spec_namespaces(), final(self).spec_capabilities()),
            final(self).spec_capabilities() == old(self).spec_capabilities(),
            final(self).spec_tmp_dir() == old(self).spec_tmp_dir(),
            final(self).spec_agent_port() == old(self).spec_agent_port(),
            match previous {
                Some(v) => old(self).spec_namespaces().contains_key(ns.spec_name()) && v == old(
                    self,
                ).spec_namespaces()[ns.spec_name()].handle,
                None => !old(self).spec_namespaces().contains_key(ns.spec_name()),
            },
    {
        proof {
            use_type_invariant(&*self);
        }
        let key = ns.name().to_owned();
        let entry = RegisteredNamespace {
            name: ns.name().to_owned(),
            capabilities: ns.capabilities().clone(),
            handle,
        };
        let mut namespaces: Registry<RegisteredNamespace<N>> = Registry::new();
        std::mem::swap(&mut namespaces, &mut self.namespaces);
        let ghost before = namespaces@;
        let previous = namespaces.insert(key, entry);
        assert(namespaces@ =~= before.insert(ns.spec_name(), entry));
        assert(namespaces@.remove(ns.spec_name()) =~= before.remove(ns.spec_name()));
        self.namespaces = namespaces;
        match previous {
            Some(e) => Some(e.handle),
            None => None,
        }
    }

    /// Forgets the namespace `name`, which was destroyed, and gives back its
    /// handle.
    pub fn forget_namespace(&mut self, name: &str) -> (removed: Option<N>)
        ensures
            final(self).spec_namespaces() == old(self).spec_namespaces().remove(name@),
            namespaces_consistent(final(self).spec_namespaces(), final(self).spec_capabilities()),
            final(self).spec_capabilities() == old(self).spec_capabilities(),
            final(self).spec_tmp_dir() == old(self).spec_tmp_dir(),
            final(self).spec_agent_port() == old(self).spec_agent_port(),
            match removed {
                Some(v) => old(self).spec_namespaces().contains_key(name@) && v == old(
                    self,
                ).spec_namespaces()[name@].handle,
                None => !old(self).spec_namespaces().contains_key(name@),
            },
    {
        proof {
            use_type_invariant(&*self);
        }
        let mut namespaces: Registry<RegisteredNamespace<N>> = Registry::new();
        std::mem::swap(&mut namespaces, &mut self.namespaces);
        let removed = namespaces.remove(name);
        self.namespaces = namespaces;
        match removed {
            Some(e) => Some(e.handle),
            None => None,
        }
    }

    /// The names of the namespaces, each once.
    pub fn namespace_names(&self) -> (r: Vec<String>)
        ensures
            string_views(r@).to_set() == self.spec_namespaces().dom(),
            string_views(r@).no_duplicates(),
    {
        self.namespaces.names()
    }
}

} // verus!
