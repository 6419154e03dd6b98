use shadow_provider::namespace::{
    namespace_name, plan_base_dir, DirAction, NamespaceTeardown, ShadowNamespace,
    SpawnNodeOptions,
};
use shadow_provider::provider::{agent_port_from_env, NamespaceRecord, ShadowProvider};
use shadow_provider::node::ShadowNode;
use shadow_provider::types::{ProviderCapabilities, ProviderError};

fn caps() -> ProviderCapabilities {
    ProviderCapabilities {
        has_resources: false,
        requires_image: false,
        prefix_with_full_path: true,
        use_default_ports_in_cmd: false,
    }
}

#[test]
fn agent_port_defaults_and_parses() {
    assert_eq!(agent_port_from_env(None), Some(3000));
    assert_eq!(agent_port_from_env(Some("4000")), Some(4000));
    assert_eq!(agent_port_from_env(Some("+80")), Some(80));
    assert_eq!(agent_port_from_env(Some("70000")), None);
    assert_eq!(agent_port_from_env(Some("port")), None);
    assert_eq!(agent_port_from_env(Some("")), None);
}

#[test]
fn provider_starts_with_fixed_capabilities() {
    let p: ShadowProvider<u8> = ShadowProvider::new(3000, "/tmp".into());
    assert_eq!(p.name(), "shadow");
    assert_eq!(p.capabilities(), &caps());
    assert_eq!(p.agent_port(), 3000);
    assert_eq!(p.tmp_dir_path(), "/tmp");
    assert_eq!(p.namespaces().len(), 0);
    let p = p.tmp_dir("/var/tmp".into());
    assert_eq!(p.tmp_dir_path(), "/var/tmp");
}

#[test]
fn namespace_names_carry_the_uuid() {
    assert_eq!(
        namespace_name("67e55044-10b1-426f-9247-bb680e5fe0c8"),
        "zombie-67e55044-10b1-426f-9247-bb680e5fe0c8"
    );
    assert_ne!(namespace_name("a"), namespace_name("b"));
}

#[test]
fn base_dir_is_planned_from_the_request() {
    let plan = plan_base_dir("/tmp", "zombie-1", None);
    assert_eq!(plan.base_dir, "/tmp/zombie-1");
    assert_eq!(plan.action, DirAction::CreateDir);
    let plan = plan_base_dir("/tmp", "zombie-1", Some(("/work/net", false)));
    assert_eq!(plan.base_dir, "/work/net");
    assert_eq!(plan.action, DirAction::CreateDirAll);
    let plan = plan_base_dir("/tmp", "zombie-1", Some(("/work/net", true)));
    assert_eq!(plan.action, DirAction::UseExisting);
    let p: ShadowProvider<u8> = ShadowProvider::new(3000, "/tmp/".into());
    assert_eq!(p.plan_namespace_dir("zombie-2", None).base_dir, "/tmp/zombie-2");
}

#[test]
fn provider_keeps_and_forgets_namespaces() {
    let mut p: ShadowProvider<u8> = ShadowProvider::new(3000, "/tmp".into());
    let a: ShadowNamespace<u8> = p.new_namespace("zombie-a".into(), "/tmp/zombie-a".into());
    let b: ShadowNamespace<u8> = p.new_namespace("zombie-b".into(), "/tmp/zombie-b".into());
    assert_eq!(a.capabilities(), p.capabilities());
    assert_eq!(a.agent_port(), 3000);
    assert_eq!(a.nodes().len(), 0);
    assert_eq!(p.register_namespace(&a, 1), None);
    assert_eq!(p.register_namespace(&b, 2), None);
    let entry = p.namespaces().get("zombie-a").unwrap();
    assert_eq!(entry.handle, 1);
    assert_eq!(entry.name, "zombie-a");
    assert_eq!(&entry.capabilities, p.capabilities());
    let mut names = p.namespace_names();
    names.sort();
    assert_eq!(names, vec!["zombie-a".to_string(), "zombie-b".to_string()]);
    assert_eq!(p.register_namespace(&a, 7), Some(1));
    assert_eq!(p.namespaces().get("zombie-a").unwrap().handle, 7);
    assert_eq!(p.forget_namespace("zombie-a"), Some(7));
    assert_eq!(p.forget_namespace("zombie-a"), None);
    assert_eq!(p.namespaces().len(), 1);
}

#[test]
fn namespace_record_needs_both_fields() {
    let full = NamespaceRecord { local_base_dir: Some("/work".into()), ns: Some("zombie-x".into()) };
    assert_eq!(full.info(), Ok(("/work".to_string(), "zombie-x".to_string())));
    let no_dir = NamespaceRecord { local_base_dir: None, ns: Some("zombie-x".into()) };
    assert_eq!(
        no_dir.info(),
        Err(ProviderError::InvalidConfig("`field local_base_dir` is missing from zombie.json".into()))
    );
    let no_ns = NamespaceRecord { local_base_dir: Some("/work".into()), ns: None };
    assert_eq!(
        no_ns.info(),
        Err(ProviderError::InvalidConfig("field `ns` is missing from zombie.json".into()))
    );
}

#[test]
fn namespace_spawns_and_destroys_nodes() {
    let mut ns: ShadowNamespace<u8> = ShadowNamespace::new("zombie-a".into(), "/tmp/zombie-a".into(), &caps(), 3000);
    assert_eq!(ns.name(), "zombie-a");
    assert_eq!(ns.base_dir(), "/tmp/zombie-a");
    assert_eq!(ns.provider_name(), "shadow");
    assert_eq!(ns.capabilities(), &caps());
    assert_eq!(ns.get_node_available_args(), "");
    assert_eq!(
        ns.spawn_node_from_json(),
        ProviderError::InvalidConfig("Spawn from JSON not implemented for Shadow".into())
    );
    let request = SpawnNodeOptions {
        name: "alice".into(),
        program: "polkadot".into(),
        args: vec!["--alice".into()],
        env: vec![],
        injected_files: vec![],
        created_paths: vec!["/data".into()],
        node_log_path: None,
    };
    let o = ns.node_options(&request);
    assert_eq!(o.namespace_base_dir, "/tmp/zombie-a");
    assert_eq!(o.agent_port, 3000);
    assert_eq!(o.agent_host, None);
    assert_eq!(o.created_paths, vec!["/data".to_string()]);
    let node_of = |name: &str| {
        let mut request = ns.node_options(&request);
        request.name = name.into();
        ShadowNode::new(&request)
    };
    let alice = node_of("alice");
    let bob = node_of("bob");
    assert_eq!(ns.add_node(&alice, 1), None);
    assert_eq!(ns.add_node(&bob, 2), None);
    assert_eq!(ns.add_node(&bob, 3), Some(2));
    assert_eq!(ns.nodes().len(), 2);
    let entry = ns.nodes().get("bob").unwrap();
    assert_eq!((entry.name.as_str(), entry.handle), ("bob", 3));
    let destroyed = ns.node_names();
    ns.forget_nodes(&destroyed);
    assert_eq!(ns.nodes().len(), 0);
}

#[test]
fn teardown_destroys_every_node_then_forgets_them() {
    let mut t = NamespaceTeardown::new(vec!["alice".into(), "bob".into()]);
    assert_eq!(t.outcome(), None);
    assert_eq!(t.next_node(), Some("alice".to_string()));
    t.record(Ok(()));
    assert_eq!(t.next_node(), Some("bob".to_string()));
    t.record(Ok(()));
    assert_eq!(t.next_node(), None);
    assert_eq!(t.outcome(), Some(Ok(vec!["alice".to_string(), "bob".to_string()])));
}

#[test]
fn teardown_stops_at_the_first_failure() {
    let mut t = NamespaceTeardown::new(vec!["alice".into(), "bob".into()]);
    t.next_node();
    let e = ProviderError::DestroyNodeFailed("alice".into(), "connection refused".into());
    t.record(Err(ProviderError::DestroyNodeFailed("alice".into(), "connection refused".into())));
    assert_eq!(t.next_node(), None);
    assert_eq!(t.outcome(), Some(Err(e)));
}

#[test]
fn teardown_of_no_nodes_is_done_at_once() {
    let t = NamespaceTeardown::new(vec![]);
    assert_eq!(t.next_node(), None);
    assert_eq!(t.outcome(), Some(Ok(vec![])));
}
