use html_panel::node::{Node, NodeManager, Parameters, ProcessInformation};

#[test]
fn parameters_default_to_dev() {
    let p = Parameters::new();
    assert!(p.dev);
    assert!(p.chain.is_none());
    assert!(!p.alice);
    assert!(!p.tmp);
    let d = Parameters::default();
    assert!(d.dev && d.chain.is_none() && !d.alice && !d.tmp);
}

#[test]
fn parameters_build_is_dev_flag_only() {
    let mut p = Parameters::new();
    assert_eq!(p.build(), vec![String::from("--dev")]);
    p.dev = false;
    p.chain = Some(String::from("local"));
    p.alice = true;
    assert_eq!(p.build(), vec![String::from("--dev")]);
    let q = p.clone();
    assert_eq!(q.chain.as_deref(), Some("local"));
    assert!(q.alice && !q.dev);
}

#[test]
fn node_new_points_at_seed() {
    let node = Node::new();
    assert_eq!(node.binary_name, "seed");
    assert_eq!(node.path(), "/home/marko/Projects/centrality/seed/target/debug/seed");
    assert_eq!(node.storage_path, "");
    assert_eq!(node.pid(), None);
    assert_eq!(node.args(), vec![String::from("--dev")]);
}

#[test]
fn node_default_is_empty() {
    let node = Node::default();
    assert_eq!(node.binary_name, "");
    assert_eq!(node.path(), "");
    assert_eq!(node.pid(), None);
    assert!(node.args.dev);
}

#[test]
fn node_setters_change_one_field() {
    let mut node = Node::new();
    node.set_binary_name(String::from("other"));
    node.set_binary_path(String::from("/bin/other"));
    node.set_storage_path(String::from("/tmp/store"));
    assert_eq!(node.binary_name, "other");
    assert_eq!(node.path(), "/bin/other");
    assert_eq!(node.storage_path, "/tmp/store");
    assert_eq!(node.pid(), None);
}

#[test]
fn node_pid_follows_refresh() {
    let mut node = Node::new();
    node.refresh(Some(ProcessInformation { pid: 4242 }));
    assert_eq!(node.pid(), Some(4242));
    node.refresh(None);
    assert_eq!(node.pid(), None);
}

#[test]
fn stop_refused_when_node_not_running() {
    let mut manager: NodeManager<u32> = NodeManager(Some(9));
    let node = Node::new();
    assert_eq!(
        manager.stop_node(&node).err(),
        Some(String::from("Cannot stop node. Node is not running."))
    );
    assert_eq!(manager.0, Some(9));
}

#[test]
fn stop_refused_without_child() {
    let mut manager: NodeManager<u32> = NodeManager::default();
    let mut node = Node::new();
    node.refresh(Some(ProcessInformation { pid: 1 }));
    assert_eq!(
        manager.stop_node(&node).err(),
        Some(String::from("Cannot stop node. Node is not running. 2"))
    );
    assert_eq!(manager.0, None);
}

#[test]
fn stop_hands_out_child() {
    let mut manager: NodeManager<u32> = NodeManager(Some(9));
    let mut node = Node::new();
    node.refresh(Some(ProcessInformation { pid: 1 }));
    assert_eq!(manager.stop_node(&node), Ok((9, String::from("Node is killed"))));
    assert_eq!(manager.0, None);
}

#[test]
fn start_refused_when_running() {
    let manager: NodeManager<u32> = NodeManager::default();
    let mut node = Node::new();
    node.refresh(Some(ProcessInformation { pid: 1 }));
    assert_eq!(manager.start_node(&node), Err(String::from("Node is already running")));
}

#[test]
fn start_gives_command_and_arguments() {
    let manager: NodeManager<u32> = NodeManager::default();
    let node = Node::new();
    assert_eq!(
        manager.start_node(&node),
        Ok((
            String::from("/home/marko/Projects/centrality/seed/target/debug/seed"),
            vec![String::from("--dev")]
        ))
    );
}

#[test]
fn record_start_keeps_child() {
    let mut manager: NodeManager<u32> = NodeManager::default();
    assert_eq!(manager.record_start(Ok(5)), Ok(String::from("New process is created")));
    assert_eq!(manager.0, Some(5));
}

#[test]
fn record_start_reports_spawn_error() {
    let mut manager: NodeManager<u32> = NodeManager(Some(3));
    assert_eq!(
        manager.record_start(Err(String::from("No such file or directory (os error 2)"))),
        Err(String::from("No such file or directory (os error 2)"))
    );
    assert_eq!(manager.0, Some(3));
}

#[test]
fn startable_node_cannot_be_stopped() {
    let mut manager: NodeManager<u32> = NodeManager(Some(1));
    let node = Node::new();
    assert!(manager.start_node(&node).is_ok());
    assert!(manager.stop_node(&node).is_err());
}
