use transform_plugin::config::Configuration;
use transform_plugin::entry::transform;
use transform_plugin::entry::ConfigChannel;
use transform_plugin::entry::InvocationMetadata;
use transform_plugin::errors::PluginError;
use transform_plugin::invoker::invoke;
use transform_plugin::positions::PositionMap;
use transform_plugin::tree::Node;
use transform_plugin::tree::NodeData;
use transform_plugin::tree::ProgramTree;

fn node(kind: u64, loc: u64, child: Option<Node>, sibling: Option<Node>) -> Node {
    Node {
        data: NodeData { kind, loc, attributed: None, rewritten: false },
        child: child.map(Box::new),
        sibling: sibling.map(Box::new),
    }
}

/// A three-node tree: a root with one child that has one sibling.
fn sample_tree() -> ProgramTree {
    ProgramTree {
        root: Some(Box::new(node(
            10,
            1,
            Some(node(20, 2, None, Some(node(30, 3, None, None)))),
            None,
        ))),
    }
}

fn sample_map() -> PositionMap {
    PositionMap { entries: vec![(1, 100), (2, 200), (3, 300)] }
}

fn metadata_with(payload: Option<&str>) -> InvocationMetadata {
    InvocationMetadata {
        plugin_config: Some(ConfigChannel { payload: payload.map(str::to_owned) }),
        source_map: sample_map(),
    }
}

fn collect(tree: &ProgramTree) -> Vec<NodeData> {
    let mut out = Vec::new();
    let mut stack: Vec<&Node> = Vec::new();
    if let Some(n) = &tree.root {
        stack.push(n);
    }
    while let Some(n) = stack.pop() {
        out.push(n.data);
        if let Some(s) = &n.sibling {
            stack.push(s);
        }
        if let Some(c) = &n.child {
            stack.push(c);
        }
    }
    out
}

#[test]
fn lookup_finds_first_match() {
    let pm = PositionMap { entries: vec![(7, 70), (7, 71), (8, 80)] };
    assert_eq!(pm.lookup(7), Some(70));
    assert_eq!(pm.lookup(8), Some(80));
    assert_eq!(pm.lookup(9), None);
}

#[test]
fn invoke_marks_every_node_when_enabled() {
    let out = invoke(Configuration::All(true), sample_map().into_shared(), sample_tree());
    let nodes = collect(&out);
    assert_eq!(nodes.len(), 3);
    assert!(nodes.iter().all(|d| d.rewritten));
    assert_eq!(nodes[0], NodeData { kind: 10, loc: 1, attributed: Some(100), rewritten: true });
    assert_eq!(nodes[1], NodeData { kind: 20, loc: 2, attributed: Some(200), rewritten: true });
    assert_eq!(nodes[2], NodeData { kind: 30, loc: 3, attributed: Some(300), rewritten: true });
}

#[test]
fn invoke_touches_nothing_when_disabled() {
    let out = invoke(Configuration::All(false), sample_map().into_shared(), sample_tree());
    assert_eq!(out, sample_tree());
}

#[test]
fn invoke_leaves_unmapped_locations_unattributed() {
    let pm = PositionMap { entries: vec![(1, 100)] };
    let out = invoke(Configuration::All(true), pm.into_shared(), sample_tree());
    let nodes = collect(&out);
    assert_eq!(nodes[0].attributed, Some(100));
    assert_eq!(nodes[1].attributed, None);
    assert_eq!(nodes[2].attributed, None);
}

#[test]
fn absent_payload_runs_with_default() {
    let mut tree = sample_tree();
    let r = transform(&mut tree, metadata_with(None));
    assert_eq!(r, Ok(()));
    assert!(collect(&tree).iter().all(|d| d.rewritten));
}

#[test]
fn all_false_payload_runs_with_rules_disabled() {
    let mut tree = sample_tree();
    let r = transform(&mut tree, metadata_with(Some("{\"all\": false}")));
    assert_eq!(r, Ok(()));
    assert_eq!(tree, sample_tree());
}

#[test]
fn malformed_payload_aborts_without_mutation() {
    let mut tree = sample_tree();
    let r = transform(&mut tree, metadata_with(Some("definitely not json")));
    assert_eq!(r, Err(PluginError::ConfigMalformed));
    assert_eq!(tree, sample_tree());
}

#[test]
fn null_payload_runs_with_default() {
    let mut tree = sample_tree();
    let r = transform(&mut tree, metadata_with(Some("null")));
    assert_eq!(r, Ok(()));
    let nodes = collect(&tree);
    assert!(nodes.iter().all(|d| d.rewritten));
    assert_eq!(nodes[0].attributed, Some(100));
}

#[test]
fn missing_channel_aborts_without_mutation() {
    let mut tree = sample_tree();
    let md = InvocationMetadata { plugin_config: None, source_map: sample_map() };
    let r = transform(&mut tree, md);
    assert_eq!(r, Err(PluginError::ConfigChannelMissing));
    assert_eq!(tree, sample_tree());
}

#[test]
fn metadata_accessors_read_the_channel() {
    let md = metadata_with(Some("null"));
    assert!(md.has_config_channel());
    assert_eq!(md.get_plugin_config(), Some(&"null".to_owned()));
    let empty = metadata_with(None);
    assert!(empty.has_config_channel());
    assert_eq!(empty.get_plugin_config(), None);
    let missing = InvocationMetadata { plugin_config: None, source_map: sample_map() };
    assert!(!missing.has_config_channel());
}

#[test]
fn invocations_are_isolated_from_each_other() {
    let mut tree_a = sample_tree();
    let mut tree_b = sample_tree();
    let md_a = InvocationMetadata {
        plugin_config: Some(ConfigChannel { payload: None }),
        source_map: PositionMap { entries: vec![(1, 100), (2, 200), (3, 300)] },
    };
    let md_b = InvocationMetadata {
        plugin_config: Some(ConfigChannel { payload: None }),
        source_map: PositionMap { entries: vec![(1, 900), (2, 901), (3, 902)] },
    };
    assert_eq!(transform(&mut tree_a, md_a), Ok(()));
    assert_eq!(transform(&mut tree_b, md_b), Ok(()));
    let nodes_a = collect(&tree_a);
    let nodes_b = collect(&tree_b);
    // Each invocation saw only its own position table.
    assert_eq!(nodes_a[0].attributed, Some(100));
    assert_eq!(nodes_b[0].attributed, Some(900));
    assert_eq!(nodes_a[2].attributed, Some(300));
    assert_eq!(nodes_b[2].attributed, Some(902));
}
