use puprs::accessibility::{snapshot_tree, AXRawNode};

fn raw(id: &str, role: Option<&str>, name: Option<&str>, children: &[&str]) -> AXRawNode {
    AXRawNode {
        node_id: id.to_string(),
        role: role.map(|r| r.to_string()),
        name: name.map(|n| n.to_string()),
        value: None,
        description: None,
        child_ids: children.iter().map(|c| c.to_string()).collect(),
    }
}

#[test]
fn tree_is_built_from_the_first_node() {
    let nodes = vec![
        raw("1", Some("RootWebArea"), Some("Page"), &["2", "3"]),
        raw("2", Some("button"), Some("OK"), &[]),
        raw("3", None, None, &["4"]),
    ];
    let root = snapshot_tree(&nodes).unwrap();
    assert_eq!(root.role, "RootWebArea");
    assert_eq!(root.name.as_deref(), Some("Page"));
    assert_eq!(root.children.len(), 2);
    assert_eq!(root.children[0].role, "button");
    assert_eq!(root.children[1].role, "none");
    // An id that is not listed gives a placeholder.
    assert_eq!(root.children[1].children.len(), 1);
    assert_eq!(root.children[1].children[0].role, "none");
    assert!(root.children[1].children[0].children.is_empty());
}

#[test]
fn cycles_and_repeats_end() {
    let nodes = vec![raw("1", Some("a"), None, &["2", "1", "2"]), raw("2", Some("b"), None, &["1"])];
    let root = snapshot_tree(&nodes).unwrap();
    assert_eq!(root.children.len(), 3);
    assert_eq!(root.children[0].role, "b");
    assert_eq!(root.children[0].children[0].role, "none");
    assert_eq!(root.children[1].role, "none");
    assert_eq!(root.children[2].role, "none");
}

#[test]
fn no_nodes_give_a_placeholder() {
    let root = snapshot_tree(&vec![]).unwrap();
    assert_eq!(root.role, "none");
    assert!(root.children.is_empty());
}
